use crate::apu::envelope::Envelope;
use crate::apu::length_counter::LengthCounter;
use crate::apu::pulse::{half_frame, is_half_frame, is_quarter_frame, quarter_frame};
use crate::apu::timer::Timer;
use vstd::prelude::*;

verus! {

/* these values are different on PAL */
/// The timer periods that the noise period register selects.
pub open spec fn noise_period(index: int) -> u16 {
    seq![4u16, 8, 16, 32, 64, 96, 128, 160, 202, 254, 380, 508, 762, 1016, 2034, 4068][index]
}

/// One step of the 15-bit feedback shift register: shift right by one and feed bit 0
/// xor bit 1 (bit 6 in the short mode) back in at bit 14.
pub open spec fn lfsr_step(shift_register: u16, mode_flag: bool) -> u16 {
    let compare_shift: u16 = if mode_flag {
        6
    } else {
        1
    };
    (shift_register >> 1u16) | (((shift_register ^ (shift_register >> compare_shift)) & 1) << 14u16)
}

proof fn lemma_noise_bits(sr: u16, value: u8, mode: bool)
    ensures
        (sr & 1 != 0) == (sr % 2 == 1),
        value & 0x0f == value % 16,
        0 < sr < 0x8000 ==> 0 < lfsr_step(sr, mode) < 0x8000,
{
    assert(((sr & 1 != 0) == (sr % 2 == 1)) && (value & 0x0f == value % 16) && (0 < sr < 0x8000
        ==> 0 < lfsr_step(sr, mode) < 0x8000)) by (bit_vector);
}

/// The feedback register, which starts at 1, never reaches 0 and stays within 15 bits:
/// each step keeps a nonzero 15-bit value nonzero and within 15 bits.
pub proof fn lemma_lfsr_stays_nonzero(shift_register: u16, mode_flag: bool)
    requires
        0 < shift_register < 0x8000,
    ensures
        0 < lfsr_step(shift_register, mode_flag) < 0x8000,
{
    lemma_noise_bits(shift_register, 0, mode_flag);
}

/// The pseudo-random noise channel.
#[derive(Debug, Clone, Copy)]
pub struct Noise {
    pub envelope: Envelope,
    pub length_counter: LengthCounter,
    pub timer: Timer,
    pub shift_register: u16,  /* NB: only use the lower 15 bits */
    pub mode_flag: bool,
    pub enabled: bool,
}

impl Noise {
    pub fn new() -> (r: Noise)
        ensures
            r.envelope == (Envelope {
                decay_level: 0,
                period_or_volume: 0,
                divider: 0,
                constant_volume: false,
                start_flag: false,
                loop_flag: false,
            }),
            r.length_counter == (LengthCounter { period: 0, count: 0, halt: false }),
            r.timer == (Timer { period: 0, count: 0 }),
            r.shift_register == 1,
            !r.mode_flag,
            !r.enabled,
    {
        Noise {
            envelope: Envelope::new(),
            length_counter: LengthCounter::new(),
            timer: Timer::new(),
            shift_register: 1,
            mode_flag: false,
            enabled: false,
        }
    }

    /// One APU cycle: nothing while disabled; otherwise the timer steps (shifting the
    /// register each time it loops), and at quarter frames the envelope and the length
    /// counter are clocked.
    pub open spec fn ticked(self, apu_counter: u16) -> Noise {
        if !self.enabled {
            self
        } else {
            let quarter = is_quarter_frame(apu_counter);
            Noise {
                timer: self.timer.clocked(),
                shift_register: if self.timer.count == 0 {
                    lfsr_step(self.shift_register, self.mode_flag)
                } else {
                    self.shift_register
                },
                envelope: if quarter {
                    self.envelope.clocked()
                } else {
                    self.envelope
                },
                length_counter: if quarter {
                    self.length_counter.clocked()
                } else {
                    self.length_counter
                },
                ..self
            }
        }
    }

    pub fn tick(&mut self, apu_counter: u16)
        ensures
            *final(self) == old(self).ticked(apu_counter),
    {
        if !self.enabled {
            return;
        }
        if self.timer.clock() {
            let compare_shift: u16 = if self.mode_flag {
                6
            } else {
                1
            };
            let feedback = (self.shift_register ^ (self.shift_register >> compare_shift)) & 1;
            self.shift_register >>= 1;
            self.shift_register |= feedback << 14;
        }
        let is_half = half_frame(apu_counter);
        let is_quarter = quarter_frame(apu_counter);

        if is_quarter {
            self.envelope.clock();
        }

        if is_half || is_quarter {
            self.length_counter.clock();
        }
    }

    /// The output level: the envelope, gated by the length counter and bit 0 of the
    /// shift register.
    pub open spec fn level(self) -> u8 {
        (self.envelope.level() * self.length_counter.level() * (self.shift_register % 2)) as u8
    }

    pub fn amplitude(&self) -> (r: u8)
        ensures
            r == self.level(),
    {
        let a = self.envelope.amplitude();
        let b = self.length_counter.amplitude();
        let sr = self.shift_register;
        let c: u8 = if sr & 1 != 0 {
            1
        } else {
            0
        };
        proof { lemma_noise_bits(sr, 0, false); }
        assert(a * b <= 255 && a * b * c <= 255) by (nonlinear_arith)
            requires
                a <= 255,
                b <= 1,
                c <= 1,
        ;
        a * b * c
    }

    /// The channel enabled or disabled; disabling it silences its length counter.
    pub open spec fn enabled_as(self, enabled: bool) -> Noise {
        Noise {
            enabled,
            length_counter: if self.enabled && !enabled {
                LengthCounter { count: 0, ..self.length_counter }
            } else {
                self.length_counter
            },
            ..self
        }
    }

    pub fn set_enabled(&mut self, enabled: bool)
        ensures
            *final(self) == old(self).enabled_as(enabled),
    {
        if self.enabled && !enabled {
            self.length_counter.silence();
        }
        self.enabled = enabled;
    }

    /// The channel after writing `value` to register `address` (0x400c to 0x400f).
    pub open spec fn written(self, address: u16, value: u8) -> Noise {
        if address == 0x400c {
            Noise {
                length_counter: LengthCounter { halt: value & 0x20 != 0, ..self.length_counter },
                envelope: self.envelope.with_register(value),
                ..self
            }
        } else if address == 0x400e {
            Noise {
                mode_flag: value & 0x80 != 0,
                timer: Timer { period: noise_period(value as int % 16) / 2, ..self.timer },
                ..self
            }
        } else if address == 0x400f {
            Noise {
                length_counter: self.length_counter.loaded(value),
                envelope: self.envelope.started(),
                ..self
            }
        } else {
            self
        }
    }

    pub fn write(&mut self, address: u16, value: u8)
        requires
            0x400c <= address <= 0x400f,
        ensures
            *final(self) == old(self).written(address, value),
    {
        match address {
            0x400c => {
                self.length_counter.set_halt(value & 0x20 != 0);
                self.envelope.set_envelope(value);
                /* TODO constant volume/envelope flag */
                /* TODO volume/envelope divider period */
            },
            0x400d => {  /* unused */
            },
            0x400e => {
                let periods: [u16; 16] = [
                    4, 8, 16, 32, 64, 96, 128, 160, 202, 254, 380, 508, 762, 1016, 2034, 4068,
                ];
                assert(periods@ == seq![4u16, 8, 16, 32, 64, 96, 128, 160, 202, 254, 380, 508, 762, 1016, 2034, 4068]);
                proof { lemma_noise_bits(0, value, false); }
                self.mode_flag = value & 0x80 != 0;
                self.timer.set_period(periods[(value & 0x0f) as usize] / 2);
            },
            _ => {
                self.length_counter.set_lc(value);
                self.envelope.start();
            },
        }
    }
}


/// Ticking the channel keeps its feedback register a nonzero 15-bit value.
pub proof fn lemma_tick_keeps_register(n: Noise, apu_counter: u16)
    requires
        0 < n.shift_register < 0x8000,
    ensures
        0 < n.ticked(apu_counter).shift_register < 0x8000,
{
    lemma_lfsr_stays_nonzero(n.shift_register, n.mode_flag);
}

} // verus!
