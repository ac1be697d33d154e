use crate::apu::envelope::Envelope;
use crate::apu::length_counter::{length_table, LengthCounter};
use crate::apu::sweep::Sweep;
use crate::apu::timer::Timer;
use vstd::prelude::*;

verus! {

/* waveform descriptions from https://www.nesdev.org/wiki/APU_Pulse */
/// Step `index` of duty cycle `duty` is high: 12.5%, 25%, 50% and 25% negated.
pub open spec fn pulse_duty(duty: int, index: int) -> bool {
    seq![
        seq![false, true, false, false, false, false, false, false],
        seq![false, true, true, false, false, false, false, false],
        seq![false, true, true, true, true, false, false, false],
        seq![true, false, false, true, true, true, true, true],
    ][duty][index]
}

/// The frame-counter steps (counted in APU cycles) at which half-frame events happen.
pub open spec fn is_half_frame(apu_counter: u16) -> bool {
    apu_counter == 7456 || apu_counter == 14914
}

/// Quarter-frame events happen at every half frame and in between.
pub open spec fn is_quarter_frame(apu_counter: u16) -> bool {
    is_half_frame(apu_counter) || apu_counter == 3728 || apu_counter == 11185
}

pub fn half_frame(apu_counter: u16) -> (r: bool)
    ensures
        r == is_half_frame(apu_counter),
{
    apu_counter == 7456 || apu_counter == 14914
}

pub fn quarter_frame(apu_counter: u16) -> (r: bool)
    ensures
        r == is_quarter_frame(apu_counter),
{
    half_frame(apu_counter) || apu_counter == 3728 || apu_counter == 11185
}

/// Steps through the eight positions of the selected duty cycle, one step each time its
/// timer loops.
#[derive(Debug, Clone, Copy)]
pub struct PulseSequencer {
    pub timer: Timer,
    pub duty: usize,
    pub duty_index: usize,
}

impl PulseSequencer {
    pub open spec fn wf(&self) -> bool {
        self.duty < 4 && self.duty_index < 8 && self.timer.period <= 0x7ff
    }

    pub fn new() -> (r: PulseSequencer)
        ensures
            r == (PulseSequencer { timer: Timer { period: 0, count: 0 }, duty: 0, duty_index: 0 }),
            r.wf(),
    {
        PulseSequencer { timer: Timer::new(), duty: 0, duty_index: 0 }
    }

    pub open spec fn clocked(self) -> PulseSequencer {
        PulseSequencer {
            timer: self.timer.clocked(),
            duty_index: if self.timer.count == 0 {
                ((self.duty_index + 1) % 8) as usize
            } else {
                self.duty_index
            },
            ..self
        }
    }

    pub fn clock(&mut self)
        requires
            old(self).wf(),
        ensures
            *final(self) == old(self).clocked(),
            final(self).wf(),
    {
        if self.timer.clock() {
            self.duty_index = (self.duty_index + 1) % 8
        }
    }

    /// 1 when the current step of the duty cycle is high and the period is at least 8.
    pub open spec fn level(self) -> u8 {
        if self.timer.period >= 8 && pulse_duty(self.duty as int, self.duty_index as int) {
            1
        } else {
            0
        }
    }

    pub fn amplitude(&self) -> (r: u8)
        requires
            self.wf(),
        ensures
            r == self.level(),
    {
        let duties: [[bool; 8]; 4] = [
            [false, true, false, false, false, false, false, false],
            [false, true, true, false, false, false, false, false],
            [false, true, true, true, true, false, false, false],
            [true, false, false, true, true, true, true, true],
        ];
        let row = duties[self.duty];
        assert(duties@[self.duty as int]@ == seq![
            seq![false, true, false, false, false, false, false, false],
            seq![false, true, true, false, false, false, false, false],
            seq![false, true, true, true, true, false, false, false],
            seq![true, false, false, true, true, true, true, true],
        ][self.duty as int]);
        if self.timer.period >= 8 && row[self.duty_index] {
            1
        } else {
            0
        }
    }
}

/// The sequencer at step `i` of its duty cycle.
pub open spec fn at_step(q: PulseSequencer, i: int) -> PulseSequencer {
    PulseSequencer { duty_index: i as usize, ..q }
}

/// How many of the eight steps of the sequencer's duty cycle are high.
pub open spec fn high_steps(q: PulseSequencer) -> int {
    at_step(q, 0).level() + at_step(q, 1).level() + at_step(q, 2).level() + at_step(q, 3).level()
        + at_step(q, 4).level() + at_step(q, 5).level() + at_step(q, 6).level() + at_step(
        q,
        7,
    ).level()
}

/// The four duty cycles are high on 1, 2, 4 and 6 of their eight steps (12.5%, 25%, 50%
/// and 75%), the 75% one being the 25% one inverted; a period below 8 silences the
/// channel.
pub proof fn lemma_duty_cycles(q: PulseSequencer)
    requires
        q.duty < 4,
    ensures
        q.timer.period >= 8 ==> high_steps(q) == if q.duty == 0 {
            1int
        } else if q.duty == 1 {
            2int
        } else if q.duty == 2 {
            4int
        } else {
            6int
        },
        q.timer.period < 8 ==> high_steps(q) == 0,
        forall|i: int|
            0 <= i < 8 ==> #[trigger] at_step(PulseSequencer { duty: 3, ..q }, i).level() + at_step(
                PulseSequencer { duty: 1, ..q },
                i,
            ).level() == if q.timer.period >= 8 {
                1int
            } else {
                0int
            },
{
    assert forall|i: int|
        0 <= i < 8 implies #[trigger] at_step(PulseSequencer { duty: 3, ..q }, i).level() + at_step(
        PulseSequencer { duty: 1, ..q },
        i,
    ).level() == if q.timer.period >= 8 {
        1int
    } else {
        0int
    } by {
        assert(i == 0 || i == 1 || i == 2 || i == 3 || i == 4 || i == 5 || i == 6 || i == 7);
    }
}


/// A square-wave channel.
#[derive(Debug, Clone, Copy)]
pub struct Pulse {
    pub first_address: u16,
    pub envelope: Envelope,
    pub length_counter: LengthCounter,
    pub sweep: Sweep,
    pub sequencer: PulseSequencer,
    pub enabled: bool,
}

impl Pulse {
    pub open spec fn wf(&self) -> bool {
        &&& self.sequencer.wf()
        &&& self.sweep.shift < 8
        &&& self.first_address <= 0xfffc
    }

    /// A pulse channel whose four registers start at `first_address`; the second channel's
    /// sweep subtracts in ones' complement.
    pub fn new(first_address: u16, is_second_channel: bool) -> (r: Pulse)
        requires
            first_address <= 0xfffc,
        ensures
            r.wf(),
            r.first_address == first_address,
            r.envelope == (Envelope {
                decay_level: 0,
                period_or_volume: 0,
                divider: 0,
                constant_volume: false,
                start_flag: false,
                loop_flag: false,
            }),
            r.length_counter == (LengthCounter { period: 0, count: 0, halt: false }),
            r.sweep == (Sweep {
                divider: 0,
                enabled: false,
                negate: false,
                period: 0,
                reload: false,
                shift: 0,
                muting: false,
                ones_complement: is_second_channel,
            }),
            r.sequencer == (PulseSequencer { timer: Timer { period: 0, count: 0 }, duty: 0, duty_index: 0 }),
            !r.enabled,
    {
        Pulse {
            first_address,
            envelope: Envelope::new(),
            length_counter: LengthCounter::new(),
            sweep: Sweep::new(is_second_channel),
            sequencer: PulseSequencer::new(),
            enabled: false,
        }
    }

    /// One APU cycle: nothing while disabled; otherwise the sequencer steps, and at
    /// quarter frames the envelope, at half frames also the length counter and the sweep
    /// (which may retune the sequencer's timer) are clocked.
    pub open spec fn ticked(self, apu_counter: u16) -> Pulse {
        if !self.enabled {
            self
        } else {
            let seq1 = self.sequencer.clocked();
            let half = is_half_frame(apu_counter);
            Pulse {
                envelope: if is_quarter_frame(apu_counter) {
                    self.envelope.clocked()
                } else {
                    self.envelope
                },
                length_counter: if half {
                    self.length_counter.clocked()
                } else {
                    self.length_counter
                },
                sweep: if half {
                    self.sweep.clocked(seq1.timer.period)
                } else {
                    self.sweep
                },
                sequencer: if half {
                    PulseSequencer { timer: self.sweep.clocked_timer(seq1.timer), ..seq1 }
                } else {
                    seq1
                },
                ..self
            }
        }
    }

    pub fn tick(&mut self, apu_counter: u16)
        requires
            old(self).wf(),
        ensures
            final(self).wf(),
            *final(self) == old(self).ticked(apu_counter),
    {
        if !self.enabled {
            return;
        }
        /* on every tick, clock sequencer timer  */
        self.sequencer.clock();

        let is_half = half_frame(apu_counter);
        let is_quarter = quarter_frame(apu_counter);

        if is_quarter {
            self.envelope.clock();

            if is_half {
                self.length_counter.clock();
                self.sweep.clock(&mut self.sequencer.timer);
            }
        }
    }

    /// The channel enabled or disabled; disabling it silences its length counter.
    pub open spec fn enabled_as(self, enabled: bool) -> Pulse {
        Pulse {
            enabled,
            length_counter: if self.enabled && !enabled {
                LengthCounter { count: 0, ..self.length_counter }
            } else {
                self.length_counter
            },
            ..self
        }
    }

    pub fn set_enabled(&mut self, enabled: bool)
        ensures
            *final(self) == old(self).enabled_as(enabled),
    {
        if self.enabled && !enabled {
            self.length_counter.silence();
        }
        self.enabled = enabled;
    }

    /// The channel after a write to its first register: bits 6-7 select the duty cycle,
    /// bit 5 halts the length counter, bits 0-5 set the envelope.
    pub open spec fn with_duty_envelope(self, byte0: u8) -> Pulse {
        Pulse {
            sequencer: PulseSequencer { duty: (byte0 / 64) as usize, ..self.sequencer },
            envelope: self.envelope.with_register(byte0),
            length_counter: LengthCounter { halt: byte0 & 0x20 != 0, ..self.length_counter },
            ..self
        }
    }

    /// The channel after a write to its fourth register: the timer's high bits and the
    /// note length; the duty cycle and the envelope restart.
    pub open spec fn with_lc_timer_hi(self, byte3: u8) -> Pulse {
        Pulse {
            sequencer: PulseSequencer {
                timer: self.sequencer.timer.with_hi(byte3),
                duty_index: 0,
                ..self.sequencer
            },
            length_counter: self.length_counter.loaded(byte3),
            envelope: self.envelope.started(),
            ..self
        }
    }

    /// The channel after writing `value` to the register at `offset` (0 to 3).
    pub open spec fn written(self, offset: int, value: u8) -> Pulse {
        if offset == 0 {
            self.with_duty_envelope(value)
        } else if offset == 1 {
            Pulse { sweep: self.sweep.with_register(value), ..self }
        } else if offset == 2 {
            Pulse {
                sequencer: PulseSequencer { timer: self.sequencer.timer.with_lo(value), ..self.sequencer },
                ..self
            }
        } else {
            self.with_lc_timer_hi(value)
        }
    }

    pub fn set_duty_envelope(&mut self, byte0: u8)
        requires
            old(self).wf(),
        ensures
            final(self).wf(),
            *final(self) == old(self).with_duty_envelope(byte0),
    {
        assert((byte0 & 0xc0) >> 6 == byte0 / 64) by (bit_vector);
        self.sequencer.duty = ((byte0 & 0xc0) >> 6) as usize;  /* NB: does not change duty_index */
        self.envelope.set_envelope(byte0);
        self.length_counter.set_halt(byte0 & 0x20 != 0);
    }

    pub fn set_lc_timer_hi(&mut self, byte3: u8)
        requires
            old(self).wf(),
        ensures
            final(self).wf(),
            *final(self) == old(self).with_lc_timer_hi(byte3),
    {
        self.sequencer.timer.set_timer_hi(byte3);
        self.length_counter.set_lc(byte3);

        /* side-effects on write */
        self.sequencer.duty_index = 0;
        self.envelope.start();
    }

    /// The channel's output level (0 to 15): length counter, envelope, duty cycle and sweep
    /// gate one another.
    pub fn amplitude(&self) -> (r: u8)
        requires
            self.wf(),
        ensures
            r == self.length_counter.level() * self.envelope.level() * self.sequencer.level()
                * self.sweep.level(),
    {
        let a = self.length_counter.amplitude();
        let b = self.envelope.amplitude();
        let c = self.sequencer.amplitude();
        let d = self.sweep.amplitude();
        assert(a * b <= 255 && a * b * c <= 255 && a * b * c * d <= 255) by (nonlinear_arith)
            requires
                a <= 1,
                b <= 255,
                c <= 1,
                d <= 1,
        ;
        a * b * c * d
    }

    /// The four register addresses.
    pub fn get_addresses(&self) -> (r: Vec<u16>)
        requires
            self.wf(),
        ensures
            r@ == seq![
                self.first_address,
                (self.first_address + 1) as u16,
                (self.first_address + 2) as u16,
                (self.first_address + 3) as u16,
            ],
    {
        let a = self.first_address;
        let mut v: Vec<u16> = Vec::new();
        v.push(a);
        v.push(a + 1);
        v.push(a + 2);
        v.push(a + 3);
        v
    }

    /// A write to one of the four registers.
    pub fn write(&mut self, address: u16, value: u8)
        requires
            old(self).wf(),
            old(self).first_address <= address < old(self).first_address + 4,
        ensures
            final(self).wf(),
            *final(self) == old(self).written(address - old(self).first_address, value),
    {
        match address - self.first_address {
            0 => {
                self.set_duty_envelope(value);
            },
            1 => {
                self.sweep.set_sweep(value);
            },
            2 => {
                self.sequencer.timer.set_timer_lo(value);
            },
            _ => {
                self.set_lc_timer_hi(value);
            },
        }
    }
}

} // verus!
