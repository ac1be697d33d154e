use crate::apu::timer::Timer;
use vstd::prelude::*;

verus! {

/// Bit-level facts about the shift register and the register writes.
proof fn lemma_dmc_bits(sr: u8, b: u8, value: u8, r: u16)
    ensures
        (sr & 1 != 0) == (sr % 2 == 1),
        sr >> 1 == sr / 2,
        b.wrapping_sub(1) == (b + 255) % 256,
        value & 0x0f == value % 16,
        r >> 2 == r / 4,
        0xc000 | ((value as u16) << 6) == 0xc000 + value as int * 64,
        ((value as u16) << 4) | 1 == value as int * 16 + 1,
{
    assert(((sr & 1 != 0) == (sr % 2 == 1))
        && (sr >> 1 == sr / 2)
        && (b.wrapping_sub(1) == (b + 255) % 256)
        && (value & 0x0f == value % 16)
        && (r >> 2 == r / 4)
        && (0xc000 | ((value as u16) << 6) == 0xc000 + value as int * 64)
        && (((value as u16) << 4) | 1 == value as int * 16 + 1)) by (bit_vector);
}

/* different for PAL */
/// The playback rates (in CPU cycles) that the rate register selects.
pub open spec fn dmc_rate(index: int) -> u16 {
    seq![428u16, 380, 340, 320, 286, 254, 226, 214, 190, 160, 142, 128, 106, 84, 72, 54][index]
}

/// The delta-modulation channel, which plays 1-bit samples fetched from program memory.
#[derive(Debug, Clone, Copy)]
pub struct DMC {
    pub timer: Timer,
    pub bits_remaining: u8,
    pub sample_buffer: Option<u8>,
    pub sample_address: u16,
    pub current_address: u16,
    pub sample_length: u16,
    pub sample_bytes_remaining: u16,
    pub silence_flag: bool,
    pub shift_register: u8,
    pub volume: u8,
    pub irq_enabled: bool,
    pub loop_flag: bool,
    pub rate_index: u16,
    pub enabled: bool,
}

impl DMC {
    pub fn new() -> (r: DMC)
        ensures
            r == (DMC {
                timer: Timer { period: 0, count: 0 },
                bits_remaining: 0,
                sample_buffer: None,
                sample_address: 0,
                current_address: 0,
                sample_length: 0,
                sample_bytes_remaining: 0,
                silence_flag: true,
                shift_register: 0,
                volume: 0,
                irq_enabled: false,
                loop_flag: false,
                rate_index: 0,
                enabled: false,
            }),
    {
        DMC {
            timer: Timer::new(),
            bits_remaining: 0,
            sample_buffer: None,
            sample_address: 0,
            current_address: 0,
            sample_length: 0,
            sample_bytes_remaining: 0,
            silence_flag: true,
            shift_register: 0,
            volume: 0,
            irq_enabled: false,
            loop_flag: false,
            rate_index: 0,
            enabled: false,
        }
    }

    /// The fetch half of a cycle: with the buffer empty and bytes left, the byte `fetched`
    /// (read at the current address) fills the buffer, the address advances (wrapping from
    /// 0xffff to 0x8000) and one byte fewer remains; a looping sample then restarts.
    pub open spec fn after_fetch(self, fetched: u8) -> DMC {
        if self.sample_buffer is None && self.sample_bytes_remaining > 0 {
            let remaining = (self.sample_bytes_remaining - 1) as u16;
            let next = if self.current_address == 0xffff {
                0x8000u16
            } else {
                (self.current_address + 1) as u16
            };
            if remaining == 0 && self.loop_flag {
                DMC {
                    sample_buffer: Some(fetched),
                    current_address: self.sample_address,
                    sample_bytes_remaining: self.sample_length,
                    ..self
                }
            } else {
                DMC {
                    sample_buffer: Some(fetched),
                    current_address: next,
                    sample_bytes_remaining: remaining,
                    ..self
                }
            }
        } else {
            self
        }
    }

    /// The output half of a cycle: when the timer loops, the volume moves by 2 in the
    /// direction of the shift register's low bit (within 0 to 127, unless silenced), the
    /// register shifts, and after the last bit the buffered byte (if any) is loaded.
    pub open spec fn after_output(self) -> DMC {
        if self.timer.count == 0 {
            let volume = if self.silence_flag {
                self.volume
            } else if self.shift_register % 2 == 1 {
                if self.volume < 125 {
                    (self.volume + 2) as u8
                } else {
                    self.volume
                }
            } else if self.volume > 1 {
                (self.volume - 2) as u8
            } else {
                self.volume
            };
            let bits = ((self.bits_remaining + 255) % 256) as u8;
            let shifted = DMC {
                timer: self.timer.clocked(),
                volume,
                shift_register: self.shift_register / 2,
                bits_remaining: bits,
                ..self
            };
            if bits == 0 {
                match self.sample_buffer {
                    None => DMC { silence_flag: true, ..shifted },
                    Some(b) => DMC { silence_flag: false, shift_register: b, sample_buffer: None, ..shifted },
                }
            } else {
                shifted
            }
        } else {
            DMC { timer: self.timer.clocked(), ..self }
        }
    }

    /// The channel wants a sample byte this cycle: it is enabled, its buffer is empty and
    /// bytes remain.
    pub open spec fn wants_byte(self) -> bool {
        self.enabled && self.sample_buffer is None && self.sample_bytes_remaining > 0
    }

    pub fn needs_fetch(&self) -> (r: bool)
        ensures
            r == self.wants_byte(),
    {
        self.enabled && self.sample_buffer.is_none() && self.sample_bytes_remaining > 0
    }

    /// One APU cycle (nothing while disabled). `fetched` is the byte at the current
    /// address, which the caller reads when `needs_fetch` holds; it is ignored otherwise.
    /// The bits counter wraps below zero.
    pub fn tick(&mut self, _apu_counter: u16, fetched: u8)
        ensures
            !old(self).enabled ==> *final(self) == *old(self),
            old(self).enabled ==> *final(self) == old(self).after_fetch(fetched).after_output(),
    {
        if !self.enabled {
            return;
        }
        if self.sample_buffer.is_none() && self.sample_bytes_remaining > 0 {
            self.sample_buffer = Some(fetched);
            if self.current_address == 0xffff {
                self.current_address = 0x8000;
            } else {
                self.current_address += 1;
            }
            self.sample_bytes_remaining -= 1;
            if self.sample_bytes_remaining == 0 && self.loop_flag {
                self.current_address = self.sample_address;
                self.sample_bytes_remaining = self.sample_length;
            }
            /* TODO IRQ interrupt */
        }
        if self.timer.clock() {
            if !self.silence_flag {
                if self.shift_register & 1 != 0 {
                    if self.volume < 125 {
                        self.volume += 2;
                    }
                } else if self.volume > 1 {
                    self.volume -= 2;
                }
            }
            let sr = self.shift_register;
            proof { lemma_dmc_bits(sr, 0, 0, 0); }
            self.shift_register >>= 1;
            let b = self.bits_remaining;
            proof { lemma_dmc_bits(0, b, 0, 0); }
            self.bits_remaining = self.bits_remaining.wrapping_sub(1);
            if self.bits_remaining == 0 {
                if self.sample_buffer.is_none() {
                    self.silence_flag = true;
                } else {
                    self.silence_flag = false;
                    self.shift_register = self.sample_buffer.unwrap();
                    self.sample_buffer = None;
                }
            }
        }
    }

    /// The output level (the delta counter, 0 to 127 in practice).
    pub fn amplitude(&self) -> (r: u8)
        ensures
            r == self.volume,
    {
        self.volume
    }

    pub fn set_enabled(&mut self, enabled: bool)
        ensures
            *final(self) == (DMC { enabled, ..*old(self) }),
    {
        /* TODO: DMC behavior for being disabled is more complex than others */
        self.enabled = enabled;
    }

    /// The channel after writing `value` to register `address` (0x4010 to 0x4013).
    pub open spec fn written(self, address: u16, value: u8) -> DMC {
        if address == 0x4010 {
            /* the rate table counts CPU cycles; the timer counts APU cycles */
            let rate = dmc_rate(value as int % 16) / 4;
            DMC {
                irq_enabled: value & 0x80 != 0,
                loop_flag: value & 0x40 != 0,
                rate_index: rate,
                timer: Timer { period: rate, ..self.timer },
                ..self
            }
        } else if address == 0x4011 {
            DMC { volume: value, ..self }
        } else if address == 0x4012 {
            /* sample addresses start at 0xc000, in steps of 64 bytes */
            let a = (0xc000 + value as int * 64) as u16;
            DMC { sample_address: a, current_address: a, ..self }
        } else {
            /* the sample is (value * 16) + 1 bytes long */
            let l = (value as int * 16 + 1) as u16;
            DMC { sample_length: l, sample_bytes_remaining: l, ..self }
        }
    }

    pub fn write(&mut self, address: u16, value: u8)
        requires
            0x4010 <= address <= 0x4013,
        ensures
            *final(self) == old(self).written(address, value),
    {
        match address {
            0x4010 => {
                let rates: [u16; 16] = [
                    428, 380, 340, 320, 286, 254, 226, 214, 190, 160, 142, 128, 106, 84, 72, 54,
                ];
                assert(rates@ == seq![428u16, 380, 340, 320, 286, 254, 226, 214, 190, 160, 142, 128, 106, 84, 72, 54]);
                proof { lemma_dmc_bits(0, 0, value, 0); }
                self.irq_enabled = value & 0x80 != 0;  /* TODO: clear interrupt flag when cleared */
                self.loop_flag = value & 0x40 != 0;
                /* map from number of CPU cycles to number of APU cycles */
                let r = rates[(value & 0x0f) as usize];
                proof { lemma_dmc_bits(0, 0, 0, r); }
                self.rate_index = r >> 2;
                self.timer.set_period(self.rate_index);
            },
            0x4011 => {
                /* writes value directly, but usually load a sample instead */
                self.volume = value;
            },
            0x4012 => {
                /* memory value is offset from 0xc000, aligned to 64 byte chunks */
                proof { lemma_dmc_bits(0, 0, value, 0); }
                self.sample_address = 0xc000 | ((value as u16) << 6);
                self.current_address = self.sample_address;
            },
            _ => {
                /* actual length is (sample_length * 16) + 1 bytes */
                proof { lemma_dmc_bits(0, 0, value, 0); }
                self.sample_length = ((value as u16) << 4) | 1;
                self.sample_bytes_remaining = self.sample_length;
            },
        }
    }
}

} // verus!
