use crate::apu::length_counter::LengthCounter;
use crate::apu::pulse::{half_frame, is_half_frame, is_quarter_frame, quarter_frame};
use crate::apu::timer::Timer;
use vstd::prelude::*;

verus! {

/// Steps through the 32-step triangle waveform, one step each time its timer loops.
#[derive(Debug, Clone, Copy)]
pub struct TriangleSequencer {
    pub sequence_index: u8,
    pub timer: Timer,
}

impl TriangleSequencer {
    pub fn new() -> (r: TriangleSequencer)
        ensures
            r == (TriangleSequencer { sequence_index: 0, timer: Timer { period: 0, count: 0 } }),
    {
        TriangleSequencer { sequence_index: 0, timer: Timer::new() }
    }

    pub open spec fn clocked(self) -> TriangleSequencer {
        TriangleSequencer {
            timer: self.timer.clocked(),
            sequence_index: if self.timer.count == 0 {
                ((self.sequence_index + 1) % 32) as u8
            } else {
                self.sequence_index
            },
        }
    }

    pub fn clock(&mut self)
        requires
            old(self).sequence_index < 32,
        ensures
            *final(self) == old(self).clocked(),
            final(self).sequence_index < 32,
    {
        if self.timer.clock() {
            self.sequence_index = (self.sequence_index + 1) % 32;
        }
    }

    /// The waveform counts down from 15 to 0 over the first 16 steps and back up over the
    /// next 16.
    pub open spec fn level(self) -> u8 {
        if self.sequence_index < 16 {
            (15 - self.sequence_index % 16) as u8
        } else {
            self.sequence_index % 16
        }
    }

    pub fn amplitude(&self) -> (r: u8)
        ensures
            r == self.level(),
    {
        let mut vol = self.sequence_index % 16;

        if self.sequence_index < 16 {
            vol = 15 - vol;
        }

        vol
    }
}

/// The triangle channel's second length control, clocked at quarter frames.
#[derive(Debug, Clone, Copy)]
pub struct LinearCounter {
    pub control_flag: bool,
    pub count: u8,
    pub reload_value: u8,
    pub reload_flag: bool,
}

impl LinearCounter {
    pub fn new() -> (r: LinearCounter)
        ensures
            r == (LinearCounter {
                control_flag: false,
                count: 0,
                reload_value: 0,
                reload_flag: false,
            }),
    {
        LinearCounter { control_flag: false, count: 0, reload_value: 0, reload_flag: false }
    }

    /// Reloads when flagged, else counts down to 0; the reload flag stays only while the
    /// control flag is set.
    pub open spec fn clocked(self) -> LinearCounter {
        LinearCounter {
            count: if self.reload_flag {
                self.reload_value
            } else if self.count != 0 {
                (self.count - 1) as u8
            } else {
                0
            },
            reload_flag: self.reload_flag && self.control_flag,
            ..self
        }
    }

    pub fn clock(&mut self)
        ensures
            *final(self) == old(self).clocked(),
    {
        if self.reload_flag {
            self.count = self.reload_value;
        } else if self.count != 0 {
            self.count -= 1;
        }
        if !self.control_flag {
            self.reload_flag = false;
        }
    }

    pub fn is_active(&self) -> (r: bool)
        ensures
            r == (self.count > 0),
    {
        self.count > 0
    }

    pub fn set_reload(&mut self)
        ensures
            *final(self) == (LinearCounter { reload_flag: true, ..*old(self) }),
    {
        self.reload_flag = true;
    }

    /// Bit 7: control flag; bits 0-6: reload value.
    pub fn load_lin_counter_data(&mut self, data: u8)
        ensures
            *final(self) == (LinearCounter {
                control_flag: data & 0x80 != 0,
                reload_value: data % 128,
                ..*old(self)
            }),
    {
        assert(data & 0x7f == data % 128) by (bit_vector);
        self.control_flag = data & 0x80 != 0;
        self.reload_value = data & 0x7f;
    }
}

/// The triangle-wave channel.
#[derive(Debug, Clone, Copy)]
pub struct Triangle {
    pub sequencer: TriangleSequencer,
    pub length_counter: LengthCounter,
    pub linear_counter: LinearCounter,
    pub enabled: bool,
}

impl Triangle {
    pub open spec fn wf(&self) -> bool {
        self.sequencer.sequence_index < 32
    }

    pub fn new() -> (r: Triangle)
        ensures
            r.wf(),
            r.sequencer == (TriangleSequencer { sequence_index: 0, timer: Timer { period: 0, count: 0 } }),
            r.length_counter == (LengthCounter { period: 0, count: 0, halt: false }),
            r.linear_counter == (LinearCounter {
                control_flag: false,
                count: 0,
                reload_value: 0,
                reload_flag: false,
            }),
            !r.enabled,
    {
        Triangle {
            sequencer: TriangleSequencer::new(),
            length_counter: LengthCounter::new(),
            linear_counter: LinearCounter::new(),
            enabled: false,
        }
    }

    /// One APU cycle: nothing while disabled; otherwise the linear counter at quarter
    /// frames and the length counter at half frames are clocked, then the sequencer steps
    /// if both counters are nonzero.
    pub open spec fn ticked(self, apu_counter: u16) -> Triangle {
        if !self.enabled {
            self
        } else {
            let lin = if is_quarter_frame(apu_counter) {
                self.linear_counter.clocked()
            } else {
                self.linear_counter
            };
            let len = if is_half_frame(apu_counter) {
                self.length_counter.clocked()
            } else {
                self.length_counter
            };
            Triangle {
                linear_counter: lin,
                length_counter: len,
                sequencer: if lin.count > 0 && len.count > 0 {
                    self.sequencer.clocked()
                } else {
                    self.sequencer
                },
                ..self
            }
        }
    }

    pub fn tick(&mut self, apu_counter: u16)
        requires
            old(self).wf(),
        ensures
            final(self).wf(),
            *final(self) == old(self).ticked(apu_counter),
    {
        if !self.enabled {
            return;
        }
        let is_half = half_frame(apu_counter);
        let is_quarter = quarter_frame(apu_counter);

        if is_quarter {
            self.linear_counter.clock();

            if is_half {
                self.length_counter.clock();
            }
        }

        /* only clock sequence timer if both counters are non-zero */
        if self.linear_counter.is_active() && self.length_counter.is_active() {
            self.sequencer.clock();
        }
    }

    /// The waveform level, gated by the length counter.
    pub fn amplitude(&self) -> (r: u8)
        ensures
            r == self.sequencer.level() * self.length_counter.level(),
    {
        let a = self.sequencer.amplitude();
        let b = self.length_counter.amplitude();
        assert(a * b <= 255) by (nonlinear_arith)
            requires
                a <= 255,
                b <= 1,
        ;
        a * b
    }

    /// The channel enabled or disabled; disabling it silences its length counter.
    pub open spec fn enabled_as(self, enabled: bool) -> Triangle {
        Triangle {
            enabled,
            length_counter: if self.enabled && !enabled {
                LengthCounter { count: 0, ..self.length_counter }
            } else {
                self.length_counter
            },
            ..self
        }
    }

    pub fn set_enabled(&mut self, enabled: bool)
        ensures
            *final(self) == old(self).enabled_as(enabled),
    {
        if self.enabled && !enabled {
            self.length_counter.silence();
        }
        self.enabled = enabled;
    }

    /// The channel after writing `value` to register `address` (0x4008 to 0x400b).
    pub open spec fn written(self, address: u16, value: u8) -> Triangle {
        if address == 0x4008 {
            Triangle {
                length_counter: LengthCounter { halt: value & 0x80 != 0, ..self.length_counter },
                linear_counter: LinearCounter {
                    control_flag: value & 0x80 != 0,
                    reload_value: value % 128,
                    ..self.linear_counter
                },
                ..self
            }
        } else if address == 0x400a {
            Triangle {
                sequencer: TriangleSequencer { timer: self.sequencer.timer.with_lo(value), ..self.sequencer },
                ..self
            }
        } else if address == 0x400b {
            Triangle {
                sequencer: TriangleSequencer { timer: self.sequencer.timer.with_hi(value), ..self.sequencer },
                length_counter: self.length_counter.loaded(value),
                linear_counter: LinearCounter { reload_flag: true, ..self.linear_counter },
                ..self
            }
        } else {
            self
        }
    }

    pub fn write(&mut self, address: u16, value: u8)
        requires
            0x4008 <= address <= 0x400b,
        ensures
            *final(self) == old(self).written(address, value),
    {
        match address {
            0x4008 => {
                self.length_counter.set_halt(value & 0x80 != 0);
                self.linear_counter.load_lin_counter_data(value);
            },
            0x4009 => {  /* unused */
            },
            0x400a => {
                self.sequencer.timer.set_timer_lo(value);
            },
            _ => {
                self.sequencer.timer.set_timer_hi(value);
                self.length_counter.set_lc(value);
                self.linear_counter.set_reload();
            },
        }
    }
}

} // verus!
