use crate::apu::timer::Timer;
use vstd::prelude::*;

verus! {

/// The period a sweep moves a timer towards: the period shifted right by `shift` is added
/// (wrapping at 16 bits), or subtracted (one more in ones'-complement mode) saturating at 0.
pub open spec fn sweep_target(period: u16, shift: u8, negate: bool, ones_complement: bool) -> int {
    let change = period as int / vstd::arithmetic::power2::pow2(shift as nat) as int;
    if negate {
        let c = if ones_complement {
            change + 1
        } else {
            change
        };
        if period >= c {
            period - c
        } else {
            0
        }
    } else {
        (period + change) % 0x10000
    }
}

/// Bends a pulse channel's pitch by periodically adjusting its timer's period.
#[derive(Debug, Clone, Copy)]
pub struct Sweep {
    pub divider: u8,
    pub enabled: bool,
    pub negate: bool,
    pub period: u8,
    pub reload: bool,
    pub shift: u8,
    pub muting: bool,
    pub ones_complement: bool,
}

impl Sweep {
    pub fn new(ones_complement: bool) -> (r: Sweep)
        ensures
            r == (Sweep {
                divider: 0,
                enabled: false,
                negate: false,
                period: 0,
                reload: false,
                shift: 0,
                muting: false,
                ones_complement,
            }),
    {
        Sweep {
            divider: 0,
            enabled: false,
            negate: false,
            period: 0,
            reload: false,
            shift: 0,
            muting: false,
            ones_complement,
        }
    }

    /// Whether this step moves the timer: enabled, a nonzero shift and the divider at 0.
    pub open spec fn fires(self) -> bool {
        self.enabled && self.shift != 0 && self.divider == 0
    }

    /// The sweep after one half-frame step on a timer with period `period`. When it fires
    /// it mutes exactly when the target period is above 0x7ff; otherwise it mutes exactly
    /// when the period is below 8. The divider reloads (at 0 or when a reload is pending)
    /// or counts down.
    pub open spec fn clocked(self, period: u16) -> Sweep {
        let target = sweep_target(period, self.shift, self.negate, self.ones_complement);
        Sweep {
            muting: if self.fires() {
                target > 0x7ff
            } else {
                period < 8
            },
            divider: if self.divider == 0 || self.reload {
                self.period
            } else {
                (self.divider - 1) as u8
            },
            reload: false,
            ..self
        }
    }

    /// The timer after the same step: it takes the target period when the sweep fires and
    /// the target is at most 0x7ff.
    pub open spec fn clocked_timer(self, timer: Timer) -> Timer {
        let target = sweep_target(timer.period, self.shift, self.negate, self.ones_complement);
        if self.fires() && target <= 0x7ff {
            Timer { period: target as u16, ..timer }
        } else {
            timer
        }
    }

    pub fn clock(&mut self, timer: &mut Timer)
        requires
            old(self).shift < 16,
        ensures
            *final(self) == old(self).clocked(old(timer).period),
            *final(timer) == old(self).clocked_timer(*old(timer)),
            old(timer).period <= 0x7ff ==> final(timer).period <= 0x7ff,
    {
        self.muting = timer.period < 8;
        if self.enabled && self.shift != 0 && self.divider == 0 {
            self.muting = false;
            let p = timer.period;
            let s = self.shift;
            let mut change_amount = timer.period >> self.shift;
            proof {
                vstd::arithmetic::power2::lemma_pow2_pos(s as nat);
                assert(p >> s == p as nat / vstd::arithmetic::power2::pow2(s as nat)) by {
                    vstd::bits::lemma_u16_shr_is_div(p, s as u16);
                }
                assert(change_amount <= p / 2) by {
                    vstd::arithmetic::power2::lemma_pow2_strictly_increases(0, s as nat);
                    vstd::arithmetic::power2::lemma2_to64();
                    vstd::arithmetic::div_mod::lemma_div_is_ordered_by_denominator(
                        p as int, 2, vstd::arithmetic::power2::pow2(s as nat) as int);
                }
            }
            let target_period = if self.negate {
                if self.ones_complement {
                    change_amount += 1;
                }
                timer.period.saturating_sub(change_amount)
            } else {
                timer.period.wrapping_add(change_amount)
            };
            if target_period > 0x7ff {
                self.muting = true;
            }
            if !self.muting {
                timer.period = target_period;
            }
        }
        if self.divider == 0 || self.reload {
            self.divider = self.period;
            self.reload = false;
        } else {
            self.divider -= 1;
        }
    }

    /// 0 while muted, else 1.
    pub open spec fn level(self) -> u8 {
        if self.muting {
            0
        } else {
            1
        }
    }

    pub fn amplitude(&self) -> (r: u8)
        ensures
            r == self.level(),
    {
        if self.muting {
            0
        } else {
            1
        }
    }

    /// The sweep after a register write. Bit 7: enabled; bits 4-6: divider period; bit 3:
    /// negate; bits 0-2: shift. A reload is scheduled.
    pub open spec fn with_register(self, data: u8) -> Sweep {
        Sweep {
            enabled: data & 0x80 != 0,
            period: (data / 16) % 8,
            negate: data & 0x08 != 0,
            shift: data % 8,
            reload: true,
            ..self
        }
    }

    pub fn set_sweep(&mut self, data: u8)
        ensures
            *final(self) == old(self).with_register(data),
            final(self).shift < 8,
    {
        assert((data >> 4) & 0x7 == (data / 16) % 8 && data & 0x07 == data % 8) by (bit_vector);
        self.enabled = data & 0x80 != 0;
        self.period = (data >> 4) & 0x7;
        self.negate = data & 0x08 != 0;
        self.shift = data & 0x07;
        self.reload = true;
    }
}

} // verus!
