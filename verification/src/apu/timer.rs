use vstd::prelude::*;

verus! {

/// A divider that counts down from its period and reloads when it passes zero.
#[derive(Debug, Clone, Copy)]
pub struct Timer {
    pub period: u16,
    pub count: u16,
}

impl Timer {
    pub fn new() -> (r: Timer)
        ensures
            r == (Timer { period: 0, count: 0 }),
    {
        Timer { period: 0, count: 0 }
    }

    /// One step: at zero the count reloads from the period, otherwise it counts down.
    pub open spec fn clocked(self) -> Timer {
        Timer {
            count: if self.count == 0 {
                self.period
            } else {
                (self.count - 1) as u16
            },
            ..self
        }
    }

    /* Returns true if the timer looped */
    pub fn clock(&mut self) -> (looped: bool)
        ensures
            looped == (old(self).count == 0),
            *final(self) == old(self).clocked(),
    {
        if self.count == 0 {
            self.count = self.period;
            true
        } else {
            self.count -= 1;
            false
        }
    }

    /* for setting the period directly */
    pub fn set_period(&mut self, period: u16)
        ensures
            *final(self) == (Timer { period, ..*old(self) }),
    {
        self.period = period;
    }

    /// The timer with the low byte of its period replaced.
    pub open spec fn with_lo(self, data: u8) -> Timer {
        Timer { period: ((self.period / 256) * 256 + data) as u16, ..self }
    }

    /// The timer with the high bits of its period replaced by the low three bits of
    /// `data`; the period keeps its low byte and is at most 0x7ff afterwards.
    pub open spec fn with_hi(self, data: u8) -> Timer {
        Timer { period: (self.period % 256 + (data % 8) * 256) as u16, ..self }
    }

    pub fn set_timer_lo(&mut self, data: u8)
        ensures
            *final(self) == old(self).with_lo(data),
    {
        let p = self.period;
        assert((p & 0xff00) | (data as u16) == (p / 256) * 256 + data) by (bit_vector);
        self.period = (self.period & 0xff00) | (data as u16);
    }

    pub fn set_timer_hi(&mut self, data: u8)
        ensures
            *final(self) == old(self).with_hi(data),
            final(self).period <= 0x7ff,
    {
        let p = self.period;
        assert((p & 0xff) | (((data as u16) & 0x7) << 8) == p % 256 + (data % 8) * 256)
            by (bit_vector);
        self.period = (self.period & 0xff) | (((data as u16) & 0x7) << 8);
    }
}

} // verus!
