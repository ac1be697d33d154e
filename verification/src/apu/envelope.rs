use vstd::prelude::*;

verus! {

/// A channel's volume: either constant, or a decay from 15 to 0 (repeating when the loop
/// flag is set) paced by a divider.
#[derive(Debug, Clone, Copy)]
pub struct Envelope {
    pub decay_level: u8,
    pub period_or_volume: u8,
    pub divider: u8,
    pub constant_volume: bool,
    pub start_flag: bool,
    pub loop_flag: bool,
}

impl Envelope {
    pub fn new() -> (r: Envelope)
        ensures
            r == (Envelope {
                decay_level: 0,
                period_or_volume: 0,
                divider: 0,
                constant_volume: false,
                start_flag: false,
                loop_flag: false,
            }),
    {
        Envelope {
            decay_level: 0,
            period_or_volume: 0,
            divider: 0,
            constant_volume: false,
            start_flag: false,
            loop_flag: false,
        }
    }

    /// One quarter-frame step. A pending start restarts the decay at 15; otherwise, when
    /// the divider has run out it is reloaded and the decay level steps down (or, at 0 with
    /// the loop flag, back up to 15); otherwise the divider counts down.
    pub open spec fn clocked(self) -> Envelope {
        if self.start_flag {
            Envelope { start_flag: false, decay_level: 15, divider: self.period_or_volume, ..self }
        } else if self.divider == 0 {
            Envelope {
                divider: self.period_or_volume,
                decay_level: if self.decay_level == 0 && self.loop_flag {
                    15
                } else if self.decay_level > 0 {
                    (self.decay_level - 1) as u8
                } else {
                    0
                },
                ..self
            }
        } else {
            Envelope { divider: (self.divider - 1) as u8, ..self }
        }
    }

    pub fn clock(&mut self)
        ensures
            *final(self) == old(self).clocked(),
    {
        /* if the start flag is set, reset the envelope: decay level is maxed out, and
         * the divider goes back to the beignning of the period
         */
        if self.start_flag {
            self.start_flag = false;
            self.decay_level = 15;
            self.divider = self.period_or_volume;
        /* whenever the divider reaches zero, we loop around and then modify the decay level
         * appropriately: we either decrement it, or if the loop flag is set,
         * we max it out again (creating a sawtooth wave)
         */
        } else if self.divider == 0 {
            self.divider = self.period_or_volume;
            if self.decay_level == 0 && self.loop_flag
            /* halt flag is also loop flag */
            {
                self.decay_level = 15;
            } else if self.decay_level > 0 {
                self.decay_level -= 1;
            }
        /* otherwise decrement the divider */
        } else {
            self.divider -= 1;
        }
    }

    /// The volume level: the constant volume, or the current decay level.
    pub open spec fn level(self) -> u8 {
        if self.constant_volume {
            self.period_or_volume
        } else {
            self.decay_level
        }
    }

    pub fn amplitude(&self) -> (r: u8)
        ensures
            r == self.level(),
    {
        if self.constant_volume {
            self.period_or_volume
        } else {
            self.decay_level
        }
    }

    /// The envelope after a register write. Bits 0-3: volume or divider period; bit 4:
    /// constant volume; bit 5: loop.
    pub open spec fn with_register(self, data: u8) -> Envelope {
        Envelope {
            period_or_volume: data % 16,
            constant_volume: data & 0x10 != 0,
            loop_flag: data & 0x20 != 0,
            ..self
        }
    }

    pub fn set_envelope(&mut self, data: u8)
        ensures
            *final(self) == old(self).with_register(data),
            final(self).period_or_volume < 16,
    {
        assert(data & 0xf == data % 16) by (bit_vector);
        self.period_or_volume = data & 0xf;
        self.constant_volume = data & 0x10 != 0;
        self.loop_flag = data & 0x20 != 0;
    }

    /// The envelope with a restart pending.
    pub open spec fn started(self) -> Envelope {
        Envelope { start_flag: true, decay_level: 0, ..self }
    }

    pub fn start(&mut self)
        ensures
            *final(self) == old(self).started(),
    {
        self.start_flag = true;
        self.decay_level = 0;
    }
}

} // verus!
