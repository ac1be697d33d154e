use vstd::prelude::*;

verus! {

/// The note lengths that a length-counter load selects, indexed by the top five bits of
/// the written byte.
pub open spec fn length_table(index: int) -> u8 {
    seq![
        10u8, 254, 20, 2, 40, 4, 80, 6,
        160, 8, 60, 10, 14, 12, 26, 14,
        12, 16, 24, 18, 48, 20, 96, 22,
        192, 24, 72, 26, 16, 28, 32, 30,
    ][index]
}

/// Counts a note's length down at each half frame; the channel is silent at zero.
#[derive(Debug, Clone, Copy)]
pub struct LengthCounter {
    pub period: u8,
    pub count: u8,
    pub halt: bool,
}

impl LengthCounter {
    pub fn new() -> (r: LengthCounter)
        ensures
            r == (LengthCounter { period: 0, count: 0, halt: false }),
    {
        LengthCounter { period: 0, count: 0, halt: false }
    }

    /// Counts down by one unless halted or already at zero.
    pub open spec fn clocked(self) -> LengthCounter {
        LengthCounter {
            count: if !self.halt && self.count != 0 {
                (self.count - 1) as u8
            } else {
                self.count
            },
            ..self
        }
    }

    pub fn clock(&mut self)
        ensures
            *final(self) == old(self).clocked(),
    {
        if !self.halt && self.count != 0 {
            self.count -= 1;
        }
    }

    /// 1 while the note lasts, else 0.
    pub open spec fn level(self) -> u8 {
        if self.count > 0 {
            1
        } else {
            0
        }
    }

    pub fn amplitude(&self) -> (r: u8)
        ensures
            r == self.level(),
    {
        if self.count > 0 {
            1
        } else {
            0
        }
    }

    pub fn is_active(&self) -> (r: bool)
        ensures
            r == (self.count > 0),
    {
        self.count > 0
    }

    pub fn set_halt(&mut self, halt: bool)
        ensures
            *final(self) == (LengthCounter { halt, ..*old(self) }),
    {
        self.halt = halt;
    }

    /// The counter loaded with the length selected by the top five bits of `data`.
    pub open spec fn loaded(self, data: u8) -> LengthCounter {
        LengthCounter {
            period: length_table(data as int / 8),
            count: length_table(data as int / 8),
            ..self
        }
    }

    pub fn set_lc(&mut self, data: u8)
        ensures
            *final(self) == old(self).loaded(data),
    {
        let table: [u8; 32] = [
            10, 254, 20, 2, 40, 4, 80, 6,
            160, 8, 60, 10, 14, 12, 26, 14,
            12, 16, 24, 18, 48, 20, 96, 22,
            192, 24, 72, 26, 16, 28, 32, 30,
        ];
        assert(table@ == seq![
            10u8, 254, 20, 2, 40, 4, 80, 6,
            160, 8, 60, 10, 14, 12, 26, 14,
            12, 16, 24, 18, 48, 20, 96, 22,
            192, 24, 72, 26, 16, 28, 32, 30,
        ]);
        assert(data >> 3 == data / 8) by (bit_vector);
        self.period = table[(data >> 3) as usize];
        self.count = self.period;
    }

    /// Ends the note at once (the channel was disabled).
    pub fn silence(&mut self)
        ensures
            *final(self) == (LengthCounter { count: 0, ..*old(self) }),
    {
        self.count = 0;
    }
}

} // verus!
