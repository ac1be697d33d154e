use vstd::prelude::*;

verus! {

pub const CONTROLLER_ADDRESS: u16 = 0x4016;

/// Bit `i` of a button mask, as the 0 or 1 the controller reports.
pub open spec fn button_bit(buttons: u8, i: int) -> u8 {
    ((buttons as int / vstd::arithmetic::power2::pow2(i as nat) as int) % 2) as u8
}

/// The reports a strobe records, in the order they are popped from the end: the buttons
/// A, B, Select, Start, Up, Down, Left, Right are bits 0 to 7 of the mask, and the stack
/// holds Right first so that A comes out first.
pub open spec fn recorded_reports(buttons: u8) -> Seq<u8> {
    seq![
        button_bit(buttons, 7),
        button_bit(buttons, 6),
        button_bit(buttons, 5),
        button_bit(buttons, 4),
        button_bit(buttons, 3),
        button_bit(buttons, 2),
        button_bit(buttons, 1),
        button_bit(buttons, 0),
    ]
}

/// After a strobe records the buttons, the reports come out in button order: with `k`
/// reads done, the next read reports button `k` (A first, Right last) and leaves the
/// reports for the buttons after it; once all eight are read nothing is left, and every
/// further read reports 1.
pub proof fn lemma_report_order(buttons: u8, k: int)
    requires
        0 <= k <= 8,
    ensures
        k < 8 ==> recorded_reports(buttons).take(8 - k).last() == button_bit(buttons, k),
        k < 8 ==> recorded_reports(buttons).take(8 - k).drop_last() == recorded_reports(
            buttons,
        ).take(7 - k),
        k == 8 ==> recorded_reports(buttons).take(8 - k).len() == 0,
{
    let s = recorded_reports(buttons);
    if k < 8 {
        assert(s.take(8 - k).last() == s[7 - k]);
        assert(s.take(8 - k).drop_last() =~= s.take(7 - k));
        if k == 0 {
        } else if k == 1 {
        } else if k == 2 {
        } else if k == 3 {
        } else if k == 4 {
        } else if k == 5 {
        } else if k == 6 {
        } else {
        }
    }
}

/// The standard controller. The buttons held at the moment the strobe bit falls are
/// recorded; each read then reports the next one (A, B, Select, Start, Up, Down, Left,
/// Right), and 1 once all eight have been read.
#[derive(Debug, Clone)]
pub struct Controller {
    /// The buttons held now, one bit each (A is bit 0, Right bit 7).
    pub buttons: u8,
    /// The recorded reports still to be read; the next is at the end.
    pub inputs_in_order: Vec<u8>,
    /// The last value written to the controller port.
    pub strobe: u8,
}

impl Controller {
    /// What the next read reports: the last recorded report, or 1 when none is left.
    pub open spec fn next_report(&self) -> u8 {
        if self.inputs_in_order@.len() > 0 {
            self.inputs_in_order@.last()
        } else {
            1
        }
    }

    /// The reports left after the next read.
    pub open spec fn after_report(&self) -> Seq<u8> {
        if self.inputs_in_order@.len() > 0 {
            self.inputs_in_order@.drop_last()
        } else {
            self.inputs_in_order@
        }
    }

    /// The reports after `value` is written: a strobe falling from 1 to 0 records the
    /// buttons held now.
    pub open spec fn after_strobe(&self, value: u8) -> Seq<u8> {
        if self.strobe & 1 == 1 && value & 1 == 0 {
            recorded_reports(self.buttons)
        } else {
            self.inputs_in_order@
        }
    }

    pub fn new() -> (r: Controller)
        ensures
            r.buttons == 0,
            r.inputs_in_order@ == Seq::<u8>::empty(),
            r.strobe == 0,
    {
        Controller { buttons: 0, inputs_in_order: Vec::new(), strobe: 0 }
    }

    /// Sets the buttons held now (A is bit 0, B bit 1, Select bit 2, Start bit 3, Up bit
    /// 4, Down bit 5, Left bit 6, Right bit 7).
    pub fn set_key_source(&mut self, buttons: u8)
        ensures
            final(self).buttons == buttons,
            final(self).inputs_in_order@ == old(self).inputs_in_order@,
            final(self).strobe == old(self).strobe,
    {
        self.buttons = buttons;
    }

    /// Records the buttons held now as the next eight reports.
    pub fn record_data(&mut self)
        ensures
            final(self).inputs_in_order@ == recorded_reports(old(self).buttons),
            final(self).buttons == old(self).buttons,
            final(self).strobe == old(self).strobe,
    {
        let recorded_keys = self.buttons;
        self.inputs_in_order = Vec::new();
        /* keys, in order: A B Select Start Up Down Left Right */
        /* putting in a stack, so will reverse it */
        let mut bit: u8 = 8;
        while bit > 0
            invariant
                bit <= 8,
                self.buttons == recorded_keys,
                self.strobe == old(self).strobe,
                self.inputs_in_order@.len() == 8 - bit,
                forall|j: int|
                    0 <= j < 8 - bit ==> self.inputs_in_order@[j] == button_bit(recorded_keys, 7 - j),
            decreases bit,
        {
            bit -= 1;
            self.push_key_press(recorded_keys, bit);
        }
        assert(self.inputs_in_order@ =~= recorded_reports(recorded_keys));
    }

    /// The next report: the last recorded one, or 1 when none is left.
    pub fn get_next_byte(&mut self) -> (r: u8)
        ensures
            old(self).inputs_in_order@.len() > 0 ==> r == old(self).inputs_in_order@.last()
                && final(self).inputs_in_order@ == old(self).inputs_in_order@.drop_last(),
            old(self).inputs_in_order@.len() == 0 ==> r == 1 && final(self).inputs_in_order@
                == old(self).inputs_in_order@,
            final(self).buttons == old(self).buttons,
            final(self).strobe == old(self).strobe,
    {
        match self.inputs_in_order.pop() {
            Some(b) => b,
            None => 1,
        }
    }

    fn push_key_press(&mut self, recorded_keys: u8, bit: u8)
        requires
            bit < 8,
        ensures
            final(self).inputs_in_order@ == old(self).inputs_in_order@.push(
                button_bit(recorded_keys, bit as int),
            ),
            final(self).buttons == old(self).buttons,
            final(self).strobe == old(self).strobe,
    {
        let b = (recorded_keys >> bit) & 1;
        proof {
            vstd::arithmetic::power2::lemma2_to64();
            assert((recorded_keys >> bit) & 1 == (recorded_keys / (1u8 << bit)) % 2) by (bit_vector)
                requires
                    bit < 8,
            ;
            assert(bit == 0 || bit == 1 || bit == 2 || bit == 3 || bit == 4 || bit == 5 || bit == 6 || bit == 7);
            assert(1u8 << 0u8 == 1 && 1u8 << 1u8 == 2 && 1u8 << 2u8 == 4 && 1u8 << 3u8 == 8 && 1u8 << 4u8
                == 16 && 1u8 << 5u8 == 32 && 1u8 << 6u8 == 64 && 1u8 << 7u8 == 128) by (bit_vector);
        }
        self.inputs_in_order.push(b);
    }

    pub fn get_addresses(&self) -> (r: Vec<u16>)
        ensures
            r@ == seq![CONTROLLER_ADDRESS],
            forall|a: u16| r@.contains(a) <==> a == CONTROLLER_ADDRESS,
    {
        let mut addrs: Vec<u16> = Vec::new();
        addrs.push(CONTROLLER_ADDRESS);
        assert(addrs@[0] == CONTROLLER_ADDRESS);
        addrs
    }

    /// A read of the port reports the next button.
    pub fn read(&mut self, _address: u16) -> (r: u8)
        ensures
            old(self).inputs_in_order@.len() > 0 ==> r == old(self).inputs_in_order@.last()
                && final(self).inputs_in_order@ == old(self).inputs_in_order@.drop_last(),
            old(self).inputs_in_order@.len() == 0 ==> r == 1 && final(self).inputs_in_order@
                == old(self).inputs_in_order@,
            final(self).buttons == old(self).buttons,
            final(self).strobe == old(self).strobe,
    {
        self.get_next_byte()
    }

    /// A write of the port: when the strobe bit falls from 1 to 0 the buttons are recorded.
    pub fn write(&mut self, _address: u16, value: u8)
        ensures
            final(self).buttons == old(self).buttons,
            final(self).strobe == value,
            old(self).strobe & 1 == 1 && value & 1 == 0 ==> final(self).inputs_in_order@
                == recorded_reports(old(self).buttons),
            !(old(self).strobe & 1 == 1 && value & 1 == 0) ==> final(self).inputs_in_order@
                == old(self).inputs_in_order@,
    {
        if self.strobe & 1 == 1 && value & 1 == 0 {
            self.record_data();
        }
        self.strobe = value;
    }
}

} // verus!
