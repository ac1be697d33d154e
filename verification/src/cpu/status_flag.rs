use crate::cpu::cpu::CPU;
use crate::mapper::Mapper;
use vstd::prelude::*;

verus! {

/// `status` with the bits of `mask` set (`on`) or cleared.
pub open spec fn with_flag(status: u8, mask: u8, on: bool) -> u8 {
    if on {
        status | mask
    } else {
        status & !mask
    }
}

/// The flags of the 6502's status register.
#[derive(Debug, Clone, Copy, PartialEq, Eq, Structural)]
pub enum StatusFlag {
    Carry,
    Zero,
    InterruptDisable,
    Decimal,
    /* "No CPU effect; see: the B flag" */
    /* "No CPU effect; always pushed as 1" */
    Overflow,
    Negative,
}

/// The bit of each flag in the status register.
pub open spec fn flag_mask(flag: StatusFlag) -> u8 {
    match flag {
        StatusFlag::Carry => 0x01,
        StatusFlag::Zero => 0x02,
        StatusFlag::InterruptDisable => 0x04,
        StatusFlag::Decimal => 0x08,
        StatusFlag::Overflow => 0x40,
        StatusFlag::Negative => 0x80,
    }
}

/// The flag is set in `status`.
pub open spec fn flag_set(status: u8, flag: StatusFlag) -> bool {
    status & flag_mask(flag) != 0
}

/// One of the six status bits.
pub open spec fn is_flag_mask(m: u8) -> bool {
    m == 0x01 || m == 0x02 || m == 0x04 || m == 0x08 || m == 0x40 || m == 0x80
}

proof fn lemma_flag_bits(x: u8, m1: u8, m2: u8, p: bool)
    ensures
        1u8 << 0u8 == 0x01 && 1u8 << 1u8 == 0x02 && 1u8 << 2u8 == 0x04 && 1u8 << 3u8 == 0x08,
        1u8 << 6u8 == 0x40 && 1u8 << 7u8 == 0x80,
        m1 != 0 ==> ((with_flag(x, m1, p) & m1 != 0) == p),
        is_flag_mask(m1) && is_flag_mask(m2) && m1 != m2 ==> ((with_flag(x, m1, p) & m2 != 0) == (x
            & m2 != 0)),
{
    assert((1u8 << 0u8 == 0x01 && 1u8 << 1u8 == 0x02 && 1u8 << 2u8 == 0x04 && 1u8 << 3u8 == 0x08)
        && (1u8 << 6u8 == 0x40 && 1u8 << 7u8 == 0x80)
        && (m1 != 0 ==> ((with_flag(x, m1, p) & m1 != 0) == p))
        && (is_flag_mask(m1) && is_flag_mask(m2) && m1 != m2 ==> ((with_flag(x, m1, p) & m2 != 0)
        == (x & m2 != 0)))) by (bit_vector);
}

/// Setting or clearing one flag makes it read as set or clear and leaves every other flag
/// as it was.
pub proof fn lemma_flag_update(status: u8, flag: StatusFlag, on: bool, other: StatusFlag)
    ensures
        flag_set(with_flag(status, flag_mask(flag), on), flag) == on,
        other != flag ==> flag_set(with_flag(status, flag_mask(flag), on), other) == flag_set(
            status,
            other,
        ),
{
    lemma_flag_bits(status, flag_mask(flag), flag_mask(other), on);
}

impl StatusFlag {
    pub fn mask(&self) -> (r: u8)
        ensures
            r == flag_mask(*self),
    {
        proof { lemma_flag_bits(0, 0, 0, false); }
        match self {
            StatusFlag::Carry => 1 << 0,
            StatusFlag::Zero => 1 << 1,
            StatusFlag::InterruptDisable => 1 << 2,
            StatusFlag::Decimal => 1 << 3,
            StatusFlag::Overflow => 1 << 6,
            StatusFlag::Negative => 1 << 7,
        }
    }

    pub fn is_set<M: Mapper>(&self, cpu: &CPU<M>) -> (r: bool)
        ensures
            r == flag_set(cpu.status, *self),
    {
        cpu.status & self.mask() != 0
    }

    /// The flag as a number, 1 or 0.
    pub fn as_num<M: Mapper>(&self, cpu: &CPU<M>) -> (r: u8)
        ensures
            r == if flag_set(cpu.status, *self) {
                1u8
            } else {
                0u8
            },
    {
        if self.is_set(cpu) {
            1
        } else {
            0
        }
    }

    pub fn update_bool<M: Mapper>(&self, cpu: &mut CPU<M>, new_val: bool)
        ensures
            *final(cpu) == (CPU {
                status: with_flag(old(cpu).status, flag_mask(*self), new_val),
                ..*old(cpu)
            }),
    {
        if new_val {
            cpu.status = cpu.status | self.mask();
        } else {
            cpu.status = cpu.status & !self.mask();
        }
    }
}

} // verus!
