use vstd::prelude::*;

verus! {

/// The PPU registers that the CPU sees in its address space.
#[derive(Debug, Clone, Copy, PartialEq, Eq, Structural)]
pub enum PPURegister {
    PPUCTRL,
    PPUMASK,
    PPUSTATUS,
    OAMADDR,
    OAMDATA,
    PPUSCROLL,
    PPUADDR,
    PPUDATA,
    OAMDMA,
}

/// The CPU address of each register.
pub open spec fn register_address(register: PPURegister) -> u16 {
    match register {
        PPURegister::PPUCTRL => 0x2000,
        PPURegister::PPUMASK => 0x2001,
        PPURegister::PPUSTATUS => 0x2002,
        PPURegister::OAMADDR => 0x2003,
        PPURegister::OAMDATA => 0x2004,
        PPURegister::PPUSCROLL => 0x2005,
        PPURegister::PPUADDR => 0x2006,
        PPURegister::PPUDATA => 0x2007,
        PPURegister::OAMDMA => 0x4014,
    }
}

/// The register at a CPU address, if any.
pub open spec fn register_at(addr: u16) -> Option<PPURegister> {
    if 0x2000 <= addr <= 0x2007 {
        Some(
            match addr {
                0x2000 => PPURegister::PPUCTRL,
                0x2001 => PPURegister::PPUMASK,
                0x2002 => PPURegister::PPUSTATUS,
                0x2003 => PPURegister::OAMADDR,
                0x2004 => PPURegister::OAMDATA,
                0x2005 => PPURegister::PPUSCROLL,
                0x2006 => PPURegister::PPUADDR,
                _ => PPURegister::PPUDATA,
            },
        )
    } else if addr == 0x4014 {
        Some(PPURegister::OAMDMA)
    } else {
        None
    }
}

impl PPURegister {
    pub fn address(register: &PPURegister) -> (r: u16)
        ensures
            r == register_address(*register),
    {
        match register {
            PPURegister::PPUCTRL => 0x2000,
            PPURegister::PPUMASK => 0x2001,
            PPURegister::PPUSTATUS => 0x2002,
            PPURegister::OAMADDR => 0x2003,
            PPURegister::OAMDATA => 0x2004,
            PPURegister::PPUSCROLL => 0x2005,
            PPURegister::PPUADDR => 0x2006,
            PPURegister::PPUDATA => 0x2007,
            PPURegister::OAMDMA => 0x4014,
        }
    }

    pub fn from_addr(addr: u16) -> (r: Option<PPURegister>)
        ensures
            r == register_at(addr),
    {
        match addr {
            0x2000 => Some(PPURegister::PPUCTRL),
            0x2001 => Some(PPURegister::PPUMASK),
            0x2002 => Some(PPURegister::PPUSTATUS),
            0x2003 => Some(PPURegister::OAMADDR),
            0x2004 => Some(PPURegister::OAMDATA),
            0x2005 => Some(PPURegister::PPUSCROLL),
            0x2006 => Some(PPURegister::PPUADDR),
            0x2007 => Some(PPURegister::PPUDATA),
            0x4014 => Some(PPURegister::OAMDMA),
            _ => None,
        }
    }
}

/// Each register's address leads back to the register.
pub proof fn lemma_register_address_round_trip(register: PPURegister)
    ensures
        register_at(register_address(register)) == Some(register),
{
}

} // verus!
