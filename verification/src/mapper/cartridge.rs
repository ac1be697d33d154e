use crate::mapper::bank_array::{lemma_pow2_values, pow2};
use crate::mapper::{AxROM, Mapper, MMC1, MMC3, NROM, UxROM, SIZE_16_KB, SIZE_32_KB, SIZE_8_KB};
use crate::ppu::NametableMirroring;
use crate::rom::Rom;
use vstd::prelude::*;

verus! {

/// The mappers this emulator implements, as one type.
pub enum Cartridge {
    NROM(NROM),
    UxROM(UxROM),
    AxROM(AxROM),
    MMC1(MMC1),
    MMC3(MMC3),
}

/// The ROM images that `load_mapper` accepts for a mapper number.
pub open spec fn supported_rom(mapper_num: u8, rom: &Rom) -> bool {
    let prg = rom.prg_data@.len();
    &&& rom.chr_data@.len() % pow2(SIZE_8_KB as nat) == 0
    &&& match mapper_num {
        0 => prg <= 32768,
        1 => prg > 0 && prg % pow2(SIZE_16_KB as nat) == 0,
        2 => prg > 0 && prg % pow2(SIZE_16_KB as nat) == 0,
        _ => false,
    }
}

/// Whether `load_mapper` accepts this ROM image for the mapper number.
pub fn is_supported(mapper_num: u8, rom: &Rom) -> (r: bool)
    ensures
        r == supported_rom(mapper_num, rom),
{
    proof {
        lemma_pow2_values();
    }
    let prg = rom.prg_data.len();
    if rom.chr_data.len() % 8192 != 0 {
        return false;
    }
    match mapper_num {
        0 => prg <= 32768,
        1 => prg > 0 && prg % 16384 == 0,
        2 => prg > 0 && prg % 16384 == 0,
        _ => false,
    }
}

/// `c` is the mapper that `load_mapper` builds for this mapper number from `rom`: NROM
/// for 0, MMC1 for 1, UxROM for 2, each as its constructor builds it.
pub open spec fn cartridge_built_from(c: Cartridge, mapper_num: u8, rom: &Rom) -> bool {
    match c {
        Cartridge::NROM(m) => mapper_num == 0 && m.built_from(rom),
        Cartridge::MMC1(m) => mapper_num == 1 && m.built_from(rom),
        Cartridge::UxROM(m) => mapper_num == 2 && m.built_from(rom),
        _ => false,
    }
}

/// Builds the mapper that a ROM's header names: 0 is NROM, 1 is MMC1, 2 is UxROM.
pub fn load_mapper(mapper_num: u8, rom: &Rom) -> (r: Cartridge)
    requires
        supported_rom(mapper_num, rom),
    ensures
        r.wf(),
        mapper_num == 0 ==> r is NROM,
        mapper_num == 1 ==> r is MMC1,
        mapper_num == 2 ==> r is UxROM,
        cartridge_built_from(r, mapper_num, rom),
{
    match mapper_num {
        0 => Cartridge::NROM(NROM::new(rom)),
        1 => Cartridge::MMC1(MMC1::new(rom)),
        _ => Cartridge::UxROM(UxROM::new(rom)),
    }
}

impl Mapper for Cartridge {
    open spec fn wf(&self) -> bool {
        match self {
            Cartridge::NROM(m) => m.wf(),
            Cartridge::UxROM(m) => m.wf(),
            Cartridge::AxROM(m) => m.wf(),
            Cartridge::MMC1(m) => m.wf(),
            Cartridge::MMC3(m) => m.wf(),
        }
    }

    open spec fn prg_readable(&self, address: u16) -> bool {
        match self {
            Cartridge::NROM(m) => m.prg_readable(address),
            Cartridge::UxROM(m) => m.prg_readable(address),
            Cartridge::AxROM(m) => m.prg_readable(address),
            Cartridge::MMC1(m) => m.prg_readable(address),
            Cartridge::MMC3(m) => m.prg_readable(address),
        }
    }

    open spec fn prg_value(&self, address: u16) -> u8 {
        match self {
            Cartridge::NROM(m) => m.prg_value(address),
            Cartridge::UxROM(m) => m.prg_value(address),
            Cartridge::AxROM(m) => m.prg_value(address),
            Cartridge::MMC1(m) => m.prg_value(address),
            Cartridge::MMC3(m) => m.prg_value(address),
        }
    }

    open spec fn prg_writable(&self, address: u16, value: u8) -> bool {
        match self {
            Cartridge::NROM(m) => m.prg_writable(address, value),
            Cartridge::UxROM(m) => m.prg_writable(address, value),
            Cartridge::AxROM(m) => m.prg_writable(address, value),
            Cartridge::MMC1(m) => m.prg_writable(address, value),
            Cartridge::MMC3(m) => m.prg_writable(address, value),
        }
    }

    open spec fn prg_write_result(&self, address: u16, value: u8, post: Self) -> bool {
        match (self, post) {
            (Cartridge::NROM(m), Cartridge::NROM(p)) => m.prg_write_result(address, value, p),
            (Cartridge::UxROM(m), Cartridge::UxROM(p)) => m.prg_write_result(address, value, p),
            (Cartridge::AxROM(m), Cartridge::AxROM(p)) => m.prg_write_result(address, value, p),
            (Cartridge::MMC1(m), Cartridge::MMC1(p)) => m.prg_write_result(address, value, p),
            (Cartridge::MMC3(m), Cartridge::MMC3(p)) => m.prg_write_result(address, value, p),
            _ => false,
        }
    }

    open spec fn chr_readable(&self, address: u16) -> bool {
        match self {
            Cartridge::NROM(m) => m.chr_readable(address),
            Cartridge::UxROM(m) => m.chr_readable(address),
            Cartridge::AxROM(m) => m.chr_readable(address),
            Cartridge::MMC1(m) => m.chr_readable(address),
            Cartridge::MMC3(m) => m.chr_readable(address),
        }
    }

    open spec fn chr_value(&self, address: u16) -> u8 {
        match self {
            Cartridge::NROM(m) => m.chr_value(address),
            Cartridge::UxROM(m) => m.chr_value(address),
            Cartridge::AxROM(m) => m.chr_value(address),
            Cartridge::MMC1(m) => m.chr_value(address),
            Cartridge::MMC3(m) => m.chr_value(address),
        }
    }

    open spec fn chr_writable(&self, address: u16) -> bool {
        match self {
            Cartridge::NROM(m) => m.chr_writable(address),
            Cartridge::UxROM(m) => m.chr_writable(address),
            Cartridge::AxROM(m) => m.chr_writable(address),
            Cartridge::MMC1(m) => m.chr_writable(address),
            Cartridge::MMC3(m) => m.chr_writable(address),
        }
    }

    open spec fn chr_write_result(&self, address: u16, value: u8, post: Self) -> bool {
        match (self, post) {
            (Cartridge::NROM(m), Cartridge::NROM(p)) => m.chr_write_result(address, value, p),
            (Cartridge::UxROM(m), Cartridge::UxROM(p)) => m.chr_write_result(address, value, p),
            (Cartridge::AxROM(m), Cartridge::AxROM(p)) => m.chr_write_result(address, value, p),
            (Cartridge::MMC1(m), Cartridge::MMC1(p)) => m.chr_write_result(address, value, p),
            (Cartridge::MMC3(m), Cartridge::MMC3(p)) => m.chr_write_result(address, value, p),
            _ => false,
        }
    }

    open spec fn mirroring(&self) -> NametableMirroring {
        match self {
            Cartridge::NROM(m) => m.mirroring(),
            Cartridge::UxROM(m) => m.mirroring(),
            Cartridge::AxROM(m) => m.mirroring(),
            Cartridge::MMC1(m) => m.mirroring(),
            Cartridge::MMC3(m) => m.mirroring(),
        }
    }

    fn read_prg(&self, address: u16) -> (r: u8) {
        match self {
            Cartridge::NROM(m) => m.read_prg(address),
            Cartridge::UxROM(m) => m.read_prg(address),
            Cartridge::AxROM(m) => m.read_prg(address),
            Cartridge::MMC1(m) => m.read_prg(address),
            Cartridge::MMC3(m) => m.read_prg(address),
        }
    }

    fn write_prg(&mut self, address: u16, value: u8) {
        match self {
            Cartridge::NROM(m) => m.write_prg(address, value),
            Cartridge::UxROM(m) => m.write_prg(address, value),
            Cartridge::AxROM(m) => m.write_prg(address, value),
            Cartridge::MMC1(m) => m.write_prg(address, value),
            Cartridge::MMC3(m) => m.write_prg(address, value),
        }
    }

    fn read_chr(&self, address: u16) -> (r: u8) {
        match self {
            Cartridge::NROM(m) => m.read_chr(address),
            Cartridge::UxROM(m) => m.read_chr(address),
            Cartridge::AxROM(m) => m.read_chr(address),
            Cartridge::MMC1(m) => m.read_chr(address),
            Cartridge::MMC3(m) => m.read_chr(address),
        }
    }

    fn write_chr(&mut self, address: u16, value: u8) {
        match self {
            Cartridge::NROM(m) => m.write_chr(address, value),
            Cartridge::UxROM(m) => m.write_chr(address, value),
            Cartridge::AxROM(m) => m.write_chr(address, value),
            Cartridge::MMC1(m) => m.write_chr(address, value),
            Cartridge::MMC3(m) => m.write_chr(address, value),
        }
    }

    fn get_nametable_mirroring(&self) -> (r: NametableMirroring) {
        match self {
            Cartridge::NROM(m) => m.get_nametable_mirroring(),
            Cartridge::UxROM(m) => m.get_nametable_mirroring(),
            Cartridge::AxROM(m) => m.get_nametable_mirroring(),
            Cartridge::MMC1(m) => m.get_nametable_mirroring(),
            Cartridge::MMC3(m) => m.get_nametable_mirroring(),
        }
    }

    fn get_save_data(&self) -> (r: Option<Vec<u8>>)
        ensures
            match *self {
                Cartridge::MMC3(m) => r matches Some(data) && data@ == m.ram(),
                _ => r is None,
            },
    {
        match self {
            Cartridge::MMC3(m) => m.get_save_data(),
            _ => None,
        }
    }

    fn set_save_data(&mut self, data: &Vec<u8>)
        ensures
            match *old(self) {
                Cartridge::MMC3(m) => *final(self) matches Cartridge::MMC3(n) && n.ram() == data@
                    + m.ram().subrange(data@.len() as int, m.ram().len() as int) && n.registers()
                    == m.registers() && n.prg() == m.prg() && n.chr() == m.chr(),
                _ => *final(self) == *old(self),
            },
    {
        match self {
            Cartridge::MMC3(m) => m.set_save_data(data),
            _ => {},
        }
    }
}

} // verus!
