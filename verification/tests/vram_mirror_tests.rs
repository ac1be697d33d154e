use patina::mapper::Mapper;
use patina::ppu::{NametableMirroring, PPU};

/// 8kB of CHR memory and a fixed nametable arrangement.
pub struct MockMapper {
    pub chr: Vec<u8>,
    mirroring: NametableMirroring,
}

impl MockMapper {
    pub fn new(mirroring: NametableMirroring) -> Self {
        MockMapper { chr: vec![0; 0x2000], mirroring }
    }
}

impl Mapper for MockMapper {
    fn wf(&self) -> bool {
        self.chr.len() == 0x2000
    }

    fn prg_readable(&self, _address: u16) -> bool {
        true
    }

    fn prg_value(&self, _address: u16) -> u8 {
        0
    }

    fn prg_writable(&self, _address: u16, _value: u8) -> bool {
        true
    }

    fn prg_write_result(&self, _address: u16, _value: u8, _post: Self) -> bool {
        true
    }

    fn chr_readable(&self, address: u16) -> bool {
        (address as usize) < self.chr.len()
    }

    fn chr_value(&self, address: u16) -> u8 {
        self.read_chr(address)
    }

    fn chr_writable(&self, address: u16) -> bool {
        (address as usize) < self.chr.len()
    }

    fn chr_write_result(&self, address: u16, value: u8, post: Self) -> bool {
        post.read_chr(address) == value
    }

    fn mirroring(&self) -> NametableMirroring {
        self.mirroring
    }

    fn read_prg(&self, _address: u16) -> u8 {
        0
    }

    fn write_prg(&mut self, _address: u16, _value: u8) {}

    fn read_chr(&self, address: u16) -> u8 {
        self.chr[address as usize]
    }

    fn write_chr(&mut self, address: u16, value: u8) {
        self.chr[address as usize] = value;
    }

    fn get_nametable_mirroring(&self) -> NametableMirroring {
        self.mirroring
    }
}

fn make_ppu(mirroring: NametableMirroring) -> PPU<MockMapper> {
    PPU::new(MockMapper::new(mirroring))
}

#[test]
fn horizontal_mirroring_nametables_0_and_2_are_same() {
    let ppu = make_ppu(NametableMirroring::Horizontal);
    assert_eq!(ppu.vram_address_mirror(0x2000), ppu.vram_address_mirror(0x2800));
    assert_eq!(ppu.vram_address_mirror(0x2400), ppu.vram_address_mirror(0x2C00));
}

#[test]
fn horizontal_mirroring_nametables_0_and_1_are_different() {
    let ppu = make_ppu(NametableMirroring::Horizontal);
    assert_ne!(ppu.vram_address_mirror(0x2000), ppu.vram_address_mirror(0x2400));
}

#[test]
fn vertical_mirroring_nametables_0_and_1_are_same() {
    let ppu = make_ppu(NametableMirroring::Vertical);
    assert_eq!(ppu.vram_address_mirror(0x2000), ppu.vram_address_mirror(0x2400));
    assert_eq!(ppu.vram_address_mirror(0x2800), ppu.vram_address_mirror(0x2C00));
}

#[test]
fn vertical_mirroring_nametables_0_and_2_are_different() {
    let ppu = make_ppu(NametableMirroring::Vertical);
    assert_ne!(ppu.vram_address_mirror(0x2000), ppu.vram_address_mirror(0x2800));
}

#[test]
fn single_nametable_0_all_map_to_nametable_0() {
    let ppu = make_ppu(NametableMirroring::SingleNametable0);
    let base = ppu.vram_address_mirror(0x2000);
    assert_eq!(ppu.vram_address_mirror(0x2400), base);
    assert_eq!(ppu.vram_address_mirror(0x2800), base);
    assert_eq!(ppu.vram_address_mirror(0x2C00), base);
}

#[test]
fn single_nametable_1_all_map_to_nametable_1() {
    let ppu = make_ppu(NametableMirroring::SingleNametable1);
    let base = ppu.vram_address_mirror(0x2000);
    assert_eq!(ppu.vram_address_mirror(0x2400), base);
    assert_eq!(ppu.vram_address_mirror(0x2800), base);
    assert_eq!(ppu.vram_address_mirror(0x2C00), base);
    assert_eq!(base, 0x2400);
}

#[test]
fn palette_address_3f10_mirrors_to_3f00() {
    let ppu = make_ppu(NametableMirroring::Horizontal);
    assert_eq!(ppu.vram_address_mirror(0x3f10), 0x3f00);
}

#[test]
fn palette_addresses_wrap_at_3f1f() {
    let ppu = make_ppu(NametableMirroring::Horizontal);
    assert_eq!(ppu.vram_address_mirror(0x3f20), ppu.vram_address_mirror(0x3f00));
    assert_eq!(ppu.vram_address_mirror(0x3f3f), ppu.vram_address_mirror(0x3f1f));
}

#[test]
fn nametable_range_3000_3eff_mirrors_2000_2eff() {
    let ppu = make_ppu(NametableMirroring::Horizontal);
    assert_eq!(ppu.vram_address_mirror(0x3000), ppu.vram_address_mirror(0x2000));
    assert_eq!(ppu.vram_address_mirror(0x33ff), ppu.vram_address_mirror(0x23ff));
}

#[test]
fn chr_addresses_below_0x2000_pass_through_unchanged() {
    let ppu = make_ppu(NametableMirroring::Horizontal);
    assert_eq!(ppu.vram_address_mirror(0x0000), 0x0000);
    assert_eq!(ppu.vram_address_mirror(0x1000), 0x1000);
    assert_eq!(ppu.vram_address_mirror(0x1fff), 0x1fff);
}
