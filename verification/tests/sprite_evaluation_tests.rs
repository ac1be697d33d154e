use patina::mapper::Mapper;
use patina::ppu::{NametableMirroring, PPU};

/// 8kB of CHR memory and a fixed nametable arrangement.
pub struct MockMapper {
    pub chr: Vec<u8>,
    mirroring: NametableMirroring,
}

impl MockMapper {
    pub fn new(mirroring: NametableMirroring) -> Self {
        MockMapper { chr: vec![0; 0x2000], mirroring }
    }
}

impl Mapper for MockMapper {
    fn wf(&self) -> bool {
        self.chr.len() == 0x2000
    }

    fn prg_readable(&self, _address: u16) -> bool {
        true
    }

    fn prg_value(&self, _address: u16) -> u8 {
        0
    }

    fn prg_writable(&self, _address: u16, _value: u8) -> bool {
        true
    }

    fn prg_write_result(&self, _address: u16, _value: u8, _post: Self) -> bool {
        true
    }

    fn chr_readable(&self, address: u16) -> bool {
        (address as usize) < self.chr.len()
    }

    fn chr_value(&self, address: u16) -> u8 {
        self.read_chr(address)
    }

    fn chr_writable(&self, address: u16) -> bool {
        (address as usize) < self.chr.len()
    }

    fn chr_write_result(&self, address: u16, value: u8, post: Self) -> bool {
        post.read_chr(address) == value
    }

    fn mirroring(&self) -> NametableMirroring {
        self.mirroring
    }

    fn read_prg(&self, _address: u16) -> u8 {
        0
    }

    fn write_prg(&mut self, _address: u16, _value: u8) {}

    fn read_chr(&self, address: u16) -> u8 {
        self.chr[address as usize]
    }

    fn write_chr(&mut self, address: u16, value: u8) {
        self.chr[address as usize] = value;
    }

    fn get_nametable_mirroring(&self) -> NametableMirroring {
        self.mirroring
    }
}

fn make_ppu(mirroring: NametableMirroring) -> PPU<MockMapper> {
    PPU::new(MockMapper::new(mirroring))
}

fn write_sprite(oam: &mut [u8], index: usize, y: u8, tile: u8, attrs: u8, x: u8) {
    let base = index * 4;
    oam[base] = y;
    oam[base + 1] = tile;
    oam[base + 2] = attrs;
    oam[base + 3] = x;
}

// Fills all OAM y-bytes with 0xFF so unwritten slots never land on a test scanline.
fn clear_oam(oam: &mut [u8]) {
    oam.fill(0xFF);
}

#[test]
fn sprite_on_scanline_is_found() {
    let mut ppu = make_ppu(NametableMirroring::Horizontal);
    clear_oam(&mut ppu.oam);
    // y=4 stored → get_y()=5; sprite covers scanlines 5–12
    write_sprite(&mut ppu.oam, 0, 4, 0, 0, 50);
    let sprites = ppu.sprite_evaluation(5);
    assert_eq!(sprites.len(), 1);
}

#[test]
fn sprite_not_on_scanline_is_excluded() {
    let mut ppu = make_ppu(NametableMirroring::Horizontal);
    clear_oam(&mut ppu.oam);
    write_sprite(&mut ppu.oam, 0, 4, 0, 0, 50);
    let sprites = ppu.sprite_evaluation(20);
    assert_eq!(sprites.len(), 0);
}

#[test]
fn sprite_on_last_row_of_8px_sprite_is_found() {
    let mut ppu = make_ppu(NametableMirroring::Horizontal);
    clear_oam(&mut ppu.oam);
    // y=4 → get_y()=5; last row = scanline 12
    write_sprite(&mut ppu.oam, 0, 4, 0, 0, 50);
    assert_eq!(ppu.sprite_evaluation(12).len(), 1);
    assert_eq!(ppu.sprite_evaluation(13).len(), 0);
}

#[test]
fn sprite_evaluation_returns_at_most_8_sprites() {
    let mut ppu = make_ppu(NametableMirroring::Horizontal);
    clear_oam(&mut ppu.oam);
    for i in 0..10 {
        write_sprite(&mut ppu.oam, i, 4, 0, 0, (i * 8) as u8);
    }
    let sprites = ppu.sprite_evaluation(5);
    assert_eq!(sprites.len(), 8);
}

#[test]
fn overflow_flag_set_when_8_or_more_sprites_on_scanline() {
    let mut ppu = make_ppu(NametableMirroring::Horizontal);
    clear_oam(&mut ppu.oam);
    for i in 0..9 {
        write_sprite(&mut ppu.oam, i, 4, 0, 0, (i * 8) as u8);
    }
    ppu.ppu_status = 0;
    ppu.sprite_evaluation(5);
    assert_ne!(ppu.ppu_status & (1 << 1), 0);
}

#[test]
fn overflow_flag_not_set_for_fewer_than_8_sprites() {
    let mut ppu = make_ppu(NametableMirroring::Horizontal);
    clear_oam(&mut ppu.oam);
    for i in 0..7 {
        write_sprite(&mut ppu.oam, i, 4, 0, 0, (i * 8) as u8);
    }
    ppu.ppu_status = 0;
    ppu.sprite_evaluation(5);
    assert_eq!(ppu.ppu_status & (1 << 1), 0);
}

#[test]
fn tall_sprites_cover_16_scanlines() {
    let mut ppu = make_ppu(NametableMirroring::Horizontal);
    clear_oam(&mut ppu.oam);
    ppu.tall_sprites = true;
    // y=10 → get_y()=11; 16px sprite covers scanlines 11–26
    write_sprite(&mut ppu.oam, 0, 10, 0, 0, 50);
    assert_eq!(ppu.sprite_evaluation(26).len(), 1);
    assert_eq!(ppu.sprite_evaluation(27).len(), 0);
}
