use patina::cpu::{CoreMemory, CPU};
use patina::mapper::Mapper;
use patina::ppu::palette::Palette;
use patina::ppu::{NametableMirroring, PPU};

/// 8kB of CHR memory and a fixed nametable arrangement.
pub struct MockMapper {
    pub chr: Vec<u8>,
    mirroring: NametableMirroring,
}

impl MockMapper {
    pub fn new(mirroring: NametableMirroring) -> Self {
        MockMapper { chr: vec![0; 0x2000], mirroring }
    }
}

impl Mapper for MockMapper {
    fn wf(&self) -> bool {
        self.chr.len() == 0x2000
    }

    fn prg_readable(&self, _address: u16) -> bool {
        true
    }

    fn prg_value(&self, _address: u16) -> u8 {
        0
    }

    fn prg_writable(&self, _address: u16, _value: u8) -> bool {
        true
    }

    fn prg_write_result(&self, _address: u16, _value: u8, _post: Self) -> bool {
        true
    }

    fn chr_readable(&self, address: u16) -> bool {
        (address as usize) < self.chr.len()
    }

    fn chr_value(&self, address: u16) -> u8 {
        self.read_chr(address)
    }

    fn chr_writable(&self, address: u16) -> bool {
        (address as usize) < self.chr.len()
    }

    fn chr_write_result(&self, address: u16, value: u8, post: Self) -> bool {
        post.read_chr(address) == value
    }

    fn mirroring(&self) -> NametableMirroring {
        self.mirroring
    }

    fn read_prg(&self, _address: u16) -> u8 {
        0
    }

    fn write_prg(&mut self, _address: u16, _value: u8) {}

    fn read_chr(&self, address: u16) -> u8 {
        self.chr[address as usize]
    }

    fn write_chr(&mut self, address: u16, value: u8) {
        self.chr[address as usize] = value;
    }

    fn get_nametable_mirroring(&self) -> NametableMirroring {
        self.mirroring
    }
}

fn make_ppu(mirroring: NametableMirroring) -> PPU<MockMapper> {
    PPU::new(MockMapper::new(mirroring))
}

/// Program memory from 0x8000 up, readable and writable; everything else reads 0.
pub struct TestMapper {
    memory: Vec<u8>,
}

impl TestMapper {
    pub fn new() -> Self {
        TestMapper { memory: vec![0; 0x8000] }
    }
}

impl Mapper for TestMapper {
    fn wf(&self) -> bool {
        self.memory.len() == 0x8000
    }

    fn prg_readable(&self, _address: u16) -> bool {
        true
    }

    fn prg_value(&self, address: u16) -> u8 {
        self.read_prg(address)
    }

    fn prg_writable(&self, address: u16, _value: u8) -> bool {
        address >= 0x8000
    }

    fn prg_write_result(&self, address: u16, value: u8, post: Self) -> bool {
        post.read_prg(address) == value
    }

    fn chr_readable(&self, _address: u16) -> bool {
        false
    }

    fn chr_value(&self, _address: u16) -> u8 {
        0
    }

    fn chr_writable(&self, _address: u16) -> bool {
        false
    }

    fn chr_write_result(&self, _address: u16, _value: u8, _post: Self) -> bool {
        false
    }

    fn mirroring(&self) -> NametableMirroring {
        NametableMirroring::Horizontal
    }

    fn read_prg(&self, address: u16) -> u8 {
        if address < 0x8000 {
            return 0;
        }
        self.memory[(address - 0x8000) as usize]
    }

    fn write_prg(&mut self, address: u16, value: u8) {
        if address >= 0x8000 {
            self.memory[(address - 0x8000) as usize] = value;
        } else {
            panic!("writing to address test mapper doesn't cover");
        }
    }

    fn read_chr(&self, _address: u16) -> u8 {
        panic!("should never be called")
    }

    fn write_chr(&mut self, _address: u16, _value: u8) {
        panic!("should never be called")
    }

    fn get_nametable_mirroring(&self) -> NametableMirroring {
        panic!("should never be called")
    }
}

// tick counts derived from: scanline * 341 + dot
const TICKS_TO_VBLANK: usize = 82183; // scanline 241 dot 1 (end_of_screen_render)
const TICKS_TO_PRERENDER_FLAG_CLEAR: usize = 89003; // scanline 261 dot 1
const TICKS_PER_FRAME: usize = 341 * 262;

fn make_test_cpu() -> CPU<TestMapper> {
    CPU::new(CoreMemory::new_from_mapper(TestMapper::new()))
}

/// One PPU dot; an NMI it raises goes to the CPU.
fn tick(ppu: &mut PPU<MockMapper>, cpu: &mut CPU<TestMapper>) {
    if ppu.tick() {
        cpu.set_nmi(true);
    }
}

// ── end_of_screen_render ─────────────────────────────────────────────────────

#[test]
fn end_of_screen_render_sets_vblank_flag() {
    let mut ppu = make_ppu(NametableMirroring::Horizontal);
    let mut cpu = make_test_cpu();
    ppu.ppu_status = 0;
    if ppu.end_of_screen_render() {
        cpu.set_nmi(true);
    }
    assert_ne!(ppu.ppu_status & 0x80, 0);
}

#[test]
fn end_of_screen_render_triggers_nmi_when_ctrl_bit7_set() {
    let mut ppu = make_ppu(NametableMirroring::Horizontal);
    let mut cpu = make_test_cpu();
    ppu.ppu_ctrl = 1 << 7;
    if ppu.end_of_screen_render() {
        cpu.set_nmi(true);
    }
    assert!(cpu.nmi_set());
}

#[test]
fn end_of_screen_render_does_not_trigger_nmi_when_ctrl_bit7_clear() {
    let mut ppu = make_ppu(NametableMirroring::Horizontal);
    let mut cpu = make_test_cpu();
    ppu.ppu_ctrl = 0;
    if ppu.end_of_screen_render() {
        cpu.set_nmi(true);
    }
    assert!(!cpu.nmi_set());
}

// ── prerender scanline ────────────────────────────────────────────────────────

#[test]
fn prerender_scanline_clears_vblank_overflow_and_sprite0_flags() {
    let mut ppu = make_ppu(NametableMirroring::Horizontal);
    let mut cpu = make_test_cpu();
    // ppu_mask=0 keeps rendering_on=false, so render_pixel is never called and
    // tile/palette caches don't need to be pre-populated.
    ppu.ppu_status = 0xFF;
    for _ in 0..TICKS_TO_PRERENDER_FLAG_CLEAR {
        tick(&mut ppu, &mut cpu);
    }
    let status = ppu.ppu_status;
    assert_eq!(status & (1 << 7), 0, "vblank flag (bit 7) should be cleared");
    assert_eq!(status & (1 << 6), 0, "sprite-0-hit flag (bit 6) should be cleared");
    assert_eq!(status & (1 << 5), 0, "overflow flag (bit 5) should be cleared");
}

// ── pixel integration tests ──────────────────────────────────────────────────
//
// Strategy: run frame 1 with rendering disabled (ppu_mask=0) so the tile and
// palette caches get pre-populated by load_tile/load_palette (which run
// regardless of rendering_on) without render_pixel being called.  Enable
// rendering for frame 2, then tick to vblank so write_buffer is flushed.
//
// Scroll state: t=0 throughout, so v stays 0 across frame 1 and frame 2's
// copy_x/y_bits calls reset v back to 0.  Tile and palette address is
// therefore always nametable 0, tile-index 0, attribute byte 0.
//
// fine_y during scanline S of frame 2 (starting from v=0):
//   fine_y = S % 8  (y_increment fires at dot 256, so S=0 renders with fine_y=0,
//                     S=8 also renders with fine_y=0, etc.)

#[test]
fn background_color_used_when_all_tile_pixels_are_transparent() {
    // CHR = all zeros → pixel_intensity always 0 → fallback to global bg color.
    let mut ppu = make_ppu(NametableMirroring::Horizontal);
    let mut cpu = make_test_cpu();

    // Frame 1: rendering disabled, warms up tile/palette cache.
    for _ in 0..TICKS_PER_FRAME {
        tick(&mut ppu, &mut cpu);
    }

    {
        ppu.ppu_mask = 0x0A; // enable bg for all columns (bits 1 and 3)
        ppu.write_vram(0x3f00, 0x16); // global bg = distinctive color
    }

    // Frame 2: tick until write_buffer is flushed at vblank.
    for _ in 0..TICKS_TO_VBLANK {
        tick(&mut ppu, &mut cpu);
    }

    let buf = &ppu.write_buffer;
    let idx = 100 * 1024; // scanline 100, x=0 — safely inside visible area
    assert_eq!(&buf[idx..idx + 4], &Palette::hue_lookup(0x16));
}

#[test]
fn tile_palette_color_used_for_nonzero_pixel_intensity() {
    // Tile 0, all 8 rows, low bitplane = 0x80 so pixel at x=0 has intensity 1
    // (swap_bits(0x80) = 0x01; bit 0 of the reversed byte encodes x=0).
    // Palette entry 1 is set to color 0x26; the test verifies that color appears
    // at scanline 16 x=0, where fine_y=0 so row 0 of the tile is sampled.
    let mut ppu = make_ppu(NametableMirroring::Horizontal);
    let mut cpu = make_test_cpu();

    {
        // CHR addresses 0x0000–0x0007 are the low bitplane for tile 0 rows 0–7.
        for row in 0u16..8 {
            ppu.write_vram(row as usize, 0x80);
        }
        ppu.write_vram(0x3f01, 0x26); // palette 0 entry 1 = color 0x26
    }

    // Frame 1: rendering disabled.
    for _ in 0..TICKS_PER_FRAME {
        tick(&mut ppu, &mut cpu);
    }

    ppu.ppu_mask = 0x0A;

    // Frame 2: tick to vblank.
    for _ in 0..TICKS_TO_VBLANK {
        tick(&mut ppu, &mut cpu);
    }

    // Scanline 16 has fine_y=0 (it's the 3rd scanline of the second 8-scanline
    // tile row, but fine_y cycles 0..7 per tile row — scanlines 8,16,24,… each
    // start a new cycle with fine_y=0).
    let buf = &ppu.write_buffer;
    let idx = 16 * 1024; // scanline 16, x=0
    assert_eq!(&buf[idx..idx + 4], &Palette::hue_lookup(0x26));
}
