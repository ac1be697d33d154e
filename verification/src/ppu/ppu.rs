use crate::mapper::Mapper;
use crate::ppu::palette::{hue_color, Palette};
use crate::ppu::sprite_info::SpriteInfo;
use crate::ppu::tile::{row_readable, Tile};
use crate::ppu::PPUInternalRegisters;
use vstd::prelude::*;

verus! {

/// Bit-level facts about nametable mirroring and palette addresses.
proof fn lemma_vram_bits(r: usize, p: usize)
    ensures
        0x2000 <= r < 0x3000 ==> r & !0x0800usize == 0x2000 + r % 0x400 + 0x400 * (((r - 0x2000)
            / 0x400) % 2),
        0x2000 <= r < 0x3000 ==> (r & !0x0C00usize) | ((r & 0x0800) >> 1) == 0x2000 + r % 0x400
            + 0x400 * ((r - 0x2000) / 0x400 / 2),
        0x2000 <= r < 0x3000 ==> r & !0x0c00usize == 0x2000 + r % 0x400,
        0x2000 <= r < 0x3000 ==> (r & !0x0c00usize) + 0x400 == 0x2000 + r % 0x400 + 0x400,
        0x3f00 | (p & 0x1f) == 0x3f00 + p % 32,
{
    assert((0x2000 <= r < 0x3000 ==> r & !0x0800usize == 0x2000 + r % 0x400 + 0x400 * (((r
        - 0x2000) / 0x400) % 2)) && (0x2000 <= r < 0x3000 ==> (r & !0x0C00usize) | ((r & 0x0800)
        >> 1) == 0x2000 + r % 0x400 + 0x400 * ((r - 0x2000) / 0x400 / 2)) && (0x2000 <= r < 0x3000
        ==> r & !0x0c00usize == 0x2000 + r % 0x400) && (0x2000 <= r < 0x3000 ==> (r & !0x0c00usize)
        + 0x400 == 0x2000 + r % 0x400 + 0x400) && (0x3f00 | (p & 0x1f) == 0x3f00 + p % 32))
        by (bit_vector);
}

pub const OAM_SIZE: usize = 256;

/* 4kb VRAM covering the entirety of the nametable space; in reality only 2kb is used but this
 * makes addressing easier
 */
pub const VRAM_SIZE: usize = 4096;

pub const PALETTE_MEMORY_SIZE: usize = 32;

/* number of lines at the top of the screen to not actually show */
pub const OVERSCAN: u8 = 10;

pub const DISPLAY_WIDTH: u32 = 256;

pub const DISPLAY_HEIGHT: u32 = 240;

pub const WRITE_BUFFER_SIZE: usize = 245760;

/// How the four logical nametables map onto the console's nametable memory.
#[derive(Clone, Copy, Debug, PartialEq, Eq, Structural)]
pub enum NametableMirroring {
    Horizontal,  /* pages are mirrored horizontally (appropriate for vertical games) */
    Vertical,  /* pages are mirrored vertically (appropriate for horizontal games) */
    SingleNametable0,  /* first nametable mirrored four times */
    SingleNametable1,  /* second nametable mirrored four times */
    FourScreen,  /* all four nametable/attribute tables available */
}

/// Where a PPU address lands: pattern tables (below 0x2000) pass through; nametables
/// (0x2000 to 0x3eff, with 0x3000 and up mirroring 0x2000 and up) fold according to the
/// mirroring; palette addresses repeat every 32 bytes, and 0x3f10 is 0x3f00.
pub open spec fn mirror_address(mirroring: NametableMirroring, addr: int) -> int {
    if addr < 0x2000 {
        addr
    } else if addr < 0x3f00 {
        let a = if addr >= 0x3000 {
            addr - 0x1000
        } else {
            addr
        };
        let nametable = (a - 0x2000) / 0x400;
        let offset = a % 0x400;
        0x2000 + offset + 0x400 * match mirroring {
            NametableMirroring::Horizontal => nametable % 2,
            NametableMirroring::Vertical => nametable / 2,
            NametableMirroring::SingleNametable0 => 0,
            NametableMirroring::SingleNametable1 => 1,
            NametableMirroring::FourScreen => nametable,
        }
    } else {
        let p = 0x3f00 + addr % 32;
        if p == 0x3f10 {
            0x3f00
        } else {
            p
        }
    }
}

/// What a VRAM write of `val` at `addr` does: pattern-table writes go to the mapper's CHR,
/// nametable and palette writes to the PPU's own memories; nothing else changes.
pub open spec fn vram_write_result<M: Mapper>(pre: PPU<M>, addr: int, val: u8, post: PPU<M>) -> bool {
    let m = mirror_address(pre.mapper.mirroring(), addr);
    if m < 0x2000 {
        &&& pre.mapper.chr_write_result(m as u16, val, post.mapper)
        &&& post == PPU { mapper: post.mapper, ..pre }
    } else if m < 0x3f00 {
        &&& post.vram@ == pre.vram@.update(m - 0x2000, val)
        &&& post == PPU { vram: post.vram, ..pre }
    } else {
        &&& post.palette_memory@ == pre.palette_memory@.update(m - 0x3f00, val)
        &&& post == PPU { palette_memory: post.palette_memory, ..pre }
    }
}

/// The picture processing unit: its memories, registers and rendering state. It owns the
/// cartridge mapper, which serves the pattern tables.
pub struct PPU<M: Mapper> {
    pub mapper: M,
    pub oam: Vec<u8>,
    /// The last completed frame, RGBA.
    pub write_buffer: Vec<u8>,
    /// Set when a frame has been completed and should be displayed.
    pub frame_ready: bool,
    pub internal_buffer: Vec<u8>,
    pub vram: Vec<u8>,
    pub palette_memory: Vec<u8>,
    pub scanline_sprites: Option<Vec<SpriteInfo>>,
    pub current_tile: Option<Tile>,
    pub current_palette: Option<Palette>,
    pub next_tile: Option<Tile>,
    pub next_palette: Option<Palette>,
    pub tick_count: u32,
    pub is_even_frame: bool,
    /* shared registers */
    pub ppu_ctrl: u8,
    pub ppu_mask: u8,
    pub oam_addr: u8,
    pub ppu_status: u8,
    pub tall_sprites: bool,  /* if true, sprites are 16 pixels tall instead of 8 */
    pub internal_regs: PPUInternalRegisters,
    pub read_buffer: u8,
}

/// One rendered colour, as RGBA.
pub type Pixel = [u8; 4];

impl<M: Mapper> PPU<M> {
    pub open spec fn wf(&self) -> bool {
        &&& self.mapper.wf()
        &&& self.oam@.len() == OAM_SIZE
        &&& self.write_buffer@.len() == WRITE_BUFFER_SIZE
        &&& self.internal_buffer@.len() == WRITE_BUFFER_SIZE
        &&& self.vram@.len() == VRAM_SIZE
        &&& self.palette_memory@.len() == PALETTE_MEMORY_SIZE
        &&& self.tick_count < 341 * 262
        &&& self.internal_regs.x < 8
        &&& (self.current_tile matches Some(t) ==> t.tile_addr <= 0x1ff0)
        &&& (self.next_tile matches Some(t) ==> t.tile_addr <= 0x1ff0)
        &&& forall|a: u16| a < 0x2000 ==> #[trigger] self.mapper.chr_readable(a)
        &&& forall|a: u16| a < 0x2000 ==> #[trigger] self.mapper.chr_writable(a)
    }

    /// The tile and palette pipeline and the sprite list have been filled, which happens
    /// during the first frame whether or not rendering is on.
    pub open spec fn loaded(&self) -> bool {
        &&& self.scanline_sprites.is_some()
        &&& self.current_tile.is_some()
        &&& self.next_tile.is_some()
        &&& self.current_palette.is_some()
        &&& self.next_palette.is_some()
    }

    /// The state the PPU starts in: memories zeroed, registers cleared, nothing loaded.
    pub open spec fn fresh(&self) -> bool {
        &&& self.oam@ == Seq::new(OAM_SIZE as nat, |i: int| 0u8)
        &&& self.vram@ == Seq::new(VRAM_SIZE as nat, |i: int| 0u8)
        &&& self.palette_memory@ == Seq::new(PALETTE_MEMORY_SIZE as nat, |i: int| 0u8)
        &&& self.tick_count == 0
        &&& !self.is_even_frame
        &&& self.ppu_ctrl == 0 && self.ppu_mask == 0 && self.ppu_status == 0 && self.oam_addr == 0
        &&& !self.tall_sprites
        &&& !self.frame_ready
        &&& self.read_buffer == 0
        &&& self.internal_regs == (PPUInternalRegisters { v: 0, t: 0, x: 0, w: false })
        &&& !self.loaded()
    }

    /// The byte a VRAM read of `addr` returns.
    pub open spec fn vram_value(&self, addr: int) -> u8 {
        let m = mirror_address(self.mapper.mirroring(), addr);
        if m < 0x2000 {
            self.mapper.chr_value(m as u16)
        } else if m < 0x3000 {
            self.vram@[m - 0x2000]
        } else {
            self.palette_memory@[m - 0x3f00]
        }
    }

    pub fn new(mapper: M) -> (r: PPU<M>)
        requires
            mapper.wf(),
            forall|a: u16| a < 0x2000 ==> #[trigger] mapper.chr_readable(a),
            forall|a: u16| a < 0x2000 ==> #[trigger] mapper.chr_writable(a),
        ensures
            r.wf(),
            r.mapper == mapper,
            r.fresh(),
    {
        let oam = vec![0u8; OAM_SIZE];
        let vram = vec![0u8; VRAM_SIZE];
        let palette_memory = vec![0u8; PALETTE_MEMORY_SIZE];
        assert(oam@ =~= Seq::new(OAM_SIZE as nat, |i: int| 0u8));
        assert(vram@ =~= Seq::new(VRAM_SIZE as nat, |i: int| 0u8));
        assert(palette_memory@ =~= Seq::new(PALETTE_MEMORY_SIZE as nat, |i: int| 0u8));
        PPU {
            mapper,
            write_buffer: vec![0u8; WRITE_BUFFER_SIZE],
            frame_ready: false,
            oam,
            vram,
            palette_memory,
            internal_buffer: vec![0u8; WRITE_BUFFER_SIZE],
            tick_count: 0,
            ppu_status: 0,
            ppu_ctrl: 0,
            ppu_mask: 0,
            oam_addr: 0,
            internal_regs: PPUInternalRegisters { v: 0, t: 0, x: 0, w: false },
            tall_sprites: false,
            scanline_sprites: None,
            current_tile: None,
            current_palette: None,
            next_tile: None,
            next_palette: None,
            is_even_frame: false,
            read_buffer: 0,
        }
    }

    pub fn vram_address_mirror(&self, addr: usize) -> (r: usize)
        requires
            self.mapper.wf(),
        ensures
            r == mirror_address(self.mapper.mirroring(), addr as int),
    {
        let mut result = addr;

        if result < 0x2000 {
            result
        } else if result < 0x3f00 {
            if result >= 0x3000 {
                result -= 0x1000;
            }
            let r = result;
            proof {
                lemma_vram_bits(r, 0);
                assert(r == 0x2000 + r % 0x400 + 0x400 * ((r - 0x2000) / 0x400));
            }
            /* each mirroring folds the four nametables onto the physical ones */
            match self.mapper.get_nametable_mirroring() {
                NametableMirroring::Horizontal => result & !0x0800,
                NametableMirroring::Vertical => (result & !0x0C00) | ((result & 0x0800) >> 1),
                NametableMirroring::SingleNametable0 => result & !0x0c00,
                NametableMirroring::SingleNametable1 => (result & !0x0c00) + 0x400,
                NametableMirroring::FourScreen => result,
            }
        } else {
            /* palettes are repeated above 0x3f1f */
            proof {
                lemma_vram_bits(0, result);
            }
            result = 0x3f00 | (result & 0x1f);

            /* the first color of corresponding background and sprite palettes are shared;
             * this doesn't have any real effect, except if the true background color is
             * written to 0x3f10
             */
            if result == 0x3f10 {
                result -= 0x10;
            }

            result
        }
    }

    pub fn read_vram(&self, addr: usize) -> (r: u8)
        requires
            self.wf(),
        ensures
            r == self.vram_value(addr as int),
    {
        let mapped_address = self.vram_address_mirror(addr);

        /* pattern tables (CHR data) */
        if mapped_address < 0x2000 {
            self.mapper.read_chr(mapped_address as u16)
        /* nametables and attribute tables */
        } else if mapped_address < 0x3000 {
            self.vram[mapped_address - 0x2000]
        /* palettes */
        } else {
            self.palette_memory[mapped_address - 0x3f00]
        }
    }

    pub fn write_vram(&mut self, addr: usize, val: u8)
        requires
            old(self).wf(),
        ensures
            final(self).wf(),
            vram_write_result(*old(self), addr as int, val, *final(self)),
    {
        let mapped_address = self.vram_address_mirror(addr);

        /* pattern tables (CHR data) */
        if mapped_address < 0x2000 {
            self.mapper.write_chr(mapped_address as u16, val);
        /* nametables and attribute tables */
        } else if mapped_address < 0x3f00 {
            self.vram[mapped_address - 0x2000] = val;
            /* palettes */
        } else {
            self.palette_memory[mapped_address - 0x3f00] = val;
        }
    }
}


/// Every address lands on a pattern-table address, in the first 4kB of nametables, or on
/// one of the 32 palette entries.
pub proof fn lemma_mirror_range(mirroring: NametableMirroring, addr: int)
    requires
        0 <= addr,
    ensures
        ({
            let m = mirror_address(mirroring, addr);
            (0 <= m < 0x2000) || (0x2000 <= m < 0x3000) || (0x3f00 <= m < 0x3f20)
        }),
{
}

/// A byte written to a nametable or palette address reads back at every address that
/// folds onto the same place, and reads of the other addresses are unchanged.
pub proof fn lemma_vram_write_read<M: Mapper>(pre: PPU<M>, a: int, val: u8, post: PPU<M>, b: int)
    requires
        pre.wf(),
        0 <= a,
        0 <= b,
        mirror_address(pre.mapper.mirroring(), a) >= 0x2000,
        vram_write_result(pre, a, val, post),
    ensures
        mirror_address(pre.mapper.mirroring(), b) == mirror_address(pre.mapper.mirroring(), a)
            ==> post.vram_value(b) == val,
        mirror_address(pre.mapper.mirroring(), b) != mirror_address(pre.mapper.mirroring(), a)
            ==> post.vram_value(b) == pre.vram_value(b),
{
    lemma_mirror_range(pre.mapper.mirroring(), a);
    lemma_mirror_range(pre.mapper.mirroring(), b);
}


/// How the four nametables (0x2000, 0x2400, 0x2800, 0x2c00) fold: with horizontal
/// mirroring nametables 0 and 2 share memory and so do 1 and 3; with vertical mirroring 0
/// and 1 share, and so do 2 and 3; a single-screen arrangement folds all four onto one
/// (the second 1kb for `SingleNametable1`); four-screen keeps them apart. Except with four
/// screens, everything lands in the first 2kb of nametable memory.
pub proof fn lemma_nametable_mirroring(mirroring: NametableMirroring, off: int, k: int, j: int)
    requires
        0 <= off < 0x400,
        0 <= k < 4,
        0 <= j < 4,
    ensures
        ({
            let a = mirror_address(mirroring, 0x2000 + 0x400 * k + off);
            let b = mirror_address(mirroring, 0x2000 + 0x400 * j + off);
            &&& mirroring == NametableMirroring::Horizontal ==> (a == b <==> k % 2 == j % 2)
            &&& mirroring == NametableMirroring::Vertical ==> (a == b <==> k / 2 == j / 2)
            &&& mirroring == NametableMirroring::SingleNametable0 ==> a == b && a == 0x2000 + off
            &&& mirroring == NametableMirroring::SingleNametable1 ==> a == b && a == 0x2400 + off
            &&& mirroring == NametableMirroring::FourScreen ==> (a == b <==> k == j)
            &&& mirroring != NametableMirroring::FourScreen ==> 0x2000 <= a < 0x2800
        }),
{
    assert((0x400 * k + off) / 0x400 == k);
    assert((0x400 * j + off) / 0x400 == j);
    assert((0x2000 + 0x400 * k + off) % 0x400 == off);
    assert((0x2000 + 0x400 * j + off) % 0x400 == off);
}

} // verus!
