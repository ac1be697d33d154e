use crate::mapper::Mapper;
use crate::processor::PPU_CLOCK_SPEED;
use crate::ppu::palette::{hue_color, Palette};
use crate::ppu::ppu::{Pixel, PPU, OAM_SIZE, OVERSCAN, WRITE_BUFFER_SIZE};
use crate::ppu::ppu_internal_registers::{coarse_x_of, coarse_y_of, fine_y_of, nametable_of};
use crate::ppu::sprite_info::SpriteInfo;
use crate::ppu::tile::Tile;
use vstd::prelude::*;

verus! {

/// The address of the attribute byte that covers the tile `v` points at: each byte covers
/// a 4x4 block of tiles, 8 blocks to a row, after the 960 tile bytes of the nametable.
pub open spec fn attribute_address(v: u16) -> int {
    0x23c0 + nametable_of(v) * 1024 + (coarse_y_of(v) / 4) * 8 + coarse_x_of(v) / 4
}

/// Where the tile's two palette bits sit in its attribute byte: the byte's four 2x2
/// quarters are, from the low bits, upper left, upper right, lower left, lower right.
pub open spec fn attribute_divisor(v: u16) -> int {
    let x_low = coarse_x_of(v) % 4 < 2;
    let y_low = coarse_y_of(v) % 4 < 2;
    if x_low {
        if y_low {
            1
        } else {
            16
        }
    } else {
        if y_low {
            4
        } else {
            64
        }
    }
}

/// A tile of the pattern tables with an empty cache.
pub open spec fn fresh_tile(tile_addr: int) -> Tile {
    Tile { tile_addr: tile_addr as u16, cached_y: 0xff, cached_big: 0, cached_small: 0 }
}

/// `flags` with bit `bit` set.
pub open spec fn bit_on(flags: u8, bit: u8) -> u8 {
    flags | (1u8 << bit)
}

/// `flags` with bit `bit` cleared.
pub open spec fn bit_off(flags: u8, bit: u8) -> u8 {
    flags & !(1u8 << bit)
}

pub fn set_bit_on(flags: &mut u8, bit: u8)
    requires
        bit < 8,
    ensures
        *final(flags) == bit_on(*old(flags), bit),
{
    *flags = *flags | (1 << bit);
}

pub fn set_bit_off(flags: &mut u8, bit: u8)
    requires
        bit < 8,
    ensures
        *final(flags) == bit_off(*old(flags), bit),
{
    *flags = *flags & !(1 << bit);
}

/// The sprites of `oam` that cover `scanline`, in OAM order, at most eight.
pub open spec fn sprites_on_line(oam: Seq<u8>, scanline: u8, height: u8, n: int) -> Seq<SpriteInfo>
    decreases n,
{
    if n <= 0 {
        Seq::empty()
    } else {
        let prev = sprites_on_line(oam, scanline, height, n - 1);
        let sprite = sprite_at(oam, n - 1);
        if prev.len() < 8 && sprite.covers_scanline(scanline, height) {
            prev.push(sprite)
        } else {
            prev
        }
    }
}

/// Sprite `i` of `oam`.
pub open spec fn sprite_at(oam: Seq<u8>, i: int) -> SpriteInfo {
    SpriteInfo {
        y: oam[4 * i],
        tile_index: oam[4 * i + 1],
        attrs: oam[4 * i + 2],
        x: oam[4 * i + 3],
        sprite_index: i as usize,
    }
}

/// The count of sprites covering `scanline` among the first `n` (not capped).
pub open spec fn count_on_line(oam: Seq<u8>, scanline: u8, height: u8, n: int) -> int
    decreases n,
{
    if n <= 0 {
        0
    } else {
        count_on_line(oam, scanline, height, n - 1) + if sprite_at(oam, n - 1).covers_scanline(
            scanline,
            height,
        ) {
            1int
        } else {
            0int
        }
    }
}

/// The bit manipulations of rendering, as arithmetic.
proof fn lemma_render_bits(c: u8, t: u8, nt: u8, cy: u8, cx: u8, a: u8, v: u16, c8: u8)
    ensures
        (c & 0x10) >> 4 == (c / 16) % 2,
        (c & 0x8) >> 3 == (c / 8) % 2,
        t & !1u8 == t - t % 2,
        t & 1 == t % 2,
        nt < 4 && cy < 32 && cx < 32 ==> 0x23c0 | ((nt as u16) << 10) | (((cy as u16) & 0x1c) << 1)
            | ((cx as u16) >> 2) == 0x23c0 + nt * 1024 + (cy / 4) * 8 + cx / 4,
        cx < 32 ==> (8 * cx % 32 < 16) == (cx % 4 < 2),
        cy < 32 ==> (8 * cy % 32 < 16) == (cy % 4 < 2),
        (a >> 0u8) & 3 == (a / 1) % 4,
        (a >> 2u8) & 3 == (a / 4) % 4,
        (a >> 4u8) & 3 == (a / 16) % 4,
        (a >> 6u8) & 3 == (a / 64) % 4,
        0x2000 | (v & 0xfff) == 0x2000 + v % 4096,
        c8 & 7 == c8 % 8,
        1u8 << 1u8 == 0x02 && 1u8 << 2u8 == 0x04 && 1u8 << 3u8 == 0x08 && 1u8 << 4u8 == 0x10,
        1u8 << 6u8 == 0x40 && 1u8 << 7u8 == 0x80,
        ((c & !(1u8 << 5u8)) & !(1u8 << 6u8)) & !(1u8 << 7u8) == c & 0x1f,
        (c & 0x08 != 0 || c & 0x10 != 0) ==> c & 0x18 != 0,
{
    assert(((c & 0x10) >> 4 == (c / 16) % 2) && ((c & 0x8) >> 3 == (c / 8) % 2) && (t & !1u8 == t
        - t % 2) && (t & 1 == t % 2) && (nt < 4 && cy < 32 && cx < 32 ==> 0x23c0 | ((nt as u16)
        << 10) | (((cy as u16) & 0x1c) << 1) | ((cx as u16) >> 2) == 0x23c0 + nt * 1024 + (cy / 4)
        * 8 + cx / 4) && (cx < 32 ==> (8 * cx % 32 < 16) == (cx % 4 < 2)) && (cy < 32 ==> (8 * cy
        % 32 < 16) == (cy % 4 < 2)) && ((a >> 0u8) & 3 == (a / 1) % 4) && ((a >> 2u8) & 3 == (a
        / 4) % 4) && ((a >> 4u8) & 3 == (a / 16) % 4) && ((a >> 6u8) & 3 == (a / 64) % 4) && (
    0x2000 | (v & 0xfff) == 0x2000 + v % 4096) && (c8 & 7 == c8 % 8) && (1u8 << 1u8 == 0x02
        && 1u8 << 2u8 == 0x04 && 1u8 << 3u8 == 0x08 && 1u8 << 4u8 == 0x10) && (1u8 << 6u8 == 0x40
        && 1u8 << 7u8 == 0x80) && (((c & !(1u8 << 5u8)) & !(1u8 << 6u8)) & !(1u8 << 7u8) == c
        & 0x1f) && ((c & 0x08 != 0 || c & 0x10 != 0) ==> c & 0x18 != 0)) by (bit_vector);
}

/// The background palette comes from the attribute table. The byte at 0x23c0 + 0x400 *
/// nametable + 8 * (coarse y / 4) + coarse x / 4 covers a block of 4x4 tiles and holds four
/// 2-bit palette numbers: from its low bits, those of the block's upper-left, upper-right,
/// lower-left and lower-right 2x2-tile quarter. Palette `p` is palette memory 4p to 4p + 3.
pub proof fn lemma_bg_palette_quarters<M: Mapper>(ppu: PPU<M>)
    ensures
        ({
            let v = ppu.internal_regs.v;
            let cx = v % 32;
            let cy = (v / 32) % 32;
            let attr = ppu.vram_value(0x23c0 + 0x400 * ((v / 1024) % 4) + 8 * (cy / 4) + cx / 4);
            let shift = ((if cx % 4 >= 2 {
                2int
            } else {
                0int
            }) + (if cy % 4 >= 2 {
                4int
            } else {
                0int
            })) as u8;
            let p = ((attr >> shift) & 3) as int;
            forall|i: int|
                0 <= i < 4 ==> #[trigger] ppu.bg_palette().hues@[i] == ppu.palette_memory@[4 * p
                    + i]
        }),
{
    let v = ppu.internal_regs.v;
    let attr = ppu.vram_value(attribute_address(v));
    lemma_render_bits(0, 0, 0, 0, 0, attr, 0, 0);
}


impl<M: Mapper> PPU<M> {
    /// 16 for tall sprites, else 8.
    pub open spec fn height(&self) -> u8 {
        if self.tall_sprites {
            16
        } else {
            8
        }
    }

    /// The palette at `palette_index` (0 to 3 for the background, 4 to 7 for sprites).
    pub open spec fn palette_at(&self, palette_index: int) -> Palette {
        let m = self.palette_memory@;
        Palette {
            hues: [
                m[4 * palette_index],
                m[4 * palette_index + 1],
                m[4 * palette_index + 2],
                m[4 * palette_index + 3],
            ],
        }
    }

    /// The background palette of the tile `v` points at, from its attribute byte.
    pub open spec fn bg_palette(&self) -> Palette {
        let v = self.internal_regs.v;
        self.palette_at(
            (self.vram_value(attribute_address(v)) as int / attribute_divisor(v)) % 4,
        )
    }

    /// The background tile with index `tile_index`, in the pattern table PPUCTRL bit 4
    /// selects.
    pub open spec fn bg_tile(&self, tile_index: u8) -> Tile {
        fresh_tile(0x1000 * ((self.ppu_ctrl / 16) % 2) + tile_index * 16)
    }

    /// The background tile `v` points at, named by its nametable entry.
    pub open spec fn tile_at_v(&self) -> Tile {
        self.bg_tile(self.vram_value(0x2000 + self.internal_regs.v % 4096))
    }

    /// The tile a sprite draws: for tall sprites bit 0 of the index selects the pattern
    /// table and the rest the (even) tile; otherwise PPUCTRL bit 3 selects the table.
    pub open spec fn sprite_tile(&self, tile_index: u8) -> Tile {
        if self.tall_sprites {
            fresh_tile(0x1000 * (tile_index % 2) + (tile_index - tile_index % 2) * 16)
        } else {
            fresh_tile(0x1000 * ((self.ppu_ctrl / 8) % 2) + tile_index * 16)
        }
    }

    pub fn sprite_height(&self) -> (r: u8)
        ensures
            r == self.height(),
    {
        if self.tall_sprites {
            16
        } else {
            8
        }
    }

    pub fn get_tile(&self, tile_index: u8, pattern_table_num: u8) -> (r: Tile)
        requires
            pattern_table_num < 16,
        ensures
            r == fresh_tile(0x1000 * pattern_table_num + tile_index * 16),
    {
        let pattern_table_base = 0x1000u16 * pattern_table_num as u16;
        let tile_start = pattern_table_base + (tile_index as u16 * 16);
        Tile::new(tile_start)
    }

    pub fn get_bg_tile(&self, tile_index: u8) -> (r: Tile)
        ensures
            r == self.bg_tile(tile_index),
    {
        let c = self.ppu_ctrl;
        proof {
            lemma_render_bits(c, 0, 0, 0, 0, 0, 0, 0);
        }
        self.get_tile(tile_index, (self.ppu_ctrl & 0x10) >> 4)
    }

    pub fn get_sprite_tile(&self, tile_index: u8) -> (r: Tile)
        ensures
            r == self.sprite_tile(tile_index),
    {
        let c = self.ppu_ctrl;
        proof {
            lemma_render_bits(c, tile_index, 0, 0, 0, 0, 0, 0);
        }
        let (tile_index, pattern_table) = if self.tall_sprites {
            (tile_index & !1, tile_index & 1)
        } else {
            (tile_index, (self.ppu_ctrl & 0x8) >> 3)
        };
        self.get_tile(tile_index, pattern_table)
    }

    pub fn get_palette(&self, palette_index: u8) -> (r: Palette)
        requires
            self.wf(),
            palette_index < 8,
        ensures
            r == self.palette_at(palette_index as int),
    {
        let palette_mem_loc: usize = (palette_index as usize) * 4;
        let palette_data: [u8; 4] = [
            self.palette_memory[palette_mem_loc],
            self.palette_memory[palette_mem_loc + 1],
            self.palette_memory[palette_mem_loc + 2],
            self.palette_memory[palette_mem_loc + 3],
        ];
        Palette::new(palette_data)
    }

    /// The palette of the background tile `v` points at.
    pub fn get_bg_palette(&self) -> (r: Palette)
        requires
            self.wf(),
        ensures
            r == self.bg_palette(),
    {
        /* 0x23C0 | (v & 0x0C00) | ((v >> 4) & 0x38) | ((v >> 2) & 0x07) */
        let nt = self.internal_regs.get_nametable();
        let cy = self.internal_regs.get_coarse_y();
        let cx = self.internal_regs.get_coarse_x();
        let addr = 0x23c0 | ((nt as u16) << 10) | (((cy as u16) & 0x1c) << 1) | ((cx as u16) >> 2);
        proof {
            lemma_render_bits(0, 0, nt, cy, cx, 0, 0, 0);
        }
        /* each address controls a 32x32 pixel block; 8 blocks per row */
        let attr_table_value = self.read_vram(addr as usize);
        /* the attr_table_value stores information about 16x16 blocks as 2-bit palette references.
         * in order from the lowest bits they are: upper left, upper right, bottom left, bottom right
         */
        let x_low = 8 * cx % 32 < 16;
        let y_low = 8 * cy % 32 < 16;
        let attr_table_offset: u8 = if x_low {
            if y_low {
                0
            } else {
                4
            }
        } else {
            if y_low {
                2
            } else {
                6
            }
        };
        let a = attr_table_value;
        proof {
            lemma_render_bits(0, 0, 0, 0, 0, a, 0, 0);
        }
        self.get_palette((attr_table_value >> attr_table_offset) & 3)  /* only need two bits */
    }

    /// The same lookup as `get_bg_palette`, at the start of a scanline.
    pub fn palette_for_current_bg_tile(&self) -> (r: Palette)
        requires
            self.wf(),
        ensures
            r == self.bg_palette(),
    {
        self.get_bg_palette()
    }

    /// The background tile `v` points at.
    pub fn get_current_tile(&self) -> (r: Tile)
        requires
            self.wf(),
        ensures
            r == self.tile_at_v(),
    {
        let v = self.internal_regs.v;
        proof {
            lemma_render_bits(0, 0, 0, 0, 0, 0, v, 0);
        }
        self.get_bg_tile(self.read_vram((0x2000 | (self.internal_regs.v & 0xfff)) as usize))
    }

    /// Moves the next palette into place and fetches the one after it.
    pub fn load_palette(&mut self)
        requires
            old(self).wf(),
        ensures
            final(self).wf(),
            *final(self) == (PPU {
                current_palette: old(self).next_palette,
                next_palette: Some(old(self).bg_palette()),
                ..*old(self)
            }),
    {
        let new_palette = Some(self.get_bg_palette());
        self.current_palette = self.next_palette;
        self.next_palette = new_palette;
    }

    /// Moves the next tile into place and fetches the one after it.
    pub fn load_tile(&mut self)
        requires
            old(self).wf(),
        ensures
            final(self).wf(),
            *final(self) == (PPU {
                current_tile: old(self).next_tile,
                next_tile: Some(old(self).tile_at_v()),
                ..*old(self)
            }),
    {
        let new_tile = Some(self.get_current_tile());
        self.current_tile = self.next_tile;
        self.next_tile = new_tile;
    }

    /* optimized version of looking up the global background color that skips
     * constructing a palette
     */
    pub fn render_background_color(&self) -> (r: Pixel)
        requires
            self.wf(),
        ensures
            r == hue_color(self.palette_memory@[0] % 64),
    {
        Palette::hue_lookup(self.palette_memory[0])
    }

    /// Sprite `sprite_index` of the object attribute memory.
    pub fn slice_as_sprite(&self, sprite_index: usize) -> (r: SpriteInfo)
        requires
            self.wf(),
            sprite_index < OAM_SIZE / 4,
        ensures
            r == sprite_at(self.oam@, sprite_index as int),
    {
        let sprite_data: [u8; 4] = [
            self.oam[sprite_index * 4],
            self.oam[sprite_index * 4 + 1],
            self.oam[sprite_index * 4 + 2],
            self.oam[sprite_index * 4 + 3],
        ];
        SpriteInfo::from_memory(sprite_index, &sprite_data)
    }

    /* Finds the first eight sprites on the given scanline, determined
     * by position in the OAM. Takes into account whether sprites are 8 or 16
     * pixels tall. It then copies these into secondary OAM. Also sets the
     * sprite overflow bit if necessary.
     */
    pub fn sprite_evaluation(&mut self, scanline_num: u8) -> (r: Vec<SpriteInfo>)
        requires
            old(self).wf(),
        ensures
            final(self).wf(),
            r@ == sprites_on_line(old(self).oam@, scanline_num, old(self).height(), 64),
            r@.len() <= 8,
            *final(self) == (PPU {
                ppu_status: if count_on_line(old(self).oam@, scanline_num, old(self).height(), 64)
                    >= 8 {
                    bit_on(old(self).ppu_status, 1)
                } else {
                    old(self).ppu_status
                },
                ..*old(self)
            }),
    {
        let mut scanline_sprites: Vec<SpriteInfo> = Vec::new();
        let mut sprites_found: u8 = 0;
        let height = self.sprite_height();
        let mut i: usize = 0;
        while i < OAM_SIZE / 4
            invariant_except_break
                self.wf(),
                *self == *old(self),
                height == old(self).height(),
                0 <= i <= OAM_SIZE / 4,
                sprites_found < 8,
                scanline_sprites@ == sprites_on_line(old(self).oam@, scanline_num, height, i as int),
                sprites_found == scanline_sprites@.len(),
                sprites_found == count_on_line(old(self).oam@, scanline_num, height, i as int),
            ensures
                self.wf(),
                scanline_sprites@ == sprites_on_line(old(self).oam@, scanline_num, height, 64),
                scanline_sprites@.len() <= 8,
                *self == (PPU {
                    ppu_status: if count_on_line(old(self).oam@, scanline_num, height, 64) >= 8 {
                        bit_on(old(self).ppu_status, 1)
                    } else {
                        old(self).ppu_status
                    },
                    ..*old(self)
                }),
            decreases OAM_SIZE / 4 - i,
        {
            let sprite_data = self.slice_as_sprite(i);
            if sprite_data.in_scanline(scanline_num, height) {
                scanline_sprites.push(sprite_data);
                sprites_found += 1;
                /* TODO: should we implement the buggy 'diagonal' behavior for this? */
                /* already found eight sprites, set overflow */
                if sprites_found == 8 {
                    set_bit_on(&mut self.ppu_status, 1);
                    proof {
                        lemma_eight_found(old(self).oam@, scanline_num, height, i as int + 1, 64);
                    }
                    break;
                }
            }
            i += 1;
        }
        scanline_sprites
    }
}

impl<M: Mapper> PPU<M> {
    /// The row of the current tiles that this scanline draws.
    pub open spec fn fine_y(&self) -> u8 {
        fine_y_of(self.internal_regs.v) as u8
    }

    /// The background pixel at screen column `x` lies `x % 8` plus the fine x scroll into
    /// the current tile; past its eighth column it is in the next tile.
    pub open spec fn bg_offset(&self, x: u8) -> int {
        x % 8 + self.internal_regs.x
    }

    /// The brightness (0 to 3) of the background at column `x`.
    pub open spec fn bg_brightness(&self, x: u8) -> u8 {
        let xo = self.bg_offset(x);
        let t = if xo > 7 {
            self.next_tile.unwrap()
        } else {
            self.current_tile.unwrap()
        };
        t.intensity(&self.mapper, (xo % 8) as u8, self.fine_y())
    }

    /// The background's colour at column `x`, or `None` where it is transparent
    /// (brightness 0).
    pub open spec fn bg_pixel(&self, x: u8) -> Option<Pixel> {
        let xo = self.bg_offset(x);
        let p = if xo > 7 {
            self.next_palette.unwrap()
        } else {
            self.current_palette.unwrap()
        };
        let b = self.bg_brightness(x);
        if b > 0 {
            Some(hue_color(p.hues[b as int] % 64))
        } else {
            None
        }
    }

    /// The tiles are as before, except that a tile may have been looked up on this
    /// scanline's row (see `Tile::refreshed`).
    pub open spec fn tiles_refreshed(&self, post: PPU<M>) -> bool {
        &&& (post.current_tile == self.current_tile || (self.current_tile matches Some(t)
            && post.current_tile matches Some(t2) && t.refreshed(t2, &self.mapper, self.fine_y())))
        &&& (post.next_tile == self.next_tile || (self.next_tile matches Some(t)
            && post.next_tile matches Some(t2) && t.refreshed(t2, &self.mapper, self.fine_y())))
    }

    /// The tiles and palettes needed to draw a pixel are present.
    pub open spec fn ready(&self) -> bool {
        self.loaded()
    }

    /// The background's colour at column `x`, if not transparent.
    pub fn render_background_tiles(&mut self, x: u8) -> (r: Option<Pixel>)
        requires
            old(self).wf(),
            old(self).ready(),
        ensures
            final(self).wf(),
            final(self).ready(),
            r == old(self).bg_pixel(x),
            old(self).tiles_refreshed(*final(self)),
            *final(self) == (PPU {
                current_tile: final(self).current_tile,
                next_tile: final(self).next_tile,
                ..*old(self)
            }),
    {
        let x_offset = x % 8 + self.internal_regs.get_fine_x();
        let fine_y = self.internal_regs.get_fine_y();
        let use_next = x_offset > 7;
        let mut tile = if use_next {
            self.next_tile.unwrap()
        } else {
            self.current_tile.unwrap()
        };
        let palette = if use_next {
            self.next_palette.unwrap()
        } else {
            self.current_palette.unwrap()
        };
        assert(tile.readable_row(&self.mapper, fine_y));
        let brightness = tile.pixel_intensity(&self.mapper, x_offset % 8, fine_y);
        if use_next {
            self.next_tile = Some(tile);
        } else {
            self.current_tile = Some(tile);
        }
        if brightness > 0 {
            Some(palette.brightness_to_pixels(brightness))
        } else {
            None
        }
    }

    /// The sprite covers column `x` and `scanline`, and its pixel there is not
    /// transparent.
    pub open spec fn sprite_hit(&self, s: SpriteInfo, scanline: u8, x: u8) -> bool {
        &&& s.x <= x
        &&& x - s.x < 8
        &&& s.covers_scanline(scanline, self.height())
        &&& s.brightness(self, (x - s.x) as u8, (scanline - s.top()) as u8) > 0
    }

    /// The first sprite from position `i` of `list` on that draws at (x, scanline).
    pub open spec fn first_sprite_hit(&self, list: Seq<SpriteInfo>, scanline: u8, x: u8, i: int) -> Option<int>
        decreases list.len() - i,
    {
        if i >= list.len() || i < 0 {
            None
        } else if self.sprite_hit(list[i], scanline, x) {
            Some(i)
        } else {
            self.first_sprite_hit(list, scanline, x, i + 1)
        }
    }

    /// The sprite pixel at (x, scanline): the first sprite of `list` that draws there,
    /// with its colour.
    pub open spec fn sprite_pixel(&self, list: Seq<SpriteInfo>, scanline: u8, x: u8) -> Option<(SpriteInfo, Pixel)> {
        match self.first_sprite_hit(list, scanline, x, 0) {
            Some(j) => {
                let s = list[j];
                let b = s.brightness(self, (x - s.x) as u8, (scanline - s.top()) as u8);
                Some((s, hue_color(self.palette_at(s.attrs as int % 4 + 4).hues[b as int] % 64)))
            },
            None => None,
        }
    }

    /// The first sprite of `scanline_sprites` that draws at column `x` of `scanline`, and
    /// its colour. Sprites that do not cover the scanline are passed over.
    pub fn render_sprites(&self, scanline_sprites: &Vec<SpriteInfo>, scanline: u8, x: u8) -> (r: Option<(SpriteInfo, Pixel)>)
        requires
            self.wf(),
        ensures
            r == self.sprite_pixel(scanline_sprites@, scanline, x),
    {
        let height = self.sprite_height();
        let mut i: usize = 0;
        while i < scanline_sprites.len()
            invariant
                self.wf(),
                height == self.height(),
                0 <= i <= scanline_sprites@.len(),
                self.first_sprite_hit(scanline_sprites@, scanline, x, 0) == self.first_sprite_hit(
                    scanline_sprites@,
                    scanline,
                    x,
                    i as int,
                ),
            decreases scanline_sprites@.len() - i,
        {
            let sprite = scanline_sprites[i];
            if x >= sprite.x && x - sprite.x < 8 && sprite.in_scanline(scanline, height) {
                let brightness = sprite.get_brightness_localized(self, x - sprite.x, scanline - sprite.get_y());
                if brightness > 0 {
                    let palette = sprite.get_palette(self);
                    return Some((sprite, palette.brightness_to_pixels(brightness)));
                }
            }
            i += 1;
        }
        None
    }

    /// Sprite 0 hits the background at column `x`: it is sprite 0, no hit has been seen
    /// this frame, `x` is not the last column, and the current background tile is not
    /// transparent there. The tile column wraps within the current tile.
    pub open spec fn sprite0_hits(&self, x: u8, sprite: SpriteInfo) -> bool {
        &&& sprite.sprite_index == 0
        &&& self.ppu_status & 0x40 == 0
        &&& x != 0xff
        &&& self.current_tile.unwrap().intensity(
            &self.mapper,
            (self.bg_offset(x) % 8) as u8,
            self.fine_y(),
        ) > 0
    }

    /// Sets the sprite 0 hit flag (status bit 6) when `sprite_rendered` hits (see
    /// `sprite0_hits`).
    pub fn sprite0_hit_detection(&mut self, x: u8, sprite_rendered: &SpriteInfo)
        requires
            old(self).wf(),
            old(self).ready(),
        ensures
            final(self).wf(),
            final(self).ready(),
            final(self).ppu_status == if old(self).sprite0_hits(x, *sprite_rendered) {
                old(self).ppu_status | 0x40
            } else {
                old(self).ppu_status
            },
            old(self).tiles_refreshed(*final(self)),
            final(self).next_tile == old(self).next_tile,
            *final(self) == (PPU {
                current_tile: final(self).current_tile,
                ppu_status: final(self).ppu_status,
                ..*old(self)
            }),
    {
        /* nothing to do if any of these hold (some of which are checked before this call):
         * -the hit sprite isn't sprite 0
         * -sprite zero has already been found
         * -we're not rendering both sprites and the background,
         * -we're checking a pixel on the far left of the screen and we don't have both
         *   background and sprite rendering enabled for that column,
         * -x is the rightmost column, 255
         */
        if sprite_rendered.sprite_index != 0 || self.ppu_status & (1 << 6) != 0 || x == 0xff {
            proof {
                lemma_render_bits(0, 0, 0, 0, 0, 0, 0, 0);
            }
            return;
        }
        proof {
            lemma_render_bits(0, 0, 0, 0, 0, 0, 0, 0);
        }
        /* check to see if we're already rendering a background pixel; if so, it's a hit */
        let column = (x % 8 + self.internal_regs.get_fine_x()) & 7;
        let c8 = x % 8 + self.internal_regs.x;
        proof {
            lemma_render_bits(0, 0, 0, 0, 0, 0, 0, c8);
        }
        let fine_y = self.internal_regs.get_fine_y();
        let mut tile = self.current_tile.unwrap();
        assert(tile.readable_row(&self.mapper, fine_y));
        let brightness = tile.pixel_intensity(&self.mapper, column, fine_y);
        self.current_tile = Some(tile);
        if brightness > 0 {
            self.ppu_status |= 1 << 6;
        }
    }
}

/// The index in the frame buffer of the first byte of pixel (x, scanline).
pub open spec fn buffer_index(scanline: u8, x: u8) -> int {
    scanline * 1024 + x * 4
}

/// The scanlines that are shown (the top and bottom `OVERSCAN` lines are not).
pub open spec fn visible_scanline(scanline: u8) -> bool {
    OVERSCAN <= scanline <= 240 - OVERSCAN
}

impl<M: Mapper> PPU<M> {
    /// Background rendering is on for column `x` (PPUMASK bit 3, and bit 1 for the
    /// leftmost eight columns).
    pub open spec fn show_background(&self, x: u8) -> bool {
        self.ppu_mask & 0x08 != 0 && (x > 7 || self.ppu_mask & 0x02 != 0)
    }

    /// Sprite rendering is on for column `x` (PPUMASK bit 4, and bit 2 for the leftmost
    /// eight columns).
    pub open spec fn show_sprites(&self, x: u8) -> bool {
        self.ppu_mask & 0x10 != 0 && (x > 7 || self.ppu_mask & 0x04 != 0)
    }

    /// The sprite drawn at (x, scanline), if sprites are shown there.
    pub open spec fn shown_sprite(&self, scanline: u8, x: u8) -> Option<(SpriteInfo, Pixel)> {
        if self.show_sprites(x) {
            self.sprite_pixel(self.scanline_sprites.unwrap()@, scanline, x)
        } else {
            None
        }
    }

    /// The background drawn at column `x`, if shown and not transparent.
    pub open spec fn shown_background(&self, x: u8) -> Option<Pixel> {
        if self.show_background(x) {
            self.bg_pixel(x)
        } else {
            None
        }
    }

    /// The colour of pixel (x, scanline): a sprite in front of the background, else the
    /// background, else a sprite behind it, else the universal background colour.
    pub open spec fn chosen_pixel(&self, scanline: u8, x: u8) -> Pixel {
        let sprite = self.shown_sprite(scanline, x);
        let bg = self.shown_background(x);
        if sprite is Some && sprite.unwrap().0.attrs & 0x20 == 0 {
            sprite.unwrap().1
        } else if bg is Some {
            bg.unwrap()
        } else if sprite is Some {
            sprite.unwrap().1
        } else {
            hue_color(self.palette_memory@[0] % 64)
        }
    }

    /// Drawing pixel (x, scanline) detects a sprite 0 hit.
    pub open spec fn detects_sprite0(&self, scanline: u8, x: u8) -> bool {
        &&& self.show_background(x)
        &&& self.shown_sprite(scanline, x) matches Some(sp)
        &&& self.sprite0_hits(x, sp.0)
    }

    /// What drawing pixel (x, scanline) does: on a visible scanline its colour goes into
    /// the frame being drawn, a sprite 0 hit sets status bit 6, and tiles may be looked up.
    #[verifier::opaque]
    pub open spec fn pixel_rendered(&self, scanline: u8, x: u8, post: PPU<M>) -> bool {
        let p = self.chosen_pixel(scanline, x);
        let i = buffer_index(scanline, x);
        &&& post.internal_buffer@ == if visible_scanline(scanline) {
            self.internal_buffer@.update(i, p[0]).update(i + 1, p[1]).update(i + 2, p[2]).update(i + 3, p[3])
        } else {
            self.internal_buffer@
        }
        &&& post.ppu_status == if self.detects_sprite0(scanline, x) {
            self.ppu_status | 0x40
        } else {
            self.ppu_status
        }
        &&& self.tiles_refreshed(post)
        &&& post == PPU {
            internal_buffer: post.internal_buffer,
            ppu_status: post.ppu_status,
            current_tile: post.current_tile,
            next_tile: post.next_tile,
            ..*self
        }
    }

    pub fn render_pixel(&mut self, scanline: u8, x: u8)
        requires
            old(self).wf(),
            old(self).ppu_mask & 0x18 != 0 ==> old(self).ready(),
        ensures
            final(self).ppu_mask == old(self).ppu_mask,
            final(self).wf(),
            old(self).ready() ==> final(self).ready(),
            old(self).pixel_rendered(scanline, x, *final(self)),
    {
        reveal(PPU::pixel_rendered);
        let render_background = self.ppu_mask & (1 << 3) != 0 && (x > 7 || self.ppu_mask & (1 << 1)
            != 0);
        let render_sprites = self.ppu_mask & (1 << 4) != 0 && (x > 7 || self.ppu_mask & (1 << 2)
            != 0);
        proof {
            lemma_render_bits(self.ppu_mask, 0, 0, 0, 0, 0, 0, 0);
        }
        let ghost pre = *self;

        let mut background_sprite_pixel: Option<Pixel> = None;
        let mut chosen: Option<Pixel> = None;
        if render_sprites {
            let found = match &self.scanline_sprites {
                Some(list) => self.render_sprites(list, scanline, x),
                None => None,
            };
            if let Some(pixel_data) = found {
                if render_background {
                    self.sprite0_hit_detection(x, &pixel_data.0);
                }
                if pixel_data.0.is_foreground() {
                    chosen = Some(pixel_data.1);
                } else {
                    background_sprite_pixel = Some(pixel_data.1);
                }
            }
        }
        let ghost mid = *self;
        proof {
            /* a lookup by the sprite 0 check leaves the background's pixels as they were */
            assert forall|c: u8, y: u8| c < 8 && y == pre.fine_y() implies #[trigger] mid.current_tile.unwrap().intensity(
                &mid.mapper,
                c,
                y,
            ) == pre.current_tile.unwrap().intensity(&pre.mapper, c, y) by {
                if mid.current_tile != pre.current_tile {
                    assert(pre.current_tile.unwrap().refreshed(mid.current_tile.unwrap(), &pre.mapper, y));
                }
            }
            assert(mid.bg_pixel(x) == pre.bg_pixel(x));
        }
        if chosen.is_none() && render_background {
            if let Some(pixel) = self.render_background_tiles(x) {
                chosen = Some(pixel);
            }
        }
        if chosen.is_none() && background_sprite_pixel.is_some() {
            chosen = background_sprite_pixel;
        }
        let pixel = match chosen {
            Some(p) => p,
            /* if no sprites or bg tile, render the global background color */
            None => self.render_background_color(),
        };
        proof {
            assert(pixel == pre.chosen_pixel(scanline, x));
            assert(pre.tiles_refreshed(*self));
        }

        if (scanline >= OVERSCAN) && (scanline <= 240 - OVERSCAN) {
            let index = scanline as usize * 1024 + x as usize * 4;
            self.internal_buffer[index] = pixel[0];
            self.internal_buffer[index + 1] = pixel[1];
            self.internal_buffer[index + 2] = pixel[2];
            self.internal_buffer[index + 3] = pixel[3];
        }
    }
}

impl<M: Mapper> PPU<M> {
    /// The end of the visible frame: the vblank flag (status bit 7) goes on, the finished
    /// frame is copied where the display reads it and marked ready.
    #[verifier::opaque]
    pub open spec fn screen_ended(&self, post: PPU<M>) -> bool {
        &&& post.write_buffer@ == self.internal_buffer@
        &&& post == PPU {
            ppu_status: self.ppu_status | 0x80,
            frame_ready: true,
            write_buffer: post.write_buffer,
            ..*self
        }
    }

    /// Starts vblank (see `screen_ended`); returns whether an NMI is due (PPUCTRL bit 7).
    pub fn end_of_screen_render(&mut self) -> (nmi: bool)
        requires
            old(self).wf(),
        ensures
            final(self).ppu_mask == old(self).ppu_mask,
            final(self).wf(),
            nmi == (old(self).ppu_ctrl & 0x80 != 0),
            old(self).loaded() ==> final(self).loaded(),
            old(self).screen_ended(*final(self)),
    {
        reveal(PPU::screen_ended);
        /* set vblank flag */
        set_bit_on(&mut self.ppu_status, 7);
        proof {
            lemma_render_bits(0, 0, 0, 0, 0, 0, 0, 0);
        }
        /* vblank NMI */
        let nmi = self.ppu_ctrl & (1 << 7) != 0;
        /* write new pixels so UI can see them */
        let mut i: usize = 0;
        while i < WRITE_BUFFER_SIZE
            invariant
                self.wf(),
                0 <= i <= WRITE_BUFFER_SIZE,
                forall|j: int| 0 <= j < i ==> self.write_buffer@[j] == self.internal_buffer@[j],
                *self == (PPU {
                    ppu_status: old(self).ppu_status | 0x80,
                    write_buffer: self.write_buffer,
                    ..*old(self)
                }),
            decreases WRITE_BUFFER_SIZE - i,
        {
            let b = self.internal_buffer[i];
            self.write_buffer.set(i, b);
            i += 1;
        }
        assert(self.write_buffer@ =~= self.internal_buffer@);
        self.frame_ready = true;
        nmi
    }

    /// The start of a scanline: its sprites are found, and the tile and palette `v` points
    /// at are fetched.
    #[verifier::opaque]
    pub open spec fn scanline_begun(&self, scanline: u8, post: PPU<M>) -> bool {
        let found = count_on_line(self.oam@, scanline, self.height(), 64) >= 8;
        &&& post.scanline_sprites matches Some(list) && list@ == sprites_on_line(self.oam@, scanline, self.height(), 64)
        &&& post == PPU {
            scanline_sprites: post.scanline_sprites,
            ppu_status: if found {
                bit_on(self.ppu_status, 1)
            } else {
                self.ppu_status
            },
            current_tile: Some(self.tile_at_v()),
            current_palette: Some(self.bg_palette()),
            ..*self
        }
    }

    pub fn render_scanline_begin(&mut self, scanline: u8)
        requires
            old(self).wf(),
        ensures
            final(self).ppu_mask == old(self).ppu_mask,
            final(self).wf(),
            old(self).loaded() ==> final(self).loaded(),
            old(self).scanline_begun(scanline, *final(self)),
    {
        reveal(PPU::scanline_begun);
        let sprite_data = self.sprite_evaluation(scanline);
        self.scanline_sprites = Some(sprite_data);
        self.current_tile = Some(self.get_current_tile());
        self.current_palette = Some(self.palette_for_current_bg_tile());
    }

    /// The end of a scanline with rendering on: `v` returns to the left edge and moves
    /// down a row.
    pub fn render_scanline_end(&mut self)
        requires
            old(self).wf(),
        ensures
            final(self).ppu_mask == old(self).ppu_mask,
            final(self).wf(),
            *final(self) == if old(self).ppu_mask & 0x18 != 0 {
                PPU { internal_regs: old(self).internal_regs.x_bits_copied().y_incremented(), ..*old(self) }
            } else {
                *old(self)
            },
    {
        if self.ppu_mask & 0x18 != 0 {
            self.internal_regs.copy_x_bits();
            self.internal_regs.y_increment();
        }
    }

    /// At the first column of each tile the pipeline shifts: the next tile and palette
    /// become current and the ones `v` points at become next.
    pub open spec fn fetched_for(&self, x: u8) -> PPU<M> {
        if x % 8 == 0 {
            PPU {
                current_tile: self.next_tile,
                next_tile: Some(self.tile_at_v()),
                current_palette: self.next_palette,
                next_palette: Some(self.bg_palette()),
                ..*self
            }
        } else {
            *self
        }
    }

    /// One column of a scanline: the tile fetch (see `fetched_for`); then, with rendering
    /// on, the pixel, and after a tile's last column `v` moves one tile right.
    #[verifier::opaque]
    pub open spec fn block_rendered(&self, scanline: u8, x: u8, rendering_on: bool, post: PPU<M>) -> bool {
        let mid = self.fetched_for(x);
        if rendering_on {
            exists|mid2: PPU<M>| #[trigger]
                mid.pixel_rendered(scanline, x, mid2) && post == if x % 8 == 7 {
                    PPU { internal_regs: mid2.internal_regs.coarse_x_incremented(), ..mid2 }
                } else {
                    mid2
                }
        } else {
            post == mid
        }
    }

    pub fn render_block(&mut self, scanline: u8, x: u8, rendering_on: bool)
        requires
            old(self).wf(),
            rendering_on ==> old(self).loaded(),
        ensures
            final(self).ppu_mask == old(self).ppu_mask,
            final(self).wf(),
            old(self).loaded() ==> final(self).loaded(),
            old(self).block_rendered(scanline, x, rendering_on, *final(self)),
    {
        reveal(PPU::block_rendered);
        let mod8 = x % 8;
        /* NB: these are offset by 1 from actual dot number */
        if mod8 == 0 {
            self.load_tile();
            self.load_palette();
        }
        let ghost mid = *self;
        assert(mid == old(self).fetched_for(x));
        if rendering_on {
            self.render_pixel(scanline, x);
            let ghost mid2 = *self;
            if mod8 == 7 {
                self.internal_regs.coarse_x_increment();
            }
            assert(mid.pixel_rendered(scanline, x, mid2));
        }
    }
}

/// One dot from `pre` to `post` (see `PPU::ticked`), `nmi` telling whether it asked for an
/// NMI; `earlier` carries along whether an NMI was asked for before it.
pub open spec fn dot_step<M: Mapper>(pre: PPU<M>, earlier: bool, post: PPU<M>, nmi: bool) -> bool {
    pre.ticked(post, nmi)
}

/// `post` is the PPU `n` dots after `pre` (each dot as `PPU::ticked` says), and `nmi` is
/// whether any of those dots asked for an NMI.
pub open spec fn dots_run<M: Mapper>(pre: PPU<M>, n: nat, post: PPU<M>, nmi: bool) -> bool
    decreases n,
{
    if n == 0 {
        post == pre && !nmi
    } else {
        exists|mid: PPU<M>, m1: bool, m2: bool| #[trigger]
            dot_step(mid, m1, post, m2) && dots_run(pre, (n - 1) as nat, mid, m1) && nmi == (m1
                || m2)
    }
}

/// One more dot after `n` dots makes `n + 1` dots.
proof fn lemma_dots_step<M: Mapper>(
    pre: PPU<M>,
    n: nat,
    mid: PPU<M>,
    m1: bool,
    post: PPU<M>,
    m2: bool,
)
    requires
        dots_run(pre, n, mid, m1),
        mid.ticked(post, m2),
    ensures
        dots_run(pre, n + 1, post, m1 || m2),
{
    assert((n + 1 - 1) as nat == n);
    assert(dot_step(mid, m1, post, m2));
}

/// The number of PPU dots in a scanline, and of scanlines in a frame.
pub const DOTS_PER_SCANLINE: u32 = 341;

pub const SCANLINES_PER_FRAME: u32 = 262;

impl<M: Mapper> PPU<M> {
    /// One dot of a visible scanline: at dot 0 the scanline starts; dots 1 to 256 draw
    /// columns 0 to 255, and at dot 256 (rendering on) `v` moves down a row; at dot 257
    /// (rendering on) `v` returns to the left edge; dots 321 to 328 fetch the first tiles of
    /// the next scanline (drawing their columns too when rendering is on).
    #[verifier::opaque]
    pub open spec fn scanline_stepped(&self, scanline: u8, dot: u16, rendering_on: bool, post: PPU<M>) -> bool {
        if dot == 0 {
            self.scanline_begun(scanline, post)
        } else if dot < 257 {
            exists|mid: PPU<M>| #[trigger]
                self.block_rendered(scanline, (dot - 1) as u8, rendering_on, mid) && post == if dot
                    == 256 && rendering_on {
                    PPU { internal_regs: mid.internal_regs.y_incremented(), ..mid }
                } else {
                    mid
                }
        } else if dot == 257 && rendering_on {
            post == PPU { internal_regs: self.internal_regs.x_bits_copied(), ..*self }
        } else if dot > 320 && dot < 329 {
            self.block_rendered(((scanline + 1) % 256 % 240) as u8, (dot - 321) as u8, rendering_on, post)
        } else {
            post == *self
        }
    }

    pub fn render_scanline(&mut self, scanline: u8, dot: u16, rendering_on: bool)
        requires
            old(self).wf(),
            rendering_on ==> old(self).loaded(),
        ensures
            final(self).ppu_mask == old(self).ppu_mask,
            final(self).wf(),
            old(self).loaded() ==> final(self).loaded(),
            old(self).scanline_stepped(scanline, dot, rendering_on, *final(self)),
    {
        reveal(PPU::scanline_stepped);
        if dot == 0 {
            self.render_scanline_begin(scanline);
        } else if dot < 257 {
            self.render_block(scanline, (dot - 1) as u8, rendering_on);
            let ghost mid = *self;
            if dot == 256 && rendering_on {
                self.internal_regs.y_increment();
            }
            assert(old(self).block_rendered(scanline, (dot - 1) as u8, rendering_on, mid));
        } else if dot == 257 && rendering_on {
            self.internal_regs.copy_x_bits();
        } else if dot > 320 && dot < 329 {
            /* the line after the last visible one (and after the pre-render line) is line 0 */
            self.render_block(scanline.wrapping_add(1) % 240, (dot - 1 - 320) as u8, rendering_on);
        }
    }

    /// One dot of the pre-render scanline: at dot 1 the vblank, sprite 0 hit and overflow
    /// flags (status bits 7, 6, 5) are cleared; at dots 280 to 304 (rendering on) `v`
    /// takes its vertical scroll from `t`; then it proceeds as a scanline numbered 255.
    #[verifier::opaque]
    pub open spec fn prerender_stepped(&self, dot: u16, rendering_on: bool, post: PPU<M>) -> bool {
        let mid = if dot == 1 {
            PPU { ppu_status: self.ppu_status & 0x1f, ..*self }
        } else if dot > 279 && dot < 305 && rendering_on {
            PPU { internal_regs: self.internal_regs.y_bits_copied(), ..*self }
        } else {
            *self
        };
        mid.scanline_stepped(0xff, dot, rendering_on, post)
    }

    pub fn prerender_scanline(&mut self, dot: u16, rendering_on: bool)
        requires
            old(self).wf(),
            rendering_on ==> old(self).loaded(),
        ensures
            final(self).ppu_mask == old(self).ppu_mask,
            final(self).wf(),
            old(self).loaded() ==> final(self).loaded(),
            old(self).prerender_stepped(dot, rendering_on, *final(self)),
    {
        reveal(PPU::prerender_stepped);
        if dot == 1 {
            let st = self.ppu_status;
            /* clear overflow flag */
            set_bit_off(&mut self.ppu_status, 5);
            /* clear sprite 0 hit flag */
            set_bit_off(&mut self.ppu_status, 6);
            /* clear vblank flag */
            set_bit_off(&mut self.ppu_status, 7);
            proof {
                lemma_render_bits(st, 0, 0, 0, 0, 0, 0, 0);
            }
            /* TODO also ends PPU init period on startup/reset */
        } else if dot > 279 && dot < 305 {
            if rendering_on {
                self.internal_regs.copy_y_bits();
            }
        }
        self.render_scanline(0xff, dot, rendering_on);
    }

    /// The dot this tick works on: on even frames dot 0 of line 0 is skipped.
    pub open spec fn current_dot(&self) -> u32 {
        if self.tick_count == 0 && self.is_even_frame {
            1
        } else {
            self.tick_count
        }
    }

    /// The work of one dot, on the PPU whose counter is at that dot: visible scanlines
    /// (0 to 239) are drawn; at line 241, dot 1 vblank starts; line 261 is the pre-render
    /// line; other dots do nothing.
    pub open spec fn dot_worked(&self, post: PPU<M>) -> bool {
        let t = self.tick_count;
        let scanline = t / DOTS_PER_SCANLINE;
        let dot = (t % DOTS_PER_SCANLINE) as u16;
        let on = self.ppu_mask & 0x18 != 0;
        if scanline < 240 {
            self.scanline_stepped(scanline as u8, dot, on, post)
        } else if scanline == 241 && dot == 1 {
            self.screen_ended(post)
        } else if scanline == 261 {
            self.prerender_stepped(dot, on, post)
        } else {
            post == *self
        }
    }

    /// One PPU dot (see `dot_worked`, on even frames dot 0 of line 0 is skipped); the
    /// counter then advances, wrapping at the end of the frame, when the frame parity
    /// flips. `nmi` is whether vblank started with NMIs enabled (PPUCTRL bit 7).
    #[verifier::opaque]
    pub open spec fn ticked(&self, post: PPU<M>, nmi: bool) -> bool {
        let t = self.current_dot();
        let pre = PPU { tick_count: t, ..*self };
        let last = t == DOTS_PER_SCANLINE * SCANLINES_PER_FRAME - 1;
        &&& exists|mid: PPU<M>| #[trigger]
            pre.dot_worked(mid) && post == PPU {
                tick_count: if last {
                    0
                } else {
                    (t + 1) as u32
                },
                is_even_frame: if last {
                    !mid.is_even_frame
                } else {
                    mid.is_even_frame
                },
                ..mid
            }
        &&& nmi == (t / DOTS_PER_SCANLINE == 241 && t % DOTS_PER_SCANLINE == 1 && self.ppu_ctrl & 0x80
            != 0)
    }

    /// Advances the PPU one dot (see `ticked`); returns whether an NMI is due.
    pub fn tick(&mut self) -> (nmi: bool)
        requires
            old(self).wf(),
            old(self).ppu_mask & 0x18 != 0 ==> old(self).loaded(),
        ensures
            final(self).wf(),
            old(self).loaded() ==> final(self).loaded(),
            final(self).ppu_mask == old(self).ppu_mask,
            old(self).ticked(*final(self), nmi),
    {
        reveal(PPU::ticked);
        /* skip (0,0) on even frames */
        if self.tick_count == 0 && self.is_even_frame {
            self.tick_count += 1;
        }
        let ghost pre = *self;

        let t = self.tick_count;
        let scanline = t / DOTS_PER_SCANLINE;
        let dot = (t % DOTS_PER_SCANLINE) as u16;
        let rendering_on = self.ppu_mask & 0x18 != 0;
        let mut nmi = false;

        if scanline < 240 {
            self.render_scanline(scanline as u8, dot, rendering_on);
        } else if scanline == 240 {
            /* the post-render line does nothing */
        } else if scanline == 241 && dot == 1 {
            nmi = self.end_of_screen_render();
        } else if scanline == 261 {
            self.prerender_scanline(dot, rendering_on);
        }
        let ghost mid = *self;

        if t == DOTS_PER_SCANLINE * SCANLINES_PER_FRAME - 1 {
            self.tick_count = 0;
            self.is_even_frame = !self.is_even_frame;
        } else {
            self.tick_count = t + 1;
        }
        assert(pre == (PPU { tick_count: old(self).current_dot(), ..*old(self) }));
        assert(pre.dot_worked(mid));
        nmi
    }

    /// Runs `n` dots (see `dots_run`); returns whether any of them asked for an NMI.
    pub fn run_dots(&mut self, n: u32) -> (nmi: bool)
        requires
            old(self).wf(),
            old(self).ppu_mask & 0x18 != 0 ==> old(self).loaded(),
        ensures
            final(self).wf(),
            final(self).ppu_mask == old(self).ppu_mask,
            old(self).loaded() ==> final(self).loaded(),
            dots_run(*old(self), n as nat, *final(self), nmi),
    {
        let ghost start = *self;
        let mut any = false;
        let mut i: u32 = 0;
        while i < n
            invariant
                self.wf(),
                i <= n,
                self.ppu_mask == start.ppu_mask,
                start.ppu_mask & 0x18 != 0 ==> self.loaded(),
                start.loaded() ==> self.loaded(),
                dots_run(start, i as nat, *self, any),
            decreases n - i,
        {
            let ghost before = *self;
            let ghost any_before = any;
            let b = self.tick();
            any = any || b;
            i = i + 1;
            proof {
                lemma_dots_step(start, (i - 1) as nat, before, any_before, *self, b);
            }
        }
        any
    }

    pub fn clock_speed(&self) -> (r: u64)
        ensures
            r == PPU_CLOCK_SPEED,
    {
        PPU_CLOCK_SPEED
    }

    /// The tiles, palettes and sprite list that drawing needs are present (see `loaded`).
    pub fn is_loaded(&self) -> (r: bool)
        ensures
            r == self.loaded(),
    {
        self.scanline_sprites.is_some() && self.current_tile.is_some() && self.next_tile.is_some()
            && self.current_palette.is_some() && self.next_palette.is_some()
    }
}

/// Once eight sprites are found among the first `k`, later ones add none to the list,
/// and at least eight are counted among the first `n`.
pub proof fn lemma_eight_found(oam: Seq<u8>, scanline: u8, height: u8, k: int, n: int)
    requires
        0 <= k <= n,
        sprites_on_line(oam, scanline, height, k).len() == 8,
        count_on_line(oam, scanline, height, k) == 8,
    ensures
        sprites_on_line(oam, scanline, height, n) == sprites_on_line(oam, scanline, height, k),
        count_on_line(oam, scanline, height, n) >= 8,
    decreases n - k,
{
    if n > k {
        lemma_eight_found(oam, scanline, height, k, n - 1);
    }
}

} // verus!
