use crate::mapper::Mapper;
use crate::ppu::palette::Palette;
use crate::ppu::ppu::PPU;
use vstd::prelude::*;

verus! {

/// One sprite's four bytes of object attribute memory, and its index there.
#[derive(Debug, Clone, Copy)]
pub struct SpriteInfo {
    /* NB: this is one less than the top of the sprite! you'll have to add 1 whenever you use it (see get_y) */
    pub y: u8,
    pub tile_index: u8,
    pub attrs: u8,
    pub x: u8,
    pub sprite_index: usize,
}

impl SpriteInfo {
    /// The first scanline the sprite covers (saturating at 255).
    pub open spec fn top(&self) -> u8 {
        if self.y == 255 {
            255
        } else {
            (self.y + 1) as u8
        }
    }

    /// The sprite covers the scanline when the scanline lies within `sprite_height` lines
    /// of its top.
    pub open spec fn covers_scanline(&self, scanline: u8, sprite_height: u8) -> bool {
        self.top() <= scanline && scanline - self.top() < sprite_height
    }

    pub fn in_scanline(&self, scanline: u8, sprite_height: u8) -> (r: bool)
        ensures
            r == self.covers_scanline(scanline, sprite_height),
    {
        let y = self.get_y();
        y <= scanline && scanline - y < sprite_height
    }

    pub fn get_y(&self) -> (r: u8)
        ensures
            r == self.top(),
    {
        self.y.saturating_add(1)
    }

    /// Sprites with attribute bit 5 clear are drawn in front of the background.
    pub fn is_foreground(&self) -> (r: bool)
        ensures
            r == (self.attrs & 0x20 == 0),
    {
        self.attrs & 0x20 == 0
    }

    /* create a SpriteInfo from memory */
    pub fn from_memory(sprite_index: usize, src_slice: &[u8]) -> (r: SpriteInfo)
        requires
            src_slice@.len() >= 4,
        ensures
            r == (SpriteInfo {
                y: src_slice@[0],
                tile_index: src_slice@[1],
                attrs: src_slice@[2],
                x: src_slice@[3],
                sprite_index,
            }),
    {
        SpriteInfo {
            y: src_slice[0],
            tile_index: src_slice[1],
            attrs: src_slice[2],
            x: src_slice[3],
            sprite_index,
        }
    }

    /// The tile column and row a pixel of the sprite comes from: bit 6 of the attributes
    /// flips it horizontally, bit 7 vertically.
    pub open spec fn flipped(&self, x: u8, y: u8, height: u8) -> (u8, u8) {
        (
            if self.attrs & 0x40 != 0 {
                (7 - x) as u8
            } else {
                x
            },
            if self.attrs & 0x80 != 0 {
                (height - 1 - y) as u8
            } else {
                y
            },
        )
    }

    /// The brightness of the sprite's pixel (x, y), counted from its top left corner.
    pub open spec fn brightness<M: Mapper>(&self, ppu: &PPU<M>, x: u8, y: u8) -> u8 {
        let (fx, fy) = self.flipped(x, y, ppu.height());
        ppu.sprite_tile(self.tile_index).chr_intensity(&ppu.mapper, fx, fy)
    }

    pub fn get_brightness_localized<M: Mapper>(&self, ppu: &PPU<M>, x: u8, y: u8) -> (r: u8)
        requires
            ppu.wf(),
            x < 8,
            y < ppu.height(),
        ensures
            r == self.brightness(ppu, x, y),
            r < 4,
    {
        let mut tile = ppu.get_sprite_tile(self.tile_index);
        let mut x_to_use = x;
        if self.attrs & 0x40 != 0 {
            /* flipped horizontally */
            x_to_use = 7 - x_to_use;
        }
        let mut y_to_use = y;
        if self.attrs & 0x80 != 0 {
            /* flipped vertically */
            y_to_use = (ppu.sprite_height() - 1) - y_to_use;
        }
        let ti = self.tile_index;
        assert(ti - ti % 2 <= 254 && ti * 16 <= 0xff0);
        tile.pixel_intensity(&ppu.mapper, x_to_use, y_to_use)
    }

    /// The sprite's palette: one of the four sprite palettes, by attribute bits 0 and 1.
    pub fn get_palette<M: Mapper>(&self, ppu: &PPU<M>) -> (r: Palette)
        requires
            ppu.wf(),
        ensures
            r == ppu.palette_at(self.attrs as int % 4 + 4),
    {
        let a = self.attrs;
        assert((a & 0x3) + 4 == a % 4 + 4) by (bit_vector);
        ppu.get_palette((self.attrs & 0x3) + 4)
    }
}


proof fn lemma_flip_bits(a: u8)
    ensures
        (a & 0x40 != 0) == ((a / 64) % 2 == 1),
        (a & 0x80 != 0) == (a / 128 == 1),
        ((a % 64) as u8) & 0x40 == 0,
        ((a % 64) as u8) & 0x80 == 0,
{
    assert(((a & 0x40 != 0) == ((a / 64) % 2 == 1)) && ((a & 0x80 != 0) == (a / 128 == 1)) && (((a
        % 64) as u8) & 0x40 == 0) && (((a % 64) as u8) & 0x80 == 0)) by (bit_vector);
}

/// Attribute bit 6 mirrors a sprite left to right and bit 7 top to bottom: pixel (x, y) of
/// a sprite is pixel (x', y') of the same sprite with those two bits clear, where x' is
/// 7 - x when bit 6 is set (x otherwise) and y' is height - 1 - y when bit 7 is set (y
/// otherwise). With both bits clear a pixel is the tile's pixel at the same place.
pub proof fn lemma_sprite_flips<M: Mapper>(s: SpriteInfo, ppu: &PPU<M>, x: u8, y: u8)
    requires
        x < 8,
        y < ppu.height(),
    ensures
        ({
            let plain = SpriteInfo { attrs: (s.attrs % 64) as u8, ..s };
            let fx = if (s.attrs / 64) % 2 == 1 {
                (7 - x) as u8
            } else {
                x
            };
            let fy = if s.attrs / 128 == 1 {
                (ppu.height() - 1 - y) as u8
            } else {
                y
            };
            &&& s.brightness(ppu, x, y) == plain.brightness(ppu, fx, fy)
            &&& plain.brightness(ppu, x, y) == ppu.sprite_tile(s.tile_index).chr_intensity(
                &ppu.mapper,
                x,
                y,
            )
        }),
{
    lemma_flip_bits(s.attrs);
}

} // verus!
