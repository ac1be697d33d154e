use crate::mapper::Mapper;
use bit_reverse::LookupReverse;
use vstd::prelude::*;

verus! {

/// Bit `i` (0 is the least significant) of a byte.
pub open spec fn bit_of(b: u8, i: int) -> u8 {
    ((b as int / vstd::arithmetic::power2::pow2(i as nat) as int) % 2) as u8
}

/// Reverses the order of a byte's bits by calling `LookupReverse::swap_bits` of the
/// `bit_reverse` crate (a 256-entry lookup table); the contract claims that bit `i` of the
/// result is bit `7 - i` of the argument.
#[verifier::external_body]
fn swap_bits(b: u8) -> (r: u8)
    ensures
        forall|i: int| 0 <= i < 8 ==> #[trigger] bit_of(r, i) == bit_of(b, 7 - i),
{
    LookupReverse::swap_bits(b)
}

/// One 8x8 (or, for tall sprites, 8x16) tile of the pattern tables. The two bit planes of
/// the row last looked up are cached.
#[derive(Debug, Clone, Copy)]
pub struct Tile {
    pub tile_addr: u16,
    pub cached_y: u8,  /* used to determine if cached_big and cached_small are valid */
    pub cached_big: u8,
    pub cached_small: u8,
}

/// The pattern-table address of row `y` of a tile; rows 8 to 15 of a tall sprite live in the
/// following tile, 16 bytes on.
pub open spec fn row_address(tile_addr: u16, y: u8) -> int {
    tile_addr + (if y >= 8 {
        y + 8
    } else {
        y as int
    })
}

/// The CHR bytes that a lookup of row `y` of the tile at `tile_addr` reads are readable.
pub open spec fn row_readable<M: Mapper>(mapper: &M, tile_addr: u16, y: u8) -> bool {
    &&& y < 248
    &&& row_address(tile_addr, y) + 8 <= 0xffff
    &&& mapper.chr_readable(row_address(tile_addr, y) as u16)
    &&& mapper.chr_readable((row_address(tile_addr, y) + 8) as u16)
}

/// The brightness (0 to 3) of pixel `x` of a row whose bit planes are `small` (low) and
/// `big` (high); the leftmost pixel is the most significant bit.
pub open spec fn plane_pixel(small: u8, big: u8, x: int) -> u8 {
    (2 * bit_of(big, 7 - x) + bit_of(small, 7 - x)) as u8
}

/// The grey level that a pixel of brightness `v` (0 to 3) is drawn with.
pub open spec fn grey_level(v: u8) -> u8 {
    (v * 64) as u8
}

/// The brightness that `render` draws for pixel (x, y) of `tile`: the first row comes from
/// the cache when it holds row 0, every other pixel from the CHR data.
pub open spec fn rendered_intensity<M: Mapper>(tile: Tile, mapper: &M, x: int, y: int) -> u8 {
    if y == 0 {
        tile.intensity(mapper, x as u8, 0)
    } else {
        tile.chr_intensity(mapper, x as u8, y as u8)
    }
}

/// Byte `k` (red, green, blue, alpha) of pixel (x, y) as `render` draws `tile`: grey
/// levels, fully opaque.
pub open spec fn tile_byte<M: Mapper>(tile: Tile, mapper: &M, x: int, y: int, k: int) -> u8 {
    if k == 3 {
        0xff
    } else {
        grey_level(rendered_intensity(tile, mapper, x, y))
    }
}

/// Where byte 0 of pixel `t` (row-major, eight to a row) of a tile stamped at (x, y) lands
/// in an RGBA buffer `width` pixels wide.
pub open spec fn stamp_index(width: int, x: int, y: int, t: int) -> int {
    4 * (width * (y + t / 8) + x + t % 8)
}

/// The pixels of a stamped tile land in increasing, non-overlapping places.
proof fn lemma_stamp_order(width: int, x: int, y: int, t1: int, t2: int)
    requires
        0 <= t1 < t2 < 64,
        0 <= x,
        0 <= y,
        x + 8 <= width,
    ensures
        stamp_index(width, x, y, t1) + 4 <= stamp_index(width, x, y, t2),
{
    let r1 = t1 / 8;
    let r2 = t2 / 8;
    assert(r1 <= r2);
    if r1 < r2 {
        vstd::arithmetic::mul::lemma_mul_inequality(y + r1 + 1, y + r2, width);
        vstd::arithmetic::mul::lemma_mul_is_distributive_add_other_way(width, y + r1, 1);
        vstd::arithmetic::mul::lemma_mul_is_commutative(width, y + r1 + 1);
        vstd::arithmetic::mul::lemma_mul_is_commutative(width, y + r2);
    }
}

impl Tile {
    pub fn new(tile_addr: u16) -> (r: Tile)
        ensures
            r == (Tile { tile_addr, cached_y: 0xff, cached_big: 0, cached_small: 0 }),
    {
        Tile {
            tile_addr,
            cached_y: 0xff,  /* initial invalid value */
            cached_big: 0,
            cached_small: 0,
        }
    }

    /// The addresses whose CHR bytes a lookup of row `y` reads are readable.
    pub open spec fn readable_row<M: Mapper>(&self, mapper: &M, y: u8) -> bool {
        row_readable(mapper, self.tile_addr, y)
    }

    /// The brightness of pixel (x, y): from the cached row when `y` is the cached row,
    /// otherwise from the mapper's CHR data.
    pub open spec fn intensity<M: Mapper>(&self, mapper: &M, x: u8, y: u8) -> u8 {
        if self.cached_y == y {
            plane_pixel(self.cached_small, self.cached_big, 7 - x as int)
        } else {
            plane_pixel(
                mapper.chr_value(row_address(self.tile_addr, y) as u16),
                mapper.chr_value((row_address(self.tile_addr, y) + 8) as u16),
                x as int,
            )
        }
    }

    /// The cache holds the reversed planes of the cached row: `intensity` reads them back
    /// the same way as from memory.
    pub open spec fn cache_holds<M: Mapper>(&self, mapper: &M) -> bool {
        self.cached_y != 0xff ==> forall|x: int|
            0 <= x < 8 ==> #[trigger] plane_pixel(self.cached_small, self.cached_big, 7 - x)
                == plane_pixel(
                mapper.chr_value(row_address(self.tile_addr, self.cached_y) as u16),
                mapper.chr_value((row_address(self.tile_addr, self.cached_y) + 8) as u16),
                x,
            )
    }

    /// Draws the tile into a 64-pixel RGBA image, brightness as grey levels.
    pub fn render<M: Mapper>(&mut self, mapper: &M) -> (out: [u8; 256])
        requires
            mapper.wf(),
            forall|y: u8| y < 8 ==> row_readable(mapper, old(self).tile_addr, y),
        ensures
            forall|t: int, k: int|
                0 <= t < 64 && 0 <= k < 4 ==> #[trigger] out@[4 * t + k] == tile_byte(
                    *old(self),
                    mapper,
                    t % 8,
                    t / 8,
                    k,
                ),
            final(self).tile_addr == old(self).tile_addr,
            final(self).cached_y == 7,
            forall|x: u8| x < 8 ==> #[trigger] final(self).intensity(mapper, x, 7)
                == old(self).chr_intensity(mapper, x, 7),
    {
        let ghost start = *self;
        let mut out = [0u8; 256];
        let mut row: u8 = 0;
        while row < 8
            invariant
                mapper.wf(),
                row <= 8,
                self.tile_addr == start.tile_addr,
                forall|y: u8| y < 8 ==> row_readable(mapper, start.tile_addr, y),
                row == 0 ==> *self == start,
                row > 0 ==> self.cached_y == row - 1,
                row > 0 ==> forall|x: u8| x < 8 ==> #[trigger] self.intensity(mapper, x, (row - 1) as u8)
                    == rendered_intensity(start, mapper, x as int, row - 1),
                out@.len() == 256,
                forall|t: int, k: int|
                    0 <= t < 8 * row && 0 <= k < 4 ==> #[trigger] out@[4 * t + k] == tile_byte(
                        start,
                        mapper,
                        t % 8,
                        t / 8,
                        k,
                    ),
            decreases 8 - row,
        {
            let mut col: u8 = 0;
            while col < 8
                invariant
                    row < 8,
                    col <= 8,
                    mapper.wf(),
                    self.tile_addr == start.tile_addr,
                    forall|y: u8| y < 8 ==> row_readable(mapper, start.tile_addr, y),
                    col == 0 && row == 0 ==> *self == start,
                    col == 0 && row > 0 ==> self.cached_y == row - 1,
                    col > 0 ==> self.cached_y == row,
                    col > 0 ==> forall|x: u8| x < 8 ==> #[trigger] self.intensity(mapper, x, row)
                        == rendered_intensity(start, mapper, x as int, row as int),
                    out@.len() == 256,
                    forall|t: int, k: int|
                        0 <= t < 8 * row + col && 0 <= k < 4 ==> #[trigger] out@[4 * t + k]
                            == tile_byte(start, mapper, t % 8, t / 8, k),
                decreases 8 - col,
            {
                let ghost before = *self;
                let val = self.pixel_intensity(mapper, col, row);
                proof {
                    assert forall|x: u8| x < 8 implies #[trigger] self.intensity(mapper, x, row)
                        == rendered_intensity(start, mapper, x as int, row as int) by {
                        if col == 0 {
                            assert(before.refreshed(*self, mapper, row));
                            if row == 0 {
                                if start.cached_y == 0 {
                                    assert(*self == start);
                                }
                            }
                        }
                    }
                    assert(val == rendered_intensity(start, mapper, col as int, row as int));
                }
                let result: u8 = (val as u16 * 256 / 4) as u8;
                let out_index = pixel_to_index(8, col as usize, row as usize);
                let ghost t0 = 8 * row + col;
                assert(out_index == 4 * t0);
                out[out_index] = result;
                out[out_index + 1] = result;
                out[out_index + 2] = result;
                out[out_index + 3] = 0xff;
                assert forall|t: int, k: int|
                    0 <= t < 8 * row + col + 1 && 0 <= k < 4 implies #[trigger] out@[4 * t + k]
                        == tile_byte(start, mapper, t % 8, t / 8, k) by {
                    if t == t0 {
                        assert(t % 8 == col && t / 8 == row);
                    }
                }
                col = col + 1;
            }
            row = row + 1;
        }
        assert forall|x: u8| x < 8 implies #[trigger] self.intensity(mapper, x, 7)
            == start.chr_intensity(mapper, x, 7) by {
            assert(self.intensity(mapper, x, 7) == rendered_intensity(start, mapper, x as int, 7));
        }
        out
    }

    /// Draws the tile into an RGBA buffer `width` pixels wide with its top left corner at
    /// (x, y); the rest of the buffer is left as it was.
    pub fn stamp<M: Mapper>(
        &mut self,
        mapper: &M,
        write_buffer: &mut [u8],
        width: usize,
        x: usize,
        y: usize,
    )
        requires
            mapper.wf(),
            forall|yy: u8| yy < 8 ==> row_readable(mapper, old(self).tile_addr, yy),
            width > 0,
            x + 8 <= width,
            4 * (width * (y + 8)) <= old(write_buffer)@.len(),
        ensures
            final(write_buffer)@.len() == old(write_buffer)@.len(),
            forall|t: int, k: int|
                0 <= t < 64 && 0 <= k < 4 ==> #[trigger] final(write_buffer)@[stamp_index(
                    width as int,
                    x as int,
                    y as int,
                    t,
                ) + k] == tile_byte(*old(self), mapper, t % 8, t / 8, k),
            forall|j: int|
                0 <= j < old(write_buffer)@.len() && (forall|t: int|
                    0 <= t < 64 ==> !(#[trigger] stamp_index(width as int, x as int, y as int, t)
                        <= j < stamp_index(width as int, x as int, y as int, t) + 4))
                    ==> #[trigger] final(write_buffer)@[j] == old(write_buffer)@[j],
            final(self).tile_addr == old(self).tile_addr,
            final(self).cached_y == 7,
            forall|xx: u8| xx < 8 ==> #[trigger] final(self).intensity(mapper, xx, 7)
                == old(self).chr_intensity(mapper, xx, 7),
    {
        let ghost start = *self;
        let ghost original = write_buffer@;
        let rendered = self.render(mapper);
        let len = write_buffer.len();
        let mut tile_index: usize = 0;
        while tile_index < 64
            invariant
                len == write_buffer@.len(),
                width > 0,
                x + 8 <= width,
                4 * (width * (y + 8)) <= write_buffer@.len(),
                write_buffer@.len() == original.len(),
                tile_index <= 64,
                forall|t: int, k: int|
                    0 <= t < 64 && 0 <= k < 4 ==> #[trigger] rendered@[4 * t + k] == tile_byte(
                        start,
                        mapper,
                        t % 8,
                        t / 8,
                        k,
                    ),
                forall|t: int, k: int|
                    0 <= t < tile_index && 0 <= k < 4 ==> #[trigger] write_buffer@[stamp_index(
                        width as int,
                        x as int,
                        y as int,
                        t,
                    ) + k] == tile_byte(start, mapper, t % 8, t / 8, k),
                forall|j: int|
                    0 <= j < original.len() && (forall|t: int|
                        0 <= t < tile_index ==> !(#[trigger] stamp_index(
                            width as int,
                            x as int,
                            y as int,
                            t,
                        ) <= j < stamp_index(width as int, x as int, y as int, t) + 4))
                        ==> #[trigger] write_buffer@[j] == original[j],
            decreases 64 - tile_index,
        {
            let tile_xy = index_to_pixel(8, tile_index);
            proof {
                let ty = tile_xy.1 as int;
                let tx = tile_xy.0 as int;
                assert(tx < 8 && ty < 8) by {
                    vstd::arithmetic::div_mod::lemma_mod_bound(tile_index as int, 8);
                    vstd::arithmetic::div_mod::lemma_div_is_ordered(tile_index as int, 63, 8);
                }
                vstd::arithmetic::mul::lemma_mul_is_distributive_add(width as int, y + ty, 1);
                assert(width * 1 == width);
                vstd::arithmetic::mul::lemma_mul_inequality(1, width as int, y + 8);
                assert(y + 8 <= usize::MAX);
                vstd::arithmetic::mul::lemma_mul_inequality(y + ty + 1, y + 8, width as int);
                vstd::arithmetic::mul::lemma_mul_is_commutative(width as int, y + ty + 1);
                vstd::arithmetic::mul::lemma_mul_is_commutative(width as int, y + 8);
                assert(4 * (width * (y + ty) + x + tx) + 4 <= 4 * (width * (y + 8)));
            }
            let index = pixel_to_index(width, x + tile_xy.0, y + tile_xy.1);
            let ghost ti = tile_index as int;
            assert(index == stamp_index(width as int, x as int, y as int, ti));
            let ghost before = write_buffer@;
            write_buffer[index] = rendered[tile_index * 4];
            write_buffer[index + 1] = rendered[tile_index * 4 + 1];
            write_buffer[index + 2] = rendered[tile_index * 4 + 2];
            write_buffer[index + 3] = rendered[tile_index * 4 + 3];
            proof {
                assert forall|t: int, k: int|
                    0 <= t < ti + 1 && 0 <= k < 4 implies #[trigger] write_buffer@[stamp_index(
                        width as int,
                        x as int,
                        y as int,
                        t,
                    ) + k] == tile_byte(start, mapper, t % 8, t / 8, k) by {
                    if t < ti {
                        lemma_stamp_order(width as int, x as int, y as int, t, ti);
                        assert(before[stamp_index(width as int, x as int, y as int, t) + k]
                            == tile_byte(start, mapper, t % 8, t / 8, k));
                    } else {
                        assert(rendered@[4 * t + k] == tile_byte(start, mapper, t % 8, t / 8, k));
                    }
                }
                assert forall|j: int|
                    0 <= j < original.len() && (forall|t: int|
                        0 <= t < ti + 1 ==> !(#[trigger] stamp_index(
                            width as int,
                            x as int,
                            y as int,
                            t,
                        ) <= j < stamp_index(width as int, x as int, y as int, t) + 4)) implies
                    #[trigger] write_buffer@[j] == original[j] by {
                    assert(!(stamp_index(width as int, x as int, y as int, ti) <= j < stamp_index(
                        width as int,
                        x as int,
                        y as int,
                        ti,
                    ) + 4));
                    assert(before[j] == original[j]);
                }
            }
            tile_index += 1;
        }
    }

    /// The brightness of pixel (x, y) as the CHR data holds it now.
    pub open spec fn chr_intensity<M: Mapper>(&self, mapper: &M, x: u8, y: u8) -> u8 {
        plane_pixel(
            mapper.chr_value(row_address(self.tile_addr, y) as u16),
            mapper.chr_value((row_address(self.tile_addr, y) + 8) as u16),
            x as int,
        )
    }

    /// `new` is this tile after a lookup of row `y`: the same tile with row `y` cached, and
    /// when another row was cached before, the cache now holds row `y` as the CHR data holds
    /// it.
    pub open spec fn refreshed<M: Mapper>(&self, new: Tile, mapper: &M, y: u8) -> bool {
        &&& new.tile_addr == self.tile_addr
        &&& new.cached_y == y
        &&& self.cached_y == y ==> new == *self
        &&& self.cached_y != y ==> forall|x: u8| x < 8 ==> #[trigger] new.intensity(mapper, x, y)
            == self.chr_intensity(mapper, x, y)
    }

    /// The brightness (0 to 3) of pixel (x, y) of the tile.
    pub fn pixel_intensity<M: Mapper>(&mut self, mapper: &M, x: u8, y: u8) -> (r: u8)
        requires
            mapper.wf(),
            x < 8,
            old(self).cached_y == y || old(self).readable_row(mapper, y),
        ensures
            r == old(self).intensity(mapper, x, y),
            (old(self).cached_y != y || (y != 0xff && old(self).cache_holds(mapper))) ==> r
                == plane_pixel(
                mapper.chr_value(row_address(old(self).tile_addr, y) as u16),
                mapper.chr_value((row_address(old(self).tile_addr, y) + 8) as u16),
                x as int,
            ),
            final(self).tile_addr == old(self).tile_addr,
            final(self).cached_y == y,
            old(self).cached_y == y ==> *final(self) == *old(self),
            old(self).cache_holds(mapper) || old(self).cached_y != y ==> final(self).cache_holds(
                mapper,
            ),
            old(self).refreshed(*final(self), mapper, y),
            r < 4,
    {
        self.populate_cache(mapper, y);
        let big = self.cached_big >> x;
        let small = self.cached_small >> x;
        proof {
            let cb = self.cached_big;
            let cs = self.cached_small;
            lemma_shift_bit(cb, x);
            lemma_shift_bit(cs, x);
            assert(((big & 1) << 1) | (small & 1) == 2 * (big & 1) + (small & 1)) by (bit_vector);
            assert(0 <= x < 8);
            assert(plane_pixel(self.cached_small, self.cached_big, 7 - x as int) == 2 * bit_of(
                cb,
                x as int,
            ) + bit_of(cs, x as int));
        }
        ((big & 1) << 1) | (small & 1)
    }

    fn populate_cache<M: Mapper>(&mut self, mapper: &M, y: u8)
        requires
            mapper.wf(),
            old(self).cached_y == y || old(self).readable_row(mapper, y),
        ensures
            final(self).tile_addr == old(self).tile_addr,
            final(self).cached_y == y,
            old(self).cache_holds(mapper) || old(self).cached_y != y ==> final(self).cache_holds(
                mapper,
            ),
            old(self).cached_y == y ==> *final(self) == *old(self),
            old(self).cached_y != y ==> forall|x: int|
                0 <= x < 8 ==> #[trigger] plane_pixel(final(self).cached_small, final(self).cached_big, 7 - x)
                    == plane_pixel(
                    mapper.chr_value(row_address(old(self).tile_addr, y) as u16),
                    mapper.chr_value((row_address(old(self).tile_addr, y) + 8) as u16),
                    x,
                ),
    {
        if self.cached_y != y {
            /* double tall sprites are actually two regular 8x8 tiles glued together,
             * so for the second half we need to increment values by 8 to index it correctly
             */
            let y_row = self.tile_addr + (if y >= 8 {
                y + 8
            } else {
                y
            } as u16);
            /* memory stores bits in the opposite order of x indexing; reversing them here
             * to avoid a subtraction later */
            assert(self.readable_row(mapper, y));
            assert(y_row == row_address(self.tile_addr, y));
            let big = swap_bits(mapper.read_chr(y_row + 8));
            let small = swap_bits(mapper.read_chr(y_row));
            self.cached_y = y;
            self.cached_big = big;
            self.cached_small = small;
            proof {
                assert forall|x: int| 0 <= x < 8 implies #[trigger] plane_pixel(small, big, 7 - x)
                    == plane_pixel(
                    mapper.chr_value(y_row),
                    mapper.chr_value((y_row + 8) as u16),
                    x,
                ) by {
                    assert(bit_of(big, 7 - x) == bit_of(mapper.chr_value((y_row + 8) as u16), 7 - (7 - x)));
                    assert(bit_of(small, 7 - x) == bit_of(mapper.chr_value(y_row), 7 - (7 - x)));
                }
            }
        }
    }
}

/// `(b >> x) & 1` is bit `x` of `b`.
proof fn lemma_shift_bit(b: u8, x: u8)
    requires
        x < 8,
    ensures
        (b >> x) & 1 == bit_of(b, x as int),
{
    vstd::arithmetic::power2::lemma2_to64();
    assert((b >> x) & 1 == (b / (1u8 << x)) % 2) by (bit_vector)
        requires
            x < 8,
    ;
    assert(x == 0 || x == 1 || x == 2 || x == 3 || x == 4 || x == 5 || x == 6 || x == 7);
    assert(1u8 << 0u8 == 1 && 1u8 << 1u8 == 2 && 1u8 << 2u8 == 4 && 1u8 << 3u8 == 8 && 1u8 << 4u8
        == 16 && 1u8 << 5u8 == 32 && 1u8 << 6u8 == 64 && 1u8 << 7u8 == 128) by (bit_vector);
}

/* an image row-major, four bytes per pixel: pixel index to (x, y) */
pub fn index_to_pixel(width: usize, index: usize) -> (r: (usize, usize))
    requires
        width > 0,
    ensures
        r.0 == index % width,
        r.1 == index / width,
{
    (index % width, index / width)
}

/* an image row-major, four bytes per pixel: (x, y) to the index of the pixel's first byte */
pub fn pixel_to_index(width: usize, x: usize, y: usize) -> (r: usize)
    requires
        4 * (width * y + x) <= usize::MAX,
    ensures
        r == 4 * (width * y + x),
{
    proof {
        assert(width * y <= width * y + x) by (nonlinear_arith)
            requires
                x >= 0,
        ;
        assert(width * y <= usize::MAX) by (nonlinear_arith)
            requires
                4 * (width * y + x) <= usize::MAX,
                x >= 0,
        ;
    }
    4 * (width * y + x)
}

} // verus!
