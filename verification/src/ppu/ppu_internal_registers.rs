use vstd::prelude::*;

verus! {

/// The scroll position packed into a 15-bit `v`/`t` register:
/// `yyy NN YYYYY XXXXX` (fine y, nametable, coarse y, coarse x).
pub open spec fn scroll_address(fine_y: int, nametable: int, coarse_y: int, coarse_x: int) -> int {
    fine_y * 4096 + nametable * 1024 + coarse_y * 32 + coarse_x
}

pub open spec fn coarse_x_of(v: u16) -> u16 {
    v % 32
}

pub open spec fn coarse_y_of(v: u16) -> u16 {
    (v / 32) % 32
}

pub open spec fn nametable_of(v: u16) -> u16 {
    (v / 1024) % 4
}

pub open spec fn fine_y_of(v: u16) -> u16 {
    (v / 4096) % 8
}

/// Bit 15, which lies outside the scroll fields.
pub open spec fn top_bit_of(v: u16) -> u16 {
    v / 32768
}

/// `a` and `b` agree on every field that is not flagged as changed.
pub open spec fn same_fields_except(
    a: u16,
    b: u16,
    coarse_x: bool,
    coarse_y: bool,
    nametable: bool,
    fine_y: bool,
    top_bit: bool,
) -> bool {
    &&& (!coarse_x ==> coarse_x_of(a) == coarse_x_of(b))
    &&& (!coarse_y ==> coarse_y_of(a) == coarse_y_of(b))
    &&& (!nametable ==> nametable_of(a) == nametable_of(b))
    &&& (!fine_y ==> fine_y_of(a) == fine_y_of(b))
    &&& (!top_bit ==> top_bit_of(a) == top_bit_of(b))
}

/// The PPU's internal scrolling registers: the current VRAM address `v`, the temporary
/// address `t`, the fine x scroll `x` and the write toggle `w`.
#[derive(Debug, Default, Clone, Copy)]
pub struct PPUInternalRegisters {
    pub v: u16,
    pub t: u16,
    pub x: u8,
    pub w: bool,
}


/// Every 16-bit register value is its top bit followed by its four scroll fields.
pub proof fn lemma_decompose(v: u16)
    by (bit_vector)
    ensures
        v as int == top_bit_of(v) * 32768 + scroll_address(
            fine_y_of(v) as int,
            nametable_of(v) as int,
            coarse_y_of(v) as int,
            coarse_x_of(v) as int,
        ),
        fine_y_of(v) < 8,
        nametable_of(v) < 4,
        coarse_y_of(v) < 32,
        coarse_x_of(v) < 32,
        top_bit_of(v) < 2,
{
}

proof fn lemma_low_bits(v: u16)
    ensures
        v & 0x1f == v % 32,
        (v >> 5) & 0x1f == (v / 32) % 32,
        (v >> 10) & 0x3 == (v / 1024) % 4,
        (v >> 12) & 0x7 == (v / 4096) % 8,
{
    assert((v & 0x1f == v % 32)
        && ((v >> 5) & 0x1f == (v / 32) % 32)
        && ((v >> 10) & 0x3 == (v / 1024) % 4)
        && ((v >> 12) & 0x7 == (v / 4096) % 8)) by (bit_vector);
}

proof fn lemma_set_coarse_x(p: u16, data: u8)
    ensures
        coarse_x_of((p & !0x1fu16) | (data as u16 & 0x1f)) == (data as u16) % 32,
        same_fields_except((p & !0x1fu16) | (data as u16 & 0x1f), p, true, false, false, false, false),
{
    assert((coarse_x_of((p & !0x1fu16) | (data as u16 & 0x1f)) == (data as u16) % 32)
        && (same_fields_except((p & !0x1fu16) | (data as u16 & 0x1f), p, true, false, false, false, false))) by (bit_vector);
}

proof fn lemma_set_coarse_y(p: u16, data: u8)
    ensures
        coarse_y_of((p & !0x03e0u16) | ((data as u16 & 0x1f) << 5)) == (data as u16) % 32,
        same_fields_except((p & !0x03e0u16) | ((data as u16 & 0x1f) << 5), p, false, true, false, false, false),
{
    assert((coarse_y_of((p & !0x03e0u16) | ((data as u16 & 0x1f) << 5)) == (data as u16) % 32)
        && (same_fields_except((p & !0x03e0u16) | ((data as u16 & 0x1f) << 5), p, false, true, false, false, false))) by (bit_vector);
}

proof fn lemma_set_nametable(p: u16, data: u8)
    ensures
        nametable_of((p & !0x0c00u16) | ((data as u16 & 0x3) << 10)) == (data as u16) % 4,
        same_fields_except((p & !0x0c00u16) | ((data as u16 & 0x3) << 10), p, false, false, true, false, false),
{
    assert((nametable_of((p & !0x0c00u16) | ((data as u16 & 0x3) << 10)) == (data as u16) % 4)
        && (same_fields_except((p & !0x0c00u16) | ((data as u16 & 0x3) << 10), p, false, false, true, false, false))) by (bit_vector);
}

proof fn lemma_set_fine_y(p: u16, data: u8)
    ensures
        fine_y_of((p & 0x0fff) | ((data as u16 & 0x7) << 12)) == (data as u16) % 8,
        top_bit_of((p & 0x0fff) | ((data as u16 & 0x7) << 12)) == 0,
        same_fields_except((p & 0x0fff) | ((data as u16 & 0x7) << 12), p, false, false, false, true, true),
{
    assert((fine_y_of((p & 0x0fff) | ((data as u16 & 0x7) << 12)) == (data as u16) % 8)
        && (top_bit_of((p & 0x0fff) | ((data as u16 & 0x7) << 12)) == 0)
        && (same_fields_except((p & 0x0fff) | ((data as u16 & 0x7) << 12), p, false, false, false, true, true))) by (bit_vector);
}

/// How the nametable select bits combine.
proof fn lemma_nametable_bits(nt: u8, a: u8, b: u8)
    requires
        nt < 4,
        a < 4,
        b < 4,
    ensures
        (nt ^ 0x2) % 4 == (nt + 2) % 4,
        (nt ^ 0x1) % 4 == (nt / 2) * 2 + (1 - nt % 2),
        ((a & 0x2) | (b & 0x1)) % 4 == (a / 2) * 2 + b % 2,
        ((a & 0x1) | (b & 0x2)) % 4 == (b / 2) * 2 + a % 2,
{
    assert(((nt ^ 0x2) % 4 == (nt + 2) % 4) && ((nt ^ 0x1) % 4 == (nt / 2) * 2 + (1 - nt % 2))
        && (((a & 0x2) | (b & 0x1)) % 4 == (a / 2) * 2 + b % 2) && (((a & 0x1) | (b & 0x2)) % 4
        == (b / 2) * 2 + a % 2)) by (bit_vector)
        requires
            nt < 4,
            a < 4,
            b < 4,
    ;
}

impl PPUInternalRegisters {
    /// The registers after `y_increment`.
    pub open spec fn y_incremented(self) -> PPUInternalRegisters {
        let v = self.v;
        PPUInternalRegisters {
            v: (if fine_y_of(v) < 7 {
                scroll_address(fine_y_of(v) + 1, nametable_of(v) as int, coarse_y_of(v) as int, coarse_x_of(v) as int)
            } else if coarse_y_of(v) == 29 {
                scroll_address(0, (nametable_of(v) + 2) % 4, 0, coarse_x_of(v) as int)
            } else if coarse_y_of(v) == 31 {
                scroll_address(0, nametable_of(v) as int, 0, coarse_x_of(v) as int)
            } else {
                scroll_address(0, nametable_of(v) as int, coarse_y_of(v) + 1, coarse_x_of(v) as int)
            }) as u16,
            ..self
        }
    }

    /// The registers after `coarse_x_increment`.
    pub open spec fn coarse_x_incremented(self) -> PPUInternalRegisters {
        let v = self.v;
        let nt = nametable_of(v) as int;
        PPUInternalRegisters {
            v: (top_bit_of(v) * 32768 + if coarse_x_of(v) == 31 {
                scroll_address(fine_y_of(v) as int, (nt / 2) * 2 + (1 - nt % 2), coarse_y_of(v) as int, 0)
            } else {
                scroll_address(fine_y_of(v) as int, nt, coarse_y_of(v) as int, coarse_x_of(v) + 1)
            }) as u16,
            ..self
        }
    }

    /// The registers after `copy_x_bits`.
    pub open spec fn x_bits_copied(self) -> PPUInternalRegisters {
        let v = self.v;
        let t = self.t;
        PPUInternalRegisters {
            v: (top_bit_of(v) * 32768 + scroll_address(
                fine_y_of(v) as int,
                (nametable_of(v) / 2) * 2 + nametable_of(t) % 2,
                coarse_y_of(v) as int,
                coarse_x_of(t) as int,
            )) as u16,
            ..self
        }
    }

    /// The registers after `copy_y_bits`.
    pub open spec fn y_bits_copied(self) -> PPUInternalRegisters {
        let v = self.v;
        let t = self.t;
        PPUInternalRegisters {
            v: scroll_address(
                fine_y_of(t) as int,
                (nametable_of(t) / 2) * 2 + nametable_of(v) % 2,
                coarse_y_of(t) as int,
                coarse_x_of(v) as int,
            ) as u16,
            ..self
        }
    }

    pub fn get_coarse_x(&self) -> (r: u8)
        ensures
            r == coarse_x_of(self.v),
    {
        proof {
            lemma_low_bits(self.v);
        }
        (self.v & 0x1f) as u8
    }

    pub fn get_coarse_x_tmp(&self) -> (r: u8)
        ensures
            r == coarse_x_of(self.t),
    {
        proof {
            lemma_low_bits(self.t);
        }
        (self.t & 0x1f) as u8
    }

    pub fn set_coarse_x(&mut self, data: u8)
        ensures
            coarse_x_of(final(self).v) == data % 32,
            same_fields_except(final(self).v, old(self).v, true, false, false, false, false),
            final(self).t == old(self).t,
            final(self).x == old(self).x,
            final(self).w == old(self).w,
    {
        PPUInternalRegisters::set_coarse_x_internal(&mut self.v, data);
    }

    pub fn set_coarse_x_t(&mut self, data: u8)
        ensures
            coarse_x_of(final(self).t) == data % 32,
            same_fields_except(final(self).t, old(self).t, true, false, false, false, false),
            final(self).v == old(self).v,
            final(self).x == old(self).x,
            final(self).w == old(self).w,
    {
        PPUInternalRegisters::set_coarse_x_internal(&mut self.t, data);
    }

    fn set_coarse_x_internal(ptr: &mut u16, data: u8)
        ensures
            coarse_x_of(*final(ptr)) == data % 32,
            same_fields_except(*final(ptr), *old(ptr), true, false, false, false, false),
    {
        proof {
            lemma_set_coarse_x(*ptr, data);
        }
        *ptr = (*ptr & !0x1f) | (data as u16 & 0x1f);
    }

    pub fn get_fine_x(&self) -> (r: u8)
        ensures
            r == self.x,
    {
        self.x
    }

    pub fn set_fine_x(&mut self, data: u8)
        ensures
            *final(self) == (PPUInternalRegisters { x: data, ..*old(self) }),
    {
        self.x = data
    }

    pub fn get_coarse_y(&self) -> (r: u8)
        ensures
            r == coarse_y_of(self.v),
    {
        proof {
            lemma_low_bits(self.v);
        }
        ((self.v >> 5) & 0x1f) as u8
    }

    pub fn get_coarse_y_tmp(&self) -> (r: u8)
        ensures
            r == coarse_y_of(self.t),
    {
        proof {
            lemma_low_bits(self.t);
        }
        ((self.t >> 5) & 0x1f) as u8
    }

    pub fn set_coarse_y(&mut self, data: u8)
        ensures
            coarse_y_of(final(self).v) == data % 32,
            same_fields_except(final(self).v, old(self).v, false, true, false, false, false),
            final(self).t == old(self).t,
            final(self).x == old(self).x,
            final(self).w == old(self).w,
    {
        PPUInternalRegisters::set_coarse_y_internal(&mut self.v, data);
    }

    pub fn set_coarse_y_t(&mut self, data: u8)
        ensures
            coarse_y_of(final(self).t) == data % 32,
            same_fields_except(final(self).t, old(self).t, false, true, false, false, false),
            final(self).v == old(self).v,
            final(self).x == old(self).x,
            final(self).w == old(self).w,
    {
        PPUInternalRegisters::set_coarse_y_internal(&mut self.t, data);
    }

    pub fn set_coarse_y_internal(ptr: &mut u16, data: u8)
        ensures
            coarse_y_of(*final(ptr)) == data % 32,
            same_fields_except(*final(ptr), *old(ptr), false, true, false, false, false),
    {
        proof {
            lemma_set_coarse_y(*ptr, data);
        }
        *ptr = (*ptr & !0x03e0) | ((data as u16 & 0x1f) << 5);
    }

    pub fn get_fine_y(&self) -> (r: u8)
        ensures
            r == fine_y_of(self.v),
    {
        proof {
            lemma_low_bits(self.v);
        }
        ((self.v >> 12) & 0x7) as u8
    }

    pub fn get_fine_y_tmp(&self) -> (r: u8)
        ensures
            r == fine_y_of(self.t),
    {
        proof {
            lemma_low_bits(self.t);
        }
        ((self.t >> 12) & 0x7) as u8
    }

    pub fn get_nametable(&self) -> (r: u8)
        ensures
            r == nametable_of(self.v),
    {
        proof {
            lemma_low_bits(self.v);
        }
        ((self.v >> 10) & 0x3) as u8
    }

    pub fn get_nametable_t(&self) -> (r: u8)
        ensures
            r == nametable_of(self.t),
    {
        proof {
            lemma_low_bits(self.t);
        }
        ((self.t >> 10) & 0x3) as u8
    }

    pub fn set_nametable_t(&mut self, data: u8)
        ensures
            nametable_of(final(self).t) == data % 4,
            same_fields_except(final(self).t, old(self).t, false, false, true, false, false),
            final(self).v == old(self).v,
            final(self).x == old(self).x,
            final(self).w == old(self).w,
    {
        PPUInternalRegisters::set_nametable_internal(&mut self.t, data);
    }

    pub fn set_nametable(&mut self, data: u8)
        ensures
            nametable_of(final(self).v) == data % 4,
            same_fields_except(final(self).v, old(self).v, false, false, true, false, false),
            final(self).t == old(self).t,
            final(self).x == old(self).x,
            final(self).w == old(self).w,
    {
        PPUInternalRegisters::set_nametable_internal(&mut self.v, data);
    }

    fn set_nametable_internal(ptr: &mut u16, data: u8)
        ensures
            nametable_of(*final(ptr)) == data % 4,
            same_fields_except(*final(ptr), *old(ptr), false, false, true, false, false),
    {
        proof {
            lemma_set_nametable(*ptr, data);
        }
        *ptr = (*ptr & !0x0c00) | ((data as u16 & 0x3) << 10);
    }

    /// Sets fine y in `v`; bit 15 of `v` is cleared as a side effect.
    pub fn set_fine_y(&mut self, data: u8)
        ensures
            fine_y_of(final(self).v) == data % 8,
            top_bit_of(final(self).v) == 0,
            same_fields_except(final(self).v, old(self).v, false, false, false, true, true),
            final(self).t == old(self).t,
            final(self).x == old(self).x,
            final(self).w == old(self).w,
    {
        PPUInternalRegisters::set_fine_y_internal(&mut self.v, data);
    }

    /// Sets fine y in `t`; bit 15 of `t` is cleared as a side effect.
    pub fn set_fine_y_t(&mut self, data: u8)
        ensures
            fine_y_of(final(self).t) == data % 8,
            top_bit_of(final(self).t) == 0,
            same_fields_except(final(self).t, old(self).t, false, false, false, true, true),
            final(self).v == old(self).v,
            final(self).x == old(self).x,
            final(self).w == old(self).w,
    {
        PPUInternalRegisters::set_fine_y_internal(&mut self.t, data);
    }

    fn set_fine_y_internal(ptr: &mut u16, data: u8)
        ensures
            fine_y_of(*final(ptr)) == data % 8,
            top_bit_of(*final(ptr)) == 0,
            same_fields_except(*final(ptr), *old(ptr), false, false, false, true, true),
    {
        proof {
            lemma_set_fine_y(*ptr, data);
        }
        *ptr = (*ptr & 0x0fff) | ((data as u16 & 0x7) << 12)
    }

    pub fn is_first_write(&self) -> (r: bool)
        ensures
            r == !self.w,
    {
        !self.w
    }

    /// Moves `v` down one pixel row: fine y counts up to 7, then coarse y advances; coarse y
    /// 29 wraps to 0 and switches the vertical nametable, coarse y 31 wraps without switching.
    /// Bit 15 of `v` is cleared.
    pub fn y_increment(&mut self)
        ensures
            final(self).v as int == if fine_y_of(old(self).v) < 7 {
                scroll_address(
                    fine_y_of(old(self).v) + 1,
                    nametable_of(old(self).v) as int,
                    coarse_y_of(old(self).v) as int,
                    coarse_x_of(old(self).v) as int,
                )
            } else if coarse_y_of(old(self).v) == 29 {
                scroll_address(
                    0,
                    (nametable_of(old(self).v) + 2) % 4,
                    0,
                    coarse_x_of(old(self).v) as int,
                )
            } else if coarse_y_of(old(self).v) == 31 {
                scroll_address(0, nametable_of(old(self).v) as int, 0, coarse_x_of(old(self).v) as int)
            } else {
                scroll_address(
                    0,
                    nametable_of(old(self).v) as int,
                    coarse_y_of(old(self).v) + 1,
                    coarse_x_of(old(self).v) as int,
                )
            },
            final(self).t == old(self).t,
            final(self).x == old(self).x,
            final(self).w == old(self).w,
            *final(self) == old(self).y_incremented(),
    {
        let ghost old_v = self.v;
        let fine_y = self.get_fine_y();
        let coarse_y = self.get_coarse_y();
        proof {
            lemma_decompose(old_v);
        }
        if fine_y < 7 {
            /* keep on incrementing fine_y until we can't */
            self.set_fine_y(fine_y + 1);
        } else {
            /* wrap fine y, go to next vertical name table, being careful of attr table */
            self.set_fine_y(0);
            if coarse_y == 29 {
                self.set_coarse_y(0);
                let nt = self.get_nametable();
                proof {
                    lemma_nametable_bits(nt, 0, 0);
                }
                self.set_nametable(nt ^ 0x2);  /* switch vertical nametable */
            } else if coarse_y == 31 {
                self.set_coarse_y(0);
            } else {
                self.set_coarse_y(coarse_y + 1);
            }
        }
        proof {
            lemma_decompose(self.v);
        }
    }

    /// Moves `v` one tile right: coarse x 31 wraps to 0 and switches the horizontal
    /// nametable.
    pub fn coarse_x_increment(&mut self)
        ensures
            if coarse_x_of(old(self).v) == 31 {
                &&& coarse_x_of(final(self).v) == 0
                &&& nametable_of(final(self).v) == (nametable_of(old(self).v) / 2) * 2 + (1
                    - nametable_of(old(self).v) % 2)
                &&& same_fields_except(final(self).v, old(self).v, true, false, true, false, false)
            } else {
                &&& coarse_x_of(final(self).v) == coarse_x_of(old(self).v) + 1
                &&& same_fields_except(final(self).v, old(self).v, true, false, false, false, false)
            },
            final(self).t == old(self).t,
            final(self).x == old(self).x,
            final(self).w == old(self).w,
            *final(self) == old(self).coarse_x_incremented(),
    {
        let ghost old_v = self.v;
        let coarse_x = self.get_coarse_x();
        if coarse_x == 31 {
            self.set_coarse_x(0);
            let nt = self.get_nametable();
            proof {
                lemma_nametable_bits(nt, 0, 0);
            }
            self.set_nametable(nt ^ 0x1);  /* switch horizontal nametable */
        } else {
            self.set_coarse_x(coarse_x + 1);
        }
        proof {
            lemma_decompose(old_v);
            lemma_decompose(self.v);
        }
    }

    /// Copies coarse x and the horizontal nametable bit from `t` into `v`.
    pub fn copy_x_bits(&mut self)
        ensures
            coarse_x_of(final(self).v) == coarse_x_of(old(self).t),
            nametable_of(final(self).v) == (nametable_of(old(self).v) / 2) * 2 + nametable_of(
                old(self).t,
            ) % 2,
            same_fields_except(final(self).v, old(self).v, true, false, true, false, false),
            final(self).t == old(self).t,
            final(self).x == old(self).x,
            final(self).w == old(self).w,
            *final(self) == old(self).x_bits_copied(),
    {
        let ghost old_v = self.v;
        let cx = self.get_coarse_x_tmp();
        self.set_coarse_x(cx);
        let a = self.get_nametable();
        let b = self.get_nametable_t();
        proof {
            lemma_nametable_bits(0, a, b);
        }
        self.set_nametable((a & 0x2) | (b & 0x1));
        proof {
            lemma_decompose(old_v);
            lemma_decompose(self.v);
        }
    }

    /// Copies coarse y, fine y and the vertical nametable bit from `t` into `v`
    /// (bit 15 of `v` is cleared).
    pub fn copy_y_bits(&mut self)
        ensures
            coarse_y_of(final(self).v) == coarse_y_of(old(self).t),
            fine_y_of(final(self).v) == fine_y_of(old(self).t),
            nametable_of(final(self).v) == (nametable_of(old(self).t) / 2) * 2 + nametable_of(
                old(self).v,
            ) % 2,
            coarse_x_of(final(self).v) == coarse_x_of(old(self).v),
            top_bit_of(final(self).v) == 0,
            final(self).t == old(self).t,
            final(self).x == old(self).x,
            final(self).w == old(self).w,
            *final(self) == old(self).y_bits_copied(),
    {
        let ghost old_v = self.v;
        let cy = self.get_coarse_y_tmp();
        self.set_coarse_y(cy);
        let fy = self.get_fine_y_tmp();
        self.set_fine_y(fy);
        let a = self.get_nametable();
        let b = self.get_nametable_t();
        proof {
            lemma_nametable_bits(0, a, b);
        }
        self.set_nametable((a & 0x1) | (b & 0x2));
        proof {
            lemma_decompose(old_v);
            lemma_decompose(self.v);
        }
    }
}

} // verus!
