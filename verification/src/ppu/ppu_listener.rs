use crate::mapper::Mapper;
use crate::ppu::ppu::{lemma_vram_write_read, mirror_address, vram_write_result};
use crate::ppu::ppu_internal_registers::{
    coarse_x_of, coarse_y_of, fine_y_of, nametable_of, same_fields_except, top_bit_of,
};
use crate::ppu::ppu_registers::{register_address, register_at};
use crate::ppu::{PPURegister, OAM_SIZE, PPU};
use vstd::prelude::*;

verus! {

/// Bit-level facts about the register reads and writes.
proof fn lemma_listener_bits(result: u8, v: u16, value: u8, t: u16)
    ensures
        result & !0x80u8 == result & 0x7f,
        v as u8 == v % 256,
        value & 0x3 == value % 4,
        (value >> 3) & 0x1f == value / 8,
        value & 0x7 == value % 8,
        (t & 0xff) | (((value & 0x3f) as u16) << 8) == t % 256 + (value % 64) * 256,
        (t & 0xff00) | (value as u16) == (t / 256) * 256 + value,
        (value & 0x20 != 0) == ((value / 32) % 2 == 1),
{
    assert((result & !0x80u8 == result & 0x7f)
        && (v as u8 == v % 256)
        && (value & 0x3 == value % 4)
        && ((value >> 3) & 0x1f == value / 8)
        && (value & 0x7 == value % 8)
        && ((t & 0xff) | (((value & 0x3f) as u16) << 8) == t % 256 + (value % 64) * 256)
        && ((t & 0xff00) | (value as u16) == (t / 256) * 256 + value)
        && ((value & 0x20 != 0) == ((value / 32) % 2 == 1))) by (bit_vector);
}

/// `v` after a PPUDATA access: it advances by 32 (one row) when PPUCTRL bit 2 is set,
/// otherwise by 1, wrapping at 16 bits.
pub open spec fn data_increment(ctrl: u8, v: u16) -> u16 {
    ((v + if ctrl & 0x4 != 0 {
        32int
    } else {
        1int
    }) % 0x10000) as u16
}

/// The registers the CPU may read: PPUCTRL, PPUMASK, PPUSTATUS, PPUADDR and PPUDATA.
pub open spec fn register_readable(address: u16) -> bool {
    address == 0x2000 || address == 0x2001 || address == 0x2002 || address == 0x2006 || address
        == 0x2007
}

/// The register writes that are handled here: PPUCTRL, PPUMASK, PPUSCROLL, PPUADDR, PPUDATA,
/// and OAMADDR with the value 0. OAMDMA goes through `oam_dma`.
pub open spec fn register_writable(address: u16, value: u8) -> bool {
    ||| address == 0x2000
    ||| address == 0x2001
    ||| (address == 0x2003 && value == 0)
    ||| address == 0x2005
    ||| address == 0x2006
    ||| address == 0x2007
}

/// What a CPU read of a PPU register returns (`r`) and leaves behind (`post`).
pub open spec fn register_read<M: Mapper>(pre: PPU<M>, address: u16, r: u8, post: PPU<M>) -> bool {
    if address == 0x2000 {
        r == pre.ppu_ctrl && post == pre
    } else if address == 0x2001 {
        r == pre.ppu_mask && post == pre
    } else if address == 0x2002 {
        /* reading the status resets the write toggle and clears the vblank flag */
        &&& r == pre.ppu_status
        &&& post == (PPU {
            ppu_status: pre.ppu_status & 0x7f,
            internal_regs: crate::ppu::PPUInternalRegisters { w: false, ..pre.internal_regs },
            ..pre
        })
    } else if address == 0x2006 {
        r == (pre.internal_regs.v % 256) as u8 && post == pre
    } else {
        /* PPUDATA reads are buffered: the byte at v comes out on the next read */
        &&& r == pre.read_buffer
        &&& post == (PPU {
            read_buffer: pre.vram_value(pre.internal_regs.v as int),
            internal_regs: crate::ppu::PPUInternalRegisters {
                v: data_increment(pre.ppu_ctrl, pre.internal_regs.v),
                ..pre.internal_regs
            },
            ..pre
        })
    }
}

/// What a CPU write of `value` to a PPU register does.
pub open spec fn register_write<M: Mapper>(pre: PPU<M>, address: u16, value: u8, post: PPU<M>) -> bool {
    let r = pre.internal_regs;
    let r2 = post.internal_regs;
    if address == 0x2000 {
        /* the low two bits select the base nametable, in t */
        &&& post == (PPU { ppu_ctrl: value, tall_sprites: value & 0x20 != 0, internal_regs: r2, ..pre })
        &&& r2.v == r.v && r2.x == r.x && r2.w == r.w
        &&& nametable_of(r2.t) == value % 4
        &&& same_fields_except(r2.t, r.t, false, false, true, false, false)
    } else if address == 0x2001 {
        post == (PPU { ppu_mask: value, ..pre })
    } else if address == 0x2003 {
        post == pre
    } else if address == 0x2005 {
        &&& post == (PPU { internal_regs: r2, ..pre })
        &&& r2.v == r.v
        &&& r2.w == !r.w
        &&& if !r.w {
            /* first write: horizontal scroll */
            &&& coarse_x_of(r2.t) == value / 8
            &&& r2.x == value % 8
            &&& same_fields_except(r2.t, r.t, true, false, false, false, false)
        } else {
            /* second write: vertical scroll */
            &&& coarse_y_of(r2.t) == value / 8
            &&& fine_y_of(r2.t) == value % 8
            &&& top_bit_of(r2.t) == 0
            &&& r2.x == r.x
            &&& same_fields_except(r2.t, r.t, false, true, false, true, true)
        }
    } else if address == 0x2006 {
        &&& post == (PPU { internal_regs: r2, ..pre })
        &&& r2.w == !r.w
        &&& r2.x == r.x
        &&& if !r.w {
            /* first write: the high six bits of the address */
            r2.t == r.t % 256 + (value % 64) * 256 && r2.v == r.v
        } else {
            /* second write: the low byte, and t is copied to v */
            r2.t == (r.t / 256) * 256 + value && r2.v == r2.t
        }
    } else {
        /* PPUDATA: the byte goes to VRAM at v, then v advances */
        &&& vram_write_result(pre, r.v as int, value, PPU { internal_regs: r, ..post })
        &&& r2 == crate::ppu::PPUInternalRegisters { v: data_increment(pre.ppu_ctrl, r.v), ..r }
    }
}

/// Connects the PPU's registers to the CPU's address space.
#[derive(Clone, Copy, Debug)]
pub struct PPUListener {}

impl PPUListener {
    pub fn new() -> (r: PPUListener) {
        PPUListener {  }
    }

    /// The CPU addresses of the nine PPU registers.
    pub fn get_addresses(&self) -> (r: Vec<u16>)
        ensures
            r@ == seq![
                0x2000u16,
                0x2001u16,
                0x2002u16,
                0x2003u16,
                0x2004u16,
                0x2005u16,
                0x2006u16,
                0x2007u16,
                0x4014u16,
            ],
            forall|a: u16| r@.contains(a) <==> register_at(a) is Some,
    {
        let mut addrs: Vec<u16> = Vec::new();
        addrs.push(PPURegister::address(&PPURegister::PPUCTRL));
        addrs.push(PPURegister::address(&PPURegister::PPUMASK));
        addrs.push(PPURegister::address(&PPURegister::PPUSTATUS));
        addrs.push(PPURegister::address(&PPURegister::OAMADDR));
        addrs.push(PPURegister::address(&PPURegister::OAMDATA));
        addrs.push(PPURegister::address(&PPURegister::PPUSCROLL));
        addrs.push(PPURegister::address(&PPURegister::PPUADDR));
        addrs.push(PPURegister::address(&PPURegister::PPUDATA));
        addrs.push(PPURegister::address(&PPURegister::OAMDMA));
        proof {
            assert forall|a: u16| addrs@.contains(a) <==> register_at(a) is Some by {
                if register_at(a) is Some {
                    if a == 0x4014 {
                        assert(addrs@[8] == a);
                    } else {
                        assert(addrs@[a - 0x2000] == a);
                    }
                }
            }
        }
        addrs
    }

    pub fn read<M: Mapper>(&self, ppu: &mut PPU<M>, address: u16) -> (r: u8)
        requires
            old(ppu).wf(),
            register_readable(address),
        ensures
            final(ppu).wf(),
            register_read(*old(ppu), address, r, *final(ppu)),
    {
        match PPURegister::from_addr(address) {
            Some(PPURegister::PPUCTRL) => ppu.ppu_ctrl,
            Some(PPURegister::PPUMASK) => ppu.ppu_mask,
            Some(PPURegister::PPUSTATUS) => {
                ppu.internal_regs.w = false;
                let result = ppu.ppu_status;
                /* clear vblank flag on read */
                ppu.ppu_status &= !0x80;
                assert(result & !0x80u8 == result & 0x7f) by { lemma_listener_bits(result, 0, 0, 0); }
                result
            },
            Some(PPURegister::PPUADDR) => {
                let v = ppu.internal_regs.v;
                assert(v as u8 == v % 256) by { lemma_listener_bits(0, v, 0, 0); }
                v as u8
            },
            _ => {
                let result = ppu.read_buffer;
                let v = ppu.internal_regs.v;
                ppu.read_buffer = ppu.read_vram(v as usize);
                let inc: u16 = if ppu.ppu_ctrl & 0x4 != 0 {
                    32
                } else {
                    1
                };
                ppu.internal_regs.v = v.wrapping_add(inc);
                result
            },
        }
    }

    pub fn write<M: Mapper>(&self, ppu: &mut PPU<M>, address: u16, value: u8)
        requires
            old(ppu).wf(),
            register_writable(address, value),
        ensures
            final(ppu).wf(),
            register_write(*old(ppu), address, value, *final(ppu)),
    {
        match PPURegister::from_addr(address) {
            Some(PPURegister::PPUCTRL) => {
                ppu.tall_sprites = value & 0x20 != 0;
                ppu.ppu_ctrl = value;
                ppu.internal_regs.set_nametable_t(value & 0x3);
                assert(value & 0x3 == value % 4) by { lemma_listener_bits(0, 0, value, 0); }
                /* TODO writing triggers an immediate NMI when in vblank PPUSTATUS */
            },
            Some(PPURegister::PPUMASK) => {
                ppu.ppu_mask = value;
            },
            Some(PPURegister::OAMADDR) => {
                /* only the value 0 is supported */
            },
            Some(PPURegister::PPUSCROLL) => {
                let coarse = (value >> 3) & 0x1f;
                let fine = value & 0x7;
                assert(coarse == value / 8 && fine == value % 8) by {
                    lemma_listener_bits(0, 0, value, 0);
                }
                if ppu.internal_regs.is_first_write() {
                    ppu.internal_regs.set_coarse_x_t(coarse);
                    ppu.internal_regs.set_fine_x(fine);
                } else {
                    ppu.internal_regs.set_coarse_y_t(coarse);
                    ppu.internal_regs.set_fine_y_t(fine);
                }
                ppu.internal_regs.w = !ppu.internal_regs.w;
            },
            Some(PPURegister::PPUADDR) => {
                let t = ppu.internal_regs.t;
                if ppu.internal_regs.is_first_write() {
                    let nt = (t & 0xff) | (((value & 0x3f) as u16) << 8);
                    assert(nt == t % 256 + (value % 64) * 256) by {
                        lemma_listener_bits(0, 0, value, t);
                    }
                    ppu.internal_regs.t = nt;
                } else {
                    let nt = (t & 0xff00) | (value as u16);
                    assert(nt == (t / 256) * 256 + value) by { lemma_listener_bits(0, 0, value, t); }
                    ppu.internal_regs.t = nt;
                    ppu.internal_regs.v = nt;
                }
                ppu.internal_regs.w = !ppu.internal_regs.w;
            },
            _ => {
                let regs = ppu.internal_regs;
                let addr = regs.v as usize;
                ppu.write_vram(addr, value);
                let inc: u16 = if ppu.ppu_ctrl & 0x4 != 0 {
                    32
                } else {
                    1
                };
                ppu.internal_regs.v = regs.v.wrapping_add(inc);
            },
        }
    }

    /// OAMDMA: the 256 bytes of the CPU page named by the written value become the object
    /// attribute memory. The caller reads the page.
    pub fn oam_dma<M: Mapper>(&self, ppu: &mut PPU<M>, page: &[u8])
        requires
            old(ppu).wf(),
            page@.len() == OAM_SIZE,
        ensures
            final(ppu).wf(),
            final(ppu).oam@ == page@,
            *final(ppu) == (PPU { oam: final(ppu).oam, ..*old(ppu) }),
    {
        let mut i: usize = 0;
        while i < OAM_SIZE
            invariant
                ppu.wf(),
                page@.len() == OAM_SIZE,
                0 <= i <= OAM_SIZE,
                forall|j: int| 0 <= j < i ==> ppu.oam@[j] == page@[j],
                *ppu == (PPU { oam: ppu.oam, ..*old(ppu) }),
            decreases OAM_SIZE - i,
        {
            ppu.oam[i] = page[i];
            i += 1;
        }
        assert(ppu.oam@ =~= page@);
    }
}


/// Two PPUADDR writes, high byte first, set the VRAM address to the 14-bit address they
/// spell, and the write toggle ends as it began.
pub proof fn lemma_ppuaddr_sets_v<M: Mapper>(p0: PPU<M>, hi: u8, p1: PPU<M>, lo: u8, p2: PPU<M>)
    requires
        !p0.internal_regs.w,
        register_write(p0, 0x2006, hi, p1),
        register_write(p1, 0x2006, lo, p2),
    ensures
        p2.internal_regs.v == (hi % 64) * 256 + lo,
        !p2.internal_regs.w,
        p2 == (PPU { internal_regs: p2.internal_regs, ..p0 }),
{
}

/// A byte written through PPUDATA comes back through PPUDATA: once PPUADDR points at the
/// same place again (high byte, then low byte), the second read returns it, the first
/// read giving the buffered byte from before. Pattern-table bytes go to the cartridge,
/// so this is stated for nametable and palette addresses.
pub proof fn lemma_ppudata_round_trip<M: Mapper>(
    p0: PPU<M>,
    val: u8,
    p1: PPU<M>,
    hi: u8,
    p2: PPU<M>,
    lo: u8,
    p3: PPU<M>,
    r1: u8,
    p4: PPU<M>,
    r2: u8,
    p5: PPU<M>,
)
    requires
        p0.wf(),
        !p0.internal_regs.w,
        mirror_address(p0.mapper.mirroring(), p0.internal_regs.v as int) >= 0x2000,
        mirror_address(p0.mapper.mirroring(), (hi % 64) * 256 + lo) == mirror_address(
            p0.mapper.mirroring(),
            p0.internal_regs.v as int,
        ),
        register_write(p0, 0x2007, val, p1),
        register_write(p1, 0x2006, hi, p2),
        register_write(p2, 0x2006, lo, p3),
        register_read(p3, 0x2007, r1, p4),
        register_read(p4, 0x2007, r2, p5),
    ensures
        r2 == val,
{
    let written = PPU { internal_regs: p0.internal_regs, ..p1 };
    let b = (hi % 64) * 256 + lo;
    lemma_vram_write_read(p0, p0.internal_regs.v as int, val, written, b);
    lemma_ppuaddr_sets_v(p1, hi, p2, lo, p3);
    assert(p3.vram_value(b) == written.vram_value(b));
}


/// A PPUCTRL write stores the value, and sprites become 8x16 exactly when bit 5 (0x20) of
/// the value is set, whatever the other bits; they are 8x8 otherwise.
pub proof fn lemma_ctrl_sprite_height<M: Mapper>(pre: PPU<M>, value: u8, post: PPU<M>)
    requires
        register_write(pre, 0x2000, value, post),
    ensures
        post.ppu_ctrl == value,
        post.height() == if (value / 32) % 2 == 1 {
            16u8
        } else {
            8u8
        },
{
    lemma_listener_bits(0, 0, value, 0);
}

} // verus!
