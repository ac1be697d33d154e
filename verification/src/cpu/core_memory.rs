use crate::apu::apu::is_apu_address;
use crate::apu::APU;
use crate::cpu::controller::{Controller, CONTROLLER_ADDRESS};
use crate::cpu::listener_table::{
    insert_listener, listener_at, listener_table, new_listener_table, Listener,
};
use crate::mapper::cartridge::{cartridge_built_from, supported_rom};
use crate::mapper::{load_mapper, Cartridge, Mapper};
use crate::ppu::ppu_listener::{register_read, register_readable, register_writable, register_write};
use crate::ppu::ppu_registers::register_at;
use crate::ppu::{PPUListener, OAM_SIZE, PPU};
use crate::rom::Rom;
use fnv::FnvHashMap;
use vstd::prelude::*;

verus! {

/// Bit-level facts about mirroring, pages and little-endian words.
proof fn lemma_memory_bits(a: u16, m: u16, lo: u16, hi: u16, v: u8)
    ensures
        a & 0x7ff == a % 0x800,
        0x2000 | (a & 0x7) == 0x2000 + a % 8,
        m & !0xffu16 == (m / 256) * 256,
        lo < 256 && hi < 256 ==> lo | (hi << 8) == lo + hi * 256,
        (v as u16) << 8 == (v as u16) * 256,
{
    assert((a & 0x7ff == a % 0x800) && (0x2000 | (a & 0x7) == 0x2000 + a % 8) && (m & !0xffu16 == (m
        / 256) * 256) && (lo < 256 && hi < 256 ==> lo | (hi << 8) == lo + hi * 256) && ((v as u16)
        << 8 == (v as u16) * 256)) by (bit_vector);
}

pub const MEMORY_SIZE: usize = 2048; /* 2kB onboard RAM */

/// Where a CPU address lands: the 2kB of RAM repeats up to 0x1fff, the eight PPU registers
/// repeat from 0x2000 to 0x3fff, and everything above is left alone.
pub open spec fn mapped_address(address: u16) -> u16 {
    if 0x0800 <= address <= 0x1fff {
        (address % 0x800) as u16
    } else if 0x2000 <= address <= 0x3fff {
        (0x2000 + address % 8) as u16
    } else {
        address
    }
}

/// Addresses that devices may answer: the PPU registers and the APU and I/O registers.
pub open spec fn special_address(address: u16) -> bool {
    (0x2000 <= address < 0x2008) || (0x4000 <= address < 0x4018)
}

/// The addresses each device answers.
pub open spec fn device_address(listener: Listener, address: u16) -> bool {
    match listener {
        Listener::Ppu => register_at(address) is Some,
        Listener::Apu => is_apu_address(address),
        Listener::Controller => address == CONTROLLER_ADDRESS,
    }
}

/// The first address of the page after `address`'s page, wrapping within the page: the
/// 6502 reads the high byte of a pointer there.
pub open spec fn in_page_successor(address: u16) -> u16 {
    ((address / 256) * 256 + (address % 256 + 1) % 256) as u16
}

/// A prefix one element longer holds what the shorter one holds and the new element.
proof fn lemma_prefix_step(s: Seq<u16>, i: int, x: u16)
    requires
        0 <= i < s.len(),
    ensures
        s.subrange(0, i + 1).contains(x) <==> (s.subrange(0, i).contains(x) || x == s[i]),
{
    if x == s[i] {
        assert(s.subrange(0, i + 1)[i] == x);
    }
    if s.subrange(0, i).contains(x) {
        let j = choose|j: int| 0 <= j < i && #[trigger] s.subrange(0, i)[j] == x;
        assert(s.subrange(0, i + 1)[j] == x);
    }
    if s.subrange(0, i + 1).contains(x) {
        let j = choose|j: int| 0 <= j < i + 1 && #[trigger] s.subrange(0, i + 1)[j] == x;
        if j < i {
            assert(s.subrange(0, i)[j] == x);
        }
    }
}

/// The CPU's view of memory: 2kB of RAM, the cartridge (through the PPU, which owns the
/// mapper), and the devices that answer their registers' addresses.
pub struct CoreMemory<M: Mapper> {
    pub memory: Vec<u8>,
    pub listeners: FnvHashMap<u16, Listener>,
    pub ppu: PPU<M>,
    pub apu: APU,
    pub controller: Controller,
}

impl CoreMemory<Cartridge> {
    /// Memory over the mapper that a ROM's header names.
    pub fn new(rom: &Rom) -> (r: CoreMemory<Cartridge>)
        requires
            supported_rom(((rom.byte_7_flags / 16) * 16 + rom.byte_6_flags / 16) as u8, rom),
        ensures
            r.wf(),
            cartridge_built_from(
                r.ppu.mapper,
                ((rom.byte_7_flags / 16) * 16 + rom.byte_6_flags / 16) as u8,
                rom,
            ),
            r.ppu.fresh(),
            r.memory@ == Seq::new(MEMORY_SIZE as nat, |i: int| 0u8),
            forall|a: u16| !(#[trigger] r.table().dom().contains(a)),
    {
        let mapper_num = rom.mapper_number();
        let mapper = load_mapper(mapper_num, rom);
        CoreMemory::new_from_mapper(mapper)
    }
}

impl<M: Mapper> CoreMemory<M> {
    /// Which device answers each address.
    pub open spec fn table(&self) -> Map<u16, Listener> {
        listener_table(self.listeners)
    }

    pub open spec fn wf(&self) -> bool {
        &&& self.memory@.len() == MEMORY_SIZE
        &&& self.ppu.wf()
        &&& self.apu.wf()
        &&& forall|a: u16| #[trigger] self.table().dom().contains(a) ==> device_address(self.table()[a], a)
    }

    /// A device answers this (mapped) address.
    pub open spec fn listened(&self, m: u16) -> bool {
        special_address(m) && self.table().dom().contains(m)
    }

    /// Reading this (mapped) address without devices is defined: the cartridge above
    /// 0x401f, RAM below 0x800.
    pub open spec fn raw_readable(&self, m: u16) -> bool {
        if m >= 0x4020 {
            self.ppu.mapper.prg_readable(m)
        } else {
            m < 0x800
        }
    }

    pub open spec fn raw_value(&self, m: u16) -> u8 {
        if m >= 0x4020 {
            self.ppu.mapper.prg_value(m)
        } else {
            self.memory@[m as int]
        }
    }

    /// A CPU read of `address` is defined: a device answers it (the PPU only for its
    /// readable registers), or it is no device's address and is RAM or readable cartridge
    /// memory.
    pub open spec fn read_ok(&self, address: u16) -> bool {
        let m = mapped_address(address);
        if self.listened(m) {
            self.table()[m] == Listener::Ppu ==> register_readable(m)
        } else {
            !special_address(m) && self.raw_readable(m)
        }
    }

    /// What a CPU read of `address` returns (`r`) and leaves behind (`post`).
    pub open spec fn read_result(&self, address: u16, r: u8, post: CoreMemory<M>) -> bool {
        let m = mapped_address(address);
        if self.listened(m) {
            match self.table()[m] {
                Listener::Ppu => {
                    &&& register_read(self.ppu, m, r, post.ppu)
                    &&& post == CoreMemory { ppu: post.ppu, ..*self }
                },
                Listener::Apu => r == 0 && post == *self,
                Listener::Controller => {
                    &&& r == self.controller.next_report()
                    &&& post.controller.inputs_in_order@ == self.controller.after_report()
                    &&& post.controller.buttons == self.controller.buttons
                    &&& post.controller.strobe == self.controller.strobe
                    &&& post == CoreMemory { controller: post.controller, ..*self }
                },
            }
        } else {
            r == self.raw_value(m) && post == *self
        }
    }

    /// A 16-bit read of `address` is defined: it is not a device's address and both bytes
    /// are readable.
    pub open spec fn read16_ok(&self, address: u16) -> bool {
        let m = mapped_address(address);
        !special_address(m) && self.raw_readable(m) && self.raw_readable(in_page_successor(m))
    }

    /// The little-endian word at `address`; the high byte comes from the same page.
    pub open spec fn value16(&self, address: u16) -> u16 {
        let m = mapped_address(address);
        (self.raw_value(m) + self.raw_value(in_page_successor(m)) * 256) as u16
    }

    /// Copying `size` bytes from `address` is defined: within RAM when the address maps
    /// below 0x4000, otherwise all readable cartridge memory.
    pub open spec fn copy_ok(&self, address: u16, size: nat) -> bool {
        let m = mapped_address(address);
        if m < 0x4000 {
            m + size <= MEMORY_SIZE
        } else {
            &&& address + size <= 0x10000
            &&& forall|i: int| 0 <= i < size ==> #[trigger] self.ppu.mapper.prg_readable(
                (address + i) as u16,
            )
        }
    }

    /// Byte `i` of a copy from `address`.
    pub open spec fn copy_value(&self, address: u16, i: int) -> u8 {
        let m = mapped_address(address);
        if m < 0x4000 {
            self.memory@[m + i]
        } else {
            self.ppu.mapper.prg_value((address + i) as u16)
        }
    }

    /// The page that OAMDMA copies for the written `value`.
    pub open spec fn dma_page(&self, value: u8) -> Seq<u8> {
        Seq::new(OAM_SIZE as nat, |i: int| self.copy_value((value as int * 256) as u16, i))
    }

    /// A CPU write of `value` to `address` is defined.
    pub open spec fn write_ok(&self, address: u16, value: u8) -> bool {
        let m = mapped_address(address);
        if 0x4020 <= address < 0x4100 {
            true
        } else if address >= 0x4100 {
            self.ppu.mapper.prg_writable(address, value)
        } else if self.listened(m) {
            self.table()[m] == Listener::Ppu ==> if m == 0x4014 {
                self.copy_ok((value as int * 256) as u16, OAM_SIZE as nat)
            } else {
                register_writable(m, value)
            }
        } else {
            m < 0x800
        }
    }

    /// What a CPU write of `value` to `address` does. The Famicom Disk System's registers
    /// (0x4020 to 0x40ff) ignore writes.
    pub open spec fn write_result(&self, address: u16, value: u8, post: CoreMemory<M>) -> bool {
        let m = mapped_address(address);
        if 0x4020 <= address < 0x4100 {
            post == *self
        } else if address >= 0x4100 {
            &&& self.ppu.mapper.prg_write_result(address, value, post.ppu.mapper)
            &&& post == CoreMemory { ppu: PPU { mapper: post.ppu.mapper, ..self.ppu }, ..*self }
        } else if self.listened(m) {
            match self.table()[m] {
                Listener::Ppu => {
                    &&& if m == 0x4014 {
                        &&& post.ppu.oam@ == self.dma_page(value)
                        &&& post.ppu == PPU { oam: post.ppu.oam, ..self.ppu }
                    } else {
                        register_write(self.ppu, m, value, post.ppu)
                    }
                    &&& post == CoreMemory { ppu: post.ppu, ..*self }
                },
                Listener::Apu => post == CoreMemory { apu: self.apu.written(m, value), ..*self },
                Listener::Controller => {
                    &&& post.controller.buttons == self.controller.buttons
                    &&& post.controller.strobe == value
                    &&& post.controller.inputs_in_order@ == self.controller.after_strobe(value)
                    &&& post == CoreMemory { controller: post.controller, ..*self }
                },
            }
        } else {
            &&& post.memory@ == self.memory@.update(m as int, value)
            &&& post == CoreMemory { memory: post.memory, ..*self }
        }
    }

    /// Memory over a cartridge's mapper, with no devices registered yet and zeroed RAM.
    pub fn new_from_mapper(mapper: M) -> (r: CoreMemory<M>)
        requires
            mapper.wf(),
            forall|a: u16| a < 0x2000 ==> #[trigger] mapper.chr_readable(a),
            forall|a: u16| a < 0x2000 ==> #[trigger] mapper.chr_writable(a),
        ensures
            r.wf(),
            r.ppu.mapper == mapper,
            r.ppu.fresh(),
            r.memory@ == Seq::new(MEMORY_SIZE as nat, |i: int| 0u8),
            forall|a: u16| !(#[trigger] r.table().dom().contains(a)),
            r.controller.inputs_in_order@.len() == 0,
            r.controller.strobe == 0,
            r.controller.buttons == 0,
    {
        let memory = vec![0u8; MEMORY_SIZE];
        assert(memory@ =~= Seq::new(MEMORY_SIZE as nat, |i: int| 0u8));
        CoreMemory {
            memory,
            listeners: new_listener_table(),
            ppu: PPU::new(mapper),
            apu: APU::new(),
            controller: Controller::new(),
        }
    }

    /// Whether a device may answer this address (after mapping).
    pub fn is_special_addr(address: u16) -> (r: bool)
        ensures
            r == special_address(address),
    {
        let ppu_reg = 0x2000 <= address && address < 0x2008;
        let apu_io = 0x4000 <= address && address < 0x4018;

        ppu_reg || apu_io
    }

    pub fn map_address(&self, addr: u16) -> (r: u16)
        ensures
            r == mapped_address(addr),
    {
        if addr <= 0x3fff {
            if addr > 0x7ff && addr <= 0x1fff {
                proof { lemma_memory_bits(addr, 0, 0, 0, 0); }
                addr & 0x7ff
            } else if addr > 0x1fff {
                /* ppu registers */
                proof { lemma_memory_bits(addr, 0, 0, 0, 0); }
                0x2000 | (addr & 0x7)
            } else {
                addr
            }
        } else {
            addr
        }
    }

    fn read_no_listen_no_map(&self, address: u16) -> (r: u8)
        requires
            self.wf(),
            self.raw_readable(address),
        ensures
            r == self.raw_value(address),
    {
        /* high addresses go to the on-cartridge mapper */
        if address >= 0x4020 {
            self.ppu.mapper.read_prg(address)
        /* low addresses handled by on-board memory */
        } else {
            self.memory[address as usize]
        }
    }

    pub fn read(&mut self, address: u16) -> (r: u8)
        requires
            old(self).wf(),
            old(self).read_ok(address),
        ensures
            final(self).wf(),
            old(self).read_result(address, r, *final(self)),
    {
        let mapped_addr = self.map_address(address);
        if CoreMemory::<M>::is_special_addr(mapped_addr) {
            match listener_at(&self.listeners, mapped_addr) {
                Some(Listener::Ppu) => {
                    return PPUListener::new().read(&mut self.ppu, mapped_addr);
                },
                Some(Listener::Apu) => {
                    return self.apu.read(mapped_addr);
                },
                Some(Listener::Controller) => {
                    return self.controller.read(mapped_addr);
                },
                None => {},
            }
        }
        self.read_no_listen_no_map(mapped_addr)
    }

    pub fn read16(&self, address: u16) -> (r: u16)
        requires
            self.wf(),
            self.read16_ok(address),
        ensures
            r == self.value16(address),
    {
        let mapped_addr = self.map_address(address);

        /* there's a bug where if there's a page crossing, it reads from the bottom of the same
         * page */
        let in_page_addr = (mapped_addr % 256) as u8;
        let page_base = mapped_addr & !0xff;
        let m = mapped_addr;
        let w = in_page_addr.wrapping_add(1);
        proof { lemma_memory_bits(0, m, 0, 0, 0); }
        assert(w == (in_page_addr + 1) % 256);
        let hi_byte_addr = page_base + w as u16;
        let lo_byte = self.read_no_listen_no_map(mapped_addr) as u16;
        let hi_byte = self.read_no_listen_no_map(hi_byte_addr) as u16;
        proof { lemma_memory_bits(0, 0, lo_byte, hi_byte, 0); }
        lo_byte | (hi_byte << 8)
    }

    /* NB: this does not activate listeners! */
    pub fn copy_slice(&self, address: u16, size: usize, dest: &mut [u8])
        requires
            self.wf(),
            self.copy_ok(address, size as nat),
            old(dest)@.len() == size,
        ensures
            final(dest)@.len() == size,
            forall|i: int| 0 <= i < size ==> final(dest)@[i] == self.copy_value(address, i),
    {
        let mapped_addr = self.map_address(address);
        let mut i: usize = 0;
        while i < size
            invariant
                self.wf(),
                self.copy_ok(address, size as nat),
                mapped_addr == mapped_address(address),
                dest@.len() == size,
                0 <= i <= size,
                forall|j: int| 0 <= j < i ==> dest@[j] == self.copy_value(address, j),
            decreases size - i,
        {
            if mapped_addr < 0x4000 {
                dest[i] = self.memory[mapped_addr as usize + i];
            } else {
                assert(self.ppu.mapper.prg_readable((address + i) as u16));
                dest[i] = self.ppu.mapper.read_prg(address + i as u16);
            }
            i += 1;
        }
    }

    pub fn write(&mut self, address: u16, value: u8)
        requires
            old(self).wf(),
            old(self).write_ok(address, value),
        ensures
            final(self).wf(),
            old(self).write_result(address, value, *final(self)),
    {
        /* addresses that appear to be control registers for the Famicom Disk System; ignore */
        if address >= 0x4020 && address < 0x4100 {
            return;
        }
        /* high addresses go to the on-cartridge mapper */
        if address >= 0x4100 {
            self.ppu.mapper.write_prg(address, value);
        /* low addresses handled by on-board memory */
        } else {
            let mapped_addr = self.map_address(address);
            if CoreMemory::<M>::is_special_addr(mapped_addr) {
                match listener_at(&self.listeners, mapped_addr) {
                    Some(Listener::Ppu) => {
                        if mapped_addr == 0x4014 {
                            let base_addr = (value as u16) << 8;
                            proof { lemma_memory_bits(0, 0, 0, 0, value); }
                            let mut page = vec![0u8; OAM_SIZE];
                            self.copy_slice(base_addr, OAM_SIZE, page.as_mut_slice());
                            assert(page@ =~= self.dma_page(value));
                            PPUListener::new().oam_dma(&mut self.ppu, page.as_slice());
                        } else {
                            PPUListener::new().write(&mut self.ppu, mapped_addr, value);
                        }
                        return;
                    },
                    Some(Listener::Apu) => {
                        self.apu.write(mapped_addr, value);
                        return;
                    },
                    Some(Listener::Controller) => {
                        self.controller.write(mapped_addr, value);
                        return;
                    },
                    None => {},
                }
            }
            self.memory[mapped_addr as usize] = value;
        }
    }

    /// Registers a device at each of its addresses; none of them may be taken already.
    pub fn register_listener(&mut self, listener: Listener)
        requires
            old(self).wf(),
            forall|a: u16| device_address(listener, a) ==> !(#[trigger] old(self).table().dom().contains(a)),
        ensures
            final(self).wf(),
            forall|a: u16| #[trigger]
                final(self).table().dom().contains(a) <==> (old(self).table().dom().contains(a)
                    || device_address(listener, a)),
            forall|a: u16| device_address(listener, a) ==> #[trigger] final(self).table()[a] == listener,
            forall|a: u16|
                !device_address(listener, a) && old(self).table().dom().contains(a) ==> #[trigger]
                final(self).table()[a] == old(self).table()[a],
            *final(self) == (CoreMemory { listeners: final(self).listeners, ..*old(self) }),
    {
        let addrs = match listener {
            Listener::Ppu => PPUListener::new().get_addresses(),
            Listener::Apu => self.apu.get_addresses(),
            Listener::Controller => self.controller.get_addresses(),
        };
        assert(forall|a: u16| addrs@.contains(a) <==> device_address(listener, a));
        let ghost t0 = self.table();
        let mut i: usize = 0;
        while i < addrs.len()
            invariant
                self.memory@.len() == MEMORY_SIZE,
                self.ppu.wf(),
                self.apu.wf(),
                forall|a: u16| addrs@.contains(a) <==> device_address(listener, a),
                forall|a: u16| device_address(listener, a) ==> !(#[trigger] t0.dom().contains(a)),
                forall|a: u16| #[trigger] t0.dom().contains(a) ==> device_address(t0[a], a),
                0 <= i <= addrs.len(),
                forall|a: u16| #[trigger]
                    self.table().dom().contains(a) <==> (t0.dom().contains(a) || addrs@.subrange(
                        0,
                        i as int,
                    ).contains(a)),
                forall|a: u16|
                    addrs@.subrange(0, i as int).contains(a) ==> #[trigger] self.table()[a]
                        == listener,
                forall|a: u16|
                    !addrs@.subrange(0, i as int).contains(a) && t0.dom().contains(a) ==> #[trigger]
                    self.table()[a] == t0[a],
                *self == (CoreMemory { listeners: self.listeners, ..*old(self) }),
                t0 == old(self).table(),
            decreases addrs.len() - i,
        {
            let a = addrs[i];
            let ghost prev = self.table();
            insert_listener(&mut self.listeners, a, listener);
            proof {
                assert forall|x: u16| #[trigger]
                    self.table().dom().contains(x) <==> (t0.dom().contains(x) || addrs@.subrange(
                        0,
                        i + 1,
                    ).contains(x)) by {
                    lemma_prefix_step(addrs@, i as int, x);
                    assert(prev.dom().contains(x) == (t0.dom().contains(x) || addrs@.subrange(
                        0,
                        i as int,
                    ).contains(x)));
                }
                assert forall|x: u16|
                    addrs@.subrange(0, i + 1).contains(x) implies #[trigger] self.table()[x]
                        == listener by {
                    lemma_prefix_step(addrs@, i as int, x);
                }
                assert forall|x: u16|
                    !addrs@.subrange(0, i + 1).contains(x) && t0.dom().contains(x) implies #[trigger]
                    self.table()[x] == t0[x] by {
                    lemma_prefix_step(addrs@, i as int, x);
                    assert(prev[x] == t0[x]);
                }
            }
            i += 1;
        }
        proof {
            assert(addrs@.subrange(0, addrs@.len() as int) =~= addrs@);
            assert forall|a: u16| #[trigger] self.table().dom().contains(a) implies device_address(
                self.table()[a],
                a,
            ) by {
                if addrs@.contains(a) {
                } else {
                }
            }
        }
    }

    pub fn open_bus(&self) -> (r: u8)
        ensures
            r == 0,
    {
        /* TODO not how hardware behaves */
        0
    }

    /// One APU cycle. When the DMC wants a sample byte it is read from memory first (as a
    /// CPU read would); returns whether a mixed sample is due.
    pub fn apu_tick(&mut self) -> (sample_due: bool)
        requires
            old(self).wf(),
            old(self).apu.dmc.wants_byte() ==> old(self).read_ok(old(self).apu.dmc.current_address),
        ensures
            final(self).wf(),
            sample_due == (final(self).apu.apu_counter % 20 == 0),
            !old(self).apu.dmc.wants_byte() ==> *final(self) == (CoreMemory {
                apu: old(self).apu.ticked(0),
                ..*old(self)
            }),
            old(self).apu.dmc.wants_byte() ==> exists|b: u8|
                old(self).read_result(
                    old(self).apu.dmc.current_address,
                    b,
                    CoreMemory { apu: old(self).apu, ..*final(self) },
                ) && final(self).apu == old(self).apu.ticked(b),
    {
        let byte = if self.apu.dmc.needs_fetch() {
            let address = self.apu.dmc.current_address;
            self.read(address)
        } else {
            0
        };
        proof {
            if old(self).apu.dmc.wants_byte() {
                assert(self.apu == old(self).apu);
            }
        }
        let ghost before = *self;
        let due = self.apu.apu_tick(byte);
        assert(self.table() == before.table());
        due
    }
}


/// A byte written to RAM reads back at that address and at each of its mirrors (the 2kB
/// repeat every 0x800 bytes up to 0x1fff), and the read changes nothing.
pub proof fn lemma_ram_write_read<M: Mapper>(
    pre: CoreMemory<M>,
    a: u16,
    v: u8,
    mid: CoreMemory<M>,
    b: u16,
    r: u8,
    post: CoreMemory<M>,
)
    requires
        pre.wf(),
        a < 0x2000,
        b < 0x2000,
        a % 0x800 == b % 0x800,
        pre.write_result(a, v, mid),
        mid.read_result(b, r, post),
    ensures
        r == v,
        post == mid,
{
    assert(mapped_address(a) == a % 0x800);
    assert(mapped_address(b) == b % 0x800);
}

/// A write to RAM leaves every other RAM byte (and its mirrors) reading as before.
pub proof fn lemma_ram_write_keeps_others<M: Mapper>(
    pre: CoreMemory<M>,
    a: u16,
    v: u8,
    mid: CoreMemory<M>,
    b: u16,
    r: u8,
    post: CoreMemory<M>,
)
    requires
        pre.wf(),
        a < 0x2000,
        b < 0x2000,
        a % 0x800 != b % 0x800,
        pre.write_result(a, v, mid),
        mid.read_result(b, r, post),
    ensures
        r == pre.memory@[(b % 0x800) as int],
        post == mid,
{
    assert(mapped_address(a) == a % 0x800);
    assert(mapped_address(b) == b % 0x800);
}

} // verus!
