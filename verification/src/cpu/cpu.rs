use crate::cpu::controller::CONTROLLER_ADDRESS;
use crate::cpu::core_memory::{mapped_address, CoreMemory, MEMORY_SIZE};
use crate::cpu::listener_table::Listener;
use crate::cpu::status_flag::{flag_mask, with_flag, StatusFlag};
use crate::cpu::addressing_mode::wrap16;
use crate::cpu::instruction::decode;
use crate::cpu::operation::{realized, Operation};
use crate::mapper::Mapper;
use crate::processor::CPU_CLOCK_SPEED;
use vstd::prelude::*;

verus! {

/// Bit-level facts about addresses, the stack and the status byte.
proof fn lemma_cpu_bits(lo: u8, hi: u8, m: u16, st: u8)
    ensures
        ((hi as u16) << 8) + (lo as u16) == hi * 256 + lo,
        hi * 256 + lo < 0x10000,
        (m >> 8) as u8 == m / 256,
        (m & 0xff) as u8 == m % 256,
        (0x11u8 << 4u8) == 0x10,
        (st & !(1u8 << 4u8)) | (1u8 << 5u8) == (st & 0xef) | 0x20,
{
    assert((((hi as u16) << 8) + (lo as u16) == hi * 256 + lo) && (hi * 256 + lo < 0x10000) && ((m
        >> 8) as u8 == m / 256) && ((m & 0xff) as u8 == m % 256) && ((0x11u8 << 4u8) == 0x10) && ((st
        & !(1u8 << 4u8)) | (1u8 << 5u8) == (st & 0xef) | 0x20)) by (bit_vector);
}

pub const NMI_HANDLER_LOCATION: u16 = 0xfffa;

pub const INITIAL_PC_LOCATION: u16 = 0xfffc;

pub const IRQ_HANDLER_LOCATION: u16 = 0xfffe;

/// The OAMDMA register; a write to it stalls the CPU.
pub const OAMDMA_ADDRESS: u16 = 0x4014;

/// The cycles an OAM DMA transfer takes from the CPU.
pub const OAMDMA_CYCLES: u16 = 513;

/// The address of the little-endian byte pair `lo_byte`, `hi_byte`.
pub open spec fn addr_of(lo_byte: u8, hi_byte: u8) -> u16 {
    (hi_byte * 256 + lo_byte) as u16
}

/**
 * Converts a pair of bytes into a u16 to look up an address in memory.
 * The 6502 is little-endian, so this expects the low-order byte first.
 * addr(0xCD, 0xAB) returns 0xABCD.
 */
pub fn addr(lo_byte: u8, hi_byte: u8) -> (r: u16)
    ensures
        r == addr_of(lo_byte, hi_byte),
{
    let hi = hi_byte as u16;
    let lo = lo_byte as u16;
    proof { lemma_cpu_bits(lo_byte, hi_byte, 0, 0); }
    (hi << 8) + lo
}

/**
 * Zero-page address operations take a single-byte and result in an
 * address on the first page of memory, which has addresses that begin
 * with 0x00. If this is passed in 0xAB, it returns 0x00AB. In effect this
 * is just a cast, but wrapping it as a function makes the goal clearer.
 */
pub fn zero_page_addr(b1: u8) -> (r: u16)
    ensures
        r == b1,
{
    b1 as u16
}

/// `status` with the Zero and Negative flags describing `v`.
pub open spec fn with_zn(status: u8, v: u8) -> u8 {
    with_flag(with_flag(status, 0x02, v == 0), 0x80, v & 0x80 != 0)
}

/// The RAM address of the stack slot `k` entries below the stack pointer `s`.
pub open spec fn stack_slot(s: u8, k: int) -> int {
    0x100 + (s - k) % 256
}

/// The stack pointer moved down by `k` entries (up for negative `k`), wrapping.
pub open spec fn stack_moved(s: u8, k: int) -> u8 {
    ((s - k) % 256) as u8
}

/// `post` differs from `pre` only in RAM, which is now `ram`.
pub open spec fn only_ram_changed<M: Mapper>(pre: CoreMemory<M>, post: CoreMemory<M>, ram: Seq<u8>) -> bool {
    post.memory@ == ram && post == CoreMemory { memory: post.memory, ..pre }
}

/// A pop right after a push gives back the pushed byte and puts the stack pointer back.
pub proof fn lemma_push_pop(s: u8, ram: Seq<u8>, v: u8)
    requires
        ram.len() == MEMORY_SIZE,
    ensures
        ram.update(stack_slot(s, 0), v)[stack_slot(stack_moved(s, 1), -1)] == v,
        stack_moved(stack_moved(s, 1), -1) == s,
{
}

/// Popping an address right after pushing it (high byte first, as JSR and interrupts do)
/// gives the address back and puts the stack pointer back.
pub proof fn lemma_push_pop_address(s: u8, ram: Seq<u8>, loc: u16)
    requires
        ram.len() == MEMORY_SIZE,
    ensures
        ({
            let pushed = ram.update(stack_slot(s, 0), (loc / 256) as u8).update(
                stack_slot(s, 1),
                (loc % 256) as u8,
            );
            let s2 = stack_moved(s, 2);
            addr_of(pushed[stack_slot(s2, -1)], pushed[stack_slot(s2, -2)]) == loc
        }),
        stack_moved(stack_moved(s, 2), -2) == s,
{
    let pushed = ram.update(stack_slot(s, 0), (loc / 256) as u8).update(
        stack_slot(s, 1),
        (loc % 256) as u8,
    );
    let s2 = stack_moved(s, 2);
    assert(stack_slot(s2, -1) == stack_slot(s, 1));
    assert(stack_slot(s2, -2) == stack_slot(s, 0));
    assert(stack_slot(s, 1) != stack_slot(s, 0));
}

/// Reading the bytes at `pc` and the two addresses after it, in order, from `m0` gives
/// `op`, `b1`, `b2` and leaves `m`.
pub open spec fn fetched<M: Mapper>(m0: CoreMemory<M>, pc: u16, op: u8, b1: u8, b2: u8, m: CoreMemory<M>) -> bool {
    exists|m1: CoreMemory<M>, m2: CoreMemory<M>|
        #![trigger m0.read_result(pc, op, m1), m1.read_result(wrap16(pc as int, 1), b1, m2)]
        m0.read_result(pc, op, m1) && m1.read_result(wrap16(pc as int, 1), b1, m2)
            && m2.read_result(wrap16(pc as int, 2), b2, m)
}

/// A read leaves which device answers which address, and the mapper, as they were, so
/// whatever could be read can still be read.
pub proof fn lemma_read_keeps_access<M: Mapper>(pre: CoreMemory<M>, a: u16, r: u8, post: CoreMemory<M>)
    requires
        pre.read_result(a, r, post),
    ensures
        post.table() == pre.table(),
        post.ppu.mapper == pre.ppu.mapper,
        forall|x: u16| #[trigger] post.read_ok(x) == pre.read_ok(x),
        forall|x: u16| #[trigger] post.read16_ok(x) == pre.read16_ok(x),
{
}

/// The 6502 CPU: its registers and the memory it sees.
pub struct CPU<M: Mapper> {
    pub accumulator: u8,
    pub index_x: u8,
    pub index_y: u8,
    pub s_register: u8,
    pub program_counter: u16,
    pub status: u8,
    pub nmi_flag: bool,
    /// A write to OAMDMA happened; the next instruction takes `OAMDMA_CYCLES` longer.
    pub oam_dma_pending: bool,
    pub memory: CoreMemory<M>,
}

impl<M: Mapper> CPU<M> {
    pub open spec fn wf(&self) -> bool {
        self.memory.wf()
    }

    /// What a CPU write of `data` to `addr` does: the memory write, and a pending DMA stall
    /// when the address is OAMDMA.
    pub open spec fn write_result(&self, addr: u16, data: u8, post: CPU<M>) -> bool {
        &&& self.memory.write_result(addr, data, post.memory)
        &&& post == CPU {
            memory: post.memory,
            oam_dma_pending: self.oam_dma_pending || addr == OAMDMA_ADDRESS,
            ..*self
        }
    }

    /// Takes over `memory`, registers the controller, and starts at the address in the
    /// reset vector (0xfffc).
    pub fn new(memory: CoreMemory<M>) -> (r: CPU<M>)
        requires
            memory.wf(),
            !memory.table().dom().contains(CONTROLLER_ADDRESS),
            memory.read16_ok(INITIAL_PC_LOCATION),
        ensures
            r.wf(),
            r.accumulator == 0 && r.index_x == 0 && r.index_y == 0,
            r.s_register == 0xff,
            r.status == 0x10,
            !r.nmi_flag && !r.oam_dma_pending,
            r.program_counter == memory.value16(INITIAL_PC_LOCATION),
            r.memory == (CoreMemory { listeners: r.memory.listeners, ..memory }),
            r.memory.table() == memory.table().insert(CONTROLLER_ADDRESS, Listener::Controller),
    {
        let mut memory = memory;
        let ghost t0 = memory.table();
        memory.register_listener(Listener::Controller);
        assert(memory.table() =~= t0.insert(CONTROLLER_ADDRESS, Listener::Controller));
        let status: u8 = 0x11 << 4;
        proof { lemma_cpu_bits(0, 0, 0, 0); }
        let mut result = CPU {
            accumulator: 0x00,
            index_x: 0x00,
            index_y: 0x00,
            s_register: 0xff,
            program_counter: 0x00,
            status,
            nmi_flag: false,
            oam_dma_pending: false,
            memory,
        };
        /* set program counter to value in memory at this location */
        result.program_counter = result.read_mem16(INITIAL_PC_LOCATION);
        result
    }

    pub fn clock_speed(&self) -> (r: u64)
        ensures
            r == CPU_CLOCK_SPEED,
    {
        CPU_CLOCK_SPEED
    }

    pub fn set_nmi(&mut self, nmi_set: bool)
        ensures
            *final(self) == (CPU { nmi_flag: nmi_set, ..*old(self) }),
    {
        self.nmi_flag = nmi_set;
    }

    pub fn nmi_set(&self) -> (r: bool)
        ensures
            r == self.nmi_flag,
    {
        self.nmi_flag
    }

    pub fn update_flag(&mut self, flag: StatusFlag, new_val: bool)
        ensures
            *final(self) == (CPU {
                status: with_flag(old(self).status, flag_mask(flag), new_val),
                ..*old(self)
            }),
    {
        flag.update_bool(self, new_val);
    }

    /// Sets the Zero and Negative flags from `new_val`.
    pub fn update_zero_neg_flags(&mut self, new_val: u8)
        ensures
            *final(self) == (CPU { status: with_zn(old(self).status, new_val), ..*old(self) }),
    {
        self.update_flag(StatusFlag::Zero, new_val == 0);
        self.update_flag(StatusFlag::Negative, new_val & 0x80 != 0);
    }

    /// Pushes a byte: it goes to 0x100 plus the stack pointer, which then moves down
    /// (wrapping).
    pub fn push(&mut self, data: u8)
        requires
            old(self).wf(),
        ensures
            final(self).wf(),
            only_ram_changed(
                old(self).memory,
                final(self).memory,
                old(self).memory.memory@.update(stack_slot(old(self).s_register, 0), data),
            ),
            *final(self) == (CPU {
                memory: final(self).memory,
                s_register: stack_moved(old(self).s_register, 1),
                ..*old(self)
            }),
    {
        let a = addr(self.s_register, 0x01);
        let s = self.s_register;
        assert(mapped_address(a) == stack_slot(s, 0));
        self.write_mem(a, data);
        self.s_register = self.s_register.wrapping_sub(1);
    }

    /// Pushes an address, high byte first.
    pub fn push_memory_loc(&mut self, mem_loc: u16)
        requires
            old(self).wf(),
        ensures
            final(self).wf(),
            only_ram_changed(
                old(self).memory,
                final(self).memory,
                old(self).memory.memory@.update(
                    stack_slot(old(self).s_register, 0),
                    (mem_loc / 256) as u8,
                ).update(stack_slot(old(self).s_register, 1), (mem_loc % 256) as u8),
            ),
            *final(self) == (CPU {
                memory: final(self).memory,
                s_register: stack_moved(old(self).s_register, 2),
                ..*old(self)
            }),
    {
        proof { lemma_cpu_bits(0, 0, mem_loc, 0); }
        self.push((mem_loc >> 8) as u8);
        self.push((mem_loc & 0xff) as u8);
    }

    /// Pops a byte: the stack pointer moves up (wrapping) and the byte at 0x100 plus the
    /// stack pointer is returned.
    pub fn pop(&mut self) -> (r: u8)
        requires
            old(self).wf(),
        ensures
            r == old(self).memory.memory@[stack_slot(old(self).s_register, -1)],
            *final(self) == (CPU { s_register: stack_moved(old(self).s_register, -1), ..*old(self) }),
    {
        self.s_register = self.s_register.wrapping_add(1);
        let a = 0x0100 + self.s_register as u16;
        assert(mapped_address(a) == a);
        self.read_mem(a)
    }

    /// Pops an address, low byte first.
    pub fn pop_memory_loc(&mut self) -> (r: u16)
        requires
            old(self).wf(),
        ensures
            r == addr_of(
                old(self).memory.memory@[stack_slot(old(self).s_register, -1)],
                old(self).memory.memory@[stack_slot(old(self).s_register, -2)],
            ),
            *final(self) == (CPU { s_register: stack_moved(old(self).s_register, -2), ..*old(self) }),
    {
        let lower = self.pop();
        let upper = self.pop();

        addr(lower, upper)
    }

    /// A software interrupt (BRK): pushes the program counter plus `offset` and the
    /// status with the B flag and bit 5 set, disables interrupts, and jumps to the address
    /// in the IRQ vector (0xfffe).
    pub fn irq_with_offset(&mut self, offset: u8)
        requires
            old(self).wf(),
            old(self).memory.read16_ok(IRQ_HANDLER_LOCATION),
        ensures
            final(self).wf(),
            ({
                let pc = ((old(self).program_counter + offset) % 0x10000) as u16;
                let s = old(self).s_register;
                &&& only_ram_changed(
                    old(self).memory,
                    final(self).memory,
                    old(self).memory.memory@.update(stack_slot(s, 0), (pc / 256) as u8).update(
                        stack_slot(s, 1),
                        (pc % 256) as u8,
                    ).update(stack_slot(s, 2), old(self).status | 0x30),
                )
                &&& *final(self) == (CPU {
                    memory: final(self).memory,
                    s_register: stack_moved(s, 3),
                    status: old(self).status | 0x04,
                    program_counter: final(self).memory.value16(IRQ_HANDLER_LOCATION),
                    ..*old(self)
                })
            }),
    {
        self.push_memory_loc(self.program_counter.wrapping_add(offset as u16));
        self.push(self.status | 0x30);
        self.update_flag(StatusFlag::InterruptDisable, true);
        self.program_counter = self.read_mem16(IRQ_HANDLER_LOCATION);
    }

    pub fn addr_from_mem16(&self, lo_byte_addr: u16) -> (r: u16)
        requires
            self.wf(),
            self.memory.read16_ok(lo_byte_addr),
        ensures
            r == self.memory.value16(lo_byte_addr),
    {
        self.read_mem16(lo_byte_addr)
    }

    /// The non-maskable interrupt: pushes the program counter and the status (B flag
    /// clear, bit 5 set), clears the request, and jumps to the address in the NMI vector
    /// (0xfffa).
    pub open spec fn nmi_entered(self, post: CPU<M>) -> bool {
        let pc = self.program_counter;
        let s = self.s_register;
        &&& only_ram_changed(
            self.memory,
            post.memory,
            self.memory.memory@.update(stack_slot(s, 0), (pc / 256) as u8).update(
                stack_slot(s, 1),
                (pc % 256) as u8,
            ).update(stack_slot(s, 2), (self.status & 0xef) | 0x20),
        )
        &&& post == (CPU {
            memory: post.memory,
            s_register: stack_moved(s, 3),
            nmi_flag: false,
            program_counter: post.memory.value16(NMI_HANDLER_LOCATION),
            ..self
        })
    }

    pub fn trigger_nmi(&mut self)
        requires
            old(self).wf(),
            old(self).memory.read16_ok(NMI_HANDLER_LOCATION),
        ensures
            final(self).wf(),
            old(self).nmi_entered(*final(self)),
    {
        self.set_nmi(false);
        /* push PC onto stack */
        self.push_memory_loc(self.program_counter);
        /* push processor status register on stack */
        let st = self.status;
        proof { lemma_cpu_bits(0, 0, 0, st); }
        self.push((self.status & !(1 << 4)) | (1 << 5));
        /* read NMI handler address from 0xFFFA/0xFFFB and jump to that address*/
        self.program_counter = self.read_mem16(NMI_HANDLER_LOCATION);
    }

    pub fn write_mem(&mut self, addr: u16, data: u8)
        requires
            old(self).wf(),
            old(self).memory.write_ok(addr, data),
        ensures
            final(self).wf(),
            old(self).write_result(addr, data, *final(self)),
    {
        self.memory.write(addr, data);
        if addr == OAMDMA_ADDRESS {
            self.oam_dma_pending = true;
        }
    }

    pub fn read_mem(&mut self, addr: u16) -> (r: u8)
        requires
            old(self).wf(),
            old(self).memory.read_ok(addr),
        ensures
            final(self).wf(),
            old(self).memory.read_result(addr, r, final(self).memory),
            *final(self) == (CPU { memory: final(self).memory, ..*old(self) }),
    {
        self.memory.read(addr)
    }

    pub fn read_mem16(&self, addr: u16) -> (r: u16)
        requires
            self.wf(),
            self.memory.read16_ok(addr),
        ensures
            r == self.memory.value16(addr),
    {
        self.memory.read16(addr)
    }

    /// Sets the buttons held on the controller (A is bit 0, Right bit 7).
    pub fn set_key_source(&mut self, buttons: u8)
        ensures
            final(self).memory.controller.buttons == buttons,
            final(self).memory.controller.inputs_in_order@ == old(self).memory.controller.inputs_in_order@,
            final(self).memory.controller.strobe == old(self).memory.controller.strobe,
            *final(self) == (CPU {
                memory: CoreMemory { controller: final(self).memory.controller, ..old(self).memory },
                ..*old(self)
            }),
    {
        self.memory.controller.set_key_source(buttons);
    }

    /// The next instruction can be fetched and carried out: its three bytes (at the program
    /// counter and the two addresses after it, wrapping) can be read, and whatever they
    /// read as is a known opcode whose accesses are defined.
    pub open spec fn step_ok(self) -> bool {
        let pc = self.program_counter;
        &&& self.memory.read_ok(pc)
        &&& self.memory.read_ok(wrap16(pc as int, 1))
        &&& self.memory.read_ok(wrap16(pc as int, 2))
        &&& forall|op: u8, b1: u8, b2: u8, m: CoreMemory<M>| #[trigger]
            fetched(self.memory, pc, op, b1, b2, m) ==> decode(op) is Some && realized(
                op,
            ).instruction.apply_ok(CPU { memory: m, ..self }, realized(op).addr_mode, b1, b2)
    }

    /// One instruction: fetch, decode and carry out, returning its base cycle count plus
    /// `OAMDMA_CYCLES` when an OAMDMA transfer is pending (which it then clears).
    pub open spec fn step_result(self, post: CPU<M>, cycles: u16) -> bool {
        exists|op: u8, b1: u8, b2: u8, m: CoreMemory<M>, e: u16, mid: CPU<M>|
            #![trigger fetched(self.memory, self.program_counter, op, b1, b2, m), realized(op).realized_effect(CPU { memory: m, ..self }, b1, b2, mid, e)]
            fetched(self.memory, self.program_counter, op, b1, b2, m) && realized(
                op,
            ).realized_effect(CPU { memory: m, ..self }, b1, b2, mid, e) && post == (CPU {
                oam_dma_pending: false,
                ..mid
            }) && cycles == realized(op).cycles + if mid.oam_dma_pending {
                OAMDMA_CYCLES
            } else {
                0
            }
    }

    /* performs one operation, then returns how long it took, in cycles */
    /// A pending NMI is taken first; then one instruction runs (see `step_result`).
    #[verifier::spinoff_prover]
    #[verifier::rlimit(40)]
    pub fn transition(&mut self) -> (r: u16)
        requires
            old(self).wf(),
            old(self).nmi_flag ==> old(self).memory.read16_ok(NMI_HANDLER_LOCATION) && forall|c: CPU<M>|
                #[trigger] old(self).nmi_entered(c) ==> c.step_ok(),
            !old(self).nmi_flag ==> old(self).step_ok(),
        ensures
            final(self).wf(),
            old(self).nmi_flag ==> exists|c: CPU<M>| #[trigger]
                old(self).nmi_entered(c) && c.step_result(*final(self), r),
            !old(self).nmi_flag ==> old(self).step_result(*final(self), r),
    {
        if self.nmi_set() {
            self.trigger_nmi();
        }
        let ghost c = *self;
        let operation_loc = self.program_counter;
        let m0 = Ghost(self.memory);
        let opcode = self.read_mem(operation_loc);
        let m1 = Ghost(self.memory);
        proof {
            lemma_read_keeps_access(m0@, operation_loc, opcode, m1@);
        }
        let byte1 = self.read_mem(operation_loc.wrapping_add(1));
        let m2 = Ghost(self.memory);
        proof {
            lemma_read_keeps_access(m1@, operation_loc.wrapping_add(1), byte1, m2@);
        }
        let byte2 = self.read_mem(operation_loc.wrapping_add(2));
        assert(fetched(c.memory, c.program_counter, opcode, byte1, byte2, self.memory));
        let mut operation = Operation::operation_from_memory(opcode, byte1, byte2);
        operation.apply(self);
        let mut cycles = operation.realized_instruction.cycles;
        if self.oam_dma_pending {
            self.oam_dma_pending = false;
            cycles = cycles + OAMDMA_CYCLES;
        }
        cycles
    }
}

} // verus!
