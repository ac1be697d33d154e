use crate::cpu::core_memory::CoreMemory;
use crate::cpu::cpu::{addr, addr_of, zero_page_addr, CPU};
use crate::mapper::Mapper;
use vstd::prelude::*;

verus! {

/// How an instruction finds its operand.
#[derive(Debug, Clone, Copy, PartialEq, Eq, Structural)]
pub enum AddressingMode {
    Implicit,
    Accumulator,
    Immediate,
    ZeroPage,
    ZeroPageX,
    ZeroPageY,
    Relative,
    Absolute,
    AbsoluteX,
    AbsoluteY,
    Indirect,
    IndirectX,
    IndirectY,
}

/// The modes that name a memory address.
pub open spec fn has_address(mode: AddressingMode) -> bool {
    !(mode is Implicit || mode is Accumulator || mode is Immediate)
}

/// `base` plus `offset`, wrapping at 16 bits.
pub open spec fn wrap16(base: int, offset: int) -> u16 {
    ((base + offset) % 0x10000) as u16
}

/// `b` read as a two's-complement signed byte.
pub open spec fn signed_byte(b: u8) -> int {
    if b < 128 {
        b as int
    } else {
        b - 256
    }
}

/* behavior based on: https://www.nesdev.org/obelisk-6502-guide/addressing.html */
/// The address an addressing mode names for the operand bytes `b1`, `b2`. Zero-page
/// indexing wraps within the zero page; the indirect modes read a pointer, whose high
/// byte comes from the same page (the 6502's page-crossing bug).
pub open spec fn resolve<M: Mapper>(cpu: CPU<M>, mode: AddressingMode, b1: u8, b2: u8) -> u16 {
    match mode {
        AddressingMode::ZeroPage => b1 as u16,
        AddressingMode::ZeroPageX => ((b1 + cpu.index_x) % 256) as u16,
        AddressingMode::ZeroPageY => ((b1 + cpu.index_y) % 256) as u16,
        AddressingMode::Relative => wrap16(cpu.program_counter as int, signed_byte(b1)),
        AddressingMode::Absolute => addr_of(b1, b2),
        AddressingMode::AbsoluteX => wrap16(addr_of(b1, b2) as int, cpu.index_x as int),
        AddressingMode::AbsoluteY => wrap16(addr_of(b1, b2) as int, cpu.index_y as int),
        AddressingMode::Indirect => cpu.memory.value16(addr_of(b1, b2)),
        AddressingMode::IndirectX => cpu.memory.value16(((b1 + cpu.index_x) % 256) as u16),
        AddressingMode::IndirectY => wrap16(cpu.memory.value16(b1 as u16) as int, cpu.index_y as int),
        _ => 0,
    }
}

/// The address can be worked out: the mode names one, and an indirect mode's pointer
/// can be read.
pub open spec fn resolve_ok<M: Mapper>(cpu: CPU<M>, mode: AddressingMode, b1: u8, b2: u8) -> bool {
    &&& has_address(mode)
    &&& match mode {
        AddressingMode::Indirect => cpu.memory.read16_ok(addr_of(b1, b2)),
        AddressingMode::IndirectX => cpu.memory.read16_ok(((b1 + cpu.index_x) % 256) as u16),
        AddressingMode::IndirectY => cpu.memory.read16_ok(b1 as u16),
        _ => true,
    }
}

/// Reading the operand is defined.
pub open spec fn deref_ok<M: Mapper>(cpu: CPU<M>, mode: AddressingMode, b1: u8, b2: u8) -> bool {
    match mode {
        AddressingMode::Immediate => true,
        AddressingMode::Accumulator => true,
        _ => resolve_ok(cpu, mode, b1, b2) && cpu.memory.read_ok(resolve(cpu, mode, b1, b2)),
    }
}

/// Reading the operand gives `v` and leaves the memory as `post_memory`: the byte itself
/// for Immediate, the accumulator for Accumulator, otherwise a memory read.
pub open spec fn operand<M: Mapper>(
    cpu: CPU<M>,
    mode: AddressingMode,
    b1: u8,
    b2: u8,
    v: u8,
    post_memory: CoreMemory<M>,
) -> bool {
    match mode {
        AddressingMode::Immediate => v == b1 && post_memory == cpu.memory,
        AddressingMode::Accumulator => v == cpu.accumulator && post_memory == cpu.memory,
        _ => cpu.memory.read_result(resolve(cpu, mode, b1, b2), v, post_memory),
    }
}

/// The indexed modes whose reads take a cycle longer when indexing crosses a page: the
/// page of the unindexed address differs from the page of the operand's address.
pub open spec fn page_cross_extra<M: Mapper>(cpu: CPU<M>, mode: AddressingMode, b1: u8, b2: u8) -> u16 {
    let base: int = match mode {
        AddressingMode::AbsoluteX => addr_of(b1, b2) as int,
        AddressingMode::AbsoluteY => addr_of(b1, b2) as int,
        AddressingMode::IndirectY => cpu.memory.value16(b1 as u16) as int,
        _ => -1,
    };
    if base >= 0 && base / 256 != resolve(cpu, mode, b1, b2) / 256 {
        1
    } else {
        0
    }
}

/// Writing `v` through the mode is defined.
pub open spec fn store_ok<M: Mapper>(cpu: CPU<M>, mode: AddressingMode, b1: u8, b2: u8, v: u8) -> bool {
    match mode {
        AddressingMode::Accumulator => true,
        _ => resolve_ok(cpu, mode, b1, b2) && cpu.memory.write_ok(resolve(cpu, mode, b1, b2), v),
    }
}

/// Writing `v` through the mode: into the accumulator, or to memory.
pub open spec fn stored<M: Mapper>(
    cpu: CPU<M>,
    mode: AddressingMode,
    b1: u8,
    b2: u8,
    v: u8,
    post: CPU<M>,
) -> bool {
    match mode {
        AddressingMode::Accumulator => post == CPU { accumulator: v, ..cpu },
        _ => cpu.write_result(resolve(cpu, mode, b1, b2), v, post),
    }
}

impl AddressingMode {
    /// The address the mode names (see `resolve`).
    pub fn resolve_address<M: Mapper>(&self, cpu: &CPU<M>, byte1: u8, byte2: u8) -> (r: u16)
        requires
            cpu.wf(),
            resolve_ok(*cpu, *self, byte1, byte2),
        ensures
            r == resolve(*cpu, *self, byte1, byte2),
    {
        match self {
            AddressingMode::ZeroPage => zero_page_addr(byte1),
            AddressingMode::ZeroPageX => zero_page_addr(byte1.wrapping_add(cpu.index_x)),
            AddressingMode::ZeroPageY => zero_page_addr(byte1.wrapping_add(cpu.index_y)),
            AddressingMode::Relative => {
                let offset = byte1 as i8 as i16;
                assert(offset == signed_byte(byte1)) by (bit_vector)
                    requires
                        offset == byte1 as i8 as i16,
                ;
                let pc = cpu.program_counter;
                if offset >= 0 {
                    pc.wrapping_add(offset as u16)
                } else {
                    pc.wrapping_sub((0 - offset) as u16)
                }
            },
            AddressingMode::Absolute => addr(byte1, byte2),
            AddressingMode::AbsoluteX => addr(byte1, byte2).wrapping_add(cpu.index_x as u16),
            AddressingMode::AbsoluteY => addr(byte1, byte2).wrapping_add(cpu.index_y as u16),
            AddressingMode::Indirect =>
            /* only used for JMP */
            /* this implements a bug where this mode does not
             * correctly handle crossing page boundaries
             */
            {
                cpu.addr_from_mem16(addr(byte1, byte2))
            },
            AddressingMode::IndirectX => cpu.read_mem16(
                zero_page_addr(byte1.wrapping_add(cpu.index_x)),
            ),
            _ => cpu.read_mem16(zero_page_addr(byte1)).wrapping_add(cpu.index_y as u16),
        }
    }

    /// The number of bytes of an instruction in this mode, its opcode included.
    pub fn get_bytes(&self) -> (r: u8)
        ensures
            r == instruction_bytes(*self),
    {
        match self {
            AddressingMode::Implicit => 1,
            AddressingMode::Accumulator => 1,
            AddressingMode::Immediate => 2,
            AddressingMode::ZeroPage => 2,
            AddressingMode::ZeroPageX => 2,
            AddressingMode::ZeroPageY => 2,
            AddressingMode::Relative => 2,
            AddressingMode::Absolute => 3,
            AddressingMode::AbsoluteX => 3,
            AddressingMode::AbsoluteY => 3,
            AddressingMode::Indirect => 3,
            AddressingMode::IndirectX => 2,
            AddressingMode::IndirectY => 2,
        }
    }

    /* convenience method for when you have a u16 representing an entire memory address */
    pub fn resolve_address_u16<M: Mapper>(&self, cpu: &CPU<M>, addr: u16) -> (r: u16)
        requires
            cpu.wf(),
            resolve_ok(*cpu, *self, (addr % 256) as u8, (addr / 256) as u8),
        ensures
            r == resolve(*cpu, *self, (addr % 256) as u8, (addr / 256) as u8),
    {
        assert((addr & 0xff) as u8 == addr % 256 && (addr >> 8) as u8 == addr / 256) by (bit_vector);
        self.resolve_address(cpu, (addr & 0xff) as u8, (addr >> 8) as u8)
    }

    /// Reads the operand (see `operand`).
    pub fn deref<M: Mapper>(&self, cpu: &mut CPU<M>, byte1: u8, byte2: u8) -> (r: u8)
        requires
            old(cpu).wf(),
            deref_ok(*old(cpu), *self, byte1, byte2),
        ensures
            final(cpu).wf(),
            operand(*old(cpu), *self, byte1, byte2, r, final(cpu).memory),
            *final(cpu) == (CPU { memory: final(cpu).memory, ..*old(cpu) }),
    {
        match self {
            AddressingMode::Immediate => byte1,
            AddressingMode::Accumulator => cpu.accumulator,
            _ => {
                let address = self.resolve_address(cpu, byte1, byte2);
                cpu.read_mem(address)
            },
        }
    }

    /// Reads the operand, adding a cycle to `extra_cycles` when indexing crossed a page
    /// (see `page_cross_extra`).
    pub fn deref_check_boundary_cross<M: Mapper>(
        &self,
        cpu: &mut CPU<M>,
        byte1: u8,
        byte2: u8,
        extra_cycles: &mut u16,
    ) -> (r: u8)
        requires
            old(cpu).wf(),
            deref_ok(*old(cpu), *self, byte1, byte2),
            *old(extra_cycles) < 0xffff,
        ensures
            final(cpu).wf(),
            operand(*old(cpu), *self, byte1, byte2, r, final(cpu).memory),
            *final(cpu) == (CPU { memory: final(cpu).memory, ..*old(cpu) }),
            *final(extra_cycles) == *old(extra_cycles) + page_cross_extra(
                *old(cpu),
                *self,
                byte1,
                byte2,
            ),
    {
        match self {
            AddressingMode::AbsoluteX | AddressingMode::AbsoluteY | AddressingMode::IndirectY => {
                let base = match self {
                    AddressingMode::IndirectY => cpu.read_mem16(zero_page_addr(byte1)),
                    _ => addr(byte1, byte2),
                };
                let address = self.resolve_address(cpu, byte1, byte2);
                if base & 0xff00 != address & 0xff00 {
                    *extra_cycles = *extra_cycles + 1;
                }
                assert((base & 0xff00 != address & 0xff00) == (base / 256 != address / 256))
                    by (bit_vector);
                cpu.read_mem(address)
            },
            _ => self.deref(cpu, byte1, byte2),
        }
    }

    /// Writes `new_val` through the mode (see `stored`).
    pub fn write<M: Mapper>(&self, cpu: &mut CPU<M>, byte1: u8, byte2: u8, new_val: u8)
        requires
            old(cpu).wf(),
            store_ok(*old(cpu), *self, byte1, byte2, new_val),
        ensures
            final(cpu).wf(),
            stored(*old(cpu), *self, byte1, byte2, new_val, *final(cpu)),
    {
        match self {
            AddressingMode::Accumulator => cpu.accumulator = new_val,
            _ => {
                let resolved_addr = self.resolve_address(cpu, byte1, byte2);
                cpu.write_mem(resolved_addr, new_val)
            },
        }
    }
}

/// The length of an instruction in each mode.
pub open spec fn instruction_bytes(mode: AddressingMode) -> u8 {
    match mode {
        AddressingMode::Implicit => 1,
        AddressingMode::Accumulator => 1,
        AddressingMode::Immediate => 2,
        AddressingMode::ZeroPage => 2,
        AddressingMode::ZeroPageX => 2,
        AddressingMode::ZeroPageY => 2,
        AddressingMode::Relative => 2,
        AddressingMode::Absolute => 3,
        AddressingMode::AbsoluteX => 3,
        AddressingMode::AbsoluteY => 3,
        AddressingMode::Indirect => 3,
        AddressingMode::IndirectX => 2,
        AddressingMode::IndirectY => 2,
    }
}

} // verus!
