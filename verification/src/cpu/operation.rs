use crate::cpu::cpu::CPU;
use crate::cpu::instruction::{decode, from_opcode, RealizedInstruction};
use crate::mapper::Mapper;
use vstd::prelude::*;

verus! {

/// The instruction an opcode decodes to (see `decode`).
pub open spec fn realized(opcode: u8) -> RealizedInstruction {
    RealizedInstruction {
        instruction: decode(opcode).unwrap().0,
        addr_mode: decode(opcode).unwrap().1,
        cycles: decode(opcode).unwrap().2,
    }
}

/// A decoded instruction with its operand bytes, and the extra cycles it has taken.
#[derive(Debug)]
pub struct Operation {
    pub realized_instruction: RealizedInstruction,  /* TODO should this be a reference? */
    pub byte1: u8,
    pub byte2: u8,
    pub extra_cycles: u16,
}

impl Operation {
    /// Carries the instruction out, adding its extra cycles to the count.
    pub fn apply<M: Mapper>(&mut self, cpu: &mut CPU<M>)
        requires
            old(cpu).wf(),
            old(self).extra_cycles <= 0xfffd,
            old(self).realized_instruction.instruction.apply_ok(
                *old(cpu),
                old(self).realized_instruction.addr_mode,
                old(self).byte1,
                old(self).byte2,
            ),
        ensures
            final(cpu).wf(),
            exists|e: u16| #[trigger]
                old(self).realized_instruction.realized_effect(
                    *old(cpu),
                    old(self).byte1,
                    old(self).byte2,
                    *final(cpu),
                    e,
                ) && final(self).extra_cycles == old(self).extra_cycles + e,
            final(self).realized_instruction == old(self).realized_instruction,
            final(self).byte1 == old(self).byte1,
            final(self).byte2 == old(self).byte2,
    {
        let e = self.realized_instruction.apply(cpu, self.byte1, self.byte2);
        self.extra_cycles += e;
    }

    /// The base cycles plus the extra ones.
    pub fn cycles(&self) -> (r: u16)
        requires
            self.realized_instruction.cycles + self.extra_cycles <= 0xffff,
        ensures
            r == self.realized_instruction.cycles + self.extra_cycles,
    {
        self.realized_instruction.cycles + self.extra_cycles
    }

    /// Decodes an opcode with its operand bytes.
    pub fn operation_from_memory(opcode: u8, byte1: u8, byte2: u8) -> (r: Operation)
        requires
            decode(opcode) is Some,
        ensures
            r.realized_instruction == realized(opcode),
            r.realized_instruction.cycles <= 7,
            r.byte1 == byte1,
            r.byte2 == byte2,
            r.extra_cycles == 0,
    {
        Operation { realized_instruction: from_opcode(opcode), byte1, byte2, extra_cycles: 0 }
    }
}

} // verus!
