use crate::cpu::addressing_mode::{
    deref_ok, instruction_bytes, operand, page_cross_extra, resolve, resolve_ok, signed_byte, store_ok, stored,
    wrap16, AddressingMode,
};
use crate::cpu::core_memory::CoreMemory;
use crate::cpu::cpu::{
    addr_of, lemma_push_pop, only_ram_changed, stack_moved, stack_slot,
    with_zn, CPU, IRQ_HANDLER_LOCATION,
};
use crate::cpu::status_flag::{flag_mask, flag_set, lemma_flag_update, with_flag, StatusFlag};
use crate::mapper::Mapper;
use vstd::prelude::*;

verus! {

/// Bit-level facts that the instruction semantics rest on.
proof fn lemma_instruction_bits(val: u8, carry: u8, p: u16, q: u16, d: u8)
    ensures
        !val == 255 - val,
        val << 1 == (val * 2) % 256,
        val >> 1 == val / 2,
        carry <= 1 ==> carry | (val << 1) == (val * 2) % 256 + carry,
        carry <= 1 ==> (carry << 7) | (val >> 1) == carry * 128 + val / 2,
        val & !0x30u8 == val & 0xcf,
        (p & !0xffu16 != q & !0xffu16) == (p / 256 != q / 256),
        (d & 0x80 != 0) == (d >= 128),
        (val & 0x30) | ((val | 0x30) & 0xcf) == val,
        ((val | 0x04) & 0x30) | ((val | 0x30) & 0xcf) == val,
{
    assert((!val == 255 - val)
        && (val << 1 == (val * 2) % 256)
        && (val >> 1 == val / 2)
        && (carry <= 1 ==> carry | (val << 1) == (val * 2) % 256 + carry)
        && (carry <= 1 ==> (carry << 7) | (val >> 1) == carry * 128 + val / 2)
        && (val & !0x30u8 == val & 0xcf)
        && ((p & !0xffu16 != q & !0xffu16) == (p / 256 != q / 256))
        && ((d & 0x80 != 0) == (d >= 128))
        && ((val & 0x30) | ((val | 0x30) & 0xcf) == val)
        && (((val | 0x04) & 0x30) | ((val | 0x30) & 0xcf) == val)) by (bit_vector);
}

/// The official 6502 instructions.
#[derive(Debug, Clone, Copy, PartialEq, Eq, Structural)]
pub enum Instruction {
    /* load/store opcodes */
    LDA,  /* loads fixed value into A; can set zero flag */
    LDX,  /* loads value at address into X; can set zero flag */
    LDY,  /* loads fixed value into Y; can set zero flag */
    STA,  /* store value from A into address */
    STX,  /* stores value from X into address */
    STY,  /* stores value from Y into address */
    /* transfer opcodes */
    TAX,  /* transfer value from A into X; can set zero flag */
    TAY,  /* transfer value from A into Y; can set zero flag */
    TSX,  /* transfer value from Stack Pointer to X; can set zero flag */
    TXS,  /* Transfer X to Stack Pointer */
    TXA,  /* transfer value from X into A; can set zero flag */
    TYA,  /* transfer value from Y into A; can set zero flag */
    /* comparisons */
    CMP,  /* Compare A */
    CPX,  /* Compare X */
    CPY,  /* Compare Y */
    /* branch codes */
    BCC,  /* Branch if Carry Clear */
    BCS,  /* Branch if Carry Set */
    BEQ,  /* Branch if Equal */
    BMI,  /* Branch if Minus */
    BNE,  /* Branch if Not Equal */
    BPL,  /* Branch if Plus */
    BVC,  /* Branch if Overflow Clear */
    BVS,  /* Branch if Overflow Set */
    /* increment/decrement locations */
    DEC,  /* Decrement Memory */
    DEX,  /* Decrement X */
    DEY,  /* Decrement Y */
    INC,  /* Increment Memory */
    INX,  /* Increment X */
    INY,  /* Increment Y */
    /* bitwise operators */
    AND,  /* Bitwise AND */
    ASL,  /* Arithmetic Shift Left */
    BIT,  /* Bit Test */
    EOR,  /* Bitwise XOR */
    LSR,  /* Logical Shift Right */
    ORA,  /* Bitwise OR */
    /* arithmetic */
    ADC,  /* Add With Carry */
    SBC,  /* Subtract With Carry */
    /* rotates */
    ROL,  /* Rotate Left */
    ROR,  /* Rotate Right */
    /* clear & set flags */
    CLC,  /* Clear Carry */
    CLD,  /* Clear Decimal */
    CLI,  /* Clear Interrupt Disable */
    CLV,  /* Clear Overflow */
    SEC,  /* Set Carry Flag */
    SED,  /* Set Decimal Flag */
    SEI,  /* Set Interrupt Disable */
    /* stack operations */
    PHA,  /* Push A */
    PHP,  /* Push Processor Status */
    PLA,  /* Pull A */
    PLP,  /* Pull Processor Status */
    /* jumps */
    JMP,  /* Jump */
    JSR,  /* Jump to Subroutine */
    RTS,  /* Return from Subroutine */
    RTI,  /* Return from Interrupt */
    /* others */
    BRK,  /* Break (software IRQ) */
    NOP,  /* No-op */
}

/// The carry flag as 0 or 1.
pub open spec fn carry_of(status: u8) -> u8 {
    if flag_set(status, StatusFlag::Carry) {
        1
    } else {
        0
    }
}

/// `a + b + carry` in eight bits.
pub open spec fn adc_result(a: u8, b: u8, carry: u8) -> u8 {
    ((a + b + carry) % 256) as u8
}

/// The status after adding `b` and `carry` to the accumulator `a`: Zero and Negative from
/// the result, Carry when the sum exceeds 255, Overflow when the result's sign differs
/// from the signs of both operands.
pub open spec fn adc_status(status: u8, a: u8, b: u8, carry: u8) -> u8 {
    let r = adc_result(a, b, carry);
    with_flag(
        with_flag(with_zn(status, r), 0x01, a + b + carry > 255),
        0x40,
        (r ^ a) & (r ^ b) & 0x80 != 0,
    )
}

/// The status after comparing register value `r` with `v`: Carry when `r >= v`, Zero when
/// equal, Negative from bit 7 of `r - v` (wrapping).
pub open spec fn compare_status(status: u8, r: u8, v: u8) -> u8 {
    with_flag(
        with_flag(with_flag(status, 0x01, r >= v), 0x02, r == v),
        0x80,
        (r - v + 256) % 256 >= 128,
    )
}

proof fn lemma_adc_bits(a: u8, b: u8, carry: u8)
    ensures
        carry <= 1 ==> (((((a + b + carry) % 256) as u8 ^ a) & (((a + b + carry) % 256) as u8 ^ b)
            & 0x80 != 0) == ((a < 128 && b < 128 && a + b + carry >= 128) || (a >= 128 && b >= 128
            && a + b + carry < 384))),
        (((a + b + carry) % 256) as u8 & 0x80 != 0) == (((a + b + carry) % 256) as u8 >= 128),
{
    assert((carry <= 1 ==> (((((a + b + carry) % 256) as u8 ^ a) & (((a + b + carry) % 256) as u8
        ^ b) & 0x80 != 0) == ((a < 128 && b < 128 && a + b + carry >= 128) || (a >= 128 && b >= 128
        && a + b + carry < 384)))) && ((((a + b + carry) % 256) as u8 & 0x80 != 0) == (((a + b
        + carry) % 256) as u8 >= 128))) by (bit_vector);
}

/// The flags a status byte gets from four successive updates, one for each of Zero,
/// Negative, Carry and the fourth flag, in that order.
proof fn lemma_four_updates(
    status: u8,
    z: bool,
    n: bool,
    c: bool,
    f: StatusFlag,
    fv: bool,
    other: StatusFlag,
)
    requires
        f != StatusFlag::Zero && f != StatusFlag::Negative && f != StatusFlag::Carry,
    ensures
        ({
            let s = with_flag(
                with_flag(with_flag(with_flag(status, 0x02, z), 0x80, n), 0x01, c),
                flag_mask(f),
                fv,
            );
            &&& flag_set(s, StatusFlag::Zero) == z
            &&& flag_set(s, StatusFlag::Negative) == n
            &&& flag_set(s, StatusFlag::Carry) == c
            &&& flag_set(s, f) == fv
            &&& (other != StatusFlag::Zero && other != StatusFlag::Negative && other
                != StatusFlag::Carry && other != f ==> flag_set(s, other) == flag_set(status, other))
        }),
{
    let s1 = with_flag(status, 0x02, z);
    let s2 = with_flag(s1, 0x80, n);
    let s3 = with_flag(s2, 0x01, c);
    let flags = seq![StatusFlag::Zero, StatusFlag::Negative, StatusFlag::Carry, f, other];
    assert forall|i: int| 0 <= i < 5 implies {
        &&& flag_set(s1, #[trigger] flags[i]) == if flags[i] == StatusFlag::Zero {
            z
        } else {
            flag_set(status, flags[i])
        }
        &&& flag_set(s2, flags[i]) == if flags[i] == StatusFlag::Negative {
            n
        } else {
            flag_set(s1, flags[i])
        }
        &&& flag_set(s3, flags[i]) == if flags[i] == StatusFlag::Carry {
            c
        } else {
            flag_set(s2, flags[i])
        }
        &&& flag_set(with_flag(s3, flag_mask(f), fv), flags[i]) == if flags[i] == f {
            fv
        } else {
            flag_set(s3, flags[i])
        }
    } by {
        lemma_flag_update(status, StatusFlag::Zero, z, flags[i]);
        lemma_flag_update(s1, StatusFlag::Negative, n, flags[i]);
        lemma_flag_update(s2, StatusFlag::Carry, c, flags[i]);
        lemma_flag_update(s3, f, fv, flags[i]);
    }
    assert(flags[0] == StatusFlag::Zero && flags[1] == StatusFlag::Negative && flags[2]
        == StatusFlag::Carry && flags[3] == f && flags[4] == other);
}

/// ADC sets Carry exactly when the unsigned sum exceeds 255, Overflow exactly when the sum
/// of the operands read as signed bytes, plus the carry, leaves -128..=127, Zero when the
/// result is 0 and Negative when it is 128 or more; the other flags stay as they were.
pub proof fn lemma_adc_flags(status: u8, a: u8, b: u8, carry: u8, other: StatusFlag)
    requires
        carry <= 1,
    ensures
        flag_set(adc_status(status, a, b, carry), StatusFlag::Carry) == (a + b + carry > 255),
        flag_set(adc_status(status, a, b, carry), StatusFlag::Overflow) == !(-128 <= signed_byte(a)
            + signed_byte(b) + carry <= 127),
        flag_set(adc_status(status, a, b, carry), StatusFlag::Zero) == (adc_result(a, b, carry)
            == 0),
        flag_set(adc_status(status, a, b, carry), StatusFlag::Negative) == (adc_result(a, b, carry)
            >= 128),
        other != StatusFlag::Carry && other != StatusFlag::Overflow && other != StatusFlag::Zero
            && other != StatusFlag::Negative ==> flag_set(adc_status(status, a, b, carry), other)
            == flag_set(status, other),
{
    let r = adc_result(a, b, carry);
    lemma_adc_bits(a, b, carry);
    lemma_four_updates(
        status,
        r == 0,
        r & 0x80 != 0,
        a + b + carry > 255,
        StatusFlag::Overflow,
        (r ^ a) & (r ^ b) & 0x80 != 0,
        other,
    );
}

/// CMP, CPX and CPY set Carry exactly when the register is at least the operand, Zero
/// exactly when the two are equal, and Negative when their difference (wrapping) is 128 or
/// more; the other flags stay as they were.
pub proof fn lemma_compare_flags(status: u8, r: u8, v: u8, other: StatusFlag)
    ensures
        flag_set(compare_status(status, r, v), StatusFlag::Carry) == (r >= v),
        flag_set(compare_status(status, r, v), StatusFlag::Zero) == (r == v),
        flag_set(compare_status(status, r, v), StatusFlag::Negative) == ((r - v + 256) % 256
            >= 128),
        other != StatusFlag::Carry && other != StatusFlag::Zero && other != StatusFlag::Negative
            ==> flag_set(compare_status(status, r, v), other) == flag_set(status, other),
{
    let s1 = with_flag(status, 0x01, r >= v);
    let s2 = with_flag(s1, 0x02, r == v);
    let flags = seq![StatusFlag::Carry, StatusFlag::Zero, StatusFlag::Negative, other];
    assert forall|i: int| 0 <= i < 4 implies {
        &&& flag_set(s1, #[trigger] flags[i]) == if flags[i] == StatusFlag::Carry {
            r >= v
        } else {
            flag_set(status, flags[i])
        }
        &&& flag_set(s2, flags[i]) == if flags[i] == StatusFlag::Zero {
            r == v
        } else {
            flag_set(s1, flags[i])
        }
        &&& flag_set(compare_status(status, r, v), flags[i]) == if flags[i]
            == StatusFlag::Negative {
            (r - v + 256) % 256 >= 128
        } else {
            flag_set(s2, flags[i])
        }
    } by {
        lemma_flag_update(status, StatusFlag::Carry, r >= v, flags[i]);
        lemma_flag_update(s1, StatusFlag::Zero, r == v, flags[i]);
        lemma_flag_update(s2, StatusFlag::Negative, (r - v + 256) % 256 >= 128, flags[i]);
    }
    assert(flags[0] == StatusFlag::Carry && flags[1] == StatusFlag::Zero && flags[2]
        == StatusFlag::Negative && flags[3] == other);
}

/// The value a read-modify-write instruction writes back for the operand `v`.
pub open spec fn rmw_value(instr: Instruction, v: u8, carry: u8) -> u8 {
    match instr {
        Instruction::ASL => ((v * 2) % 256) as u8,
        Instruction::LSR => v / 2,
        Instruction::ROL => ((v * 2) % 256 + carry) as u8,
        Instruction::ROR => (carry * 128 + v / 2) as u8,
        Instruction::INC => ((v + 1) % 256) as u8,
        Instruction::DEC => ((v + 255) % 256) as u8,
        _ => v,
    }
}

/// The status a read-modify-write instruction leaves for the operand `v`.
pub open spec fn rmw_status(instr: Instruction, status: u8, v: u8) -> u8 {
    let r = rmw_value(instr, v, carry_of(status));
    match instr {
        Instruction::ASL => with_zn(with_flag(status, 0x01, v & 0x80 != 0), r),
        Instruction::LSR => with_flag(with_flag(with_flag(status, 0x01, v & 1 != 0), 0x02, r == 0), 0x80, false),
        Instruction::ROL => with_zn(with_flag(status, 0x01, v & 0x80 != 0), r),
        Instruction::ROR => with_zn(with_flag(status, 0x01, v & 1 != 0), r),
        _ => with_zn(status, r),
    }
}

/// The read-modify-write instructions.
pub open spec fn is_rmw(instr: Instruction) -> bool {
    instr is ASL || instr is LSR || instr is ROL || instr is ROR || instr is INC || instr is DEC
}

/// The flag and the value of it that makes each branch instruction branch.
pub open spec fn branch_condition(instr: Instruction) -> (StatusFlag, bool) {
    match instr {
        Instruction::BCC => (StatusFlag::Carry, false),
        Instruction::BCS => (StatusFlag::Carry, true),
        Instruction::BEQ => (StatusFlag::Zero, true),
        Instruction::BMI => (StatusFlag::Negative, true),
        Instruction::BNE => (StatusFlag::Zero, false),
        Instruction::BPL => (StatusFlag::Negative, false),
        Instruction::BVC => (StatusFlag::Overflow, false),
        _ => (StatusFlag::Overflow, true),
    }
}

pub open spec fn is_branch(instr: Instruction) -> bool {
    instr is BCC || instr is BCS || instr is BEQ || instr is BMI || instr is BNE || instr is BPL
        || instr is BVC || instr is BVS
}

/// A branch: when taken, the program counter moves by the signed offset `b1` (relative to
/// the instruction's own address), costing one extra cycle, two if it lands on another
/// page.
pub open spec fn branch_effect<M: Mapper>(
    pre: CPU<M>,
    flag: StatusFlag,
    is_positive: bool,
    b1: u8,
    post: CPU<M>,
    extra: u16,
) -> bool {
    let pc = pre.program_counter;
    let target = wrap16(pc as int, signed_byte(b1));
    if is_positive == flag_set(pre.status, flag) {
        &&& post == CPU { program_counter: target, ..pre }
        &&& extra == if pc / 256 != target / 256 {
            2u16
        } else {
            1u16
        }
    } else {
        post == pre && extra == 0
    }
}

/// Popping `k` bytes: the byte `j` places above the stack pointer, for `j` from 1.
pub open spec fn stack_byte<M: Mapper>(cpu: CPU<M>, j: int) -> u8 {
    cpu.memory.memory@[stack_slot(cpu.s_register, -j)]
}

impl Instruction {
    /// The accesses the instruction makes are defined for these operand bytes.
    pub open spec fn apply_ok<M: Mapper>(self, pre: CPU<M>, mode: AddressingMode, b1: u8, b2: u8) -> bool {
        match self {
            Instruction::LDA | Instruction::LDX | Instruction::LDY | Instruction::ADC
            | Instruction::SBC | Instruction::AND | Instruction::ORA | Instruction::EOR
            | Instruction::CMP | Instruction::CPX | Instruction::CPY | Instruction::BIT => deref_ok(
                pre,
                mode,
                b1,
                b2,
            ),
            Instruction::ASL | Instruction::LSR | Instruction::ROL | Instruction::ROR
            | Instruction::INC | Instruction::DEC => {
                &&& deref_ok(pre, mode, b1, b2)
                &&& forall|v: u8, m: CoreMemory<M>| #[trigger]
                    operand(pre, mode, b1, b2, v, m) ==> store_ok(
                        CPU { memory: m, ..pre },
                        mode,
                        b1,
                        b2,
                        rmw_value(self, v, carry_of(pre.status)),
                    )
            },
            Instruction::STA => store_ok(pre, mode, b1, b2, pre.accumulator),
            Instruction::STX => store_ok(pre, mode, b1, b2, pre.index_x),
            Instruction::STY => store_ok(pre, mode, b1, b2, pre.index_y),
            Instruction::JMP | Instruction::JSR => resolve_ok(pre, mode, b1, b2),
            Instruction::BRK => pre.memory.read16_ok(IRQ_HANDLER_LOCATION),
            _ => true,
        }
    }

    /// The instructions that read an operand into registers and flags.
    pub open spec fn read_effect<M: Mapper>(
        self,
        pre: CPU<M>,
        mode: AddressingMode,
        b1: u8,
        b2: u8,
        post: CPU<M>,
        extra: u16,
    ) -> bool {
        let a = pre.accumulator;
        let st = pre.status;
        let c = carry_of(st);
        let px = page_cross_extra(pre, mode, b1, b2);
        let s = pre.s_register;
        let ram = pre.memory.memory@;
        match self {
            Instruction::LDA => exists|v: u8, m: CoreMemory<M>| #[trigger]
                operand(pre, mode, b1, b2, v, m) && extra == px && post == (CPU {
                    accumulator: v,
                    status: with_zn(st, v),
                    memory: m,
                    ..pre
                }),
            Instruction::LDX => exists|v: u8, m: CoreMemory<M>| #[trigger]
                operand(pre, mode, b1, b2, v, m) && extra == px && post == (CPU {
                    index_x: v,
                    status: with_zn(st, v),
                    memory: m,
                    ..pre
                }),
            Instruction::LDY => exists|v: u8, m: CoreMemory<M>| #[trigger]
                operand(pre, mode, b1, b2, v, m) && extra == px && post == (CPU {
                    index_y: v,
                    status: with_zn(st, v),
                    memory: m,
                    ..pre
                }),
            Instruction::ADC => exists|v: u8, m: CoreMemory<M>| #[trigger]
                operand(pre, mode, b1, b2, v, m) && extra == px && post == (CPU {
                    accumulator: adc_result(a, v, c),
                    status: adc_status(st, a, v, c),
                    memory: m,
                    ..pre
                }),
            Instruction::SBC => exists|v: u8, m: CoreMemory<M>| #[trigger]
                operand(pre, mode, b1, b2, v, m) && extra == px && post == (CPU {
                    accumulator: adc_result(a, (255 - v) as u8, c),
                    status: adc_status(st, a, (255 - v) as u8, c),
                    memory: m,
                    ..pre
                }),
            Instruction::AND => exists|v: u8, m: CoreMemory<M>| #[trigger]
                operand(pre, mode, b1, b2, v, m) && extra == px && post == (CPU {
                    accumulator: a & v,
                    status: with_zn(st, a & v),
                    memory: m,
                    ..pre
                }),
            Instruction::ORA => exists|v: u8, m: CoreMemory<M>| #[trigger]
                operand(pre, mode, b1, b2, v, m) && extra == px && post == (CPU {
                    accumulator: a | v,
                    status: with_zn(st, a | v),
                    memory: m,
                    ..pre
                }),
            Instruction::EOR => exists|v: u8, m: CoreMemory<M>| #[trigger]
                operand(pre, mode, b1, b2, v, m) && extra == px && post == (CPU {
                    accumulator: a ^ v,
                    status: with_zn(st, a ^ v),
                    memory: m,
                    ..pre
                }),
            Instruction::CMP => exists|v: u8, m: CoreMemory<M>| #[trigger]
                operand(pre, mode, b1, b2, v, m) && extra == px && post == (CPU {
                    status: compare_status(st, a, v),
                    memory: m,
                    ..pre
                }),
            Instruction::CPX => exists|v: u8, m: CoreMemory<M>| #[trigger]
                operand(pre, mode, b1, b2, v, m) && extra == px && post == (CPU {
                    status: compare_status(st, pre.index_x, v),
                    memory: m,
                    ..pre
                }),
            Instruction::CPY => exists|v: u8, m: CoreMemory<M>| #[trigger]
                operand(pre, mode, b1, b2, v, m) && extra == px && post == (CPU {
                    status: compare_status(st, pre.index_y, v),
                    memory: m,
                    ..pre
                }),
            Instruction::BIT => exists|v: u8, m: CoreMemory<M>| #[trigger]
                operand(pre, mode, b1, b2, v, m) && extra == 0 && post == (CPU {
                    status: with_flag(
                        with_flag(with_flag(st, 0x02, a & v == 0), 0x40, v & 0x40 != 0),
                        0x80,
                        v & 0x80 != 0,
                    ),
                    memory: m,
                    ..pre
                }),
            _ => false,
        }
    }

    /// The read-modify-write instructions.
    pub open spec fn rmw_effect<M: Mapper>(
        self,
        pre: CPU<M>,
        mode: AddressingMode,
        b1: u8,
        b2: u8,
        post: CPU<M>,
        extra: u16,
    ) -> bool {
        let a = pre.accumulator;
        let st = pre.status;
        let c = carry_of(st);
        let px = page_cross_extra(pre, mode, b1, b2);
        let s = pre.s_register;
        let ram = pre.memory.memory@;
        match self {
            Instruction::ASL | Instruction::LSR | Instruction::ROL | Instruction::ROR
            | Instruction::INC | Instruction::DEC => exists|v: u8, m: CoreMemory<M>| #[trigger]
                operand(pre, mode, b1, b2, v, m) && extra == 0 && stored(
                    CPU { memory: m, status: rmw_status(self, st, v), ..pre },
                    mode,
                    b1,
                    b2,
                    rmw_value(self, v, c),
                    post,
                ),
            _ => false,
        }
    }

    /// The stores.
    pub open spec fn store_effect<M: Mapper>(
        self,
        pre: CPU<M>,
        mode: AddressingMode,
        b1: u8,
        b2: u8,
        post: CPU<M>,
        extra: u16,
    ) -> bool {
        let a = pre.accumulator;
        let st = pre.status;
        let c = carry_of(st);
        let px = page_cross_extra(pre, mode, b1, b2);
        let s = pre.s_register;
        let ram = pre.memory.memory@;
        match self {
            Instruction::STA => stored(pre, mode, b1, b2, a, post) && extra == 0,
            Instruction::STX => stored(pre, mode, b1, b2, pre.index_x, post) && extra == 0,
            Instruction::STY => stored(pre, mode, b1, b2, pre.index_y, post) && extra == 0,
            _ => false,
        }
    }

    /// The instructions that set or clear a flag.
    pub open spec fn flag_effect<M: Mapper>(
        self,
        pre: CPU<M>,
        mode: AddressingMode,
        b1: u8,
        b2: u8,
        post: CPU<M>,
        extra: u16,
    ) -> bool {
        let a = pre.accumulator;
        let st = pre.status;
        let c = carry_of(st);
        let px = page_cross_extra(pre, mode, b1, b2);
        let s = pre.s_register;
        let ram = pre.memory.memory@;
        match self {
            Instruction::CLC => post == (CPU { status: with_flag(st, 0x01, false), ..pre }) && extra == 0,
            Instruction::CLD => post == (CPU { status: with_flag(st, 0x08, false), ..pre }) && extra == 0,
            Instruction::CLI => post == (CPU { status: with_flag(st, 0x04, false), ..pre }) && extra == 0,
            Instruction::CLV => post == (CPU { status: with_flag(st, 0x40, false), ..pre }) && extra == 0,
            Instruction::SEC => post == (CPU { status: with_flag(st, 0x01, true), ..pre }) && extra == 0,
            Instruction::SED => post == (CPU { status: with_flag(st, 0x08, true), ..pre }) && extra == 0,
            Instruction::SEI => post == (CPU { status: with_flag(st, 0x04, true), ..pre }) && extra == 0,
            _ => false,
        }
    }

    /// The index increments and decrements.
    pub open spec fn index_effect<M: Mapper>(
        self,
        pre: CPU<M>,
        mode: AddressingMode,
        b1: u8,
        b2: u8,
        post: CPU<M>,
        extra: u16,
    ) -> bool {
        let a = pre.accumulator;
        let st = pre.status;
        let c = carry_of(st);
        let px = page_cross_extra(pre, mode, b1, b2);
        let s = pre.s_register;
        let ram = pre.memory.memory@;
        match self {
            Instruction::DEX => {
                let x = ((pre.index_x + 255) % 256) as u8;
                post == (CPU { index_x: x, status: with_zn(st, x), ..pre }) && extra == 0
            },
            Instruction::DEY => {
                let y = ((pre.index_y + 255) % 256) as u8;
                post == (CPU { index_y: y, status: with_zn(st, y), ..pre }) && extra == 0
            },
            Instruction::INX => {
                let x = ((pre.index_x + 1) % 256) as u8;
                post == (CPU { index_x: x, status: with_zn(st, x), ..pre }) && extra == 0
            },
            Instruction::INY => {
                let y = ((pre.index_y + 1) % 256) as u8;
                post == (CPU { index_y: y, status: with_zn(st, y), ..pre }) && extra == 0
            },
            _ => false,
        }
    }

    /// The register transfers, and NOP.
    pub open spec fn transfer_effect<M: Mapper>(
        self,
        pre: CPU<M>,
        mode: AddressingMode,
        b1: u8,
        b2: u8,
        post: CPU<M>,
        extra: u16,
    ) -> bool {
        let a = pre.accumulator;
        let st = pre.status;
        let c = carry_of(st);
        let px = page_cross_extra(pre, mode, b1, b2);
        let s = pre.s_register;
        let ram = pre.memory.memory@;
        match self {
            Instruction::TAX => post == (CPU { index_x: a, status: with_zn(st, a), ..pre }) && extra == 0,
            Instruction::TAY => post == (CPU { index_y: a, status: with_zn(st, a), ..pre }) && extra == 0,
            Instruction::TSX => post == (CPU { index_x: s, status: with_zn(st, s), ..pre }) && extra == 0,
            Instruction::TXA => post == (CPU {
                accumulator: pre.index_x,
                status: with_zn(st, pre.index_x),
                ..pre
            }) && extra == 0,
            /* TXS doesn't update flags */
            Instruction::TXS => post == (CPU { s_register: pre.index_x, ..pre }) && extra == 0,
            Instruction::TYA => post == (CPU {
                accumulator: pre.index_y,
                status: with_zn(st, pre.index_y),
                ..pre
            }) && extra == 0,
            Instruction::NOP => post == pre && extra == 0,
            _ => false,
        }
    }

    /// The stack operations, jumps, returns and BRK.
    pub open spec fn control_effect<M: Mapper>(
        self,
        pre: CPU<M>,
        mode: AddressingMode,
        b1: u8,
        b2: u8,
        post: CPU<M>,
        extra: u16,
    ) -> bool {
        let a = pre.accumulator;
        let st = pre.status;
        let c = carry_of(st);
        let px = page_cross_extra(pre, mode, b1, b2);
        let s = pre.s_register;
        let ram = pre.memory.memory@;
        match self {
            Instruction::PHA => {
                &&& only_ram_changed(pre.memory, post.memory, ram.update(stack_slot(s, 0), a))
                &&& post == (CPU { memory: post.memory, s_register: stack_moved(s, 1), ..pre })
                &&& extra == 0
            },
            /* the status is pushed with the B flag (bit 4) and bit 5 set */
            Instruction::PHP => {
                &&& only_ram_changed(pre.memory, post.memory, ram.update(stack_slot(s, 0), st | 0x30))
                &&& post == (CPU { memory: post.memory, s_register: stack_moved(s, 1), ..pre })
                &&& extra == 0
            },
            Instruction::PLA => {
                let v = stack_byte(pre, 1);
                post == (CPU { accumulator: v, status: with_zn(st, v), s_register: stack_moved(s, -1), ..pre })
                    && extra == 0
            },
            /* bits 4 and 5 of the status are not pulled */
            Instruction::PLP => post == (CPU {
                status: (st & 0x30) | (stack_byte(pre, 1) & 0xcf),
                s_register: stack_moved(s, -1),
                ..pre
            }) && extra == 0,
            Instruction::JMP => post == (CPU { program_counter: resolve(pre, mode, b1, b2), ..pre }) && extra == 0,
            /* the address of the instruction's last byte is pushed */
            Instruction::JSR => {
                let ret = wrap16(pre.program_counter as int, 2);
                &&& only_ram_changed(
                    pre.memory,
                    post.memory,
                    ram.update(stack_slot(s, 0), (ret / 256) as u8).update(stack_slot(s, 1), (ret % 256) as u8),
                )
                &&& post == (CPU {
                    memory: post.memory,
                    s_register: stack_moved(s, 2),
                    program_counter: resolve(CPU { memory: post.memory, ..pre }, mode, b1, b2),
                    ..pre
                })
                &&& extra == 0
            },
            Instruction::RTS => post == (CPU {
                program_counter: wrap16(addr_of(stack_byte(pre, 1), stack_byte(pre, 2)) as int, 1),
                s_register: stack_moved(s, -2),
                ..pre
            }) && extra == 0,
            Instruction::RTI => post == (CPU {
                status: (st & 0x30) | (stack_byte(pre, 1) & 0xcf),
                program_counter: addr_of(stack_byte(pre, 2), stack_byte(pre, 3)),
                s_register: stack_moved(s, -3),
                ..pre
            }) && extra == 0,
            /* a software interrupt; the return address skips the byte after BRK */
            Instruction::BRK => {
                let ret = wrap16(pre.program_counter as int, 2);
                &&& only_ram_changed(
                    pre.memory,
                    post.memory,
                    ram.update(stack_slot(s, 0), (ret / 256) as u8).update(
                        stack_slot(s, 1),
                        (ret % 256) as u8,
                    ).update(stack_slot(s, 2), st | 0x30),
                )
                &&& post == (CPU {
                    memory: post.memory,
                    s_register: stack_moved(s, 3),
                    status: st | 0x04,
                    program_counter: post.memory.value16(IRQ_HANDLER_LOCATION),
                    ..pre
                })
                &&& extra == 0
            },
            _ => false,
        }
    }

    /// What the instruction does to the CPU (`post`) and how many cycles beyond its base
    /// count it takes (`extra`). The program counter is not advanced here.
    #[verifier::opaque]
    pub open spec fn effect<M: Mapper>(
        self,
        pre: CPU<M>,
        mode: AddressingMode,
        b1: u8,
        b2: u8,
        post: CPU<M>,
        extra: u16,
    ) -> bool {
        match self {
            Instruction::LDA | Instruction::LDX | Instruction::LDY | Instruction::ADC | Instruction::SBC | Instruction::AND | Instruction::ORA | Instruction::EOR | Instruction::CMP | Instruction::CPX | Instruction::CPY | Instruction::BIT => self.read_effect(pre, mode, b1, b2, post, extra),
            Instruction::ASL | Instruction::LSR | Instruction::ROL | Instruction::ROR | Instruction::INC | Instruction::DEC => self.rmw_effect(pre, mode, b1, b2, post, extra),
            Instruction::STA | Instruction::STX | Instruction::STY => self.store_effect(pre, mode, b1, b2, post, extra),
            Instruction::CLC | Instruction::CLD | Instruction::CLI | Instruction::CLV | Instruction::SEC | Instruction::SED | Instruction::SEI => self.flag_effect(pre, mode, b1, b2, post, extra),
            Instruction::DEX | Instruction::DEY | Instruction::INX | Instruction::INY => self.index_effect(pre, mode, b1, b2, post, extra),
            Instruction::TAX | Instruction::TAY | Instruction::TSX | Instruction::TXA | Instruction::TXS | Instruction::TYA | Instruction::NOP => self.transfer_effect(pre, mode, b1, b2, post, extra),
            Instruction::PHA | Instruction::PHP | Instruction::PLA | Instruction::PLP | Instruction::JMP | Instruction::JSR | Instruction::RTS | Instruction::RTI | Instruction::BRK => self.control_effect(pre, mode, b1, b2, post, extra),
            Instruction::BCC | Instruction::BCS | Instruction::BEQ | Instruction::BMI
            | Instruction::BNE | Instruction::BPL | Instruction::BVC | Instruction::BVS => branch_effect(
                pre,
                branch_condition(self).0,
                branch_condition(self).1,
                b1,
                post,
                extra,
            ),
        }
    }

    /// Carries out the instruction with the operand bytes `b1`, `b2`; returns the cycles
    /// it took beyond its base count (see `effect`).
    pub fn apply<M: Mapper>(&self, cpu: &mut CPU<M>, addr_mode: &AddressingMode, b1: u8, b2: u8) -> (r: u16)
        requires
            old(cpu).wf(),
            self.apply_ok(*old(cpu), *addr_mode, b1, b2),
        ensures
            r <= 2,
            final(cpu).wf(),
            self.effect(*old(cpu), *addr_mode, b1, b2, *final(cpu), r),
    {
        match self {
            Instruction::LDA | Instruction::LDX | Instruction::LDY | Instruction::ADC | Instruction::SBC | Instruction::AND | Instruction::ORA | Instruction::EOR | Instruction::CMP | Instruction::CPX | Instruction::CPY | Instruction::BIT => self.apply_read(cpu, addr_mode, b1, b2),
            Instruction::ASL | Instruction::LSR | Instruction::ROL | Instruction::ROR | Instruction::INC | Instruction::DEC => self.apply_rmw(cpu, addr_mode, b1, b2),
            Instruction::STA | Instruction::STX | Instruction::STY => self.apply_store(cpu, addr_mode, b1, b2),
            Instruction::BCC | Instruction::BCS | Instruction::BEQ | Instruction::BMI | Instruction::BNE | Instruction::BPL | Instruction::BVC | Instruction::BVS => self.apply_branch(cpu, addr_mode, b1, b2),
            Instruction::CLC | Instruction::CLD | Instruction::CLI | Instruction::CLV | Instruction::SEC | Instruction::SED | Instruction::SEI | Instruction::DEX | Instruction::DEY | Instruction::INX | Instruction::INY | Instruction::TAX | Instruction::TAY | Instruction::TSX | Instruction::TXA | Instruction::TXS | Instruction::TYA | Instruction::NOP => self.apply_register(cpu, addr_mode, b1, b2),
            Instruction::PHA | Instruction::PHP | Instruction::PLA | Instruction::PLP | Instruction::JMP | Instruction::JSR | Instruction::RTS | Instruction::RTI | Instruction::BRK => self.apply_control(cpu, addr_mode, b1, b2),
        }
    }

    /// `apply` for the instructions that reads its operand and updates registers and flags.
    fn apply_read<M: Mapper>(&self, cpu: &mut CPU<M>, addr_mode: &AddressingMode, b1: u8, b2: u8) -> (r: u16)
        requires
            old(cpu).wf(),
            self.apply_ok(*old(cpu), *addr_mode, b1, b2),
            *self is LDA || *self is LDX || *self is LDY || *self is ADC || *self is SBC || *self is AND || *self is ORA || *self is EOR || *self is CMP || *self is CPX || *self is CPY || *self is BIT,
        ensures
            r <= 2,
            final(cpu).wf(),
            self.effect(*old(cpu), *addr_mode, b1, b2, *final(cpu), r),
    {
        reveal(Instruction::effect);
        let mut extra_cycles: u16 = 0;
        match self {
            Instruction::LDA => {
                cpu.accumulator = addr_mode.deref_check_boundary_cross(cpu, b1, b2, &mut extra_cycles);
                cpu.update_zero_neg_flags(cpu.accumulator);
            },
            Instruction::LDX => {
                cpu.index_x = addr_mode.deref_check_boundary_cross(cpu, b1, b2, &mut extra_cycles);
                cpu.update_zero_neg_flags(cpu.index_x);
            },
            Instruction::LDY => {
                cpu.index_y = addr_mode.deref_check_boundary_cross(cpu, b1, b2, &mut extra_cycles);
                cpu.update_zero_neg_flags(cpu.index_y);
            },
            Instruction::ADC => {
                let val = addr_mode.deref_check_boundary_cross(cpu, b1, b2, &mut extra_cycles);
                let carry = StatusFlag::Carry.as_num(cpu);
                add_with_carry_and_update(cpu, val, carry);
            },
            Instruction::SBC => {
                let val = addr_mode.deref_check_boundary_cross(cpu, b1, b2, &mut extra_cycles);
                let carry = StatusFlag::Carry.as_num(cpu);
                proof { lemma_instruction_bits(val, 0, 0, 0, 0); }
                add_with_carry_and_update(cpu, !val, carry);
            },
            Instruction::AND => {
                let mem_val = addr_mode.deref_check_boundary_cross(cpu, b1, b2, &mut extra_cycles);
                cpu.accumulator = cpu.accumulator & mem_val;
                cpu.update_zero_neg_flags(cpu.accumulator);
            },
            Instruction::ORA => {
                cpu.accumulator |= addr_mode.deref_check_boundary_cross(cpu, b1, b2, &mut extra_cycles);
                cpu.update_zero_neg_flags(cpu.accumulator);
            },
            Instruction::EOR => {
                let mem_val = addr_mode.deref_check_boundary_cross(cpu, b1, b2, &mut extra_cycles);
                cpu.accumulator = cpu.accumulator ^ mem_val;
                cpu.update_zero_neg_flags(cpu.accumulator);
            },
            Instruction::CMP => {
                let a = cpu.accumulator;
                Self::compare(cpu, addr_mode, b1, b2, a, &mut extra_cycles);
            },
            Instruction::CPX => {
                let x = cpu.index_x;
                Self::compare(cpu, addr_mode, b1, b2, x, &mut extra_cycles);
            },
            Instruction::CPY => {
                let y = cpu.index_y;
                Self::compare(cpu, addr_mode, b1, b2, y, &mut extra_cycles);
            },
            Instruction::BIT => {
                let mem = addr_mode.deref(cpu, b1, b2);
                let val = cpu.accumulator & mem;
                cpu.update_flag(StatusFlag::Zero, val == 0);
                cpu.update_flag(StatusFlag::Overflow, mem & 0x40 != 0);
                cpu.update_flag(StatusFlag::Negative, mem & 0x80 != 0);
            },
            _ => {},
        }
        extra_cycles
    }

    /// `apply` for the read-modify-write instructions.
    fn apply_rmw<M: Mapper>(&self, cpu: &mut CPU<M>, addr_mode: &AddressingMode, b1: u8, b2: u8) -> (r: u16)
        requires
            old(cpu).wf(),
            self.apply_ok(*old(cpu), *addr_mode, b1, b2),
            is_rmw(*self),
        ensures
            r <= 2,
            final(cpu).wf(),
            self.effect(*old(cpu), *addr_mode, b1, b2, *final(cpu), r),
    {
        match self {
            Instruction::ASL => self.apply_asl(cpu, addr_mode, b1, b2),
            Instruction::LSR => self.apply_lsr(cpu, addr_mode, b1, b2),
            Instruction::ROL => self.apply_rol(cpu, addr_mode, b1, b2),
            Instruction::ROR => self.apply_ror(cpu, addr_mode, b1, b2),
            Instruction::INC => self.apply_inc(cpu, addr_mode, b1, b2),
            _ => self.apply_dec(cpu, addr_mode, b1, b2),
        }
        0
    }

    #[verifier::rlimit(30)]
    fn apply_asl<M: Mapper>(&self, cpu: &mut CPU<M>, addr_mode: &AddressingMode, b1: u8, b2: u8)
        requires
            old(cpu).wf(),
            self.apply_ok(*old(cpu), *addr_mode, b1, b2),
            *self is ASL,
        ensures
            final(cpu).wf(),
            self.effect(*old(cpu), *addr_mode, b1, b2, *final(cpu), 0),
    {
        reveal(Instruction::effect);
        let old_val: u8 = addr_mode.deref(cpu, b1, b2);
        let result = old_val << 1;
        proof { lemma_instruction_bits(old_val, 0, 0, 0, 0); }
        cpu.update_flag(StatusFlag::Carry, old_val & 0x80 != 0);
        cpu.update_zero_neg_flags(result);
        addr_mode.write(cpu, b1, b2, result);
    }

    #[verifier::rlimit(30)]
    fn apply_lsr<M: Mapper>(&self, cpu: &mut CPU<M>, addr_mode: &AddressingMode, b1: u8, b2: u8)
        requires
            old(cpu).wf(),
            self.apply_ok(*old(cpu), *addr_mode, b1, b2),
            *self is LSR,
        ensures
            final(cpu).wf(),
            self.effect(*old(cpu), *addr_mode, b1, b2, *final(cpu), 0),
    {
        reveal(Instruction::effect);
        let val = addr_mode.deref(cpu, b1, b2);
        let new_val = val >> 1;
        proof { lemma_instruction_bits(val, 0, 0, 0, 0); }
        cpu.update_flag(StatusFlag::Carry, (val & 0x1) != 0);
        cpu.update_flag(StatusFlag::Zero, new_val == 0);
        cpu.update_flag(StatusFlag::Negative, false);
        addr_mode.write(cpu, b1, b2, new_val);
    }

    #[verifier::rlimit(30)]
    fn apply_rol<M: Mapper>(&self, cpu: &mut CPU<M>, addr_mode: &AddressingMode, b1: u8, b2: u8)
        requires
            old(cpu).wf(),
            self.apply_ok(*old(cpu), *addr_mode, b1, b2),
            *self is ROL,
        ensures
            final(cpu).wf(),
            self.effect(*old(cpu), *addr_mode, b1, b2, *final(cpu), 0),
    {
        reveal(Instruction::effect);
        let val = addr_mode.deref(cpu, b1, b2);
        let carry = StatusFlag::Carry.as_num(cpu);
        let result = carry | (val << 1);
        proof { lemma_instruction_bits(val, carry, 0, 0, 0); }
        cpu.update_flag(StatusFlag::Carry, val & 0x80 != 0);
        cpu.update_zero_neg_flags(result);
        addr_mode.write(cpu, b1, b2, result);
    }

    #[verifier::rlimit(30)]
    fn apply_ror<M: Mapper>(&self, cpu: &mut CPU<M>, addr_mode: &AddressingMode, b1: u8, b2: u8)
        requires
            old(cpu).wf(),
            self.apply_ok(*old(cpu), *addr_mode, b1, b2),
            *self is ROR,
        ensures
            final(cpu).wf(),
            self.effect(*old(cpu), *addr_mode, b1, b2, *final(cpu), 0),
    {
        reveal(Instruction::effect);
        let val = addr_mode.deref(cpu, b1, b2);
        let carry = StatusFlag::Carry.as_num(cpu);
        let result = (carry << 7) | (val >> 1);
        proof { lemma_instruction_bits(val, carry, 0, 0, 0); }
        cpu.update_flag(StatusFlag::Carry, val & 0x1 != 0);
        cpu.update_zero_neg_flags(result);
        addr_mode.write(cpu, b1, b2, result);
    }

    #[verifier::rlimit(30)]
    fn apply_inc<M: Mapper>(&self, cpu: &mut CPU<M>, addr_mode: &AddressingMode, b1: u8, b2: u8)
        requires
            old(cpu).wf(),
            self.apply_ok(*old(cpu), *addr_mode, b1, b2),
            *self is INC,
        ensures
            final(cpu).wf(),
            self.effect(*old(cpu), *addr_mode, b1, b2, *final(cpu), 0),
    {
        reveal(Instruction::effect);
        let old_val = addr_mode.deref(cpu, b1, b2);
        let new_val = old_val.wrapping_add(1);
        cpu.update_zero_neg_flags(new_val);
        addr_mode.write(cpu, b1, b2, new_val);
    }

    #[verifier::rlimit(30)]
    fn apply_dec<M: Mapper>(&self, cpu: &mut CPU<M>, addr_mode: &AddressingMode, b1: u8, b2: u8)
        requires
            old(cpu).wf(),
            self.apply_ok(*old(cpu), *addr_mode, b1, b2),
            *self is DEC,
        ensures
            final(cpu).wf(),
            self.effect(*old(cpu), *addr_mode, b1, b2, *final(cpu), 0),
    {
        reveal(Instruction::effect);
        let old_val = addr_mode.deref(cpu, b1, b2);
        let new_val = old_val.wrapping_sub(1);
        assert(new_val == rmw_value(Instruction::DEC, old_val, carry_of(old(cpu).status)));
        cpu.update_zero_neg_flags(new_val);
        addr_mode.write(cpu, b1, b2, new_val);
    }

    /// `apply` for the instructions that stores a register.
    fn apply_store<M: Mapper>(&self, cpu: &mut CPU<M>, addr_mode: &AddressingMode, b1: u8, b2: u8) -> (r: u16)
        requires
            old(cpu).wf(),
            self.apply_ok(*old(cpu), *addr_mode, b1, b2),
            *self is STA || *self is STX || *self is STY,
        ensures
            r <= 2,
            final(cpu).wf(),
            self.effect(*old(cpu), *addr_mode, b1, b2, *final(cpu), r),
    {
        reveal(Instruction::effect);
        let mut extra_cycles: u16 = 0;
        match self {
            Instruction::STA => {
                addr_mode.write(cpu, b1, b2, cpu.accumulator);
            },
            Instruction::STX => {
                addr_mode.write(cpu, b1, b2, cpu.index_x);
            },
            Instruction::STY => {
                addr_mode.write(cpu, b1, b2, cpu.index_y);
            },
            _ => {},
        }
        extra_cycles
    }

    /// `apply` for the instructions that branches on a flag.
    fn apply_branch<M: Mapper>(&self, cpu: &mut CPU<M>, addr_mode: &AddressingMode, b1: u8, b2: u8) -> (r: u16)
        requires
            old(cpu).wf(),
            self.apply_ok(*old(cpu), *addr_mode, b1, b2),
            *self is BCC || *self is BCS || *self is BEQ || *self is BMI || *self is BNE || *self is BPL || *self is BVC || *self is BVS,
        ensures
            r <= 2,
            final(cpu).wf(),
            self.effect(*old(cpu), *addr_mode, b1, b2, *final(cpu), r),
    {
        reveal(Instruction::effect);
        let mut extra_cycles: u16 = 0;
        match self {
            Instruction::BCC => {
                extra_cycles += Self::branch_instr(cpu, StatusFlag::Carry, false, b1);
            },
            Instruction::BCS => {
                extra_cycles += Self::branch_instr(cpu, StatusFlag::Carry, true, b1);
            },
            Instruction::BEQ => {
                extra_cycles += Self::branch_instr(cpu, StatusFlag::Zero, true, b1);
            },
            Instruction::BMI => {
                extra_cycles += Self::branch_instr(cpu, StatusFlag::Negative, true, b1);
            },
            Instruction::BNE => {
                extra_cycles += Self::branch_instr(cpu, StatusFlag::Zero, false, b1);
            },
            Instruction::BPL => {
                extra_cycles += Self::branch_instr(cpu, StatusFlag::Negative, false, b1);
            },
            Instruction::BVC => {
                extra_cycles += Self::branch_instr(cpu, StatusFlag::Overflow, false, b1);
            },
            Instruction::BVS => {
                extra_cycles += Self::branch_instr(cpu, StatusFlag::Overflow, true, b1);
            },
            _ => {},
        }
        extra_cycles
    }

    /// `apply` for the instructions that works on registers and flags only.
    #[verifier::rlimit(60)]
    fn apply_register<M: Mapper>(&self, cpu: &mut CPU<M>, addr_mode: &AddressingMode, b1: u8, b2: u8) -> (r: u16)
        requires
            old(cpu).wf(),
            self.apply_ok(*old(cpu), *addr_mode, b1, b2),
            *self is CLC || *self is CLD || *self is CLI || *self is CLV || *self is SEC || *self is SED || *self is SEI || *self is DEX || *self is DEY || *self is INX || *self is INY || *self is TAX || *self is TAY || *self is TSX || *self is TXA || *self is TXS || *self is TYA || *self is NOP,
        ensures
            r <= 2,
            final(cpu).wf(),
            self.effect(*old(cpu), *addr_mode, b1, b2, *final(cpu), r),
    {
        reveal(Instruction::effect);
        let mut extra_cycles: u16 = 0;
        match self {
            Instruction::CLC => {
                cpu.update_flag(StatusFlag::Carry, false);
            },
            Instruction::CLD => {
                cpu.update_flag(StatusFlag::Decimal, false);
            },
            Instruction::CLI => {
                /* TODO: The effect is delayed "one instruction".
                 * Does that mean one cycle, or until the next instruction?
                 * how to implement this?
                 */
                cpu.update_flag(StatusFlag::InterruptDisable, false);
            },
            Instruction::CLV => {
                cpu.update_flag(StatusFlag::Overflow, false);
            },
            Instruction::SEC => {
                StatusFlag::Carry.update_bool(cpu, true);
            },
            Instruction::SED => {
                StatusFlag::Decimal.update_bool(cpu, true);
            },
            Instruction::SEI => {
                /* TODO: The effect is delayed "one instruction".
                 * Does that mean one cycle, or until the next instruction?
                 * how to implement this?
                 */
                cpu.update_flag(StatusFlag::InterruptDisable, true);
            },
            Instruction::DEX => {
                cpu.index_x = cpu.index_x.wrapping_sub(1);
                cpu.update_zero_neg_flags(cpu.index_x);
            },
            Instruction::DEY => {
                cpu.index_y = cpu.index_y.wrapping_sub(1);
                cpu.update_zero_neg_flags(cpu.index_y);
            },
            Instruction::INX => {
                cpu.index_x = cpu.index_x.wrapping_add(1);
                cpu.update_zero_neg_flags(cpu.index_x);
            },
            Instruction::INY => {
                cpu.index_y = cpu.index_y.wrapping_add(1);
                cpu.update_zero_neg_flags(cpu.index_y);
            },
            Instruction::TAX => {
                cpu.index_x = cpu.accumulator;
                cpu.update_zero_neg_flags(cpu.index_x);
            },
            Instruction::TAY => {
                cpu.index_y = cpu.accumulator;
                cpu.update_zero_neg_flags(cpu.index_y);
            },
            Instruction::TSX => {
                cpu.index_x = cpu.s_register;
                cpu.update_zero_neg_flags(cpu.index_x);
            },
            Instruction::TXA => {
                cpu.accumulator = cpu.index_x;
                cpu.update_zero_neg_flags(cpu.accumulator);
            },
            Instruction::TXS => {
                cpu.s_register = cpu.index_x;
                /* doesn't update flags! multiple sources agree on this ? */
            },
            Instruction::TYA => {
                cpu.accumulator = cpu.index_y;
                cpu.update_zero_neg_flags(cpu.accumulator);
            },
            Instruction::NOP => {  /* nothing */
            },
            _ => {},
        }
        extra_cycles
    }

    /// `apply` for the instructions that use the stack or change the flow of control.
    fn apply_control<M: Mapper>(&self, cpu: &mut CPU<M>, addr_mode: &AddressingMode, b1: u8, b2: u8) -> (r: u16)
        requires
            old(cpu).wf(),
            self.apply_ok(*old(cpu), *addr_mode, b1, b2),
            *self is PHA || *self is PHP || *self is PLA || *self is PLP || *self is JMP || *self is JSR
                || *self is RTS || *self is RTI || *self is BRK,
        ensures
            r <= 2,
            final(cpu).wf(),
            self.effect(*old(cpu), *addr_mode, b1, b2, *final(cpu), r),
    {
        match self {
            Instruction::PHA | Instruction::PHP | Instruction::PLA | Instruction::PLP => self.apply_stack(cpu, addr_mode, b1, b2),
            _ => self.apply_flow(cpu, addr_mode, b1, b2),
        }
    }

    /// `apply` for the instructions that push or pull.
    #[verifier::rlimit(60)]
    fn apply_stack<M: Mapper>(&self, cpu: &mut CPU<M>, addr_mode: &AddressingMode, b1: u8, b2: u8) -> (r: u16)
        requires
            old(cpu).wf(),
            self.apply_ok(*old(cpu), *addr_mode, b1, b2),
            *self is PHA || *self is PHP || *self is PLA || *self is PLP,
        ensures
            r <= 2,
            final(cpu).wf(),
            self.effect(*old(cpu), *addr_mode, b1, b2, *final(cpu), r),
    {
        reveal(Instruction::effect);
        match self {
            Instruction::PHA => {
                cpu.push(cpu.accumulator);
            },
            Instruction::PHP => {
                /* pushes status onto the stack, with the 'B' flag (bit 4) and bit 5 on */
                cpu.push(cpu.status | 0x30);
            },
            Instruction::PLA => {
                cpu.accumulator = cpu.pop();
                cpu.update_zero_neg_flags(cpu.accumulator);
            },
            Instruction::PLP => {
                /* reads status from the stack, except for bits 4 and 5 */
                let val = cpu.pop();
                cpu.status = (cpu.status & 0x30) | (val & !0x30);
                proof { lemma_instruction_bits(val, 0, 0, 0, 0); }
                /* TODO: update to interrupt disable should be delayed one instruction */
            },
            _ => {},
        }
        0
    }

    /// `apply` for the instructions that jump, return or break.
    fn apply_flow<M: Mapper>(&self, cpu: &mut CPU<M>, addr_mode: &AddressingMode, b1: u8, b2: u8) -> (r: u16)
        requires
            old(cpu).wf(),
            self.apply_ok(*old(cpu), *addr_mode, b1, b2),
            *self is JMP || *self is JSR || *self is RTS || *self is RTI || *self is BRK,
        ensures
            r <= 2,
            final(cpu).wf(),
            self.effect(*old(cpu), *addr_mode, b1, b2, *final(cpu), r),
    {
        match self {
            Instruction::JMP | Instruction::JSR => self.apply_jump(cpu, addr_mode, b1, b2),
            Instruction::RTS | Instruction::RTI => self.apply_return(cpu, addr_mode, b1, b2),
            _ => self.apply_break(cpu, addr_mode, b1, b2),
        }
    }

    /// `apply` for the instructions that jump.
    #[verifier::rlimit(60)]
    fn apply_jump<M: Mapper>(&self, cpu: &mut CPU<M>, addr_mode: &AddressingMode, b1: u8, b2: u8) -> (r: u16)
        requires
            old(cpu).wf(),
            self.apply_ok(*old(cpu), *addr_mode, b1, b2),
            *self is JMP || *self is JSR,
        ensures
            r <= 2,
            final(cpu).wf(),
            self.effect(*old(cpu), *addr_mode, b1, b2, *final(cpu), r),
    {
        reveal(Instruction::effect);
        match self {
            Instruction::JMP => {
                cpu.program_counter = addr_mode.resolve_address(cpu, b1, b2);
            },
            Instruction::JSR => {
                cpu.push_memory_loc(cpu.program_counter.wrapping_add(2));
                cpu.program_counter = addr_mode.resolve_address(cpu, b1, b2);
            },
            _ => {},
        }
        0
    }

    /// `apply` for the instructions that return.
    #[verifier::rlimit(60)]
    fn apply_return<M: Mapper>(&self, cpu: &mut CPU<M>, addr_mode: &AddressingMode, b1: u8, b2: u8) -> (r: u16)
        requires
            old(cpu).wf(),
            self.apply_ok(*old(cpu), *addr_mode, b1, b2),
            *self is RTS || *self is RTI,
        ensures
            r <= 2,
            final(cpu).wf(),
            self.effect(*old(cpu), *addr_mode, b1, b2, *final(cpu), r),
    {
        reveal(Instruction::effect);
        match self {
            Instruction::RTS => {
                cpu.program_counter = cpu.pop_memory_loc().wrapping_add(1);
            },
            Instruction::RTI => {
                /* bits 4 and 5 of the status are kept */
                let val = cpu.pop();
                cpu.status = (cpu.status & 0x30) | (val & !0x30);
                proof { lemma_instruction_bits(val, 0, 0, 0, 0); }
                cpu.program_counter = cpu.pop_memory_loc();
            },
            _ => {},
        }
        0
    }

    /// `apply` for the instructions that break.
    #[verifier::rlimit(60)]
    fn apply_break<M: Mapper>(&self, cpu: &mut CPU<M>, addr_mode: &AddressingMode, b1: u8, b2: u8) -> (r: u16)
        requires
            old(cpu).wf(),
            self.apply_ok(*old(cpu), *addr_mode, b1, b2),
            *self is BRK,
        ensures
            r <= 2,
            final(cpu).wf(),
            self.effect(*old(cpu), *addr_mode, b1, b2, *final(cpu), r),
    {
        reveal(Instruction::effect);
        match self {
            Instruction::BRK => {
                cpu.irq_with_offset(2);
            },
            _ => {},
        }
        0
    }

    /// Branches when `flag` is `is_positive`; returns the extra cycles (see
    /// `branch_effect`).
    fn branch_instr<M: Mapper>(cpu: &mut CPU<M>, flag: StatusFlag, is_positive: bool, offset: u8) -> (r: u16)
        requires
            old(cpu).wf(),
        ensures
            final(cpu).wf(),
            branch_effect(*old(cpu), flag, is_positive, offset, *final(cpu), r),
    {
        if is_positive == flag.is_set(cpu) {
            let old_pc = cpu.program_counter;
            cpu.program_counter = AddressingMode::Relative.resolve_address(cpu, offset, 0);
            /* taking the branch costs a cycle; landing on another page costs another */
            let new_pc = cpu.program_counter;
            proof { lemma_instruction_bits(0, 0, old_pc, new_pc, 0); }
            if old_pc & !0xff != cpu.program_counter & !0xff {
                2
            } else {
                1
            }
        } else {
            0
        }
    }

    /// Compares `compare_val` with the operand (see `compare_status`).
    fn compare<M: Mapper>(
        cpu: &mut CPU<M>,
        addr_mode: &AddressingMode,
        b1: u8,
        b2: u8,
        compare_val: u8,
        extra_cycles: &mut u16,
    )
        requires
            old(cpu).wf(),
            deref_ok(*old(cpu), *addr_mode, b1, b2),
            *old(extra_cycles) < 0xffff,
        ensures
            final(cpu).wf(),
            exists|v: u8, m: CoreMemory<M>| #[trigger]
                operand(*old(cpu), *addr_mode, b1, b2, v, m) && *final(cpu) == (CPU {
                    status: compare_status(old(cpu).status, compare_val, v),
                    memory: m,
                    ..*old(cpu)
                }),
            *final(extra_cycles) == *old(extra_cycles) + page_cross_extra(
                *old(cpu),
                *addr_mode,
                b1,
                b2,
            ),
    {
        let mem_val = addr_mode.deref_check_boundary_cross(cpu, b1, b2, extra_cycles);
        cpu.update_flag(StatusFlag::Carry, compare_val >= mem_val);
        cpu.update_flag(StatusFlag::Zero, compare_val == mem_val);
        let d = compare_val.wrapping_sub(mem_val);
        proof { lemma_instruction_bits(0, 0, 0, 0, d); }
        cpu.update_flag(StatusFlag::Negative, compare_val.wrapping_sub(mem_val) & 0x80 != 0);
    }
}

/// A subroutine call (JSR) and its return (RTS) come back to the instruction after the
/// three-byte JSR, with the stack pointer where it was.
pub proof fn lemma_jsr_rts<M: Mapper>(
    pre: CPU<M>,
    mode: AddressingMode,
    b1: u8,
    b2: u8,
    mid: CPU<M>,
    e1: u16,
    mode2: AddressingMode,
    c1: u8,
    c2: u8,
    post: CPU<M>,
    e2: u16,
)
    requires
        pre.wf(),
        Instruction::JSR.effect(pre, mode, b1, b2, mid, e1),
        Instruction::RTS.effect(mid, mode2, c1, c2, post, e2),
    ensures
        post.program_counter == wrap16(pre.program_counter as int, 3),
        post.s_register == pre.s_register,
{
    let s = pre.s_register;
    let ret = wrap16(pre.program_counter as int, 2);
    let s2 = stack_moved(s, 2);
    assert(stack_byte(mid, 1) == (ret % 256) as u8 && stack_byte(mid, 2) == (ret / 256) as u8
        && mid.s_register == s2) by {
        assert(Instruction::JSR.control_effect(pre, mode, b1, b2, mid, e1)) by {
            reveal(Instruction::effect);
        }
        assert(stack_slot(s2, -1) == stack_slot(s, 1));
        assert(stack_slot(s2, -2) == stack_slot(s, 0));
    }
    assert(post.program_counter == wrap16(addr_of(stack_byte(mid, 1), stack_byte(mid, 2)) as int, 1)
        && post.s_register == stack_moved(mid.s_register, -2)) by {
        assert(Instruction::RTS.control_effect(mid, mode2, c1, c2, post, e2)) by {
            reveal(Instruction::effect);
        }
    }
}

/// PHA followed by PLA gives back the accumulator, and PHP followed by PLP gives back the
/// status; either way the stack pointer ends where it was.
pub proof fn lemma_push_pull<M: Mapper>(
    pre: CPU<M>,
    push: Instruction,
    mode: AddressingMode,
    b1: u8,
    b2: u8,
    mid: CPU<M>,
    e1: u16,
    pull: Instruction,
    mode2: AddressingMode,
    c1: u8,
    c2: u8,
    post: CPU<M>,
    e2: u16,
)
    requires
        pre.wf(),
        (push == Instruction::PHA && pull == Instruction::PLA) || (push == Instruction::PHP && pull
            == Instruction::PLP),
        push.effect(pre, mode, b1, b2, mid, e1),
        pull.effect(mid, mode2, c1, c2, post, e2),
    ensures
        push == Instruction::PHA ==> post.accumulator == pre.accumulator,
        push == Instruction::PHP ==> post.status == pre.status,
        post.s_register == pre.s_register,
{
    assert(push.control_effect(pre, mode, b1, b2, mid, e1)) by {
        reveal(Instruction::effect);
    }
    assert(pull.control_effect(mid, mode2, c1, c2, post, e2)) by {
        reveal(Instruction::effect);
    }
    lemma_push_pop(pre.s_register, pre.memory.memory@, pre.accumulator);
    lemma_push_pop(pre.s_register, pre.memory.memory@, pre.status | 0x30);
    lemma_instruction_bits(pre.status, 0, 0, 0, 0);
}

/// A software interrupt (BRK) and the return from it (RTI) come back two bytes after the
/// BRK with the status and the stack pointer as they were.
pub proof fn lemma_brk_rti<M: Mapper>(
    pre: CPU<M>,
    mode: AddressingMode,
    b1: u8,
    b2: u8,
    mid: CPU<M>,
    e1: u16,
    mode2: AddressingMode,
    c1: u8,
    c2: u8,
    post: CPU<M>,
    e2: u16,
)
    requires
        pre.wf(),
        Instruction::BRK.effect(pre, mode, b1, b2, mid, e1),
        Instruction::RTI.effect(mid, mode2, c1, c2, post, e2),
    ensures
        post.program_counter == wrap16(pre.program_counter as int, 2),
        post.status == pre.status,
        post.s_register == pre.s_register,
{
    let s = pre.s_register;
    let st = pre.status;
    let ret = wrap16(pre.program_counter as int, 2);
    let s3 = stack_moved(s, 3);
    assert(stack_byte(mid, 1) == st | 0x30 && stack_byte(mid, 2) == (ret % 256) as u8
        && stack_byte(mid, 3) == (ret / 256) as u8 && mid.s_register == s3 && mid.status == st
        | 0x04) by {
        assert(Instruction::BRK.control_effect(pre, mode, b1, b2, mid, e1)) by {
            reveal(Instruction::effect);
        }
        assert(stack_slot(s3, -1) == stack_slot(s, 2));
        assert(stack_slot(s3, -2) == stack_slot(s, 1));
        assert(stack_slot(s3, -3) == stack_slot(s, 0));
    }
    assert(post.status == (mid.status & 0x30) | (stack_byte(mid, 1) & 0xcf) && post.program_counter
        == addr_of(stack_byte(mid, 2), stack_byte(mid, 3)) && post.s_register == stack_moved(
        mid.s_register,
        -3,
    )) by {
        assert(Instruction::RTI.control_effect(mid, mode2, c1, c2, post, e2)) by {
            reveal(Instruction::effect);
        }
    }
    lemma_instruction_bits(st, 0, 0, 0, 0);
}

/// Adds `mem_val` and `carry` to the accumulator and sets the flags (see `adc_status`).
pub fn add_with_carry_and_update<M: Mapper>(cpu: &mut CPU<M>, mem_val: u8, carry: u8)
    ensures
        *final(cpu) == (CPU {
            accumulator: adc_result(old(cpu).accumulator, mem_val, carry),
            status: adc_status(old(cpu).status, old(cpu).accumulator, mem_val, carry),
            ..*old(cpu)
        }),
{
    let old_a = cpu.accumulator;

    let (result, carry) = add_with_carry_impl(old_a, mem_val, carry);

    cpu.accumulator = result;
    cpu.update_zero_neg_flags(result);
    cpu.update_flag(StatusFlag::Carry, carry);
    cpu.update_flag(StatusFlag::Overflow, (result ^ old_a) & (result ^ mem_val) & 0x80 != 0);
}

/// `a + b + carry` in eight bits, and whether it carried out.
pub fn add_with_carry_impl(a: u8, b: u8, carry: u8) -> (r: (u8, bool))
    ensures
        r.0 == adc_result(a, b, carry),
        r.1 == (a + b + carry > 255),
{
    let sum: u16 = a as u16 + b as u16 + carry as u16;
    ((sum % 256) as u8, sum > 255)
}

/// An instruction with its addressing mode and its base cycle count.
#[derive(Debug, Clone, Copy, PartialEq, Eq, Structural)]
pub struct RealizedInstruction {
    pub instruction: Instruction,
    pub addr_mode: AddressingMode,
    pub cycles: u16,
}

/// The instructions that set the program counter themselves.
pub open spec fn sets_pc(instr: Instruction) -> bool {
    instr is JMP || instr is JSR || instr is RTS || instr is RTI || instr is BRK
}

impl RealizedInstruction {
    /// What the instruction does, followed (unless it set the program counter itself) by
    /// moving the program counter past the instruction's bytes (branches included).
    pub open spec fn realized_effect<M: Mapper>(self, pre: CPU<M>, b1: u8, b2: u8, post: CPU<M>, extra: u16) -> bool {
        exists|mid: CPU<M>| #[trigger]
            self.instruction.effect(pre, self.addr_mode, b1, b2, mid, extra) && post == if sets_pc(
                self.instruction,
            ) {
                mid
            } else {
                CPU {
                    program_counter: wrap16(
                        mid.program_counter as int,
                        instruction_bytes(self.addr_mode) as int,
                    ),
                    ..mid
                }
            }
    }

    pub fn apply<M: Mapper>(&self, cpu: &mut CPU<M>, b1: u8, b2: u8) -> (r: u16)
        requires
            old(cpu).wf(),
            self.instruction.apply_ok(*old(cpu), self.addr_mode, b1, b2),
        ensures
            final(cpu).wf(),
            self.realized_effect(*old(cpu), b1, b2, *final(cpu), r),
            r <= 2,
    {
        let extra_cycles = self.instruction.apply(cpu, &self.addr_mode, b1, b2);
        let ghost mid = *cpu;
        /* note that this holds even for branching instructions (but not jump instructions): program counter needs to be
         * incremented by the number of bytes for instruction, arguments
         */
        match &self.instruction {
            Instruction::JMP => {},
            Instruction::JSR => {},
            Instruction::RTS => {},
            Instruction::RTI => {},
            Instruction::BRK => {},  // acts like a JMP
            _ => {
                cpu.program_counter = cpu.program_counter.wrapping_add(self.addr_mode.get_bytes() as u16);
            },
        }
        assert(self.instruction.effect(*old(cpu), self.addr_mode, b1, b2, mid, extra_cycles));
        extra_cycles
    }
}

/// The instruction, addressing mode and base cycle count of each official opcode (and of
/// the unofficial one-byte NOPs); `None` for the others.
pub open spec fn decode(opcode: u8) -> Option<(Instruction, AddressingMode, u16)> {
    /* instructions marked 'boundary' take longer if crossing a page boundary */
    /* branch instructions also take an extra cycle if branch taken */
    match opcode {
        0x00 => Some((Instruction::BRK, AddressingMode::Implicit, 7u16)),
        0x01 => Some((Instruction::ORA, AddressingMode::IndirectX, 6u16)),
        0x05 => Some((Instruction::ORA, AddressingMode::ZeroPage, 3u16)),
        0x06 => Some((Instruction::ASL, AddressingMode::ZeroPage, 5u16)),
        0x08 => Some((Instruction::PHP, AddressingMode::Implicit, 3u16)),
        0x09 => Some((Instruction::ORA, AddressingMode::Immediate, 2u16)),
        0x0a => Some((Instruction::ASL, AddressingMode::Accumulator, 2u16)),
        0x0d => Some((Instruction::ORA, AddressingMode::Absolute, 4u16)),
        0x0e => Some((Instruction::ASL, AddressingMode::Absolute, 6u16)),
        0x10 => Some((Instruction::BPL, AddressingMode::Relative, 2u16)), /*boundary*/
        0x11 => Some((Instruction::ORA, AddressingMode::IndirectY, 5u16)), /*boundary*/
        0x15 => Some((Instruction::ORA, AddressingMode::ZeroPageX, 4u16)),
        0x16 => Some((Instruction::ASL, AddressingMode::ZeroPageX, 6u16)),
        0x18 => Some((Instruction::CLC, AddressingMode::Implicit, 2u16)),
        0x19 => Some((Instruction::ORA, AddressingMode::AbsoluteY, 4u16)), /*boundary*/
        0x1a => Some((Instruction::NOP, AddressingMode::Implicit, 2u16)), /* unofficial */
        0x1d => Some((Instruction::ORA, AddressingMode::AbsoluteX, 4u16)), /*boundary*/
        0x1e => Some((Instruction::ASL, AddressingMode::AbsoluteX, 7u16)),
        0x20 => Some((Instruction::JSR, AddressingMode::Absolute, 6u16)),
        0x21 => Some((Instruction::AND, AddressingMode::IndirectX, 6u16)),
        0x24 => Some((Instruction::BIT, AddressingMode::ZeroPage, 3u16)),
        0x25 => Some((Instruction::AND, AddressingMode::ZeroPage, 3u16)),
        0x26 => Some((Instruction::ROL, AddressingMode::ZeroPage, 5u16)),
        0x28 => Some((Instruction::PLP, AddressingMode::Implicit, 4u16)),
        0x29 => Some((Instruction::AND, AddressingMode::Immediate, 2u16)),
        0x2a => Some((Instruction::ROL, AddressingMode::Accumulator, 2u16)),
        0x2c => Some((Instruction::BIT, AddressingMode::Absolute, 4u16)),
        0x2d => Some((Instruction::AND, AddressingMode::Absolute, 4u16)),
        0x2e => Some((Instruction::ROL, AddressingMode::Absolute, 6u16)),
        0x30 => Some((Instruction::BMI, AddressingMode::Relative, 2u16)), /*boundary*/
        0x31 => Some((Instruction::AND, AddressingMode::IndirectY, 5u16)), /*boundary*/
        0x35 => Some((Instruction::AND, AddressingMode::ZeroPageX, 4u16)),
        0x36 => Some((Instruction::ROL, AddressingMode::ZeroPageX, 6u16)),
        0x38 => Some((Instruction::SEC, AddressingMode::Implicit, 2u16)),
        0x39 => Some((Instruction::AND, AddressingMode::AbsoluteY, 4u16)), /*boundary*/
        0x3a => Some((Instruction::NOP, AddressingMode::Implicit, 2u16)), /* unofficial */
        0x3d => Some((Instruction::AND, AddressingMode::AbsoluteX, 4u16)), /*boundary*/
        0x3e => Some((Instruction::ROL, AddressingMode::AbsoluteX, 7u16)),
        0x40 => Some((Instruction::RTI, AddressingMode::Implicit, 6u16)),
        0x41 => Some((Instruction::EOR, AddressingMode::IndirectX, 6u16)),
        0x45 => Some((Instruction::EOR, AddressingMode::ZeroPage, 3u16)),
        0x46 => Some((Instruction::LSR, AddressingMode::ZeroPage, 5u16)),
        0x48 => Some((Instruction::PHA, AddressingMode::Implicit, 3u16)),
        0x49 => Some((Instruction::EOR, AddressingMode::Immediate, 2u16)),
        0x4a => Some((Instruction::LSR, AddressingMode::Accumulator, 2u16)),
        0x4c => Some((Instruction::JMP, AddressingMode::Absolute, 3u16)),
        0x4d => Some((Instruction::EOR, AddressingMode::Absolute, 4u16)),
        0x4e => Some((Instruction::LSR, AddressingMode::Absolute, 6u16)),
        0x50 => Some((Instruction::BVC, AddressingMode::Relative, 2u16)), /*boundary*/
        0x51 => Some((Instruction::EOR, AddressingMode::IndirectY, 5u16)), /*boundary*/
        0x55 => Some((Instruction::EOR, AddressingMode::ZeroPageX, 4u16)),
        0x56 => Some((Instruction::LSR, AddressingMode::ZeroPageX, 6u16)),
        0x58 => Some((Instruction::CLI, AddressingMode::Implicit, 2u16)),
        0x59 => Some((Instruction::EOR, AddressingMode::AbsoluteY, 4u16)), /*boundary*/
        0x5a => Some((Instruction::NOP, AddressingMode::Implicit, 2u16)), /* unofficial */
        0x5d => Some((Instruction::EOR, AddressingMode::AbsoluteX, 4u16)), /*boundary*/
        0x5e => Some((Instruction::LSR, AddressingMode::AbsoluteX, 7u16)),
        0x60 => Some((Instruction::RTS, AddressingMode::Implicit, 6u16)),
        0x61 => Some((Instruction::ADC, AddressingMode::IndirectX, 6u16)),
        0x65 => Some((Instruction::ADC, AddressingMode::ZeroPage, 3u16)),
        0x66 => Some((Instruction::ROR, AddressingMode::ZeroPage, 5u16)),
        0x68 => Some((Instruction::PLA, AddressingMode::Implicit, 4u16)),
        0x69 => Some((Instruction::ADC, AddressingMode::Immediate, 2u16)),
        0x6a => Some((Instruction::ROR, AddressingMode::Accumulator, 2u16)),
        0x6c => Some((Instruction::JMP, AddressingMode::Indirect, 5u16)),
        0x6d => Some((Instruction::ADC, AddressingMode::Absolute, 4u16)),
        0x6e => Some((Instruction::ROR, AddressingMode::Absolute, 6u16)),
        0x70 => Some((Instruction::BVS, AddressingMode::Relative, 2u16)), /*boundary*/
        0x71 => Some((Instruction::ADC, AddressingMode::IndirectY, 5u16)), /*boundary*/
        0x75 => Some((Instruction::ADC, AddressingMode::ZeroPageX, 4u16)),
        0x76 => Some((Instruction::ROR, AddressingMode::ZeroPageX, 6u16)),
        0x78 => Some((Instruction::SEI, AddressingMode::Implicit, 2u16)),
        0x79 => Some((Instruction::ADC, AddressingMode::AbsoluteY, 4u16)), /*boundary*/
        0x7a => Some((Instruction::NOP, AddressingMode::Implicit, 2u16)), /* unofficial */
        0x7d => Some((Instruction::ADC, AddressingMode::AbsoluteX, 4u16)), /*boundary*/
        0x7e => Some((Instruction::ROR, AddressingMode::AbsoluteX, 7u16)),
        0x81 => Some((Instruction::STA, AddressingMode::IndirectX, 6u16)),
        0x84 => Some((Instruction::STY, AddressingMode::ZeroPage, 3u16)),
        0x85 => Some((Instruction::STA, AddressingMode::ZeroPage, 3u16)),
        0x86 => Some((Instruction::STX, AddressingMode::ZeroPage, 3u16)),
        0x88 => Some((Instruction::DEY, AddressingMode::Implicit, 2u16)),
        0x8a => Some((Instruction::TXA, AddressingMode::Implicit, 2u16)),
        0x8c => Some((Instruction::STY, AddressingMode::Absolute, 4u16)),
        0x8d => Some((Instruction::STA, AddressingMode::Absolute, 4u16)),
        0x8e => Some((Instruction::STX, AddressingMode::Absolute, 4u16)),
        0x90 => Some((Instruction::BCC, AddressingMode::Relative, 2u16)), /*boundary*/
        0x91 => Some((Instruction::STA, AddressingMode::IndirectY, 6u16)),
        0x94 => Some((Instruction::STY, AddressingMode::ZeroPageX, 4u16)),
        0x95 => Some((Instruction::STA, AddressingMode::ZeroPageX, 4u16)),
        0x96 => Some((Instruction::STX, AddressingMode::ZeroPageY, 4u16)),
        0x98 => Some((Instruction::TYA, AddressingMode::Implicit, 2u16)),
        0x99 => Some((Instruction::STA, AddressingMode::AbsoluteY, 5u16)),
        0x9a => Some((Instruction::TXS, AddressingMode::Implicit, 2u16)),
        0x9d => Some((Instruction::STA, AddressingMode::AbsoluteX, 5u16)),
        0xa0 => Some((Instruction::LDY, AddressingMode::Immediate, 2u16)),
        0xa1 => Some((Instruction::LDA, AddressingMode::IndirectX, 6u16)),
        0xa2 => Some((Instruction::LDX, AddressingMode::Immediate, 2u16)),
        0xa4 => Some((Instruction::LDY, AddressingMode::ZeroPage, 3u16)),
        0xa5 => Some((Instruction::LDA, AddressingMode::ZeroPage, 3u16)),
        0xa6 => Some((Instruction::LDX, AddressingMode::ZeroPage, 3u16)),
        0xa8 => Some((Instruction::TAY, AddressingMode::Implicit, 2u16)),
        0xa9 => Some((Instruction::LDA, AddressingMode::Immediate, 2u16)),
        0xaa => Some((Instruction::TAX, AddressingMode::Implicit, 2u16)),
        0xac => Some((Instruction::LDY, AddressingMode::Absolute, 4u16)),
        0xad => Some((Instruction::LDA, AddressingMode::Absolute, 4u16)),
        0xae => Some((Instruction::LDX, AddressingMode::Absolute, 4u16)),
        0xb0 => Some((Instruction::BCS, AddressingMode::Relative, 2u16)), /*boundary*/
        0xb1 => Some((Instruction::LDA, AddressingMode::IndirectY, 5u16)), /*boundary*/
        0xb4 => Some((Instruction::LDY, AddressingMode::ZeroPageX, 4u16)),
        0xb5 => Some((Instruction::LDA, AddressingMode::ZeroPageX, 4u16)),
        0xb6 => Some((Instruction::LDX, AddressingMode::ZeroPageY, 4u16)),
        0xb8 => Some((Instruction::CLV, AddressingMode::Implicit, 2u16)),
        0xb9 => Some((Instruction::LDA, AddressingMode::AbsoluteY, 4u16)), /*boundary*/
        0xba => Some((Instruction::TSX, AddressingMode::Implicit, 2u16)),
        0xbc => Some((Instruction::LDY, AddressingMode::AbsoluteX, 4u16)), /*boundary*/
        0xbd => Some((Instruction::LDA, AddressingMode::AbsoluteX, 4u16)), /*boundary*/
        0xbe => Some((Instruction::LDX, AddressingMode::AbsoluteY, 4u16)), /*boundary*/
        0xc0 => Some((Instruction::CPY, AddressingMode::Immediate, 2u16)),
        0xc1 => Some((Instruction::CMP, AddressingMode::IndirectX, 6u16)),
        0xc4 => Some((Instruction::CPY, AddressingMode::ZeroPage, 3u16)),
        0xc5 => Some((Instruction::CMP, AddressingMode::ZeroPage, 3u16)),
        0xc6 => Some((Instruction::DEC, AddressingMode::ZeroPage, 5u16)),
        0xc8 => Some((Instruction::INY, AddressingMode::Implicit, 2u16)),
        0xc9 => Some((Instruction::CMP, AddressingMode::Immediate, 2u16)),
        0xca => Some((Instruction::DEX, AddressingMode::Implicit, 2u16)),
        0xcc => Some((Instruction::CPY, AddressingMode::Absolute, 4u16)),
        0xcd => Some((Instruction::CMP, AddressingMode::Absolute, 4u16)),
        0xce => Some((Instruction::DEC, AddressingMode::Absolute, 6u16)),
        0xd0 => Some((Instruction::BNE, AddressingMode::Relative, 2u16)), /*boundary*/
        0xd1 => Some((Instruction::CMP, AddressingMode::IndirectY, 5u16)), /*boundary*/
        0xd5 => Some((Instruction::CMP, AddressingMode::ZeroPageX, 4u16)),
        0xd6 => Some((Instruction::DEC, AddressingMode::ZeroPageX, 6u16)),
        0xd8 => Some((Instruction::CLD, AddressingMode::Implicit, 2u16)),
        0xd9 => Some((Instruction::CMP, AddressingMode::AbsoluteY, 4u16)), /*boundary*/
        0xda => Some((Instruction::NOP, AddressingMode::Implicit, 2u16)), /* unofficial */
        0xdd => Some((Instruction::CMP, AddressingMode::AbsoluteX, 4u16)), /*boundary*/
        0xde => Some((Instruction::DEC, AddressingMode::AbsoluteX, 7u16)),
        0xe0 => Some((Instruction::CPX, AddressingMode::Immediate, 2u16)),
        0xe1 => Some((Instruction::SBC, AddressingMode::IndirectX, 6u16)),
        0xe4 => Some((Instruction::CPX, AddressingMode::ZeroPage, 3u16)),
        0xe5 => Some((Instruction::SBC, AddressingMode::ZeroPage, 3u16)),
        0xe6 => Some((Instruction::INC, AddressingMode::ZeroPage, 5u16)),
        0xe8 => Some((Instruction::INX, AddressingMode::Implicit, 2u16)),
        0xe9 => Some((Instruction::SBC, AddressingMode::Immediate, 2u16)),
        0xea => Some((Instruction::NOP, AddressingMode::Implicit, 2u16)),
        0xec => Some((Instruction::CPX, AddressingMode::Absolute, 4u16)),
        0xed => Some((Instruction::SBC, AddressingMode::Absolute, 4u16)),
        0xee => Some((Instruction::INC, AddressingMode::Absolute, 6u16)),
        0xf0 => Some((Instruction::BEQ, AddressingMode::Relative, 2u16)), /*boundary*/
        0xf1 => Some((Instruction::SBC, AddressingMode::IndirectY, 5u16)),
        0xf5 => Some((Instruction::SBC, AddressingMode::ZeroPageX, 4u16)),
        0xf6 => Some((Instruction::INC, AddressingMode::ZeroPageX, 6u16)),
        0xf8 => Some((Instruction::SED, AddressingMode::Implicit, 2u16)),
        0xf9 => Some((Instruction::SBC, AddressingMode::AbsoluteY, 4u16)), /*boundary*/
        0xfa => Some((Instruction::NOP, AddressingMode::Implicit, 2u16)), /* unofficial */
        0xfd => Some((Instruction::SBC, AddressingMode::AbsoluteX, 4u16)), /*boundary*/
        0xfe => Some((Instruction::INC, AddressingMode::AbsoluteX, 7u16)),
        _ => None,
    }
}

/// Looks an opcode up (see `decode`); an unknown opcode is a fatal error.
pub fn from_opcode(opcode: u8) -> (r: RealizedInstruction)
    requires
        decode(opcode) is Some,
    ensures
        r.instruction == decode(opcode).unwrap().0,
        r.addr_mode == decode(opcode).unwrap().1,
        r.cycles == decode(opcode).unwrap().2,
        r.cycles <= 7,
{
    lookup(opcode)
}

/// Whether the opcode is one that `from_opcode` knows.
pub fn is_known_opcode(opcode: u8) -> (r: bool)
    ensures
        r == decode(opcode) is Some,
{
    lookup(opcode).cycles != 0
}

/// The table behind `from_opcode`; unknown opcodes come out with no cycles.
fn lookup(opcode: u8) -> (r: RealizedInstruction)
    ensures
        decode(opcode) is Some ==> r.instruction == decode(opcode).unwrap().0 && r.addr_mode
            == decode(opcode).unwrap().1 && r.cycles == decode(opcode).unwrap().2 && 2 <= r.cycles
            <= 7,
        decode(opcode) is None ==> r.cycles == 0,
{
    let (instruction, addr_mode, cycles) = match opcode {
        /* TODO: instructions marked 'boundary' take longer if crossing
         * a page boundary */
        /* branch instructions also take an extra cycle if branch taken */
        0x00 => (Instruction::BRK, AddressingMode::Implicit, 7),
        0x01 => (Instruction::ORA, AddressingMode::IndirectX, 6),
        0x05 => (Instruction::ORA, AddressingMode::ZeroPage, 3),
        0x06 => (Instruction::ASL, AddressingMode::ZeroPage, 5),
        0x08 => (Instruction::PHP, AddressingMode::Implicit, 3),
        0x09 => (Instruction::ORA, AddressingMode::Immediate, 2),
        0x0a => (Instruction::ASL, AddressingMode::Accumulator, 2),
        0x0d => (Instruction::ORA, AddressingMode::Absolute, 4),
        0x0e => (Instruction::ASL, AddressingMode::Absolute, 6),
        0x10 => (Instruction::BPL, AddressingMode::Relative, 2), /*boundary*/
        0x11 => (Instruction::ORA, AddressingMode::IndirectY, 5), /*boundary*/
        0x15 => (Instruction::ORA, AddressingMode::ZeroPageX, 4),
        0x16 => (Instruction::ASL, AddressingMode::ZeroPageX, 6),
        0x18 => (Instruction::CLC, AddressingMode::Implicit, 2),
        0x19 => (Instruction::ORA, AddressingMode::AbsoluteY, 4), /*boundary*/
        0x1a => (Instruction::NOP, AddressingMode::Implicit, 2), /* unofficial */
        0x1d => (Instruction::ORA, AddressingMode::AbsoluteX, 4), /*boundary*/
        0x1e => (Instruction::ASL, AddressingMode::AbsoluteX, 7),
        0x20 => (Instruction::JSR, AddressingMode::Absolute, 6),
        0x21 => (Instruction::AND, AddressingMode::IndirectX, 6),
        0x24 => (Instruction::BIT, AddressingMode::ZeroPage, 3),
        0x25 => (Instruction::AND, AddressingMode::ZeroPage, 3),
        0x26 => (Instruction::ROL, AddressingMode::ZeroPage, 5),
        0x28 => (Instruction::PLP, AddressingMode::Implicit, 4),
        0x29 => (Instruction::AND, AddressingMode::Immediate, 2),
        0x2a => (Instruction::ROL, AddressingMode::Accumulator, 2),
        0x2c => (Instruction::BIT, AddressingMode::Absolute, 4),
        0x2d => (Instruction::AND, AddressingMode::Absolute, 4),
        0x2e => (Instruction::ROL, AddressingMode::Absolute, 6),
        0x30 => (Instruction::BMI, AddressingMode::Relative, 2), /*boundary*/
        0x31 => (Instruction::AND, AddressingMode::IndirectY, 5), /*boundary*/
        0x35 => (Instruction::AND, AddressingMode::ZeroPageX, 4),
        0x36 => (Instruction::ROL, AddressingMode::ZeroPageX, 6),
        0x38 => (Instruction::SEC, AddressingMode::Implicit, 2),
        0x39 => (Instruction::AND, AddressingMode::AbsoluteY, 4), /*boundary*/
        0x3a => (Instruction::NOP, AddressingMode::Implicit, 2), /* unofficial */
        0x3d => (Instruction::AND, AddressingMode::AbsoluteX, 4), /*boundary*/
        0x3e => (Instruction::ROL, AddressingMode::AbsoluteX, 7),
        0x40 => (Instruction::RTI, AddressingMode::Implicit, 6),
        0x41 => (Instruction::EOR, AddressingMode::IndirectX, 6),
        0x45 => (Instruction::EOR, AddressingMode::ZeroPage, 3),
        0x46 => (Instruction::LSR, AddressingMode::ZeroPage, 5),
        0x48 => (Instruction::PHA, AddressingMode::Implicit, 3),
        0x49 => (Instruction::EOR, AddressingMode::Immediate, 2),
        0x4a => (Instruction::LSR, AddressingMode::Accumulator, 2),
        0x4c => (Instruction::JMP, AddressingMode::Absolute, 3),
        0x4d => (Instruction::EOR, AddressingMode::Absolute, 4),
        0x4e => (Instruction::LSR, AddressingMode::Absolute, 6),
        0x50 => (Instruction::BVC, AddressingMode::Relative, 2), /*boundary*/
        0x51 => (Instruction::EOR, AddressingMode::IndirectY, 5), /*boundary*/
        0x55 => (Instruction::EOR, AddressingMode::ZeroPageX, 4),
        0x56 => (Instruction::LSR, AddressingMode::ZeroPageX, 6),
        0x58 => (Instruction::CLI, AddressingMode::Implicit, 2),
        0x59 => (Instruction::EOR, AddressingMode::AbsoluteY, 4), /*boundary*/
        0x5a => (Instruction::NOP, AddressingMode::Implicit, 2), /* unofficial */
        0x5d => (Instruction::EOR, AddressingMode::AbsoluteX, 4), /*boundary*/
        0x5e => (Instruction::LSR, AddressingMode::AbsoluteX, 7),
        0x60 => (Instruction::RTS, AddressingMode::Implicit, 6),
        0x61 => (Instruction::ADC, AddressingMode::IndirectX, 6),
        0x65 => (Instruction::ADC, AddressingMode::ZeroPage, 3),
        0x66 => (Instruction::ROR, AddressingMode::ZeroPage, 5),
        0x68 => (Instruction::PLA, AddressingMode::Implicit, 4),
        0x69 => (Instruction::ADC, AddressingMode::Immediate, 2),
        0x6a => (Instruction::ROR, AddressingMode::Accumulator, 2),
        0x6c => (Instruction::JMP, AddressingMode::Indirect, 5),
        0x6d => (Instruction::ADC, AddressingMode::Absolute, 4),
        0x6e => (Instruction::ROR, AddressingMode::Absolute, 6),
        0x70 => (Instruction::BVS, AddressingMode::Relative, 2), /*boundary*/
        0x71 => (Instruction::ADC, AddressingMode::IndirectY, 5), /*boundary*/
        0x75 => (Instruction::ADC, AddressingMode::ZeroPageX, 4),
        0x76 => (Instruction::ROR, AddressingMode::ZeroPageX, 6),
        0x78 => (Instruction::SEI, AddressingMode::Implicit, 2),
        0x79 => (Instruction::ADC, AddressingMode::AbsoluteY, 4), /*boundary*/
        0x7a => (Instruction::NOP, AddressingMode::Implicit, 2), /* unofficial */
        0x7d => (Instruction::ADC, AddressingMode::AbsoluteX, 4), /*boundary*/
        0x7e => (Instruction::ROR, AddressingMode::AbsoluteX, 7),
        0x81 => (Instruction::STA, AddressingMode::IndirectX, 6),
        0x84 => (Instruction::STY, AddressingMode::ZeroPage, 3),
        0x85 => (Instruction::STA, AddressingMode::ZeroPage, 3),
        0x86 => (Instruction::STX, AddressingMode::ZeroPage, 3),
        0x88 => (Instruction::DEY, AddressingMode::Implicit, 2),
        0x8a => (Instruction::TXA, AddressingMode::Implicit, 2),
        0x8c => (Instruction::STY, AddressingMode::Absolute, 4),
        0x8d => (Instruction::STA, AddressingMode::Absolute, 4),
        0x8e => (Instruction::STX, AddressingMode::Absolute, 4),
        0x90 => (Instruction::BCC, AddressingMode::Relative, 2), /*boundary*/
        0x91 => (Instruction::STA, AddressingMode::IndirectY, 6),
        0x94 => (Instruction::STY, AddressingMode::ZeroPageX, 4),
        0x95 => (Instruction::STA, AddressingMode::ZeroPageX, 4),
        0x96 => (Instruction::STX, AddressingMode::ZeroPageY, 4),
        0x98 => (Instruction::TYA, AddressingMode::Implicit, 2),
        0x99 => (Instruction::STA, AddressingMode::AbsoluteY, 5),
        0x9a => (Instruction::TXS, AddressingMode::Implicit, 2),
        0x9d => (Instruction::STA, AddressingMode::AbsoluteX, 5),
        0xa0 => (Instruction::LDY, AddressingMode::Immediate, 2),
        0xa1 => (Instruction::LDA, AddressingMode::IndirectX, 6),
        0xa2 => (Instruction::LDX, AddressingMode::Immediate, 2),
        0xa4 => (Instruction::LDY, AddressingMode::ZeroPage, 3),
        0xa5 => (Instruction::LDA, AddressingMode::ZeroPage, 3),
        0xa6 => (Instruction::LDX, AddressingMode::ZeroPage, 3),
        0xa8 => (Instruction::TAY, AddressingMode::Implicit, 2),
        0xa9 => (Instruction::LDA, AddressingMode::Immediate, 2),
        0xaa => (Instruction::TAX, AddressingMode::Implicit, 2),
        0xac => (Instruction::LDY, AddressingMode::Absolute, 4),
        0xad => (Instruction::LDA, AddressingMode::Absolute, 4),
        0xae => (Instruction::LDX, AddressingMode::Absolute, 4),
        0xb0 => (Instruction::BCS, AddressingMode::Relative, 2), /*boundary*/
        0xb1 => (Instruction::LDA, AddressingMode::IndirectY, 5), /*boundary*/
        0xb4 => (Instruction::LDY, AddressingMode::ZeroPageX, 4),
        0xb5 => (Instruction::LDA, AddressingMode::ZeroPageX, 4),
        0xb6 => (Instruction::LDX, AddressingMode::ZeroPageY, 4),
        0xb8 => (Instruction::CLV, AddressingMode::Implicit, 2),
        0xb9 => (Instruction::LDA, AddressingMode::AbsoluteY, 4), /*boundary*/
        0xba => (Instruction::TSX, AddressingMode::Implicit, 2),
        0xbc => (Instruction::LDY, AddressingMode::AbsoluteX, 4), /*boundary*/
        0xbd => (Instruction::LDA, AddressingMode::AbsoluteX, 4), /*boundary*/
        0xbe => (Instruction::LDX, AddressingMode::AbsoluteY, 4), /*boundary*/
        0xc0 => (Instruction::CPY, AddressingMode::Immediate, 2),
        0xc1 => (Instruction::CMP, AddressingMode::IndirectX, 6),
        0xc4 => (Instruction::CPY, AddressingMode::ZeroPage, 3),
        0xc5 => (Instruction::CMP, AddressingMode::ZeroPage, 3),
        0xc6 => (Instruction::DEC, AddressingMode::ZeroPage, 5),
        0xc8 => (Instruction::INY, AddressingMode::Implicit, 2),
        0xc9 => (Instruction::CMP, AddressingMode::Immediate, 2),
        0xca => (Instruction::DEX, AddressingMode::Implicit, 2),
        0xcc => (Instruction::CPY, AddressingMode::Absolute, 4),
        0xcd => (Instruction::CMP, AddressingMode::Absolute, 4),
        0xce => (Instruction::DEC, AddressingMode::Absolute, 6),
        0xd0 => (Instruction::BNE, AddressingMode::Relative, 2), /*boundary*/
        0xd1 => (Instruction::CMP, AddressingMode::IndirectY, 5), /*boundary*/
        0xd5 => (Instruction::CMP, AddressingMode::ZeroPageX, 4),
        0xd6 => (Instruction::DEC, AddressingMode::ZeroPageX, 6),
        0xd8 => (Instruction::CLD, AddressingMode::Implicit, 2),
        0xd9 => (Instruction::CMP, AddressingMode::AbsoluteY, 4), /*boundary*/
        0xda => (Instruction::NOP, AddressingMode::Implicit, 2), /* unofficial */
        0xdd => (Instruction::CMP, AddressingMode::AbsoluteX, 4), /*boundary*/
        0xde => (Instruction::DEC, AddressingMode::AbsoluteX, 7),
        0xe0 => (Instruction::CPX, AddressingMode::Immediate, 2),
        0xe1 => (Instruction::SBC, AddressingMode::IndirectX, 6),
        0xe4 => (Instruction::CPX, AddressingMode::ZeroPage, 3),
        0xe5 => (Instruction::SBC, AddressingMode::ZeroPage, 3),
        0xe6 => (Instruction::INC, AddressingMode::ZeroPage, 5),
        0xe8 => (Instruction::INX, AddressingMode::Implicit, 2),
        0xe9 => (Instruction::SBC, AddressingMode::Immediate, 2),
        0xea => (Instruction::NOP, AddressingMode::Implicit, 2),
        0xec => (Instruction::CPX, AddressingMode::Absolute, 4),
        0xed => (Instruction::SBC, AddressingMode::Absolute, 4),
        0xee => (Instruction::INC, AddressingMode::Absolute, 6),
        0xf0 => (Instruction::BEQ, AddressingMode::Relative, 2), /*boundary*/
        0xf1 => (Instruction::SBC, AddressingMode::IndirectY, 5),
        0xf5 => (Instruction::SBC, AddressingMode::ZeroPageX, 4),
        0xf6 => (Instruction::INC, AddressingMode::ZeroPageX, 6),
        0xf8 => (Instruction::SED, AddressingMode::Implicit, 2),
        0xf9 => (Instruction::SBC, AddressingMode::AbsoluteY, 4), /*boundary*/
        0xfa => (Instruction::NOP, AddressingMode::Implicit, 2), /* unofficial */
        0xfd => (Instruction::SBC, AddressingMode::AbsoluteX, 4), /*boundary*/
        0xfe => (Instruction::INC, AddressingMode::AbsoluteX, 7),
        _ => (Instruction::NOP, AddressingMode::Implicit, 0),
    };

    RealizedInstruction { instruction, addr_mode, cycles }
}

} // verus!
