//! What one clock cycle of each instruction sequence does.
//!
//! A cycle performs at most one bus transaction (a read or a write) and
//! updates the registers. The functions here state, for an instruction, a
//! step of its sequence and the registers before the cycle, which transaction
//! takes place and, given the byte a read hands back, the registers after the
//! cycle and whether the instruction goes on.
use crate::alu::{
    adc_status, adc_value, asl_value, bit_status, cmp_status, lsr_value, nz_status, rol_value,
    ror_value, sbc_status, sbc_value, shift_status, signed,
};
use crate::cpu::interrupt::{vector_addr, InterruptVector, InterruptVectorAddrBytePos};
use crate::instr::{
    BranchOperation, ImplicitOperation, Instruction, MemoryModifyOperation, PullStackOperation,
    PushStackOperation, RegisterMemoryOperation,
};
use crate::memory::MemorySpace;
use crate::registers::{
    flags_set, hi_byte, index_value, lo_byte, make_word, with_flags, IndexRegister, RegisterState,
    StatusRegFlags,
};
use vstd::prelude::*;

verus! {

/// The bus transaction of one cycle.
#[derive(Clone, Copy, PartialEq, Eq, Structural, Debug)]
pub enum BusCycle {
    /// No memory access.
    Idle,
    /// A read at the address.
    Read(u16),
    /// A write of the byte at the address.
    Write(u16, u8),
}

/// How an instruction step ends.
#[derive(Clone, Copy, PartialEq, Eq, Structural, Debug)]
pub enum ClockEndStatus {
    /// The current instruction needs more cycles to complete.
    Continue,
    /// The current instruction has completed; the next one must be fetched.
    EndInstruction,
    /// The current instruction has completed and the next opcode has already
    /// been fetched (into the instruction register) from `opcode_addr`.
    EndInstructionNextFetched {
        /// The address from which the next opcode was fetched.
        opcode_addr: u16,
    },
}

/// The memory after a bus transaction.
pub open spec fn apply_bus<M: MemorySpace>(b: BusCycle, m: M) -> M {
    match b {
        BusCycle::Idle => m,
        BusCycle::Read(a) => m.after_read(a),
        BusCycle::Write(a, d) => m.after_write(d, a),
    }
}

/// The byte a bus transaction hands to the CPU (0 when it is not a read).
pub open spec fn bus_data<M: MemorySpace>(b: BusCycle, m: M) -> u8 {
    match b {
        BusCycle::Read(a) => m.read_value(a),
        _ => 0,
    }
}

/// Wrapping increment of a byte.
pub open spec fn inc8(v: u8) -> u8 {
    ((v + 1) % 256) as u8
}

/// Wrapping decrement of a byte.
pub open spec fn dec8(v: u8) -> u8 {
    ((v + 255) % 256) as u8
}

/// Wrapping increment of a word.
pub open spec fn inc16(v: u16) -> u16 {
    ((v + 1) % 65536) as u16
}

/// The address of the stack location the stack pointer designates (page 1).
pub open spec fn stack_address(sp: u8) -> u16 {
    make_word(1, sp)
}

/// The status after pulling `data` from the stack: BREAK and UNUSED are kept.
pub open spec fn pulled_status(s: u8, data: u8) -> u8 {
    (s & 0x30) | (data & 0xCF)
}

/// Registers with the address register pointing at the stack top.
pub open spec fn at_stack(r: RegisterState) -> RegisterState {
    RegisterState { addr: stack_address(r.sp), ..r }
}

/// Registers after a push: the address register at the old stack top and the
/// stack pointer decremented.
pub open spec fn pushed(r: RegisterState) -> RegisterState {
    RegisterState { addr: stack_address(r.sp), sp: dec8(r.sp), ..r }
}

/// Registers with the program counter incremented.
pub open spec fn pc_inc(r: RegisterState) -> RegisterState {
    RegisterState { pc: inc16(r.pc), ..r }
}

/// Registers with the low byte of the address register replaced.
pub open spec fn with_addr_lo(r: RegisterState, v: u8) -> RegisterState {
    RegisterState { addr: make_word(hi_byte(r.addr), v), ..r }
}

/// Registers with the high byte of the address register replaced.
pub open spec fn with_addr_hi(r: RegisterState, v: u8) -> RegisterState {
    RegisterState { addr: make_word(v, lo_byte(r.addr)), ..r }
}

/// Registers with the index register added to the low byte of the address
/// register (wrapping within the page).
pub open spec fn indexed(r: RegisterState, idx: IndexRegister) -> RegisterState {
    with_addr_lo(r, ((lo_byte(r.addr) + index_value(r, idx)) % 256) as u8)
}

/// Adding `index` to the low byte of an address carried into the high byte.
pub open spec fn page_crossed(r: RegisterState, index: u8) -> bool {
    index > lo_byte(r.addr)
}

/// Registers with the page of the address register fixed after indexing.
pub open spec fn fixed(r: RegisterState, index: u8) -> RegisterState {
    if page_crossed(r, index) {
        with_addr_hi(r, inc8(hi_byte(r.addr)))
    } else {
        r
    }
}

/// The address of the second byte of a pointer, within the same page.
pub open spec fn next_in_page(a: u16) -> u16 {
    make_word(hi_byte(a), inc8(lo_byte(a)))
}

// ---------------------------------------------------------------------------
// Operations

/// The bus transaction of a register-memory operation at the address register.
pub open spec fn op_bus(op: RegisterMemoryOperation, r: RegisterState) -> BusCycle {
    match op {
        RegisterMemoryOperation::StoreA => BusCycle::Write(r.addr, r.a),
        RegisterMemoryOperation::StoreX => BusCycle::Write(r.addr, r.x),
        RegisterMemoryOperation::StoreY => BusCycle::Write(r.addr, r.y),
        RegisterMemoryOperation::BitImmediate => BusCycle::Idle,
        _ => BusCycle::Read(r.addr),
    }
}

/// The registers after a register-memory operation that read `m`.
pub open spec fn op_next(op: RegisterMemoryOperation, r: RegisterState, m: u8) -> RegisterState {
    match op {
        RegisterMemoryOperation::Or => RegisterState {
            tmp: m,
            a: r.a | m,
            status: nz_status(r.status, r.a | m),
            ..r
        },
        RegisterMemoryOperation::And => RegisterState {
            tmp: m,
            a: r.a & m,
            status: nz_status(r.status, r.a & m),
            ..r
        },
        RegisterMemoryOperation::Xor => RegisterState {
            tmp: m,
            a: r.a ^ m,
            status: nz_status(r.status, r.a ^ m),
            ..r
        },
        RegisterMemoryOperation::Add => RegisterState {
            tmp: m,
            a: adc_value(r.a, m, r.status),
            status: adc_status(r.a, m, r.status),
            ..r
        },
        RegisterMemoryOperation::Sub => RegisterState {
            tmp: m,
            a: sbc_value(r.a, m, r.status),
            status: sbc_status(r.a, m, r.status),
            ..r
        },
        RegisterMemoryOperation::Cmp => RegisterState {
            tmp: m,
            status: cmp_status(r.a, m, r.status),
            ..r
        },
        RegisterMemoryOperation::Cpx => RegisterState {
            tmp: m,
            status: cmp_status(r.x, m, r.status),
            ..r
        },
        RegisterMemoryOperation::Cpy => RegisterState {
            tmp: m,
            status: cmp_status(r.y, m, r.status),
            ..r
        },
        RegisterMemoryOperation::LoadA => RegisterState { a: m, status: nz_status(r.status, m), ..r },
        RegisterMemoryOperation::LoadX => RegisterState { x: m, status: nz_status(r.status, m), ..r },
        RegisterMemoryOperation::LoadY => RegisterState { y: m, status: nz_status(r.status, m), ..r },
        RegisterMemoryOperation::StoreA => r,
        RegisterMemoryOperation::StoreX => r,
        RegisterMemoryOperation::StoreY => r,
        RegisterMemoryOperation::Bit => RegisterState {
            tmp: m,
            status: bit_status(r.a, m, r.status),
            ..r
        },
        RegisterMemoryOperation::BitImmediate => RegisterState {
            status: with_flags(r.status, StatusRegFlags::ZERO, r.a & r.tmp == 0),
            ..r
        },
    }
}

/// The registers after an implied-mode operation.
pub open spec fn implicit_next(op: ImplicitOperation, r: RegisterState) -> RegisterState {
    match op {
        ImplicitOperation::Nop => r,
        ImplicitOperation::ShiftLeftA => RegisterState {
            a: asl_value(r.a),
            status: shift_status(r.status, asl_value(r.a), r.a >= 128),
            ..r
        },
        ImplicitOperation::ShiftRightA => RegisterState {
            a: lsr_value(r.a),
            status: shift_status(r.status, lsr_value(r.a), r.a % 2 == 1),
            ..r
        },
        ImplicitOperation::RotateLeftA => RegisterState {
            a: rol_value(r.a, r.status),
            status: shift_status(r.status, rol_value(r.a, r.status), r.a >= 128),
            ..r
        },
        ImplicitOperation::RotateRightA => RegisterState {
            a: ror_value(r.a, r.status),
            status: shift_status(r.status, ror_value(r.a, r.status), r.a % 2 == 1),
            ..r
        },
        ImplicitOperation::IncrementX => RegisterState {
            x: inc8(r.x),
            status: nz_status(r.status, inc8(r.x)),
            ..r
        },
        ImplicitOperation::IncrementY => RegisterState {
            y: inc8(r.y),
            status: nz_status(r.status, inc8(r.y)),
            ..r
        },
        ImplicitOperation::DecrementX => RegisterState {
            x: dec8(r.x),
            status: nz_status(r.status, dec8(r.x)),
            ..r
        },
        ImplicitOperation::DecrementY => RegisterState {
            y: dec8(r.y),
            status: nz_status(r.status, dec8(r.y)),
            ..r
        },
        ImplicitOperation::ClearCarry => RegisterState {
            status: with_flags(r.status, StatusRegFlags::CARRY, false),
            ..r
        },
        ImplicitOperation::SetCarry => RegisterState {
            status: with_flags(r.status, StatusRegFlags::CARRY, true),
            ..r
        },
        ImplicitOperation::ClearDecimal => RegisterState {
            status: with_flags(r.status, StatusRegFlags::DECIMAL, false),
            ..r
        },
        ImplicitOperation::SetDecimal => RegisterState {
            status: with_flags(r.status, StatusRegFlags::DECIMAL, true),
            ..r
        },
        ImplicitOperation::ClearInterruptDisable => RegisterState {
            status: with_flags(r.status, StatusRegFlags::IRQ_DISABLE, false),
            ..r
        },
        ImplicitOperation::SetInterruptDisable => RegisterState {
            status: with_flags(r.status, StatusRegFlags::IRQ_DISABLE, true),
            ..r
        },
        ImplicitOperation::ClearOverflow => RegisterState {
            status: with_flags(r.status, StatusRegFlags::OVERFLOW, false),
            ..r
        },
        ImplicitOperation::SetOverflow => RegisterState {
            status: with_flags(r.status, StatusRegFlags::OVERFLOW, true),
            ..r
        },
        ImplicitOperation::TransferAccumulatorToX => RegisterState {
            x: r.a,
            status: nz_status(r.status, r.a),
            ..r
        },
        ImplicitOperation::TransferAccumulatorToY => RegisterState {
            y: r.a,
            status: nz_status(r.status, r.a),
            ..r
        },
        ImplicitOperation::TransferXToAccumulator => RegisterState {
            a: r.x,
            status: nz_status(r.status, r.x),
            ..r
        },
        ImplicitOperation::TransferYToAccumulator => RegisterState {
            a: r.y,
            status: nz_status(r.status, r.y),
            ..r
        },
        ImplicitOperation::TransferStackPtrToX => RegisterState {
            x: r.sp,
            status: nz_status(r.status, r.sp),
            ..r
        },
        ImplicitOperation::TransferXToStackPtr => RegisterState { sp: r.x, ..r },
    }
}

/// The registers after a read-modify-write operation on the temporary register.
pub open spec fn modify_next(op: MemoryModifyOperation, r: RegisterState) -> RegisterState {
    match op {
        MemoryModifyOperation::IncrementMemory => RegisterState {
            tmp: inc8(r.tmp),
            status: nz_status(r.status, inc8(r.tmp)),
            ..r
        },
        MemoryModifyOperation::DecrementMemory => RegisterState {
            tmp: dec8(r.tmp),
            status: nz_status(r.status, dec8(r.tmp)),
            ..r
        },
        MemoryModifyOperation::ShiftLeftMemory => RegisterState {
            tmp: asl_value(r.tmp),
            status: shift_status(r.status, asl_value(r.tmp), r.tmp >= 128),
            ..r
        },
        MemoryModifyOperation::ShiftRightMemory => RegisterState {
            tmp: lsr_value(r.tmp),
            status: shift_status(r.status, lsr_value(r.tmp), r.tmp % 2 == 1),
            ..r
        },
        MemoryModifyOperation::RotateLeftMemory => RegisterState {
            tmp: rol_value(r.tmp, r.status),
            status: shift_status(r.status, rol_value(r.tmp, r.status), r.tmp >= 128),
            ..r
        },
        MemoryModifyOperation::RotateRightMemory => RegisterState {
            tmp: ror_value(r.tmp, r.status),
            status: shift_status(r.status, ror_value(r.tmp, r.status), r.tmp % 2 == 1),
            ..r
        },
    }
}

/// Whether a conditional branch is taken with the status flags `s`.
pub open spec fn branch_taken(op: BranchOperation, s: u8) -> bool {
    match op {
        BranchOperation::BranchPlus => !flags_set(s, StatusRegFlags::NEGATIVE),
        BranchOperation::BranchMinus => flags_set(s, StatusRegFlags::NEGATIVE),
        BranchOperation::BranchEqual => flags_set(s, StatusRegFlags::ZERO),
        BranchOperation::BranchNotEqual => !flags_set(s, StatusRegFlags::ZERO),
        BranchOperation::BranchCarryClear => !flags_set(s, StatusRegFlags::CARRY),
        BranchOperation::BranchCarrySet => flags_set(s, StatusRegFlags::CARRY),
        BranchOperation::BranchOverflowClear => !flags_set(s, StatusRegFlags::OVERFLOW),
        BranchOperation::BranchOverflowSet => flags_set(s, StatusRegFlags::OVERFLOW),
    }
}

/// The branch target: the program counter plus the signed offset in the
/// temporary register, modulo 2^16.
pub open spec fn branch_target(r: RegisterState) -> u16 {
    ((r.pc + signed(r.tmp) + 65536) % 65536) as u16
}

/// Registers and end status of the branch decision cycle; `next` is the byte
/// read at the program counter (the next opcode when the branch is not taken).
pub open spec fn branch_next(taken: bool, r: RegisterState, next: u8) -> (RegisterState, ClockEndStatus) {
    if taken {
        let t = branch_target(r);
        (
            RegisterState { pc: t, ..r },
            if hi_byte(t) != hi_byte(r.pc) {
                ClockEndStatus::Continue
            } else {
                ClockEndStatus::EndInstruction
            },
        )
    } else {
        (
            RegisterState { pc: inc16(r.pc), ir: next, ..r },
            ClockEndStatus::EndInstructionNextFetched { opcode_addr: r.pc },
        )
    }
}

// ---------------------------------------------------------------------------
// Sequences

/// How many cycles (steps) a sequence takes after its opcode fetch, at most.
pub open spec fn num_steps(i: Instruction) -> nat {
    match i {
        Instruction::FetchInstr => 1,
        Instruction::Break => 6,
        Instruction::StartIrq => 7,
        Instruction::StartNmi => 7,
        Instruction::Reset => 6,
        Instruction::ReturnInterrupt => 5,
        Instruction::JumpSubroutine => 5,
        Instruction::ReturnSubroutine => 5,
        Instruction::Push(_) => 2,
        Instruction::Pull(_) => 3,
        Instruction::Implied(_) => 1,
        Instruction::Immediate(_) => 1,
        Instruction::AbsoluteJump => 2,
        Instruction::Absolute(_) => 3,
        Instruction::AbsoluteReadModifyWrite(_) => 5,
        Instruction::ZeroPage(_) => 2,
        Instruction::ZeroPageReadModifyWrite(_) => 4,
        Instruction::ZeroPageIdx(_, _) => 3,
        Instruction::ZeroPageIdxReadModifyWrite(_, _) => 5,
        Instruction::AbsoluteIdxRead(_, _) => 4,
        Instruction::AbsoluteIdxReadModifyWrite(_, _) => 6,
        Instruction::AbsoluteIdxWrite(_, _) => 4,
        Instruction::Relative(_) => 3,
        Instruction::ZeroPageIdxIndirect(_, _) => 5,
        Instruction::ZeroPageIdxIndirectReadModifyWrite(_, _) => 7,
        Instruction::ZeroPageIndirectIdxRead(_, _) => 5,
        Instruction::ZeroPageIndirectIdxReadModifyWrite(_, _) => 7,
        Instruction::ZeroPageIndirectIdxWrite(_, _) => 5,
        Instruction::AbsoluteIndirectJump => 4,
    }
}

/// Status after a step that continues the instruction.
pub open spec fn go_on(r: RegisterState) -> (RegisterState, ClockEndStatus) {
    (r, ClockEndStatus::Continue)
}

/// Status after the last step of an instruction.
pub open spec fn done(r: RegisterState) -> (RegisterState, ClockEndStatus) {
    (r, ClockEndStatus::EndInstruction)
}

/// The status byte pushed by an interrupt sequence.
pub open spec fn pushed_status(s: u8, set_break_flag: bool) -> u8 {
    if set_break_flag {
        s | StatusRegFlags::BREAK
    } else {
        s
    }
}

/// Bus transaction of an interrupt sequence (IRQ or NMI); `brk` tells whether
/// the pushed status carries the BREAK flag.
pub open spec fn interrupt_bus(step: u8, r: RegisterState, v: InterruptVector, brk: bool) -> BusCycle {
    match step {
        0 | 1 => BusCycle::Read(r.pc),
        2 => BusCycle::Write(stack_address(r.sp), hi_byte(r.pc)),
        3 => BusCycle::Write(stack_address(r.sp), lo_byte(r.pc)),
        4 => BusCycle::Write(stack_address(r.sp), pushed_status(r.status, brk)),
        5 => BusCycle::Read(vector_addr(v, InterruptVectorAddrBytePos::Low)),
        _ => BusCycle::Read(vector_addr(v, InterruptVectorAddrBytePos::High)),
    }
}

/// Registers and end status of an interrupt sequence step.
pub open spec fn interrupt_next(step: u8, r: RegisterState, v: InterruptVector, d: u8) -> (RegisterState, ClockEndStatus) {
    match step {
        0 | 1 => go_on(r),
        2 | 3 => go_on(pushed(r)),
        4 => go_on(
            RegisterState {
                status: with_flags(r.status, StatusRegFlags::IRQ_DISABLE, true),
                ..pushed(r)
            },
        ),
        5 => go_on(
            RegisterState {
                addr: vector_addr(v, InterruptVectorAddrBytePos::Low),
                pc: make_word(hi_byte(r.pc), d),
                ..r
            },
        ),
        _ => done(
            RegisterState {
                addr: vector_addr(v, InterruptVectorAddrBytePos::High),
                pc: make_word(d, lo_byte(r.pc)),
                ..r
            },
        ),
    }
}

/// Bus transaction of the BRK sequence.
pub open spec fn break_bus(step: u8, r: RegisterState) -> BusCycle {
    match step {
        0 => BusCycle::Read(r.pc),
        1 => BusCycle::Write(stack_address(r.sp), hi_byte(r.pc)),
        2 => BusCycle::Write(stack_address(r.sp), lo_byte(r.pc)),
        3 => BusCycle::Write(stack_address(r.sp), r.status | StatusRegFlags::BREAK),
        4 => BusCycle::Read(0xFFFE),
        _ => BusCycle::Read(0xFFFF),
    }
}

/// Registers and end status of a BRK step.
pub open spec fn break_next(step: u8, r: RegisterState, d: u8) -> (RegisterState, ClockEndStatus) {
    match step {
        0 => go_on(pc_inc(r)),
        1 | 2 => go_on(pushed(r)),
        3 => go_on(
            RegisterState {
                status: with_flags(r.status, StatusRegFlags::IRQ_DISABLE, true),
                ..pushed(r)
            },
        ),
        4 => go_on(RegisterState { addr: 0xFFFE, pc: make_word(hi_byte(r.pc), d), ..r }),
        _ => done(RegisterState { addr: 0xFFFF, pc: make_word(d, lo_byte(r.pc)), ..r }),
    }
}

/// Bus transaction of the reset sequence.
pub open spec fn reset_bus(step: u8, r: RegisterState) -> BusCycle {
    match step {
        0 => BusCycle::Read(r.pc),
        1 | 2 => BusCycle::Read(stack_address(r.sp)),
        3 => BusCycle::Write(stack_address(r.sp), r.status),
        4 => BusCycle::Read(0xFFFC),
        _ => BusCycle::Read(0xFFFD),
    }
}

/// Registers and end status of a reset step.
pub open spec fn reset_next(step: u8, r: RegisterState, d: u8) -> (RegisterState, ClockEndStatus) {
    match step {
        0 => go_on(r),
        1 | 2 | 3 => go_on(pushed(r)),
        4 => go_on(RegisterState { addr: 0xFFFC, pc: make_word(hi_byte(r.pc), d), ..r }),
        _ => done(RegisterState { addr: 0xFFFD, pc: make_word(d, lo_byte(r.pc)), ..r }),
    }
}

/// Bus transaction of the RTI sequence.
pub open spec fn return_interrupt_bus(step: u8, r: RegisterState) -> BusCycle {
    match step {
        0 => BusCycle::Read(r.pc),
        1 => BusCycle::Idle,
        _ => BusCycle::Read(stack_address(r.sp)),
    }
}

/// Registers and end status of an RTI step.
pub open spec fn return_interrupt_next(step: u8, r: RegisterState, d: u8) -> (RegisterState, ClockEndStatus) {
    match step {
        0 => go_on(r),
        1 => go_on(RegisterState { sp: inc8(r.sp), ..r }),
        2 => go_on(
            RegisterState {
                status: pulled_status(r.status, d),
                sp: inc8(r.sp),
                ..at_stack(r)
            },
        ),
        3 => go_on(RegisterState { pc: make_word(hi_byte(r.pc), d), sp: inc8(r.sp), ..at_stack(r) }),
        _ => done(RegisterState { pc: make_word(d, lo_byte(r.pc)), ..at_stack(r) }),
    }
}

/// Bus transaction of the JSR sequence.
pub open spec fn jump_subroutine_bus(step: u8, r: RegisterState) -> BusCycle {
    match step {
        0 | 4 => BusCycle::Read(r.pc),
        1 => BusCycle::Read(stack_address(r.sp)),
        2 => BusCycle::Write(stack_address(r.sp), hi_byte(r.pc)),
        _ => BusCycle::Write(stack_address(r.sp), lo_byte(r.pc)),
    }
}

/// Registers and end status of a JSR step.
pub open spec fn jump_subroutine_next(step: u8, r: RegisterState, d: u8) -> (RegisterState, ClockEndStatus) {
    match step {
        0 => go_on(RegisterState { tmp: d, pc: inc16(r.pc), ..r }),
        1 => go_on(at_stack(r)),
        2 | 3 => go_on(pushed(r)),
        _ => done(RegisterState { pc: make_word(d, r.tmp), ..r }),
    }
}

/// Bus transaction of the RTS sequence.
pub open spec fn return_subroutine_bus(step: u8, r: RegisterState) -> BusCycle {
    match step {
        0 => BusCycle::Read(r.pc),
        1 | 4 => BusCycle::Idle,
        _ => BusCycle::Read(stack_address(r.sp)),
    }
}

/// Registers and end status of an RTS step.
pub open spec fn return_subroutine_next(step: u8, r: RegisterState, d: u8) -> (RegisterState, ClockEndStatus) {
    match step {
        0 => go_on(r),
        1 => go_on(RegisterState { sp: inc8(r.sp), ..r }),
        2 => go_on(RegisterState { tmp: d, sp: inc8(r.sp), ..at_stack(r) }),
        3 => go_on(RegisterState { pc: make_word(d, r.tmp), ..at_stack(r) }),
        _ => done(pc_inc(r)),
    }
}

/// Bus transaction of PHA/PHP.
pub open spec fn push_bus(step: u8, r: RegisterState, op: PushStackOperation) -> BusCycle {
    match step {
        0 => BusCycle::Read(r.pc),
        _ => BusCycle::Write(
            stack_address(r.sp),
            match op {
                PushStackOperation::PushA => r.a,
                PushStackOperation::PushStatus => r.status | 0x30,
            },
        ),
    }
}

/// Registers and end status of a PHA/PHP step.
pub open spec fn push_next(step: u8, r: RegisterState) -> (RegisterState, ClockEndStatus) {
    match step {
        0 => go_on(r),
        _ => done(pushed(r)),
    }
}

/// Bus transaction of PLA/PLP.
pub open spec fn pull_bus(step: u8, r: RegisterState) -> BusCycle {
    match step {
        0 => BusCycle::Read(r.pc),
        1 => BusCycle::Idle,
        _ => BusCycle::Read(stack_address(r.sp)),
    }
}

/// Registers and end status of a PLA/PLP step.
pub open spec fn pull_next(step: u8, r: RegisterState, op: PullStackOperation, d: u8) -> (RegisterState, ClockEndStatus) {
    match step {
        0 => go_on(r),
        1 => go_on(RegisterState { sp: inc8(r.sp), ..r }),
        _ => done(
            match op {
                PullStackOperation::PullA => RegisterState {
                    a: d,
                    status: nz_status(r.status, d),
                    ..at_stack(r)
                },
                PullStackOperation::PullStatus => RegisterState {
                    status: pulled_status(r.status, d),
                    ..at_stack(r)
                },
            },
        ),
    }
}

/// Registers with the address register set from the program counter, which
/// then advances (immediate operand).
pub open spec fn immediate_regs(r: RegisterState) -> RegisterState {
    RegisterState { addr: r.pc, pc: inc16(r.pc), ..r }
}

/// Registers after reading the low byte of an absolute address.
pub open spec fn abs_lo(r: RegisterState, d: u8) -> RegisterState {
    pc_inc(with_addr_lo(r, d))
}

/// Registers after reading the high byte of an absolute address.
pub open spec fn abs_hi(r: RegisterState, d: u8) -> RegisterState {
    pc_inc(with_addr_hi(r, d))
}

/// Registers after reading a zero-page address.
pub open spec fn zp_addr(r: RegisterState, d: u8) -> RegisterState {
    RegisterState { addr: make_word(0, d), pc: inc16(r.pc), ..r }
}

/// Registers after loading the high byte of a pointer: the address register
/// holds the pointed address (high byte `d`, low byte from the temporary register).
pub open spec fn pointer_loaded(r: RegisterState, d: u8) -> RegisterState {
    RegisterState { addr: make_word(d, r.tmp), ..r }
}

/// Bus transaction of the last (data) steps of a read-modify-write sequence;
/// `k` is the step of the read of the operand.
pub open spec fn rmw_bus(step: u8, k: u8, r: RegisterState) -> BusCycle {
    if step == k {
        BusCycle::Read(r.addr)
    } else {
        BusCycle::Write(r.addr, r.tmp)
    }
}

/// Registers and end status of the last (data) steps of a read-modify-write sequence.
pub open spec fn rmw_next(step: u8, k: u8, r: RegisterState, op: MemoryModifyOperation, d: u8) -> (RegisterState, ClockEndStatus) {
    if step == k {
        go_on(RegisterState { tmp: d, ..r })
    } else if step == k + 1 {
        go_on(modify_next(op, r))
    } else {
        done(r)
    }
}

/// The bus transaction of a cycle of an instruction sequence at a step.
pub open spec fn cycle_bus(i: Instruction, step: u8, r: RegisterState) -> BusCycle {
    match i {
        Instruction::FetchInstr => BusCycle::Read(r.pc),
        Instruction::Break => break_bus(step, r),
        Instruction::StartIrq => interrupt_bus(step, r, InterruptVector::Interrupt, false),
        Instruction::StartNmi => interrupt_bus(step, r, InterruptVector::NonMaskableInterrupt, false),
        Instruction::Reset => reset_bus(step, r),
        Instruction::ReturnInterrupt => return_interrupt_bus(step, r),
        Instruction::JumpSubroutine => jump_subroutine_bus(step, r),
        Instruction::ReturnSubroutine => return_subroutine_bus(step, r),
        Instruction::Push(op) => push_bus(step, r, op),
        Instruction::Pull(_) => pull_bus(step, r),
        Instruction::Implied(_) => BusCycle::Idle,
        Instruction::Immediate(op) => op_bus(op, immediate_regs(r)),
        Instruction::AbsoluteJump => BusCycle::Read(r.pc),
        Instruction::Absolute(op) => if step < 2 {
            BusCycle::Read(r.pc)
        } else {
            op_bus(op, r)
        },
        Instruction::AbsoluteReadModifyWrite(_) => if step < 2 {
            BusCycle::Read(r.pc)
        } else {
            rmw_bus(step, 2, r)
        },
        Instruction::ZeroPage(op) => if step == 0 {
            BusCycle::Read(r.pc)
        } else {
            op_bus(op, r)
        },
        Instruction::ZeroPageReadModifyWrite(_) => if step == 0 {
            BusCycle::Read(r.pc)
        } else {
            rmw_bus(step, 1, r)
        },
        Instruction::ZeroPageIdx(op, _) => if step == 0 {
            BusCycle::Read(r.pc)
        } else if step == 1 {
            BusCycle::Read(r.addr)
        } else {
            op_bus(op, r)
        },
        Instruction::ZeroPageIdxReadModifyWrite(_, _) => if step == 0 {
            BusCycle::Read(r.pc)
        } else if step == 1 {
            BusCycle::Read(r.addr)
        } else {
            rmw_bus(step, 2, r)
        },
        Instruction::AbsoluteIdxRead(op, idx) => if step < 2 {
            BusCycle::Read(r.pc)
        } else if step == 2 {
            if page_crossed(indexed(r, idx), index_value(r, idx)) {
                BusCycle::Read(fixed(indexed(r, idx), index_value(r, idx)).addr)
            } else {
                op_bus(op, indexed(r, idx))
            }
        } else {
            op_bus(op, r)
        },
        Instruction::AbsoluteIdxReadModifyWrite(_, idx) => if step < 2 {
            BusCycle::Read(r.pc)
        } else if step == 2 {
            BusCycle::Read(indexed(r, idx).addr)
        } else {
            rmw_bus(step, 3, r)
        },
        Instruction::AbsoluteIdxWrite(op, idx) => if step < 2 {
            BusCycle::Read(r.pc)
        } else if step == 2 {
            BusCycle::Read(indexed(r, idx).addr)
        } else {
            op_bus(op, r)
        },
        Instruction::Relative(_) => if step < 2 {
            BusCycle::Read(r.pc)
        } else {
            BusCycle::Idle
        },
        Instruction::ZeroPageIdxIndirect(op, _) => if step < 2 {
            BusCycle::Read(r.pc)
        } else if step == 2 {
            BusCycle::Read(r.addr)
        } else if step == 3 {
            BusCycle::Read(next_in_page(r.addr))
        } else {
            op_bus(op, r)
        },
        Instruction::ZeroPageIdxIndirectReadModifyWrite(_, _) => if step < 2 {
            BusCycle::Read(r.pc)
        } else if step == 2 {
            BusCycle::Read(r.addr)
        } else if step == 3 {
            BusCycle::Read(next_in_page(r.addr))
        } else {
            rmw_bus(step, 4, r)
        },
        Instruction::ZeroPageIndirectIdxRead(op, idx) => if step == 0 {
            BusCycle::Read(r.pc)
        } else if step == 1 {
            BusCycle::Read(r.addr)
        } else if step == 2 {
            BusCycle::Read(next_in_page(r.addr))
        } else if step == 3 {
            if page_crossed(r, index_value(r, idx)) {
                BusCycle::Read(fixed(r, index_value(r, idx)).addr)
            } else {
                op_bus(op, r)
            }
        } else {
            op_bus(op, r)
        },
        Instruction::ZeroPageIndirectIdxReadModifyWrite(_, _) => if step == 0 {
            BusCycle::Read(r.pc)
        } else if step == 1 || step == 3 {
            BusCycle::Read(r.addr)
        } else if step == 2 {
            BusCycle::Read(next_in_page(r.addr))
        } else {
            rmw_bus(step, 4, r)
        },
        Instruction::ZeroPageIndirectIdxWrite(op, _) => if step == 0 {
            BusCycle::Read(r.pc)
        } else if step == 1 || step == 3 {
            BusCycle::Read(r.addr)
        } else if step == 2 {
            BusCycle::Read(next_in_page(r.addr))
        } else {
            op_bus(op, r)
        },
        Instruction::AbsoluteIndirectJump => if step < 2 {
            BusCycle::Read(r.pc)
        } else if step == 2 {
            BusCycle::Read(r.addr)
        } else {
            BusCycle::Read(next_in_page(r.addr))
        },
    }
}

/// The registers after a cycle and whether the instruction goes on, given
/// the byte `d` handed back by the cycle's read (if any).
pub open spec fn cycle_next(i: Instruction, step: u8, r: RegisterState, d: u8) -> (RegisterState, ClockEndStatus) {
    match i {
        Instruction::FetchInstr => (
            RegisterState { ir: d, pc: inc16(r.pc), ..r },
            ClockEndStatus::EndInstructionNextFetched { opcode_addr: r.pc },
        ),
        Instruction::Break => break_next(step, r, d),
        Instruction::StartIrq => interrupt_next(step, r, InterruptVector::Interrupt, d),
        Instruction::StartNmi => interrupt_next(step, r, InterruptVector::NonMaskableInterrupt, d),
        Instruction::Reset => reset_next(step, r, d),
        Instruction::ReturnInterrupt => return_interrupt_next(step, r, d),
        Instruction::JumpSubroutine => jump_subroutine_next(step, r, d),
        Instruction::ReturnSubroutine => return_subroutine_next(step, r, d),
        Instruction::Push(_) => push_next(step, r),
        Instruction::Pull(op) => pull_next(step, r, op, d),
        Instruction::Implied(op) => done(implicit_next(op, r)),
        Instruction::Immediate(op) => done(op_next(op, immediate_regs(r), d)),
        Instruction::AbsoluteJump => if step == 0 {
            go_on(RegisterState { tmp: d, pc: inc16(r.pc), ..r })
        } else {
            done(RegisterState { pc: make_word(d, r.tmp), ..r })
        },
        Instruction::Absolute(op) => if step == 0 {
            go_on(abs_lo(r, d))
        } else if step == 1 {
            go_on(abs_hi(r, d))
        } else {
            done(op_next(op, r, d))
        },
        Instruction::AbsoluteReadModifyWrite(op) => if step == 0 {
            go_on(abs_lo(r, d))
        } else if step == 1 {
            go_on(abs_hi(r, d))
        } else {
            rmw_next(step, 2, r, op, d)
        },
        Instruction::ZeroPage(op) => if step == 0 {
            go_on(zp_addr(r, d))
        } else {
            done(op_next(op, r, d))
        },
        Instruction::ZeroPageReadModifyWrite(op) => if step == 0 {
            go_on(zp_addr(r, d))
        } else {
            rmw_next(step, 1, r, op, d)
        },
        Instruction::ZeroPageIdx(op, idx) => if step == 0 {
            go_on(zp_addr(r, d))
        } else if step == 1 {
            go_on(indexed(r, idx))
        } else {
            done(op_next(op, r, d))
        },
        Instruction::ZeroPageIdxReadModifyWrite(op, idx) => if step == 0 {
            go_on(zp_addr(r, d))
        } else if step == 1 {
            go_on(indexed(r, idx))
        } else {
            rmw_next(step, 2, r, op, d)
        },
        Instruction::AbsoluteIdxRead(op, idx) => if step == 0 {
            go_on(abs_lo(r, d))
        } else if step == 1 {
            go_on(abs_hi(r, d))
        } else if step == 2 {
            let ri = indexed(r, idx);
            if page_crossed(ri, index_value(r, idx)) {
                go_on(fixed(ri, index_value(r, idx)))
            } else {
                done(op_next(op, ri, d))
            }
        } else {
            done(op_next(op, r, d))
        },
        Instruction::AbsoluteIdxReadModifyWrite(op, idx) => if step == 0 {
            go_on(abs_lo(r, d))
        } else if step == 1 {
            go_on(abs_hi(r, d))
        } else if step == 2 {
            go_on(fixed(indexed(r, idx), index_value(r, idx)))
        } else {
            rmw_next(step, 3, r, op, d)
        },
        Instruction::AbsoluteIdxWrite(op, idx) => if step == 0 {
            go_on(abs_lo(r, d))
        } else if step == 1 {
            go_on(abs_hi(r, d))
        } else if step == 2 {
            go_on(fixed(indexed(r, idx), index_value(r, idx)))
        } else {
            done(op_next(op, r, d))
        },
        Instruction::Relative(op) => if step == 0 {
            go_on(RegisterState { tmp: d, pc: inc16(r.pc), ..r })
        } else if step == 1 {
            branch_next(branch_taken(op, r.status), r, d)
        } else {
            done(r)
        },
        Instruction::ZeroPageIdxIndirect(op, idx) => if step == 0 {
            go_on(zp_addr(r, d))
        } else if step == 1 {
            go_on(indexed(r, idx))
        } else if step == 2 {
            go_on(RegisterState { tmp: d, ..r })
        } else if step == 3 {
            go_on(pointer_loaded(r, d))
        } else {
            done(op_next(op, r, d))
        },
        Instruction::ZeroPageIdxIndirectReadModifyWrite(op, idx) => if step == 0 {
            go_on(zp_addr(r, d))
        } else if step == 1 {
            go_on(indexed(r, idx))
        } else if step == 2 {
            go_on(RegisterState { tmp: d, ..r })
        } else if step == 3 {
            go_on(pointer_loaded(r, d))
        } else {
            rmw_next(step, 4, r, op, d)
        },
        Instruction::ZeroPageIndirectIdxRead(op, idx) => if step == 0 {
            go_on(zp_addr(r, d))
        } else if step == 1 {
            go_on(RegisterState { tmp: d, ..r })
        } else if step == 2 {
            go_on(indexed(pointer_loaded(r, d), idx))
        } else if step == 3 {
            if page_crossed(r, index_value(r, idx)) {
                go_on(fixed(r, index_value(r, idx)))
            } else {
                done(op_next(op, r, d))
            }
        } else {
            done(op_next(op, r, d))
        },
        Instruction::ZeroPageIndirectIdxReadModifyWrite(op, idx) => if step == 0 {
            go_on(zp_addr(r, d))
        } else if step == 1 {
            go_on(RegisterState { tmp: d, ..r })
        } else if step == 2 {
            go_on(indexed(pointer_loaded(r, d), idx))
        } else if step == 3 {
            go_on(fixed(r, index_value(r, idx)))
        } else {
            rmw_next(step, 4, r, op, d)
        },
        Instruction::ZeroPageIndirectIdxWrite(op, idx) => if step == 0 {
            go_on(zp_addr(r, d))
        } else if step == 1 {
            go_on(RegisterState { tmp: d, ..r })
        } else if step == 2 {
            go_on(indexed(pointer_loaded(r, d), idx))
        } else if step == 3 {
            go_on(fixed(r, index_value(r, idx)))
        } else {
            done(op_next(op, r, d))
        },
        Instruction::AbsoluteIndirectJump => if step == 0 {
            go_on(RegisterState { tmp: d, pc: inc16(r.pc), ..r })
        } else if step == 1 {
            go_on(RegisterState { addr: make_word(d, r.tmp), pc: inc16(r.pc), ..r })
        } else if step == 2 {
            go_on(RegisterState { tmp: d, ..r })
        } else {
            done(
                RegisterState {
                    addr: next_in_page(r.addr),
                    pc: make_word(d, r.tmp),
                    ..r
                },
            )
        },
    }
}

/// One cycle of instruction `i` at `step` took the registers from `r0` to
/// `r1` and the memory from `m0` to `m1`, and ended with `status`.
#[verifier::opaque]
pub open spec fn cycle_performed<M: MemorySpace>(
    i: Instruction,
    step: u8,
    r0: RegisterState,
    m0: M,
    r1: RegisterState,
    m1: M,
    status: ClockEndStatus,
) -> bool {
    let bus = cycle_bus(i, step, r0);
    let next = cycle_next(i, step, r0, bus_data(bus, m0));
    &&& m1 == apply_bus(bus, m0)
    &&& r1 == next.0
    &&& status == next.1
}

} // verus!

verus! {

/// An instruction never asks for a cycle beyond its sequence: a step that
/// continues is followed by a step that the sequence still has, so the last
/// step of every sequence ends the instruction.
pub proof fn lemma_continue_within_sequence(i: Instruction, step: u8, r: RegisterState, d: u8)
    requires
        step < num_steps(i),
    ensures
        cycle_next(i, step, r, d).1 is Continue ==> step + 1 < num_steps(i),
        step + 1 == num_steps(i) ==> !(cycle_next(i, step, r, d).1 is Continue),
{
}

} // verus!

verus! {

/// The registers and the memory after the first `k` steps of a sequence,
/// started from registers `r` and memory `m`.
#[verifier::opaque]
pub open spec fn run_steps<M: MemorySpace>(i: Instruction, k: nat, r: RegisterState, m: M) -> (RegisterState, M)
    decreases k,
{
    if k == 0 {
        (r, m)
    } else {
        let prev = run_steps(i, (k - 1) as nat, r, m);
        let bus = cycle_bus(i, (k - 1) as u8, prev.0);
        (cycle_next(i, (k - 1) as u8, prev.0, bus_data(bus, prev.1)).0, apply_bus(bus, prev.1))
    }
}

} // verus!

verus! {

/// The step from which on a sequence may end: the step that adds an index
/// to an address (indexed absolute and indirect indexed reads, which end
/// there when no page is crossed), the step after the offset fetch of a
/// branch (which ends there when the branch is not taken), and otherwise the
/// last step.
pub open spec fn first_end_step(i: Instruction) -> nat {
    match i {
        Instruction::AbsoluteIdxRead(_, _) => 2,
        Instruction::ZeroPageIndirectIdxRead(_, _) => 3,
        Instruction::Relative(_) => 1,
        _ => (num_steps(i) - 1) as nat,
    }
}

/// Every step before `first_end_step` asks for another cycle, and the last
/// step of every sequence ends the instruction. With `num_steps` this gives
/// the length of every sequence: all steps for most, and for the three
/// sequences above a length that the page-crossing and branch laws fix.
pub proof fn lemma_steps_continue(i: Instruction, j: u8, r: RegisterState, d: u8)
    requires
        j < num_steps(i),
    ensures
        j < first_end_step(i) ==> cycle_next(i, j, r, d).1 is Continue,
        j + 1 == num_steps(i) ==> !(cycle_next(i, j, r, d).1 is Continue),
{
}

/// Running the steps of a sequence one call at a time follows `run_steps`:
/// when step `k` is performed (as `execute` states with `cycle_performed`)
/// from the registers and memory that the first `k` steps left, the result is
/// what the first `k + 1` steps leave.
pub proof fn lemma_execute_extends_run<M: MemorySpace>(
    i: Instruction,
    k: nat,
    r0: RegisterState,
    m0: M,
    r1: RegisterState,
    m1: M,
    status: ClockEndStatus,
)
    requires
        k < 256,
        cycle_performed(
            i,
            k as u8,
            run_steps(i, k, r0, m0).0,
            run_steps(i, k, r0, m0).1,
            r1,
            m1,
            status,
        ),
    ensures
        run_steps(i, k + 1, r0, m0) == (r1, m1),
{
    reveal(run_steps);
    reveal(cycle_performed);
}

/// The stack lives in page 1: every stack address is in 0x0100..=0x01FF.
pub proof fn lemma_stack_in_page_one(sp: u8)
    ensures
        0x0100 <= stack_address(sp) <= 0x01FF,
        stack_address(sp) == 0x0100 + sp,
{
}

/// An indexed absolute read takes one more cycle exactly when adding the
/// index to the low byte of the address carries into the high byte; the
/// extra cycle fixes the high byte.
pub proof fn lemma_indexed_read_page_penalty(
    op: RegisterMemoryOperation,
    idx: IndexRegister,
    r: RegisterState,
    d: u8,
)
    ensures
        cycle_next(Instruction::AbsoluteIdxRead(op, idx), 2, r, d).1 is Continue
            <==> lo_byte(r.addr) + index_value(r, idx) > 255,
        lo_byte(r.addr) + index_value(r, idx) > 255 ==> cycle_next(
            Instruction::AbsoluteIdxRead(op, idx),
            2,
            r,
            d,
        ).0.addr == (r.addr + index_value(r, idx)) % 65536,
{
    let v = index_value(r, idx);
    let lo = lo_byte(r.addr);
    let hi = hi_byte(r.addr);
    let ri = indexed(r, idx);
    assert(r.addr == hi * 256 + lo);
    assert(ri.addr == make_word(hi, ((lo + v) % 256) as u8));
    assert(lo_byte(ri.addr) == ((lo + v) % 256) as u8);
    assert(hi_byte(ri.addr) == hi);
    assert(v > ((lo + v) % 256) as u8 <==> lo + v > 255);
    if lo + v > 255 {
        let f = fixed(ri, v);
        assert(f.addr == make_word(inc8(hi), ((lo + v) % 256) as u8));
        assert(f.addr == (r.addr + v) % 65536) by (nonlinear_arith)
            requires
                r.addr == hi * 256 + lo,
                f.addr == ((((hi + 1) % 256) * 256 + (lo + v - 256)) as u16),
                lo + v > 255,
                lo < 256,
                v < 256,
                hi < 256,
        ;
    }
}

/// A taken branch takes one more cycle exactly when its target lies in
/// another page than the address after the branch; a branch not taken ends
/// with the next opcode already fetched.
pub proof fn lemma_branch_page_penalty(op: BranchOperation, r: RegisterState, d: u8)
    ensures
        branch_taken(op, r.status) ==> (cycle_next(Instruction::Relative(op), 1, r, d).1 is Continue
            <==> hi_byte(branch_target(r)) != hi_byte(r.pc)),
        !branch_taken(op, r.status) ==> cycle_next(Instruction::Relative(op), 1, r, d).1
            == (ClockEndStatus::EndInstructionNextFetched { opcode_addr: r.pc }),
{
}

} // verus!
