//! The instructions the CPU executes: an addressing sequence, the operation
//! it carries out and, for indexed sequences, the index register.
use crate::instr::instr_operation::{
    branch_of_op, implicit_of_op, memory_modify_of_op, op_of_branch, op_of_implicit,
    op_of_memory_modify, op_of_pull, op_of_push, op_of_register_memory, pull_of_op, push_of_op,
    register_memory_of_op, BranchOperation, ImplicitOperation, InstructionOp,
    MemoryModifyOperation, PullStackOperation, PushStackOperation, RegisterMemoryOperation,
};
use crate::registers::IndexRegister;
use vstd::prelude::*;

verus! {

/// A 6502 instruction sequence: how an instruction progresses through its
/// cycles, together with the operation it performs and, for the indexed
/// addressing modes, the index register it uses.
#[derive(Copy, Clone, PartialEq, Eq, Structural, Debug)]
pub enum Instruction {
    /// Fetches the next instruction from memory. This is the starting point of every instruction execution cycle.
    FetchInstr,

    /// Handles the BRK instruction (software interrupt).
    Break,

    /// Initiates an Interrupt Request (IRQ) sequence.
    StartIrq,

    /// Initiates a Non-Maskable Interrupt (NMI) sequence.
    StartNmi,

    /// Executes a CPU reset sequence.
    Reset,

    /// Returns from an interrupt (RTI instruction).
    ReturnInterrupt,

    /// Jumps to a subroutine (JSR instruction).
    JumpSubroutine,

    /// Returns from a subroutine (RTS instruction).
    ReturnSubroutine,

    /// Pushes a value onto the stack (PHA, PHP instructions).
    Push(PushStackOperation),

    /// Pulls a value from the stack (PLA, PLP instructions).
    Pull(PullStackOperation),

    /// Executes an implied mode instruction (e.g., TAX, INX, CLC).
    Implied(ImplicitOperation),

    /// Executes an immediate mode instruction (e.g., LDA #$00).
    Immediate(RegisterMemoryOperation),

    /// Jumps to an absolute address (JMP instruction).
    AbsoluteJump,

    /// Executes an absolute mode instruction (e.g., LDA $1234).
    Absolute(RegisterMemoryOperation),

    /// Executes a read-modify-write instruction with absolute addressing (e.g., INC $1234).
    AbsoluteReadModifyWrite(MemoryModifyOperation),

    /// Executes a zero-page mode instruction (e.g., LDA $12).
    ZeroPage(RegisterMemoryOperation),

    /// Executes a read-modify-write instruction with zero-page addressing (e.g., INC $12).
    ZeroPageReadModifyWrite(MemoryModifyOperation),

    /// Executes a zero-page indexed mode instruction (e.g., LDA $12,X).
    ZeroPageIdx(RegisterMemoryOperation, IndexRegister),

    /// Executes a read-modify-write instruction with zero-page indexed addressing (e.g., INC $12,X).
    ZeroPageIdxReadModifyWrite(MemoryModifyOperation, IndexRegister),

    /// Executes an absolute indexed read instruction (e.g., LDA $1234,X).
    AbsoluteIdxRead(RegisterMemoryOperation, IndexRegister),

    /// Executes a read-modify-write instruction with absolute indexed addressing (e.g., INC $1234,X).
    AbsoluteIdxReadModifyWrite(MemoryModifyOperation, IndexRegister),

    /// Executes an absolute indexed write instruction (e.g., STA $1234,X).
    AbsoluteIdxWrite(RegisterMemoryOperation, IndexRegister),

    /// Executes a relative branch instruction (e.g., BEQ, BNE).
    Relative(BranchOperation),

    /// Executes a zero-page indexed indirect instruction (pre-indexed, e.g., LDA ($12,X)).
    ZeroPageIdxIndirect(RegisterMemoryOperation, IndexRegister),

    /// Executes a read-modify-write instruction with zero-page indexed indirect addressing.
    ZeroPageIdxIndirectReadModifyWrite(MemoryModifyOperation, IndexRegister),

    /// Executes a zero-page indirect indexed read instruction (post-indexed, e.g., LDA ($12),Y).
    ZeroPageIndirectIdxRead(RegisterMemoryOperation, IndexRegister),

    /// Executes a read-modify-write instruction with zero-page indirect indexed addressing.
    ZeroPageIndirectIdxReadModifyWrite(MemoryModifyOperation, IndexRegister),

    /// Executes a zero-page indirect indexed write instruction (e.g., STA ($12),Y).
    ZeroPageIndirectIdxWrite(RegisterMemoryOperation, IndexRegister),

    /// Jumps to an address stored at the specified location (JMP ($1234)).
    AbsoluteIndirectJump,
}

impl Default for Instruction {
    fn default() -> (r: Self)
        ensures
            r == Instruction::FetchInstr,
    {
        Instruction::FetchInstr
    }
}

/// The addressing sequence of an instruction, without its operation and
/// index register.
#[derive(Copy, Clone, PartialEq, Eq, Structural, Debug, Hash)]
pub enum InstructionSequenceMode {
    /// Fetches the next instruction from memory. This is the starting point of every instruction execution cycle.
    FetchInstr,

    /// Handles the BRK instruction (software interrupt).
    Break,

    /// Initiates an Interrupt Request (IRQ) sequence.
    StartIrq,

    /// Initiates a Non-Maskable Interrupt (NMI) sequence.
    StartNmi,

    /// Executes a CPU reset sequence.
    Reset,

    /// Returns from an interrupt (RTI instruction).
    ReturnInterrupt,

    /// Jumps to a subroutine (JSR instruction).
    JumpSubroutine,

    /// Returns from a subroutine (RTS instruction).
    ReturnSubroutine,

    /// Pushes a value onto the stack (PHA, PHP instructions).
    Push,

    /// Pulls a value from the stack (PLA, PLP instructions).
    Pull,

    /// Executes an implied mode instruction (e.g., TAX, INX, CLC).
    Implied,

    /// Executes an immediate mode instruction (e.g., LDA #$00).
    Immediate,

    /// Jumps to an absolute address (JMP instruction).
    AbsoluteJump,

    /// Executes an absolute mode instruction (e.g., LDA $1234).
    Absolute,

    /// Executes a read-modify-write instruction with absolute addressing (e.g., INC $1234).
    AbsoluteReadModifyWrite,

    /// Executes a zero-page mode instruction (e.g., LDA $12).
    ZeroPage,

    /// Executes a read-modify-write instruction with zero-page addressing (e.g., INC $12).
    ZeroPageReadModifyWrite,

    /// Executes a zero-page indexed mode instruction (e.g., LDA $12,X).
    ZeroPageIdx,

    /// Executes a read-modify-write instruction with zero-page indexed addressing (e.g., INC $12,X).
    ZeroPageIdxReadModifyWrite,

    /// Executes an absolute indexed read instruction (e.g., LDA $1234,X).
    AbsoluteIdxRead,

    /// Executes a read-modify-write instruction with absolute indexed addressing (e.g., INC $1234,X).
    AbsoluteIdxReadModifyWrite,

    /// Executes an absolute indexed write instruction (e.g., STA $1234,X).
    AbsoluteIdxWrite,

    /// Executes a relative branch instruction (e.g., BEQ, BNE).
    Relative,

    /// Executes a zero-page indexed indirect instruction (pre-indexed, e.g., LDA ($12,X)).
    ZeroPageIdxIndirect,

    /// Executes a read-modify-write instruction with zero-page indexed indirect addressing.
    ZeroPageIdxIndirectReadModifyWrite,

    /// Executes a zero-page indirect indexed read instruction (post-indexed, e.g., LDA ($12),Y).
    ZeroPageIndirectIdxRead,

    /// Executes a read-modify-write instruction with zero-page indirect indexed addressing.
    ZeroPageIndirectIdxReadModifyWrite,

    /// Executes a zero-page indirect indexed write instruction (e.g., STA ($12),Y).
    ZeroPageIndirectIdxWrite,

    /// Jumps to an address stored at the specified location (JMP ($1234)).
    AbsoluteIndirectJump,
}

impl Default for InstructionSequenceMode {
    fn default() -> (r: Self)
        ensures
            r == InstructionSequenceMode::FetchInstr,
    {
        InstructionSequenceMode::FetchInstr
    }
}

/// The sequence mode, operation and index register of an instruction; the
/// defaults (NOP and X) stand in where the instruction has none.
pub open spec fn instruction_parts(i: Instruction) -> (InstructionSequenceMode, InstructionOp, IndexRegister) {
    match i {
        Instruction::FetchInstr => (InstructionSequenceMode::FetchInstr, InstructionOp::Nop, IndexRegister::X),
        Instruction::Break => (InstructionSequenceMode::Break, InstructionOp::Nop, IndexRegister::X),
        Instruction::StartIrq => (InstructionSequenceMode::StartIrq, InstructionOp::Nop, IndexRegister::X),
        Instruction::StartNmi => (InstructionSequenceMode::StartNmi, InstructionOp::Nop, IndexRegister::X),
        Instruction::Reset => (InstructionSequenceMode::Reset, InstructionOp::Nop, IndexRegister::X),
        Instruction::ReturnInterrupt => (InstructionSequenceMode::ReturnInterrupt, InstructionOp::Nop, IndexRegister::X),
        Instruction::JumpSubroutine => (InstructionSequenceMode::JumpSubroutine, InstructionOp::Nop, IndexRegister::X),
        Instruction::ReturnSubroutine => (InstructionSequenceMode::ReturnSubroutine, InstructionOp::Nop, IndexRegister::X),
        Instruction::Push(op) => (InstructionSequenceMode::Push, op_of_push(op), IndexRegister::X),
        Instruction::Pull(op) => (InstructionSequenceMode::Pull, op_of_pull(op), IndexRegister::X),
        Instruction::Implied(op) => (InstructionSequenceMode::Implied, op_of_implicit(op), IndexRegister::X),
        Instruction::Immediate(op) => (InstructionSequenceMode::Immediate, op_of_register_memory(op), IndexRegister::X),
        Instruction::AbsoluteJump => (InstructionSequenceMode::AbsoluteJump, InstructionOp::Nop, IndexRegister::X),
        Instruction::Absolute(op) => (InstructionSequenceMode::Absolute, op_of_register_memory(op), IndexRegister::X),
        Instruction::AbsoluteReadModifyWrite(op) => (InstructionSequenceMode::AbsoluteReadModifyWrite, op_of_memory_modify(op), IndexRegister::X),
        Instruction::ZeroPage(op) => (InstructionSequenceMode::ZeroPage, op_of_register_memory(op), IndexRegister::X),
        Instruction::ZeroPageReadModifyWrite(op) => (InstructionSequenceMode::ZeroPageReadModifyWrite, op_of_memory_modify(op), IndexRegister::X),
        Instruction::ZeroPageIdx(op, idx) => (InstructionSequenceMode::ZeroPageIdx, op_of_register_memory(op), idx),
        Instruction::ZeroPageIdxReadModifyWrite(op, idx) => (InstructionSequenceMode::ZeroPageIdxReadModifyWrite, op_of_memory_modify(op), idx),
        Instruction::AbsoluteIdxRead(op, idx) => (InstructionSequenceMode::AbsoluteIdxRead, op_of_register_memory(op), idx),
        Instruction::AbsoluteIdxReadModifyWrite(op, idx) => (InstructionSequenceMode::AbsoluteIdxReadModifyWrite, op_of_memory_modify(op), idx),
        Instruction::AbsoluteIdxWrite(op, idx) => (InstructionSequenceMode::AbsoluteIdxWrite, op_of_register_memory(op), idx),
        Instruction::Relative(op) => (InstructionSequenceMode::Relative, op_of_branch(op), IndexRegister::X),
        Instruction::ZeroPageIdxIndirect(op, idx) => (InstructionSequenceMode::ZeroPageIdxIndirect, op_of_register_memory(op), idx),
        Instruction::ZeroPageIdxIndirectReadModifyWrite(op, idx) => (InstructionSequenceMode::ZeroPageIdxIndirectReadModifyWrite, op_of_memory_modify(op), idx),
        Instruction::ZeroPageIndirectIdxRead(op, idx) => (InstructionSequenceMode::ZeroPageIndirectIdxRead, op_of_register_memory(op), idx),
        Instruction::ZeroPageIndirectIdxReadModifyWrite(op, idx) => (InstructionSequenceMode::ZeroPageIndirectIdxReadModifyWrite, op_of_memory_modify(op), idx),
        Instruction::ZeroPageIndirectIdxWrite(op, idx) => (InstructionSequenceMode::ZeroPageIndirectIdxWrite, op_of_register_memory(op), idx),
        Instruction::AbsoluteIndirectJump => (InstructionSequenceMode::AbsoluteIndirectJump, InstructionOp::Nop, IndexRegister::X),
    }
}

/// Whether `Instruction::new` accepts a mode, an operation and an index:
/// the operation must belong to the kind the mode takes, and the indexed
/// modes need an index register.
pub open spec fn new_accepts(mode: InstructionSequenceMode, operation: InstructionOp, index: Option<IndexRegister>) -> bool {
    match mode {
        InstructionSequenceMode::FetchInstr => true,
        InstructionSequenceMode::Break => true,
        InstructionSequenceMode::StartIrq => true,
        InstructionSequenceMode::StartNmi => true,
        InstructionSequenceMode::Reset => true,
        InstructionSequenceMode::ReturnInterrupt => true,
        InstructionSequenceMode::JumpSubroutine => true,
        InstructionSequenceMode::ReturnSubroutine => true,
        InstructionSequenceMode::Push => push_of_op(operation) is Some,
        InstructionSequenceMode::Pull => pull_of_op(operation) is Some,
        InstructionSequenceMode::Implied => implicit_of_op(operation) is Some,
        InstructionSequenceMode::Immediate => register_memory_of_op(operation) is Some,
        InstructionSequenceMode::AbsoluteJump => true,
        InstructionSequenceMode::Absolute => register_memory_of_op(operation) is Some,
        InstructionSequenceMode::AbsoluteReadModifyWrite => memory_modify_of_op(operation) is Some,
        InstructionSequenceMode::ZeroPage => register_memory_of_op(operation) is Some,
        InstructionSequenceMode::ZeroPageReadModifyWrite => memory_modify_of_op(operation) is Some,
        InstructionSequenceMode::ZeroPageIdx => register_memory_of_op(operation) is Some && index is Some,
        InstructionSequenceMode::ZeroPageIdxReadModifyWrite => memory_modify_of_op(operation) is Some && index is Some,
        InstructionSequenceMode::AbsoluteIdxRead => register_memory_of_op(operation) is Some && index is Some,
        InstructionSequenceMode::AbsoluteIdxReadModifyWrite => memory_modify_of_op(operation) is Some && index is Some,
        InstructionSequenceMode::AbsoluteIdxWrite => register_memory_of_op(operation) is Some && index is Some,
        InstructionSequenceMode::Relative => branch_of_op(operation) is Some,
        InstructionSequenceMode::ZeroPageIdxIndirect => register_memory_of_op(operation) is Some && index is Some,
        InstructionSequenceMode::ZeroPageIdxIndirectReadModifyWrite => memory_modify_of_op(operation) is Some && index is Some,
        InstructionSequenceMode::ZeroPageIndirectIdxRead => register_memory_of_op(operation) is Some && index is Some,
        InstructionSequenceMode::ZeroPageIndirectIdxReadModifyWrite => memory_modify_of_op(operation) is Some && index is Some,
        InstructionSequenceMode::ZeroPageIndirectIdxWrite => register_memory_of_op(operation) is Some && index is Some,
        InstructionSequenceMode::AbsoluteIndirectJump => true,
    }
}

/// The instruction `Instruction::new` builds from accepted arguments.
pub open spec fn new_instruction(mode: InstructionSequenceMode, operation: InstructionOp, index: Option<IndexRegister>) -> Instruction {
    match mode {
        InstructionSequenceMode::FetchInstr => Instruction::FetchInstr,
        InstructionSequenceMode::Break => Instruction::Break,
        InstructionSequenceMode::StartIrq => Instruction::StartIrq,
        InstructionSequenceMode::StartNmi => Instruction::StartNmi,
        InstructionSequenceMode::Reset => Instruction::Reset,
        InstructionSequenceMode::ReturnInterrupt => Instruction::ReturnInterrupt,
        InstructionSequenceMode::JumpSubroutine => Instruction::JumpSubroutine,
        InstructionSequenceMode::ReturnSubroutine => Instruction::ReturnSubroutine,
        InstructionSequenceMode::Push => Instruction::Push(push_of_op(operation).unwrap()),
        InstructionSequenceMode::Pull => Instruction::Pull(pull_of_op(operation).unwrap()),
        InstructionSequenceMode::Implied => Instruction::Implied(implicit_of_op(operation).unwrap()),
        InstructionSequenceMode::Immediate => Instruction::Immediate(register_memory_of_op(operation).unwrap()),
        InstructionSequenceMode::AbsoluteJump => Instruction::AbsoluteJump,
        InstructionSequenceMode::Absolute => Instruction::Absolute(register_memory_of_op(operation).unwrap()),
        InstructionSequenceMode::AbsoluteReadModifyWrite => Instruction::AbsoluteReadModifyWrite(memory_modify_of_op(operation).unwrap()),
        InstructionSequenceMode::ZeroPage => Instruction::ZeroPage(register_memory_of_op(operation).unwrap()),
        InstructionSequenceMode::ZeroPageReadModifyWrite => Instruction::ZeroPageReadModifyWrite(memory_modify_of_op(operation).unwrap()),
        InstructionSequenceMode::ZeroPageIdx => Instruction::ZeroPageIdx(register_memory_of_op(operation).unwrap(), index.unwrap()),
        InstructionSequenceMode::ZeroPageIdxReadModifyWrite => Instruction::ZeroPageIdxReadModifyWrite(memory_modify_of_op(operation).unwrap(), index.unwrap()),
        InstructionSequenceMode::AbsoluteIdxRead => Instruction::AbsoluteIdxRead(register_memory_of_op(operation).unwrap(), index.unwrap()),
        InstructionSequenceMode::AbsoluteIdxReadModifyWrite => Instruction::AbsoluteIdxReadModifyWrite(memory_modify_of_op(operation).unwrap(), index.unwrap()),
        InstructionSequenceMode::AbsoluteIdxWrite => Instruction::AbsoluteIdxWrite(register_memory_of_op(operation).unwrap(), index.unwrap()),
        InstructionSequenceMode::Relative => Instruction::Relative(branch_of_op(operation).unwrap()),
        InstructionSequenceMode::ZeroPageIdxIndirect => Instruction::ZeroPageIdxIndirect(register_memory_of_op(operation).unwrap(), index.unwrap()),
        InstructionSequenceMode::ZeroPageIdxIndirectReadModifyWrite => Instruction::ZeroPageIdxIndirectReadModifyWrite(memory_modify_of_op(operation).unwrap(), index.unwrap()),
        InstructionSequenceMode::ZeroPageIndirectIdxRead => Instruction::ZeroPageIndirectIdxRead(register_memory_of_op(operation).unwrap(), index.unwrap()),
        InstructionSequenceMode::ZeroPageIndirectIdxReadModifyWrite => Instruction::ZeroPageIndirectIdxReadModifyWrite(memory_modify_of_op(operation).unwrap(), index.unwrap()),
        InstructionSequenceMode::ZeroPageIndirectIdxWrite => Instruction::ZeroPageIndirectIdxWrite(register_memory_of_op(operation).unwrap(), index.unwrap()),
        InstructionSequenceMode::AbsoluteIndirectJump => Instruction::AbsoluteIndirectJump,
    }
}

/// Splits an instruction into its sequence mode, its operation and its index
/// register; NOP and X stand in where the instruction has none.
pub fn destruct_sequence(sequence: Instruction) -> (r: (InstructionSequenceMode, InstructionOp, IndexRegister))
    ensures
        r == instruction_parts(sequence),
{
    match sequence {
        Instruction::FetchInstr => (InstructionSequenceMode::FetchInstr, InstructionOp::default(), IndexRegister::default()),
        Instruction::Break => (InstructionSequenceMode::Break, InstructionOp::default(), IndexRegister::default()),
        Instruction::StartIrq => (InstructionSequenceMode::StartIrq, InstructionOp::default(), IndexRegister::default()),
        Instruction::StartNmi => (InstructionSequenceMode::StartNmi, InstructionOp::default(), IndexRegister::default()),
        Instruction::Reset => (InstructionSequenceMode::Reset, InstructionOp::default(), IndexRegister::default()),
        Instruction::ReturnInterrupt => (InstructionSequenceMode::ReturnInterrupt, InstructionOp::default(), IndexRegister::default()),
        Instruction::JumpSubroutine => (InstructionSequenceMode::JumpSubroutine, InstructionOp::default(), IndexRegister::default()),
        Instruction::ReturnSubroutine => (InstructionSequenceMode::ReturnSubroutine, InstructionOp::default(), IndexRegister::default()),
        Instruction::Push(op) => (InstructionSequenceMode::Push, InstructionOp::from(op), IndexRegister::default()),
        Instruction::Pull(op) => (InstructionSequenceMode::Pull, InstructionOp::from(op), IndexRegister::default()),
        Instruction::Implied(op) => (InstructionSequenceMode::Implied, InstructionOp::from(op), IndexRegister::default()),
        Instruction::Immediate(op) => (InstructionSequenceMode::Immediate, InstructionOp::from(op), IndexRegister::default()),
        Instruction::AbsoluteJump => (InstructionSequenceMode::AbsoluteJump, InstructionOp::default(), IndexRegister::default()),
        Instruction::Absolute(op) => (InstructionSequenceMode::Absolute, InstructionOp::from(op), IndexRegister::default()),
        Instruction::AbsoluteReadModifyWrite(op) => (InstructionSequenceMode::AbsoluteReadModifyWrite, InstructionOp::from(op), IndexRegister::default()),
        Instruction::ZeroPage(op) => (InstructionSequenceMode::ZeroPage, InstructionOp::from(op), IndexRegister::default()),
        Instruction::ZeroPageReadModifyWrite(op) => (InstructionSequenceMode::ZeroPageReadModifyWrite, InstructionOp::from(op), IndexRegister::default()),
        Instruction::ZeroPageIdx(op, idx) => (InstructionSequenceMode::ZeroPageIdx, InstructionOp::from(op), idx),
        Instruction::ZeroPageIdxReadModifyWrite(op, idx) => (InstructionSequenceMode::ZeroPageIdxReadModifyWrite, InstructionOp::from(op), idx),
        Instruction::AbsoluteIdxRead(op, idx) => (InstructionSequenceMode::AbsoluteIdxRead, InstructionOp::from(op), idx),
        Instruction::AbsoluteIdxReadModifyWrite(op, idx) => (InstructionSequenceMode::AbsoluteIdxReadModifyWrite, InstructionOp::from(op), idx),
        Instruction::AbsoluteIdxWrite(op, idx) => (InstructionSequenceMode::AbsoluteIdxWrite, InstructionOp::from(op), idx),
        Instruction::Relative(op) => (InstructionSequenceMode::Relative, InstructionOp::from(op), IndexRegister::default()),
        Instruction::ZeroPageIdxIndirect(op, idx) => (InstructionSequenceMode::ZeroPageIdxIndirect, InstructionOp::from(op), idx),
        Instruction::ZeroPageIdxIndirectReadModifyWrite(op, idx) => (InstructionSequenceMode::ZeroPageIdxIndirectReadModifyWrite, InstructionOp::from(op), idx),
        Instruction::ZeroPageIndirectIdxRead(op, idx) => (InstructionSequenceMode::ZeroPageIndirectIdxRead, InstructionOp::from(op), idx),
        Instruction::ZeroPageIndirectIdxReadModifyWrite(op, idx) => (InstructionSequenceMode::ZeroPageIndirectIdxReadModifyWrite, InstructionOp::from(op), idx),
        Instruction::ZeroPageIndirectIdxWrite(op, idx) => (InstructionSequenceMode::ZeroPageIndirectIdxWrite, InstructionOp::from(op), idx),
        Instruction::AbsoluteIndirectJump => (InstructionSequenceMode::AbsoluteIndirectJump, InstructionOp::default(), IndexRegister::default()),
    }
}

impl From<Instruction> for (InstructionSequenceMode, InstructionOp, IndexRegister) {
    fn from(sequence: Instruction) -> (r: Self) {
        destruct_sequence(sequence)
    }
}

impl vstd::std_specs::convert::FromSpecImpl<Instruction> for (InstructionSequenceMode, InstructionOp, IndexRegister) {
    open spec fn obeys_from_spec() -> bool {
        true
    }

    open spec fn from_spec(v: Instruction) -> Self {
        instruction_parts(v)
    }
}

impl From<Instruction> for InstructionSequenceMode {
    fn from(sequence: Instruction) -> (r: Self)
        ensures
            r == instruction_parts(sequence).0,
    {
        destruct_sequence(sequence).0
    }
}

impl vstd::std_specs::convert::FromSpecImpl<Instruction> for InstructionSequenceMode {
    open spec fn obeys_from_spec() -> bool {
        true
    }

    open spec fn from_spec(v: Instruction) -> Self {
        instruction_parts(v).0
    }
}

impl Instruction {
    /// Builds the instruction of a sequence mode from an operation and an
    /// optional index register. The operation must be one the mode takes, and
    /// the indexed modes need an index; modes without an operation ignore it.
    pub fn new(
        mode: InstructionSequenceMode,
        operation: InstructionOp,
        index: Option<IndexRegister>,
    ) -> (r: Self)
        requires
            new_accepts(mode, operation, index),
        ensures
            r == new_instruction(mode, operation, index),
    {
        match mode {
            InstructionSequenceMode::FetchInstr => Instruction::FetchInstr,
            InstructionSequenceMode::Break => Instruction::Break,
            InstructionSequenceMode::StartIrq => Instruction::StartIrq,
            InstructionSequenceMode::StartNmi => Instruction::StartNmi,
            InstructionSequenceMode::Reset => Instruction::Reset,
            InstructionSequenceMode::ReturnInterrupt => Instruction::ReturnInterrupt,
            InstructionSequenceMode::JumpSubroutine => Instruction::JumpSubroutine,
            InstructionSequenceMode::ReturnSubroutine => Instruction::ReturnSubroutine,
            InstructionSequenceMode::Push => Instruction::Push(PushStackOperation::try_from(operation).unwrap()),
            InstructionSequenceMode::Pull => Instruction::Pull(PullStackOperation::try_from(operation).unwrap()),
            InstructionSequenceMode::Implied => Instruction::Implied(ImplicitOperation::try_from(operation).unwrap()),
            InstructionSequenceMode::Immediate => Instruction::Immediate(RegisterMemoryOperation::try_from(operation).unwrap()),
            InstructionSequenceMode::AbsoluteJump => Instruction::AbsoluteJump,
            InstructionSequenceMode::Absolute => Instruction::Absolute(RegisterMemoryOperation::try_from(operation).unwrap()),
            InstructionSequenceMode::AbsoluteReadModifyWrite => Instruction::AbsoluteReadModifyWrite(MemoryModifyOperation::try_from(operation).unwrap()),
            InstructionSequenceMode::ZeroPage => Instruction::ZeroPage(RegisterMemoryOperation::try_from(operation).unwrap()),
            InstructionSequenceMode::ZeroPageReadModifyWrite => Instruction::ZeroPageReadModifyWrite(MemoryModifyOperation::try_from(operation).unwrap()),
            InstructionSequenceMode::ZeroPageIdx => Instruction::ZeroPageIdx(RegisterMemoryOperation::try_from(operation).unwrap(), index.unwrap()),
            InstructionSequenceMode::ZeroPageIdxReadModifyWrite => Instruction::ZeroPageIdxReadModifyWrite(MemoryModifyOperation::try_from(operation).unwrap(), index.unwrap()),
            InstructionSequenceMode::AbsoluteIdxRead => Instruction::AbsoluteIdxRead(RegisterMemoryOperation::try_from(operation).unwrap(), index.unwrap()),
            InstructionSequenceMode::AbsoluteIdxReadModifyWrite => Instruction::AbsoluteIdxReadModifyWrite(MemoryModifyOperation::try_from(operation).unwrap(), index.unwrap()),
            InstructionSequenceMode::AbsoluteIdxWrite => Instruction::AbsoluteIdxWrite(RegisterMemoryOperation::try_from(operation).unwrap(), index.unwrap()),
            InstructionSequenceMode::Relative => Instruction::Relative(BranchOperation::try_from(operation).unwrap()),
            InstructionSequenceMode::ZeroPageIdxIndirect => Instruction::ZeroPageIdxIndirect(RegisterMemoryOperation::try_from(operation).unwrap(), index.unwrap()),
            InstructionSequenceMode::ZeroPageIdxIndirectReadModifyWrite => Instruction::ZeroPageIdxIndirectReadModifyWrite(MemoryModifyOperation::try_from(operation).unwrap(), index.unwrap()),
            InstructionSequenceMode::ZeroPageIndirectIdxRead => Instruction::ZeroPageIndirectIdxRead(RegisterMemoryOperation::try_from(operation).unwrap(), index.unwrap()),
            InstructionSequenceMode::ZeroPageIndirectIdxReadModifyWrite => Instruction::ZeroPageIndirectIdxReadModifyWrite(MemoryModifyOperation::try_from(operation).unwrap(), index.unwrap()),
            InstructionSequenceMode::ZeroPageIndirectIdxWrite => Instruction::ZeroPageIndirectIdxWrite(RegisterMemoryOperation::try_from(operation).unwrap(), index.unwrap()),
            InstructionSequenceMode::AbsoluteIndirectJump => Instruction::AbsoluteIndirectJump,
        }
    }

    /// The sequence mode of this instruction.
    pub fn sequence_mode(self) -> (r: InstructionSequenceMode)
        ensures
            r == instruction_parts(self).0,
    {
        destruct_sequence(self).0
    }
}

/// Splitting an instruction and building it again from its parts gives it back.
pub proof fn lemma_new_destruct_round_trip(i: Instruction)
    ensures
        new_accepts(instruction_parts(i).0, instruction_parts(i).1, Some(instruction_parts(i).2)),
        new_instruction(instruction_parts(i).0, instruction_parts(i).1, Some(instruction_parts(i).2))
            == i,
{
    match i {
        Instruction::FetchInstr => {},
        Instruction::Break => {},
        Instruction::StartIrq => {},
        Instruction::StartNmi => {},
        Instruction::Reset => {},
        Instruction::ReturnInterrupt => {},
        Instruction::JumpSubroutine => {},
        Instruction::ReturnSubroutine => {},
        Instruction::Push(..) => {},
        Instruction::Pull(..) => {},
        Instruction::Implied(..) => {},
        Instruction::Immediate(..) => {},
        Instruction::AbsoluteJump => {},
        Instruction::Absolute(..) => {},
        Instruction::AbsoluteReadModifyWrite(..) => {},
        Instruction::ZeroPage(..) => {},
        Instruction::ZeroPageReadModifyWrite(..) => {},
        Instruction::ZeroPageIdx(..) => {},
        Instruction::ZeroPageIdxReadModifyWrite(..) => {},
        Instruction::AbsoluteIdxRead(..) => {},
        Instruction::AbsoluteIdxReadModifyWrite(..) => {},
        Instruction::AbsoluteIdxWrite(..) => {},
        Instruction::Relative(..) => {},
        Instruction::ZeroPageIdxIndirect(..) => {},
        Instruction::ZeroPageIdxIndirectReadModifyWrite(..) => {},
        Instruction::ZeroPageIndirectIdxRead(..) => {},
        Instruction::ZeroPageIndirectIdxReadModifyWrite(..) => {},
        Instruction::ZeroPageIndirectIdxWrite(..) => {},
        Instruction::AbsoluteIndirectJump => {},
    }
}

} // verus!
