//! Instruction processing and execution for the 6502 CPU.

pub mod cycle;
pub mod addressing_laws;
pub mod disassemble;
pub mod instr_impl;
pub mod instr_operation;
pub mod instr_sequences;
pub mod opcodes;
pub mod operation_laws;
pub mod sequence_laws;

pub use instr_operation::{
    BranchOperation, ImplicitOperation, InstructionOp, MemoryModifyOperation, PullStackOperation,
    PushStackOperation, RegisterMemoryOperation,
};
pub use instr_sequences::{
    destruct_sequence, instruction_parts, lemma_new_destruct_round_trip, new_accepts,
    new_instruction, Instruction, InstructionSequenceMode,
};
pub use cycle::ClockEndStatus;
pub use instr_impl::FixAddressResult;
