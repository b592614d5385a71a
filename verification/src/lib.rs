//! A cycle-accurate 6502 CPU emulator library.

pub mod alu;
pub mod cpu;
pub mod instr;
pub mod log_buffer;
pub mod memory;
pub mod registers;
pub mod text;

pub use alu::{
    add, and, bit_compare, bit_compare_imm, cmp, dec, inc, or, rotate_left, rotate_right,
    shift_left, shift_right, sub, update_status_carry_add, update_status_carry_sub,
    update_status_nz, update_status_v, xor,
};
pub use cpu::interrupt::{waiting_interrupt, InterruptLines, InterruptType, Interrupts};
pub use cpu::{Cpu, CpuState};
pub use instr::instr_operation::{
    BranchOperation, ImplicitOperation, MemoryModifyOperation, PullStackOperation,
    PushStackOperation, RegisterMemoryOperation,
};
pub use instr::instr_sequences::Instruction;
pub use instr::opcodes::decode;
pub use instr::InstructionOp;
pub use memory::{new_basic_ram, BasicRam, MemorySpace, MEMORY_64K};
pub use registers::{IndexRegister, Reg16, Reg8, RegisterFile, RegisterState, StatusReg, StatusRegFlags};
