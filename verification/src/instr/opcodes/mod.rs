//! Decoding of 6502 opcodes into instructions.

mod decode_logic;

pub use decode_logic::{
    decode, lemma_decoded_instruction, opcode_table, AddrModeG1, AddrModeG2, AddrModeG3, OpsCompBranch, OpsG1, OpsG2, OpsG3,
    OpsSingleByte0, OpsSingleByte2, OpsSubroutine,
};
