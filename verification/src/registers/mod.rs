//! The registers of the 6502: the 8-bit and 16-bit registers, the status
//! register and the register file that groups them.

pub mod reg16;
pub mod reg8;
pub mod register_file;
pub mod status_register;

pub use reg16::{
    group_word_bytes, hi_byte, lemma_reg16_inc_dec, lemma_word_hi, lemma_word_lo, lemma_word_split,
    lo_byte, make_word, Reg16,
};
pub use reg8::{lemma_reg8_inc_dec, Reg8};
pub use status_register::{flags_set, lemma_set_clear_flags, with_flags, StatusReg, StatusRegFlags};
pub use register_file::{
    hex_byte, hex_digit, index_value, log_line, IndexRegister, RegisterFile, RegisterState,
};
