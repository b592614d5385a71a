//! Decoding of 6502 opcodes into instruction sequences.
//!
//! An opcode `aaabbbcc` falls in group `cc`; in groups 1 to 3 `aaa` selects
//! the operation and `bbb` the addressing mode. The combinations that are not
//! documented instructions are, in groups 2 and 3, single-byte instructions,
//! branches and subroutine instructions. Undocumented opcodes decode to a
//! NOP.
use crate::instr::instr_operation::{
    implicit_of_op, BranchOperation, ImplicitOperation, InstructionOp, MemoryModifyOperation,
    PullStackOperation, PushStackOperation, RegisterMemoryOperation,
};
use crate::instr::instr_sequences::{new_accepts, new_instruction, Instruction, InstructionSequenceMode};
use crate::instr::cycle::num_steps;
use crate::registers::IndexRegister;
use vstd::prelude::*;

verus! {

/// Mask of the opcode group (bits 0-1).
const OPCODE_GROUP_MASK: u8 = 0b_0000_0011;

/// Mask of the operation of groups 1-3 (bits 0-1 and 5-7).
const OPCODE_G123_OP_MASK: u8 = 0b_1110_0011;

/// Mask of the addressing mode of groups 1-3 (bits 2-4).
const OPCODE_G123_ADDR_MASK: u8 = 0b_0001_1100;

/// The documented NMOS 6502 instructions, by opcode; the undocumented
/// opcodes are a NOP (`Implied(Nop)`).
pub open spec fn opcode_table(opcode: u8) -> Instruction {
    match opcode {
        // BRK
        0x00 => Instruction::Break,
        // ORA (zp,X)
        0x01 => Instruction::ZeroPageIdxIndirect(RegisterMemoryOperation::Or, IndexRegister::X),
        // ORA zp
        0x05 => Instruction::ZeroPage(RegisterMemoryOperation::Or),
        // ASL zp
        0x06 => Instruction::ZeroPageReadModifyWrite(MemoryModifyOperation::ShiftLeftMemory),
        // PHP
        0x08 => Instruction::Push(PushStackOperation::PushStatus),
        // ORA #imm
        0x09 => Instruction::Immediate(RegisterMemoryOperation::Or),
        // ASL A
        0x0A => Instruction::Implied(ImplicitOperation::ShiftLeftA),
        // ORA abs
        0x0D => Instruction::Absolute(RegisterMemoryOperation::Or),
        // ASL abs
        0x0E => Instruction::AbsoluteReadModifyWrite(MemoryModifyOperation::ShiftLeftMemory),
        // BPL rel
        0x10 => Instruction::Relative(BranchOperation::BranchPlus),
        // ORA (zp),Y
        0x11 => Instruction::ZeroPageIndirectIdxRead(RegisterMemoryOperation::Or, IndexRegister::Y),
        // ORA zp,X
        0x15 => Instruction::ZeroPageIdx(RegisterMemoryOperation::Or, IndexRegister::X),
        // ASL zp,X
        0x16 => Instruction::ZeroPageIdxReadModifyWrite(MemoryModifyOperation::ShiftLeftMemory, IndexRegister::X),
        // CLC
        0x18 => Instruction::Implied(ImplicitOperation::ClearCarry),
        // ORA abs,Y
        0x19 => Instruction::AbsoluteIdxRead(RegisterMemoryOperation::Or, IndexRegister::Y),
        // ORA abs,X
        0x1D => Instruction::AbsoluteIdxRead(RegisterMemoryOperation::Or, IndexRegister::X),
        // ASL abs,X
        0x1E => Instruction::AbsoluteIdxReadModifyWrite(MemoryModifyOperation::ShiftLeftMemory, IndexRegister::X),
        // JSR
        0x20 => Instruction::JumpSubroutine,
        // AND (zp,X)
        0x21 => Instruction::ZeroPageIdxIndirect(RegisterMemoryOperation::And, IndexRegister::X),
        // BIT zp
        0x24 => Instruction::ZeroPage(RegisterMemoryOperation::Bit),
        // AND zp
        0x25 => Instruction::ZeroPage(RegisterMemoryOperation::And),
        // ROL zp
        0x26 => Instruction::ZeroPageReadModifyWrite(MemoryModifyOperation::RotateLeftMemory),
        // PLP
        0x28 => Instruction::Pull(PullStackOperation::PullStatus),
        // AND #imm
        0x29 => Instruction::Immediate(RegisterMemoryOperation::And),
        // ROL A
        0x2A => Instruction::Implied(ImplicitOperation::RotateLeftA),
        // BIT abs
        0x2C => Instruction::Absolute(RegisterMemoryOperation::Bit),
        // AND abs
        0x2D => Instruction::Absolute(RegisterMemoryOperation::And),
        // ROL abs
        0x2E => Instruction::AbsoluteReadModifyWrite(MemoryModifyOperation::RotateLeftMemory),
        // BMI rel
        0x30 => Instruction::Relative(BranchOperation::BranchMinus),
        // AND (zp),Y
        0x31 => Instruction::ZeroPageIndirectIdxRead(RegisterMemoryOperation::And, IndexRegister::Y),
        // AND zp,X
        0x35 => Instruction::ZeroPageIdx(RegisterMemoryOperation::And, IndexRegister::X),
        // ROL zp,X
        0x36 => Instruction::ZeroPageIdxReadModifyWrite(MemoryModifyOperation::RotateLeftMemory, IndexRegister::X),
        // SEC
        0x38 => Instruction::Implied(ImplicitOperation::SetCarry),
        // AND abs,Y
        0x39 => Instruction::AbsoluteIdxRead(RegisterMemoryOperation::And, IndexRegister::Y),
        // AND abs,X
        0x3D => Instruction::AbsoluteIdxRead(RegisterMemoryOperation::And, IndexRegister::X),
        // ROL abs,X
        0x3E => Instruction::AbsoluteIdxReadModifyWrite(MemoryModifyOperation::RotateLeftMemory, IndexRegister::X),
        // RTI
        0x40 => Instruction::ReturnInterrupt,
        // EOR (zp,X)
        0x41 => Instruction::ZeroPageIdxIndirect(RegisterMemoryOperation::Xor, IndexRegister::X),
        // EOR zp
        0x45 => Instruction::ZeroPage(RegisterMemoryOperation::Xor),
        // LSR zp
        0x46 => Instruction::ZeroPageReadModifyWrite(MemoryModifyOperation::ShiftRightMemory),
        // PHA
        0x48 => Instruction::Push(PushStackOperation::PushA),
        // EOR #imm
        0x49 => Instruction::Immediate(RegisterMemoryOperation::Xor),
        // LSR A
        0x4A => Instruction::Implied(ImplicitOperation::ShiftRightA),
        // JMP abs
        0x4C => Instruction::AbsoluteJump,
        // EOR abs
        0x4D => Instruction::Absolute(RegisterMemoryOperation::Xor),
        // LSR abs
        0x4E => Instruction::AbsoluteReadModifyWrite(MemoryModifyOperation::ShiftRightMemory),
        // BVC rel
        0x50 => Instruction::Relative(BranchOperation::BranchOverflowClear),
        // EOR (zp),Y
        0x51 => Instruction::ZeroPageIndirectIdxRead(RegisterMemoryOperation::Xor, IndexRegister::Y),
        // EOR zp,X
        0x55 => Instruction::ZeroPageIdx(RegisterMemoryOperation::Xor, IndexRegister::X),
        // LSR zp,X
        0x56 => Instruction::ZeroPageIdxReadModifyWrite(MemoryModifyOperation::ShiftRightMemory, IndexRegister::X),
        // CLI
        0x58 => Instruction::Implied(ImplicitOperation::ClearInterruptDisable),
        // EOR abs,Y
        0x59 => Instruction::AbsoluteIdxRead(RegisterMemoryOperation::Xor, IndexRegister::Y),
        // EOR abs,X
        0x5D => Instruction::AbsoluteIdxRead(RegisterMemoryOperation::Xor, IndexRegister::X),
        // LSR abs,X
        0x5E => Instruction::AbsoluteIdxReadModifyWrite(MemoryModifyOperation::ShiftRightMemory, IndexRegister::X),
        // RTS
        0x60 => Instruction::ReturnSubroutine,
        // ADC (zp,X)
        0x61 => Instruction::ZeroPageIdxIndirect(RegisterMemoryOperation::Add, IndexRegister::X),
        // ADC zp
        0x65 => Instruction::ZeroPage(RegisterMemoryOperation::Add),
        // ROR zp
        0x66 => Instruction::ZeroPageReadModifyWrite(MemoryModifyOperation::RotateRightMemory),
        // PLA
        0x68 => Instruction::Pull(PullStackOperation::PullA),
        // ADC #imm
        0x69 => Instruction::Immediate(RegisterMemoryOperation::Add),
        // ROR A
        0x6A => Instruction::Implied(ImplicitOperation::RotateRightA),
        // JMP (abs)
        0x6C => Instruction::AbsoluteIndirectJump,
        // ADC abs
        0x6D => Instruction::Absolute(RegisterMemoryOperation::Add),
        // ROR abs
        0x6E => Instruction::AbsoluteReadModifyWrite(MemoryModifyOperation::RotateRightMemory),
        // BVS rel
        0x70 => Instruction::Relative(BranchOperation::BranchOverflowSet),
        // ADC (zp),Y
        0x71 => Instruction::ZeroPageIndirectIdxRead(RegisterMemoryOperation::Add, IndexRegister::Y),
        // ADC zp,X
        0x75 => Instruction::ZeroPageIdx(RegisterMemoryOperation::Add, IndexRegister::X),
        // ROR zp,X
        0x76 => Instruction::ZeroPageIdxReadModifyWrite(MemoryModifyOperation::RotateRightMemory, IndexRegister::X),
        // SEI
        0x78 => Instruction::Implied(ImplicitOperation::SetInterruptDisable),
        // ADC abs,Y
        0x79 => Instruction::AbsoluteIdxRead(RegisterMemoryOperation::Add, IndexRegister::Y),
        // ADC abs,X
        0x7D => Instruction::AbsoluteIdxRead(RegisterMemoryOperation::Add, IndexRegister::X),
        // ROR abs,X
        0x7E => Instruction::AbsoluteIdxReadModifyWrite(MemoryModifyOperation::RotateRightMemory, IndexRegister::X),
        // STA (zp,X)
        0x81 => Instruction::ZeroPageIdxIndirect(RegisterMemoryOperation::StoreA, IndexRegister::X),
        // STY zp
        0x84 => Instruction::ZeroPage(RegisterMemoryOperation::StoreY),
        // STA zp
        0x85 => Instruction::ZeroPage(RegisterMemoryOperation::StoreA),
        // STX zp
        0x86 => Instruction::ZeroPage(RegisterMemoryOperation::StoreX),
        // DEY
        0x88 => Instruction::Implied(ImplicitOperation::DecrementY),
        // TXA
        0x8A => Instruction::Implied(ImplicitOperation::TransferXToAccumulator),
        // STY abs
        0x8C => Instruction::Absolute(RegisterMemoryOperation::StoreY),
        // STA abs
        0x8D => Instruction::Absolute(RegisterMemoryOperation::StoreA),
        // STX abs
        0x8E => Instruction::Absolute(RegisterMemoryOperation::StoreX),
        // BCC rel
        0x90 => Instruction::Relative(BranchOperation::BranchCarryClear),
        // STA (zp),Y
        0x91 => Instruction::ZeroPageIndirectIdxWrite(RegisterMemoryOperation::StoreA, IndexRegister::Y),
        // STY zp,X
        0x94 => Instruction::ZeroPageIdx(RegisterMemoryOperation::StoreY, IndexRegister::X),
        // STA zp,X
        0x95 => Instruction::ZeroPageIdx(RegisterMemoryOperation::StoreA, IndexRegister::X),
        // STX zp,Y
        0x96 => Instruction::ZeroPageIdx(RegisterMemoryOperation::StoreX, IndexRegister::Y),
        // TYA
        0x98 => Instruction::Implied(ImplicitOperation::TransferYToAccumulator),
        // STA abs,Y
        0x99 => Instruction::AbsoluteIdxWrite(RegisterMemoryOperation::StoreA, IndexRegister::Y),
        // TXS
        0x9A => Instruction::Implied(ImplicitOperation::TransferXToStackPtr),
        // STA abs,X
        0x9D => Instruction::AbsoluteIdxWrite(RegisterMemoryOperation::StoreA, IndexRegister::X),
        // LDY #imm
        0xA0 => Instruction::Immediate(RegisterMemoryOperation::LoadY),
        // LDA (zp,X)
        0xA1 => Instruction::ZeroPageIdxIndirect(RegisterMemoryOperation::LoadA, IndexRegister::X),
        // LDX #imm
        0xA2 => Instruction::Immediate(RegisterMemoryOperation::LoadX),
        // LDY zp
        0xA4 => Instruction::ZeroPage(RegisterMemoryOperation::LoadY),
        // LDA zp
        0xA5 => Instruction::ZeroPage(RegisterMemoryOperation::LoadA),
        // LDX zp
        0xA6 => Instruction::ZeroPage(RegisterMemoryOperation::LoadX),
        // TAY
        0xA8 => Instruction::Implied(ImplicitOperation::TransferAccumulatorToY),
        // LDA #imm
        0xA9 => Instruction::Immediate(RegisterMemoryOperation::LoadA),
        // TAX
        0xAA => Instruction::Implied(ImplicitOperation::TransferAccumulatorToX),
        // LDY abs
        0xAC => Instruction::Absolute(RegisterMemoryOperation::LoadY),
        // LDA abs
        0xAD => Instruction::Absolute(RegisterMemoryOperation::LoadA),
        // LDX abs
        0xAE => Instruction::Absolute(RegisterMemoryOperation::LoadX),
        // BCS rel
        0xB0 => Instruction::Relative(BranchOperation::BranchCarrySet),
        // LDA (zp),Y
        0xB1 => Instruction::ZeroPageIndirectIdxRead(RegisterMemoryOperation::LoadA, IndexRegister::Y),
        // LDY zp,X
        0xB4 => Instruction::ZeroPageIdx(RegisterMemoryOperation::LoadY, IndexRegister::X),
        // LDA zp,X
        0xB5 => Instruction::ZeroPageIdx(RegisterMemoryOperation::LoadA, IndexRegister::X),
        // LDX zp,Y
        0xB6 => Instruction::ZeroPageIdx(RegisterMemoryOperation::LoadX, IndexRegister::Y),
        // CLV
        0xB8 => Instruction::Implied(ImplicitOperation::ClearOverflow),
        // LDA abs,Y
        0xB9 => Instruction::AbsoluteIdxRead(RegisterMemoryOperation::LoadA, IndexRegister::Y),
        // TSX
        0xBA => Instruction::Implied(ImplicitOperation::TransferStackPtrToX),
        // LDY abs,X
        0xBC => Instruction::AbsoluteIdxRead(RegisterMemoryOperation::LoadY, IndexRegister::X),
        // LDA abs,X
        0xBD => Instruction::AbsoluteIdxRead(RegisterMemoryOperation::LoadA, IndexRegister::X),
        // LDX abs,Y
        0xBE => Instruction::AbsoluteIdxRead(RegisterMemoryOperation::LoadX, IndexRegister::Y),
        // CPY #imm
        0xC0 => Instruction::Immediate(RegisterMemoryOperation::Cpy),
        // CMP (zp,X)
        0xC1 => Instruction::ZeroPageIdxIndirect(RegisterMemoryOperation::Cmp, IndexRegister::X),
        // CPY zp
        0xC4 => Instruction::ZeroPage(RegisterMemoryOperation::Cpy),
        // CMP zp
        0xC5 => Instruction::ZeroPage(RegisterMemoryOperation::Cmp),
        // DEC zp
        0xC6 => Instruction::ZeroPageReadModifyWrite(MemoryModifyOperation::DecrementMemory),
        // INY
        0xC8 => Instruction::Implied(ImplicitOperation::IncrementY),
        // CMP #imm
        0xC9 => Instruction::Immediate(RegisterMemoryOperation::Cmp),
        // DEX
        0xCA => Instruction::Implied(ImplicitOperation::DecrementX),
        // CPY abs
        0xCC => Instruction::Absolute(RegisterMemoryOperation::Cpy),
        // CMP abs
        0xCD => Instruction::Absolute(RegisterMemoryOperation::Cmp),
        // DEC abs
        0xCE => Instruction::AbsoluteReadModifyWrite(MemoryModifyOperation::DecrementMemory),
        // BNE rel
        0xD0 => Instruction::Relative(BranchOperation::BranchNotEqual),
        // CMP (zp),Y
        0xD1 => Instruction::ZeroPageIndirectIdxRead(RegisterMemoryOperation::Cmp, IndexRegister::Y),
        // CMP zp,X
        0xD5 => Instruction::ZeroPageIdx(RegisterMemoryOperation::Cmp, IndexRegister::X),
        // DEC zp,X
        0xD6 => Instruction::ZeroPageIdxReadModifyWrite(MemoryModifyOperation::DecrementMemory, IndexRegister::X),
        // CLD
        0xD8 => Instruction::Implied(ImplicitOperation::ClearDecimal),
        // CMP abs,Y
        0xD9 => Instruction::AbsoluteIdxRead(RegisterMemoryOperation::Cmp, IndexRegister::Y),
        // CMP abs,X
        0xDD => Instruction::AbsoluteIdxRead(RegisterMemoryOperation::Cmp, IndexRegister::X),
        // DEC abs,X
        0xDE => Instruction::AbsoluteIdxReadModifyWrite(MemoryModifyOperation::DecrementMemory, IndexRegister::X),
        // CPX #imm
        0xE0 => Instruction::Immediate(RegisterMemoryOperation::Cpx),
        // SBC (zp,X)
        0xE1 => Instruction::ZeroPageIdxIndirect(RegisterMemoryOperation::Sub, IndexRegister::X),
        // CPX zp
        0xE4 => Instruction::ZeroPage(RegisterMemoryOperation::Cpx),
        // SBC zp
        0xE5 => Instruction::ZeroPage(RegisterMemoryOperation::Sub),
        // INC zp
        0xE6 => Instruction::ZeroPageReadModifyWrite(MemoryModifyOperation::IncrementMemory),
        // INX
        0xE8 => Instruction::Implied(ImplicitOperation::IncrementX),
        // SBC #imm
        0xE9 => Instruction::Immediate(RegisterMemoryOperation::Sub),
        // NOP
        0xEA => Instruction::Implied(ImplicitOperation::Nop),
        // CPX abs
        0xEC => Instruction::Absolute(RegisterMemoryOperation::Cpx),
        // SBC abs
        0xED => Instruction::Absolute(RegisterMemoryOperation::Sub),
        // INC abs
        0xEE => Instruction::AbsoluteReadModifyWrite(MemoryModifyOperation::IncrementMemory),
        // BEQ rel
        0xF0 => Instruction::Relative(BranchOperation::BranchEqual),
        // SBC (zp),Y
        0xF1 => Instruction::ZeroPageIndirectIdxRead(RegisterMemoryOperation::Sub, IndexRegister::Y),
        // SBC zp,X
        0xF5 => Instruction::ZeroPageIdx(RegisterMemoryOperation::Sub, IndexRegister::X),
        // INC zp,X
        0xF6 => Instruction::ZeroPageIdxReadModifyWrite(MemoryModifyOperation::IncrementMemory, IndexRegister::X),
        // SED
        0xF8 => Instruction::Implied(ImplicitOperation::SetDecimal),
        // SBC abs,Y
        0xF9 => Instruction::AbsoluteIdxRead(RegisterMemoryOperation::Sub, IndexRegister::Y),
        // SBC abs,X
        0xFD => Instruction::AbsoluteIdxRead(RegisterMemoryOperation::Sub, IndexRegister::X),
        // INC abs,X
        0xFE => Instruction::AbsoluteIdxReadModifyWrite(MemoryModifyOperation::IncrementMemory, IndexRegister::X),
        _ => Instruction::Implied(ImplicitOperation::Nop),
    }
}
/// Group 1 operations: the arithmetic and logic operations on the accumulator.
#[allow(non_camel_case_types)]
#[derive(Clone, Copy, Debug, Eq, PartialEq, Structural)]
pub enum OpsG1 {
    /// Opcode bits 0x01.
    ORA,
    /// Opcode bits 0x21.
    AND,
    /// Opcode bits 0x41.
    EOR,
    /// Opcode bits 0x61.
    ADC,
    /// Opcode bits 0x81.
    STA,
    /// Opcode bits 0xA1.
    LDA,
    /// Opcode bits 0xC1.
    CMP,
    /// Opcode bits 0xE1.
    SBC,
}

impl OpsG1 {
    /// The opcode bits of this value.
    pub open spec fn code(self) -> u8 {
        match self {
            OpsG1::ORA => 0x01,
            OpsG1::AND => 0x21,
            OpsG1::EOR => 0x41,
            OpsG1::ADC => 0x61,
            OpsG1::STA => 0x81,
            OpsG1::LDA => 0xA1,
            OpsG1::CMP => 0xC1,
            OpsG1::SBC => 0xE1,
        }
    }

    /// The value whose opcode bits are `v`, if any.
    pub open spec fn from_code(v: u8) -> Option<Self> {
        match v {
            0x01 => Some(OpsG1::ORA),
            0x21 => Some(OpsG1::AND),
            0x41 => Some(OpsG1::EOR),
            0x61 => Some(OpsG1::ADC),
            0x81 => Some(OpsG1::STA),
            0xA1 => Some(OpsG1::LDA),
            0xC1 => Some(OpsG1::CMP),
            0xE1 => Some(OpsG1::SBC),
            _ => None,
        }
    }

    /// The value whose opcode bits are `v`, or `None` when no value has them.
    pub fn from_u8(v: u8) -> (r: Option<Self>)
        ensures
            r == Self::from_code(v),
            r matches Some(x) ==> x.code() == v,
    {
        match v {
            0x01 => Some(OpsG1::ORA),
            0x21 => Some(OpsG1::AND),
            0x41 => Some(OpsG1::EOR),
            0x61 => Some(OpsG1::ADC),
            0x81 => Some(OpsG1::STA),
            0xA1 => Some(OpsG1::LDA),
            0xC1 => Some(OpsG1::CMP),
            0xE1 => Some(OpsG1::SBC),
            _ => None,
        }
    }
}

/// Addressing modes of group 1 (bits 2-4 of the opcode).
#[allow(non_camel_case_types)]
#[derive(Clone, Copy, Debug, Eq, PartialEq, Structural)]
pub enum AddrModeG1 {
    /// Opcode bits 0x00.
    ZeroPageIndxIndirect,
    /// Opcode bits 0x04.
    ZeroPage,
    /// Opcode bits 0x08.
    Immediate,
    /// Opcode bits 0x0C.
    Absolute,
    /// Opcode bits 0x10.
    ZeroPageIndirectIdx,
    /// Opcode bits 0x14.
    ZeroPageIdx,
    /// Opcode bits 0x18.
    AbsoluteIdxY,
    /// Opcode bits 0x1C.
    AbsoluteIdxX,
}

impl AddrModeG1 {
    /// The opcode bits of this value.
    pub open spec fn code(self) -> u8 {
        match self {
            AddrModeG1::ZeroPageIndxIndirect => 0x00,
            AddrModeG1::ZeroPage => 0x04,
            AddrModeG1::Immediate => 0x08,
            AddrModeG1::Absolute => 0x0C,
            AddrModeG1::ZeroPageIndirectIdx => 0x10,
            AddrModeG1::ZeroPageIdx => 0x14,
            AddrModeG1::AbsoluteIdxY => 0x18,
            AddrModeG1::AbsoluteIdxX => 0x1C,
        }
    }

    /// The value whose opcode bits are `v`, if any.
    pub open spec fn from_code(v: u8) -> Option<Self> {
        match v {
            0x00 => Some(AddrModeG1::ZeroPageIndxIndirect),
            0x04 => Some(AddrModeG1::ZeroPage),
            0x08 => Some(AddrModeG1::Immediate),
            0x0C => Some(AddrModeG1::Absolute),
            0x10 => Some(AddrModeG1::ZeroPageIndirectIdx),
            0x14 => Some(AddrModeG1::ZeroPageIdx),
            0x18 => Some(AddrModeG1::AbsoluteIdxY),
            0x1C => Some(AddrModeG1::AbsoluteIdxX),
            _ => None,
        }
    }

    /// The value whose opcode bits are `v`, or `None` when no value has them.
    pub fn from_u8(v: u8) -> (r: Option<Self>)
        ensures
            r == Self::from_code(v),
            r matches Some(x) ==> x.code() == v,
    {
        match v {
            0x00 => Some(AddrModeG1::ZeroPageIndxIndirect),
            0x04 => Some(AddrModeG1::ZeroPage),
            0x08 => Some(AddrModeG1::Immediate),
            0x0C => Some(AddrModeG1::Absolute),
            0x10 => Some(AddrModeG1::ZeroPageIndirectIdx),
            0x14 => Some(AddrModeG1::ZeroPageIdx),
            0x18 => Some(AddrModeG1::AbsoluteIdxY),
            0x1C => Some(AddrModeG1::AbsoluteIdxX),
            _ => None,
        }
    }
}

/// Group 2 operations: shifts, rotates, X register loads and stores, memory increments and decrements.
#[allow(non_camel_case_types)]
#[derive(Clone, Copy, Debug, Eq, PartialEq, Structural)]
pub enum OpsG2 {
    /// Opcode bits 0x02.
    ASL,
    /// Opcode bits 0x22.
    ROL,
    /// Opcode bits 0x42.
    LSR,
    /// Opcode bits 0x62.
    ROR,
    /// Opcode bits 0x82.
    STX,
    /// Opcode bits 0xA2.
    LDX,
    /// Opcode bits 0xC2.
    DEC,
    /// Opcode bits 0xE2.
    INC,
}

impl OpsG2 {
    /// The opcode bits of this value.
    pub open spec fn code(self) -> u8 {
        match self {
            OpsG2::ASL => 0x02,
            OpsG2::ROL => 0x22,
            OpsG2::LSR => 0x42,
            OpsG2::ROR => 0x62,
            OpsG2::STX => 0x82,
            OpsG2::LDX => 0xA2,
            OpsG2::DEC => 0xC2,
            OpsG2::INC => 0xE2,
        }
    }

    /// The value whose opcode bits are `v`, if any.
    pub open spec fn from_code(v: u8) -> Option<Self> {
        match v {
            0x02 => Some(OpsG2::ASL),
            0x22 => Some(OpsG2::ROL),
            0x42 => Some(OpsG2::LSR),
            0x62 => Some(OpsG2::ROR),
            0x82 => Some(OpsG2::STX),
            0xA2 => Some(OpsG2::LDX),
            0xC2 => Some(OpsG2::DEC),
            0xE2 => Some(OpsG2::INC),
            _ => None,
        }
    }

    /// The value whose opcode bits are `v`, or `None` when no value has them.
    pub fn from_u8(v: u8) -> (r: Option<Self>)
        ensures
            r == Self::from_code(v),
            r matches Some(x) ==> x.code() == v,
    {
        match v {
            0x02 => Some(OpsG2::ASL),
            0x22 => Some(OpsG2::ROL),
            0x42 => Some(OpsG2::LSR),
            0x62 => Some(OpsG2::ROR),
            0x82 => Some(OpsG2::STX),
            0xA2 => Some(OpsG2::LDX),
            0xC2 => Some(OpsG2::DEC),
            0xE2 => Some(OpsG2::INC),
            _ => None,
        }
    }
}

/// Addressing modes of group 2 (bits 2-4 of the opcode); the indexed modes use Y for STX and LDX.
#[allow(non_camel_case_types)]
#[derive(Clone, Copy, Debug, Eq, PartialEq, Structural)]
pub enum AddrModeG2 {
    /// Opcode bits 0x00.
    Immediate,
    /// Opcode bits 0x04.
    ZeroPage,
    /// Opcode bits 0x08.
    Accumulator,
    /// Opcode bits 0x0C.
    Absolute,
    /// Opcode bits 0x10.
    Unused1,
    /// Opcode bits 0x14.
    ZeroPageIdx,
    /// Opcode bits 0x18.
    Unused2,
    /// Opcode bits 0x1C.
    AbsoluteIdxX,
}

impl AddrModeG2 {
    /// The opcode bits of this value.
    pub open spec fn code(self) -> u8 {
        match self {
            AddrModeG2::Immediate => 0x00,
            AddrModeG2::ZeroPage => 0x04,
            AddrModeG2::Accumulator => 0x08,
            AddrModeG2::Absolute => 0x0C,
            AddrModeG2::Unused1 => 0x10,
            AddrModeG2::ZeroPageIdx => 0x14,
            AddrModeG2::Unused2 => 0x18,
            AddrModeG2::AbsoluteIdxX => 0x1C,
        }
    }

    /// The value whose opcode bits are `v`, if any.
    pub open spec fn from_code(v: u8) -> Option<Self> {
        match v {
            0x00 => Some(AddrModeG2::Immediate),
            0x04 => Some(AddrModeG2::ZeroPage),
            0x08 => Some(AddrModeG2::Accumulator),
            0x0C => Some(AddrModeG2::Absolute),
            0x10 => Some(AddrModeG2::Unused1),
            0x14 => Some(AddrModeG2::ZeroPageIdx),
            0x18 => Some(AddrModeG2::Unused2),
            0x1C => Some(AddrModeG2::AbsoluteIdxX),
            _ => None,
        }
    }

    /// The value whose opcode bits are `v`, or `None` when no value has them.
    pub fn from_u8(v: u8) -> (r: Option<Self>)
        ensures
            r == Self::from_code(v),
            r matches Some(x) ==> x.code() == v,
    {
        match v {
            0x00 => Some(AddrModeG2::Immediate),
            0x04 => Some(AddrModeG2::ZeroPage),
            0x08 => Some(AddrModeG2::Accumulator),
            0x0C => Some(AddrModeG2::Absolute),
            0x10 => Some(AddrModeG2::Unused1),
            0x14 => Some(AddrModeG2::ZeroPageIdx),
            0x18 => Some(AddrModeG2::Unused2),
            0x1C => Some(AddrModeG2::AbsoluteIdxX),
            _ => None,
        }
    }
}

/// Group 3 operations: BIT, jumps, Y register loads and stores, compares with X and Y.
#[allow(non_camel_case_types)]
#[derive(Clone, Copy, Debug, Eq, PartialEq, Structural)]
pub enum OpsG3 {
    /// Opcode bits 0x00.
    Unused,
    /// Opcode bits 0x20.
    BIT,
    /// Opcode bits 0x40.
    JMP,
    /// Opcode bits 0x60.
    JMPInd,
    /// Opcode bits 0x80.
    STY,
    /// Opcode bits 0xA0.
    LDY,
    /// Opcode bits 0xC0.
    CPY,
    /// Opcode bits 0xE0.
    CPX,
}

impl OpsG3 {
    /// The opcode bits of this value.
    pub open spec fn code(self) -> u8 {
        match self {
            OpsG3::Unused => 0x00,
            OpsG3::BIT => 0x20,
            OpsG3::JMP => 0x40,
            OpsG3::JMPInd => 0x60,
            OpsG3::STY => 0x80,
            OpsG3::LDY => 0xA0,
            OpsG3::CPY => 0xC0,
            OpsG3::CPX => 0xE0,
        }
    }

    /// The value whose opcode bits are `v`, if any.
    pub open spec fn from_code(v: u8) -> Option<Self> {
        match v {
            0x00 => Some(OpsG3::Unused),
            0x20 => Some(OpsG3::BIT),
            0x40 => Some(OpsG3::JMP),
            0x60 => Some(OpsG3::JMPInd),
            0x80 => Some(OpsG3::STY),
            0xA0 => Some(OpsG3::LDY),
            0xC0 => Some(OpsG3::CPY),
            0xE0 => Some(OpsG3::CPX),
            _ => None,
        }
    }

    /// The value whose opcode bits are `v`, or `None` when no value has them.
    pub fn from_u8(v: u8) -> (r: Option<Self>)
        ensures
            r == Self::from_code(v),
            r matches Some(x) ==> x.code() == v,
    {
        match v {
            0x00 => Some(OpsG3::Unused),
            0x20 => Some(OpsG3::BIT),
            0x40 => Some(OpsG3::JMP),
            0x60 => Some(OpsG3::JMPInd),
            0x80 => Some(OpsG3::STY),
            0xA0 => Some(OpsG3::LDY),
            0xC0 => Some(OpsG3::CPY),
            0xE0 => Some(OpsG3::CPX),
            _ => None,
        }
    }
}

/// Addressing modes of group 3 (bits 2-4 of the opcode).
#[allow(non_camel_case_types)]
#[derive(Clone, Copy, Debug, Eq, PartialEq, Structural)]
pub enum AddrModeG3 {
    /// Opcode bits 0x00.
    Immediate,
    /// Opcode bits 0x04.
    ZeroPage,
    /// Opcode bits 0x08.
    Unused1,
    /// Opcode bits 0x0C.
    Absolute,
    /// Opcode bits 0x10.
    Unused2,
    /// Opcode bits 0x14.
    ZeroPageIdx,
    /// Opcode bits 0x18.
    Unused3,
    /// Opcode bits 0x1C.
    AbsoluteIdxX,
}

impl AddrModeG3 {
    /// The opcode bits of this value.
    pub open spec fn code(self) -> u8 {
        match self {
            AddrModeG3::Immediate => 0x00,
            AddrModeG3::ZeroPage => 0x04,
            AddrModeG3::Unused1 => 0x08,
            AddrModeG3::Absolute => 0x0C,
            AddrModeG3::Unused2 => 0x10,
            AddrModeG3::ZeroPageIdx => 0x14,
            AddrModeG3::Unused3 => 0x18,
            AddrModeG3::AbsoluteIdxX => 0x1C,
        }
    }

    /// The value whose opcode bits are `v`, if any.
    pub open spec fn from_code(v: u8) -> Option<Self> {
        match v {
            0x00 => Some(AddrModeG3::Immediate),
            0x04 => Some(AddrModeG3::ZeroPage),
            0x08 => Some(AddrModeG3::Unused1),
            0x0C => Some(AddrModeG3::Absolute),
            0x10 => Some(AddrModeG3::Unused2),
            0x14 => Some(AddrModeG3::ZeroPageIdx),
            0x18 => Some(AddrModeG3::Unused3),
            0x1C => Some(AddrModeG3::AbsoluteIdxX),
            _ => None,
        }
    }

    /// The value whose opcode bits are `v`, or `None` when no value has them.
    pub fn from_u8(v: u8) -> (r: Option<Self>)
        ensures
            r == Self::from_code(v),
            r matches Some(x) ==> x.code() == v,
    {
        match v {
            0x00 => Some(AddrModeG3::Immediate),
            0x04 => Some(AddrModeG3::ZeroPage),
            0x08 => Some(AddrModeG3::Unused1),
            0x0C => Some(AddrModeG3::Absolute),
            0x10 => Some(AddrModeG3::Unused2),
            0x14 => Some(AddrModeG3::ZeroPageIdx),
            0x18 => Some(AddrModeG3::Unused3),
            0x1C => Some(AddrModeG3::AbsoluteIdxX),
            _ => None,
        }
    }
}

/// Conditional branches, which test one status flag.
#[allow(non_camel_case_types)]
#[derive(Clone, Copy, Debug, Eq, PartialEq, Structural)]
pub enum OpsCompBranch {
    /// Opcode bits 0x10.
    BPL,
    /// Opcode bits 0x30.
    BMI,
    /// Opcode bits 0x50.
    BVC,
    /// Opcode bits 0x70.
    BVS,
    /// Opcode bits 0x90.
    BCC,
    /// Opcode bits 0xB0.
    BCS,
    /// Opcode bits 0xD0.
    BNE,
    /// Opcode bits 0xF0.
    BEQ,
}

impl OpsCompBranch {
    /// The opcode bits of this value.
    pub open spec fn code(self) -> u8 {
        match self {
            OpsCompBranch::BPL => 0x10,
            OpsCompBranch::BMI => 0x30,
            OpsCompBranch::BVC => 0x50,
            OpsCompBranch::BVS => 0x70,
            OpsCompBranch::BCC => 0x90,
            OpsCompBranch::BCS => 0xB0,
            OpsCompBranch::BNE => 0xD0,
            OpsCompBranch::BEQ => 0xF0,
        }
    }

    /// The value whose opcode bits are `v`, if any.
    pub open spec fn from_code(v: u8) -> Option<Self> {
        match v {
            0x10 => Some(OpsCompBranch::BPL),
            0x30 => Some(OpsCompBranch::BMI),
            0x50 => Some(OpsCompBranch::BVC),
            0x70 => Some(OpsCompBranch::BVS),
            0x90 => Some(OpsCompBranch::BCC),
            0xB0 => Some(OpsCompBranch::BCS),
            0xD0 => Some(OpsCompBranch::BNE),
            0xF0 => Some(OpsCompBranch::BEQ),
            _ => None,
        }
    }

    /// The value whose opcode bits are `v`, or `None` when no value has them.
    pub fn from_u8(v: u8) -> (r: Option<Self>)
        ensures
            r == Self::from_code(v),
            r matches Some(x) ==> x.code() == v,
    {
        match v {
            0x10 => Some(OpsCompBranch::BPL),
            0x30 => Some(OpsCompBranch::BMI),
            0x50 => Some(OpsCompBranch::BVC),
            0x70 => Some(OpsCompBranch::BVS),
            0x90 => Some(OpsCompBranch::BCC),
            0xB0 => Some(OpsCompBranch::BCS),
            0xD0 => Some(OpsCompBranch::BNE),
            0xF0 => Some(OpsCompBranch::BEQ),
            _ => None,
        }
    }
}

/// Subroutine and interrupt instructions.
#[allow(non_camel_case_types)]
#[derive(Clone, Copy, Debug, Eq, PartialEq, Structural)]
pub enum OpsSubroutine {
    /// Opcode bits 0x00.
    BRK,
    /// Opcode bits 0x20.
    JSR,
    /// Opcode bits 0x40.
    RTI,
    /// Opcode bits 0x60.
    RTS,
}

impl OpsSubroutine {
    /// The opcode bits of this value.
    pub open spec fn code(self) -> u8 {
        match self {
            OpsSubroutine::BRK => 0x00,
            OpsSubroutine::JSR => 0x20,
            OpsSubroutine::RTI => 0x40,
            OpsSubroutine::RTS => 0x60,
        }
    }

    /// The value whose opcode bits are `v`, if any.
    pub open spec fn from_code(v: u8) -> Option<Self> {
        match v {
            0x00 => Some(OpsSubroutine::BRK),
            0x20 => Some(OpsSubroutine::JSR),
            0x40 => Some(OpsSubroutine::RTI),
            0x60 => Some(OpsSubroutine::RTS),
            _ => None,
        }
    }

    /// The value whose opcode bits are `v`, or `None` when no value has them.
    pub fn from_u8(v: u8) -> (r: Option<Self>)
        ensures
            r == Self::from_code(v),
            r matches Some(x) ==> x.code() == v,
    {
        match v {
            0x00 => Some(OpsSubroutine::BRK),
            0x20 => Some(OpsSubroutine::JSR),
            0x40 => Some(OpsSubroutine::RTI),
            0x60 => Some(OpsSubroutine::RTS),
            _ => None,
        }
    }
}

/// Single-byte instructions whose opcode ends in 8 (low nibble).
#[allow(non_camel_case_types)]
#[derive(Clone, Copy, Debug, Eq, PartialEq, Structural)]
pub enum OpsSingleByte0 {
    /// Opcode bits 0x08.
    PHP,
    /// Opcode bits 0x28.
    PLP,
    /// Opcode bits 0x48.
    PHA,
    /// Opcode bits 0x68.
    PLA,
    /// Opcode bits 0x88.
    DEY,
    /// Opcode bits 0xA8.
    TAY,
    /// Opcode bits 0xC8.
    INY,
    /// Opcode bits 0xE8.
    INX,
    /// Opcode bits 0x18.
    CLC,
    /// Opcode bits 0x38.
    SEC,
    /// Opcode bits 0x58.
    CLI,
    /// Opcode bits 0x78.
    SEI,
    /// Opcode bits 0x98.
    TYA,
    /// Opcode bits 0xB8.
    CLV,
    /// Opcode bits 0xD8.
    CLD,
    /// Opcode bits 0xF8.
    SED,
}

impl OpsSingleByte0 {
    /// The opcode bits of this value.
    pub open spec fn code(self) -> u8 {
        match self {
            OpsSingleByte0::PHP => 0x08,
            OpsSingleByte0::PLP => 0x28,
            OpsSingleByte0::PHA => 0x48,
            OpsSingleByte0::PLA => 0x68,
            OpsSingleByte0::DEY => 0x88,
            OpsSingleByte0::TAY => 0xA8,
            OpsSingleByte0::INY => 0xC8,
            OpsSingleByte0::INX => 0xE8,
            OpsSingleByte0::CLC => 0x18,
            OpsSingleByte0::SEC => 0x38,
            OpsSingleByte0::CLI => 0x58,
            OpsSingleByte0::SEI => 0x78,
            OpsSingleByte0::TYA => 0x98,
            OpsSingleByte0::CLV => 0xB8,
            OpsSingleByte0::CLD => 0xD8,
            OpsSingleByte0::SED => 0xF8,
        }
    }

    /// The value whose opcode bits are `v`, if any.
    pub open spec fn from_code(v: u8) -> Option<Self> {
        match v {
            0x08 => Some(OpsSingleByte0::PHP),
            0x28 => Some(OpsSingleByte0::PLP),
            0x48 => Some(OpsSingleByte0::PHA),
            0x68 => Some(OpsSingleByte0::PLA),
            0x88 => Some(OpsSingleByte0::DEY),
            0xA8 => Some(OpsSingleByte0::TAY),
            0xC8 => Some(OpsSingleByte0::INY),
            0xE8 => Some(OpsSingleByte0::INX),
            0x18 => Some(OpsSingleByte0::CLC),
            0x38 => Some(OpsSingleByte0::SEC),
            0x58 => Some(OpsSingleByte0::CLI),
            0x78 => Some(OpsSingleByte0::SEI),
            0x98 => Some(OpsSingleByte0::TYA),
            0xB8 => Some(OpsSingleByte0::CLV),
            0xD8 => Some(OpsSingleByte0::CLD),
            0xF8 => Some(OpsSingleByte0::SED),
            _ => None,
        }
    }

    /// The value whose opcode bits are `v`, or `None` when no value has them.
    pub fn from_u8(v: u8) -> (r: Option<Self>)
        ensures
            r == Self::from_code(v),
            r matches Some(x) ==> x.code() == v,
    {
        match v {
            0x08 => Some(OpsSingleByte0::PHP),
            0x28 => Some(OpsSingleByte0::PLP),
            0x48 => Some(OpsSingleByte0::PHA),
            0x68 => Some(OpsSingleByte0::PLA),
            0x88 => Some(OpsSingleByte0::DEY),
            0xA8 => Some(OpsSingleByte0::TAY),
            0xC8 => Some(OpsSingleByte0::INY),
            0xE8 => Some(OpsSingleByte0::INX),
            0x18 => Some(OpsSingleByte0::CLC),
            0x38 => Some(OpsSingleByte0::SEC),
            0x58 => Some(OpsSingleByte0::CLI),
            0x78 => Some(OpsSingleByte0::SEI),
            0x98 => Some(OpsSingleByte0::TYA),
            0xB8 => Some(OpsSingleByte0::CLV),
            0xD8 => Some(OpsSingleByte0::CLD),
            0xF8 => Some(OpsSingleByte0::SED),
            _ => None,
        }
    }
}

/// Single-byte instructions whose opcode ends in A (low nibble).
#[allow(non_camel_case_types)]
#[derive(Clone, Copy, Debug, Eq, PartialEq, Structural)]
pub enum OpsSingleByte2 {
    /// Opcode bits 0x8A.
    TXA,
    /// Opcode bits 0x9A.
    TXS,
    /// Opcode bits 0xAA.
    TAX,
    /// Opcode bits 0xBA.
    TSX,
    /// Opcode bits 0xCA.
    DEX,
    /// Opcode bits 0xEA.
    NOP,
}

impl OpsSingleByte2 {
    /// The opcode bits of this value.
    pub open spec fn code(self) -> u8 {
        match self {
            OpsSingleByte2::TXA => 0x8A,
            OpsSingleByte2::TXS => 0x9A,
            OpsSingleByte2::TAX => 0xAA,
            OpsSingleByte2::TSX => 0xBA,
            OpsSingleByte2::DEX => 0xCA,
            OpsSingleByte2::NOP => 0xEA,
        }
    }

    /// The value whose opcode bits are `v`, if any.
    pub open spec fn from_code(v: u8) -> Option<Self> {
        match v {
            0x8A => Some(OpsSingleByte2::TXA),
            0x9A => Some(OpsSingleByte2::TXS),
            0xAA => Some(OpsSingleByte2::TAX),
            0xBA => Some(OpsSingleByte2::TSX),
            0xCA => Some(OpsSingleByte2::DEX),
            0xEA => Some(OpsSingleByte2::NOP),
            _ => None,
        }
    }

    /// The value whose opcode bits are `v`, or `None` when no value has them.
    pub fn from_u8(v: u8) -> (r: Option<Self>)
        ensures
            r == Self::from_code(v),
            r matches Some(x) ==> x.code() == v,
    {
        match v {
            0x8A => Some(OpsSingleByte2::TXA),
            0x9A => Some(OpsSingleByte2::TXS),
            0xAA => Some(OpsSingleByte2::TAX),
            0xBA => Some(OpsSingleByte2::TSX),
            0xCA => Some(OpsSingleByte2::DEX),
            0xEA => Some(OpsSingleByte2::NOP),
            _ => None,
        }
    }
}

/// The operation of a group 1 instruction.
fn instr_op_g1(op: OpsG1) -> (r: InstructionOp)
    ensures
        r == match op {
            OpsG1::ORA => InstructionOp::Or,
            OpsG1::AND => InstructionOp::And,
            OpsG1::EOR => InstructionOp::Xor,
            OpsG1::ADC => InstructionOp::Add,
            OpsG1::STA => InstructionOp::StoreA,
            OpsG1::LDA => InstructionOp::LoadA,
            OpsG1::CMP => InstructionOp::Cmp,
            OpsG1::SBC => InstructionOp::Sub,
        },
{
    match op {
        OpsG1::ORA => InstructionOp::Or,
        OpsG1::AND => InstructionOp::And,
        OpsG1::EOR => InstructionOp::Xor,
        OpsG1::ADC => InstructionOp::Add,
        OpsG1::STA => InstructionOp::StoreA,
        OpsG1::LDA => InstructionOp::LoadA,
        OpsG1::CMP => InstructionOp::Cmp,
        OpsG1::SBC => InstructionOp::Sub,
    }
}

/// The operation of a group 2 instruction; shifts and rotates work on the
/// accumulator in accumulator mode and on memory otherwise.
fn instr_op_g2(op: OpsG2, addr_mode: AddrModeG2) -> (r: InstructionOp)
    ensures
        r == match op {
            OpsG2::ASL => if addr_mode == AddrModeG2::Accumulator {
                InstructionOp::ShiftLeftA
            } else {
                InstructionOp::ShiftLeftMemory
            },
            OpsG2::ROL => if addr_mode == AddrModeG2::Accumulator {
                InstructionOp::RotateLeftA
            } else {
                InstructionOp::RotateLeftMemory
            },
            OpsG2::LSR => if addr_mode == AddrModeG2::Accumulator {
                InstructionOp::ShiftRightA
            } else {
                InstructionOp::ShiftRightMemory
            },
            OpsG2::ROR => if addr_mode == AddrModeG2::Accumulator {
                InstructionOp::RotateRightA
            } else {
                InstructionOp::RotateRightMemory
            },
            OpsG2::STX => InstructionOp::StoreX,
            OpsG2::LDX => InstructionOp::LoadX,
            OpsG2::DEC => InstructionOp::DecrementMemory,
            OpsG2::INC => InstructionOp::IncrementMemory,
        },
{
    match op {
        OpsG2::ASL => match addr_mode {
            AddrModeG2::Accumulator => InstructionOp::ShiftLeftA,
            _ => InstructionOp::ShiftLeftMemory,
        },
        OpsG2::ROL => match addr_mode {
            AddrModeG2::Accumulator => InstructionOp::RotateLeftA,
            _ => InstructionOp::RotateLeftMemory,
        },
        OpsG2::LSR => match addr_mode {
            AddrModeG2::Accumulator => InstructionOp::ShiftRightA,
            _ => InstructionOp::ShiftRightMemory,
        },
        OpsG2::ROR => match addr_mode {
            AddrModeG2::Accumulator => InstructionOp::RotateRightA,
            _ => InstructionOp::RotateRightMemory,
        },
        OpsG2::STX => InstructionOp::StoreX,
        OpsG2::LDX => InstructionOp::LoadX,
        OpsG2::DEC => InstructionOp::DecrementMemory,
        OpsG2::INC => InstructionOp::IncrementMemory,
    }
}

/// The operation of a group 3 instruction; BIT with an immediate operand is
/// its own operation, and the jumps carry none.
fn instr_op_g3(op: OpsG3, addr_mode: AddrModeG3) -> (r: InstructionOp)
    ensures
        r == match op {
            OpsG3::Unused => InstructionOp::Nop,
            OpsG3::BIT => if addr_mode == AddrModeG3::Immediate {
                InstructionOp::BitImmediate
            } else {
                InstructionOp::Bit
            },
            OpsG3::JMP => InstructionOp::Nop,
            OpsG3::JMPInd => InstructionOp::Nop,
            OpsG3::STY => InstructionOp::StoreY,
            OpsG3::LDY => InstructionOp::LoadY,
            OpsG3::CPY => InstructionOp::Cpy,
            OpsG3::CPX => InstructionOp::Cpx,
        },
{
    match op {
        OpsG3::Unused => InstructionOp::Nop,
        OpsG3::BIT => {
            if addr_mode == AddrModeG3::Immediate {
                InstructionOp::BitImmediate
            } else {
                InstructionOp::Bit
            }
        },
        OpsG3::JMP => InstructionOp::Nop,
        OpsG3::JMPInd => InstructionOp::Nop,
        OpsG3::STY => InstructionOp::StoreY,
        OpsG3::LDY => InstructionOp::LoadY,
        OpsG3::CPY => InstructionOp::Cpy,
        OpsG3::CPX => InstructionOp::Cpx,
    }
}

/// The operation of a conditional branch.
fn instr_op_cond_branch(op: OpsCompBranch) -> (r: InstructionOp)
    ensures
        r == match op {
            OpsCompBranch::BPL => InstructionOp::BranchPlus,
            OpsCompBranch::BMI => InstructionOp::BranchMinus,
            OpsCompBranch::BVC => InstructionOp::BranchOverflowClear,
            OpsCompBranch::BVS => InstructionOp::BranchOverflowSet,
            OpsCompBranch::BCC => InstructionOp::BranchCarryClear,
            OpsCompBranch::BCS => InstructionOp::BranchCarrySet,
            OpsCompBranch::BNE => InstructionOp::BranchNotEqual,
            OpsCompBranch::BEQ => InstructionOp::BranchEqual,
        },
{
    match op {
        OpsCompBranch::BPL => InstructionOp::BranchPlus,
        OpsCompBranch::BMI => InstructionOp::BranchMinus,
        OpsCompBranch::BVC => InstructionOp::BranchOverflowClear,
        OpsCompBranch::BVS => InstructionOp::BranchOverflowSet,
        OpsCompBranch::BCC => InstructionOp::BranchCarryClear,
        OpsCompBranch::BCS => InstructionOp::BranchCarrySet,
        OpsCompBranch::BNE => InstructionOp::BranchNotEqual,
        OpsCompBranch::BEQ => InstructionOp::BranchEqual,
    }
}

/// The operation of a single-byte instruction whose opcode ends in 8.
fn instr_op_single_byte0(op: OpsSingleByte0) -> (r: InstructionOp)
    ensures
        r == match op {
            OpsSingleByte0::PHP => InstructionOp::PushStatus,
            OpsSingleByte0::PLP => InstructionOp::PullStatus,
            OpsSingleByte0::PHA => InstructionOp::PushA,
            OpsSingleByte0::PLA => InstructionOp::PullA,
            OpsSingleByte0::DEY => InstructionOp::DecrementY,
            OpsSingleByte0::TAY => InstructionOp::TransferAccumulatorToY,
            OpsSingleByte0::INY => InstructionOp::IncrementY,
            OpsSingleByte0::INX => InstructionOp::IncrementX,
            OpsSingleByte0::CLC => InstructionOp::ClearCarry,
            OpsSingleByte0::SEC => InstructionOp::SetCarry,
            OpsSingleByte0::CLI => InstructionOp::ClearInterruptDisable,
            OpsSingleByte0::SEI => InstructionOp::SetInterruptDisable,
            OpsSingleByte0::TYA => InstructionOp::TransferYToAccumulator,
            OpsSingleByte0::CLV => InstructionOp::ClearOverflow,
            OpsSingleByte0::CLD => InstructionOp::ClearDecimal,
            OpsSingleByte0::SED => InstructionOp::SetDecimal,
        },
{
    match op {
        OpsSingleByte0::PHP => InstructionOp::PushStatus,
        OpsSingleByte0::PLP => InstructionOp::PullStatus,
        OpsSingleByte0::PHA => InstructionOp::PushA,
        OpsSingleByte0::PLA => InstructionOp::PullA,
        OpsSingleByte0::DEY => InstructionOp::DecrementY,
        OpsSingleByte0::TAY => InstructionOp::TransferAccumulatorToY,
        OpsSingleByte0::INY => InstructionOp::IncrementY,
        OpsSingleByte0::INX => InstructionOp::IncrementX,
        OpsSingleByte0::CLC => InstructionOp::ClearCarry,
        OpsSingleByte0::SEC => InstructionOp::SetCarry,
        OpsSingleByte0::CLI => InstructionOp::ClearInterruptDisable,
        OpsSingleByte0::SEI => InstructionOp::SetInterruptDisable,
        OpsSingleByte0::TYA => InstructionOp::TransferYToAccumulator,
        OpsSingleByte0::CLV => InstructionOp::ClearOverflow,
        OpsSingleByte0::CLD => InstructionOp::ClearDecimal,
        OpsSingleByte0::SED => InstructionOp::SetDecimal,
    }
}

/// The operation of a single-byte instruction whose opcode ends in A.
fn instr_op_single_byte2(op: OpsSingleByte2) -> (r: InstructionOp)
    ensures
        r == match op {
            OpsSingleByte2::TXA => InstructionOp::TransferXToAccumulator,
            OpsSingleByte2::TXS => InstructionOp::TransferXToStackPtr,
            OpsSingleByte2::TAX => InstructionOp::TransferAccumulatorToX,
            OpsSingleByte2::TSX => InstructionOp::TransferStackPtrToX,
            OpsSingleByte2::DEX => InstructionOp::DecrementX,
            OpsSingleByte2::NOP => InstructionOp::Nop,
        },
{
    match op {
        OpsSingleByte2::TXA => InstructionOp::TransferXToAccumulator,
        OpsSingleByte2::TXS => InstructionOp::TransferXToStackPtr,
        OpsSingleByte2::TAX => InstructionOp::TransferAccumulatorToX,
        OpsSingleByte2::TSX => InstructionOp::TransferStackPtrToX,
        OpsSingleByte2::DEX => InstructionOp::DecrementX,
        OpsSingleByte2::NOP => InstructionOp::Nop,
    }
}

/// The sequence of a group 1 instruction; stores use the write variants of
/// the indexed sequences.
fn sequence_mode_g1(op: OpsG1, addr_mode: AddrModeG1) -> (r: InstructionSequenceMode)
    ensures
        r == match addr_mode {
            AddrModeG1::ZeroPage => InstructionSequenceMode::ZeroPage,
            AddrModeG1::Immediate => InstructionSequenceMode::Immediate,
            AddrModeG1::Absolute => InstructionSequenceMode::Absolute,
            AddrModeG1::ZeroPageIndxIndirect => InstructionSequenceMode::ZeroPageIdxIndirect,
            AddrModeG1::ZeroPageIdx => InstructionSequenceMode::ZeroPageIdx,
            AddrModeG1::AbsoluteIdxY | AddrModeG1::AbsoluteIdxX => if op == OpsG1::STA {
                InstructionSequenceMode::AbsoluteIdxWrite
            } else {
                InstructionSequenceMode::AbsoluteIdxRead
            },
            AddrModeG1::ZeroPageIndirectIdx => if op == OpsG1::STA {
                InstructionSequenceMode::ZeroPageIndirectIdxWrite
            } else {
                InstructionSequenceMode::ZeroPageIndirectIdxRead
            },
        },
{
    match addr_mode {
        AddrModeG1::ZeroPage => InstructionSequenceMode::ZeroPage,
        AddrModeG1::Immediate => InstructionSequenceMode::Immediate,
        AddrModeG1::Absolute => InstructionSequenceMode::Absolute,
        AddrModeG1::ZeroPageIndxIndirect => InstructionSequenceMode::ZeroPageIdxIndirect,
        AddrModeG1::ZeroPageIdx => InstructionSequenceMode::ZeroPageIdx,
        AddrModeG1::AbsoluteIdxY | AddrModeG1::AbsoluteIdxX => match op {
            OpsG1::STA => InstructionSequenceMode::AbsoluteIdxWrite,
            OpsG1::ORA | OpsG1::AND | OpsG1::EOR | OpsG1::ADC | OpsG1::LDA | OpsG1::CMP
            | OpsG1::SBC => InstructionSequenceMode::AbsoluteIdxRead,
        },
        AddrModeG1::ZeroPageIndirectIdx => match op {
            OpsG1::STA => InstructionSequenceMode::ZeroPageIndirectIdxWrite,
            OpsG1::ORA | OpsG1::AND | OpsG1::EOR | OpsG1::ADC | OpsG1::LDA | OpsG1::CMP
            | OpsG1::SBC => InstructionSequenceMode::ZeroPageIndirectIdxRead,
        },
    }
}

/// The sequence of a group 2 instruction; shifts, rotates, increments and
/// decrements use the read-modify-write sequences.
fn sequence_mode_g2(op: OpsG2, addr_mode: AddrModeG2) -> (r: InstructionSequenceMode)
    ensures
        r == if op == OpsG2::STX || op == OpsG2::LDX {
            match addr_mode {
                AddrModeG2::Immediate => InstructionSequenceMode::Immediate,
                AddrModeG2::ZeroPage => InstructionSequenceMode::ZeroPage,
                AddrModeG2::Accumulator => InstructionSequenceMode::Implied,
                AddrModeG2::Absolute => InstructionSequenceMode::Absolute,
                AddrModeG2::ZeroPageIdx => InstructionSequenceMode::ZeroPageIdx,
                AddrModeG2::AbsoluteIdxX => if op == OpsG2::STX {
                    InstructionSequenceMode::AbsoluteIdxWrite
                } else {
                    InstructionSequenceMode::AbsoluteIdxRead
                },
                AddrModeG2::Unused1 | AddrModeG2::Unused2 => InstructionSequenceMode::FetchInstr,
            }
        } else {
            match addr_mode {
                AddrModeG2::ZeroPage => InstructionSequenceMode::ZeroPageReadModifyWrite,
                AddrModeG2::Immediate => InstructionSequenceMode::Immediate,
                AddrModeG2::Absolute => InstructionSequenceMode::AbsoluteReadModifyWrite,
                AddrModeG2::ZeroPageIdx => InstructionSequenceMode::ZeroPageIdxReadModifyWrite,
                AddrModeG2::AbsoluteIdxX => InstructionSequenceMode::AbsoluteIdxReadModifyWrite,
                AddrModeG2::Accumulator => InstructionSequenceMode::Implied,
                AddrModeG2::Unused1 | AddrModeG2::Unused2 => InstructionSequenceMode::FetchInstr,
            }
        },
{
    match op {
        OpsG2::ASL | OpsG2::ROL | OpsG2::LSR | OpsG2::ROR | OpsG2::DEC | OpsG2::INC => {
            match addr_mode {
                AddrModeG2::ZeroPage => InstructionSequenceMode::ZeroPageReadModifyWrite,
                AddrModeG2::Immediate => InstructionSequenceMode::Immediate,
                AddrModeG2::Absolute => InstructionSequenceMode::AbsoluteReadModifyWrite,
                AddrModeG2::ZeroPageIdx => InstructionSequenceMode::ZeroPageIdxReadModifyWrite,
                AddrModeG2::AbsoluteIdxX => InstructionSequenceMode::AbsoluteIdxReadModifyWrite,
                AddrModeG2::Accumulator => InstructionSequenceMode::Implied,
                AddrModeG2::Unused1 | AddrModeG2::Unused2 => InstructionSequenceMode::default(),
            }
        },
        OpsG2::STX | OpsG2::LDX => {
            match addr_mode {
                AddrModeG2::Immediate => InstructionSequenceMode::Immediate,
                AddrModeG2::ZeroPage => InstructionSequenceMode::ZeroPage,
                AddrModeG2::Accumulator => InstructionSequenceMode::Implied,
                AddrModeG2::Absolute => InstructionSequenceMode::Absolute,
                AddrModeG2::ZeroPageIdx => InstructionSequenceMode::ZeroPageIdx,
                AddrModeG2::AbsoluteIdxX => {
                    if op == OpsG2::STX {
                        InstructionSequenceMode::AbsoluteIdxWrite
                    } else {
                        InstructionSequenceMode::AbsoluteIdxRead
                    }
                },
                AddrModeG2::Unused1 | AddrModeG2::Unused2 => InstructionSequenceMode::default(),
            }
        },
    }
}

/// The sequence of a group 3 instruction; the jumps have sequences of their own.
fn sequence_mode_g3(op: OpsG3, addr_mode: AddrModeG3) -> (r: InstructionSequenceMode)
    ensures
        r == if op == OpsG3::JMP {
            InstructionSequenceMode::AbsoluteJump
        } else if op == OpsG3::JMPInd {
            InstructionSequenceMode::AbsoluteIndirectJump
        } else {
            match addr_mode {
                AddrModeG3::Immediate => InstructionSequenceMode::Immediate,
                AddrModeG3::ZeroPage => InstructionSequenceMode::ZeroPage,
                AddrModeG3::Unused1 | AddrModeG3::Unused2 | AddrModeG3::Unused3 => {
                    InstructionSequenceMode::FetchInstr
                },
                AddrModeG3::Absolute => InstructionSequenceMode::Absolute,
                AddrModeG3::ZeroPageIdx => InstructionSequenceMode::ZeroPageIdx,
                AddrModeG3::AbsoluteIdxX => InstructionSequenceMode::AbsoluteIdxRead,
            }
        },
{
    match op {
        OpsG3::JMP => InstructionSequenceMode::AbsoluteJump,
        OpsG3::JMPInd => InstructionSequenceMode::AbsoluteIndirectJump,
        _ => match addr_mode {
            AddrModeG3::Immediate => InstructionSequenceMode::Immediate,
            AddrModeG3::ZeroPage => InstructionSequenceMode::ZeroPage,
            AddrModeG3::Unused1 | AddrModeG3::Unused2 | AddrModeG3::Unused3 => {
                InstructionSequenceMode::default()
            },
            AddrModeG3::Absolute => InstructionSequenceMode::Absolute,
            AddrModeG3::ZeroPageIdx => InstructionSequenceMode::ZeroPageIdx,
            AddrModeG3::AbsoluteIdxX => InstructionSequenceMode::AbsoluteIdxRead,
        },
    }
}

/// The sequence of a subroutine or interrupt instruction.
fn sequence_mode_subroutine(op: OpsSubroutine) -> (r: InstructionSequenceMode)
    ensures
        r == match op {
            OpsSubroutine::BRK => InstructionSequenceMode::Break,
            OpsSubroutine::JSR => InstructionSequenceMode::JumpSubroutine,
            OpsSubroutine::RTI => InstructionSequenceMode::ReturnInterrupt,
            OpsSubroutine::RTS => InstructionSequenceMode::ReturnSubroutine,
        },
{
    match op {
        OpsSubroutine::BRK => InstructionSequenceMode::Break,
        OpsSubroutine::JSR => InstructionSequenceMode::JumpSubroutine,
        OpsSubroutine::RTI => InstructionSequenceMode::ReturnInterrupt,
        OpsSubroutine::RTS => InstructionSequenceMode::ReturnSubroutine,
    }
}

/// The sequence of a single-byte instruction whose opcode ends in 8: stack
/// pushes and pulls, the others implied.
fn sequence_mode_single_byte0(op: OpsSingleByte0) -> (r: InstructionSequenceMode)
    ensures
        r == if op == OpsSingleByte0::PHP || op == OpsSingleByte0::PHA {
            InstructionSequenceMode::Push
        } else if op == OpsSingleByte0::PLP || op == OpsSingleByte0::PLA {
            InstructionSequenceMode::Pull
        } else {
            InstructionSequenceMode::Implied
        },
{
    match op {
        OpsSingleByte0::PHP | OpsSingleByte0::PHA => InstructionSequenceMode::Push,
        OpsSingleByte0::PLP | OpsSingleByte0::PLA => InstructionSequenceMode::Pull,
        _ => InstructionSequenceMode::Implied,
    }
}

/// The index register of a group 1 instruction: X for `(zp,X)`, `zp,X` and
/// `abs,X`; Y for `(zp),Y` and `abs,Y`.
fn index_reg_g1(addr_mode: AddrModeG1) -> (r: Option<IndexRegister>)
    ensures
        r == match addr_mode {
            AddrModeG1::ZeroPageIdx | AddrModeG1::ZeroPageIndxIndirect
            | AddrModeG1::AbsoluteIdxX => Some(IndexRegister::X),
            AddrModeG1::ZeroPageIndirectIdx | AddrModeG1::AbsoluteIdxY => Some(IndexRegister::Y),
            _ => None,
        },
{
    match addr_mode {
        AddrModeG1::ZeroPageIdx | AddrModeG1::ZeroPageIndxIndirect | AddrModeG1::AbsoluteIdxX => {
            Some(IndexRegister::X)
        },
        AddrModeG1::ZeroPageIndirectIdx | AddrModeG1::AbsoluteIdxY => Some(IndexRegister::Y),
        _ => None,
    }
}

/// The index register of a group 2 instruction: Y for STX and LDX indexed
/// in page zero and for LDX absolute indexed, X otherwise.
fn index_reg_g2(op: OpsG2, addr_mode: AddrModeG2) -> (r: Option<IndexRegister>)
    ensures
        r == match addr_mode {
            AddrModeG2::ZeroPageIdx => if op == OpsG2::STX || op == OpsG2::LDX {
                Some(IndexRegister::Y)
            } else {
                Some(IndexRegister::X)
            },
            AddrModeG2::AbsoluteIdxX => if op == OpsG2::LDX {
                Some(IndexRegister::Y)
            } else {
                Some(IndexRegister::X)
            },
            _ => None,
        },
{
    match addr_mode {
        AddrModeG2::ZeroPageIdx => {
            if matches!(op, OpsG2::STX | OpsG2::LDX) {
                Some(IndexRegister::Y)
            } else {
                Some(IndexRegister::X)
            }
        },
        AddrModeG2::AbsoluteIdxX => {
            if op == OpsG2::LDX {
                Some(IndexRegister::Y)
            } else {
                Some(IndexRegister::X)
            }
        },
        _ => None,
    }
}

/// The index register of a group 3 instruction: X for the indexed modes.
fn index_reg_g3(addr_mode: AddrModeG3) -> (r: Option<IndexRegister>)
    ensures
        r == if addr_mode == AddrModeG3::ZeroPageIdx || addr_mode == AddrModeG3::AbsoluteIdxX {
            Some(IndexRegister::X)
        } else {
            None
        },
{
    if matches!(addr_mode, AddrModeG3::ZeroPageIdx | AddrModeG3::AbsoluteIdxX) {
        Some(IndexRegister::X)
    } else {
        None
    }
}

/// Whether a group 1 combination is not a documented instruction (STA immediate).
fn illegal_instruction_g1(op: OpsG1, addr_mode: AddrModeG1) -> (r: bool)
    ensures
        r == (op == OpsG1::STA && addr_mode == AddrModeG1::Immediate),
{
    (op == OpsG1::STA) && (addr_mode == AddrModeG1::Immediate)
}

/// Whether a group 2 combination is not a documented instruction.
fn illegal_instruction_g2(op: OpsG2, addr_mode: AddrModeG2) -> (r: bool)
    ensures
        r == ((op == OpsG2::STX && addr_mode == AddrModeG2::AbsoluteIdxX) || (op != OpsG2::LDX
            && addr_mode == AddrModeG2::Immediate) || ((op == OpsG2::STX || op == OpsG2::LDX || op
            == OpsG2::DEC || op == OpsG2::INC) && addr_mode == AddrModeG2::Accumulator) || addr_mode
            == AddrModeG2::Unused1 || addr_mode == AddrModeG2::Unused2),
{
    ((op == OpsG2::STX) && (addr_mode == AddrModeG2::AbsoluteIdxX)) || ((op != OpsG2::LDX) && (
    addr_mode == AddrModeG2::Immediate)) || (matches!(op, OpsG2::STX | OpsG2::LDX | OpsG2::DEC | OpsG2::INC)
        && (addr_mode == AddrModeG2::Accumulator)) || matches!(addr_mode, AddrModeG2::Unused1 | AddrModeG2::Unused2)
}

/// Whether a group 3 combination is not a documented instruction.
fn illegal_instruction_g3(op: OpsG3, addr_mode: AddrModeG3) -> (r: bool)
    ensures
        r == (op == OpsG3::Unused || addr_mode == AddrModeG3::Unused1 || addr_mode
            == AddrModeG3::Unused2 || addr_mode == AddrModeG3::Unused3 || (addr_mode
            == AddrModeG3::AbsoluteIdxX && op != OpsG3::LDY) || (addr_mode == AddrModeG3::Immediate
            && (op == OpsG3::BIT || op == OpsG3::JMP || op == OpsG3::JMPInd || op == OpsG3::STY)) || (
        addr_mode == AddrModeG3::ZeroPage && (op == OpsG3::JMP || op == OpsG3::JMPInd)) || (addr_mode
            == AddrModeG3::ZeroPageIdx && !(op == OpsG3::STY || op == OpsG3::LDY))),
{
    (op == OpsG3::Unused) || matches!(
        addr_mode,
        AddrModeG3::Unused1 | AddrModeG3::Unused2 | AddrModeG3::Unused3
    ) || ((addr_mode == AddrModeG3::AbsoluteIdxX) && (op != OpsG3::LDY)) || ((addr_mode
        == AddrModeG3::Immediate) && (matches!(op, OpsG3::BIT | OpsG3::JMP | OpsG3::JMPInd | OpsG3::STY)))
        || ((addr_mode == AddrModeG3::ZeroPage) && matches!(op, OpsG3::JMP | OpsG3::JMPInd)) || ((
    addr_mode == AddrModeG3::ZeroPageIdx) && !matches!(op, OpsG3::STY | OpsG3::LDY))
}

/// The opcode splits into its operation bits and its addressing-mode bits.
proof fn lemma_opcode_fields(opcode: u8)
    ensures
        opcode == (opcode & OPCODE_G123_OP_MASK) + (opcode & OPCODE_G123_ADDR_MASK),
        (opcode & OPCODE_G123_ADDR_MASK) % 4 == 0,
        (opcode & OPCODE_G123_ADDR_MASK) < 0x20,
        (opcode & OPCODE_G123_OP_MASK) % 0x20 == opcode & OPCODE_GROUP_MASK,
        opcode & OPCODE_GROUP_MASK < 4,
{
    assert(opcode == (opcode & 0xE3) + (opcode & 0x1C)) by (bit_vector);
    assert((opcode & 0x1C) % 4 == 0 && (opcode & 0x1C) < 0x20) by (bit_vector);
    assert((opcode & 0xE3) % 0x20 == opcode & 3) by (bit_vector);
    assert(opcode & 3 < 4) by (bit_vector);
}

/// Decodes an opcode into the instruction sequence that executes it.
///
/// Every documented NMOS 6502 opcode gives its instruction; an undocumented
/// opcode gives a NOP. Decoding never fails.
#[verifier::rlimit(40)]
pub fn decode(opcode: u8) -> (r: Instruction)
    ensures
        r == opcode_table(opcode),
{
    proof {
        lemma_opcode_fields(opcode);
    }
    let mut decoded_instruction = Instruction::Implied(ImplicitOperation::Nop);
    match opcode & OPCODE_GROUP_MASK {
        1 => {
            let op = OpsG1::from_u8(opcode & OPCODE_G123_OP_MASK).expect(
                "Trying to decode wrong opcode",
            );
            let addr_mode = AddrModeG1::from_u8(opcode & OPCODE_G123_ADDR_MASK).expect(
                "Trying to decode wrong opcode",
            );
            if !illegal_instruction_g1(op, addr_mode) {
                let operation = instr_op_g1(op);
                let sequence = sequence_mode_g1(op, addr_mode);
                let index = index_reg_g1(addr_mode);
                decoded_instruction = Instruction::new(sequence, operation, index);
            }
        },
        2 => {
            let op = OpsG2::from_u8(opcode & OPCODE_G123_OP_MASK).expect(
                "Trying to decode wrong opcode",
            );
            let addr_mode = AddrModeG2::from_u8(opcode & OPCODE_G123_ADDR_MASK).expect(
                "Trying to decode wrong opcode",
            );
            if !illegal_instruction_g2(op, addr_mode) {
                let operation = instr_op_g2(op, addr_mode);
                let sequence = sequence_mode_g2(op, addr_mode);
                let index = index_reg_g2(op, addr_mode);
                decoded_instruction = Instruction::new(sequence, operation, index);
            } else if let Some(op) = OpsSingleByte2::from_u8(opcode) {
                let operation = instr_op_single_byte2(op);
                decoded_instruction = Instruction::Implied(
                    ImplicitOperation::try_from(operation).unwrap(),
                );
            }
        },
        0 => {
            let op = OpsG3::from_u8(opcode & OPCODE_G123_OP_MASK).expect(
                "Trying to decode wrong opcode",
            );
            let addr_mode = AddrModeG3::from_u8(opcode & OPCODE_G123_ADDR_MASK).expect(
                "Trying to decode wrong opcode",
            );
            if !illegal_instruction_g3(op, addr_mode) {
                let operation = instr_op_g3(op, addr_mode);
                let sequence = sequence_mode_g3(op, addr_mode);
                let index = index_reg_g3(addr_mode);
                decoded_instruction = Instruction::new(sequence, operation, index);
            } else if let Some(op) = OpsCompBranch::from_u8(opcode) {
                let operation = instr_op_cond_branch(op);
                decoded_instruction = Instruction::Relative(
                    BranchOperation::try_from(operation).unwrap(),
                );
            } else if let Some(op) = OpsSubroutine::from_u8(opcode) {
                let sequence = sequence_mode_subroutine(op);
                decoded_instruction = Instruction::new(sequence, InstructionOp::Nop, None);
            } else if let Some(op) = OpsSingleByte0::from_u8(opcode) {
                let operation = instr_op_single_byte0(op);
                let sequence = sequence_mode_single_byte0(op);
                decoded_instruction = Instruction::new(sequence, operation, None);
            }
        },
        _ => {},
    };

    decoded_instruction
}

/// An opcode never decodes to an interrupt or reset sequence (only the CPU
/// starts those), and every decoded instruction takes from two to seven
/// cycles: its opcode fetch and one to six steps.
pub proof fn lemma_decoded_instruction(opcode: u8)
    ensures
        !(opcode_table(opcode) is StartIrq || opcode_table(opcode) is StartNmi
            || opcode_table(opcode) is Reset),
        1 <= num_steps(opcode_table(opcode)) <= 6,
{
}

} // verus!

verus! {

/// The operation that bits 5-7 select among the group-1 opcodes (`aaabbb01`):
/// ORA, AND, EOR, ADC, STA, LDA, CMP, SBC.
pub open spec fn group_one_operation(opcode: u8) -> RegisterMemoryOperation {
    let aaa = opcode / 32;
    if aaa == 0 {
        RegisterMemoryOperation::Or
    } else if aaa == 1 {
        RegisterMemoryOperation::And
    } else if aaa == 2 {
        RegisterMemoryOperation::Xor
    } else if aaa == 3 {
        RegisterMemoryOperation::Add
    } else if aaa == 4 {
        RegisterMemoryOperation::StoreA
    } else if aaa == 5 {
        RegisterMemoryOperation::LoadA
    } else if aaa == 6 {
        RegisterMemoryOperation::Cmp
    } else {
        RegisterMemoryOperation::Sub
    }
}

/// The group-1 opcodes (`aaabbb01`) follow the 6502 opcode matrix: bits 5-7
/// select the operation (`group_one_operation`) and bits 2-4 the addressing
/// mode: (zp,X), zp, #imm, abs, (zp),Y, zp,X, abs,Y, abs,X, the stores using
/// their write sequences for the indexed modes. The one hole, STA #imm
/// ($89), is undocumented.
#[verifier::rlimit(100)]
pub proof fn lemma_group_one_matrix(opcode: u8)
    requires
        opcode % 4 == 1,
        opcode != 0x89,
    ensures
        ({
            let op = group_one_operation(opcode);
            let store = op is StoreA;
            opcode_table(opcode) == match (opcode / 4) % 8 {
                0 => Instruction::ZeroPageIdxIndirect(op, IndexRegister::X),
                1 => Instruction::ZeroPage(op),
                2 => Instruction::Immediate(op),
                3 => Instruction::Absolute(op),
                4 => if store {
                    Instruction::ZeroPageIndirectIdxWrite(op, IndexRegister::Y)
                } else {
                    Instruction::ZeroPageIndirectIdxRead(op, IndexRegister::Y)
                },
                5 => Instruction::ZeroPageIdx(op, IndexRegister::X),
                6 => if store {
                    Instruction::AbsoluteIdxWrite(op, IndexRegister::Y)
                } else {
                    Instruction::AbsoluteIdxRead(op, IndexRegister::Y)
                },
                _ => if store {
                    Instruction::AbsoluteIdxWrite(op, IndexRegister::X)
                } else {
                    Instruction::AbsoluteIdxRead(op, IndexRegister::X)
                },
            }
        }),
{
}

/// The read-modify-write operation that bits 5-7 select among the group-2
/// opcodes (`aaabbb10`): ASL, ROL, LSR, ROR, and DEC (6) and INC (7).
pub open spec fn group_two_operation(opcode: u8) -> MemoryModifyOperation {
    let aaa = opcode / 32;
    if aaa == 0 {
        MemoryModifyOperation::ShiftLeftMemory
    } else if aaa == 1 {
        MemoryModifyOperation::RotateLeftMemory
    } else if aaa == 2 {
        MemoryModifyOperation::ShiftRightMemory
    } else if aaa == 3 {
        MemoryModifyOperation::RotateRightMemory
    } else if aaa == 6 {
        MemoryModifyOperation::DecrementMemory
    } else {
        MemoryModifyOperation::IncrementMemory
    }
}

/// The group-2 read-modify-write opcodes follow the 6502 opcode matrix: bits
/// 5-7 select ASL, ROL, LSR, ROR, DEC or INC (`group_two_operation`) and bits
/// 2-4 the mode: zp, abs, zp,X or abs,X; with bits 2-4 equal to 2 the four
/// shifts act on the accumulator.
#[verifier::rlimit(100)]
pub proof fn lemma_group_two_matrix(opcode: u8)
    requires
        opcode % 4 == 2,
        opcode / 32 != 4 && opcode / 32 != 5,
        (opcode / 4) % 8 == 1 || (opcode / 4) % 8 == 3 || (opcode / 4) % 8 == 5 || (opcode / 4) % 8
            == 7 || ((opcode / 4) % 8 == 2 && opcode / 32 < 4),
    ensures
        ({
            let op = group_two_operation(opcode);
            opcode_table(opcode) == match (opcode / 4) % 8 {
                1 => Instruction::ZeroPageReadModifyWrite(op),
                3 => Instruction::AbsoluteReadModifyWrite(op),
                5 => Instruction::ZeroPageIdxReadModifyWrite(op, IndexRegister::X),
                7 => Instruction::AbsoluteIdxReadModifyWrite(op, IndexRegister::X),
                _ => Instruction::Implied(
                    if opcode / 32 == 0 {
                        ImplicitOperation::ShiftLeftA
                    } else if opcode / 32 == 1 {
                        ImplicitOperation::RotateLeftA
                    } else if opcode / 32 == 2 {
                        ImplicitOperation::ShiftRightA
                    } else {
                        ImplicitOperation::RotateRightA
                    },
                ),
            }
        }),
{
}

/// The branch opcodes (`xxy10000`) follow the 6502 opcode matrix: bits 6-7
/// select the flag (N, V, C, Z) and bit 5 the value on which the branch is
/// taken: BPL, BMI, BVC, BVS, BCC, BCS, BNE, BEQ.
#[verifier::rlimit(100)]
pub proof fn lemma_branch_matrix(opcode: u8)
    requires
        opcode % 32 == 0x10,
    ensures
        opcode_table(opcode) == Instruction::Relative(
            match opcode / 32 {
                0 => BranchOperation::BranchPlus,
                1 => BranchOperation::BranchMinus,
                2 => BranchOperation::BranchOverflowClear,
                3 => BranchOperation::BranchOverflowSet,
                4 => BranchOperation::BranchCarryClear,
                5 => BranchOperation::BranchCarrySet,
                6 => BranchOperation::BranchNotEqual,
                _ => BranchOperation::BranchEqual,
            },
        ),
{
}

/// The X and Y register transfers with memory follow the opcode matrix: in
/// group 2 bits 5-7 equal to 4 store X and equal to 5 load X, and in group 0
/// they store and load Y, with bits 2-4 selecting #imm (0, loads only), zp
/// (1), abs (3), zp indexed (5: by Y for X, by X for Y) and abs indexed (7,
/// loads only: by Y for X, by X for Y).
#[verifier::rlimit(100)]
pub proof fn lemma_index_register_transfers(opcode: u8)
    requires
        opcode % 4 == 2 || opcode % 4 == 0,
        opcode / 32 == 4 || opcode / 32 == 5,
        (opcode / 4) % 8 == 1 || (opcode / 4) % 8 == 3 || (opcode / 4) % 8 == 5 || (opcode / 32
            == 5 && ((opcode / 4) % 8 == 0 || (opcode / 4) % 8 == 7)),
    ensures
        ({
            let x = opcode % 4 == 2;
            let op = if opcode / 32 == 4 {
                if x { RegisterMemoryOperation::StoreX } else { RegisterMemoryOperation::StoreY }
            } else {
                if x { RegisterMemoryOperation::LoadX } else { RegisterMemoryOperation::LoadY }
            };
            let other = if x { IndexRegister::Y } else { IndexRegister::X };
            opcode_table(opcode) == match (opcode / 4) % 8 {
                0 => Instruction::Immediate(op),
                1 => Instruction::ZeroPage(op),
                3 => Instruction::Absolute(op),
                5 => Instruction::ZeroPageIdx(op, other),
                _ => Instruction::AbsoluteIdxRead(op, other),
            }
        }),
{
}

} // verus!
