use cpu6502::instr::instr_sequences::{destruct_sequence, InstructionSequenceMode};
use cpu6502::instr::opcodes::{OpsSingleByte0, OpsSingleByte2};
use cpu6502::{decode, IndexRegister, InstructionOp};

#[test]
fn mod_g1_print() {
    println!("\nGroup 1\n");
    for i in 0_u8..=0b_0011_1111 {
        let opcode = (i << 2) + 1;
        let decoded = decode(opcode);

        println!("\t{:#04X}\t{:?}", opcode, decoded);
    }
}

#[test]
fn mod_g2_print() {
    println!("\nGroup 2\n");
    for i in 0_u8..=0b_0011_1111 {
        let opcode = (i << 2) + 2;
        let decoded = decode(opcode);

        println!("\t{:#04X}\t{:?}", opcode, decoded);
    }
}

#[test]
fn mod_g3_print() {
    println!("\nGroup 3\n");
    for i in 0_u8..=0b_0011_1111 {
        let opcode = i << 2;
        let decoded = decode(opcode);
            let (sequence, operation, _): (InstructionSequenceMode, InstructionOp, IndexRegister) =
                decoded.into();
        if sequence != InstructionSequenceMode::Relative && (operation != InstructionOp::Nop)
            || matches!(
                sequence,
                InstructionSequenceMode::AbsoluteJump | InstructionSequenceMode::AbsoluteIndirectJump
            )
        {
            println!("\t{:#04X}\t{:?}", opcode, decoded);
        }
    }
}

#[test]
fn mod_cond_branch_print() {
    println!("\nConditional Branches\n");
    for i in 0_u8..=0b_0011_1111 {
        let opcode = i << 2;
        let decoded = decode(opcode);
        let sequence: InstructionSequenceMode = decoded.into();
        if sequence == InstructionSequenceMode::Relative {
            println!("\t{:#04X}\t{:?}", opcode, decoded);
        }
    }
}

#[test]
fn mod_subroutine_print() {
    println!("\nSubroutines and Interrupts\n");
    for i in 0_u8..=0b_0011_1111 {
        let opcode = i << 2;
        let decoded = decode(opcode);
        let sequence: InstructionSequenceMode = decoded.into();
        if matches!(
            sequence,
            InstructionSequenceMode::Break
                | InstructionSequenceMode::ReturnSubroutine
                | InstructionSequenceMode::ReturnInterrupt
                | InstructionSequenceMode::JumpSubroutine
        ) {
            println!("\t{:#04X}\t{:?}", opcode, decoded);
        }
    }
}

#[test]
fn mod_allopcodes_decoding_neverpanic() {
    for opcode in 0..=u8::MAX {
        decode(opcode);
    }
}

#[test]
fn decoded_opcode_g1_print() {
    println!("\nGroup 1\n");
    for i in 0_u8..=0b_0011_1111 {
        let opcode = (i << 2) + 1;
        let decoded = decode(opcode);

        println!("\t{:#04X}\t{:?}", opcode, decoded);
    }
}

#[test]
fn decoded_opcode_g2_print() {
    println!("\nGroup 2\n");
    for i in 0_u8..=0b_0011_1111 {
        let opcode = (i << 2) + 2;
        let decoded = decode(opcode);

        println!("\t{:#04X}\t{:?}", opcode, decoded);
    }
}

#[test]
fn decoded_opcode_g3_print() {
    println!("\nGroup 3\n");
    for i in 0_u8..=0b_0011_1111 {
        let opcode = i << 2;
        let decoded = decode(opcode);
            let (sequence, operation, _) = destruct_sequence(decoded);
        if sequence != InstructionSequenceMode::Relative && (operation != InstructionOp::Nop)
            || matches!(
                sequence,
                InstructionSequenceMode::AbsoluteJump | InstructionSequenceMode::AbsoluteIndirectJump
            )
        {
            println!("\t{:#04X}\t{:?}", opcode, decoded);
        }
    }
}

#[test]
fn decoded_opcode_cond_branch_print() {
    println!("\nConditional Branches\n");
    for i in 0_u8..=0b_0011_1111 {
        let opcode = i << 2;
        let decoded = decode(opcode);
        let sequence: InstructionSequenceMode = decoded.into();
        if sequence == InstructionSequenceMode::Relative {
            println!("\t{:#04X}\t{:?}", opcode, decoded);
        }
    }
}

#[test]
fn decoded_opcode_subroutine_print() {
    println!("\nSubroutines and Interrupts\n");
    for i in 0_u8..=0b_0011_1111 {
        let opcode = i << 2;
        let decoded = decode(opcode);
        let sequence: InstructionSequenceMode = decoded.into();
        if matches!(
            sequence,
            InstructionSequenceMode::Break
                | InstructionSequenceMode::ReturnSubroutine
                | InstructionSequenceMode::ReturnInterrupt
                | InstructionSequenceMode::JumpSubroutine
        ) {
            println!("\t{:#04X}\t{:?}", opcode, decoded);
        }
    }
}

#[test]
fn decoded_opcode_allopcodes_decoding_neverpanic() {
    for opcode in 0..=u8::MAX {
        decode(opcode);
    }
}

#[test]
fn opcodes_g1_print() {
    println!("\nGroup 1\n");
    for i in 0_u8..=0b_0011_1111 {
        let opcode = (i << 2) + 1;
        let decoded = decode(opcode);

        println!("\t{:#04X}\t{:?}", opcode, decoded);
    }
}

#[test]
fn opcodes_g2_print() {
    println!("\nGroup 2\n");
    for i in 0_u8..=0b_0011_1111 {
        let opcode = (i << 2) + 2;
        let decoded = decode(opcode);

        println!("\t{:#04X}\t{:?}", opcode, decoded);
    }
}

#[test]
fn opcodes_g3_print() {
    println!("\nGroup 3\n");
    for i in 0_u8..=0b_0011_1111 {
        let opcode = i << 2;
        let decoded = decode(opcode);
            let (sequence, operation, _): (InstructionSequenceMode, InstructionOp, IndexRegister) =
                decoded.into();
        if sequence != InstructionSequenceMode::Relative && (operation != InstructionOp::Nop)
            || matches!(
                sequence,
                InstructionSequenceMode::AbsoluteJump | InstructionSequenceMode::AbsoluteIndirectJump
            )
        {
            println!("\t{:#04X}\t{:?}", opcode, decoded);
        }
    }
}

#[test]
fn opcodes_cond_branch_print() {
    println!("\nConditional Branches\n");
    for i in 0_u8..=0b_0011_1111 {
        let opcode = i << 2;
        let decoded = decode(opcode);
        let sequence: InstructionSequenceMode = decoded.into();
        if sequence == InstructionSequenceMode::Relative {
            println!("\t{:#04X}\t{:?}", opcode, decoded);
        }
    }
}

#[test]
fn opcodes_subroutine_print() {
    println!("\nSubroutines and Interrupts\n");
    for i in 0_u8..=0b_0011_1111 {
        let opcode = i << 2;
        let decoded = decode(opcode);
        let sequence: InstructionSequenceMode = decoded.into();
        if matches!(
            sequence,
            InstructionSequenceMode::Break
                | InstructionSequenceMode::ReturnSubroutine
                | InstructionSequenceMode::ReturnInterrupt
                | InstructionSequenceMode::JumpSubroutine
        ) {
            println!("\t{:#04X}\t{:?}", opcode, decoded);
        }
    }
}

#[test]
fn opcodes_allopcodes_decoding_neverpanic() {
    for opcode in 0..=u8::MAX {
        decode(opcode);
    }
}

#[test]
fn opcodes_single_byte_print() {
    println!("\nSingle Bytes\n");
    for i in 0_u8..=0b_0011_1111 {
        let opcode = i << 2;

        if OpsSingleByte0::from_u8(opcode).is_some() {
            let decoded = decode(opcode);
            println!("\t{:#04X}\t{:?}", opcode, decoded);
        }
    }

    for i in 0_u8..=0b_0011_1111 {
        let opcode = (i << 2) + 2;

        if OpsSingleByte2::from_u8(opcode).is_some() {
            let decoded = decode(opcode);
            println!("\t{:#04X}\t{:?}", opcode, decoded);
        }
    }
}

#[test]
fn decode_logic_single_byte_print() {
    println!("\nSingle Bytes\n");
    for i in 0_u8..=0b_0011_1111 {
        let opcode = i << 2;

        if OpsSingleByte0::from_u8(opcode).is_some() {
            let decoded = decode(opcode);
            println!("\t{:#04X}\t{:?}", opcode, decoded);
        }
    }

    for i in 0_u8..=0b_0011_1111 {
        let opcode = (i << 2) + 2;

        if OpsSingleByte2::from_u8(opcode).is_some() {
            let decoded = decode(opcode);
            println!("\t{:#04X}\t{:?}", opcode, decoded);
        }
    }
}
