use arrayvec::ArrayString;
use cpu6502::instr::disassemble::{disassemble, write_disassembly_line};
use cpu6502::{new_basic_ram, BasicRam, Cpu};

/// A RAM whose reset vector points at $C000, where `JMP $C5F5` stands, and a
/// CPU that has just run the reset sequence.
fn reset_at_c000() -> (Cpu, BasicRam) {
    let mut ram = new_basic_ram();
    ram[0xFFFC] = 0x00;
    ram[0xFFFD] = 0xC0;
    ram[0xC000] = 0x4C;
    ram[0xC001] = 0xF5;
    ram[0xC002] = 0xC5;
    let mut cpu = Cpu::new();
    for _ in 0..6 {
        cpu.run(&mut ram);
    }
    (cpu, ram)
}

#[test]
fn disassemble_writes_instruction_and_state() {
    let (cpu, mut ram) = reset_at_c000();
    assert_eq!(cpu.regs().pc.to_u16(), 0xC000);
    let mut dst = ArrayString::<128>::new();
    assert!(disassemble(0xC000, &mut ram, &cpu, &mut dst).is_ok());
    assert_eq!(
        dst.as_str(),
        "C000 4C F5 C5 JMP $C5F5  \t\tA:00 X:00 Y:00 P:24 SP:FD CYC:6"
    );
}

#[test]
fn disassemble_matches_disasm6502() {
    let (cpu, mut ram) = reset_at_c000();
    let instrs = disasm6502::from_addr_array(&ram[0xC000..0xC006], 0xC000).unwrap();
    let text = format!("C000 {} {}", instrs[0].as_hex_str(), instrs[0].as_str());
    let mut dst = ArrayString::<128>::new();
    assert!(disassemble(0xC000, &mut ram, &cpu, &mut dst).is_ok());
    assert!(dst.as_str().starts_with(&format!("{:<25}", text)));
}

#[test]
fn disassemble_pads_short_instructions() {
    let (cpu, mut ram) = reset_at_c000();
    ram[0x0200] = 0xEA;
    let mut dst = ArrayString::<128>::new();
    assert!(disassemble(0x0200, &mut ram, &cpu, &mut dst).is_ok());
    assert_eq!(
        dst.as_str(),
        "0200 EA       NOP        \t\tA:00 X:00 Y:00 P:24 SP:FD CYC:6"
    );
}

#[test]
fn disassemble_relative_branch_target() {
    let (cpu, mut ram) = reset_at_c000();
    ram[0x1000] = 0xD0;
    ram[0x1001] = 0xFE;
    let mut dst = ArrayString::<128>::new();
    assert!(disassemble(0x1000, &mut ram, &cpu, &mut dst).is_ok());
    assert!(dst.as_str().starts_with("1000 D0 FE    BNE $1000  \t\t"));
}

#[test]
fn disassemble_stops_at_first_piece_that_does_not_fit() {
    let (cpu, mut ram) = reset_at_c000();
    let mut dst = ArrayString::<128>::new();
    let filler = "x".repeat(100);
    dst.push_str(&filler);
    assert!(disassemble(0xC000, &mut ram, &cpu, &mut dst).is_err());
    assert_eq!(dst.as_str(), format!("{}C000 4C F5 C5 JMP $C5F5  ", filler));

    let mut full = ArrayString::<128>::new();
    let filler = "x".repeat(110);
    full.push_str(&filler);
    assert!(disassemble(0xC000, &mut ram, &cpu, &mut full).is_err());
    assert_eq!(full.as_str(), filler);
}

#[test]
fn disassemble_fills_buffer_exactly() {
    let (cpu, mut ram) = reset_at_c000();
    let line = "C000 4C F5 C5 JMP $C5F5  \t\tA:00 X:00 Y:00 P:24 SP:FD CYC:6";
    let mut dst = ArrayString::<128>::new();
    let filler = "x".repeat(128 - line.len());
    dst.push_str(&filler);
    assert!(disassemble(0xC000, &mut ram, &cpu, &mut dst).is_ok());
    assert_eq!(dst.as_str(), format!("{}{}", filler, line));
}

#[test]
fn disassembly_line_from_given_text() {
    let (cpu, _) = reset_at_c000();
    let mut dst = ArrayString::<128>::new();
    assert!(write_disassembly_line(0x0200, "A9 10   ", "LDA #$10", &cpu, &mut dst).is_ok());
    assert_eq!(
        dst.as_str(),
        "0200 A9 10    LDA #$10   \t\tA:00 X:00 Y:00 P:24 SP:FD CYC:6"
    );

    let mut long = ArrayString::<128>::new();
    assert!(write_disassembly_line(0xFFFF, "0123456789", "ABCDEFGHIJKL", &cpu, &mut long).is_ok());
    assert_eq!(
        long.as_str(),
        "FFFF 0123456789 ABCDEFGHIJKL\t\tA:00 X:00 Y:00 P:24 SP:FD CYC:6"
    );
}
