use arrayvec::ArrayString;
use cpu6502::instr::instr_impl::{execute, ClockEndStatus};
use cpu6502::instr::opcodes::OpsG1;
use cpu6502::{
    decode, new_basic_ram, waiting_interrupt, BasicRam, BranchOperation, Cpu, ImplicitOperation,
    IndexRegister, Instruction, InstructionOp, InterruptType, Interrupts, MemoryModifyOperation,
    MemorySpace, PullStackOperation, PushStackOperation, RegisterFile, RegisterMemoryOperation,
    StatusRegFlags,
};

/// Runs an instruction sequence to its end; returns the number of steps run.
fn run_sequence(instr: Instruction, regs: &mut RegisterFile, memory: &mut BasicRam) -> u8 {
    let mut step = 0;
    while execute(instr, step, regs, memory) == ClockEndStatus::Continue {
        step += 1;
    }
    step + 1
}

#[test]
fn readme_quick_start_program() {
    let mut ram = new_basic_ram();
    ram[0x8000] = 0xA9;
    ram[0x8001] = 0x05;
    ram[0x8002] = 0x69;
    ram[0x8003] = 0x03;
    ram[0x8004] = 0x8D;
    ram[0x8005] = 0x00;
    ram[0x8006] = 0x02;
    ram[0xFFFC] = 0x00;
    ram[0xFFFD] = 0x80;

    let mut cpu = Cpu::new();
    for _ in 0..2000 {
        if ram[0x0200] == 0x08 {
            break;
        }
        cpu.run(&mut ram);
    }
    assert_eq!(ram[0x0200], 0x08);
}

#[test]
fn reset_sequence_starts_program_at_reset_vector() {
    let mut ram = new_basic_ram();
    ram[0xFFFC] = 0x34;
    ram[0xFFFD] = 0x12;
    let mut cpu = Cpu::new();
    assert_eq!(cpu.current_instruction(), Instruction::Reset);
    for _ in 0..6 {
        cpu.run(&mut ram);
    }
    assert_eq!(cpu.current_instruction(), Instruction::FetchInstr);
    assert_eq!(cpu.current_instruction_step(), 0);
    assert_eq!(cpu.regs().pc.to_u16(), 0x1234);
    assert_eq!(cpu.regs().sp.to_u8(), 0xFD);
    assert_eq!(cpu.cycle_count_since_reset(), 6);
    assert_eq!(cpu.instr_count_since_reset(), 1);
}

#[test]
fn cycle_counter_counts_every_run() {
    let mut ram = new_basic_ram();
    let mut cpu = Cpu::new();
    for n in 1..=50u128 {
        cpu.run(&mut ram);
        assert_eq!(cpu.cycle_count_since_reset(), n);
        assert!(cpu.instr_count_since_reset() <= cpu.cycle_count_since_reset());
    }
    cpu.reset();
    assert_eq!(cpu.cycle_count_since_reset(), 0);
    assert_eq!(cpu.instr_count_since_reset(), 0);
}

#[test]
fn fetched_instruction_address_is_reported() {
    let mut ram = new_basic_ram();
    ram[0x4000] = 0xEA;
    let mut cpu = Cpu::new();
    let mut regs = cpu.regs();
    regs.pc.set_u16(0x4000);
    cpu.set_regs(regs);
    cpu.set_current_instruction(Instruction::FetchInstr);
    cpu.run(&mut ram);
    assert_eq!(cpu.fetched_instr_addr(), Some(0x4000));
    assert_eq!(
        cpu.current_instruction(),
        Instruction::Implied(ImplicitOperation::Nop)
    );
    cpu.run(&mut ram);
    assert_eq!(cpu.fetched_instr_addr(), None);
}

#[test]
fn store_cycle_is_reported_as_write() {
    let mut ram = new_basic_ram();
    // STA $1234 at $3000
    ram[0x3000] = 0x8D;
    ram[0x3001] = 0x34;
    ram[0x3002] = 0x12;
    let mut cpu = Cpu::new();
    let mut regs = cpu.regs();
    regs.pc.set_u16(0x3000);
    regs.a.set_u8(0x77);
    cpu.set_regs(regs);
    cpu.set_current_instruction(Instruction::FetchInstr);

    let mut writes = Vec::new();
    for _ in 0..4 {
        writes.push(cpu.is_current_cycle_write());
        cpu.run(&mut ram);
    }
    assert_eq!(writes, vec![false, false, false, true]);
    assert_eq!(ram[0x1234], 0x77);
}

#[test]
fn jsr_then_rts_returns_after_the_call() {
    let mut regs = RegisterFile::default();
    let mut memory = new_basic_ram();
    // JSR operand at $1001/$1002 (the opcode was at $1000)
    regs.pc.set_u16(0x1001);
    regs.sp.set_u8(0xFF);
    memory[0x1001] = 0x00;
    memory[0x1002] = 0x30;

    assert_eq!(run_sequence(Instruction::JumpSubroutine, &mut regs, &mut memory), 5);
    assert_eq!(regs.pc.to_u16(), 0x3000);
    assert_eq!(regs.sp.to_u8(), 0xFD);
    assert_eq!(memory[0x01FF], 0x10);
    assert_eq!(memory[0x01FE], 0x02);

    // the RTS opcode was fetched at $3000
    regs.pc.set_u16(0x3001);
    assert_eq!(run_sequence(Instruction::ReturnSubroutine, &mut regs, &mut memory), 5);
    assert_eq!(regs.pc.to_u16(), 0x1003);
    assert_eq!(regs.sp.to_u8(), 0xFF);
}

#[test]
fn pha_then_pla_restores_accumulator() {
    let mut regs = RegisterFile::default();
    let mut memory = new_basic_ram();
    regs.sp.set_u8(0x80);
    regs.a.set_u8(0x9C);
    run_sequence(Instruction::Push(PushStackOperation::PushA), &mut regs, &mut memory);
    assert_eq!(memory[0x0180], 0x9C);
    regs.a.set_u8(0x00);
    run_sequence(Instruction::Pull(PullStackOperation::PullA), &mut regs, &mut memory);
    assert_eq!(regs.a.to_u8(), 0x9C);
    assert_eq!(regs.sp.to_u8(), 0x80);
    assert!(regs.status.negative());
}

#[test]
fn php_then_plp_restores_status() {
    let mut regs = RegisterFile::default();
    let mut memory = new_basic_ram();
    regs.sp.set_u8(0x80);
    regs.status.set_u8(0xC3);
    run_sequence(Instruction::Push(PushStackOperation::PushStatus), &mut regs, &mut memory);
    // pushed with BREAK and UNUSED set
    assert_eq!(memory[0x0180], 0xF3);
    regs.status.set_u8(0x00);
    run_sequence(Instruction::Pull(PullStackOperation::PullStatus), &mut regs, &mut memory);
    assert_eq!(regs.status.to_u8(), 0xC3);
    assert_eq!(regs.sp.to_u8(), 0x80);
}

#[test]
fn plp_keeps_break_and_unused_bits() {
    let mut regs = RegisterFile::default();
    let mut memory = new_basic_ram();
    regs.sp.set_u8(0x7F);
    memory[0x0180] = 0xFF;
    regs.status.set_u8(0x00);
    run_sequence(Instruction::Pull(PullStackOperation::PullStatus), &mut regs, &mut memory);
    assert_eq!(regs.status.to_u8(), 0xCF);
}

#[test]
fn irq_then_rti_resumes_program() {
    let mut regs = RegisterFile::default();
    let mut memory = new_basic_ram();
    memory[0xFFFE] = 0x00;
    memory[0xFFFF] = 0x90;
    regs.pc.set_u16(0x2345);
    regs.sp.set_u8(0xF0);
    regs.status.set_u8(0x21);
    assert_eq!(run_sequence(Instruction::StartIrq, &mut regs, &mut memory), 7);
    assert_eq!(regs.pc.to_u16(), 0x9000);
    assert!(regs.status.irq_disable());
    assert_eq!(memory[0x01F0], 0x23);
    assert_eq!(memory[0x01EF], 0x45);
    assert_eq!(memory[0x01EE], 0x21);

    assert_eq!(run_sequence(Instruction::ReturnInterrupt, &mut regs, &mut memory), 5);
    assert_eq!(regs.pc.to_u16(), 0x2345);
    assert_eq!(regs.status.to_u8(), 0x21);
    assert_eq!(regs.sp.to_u8(), 0xF0);
}

#[test]
fn nmi_uses_its_own_vector() {
    let mut regs = RegisterFile::default();
    let mut memory = new_basic_ram();
    memory[0xFFFA] = 0x11;
    memory[0xFFFB] = 0x22;
    memory[0xFFFE] = 0x33;
    memory[0xFFFF] = 0x44;
    regs.sp.set_u8(0xFF);
    run_sequence(Instruction::StartNmi, &mut regs, &mut memory);
    assert_eq!(regs.pc.to_u16(), 0x2211);
}

#[test]
fn brk_then_rti_skips_padding_byte() {
    let mut regs = RegisterFile::default();
    let mut memory = new_basic_ram();
    memory[0xFFFE] = 0x00;
    memory[0xFFFF] = 0x90;
    // BRK opcode at $0600, padding byte at $0601
    regs.pc.set_u16(0x0601);
    regs.sp.set_u8(0xFF);
    regs.status.set_u8(0x20);
    assert_eq!(run_sequence(Instruction::Break, &mut regs, &mut memory), 6);
    assert_eq!(regs.pc.to_u16(), 0x9000);
    assert_eq!(memory[0x01FD], 0x30);
    run_sequence(Instruction::ReturnInterrupt, &mut regs, &mut memory);
    assert_eq!(regs.pc.to_u16(), 0x0602);
    assert_eq!(regs.status.to_u8(), 0x20);
    assert_eq!(regs.sp.to_u8(), 0xFF);
}

#[test]
fn indirect_jump_wraps_within_page() {
    let mut regs = RegisterFile::default();
    let mut memory = new_basic_ram();
    regs.pc.set_u16(0x0400);
    memory[0x0400] = 0xFF;
    memory[0x0401] = 0x12;
    memory[0x12FF] = 0x78;
    memory[0x1200] = 0x56;
    memory[0x1300] = 0x99;
    run_sequence(Instruction::AbsoluteIndirectJump, &mut regs, &mut memory);
    assert_eq!(regs.pc.to_u16(), 0x5678);
}

#[test]
fn branch_cycle_counts() {
    // not taken: 2 steps, next opcode fetched
    let mut regs = RegisterFile::default();
    let mut memory = new_basic_ram();
    regs.pc.set_u16(0x1000);
    memory[0x1000] = 0x10;
    regs.status.set_flags(StatusRegFlags::ZERO);
    let i = Instruction::Relative(BranchOperation::BranchNotEqual);
    assert_eq!(execute(i, 0, &mut regs, &mut memory), ClockEndStatus::Continue);
    assert_eq!(
        execute(i, 1, &mut regs, &mut memory),
        ClockEndStatus::EndInstructionNextFetched { opcode_addr: 0x1001 }
    );

    // taken within the page: 2 steps
    let mut regs = RegisterFile::default();
    regs.pc.set_u16(0x1000);
    assert_eq!(run_sequence(i, &mut regs, &mut memory), 2);
    assert_eq!(regs.pc.to_u16(), 0x1011);

    // taken across a page: 3 steps
    let mut regs = RegisterFile::default();
    regs.pc.set_u16(0x10F0);
    memory[0x10F0] = 0x20;
    assert_eq!(run_sequence(i, &mut regs, &mut memory), 3);
    assert_eq!(regs.pc.to_u16(), 0x1111);
}

#[test]
fn decode_matches_documented_opcodes() {
    assert_eq!(
        decode(0xA9),
        Instruction::Immediate(RegisterMemoryOperation::LoadA)
    );
    assert_eq!(decode(0x00), Instruction::Break);
    assert_eq!(decode(0x4C), Instruction::AbsoluteJump);
    assert_eq!(decode(0x6C), Instruction::AbsoluteIndirectJump);
    assert_eq!(
        decode(0x8A),
        Instruction::Implied(ImplicitOperation::TransferXToAccumulator)
    );
    assert_eq!(
        decode(0x9A),
        Instruction::Implied(ImplicitOperation::TransferXToStackPtr)
    );
    assert_eq!(decode(0xEA), Instruction::Implied(ImplicitOperation::Nop));
    assert_eq!(
        decode(0x0A),
        Instruction::Implied(ImplicitOperation::ShiftLeftA)
    );
    assert_eq!(
        decode(0xBE),
        Instruction::AbsoluteIdxRead(RegisterMemoryOperation::LoadX, IndexRegister::Y)
    );
    assert_eq!(
        decode(0x96),
        Instruction::ZeroPageIdx(RegisterMemoryOperation::StoreX, IndexRegister::Y)
    );
    assert_eq!(
        decode(0x91),
        Instruction::ZeroPageIndirectIdxWrite(RegisterMemoryOperation::StoreA, IndexRegister::Y)
    );
    assert_eq!(
        decode(0x9D),
        Instruction::AbsoluteIdxWrite(RegisterMemoryOperation::StoreA, IndexRegister::X)
    );
    assert_eq!(
        decode(0x3E),
        Instruction::AbsoluteIdxReadModifyWrite(
            MemoryModifyOperation::RotateLeftMemory,
            IndexRegister::X
        )
    );
    assert_eq!(decode(0x24), Instruction::ZeroPage(RegisterMemoryOperation::Bit));
    assert_eq!(
        decode(0xF0),
        Instruction::Relative(BranchOperation::BranchEqual)
    );
    assert_eq!(decode(0x68), Instruction::Pull(PullStackOperation::PullA));
    assert_eq!(decode(0x08), Instruction::Push(PushStackOperation::PushStatus));
    // undocumented opcodes decode to a NOP
    for opcode in [0x02u8, 0x03, 0x04, 0x0C, 0x1A, 0x80, 0x89, 0x9E, 0xD4, 0xFF] {
        assert_eq!(decode(opcode), Instruction::Implied(ImplicitOperation::Nop));
    }
}

#[test]
fn decode_knows_all_documented_opcodes() {
    let documented = (0..=u8::MAX)
        .filter(|&op| decode(op) != Instruction::Implied(ImplicitOperation::Nop))
        .count();
    // every documented opcode but NOP ($EA)
    assert_eq!(documented, 150);
    for op in 0..=u8::MAX {
        let i = decode(op);
        assert!(
            i != Instruction::StartIrq && i != Instruction::StartNmi && i != Instruction::Reset
        );
    }
}

#[test]
fn opcode_fields_decode_from_bits() {
    assert_eq!(OpsG1::from_u8(0x61), Some(OpsG1::ADC));
    assert_eq!(OpsG1::from_u8(0x62), None);
}

#[test]
fn instruction_parts_round_trip() {
    let i = Instruction::new(
        cpu6502::instr::instr_sequences::InstructionSequenceMode::ZeroPageIdx,
        InstructionOp::LoadY,
        Some(IndexRegister::X),
    );
    assert_eq!(
        i,
        Instruction::ZeroPageIdx(RegisterMemoryOperation::LoadY, IndexRegister::X)
    );
    let (mode, op, idx) = cpu6502::instr::instr_sequences::destruct_sequence(i);
    assert_eq!(Instruction::new(mode, op, Some(idx)), i);
    assert_eq!(i.sequence_mode(), mode);
}

#[test]
fn operation_conversion_errors() {
    assert_eq!(
        ImplicitOperation::try_from(InstructionOp::Or),
        Err("No matching ImplicitOperation")
    );
    assert_eq!(
        ImplicitOperation::try_from(InstructionOp::Nop),
        Ok(ImplicitOperation::Nop)
    );
    assert!(BranchOperation::try_from(InstructionOp::Nop).is_err());
    assert!(MemoryModifyOperation::try_from(InstructionOp::LoadA).is_err());
    assert!(RegisterMemoryOperation::try_from(InstructionOp::ShiftLeftA).is_err());
    assert!(PushStackOperation::try_from(InstructionOp::PullA).is_err());
    assert!(PullStackOperation::try_from(InstructionOp::PushA).is_err());
    assert_eq!(
        PullStackOperation::try_from(InstructionOp::PullStatus),
        Ok(PullStackOperation::PullStatus)
    );
    assert_eq!(
        InstructionOp::from(RegisterMemoryOperation::Cpx),
        InstructionOp::Cpx
    );
}

#[test]
fn nmi_line_is_edge_triggered() {
    let mut pins = Interrupts::default();
    pins.set_nmi_input();
    pins.clear_nmi_input();
    assert!(pins.waiting_nmi());
    assert!(!pins.waiting_nmi());

    pins.set_nmi_input();
    assert!(pins.waiting_nmi());
    // still held: no new edge
    pins.set_nmi_input();
    pins.set_nmi_input_value(true);
    assert!(!pins.waiting_nmi());
    pins.set_nmi_input_value(false);
    pins.set_nmi_input_value(true);
    assert!(pins.waiting_nmi());
}

#[test]
fn interrupt_polling_priorities() {
    let mut pins = Interrupts::default();
    assert_eq!(waiting_interrupt(None, &mut pins, false), None);
    pins.set_irq_input();
    assert!(pins.is_irq_set());
    assert_eq!(
        waiting_interrupt(None, &mut pins, false),
        Some(InterruptType::Interrupt)
    );
    assert_eq!(waiting_interrupt(None, &mut pins, true), None);
    pins.set_nmi_input();
    assert_eq!(
        waiting_interrupt(None, &mut pins, true),
        Some(InterruptType::NonMaskableInterrupt)
    );
    // the edge was taken; a waiting NMI stays
    assert_eq!(
        waiting_interrupt(None, &mut pins, true),
        None
    );
    assert_eq!(
        waiting_interrupt(Some(InterruptType::NonMaskableInterrupt), &mut pins, true),
        Some(InterruptType::NonMaskableInterrupt)
    );
    pins.reset();
    assert!(!pins.is_irq_set());
}

#[test]
fn register_log_line_is_written() {
    let mut regs = RegisterFile::default();
    regs.a.set_u8(0x12);
    regs.x.set_u8(0x34);
    regs.y.set_u8(0x56);
    regs.status.set_u8(0x24);
    regs.sp.set_u8(0xFD);
    let mut dst = ArrayString::<32>::new();
    assert!(regs.as_log_line(&mut dst).is_ok());
    assert_eq!(dst.as_str(), "\t\tA:12 X:34 Y:56 P:24 SP:FD");

    let mut short = ArrayString::<32>::new();
    short.push_str("0123456789");
    assert!(regs.as_log_line(&mut short).is_err());
    assert_eq!(short.as_str(), "0123456789\t\tA:12 X:34 Y:56 P:24");
}

#[test]
fn register_log_line_writes_padding_zero_on_its_own() {
    let mut regs = RegisterFile::default();
    regs.a.set_u8(0x0C);
    let mut dst = ArrayString::<32>::new();
    dst.push_str("012345678901234567890123456");
    assert!(regs.as_log_line(&mut dst).is_err());
    assert_eq!(dst.as_str(), "012345678901234567890123456\t\tA:0");

    let mut wide = ArrayString::<32>::new();
    wide.push_str("012345678901234567890123456");
    regs.a.set_u8(0xC0);
    assert!(regs.as_log_line(&mut wide).is_err());
    assert_eq!(wide.as_str(), "012345678901234567890123456\t\tA:");
}

#[test]
fn cpu_log_line_uses_registers() {
    let mut cpu = Cpu::new();
    let mut regs = cpu.regs();
    regs.a.set_u8(0xAB);
    cpu.set_regs(regs);
    let mut dst = ArrayString::<32>::new();
    assert!(cpu.regs_as_log_line(&mut dst).is_ok());
    assert_eq!(dst.as_str(), "\t\tA:AB X:00 Y:00 P:24 SP:00");
}

struct CountingMemory {
    data: BasicRam,
    reads: usize,
}

impl MemorySpace for CountingMemory {
    fn read_value(&self, addr: u16) -> u8 {
        self.data[addr as usize]
    }

    fn after_read(&self, _addr: u16) -> Self {
        CountingMemory { data: self.data, reads: self.reads + 1 }
    }

    fn after_write(&self, data: u8, addr: u16) -> Self {
        let mut next = CountingMemory { data: self.data, reads: self.reads };
        next.data[addr as usize] = data;
        next
    }

    fn read(&mut self, addr: u16) -> u8 {
        self.reads += 1;
        self.data[addr as usize]
    }

    fn write(&mut self, data: u8, addr: u16) {
        self.data[addr as usize] = data;
    }
}

#[test]
fn read_array_reads_consecutive_bytes() {
    let mut ram = new_basic_ram();
    ram[0x2000] = 1;
    ram[0x2001] = 2;
    ram[0x2002] = 3;
    let mut out = [0u8; 3];
    ram.read_array(0x2000, &mut out);
    assert_eq!(out, [1, 2, 3]);

    let mut counting = CountingMemory { data: ram, reads: 0 };
    let mut out = [0u8; 4];
    counting.read_array(0x1FFF, &mut out);
    assert_eq!(out, [0, 1, 2, 3]);
    assert_eq!(counting.reads, 4);
}

#[test]
fn default_cpu_fetches_from_zero() {
    let cpu = Cpu::default();
    assert_eq!(cpu.current_instruction(), Instruction::FetchInstr);
    assert_eq!(cpu.current_instruction_step(), 0);
    assert_eq!(cpu.regs().status.to_u8(), 0x00);
    assert_eq!(cpu.cycle_count_since_reset(), 0);
    assert_eq!(cpu.waiting_interrupt(), None);
}

#[test]
fn cpu_runs_subroutine_call_and_return() {
    let mut ram = new_basic_ram();
    // $0200: JSR $0300 ; $0203: NOP ; $0300: RTS
    ram[0x0200] = 0x20;
    ram[0x0201] = 0x00;
    ram[0x0202] = 0x03;
    ram[0x0203] = 0xEA;
    ram[0x0300] = 0x60;
    ram[0xFFFC] = 0x00;
    ram[0xFFFD] = 0x02;
    let mut cpu = Cpu::new();
    for _ in 0..6 {
        cpu.run(&mut ram);
    }
    // fetch JSR, then its five steps
    cpu.run(&mut ram);
    assert_eq!(cpu.current_instruction(), Instruction::JumpSubroutine);
    for _ in 0..5 {
        cpu.run(&mut ram);
    }
    assert_eq!(cpu.regs().pc.to_u16(), 0x0300);
    // fetch RTS, then its five steps
    cpu.run(&mut ram);
    assert_eq!(cpu.current_instruction(), Instruction::ReturnSubroutine);
    for _ in 0..5 {
        cpu.run(&mut ram);
    }
    assert_eq!(cpu.regs().pc.to_u16(), 0x0203);
    assert_eq!(cpu.regs().sp.to_u8(), 0xFD);
    cpu.run(&mut ram);
    assert_eq!(cpu.current_instruction(), Instruction::Implied(ImplicitOperation::Nop));
}
