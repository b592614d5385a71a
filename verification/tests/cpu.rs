use cpu6502::InterruptType::{Interrupt, NonMaskableInterrupt};
use cpu6502::{BasicRam, Cpu, Instruction, MemoryModifyOperation, StatusRegFlags, MEMORY_64K};

fn setup_cpu(memory: &mut BasicRam) -> Cpu {
    let mut cpu = Cpu::new();

    let mut regs = cpu.regs();

    // Define the IRQ vector ($FFFE/$FFFF) pointing to a known address
    memory[0xFFFE] = 0xEF;
    memory[0xFFFF] = 0xBE;

    // Set INC zeropage as the first and second instructions
    let initial_pc = 0x2000;
    regs.pc.set_u16(initial_pc);
    memory[0x2000] = 0xE6;
    memory[0x2001] = 0x01;
    memory[0x2002] = 0xE6;
    memory[0x2003] = 0x01;

    // Set known initial values for SP
    let initial_sp = 0xFD;
    regs.sp.set_u8(initial_sp);

    regs.status.clear_flags(StatusRegFlags::IRQ_DISABLE); // Ensure I flag is clear
    cpu.set_regs(regs);

    // Set cpu to fetch, to avoid executing reset sequence
    cpu.set_current_instruction(Instruction::FetchInstr);

    cpu
}

#[test]
fn nmi_start() {
    let mut memory = [0u8; MEMORY_64K];
    let mut cpu = setup_cpu(&mut memory);
    // Initial Fetch
    cpu.run(&mut memory);

    // Set NMI Pin
    cpu.set_nmi_pin();

    // Execute INC zeropage
    for _ in 0..=3 {
        cpu.run(&mut memory);
    }

    // Check instruction finished execution and waiting_interrupt is set
    assert_eq!(cpu.current_instruction(), Instruction::FetchInstr);
    assert_eq!(cpu.current_instruction_step(), 0);
    assert_eq!(
        cpu.waiting_interrupt(),
        Some(NonMaskableInterrupt),
        "Waiting interrupt should be set to NMI"
    );
    assert_eq!(memory[0x0001], 0x01, "INC should have incremented memory");

    // Run first cycle of servicing interrupt request
    cpu.run(&mut memory);
    assert_eq!(cpu.current_instruction(), Instruction::StartNmi);
    assert_eq!(cpu.current_instruction_step(), 1);
    assert_eq!(
        cpu.waiting_interrupt(), None,
        "Waiting interrupt should be cleared after starting NMI"
    );
}

#[test]
fn nmi_irq_disabled() {
    let mut memory = [0u8; MEMORY_64K];
    let mut cpu = setup_cpu(&mut memory);
    let mut regs = cpu.regs();
    regs.status.set_flags(StatusRegFlags::IRQ_DISABLE);
    cpu.set_regs(regs);

    // Initial Fetch
    cpu.run(&mut memory);

    // Set NMI Pin
    cpu.set_nmi_pin();

    // Execute INC zeropage
    for _ in 0..=3 {
        cpu.run(&mut memory);
    }

    // Check instruction finished execution and waiting_interrupt is set
    assert_eq!(cpu.current_instruction(), Instruction::FetchInstr);
    assert_eq!(cpu.current_instruction_step(), 0);
    assert_eq!(
        cpu.waiting_interrupt(),
        Some(NonMaskableInterrupt),
        "Waiting interrupt should be set to NMI"
    );
    assert_eq!(memory[0x0001], 0x01, "INC should have incremented memory");

    // Run first cycle of servicing interrupt request
    cpu.run(&mut memory);
    assert_eq!(cpu.current_instruction(), Instruction::StartNmi);
    assert_eq!(cpu.current_instruction_step(), 1);
    assert_eq!(
        cpu.waiting_interrupt(), None,
        "Waiting interrupt should be cleared after starting NMI"
    );
}

#[test]
fn nmi_edge_sensitive() {
    let mut memory = [0u8; MEMORY_64K];
    let mut cpu = setup_cpu(&mut memory);

    // Initial Fetch
    cpu.run(&mut memory);

    // Set NMI Pin
    cpu.set_nmi_pin();

    // Execute first cycle of INC zeropage
    cpu.run(&mut memory);
    cpu.clear_nmi_pin();

    // Execute INC zeropage
    for _ in 1..=3 {
        cpu.run(&mut memory);
    }

    // Check instruction finished execution and waiting_interrupt is set
    assert_eq!(cpu.current_instruction(), Instruction::FetchInstr);
    assert_eq!(cpu.current_instruction_step(), 0);
    assert_eq!(
        cpu.waiting_interrupt(),
        Some(NonMaskableInterrupt),
        "Waiting interrupt should be set to NMI"
    );
    assert_eq!(memory[0x0001], 0x01, "INC should have incremented memory");

    // Run first cycle of servicing interrupt request
    cpu.run(&mut memory);
    assert_eq!(cpu.current_instruction(), Instruction::StartNmi);
    assert_eq!(cpu.current_instruction_step(), 1);
    assert_eq!(
        cpu.waiting_interrupt(), None,
        "Waiting interrupt should be cleared after starting NMI"
    );
}

#[test]
fn irq_start() {
    let mut memory = [0u8; MEMORY_64K];
    let mut cpu = setup_cpu(&mut memory);

    // Initial Fetch
    cpu.run(&mut memory);

    // Set IRQ Pin
    cpu.set_irq_pin();

    // Execute INC zeropage
    for _ in 0..=3 {
        cpu.run(&mut memory);
    }

    // Check instruction finished execution and waiting_interrupt is set
    assert_eq!(cpu.current_instruction(), Instruction::FetchInstr);
    assert_eq!(cpu.current_instruction_step(), 0);
    assert_eq!(
        cpu.waiting_interrupt(),
        Some(Interrupt),
        "Waiting interrupt should be set to IRQ"
    );
    assert_eq!(memory[0x0001], 0x01, "INC should have incremented memory");

    // Run first cycle of servicing interrupt request
    cpu.run(&mut memory);
    assert_eq!(cpu.current_instruction(), Instruction::StartIrq);
    assert_eq!(cpu.current_instruction_step(), 1);
    assert_eq!(
        cpu.waiting_interrupt(), None,
        "Waiting interrupt should be cleared after starting IRQ"
    );
}

#[test]
fn irq_disabled() {
    let mut memory = [0u8; MEMORY_64K];
    let mut cpu = setup_cpu(&mut memory);
    let mut regs = cpu.regs();
    regs.status.set_flags(StatusRegFlags::IRQ_DISABLE);
    cpu.set_regs(regs);

    // Initial Fetch
    cpu.run(&mut memory);

    // Set IRQ Pin
    cpu.set_irq_pin();

    // Execute INC zeropage
    for _ in 0..=3 {
        cpu.run(&mut memory);
    }

    // Check instruction finished execution and waiting_interrupt is not set
    assert_eq!(cpu.current_instruction(), Instruction::FetchInstr);
    assert_eq!(cpu.current_instruction_step(), 0);
    assert_eq!(
        cpu.waiting_interrupt(), None,
        "Waiting interrupt should be set to None"
    );
    assert_eq!(memory[0x0001], 0x01, "INC should have incremented memory");

    // Run next fetch
    cpu.run(&mut memory);
    assert_eq!(
        cpu.current_instruction(),
        Instruction::ZeroPageReadModifyWrite(MemoryModifyOperation::IncrementMemory)
    );
    assert_eq!(cpu.current_instruction_step(), 0);
    assert_eq!(
        cpu.waiting_interrupt(), None,
        "Waiting interrupt should be set to None"
    );
}

#[test]
fn irq_level_sensitive() {
    let mut memory = [0u8; MEMORY_64K];
    let mut cpu = setup_cpu(&mut memory);

    // Initial Fetch
    cpu.run(&mut memory);

    // Set IRQ Pin
    cpu.set_irq_pin();

    // Execute INC zeropage
    for _ in 0..=3 {
        cpu.run(&mut memory);
    }

    cpu.clear_irq_pin();

    // Check instruction finished execution and waiting_interrupt is not set
    assert_eq!(cpu.current_instruction(), Instruction::FetchInstr);
    assert_eq!(cpu.current_instruction_step(), 0);
    assert_eq!(
        cpu.waiting_interrupt(),
        Some(Interrupt),
        "Waiting interrupt should be set to IRQ"
    );
    assert_eq!(memory[0x0001], 0x01, "INC should have incremented memory");

    // Run next fetch
    cpu.run(&mut memory);
    assert_eq!(
        cpu.current_instruction(),
        Instruction::ZeroPageReadModifyWrite(MemoryModifyOperation::IncrementMemory)
    );
    assert_eq!(cpu.current_instruction_step(), 0);
    assert_eq!(
        cpu.waiting_interrupt(), None,
        "Waiting interrupt should be set to None since irq was cleared before running fetch"
    );
}

#[test]
fn interrupt_priority() {
    let mut memory = [0u8; MEMORY_64K];
    let mut cpu = setup_cpu(&mut memory);

    // Initial Fetch
    cpu.run(&mut memory);

    // Set NMI Pin
    cpu.set_nmi_pin();
    cpu.set_irq_pin();

    // Execute INC zeropage
    for _ in 0..=3 {
        cpu.run(&mut memory);
    }

    // Check instruction finished execution and waiting_interrupt is set
    assert_eq!(cpu.current_instruction(), Instruction::FetchInstr);
    assert_eq!(cpu.current_instruction_step(), 0);
    assert_eq!(
        cpu.waiting_interrupt(),
        Some(NonMaskableInterrupt),
        "Waiting interrupt should be set to NMI"
    );
    assert_eq!(memory[0x0001], 0x01, "INC should have incremented memory");

    // Run first cycle of servicing interrupt request
    cpu.run(&mut memory);
    assert_eq!(cpu.current_instruction(), Instruction::StartNmi);
    assert_eq!(cpu.current_instruction_step(), 1);
    assert_eq!(
        cpu.waiting_interrupt(), None,
        "Waiting interrupt should be cleared after starting NMI"
    );
}

#[test]
fn cpu_impl_reset() {
    let mut memory = [0u8; MEMORY_64K];
    let mut cpu = setup_cpu(&mut memory);

    // Initial Fetch
    cpu.run(&mut memory);

    // First cycle of INC zeropage
    cpu.run(&mut memory);

    // Reset CPU
    cpu.reset();

    // Check CPU state
    assert_eq!(cpu.current_instruction(), Instruction::Reset);
    assert_eq!(cpu.current_instruction_step(), 0);
    assert_eq!(cpu.cycle_count_since_reset(), 0);
    assert_eq!(cpu.instr_count_since_reset(), 0);
    assert_eq!(cpu.regs().status.to_u8(), 0x24);
}

#[test]
fn nmi_sequence_pushes_state_and_jumps_to_vector() {
    let mut memory = [0u8; MEMORY_64K];
    let mut cpu = setup_cpu(&mut memory);
    memory[0xFFFA] = 0x34;
    memory[0xFFFB] = 0x12;
    cpu.set_nmi_pin();
    let status = cpu.regs().status.to_u8();
    for _ in 0..7 {
        cpu.run(&mut memory);
    }
    let regs = cpu.regs();
    assert_eq!(regs.pc.to_u16(), 0x1234);
    assert_eq!(regs.sp.to_u8(), 0xFA);
    assert_eq!(memory[0x01FD], 0x20);
    assert_eq!(memory[0x01FC], 0x00);
    assert_eq!(memory[0x01FB], status);
    assert!(regs.status.irq_disable());
    assert_eq!(cpu.current_instruction(), Instruction::FetchInstr);
    assert_eq!(cpu.waiting_interrupt(), None);
    assert_eq!(cpu.cycle_count_since_reset(), 7);

    // The line is still set but no new edge came: no second NMI.
    cpu.run(&mut memory);
    assert_ne!(cpu.current_instruction(), Instruction::StartNmi);
}

#[test]
fn irq_sequence_pushes_state_and_jumps_to_vector() {
    let mut memory = [0u8; MEMORY_64K];
    let mut cpu = setup_cpu(&mut memory);
    cpu.set_irq_pin();
    for _ in 0..7 {
        cpu.run(&mut memory);
    }
    let regs = cpu.regs();
    assert_eq!(regs.pc.to_u16(), 0xBEEF);
    assert_eq!(regs.sp.to_u8(), 0xFA);
    assert_eq!(memory[0x01FD], 0x20);
    assert_eq!(memory[0x01FC], 0x00);
    assert!(regs.status.irq_disable());
    assert_eq!(cpu.current_instruction(), Instruction::FetchInstr);
}

#[test]
fn released_nmi_line_keeps_request_until_fetch() {
    let mut memory = [0u8; MEMORY_64K];
    let mut cpu = setup_cpu(&mut memory);
    cpu.run(&mut memory);
    cpu.set_nmi_pin();
    cpu.clear_nmi_pin();
    for _ in 0..4 {
        cpu.run(&mut memory);
        if cpu.current_instruction() != Instruction::FetchInstr {
            assert_eq!(cpu.waiting_interrupt(), Some(NonMaskableInterrupt));
        }
    }
    cpu.run(&mut memory);
    assert_eq!(cpu.current_instruction(), Instruction::StartNmi);
}

#[test]
fn cycle_count_counts_runs_after_reset() {
    let mut memory = [0u8; MEMORY_64K];
    let mut cpu = Cpu::new();
    for n in 1..=20u128 {
        cpu.run(&mut memory);
        if n % 3 == 0 {
            cpu.set_irq_pin_value(n % 2 == 0);
            cpu.set_nmi_pin_value(n % 2 == 1);
        }
        assert_eq!(cpu.cycle_count_since_reset(), n);
    }
    cpu.reset();
    assert_eq!(cpu.cycle_count_since_reset(), 0);
}
