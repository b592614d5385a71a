//! Cycle-by-cycle execution of the 6502 instructions.
//!
//! Each instruction runs over several clock cycles. `execute` performs one
//! step (one cycle) of an instruction sequence: at most one memory access,
//! plus register updates, and tells whether the instruction needs more cycles.
//! What every step does is stated in `crate::instr::cycle`.
use crate::alu;
use crate::cpu::interrupt::{vector_addr, InterruptVector, InterruptVectorAddrBytePos};
use crate::instr::cycle::{
    apply_bus, branch_next, branch_taken, bus_data, cycle_performed, fixed, implicit_next, indexed,
    interrupt_bus, interrupt_next, modify_next, num_steps, op_bus, op_next, page_crossed, pushed,
    pushed_status, pulled_status, stack_address, at_stack, BusCycle,
};
use crate::instr::{
    BranchOperation, ImplicitOperation, Instruction, MemoryModifyOperation, PullStackOperation,
    PushStackOperation, RegisterMemoryOperation,
};
use crate::memory::{MemorySpace, STACK_PAGE};
use crate::registers::{
    group_word_bytes, hi_byte, index_value, lo_byte, make_word, IndexRegister, RegisterFile,
    RegisterState, StatusRegFlags,
};
pub use crate::instr::cycle::ClockEndStatus;
use vstd::prelude::*;

verus! {

broadcast use group_word_bytes;

/// The masks that PHP, PLP and RTI apply to the status byte.
proof fn lemma_status_masks(s: u8, d: u8)
    ensures
        s | (StatusRegFlags::BREAK | StatusRegFlags::UNUSED) == s | 0x30,
        (s & (StatusRegFlags::BREAK | StatusRegFlags::UNUSED)) | (d & !(StatusRegFlags::BREAK
            | StatusRegFlags::UNUSED)) == pulled_status(s, d),
{
    assert(s | (0x10u8 | 0x20u8) == s | 0x30) by (bit_vector);
    assert((s & (0x10u8 | 0x20u8)) | (d & !(0x10u8 | 0x20u8)) == (s & 0x30) | (d & 0xCF))
        by (bit_vector);
}

/// Whether adding an index to an address carried into its high byte.
#[derive(Clone, Copy, PartialEq, Eq, Structural, Debug)]
pub enum FixAddressResult {
    /// The high byte of the address was incremented: a page boundary was crossed.
    Fixed,
    /// No page boundary was crossed; the high byte is unchanged.
    Untouched,
}

/// The value of the X or Y index register.
pub fn get_index_value(idx: IndexRegister, regs: &RegisterFile) -> (r: u8)
    ensures
        r == index_value(regs@, idx),
{
    regs.index_register_u8(idx)
}

/// Points the address register at the current stack location: high byte
/// 0x01 (the stack page), low byte the stack pointer.
pub fn set_stack_address(regs: &mut RegisterFile)
    ensures
        final(regs)@ == at_stack(old(regs)@),
{
    let addr_high = STACK_PAGE;
    regs.addr.set_high_u8(addr_high);

    let addr_low = regs.sp.to_u8();
    regs.addr.set_low_u8(addr_low);
}

/// Adds an index register to the low byte of the address register, wrapping
/// within the page; the high byte is left for `fix_addr`.
pub fn add_index_to_address(regs: &mut RegisterFile, idx: IndexRegister)
    ensures
        final(regs)@ == indexed(old(regs)@, idx),
{
    let index_value = get_index_value(idx, regs);

    let addr_low = regs.addr.low_u8();
    let addr_low = addr_low.wrapping_add(index_value);
    regs.addr.set_low_u8(addr_low);
}

/// Increments the high byte of the address register when the index that was
/// added to its low byte carried (the index exceeds the resulting low byte).
pub fn fix_addr(regs: &mut RegisterFile, index_value: u8) -> (r: FixAddressResult)
    ensures
        final(regs)@ == fixed(old(regs)@, index_value),
        (r == FixAddressResult::Fixed) == page_crossed(old(regs)@, index_value),
{
    let addr_low = regs.addr.low_u8();
    if index_value > addr_low {
        let addr_high = regs.addr.high_u8().wrapping_add(1);
        regs.addr.set_high_u8(addr_high);
        FixAddressResult::Fixed
    } else {
        FixAddressResult::Untouched
    }
}

/// After indexing: when no page boundary was crossed, performs the operation
/// at once and ends the instruction; otherwise fixes the address with a dummy
/// read and asks for another cycle.
pub fn fix_addr_or_run_op_finish<M: MemorySpace>(
    op: RegisterMemoryOperation,
    regs: &mut RegisterFile,
    memory: &mut M,
    idx: IndexRegister,
) -> (r: ClockEndStatus)
    ensures
        page_crossed(old(regs)@, index_value(old(regs)@, idx)) ==> {
            let f = fixed(old(regs)@, index_value(old(regs)@, idx));
            &&& final(regs)@ == f
            &&& *final(memory) == old(memory).after_read(f.addr)
            &&& r == ClockEndStatus::Continue
        },
        !page_crossed(old(regs)@, index_value(old(regs)@, idx)) ==> {
            let b = op_bus(op, old(regs)@);
            &&& final(regs)@ == op_next(op, old(regs)@, bus_data(b, *old(memory)))
            &&& *final(memory) == apply_bus(b, *old(memory))
            &&& r == ClockEndStatus::EndInstruction
        },
{
    let index_value = get_index_value(idx, regs);

    if fix_addr(regs, index_value) == FixAddressResult::Untouched {
        execute_op(op, regs, memory);
        ClockEndStatus::EndInstruction
    } else {
        let _ = memory.read(regs.addr.to_u16());
        ClockEndStatus::Continue
    }
}

/// The branch decision cycle: reads the byte at PC (the next opcode); when
/// the branch is taken, adds the signed offset from the temporary register to
/// PC and asks for one more cycle if the page changed; otherwise moves past
/// the offset with the next opcode already fetched.
pub fn branch_if<M: MemorySpace>(condition: bool, regs: &mut RegisterFile, memory: &mut M) -> (r:
    ClockEndStatus)
    ensures
        *final(memory) == old(memory).after_read(old(regs)@.pc),
        (final(regs)@, r) == branch_next(
            condition,
            old(regs)@,
            old(memory).read_value(old(regs)@.pc),
        ),
{
    let next_opcode = memory.read(regs.pc.to_u16());

    if condition {
        let old_pch = regs.pc.high_u8();
        let offset = regs.tmp.to_i8();
        let new_pc = regs.pc.to_u16().wrapping_add(offset as u16);
        proof {
            let t = regs.tmp@;
            let pc = old(regs)@.pc;
            assert(t < 128 ==> (t as i8) as u16 == t as u16) by (bit_vector);
            assert(t >= 128 ==> (t as i8) as u16 == (t as u16) + 0xFF00) by (bit_vector);
        }
        regs.pc.set_u16(new_pc);
        if old_pch != regs.pc.high_u8() {
            ClockEndStatus::Continue
        } else {
            ClockEndStatus::EndInstruction
        }
    } else {
        let status = ClockEndStatus::EndInstructionNextFetched { opcode_addr: regs.pc.to_u16() };
        regs.pc.inc();
        regs.ir.set_u8(next_opcode);
        status
    }
}

/// Evaluates the condition of a branch operation on the status flags and
/// runs the branch decision cycle (`branch_if`).
pub fn execute_branch_op<M: MemorySpace>(
    op: BranchOperation,
    regs: &mut RegisterFile,
    memory: &mut M,
) -> (r: ClockEndStatus)
    ensures
        *final(memory) == old(memory).after_read(old(regs)@.pc),
        (final(regs)@, r) == branch_next(
            branch_taken(op, old(regs)@.status),
            old(regs)@,
            old(memory).read_value(old(regs)@.pc),
        ),
{
    match op {
        BranchOperation::BranchPlus => branch_if(!regs.status.negative(), regs, memory),
        BranchOperation::BranchMinus => branch_if(regs.status.negative(), regs, memory),
        BranchOperation::BranchEqual => branch_if(regs.status.zero(), regs, memory),
        BranchOperation::BranchNotEqual => branch_if(!regs.status.zero(), regs, memory),
        BranchOperation::BranchCarryClear => branch_if(!regs.status.carry(), regs, memory),
        BranchOperation::BranchCarrySet => branch_if(regs.status.carry(), regs, memory),
        BranchOperation::BranchOverflowClear => branch_if(!regs.status.overflow(), regs, memory),
        BranchOperation::BranchOverflowSet => branch_if(regs.status.overflow(), regs, memory),
    }
}

/// Executes an implied-mode operation: register transfers, flag changes and
/// register-only arithmetic; memory is not accessed.
pub fn execute_implicit_op(op: ImplicitOperation, regs: &mut RegisterFile)
    ensures
        final(regs)@ == implicit_next(op, old(regs)@),
{
    match op {
        ImplicitOperation::Nop => (),
        ImplicitOperation::ShiftLeftA => alu::shift_left(&mut regs.a, &mut regs.status),
        ImplicitOperation::ShiftRightA => alu::shift_right(&mut regs.a, &mut regs.status),
        ImplicitOperation::RotateLeftA => alu::rotate_left(&mut regs.a, &mut regs.status),
        ImplicitOperation::RotateRightA => alu::rotate_right(&mut regs.a, &mut regs.status),
        ImplicitOperation::IncrementX => alu::inc(&mut regs.x, &mut regs.status),
        ImplicitOperation::IncrementY => alu::inc(&mut regs.y, &mut regs.status),
        ImplicitOperation::DecrementX => alu::dec(&mut regs.x, &mut regs.status),
        ImplicitOperation::DecrementY => alu::dec(&mut regs.y, &mut regs.status),
        ImplicitOperation::ClearCarry => regs.status.clear_flags(StatusRegFlags::CARRY),
        ImplicitOperation::SetCarry => regs.status.set_flags(StatusRegFlags::CARRY),
        ImplicitOperation::ClearDecimal => regs.status.clear_flags(StatusRegFlags::DECIMAL),
        ImplicitOperation::SetDecimal => regs.status.set_flags(StatusRegFlags::DECIMAL),
        ImplicitOperation::ClearInterruptDisable => {
            regs.status.clear_flags(StatusRegFlags::IRQ_DISABLE)
        },
        ImplicitOperation::SetInterruptDisable => {
            regs.status.set_flags(StatusRegFlags::IRQ_DISABLE)
        },
        ImplicitOperation::ClearOverflow => regs.status.clear_flags(StatusRegFlags::OVERFLOW),
        ImplicitOperation::SetOverflow => regs.status.set_flags(StatusRegFlags::OVERFLOW),
        ImplicitOperation::TransferAccumulatorToX => {
            regs.x = regs.a;
            alu::update_status_nz_byte(regs.x.to_u8(), &mut regs.status)
        },
        ImplicitOperation::TransferAccumulatorToY => {
            regs.y = regs.a;
            alu::update_status_nz_byte(regs.y.to_u8(), &mut regs.status);
        },
        ImplicitOperation::TransferXToAccumulator => {
            regs.a = regs.x;
            alu::update_status_nz_byte(regs.a.to_u8(), &mut regs.status);
        },
        ImplicitOperation::TransferYToAccumulator => {
            regs.a = regs.y;
            alu::update_status_nz_byte(regs.a.to_u8(), &mut regs.status);
        },
        ImplicitOperation::TransferStackPtrToX => {
            regs.x = regs.sp;
            alu::update_status_nz_byte(regs.sp.to_u8(), &mut regs.status);
        },
        ImplicitOperation::TransferXToStackPtr => {
            regs.sp = regs.x;
        },
    }
}

} // verus!

verus! {

/// Executes a register-memory operation at the address register: a read of
/// the operand (ALU operations, loads, BIT), a write of a register (stores),
/// or, for BIT with an immediate operand, the temporary register.
pub fn execute_op<M: MemorySpace>(op: RegisterMemoryOperation, regs: &mut RegisterFile, memory: &mut M)
    ensures
        *final(memory) == apply_bus(op_bus(op, old(regs)@), *old(memory)),
        final(regs)@ == op_next(
            op,
            old(regs)@,
            bus_data(op_bus(op, old(regs)@), *old(memory)),
        ),
{
    match op {
        RegisterMemoryOperation::Or => {
            regs.tmp.set_u8(memory.read(regs.addr.to_u16()));
            alu::or(&mut regs.a, &regs.tmp, &mut regs.status)
        },
        RegisterMemoryOperation::And => {
            regs.tmp.set_u8(memory.read(regs.addr.to_u16()));
            alu::and(&mut regs.a, &regs.tmp, &mut regs.status)
        },
        RegisterMemoryOperation::Xor => {
            regs.tmp.set_u8(memory.read(regs.addr.to_u16()));
            alu::xor(&mut regs.a, &regs.tmp, &mut regs.status)
        },
        RegisterMemoryOperation::Add => {
            regs.tmp.set_u8(memory.read(regs.addr.to_u16()));
            alu::add(&mut regs.a, &regs.tmp, &mut regs.status)
        },
        RegisterMemoryOperation::Sub => {
            regs.tmp.set_u8(memory.read(regs.addr.to_u16()));
            alu::sub(&mut regs.a, &regs.tmp, &mut regs.status)
        },
        RegisterMemoryOperation::Cmp => {
            regs.tmp.set_u8(memory.read(regs.addr.to_u16()));
            alu::cmp(&regs.a, &regs.tmp, &mut regs.status)
        },
        RegisterMemoryOperation::Cpx => {
            regs.tmp.set_u8(memory.read(regs.addr.to_u16()));
            alu::cmp(&regs.x, &regs.tmp, &mut regs.status)
        },
        RegisterMemoryOperation::Cpy => {
            regs.tmp.set_u8(memory.read(regs.addr.to_u16()));
            alu::cmp(&regs.y, &regs.tmp, &mut regs.status)
        },
        RegisterMemoryOperation::LoadA => {
            regs.a.set_u8(memory.read(regs.addr.to_u16()));
            alu::update_status_nz_byte(regs.a.to_u8(), &mut regs.status);
        },
        RegisterMemoryOperation::LoadX => {
            regs.x.set_u8(memory.read(regs.addr.to_u16()));
            alu::update_status_nz_byte(regs.x.to_u8(), &mut regs.status);
        },
        RegisterMemoryOperation::LoadY => {
            regs.y.set_u8(memory.read(regs.addr.to_u16()));
            alu::update_status_nz_byte(regs.y.to_u8(), &mut regs.status);
        },
        RegisterMemoryOperation::StoreA => {
            memory.write(regs.a.to_u8(), regs.addr.to_u16());
        },
        RegisterMemoryOperation::StoreX => {
            memory.write(regs.x.to_u8(), regs.addr.to_u16());
        },
        RegisterMemoryOperation::StoreY => {
            memory.write(regs.y.to_u8(), regs.addr.to_u16());
        },
        RegisterMemoryOperation::Bit => {
            regs.tmp.set_u8(memory.read(regs.addr.to_u16()));
            alu::bit_compare(regs.a, regs.tmp, &mut regs.status);
        },
        RegisterMemoryOperation::BitImmediate => {
            alu::bit_compare_imm(regs.a, regs.tmp, &mut regs.status);
        },
    }
}

/// Executes a read-modify-write operation on the temporary register (which
/// holds the operand read from memory); the result stays there for the
/// write-back cycle.
pub fn execute_memory_modify_op(op: MemoryModifyOperation, regs: &mut RegisterFile)
    ensures
        final(regs)@ == modify_next(op, old(regs)@),
{
    match op {
        MemoryModifyOperation::IncrementMemory => alu::inc(&mut regs.tmp, &mut regs.status),
        MemoryModifyOperation::DecrementMemory => alu::dec(&mut regs.tmp, &mut regs.status),
        MemoryModifyOperation::ShiftLeftMemory => alu::shift_left(&mut regs.tmp, &mut regs.status),
        MemoryModifyOperation::ShiftRightMemory => {
            alu::shift_right(&mut regs.tmp, &mut regs.status)
        },
        MemoryModifyOperation::RotateLeftMemory => {
            alu::rotate_left(&mut regs.tmp, &mut regs.status)
        },
        MemoryModifyOperation::RotateRightMemory => {
            alu::rotate_right(&mut regs.tmp, &mut regs.status)
        },
    }
}

/// Reads the byte at the program counter, which is not incremented.
pub fn read_pc<M: MemorySpace>(regs: &RegisterFile, memory: &mut M) -> (r: u8)
    ensures
        r == old(memory).read_value(regs@.pc),
        *final(memory) == old(memory).after_read(regs@.pc),
{
    memory.read(regs.pc.to_u16())
}

/// Reads the byte at the program counter, then increments the program counter.
pub fn read_pc_inc<M: MemorySpace>(regs: &mut RegisterFile, memory: &mut M) -> (r: u8)
    ensures
        r == old(memory).read_value(old(regs)@.pc),
        *final(memory) == old(memory).after_read(old(regs)@.pc),
        final(regs)@ == (RegisterState { pc: ((old(regs)@.pc + 1) % 65536) as u16, ..old(regs)@ }),
{
    let pc = memory.read(regs.pc.to_u16());
    regs.pc.inc();
    pc
}

/// Writes a byte at the stack top (page 1, at the stack pointer) and
/// decrements the stack pointer.
pub fn write_stack<M: MemorySpace>(regs: &mut RegisterFile, memory: &mut M, value: u8)
    ensures
        *final(memory) == old(memory).after_write(value, stack_address(old(regs)@.sp)),
        final(regs)@ == pushed(old(regs)@),
{
    set_stack_address(regs);
    memory.write(value, regs.addr.to_u16());
    regs.sp.dec();
}

/// Reads one byte of an interrupt vector into the low or high byte of the
/// program counter; the address register is left at the vector byte.
pub fn read_interrupt_vector<M: MemorySpace>(
    regs: &mut RegisterFile,
    memory: &mut M,
    vector: InterruptVector,
    pos: InterruptVectorAddrBytePos,
)
    ensures
        *final(memory) == old(memory).after_read(vector_addr(vector, pos)),
        final(regs)@ == (RegisterState {
            addr: vector_addr(vector, pos),
            pc: match pos {
                InterruptVectorAddrBytePos::Low => make_word(
                    hi_byte(old(regs)@.pc),
                    old(memory).read_value(vector_addr(vector, pos)),
                ),
                InterruptVectorAddrBytePos::High => make_word(
                    old(memory).read_value(vector_addr(vector, pos)),
                    lo_byte(old(regs)@.pc),
                ),
            },
            ..old(regs)@
        }),
{
    regs.addr.set_u16(vector.addr(pos));
    let value = memory.read(regs.addr.to_u16());

    match pos {
        InterruptVectorAddrBytePos::Low => regs.pc.set_low_u8(value),
        InterruptVectorAddrBytePos::High => regs.pc.set_high_u8(value),
    }
}

/// One step of an interrupt sequence (IRQ or NMI): two dummy reads, the
/// program counter and the status pushed on the stack (with BREAK when
/// `set_break_flag`), interrupts disabled, then the handler address loaded
/// from the vector.
fn handle_interrupt<M: MemorySpace>(
    step: u8,
    regs: &mut RegisterFile,
    memory: &mut M,
    vector: InterruptVector,
    set_break_flag: bool,
) -> (r: ClockEndStatus)
    requires
        step < 7,
    ensures
        ({
            let b = interrupt_bus(step, old(regs)@, vector, set_break_flag);
            let n = interrupt_next(step, old(regs)@, vector, bus_data(b, *old(memory)));
            &&& *final(memory) == apply_bus(b, *old(memory))
            &&& final(regs)@ == n.0
            &&& r == n.1
        }),
{
    match step {
        0 => {
            let _ = read_pc(regs, memory);
        },
        1 => {
            let _ = read_pc(regs, memory);
        },
        2 => {
            let v = regs.pc.high_u8();
            write_stack(regs, memory, v)
        },
        3 => {
            let v = regs.pc.low_u8();
            write_stack(regs, memory, v)
        },
        4 => {
            let mut status = regs.status;
            if set_break_flag {
                status.set_flags(StatusRegFlags::BREAK);
            }
            write_stack(regs, memory, status.to_u8());
            regs.status.set_flags(StatusRegFlags::IRQ_DISABLE);
        },
        5 => read_interrupt_vector(regs, memory, vector, InterruptVectorAddrBytePos::Low),
        _ => {
            read_interrupt_vector(regs, memory, vector, InterruptVectorAddrBytePos::High);
            return ClockEndStatus::EndInstruction;
        },
    }
    ClockEndStatus::Continue
}

} // verus!

verus! {

/// The opcode fetch: reads the opcode at PC into the instruction register and
/// increments PC; the instruction ends with the next opcode fetched.
pub fn fetch_instr<M: MemorySpace>(step: u8, regs: &mut RegisterFile, memory: &mut M) -> (r:
    ClockEndStatus)
    requires
        step < 1,
    ensures
        cycle_performed(
            Instruction::FetchInstr,
            step,
            old(regs)@,
            *old(memory),
            final(regs)@,
            *final(memory),
            r,
        ),
{
    proof {
        reveal(cycle_performed);
    }
    let instruction = read_pc(regs, memory);
    regs.ir.set_u8(instruction);
    let result = ClockEndStatus::EndInstructionNextFetched { opcode_addr: regs.pc.to_u16() };
    regs.pc.inc();
    result
}

/// One step of BRK: the padding byte is skipped, PC and the status (with
/// BREAK) are pushed, interrupts are disabled and PC is loaded from the IRQ
/// vector ($FFFE/$FFFF).
pub fn break_instr<M: MemorySpace>(step: u8, regs: &mut RegisterFile, memory: &mut M) -> (r:
    ClockEndStatus)
    requires
        step < 6,
    ensures
        cycle_performed(
            Instruction::Break,
            step,
            old(regs)@,
            *old(memory),
            final(regs)@,
            *final(memory),
            r,
        ),
{
    proof {
        reveal(cycle_performed);
    }
    match step {
        0 => {
            let _ = read_pc_inc(regs, memory);
        },
        1 => {
            let v = regs.pc.high_u8();
            write_stack(regs, memory, v)
        },
        2 => {
            let v = regs.pc.low_u8();
            write_stack(regs, memory, v)
        },
        3 => {
            let mut status = regs.status;
            status.set_flags(StatusRegFlags::BREAK);
            write_stack(regs, memory, status.to_u8());
            regs.status.set_flags(StatusRegFlags::IRQ_DISABLE);
        },
        4 => read_interrupt_vector(
            regs,
            memory,
            InterruptVector::Interrupt,
            InterruptVectorAddrBytePos::Low,
        ),
        _ => {
            read_interrupt_vector(
                regs,
                memory,
                InterruptVector::Interrupt,
                InterruptVectorAddrBytePos::High,
            );
            return ClockEndStatus::EndInstruction;
        },
    }

    ClockEndStatus::Continue
}

/// One step of the IRQ sequence (handler address from $FFFE/$FFFF).
pub fn start_irq<M: MemorySpace>(step: u8, regs: &mut RegisterFile, memory: &mut M) -> (r:
    ClockEndStatus)
    requires
        step < 7,
    ensures
        cycle_performed(
            Instruction::StartIrq,
            step,
            old(regs)@,
            *old(memory),
            final(regs)@,
            *final(memory),
            r,
        ),
{
    proof {
        reveal(cycle_performed);
    }
    handle_interrupt(step, regs, memory, InterruptVector::Interrupt, false)
}

/// One step of the NMI sequence (handler address from $FFFA/$FFFB).
pub fn start_nmi<M: MemorySpace>(step: u8, regs: &mut RegisterFile, memory: &mut M) -> (r:
    ClockEndStatus)
    requires
        step < 7,
    ensures
        cycle_performed(
            Instruction::StartNmi,
            step,
            old(regs)@,
            *old(memory),
            final(regs)@,
            *final(memory),
            r,
        ),
{
    proof {
        reveal(cycle_performed);
    }
    handle_interrupt(step, regs, memory, InterruptVector::NonMaskableInterrupt, false)
}

/// One step of PHA/PHP: a dummy read, then A or the status (with BREAK and
/// UNUSED set) written at the stack top and SP decremented.
pub fn push<M: MemorySpace>(
    step: u8,
    regs: &mut RegisterFile,
    memory: &mut M,
    op: PushStackOperation,
) -> (r: ClockEndStatus)
    requires
        step < 2,
    ensures
        cycle_performed(
            Instruction::Push(op),
            step,
            old(regs)@,
            *old(memory),
            final(regs)@,
            *final(memory),
            r,
        ),
{
    proof {
        reveal(cycle_performed);
    }
    match step {
        0 => {
            let _ = memory.read(regs.pc.to_u16());
        },
        _ => {
            set_stack_address(regs);

            match op {
                PushStackOperation::PushA => {
                    let data = regs.a.to_u8();
                    memory.write(data, regs.addr.to_u16());
                },
                PushStackOperation::PushStatus => {
                    proof {
                        lemma_status_masks(regs.status@, 0);
                    }
                    let mut status = regs.status.to_u8();
                    status = status | (StatusRegFlags::BREAK | StatusRegFlags::UNUSED);
                    memory.write(status, regs.addr.to_u16());
                },
            }

            regs.sp.dec();

            return ClockEndStatus::EndInstruction;
        },
    }

    ClockEndStatus::Continue
}

/// One step of PLA/PLP: a dummy read, SP incremented, then the byte at the
/// stack top loaded into A (updating N and Z) or into the status register
/// (keeping its BREAK and UNUSED bits).
pub fn pull<M: MemorySpace>(
    step: u8,
    regs: &mut RegisterFile,
    memory: &mut M,
    op: PullStackOperation,
) -> (r: ClockEndStatus)
    requires
        step < 3,
    ensures
        cycle_performed(
            Instruction::Pull(op),
            step,
            old(regs)@,
            *old(memory),
            final(regs)@,
            *final(memory),
            r,
        ),
{
    proof {
        reveal(cycle_performed);
    }
    match step {
        0 => {
            let _ = read_pc(regs, memory);
        },
        1 => regs.sp.inc(),
        _ => {
            set_stack_address(regs);
            let data = memory.read(regs.addr.to_u16());

            match op {
                PullStackOperation::PullA => {
                    regs.a.set_u8(data);
                    alu::update_status_nz_byte(data, &mut regs.status);
                },
                PullStackOperation::PullStatus => {
                    proof {
                        lemma_status_masks(regs.status@, data);
                    }
                    let ignored_bits = StatusRegFlags::BREAK | StatusRegFlags::UNUSED;
                    let status = regs.status.to_u8();
                    let new_status = (status & ignored_bits) | (data & !ignored_bits);
                    regs.status.set_u8(new_status);
                },
            }

            return ClockEndStatus::EndInstruction;
        },
    }

    ClockEndStatus::Continue
}

/// One step of the reset sequence: a dummy read, three stack accesses that
/// decrement SP (the last one writes the status), then PC loaded from the
/// reset vector ($FFFC/$FFFD).
pub fn reset<M: MemorySpace>(step: u8, regs: &mut RegisterFile, memory: &mut M) -> (r:
    ClockEndStatus)
    requires
        step < 6,
    ensures
        cycle_performed(
            Instruction::Reset,
            step,
            old(regs)@,
            *old(memory),
            final(regs)@,
            *final(memory),
            r,
        ),
{
    proof {
        reveal(cycle_performed);
    }
    match step {
        0 => {
            let _ = read_pc(regs, memory);
        },
        1 | 2 => {
            set_stack_address(regs);
            let _ = memory.read(regs.addr.to_u16());
            regs.sp.dec();
        },
        3 => {
            set_stack_address(regs);
            let s = regs.status.to_u8();
            write_stack(regs, memory, s);
        },
        4 => {
            read_interrupt_vector(
                regs,
                memory,
                InterruptVector::ProgramStart,
                InterruptVectorAddrBytePos::Low,
            );
        },
        _ => {
            read_interrupt_vector(
                regs,
                memory,
                InterruptVector::ProgramStart,
                InterruptVectorAddrBytePos::High,
            );
            return ClockEndStatus::EndInstruction;
        },
    }

    ClockEndStatus::Continue
}

/// One step of RTI: a dummy read, then the status (keeping BREAK and UNUSED),
/// the low and the high byte of PC pulled from the stack.
pub fn return_interrupt<M: MemorySpace>(step: u8, regs: &mut RegisterFile, memory: &mut M) -> (r:
    ClockEndStatus)
    requires
        step < 5,
    ensures
        cycle_performed(
            Instruction::ReturnInterrupt,
            step,
            old(regs)@,
            *old(memory),
            final(regs)@,
            *final(memory),
            r,
        ),
{
    proof {
        reveal(cycle_performed);
    }
    match step {
        0 => {
            let _ = read_pc(regs, memory);
        },
        1 => regs.sp.inc(),
        2 => {
            set_stack_address(regs);
            let status = memory.read(regs.addr.to_u16());
            proof {
                lemma_status_masks(regs.status@, status);
            }
            let ignored_bits = StatusRegFlags::BREAK | StatusRegFlags::UNUSED;
            let current_status = regs.status.to_u8();
            let new_status = (current_status & ignored_bits) | (status & !ignored_bits);
            regs.status.set_u8(new_status);
            regs.sp.inc();
        },
        3 => {
            set_stack_address(regs);
            let pcl = memory.read(regs.addr.to_u16());
            regs.pc.set_low_u8(pcl);
            regs.sp.inc();
        },
        _ => {
            set_stack_address(regs);
            let pch = memory.read(regs.addr.to_u16());
            regs.pc.set_high_u8(pch);
            return ClockEndStatus::EndInstruction;
        },
    }

    ClockEndStatus::Continue
}

/// One step of JSR: the low byte of the target read, a dummy stack read, the
/// return address (the address of the target's high byte) pushed, then the
/// high byte read and PC set to the target.
pub fn jump_subroutine<M: MemorySpace>(step: u8, regs: &mut RegisterFile, memory: &mut M) -> (r:
    ClockEndStatus)
    requires
        step < 5,
    ensures
        cycle_performed(
            Instruction::JumpSubroutine,
            step,
            old(regs)@,
            *old(memory),
            final(regs)@,
            *final(memory),
            r,
        ),
{
    proof {
        reveal(cycle_performed);
    }
    match step {
        0 => {
            let data = read_pc(regs, memory);
            regs.tmp.set_u8(data);
            regs.pc.inc();
        },
        1 => {
            set_stack_address(regs);
            let _ = memory.read(regs.addr.to_u16());
        },
        2 => {
            let v = regs.pc.high_u8();
            write_stack(regs, memory, v)
        },
        3 => {
            let v = regs.pc.low_u8();
            write_stack(regs, memory, v)
        },
        _ => {
            let data = read_pc(regs, memory);
            regs.pc.set_high_u8(data);
            regs.pc.set_low_u8(regs.tmp.to_u8());
            return ClockEndStatus::EndInstruction;
        },
    }

    ClockEndStatus::Continue
}

/// One step of RTS: a dummy read, SP incremented, the return address pulled
/// from the stack, then PC incremented past the JSR operand.
pub fn return_subroutine<M: MemorySpace>(step: u8, regs: &mut RegisterFile, memory: &mut M) -> (r:
    ClockEndStatus)
    requires
        step < 5,
    ensures
        cycle_performed(
            Instruction::ReturnSubroutine,
            step,
            old(regs)@,
            *old(memory),
            final(regs)@,
            *final(memory),
            r,
        ),
{
    proof {
        reveal(cycle_performed);
    }
    match step {
        0 => {
            let _ = read_pc(regs, memory);
        },
        1 => regs.sp.inc(),
        2 => {
            set_stack_address(regs);
            let data = memory.read(regs.addr.to_u16());
            regs.tmp.set_u8(data);
            regs.sp.inc();
        },
        3 => {
            set_stack_address(regs);
            let data = memory.read(regs.addr.to_u16());
            regs.pc.set_high_u8(data);
            regs.pc.set_low_u8(regs.tmp.to_u8());
        },
        _ => {
            regs.pc.inc();
            return ClockEndStatus::EndInstruction;
        },
    }

    ClockEndStatus::Continue
}

} // verus!

verus! {

/// Implied addressing: the operation works on registers only and the
/// instruction ends in this cycle.
fn implied<M: MemorySpace>(step: u8, regs: &mut RegisterFile, memory: &mut M, op: ImplicitOperation) -> (r:
    ClockEndStatus)
    requires
        step < 1,
    ensures
        cycle_performed(
            Instruction::Implied(op),
            step,
            old(regs)@,
            *old(memory),
            final(regs)@,
            *final(memory),
            r,
        ),
{
    proof {
        reveal(cycle_performed);
    }
    execute_implicit_op(op, regs);
    ClockEndStatus::EndInstruction
}

/// Immediate addressing: the operand is the byte after the opcode.
fn immediate<M: MemorySpace>(
    step: u8,
    regs: &mut RegisterFile,
    memory: &mut M,
    op: RegisterMemoryOperation,
) -> (r: ClockEndStatus)
    requires
        step < 1,
    ensures
        cycle_performed(
            Instruction::Immediate(op),
            step,
            old(regs)@,
            *old(memory),
            final(regs)@,
            *final(memory),
            r,
        ),
{
    proof {
        reveal(cycle_performed);
    }
    regs.addr = regs.pc;
    regs.pc.inc();

    execute_op(op, regs, memory);
    ClockEndStatus::EndInstruction
}

/// JMP absolute: the low byte of the target is kept in the temporary
/// register, then PC is set from the high byte and that low byte.
fn absolute_jump<M: MemorySpace>(step: u8, regs: &mut RegisterFile, memory: &mut M) -> (r:
    ClockEndStatus)
    requires
        step < 2,
    ensures
        cycle_performed(
            Instruction::AbsoluteJump,
            step,
            old(regs)@,
            *old(memory),
            final(regs)@,
            *final(memory),
            r,
        ),
{
    proof {
        reveal(cycle_performed);
    }
    match step {
        0 => {
            let addr_low = read_pc(regs, memory);
            regs.tmp.set_u8(addr_low);
            regs.pc.inc();
        },
        _ => {
            let addr_high = read_pc(regs, memory);
            regs.pc.set_high_u8(addr_high);
            regs.pc.set_low_u8(regs.tmp.to_u8());
            return ClockEndStatus::EndInstruction;
        },
    }

    ClockEndStatus::Continue
}

/// Absolute addressing: two address bytes, then the operation.
fn absolute<M: MemorySpace>(
    step: u8,
    regs: &mut RegisterFile,
    memory: &mut M,
    op: RegisterMemoryOperation,
) -> (r: ClockEndStatus)
    requires
        step < 3,
    ensures
        cycle_performed(
            Instruction::Absolute(op),
            step,
            old(regs)@,
            *old(memory),
            final(regs)@,
            *final(memory),
            r,
        ),
{
    proof {
        reveal(cycle_performed);
    }
    match step {
        0 => {
            let addr_low = read_pc(regs, memory);
            regs.addr.set_low_u8(addr_low);
            regs.pc.inc();
        },
        1 => {
            let addr_high = read_pc(regs, memory);
            regs.addr.set_high_u8(addr_high);
            regs.pc.inc();
        },
        _ => {
            execute_op(op, regs, memory);
            return ClockEndStatus::EndInstruction;
        },
    }

    ClockEndStatus::Continue
}

/// Absolute read-modify-write: two address bytes, the operand read, the old
/// value written back while the operation runs, then the result written.
fn absolute_rmw<M: MemorySpace>(
    step: u8,
    regs: &mut RegisterFile,
    memory: &mut M,
    op: MemoryModifyOperation,
) -> (r: ClockEndStatus)
    requires
        step < 5,
    ensures
        cycle_performed(
            Instruction::AbsoluteReadModifyWrite(op),
            step,
            old(regs)@,
            *old(memory),
            final(regs)@,
            *final(memory),
            r,
        ),
{
    proof {
        reveal(cycle_performed);
    }
    match step {
        0 => {
            let addr_low = read_pc(regs, memory);
            regs.addr.set_low_u8(addr_low);
            regs.pc.inc();
        },
        1 => {
            let addr_high = read_pc(regs, memory);
            regs.addr.set_high_u8(addr_high);
            regs.pc.inc();
        },
        2 => {
            let operand = memory.read(regs.addr.to_u16());
            regs.tmp.set_u8(operand);
        },
        3 => {
            memory.write(regs.tmp.to_u8(), regs.addr.to_u16());
            execute_memory_modify_op(op, regs);
        },
        _ => {
            memory.write(regs.tmp.to_u8(), regs.addr.to_u16());
            return ClockEndStatus::EndInstruction;
        },
    }

    ClockEndStatus::Continue
}

/// Zero-page addressing: one address byte (high byte 0), then the operation.
fn zero_page<M: MemorySpace>(
    step: u8,
    regs: &mut RegisterFile,
    memory: &mut M,
    op: RegisterMemoryOperation,
) -> (r: ClockEndStatus)
    requires
        step < 2,
    ensures
        cycle_performed(
            Instruction::ZeroPage(op),
            step,
            old(regs)@,
            *old(memory),
            final(regs)@,
            *final(memory),
            r,
        ),
{
    proof {
        reveal(cycle_performed);
    }
    match step {
        0 => {
            let addr_low = read_pc(regs, memory);
            regs.addr.set_low_u8(addr_low);
            regs.pc.inc();
            regs.addr.set_high_u8(0);
        },
        _ => {
            execute_op(op, regs, memory);
            return ClockEndStatus::EndInstruction;
        },
    }

    ClockEndStatus::Continue
}

/// Zero-page read-modify-write.
fn zero_page_rmw<M: MemorySpace>(
    step: u8,
    regs: &mut RegisterFile,
    memory: &mut M,
    op: MemoryModifyOperation,
) -> (r: ClockEndStatus)
    requires
        step < 4,
    ensures
        cycle_performed(
            Instruction::ZeroPageReadModifyWrite(op),
            step,
            old(regs)@,
            *old(memory),
            final(regs)@,
            *final(memory),
            r,
        ),
{
    proof {
        reveal(cycle_performed);
    }
    match step {
        0 => {
            let addr_low = read_pc(regs, memory);
            regs.addr.set_low_u8(addr_low);
            regs.pc.inc();
            regs.addr.set_high_u8(0);
        },
        1 => {
            let operand = memory.read(regs.addr.to_u16());
            regs.tmp.set_u8(operand);
        },
        2 => {
            memory.write(regs.tmp.to_u8(), regs.addr.to_u16());
            execute_memory_modify_op(op, regs);
        },
        _ => {
            memory.write(regs.tmp.to_u8(), regs.addr.to_u16());
            return ClockEndStatus::EndInstruction;
        },
    }

    ClockEndStatus::Continue
}

/// Zero-page indexed addressing: the index is added within page zero after a
/// dummy read of the unindexed address.
fn zero_page_indexed<M: MemorySpace>(
    step: u8,
    regs: &mut RegisterFile,
    memory: &mut M,
    op: RegisterMemoryOperation,
    idx: IndexRegister,
) -> (r: ClockEndStatus)
    requires
        step < 3,
    ensures
        cycle_performed(
            Instruction::ZeroPageIdx(op, idx),
            step,
            old(regs)@,
            *old(memory),
            final(regs)@,
            *final(memory),
            r,
        ),
{
    proof {
        reveal(cycle_performed);
    }
    match step {
        0 => {
            let addr_low = memory.read(regs.pc.to_u16());
            regs.addr.set_low_u8(addr_low);
            regs.pc.inc();
            regs.addr.set_high_u8(0);
        },
        1 => {
            let _ = memory.read(regs.addr.to_u16());
            add_index_to_address(regs, idx);
        },
        _ => {
            execute_op(op, regs, memory);
            return ClockEndStatus::EndInstruction;
        },
    }

    ClockEndStatus::Continue
}

/// Zero-page indexed read-modify-write.
fn zero_page_indexed_rmw<M: MemorySpace>(
    step: u8,
    regs: &mut RegisterFile,
    memory: &mut M,
    op: MemoryModifyOperation,
    idx: IndexRegister,
) -> (r: ClockEndStatus)
    requires
        step < 5,
    ensures
        cycle_performed(
            Instruction::ZeroPageIdxReadModifyWrite(op, idx),
            step,
            old(regs)@,
            *old(memory),
            final(regs)@,
            *final(memory),
            r,
        ),
{
    proof {
        reveal(cycle_performed);
    }
    match step {
        0 => {
            let addr_low = memory.read(regs.pc.to_u16());
            regs.addr.set_low_u8(addr_low);
            regs.pc.inc();
            regs.addr.set_high_u8(0);
        },
        1 => {
            let _ = memory.read(regs.addr.to_u16());
            add_index_to_address(regs, idx);
        },
        2 => {
            let data = memory.read(regs.addr.to_u16());
            regs.tmp.set_u8(data);
        },
        3 => {
            memory.write(regs.tmp.to_u8(), regs.addr.to_u16());
            execute_memory_modify_op(op, regs);
        },
        _ => {
            memory.write(regs.tmp.to_u8(), regs.addr.to_u16());
            return ClockEndStatus::EndInstruction;
        },
    }

    ClockEndStatus::Continue
}

} // verus!

verus! {

/// Absolute indexed read: when adding the index crosses a page, one extra
/// cycle fixes the high byte of the address (with a dummy read) before the
/// operation; otherwise the operation runs in the third cycle.
fn absolute_indexed_read<M: MemorySpace>(
    step: u8,
    regs: &mut RegisterFile,
    memory: &mut M,
    op: RegisterMemoryOperation,
    idx: IndexRegister,
) -> (r: ClockEndStatus)
    requires
        step < 4,
    ensures
        cycle_performed(
            Instruction::AbsoluteIdxRead(op, idx),
            step,
            old(regs)@,
            *old(memory),
            final(regs)@,
            *final(memory),
            r,
        ),
{
    proof {
        reveal(cycle_performed);
    }
    match step {
        0 => {
            let addr_low = memory.read(regs.pc.to_u16());
            regs.addr.set_low_u8(addr_low);
            regs.pc.inc();
        },
        1 => {
            let addr_high = memory.read(regs.pc.to_u16());
            regs.addr.set_high_u8(addr_high);
            regs.pc.inc();
        },
        2 => {
            add_index_to_address(regs, idx);
            assert(index_value(regs@, idx) == index_value(old(regs)@, idx));
            return fix_addr_or_run_op_finish(op, regs, memory, idx);
        },
        _ => {
            execute_op(op, regs, memory);
            return ClockEndStatus::EndInstruction;
        },
    }

    ClockEndStatus::Continue
}

/// Absolute indexed read-modify-write: the address is always fixed with a
/// dummy read, whether or not a page was crossed.
fn absolute_indexed_rmw<M: MemorySpace>(
    step: u8,
    regs: &mut RegisterFile,
    memory: &mut M,
    op: MemoryModifyOperation,
    idx: IndexRegister,
) -> (r: ClockEndStatus)
    requires
        step < 6,
    ensures
        cycle_performed(
            Instruction::AbsoluteIdxReadModifyWrite(op, idx),
            step,
            old(regs)@,
            *old(memory),
            final(regs)@,
            *final(memory),
            r,
        ),
{
    proof {
        reveal(cycle_performed);
    }
    match step {
        0 => {
            let addr_low = memory.read(regs.pc.to_u16());
            regs.addr.set_low_u8(addr_low);
            regs.pc.inc();
        },
        1 => {
            let addr_high = memory.read(regs.pc.to_u16());
            regs.addr.set_high_u8(addr_high);
            regs.pc.inc();
        },
        2 => {
            add_index_to_address(regs, idx);
            let _ = memory.read(regs.addr.to_u16());
            let index_value = get_index_value(idx, regs);
            let _ = fix_addr(regs, index_value);
        },
        3 => {
            let data = memory.read(regs.addr.to_u16());
            regs.tmp.set_u8(data);
        },
        4 => {
            memory.write(regs.tmp.to_u8(), regs.addr.to_u16());
            execute_memory_modify_op(op, regs);
        },
        _ => {
            memory.write(regs.tmp.to_u8(), regs.addr.to_u16());
            return ClockEndStatus::EndInstruction;
        },
    }

    ClockEndStatus::Continue
}

/// Absolute indexed write: the address is always fixed with a dummy read,
/// then the register is stored.
fn absolute_indexed_write<M: MemorySpace>(
    step: u8,
    regs: &mut RegisterFile,
    memory: &mut M,
    op: RegisterMemoryOperation,
    idx: IndexRegister,
) -> (r: ClockEndStatus)
    requires
        step < 4,
    ensures
        cycle_performed(
            Instruction::AbsoluteIdxWrite(op, idx),
            step,
            old(regs)@,
            *old(memory),
            final(regs)@,
            *final(memory),
            r,
        ),
{
    proof {
        reveal(cycle_performed);
    }
    match step {
        0 => {
            let addr_low = memory.read(regs.pc.to_u16());
            regs.addr.set_low_u8(addr_low);
            regs.pc.inc();
        },
        1 => {
            let addr_high = memory.read(regs.pc.to_u16());
            regs.addr.set_high_u8(addr_high);
            regs.pc.inc();
        },
        2 => {
            add_index_to_address(regs, idx);
            let _ = memory.read(regs.addr.to_u16());
            let index_value = get_index_value(idx, regs);
            let _ = fix_addr(regs, index_value);
        },
        _ => {
            execute_op(op, regs, memory);
            return ClockEndStatus::EndInstruction;
        },
    }

    ClockEndStatus::Continue
}

/// Relative addressing (conditional branches): the offset is read, then the
/// branch decision cycle runs; a taken branch that crosses a page takes one
/// more cycle.
fn relative<M: MemorySpace>(
    step: u8,
    regs: &mut RegisterFile,
    memory: &mut M,
    op: BranchOperation,
) -> (r: ClockEndStatus)
    requires
        step < 3,
    ensures
        cycle_performed(
            Instruction::Relative(op),
            step,
            old(regs)@,
            *old(memory),
            final(regs)@,
            *final(memory),
            r,
        ),
{
    proof {
        reveal(cycle_performed);
    }
    match step {
        0 => {
            let operand = memory.read(regs.pc.to_u16());
            regs.tmp.set_u8(operand);
            regs.pc.inc();
        },
        1 => {
            return execute_branch_op(op, regs, memory);
        },
        _ => {
            return ClockEndStatus::EndInstruction;
        },
    }

    ClockEndStatus::Continue
}

/// Indexed indirect addressing, `(zp,X)`: the index is added to the zero-page
/// pointer address (within page zero), the pointer is read (its high byte
/// from the next zero-page location, wrapping), then the operation runs at
/// the pointed address.
fn zero_page_indexed_indirect<M: MemorySpace>(
    step: u8,
    regs: &mut RegisterFile,
    memory: &mut M,
    op: RegisterMemoryOperation,
    idx: IndexRegister,
) -> (r: ClockEndStatus)
    requires
        step < 5,
    ensures
        cycle_performed(
            Instruction::ZeroPageIdxIndirect(op, idx),
            step,
            old(regs)@,
            *old(memory),
            final(regs)@,
            *final(memory),
            r,
        ),
{
    proof {
        reveal(cycle_performed);
    }
    match step {
        0 => {
            regs.addr.set_high_u8(0);
            let addr_low = memory.read(regs.pc.to_u16());
            regs.addr.set_low_u8(addr_low);
            regs.pc.inc();
        },
        1 => {
            let _ = memory.read(regs.pc.to_u16());
            add_index_to_address(regs, idx);
        },
        2 => {
            let data = memory.read(regs.addr.to_u16());
            regs.tmp.set_u8(data);
        },
        3 => {
            let addr_low = regs.addr.low_u8().wrapping_add(1);
            regs.addr.set_low_u8(addr_low);
            let addr_high = memory.read(regs.addr.to_u16());
            regs.addr.set_high_u8(addr_high);
            regs.addr.set_low_u8(regs.tmp.to_u8());
        },
        _ => {
            execute_op(op, regs, memory);
            return ClockEndStatus::EndInstruction;
        },
    }

    ClockEndStatus::Continue
}

} // verus!

verus! {

/// Indexed indirect read-modify-write, `(zp,X)`.
fn zero_page_indexed_indirect_rmw<M: MemorySpace>(
    step: u8,
    regs: &mut RegisterFile,
    memory: &mut M,
    op: MemoryModifyOperation,
    idx: IndexRegister,
) -> (r: ClockEndStatus)
    requires
        step < 7,
    ensures
        cycle_performed(
            Instruction::ZeroPageIdxIndirectReadModifyWrite(op, idx),
            step,
            old(regs)@,
            *old(memory),
            final(regs)@,
            *final(memory),
            r,
        ),
{
    proof {
        reveal(cycle_performed);
    }
    match step {
        0 => {
            regs.addr.set_high_u8(0);
            let addr_low = memory.read(regs.pc.to_u16());
            regs.addr.set_low_u8(addr_low);
            regs.pc.inc();
        },
        1 => {
            let _ = memory.read(regs.pc.to_u16());
            add_index_to_address(regs, idx);
        },
        2 => {
            let data = memory.read(regs.addr.to_u16());
            regs.tmp.set_u8(data);
        },
        3 => {
            let addr_low = regs.addr.low_u8().wrapping_add(1);
            regs.addr.set_low_u8(addr_low);
            let addr_high = memory.read(regs.addr.to_u16());
            regs.addr.set_high_u8(addr_high);
            regs.addr.set_low_u8(regs.tmp.to_u8());
        },
        4 => {
            let operand = memory.read(regs.addr.to_u16());
            regs.tmp.set_u8(operand);
        },
        5 => {
            memory.write(regs.tmp.to_u8(), regs.addr.to_u16());
            execute_memory_modify_op(op, regs);
        },
        _ => {
            memory.write(regs.tmp.to_u8(), regs.addr.to_u16());
            return ClockEndStatus::EndInstruction;
        },
    }

    ClockEndStatus::Continue
}

/// Indirect indexed read, `(zp),Y`: the pointer is read from page zero (its
/// high byte from the next location, wrapping), the index is added to it, and
/// a crossed page costs one more cycle, as for absolute indexed reads.
fn zero_page_indirect_indexed_read<M: MemorySpace>(
    step: u8,
    regs: &mut RegisterFile,
    memory: &mut M,
    op: RegisterMemoryOperation,
    idx: IndexRegister,
) -> (r: ClockEndStatus)
    requires
        step < 5,
    ensures
        cycle_performed(
            Instruction::ZeroPageIndirectIdxRead(op, idx),
            step,
            old(regs)@,
            *old(memory),
            final(regs)@,
            *final(memory),
            r,
        ),
{
    proof {
        reveal(cycle_performed);
    }
    match step {
        0 => {
            regs.addr.set_high_u8(0);
            let addr_low = memory.read(regs.pc.to_u16());
            regs.addr.set_low_u8(addr_low);
            regs.pc.inc();
        },
        1 => {
            let addr_low = memory.read(regs.addr.to_u16());
            regs.tmp.set_u8(addr_low);
        },
        2 => {
            let addr_low = regs.addr.low_u8().wrapping_add(1);
            regs.addr.set_low_u8(addr_low);
            let addr_high = memory.read(regs.addr.to_u16());
            regs.addr.set_high_u8(addr_high);
            regs.addr.set_low_u8(regs.tmp.to_u8());
            add_index_to_address(regs, idx);
        },
        3 => {
            return fix_addr_or_run_op_finish(op, regs, memory, idx);
        },
        _ => {
            execute_op(op, regs, memory);
            return ClockEndStatus::EndInstruction;
        },
    }

    ClockEndStatus::Continue
}

/// Indirect indexed read-modify-write, `(zp),Y`: the address is always fixed
/// with a dummy read.
fn zero_page_indirect_indexed_rmw<M: MemorySpace>(
    step: u8,
    regs: &mut RegisterFile,
    memory: &mut M,
    op: MemoryModifyOperation,
    idx: IndexRegister,
) -> (r: ClockEndStatus)
    requires
        step < 7,
    ensures
        cycle_performed(
            Instruction::ZeroPageIndirectIdxReadModifyWrite(op, idx),
            step,
            old(regs)@,
            *old(memory),
            final(regs)@,
            *final(memory),
            r,
        ),
{
    proof {
        reveal(cycle_performed);
    }
    match step {
        0 => {
            regs.addr.set_high_u8(0);
            let addr_low = memory.read(regs.pc.to_u16());
            regs.addr.set_low_u8(addr_low);
            regs.pc.inc();
        },
        1 => {
            let addr_low = memory.read(regs.addr.to_u16());
            regs.tmp.set_u8(addr_low);
        },
        2 => {
            let addr_low = regs.addr.low_u8().wrapping_add(1);
            regs.addr.set_low_u8(addr_low);
            let addr_high = memory.read(regs.addr.to_u16());
            regs.addr.set_high_u8(addr_high);
            regs.addr.set_low_u8(regs.tmp.to_u8());
            add_index_to_address(regs, idx);
        },
        3 => {
            let _ = memory.read(regs.addr.to_u16());
            let index_value = get_index_value(idx, regs);
            let _ = fix_addr(regs, index_value);
        },
        4 => {
            let operand = memory.read(regs.addr.to_u16());
            regs.tmp.set_u8(operand);
        },
        5 => {
            memory.write(regs.tmp.to_u8(), regs.addr.to_u16());
            execute_memory_modify_op(op, regs);
        },
        _ => {
            memory.write(regs.tmp.to_u8(), regs.addr.to_u16());
            return ClockEndStatus::EndInstruction;
        },
    }

    ClockEndStatus::Continue
}

/// Indirect indexed write, `(zp),Y`: the address is always fixed with a dummy
/// read, then the register is stored.
fn zero_page_indirect_indexed_write<M: MemorySpace>(
    step: u8,
    regs: &mut RegisterFile,
    memory: &mut M,
    op: RegisterMemoryOperation,
    idx: IndexRegister,
) -> (r: ClockEndStatus)
    requires
        step < 5,
    ensures
        cycle_performed(
            Instruction::ZeroPageIndirectIdxWrite(op, idx),
            step,
            old(regs)@,
            *old(memory),
            final(regs)@,
            *final(memory),
            r,
        ),
{
    proof {
        reveal(cycle_performed);
    }
    match step {
        0 => {
            regs.addr.set_high_u8(0);
            let addr_low = memory.read(regs.pc.to_u16());
            regs.addr.set_low_u8(addr_low);
            regs.pc.inc();
        },
        1 => {
            let addr_low = memory.read(regs.addr.to_u16());
            regs.tmp.set_u8(addr_low);
        },
        2 => {
            let addr_low = regs.addr.low_u8().wrapping_add(1);
            regs.addr.set_low_u8(addr_low);
            let addr_high = memory.read(regs.addr.to_u16());
            regs.addr.set_high_u8(addr_high);
            regs.addr.set_low_u8(regs.tmp.to_u8());
            add_index_to_address(regs, idx);
        },
        3 => {
            let _ = memory.read(regs.addr.to_u16());
            let index_value = get_index_value(idx, regs);
            let _ = fix_addr(regs, index_value);
        },
        _ => {
            execute_op(op, regs, memory);
            return ClockEndStatus::EndInstruction;
        },
    }

    ClockEndStatus::Continue
}

/// JMP indirect: the pointer address is read, then the target from it; the
/// high byte of the target comes from the next address within the same page
/// (the pointer's low byte wraps, as on the NMOS 6502).
fn absolute_indirect_jump<M: MemorySpace>(step: u8, regs: &mut RegisterFile, memory: &mut M) -> (r:
    ClockEndStatus)
    requires
        step < 4,
    ensures
        cycle_performed(
            Instruction::AbsoluteIndirectJump,
            step,
            old(regs)@,
            *old(memory),
            final(regs)@,
            *final(memory),
            r,
        ),
{
    proof {
        reveal(cycle_performed);
    }
    match step {
        0 => {
            let addr_low = memory.read(regs.pc.to_u16());
            regs.tmp.set_u8(addr_low);
            regs.pc.inc();
        },
        1 => {
            let addr_high = memory.read(regs.pc.to_u16());
            regs.addr.set_high_u8(addr_high);
            regs.pc.inc();
            regs.addr.set_low_u8(regs.tmp.to_u8());
        },
        2 => {
            let pc_low = memory.read(regs.addr.to_u16());
            regs.tmp.set_u8(pc_low);
        },
        _ => {
            let addr_low = regs.addr.low_u8().wrapping_add(1);
            regs.addr.set_low_u8(addr_low);
            let pc_high = memory.read(regs.addr.to_u16());
            regs.pc.set_high_u8(pc_high);
            regs.pc.set_low_u8(regs.tmp.to_u8());
            return ClockEndStatus::EndInstruction;
        },
    }

    ClockEndStatus::Continue
}

} // verus!

verus! {

/// Whether an instruction reads an operand or computes an address from the
/// bytes after its opcode (the instructions that `execute` hands on).
spec fn addressed(instr: Instruction) -> bool {
    !(instr is FetchInstr || instr is Break || instr is StartIrq || instr is StartNmi
        || instr is Reset || instr is ReturnInterrupt || instr is JumpSubroutine
        || instr is ReturnSubroutine || instr is Push || instr is Pull || instr is Implied
        || instr is AbsoluteJump)
}

/// Whether an instruction uses an indexed absolute or an indirect address
/// (the instructions that `execute_addressed` hands on).
spec fn indexed_or_indirect(instr: Instruction) -> bool {
    addressed(instr) && !(instr is Immediate || instr is Absolute
        || instr is AbsoluteReadModifyWrite || instr is ZeroPage || instr is ZeroPageReadModifyWrite
        || instr is ZeroPageIdx || instr is ZeroPageIdxReadModifyWrite || instr is Relative)
}

/// One step of an instruction that reads an operand or computes an address.
#[verifier::spinoff_prover]
fn execute_addressed<M: MemorySpace>(instr: Instruction, step: u8, regs: &mut RegisterFile, memory: &mut M) -> (r:
    ClockEndStatus)
    requires
        addressed(instr),
        step < num_steps(instr),
    ensures
        cycle_performed(instr, step, old(regs)@, *old(memory), final(regs)@, *final(memory), r),
{
    match instr {
        Instruction::Immediate(op) => immediate(step, regs, memory, op),
        Instruction::Absolute(op) => absolute(step, regs, memory, op),
        Instruction::AbsoluteReadModifyWrite(op) => absolute_rmw(step, regs, memory, op),
        Instruction::ZeroPage(op) => zero_page(step, regs, memory, op),
        Instruction::ZeroPageReadModifyWrite(op) => zero_page_rmw(step, regs, memory, op),
        Instruction::ZeroPageIdx(op, idx) => zero_page_indexed(step, regs, memory, op, idx),
        Instruction::ZeroPageIdxReadModifyWrite(op, idx) => {
            zero_page_indexed_rmw(step, regs, memory, op, idx)
        },
        Instruction::Relative(op) => relative(step, regs, memory, op),
        _ => execute_indexed_or_indirect(instr, step, regs, memory),
    }
}

/// One step of an instruction with an indexed absolute or an indirect address.
#[verifier::spinoff_prover]
fn execute_indexed_or_indirect<M: MemorySpace>(
    instr: Instruction,
    step: u8,
    regs: &mut RegisterFile,
    memory: &mut M,
) -> (r: ClockEndStatus)
    requires
        indexed_or_indirect(instr),
        step < num_steps(instr),
    ensures
        cycle_performed(instr, step, old(regs)@, *old(memory), final(regs)@, *final(memory), r),
{
    match instr {
        Instruction::AbsoluteIdxRead(op, idx) => absolute_indexed_read(step, regs, memory, op, idx),
        Instruction::AbsoluteIdxReadModifyWrite(op, idx) => {
            absolute_indexed_rmw(step, regs, memory, op, idx)
        },
        Instruction::AbsoluteIdxWrite(op, idx) => {
            absolute_indexed_write(step, regs, memory, op, idx)
        },
        Instruction::ZeroPageIdxIndirect(op, idx) => {
            zero_page_indexed_indirect(step, regs, memory, op, idx)
        },
        Instruction::ZeroPageIdxIndirectReadModifyWrite(op, idx) => {
            zero_page_indexed_indirect_rmw(step, regs, memory, op, idx)
        },
        Instruction::ZeroPageIndirectIdxRead(op, idx) => {
            zero_page_indirect_indexed_read(step, regs, memory, op, idx)
        },
        Instruction::ZeroPageIndirectIdxReadModifyWrite(op, idx) => {
            zero_page_indirect_indexed_rmw(step, regs, memory, op, idx)
        },
        Instruction::ZeroPageIndirectIdxWrite(op, idx) => {
            zero_page_indirect_indexed_write(step, regs, memory, op, idx)
        },
        _ => absolute_indirect_jump(step, regs, memory),
    }
}

/// Performs one step (one clock cycle) of an instruction sequence.
///
/// The cycle does what `cycle_bus` and `cycle_next` state for the
/// instruction, the step and the registers: at most one memory access, the
/// register updates, and whether the instruction needs more cycles.
#[verifier::spinoff_prover]
pub fn execute<M: MemorySpace>(instr: Instruction, step: u8, regs: &mut RegisterFile, memory: &mut M) -> (r:
    ClockEndStatus)
    requires
        step < num_steps(instr),
    ensures
        cycle_performed(instr, step, old(regs)@, *old(memory), final(regs)@, *final(memory), r),
{
    match instr {
        Instruction::FetchInstr => fetch_instr(step, regs, memory),
        Instruction::Break => break_instr(step, regs, memory),
        Instruction::StartIrq => start_irq(step, regs, memory),
        Instruction::StartNmi => start_nmi(step, regs, memory),
        Instruction::Reset => reset(step, regs, memory),
        Instruction::ReturnInterrupt => return_interrupt(step, regs, memory),
        Instruction::JumpSubroutine => jump_subroutine(step, regs, memory),
        Instruction::ReturnSubroutine => return_subroutine(step, regs, memory),
        Instruction::Push(op) => push(step, regs, memory, op),
        Instruction::Pull(op) => pull(step, regs, memory, op),
        Instruction::Implied(op) => implied(step, regs, memory, op),
        Instruction::AbsoluteJump => absolute_jump(step, regs, memory),
        _ => execute_addressed(instr, step, regs, memory),
    }
}

} // verus!
