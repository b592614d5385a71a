//! What whole instruction sequences do, on a plain RAM: the stack round
//! trips of subroutine calls, pushes and pulls, interrupts and their return,
//! the reset sequence and the indirect jump.
use crate::instr::cycle::{
    dec8, inc16, inc8, next_in_page, run_steps, stack_address,
};
use crate::instr::{Instruction, PullStackOperation, PushStackOperation};
use crate::memory::BasicRam;
use crate::registers::{group_word_bytes, hi_byte, lo_byte, make_word, RegisterState};
use vstd::prelude::*;

verus! {

broadcast use group_word_bytes;

/// JSR: the return address (the address of the last operand byte) is pushed,
/// high byte first, and PC is loaded with the target. The high byte of the
/// target is read after the pushes.
pub proof fn lemma_jump_subroutine(r: RegisterState, m: BasicRam)
    ensures
        ({
            let (r1, m1) = run_steps(Instruction::JumpSubroutine, 5, r, m);
            &&& r1.pc == make_word(m1@[inc16(r.pc) as int], m@[r.pc as int])
            &&& r1.sp == dec8(dec8(r.sp))
            &&& m1@[stack_address(r.sp) as int] == hi_byte(inc16(r.pc))
            &&& m1@[stack_address(dec8(r.sp)) as int] == lo_byte(inc16(r.pc))
            &&& r1.a == r.a && r1.x == r.x && r1.y == r.y && r1.status == r.status
        }),
{
    reveal(run_steps);
    reveal_with_fuel(run_steps, 6);
    assert(stack_address(r.sp) != stack_address(dec8(r.sp)));
}

/// RTS: the return address is pulled, low byte first, and PC is set just
/// past it.
pub proof fn lemma_return_subroutine(r: RegisterState, m: BasicRam)
    ensures
        ({
            let (r1, m1) = run_steps(Instruction::ReturnSubroutine, 5, r, m);
            &&& r1.pc == inc16(
                make_word(
                    m@[stack_address(inc8(inc8(r.sp))) as int],
                    m@[stack_address(inc8(r.sp)) as int],
                ),
            )
            &&& r1.sp == inc8(inc8(r.sp))
            &&& m1 == m
            &&& r1.a == r.a && r1.x == r.x && r1.y == r.y && r1.status == r.status
        }),
{
    reveal(run_steps);
    reveal_with_fuel(run_steps, 6);
}

/// JSR then RTS: a subroutine that leaves the stack pointer and the two
/// pushed bytes as JSR left them returns to the instruction after the JSR
/// (the opcode is one byte before `r.pc`, the operand two bytes from it),
/// with the stack pointer as before the call.
pub proof fn lemma_jsr_rts_round_trip(r: RegisterState, m: BasicRam, r2: RegisterState, m2: BasicRam)
    requires
        r2.sp == run_steps(Instruction::JumpSubroutine, 5, r, m).0.sp,
        m2@[stack_address(r.sp) as int] == run_steps(Instruction::JumpSubroutine, 5, r, m).1@[stack_address(r.sp) as int],
        m2@[stack_address(dec8(r.sp)) as int] == run_steps(Instruction::JumpSubroutine, 5, r, m).1@[stack_address(dec8(r.sp)) as int],
    ensures
        run_steps(Instruction::ReturnSubroutine, 5, r2, m2).0.pc == inc16(inc16(r.pc)),
        run_steps(Instruction::ReturnSubroutine, 5, r2, m2).0.sp == r.sp,
{
    let pc1 = inc16(r.pc);
    lemma_jump_subroutine(r, m);
    lemma_return_subroutine(r2, m2);
    let sp = r.sp;
    assert(inc8(dec8(dec8(sp))) == dec8(sp));
    assert(inc8(inc8(dec8(dec8(sp)))) == sp);
    assert(m2@[stack_address(inc8(r2.sp)) as int] == lo_byte(pc1));
    assert(m2@[stack_address(inc8(inc8(r2.sp))) as int] == hi_byte(pc1));
    assert(make_word(hi_byte(pc1), lo_byte(pc1)) == pc1);
}

/// PHA and PHP: the accumulator, or the status with BREAK and UNUSED set,
/// is written at the stack top and the stack pointer decremented.
pub proof fn lemma_push(r: RegisterState, m: BasicRam, op: PushStackOperation)
    ensures
        ({
            let (r1, m1) = run_steps(Instruction::Push(op), 2, r, m);
            &&& r1.sp == dec8(r.sp)
            &&& m1@[stack_address(r.sp) as int] == match op {
                PushStackOperation::PushA => r.a,
                PushStackOperation::PushStatus => r.status | 0x30,
            }
            &&& r1.a == r.a && r1.x == r.x && r1.y == r.y && r1.status == r.status && r1.pc == r.pc
        }),
{
    reveal(run_steps);
    reveal_with_fuel(run_steps, 3);
}

/// PLA and PLP: the byte above the stack top is loaded into the accumulator
/// (setting N and Z) or into the status register (keeping its BREAK and
/// UNUSED bits), and the stack pointer incremented.
pub proof fn lemma_pull(r: RegisterState, m: BasicRam, op: PullStackOperation)
    ensures
        ({
            let (r1, m1) = run_steps(Instruction::Pull(op), 3, r, m);
            let d = m@[stack_address(inc8(r.sp)) as int];
            &&& r1.sp == inc8(r.sp)
            &&& m1 == m
            &&& match op {
                PullStackOperation::PullA => r1.a == d && r1.status == crate::alu::nz_status(r.status, d),
                PullStackOperation::PullStatus => r1.status == crate::instr::cycle::pulled_status(r.status, d) && r1.a == r.a,
            }
            &&& r1.x == r.x && r1.y == r.y && r1.pc == r.pc
        }),
{
    reveal(run_steps);
    reveal_with_fuel(run_steps, 4);
}

/// PHA then PLA: the accumulator and the stack pointer are restored when the
/// pushed byte is left in place.
pub proof fn lemma_push_pull_accumulator(r: RegisterState, m: BasicRam, r2: RegisterState, m2: BasicRam)
    requires
        r2.sp == run_steps(Instruction::Push(PushStackOperation::PushA), 2, r, m).0.sp,
        m2@[stack_address(r.sp) as int] == run_steps(Instruction::Push(PushStackOperation::PushA), 2, r, m).1@[stack_address(r.sp) as int],
    ensures
        run_steps(Instruction::Pull(PullStackOperation::PullA), 3, r2, m2).0.a == r.a,
        run_steps(Instruction::Pull(PullStackOperation::PullA), 3, r2, m2).0.sp == r.sp,
{
    lemma_push(r, m, PushStackOperation::PushA);
    lemma_pull(r2, m2, PullStackOperation::PullA);
    assert(inc8(dec8(r.sp)) == r.sp);
}

/// PHP then PLP: the status register is restored when the pushed byte is
/// left in place and the BREAK and UNUSED bits (which PLP keeps) are as
/// they were at the PHP.
pub proof fn lemma_push_pull_status(r: RegisterState, m: BasicRam, r2: RegisterState, m2: BasicRam)
    requires
        r2.sp == run_steps(Instruction::Push(PushStackOperation::PushStatus), 2, r, m).0.sp,
        m2@[stack_address(r.sp) as int] == run_steps(Instruction::Push(PushStackOperation::PushStatus), 2, r, m).1@[stack_address(r.sp) as int],
        r2.status & 0x30 == r.status & 0x30,
    ensures
        run_steps(Instruction::Pull(PullStackOperation::PullStatus), 3, r2, m2).0.status == r.status,
        run_steps(Instruction::Pull(PullStackOperation::PullStatus), 3, r2, m2).0.sp == r.sp,
{
    lemma_push(r, m, PushStackOperation::PushStatus);
    lemma_pull(r2, m2, PullStackOperation::PullStatus);
    assert(inc8(dec8(r.sp)) == r.sp);
    let s = r.status;
    let s2 = r2.status;
    assert((s2 & 0x30) | ((s | 0x30) & 0xCF) == s) by (bit_vector)
        requires
            s2 & 0x30 == s & 0x30,
    ;
}

/// The IRQ and NMI sequences: PC (high byte first) and the status are
/// pushed, interrupts are disabled and PC is loaded from the vector
/// ($FFFE/$FFFF for an IRQ, $FFFA/$FFFB for an NMI).
pub proof fn lemma_interrupt_sequence(i: Instruction, r: RegisterState, m: BasicRam)
    requires
        i == Instruction::StartIrq || i == Instruction::StartNmi,
    ensures
        ({
            let (r1, m1) = run_steps(i, 7, r, m);
            let vector: int = if i == Instruction::StartIrq { 0xFFFE } else { 0xFFFA };
            &&& r1.pc == make_word(m@[vector + 1], m@[vector])
            &&& r1.sp == dec8(dec8(dec8(r.sp)))
            &&& m1@[stack_address(r.sp) as int] == hi_byte(r.pc)
            &&& m1@[stack_address(dec8(r.sp)) as int] == lo_byte(r.pc)
            &&& m1@[stack_address(dec8(dec8(r.sp))) as int] == r.status
            &&& r1.status == crate::registers::with_flags(
                r.status,
                crate::registers::StatusRegFlags::IRQ_DISABLE,
                true,
            )
            &&& r1.a == r.a && r1.x == r.x && r1.y == r.y
        }),
{
    reveal(run_steps);
    reveal_with_fuel(run_steps, 8);
    assert(stack_address(r.sp) != stack_address(dec8(r.sp)));
    assert(stack_address(r.sp) != stack_address(dec8(dec8(r.sp))));
    assert(stack_address(dec8(r.sp)) != stack_address(dec8(dec8(r.sp))));
}

/// BRK: the padding byte after the opcode is skipped, PC (pointing past it)
/// and the status with BREAK set are pushed, interrupts are disabled and PC
/// is loaded from $FFFE/$FFFF.
pub proof fn lemma_break(r: RegisterState, m: BasicRam)
    ensures
        ({
            let (r1, m1) = run_steps(Instruction::Break, 6, r, m);
            &&& r1.pc == make_word(m@[0xFFFF], m@[0xFFFE])
            &&& r1.sp == dec8(dec8(dec8(r.sp)))
            &&& m1@[stack_address(r.sp) as int] == hi_byte(inc16(r.pc))
            &&& m1@[stack_address(dec8(r.sp)) as int] == lo_byte(inc16(r.pc))
            &&& m1@[stack_address(dec8(dec8(r.sp))) as int] == r.status | 0x10
            &&& r1.status == crate::registers::with_flags(
                r.status,
                crate::registers::StatusRegFlags::IRQ_DISABLE,
                true,
            )
            &&& r1.a == r.a && r1.x == r.x && r1.y == r.y
        }),
{
    reveal(run_steps);
    reveal_with_fuel(run_steps, 7);
    assert(stack_address(r.sp) != stack_address(dec8(r.sp)));
    assert(stack_address(r.sp) != stack_address(dec8(dec8(r.sp))));
    assert(stack_address(dec8(r.sp)) != stack_address(dec8(dec8(r.sp))));
}

/// RTI: the status (keeping the current BREAK and UNUSED bits), then PC (low
/// byte first) are pulled from the stack.
pub proof fn lemma_return_interrupt(r: RegisterState, m: BasicRam)
    ensures
        ({
            let (r1, m1) = run_steps(Instruction::ReturnInterrupt, 5, r, m);
            let sp1 = inc8(r.sp);
            let sp2 = inc8(sp1);
            let sp3 = inc8(sp2);
            &&& r1.status == crate::instr::cycle::pulled_status(
                r.status,
                m@[stack_address(sp1) as int],
            )
            &&& r1.pc == make_word(m@[stack_address(sp3) as int], m@[stack_address(sp2) as int])
            &&& r1.sp == sp3
            &&& m1 == m
            &&& r1.a == r.a && r1.x == r.x && r1.y == r.y
        }),
{
    reveal(run_steps);
    reveal_with_fuel(run_steps, 6);
}

/// An IRQ or NMI sequence then RTI: a handler that leaves the stack pointer,
/// the three pushed bytes and the BREAK and UNUSED bits as they were resumes
/// the interrupted program at the same PC with the same status.
pub proof fn lemma_interrupt_rti_round_trip(
    i: Instruction,
    r: RegisterState,
    m: BasicRam,
    r2: RegisterState,
    m2: BasicRam,
)
    requires
        i == Instruction::StartIrq || i == Instruction::StartNmi,
        r2.sp == run_steps(i, 7, r, m).0.sp,
        forall|k: u8|
            #![trigger stack_address(k)]
            k == r.sp || k == dec8(r.sp) || k == dec8(dec8(r.sp)) ==> m2@[stack_address(k) as int]
                == run_steps(i, 7, r, m).1@[stack_address(k) as int],
        r2.status & 0x30 == r.status & 0x30,
    ensures
        run_steps(Instruction::ReturnInterrupt, 5, r2, m2).0.pc == r.pc,
        run_steps(Instruction::ReturnInterrupt, 5, r2, m2).0.status == r.status,
        run_steps(Instruction::ReturnInterrupt, 5, r2, m2).0.sp == r.sp,
{
    lemma_interrupt_sequence(i, r, m);
    lemma_return_interrupt(r2, m2);
    let sp = r.sp;
    assert(inc8(dec8(dec8(dec8(sp)))) == dec8(dec8(sp)));
    assert(inc8(dec8(dec8(sp))) == dec8(sp));
    assert(inc8(dec8(sp)) == sp);
    assert(m2@[stack_address(dec8(dec8(sp))) as int] == r.status);
    assert(m2@[stack_address(dec8(sp)) as int] == lo_byte(r.pc));
    assert(m2@[stack_address(sp) as int] == hi_byte(r.pc));
    let s = r.status;
    let s2 = r2.status;
    assert((s2 & 0x30) | (s & 0xCF) == s) by (bit_vector)
        requires
            s2 & 0x30 == s & 0x30,
    ;
}

/// BRK then RTI: a handler that leaves the stack pointer, the three pushed
/// bytes and the BREAK and UNUSED bits as they were resumes the program
/// after the padding byte of the BRK, with the same status.
pub proof fn lemma_break_rti_round_trip(r: RegisterState, m: BasicRam, r2: RegisterState, m2: BasicRam)
    requires
        r2.sp == run_steps(Instruction::Break, 6, r, m).0.sp,
        forall|k: u8|
            #![trigger stack_address(k)]
            k == r.sp || k == dec8(r.sp) || k == dec8(dec8(r.sp)) ==> m2@[stack_address(k) as int]
                == run_steps(Instruction::Break, 6, r, m).1@[stack_address(k) as int],
        r2.status & 0x30 == r.status & 0x30,
    ensures
        run_steps(Instruction::ReturnInterrupt, 5, r2, m2).0.pc == inc16(r.pc),
        run_steps(Instruction::ReturnInterrupt, 5, r2, m2).0.status == r.status,
        run_steps(Instruction::ReturnInterrupt, 5, r2, m2).0.sp == r.sp,
{
    lemma_break(r, m);
    lemma_return_interrupt(r2, m2);
    let sp = r.sp;
    assert(inc8(dec8(dec8(dec8(sp)))) == dec8(dec8(sp)));
    assert(inc8(dec8(dec8(sp))) == dec8(sp));
    assert(inc8(dec8(sp)) == sp);
    assert(m2@[stack_address(dec8(dec8(sp))) as int] == r.status | 0x10);
    assert(m2@[stack_address(dec8(sp)) as int] == lo_byte(inc16(r.pc)));
    assert(m2@[stack_address(sp) as int] == hi_byte(inc16(r.pc)));
    let s = r.status;
    let s2 = r2.status;
    assert((s2 & 0x30) | ((s | 0x10) & 0xCF) == s) by (bit_vector)
        requires
            s2 & 0x30 == s & 0x30,
    ;
}

/// JMP indirect: PC is loaded from the pointer that follows the opcode; the
/// high byte of the target comes from the next address in the pointer's
/// page, so a pointer at $xxFF takes its high byte from $xx00.
pub proof fn lemma_indirect_jump_page_wrap(r: RegisterState, m: BasicRam)
    ensures
        ({
            let p = make_word(m@[inc16(r.pc) as int], m@[r.pc as int]);
            let (r1, m1) = run_steps(Instruction::AbsoluteIndirectJump, 4, r, m);
            &&& r1.pc == make_word(m@[next_in_page(p) as int], m@[p as int])
            &&& lo_byte(p) == 0xFF ==> next_in_page(p) == make_word(hi_byte(p), 0)
            &&& m1 == m
        }),
{
    reveal(run_steps);
    reveal_with_fuel(run_steps, 5);
}

/// The reset sequence: three stack cycles move the stack pointer down by
/// three (the last one writes the status), then PC is loaded from the reset
/// vector ($FFFC/$FFFD).
pub proof fn lemma_reset_sequence(r: RegisterState, m: BasicRam)
    ensures
        ({
            let (r1, m1) = run_steps(Instruction::Reset, 6, r, m);
            &&& r1.pc == make_word(m@[0xFFFD], m@[0xFFFC])
            &&& r1.sp == dec8(dec8(dec8(r.sp)))
            &&& r1.status == r.status
        }),
{
    reveal(run_steps);
    reveal_with_fuel(run_steps, 7);
}

} // verus!
