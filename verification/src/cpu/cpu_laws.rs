//! What the CPU does over several cycles: how interrupt requests are taken
//! and serviced, and how the cycle counter advances.
use crate::cpu::cpu_impl::{
    cpu_run, cpu_wf, dispatched, lemma_all_steps_continue, reset_state, CpuState,
};
use crate::cpu::interrupt::InterruptType;
use crate::instr::cycle::{bus_data, cycle_bus, dec8, run_steps, stack_address};
use crate::instr::sequence_laws::lemma_interrupt_sequence;
use crate::instr::Instruction;
use crate::memory::{BasicRam, MemorySpace};
use crate::registers::{flags_set, hi_byte, lo_byte, make_word, with_flags, StatusRegFlags};
use vstd::prelude::*;

verus! {

/// An NMI has been requested and not yet started: its edge is pending, or it
/// was found waiting at the last cycle.
pub open spec fn nmi_requested(c: CpuState) -> bool {
    c.lines.nmi_pending || c.waiting_interrupt == Some(InterruptType::NonMaskableInterrupt)
}

/// `k` cycles after an interrupt sequence replaced an opcode fetch, the CPU
/// has run the first `k` steps of that sequence; no NMI is requested any more
/// unless a new edge came.
proof fn lemma_cpu_runs_interrupt<M: MemorySpace>(c: CpuState, m: M, k: nat)
    requires
        cpu_wf(c),
        c.instr == Instruction::FetchInstr,
        dispatched(c).0 == Instruction::StartNmi || dispatched(c).0 == Instruction::StartIrq,
        1 <= k <= 7,
        c.cycles + k <= u128::MAX,
    ensures
        ({
            let (ck, mk) = cpu_run(c, m, k);
            let i = dispatched(c).0;
            &&& ck.regs == run_steps(i, k, c.regs, m).0
            &&& mk == run_steps(i, k, c.regs, m).1
            &&& ck.cycles == c.cycles + k
            &&& !nmi_requested(ck)
            &&& ck.lines.nmi == c.lines.nmi
            &&& ck.lines.irq == c.lines.irq
            &&& k < 7 ==> ck.instr == i && ck.step == k
            &&& k == 7 ==> ck.instr == Instruction::FetchInstr && ck.step == 0
        }),
    decreases k,
{
    reveal(cpu_run);
    reveal(run_steps);
    let i = dispatched(c).0;
    if k == 1 {
        assert(cpu_run(c, m, 0) == (c, m));
        assert(run_steps(i, 0, c.regs, m) == (c.regs, m));
        lemma_all_steps_continue(i, 0, c.regs, bus_data(cycle_bus(i, 0, c.regs), m));
    } else {
        lemma_cpu_runs_interrupt(c, m, (k - 1) as nat);
        let prev = cpu_run(c, m, (k - 1) as nat);
        let j = (k - 1) as u8;
        lemma_all_steps_continue(i, j, prev.0.regs, bus_data(cycle_bus(i, j, prev.0.regs), prev.1));
        assert(dispatched(prev.0).0 == i && dispatched(prev.0).1 == j);
    }
}

/// A requested NMI is serviced at the next opcode fetch, whatever the IRQ
/// line and the I flag: that cycle and the next six run the NMI sequence.
/// PC (high byte first) and the status register are pushed on the stack, the
/// stack pointer goes down by three, interrupts are disabled and PC is loaded
/// from the NMI vector ($FFFA/$FFFB). The request is then used up: after the
/// sequence the CPU fetches an opcode and no NMI is requested until a new
/// edge arrives.
pub proof fn lemma_nmi_serviced(c: CpuState, m: BasicRam)
    requires
        cpu_wf(c),
        c.instr == Instruction::FetchInstr,
        nmi_requested(c),
        c.cycles + 7 <= u128::MAX,
    ensures
        ({
            let (c7, m7) = cpu_run(c, m, 7);
            let r = c.regs;
            &&& c7.regs.pc == make_word(m@[0xFFFB], m@[0xFFFA])
            &&& c7.regs.sp == dec8(dec8(dec8(r.sp)))
            &&& m7@[stack_address(r.sp) as int] == hi_byte(r.pc)
            &&& m7@[stack_address(dec8(r.sp)) as int] == lo_byte(r.pc)
            &&& m7@[stack_address(dec8(dec8(r.sp))) as int] == r.status
            &&& c7.regs.status == with_flags(r.status, StatusRegFlags::IRQ_DISABLE, true)
            &&& c7.regs.a == r.a && c7.regs.x == r.x && c7.regs.y == r.y
            &&& c7.instr == Instruction::FetchInstr && c7.step == 0
            &&& !nmi_requested(c7)
            &&& c7.cycles == c.cycles + 7
        }),
{
    assert(dispatched(c).0 == Instruction::StartNmi);
    lemma_cpu_runs_interrupt(c, m, 7);
    lemma_interrupt_sequence(Instruction::StartNmi, c.regs, m);
}

/// With no NMI requested, a set IRQ line is serviced at the next opcode fetch
/// when the I flag is clear: that cycle and the next six run the IRQ
/// sequence, which pushes PC (high byte first) and the status register,
/// lowers the stack pointer by three, disables interrupts and loads PC from
/// the IRQ vector ($FFFE/$FFFF). With the I flag set the opcode is fetched
/// instead (see `lemma_irq_masked`).
pub proof fn lemma_irq_serviced(c: CpuState, m: BasicRam)
    requires
        cpu_wf(c),
        c.instr == Instruction::FetchInstr,
        !nmi_requested(c),
        c.lines.irq,
        !flags_set(c.regs.status, StatusRegFlags::IRQ_DISABLE),
        c.cycles + 7 <= u128::MAX,
    ensures
        ({
            let (c7, m7) = cpu_run(c, m, 7);
            let r = c.regs;
            &&& c7.regs.pc == make_word(m@[0xFFFF], m@[0xFFFE])
            &&& c7.regs.sp == dec8(dec8(dec8(r.sp)))
            &&& m7@[stack_address(r.sp) as int] == hi_byte(r.pc)
            &&& m7@[stack_address(dec8(r.sp)) as int] == lo_byte(r.pc)
            &&& m7@[stack_address(dec8(dec8(r.sp))) as int] == r.status
            &&& c7.regs.status == with_flags(r.status, StatusRegFlags::IRQ_DISABLE, true)
            &&& c7.regs.a == r.a && c7.regs.x == r.x && c7.regs.y == r.y
            &&& c7.instr == Instruction::FetchInstr && c7.step == 0
            &&& c7.cycles == c.cycles + 7
        }),
{
    assert(dispatched(c).0 == Instruction::StartIrq);
    lemma_cpu_runs_interrupt(c, m, 7);
    lemma_interrupt_sequence(Instruction::StartIrq, c.regs, m);
}

/// A requested NMI stays requested while the CPU executes instructions:
/// releasing the NMI line does not cancel it, and it waits through every
/// cycle that is not an opcode fetch. At the first opcode fetch it is taken
/// (see `lemma_nmi_serviced`).
pub proof fn lemma_nmi_waits_for_fetch<M: MemorySpace>(c: CpuState, m: M, k: nat)
    requires
        nmi_requested(c),
        forall|j: nat| j < k ==> (#[trigger] cpu_run(c, m, j)).0.instr != Instruction::FetchInstr,
    ensures
        nmi_requested(cpu_run(c, m, k).0),
        nmi_requested(CpuState { lines: crate::cpu::interrupt::nmi_written(c.lines, false), ..c }),
    decreases k,
{
    reveal(cpu_run);
    if k > 0 {
        lemma_nmi_waits_for_fetch(c, m, (k - 1) as nat);
        let prev = cpu_run(c, m, (k - 1) as nat);
        assert(prev.0.instr != Instruction::FetchInstr);
        assert(dispatched(prev.0).2 == Some(InterruptType::NonMaskableInterrupt));
    }
}

/// The IRQ line is level-sensitive: an IRQ is not remembered. Once the line
/// is released, with no NMI requested, a cycle runs the current step (an
/// opcode fetch included) and leaves no interrupt waiting, even if an IRQ was
/// found waiting before.
pub proof fn lemma_irq_level_sensitive(c: CpuState)
    requires
        !c.lines.irq,
        !nmi_requested(c),
    ensures
        dispatched(c) == (c.instr, c.step, None::<InterruptType>),
{
}

/// Every cycle adds one to the cycle counter: `n` cycles add `n`.
pub proof fn lemma_cycles_after_runs<M: MemorySpace>(c: CpuState, m: M, n: nat)
    requires
        c.cycles + n <= u128::MAX,
    ensures
        cpu_run(c, m, n).0.cycles == c.cycles + n,
    decreases n,
{
    reveal(cpu_run);
    if n > 0 {
        lemma_cycles_after_runs(c, m, (n - 1) as nat);
    }
}

/// After a reset the cycle counter counts the runs: `n` cycles after it,
/// it reads `n`.
pub proof fn lemma_cycles_since_reset<M: MemorySpace>(c: CpuState, m: M, n: nat)
    requires
        n <= u128::MAX,
    ensures
        cpu_run(reset_state(c), m, n).0.cycles == n,
{
    lemma_cycles_after_runs(reset_state(c), m, n);
}

} // verus!
