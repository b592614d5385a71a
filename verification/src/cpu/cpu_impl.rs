//! The CPU: the register file, the interrupt lines and the instruction
//! sequencer that runs one clock cycle per call of `Cpu::run`.
use crate::cpu::interrupt::{
    interrupt_to_service, waiting_interrupt, InterruptLines, InterruptType, Interrupts,
};
use crate::instr::cycle::{
    apply_bus, bus_data, cycle_bus, cycle_next, cycle_performed, num_steps, op_bus, run_steps, BusCycle,
    ClockEndStatus,
};
use crate::instr::instr_impl;
use crate::instr::opcodes::{decode, opcode_table};
use crate::instr::{Instruction, RegisterMemoryOperation};
use crate::log_buffer::{fitting_text, log_buffer_chars, log_buffer_len};
use crate::memory::{BasicRam, MemorySpace};
use arrayvec::ArrayString;
use crate::registers::register_file::log_pieces;
use crate::registers::{flags_set, log_line, make_word, RegisterFile, RegisterState, StatusRegFlags};
use vstd::prelude::*;

verus! {

/// The state of the CPU, as plain values.
pub struct CpuState {
    /// The registers.
    pub regs: RegisterState,
    /// The interrupt lines.
    pub lines: InterruptLines,
    /// The interrupt found waiting at the last cycle and not yet started.
    pub waiting_interrupt: Option<InterruptType>,
    /// The instruction sequence being executed.
    pub instr: Instruction,
    /// The step of that sequence that the next cycle performs.
    pub step: u8,
    /// Cycles run since the last reset.
    pub cycles: u128,
    /// Instructions completed since the last reset.
    pub instrs: u128,
    /// Where the opcode fetched during the last cycle came from, when the
    /// last cycle fetched one while completing an instruction.
    pub fetched_instr_addr: Option<u16>,
}

/// A cycle-accurate 6502 CPU.
///
/// Each call of `run` performs one clock cycle: at most one memory access.
/// Interrupt requests are taken between instructions, an NMI before an IRQ.
#[derive(Debug)]
pub struct Cpu {
    regs: RegisterFile,
    pins: Interrupts,
    waiting_interrupt: Option<InterruptType>,
    current_instruction: Instruction,
    current_instruction_step: u8,
    cycle_count_since_reset: u128,
    instr_count_since_reset: u128,
    fetched_instr_addr: Option<u16>,
}

impl View for Cpu {
    type V = CpuState;

    closed spec fn view(&self) -> CpuState {
        CpuState {
            regs: self.regs@,
            lines: self.pins@,
            waiting_interrupt: self.waiting_interrupt,
            instr: self.current_instruction,
            step: self.current_instruction_step,
            cycles: self.cycle_count_since_reset,
            instrs: self.instr_count_since_reset,
            fetched_instr_addr: self.fetched_instr_addr,
        }
    }
}

/// What every CPU state satisfies: the step lies within the current
/// sequence, and no more instructions than cycles were counted.
pub open spec fn cpu_wf(c: CpuState) -> bool {
    &&& c.step < num_steps(c.instr)
    &&& c.instrs <= c.cycles
}

/// The instruction, the step and the waiting interrupt with which a cycle
/// runs: the interrupt lines are polled and, between instructions (when the
/// next step is an opcode fetch), a waiting NMI or IRQ replaces the fetch by
/// its interrupt sequence.
pub open spec fn dispatched(c: CpuState) -> (Instruction, u8, Option<InterruptType>) {
    let w = interrupt_to_service(
        c.waiting_interrupt,
        c.lines.nmi_pending,
        c.lines.irq,
        flags_set(c.regs.status, StatusRegFlags::IRQ_DISABLE),
    );
    match w {
        Some(t) => if c.instr == Instruction::FetchInstr {
            (
                if t == InterruptType::NonMaskableInterrupt {
                    Instruction::StartNmi
                } else {
                    Instruction::StartIrq
                },
                0,
                None,
            )
        } else {
            (c.instr, c.step, w)
        },
        None => (c.instr, c.step, None),
    }
}

/// The CPU state and the memory after one clock cycle.
pub open spec fn cpu_next<M: MemorySpace>(c: CpuState, m: M) -> (CpuState, M) {
    let (i, s, w) = dispatched(c);
    let bus = cycle_bus(i, s, c.regs);
    let (r, st) = cycle_next(i, s, c.regs, bus_data(bus, m));
    let lines = InterruptLines { nmi_pending: false, ..c.lines };
    let cycles = (c.cycles + 1) as u128;
    let c1 = match st {
        ClockEndStatus::Continue => CpuState {
            regs: r,
            lines,
            waiting_interrupt: w,
            instr: i,
            step: (s + 1) as u8,
            cycles,
            instrs: c.instrs,
            fetched_instr_addr: None,
        },
        ClockEndStatus::EndInstructionNextFetched { opcode_addr } => CpuState {
            regs: r,
            lines,
            waiting_interrupt: w,
            instr: opcode_table(r.ir),
            step: 0,
            cycles,
            instrs: (c.instrs + 1) as u128,
            fetched_instr_addr: Some(opcode_addr),
        },
        ClockEndStatus::EndInstruction => CpuState {
            regs: r,
            lines,
            waiting_interrupt: w,
            instr: Instruction::FetchInstr,
            step: 0,
            cycles,
            instrs: (c.instrs + 1) as u128,
            fetched_instr_addr: None,
        },
    };
    (c1, apply_bus(bus, m))
}

/// The state after a reset: registers reset, lines released, the reset
/// sequence about to run, counters cleared.
pub open spec fn reset_state(c: CpuState) -> CpuState {
    CpuState {
        regs: RegisterState {
            a: 0,
            x: 0,
            y: 0,
            sp: 0,
            pc: 0,
            status: 0x24,
            ir: 0,
            tmp: c.regs.tmp,
            addr: 0x00FF,
        },
        lines: InterruptLines { irq: false, nmi: false, nmi_pending: false },
        waiting_interrupt: None,
        instr: Instruction::Reset,
        step: 0,
        cycles: 0,
        instrs: 0,
        fetched_instr_addr: None,
    }
}

/// Whether a register-memory operation writes a register to memory.
fn is_store(op: RegisterMemoryOperation) -> (r: bool)
    ensures
        forall|regs: RegisterState| #[trigger] op_bus(op, regs) is Write <==> r,
{
    matches!(
        op,
        RegisterMemoryOperation::StoreA | RegisterMemoryOperation::StoreX
            | RegisterMemoryOperation::StoreY
    )
}

/// Whether the cycle of `instr` at `step` with registers `regs` writes to memory.
fn write_cycle_query(instr: Instruction, step: u8, regs: &RegisterFile) -> (r: bool)
    requires
        step < num_steps(instr),
    ensures
        r == (cycle_bus(instr, step, regs@) is Write),
{
    match instr {
        Instruction::FetchInstr => false,
        Instruction::Break => 1 <= step && step <= 3,
        Instruction::StartIrq | Instruction::StartNmi => 2 <= step && step <= 4,
        Instruction::Reset => step == 3,
        Instruction::ReturnInterrupt => false,
        Instruction::JumpSubroutine => step == 2 || step == 3,
        Instruction::ReturnSubroutine => false,
        Instruction::Push(_) => step == 1,
        Instruction::Pull(_) => false,
        Instruction::Implied(_) => false,
        Instruction::Immediate(op) => is_store(op),
        Instruction::AbsoluteJump => false,
        Instruction::Absolute(op) => step == 2 && is_store(op),
        Instruction::AbsoluteReadModifyWrite(_) => step >= 3,
        Instruction::ZeroPage(op) => step == 1 && is_store(op),
        Instruction::ZeroPageReadModifyWrite(_) => step >= 2,
        Instruction::ZeroPageIdx(op, _) => step == 2 && is_store(op),
        Instruction::ZeroPageIdxReadModifyWrite(_, _) => step >= 3,
        Instruction::AbsoluteIdxRead(op, idx) => {
            if step < 2 {
                false
            } else if step == 2 {
                let index = regs.index_register_u8(idx);
                let low = regs.addr.low_u8().wrapping_add(index);
                index <= low && is_store(op)
            } else {
                is_store(op)
            }
        },
        Instruction::AbsoluteIdxReadModifyWrite(_, _) => step >= 4,
        Instruction::AbsoluteIdxWrite(op, _) => step == 3 && is_store(op),
        Instruction::Relative(_) => false,
        Instruction::ZeroPageIdxIndirect(op, _) => step == 4 && is_store(op),
        Instruction::ZeroPageIdxIndirectReadModifyWrite(_, _) => step >= 5,
        Instruction::ZeroPageIndirectIdxRead(op, idx) => {
            if step < 3 {
                false
            } else if step == 3 {
                let index = regs.index_register_u8(idx);
                index <= regs.addr.low_u8() && is_store(op)
            } else {
                is_store(op)
            }
        },
        Instruction::ZeroPageIndirectIdxReadModifyWrite(_, _) => step >= 5,
        Instruction::ZeroPageIndirectIdxWrite(op, _) => step == 4 && is_store(op),
        Instruction::AbsoluteIndirectJump => false,
    }
}

impl Default for Cpu {
    /// A CPU with all registers and counters zero, the lines released, and an
    /// opcode fetch as the next step (not reset: see `Cpu::new`).
    fn default() -> (r: Self)
        ensures
            r@ == (CpuState {
                regs: RegisterState { a: 0, x: 0, y: 0, sp: 0, pc: 0, status: 0, ir: 0, tmp: 0, addr: 0 },
                lines: InterruptLines { irq: false, nmi: false, nmi_pending: false },
                waiting_interrupt: None,
                instr: Instruction::FetchInstr,
                step: 0,
                cycles: 0,
                instrs: 0,
                fetched_instr_addr: None,
            }),
    {
        Cpu {
            regs: RegisterFile::default(),
            pins: Interrupts::default(),
            waiting_interrupt: None,
            current_instruction: Instruction::default(),
            current_instruction_step: 0,
            cycle_count_since_reset: 0,
            instr_count_since_reset: 0,
            fetched_instr_addr: None,
        }
    }
}

impl Cpu {
    #[verifier::type_invariant]
    closed spec fn inv(self) -> bool {
        cpu_wf(self@)
    }

    /// A CPU in its reset state: the first cycles run the reset sequence,
    /// which loads PC from the reset vector ($FFFC/$FFFD).
    pub fn new() -> (r: Self)
        ensures
            r@ == reset_state(r@),
            r@.regs.tmp == 0,
    {
        let mut cpu = Self::default();
        cpu.reset();
        cpu
    }

    /// Resets the CPU: registers reset, interrupt lines released, the reset
    /// sequence as the next instruction, counters cleared.
    pub fn reset(&mut self)
        ensures
            final(self)@ == reset_state(old(self)@),
    {
        proof {
            use_type_invariant(&*self);
        }
        let mut regs = self.regs;
        regs.reset();
        self.regs = regs;
        let mut pins = self.pins;
        pins.reset();
        self.pins = pins;

        self.waiting_interrupt = None;
        self.current_instruction_step = 0;
        self.current_instruction = Instruction::Reset;

        self.instr_count_since_reset = 0;
        self.cycle_count_since_reset = 0;

        self.fetched_instr_addr = None;
    }

    /// Runs one clock cycle against `memory`.
    pub fn run<M: MemorySpace>(&mut self, memory: &mut M)
        requires
            old(self)@.cycles < u128::MAX,
        ensures
            (final(self)@, *final(memory)) == cpu_next(old(self)@, *old(memory)),
    {
        self.run_inner(memory);
    }

    /// Cycles run since the last reset.
    pub fn cycle_count_since_reset(&self) -> (r: u128)
        ensures
            r == self@.cycles,
    {
        self.cycle_count_since_reset
    }

    /// Instructions completed since the last reset.
    pub fn instr_count_since_reset(&self) -> (r: u128)
        ensures
            r == self@.instrs,
    {
        self.instr_count_since_reset
    }

    /// Sets the NMI line (a rising edge requests an NMI).
    pub fn set_nmi_pin(&mut self)
        ensures
            final(self)@ == (CpuState { lines: crate::cpu::interrupt::nmi_written(old(self)@.lines, true), ..old(self)@ }),
    {
        proof {
            use_type_invariant(&*self);
        }
        let mut pins = self.pins;
        pins.set_nmi_input();
        self.pins = pins;
    }

    /// Sets the NMI line to `value` (a rising edge requests an NMI).
    pub fn set_nmi_pin_value(&mut self, value: bool)
        ensures
            final(self)@ == (CpuState { lines: crate::cpu::interrupt::nmi_written(old(self)@.lines, value), ..old(self)@ }),
    {
        proof {
            use_type_invariant(&*self);
        }
        let mut pins = self.pins;
        pins.set_nmi_input_value(value);
        self.pins = pins;
    }

    /// Releases the NMI line; a requested NMI stays requested.
    pub fn clear_nmi_pin(&mut self)
        ensures
            final(self)@ == (CpuState { lines: crate::cpu::interrupt::nmi_written(old(self)@.lines, false), ..old(self)@ }),
    {
        proof {
            use_type_invariant(&*self);
        }
        let mut pins = self.pins;
        pins.clear_nmi_input();
        self.pins = pins;
    }

    /// Sets the IRQ line.
    pub fn set_irq_pin(&mut self)
        ensures
            final(self)@ == (CpuState { lines: InterruptLines { irq: true, ..old(self)@.lines }, ..old(self)@ }),
    {
        proof {
            use_type_invariant(&*self);
        }
        let mut pins = self.pins;
        pins.set_irq_input();
        self.pins = pins;
    }

    /// Sets the IRQ line to `value`.
    pub fn set_irq_pin_value(&mut self, value: bool)
        ensures
            final(self)@ == (CpuState { lines: InterruptLines { irq: value, ..old(self)@.lines }, ..old(self)@ }),
    {
        proof {
            use_type_invariant(&*self);
        }
        let mut pins = self.pins;
        pins.set_irq_input_value(value);
        self.pins = pins;
    }

    /// Releases the IRQ line.
    pub fn clear_irq_pin(&mut self)
        ensures
            final(self)@ == (CpuState { lines: InterruptLines { irq: false, ..old(self)@.lines }, ..old(self)@ }),
    {
        proof {
            use_type_invariant(&*self);
        }
        let mut pins = self.pins;
        pins.clear_irq_input();
        self.pins = pins;
    }

    /// Whether the cycle that the next `run` performs writes to memory (when no
    /// interrupt replaces the step, which is always an opcode fetch).
    pub fn is_current_cycle_write(&self) -> (r: bool)
        ensures
            r == (cycle_bus(self@.instr, self@.step, self@.regs) is Write),
    {
        proof {
            use_type_invariant(self);
        }
        write_cycle_query(self.current_instruction, self.current_instruction_step, &self.regs)
    }

    /// Where the opcode fetched by the last cycle came from, when that cycle
    /// completed an instruction and fetched the next opcode.
    pub fn fetched_instr_addr(&self) -> (r: Option<u16>)
        ensures
            r == self@.fetched_instr_addr,
    {
        self.fetched_instr_addr
    }

    /// Appends the log line of the main registers to `dst` (see
    /// `RegisterFile::as_log_line`).
    pub fn regs_as_log_line(&self, dst: &mut ArrayString<32>) -> (r: core::fmt::Result)
        ensures
            log_buffer_len(*old(dst)) <= 32,
            r is Ok <==> log_buffer_len(*old(dst)) + 27 <= 32,
            r is Ok ==> log_buffer_chars(*final(dst)) == log_buffer_chars(*old(dst)) + log_line(
                self@.regs,
            ),
            log_buffer_chars(*final(dst)) == log_buffer_chars(*old(dst)) + fitting_text(
                32 - log_buffer_len(*old(dst)),
                log_pieces(self@.regs),
            ),
    {
        self.regs.as_log_line(dst)
    }

    /// The registers.
    pub fn regs(&self) -> (r: RegisterFile)
        ensures
            r@ == self@.regs,
    {
        self.regs
    }

    /// Replaces the registers.
    pub fn set_regs(&mut self, regs: RegisterFile)
        ensures
            final(self)@ == (CpuState { regs: regs@, ..old(self)@ }),
    {
        proof {
            use_type_invariant(&*self);
        }
        self.regs = regs;
    }

    /// The instruction sequence being executed.
    pub fn current_instruction(&self) -> (r: Instruction)
        ensures
            r == self@.instr,
    {
        self.current_instruction
    }

    /// The step of the current sequence that the next cycle performs.
    pub fn current_instruction_step(&self) -> (r: u8)
        ensures
            r == self@.step,
    {
        self.current_instruction_step
    }

    /// The interrupt found waiting at the last cycle and not yet started.
    pub fn waiting_interrupt(&self) -> (r: Option<InterruptType>)
        ensures
            r == self@.waiting_interrupt,
    {
        self.waiting_interrupt
    }

    /// Makes `instr` the current instruction, from its first step.
    pub fn set_current_instruction(&mut self, instr: Instruction)
        ensures
            final(self)@ == (CpuState { instr, step: 0, ..old(self)@ }),
    {
        proof {
            use_type_invariant(&*self);
        }
        self.current_instruction_step = 0;
        self.current_instruction = instr;
    }

    /// One clock cycle: polls the interrupt lines, starts a waiting interrupt
    /// between instructions, runs one step of the current sequence, then
    /// moves to the next step, to the decoded prefetched opcode or to an
    /// opcode fetch.
    fn run_inner<M: MemorySpace>(&mut self, memory: &mut M)
        requires
            old(self)@.cycles < u128::MAX,
        ensures
            (final(self)@, *final(memory)) == cpu_next(old(self)@, *old(memory)),
    {
        proof {
            use_type_invariant(&*self);
        }
        self.fetched_instr_addr = None;

        let mut pins = self.pins;
        self.waiting_interrupt = waiting_interrupt(
            self.waiting_interrupt,
            &mut pins,
            self.regs.status.irq_disable(),
        );
        self.pins = pins;

        if let Some(interrupt) = self.waiting_interrupt {
            if self.current_instruction == Instruction::FetchInstr {
                self.current_instruction_step = 0;
                if interrupt == InterruptType::NonMaskableInterrupt {
                    self.current_instruction = Instruction::StartNmi;
                } else {
                    self.current_instruction = Instruction::StartIrq;
                }
                self.waiting_interrupt = None;
            }
        }

        let ghost r0 = self.regs@;
        let ghost m0 = *memory;
        let ghost i = self.current_instruction;
        let ghost s = self.current_instruction_step;
        let mut regs = self.regs;
        let status = instr_impl::execute(
            self.current_instruction,
            self.current_instruction_step,
            &mut regs,
            memory,
        );
        self.regs = regs;
        proof {
            reveal(cycle_performed);
            crate::instr::cycle::lemma_continue_within_sequence(
                i,
                s,
                r0,
                bus_data(cycle_bus(i, s, r0), m0),
            );
        }

        self.cycle_count_since_reset += 1;

        match status {
            ClockEndStatus::Continue => {
                self.current_instruction_step += 1;
            },
            ClockEndStatus::EndInstructionNextFetched { opcode_addr } => {
                self.fetched_instr_addr = Some(opcode_addr);

                let opcode = self.regs.ir.to_u8();
                self.current_instruction_step = 0;
                self.current_instruction = decode(opcode);

                self.instr_count_since_reset += 1;
            },
            ClockEndStatus::EndInstruction => {
                self.current_instruction_step = 0;
                self.current_instruction = Instruction::FetchInstr;

                self.instr_count_since_reset += 1;
            },
        }
    }
}

} // verus!

verus! {

/// Every instruction sequence has at least one step.
proof fn lemma_num_steps_positive(i: Instruction)
    ensures
        num_steps(i) >= 1,
{
}

/// One cycle keeps the CPU state well formed, counts one cycle, and counts
/// one instruction exactly when the current one ended (the next step is the
/// first of a sequence).
pub proof fn lemma_cycle_counts<M: MemorySpace>(c: CpuState, m: M)
    requires
        cpu_wf(c),
        c.cycles < u128::MAX,
    ensures
        cpu_wf(cpu_next(c, m).0),
        cpu_next(c, m).0.cycles == c.cycles + 1,
        cpu_next(c, m).0.instrs == c.instrs || cpu_next(c, m).0.instrs == c.instrs + 1,
        cpu_next(c, m).0.instrs == c.instrs + 1 <==> cpu_next(c, m).0.step == 0,
{
    let (i, s, w) = dispatched(c);
    let bus = cycle_bus(i, s, c.regs);
    let d = bus_data(bus, m);
    crate::instr::cycle::lemma_continue_within_sequence(i, s, c.regs, d);
    lemma_num_steps_positive(opcode_table(cycle_next(i, s, c.regs, d).0.ir));
}

/// Interrupts are started only between instructions: a cycle runs another
/// sequence than the current one only in place of an opcode fetch, and then
/// runs the first step of an interrupt sequence.
pub proof fn lemma_interrupts_between_instructions(c: CpuState)
    requires
        cpu_wf(c),
    ensures
        dispatched(c).0 != c.instr ==> c.instr == Instruction::FetchInstr && dispatched(c).1 == 0
            && (dispatched(c).0 == Instruction::StartIrq || dispatched(c).0
            == Instruction::StartNmi),
        dispatched(c).0 == c.instr ==> dispatched(c).1 == c.step,
{
}

/// At an opcode fetch, a pending NMI or one found waiting starts the NMI
/// sequence, whatever the IRQ line and the I flag.
pub proof fn lemma_nmi_taken(c: CpuState)
    requires
        c.instr == Instruction::FetchInstr,
        c.lines.nmi_pending || c.waiting_interrupt == Some(InterruptType::NonMaskableInterrupt),
    ensures
        dispatched(c).0 == Instruction::StartNmi,
        dispatched(c).2 is None,
{
}

/// At an opcode fetch, with no NMI pending or waiting, a set IRQ line starts
/// the IRQ sequence exactly when the I flag is clear.
pub proof fn lemma_irq_taken(c: CpuState)
    requires
        c.instr == Instruction::FetchInstr,
        !c.lines.nmi_pending,
        c.waiting_interrupt != Some(InterruptType::NonMaskableInterrupt),
    ensures
        dispatched(c).0 == Instruction::StartIrq <==> c.lines.irq && !flags_set(
            c.regs.status,
            StatusRegFlags::IRQ_DISABLE,
        ),
        dispatched(c).0 != Instruction::StartIrq ==> dispatched(c).0 == c.instr,
{
}

/// With the I flag set and no NMI pending or waiting, no interrupt is
/// started and none is left waiting.
pub proof fn lemma_irq_masked(c: CpuState)
    requires
        flags_set(c.regs.status, StatusRegFlags::IRQ_DISABLE),
        !c.lines.nmi_pending,
        c.waiting_interrupt != Some(InterruptType::NonMaskableInterrupt),
    ensures
        dispatched(c) == (c.instr, c.step, None::<InterruptType>),
{
}

} // verus!

verus! {

/// The CPU state and the memory after `n` clock cycles.
#[verifier::opaque]
pub open spec fn cpu_run<M: MemorySpace>(c: CpuState, m: M, n: nat) -> (CpuState, M)
    decreases n,
{
    if n == 0 {
        (c, m)
    } else {
        let p = cpu_run(c, m, (n - 1) as nat);
        cpu_next(p.0, p.1)
    }
}

/// After a reset the first six cycles run the reset sequence: the CPU then
/// fetches the first opcode of the program from the address held by the
/// reset vector ($FFFC/$FFFD), with the stack pointer at $FD.
pub proof fn lemma_reset_starts_program(c: CpuState, m: BasicRam)
    requires
        c == reset_state(c),
    ensures
        ({
            let (c6, m6) = cpu_run(c, m, 6);
            &&& c6.instr == Instruction::FetchInstr
            &&& c6.step == 0
            &&& c6.regs.pc == make_word(m@[0xFFFD], m@[0xFFFC])
            &&& c6.regs.sp == 0xFD
            &&& c6.cycles == 6
            &&& c6.instrs == 1
        }),
{
    reveal(cpu_run);
    reveal_with_fuel(cpu_run, 7);
}

} // verus!

verus! {

/// The sequences that always run all their steps: the stack, subroutine,
/// interrupt, reset and indirect-jump sequences.
pub open spec fn runs_all_steps(i: Instruction) -> bool {
    i is Break || i is StartIrq || i is StartNmi || i is Reset || i is ReturnInterrupt
        || i is JumpSubroutine || i is ReturnSubroutine || i is Push || i is Pull
        || i is AbsoluteIndirectJump
}

/// Every step but the last of such a sequence asks for another cycle, and the
/// last one ends the instruction.
pub(crate) proof fn lemma_all_steps_continue(i: Instruction, j: u8, r: RegisterState, d: u8)
    requires
        runs_all_steps(i),
        j < num_steps(i),
    ensures
        j + 1 < num_steps(i) ==> cycle_next(i, j, r, d).1 is Continue,
        j + 1 == num_steps(i) ==> cycle_next(i, j, r, d).1 == ClockEndStatus::EndInstruction,
{
}

/// Once the CPU has started one of these sequences, its next cycles run the
/// sequence's steps one after the other, as `run_steps` states, whatever the
/// interrupt lines do; after the last step an opcode fetch follows.
pub proof fn lemma_cpu_follows_sequence<M: MemorySpace>(c: CpuState, m: M, k: nat)
    requires
        cpu_wf(c),
        runs_all_steps(c.instr),
        c.step == 0,
        k <= num_steps(c.instr),
        c.cycles + k <= u128::MAX,
    ensures
        cpu_run(c, m, k).0.regs == run_steps(c.instr, k, c.regs, m).0,
        cpu_run(c, m, k).1 == run_steps(c.instr, k, c.regs, m).1,
        cpu_run(c, m, k).0.cycles == c.cycles + k,
        k < num_steps(c.instr) ==> cpu_run(c, m, k).0.instr == c.instr && cpu_run(c, m, k).0.step
            == k,
        k == num_steps(c.instr) ==> cpu_run(c, m, k).0.instr == Instruction::FetchInstr
            && cpu_run(c, m, k).0.step == 0,
    decreases k,
{
    reveal(cpu_run);
    reveal(run_steps);
    if k > 0 {
        lemma_cpu_follows_sequence(c, m, (k - 1) as nat);
        let prev = cpu_run(c, m, (k - 1) as nat);
        let j = (k - 1) as u8;
        let bus = cycle_bus(c.instr, j, prev.0.regs);
        lemma_all_steps_continue(c.instr, j, prev.0.regs, bus_data(bus, prev.1));
        assert(dispatched(prev.0).0 == c.instr && dispatched(prev.0).1 == j);
    }
}

} // verus!
