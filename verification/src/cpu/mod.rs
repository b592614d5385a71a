//! The 6502 CPU core: the processor state machine and its interrupt handling.

pub mod cpu_laws;
mod cpu_impl;
pub mod interrupt;

pub use cpu_impl::{
    cpu_next, cpu_run, cpu_wf, dispatched, lemma_cpu_follows_sequence, lemma_cycle_counts,
    lemma_interrupts_between_instructions, lemma_irq_masked, lemma_irq_taken, lemma_nmi_taken,
    lemma_reset_starts_program, reset_state, runs_all_steps, Cpu, CpuState,
};
