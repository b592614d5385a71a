# cpu6502

A cycle-accurate 6502 CPU emulator library whose behaviour is stated in
Verus contracts and proved.

`Cpu::run` performs one clock cycle against a `MemorySpace`: at most one
memory access, the register updates of one step of the current instruction
sequence, interrupt polling, and the move to the next step, to the decoded
prefetched opcode or to an opcode fetch.

## Layout

- `src/alu.rs`: the arithmetic and logic operations and the flags they set,
  stated over spec functions (`adc_value`, `adc_status`, `cmp_status`, ...),
  with laws such as "SBC is ADC of the complemented operand" and "ROR undoes
  ROL".
- `src/registers/`: 8-bit and 16-bit registers, the status register, the
  register file and its views as plain values (`RegisterState`); log lines
  and debug renderings with exact contracts.
- `src/memory.rs`: the `MemorySpace` trait, described by `read_value`,
  `after_read` and `after_write` (which every implementation defines), and
  the 64 KiB RAM (`BasicRam`).
- `src/instr/cycle.rs`: what every cycle of every instruction sequence does:
  `cycle_bus` (the bus transaction) and `cycle_next` (the registers after the
  cycle and whether the instruction goes on).
- `src/instr/instr_impl.rs`: the executable steps; each one is proved to do
  exactly what `cycle.rs` states (`cycle_performed`).
- `src/instr/opcodes/`: opcode decoding, proved equal to the table of the
  documented NMOS opcodes (`opcode_table`).
- `src/instr/sequence_laws.rs`: whole sequences on a RAM: JSR/RTS, PHA/PLA,
  PHP/PLP, IRQ/NMI/BRK with RTI, the reset sequence and the indirect jump.
- `src/instr/disassemble.rs`: a log line for the instruction at an address:
  its bytes and mnemonic from the `disasm6502` crate, then the registers and
  the cycle count.
- `src/cpu/`: the interrupt lines and the CPU state machine (`cpu_next`),
  with laws on cycle counting, interrupt priority and masking, how NMI and
  IRQ requests are taken and serviced, and start-up from the reset vector.
- `src/log_buffer.rs`: the `ArrayString` buffers of the arrayvec crate that
  log lines are written into, piece by piece.
- `app/lib.rs`: a memory wrapper that owns a memory and traces every access
  with the `log` crate, and a CPU cycle that runs against it.
