# nest

A NES emulator core: the 6502 CPU (official and unofficial opcodes), its
address bus, the iNES cartridge loader and the PPU control and mask
registers, written in Verus. Every instruction is specified as a spec
function on the machine state and each executable function is proved
against it.

Layout:

- `src/mem/rom.rs` — iNES parsing (`Rom::new`), `src/mem/rom/test.rs` builds
  cartridges for small programs.
- `src/proc/bus.rs` — RAM (mirrored every 2 KiB), PRG ROM window, cycle
  counter, pending NMI. The PPU registers (0x2000..=0x3FFF) are not
  emulated: no read or write may reach them, and `step`/`run` require that
  the program does not (`step_mapped`, `run_mapped`).
- `src/proc/op.rs` — the opcode table.
- `src/proc/semantics.rs` — what each instruction does, as spec functions;
  `step_spec` and `run_spec` describe a step and a run.
- `src/proc/instructions.rs`, `src/proc/mod.rs` — the executable CPU.
- `src/proc/laws.rs` — properties across instructions (stack round trips,
  PHP/PLP, ADC arithmetic, JSR/RTS, interrupts and RTI, branches, `load`).
- `src/visuals/regs` — PPUCTRL and PPUMASK.
- `app/` — the SDL window and the keyboard map.
