pub mod regs;
