//! What each instruction does to the machine state, as spec functions.
use vstd::prelude::*;

use super::addressing::{AddressingMode, is_memory_mode};
use super::bus::{Bus, mapped, word_mapped};
use super::flags::{StatusFlags, has_bits, with_bits};
use super::interrupt::{Interrupt, nmi_spec};
use super::op::{Mnemonic, OpCode, is_branch, opcode_spec};
use super::{CPU, LOAD_ADDRESS, RESET_VECTOR, STACK, STACK_RESET, STATUS_RESET, word, wrap16, wrap8};

verus! {

/// The two addresses lie on different 256-byte pages.
pub open spec fn page_crossed(a: u16, b: u16) -> bool {
    a / 256 != b / 256
}

/// The byte `b` read as a two's-complement number.
pub open spec fn signed(b: u8) -> int {
    if b < 128 {
        b as int
    } else {
        b - 256
    }
}

/// How an instruction ended.
#[derive(Clone, Copy, Debug, PartialEq, Eq, Structural)]
pub enum StepOutcome {
    /// The instruction ran; the program goes on.
    Continue,
    /// BRK: the program is over.
    Break,
}

impl CPU {
    pub open spec fn wf(self) -> bool {
        self.bus.wf()
    }

    pub open spec fn read(self, addr: u16) -> u8 {
        self.bus.read_spec(addr)
    }

    pub open spec fn read_u16(self, addr: u16) -> u16 {
        word(self.read(addr), self.read(wrap16(addr + 1)))
    }

    pub open spec fn write(self, addr: u16, data: u8) -> CPU {
        CPU { bus: self.bus.write_spec(addr, data), ..self }
    }

    pub open spec fn ticked(self, cycles: u8) -> CPU {
        CPU { bus: self.bus.tick_spec(cycles), ..self }
    }

    /// One extra cycle when `cond` holds (a page was crossed).
    pub open spec fn ticked_if(self, cond: bool) -> CPU {
        if cond {
            self.ticked(1)
        } else {
            self
        }
    }

    pub open spec fn flag(self, mask: u8) -> bool {
        has_bits(self.status.bits, mask)
    }

    pub open spec fn with_flag(self, mask: u8, on: bool) -> CPU {
        CPU { status: StatusFlags { bits: with_bits(self.status.bits, mask, on) }, ..self }
    }

    pub open spec fn with_status(self, bits: u8) -> CPU {
        CPU { status: StatusFlags { bits }, ..self }
    }

    pub open spec fn with_pc(self, pc: u16) -> CPU {
        CPU { program_counter: pc, ..self }
    }

    /// Z tells whether `v` is zero, N copies bit 7 of `v`.
    pub open spec fn with_zn(self, v: u8) -> CPU {
        self.with_flag(StatusFlags::ZERO, v == 0).with_flag(StatusFlags::NEGATIV, v >= 128)
    }

    /// Only N is updated from `v`.
    pub open spec fn with_n(self, v: u8) -> CPU {
        self.with_flag(StatusFlags::NEGATIV, v >= 128)
    }

    pub open spec fn with_a(self, v: u8) -> CPU {
        CPU { register_a: v, ..self }.with_zn(v)
    }

    pub open spec fn with_x(self, v: u8) -> CPU {
        CPU { register_x: v, ..self }.with_zn(v)
    }

    pub open spec fn with_y(self, v: u8) -> CPU {
        CPU { register_y: v, ..self }.with_zn(v)
    }

    pub open spec fn carry_in(self) -> int {
        if self.flag(StatusFlags::CARRY) {
            1
        } else {
            0
        }
    }

    // ---- addressing ----
    /// The effective address that `mode` computes from the operand bytes at
    /// `addr`, and whether indexing crossed a page.
    #[verifier::opaque]
    pub open spec fn absolute_address(self, mode: AddressingMode, addr: u16) -> (u16, bool) {
        match mode {
            AddressingMode::ZeroPage => (self.read(addr) as u16, false),
            AddressingMode::Absolute => (self.read_u16(addr), false),
            AddressingMode::ZeroPageX => (wrap8(self.read(addr) + self.register_x) as u16, false),
            AddressingMode::ZeroPageY => (wrap8(self.read(addr) + self.register_y) as u16, false),
            AddressingMode::AbsoluteX => {
                let base = self.read_u16(addr);
                let a = wrap16(base + self.register_x);
                (a, page_crossed(base, a))
            },
            AddressingMode::AbsoluteY => {
                let base = self.read_u16(addr);
                let a = wrap16(base + self.register_y);
                (a, page_crossed(base, a))
            },
            AddressingMode::IndirectX => {
                let ptr = wrap8(self.read(addr) + self.register_x);
                (word(self.read(ptr as u16), self.read(wrap8(ptr + 1) as u16)), false)
            },
            AddressingMode::IndirectY => {
                let base = self.read(addr);
                let deref_base = word(self.read(base as u16), self.read(wrap8(base + 1) as u16));
                let deref = wrap16(deref_base + self.register_y);
                (deref, page_crossed(deref_base, deref))
            },
            _ => (0, false),
        }
    }

    /// The operand address of the instruction whose operand bytes start at
    /// the program counter.
    #[verifier::opaque]
    pub open spec fn operand_address(self, mode: AddressingMode) -> (u16, bool) {
        match mode {
            AddressingMode::Immediate => (self.program_counter, false),
            _ => self.absolute_address(mode, self.program_counter),
        }
    }

    pub open spec fn operand(self, mode: AddressingMode) -> u8 {
        self.read(self.operand_address(mode).0)
    }

    pub open spec fn crossed(self, mode: AddressingMode) -> bool {
        self.operand_address(mode).1
    }

    // ---- which addresses an instruction reaches ----
    /// The operand bytes at `addr` that `mode` reads to find its address are
    /// mapped (zero page pointers always are).
    pub open spec fn address_bytes_mapped(mode: AddressingMode, addr: u16) -> bool {
        match mode {
            AddressingMode::Absolute | AddressingMode::AbsoluteX | AddressingMode::AbsoluteY => word_mapped(addr),
            _ => mapped(addr),
        }
    }

    /// Finding the operand of `mode` reads only mapped bytes.
    pub open spec fn operand_address_mapped(self, mode: AddressingMode) -> bool {
        mode != AddressingMode::Immediate ==> CPU::address_bytes_mapped(mode, self.program_counter)
    }

    /// Finding the operand of `mode`, and the operand itself, are mapped.
    pub open spec fn operand_mapped(self, mode: AddressingMode) -> bool {
        self.operand_address_mapped(mode) && mapped(self.operand_address(mode).0)
    }

    /// The absolute,index target of TAS, AHX, SHX and SHY, read at `pos`.
    pub open spec fn indexed_target_spec(self, pos: u16, index: u8) -> u16 {
        wrap16(self.read_u16(pos) + index)
    }

    /// The branch `m` is taken: its condition on the flags holds.
    pub open spec fn branch_taken(self, m: Mnemonic) -> bool {
        match m {
            Mnemonic::BNE => !self.flag(StatusFlags::ZERO),
            Mnemonic::BVS => self.flag(StatusFlags::OVERFLOW),
            Mnemonic::BVC => !self.flag(StatusFlags::OVERFLOW),
            Mnemonic::BPL => !self.flag(StatusFlags::NEGATIV),
            Mnemonic::BMI => self.flag(StatusFlags::NEGATIV),
            Mnemonic::BEQ => self.flag(StatusFlags::ZERO),
            Mnemonic::BCS => self.flag(StatusFlags::CARRY),
            _ => !self.flag(StatusFlags::CARRY),
        }
    }

    /// Every address that `op` reads or writes, once fetched, is mapped; a
    /// branch reads its offset only when taken.
    pub open spec fn exec_mapped(self, op: OpCode) -> bool {
        let m = op.mnemonic;
        let mode = op.mode;
        let pc = self.program_counter;
        if is_branch(m) {
            self.branch_taken(m) ==> mapped(pc)
        } else if m == Mnemonic::JMP || m == Mnemonic::JSR {
            word_mapped(pc)
        } else if m == Mnemonic::JMPI {
            let ptr = self.read_u16(pc);
            word_mapped(pc) && if ptr % 256 == 0xFF {
                mapped(ptr) && mapped((ptr - 0xFF) as u16)
            } else {
                word_mapped(ptr)
            }
        } else if m == Mnemonic::TAS || m == Mnemonic::SHX {
            word_mapped(pc) && mapped(self.indexed_target_spec(pc, self.register_y))
        } else if m == Mnemonic::SHY {
            word_mapped(pc) && mapped(self.indexed_target_spec(pc, self.register_x))
        } else if m == Mnemonic::AHX {
            if mode == AddressingMode::IndirectY {
                mapped(pc) && mapped(self.indexed_target_spec(self.read(pc) as u16, self.register_y))
            } else {
                word_mapped(pc) && mapped(self.indexed_target_spec(pc, self.register_y))
            }
        } else if m == Mnemonic::NOP && mode == AddressingMode::Immediate {
            // the two-byte NOPs of the 0x?2 column read their operand, the
            // others (SKB) skip it
            (op.code % 16 == 2 && op.code != 0x82 && op.code != 0xc2 && op.code != 0xe2) ==> mapped(pc)
        } else if mode != AddressingMode::NoneAddressing {
            self.operand_mapped(mode)
        } else {
            true
        }
    }

    /// The next instruction reads and writes only mapped addresses, its
    /// opcode included.
    pub open spec fn step_mapped(self) -> bool {
        let pc = self.program_counter;
        mapped(pc) && self.with_pc(wrap16(pc + 1)).exec_mapped(opcode_spec(self.read(pc)))
    }

    // ---- stack ----
    pub open spec fn pushed(self, data: u8) -> CPU {
        CPU { sp: wrap8(self.sp - 1), ..self.write((STACK + self.sp) as u16, data) }
    }

    pub open spec fn popped(self) -> (CPU, u8) {
        let sp = wrap8(self.sp + 1);
        (CPU { sp, ..self }, self.read((STACK + sp) as u16))
    }

    /// High byte first, so that the low byte ends on top.
    pub open spec fn pushed_u16(self, data: u16) -> CPU {
        self.pushed((data / 256) as u8).pushed((data % 256) as u8)
    }

    pub open spec fn popped_u16(self) -> (CPU, u16) {
        let (s1, lo) = self.popped();
        let (s2, hi) = s1.popped();
        (s2, word(lo, hi))
    }

    // ---- loads, stores, transfers ----
    #[verifier::opaque]
    pub open spec fn lda_spec(self, mode: AddressingMode) -> CPU {
        self.with_a(self.operand(mode)).ticked_if(self.crossed(mode))
    }

    #[verifier::opaque]
    pub open spec fn ldx_spec(self, mode: AddressingMode) -> CPU {
        self.with_x(self.operand(mode)).ticked_if(self.crossed(mode))
    }

    #[verifier::opaque]
    pub open spec fn ldy_spec(self, mode: AddressingMode) -> CPU {
        self.with_y(self.operand(mode)).ticked_if(self.crossed(mode))
    }

    #[verifier::opaque]
    pub open spec fn store_spec(self, mode: AddressingMode, data: u8) -> CPU {
        self.write(self.operand_address(mode).0, data)
    }

    // ---- logic and arithmetic ----
    #[verifier::opaque]
    pub open spec fn and_spec(self, mode: AddressingMode) -> CPU {
        self.with_a(self.operand(mode) & self.register_a).ticked_if(self.crossed(mode))
    }

    #[verifier::opaque]
    pub open spec fn eor_spec(self, mode: AddressingMode) -> CPU {
        self.with_a(self.operand(mode) ^ self.register_a).ticked_if(self.crossed(mode))
    }

    #[verifier::opaque]
    pub open spec fn ora_spec(self, mode: AddressingMode) -> CPU {
        self.with_a(self.operand(mode) | self.register_a).ticked_if(self.crossed(mode))
    }

    /// A + data + C (decimal mode ignored): C is the carry out of bit 7, V
    /// tells that both inputs have one sign and the result the other.
    #[verifier::opaque]
    pub open spec fn add_spec(self, data: u8) -> CPU {
        let sum = self.register_a + data + self.carry_in();
        let result = wrap8(sum);
        self.with_flag(StatusFlags::CARRY, sum > 255).with_flag(
            StatusFlags::OVERFLOW,
            (data ^ result) & (result ^ self.register_a) & 0x80 != 0,
        ).with_a(result)
    }

    /// A - data - (1 - C), that is A + !data + C.
    pub open spec fn sub_spec(self, data: u8) -> CPU {
        self.add_spec(!data)
    }

    #[verifier::opaque]
    pub open spec fn adc_spec(self, mode: AddressingMode) -> CPU {
        self.add_spec(self.operand(mode)).ticked_if(self.crossed(mode))
    }

    #[verifier::opaque]
    pub open spec fn sbc_spec(self, mode: AddressingMode) -> CPU {
        self.sub_spec(self.operand(mode)).ticked_if(self.crossed(mode))
    }

    /// C tells `data <= reg`; Z and N come from `reg - data`.
    #[verifier::opaque]
    pub open spec fn compare_spec(self, mode: AddressingMode, reg: u8) -> CPU {
        let data = self.operand(mode);
        self.with_flag(StatusFlags::CARRY, data <= reg).with_zn(wrap8(reg - data)).ticked_if(
            self.crossed(mode),
        )
    }

    /// Z tells whether `A & data` is zero; N and V copy bits 7 and 6 of data.
    #[verifier::opaque]
    pub open spec fn bit_spec(self, mode: AddressingMode) -> CPU {
        let data = self.operand(mode);
        self.with_flag(StatusFlags::ZERO, self.register_a & data == 0).with_flag(
            StatusFlags::NEGATIV,
            data >= 128,
        ).with_flag(StatusFlags::OVERFLOW, (data / 64) % 2 == 1)
    }

    // ---- shifts and rotations ----
    #[verifier::opaque]
    pub open spec fn asl_acc_spec(self) -> CPU {
        let data = self.register_a;
        self.with_flag(StatusFlags::CARRY, data >= 128).with_a(wrap8(data * 2))
    }

    /// The memory form; also gives the shifted value.
    #[verifier::opaque]
    pub open spec fn asl_spec(self, mode: AddressingMode) -> (CPU, u8) {
        let addr = self.operand_address(mode).0;
        let data = self.read(addr);
        let v = wrap8(data * 2);
        (self.with_flag(StatusFlags::CARRY, data >= 128).write(addr, v).with_zn(v), v)
    }

    #[verifier::opaque]
    pub open spec fn lsr_acc_spec(self) -> CPU {
        let data = self.register_a;
        self.with_flag(StatusFlags::CARRY, data % 2 == 1).with_a(data / 2)
    }

    #[verifier::opaque]
    pub open spec fn lsr_spec(self, mode: AddressingMode) -> (CPU, u8) {
        let addr = self.operand_address(mode).0;
        let data = self.read(addr);
        let v = data / 2;
        (self.with_flag(StatusFlags::CARRY, data % 2 == 1).write(addr, v).with_zn(v), v)
    }

    #[verifier::opaque]
    pub open spec fn rol_acc_spec(self) -> CPU {
        let data = self.register_a;
        self.with_flag(StatusFlags::CARRY, data >= 128).with_a(
            wrap8(data * 2 + self.carry_in()),
        )
    }

    #[verifier::opaque]
    pub open spec fn rol_spec(self, mode: AddressingMode) -> (CPU, u8) {
        let addr = self.operand_address(mode).0;
        let data = self.read(addr);
        let v = wrap8(data * 2 + self.carry_in());
        (self.with_flag(StatusFlags::CARRY, data >= 128).write(addr, v).with_zn(v), v)
    }

    #[verifier::opaque]
    pub open spec fn ror_acc_spec(self) -> CPU {
        let data = self.register_a;
        self.with_flag(StatusFlags::CARRY, data % 2 == 1).with_a(
            (data / 2 + 128 * self.carry_in()) as u8,
        )
    }

    #[verifier::opaque]
    pub open spec fn ror_spec(self, mode: AddressingMode) -> (CPU, u8) {
        let addr = self.operand_address(mode).0;
        let data = self.read(addr);
        let v = (data / 2 + 128 * self.carry_in()) as u8;
        (self.with_flag(StatusFlags::CARRY, data % 2 == 1).write(addr, v).with_zn(v), v)
    }

    // ---- increments ----
    #[verifier::opaque]
    pub open spec fn inc_spec(self, mode: AddressingMode) -> (CPU, u8) {
        let addr = self.operand_address(mode).0;
        let v = wrap8(self.read(addr) + 1);
        (self.write(addr, v).with_zn(v), v)
    }

    #[verifier::opaque]
    pub open spec fn dec_spec(self, mode: AddressingMode) -> (CPU, u8) {
        let addr = self.operand_address(mode).0;
        let v = wrap8(self.read(addr) - 1);
        (self.write(addr, v).with_zn(v), v)
    }

    // ---- stack instructions ----
    #[verifier::opaque]
    pub open spec fn pla_spec(self) -> CPU {
        let (s, v) = self.popped();
        s.with_a(v)
    }

    /// The pulled byte with B cleared and bit 5 set.
    pub open spec fn pulled_status(v: u8) -> u8 {
        with_bits(with_bits(v, StatusFlags::BREAK, false), StatusFlags::BREAK2, true)
    }

    #[verifier::opaque]
    pub open spec fn plp_spec(self) -> CPU {
        let (s, v) = self.popped();
        s.with_status(Self::pulled_status(v))
    }

    /// The status byte is pushed with B and bit 5 set.
    #[verifier::opaque]
    pub open spec fn php_spec(self) -> CPU {
        self.pushed(
            with_bits(with_bits(self.status.bits, StatusFlags::BREAK, true), StatusFlags::BREAK2, true),
        )
    }

    #[verifier::opaque]
    pub open spec fn rti_spec(self) -> CPU {
        let (s1, v) = self.popped();
        let (s2, pc) = s1.with_status(Self::pulled_status(v)).popped_u16();
        s2.with_pc(pc)
    }

    // ---- control flow ----
    /// A taken branch costs a cycle, and one more when it lands on another
    /// page than the next instruction.
    #[verifier::opaque]
    pub open spec fn branch_spec(self, condition: bool) -> CPU {
        if condition {
            let next = wrap16(self.program_counter + 1);
            let target = wrap16(next + signed(self.read(self.program_counter)));
            self.ticked(1).ticked_if(page_crossed(next, target)).with_pc(target)
        } else {
            self
        }
    }

    #[verifier::opaque]
    pub open spec fn jmp_absolute_spec(self) -> CPU {
        self.with_pc(self.read_u16(self.program_counter))
    }

    /// The pointer's high byte is fetched from the start of its page when the
    /// pointer ends a page, as the NMOS 6502 does.
    #[verifier::opaque]
    pub open spec fn jmp_indirect_spec(self) -> CPU {
        let ptr = self.read_u16(self.program_counter);
        let target = if ptr % 256 == 0xFF {
            word(self.read(ptr), self.read((ptr - 0xFF) as u16))
        } else {
            self.read_u16(ptr)
        };
        self.with_pc(target)
    }

    /// The address of the last operand byte is pushed.
    #[verifier::opaque]
    pub open spec fn jsr_spec(self) -> CPU {
        let s = self.pushed_u16(wrap16(self.program_counter + 1));
        s.with_pc(s.read_u16(self.program_counter))
    }

    #[verifier::opaque]
    pub open spec fn rts_spec(self) -> CPU {
        let (s, pc) = self.popped_u16();
        s.with_pc(wrap16(pc + 1))
    }

    /// Pushes the program counter and the status (B and bit 5 cleared),
    /// masks interrupts and jumps through the vector.
    #[verifier::opaque]
    pub open spec fn interrupt_spec(self, interrupt: Interrupt) -> CPU {
        let s1 = self.pushed_u16(self.program_counter);
        let s2 = s1.pushed(
            with_bits(with_bits(s1.status.bits, StatusFlags::BREAK, false), StatusFlags::BREAK2, false),
        );
        let s3 = s2.with_flag(StatusFlags::INTERRUPT_DISABLE, true).ticked(interrupt.cpu_cycles);
        s3.with_pc(s3.read_u16(interrupt.vec_addr))
    }

    // ---- unofficial instructions ----
    /// DEC then CMP; C is only ever set, never cleared.
    #[verifier::opaque]
    pub open spec fn dcp_spec(self, mode: AddressingMode) -> CPU {
        let addr = self.operand_address(mode).0;
        let data = wrap8(self.read(addr) - 1);
        let s = self.write(addr, data);
        let s2 = if data <= s.register_a {
            s.with_flag(StatusFlags::CARRY, true)
        } else {
            s
        };
        s2.with_zn(wrap8(s.register_a - data))
    }

    /// (A & X) - data into X; C is only ever set, never cleared.
    #[verifier::opaque]
    pub open spec fn axs_spec(self, mode: AddressingMode) -> CPU {
        let data = self.operand(mode);
        let x_and_a = self.register_x & self.register_a;
        let result = wrap8(x_and_a - data);
        let s = if data <= x_and_a {
            self.with_flag(StatusFlags::CARRY, true)
        } else {
            self
        };
        CPU { register_x: result, ..s.with_zn(result) }
    }

    /// AND then ROR A; C is bit 6 of the result, V is bit 6 xor bit 5.
    #[verifier::opaque]
    pub open spec fn arr_spec(self, mode: AddressingMode) -> CPU {
        let s = self.with_a(self.operand(mode) & self.register_a).ror_acc_spec();
        let result = s.register_a;
        let bit_5 = (result / 32) % 2;
        let bit_6 = (result / 64) % 2;
        s.with_flag(StatusFlags::CARRY, bit_6 == 1).with_flag(
            StatusFlags::OVERFLOW,
            bit_5 != bit_6,
        ).with_zn(result)
    }

    /// AND; C copies N.
    #[verifier::opaque]
    pub open spec fn anc_spec(self, mode: AddressingMode) -> CPU {
        let s = self.with_a(self.operand(mode) & self.register_a);
        s.with_flag(StatusFlags::CARRY, s.flag(StatusFlags::NEGATIV))
    }

    #[verifier::opaque]
    pub open spec fn alr_spec(self, mode: AddressingMode) -> CPU {
        self.with_a(self.operand(mode) & self.register_a).lsr_acc_spec()
    }

    #[verifier::opaque]
    pub open spec fn lax_spec(self, mode: AddressingMode) -> CPU {
        let s = self.with_a(self.operand(mode));
        CPU { register_x: s.register_a, ..s }
    }

    #[verifier::opaque]
    pub open spec fn xaa_spec(self, mode: AddressingMode) -> CPU {
        let s = self.with_a(self.register_x);
        s.with_a(s.operand(mode) & s.register_a)
    }

    #[verifier::opaque]
    pub open spec fn las_spec(self, mode: AddressingMode) -> CPU {
        let data = self.operand(mode) & self.sp;
        CPU { register_a: data, register_x: data, sp: data, ..self }.with_zn(data)
    }

    /// SP = A & X, then (A & X & (high byte + 1)) to absolute,Y.
    #[verifier::opaque]
    pub open spec fn tas_spec(self) -> CPU {
        let sp = self.register_a & self.register_x;
        let addr = wrap16(self.read_u16(self.program_counter) + self.register_y);
        let data = wrap8(addr / 256 + 1) & sp;
        CPU { sp, ..self }.write(addr, data)
    }

    #[verifier::opaque]
    pub open spec fn ahx_indirect_spec(self) -> CPU {
        let pos = self.read(self.program_counter);
        let addr = wrap16(self.read_u16(pos as u16) + self.register_y);
        self.write(addr, self.register_a & self.register_x & ((addr / 256) as u8))
    }

    #[verifier::opaque]
    pub open spec fn ahx_absolute_spec(self) -> CPU {
        let addr = wrap16(self.read_u16(self.program_counter) + self.register_y);
        self.write(addr, self.register_a & self.register_x & ((addr / 256) as u8))
    }

    #[verifier::opaque]
    pub open spec fn shx_spec(self) -> CPU {
        let addr = wrap16(self.read_u16(self.program_counter) + self.register_y);
        self.write(addr, self.register_x & wrap8(addr / 256 + 1))
    }

    #[verifier::opaque]
    pub open spec fn shy_spec(self) -> CPU {
        let addr = wrap16(self.read_u16(self.program_counter) + self.register_x);
        self.write(addr, self.register_y & wrap8(addr / 256 + 1))
    }

    /// The machine after `load` has copied the first `count` bytes of
    /// `program` to 0x0600 onwards, one write per byte, in order.
    pub open spec fn loaded(self, program: Seq<u8>, count: nat) -> CPU
        decreases count,
    {
        if count == 0 {
            self
        } else {
            self.loaded(program, (count - 1) as nat).write(
                (LOAD_ADDRESS + count - 1) as u16,
                program[count - 1],
            )
        }
    }

    /// The registers and status that a reset restores, with the program
    /// counter taken from the reset vector.
    pub open spec fn reset_spec(self) -> CPU {
        CPU {
            register_a: 0,
            register_x: 0,
            register_y: 0,
            sp: STACK_RESET,
            status: StatusFlags { bits: STATUS_RESET },
            program_counter: self.read_u16(RESET_VECTOR),
            ..self
        }
    }

    // ---- dispatch ----
    /// What the instruction `op` does once fetched (the program counter
    /// already points past the opcode), before its base cycles are counted
    /// and the program counter is moved past its operand bytes. BRK never
    /// gets here.
    #[verifier::opaque]
    pub open spec fn execute_spec(self, op: OpCode) -> CPU {
        let mode = op.mode;
        let accumulator = mode == AddressingMode::NoneAddressing;
        match op.mnemonic {
            Mnemonic::LDA => self.lda_spec(mode),
            Mnemonic::LDX => self.ldx_spec(mode),
            Mnemonic::LDY => self.ldy_spec(mode),
            Mnemonic::STA => self.store_spec(mode, self.register_a),
            Mnemonic::STX => self.store_spec(mode, self.register_x),
            Mnemonic::STY => self.store_spec(mode, self.register_y),
            Mnemonic::TAX => self.with_x(self.register_a),
            Mnemonic::TAY => self.with_y(self.register_a),
            Mnemonic::TSX => self.with_x(self.sp),
            Mnemonic::TXA => self.with_a(self.register_x),
            Mnemonic::TXS => CPU { sp: self.register_x, ..self },
            Mnemonic::TYA => self.with_a(self.register_y),
            Mnemonic::INX => self.with_x(wrap8(self.register_x + 1)),
            Mnemonic::INY => self.with_y(wrap8(self.register_y + 1)),
            Mnemonic::DEX => self.with_x(wrap8(self.register_x - 1)),
            Mnemonic::DEY => self.with_y(wrap8(self.register_y - 1)),
            Mnemonic::CLD => self.with_flag(StatusFlags::DECIMAL_MODE, false),
            Mnemonic::CLI => self.with_flag(StatusFlags::INTERRUPT_DISABLE, false),
            Mnemonic::CLV => self.with_flag(StatusFlags::OVERFLOW, false),
            Mnemonic::CLC => self.with_flag(StatusFlags::CARRY, false),
            Mnemonic::SEC => self.with_flag(StatusFlags::CARRY, true),
            Mnemonic::SEI => self.with_flag(StatusFlags::INTERRUPT_DISABLE, true),
            Mnemonic::SED => self.with_flag(StatusFlags::DECIMAL_MODE, true),
            Mnemonic::PHA => self.pushed(self.register_a),
            Mnemonic::PLA => self.pla_spec(),
            Mnemonic::PHP => self.php_spec(),
            Mnemonic::PLP => self.plp_spec(),
            Mnemonic::ADC => self.adc_spec(mode),
            Mnemonic::SBC => self.sbc_spec(mode),
            Mnemonic::AND => self.and_spec(mode),
            Mnemonic::EOR => self.eor_spec(mode),
            Mnemonic::ORA => self.ora_spec(mode),
            Mnemonic::CMP => self.compare_spec(mode, self.register_a),
            Mnemonic::CPX => self.compare_spec(mode, self.register_x),
            Mnemonic::CPY => self.compare_spec(mode, self.register_y),
            Mnemonic::BIT => self.bit_spec(mode),
            Mnemonic::ASL => if accumulator {
                self.asl_acc_spec()
            } else {
                self.asl_spec(mode).0
            },
            Mnemonic::LSR => if accumulator {
                self.lsr_acc_spec()
            } else {
                self.lsr_spec(mode).0
            },
            Mnemonic::ROL => if accumulator {
                self.rol_acc_spec()
            } else {
                self.rol_spec(mode).0
            },
            Mnemonic::ROR => if accumulator {
                self.ror_acc_spec()
            } else {
                self.ror_spec(mode).0
            },
            Mnemonic::INC => self.inc_spec(mode).0,
            Mnemonic::DEC => self.dec_spec(mode).0,
            Mnemonic::JMP => self.jmp_absolute_spec(),
            Mnemonic::JMPI => self.jmp_indirect_spec(),
            Mnemonic::JSR => self.jsr_spec(),
            Mnemonic::RTS => self.rts_spec(),
            Mnemonic::RTI => self.rti_spec(),
            Mnemonic::BNE => self.branch_spec(!self.flag(StatusFlags::ZERO)),
            Mnemonic::BVS => self.branch_spec(self.flag(StatusFlags::OVERFLOW)),
            Mnemonic::BVC => self.branch_spec(!self.flag(StatusFlags::OVERFLOW)),
            Mnemonic::BPL => self.branch_spec(!self.flag(StatusFlags::NEGATIV)),
            Mnemonic::BMI => self.branch_spec(self.flag(StatusFlags::NEGATIV)),
            Mnemonic::BEQ => self.branch_spec(self.flag(StatusFlags::ZERO)),
            Mnemonic::BCS => self.branch_spec(self.flag(StatusFlags::CARRY)),
            Mnemonic::BCC => self.branch_spec(!self.flag(StatusFlags::CARRY)),
            // NOPs with a memory operand read it (and pay for a page crossing)
            Mnemonic::NOP => if is_memory_mode(mode) {
                self.ticked_if(self.crossed(mode))
            } else {
                self
            },
            Mnemonic::DCP => self.dcp_spec(mode),
            // ROL then AND
            Mnemonic::RLA => {
                let (s, v) = self.rol_spec(mode);
                s.with_a(v & s.register_a)
            },
            // ASL then ORA
            Mnemonic::SLO => {
                let (s, v) = self.asl_spec(mode);
                s.with_a(v | s.register_a)
            },
            // LSR then EOR
            Mnemonic::SRE => {
                let (s, v) = self.lsr_spec(mode);
                s.with_a(v ^ s.register_a)
            },
            // ROR then ADC
            Mnemonic::RRA => {
                let (s, v) = self.ror_spec(mode);
                s.add_spec(v)
            },
            // INC then SBC
            Mnemonic::ISB => {
                let (s, v) = self.inc_spec(mode);
                s.sub_spec(v)
            },
            Mnemonic::AXS => self.axs_spec(mode),
            Mnemonic::ARR => self.arr_spec(mode),
            Mnemonic::ANC => self.anc_spec(mode),
            Mnemonic::ALR => self.alr_spec(mode),
            Mnemonic::LAX => self.lax_spec(mode),
            Mnemonic::SAX => self.store_spec(mode, self.register_a & self.register_x),
            // LDA then TAX
            Mnemonic::LXA => {
                let s = self.lda_spec(mode);
                s.with_x(s.register_a)
            },
            Mnemonic::XAA => self.xaa_spec(mode),
            Mnemonic::LAS => self.las_spec(mode),
            Mnemonic::TAS => self.tas_spec(),
            Mnemonic::AHX => if mode == AddressingMode::IndirectY {
                self.ahx_indirect_spec()
            } else {
                self.ahx_absolute_spec()
            },
            Mnemonic::SHX => self.shx_spec(),
            Mnemonic::SHY => self.shy_spec(),
            Mnemonic::BRK => self,
        }
    }

    /// One instruction: fetch at the program counter, execute, count the
    /// base cycles, and step past the operand bytes unless the instruction
    /// set the program counter itself.
    #[verifier::opaque]
    pub open spec fn step_spec(self) -> (CPU, StepOutcome) {
        let code = self.read(self.program_counter);
        let op = opcode_spec(code);
        let fetched = self.with_pc(wrap16(self.program_counter + 1));
        if op.mnemonic == Mnemonic::BRK {
            (fetched, StepOutcome::Break)
        } else {
            let done = fetched.execute_spec(op).ticked(op.cycles);
            if done.program_counter == fetched.program_counter {
                (done.with_pc(wrap16(done.program_counter + op.pc_incr - 1)), StepOutcome::Continue)
            } else {
                (done, StepOutcome::Continue)
            }
        }
    }

    /// Serves a pending non-maskable interrupt, if any.
    pub open spec fn serve_nmi_spec(self) -> CPU {
        if self.bus.nmi_interrupt is Some {
            CPU { bus: Bus { nmi_interrupt: None, ..self.bus }, ..self }.interrupt_spec(nmi_spec())
        } else {
            self
        }
    }

    /// Each of the at most `fuel` instructions of `run_spec` reads and writes
    /// only mapped addresses.
    pub open spec fn run_mapped(self, fuel: nat) -> bool
        decreases fuel,
    {
        if fuel == 0 {
            true
        } else {
            let s = self.serve_nmi_spec();
            let (t, outcome) = s.step_spec();
            s.step_mapped() && (outcome is Continue ==> t.run_mapped((fuel - 1) as nat))
        }
    }

    /// At most `fuel` instructions, each preceded by serving a pending NMI;
    /// stops after BRK.
    pub open spec fn run_spec(self, fuel: nat) -> CPU
        decreases fuel,
    {
        if fuel == 0 {
            self
        } else {
            let (s, outcome) = self.serve_nmi_spec().step_spec();
            if outcome is Continue {
                s.run_spec((fuel - 1) as nat)
            } else {
                s
            }
        }
    }
}

} // verus!
