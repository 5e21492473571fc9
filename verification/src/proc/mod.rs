//! The 6502 CPU.
use vstd::prelude::*;

pub mod addressing;
pub mod bus;
pub mod flags;
pub mod instructions;
pub mod interrupt;
pub mod laws;
pub mod op;
pub mod semantics;

pub use addressing::AddressingMode;
pub use interrupt::InterruptType;
use bus::{Bus, is_mapped, mapped, word_is_mapped, word_mapped};
use flags::StatusFlags;
use op::{Mnemonic, OpCode, opcode_spec, takes_operand};
use semantics::StepOutcome;

verus! {

/// Base address of the stack page (0x0100..=0x01FF).
pub const STACK: u16 = 0x0100;

/// Stack pointer after a reset.
pub const STACK_RESET: u8 = 0xfd;

/// Status after a reset: interrupts masked, bit 5 set.
pub const STATUS_RESET: u8 = 0b100100;

/// Where the program counter starts.
pub const PROGRAM_START: u16 = 0x8000;

/// Where the reset vector is stored.
pub const RESET_VECTOR: u16 = 0xFFFC;

/// Where `load` copies a program.
pub const LOAD_ADDRESS: u16 = 0x0600;

pub struct CPU {
    pub register_a: u8,
    pub register_x: u8,
    pub register_y: u8,
    pub status: StatusFlags,
    pub program_counter: u16,
    pub sp: u8,
    pub bus: Bus,
}

/// `v` modulo 2^8.
pub open spec fn wrap8(v: int) -> u8 {
    (v % 256) as u8
}

/// `v` modulo 2^16.
pub open spec fn wrap16(v: int) -> u16 {
    (v % 65536) as u16
}

/// The little-endian 16-bit word made of `lo` and `hi`.
pub open spec fn word(lo: u8, hi: u8) -> u16 {
    (hi * 256 + lo) as u16
}

/// `wrapping_add` on bytes is addition modulo 2^8.
pub proof fn lemma_wrapping_add_u8(x: u8, y: u8)
    ensures
        x.wrapping_add(y) == wrap8(x + y),
{
}

/// `wrapping_add` on words is addition modulo 2^16.
pub proof fn lemma_wrapping_add_u16(x: u16, y: u16)
    ensures
        x.wrapping_add(y) == wrap16(x + y),
{
}

proof fn lemma_word_bits(lo: u8, hi: u8)
    by (bit_vector)
    ensures
        ((hi as u16) << 8) | (lo as u16) == hi * 256 + lo,
{
}

proof fn lemma_split_word(data: u16)
    by (bit_vector)
    ensures
        (data >> 8) as u8 == data / 256,
        (data & 0xff) as u8 == data % 256,
{
}

/// Byte-addressed memory with a 16-bit address space; only `mapped`
/// addresses may be read or written.
pub trait Mem: Sized {
    /// The memory can serve every mapped address.
    spec fn mem_wf(&self) -> bool;

    /// The byte that a read of `addr` gives.
    spec fn read_byte(&self, addr: u16) -> u8;

    /// The memory after writing `data` to `addr`.
    spec fn write_byte(self, addr: u16, data: u8) -> Self;

    fn mem_read(&mut self, addr: u16) -> (r: u8)
        requires
            old(self).mem_wf(),
            mapped(addr),
        ensures
            r == old(self).read_byte(addr),
            *final(self) == *old(self),
    ;

    fn mem_write(&mut self, addr: u16, data: u8)
        requires
            old(self).mem_wf(),
            mapped(addr),
        ensures
            *final(self) == old(self).write_byte(addr, data),
            final(self).mem_wf(),
    ;

    /// Reads the little-endian word at `pos` and `pos + 1` (wrapping).
    fn mem_read_u16(&mut self, pos: u16) -> (r: u16)
        requires
            old(self).mem_wf(),
            word_mapped(pos),
        ensures
            r == word(old(self).read_byte(pos), old(self).read_byte(wrap16(pos + 1))),
            *final(self) == *old(self),
    {
        let lo = self.mem_read(pos) as u16;
        let hi = self.mem_read(pos.wrapping_add(1)) as u16;
        proof {
            lemma_word_bits(lo as u8, hi as u8);
        }
        (hi << 8) | (lo as u16)
    }

    /// Writes `data` little-endian at `pos` and `pos + 1` (wrapping).
    fn mem_write_u16(&mut self, pos: u16, data: u16)
        requires
            old(self).mem_wf(),
            word_mapped(pos),
        ensures
            *final(self) == old(self).write_byte(pos, (data % 256) as u8).write_byte(
                wrap16(pos + 1),
                (data / 256) as u8,
            ),
            final(self).mem_wf(),
    {
        let hi = (data >> 8) as u8;
        let lo = (data & 0xff) as u8;
        proof {
            lemma_split_word(data);
        }
        self.mem_write(pos, lo);
        self.mem_write(pos.wrapping_add(1), hi);
    }
}

impl Mem for CPU {
    open spec fn mem_wf(&self) -> bool {
        self.bus.wf()
    }

    open spec fn read_byte(&self, addr: u16) -> u8 {
        self.bus.read_spec(addr)
    }

    open spec fn write_byte(self, addr: u16, data: u8) -> CPU {
        CPU { bus: self.bus.write_spec(addr, data), ..self }
    }

    fn mem_read(&mut self, addr: u16) -> (r: u8) {
        self.bus.mem_read(addr)
    }

    fn mem_write(&mut self, addr: u16, data: u8) {
        self.bus.mem_write(addr, data)
    }

    fn mem_read_u16(&mut self, addr: u16) -> (r: u16) {
        self.bus.mem_read_u16(addr)
    }

    fn mem_write_u16(&mut self, addr: u16, data: u16) {
        self.bus.mem_write_u16(addr, data)
    }
}

/// What follows the callback in a round of `run_with_callback`: one
/// instruction when the PRG ROM can serve its window and the instruction
/// reaches only mapped addresses (`outcome` is its outcome), or nothing
/// (`outcome` is `None`, and the run stops).
pub open spec fn after_callback(handed: CPU, after: CPU, outcome: Option<StepOutcome>) -> bool {
    if handed.wf() && handed.step_mapped() {
        outcome == Some(handed.step_spec().1) && after == handed.step_spec().0
    } else {
        outcome is None && after == handed
    }
}

/// The shape of a run with a callback from `start`: `states[k]` is the
/// machine before round `k`, `handed[k]` what the callback left in that
/// round, `outcomes[k]` how the round ended; every round but the last went
/// on.
pub open spec fn callback_run_shape(
    start: CPU,
    states: Seq<CPU>,
    handed: Seq<CPU>,
    outcomes: Seq<Option<StepOutcome>>,
) -> bool {
    &&& handed.len() == outcomes.len()
    &&& states.len() == handed.len() + 1
    &&& states[0] == start
    &&& forall|k: int|
        0 <= k < handed.len() ==> after_callback(#[trigger] handed[k], states[k + 1], outcomes[k])
    &&& forall|k: int| 0 <= k < handed.len() - 1 ==> #[trigger] outcomes[k] == Some(StepOutcome::Continue)
}

/// `k` numbers one of the rounds recorded in `handed`.
pub open spec fn is_round(handed: Seq<CPU>, k: int) -> bool {
    0 <= k < handed.len()
}

/// A run whose rounds so far all went on grows by one more round.
proof fn lemma_extend_shape(
    start: CPU,
    states: Seq<CPU>,
    handed: Seq<CPU>,
    outcomes: Seq<Option<StepOutcome>>,
    given: CPU,
    after: CPU,
    outcome: Option<StepOutcome>,
)
    requires
        callback_run_shape(start, states, handed, outcomes),
        handed.len() > 0 ==> outcomes.last() == Some(StepOutcome::Continue),
        after_callback(given, after, outcome),
    ensures
        callback_run_shape(start, states.push(after), handed.push(given), outcomes.push(outcome)),
        states.push(after).last() == after,
{
    let s2 = states.push(after);
    let h2 = handed.push(given);
    let o2 = outcomes.push(outcome);
    assert forall|k: int| 0 <= k < h2.len() implies after_callback(
        #[trigger] h2[k],
        s2[k + 1],
        o2[k],
    ) by {
        if k < handed.len() {
            assert(handed[k] == h2[k]);
        }
    }
    assert forall|k: int| 0 <= k < h2.len() - 1 implies #[trigger] o2[k] == Some(
        StepOutcome::Continue,
    ) by {
        if k < outcomes.len() - 1 {
            assert(outcomes[k] == o2[k]);
        }
    }
}

impl CPU {
    pub fn new(bus: Bus) -> (r: Self)
        ensures
            r.register_a == 0,
            r.register_x == 0,
            r.register_y == 0,
            r.sp == STACK_RESET,
            r.program_counter == PROGRAM_START,
            r.status.bits == STATUS_RESET,
            r.bus == bus,
    {
        CPU {
            register_a: 0,
            register_x: 0,
            register_y: 0,
            sp: STACK_RESET,
            program_counter: PROGRAM_START,
            status: StatusFlags::from_bits_truncate(STATUS_RESET),
            bus: bus,
        }
    }

    /// Runs the instruction `op` once it has been fetched.
    fn execute(&mut self, op: &OpCode)
        requires
            old(self).wf(),
            old(self).exec_mapped(*op),
            op.mnemonic != Mnemonic::BRK,
            takes_operand(*op) ==> op.mode != AddressingMode::NoneAddressing,
        ensures
            *final(self) == old(self).execute_spec(*op),
            final(self).wf(),
    {
        match op.mnemonic {
            Mnemonic::LDA | Mnemonic::LDX | Mnemonic::LDY | Mnemonic::STA | Mnemonic::STX | Mnemonic::STY | Mnemonic::TAX | Mnemonic::TAY | Mnemonic::TSX | Mnemonic::TXA | Mnemonic::TXS | Mnemonic::TYA | Mnemonic::INX | Mnemonic::INY | Mnemonic::DEX | Mnemonic::DEY | Mnemonic::CLD | Mnemonic::CLI | Mnemonic::CLV | Mnemonic::CLC | Mnemonic::SEC | Mnemonic::SEI | Mnemonic::SED | Mnemonic::PHA | Mnemonic::PLA | Mnemonic::PHP | Mnemonic::PLP => self.execute_registers(op),
            Mnemonic::ADC | Mnemonic::SBC | Mnemonic::AND | Mnemonic::EOR | Mnemonic::ORA | Mnemonic::CMP | Mnemonic::CPX | Mnemonic::CPY | Mnemonic::BIT | Mnemonic::ASL | Mnemonic::LSR | Mnemonic::ROL | Mnemonic::ROR | Mnemonic::INC | Mnemonic::DEC => self.execute_arithmetic(op),
            Mnemonic::JMP | Mnemonic::JMPI | Mnemonic::JSR | Mnemonic::RTS | Mnemonic::RTI | Mnemonic::BNE | Mnemonic::BVS | Mnemonic::BVC | Mnemonic::BPL | Mnemonic::BMI | Mnemonic::BEQ | Mnemonic::BCS | Mnemonic::BCC | Mnemonic::NOP => self.execute_control(op),
            Mnemonic::DCP | Mnemonic::RLA | Mnemonic::SLO | Mnemonic::SRE | Mnemonic::RRA | Mnemonic::ISB | Mnemonic::AXS | Mnemonic::ARR | Mnemonic::ANC | Mnemonic::ALR | Mnemonic::LAX | Mnemonic::SAX | Mnemonic::LXA | Mnemonic::XAA | Mnemonic::LAS | Mnemonic::TAS | Mnemonic::AHX | Mnemonic::SHX | Mnemonic::SHY => self.execute_unofficial(op),
            // handled by `step`
            Mnemonic::BRK => {},
        }
    }

    /// Loads, stores, transfers, register increments, flag and stack instructions.
    fn execute_registers(&mut self, op: &OpCode)
        requires
            old(self).wf(),
            old(self).exec_mapped(*op),
            op.mnemonic == Mnemonic::LDA || op.mnemonic == Mnemonic::LDX || op.mnemonic == Mnemonic::LDY || op.mnemonic == Mnemonic::STA || op.mnemonic == Mnemonic::STX || op.mnemonic == Mnemonic::STY || op.mnemonic == Mnemonic::TAX || op.mnemonic == Mnemonic::TAY || op.mnemonic == Mnemonic::TSX || op.mnemonic == Mnemonic::TXA || op.mnemonic == Mnemonic::TXS || op.mnemonic == Mnemonic::TYA || op.mnemonic == Mnemonic::INX || op.mnemonic == Mnemonic::INY || op.mnemonic == Mnemonic::DEX || op.mnemonic == Mnemonic::DEY || op.mnemonic == Mnemonic::CLD || op.mnemonic == Mnemonic::CLI || op.mnemonic == Mnemonic::CLV || op.mnemonic == Mnemonic::CLC || op.mnemonic == Mnemonic::SEC || op.mnemonic == Mnemonic::SEI || op.mnemonic == Mnemonic::SED || op.mnemonic == Mnemonic::PHA || op.mnemonic == Mnemonic::PLA || op.mnemonic == Mnemonic::PHP || op.mnemonic == Mnemonic::PLP,
            takes_operand(*op) ==> op.mode != AddressingMode::NoneAddressing,
        ensures
            *final(self) == old(self).execute_spec(*op),
            final(self).wf(),
    {
        proof {
            reveal(CPU::execute_spec);
        }
        let mode = &op.mode;
        match op.mnemonic {
            Mnemonic::LDA => self.lda(mode),
            Mnemonic::LDX => self.ldx(mode),
            Mnemonic::LDY => self.ldy(mode),
            Mnemonic::STA => self.store(mode, self.register_a),
            Mnemonic::STX => self.store(mode, self.register_x),
            Mnemonic::STY => self.store(mode, self.register_y),
            Mnemonic::TAX => self.tax(),
            Mnemonic::TAY => self.set_register_y(self.register_a),
            Mnemonic::TSX => self.set_register_x(self.sp),
            Mnemonic::TXA => self.set_register_a(self.register_x),
            Mnemonic::TXS => {
                self.sp = self.register_x;
            },
            Mnemonic::TYA => self.set_register_a(self.register_y),
            Mnemonic::INX => self.inx(),
            Mnemonic::INY => self.iny(),
            Mnemonic::DEX => self.dex(),
            Mnemonic::DEY => self.dey(),
            Mnemonic::CLD => self.status.remove(StatusFlags::DECIMAL_MODE),
            Mnemonic::CLI => self.status.remove(StatusFlags::INTERRUPT_DISABLE),
            Mnemonic::CLV => self.status.remove(StatusFlags::OVERFLOW),
            Mnemonic::CLC => self.clear_carry_flag(),
            Mnemonic::SEC => self.set_carry_flag(),
            Mnemonic::SEI => self.status.insert(StatusFlags::INTERRUPT_DISABLE),
            Mnemonic::SED => self.status.insert(StatusFlags::DECIMAL_MODE),
            Mnemonic::PHA => self.stack_push(self.register_a),
            Mnemonic::PLA => self.pla(),
            Mnemonic::PHP => self.php(),
            Mnemonic::PLP => self.plp(),
            _ => {},
        }
    }

    /// Arithmetic, logic, comparisons and read-modify-write instructions.
    fn execute_arithmetic(&mut self, op: &OpCode)
        requires
            old(self).wf(),
            old(self).exec_mapped(*op),
            op.mnemonic == Mnemonic::ADC || op.mnemonic == Mnemonic::SBC || op.mnemonic == Mnemonic::AND || op.mnemonic == Mnemonic::EOR || op.mnemonic == Mnemonic::ORA || op.mnemonic == Mnemonic::CMP || op.mnemonic == Mnemonic::CPX || op.mnemonic == Mnemonic::CPY || op.mnemonic == Mnemonic::BIT || op.mnemonic == Mnemonic::ASL || op.mnemonic == Mnemonic::LSR || op.mnemonic == Mnemonic::ROL || op.mnemonic == Mnemonic::ROR || op.mnemonic == Mnemonic::INC || op.mnemonic == Mnemonic::DEC,
            takes_operand(*op) ==> op.mode != AddressingMode::NoneAddressing,
        ensures
            *final(self) == old(self).execute_spec(*op),
            final(self).wf(),
    {
        proof {
            reveal(CPU::execute_spec);
        }
        let mode = &op.mode;
        let accumulator = match mode {
            AddressingMode::NoneAddressing => true,
            _ => false,
        };
        match op.mnemonic {
            Mnemonic::ADC => self.adc(mode),
            Mnemonic::SBC => self.sbc(mode),
            Mnemonic::AND => self.and(mode),
            Mnemonic::EOR => self.eor(mode),
            Mnemonic::ORA => self.ora(mode),
            Mnemonic::CMP => self.compare(mode, self.register_a),
            Mnemonic::CPX => self.compare(mode, self.register_x),
            Mnemonic::CPY => self.compare(mode, self.register_y),
            Mnemonic::BIT => self.bit(mode),
            Mnemonic::ASL => if accumulator {
                self.asl_accumulator()
            } else {
                self.asl(mode);
            },
            Mnemonic::LSR => if accumulator {
                self.lsr_accumulator()
            } else {
                self.lsr(mode);
            },
            Mnemonic::ROL => if accumulator {
                self.rol_accumulator()
            } else {
                self.rol(mode);
            },
            Mnemonic::ROR => if accumulator {
                self.ror_accumulator()
            } else {
                self.ror(mode);
            },
            Mnemonic::INC => {
                self.inc(mode);
            },
            Mnemonic::DEC => {
                self.dec(mode);
            },
            _ => {},
        }
    }

    /// Jumps, calls, returns, branches and NOPs.
    fn execute_control(&mut self, op: &OpCode)
        requires
            old(self).wf(),
            old(self).exec_mapped(*op),
            op.mnemonic == Mnemonic::JMP || op.mnemonic == Mnemonic::JMPI || op.mnemonic == Mnemonic::JSR || op.mnemonic == Mnemonic::RTS || op.mnemonic == Mnemonic::RTI || op.mnemonic == Mnemonic::BNE || op.mnemonic == Mnemonic::BVS || op.mnemonic == Mnemonic::BVC || op.mnemonic == Mnemonic::BPL || op.mnemonic == Mnemonic::BMI || op.mnemonic == Mnemonic::BEQ || op.mnemonic == Mnemonic::BCS || op.mnemonic == Mnemonic::BCC || op.mnemonic == Mnemonic::NOP,
            takes_operand(*op) ==> op.mode != AddressingMode::NoneAddressing,
        ensures
            *final(self) == old(self).execute_spec(*op),
            final(self).wf(),
    {
        proof {
            reveal(CPU::execute_spec);
        }
        let mode = &op.mode;
        match op.mnemonic {
            Mnemonic::JMP => self.jmp_absolute(),
            Mnemonic::JMPI => self.jmp_indirect(),
            Mnemonic::JSR => self.jsr(),
            Mnemonic::RTS => self.rts(),
            Mnemonic::RTI => self.rti(),
            Mnemonic::BNE => self.branch(!self.status.contains(StatusFlags::ZERO)),
            Mnemonic::BVS => self.branch(self.status.contains(StatusFlags::OVERFLOW)),
            Mnemonic::BVC => self.branch(!self.status.contains(StatusFlags::OVERFLOW)),
            Mnemonic::BPL => self.branch(!self.status.contains(StatusFlags::NEGATIV)),
            Mnemonic::BMI => self.branch(self.status.contains(StatusFlags::NEGATIV)),
            Mnemonic::BEQ => self.branch(self.status.contains(StatusFlags::ZERO)),
            Mnemonic::BCS => self.branch(self.status.contains(StatusFlags::CARRY)),
            Mnemonic::BCC => self.branch(!self.status.contains(StatusFlags::CARRY)),
            Mnemonic::NOP => match mode {
                // NOP, and the two-byte NOPs (SKB) that skip their immediate
                AddressingMode::NoneAddressing | AddressingMode::Immediate => {},
                // NOPs that read their operand
                _ => self.nop_read(mode),
            },
            _ => {},
        }
    }

    /// The unofficial (undocumented) instructions.
    fn execute_unofficial(&mut self, op: &OpCode)
        requires
            old(self).wf(),
            old(self).exec_mapped(*op),
            op.mnemonic == Mnemonic::DCP || op.mnemonic == Mnemonic::RLA || op.mnemonic == Mnemonic::SLO || op.mnemonic == Mnemonic::SRE || op.mnemonic == Mnemonic::RRA || op.mnemonic == Mnemonic::ISB || op.mnemonic == Mnemonic::AXS || op.mnemonic == Mnemonic::ARR || op.mnemonic == Mnemonic::ANC || op.mnemonic == Mnemonic::ALR || op.mnemonic == Mnemonic::LAX || op.mnemonic == Mnemonic::SAX || op.mnemonic == Mnemonic::LXA || op.mnemonic == Mnemonic::XAA || op.mnemonic == Mnemonic::LAS || op.mnemonic == Mnemonic::TAS || op.mnemonic == Mnemonic::AHX || op.mnemonic == Mnemonic::SHX || op.mnemonic == Mnemonic::SHY,
            takes_operand(*op) ==> op.mode != AddressingMode::NoneAddressing,
        ensures
            *final(self) == old(self).execute_spec(*op),
            final(self).wf(),
    {
        proof {
            reveal(CPU::execute_spec);
        }
        let mode = &op.mode;
        match op.mnemonic {
            Mnemonic::DCP => self.dcp(mode),
            Mnemonic::RLA => self.rla(mode),
            Mnemonic::SLO => self.slo(mode),
            Mnemonic::SRE => self.sre(mode),
            Mnemonic::RRA => self.rra(mode),
            Mnemonic::ISB => self.isb(mode),
            Mnemonic::AXS => self.axs(mode),
            Mnemonic::ARR => self.arr(mode),
            Mnemonic::ANC => self.anc(mode),
            Mnemonic::ALR => self.alr(mode),
            Mnemonic::LAX => self.lax(mode),
            Mnemonic::SAX => {
                let data = self.register_a & self.register_x;
                self.store(mode, data)
            },
            Mnemonic::LXA => self.lxa(mode),
            Mnemonic::XAA => self.xaa(mode),
            Mnemonic::LAS => self.las(mode),
            Mnemonic::TAS => self.tas(),
            Mnemonic::AHX => match mode {
                AddressingMode::IndirectY => self.ahx_indirect(),
                _ => self.ahx_absolute(),
            },
            Mnemonic::SHX => self.shx(),
            Mnemonic::SHY => self.shy(),
            _ => {},
        }
    }

}

impl CPU {
    /// Copies `program` into memory from 0x0600 on; the length counts modulo
    /// 2^16, as a `u16`, and the copy must end below the PPU registers at
    /// 0x2000.
    pub fn load(&mut self, program: Vec<u8>)
        requires
            old(self).wf(),
            program@.len() % 65536 <= 0x1A00,
        ensures
            *final(self) == old(self).loaded(program@, (program@.len() % 65536) as nat),
            final(self).wf(),
    {
        let count = (program.len() % 65536) as u16;
        let mut i: u16 = 0;
        while i < count
            invariant
                self.wf(),
                i <= count,
                count == program@.len() % 65536,
                count <= 0x1A00,
                *self == old(self).loaded(program@, i as nat),
            decreases count - i,
        {
            self.mem_write(LOAD_ADDRESS + i, program[i as usize]);
            i = i + 1;
        }
    }

    /// Clears the registers, resets the stack pointer and status, and jumps
    /// through the reset vector at 0xFFFC.
    pub fn reset(&mut self)
        requires
            old(self).wf(),
        ensures
            *final(self) == old(self).reset_spec(),
    {
        self.register_a = 0;
        self.register_x = 0;
        self.register_y = 0;
        self.sp = STACK_RESET;
        self.status = StatusFlags::from_bits_truncate(STATUS_RESET);
        self.program_counter = self.mem_read_u16(RESET_VECTOR);
    }

    /// Runs one instruction: fetch at the program counter, execute, count
    /// the base cycles and step past the operand bytes. BRK ends the
    /// program.
    pub fn step(&mut self) -> (r: StepOutcome)
        requires
            old(self).wf(),
            old(self).step_mapped(),
        ensures
            (*final(self), r) == old(self).step_spec(),
            final(self).wf(),
    {
        proof {
            reveal(CPU::step_spec);
        }
        let code = self.mem_read(self.program_counter);
        proof {
            lemma_wrapping_add_u16(self.program_counter, 1);
            op::lemma_table(code);
        }
        self.program_counter = self.program_counter.wrapping_add(1);
        let program_counter_state = self.program_counter;
        let opcode = op::lookup(code);
        match opcode.mnemonic {
            Mnemonic::BRK => return StepOutcome::Break,
            _ => {},
        }
        self.execute(&opcode);
        self.bus.tick(opcode.cycles);
        if program_counter_state == self.program_counter {
            proof {
                lemma_wrapping_add_u16(self.program_counter, (opcode.pc_incr - 1) as u16);
            }
            self.program_counter = self.program_counter.wrapping_add((opcode.pc_incr - 1) as u16);
        }
        StepOutcome::Continue
    }

    /// Whether the next instruction reads and writes only mapped addresses,
    /// its opcode included.
    pub fn step_is_mapped(&mut self) -> (r: bool)
        requires
            old(self).wf(),
        ensures
            r == old(self).step_mapped(),
            *final(self) == *old(self),
    {
        let pc = self.program_counter;
        if !is_mapped(pc) {
            return false;
        }
        let code = self.mem_read(pc);
        proof {
            lemma_wrapping_add_u16(pc, 1);
            op::lemma_table(code);
        }
        let opcode = op::lookup(code);
        self.program_counter = pc.wrapping_add(1);
        let r = self.exec_is_mapped(&opcode);
        self.program_counter = pc;
        r
    }

    /// Whether `op`, once fetched, reads and writes only mapped addresses.
    fn exec_is_mapped(&mut self, op: &OpCode) -> (r: bool)
        requires
            old(self).wf(),
            takes_operand(*op) ==> op.mode != AddressingMode::NoneAddressing,
        ensures
            r == old(self).exec_mapped(*op),
            *final(self) == *old(self),
    {
        proof {
            reveal(CPU::operand_address);
        }
        let pc = self.program_counter;
        match op.mnemonic {
            Mnemonic::BNE | Mnemonic::BVS | Mnemonic::BVC | Mnemonic::BPL | Mnemonic::BMI | Mnemonic::BEQ | Mnemonic::BCS | Mnemonic::BCC => {
                let taken = match op.mnemonic {
                    Mnemonic::BNE => !self.status.contains(StatusFlags::ZERO),
                    Mnemonic::BVS => self.status.contains(StatusFlags::OVERFLOW),
                    Mnemonic::BVC => !self.status.contains(StatusFlags::OVERFLOW),
                    Mnemonic::BPL => !self.status.contains(StatusFlags::NEGATIV),
                    Mnemonic::BMI => self.status.contains(StatusFlags::NEGATIV),
                    Mnemonic::BEQ => self.status.contains(StatusFlags::ZERO),
                    Mnemonic::BCS => self.status.contains(StatusFlags::CARRY),
                    _ => !self.status.contains(StatusFlags::CARRY),
                };
                !taken || is_mapped(pc)
            },
            Mnemonic::JMP | Mnemonic::JSR => word_is_mapped(pc),
            Mnemonic::JMPI => {
                if !word_is_mapped(pc) {
                    return false;
                }
                let ptr = self.mem_read_u16(pc);
                if ptr % 256 == 0xFF {
                    is_mapped(ptr) && is_mapped(ptr - 0xFF)
                } else {
                    word_is_mapped(ptr)
                }
            },
            Mnemonic::TAS | Mnemonic::SHX | Mnemonic::SHY => {
                if !word_is_mapped(pc) {
                    return false;
                }
                let index = match op.mnemonic {
                    Mnemonic::SHY => self.register_x,
                    _ => self.register_y,
                };
                let target = self.indexed_target(pc, index);
                is_mapped(target)
            },
            Mnemonic::AHX => match op.mode {
                AddressingMode::IndirectY => {
                    if !is_mapped(pc) {
                        return false;
                    }
                    let pos = self.mem_read(pc);
                    let target = self.indexed_target(pos as u16, self.register_y);
                    is_mapped(target)
                },
                _ => {
                    if !word_is_mapped(pc) {
                        return false;
                    }
                    let target = self.indexed_target(pc, self.register_y);
                    is_mapped(target)
                },
            },
            _ => match op.mode {
                AddressingMode::NoneAddressing => true,
                AddressingMode::Immediate => match op.mnemonic {
                    Mnemonic::NOP => {
                        let reads = op.code % 16 == 2 && op.code != 0x82 && op.code != 0xc2 && op.code != 0xe2;
                        !reads || is_mapped(pc)
                    },
                    _ => is_mapped(pc),
                },
                _ => {
                    let bytes = match op.mode {
                        AddressingMode::Absolute | AddressingMode::AbsoluteX | AddressingMode::AbsoluteY => word_is_mapped(pc),
                        _ => is_mapped(pc),
                    };
                    if !bytes {
                        return false;
                    }
                    let (addr, _) = self.get_absolute_address(&op.mode, pc);
                    is_mapped(addr)
                },
            },
        }
    }

    /// Runs the program until BRK, serving a pending
    /// non-maskable interrupt before each instruction; gives up after
    /// `u64::MAX` instructions.
    pub fn run(&mut self)
        requires
            old(self).wf(),
            old(self).run_mapped(u64::MAX as nat),
        ensures
            *final(self) == old(self).run_spec(u64::MAX as nat),
            final(self).wf(),
    {
        self.run_with_callback(|c: &mut CPU| ensures *final(c) == *old(c) {});
    }

    /// Like `run`, but hands the CPU to `callback` before each instruction
    /// (after serving a pending NMI), BRK included. The
    /// callback may change the machine; if it leaves a PRG ROM that cannot
    /// serve its whole window, or a next instruction that would reach the
    /// PPU registers, the run stops right after the callback.
    ///
    /// Round `k` starts from `states[k]`: a pending NMI is served, the
    /// callback turns that machine into `handed[k]`, and one instruction
    /// runs on it, giving `states[k + 1]` and `outcomes[k]`.
    pub fn run_with_callback<F>(&mut self, callback: F) where F: FnMut(&mut CPU)
        requires
            old(self).wf(),
            forall|c: &mut CPU| (*c).wf() ==> #[trigger] call_requires(callback, (c,)),
        ensures
            exists|states: Seq<CPU>, handed: Seq<CPU>, outcomes: Seq<Option<StepOutcome>>|
                {
                    &&& #[trigger] callback_run_shape(*old(self), states, handed, outcomes)
                    &&& forall|k: int| #[trigger]
                        is_round(handed, k) ==> exists|c: &mut CPU|
                            #[trigger] call_ensures(callback, (c,), ()) && *c
                                == states[k].serve_nmi_spec() && *final(c) == handed[k]
                    &&& states.last() == *final(self)
                    &&& 1 <= handed.len() <= u64::MAX
                    &&& (outcomes.last() != Some(StepOutcome::Continue) || handed.len() == u64::MAX)
                },
            (forall|c: &mut CPU, r: ()| call_ensures(callback, (c,), r) ==> *final(c) == *c)
                && old(self).run_mapped(u64::MAX as nat) ==> *final(self) == old(self).run_spec(u64::MAX as nat) && final(self).wf(),
    {
        let mut handler = callback;
        let mut fuel: u64 = u64::MAX;
        let ghost start = *self;
        let ghost mut states: Seq<CPU> = seq![*self];
        let ghost mut handed: Seq<CPU> = Seq::empty();
        let ghost mut outcomes: Seq<Option<StepOutcome>> = Seq::empty();
        let ghost quiet = forall|c: &mut CPU, r: ()| call_ensures(callback, (c,), r) ==> *final(c) == *c;
        while fuel > 0
            invariant
                self.wf(),
                start == *old(self),
                handler == callback,
                forall|c: &mut CPU| (*c).wf() ==> #[trigger] call_requires(handler, (c,)),
                quiet == (forall|c: &mut CPU, r: ()| call_ensures(handler, (c,), r) ==> *final(c) == *c),
                quiet && start.run_mapped(u64::MAX as nat) ==> self.run_mapped(fuel as nat)
                    && start.run_spec(u64::MAX as nat) == self.run_spec(fuel as nat),
                callback_run_shape(start, states, handed, outcomes),
                forall|k: int| #[trigger]
                    is_round(handed, k) ==> exists|c: &mut CPU|
                        #[trigger] call_ensures(callback, (c,), ()) && *c
                            == states[k].serve_nmi_spec() && *final(c) == handed[k],
                states.last() == *self,
                handed.len() == u64::MAX - fuel,
                handed.len() > 0 ==> outcomes.last() == Some(StepOutcome::Continue),
            decreases fuel,
        {
            let ghost before = *self;
            if let Some(_nmi) = self.bus.poll_nmi_status() {
                self.interrupt(interrupt::nmi());
            }
            let ghost served = *self;
            assert(served == before.serve_nmi_spec());
            handler(self);
            assert(exists|c: &mut CPU|
                #[trigger] call_ensures(callback, (c,), ()) && *c == served && *final(c) == *self);
            assert(quiet ==> *self == served);
            let ghost given = *self;
            let window = self.bus.prg_window_filled();
            let go = window && self.step_is_mapped();
            let ghost after = if go { self.step_spec().0 } else { given };
            let outcome = if go {
                Some(self.step())
            } else {
                None
            };
            proof {
                lemma_extend_shape(start, states, handed, outcomes, given, after, outcome);
                let ghost (s0, h0) = (states, handed);
                states = states.push(after);
                handed = handed.push(given);
                outcomes = outcomes.push(outcome);
                assert forall|k: int| #[trigger] is_round(handed, k) implies exists|c: &mut CPU|
                    #[trigger] call_ensures(callback, (c,), ()) && *c == states[k].serve_nmi_spec()
                        && *final(c) == handed[k] by {
                    if k < h0.len() {
                        assert(is_round(h0, k));
                        assert(h0[k] == handed[k] && s0[k] == states[k]);
                    } else {
                        assert(states[k] == before && handed[k] == given);
                    }
                }
            }
            match outcome {
                Some(StepOutcome::Continue) => {
                    assert(quiet && start.run_mapped(u64::MAX as nat) ==> self.run_mapped((fuel - 1) as nat)
                        && before.run_spec(fuel as nat) == self.run_spec((fuel - 1) as nat));
                },
                _ => {
                    assert(quiet && start.run_mapped(u64::MAX as nat) ==> go && before.run_spec(fuel as nat) == *self);
                    return ;
                },
            }
            fuel = fuel - 1;
        }
    }
}

} // verus!
