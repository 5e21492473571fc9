//! Properties of the instruction set that span several instructions.
use vstd::prelude::*;

use super::addressing::AddressingMode;
use super::bus::{add_cycles, lemma_read_after_write, lemma_write_keeps_others};
use super::flags::{StatusFlags, lemma_with_bits_single, with_bits};
use super::interrupt::Interrupt;
use super::op::{Mnemonic, OpCode, is_branch, lemma_branch_entries, lemma_table, opcode_spec};
use super::semantics::{StepOutcome, page_crossed, signed};
use super::{CPU, LOAD_ADDRESS, STACK, word, wrap16, wrap8};

verus! {

/// A push followed by a pop gives the byte back and restores the stack
/// pointer; registers and flags are untouched.
pub proof fn lemma_push_pop(s: CPU, data: u8)
    ensures
        s.pushed(data).popped().1 == data,
        s.pushed(data).popped().0.sp == s.sp,
        s.pushed(data).popped().0.register_a == s.register_a,
        s.pushed(data).popped().0.status == s.status,
{
    lemma_read_after_write(s.bus, (STACK + s.sp) as u16, data);
}

/// Pushing a word and popping one gives the word back and restores the
/// stack pointer.
pub proof fn lemma_push_pop_u16(s: CPU, data: u16)
    ensures
        s.pushed_u16(data).popped_u16().1 == data,
        s.pushed_u16(data).popped_u16().0.sp == s.sp,
{
    let hi = (data / 256) as u8;
    let lo = (data % 256) as u8;
    let s1 = s.pushed(hi);
    lemma_read_after_write(s.bus, (STACK + s.sp) as u16, hi);
    lemma_read_after_write(s1.bus, (STACK + s1.sp) as u16, lo);
    lemma_write_keeps_others(s1.bus, (STACK + s1.sp) as u16, (STACK + s.sp) as u16, lo);
}

/// PHA then PLA leaves A as it was.
pub proof fn lemma_pha_pla(s: CPU)
    ensures
        s.pushed(s.register_a).pla_spec().register_a == s.register_a,
        s.pushed(s.register_a).pla_spec().sp == s.sp,
{
    reveal(CPU::pla_spec);
    lemma_push_pop(s, s.register_a);
}

/// PHP then PLP restores every flag but B, which ends clear, and bit 5,
/// which ends set.
pub proof fn lemma_php_plp(s: CPU)
    ensures
        s.php_spec().plp_spec().status.bits == with_bits(
            with_bits(s.status.bits, StatusFlags::BREAK, false),
            StatusFlags::BREAK2,
            true,
        ),
        s.php_spec().plp_spec().sp == s.sp,
{
    reveal(CPU::php_spec);
    reveal(CPU::plp_spec);
    let pushed = with_bits(
        with_bits(s.status.bits, StatusFlags::BREAK, true),
        StatusFlags::BREAK2,
        true,
    );
    lemma_push_pop(s, pushed);
    lemma_php_plp_bits(s.status.bits);
}

proof fn lemma_php_plp_bits(p: u8)
    by (bit_vector)
    ensures
        with_bits(
            with_bits(with_bits(with_bits(p, 0x10, true), 0x20, true), 0x10, false),
            0x20,
            true,
        ) == with_bits(with_bits(p, 0x10, false), 0x20, true),
{
}

/// After `with_zn(v)`: Z tells whether v is zero, N whether bit 7 is set,
/// and C, I, D, V are unchanged.
pub proof fn lemma_zero_negative(s: CPU, v: u8)
    ensures
        s.with_zn(v).flag(StatusFlags::ZERO) == (v == 0),
        s.with_zn(v).flag(StatusFlags::NEGATIV) == (v >= 128),
        s.with_zn(v).flag(StatusFlags::CARRY) == s.flag(StatusFlags::CARRY),
        s.with_zn(v).flag(StatusFlags::OVERFLOW) == s.flag(StatusFlags::OVERFLOW),
        s.with_zn(v).flag(StatusFlags::INTERRUPT_DISABLE) == s.flag(
            StatusFlags::INTERRUPT_DISABLE,
        ),
        s.with_zn(v).flag(StatusFlags::DECIMAL_MODE) == s.flag(StatusFlags::DECIMAL_MODE),
{
    let p = s.status.bits;
    let p1 = with_bits(p, StatusFlags::ZERO, v == 0);
    lemma_with_bits_single(p, StatusFlags::ZERO, StatusFlags::NEGATIV, v == 0);
    lemma_with_bits_single(p1, StatusFlags::NEGATIV, StatusFlags::ZERO, v >= 128);
    lemma_with_bits_single(p, StatusFlags::ZERO, StatusFlags::CARRY, v == 0);
    lemma_with_bits_single(p1, StatusFlags::NEGATIV, StatusFlags::CARRY, v >= 128);
    lemma_with_bits_single(p, StatusFlags::ZERO, StatusFlags::OVERFLOW, v == 0);
    lemma_with_bits_single(p1, StatusFlags::NEGATIV, StatusFlags::OVERFLOW, v >= 128);
    lemma_with_bits_single(p, StatusFlags::ZERO, StatusFlags::INTERRUPT_DISABLE, v == 0);
    lemma_with_bits_single(p1, StatusFlags::NEGATIV, StatusFlags::INTERRUPT_DISABLE, v >= 128);
    lemma_with_bits_single(p, StatusFlags::ZERO, StatusFlags::DECIMAL_MODE, v == 0);
    lemma_with_bits_single(p1, StatusFlags::NEGATIV, StatusFlags::DECIMAL_MODE, v >= 128);
}

proof fn lemma_overflow_bits(a: u8, m: u8, r: u8)
    by (bit_vector)
    ensures
        ((m ^ r) & (r ^ a) & 0x80 != 0) == ((a < 128) == (m < 128) && (r < 128) != (a < 128)),
{
}

/// ADC computes A + M + C: A gets the sum modulo 256, C the carry out of bit
/// 7, V whether the sum of the signed operands leaves -128..=127, and Z and N
/// describe the new A.
pub proof fn lemma_adc_arithmetic(s: CPU, m: u8)
    ensures
        s.add_spec(m).register_a == (s.register_a + m + s.carry_in()) % 256,
        s.add_spec(m).flag(StatusFlags::CARRY) == (s.register_a + m + s.carry_in() > 255),
        s.add_spec(m).flag(StatusFlags::OVERFLOW) == !(-128 <= signed(s.register_a) + signed(m)
            + s.carry_in() <= 127),
        s.add_spec(m).flag(StatusFlags::ZERO) == ((s.register_a + m + s.carry_in()) % 256 == 0),
        s.add_spec(m).flag(StatusFlags::NEGATIV) == ((s.register_a + m + s.carry_in()) % 256
            >= 128),
{
    reveal(CPU::add_spec);
    let a = s.register_a;
    let c = s.carry_in();
    let sum = a + m + c;
    let r = wrap8(sum);
    let overflow = (m ^ r) & (r ^ a) & 0x80 != 0;
    let s1 = s.with_flag(StatusFlags::CARRY, sum > 255);
    let s2 = s1.with_flag(StatusFlags::OVERFLOW, overflow);
    let s3 = CPU { register_a: r, ..s2 };
    lemma_with_bits_single(s.status.bits, StatusFlags::CARRY, StatusFlags::OVERFLOW, sum > 255);
    lemma_with_bits_single(s1.status.bits, StatusFlags::OVERFLOW, StatusFlags::CARRY, overflow);
    lemma_zero_negative(s3, r);
    lemma_overflow_bits(a, m, r);
}

/// SBC subtracts M and the borrow (the complement of C): it is ADC of the
/// one's complement of M.
pub proof fn lemma_sbc_is_adc_of_complement(s: CPU, m: u8)
    ensures
        s.sub_spec(m) == s.add_spec(!m),
        !m == 255 - m,
{
    assert(!m == (255 - m) as u8) by (bit_vector);
}

/// ROL A then ROR A gives back A and the carry.
pub proof fn lemma_rol_ror_accumulator(s: CPU)
    ensures
        s.rol_acc_spec().ror_acc_spec().register_a == s.register_a,
        s.rol_acc_spec().ror_acc_spec().flag(StatusFlags::CARRY) == s.flag(StatusFlags::CARRY),
{
    reveal(CPU::rol_acc_spec);
    reveal(CPU::ror_acc_spec);
    let a = s.register_a;
    let c = s.carry_in();
    let s1 = s.with_flag(StatusFlags::CARRY, a >= 128);
    lemma_with_bits_single(s.status.bits, StatusFlags::CARRY, StatusFlags::ZERO, a >= 128);
    let r = wrap8(a * 2 + c);
    let t = s1.with_a(r);
    lemma_zero_negative(s1, r);
    assert(t.flag(StatusFlags::CARRY) == (a >= 128));
    let t1 = t.with_flag(StatusFlags::CARRY, r % 2 == 1);
    lemma_with_bits_single(t.status.bits, StatusFlags::CARRY, StatusFlags::ZERO, r % 2 == 1);
    let back = (r / 2 + 128 * t.carry_in()) as u8;
    lemma_zero_negative(t1, back);
}

/// CMP, CPX, CPY: C tells whether the register is at least the operand, Z
/// whether they are equal.
pub proof fn lemma_compare(s: CPU, mode: super::addressing::AddressingMode, reg: u8)
    ensures
        s.compare_spec(mode, reg).flag(StatusFlags::CARRY) == (s.operand(mode) <= reg),
        s.compare_spec(mode, reg).flag(StatusFlags::ZERO) == (s.operand(mode) == reg),
{
    reveal(CPU::compare_spec);
    let m = s.operand(mode);
    let s1 = s.with_flag(StatusFlags::CARRY, m <= reg);
    lemma_with_bits_single(s.status.bits, StatusFlags::CARRY, StatusFlags::ZERO, m <= reg);
    lemma_zero_negative(s1, wrap8(reg - m));
}

/// `load` puts a program of at most 512 bytes (it then fits in the first
/// RAM copy) at 0x0600 onwards, byte for byte.
pub proof fn lemma_load_then_read(s: CPU, program: Seq<u8>, count: nat, i: int)
    requires
        count <= 0x200,
        count <= program.len(),
        0 <= i < count,
    ensures
        s.loaded(program, count).read((LOAD_ADDRESS + i) as u16) == program[i],
    decreases count,
{
    let prev = s.loaded(program, (count - 1) as nat);
    let at = (LOAD_ADDRESS + count - 1) as u16;
    if i == count - 1 {
        lemma_read_after_write(prev.bus, at, program[count - 1]);
    } else {
        lemma_load_then_read(s, program, (count - 1) as nat, i);
        lemma_write_keeps_others(prev.bus, at, (LOAD_ADDRESS + i) as u16, program[count - 1]);
    }
}

/// An interrupt followed by RTI returns to the interrupted instruction with
/// the stack pointer restored and the flags as they were, but B clear and
/// bit 5 set.
#[verifier::rlimit(100)]
#[verifier::spinoff_prover]
pub proof fn lemma_interrupt_rti(s: CPU, interrupt: Interrupt)
    ensures
        s.interrupt_spec(interrupt).rti_spec().program_counter == s.program_counter,
        s.interrupt_spec(interrupt).rti_spec().sp == s.sp,
        s.interrupt_spec(interrupt).rti_spec().status.bits == with_bits(
            with_bits(s.status.bits, StatusFlags::BREAK, false),
            StatusFlags::BREAK2,
            true,
        ),
{
    reveal(CPU::interrupt_spec);
    reveal(CPU::rti_spec);
    let pc = s.program_counter;
    let hi = (pc / 256) as u8;
    let lo = (pc % 256) as u8;
    let f = with_bits(
        with_bits(s.status.bits, StatusFlags::BREAK, false),
        StatusFlags::BREAK2,
        false,
    );
    let a = (STACK + s.sp) as u16;
    let s0 = s.pushed(hi);
    let b = (STACK + s0.sp) as u16;
    let s1 = s0.pushed(lo);
    let c = (STACK + s1.sp) as u16;
    let s2 = s1.pushed(f);
    let s3 = s2.with_flag(StatusFlags::INTERRUPT_DISABLE, true).ticked(interrupt.cpu_cycles);
    let t = s3.with_pc(s3.read_u16(interrupt.vec_addr));
    assert(s.pushed_u16(pc) == s1);
    assert(t == s.interrupt_spec(interrupt));
    // the three stack cells hold hi, lo and the flags
    lemma_read_after_write(s1.bus, c, f);
    lemma_read_after_write(s0.bus, b, lo);
    lemma_write_keeps_others(s1.bus, c, b, f);
    lemma_read_after_write(s.bus, a, hi);
    lemma_write_keeps_others(s0.bus, b, a, lo);
    lemma_write_keeps_others(s1.bus, c, a, f);
    assert(t.read(c) == f);
    assert(t.read(b) == lo);
    assert(t.read(a) == hi);
    let (u1, v) = t.popped();
    assert(v == f);
    let u2 = u1.with_status(CPU::pulled_status(v));
    let (u3, l) = u2.popped();
    assert(l == lo);
    let (u4, h) = u3.popped();
    assert(h == hi);
    assert(word(lo, hi) == pc);
    lemma_interrupt_flags(s.status.bits);
}

proof fn lemma_interrupt_flags(p: u8)
    by (bit_vector)
    ensures
        with_bits(
            with_bits(with_bits(with_bits(p, 0x10, false), 0x20, false), 0x10, false),
            0x20,
            true,
        ) == with_bits(with_bits(p, 0x10, false), 0x20, true),
{
}

/// BRK ends a run: with no interrupt pending and BRK at the program
/// counter, the run only moves the program counter past it.
pub proof fn lemma_brk_ends_run(s: CPU, fuel: nat)
    requires
        fuel > 0,
        s.bus.nmi_interrupt is None,
        s.read(s.program_counter) == 0x00,
    ensures
        s.run_spec(fuel) == s.with_pc(wrap16(s.program_counter + 1)),
{
    reveal(CPU::step_spec);
    assert(opcode_spec(0x00).mnemonic == Mnemonic::BRK);
}

/// Only BRK ends a program: a step that does not go on fetched 0x00 and
/// only moved the program counter past it.
pub proof fn lemma_only_brk_stops(s: CPU)
    ensures
        s.step_spec().1 != StepOutcome::Continue ==> s.read(s.program_counter) == 0x00
            && s.step_spec().0 == s.with_pc(wrap16(s.program_counter + 1)),
{
    reveal(CPU::step_spec);
}

/// JSR then RTS comes back right after the JSR's operand: with the program
/// counter on the operand bytes, RTS lands two bytes further on, and the
/// stack pointer is restored.
pub proof fn lemma_jsr_rts(s: CPU)
    ensures
        s.jsr_spec().rts_spec().program_counter == wrap16(s.program_counter + 2),
        s.jsr_spec().rts_spec().sp == s.sp,
{
    reveal(CPU::jsr_spec);
    reveal(CPU::rts_spec);
    let ret = wrap16(s.program_counter + 1);
    lemma_push_pop_u16(s, ret);
    let pushed = s.pushed_u16(ret);
    let t = pushed.with_pc(pushed.read_u16(s.program_counter));
    assert(t.popped_u16().1 == pushed.popped_u16().1);
}

/// Whether the branch `m` is taken in state `s`.
pub open spec fn branch_taken(s: CPU, m: Mnemonic) -> bool {
    match m {
        Mnemonic::BNE => !s.flag(StatusFlags::ZERO),
        Mnemonic::BEQ => s.flag(StatusFlags::ZERO),
        Mnemonic::BVC => !s.flag(StatusFlags::OVERFLOW),
        Mnemonic::BVS => s.flag(StatusFlags::OVERFLOW),
        Mnemonic::BPL => !s.flag(StatusFlags::NEGATIV),
        Mnemonic::BMI => s.flag(StatusFlags::NEGATIV),
        Mnemonic::BCC => !s.flag(StatusFlags::CARRY),
        Mnemonic::BCS => s.flag(StatusFlags::CARRY),
        _ => false,
    }
}

/// A branch instruction moves the program counter past its two bytes, plus
/// the signed offset when taken; it costs two cycles, one more when taken
/// and another when the target is on another page. (An offset of -1, which
/// would land on the offset byte itself, is left out: the step then moves
/// one byte further.)
#[verifier::rlimit(100)]
#[verifier::spinoff_prover]
pub proof fn lemma_branch_step(s: CPU)
    requires
        is_branch(opcode_spec(s.read(s.program_counter)).mnemonic),
        s.read(wrap16(s.program_counter + 1)) != 0xFF,
    ensures
        ({
            let m = opcode_spec(s.read(s.program_counter)).mnemonic;
            let next = wrap16(s.program_counter + 2);
            let target = wrap16(next + signed(s.read(wrap16(s.program_counter + 1))));
            let t = s.step_spec().0;
            &&& t.program_counter == if branch_taken(s, m) {
                target
            } else {
                next
            }
            &&& t.bus.cycles == if branch_taken(s, m) {
                if page_crossed(next, target) {
                    add_cycles(add_cycles(add_cycles(s.bus.cycles, 1), 1), 2)
                } else {
                    add_cycles(add_cycles(s.bus.cycles, 1), 2)
                }
            } else {
                add_cycles(s.bus.cycles, 2)
            }
            &&& s.step_spec().1 == StepOutcome::Continue
        }),
{
    reveal(CPU::step_spec);
    reveal(CPU::execute_spec);
    reveal(CPU::branch_spec);
    let code = s.read(s.program_counter);
    lemma_branch_entries(code);
    let fetched = s.with_pc(wrap16(s.program_counter + 1));
    let off = s.read(wrap16(s.program_counter + 1));
    assert(fetched.read(fetched.program_counter) == off);
    assert(wrap16(fetched.program_counter + 1) == wrap16(s.program_counter + 2));
    assert(signed(off) != -1);
}

/// The instructions that never set the program counter themselves.
pub open spec fn keeps_pc(m: Mnemonic) -> bool {
    !is_branch(m) && m != Mnemonic::JMP && m != Mnemonic::JMPI && m != Mnemonic::JSR && m
        != Mnemonic::RTS && m != Mnemonic::RTI && m != Mnemonic::BRK
}

/// Instructions other than jumps, calls, returns and branches leave the
/// program counter alone.
#[verifier::rlimit(100)]
#[verifier::spinoff_prover]
pub proof fn lemma_execute_keeps_pc(s: CPU, op: OpCode)
    requires
        keeps_pc(op.mnemonic),
    ensures
        s.execute_spec(op).program_counter == s.program_counter,
{
    reveal(CPU::execute_spec);
    reveal(CPU::lda_spec);
    reveal(CPU::ldx_spec);
    reveal(CPU::ldy_spec);
    reveal(CPU::store_spec);
    reveal(CPU::and_spec);
    reveal(CPU::eor_spec);
    reveal(CPU::ora_spec);
    reveal(CPU::add_spec);
    reveal(CPU::adc_spec);
    reveal(CPU::sbc_spec);
    reveal(CPU::compare_spec);
    reveal(CPU::bit_spec);
    reveal(CPU::asl_acc_spec);
    reveal(CPU::asl_spec);
    reveal(CPU::lsr_acc_spec);
    reveal(CPU::lsr_spec);
    reveal(CPU::rol_acc_spec);
    reveal(CPU::rol_spec);
    reveal(CPU::ror_acc_spec);
    reveal(CPU::ror_spec);
    reveal(CPU::inc_spec);
    reveal(CPU::dec_spec);
    reveal(CPU::pla_spec);
    reveal(CPU::plp_spec);
    reveal(CPU::php_spec);
    reveal(CPU::dcp_spec);
    reveal(CPU::axs_spec);
    reveal(CPU::arr_spec);
    reveal(CPU::anc_spec);
    reveal(CPU::alr_spec);
    reveal(CPU::lax_spec);
    reveal(CPU::xaa_spec);
    reveal(CPU::las_spec);
    reveal(CPU::tas_spec);
    reveal(CPU::ahx_indirect_spec);
    reveal(CPU::ahx_absolute_spec);
    reveal(CPU::shx_spec);
    reveal(CPU::shy_spec);
}

/// Such an instruction moves the program counter past its opcode and
/// operand bytes, and ends in `Continue`.
pub proof fn lemma_step_moves_past_instruction(s: CPU)
    requires
        keeps_pc(opcode_spec(s.read(s.program_counter)).mnemonic),
    ensures
        s.step_spec().0.program_counter == wrap16(
            s.program_counter + opcode_spec(s.read(s.program_counter)).pc_incr,
        ),
        s.step_spec().1 == StepOutcome::Continue,
{
    reveal(CPU::step_spec);
    let code = s.read(s.program_counter);
    let op = opcode_spec(code);
    lemma_table(code);
    let fetched = s.with_pc(wrap16(s.program_counter + 1));
    lemma_execute_keeps_pc(fetched, op);
}

/// Reset zeroes A, X and Y, puts the stack pointer at 0xFD and the status
/// at 0b100100 (interrupts masked, bit 5 set), and loads the program counter
/// with the little-endian word at 0xFFFC; memory and cycles are untouched.
pub proof fn lemma_reset(s: CPU)
    ensures
        s.reset_spec().register_a == 0,
        s.reset_spec().register_x == 0,
        s.reset_spec().register_y == 0,
        s.reset_spec().sp == 0xfd,
        s.reset_spec().status.bits == 0b100100,
        s.reset_spec().program_counter == s.read(0xFFFC) + 256 * s.read(0xFFFD),
        s.reset_spec().bus == s.bus,
{
}

/// (zp,X): the operand byte plus X, modulo 256, points into the zero page at
/// the little-endian effective address (its second byte wrapping within the
/// zero page); Y plays no part and no page crossing is reported.
pub proof fn lemma_indirect_x(s: CPU, addr: u16, y: u8)
    ensures
        ({
            let ptr = (s.read(addr) + s.register_x) % 256;
            s.absolute_address(AddressingMode::IndirectX, addr) == (
                (s.read(ptr as u16) + 256 * s.read(((ptr + 1) % 256) as u16)) as u16,
                false,
            )
        }),
        (CPU { register_y: y, ..s }).absolute_address(AddressingMode::IndirectX, addr)
            == s.absolute_address(AddressingMode::IndirectX, addr),
{
    reveal(CPU::absolute_address);
}

/// (zp),Y: the little-endian word in the zero page at the operand byte (its
/// second byte wrapping within the zero page) plus Y, modulo 2^16; a page
/// is crossed when the sum leaves the word's page. X plays no part.
pub proof fn lemma_indirect_y(s: CPU, addr: u16, x: u8)
    ensures
        ({
            let zp = s.read(addr) as int;
            let base = s.read(zp as u16) + 256 * s.read(((zp + 1) % 256) as u16);
            let target = (base + s.register_y) % 65536;
            s.absolute_address(AddressingMode::IndirectY, addr) == (
                target as u16,
                base / 256 != target / 256,
            )
        }),
        (CPU { register_x: x, ..s }).absolute_address(AddressingMode::IndirectY, addr)
            == s.absolute_address(AddressingMode::IndirectY, addr),
{
    reveal(CPU::absolute_address);
}

/// JMP (ptr): the pointer is the little-endian word at the operand bytes;
/// the program counter becomes the word stored at the pointer, its high byte
/// taken from the start of the pointer's page when the pointer ends a page.
/// Nothing but the program counter changes.
pub proof fn lemma_jmp_indirect(s: CPU)
    ensures
        ({
            let pc = s.program_counter as int;
            let ptr = s.read(pc as u16) + 256 * s.read(((pc + 1) % 65536) as u16);
            let hi_at = if ptr % 256 == 0xFF {
                ptr - 0xFF
            } else {
                ptr + 1
            };
            &&& s.jmp_indirect_spec().program_counter == s.read(ptr as u16) + 256 * s.read(
                hi_at as u16,
            )
            &&& s.jmp_indirect_spec() == s.with_pc(s.jmp_indirect_spec().program_counter)
        }),
{
    reveal(CPU::jmp_indirect_spec);
}

/// DEC on memory: the byte m at the operand address becomes (m - 1) modulo
/// 256, which is also returned; Z tells whether it is 0 and N whether it is
/// 128 or more; C and V, the registers and the program counter are kept.
pub proof fn lemma_dec_memory(s: CPU, mode: AddressingMode)
    ensures
        ({
            let addr = s.operand_address(mode).0;
            let m = s.read(addr);
            let (t, v) = s.dec_spec(mode);
            &&& v == (m + 255) % 256
            &&& t.bus == s.bus.write_spec(addr, v)
            &&& t.flag(StatusFlags::ZERO) == (v == 0)
            &&& t.flag(StatusFlags::NEGATIV) == (v >= 128)
            &&& t.flag(StatusFlags::CARRY) == s.flag(StatusFlags::CARRY)
            &&& t.flag(StatusFlags::OVERFLOW) == s.flag(StatusFlags::OVERFLOW)
            &&& t.register_a == s.register_a && t.register_x == s.register_x && t.register_y
                == s.register_y && t.sp == s.sp && t.program_counter == s.program_counter
        }),
{
    reveal(CPU::dec_spec);
    let addr = s.operand_address(mode).0;
    let v = wrap8(s.read(addr) - 1);
    lemma_zero_negative(s.write(addr, v), v);
}

/// INC on memory: the byte m at the operand address becomes (m + 1) modulo
/// 256, which is also returned; Z tells whether it is 0 and N whether it is
/// 128 or more; C and V, the registers and the program counter are kept.
pub proof fn lemma_inc_memory(s: CPU, mode: AddressingMode)
    ensures
        ({
            let addr = s.operand_address(mode).0;
            let m = s.read(addr);
            let (t, v) = s.inc_spec(mode);
            &&& v == (m + 1) % 256
            &&& t.bus == s.bus.write_spec(addr, v)
            &&& t.flag(StatusFlags::ZERO) == (v == 0)
            &&& t.flag(StatusFlags::NEGATIV) == (v >= 128)
            &&& t.flag(StatusFlags::CARRY) == s.flag(StatusFlags::CARRY)
            &&& t.flag(StatusFlags::OVERFLOW) == s.flag(StatusFlags::OVERFLOW)
            &&& t.register_a == s.register_a && t.register_x == s.register_x && t.register_y
                == s.register_y && t.sp == s.sp && t.program_counter == s.program_counter
        }),
{
    reveal(CPU::inc_spec);
    let addr = s.operand_address(mode).0;
    let v = wrap8(s.read(addr) + 1);
    lemma_zero_negative(s.write(addr, v), v);
}

/// `t` is `s` after a read-modify-write that left `v` at `addr`: Z and N
/// describe `v`, C is `carry`, V, the registers, the stack pointer and the
/// program counter are kept.
pub open spec fn rmw_leaves(s: CPU, t: CPU, addr: u16, v: u8, carry: bool) -> bool {
    &&& t.bus == s.bus.write_spec(addr, v)
    &&& t.flag(StatusFlags::ZERO) == (v == 0)
    &&& t.flag(StatusFlags::NEGATIV) == (v >= 128)
    &&& t.flag(StatusFlags::CARRY) == carry
    &&& t.flag(StatusFlags::OVERFLOW) == s.flag(StatusFlags::OVERFLOW)
    &&& t.register_a == s.register_a && t.register_x == s.register_x && t.register_y
        == s.register_y && t.sp == s.sp && t.program_counter == s.program_counter
}

proof fn lemma_carry_then_zn(s: CPU, addr: u16, c: bool, v: u8)
    ensures
        rmw_leaves(s, s.with_flag(StatusFlags::CARRY, c).write(addr, v).with_zn(v), addr, v, c),
{
    let p = s.status.bits;
    lemma_with_bits_single(p, StatusFlags::CARRY, StatusFlags::ZERO, c);
    lemma_with_bits_single(p, StatusFlags::CARRY, StatusFlags::OVERFLOW, c);
    lemma_zero_negative(s.with_flag(StatusFlags::CARRY, c).write(addr, v), v);
}

/// ASL on memory: the byte m becomes 2m modulo 256, C gets bit 7 of m.
pub proof fn lemma_asl_memory(s: CPU, mode: AddressingMode)
    ensures
        ({
            let addr = s.operand_address(mode).0;
            let m = s.read(addr);
            let (t, v) = s.asl_spec(mode);
            v == (2 * m) % 256 && rmw_leaves(s, t, addr, v, m >= 128)
        }),
{
    reveal(CPU::asl_spec);
    let addr = s.operand_address(mode).0;
    let m = s.read(addr);
    lemma_carry_then_zn(s, addr, m >= 128, wrap8(m * 2));
}

/// LSR on memory: the byte m becomes m / 2, C gets bit 0 of m, N is clear.
pub proof fn lemma_lsr_memory(s: CPU, mode: AddressingMode)
    ensures
        ({
            let addr = s.operand_address(mode).0;
            let m = s.read(addr);
            let (t, v) = s.lsr_spec(mode);
            v == m / 2 && v < 128 && rmw_leaves(s, t, addr, v, m % 2 == 1)
        }),
{
    reveal(CPU::lsr_spec);
    let addr = s.operand_address(mode).0;
    let m = s.read(addr);
    lemma_carry_then_zn(s, addr, m % 2 == 1, m / 2);
}

/// ROL on memory: the byte m becomes 2m + C modulo 256 (the old carry enters
/// bit 0), C gets bit 7 of m; Z and N describe the new byte.
pub proof fn lemma_rol_memory(s: CPU, mode: AddressingMode)
    ensures
        ({
            let addr = s.operand_address(mode).0;
            let m = s.read(addr);
            let c: int = if s.flag(StatusFlags::CARRY) { 1 } else { 0 };
            let (t, v) = s.rol_spec(mode);
            v == (2 * m + c) % 256 && rmw_leaves(s, t, addr, v, m >= 128)
        }),
{
    reveal(CPU::rol_spec);
    let addr = s.operand_address(mode).0;
    let m = s.read(addr);
    lemma_carry_then_zn(s, addr, m >= 128, wrap8(m * 2 + s.carry_in()));
}

/// ROR on memory: the byte m becomes m / 2 + 128 C (the old carry enters
/// bit 7), C gets bit 0 of m; Z and N describe the new byte.
pub proof fn lemma_ror_memory(s: CPU, mode: AddressingMode)
    ensures
        ({
            let addr = s.operand_address(mode).0;
            let m = s.read(addr);
            let c: int = if s.flag(StatusFlags::CARRY) { 1 } else { 0 };
            let (t, v) = s.ror_spec(mode);
            v == m / 2 + 128 * c && rmw_leaves(s, t, addr, v, m % 2 == 1)
        }),
{
    reveal(CPU::ror_spec);
    let addr = s.operand_address(mode).0;
    let m = s.read(addr);
    lemma_carry_then_zn(s, addr, m % 2 == 1, (m / 2 + 128 * s.carry_in()) as u8);
}

/// The direct and indexed modes, from the operand bytes at `addr`: zero
/// page indexing wraps within the zero page and never crosses a page;
/// absolute indexing wraps modulo 2^16 and crosses a page when the sum
/// leaves the base's page. An immediate operand sits at the program
/// counter; every other operand is reached through its address operand.
pub proof fn lemma_direct_modes(s: CPU, addr: u16)
    ensures
        ({
            let b = s.read(addr);
            let w = b + 256 * s.read(((addr + 1) % 65536) as u16);
            let tx = (w + s.register_x) % 65536;
            let ty = (w + s.register_y) % 65536;
            &&& s.absolute_address(AddressingMode::ZeroPage, addr) == (b as u16, false)
            &&& s.absolute_address(AddressingMode::Absolute, addr) == (w as u16, false)
            &&& s.absolute_address(AddressingMode::ZeroPageX, addr) == (
                ((b + s.register_x) % 256) as u16,
                false,
            )
            &&& s.absolute_address(AddressingMode::ZeroPageY, addr) == (
                ((b + s.register_y) % 256) as u16,
                false,
            )
            &&& s.absolute_address(AddressingMode::AbsoluteX, addr) == (
                tx as u16,
                w / 256 != tx / 256,
            )
            &&& s.absolute_address(AddressingMode::AbsoluteY, addr) == (
                ty as u16,
                w / 256 != ty / 256,
            )
        }),
        s.operand_address(AddressingMode::Immediate) == (s.program_counter, false),
        forall|mode: AddressingMode|
            mode != AddressingMode::Immediate ==> #[trigger] s.operand_address(mode)
                == s.absolute_address(mode, s.program_counter),
{
    reveal(CPU::absolute_address);
    reveal(CPU::operand_address);
}

/// JMP absolute: the program counter becomes the little-endian word at the
/// operand bytes, and nothing else changes.
pub proof fn lemma_jmp_absolute(s: CPU)
    ensures
        ({
            let pc = s.program_counter as int;
            s.jmp_absolute_spec() == s.with_pc(
                (s.read(pc as u16) + 256 * s.read(((pc + 1) % 65536) as u16)) as u16,
            )
        }),
{
    reveal(CPU::jmp_absolute_spec);
}

/// JSR pushes the address of its last operand byte, high byte first (so the
/// low byte ends on top, two bytes below the old stack pointer), and jumps
/// to the little-endian word at its operand bytes. The operand bytes are
/// read in ROM (at 0x2000 and above), where the pushes cannot reach them.
pub proof fn lemma_jsr(s: CPU)
    requires
        0x2000 <= s.program_counter < 0xFFFF,
    ensures
        ({
            let pc = s.program_counter;
            let ret = pc + 1;
            let t = s.jsr_spec();
            &&& t.program_counter == s.read(pc) + 256 * s.read((pc + 1) as u16)
            &&& t.sp == (s.sp + 254) % 256
            &&& t.read((0x100 + s.sp) as u16) == ret / 256
            &&& t.read((0x100 + (s.sp + 255) % 256) as u16) == ret % 256
            &&& t.register_a == s.register_a && t.register_x == s.register_x && t.register_y
                == s.register_y && t.status == s.status
        }),
{
    reveal(CPU::jsr_spec);
    let pc = s.program_counter;
    let ret = wrap16(pc + 1);
    let hi = (ret / 256) as u8;
    let lo = (ret % 256) as u8;
    let s1 = s.pushed(hi);
    let s2 = s1.pushed(lo);
    let a1 = (STACK + s.sp) as u16;
    let a2 = (STACK + s1.sp) as u16;
    lemma_read_after_write(s.bus, a1, hi);
    lemma_read_after_write(s1.bus, a2, lo);
    lemma_write_keeps_others(s1.bus, a2, a1, lo);
    lemma_write_keeps_others(s.bus, a1, pc, hi);
    lemma_write_keeps_others(s1.bus, a2, pc, lo);
    lemma_write_keeps_others(s.bus, a1, (pc + 1) as u16, hi);
    lemma_write_keeps_others(s1.bus, a2, (pc + 1) as u16, lo);
    assert(s2 == s.pushed_u16(ret));
}

/// RTS pulls the low byte, then the high byte, from just above the stack
/// pointer and resumes one past that address (modulo 2^16); the stack
/// pointer rises by two.
pub proof fn lemma_rts(s: CPU)
    ensures
        ({
            let lo = s.read((0x100 + (s.sp + 1) % 256) as u16);
            let hi = s.read((0x100 + (s.sp + 2) % 256) as u16);
            let t = s.rts_spec();
            &&& t.program_counter == (lo + 256 * hi + 1) % 65536
            &&& t.sp == (s.sp + 2) % 256
            &&& t.bus == s.bus
            &&& t.register_a == s.register_a && t.register_x == s.register_x && t.register_y
                == s.register_y && t.status == s.status
        }),
{
    reveal(CPU::rts_spec);
}

/// LDA, AND, EOR and ORA put the operand m, A & m, A ^ m or A | m in A, and
/// Z and N describe the new A.
pub proof fn lemma_load_and_logic(s: CPU, mode: AddressingMode)
    ensures
        ({
            let m = s.operand(mode);
            let a = s.register_a;
            &&& s.lda_spec(mode).register_a == m
            &&& s.and_spec(mode).register_a == a & m
            &&& s.eor_spec(mode).register_a == a ^ m
            &&& s.ora_spec(mode).register_a == a | m
            &&& s.lda_spec(mode).flag(StatusFlags::ZERO) == (m == 0)
            &&& s.lda_spec(mode).flag(StatusFlags::NEGATIV) == (m >= 128)
            &&& s.and_spec(mode).flag(StatusFlags::ZERO) == (a & m == 0)
            &&& s.and_spec(mode).flag(StatusFlags::NEGATIV) == (a & m >= 128)
            &&& s.eor_spec(mode).flag(StatusFlags::ZERO) == (a ^ m == 0)
            &&& s.eor_spec(mode).flag(StatusFlags::NEGATIV) == (a ^ m >= 128)
            &&& s.ora_spec(mode).flag(StatusFlags::ZERO) == (a | m == 0)
            &&& s.ora_spec(mode).flag(StatusFlags::NEGATIV) == (a | m >= 128)
        }),
{
    reveal(CPU::lda_spec);
    reveal(CPU::and_spec);
    reveal(CPU::eor_spec);
    reveal(CPU::ora_spec);
    let m = s.operand(mode);
    let a = s.register_a;
    assert(m & a == a & m && m ^ a == a ^ m && m | a == a | m) by (bit_vector);
    lemma_zero_negative(CPU { register_a: m, ..s }, m);
    lemma_zero_negative(CPU { register_a: a & m, ..s }, a & m);
    lemma_zero_negative(CPU { register_a: a ^ m, ..s }, a ^ m);
    lemma_zero_negative(CPU { register_a: a | m, ..s }, a | m);
}

/// BIT: Z tells whether A & m is zero, N copies bit 7 of m and V bit 6; A
/// and C are kept.
pub proof fn lemma_bit(s: CPU, mode: AddressingMode)
    ensures
        ({
            let m = s.operand(mode);
            let t = s.bit_spec(mode);
            &&& t.flag(StatusFlags::ZERO) == (s.register_a & m == 0)
            &&& t.flag(StatusFlags::NEGATIV) == (m & 0x80 != 0)
            &&& t.flag(StatusFlags::OVERFLOW) == (m & 0x40 != 0)
            &&& t.flag(StatusFlags::CARRY) == s.flag(StatusFlags::CARRY)
            &&& t.register_a == s.register_a
        }),
{
    reveal(CPU::bit_spec);
    let m = s.operand(mode);
    let p = s.status.bits;
    let z = s.register_a & m == 0;
    let p1 = with_bits(p, StatusFlags::ZERO, z);
    let p2 = with_bits(p1, StatusFlags::NEGATIV, m >= 128);
    lemma_with_bits_single(p, StatusFlags::ZERO, StatusFlags::NEGATIV, z);
    lemma_with_bits_single(p, StatusFlags::ZERO, StatusFlags::OVERFLOW, z);
    lemma_with_bits_single(p, StatusFlags::ZERO, StatusFlags::CARRY, z);
    lemma_with_bits_single(p1, StatusFlags::NEGATIV, StatusFlags::ZERO, m >= 128);
    lemma_with_bits_single(p1, StatusFlags::NEGATIV, StatusFlags::OVERFLOW, m >= 128);
    lemma_with_bits_single(p1, StatusFlags::NEGATIV, StatusFlags::CARRY, m >= 128);
    lemma_with_bits_single(p2, StatusFlags::OVERFLOW, StatusFlags::ZERO, (m / 64) % 2 == 1);
    lemma_with_bits_single(p2, StatusFlags::OVERFLOW, StatusFlags::NEGATIV, (m / 64) % 2 == 1);
    lemma_with_bits_single(p2, StatusFlags::OVERFLOW, StatusFlags::CARRY, (m / 64) % 2 == 1);
    assert((m & 0x80 != 0) == (m >= 128) && (m & 0x40 != 0) == ((m / 64) % 2 == 1)) by (bit_vector);
}

} // verus!
