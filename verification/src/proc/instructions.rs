//! The instructions, one function each, proved against `semantics`.
use vstd::prelude::*;

use super::addressing::{AddressingMode, has_operand, is_memory_mode};
use super::flags::StatusFlags;
use super::interrupt::Interrupt;
use super::bus::{mapped, word_mapped};
use super::semantics::page_crossed;
use super::{
    CPU, Mem, STACK, lemma_split_word, lemma_word_bits, lemma_wrapping_add_u16, lemma_wrapping_add_u8,
    word, wrap16, wrap8,
};

verus! {

proof fn lemma_page_bits(a: u16, b: u16)
    by (bit_vector)
    ensures
        (a & 0xFF00 != b & 0xFF00) == (a / 256 != b / 256),
{
}

/// The bit facts that the shifts, rotations and flag tests rely on.
pub proof fn lemma_byte_bits(v: u8)
    by (bit_vector)
    ensures
        (v >> 7 == 1) == (v >= 128),
        (v & 1 == 1) == (v % 2 == 1),
        (v << 1) == ((v * 2) % 256) as u8,
        ((v << 1) | 1) == ((2 * v + 1) % 256) as u8,
        (v >> 1) == v / 2,
        ((v >> 1) | 0b1000_0000) == (v / 2 + 128) as u8,
        (v >> 5) & 1 == (v / 32) % 2,
        (v >> 6) & 1 == (v / 64) % 2,
        (v & 0b1000_0000 > 0) == (v >= 128),
        (v & 0b0100_0000 > 0) == ((v / 64) % 2 == 1),
        (((v >> 5) & 1) ^ ((v >> 6) & 1) == 1) == ((v / 32) % 2 != (v / 64) % 2),
        !v == (255 - v) as u8,
{
}

proof fn lemma_interrupt_mask(m: u8)
    by (bit_vector)
    ensures
        (m & 0b010000 == 1) == false,
        (m & 0b100000 == 1) == false,
{
}

proof fn lemma_page_start(ptr: u16)
    by (bit_vector)
    ensures
        (ptr & 0x00FF == 0x00FF) == (ptr % 256 == 0xFF),
        ptr % 256 == 0xFF ==> ptr & 0xFF00 == (ptr - 0xFF) as u16,
        (ptr >> 8) == ptr / 256,
{
}

fn page_cross(addr1: u16, addr2: u16) -> (r: bool)
    ensures
        r == page_crossed(addr1, addr2),
{
    proof {
        lemma_page_bits(addr1, addr2);
    }
    addr1 & 0xFF00 != addr2 & 0xFF00
}

impl CPU {
    /// The effective address that `mode` computes from the operand bytes at
    /// `addr`, and whether indexing crossed a page (which costs a cycle).
    /// Zero page indexed: the index is added modulo 256.
    fn zero_page_indexed(&mut self, addr: u16, index: u8) -> (r: u16)
        requires
            mapped(addr),
            old(self).wf(),
        ensures
            r == wrap8(old(self).read(addr) + index) as u16,
            *final(self) == *old(self),
    {
        let pos = self.mem_read(addr);
        proof {
            lemma_wrapping_add_u8(pos, index);
        }
        pos.wrapping_add(index) as u16
    }

    /// Absolute indexed: the index is added modulo 2^16.
    fn absolute_indexed(&mut self, addr: u16, index: u8) -> (r: (u16, bool))
        requires
            word_mapped(addr),
            old(self).wf(),
        ensures
            r == ({
                let base = old(self).read_u16(addr);
                let a = wrap16(base + index);
                (a, page_crossed(base, a))
            }),
            *final(self) == *old(self),
    {
        let base = self.mem_read_u16(addr);
        let addr = base.wrapping_add(index as u16);
        proof {
            lemma_wrapping_add_u16(base, index as u16);
        }
        (addr, page_cross(base, addr))
    }

    /// The little-endian pointer stored in zero page at `ptr` and `ptr + 1`
    /// (wrapping within the zero page).
    fn zero_page_pointer(&mut self, ptr: u8) -> (r: u16)
        requires
            old(self).wf(),
        ensures
            r == word(old(self).read(ptr as u16), old(self).read(wrap8(ptr + 1) as u16)),
            *final(self) == *old(self),
    {
        let lo = self.mem_read(ptr as u16);
        let hi = self.mem_read(ptr.wrapping_add(1) as u16);
        proof {
            lemma_wrapping_add_u8(ptr, 1);
            lemma_word_bits(lo, hi);
        }
        (hi as u16) << 8 | (lo as u16)
    }

    /// The effective address that `mode` computes from the operand bytes at
    /// `addr`, and whether indexing crossed a page (which costs a cycle).
    pub fn get_absolute_address(&mut self, mode: &AddressingMode, addr: u16) -> (r: (u16, bool))
        requires
            CPU::address_bytes_mapped(*mode, addr),
            old(self).wf(),
            is_memory_mode(*mode),
        ensures
            r == old(self).absolute_address(*mode, addr),
            *final(self) == *old(self),
    {
        proof {
            reveal(CPU::absolute_address);
        }
        match mode {
            AddressingMode::ZeroPage => (self.mem_read(addr) as u16, false),
            AddressingMode::Absolute => (self.mem_read_u16(addr), false),
            AddressingMode::ZeroPageX => (self.zero_page_indexed(addr, self.register_x), false),
            AddressingMode::ZeroPageY => (self.zero_page_indexed(addr, self.register_y), false),
            AddressingMode::AbsoluteX => self.absolute_indexed(addr, self.register_x),
            AddressingMode::AbsoluteY => self.absolute_indexed(addr, self.register_y),
            AddressingMode::IndirectX => {
                let base = self.mem_read(addr);
                let ptr: u8 = base.wrapping_add(self.register_x);
                proof {
                    lemma_wrapping_add_u8(base, self.register_x);
                }
                (self.zero_page_pointer(ptr), false)
            },
            AddressingMode::IndirectY => {
                let base = self.mem_read(addr);
                let deref_base = self.zero_page_pointer(base);
                let deref = deref_base.wrapping_add(self.register_y as u16);
                proof {
                    lemma_wrapping_add_u16(deref_base, self.register_y as u16);
                }
                (deref, page_cross(deref_base, deref))
            },
            AddressingMode::Immediate | AddressingMode::NoneAddressing => {
                // excluded by the precondition
                (0, false)
            },
        }
    }

    pub(crate) fn get_operand_address(&mut self, mode: &AddressingMode) -> (r: (u16, bool))
        requires
            old(self).operand_address_mapped(*mode),
            old(self).wf(),
            has_operand(*mode),
        ensures
            r == old(self).operand_address(*mode),
            *final(self) == *old(self),
    {
        proof {
            reveal(CPU::operand_address);
        }
        match mode {
            AddressingMode::Immediate => (self.program_counter, false),
            _ => self.get_absolute_address(mode, self.program_counter),
        }
    }

    /// The operand byte and whether fetching it crossed a page.
    fn read_operand(&mut self, mode: &AddressingMode) -> (r: (u8, bool))
        requires
            old(self).operand_mapped(*mode),
            old(self).wf(),
            has_operand(*mode),
        ensures
            r == (old(self).operand(*mode), old(self).crossed(*mode)),
            *final(self) == *old(self),
    {
        let (addr, page_cross) = self.get_operand_address(mode);
        let data = self.mem_read(addr);
        (data, page_cross)
    }

    fn tick_if_crossed(&mut self, page_cross: bool)
        ensures
            *final(self) == old(self).ticked_if(page_cross),
            final(self).bus.rom == old(self).bus.rom,
    {
        if page_cross {
            self.bus.tick(1);
        }
    }

    pub(crate) fn update_zero_and_negative_flags(&mut self, result: u8)
        ensures
            *final(self) == old(self).with_zn(result),
            final(self).bus == old(self).bus,
    {
        if result == 0 {
            self.status.insert(StatusFlags::ZERO);
        } else {
            self.status.remove(StatusFlags::ZERO);
        }
        self.update_negative_flags(result);
    }

    fn update_negative_flags(&mut self, result: u8)
        ensures
            *final(self) == old(self).with_n(result),
            final(self).bus == old(self).bus,
    {
        proof {
            lemma_byte_bits(result);
        }
        if result >> 7 == 1 {
            self.status.insert(StatusFlags::NEGATIV)
        } else {
            self.status.remove(StatusFlags::NEGATIV)
        }
    }

    pub(crate) fn set_register_a(&mut self, value: u8)
        ensures
            *final(self) == old(self).with_a(value),
            final(self).bus == old(self).bus,
    {
        self.register_a = value;
        self.update_zero_and_negative_flags(self.register_a);
    }

    pub(crate) fn set_register_x(&mut self, value: u8)
        ensures
            *final(self) == old(self).with_x(value),
            final(self).bus == old(self).bus,
    {
        self.register_x = value;
        self.update_zero_and_negative_flags(self.register_x);
    }

    pub(crate) fn set_register_y(&mut self, value: u8)
        ensures
            *final(self) == old(self).with_y(value),
            final(self).bus == old(self).bus,
    {
        self.register_y = value;
        self.update_zero_and_negative_flags(self.register_y);
    }

    pub(crate) fn set_carry_flag(&mut self)
        ensures
            *final(self) == old(self).with_flag(StatusFlags::CARRY, true),
            final(self).bus == old(self).bus,
    {
        self.status.insert(StatusFlags::CARRY)
    }

    pub(crate) fn clear_carry_flag(&mut self)
        ensures
            *final(self) == old(self).with_flag(StatusFlags::CARRY, false),
            final(self).bus == old(self).bus,
    {
        self.status.remove(StatusFlags::CARRY)
    }

    fn update_carry_flag(&mut self, on: bool)
        ensures
            *final(self) == old(self).with_flag(StatusFlags::CARRY, on),
            final(self).bus == old(self).bus,
    {
        if on {
            self.set_carry_flag();
        } else {
            self.clear_carry_flag();
        }
    }

    // ---- loads and stores ----
    pub(crate) fn lda(&mut self, mode: &AddressingMode)
        requires
            old(self).operand_mapped(*mode),
            old(self).wf(),
            has_operand(*mode),
        ensures
            *final(self) == old(self).lda_spec(*mode),
            final(self).wf(),
    {
        proof {
            reveal(CPU::lda_spec);
        }
        let (value, page_cross) = self.read_operand(mode);
        self.set_register_a(value);
        self.tick_if_crossed(page_cross);
    }

    pub(crate) fn ldx(&mut self, mode: &AddressingMode)
        requires
            old(self).operand_mapped(*mode),
            old(self).wf(),
            has_operand(*mode),
        ensures
            *final(self) == old(self).ldx_spec(*mode),
            final(self).wf(),
    {
        proof {
            reveal(CPU::ldx_spec);
        }
        let (data, page_cross) = self.read_operand(mode);
        self.set_register_x(data);
        self.tick_if_crossed(page_cross);
    }

    pub(crate) fn ldy(&mut self, mode: &AddressingMode)
        requires
            old(self).operand_mapped(*mode),
            old(self).wf(),
            has_operand(*mode),
        ensures
            *final(self) == old(self).ldy_spec(*mode),
            final(self).wf(),
    {
        proof {
            reveal(CPU::ldy_spec);
        }
        let (data, page_cross) = self.read_operand(mode);
        self.set_register_y(data);
        self.tick_if_crossed(page_cross);
    }

    /// STA, STX, STY, SAX: `data` to the operand address.
    pub(crate) fn store(&mut self, mode: &AddressingMode, data: u8)
        requires
            old(self).operand_mapped(*mode),
            old(self).wf(),
            has_operand(*mode),
        ensures
            *final(self) == old(self).store_spec(*mode, data),
            final(self).wf(),
    {
        proof {
            reveal(CPU::store_spec);
        }
        let (addr, _) = self.get_operand_address(mode);
        self.mem_write(addr, data);
    }

    // ---- logic and arithmetic ----
    pub(crate) fn and(&mut self, mode: &AddressingMode)
        requires
            old(self).operand_mapped(*mode),
            old(self).wf(),
            has_operand(*mode),
        ensures
            *final(self) == old(self).and_spec(*mode),
            final(self).wf(),
    {
        proof {
            reveal(CPU::and_spec);
        }
        let (data, page_cross) = self.read_operand(mode);
        self.set_register_a(data & self.register_a);
        self.tick_if_crossed(page_cross);
    }

    pub(crate) fn eor(&mut self, mode: &AddressingMode)
        requires
            old(self).operand_mapped(*mode),
            old(self).wf(),
            has_operand(*mode),
        ensures
            *final(self) == old(self).eor_spec(*mode),
            final(self).wf(),
    {
        proof {
            reveal(CPU::eor_spec);
        }
        let (data, page_cross) = self.read_operand(mode);
        self.set_register_a(data ^ self.register_a);
        self.tick_if_crossed(page_cross);
    }

    pub(crate) fn ora(&mut self, mode: &AddressingMode)
        requires
            old(self).operand_mapped(*mode),
            old(self).wf(),
            has_operand(*mode),
        ensures
            *final(self) == old(self).ora_spec(*mode),
            final(self).wf(),
    {
        proof {
            reveal(CPU::ora_spec);
        }
        let (data, page_cross) = self.read_operand(mode);
        self.set_register_a(data | self.register_a);
        self.tick_if_crossed(page_cross);
    }

    /// Decimal mode is ignored; see the 6502 overflow flag explained at
    /// http://www.righto.com/2012/12/the-6502-overflow-flag-explained.html
    pub(crate) fn add_to_register_a(&mut self, data: u8)
        ensures
            *final(self) == old(self).add_spec(data),
            final(self).bus == old(self).bus,
    {
        proof {
            reveal(CPU::add_spec);
        }
        let sum = self.register_a as u16 + data as u16 + (if self.status.contains(
            StatusFlags::CARRY,
        ) {
            1
        } else {
            0
        }) as u16;

        let carry = sum > 0xff;

        if carry {
            self.set_carry_flag();
        } else {
            self.clear_carry_flag();
        }

        let result = (sum % 256) as u8;

        if (data ^ result) & (result ^ self.register_a) & 0x80 != 0 {
            self.status.insert(StatusFlags::OVERFLOW);
        } else {
            self.status.remove(StatusFlags::OVERFLOW)
        }

        self.set_register_a(result);
    }

    /// Adds the one's complement of `data` (that is -data - 1).
    pub(crate) fn sub_from_register_a(&mut self, data: u8)
        ensures
            *final(self) == old(self).sub_spec(data),
            final(self).bus == old(self).bus,
    {
        self.add_to_register_a(!data);
    }

    pub(crate) fn and_with_register_a(&mut self, data: u8)
        ensures
            *final(self) == old(self).with_a(data & old(self).register_a),
            final(self).bus == old(self).bus,
    {
        self.set_register_a(data & self.register_a);
    }

    pub(crate) fn xor_with_register_a(&mut self, data: u8)
        ensures
            *final(self) == old(self).with_a(data ^ old(self).register_a),
            final(self).bus == old(self).bus,
    {
        self.set_register_a(data ^ self.register_a);
    }

    pub(crate) fn or_with_register_a(&mut self, data: u8)
        ensures
            *final(self) == old(self).with_a(data | old(self).register_a),
            final(self).bus == old(self).bus,
    {
        self.set_register_a(data | self.register_a);
    }

    pub(crate) fn sbc(&mut self, mode: &AddressingMode)
        requires
            old(self).operand_mapped(*mode),
            old(self).wf(),
            has_operand(*mode),
        ensures
            *final(self) == old(self).sbc_spec(*mode),
            final(self).wf(),
    {
        proof {
            reveal(CPU::sbc_spec);
        }
        let (data, page_cross) = self.read_operand(mode);
        self.sub_from_register_a(data);
        self.tick_if_crossed(page_cross);
    }

    pub(crate) fn adc(&mut self, mode: &AddressingMode)
        requires
            old(self).operand_mapped(*mode),
            old(self).wf(),
            has_operand(*mode),
        ensures
            *final(self) == old(self).adc_spec(*mode),
            final(self).wf(),
    {
        proof {
            reveal(CPU::adc_spec);
        }
        let (value, page_cross) = self.read_operand(mode);
        self.add_to_register_a(value);
        self.tick_if_crossed(page_cross);
    }

    pub(crate) fn compare(&mut self, mode: &AddressingMode, compare_with: u8)
        requires
            old(self).operand_mapped(*mode),
            old(self).wf(),
            has_operand(*mode),
        ensures
            *final(self) == old(self).compare_spec(*mode, compare_with),
            final(self).wf(),
    {
        proof {
            reveal(CPU::compare_spec);
        }
        let (data, page_cross) = self.read_operand(mode);
        if data <= compare_with {
            self.status.insert(StatusFlags::CARRY);
        } else {
            self.status.remove(StatusFlags::CARRY);
        }

        self.update_zero_and_negative_flags(compare_with.wrapping_sub(data));
        self.tick_if_crossed(page_cross);
    }

    pub(crate) fn bit(&mut self, mode: &AddressingMode)
        requires
            old(self).operand_mapped(*mode),
            old(self).wf(),
            has_operand(*mode),
        ensures
            *final(self) == old(self).bit_spec(*mode),
            final(self).wf(),
    {
        proof {
            reveal(CPU::bit_spec);
        }
        let (data, _) = self.read_operand(mode);
        let and = self.register_a & data;
        if and == 0 {
            self.status.insert(StatusFlags::ZERO);
        } else {
            self.status.remove(StatusFlags::ZERO);
        }
        proof {
            lemma_byte_bits(data);
        }
        self.status.set(StatusFlags::NEGATIV, data & 0b10000000 > 0);
        self.status.set(StatusFlags::OVERFLOW, data & 0b01000000 > 0);
    }

    // ---- shifts and rotations ----
    pub(crate) fn asl_accumulator(&mut self)
        ensures
            *final(self) == old(self).asl_acc_spec(),
            final(self).bus == old(self).bus,
    {
        proof {
            reveal(CPU::asl_acc_spec);
        }
        let mut data = self.register_a;
        proof {
            lemma_byte_bits(data);
        }
        if data >> 7 == 1 {
            self.set_carry_flag();
        } else {
            self.clear_carry_flag();
        }
        data = data << 1;
        self.set_register_a(data)
    }

    pub(crate) fn asl(&mut self, mode: &AddressingMode) -> (r: u8)
        requires
            old(self).operand_mapped(*mode),
            old(self).wf(),
            has_operand(*mode),
        ensures
            (*final(self), r) == old(self).asl_spec(*mode),
            final(self).wf(),
    {
        proof {
            reveal(CPU::asl_spec);
        }
        let (addr, _) = self.get_operand_address(mode);
        let mut data = self.mem_read(addr);
        proof {
            lemma_byte_bits(data);
        }
        if data >> 7 == 1 {
            self.set_carry_flag();
        } else {
            self.clear_carry_flag();
        }
        data = data << 1;
        self.mem_write(addr, data);
        self.update_zero_and_negative_flags(data);
        data
    }

    pub(crate) fn lsr_accumulator(&mut self)
        ensures
            *final(self) == old(self).lsr_acc_spec(),
            final(self).bus == old(self).bus,
    {
        proof {
            reveal(CPU::lsr_acc_spec);
        }
        let mut data = self.register_a;
        proof {
            lemma_byte_bits(data);
        }
        if data & 1 == 1 {
            self.set_carry_flag();
        } else {
            self.clear_carry_flag();
        }
        data = data >> 1;
        self.set_register_a(data)
    }

    pub(crate) fn lsr(&mut self, mode: &AddressingMode) -> (r: u8)
        requires
            old(self).operand_mapped(*mode),
            old(self).wf(),
            has_operand(*mode),
        ensures
            (*final(self), r) == old(self).lsr_spec(*mode),
            final(self).wf(),
    {
        proof {
            reveal(CPU::lsr_spec);
        }
        let (addr, _) = self.get_operand_address(mode);
        let mut data = self.mem_read(addr);
        proof {
            lemma_byte_bits(data);
        }
        if data & 1 == 1 {
            self.set_carry_flag();
        } else {
            self.clear_carry_flag();
        }
        data = data >> 1;
        self.mem_write(addr, data);
        self.update_zero_and_negative_flags(data);
        data
    }

    pub(crate) fn rol(&mut self, mode: &AddressingMode) -> (r: u8)
        requires
            old(self).operand_mapped(*mode),
            old(self).wf(),
            has_operand(*mode),
        ensures
            (*final(self), r) == old(self).rol_spec(*mode),
            final(self).wf(),
    {
        proof {
            reveal(CPU::rol_spec);
        }
        let (addr, _) = self.get_operand_address(mode);
        let mut data = self.mem_read(addr);
        let old_carry = self.status.contains(StatusFlags::CARRY);
        proof {
            lemma_byte_bits(data);
        }
        if data >> 7 == 1 {
            self.set_carry_flag();
        } else {
            self.clear_carry_flag();
        }
        data = data << 1;
        if old_carry {
            data = data | 1;
        }
        self.mem_write(addr, data);
        self.update_zero_and_negative_flags(data);
        data
    }

    pub(crate) fn rol_accumulator(&mut self)
        ensures
            *final(self) == old(self).rol_acc_spec(),
            final(self).bus == old(self).bus,
    {
        proof {
            reveal(CPU::rol_acc_spec);
        }
        let mut data = self.register_a;
        let old_carry = self.status.contains(StatusFlags::CARRY);
        proof {
            lemma_byte_bits(data);
        }
        if data >> 7 == 1 {
            self.set_carry_flag();
        } else {
            self.clear_carry_flag();
        }
        data = data << 1;
        if old_carry {
            data = data | 1;
        }
        self.set_register_a(data);
    }

    pub(crate) fn ror(&mut self, mode: &AddressingMode) -> (r: u8)
        requires
            old(self).operand_mapped(*mode),
            old(self).wf(),
            has_operand(*mode),
        ensures
            (*final(self), r) == old(self).ror_spec(*mode),
            final(self).wf(),
    {
        proof {
            reveal(CPU::ror_spec);
        }
        let (addr, _) = self.get_operand_address(mode);
        let mut data = self.mem_read(addr);
        let old_carry = self.status.contains(StatusFlags::CARRY);
        proof {
            lemma_byte_bits(data);
        }
        if data & 1 == 1 {
            self.set_carry_flag();
        } else {
            self.clear_carry_flag();
        }
        data = data >> 1;
        if old_carry {
            data = data | 0b10000000;
        }
        self.mem_write(addr, data);
        self.update_zero_and_negative_flags(data);
        data
    }

    pub(crate) fn ror_accumulator(&mut self)
        ensures
            *final(self) == old(self).ror_acc_spec(),
            final(self).bus == old(self).bus,
    {
        proof {
            reveal(CPU::ror_acc_spec);
        }
        let mut data = self.register_a;
        let old_carry = self.status.contains(StatusFlags::CARRY);
        proof {
            lemma_byte_bits(data);
        }
        if data & 1 == 1 {
            self.set_carry_flag();
        } else {
            self.clear_carry_flag();
        }
        data = data >> 1;
        if old_carry {
            data = data | 0b10000000;
        }
        self.set_register_a(data);
    }

    // ---- increments ----
    pub(crate) fn inc(&mut self, mode: &AddressingMode) -> (r: u8)
        requires
            old(self).operand_mapped(*mode),
            old(self).wf(),
            has_operand(*mode),
        ensures
            (*final(self), r) == old(self).inc_spec(*mode),
            final(self).wf(),
    {
        proof {
            reveal(CPU::inc_spec);
        }
        let (addr, _) = self.get_operand_address(mode);
        let mut data = self.mem_read(addr);
        data = data.wrapping_add(1);
        self.mem_write(addr, data);
        self.update_zero_and_negative_flags(data);
        data
    }

    pub(crate) fn dec(&mut self, mode: &AddressingMode) -> (r: u8)
        requires
            old(self).operand_mapped(*mode),
            old(self).wf(),
            has_operand(*mode),
        ensures
            (*final(self), r) == old(self).dec_spec(*mode),
            final(self).wf(),
    {
        proof {
            reveal(CPU::dec_spec);
        }
        let (addr, _) = self.get_operand_address(mode);
        let mut data = self.mem_read(addr);
        data = data.wrapping_sub(1);
        self.mem_write(addr, data);
        self.update_zero_and_negative_flags(data);
        data
    }

    pub(crate) fn tax(&mut self)
        ensures
            *final(self) == old(self).with_x(old(self).register_a),
            final(self).bus == old(self).bus,
    {
        self.register_x = self.register_a;
        self.update_zero_and_negative_flags(self.register_x);
    }

    pub(crate) fn inx(&mut self)
        ensures
            *final(self) == old(self).with_x(wrap8(old(self).register_x + 1)),
            final(self).bus == old(self).bus,
    {
        self.register_x = self.register_x.wrapping_add(1);
        self.update_zero_and_negative_flags(self.register_x);
    }

    pub(crate) fn iny(&mut self)
        ensures
            *final(self) == old(self).with_y(wrap8(old(self).register_y + 1)),
            final(self).bus == old(self).bus,
    {
        self.register_y = self.register_y.wrapping_add(1);
        self.update_zero_and_negative_flags(self.register_y);
    }

    pub(crate) fn dey(&mut self)
        ensures
            *final(self) == old(self).with_y(wrap8(old(self).register_y - 1)),
            final(self).bus == old(self).bus,
    {
        self.register_y = self.register_y.wrapping_sub(1);
        self.update_zero_and_negative_flags(self.register_y);
    }

    pub(crate) fn dex(&mut self)
        ensures
            *final(self) == old(self).with_x(wrap8(old(self).register_x - 1)),
            final(self).bus == old(self).bus,
    {
        self.register_x = self.register_x.wrapping_sub(1);
        self.update_zero_and_negative_flags(self.register_x);
    }

    // ---- stack ----
    pub(crate) fn stack_pop(&mut self) -> (r: u8)
        requires
            old(self).wf(),
        ensures
            (*final(self), r) == old(self).popped(),
            final(self).wf(),
    {
        self.sp = self.sp.wrapping_add(1);
        self.mem_read((STACK as u16) + self.sp as u16)
    }

    pub(crate) fn stack_push(&mut self, data: u8)
        requires
            old(self).wf(),
        ensures
            *final(self) == old(self).pushed(data),
            final(self).wf(),
    {
        self.mem_write((STACK as u16) + self.sp as u16, data);
        self.sp = self.sp.wrapping_sub(1)
    }

    pub(crate) fn stack_push_u16(&mut self, data: u16)
        requires
            old(self).wf(),
        ensures
            *final(self) == old(self).pushed_u16(data),
            final(self).wf(),
    {
        let hi = (data >> 8) as u8;
        let lo = (data & 0xff) as u8;
        proof {
            lemma_split_word(data);
        }
        self.stack_push(hi);
        self.stack_push(lo);
    }

    pub(crate) fn stack_pop_u16(&mut self) -> (r: u16)
        requires
            old(self).wf(),
        ensures
            (*final(self), r) == old(self).popped_u16(),
            final(self).wf(),
    {
        let lo = self.stack_pop() as u16;
        let hi = self.stack_pop() as u16;
        proof {
            lemma_word_bits(lo as u8, hi as u8);
        }
        hi << 8 | lo
    }

    pub(crate) fn pla(&mut self)
        requires
            old(self).wf(),
        ensures
            *final(self) == old(self).pla_spec(),
            final(self).wf(),
    {
        proof {
            reveal(CPU::pla_spec);
        }
        let data = self.stack_pop();
        self.set_register_a(data);
    }

    /// Pulls the status; B is cleared and bit 5 set.
    fn pull_status(&mut self)
        requires
            old(self).wf(),
        ensures
            *final(self) == old(self).plp_spec(),
            final(self).wf(),
    {
        proof {
            reveal(CPU::plp_spec);
        }
        self.status.bits = self.stack_pop();
        self.status.remove(StatusFlags::BREAK);
        self.status.insert(StatusFlags::BREAK2);
    }

    pub(crate) fn plp(&mut self)
        requires
            old(self).wf(),
        ensures
            *final(self) == old(self).plp_spec(),
            final(self).wf(),
    {
        proof {
            reveal(CPU::plp_spec);
        }
        self.pull_status();
    }

    /// Pushes the status with B and bit 5 set (see
    /// https://www.nesdev.org/wiki/Status_flags).
    pub(crate) fn php(&mut self)
        requires
            old(self).wf(),
        ensures
            *final(self) == old(self).php_spec(),
            final(self).wf(),
    {
        proof {
            reveal(CPU::php_spec);
        }
        let mut flags = self.status.clone();
        flags.insert(StatusFlags::BREAK);
        flags.insert(StatusFlags::BREAK2);
        self.stack_push(flags.bits());
    }

    pub(crate) fn rti(&mut self)
        requires
            old(self).wf(),
        ensures
            *final(self) == old(self).rti_spec(),
            final(self).wf(),
    {
        proof {
            reveal(CPU::rti_spec);
            reveal(CPU::plp_spec);
        }
        self.pull_status();
        self.program_counter = self.stack_pop_u16();
    }

    // ---- control flow ----
    pub(crate) fn branch(&mut self, condition: bool)
        requires
            condition ==> mapped(old(self).program_counter),
            old(self).wf(),
        ensures
            *final(self) == old(self).branch_spec(condition),
            final(self).wf(),
    {
        proof {
            reveal(CPU::branch_spec);
        }
        if condition {
            self.bus.tick(1);
            let jump = self.mem_read(self.program_counter);
            // the offset is a signed byte: sign-extend it to 16 bits
            let offset: u16 = if jump < 0x80 {
                jump as u16
            } else {
                jump as u16 + 0xFF00
            };
            let jump_addr = self.program_counter.wrapping_add(1).wrapping_add(offset);

            if page_cross(self.program_counter.wrapping_add(1), jump_addr) {
                self.bus.tick(1);
            }

            self.program_counter = jump_addr;
        }
    }

    pub(crate) fn jmp_absolute(&mut self)
        requires
            word_mapped(old(self).program_counter),
            old(self).wf(),
        ensures
            *final(self) == old(self).jmp_absolute_spec(),
            final(self).wf(),
    {
        proof {
            reveal(CPU::jmp_absolute_spec);
        }
        let mem_address = self.mem_read_u16(self.program_counter);
        self.program_counter = mem_address;
    }

    /// Reproduces the 6502 bug: a pointer that ends a page takes its high
    /// byte from the start of that page.
    pub(crate) fn jmp_indirect(&mut self)
        requires
            word_mapped(old(self).program_counter),
            ({
                let ptr = old(self).read_u16(old(self).program_counter);
                if ptr % 256 == 0xFF {
                    mapped(ptr) && mapped((ptr - 0xFF) as u16)
                } else {
                    word_mapped(ptr)
                }
            }),
            old(self).wf(),
        ensures
            *final(self) == old(self).jmp_indirect_spec(),
            final(self).wf(),
    {
        proof {
            reveal(CPU::jmp_indirect_spec);
        }
        let mem_address = self.mem_read_u16(self.program_counter);
        proof {
            lemma_page_start(mem_address);
        }
        let indirect_ref = if mem_address & 0x00FF == 0x00FF {
            let lo = self.mem_read(mem_address);
            let hi = self.mem_read(mem_address & 0xFF00);
            proof {
                lemma_word_bits(lo, hi);
            }
            (hi as u16) << 8 | (lo as u16)
        } else {
            self.mem_read_u16(mem_address)
        };

        self.program_counter = indirect_ref;
    }

    pub(crate) fn jsr(&mut self)
        requires
            word_mapped(old(self).program_counter),
            old(self).wf(),
        ensures
            *final(self) == old(self).jsr_spec(),
            final(self).wf(),
    {
        proof {
            reveal(CPU::jsr_spec);
        }
        self.stack_push_u16(self.program_counter.wrapping_add(2).wrapping_sub(1));
        let target_address = self.mem_read_u16(self.program_counter);
        self.program_counter = target_address
    }

    pub(crate) fn rts(&mut self)
        requires
            old(self).wf(),
        ensures
            *final(self) == old(self).rts_spec(),
            final(self).wf(),
    {
        proof {
            reveal(CPU::rts_spec);
        }
        self.program_counter = self.stack_pop_u16().wrapping_add(1);
    }

    pub(crate) fn interrupt(&mut self, interrupt: Interrupt)
        requires
            word_mapped(interrupt.vec_addr),
            old(self).wf(),
        ensures
            *final(self) == old(self).interrupt_spec(interrupt),
            final(self).wf(),
    {
        proof {
            reveal(CPU::interrupt_spec);
        }
        self.stack_push_u16(self.program_counter);
        let mut flag = self.status.clone();
        proof {
            lemma_interrupt_mask(interrupt.b_flag_mask);
        }
        flag.set(StatusFlags::BREAK, interrupt.b_flag_mask & 0b010000 == 1);
        flag.set(StatusFlags::BREAK2, interrupt.b_flag_mask & 0b100000 == 1);

        self.stack_push(flag.bits());
        self.status.insert(StatusFlags::INTERRUPT_DISABLE);
        self.bus.tick(interrupt.cpu_cycles);
        self.program_counter = self.mem_read_u16(interrupt.vec_addr);
    }

    // ---- unofficial instructions ----
    pub(crate) fn dcp(&mut self, mode: &AddressingMode)
        requires
            old(self).operand_mapped(*mode),
            old(self).wf(),
            has_operand(*mode),
        ensures
            *final(self) == old(self).dcp_spec(*mode),
            final(self).wf(),
    {
        proof {
            reveal(CPU::dcp_spec);
        }
        let (addr, _) = self.get_operand_address(mode);
        let mut data = self.mem_read(addr);
        data = data.wrapping_sub(1);
        self.mem_write(addr, data);
        if data <= self.register_a {
            self.status.insert(StatusFlags::CARRY);
        }
        self.update_zero_and_negative_flags(self.register_a.wrapping_sub(data));
    }

    pub(crate) fn rla(&mut self, mode: &AddressingMode)
        requires
            old(self).operand_mapped(*mode),
            old(self).wf(),
            has_operand(*mode),
        ensures
            *final(self) == ({
                let (s, v) = old(self).rol_spec(*mode);
                s.with_a(v & s.register_a)
            }),
            final(self).wf(),
    {
        proof {
            reveal(CPU::rol_spec);
        }
        let data = self.rol(mode);
        self.and_with_register_a(data);
    }

    pub(crate) fn slo(&mut self, mode: &AddressingMode)
        requires
            old(self).operand_mapped(*mode),
            old(self).wf(),
            has_operand(*mode),
        ensures
            *final(self) == ({
                let (s, v) = old(self).asl_spec(*mode);
                s.with_a(v | s.register_a)
            }),
            final(self).wf(),
    {
        proof {
            reveal(CPU::asl_spec);
        }
        let data = self.asl(mode);
        self.or_with_register_a(data);
    }

    pub(crate) fn sre(&mut self, mode: &AddressingMode)
        requires
            old(self).operand_mapped(*mode),
            old(self).wf(),
            has_operand(*mode),
        ensures
            *final(self) == ({
                let (s, v) = old(self).lsr_spec(*mode);
                s.with_a(v ^ s.register_a)
            }),
            final(self).wf(),
    {
        proof {
            reveal(CPU::lsr_spec);
        }
        let data = self.lsr(mode);
        self.xor_with_register_a(data);
    }

    pub(crate) fn axs(&mut self, mode: &AddressingMode)
        requires
            old(self).operand_mapped(*mode),
            old(self).wf(),
            has_operand(*mode),
        ensures
            *final(self) == old(self).axs_spec(*mode),
            final(self).wf(),
    {
        proof {
            reveal(CPU::axs_spec);
        }
        let (data, _) = self.read_operand(mode);
        let x_and_a = self.register_x & self.register_a;
        let result = x_and_a.wrapping_sub(data);

        if data <= x_and_a {
            self.status.insert(StatusFlags::CARRY);
        }
        self.update_zero_and_negative_flags(result);

        self.register_x = result;
    }

    pub(crate) fn arr(&mut self, mode: &AddressingMode)
        requires
            old(self).operand_mapped(*mode),
            old(self).wf(),
            has_operand(*mode),
        ensures
            *final(self) == old(self).arr_spec(*mode),
            final(self).wf(),
    {
        proof {
            reveal(CPU::arr_spec);
        }
        let (data, _) = self.read_operand(mode);
        self.and_with_register_a(data);
        self.ror_accumulator();
        let result = self.register_a;
        proof {
            lemma_byte_bits(result);
        }
        let bit_5 = (result >> 5) & 1;
        let bit_6 = (result >> 6) & 1;

        if bit_6 == 1 {
            self.status.insert(StatusFlags::CARRY)
        } else {
            self.status.remove(StatusFlags::CARRY)
        }

        if bit_5 ^ bit_6 == 1 {
            self.status.insert(StatusFlags::OVERFLOW);
        } else {
            self.status.remove(StatusFlags::OVERFLOW);
        }

        self.update_zero_and_negative_flags(result);
    }

    pub(crate) fn anc(&mut self, mode: &AddressingMode)
        requires
            old(self).operand_mapped(*mode),
            old(self).wf(),
            has_operand(*mode),
        ensures
            *final(self) == old(self).anc_spec(*mode),
            final(self).wf(),
    {
        proof {
            reveal(CPU::anc_spec);
        }
        let (data, _) = self.read_operand(mode);
        self.and_with_register_a(data);
        if self.status.contains(StatusFlags::NEGATIV) {
            self.status.insert(StatusFlags::CARRY);
        } else {
            self.status.remove(StatusFlags::CARRY);
        }
    }

    pub(crate) fn alr(&mut self, mode: &AddressingMode)
        requires
            old(self).operand_mapped(*mode),
            old(self).wf(),
            has_operand(*mode),
        ensures
            *final(self) == old(self).alr_spec(*mode),
            final(self).wf(),
    {
        proof {
            reveal(CPU::alr_spec);
        }
        let (data, _) = self.read_operand(mode);
        self.and_with_register_a(data);
        self.lsr_accumulator();
    }

    /// The NOPs that read their operand (and pay for a page crossing).
    pub(crate) fn nop_read(&mut self, mode: &AddressingMode)
        requires
            old(self).operand_mapped(*mode),
            old(self).wf(),
            has_operand(*mode),
        ensures
            *final(self) == old(self).ticked_if(old(self).crossed(*mode)),
            final(self).wf(),
    {
        let (_data, page_cross) = self.read_operand(mode);
        self.tick_if_crossed(page_cross);
    }

    pub(crate) fn rra(&mut self, mode: &AddressingMode)
        requires
            old(self).operand_mapped(*mode),
            old(self).wf(),
            has_operand(*mode),
        ensures
            *final(self) == ({
                let (s, v) = old(self).ror_spec(*mode);
                s.add_spec(v)
            }),
            final(self).wf(),
    {
        proof {
            reveal(CPU::ror_spec);
        }
        let data = self.ror(mode);
        self.add_to_register_a(data);
    }

    pub(crate) fn isb(&mut self, mode: &AddressingMode)
        requires
            old(self).operand_mapped(*mode),
            old(self).wf(),
            has_operand(*mode),
        ensures
            *final(self) == ({
                let (s, v) = old(self).inc_spec(*mode);
                s.sub_spec(v)
            }),
            final(self).wf(),
    {
        proof {
            reveal(CPU::inc_spec);
        }
        let data = self.inc(mode);
        self.sub_from_register_a(data);
    }

    pub(crate) fn lax(&mut self, mode: &AddressingMode)
        requires
            old(self).operand_mapped(*mode),
            old(self).wf(),
            has_operand(*mode),
        ensures
            *final(self) == old(self).lax_spec(*mode),
            final(self).wf(),
    {
        proof {
            reveal(CPU::lax_spec);
        }
        let (data, _) = self.read_operand(mode);
        self.set_register_a(data);
        self.register_x = self.register_a;
    }

    pub(crate) fn lxa(&mut self, mode: &AddressingMode)
        requires
            old(self).operand_mapped(*mode),
            old(self).wf(),
            has_operand(*mode),
        ensures
            *final(self) == ({
                let s = old(self).lda_spec(*mode);
                s.with_x(s.register_a)
            }),
            final(self).wf(),
    {
        proof {
            reveal(CPU::lda_spec);
        }
        self.lda(mode);
        self.tax();
    }

    pub(crate) fn xaa(&mut self, mode: &AddressingMode)
        requires
            old(self).operand_mapped(*mode),
            old(self).wf(),
            has_operand(*mode),
        ensures
            *final(self) == old(self).xaa_spec(*mode),
            final(self).wf(),
    {
        proof {
            reveal(CPU::xaa_spec);
            reveal(CPU::operand_address);
            reveal(CPU::absolute_address);
        }
        self.register_a = self.register_x;
        self.update_zero_and_negative_flags(self.register_a);
        let (data, _) = self.read_operand(mode);
        self.and_with_register_a(data);
    }

    pub(crate) fn las(&mut self, mode: &AddressingMode)
        requires
            old(self).operand_mapped(*mode),
            old(self).wf(),
            has_operand(*mode),
        ensures
            *final(self) == old(self).las_spec(*mode),
            final(self).wf(),
    {
        proof {
            reveal(CPU::las_spec);
        }
        let (mut data, _) = self.read_operand(mode);
        data = data & self.sp;
        self.register_a = data;
        self.register_x = data;
        self.sp = data;
        self.update_zero_and_negative_flags(data);
    }

    /// The absolute,Y target of TAS, AHX, SHX: operand word plus `index`.
    pub(crate) fn indexed_target(&mut self, pos: u16, index: u8) -> (r: u16)
        requires
            word_mapped(pos),
            old(self).wf(),
        ensures
            r == wrap16(old(self).read_u16(pos) + index),
            *final(self) == *old(self),
    {
        let base = self.mem_read_u16(pos);
        proof {
            lemma_wrapping_add_u16(base, index as u16);
        }
        base.wrapping_add(index as u16)
    }

    /// The high byte of `addr` plus one, modulo 256.
    fn high_byte_plus_one(addr: u16) -> (r: u8)
        ensures
            r == wrap8(addr / 256 + 1),
    {
        proof {
            lemma_page_start(addr);
            lemma_wrapping_add_u8((addr >> 8) as u8, 1);
        }
        ((addr >> 8) as u8).wrapping_add(1)
    }

    pub(crate) fn tas(&mut self)
        requires
            word_mapped(old(self).program_counter),
            mapped(old(self).indexed_target_spec(old(self).program_counter, old(self).register_y)),
            old(self).wf(),
        ensures
            *final(self) == old(self).tas_spec(),
            final(self).wf(),
    {
        proof {
            reveal(CPU::tas_spec);
        }
        let data = self.register_a & self.register_x;
        self.sp = data;
        let mem_address = self.indexed_target(self.program_counter, self.register_y);
        let data = Self::high_byte_plus_one(mem_address) & self.sp;
        self.mem_write(mem_address, data)
    }

    pub(crate) fn ahx_indirect(&mut self)
        requires
            mapped(old(self).program_counter),
            mapped(old(self).indexed_target_spec(old(self).read(old(self).program_counter) as u16, old(self).register_y)),
            old(self).wf(),
        ensures
            *final(self) == old(self).ahx_indirect_spec(),
            final(self).wf(),
    {
        proof {
            reveal(CPU::ahx_indirect_spec);
        }
        let pos: u8 = self.mem_read(self.program_counter);
        let mem_address = self.indexed_target(pos as u16, self.register_y);
        proof {
            lemma_page_start(mem_address);
        }
        let data = self.register_a & self.register_x & (mem_address >> 8) as u8;
        self.mem_write(mem_address, data)
    }

    pub(crate) fn ahx_absolute(&mut self)
        requires
            word_mapped(old(self).program_counter),
            mapped(old(self).indexed_target_spec(old(self).program_counter, old(self).register_y)),
            old(self).wf(),
        ensures
            *final(self) == old(self).ahx_absolute_spec(),
            final(self).wf(),
    {
        proof {
            reveal(CPU::ahx_absolute_spec);
        }
        let mem_address = self.indexed_target(self.program_counter, self.register_y);
        proof {
            lemma_page_start(mem_address);
        }
        let data = self.register_a & self.register_x & (mem_address >> 8) as u8;
        self.mem_write(mem_address, data)
    }

    pub(crate) fn shx(&mut self)
        requires
            word_mapped(old(self).program_counter),
            mapped(old(self).indexed_target_spec(old(self).program_counter, old(self).register_y)),
            old(self).wf(),
        ensures
            *final(self) == old(self).shx_spec(),
            final(self).wf(),
    {
        proof {
            reveal(CPU::shx_spec);
        }
        let mem_address = self.indexed_target(self.program_counter, self.register_y);
        let data = self.register_x & Self::high_byte_plus_one(mem_address);
        self.mem_write(mem_address, data)
    }

    pub(crate) fn shy(&mut self)
        requires
            word_mapped(old(self).program_counter),
            mapped(old(self).indexed_target_spec(old(self).program_counter, old(self).register_x)),
            old(self).wf(),
        ensures
            *final(self) == old(self).shy_spec(),
            final(self).wf(),
    {
        proof {
            reveal(CPU::shy_spec);
        }
        let mem_address = self.indexed_target(self.program_counter, self.register_x);
        let data = self.register_y & Self::high_byte_plus_one(mem_address);
        self.mem_write(mem_address, data)
    }
}

} // verus!
