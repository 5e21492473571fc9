use nest::mem::rom::test::test_rom;
use nest::proc::bus::Bus;
use nest::proc::flags::StatusFlags;
use nest::proc::semantics::StepOutcome;
use nest::proc::{Mem, CPU, STACK_RESET};

fn cpu_with(program: Vec<u8>) -> CPU {
    CPU::new(Bus::new(test_rom(program)))
}

/// A full 32 KiB PRG image: `program` at 0x8000, `rest` placed at their
/// addresses.
fn image(program: &[u8], rest: &[(u16, u8)]) -> Vec<u8> {
    let mut prg = vec![0u8; 0x8000];
    prg[..program.len()].copy_from_slice(program);
    for &(addr, byte) in rest {
        prg[(addr - 0x8000) as usize] = byte;
    }
    prg
}

#[test]
fn adc_sets_overflow_and_negative() {
    // LDA #$50; ADC #$50
    let mut cpu = cpu_with(vec![0xa9, 0x50, 0x69, 0x50, 0x00]);
    cpu.run();
    assert_eq!(cpu.register_a, 0xa0);
    assert!(cpu.status.contains(StatusFlags::OVERFLOW));
    assert!(cpu.status.contains(StatusFlags::NEGATIV));
    assert!(!cpu.status.contains(StatusFlags::CARRY));
}

#[test]
fn adc_carry_out_without_overflow() {
    // LDA #$ff; ADC #$02 -> 0x01, C set, V clear
    let mut cpu = cpu_with(vec![0xa9, 0xff, 0x69, 0x02, 0x00]);
    cpu.run();
    assert_eq!(cpu.register_a, 0x01);
    assert!(cpu.status.contains(StatusFlags::CARRY));
    assert!(!cpu.status.contains(StatusFlags::OVERFLOW));
}

#[test]
fn sbc_with_carry_set_subtracts() {
    // SEC; LDA #5; SBC #3
    let mut cpu = cpu_with(vec![0x38, 0xa9, 0x05, 0xe9, 0x03, 0x00]);
    cpu.run();
    assert_eq!(cpu.register_a, 0x02);
    assert!(cpu.status.contains(StatusFlags::CARRY));
}

#[test]
fn sbc_borrow_clears_carry() {
    // SEC; LDA #3; SBC #5 -> 0xfe, C clear (borrow), N set
    let mut cpu = cpu_with(vec![0x38, 0xa9, 0x03, 0xe9, 0x05, 0x00]);
    cpu.run();
    assert_eq!(cpu.register_a, 0xfe);
    assert!(!cpu.status.contains(StatusFlags::CARRY));
    assert!(cpu.status.contains(StatusFlags::NEGATIV));
}

#[test]
fn rol_then_ror_restores_accumulator_and_carry() {
    // SEC; LDA #$81; ROL A; ROR A
    let mut cpu = cpu_with(vec![0x38, 0xa9, 0x81, 0x2a, 0x6a, 0x00]);
    cpu.run();
    assert_eq!(cpu.register_a, 0x81);
    assert!(cpu.status.contains(StatusFlags::CARRY));
}

#[test]
fn cmp_less_clears_carry() {
    // LDA #3; CMP #5
    let mut cpu = cpu_with(vec![0xa9, 0x03, 0xc9, 0x05, 0x00]);
    cpu.run();
    assert!(!cpu.status.contains(StatusFlags::CARRY));
    assert!(!cpu.status.contains(StatusFlags::ZERO));
    assert!(cpu.status.contains(StatusFlags::NEGATIV));
}

#[test]
fn store_and_memory_shifts() {
    // LDA #$81; STA $10; ASL $10; LDX $10; LSR $10; LDY $10
    let mut cpu = cpu_with(vec![
        0xa9, 0x81, 0x85, 0x10, 0x06, 0x10, 0xa6, 0x10, 0x46, 0x10, 0xa4, 0x10, 0x00,
    ]);
    cpu.run();
    assert_eq!(cpu.register_x, 0x02);
    assert_eq!(cpu.register_y, 0x01);
    assert!(!cpu.status.contains(StatusFlags::CARRY));
    assert_eq!(cpu.mem_read(0x10), 0x01);
}

#[test]
fn inc_and_dec_memory_wrap() {
    // INC $20 (0 -> 1); DEC $21 (0 -> 0xff); LDX $21
    let mut cpu = cpu_with(vec![0xe6, 0x20, 0xc6, 0x21, 0xa6, 0x21, 0x00]);
    cpu.run();
    assert_eq!(cpu.mem_read(0x20), 0x01);
    assert_eq!(cpu.register_x, 0xff);
    assert!(cpu.status.contains(StatusFlags::NEGATIV));
}

#[test]
fn indexed_zero_page_wraps() {
    // LDX #$ff; LDA #$42; STA $02,X -> writes 0x01
    let mut cpu = cpu_with(vec![0xa2, 0xff, 0xa9, 0x42, 0x95, 0x02, 0x00]);
    cpu.run();
    assert_eq!(cpu.mem_read(0x01), 0x42);
}

#[test]
fn indirect_y_reads_through_pointer() {
    // pointer at $10 -> $0300; Y = 2; value 0x77 at $0302
    // LDA #$00; STA $10; LDA #$03; STA $11; LDA #$77; STA $0302; LDY #2; LDA #0; LDA ($10),Y
    let mut cpu = cpu_with(vec![
        0xa9, 0x00, 0x85, 0x10, 0xa9, 0x03, 0x85, 0x11, 0xa9, 0x77, 0x8d, 0x02, 0x03, 0xa0,
        0x02, 0xa9, 0x00, 0xb1, 0x10, 0x00,
    ]);
    cpu.run();
    assert_eq!(cpu.register_a, 0x77);
}

#[test]
fn page_cross_costs_a_cycle() {
    // LDX #1; LDA $80ff,X (crosses into 0x8100): 2 + 4 + 1 cycles
    let mut cpu = cpu_with(vec![0xa2, 0x01, 0xbd, 0xff, 0x80, 0x00]);
    cpu.run();
    assert_eq!(cpu.bus.cycles, 7);
    // without crossing: LDX #1; LDA $8010,X: 2 + 4
    let mut cpu = cpu_with(vec![0xa2, 0x01, 0xbd, 0x10, 0x80, 0x00]);
    cpu.run();
    assert_eq!(cpu.bus.cycles, 6);
}

#[test]
fn nop_costs_two_cycles_and_brk_none() {
    let mut cpu = cpu_with(vec![0xea, 0x00]);
    cpu.run();
    assert_eq!(cpu.bus.cycles, 2);
    assert_eq!(cpu.program_counter, 0x8002);
}

#[test]
fn brk_stops_right_after_itself() {
    let mut cpu = cpu_with(vec![0x00]);
    cpu.run();
    assert_eq!(cpu.program_counter, 0x8001);
    assert_eq!(cpu.register_a, 0);
    assert_eq!(cpu.sp, STACK_RESET);
}

#[test]
fn x2_nops_read_their_operand_and_go_on() {
    // LDA #1; NOP #$a9 (0x02); LDA #9; BRK
    let mut cpu = cpu_with(vec![0xa9, 0x01, 0x02, 0xa9, 0xa9, 0x09, 0x00]);
    cpu.run();
    assert_eq!(cpu.register_a, 0x09);
    assert_eq!(cpu.program_counter, 0x8007);
    let mut cpu = cpu_with(vec![0x12, 0x00, 0x00]);
    assert_eq!(cpu.step(), StepOutcome::Continue);
    assert_eq!(cpu.program_counter, 0x8002);
}

#[test]
fn step_reports_outcomes() {
    let mut cpu = cpu_with(vec![0xa9, 0x05, 0x00]);
    assert_eq!(cpu.step(), StepOutcome::Continue);
    assert_eq!(cpu.register_a, 0x05);
    assert_eq!(cpu.program_counter, 0x8002);
    assert_eq!(cpu.step(), StepOutcome::Break);
}

#[test]
fn jsr_then_rts_returns_after_the_call() {
    // 8000: JSR $8005; 8003: BRK; 8005: LDA #7; RTS
    let mut cpu = cpu_with(vec![0x20, 0x05, 0x80, 0x00, 0x00, 0xa9, 0x07, 0x60]);
    cpu.run();
    assert_eq!(cpu.register_a, 0x07);
    assert_eq!(cpu.program_counter, 0x8004);
    assert_eq!(cpu.sp, STACK_RESET);
}

#[test]
fn jmp_indirect_wraps_within_the_page() {
    // $02FF = 0x20, $0200 = 0x80, $0300 = 0x90; JMP ($02FF) lands on $8020
    let program = [
        0xa9, 0x20, 0x8d, 0xff, 0x02, 0xa9, 0x80, 0x8d, 0x00, 0x02, 0xa9, 0x90, 0x8d, 0x00,
        0x03, 0x6c, 0xff, 0x02,
    ];
    let prg = image(&program, &[(0x8020, 0xa9), (0x8021, 0x42), (0x9020, 0xa9), (0x9021, 0x24)]);
    let mut cpu = cpu_with(prg);
    cpu.run();
    assert_eq!(cpu.register_a, 0x42);
}

#[test]
fn nmi_then_rti_resumes_the_program() {
    // 8000: LDA #1; BRK. NMI vector -> 8010: LDX #5; RTI
    let prg = image(
        &[0xa9, 0x01, 0x00],
        &[(0x8010, 0xa2), (0x8011, 0x05), (0x8012, 0x40), (0xfffa, 0x10), (0xfffb, 0x80)],
    );
    let mut cpu = cpu_with(prg);
    cpu.bus.nmi_interrupt = Some(1);
    cpu.run();
    assert_eq!(cpu.register_x, 0x05);
    assert_eq!(cpu.register_a, 0x01);
    assert_eq!(cpu.sp, STACK_RESET);
    assert!(cpu.bus.nmi_interrupt.is_none());
}

#[test]
fn reset_reads_the_reset_vector() {
    let prg = image(&[0xa9, 0x01], &[(0xfffc, 0x34), (0xfffd, 0x12)]);
    let mut cpu = cpu_with(prg);
    cpu.register_a = 9;
    cpu.sp = 3;
    cpu.reset();
    assert_eq!(cpu.program_counter, 0x1234);
    assert_eq!(cpu.register_a, 0);
    assert_eq!(cpu.sp, STACK_RESET);
    assert_eq!(cpu.status.bits(), 0b100100);
}

#[test]
fn load_copies_the_program_to_0600() {
    let mut cpu = cpu_with(vec![0x00]);
    cpu.load(vec![0xa9, 0x05, 0x00]);
    assert_eq!(cpu.mem_read(0x0600), 0xa9);
    assert_eq!(cpu.mem_read(0x0601), 0x05);
    assert_eq!(cpu.mem_read(0x0602), 0x00);
    // and it runs from there
    cpu.program_counter = 0x0600;
    cpu.run();
    assert_eq!(cpu.register_a, 0x05);
}

#[test]
fn branch_backwards_loops() {
    // LDX #3; loop: DEX; BNE loop; BRK
    let mut cpu = cpu_with(vec![0xa2, 0x03, 0xca, 0xd0, 0xfd, 0x00]);
    cpu.run();
    assert_eq!(cpu.register_x, 0);
    assert!(cpu.status.contains(StatusFlags::ZERO));
}

#[test]
fn bit_copies_bits_seven_and_six() {
    // LDA #$c0; STA $10; LDA #$01; BIT $10
    let mut cpu = cpu_with(vec![0xa9, 0xc0, 0x85, 0x10, 0xa9, 0x01, 0x24, 0x10, 0x00]);
    cpu.run();
    assert!(cpu.status.contains(StatusFlags::NEGATIV));
    assert!(cpu.status.contains(StatusFlags::OVERFLOW));
    assert!(cpu.status.contains(StatusFlags::ZERO));
}

#[test]
fn unofficial_lax_and_sax() {
    // LDA #$3c; STA $10; LAX $10; LDA #$0f; SAX $11
    let mut cpu = cpu_with(vec![0xa9, 0x3c, 0x85, 0x10, 0xa7, 0x10, 0xa9, 0x0f, 0x87, 0x11, 0x00]);
    cpu.run();
    assert_eq!(cpu.register_x, 0x3c);
    assert_eq!(cpu.mem_read(0x11), 0x0c);
}

#[test]
fn unofficial_dcp_decrements_and_compares() {
    // LDA #5; STA $10; LDA #4; DCP $10 -> mem 4, equal: Z and C set
    let mut cpu = cpu_with(vec![0xa9, 0x05, 0x85, 0x10, 0xa9, 0x04, 0xc7, 0x10, 0x00]);
    cpu.run();
    assert_eq!(cpu.mem_read(0x10), 0x04);
    assert!(cpu.status.contains(StatusFlags::ZERO));
    assert!(cpu.status.contains(StatusFlags::CARRY));
}

#[test]
fn unofficial_isb_increments_then_subtracts() {
    // SEC; LDA #$10; STA $10 (0x10); ISB $10 -> mem 0x11, A = 0x10 - 0x11 = 0xff
    let mut cpu = cpu_with(vec![0x38, 0xa9, 0x10, 0x85, 0x10, 0xe7, 0x10, 0x00]);
    cpu.run();
    assert_eq!(cpu.mem_read(0x10), 0x11);
    assert_eq!(cpu.register_a, 0xff);
    assert!(!cpu.status.contains(StatusFlags::CARRY));
}

#[test]
fn skb_skips_its_operand() {
    // SKB #$a9; LDA #2
    let mut cpu = cpu_with(vec![0x80, 0xa9, 0xa9, 0x02, 0x00]);
    cpu.run();
    assert_eq!(cpu.register_a, 0x02);
}

#[test]
fn run_with_callback_sees_each_instruction() {
    let mut cpu = cpu_with(vec![0xa9, 0x01, 0xe8, 0xe8, 0x00]);
    let mut seen = Vec::new();
    cpu.run_with_callback(|c: &mut CPU| seen.push(c.program_counter));
    assert_eq!(seen, vec![0x8000, 0x8002, 0x8003, 0x8004]);
    assert_eq!(cpu.register_x, 2);
}

#[test]
fn run_with_callback_jmp_indirect_wraps_within_the_page() {
    // LDA #$13; STA $02FF; LDA #$80; STA $0200; LDA #$90; STA $0300;
    // JMP ($02FF); BRK; LDA #$AA; BRK
    let mut cpu = cpu_with(vec![
        0xa9, 0x13, 0x8d, 0xff, 0x02, 0xa9, 0x80, 0x8d, 0x00, 0x02, 0xa9, 0x90, 0x8d, 0x00, 0x03,
        0x6c, 0xff, 0x02, 0x00, 0xa9, 0xaa, 0x00,
    ]);
    cpu.run_with_callback(|_c: &mut CPU| {});
    assert_eq!(cpu.register_a, 0xaa);
    assert_eq!(cpu.program_counter, 0x8016);
}

#[test]
fn run_with_callback_sees_the_state_before_each_fetch() {
    // LDA #5; BRK
    let mut cpu = cpu_with(vec![0xa9, 0x05, 0x00]);
    let mut log = Vec::new();
    cpu.run_with_callback(|c: &mut CPU| log.push((c.program_counter, c.register_a)));
    assert_eq!(log, vec![(0x8000, 0x00), (0x8002, 0x05)]);
    assert_eq!(cpu.register_a, 0x05);
    assert_eq!(cpu.program_counter, 0x8003);
}

#[test]
fn run_with_callback_jsr_then_rts() {
    // JSR $8006; LDA #7; BRK; LDX #3; RTS
    let mut cpu = cpu_with(vec![0x20, 0x06, 0x80, 0xa9, 0x07, 0x00, 0xa2, 0x03, 0x60]);
    cpu.run_with_callback(|_c: &mut CPU| {});
    assert_eq!(cpu.register_x, 0x03);
    assert_eq!(cpu.register_a, 0x07);
    assert_eq!(cpu.sp, 0xfd);
    assert_eq!(cpu.program_counter, 0x8006);
    assert_eq!(cpu.mem_read(0x01fd), 0x80);
    assert_eq!(cpu.mem_read(0x01fc), 0x02);
}

#[test]
fn run_with_callback_returns_after_brk_once_per_instruction() {
    // LDX #2; DEX; BNE -3; BRK
    let mut cpu = cpu_with(vec![0xa2, 0x02, 0xca, 0xd0, 0xfd, 0x00]);
    let mut fetches = Vec::new();
    cpu.run_with_callback(|c: &mut CPU| fetches.push(c.program_counter));
    // LDX, DEX, BNE (taken), DEX, BNE (not taken), BRK
    assert_eq!(fetches, vec![0x8000, 0x8002, 0x8003, 0x8002, 0x8003, 0x8005]);
    let last = cpu.program_counter.wrapping_sub(1);
    assert_eq!(cpu.mem_read(last), 0x00);
    assert_eq!(cpu.register_x, 0);
}

#[test]
fn run_with_callback_stops_when_the_callback_breaks_the_rom() {
    let mut cpu = cpu_with(vec![0xa9, 0x05, 0x00]);
    let mut calls = 0u32;
    cpu.run_with_callback(|c: &mut CPU| {
        calls += 1;
        c.bus = Bus::new(nest::mem::rom::Rom {
            mirroring: nest::mem::rom::Mirroring::Horizontal,
            mapper: 0,
            prg_rom: vec![],
            chr_rom: vec![],
        });
    });
    assert_eq!(calls, 1);
    assert_eq!(cpu.register_a, 0);
    assert_eq!(cpu.program_counter, 0x8000);
}

#[test]
fn rol_and_ror_in_memory_update_zero() {
    // LDA #$80; STA $10; ROL $10 (carry clear: result 0, carry out)
    let mut cpu = cpu_with(vec![0xa9, 0x80, 0x85, 0x10, 0x26, 0x10, 0x00]);
    cpu.run();
    assert_eq!(cpu.mem_read(0x10), 0x00);
    assert!(cpu.status.contains(StatusFlags::ZERO));
    assert!(cpu.status.contains(StatusFlags::CARRY));
    assert!(!cpu.status.contains(StatusFlags::NEGATIV));
    // LDA #$01; STA $10; CLC; ROR $10 (result 0, carry out)
    let mut cpu = cpu_with(vec![0xa9, 0x01, 0x85, 0x10, 0x18, 0x66, 0x10, 0x00]);
    cpu.run();
    assert_eq!(cpu.mem_read(0x10), 0x00);
    assert!(cpu.status.contains(StatusFlags::ZERO));
    assert!(cpu.status.contains(StatusFlags::CARRY));
}

#[test]
fn step_is_mapped_refuses_the_ppu_registers() {
    // LDA $2002
    let mut cpu = cpu_with(vec![0xad, 0x02, 0x20, 0x00]);
    assert!(!cpu.step_is_mapped());
    // LDA $1FFF
    let mut cpu = cpu_with(vec![0xad, 0xff, 0x1f, 0x00]);
    assert!(cpu.step_is_mapped());
    // JMP ($2000): the pointer sits in the PPU registers
    let mut cpu = cpu_with(vec![0x6c, 0x00, 0x20]);
    assert!(!cpu.step_is_mapped());
}

#[test]
fn run_with_callback_stops_before_reaching_the_ppu_registers() {
    // LDA #1; STA $2000; LDA #2; BRK
    let mut cpu = cpu_with(vec![0xa9, 0x01, 0x8d, 0x00, 0x20, 0xa9, 0x02, 0x00]);
    let mut calls = 0u32;
    cpu.run_with_callback(|_c: &mut CPU| calls += 1);
    assert_eq!(calls, 2);
    assert_eq!(cpu.register_a, 0x01);
    assert_eq!(cpu.program_counter, 0x8002);
}
