use nes_core::cpu::{Cpu, Interrupt};
use nes_core::system::System;

fn fresh() -> (Cpu, System) {
    let mut cpu = Cpu::new();
    cpu.reset();
    let system = System::default();
    (cpu, system)
}

/// Writes a little program into work RAM starting at 0x0200 and points
/// the program counter at it.
fn load_program(cpu: &mut Cpu, system: &mut System, program: &[u8]) {
    for (i, b) in program.iter().enumerate() {
        system.write_u8(0x0200 + i as u16, *b, false);
    }
    cpu.pc = 0x0200;
}

#[test]
fn lda_immediate_sets_zero_flag_iff_result_zero() {
    let (mut cpu, mut system) = fresh();
    load_program(&mut cpu, &mut system, &[0xa9, 0x00]);
    assert_eq!(cpu.step(&mut system), Some(2));
    assert_eq!(cpu.a, 0x00);
    assert!(cpu.read_zero_flag());
    assert!(!cpu.read_negative_flag());
}

#[test]
fn lda_immediate_sets_negative_flag_iff_bit7() {
    let (mut cpu, mut system) = fresh();
    load_program(&mut cpu, &mut system, &[0xa9, 0x80]);
    assert_eq!(cpu.step(&mut system), Some(2));
    assert_eq!(cpu.a, 0x80);
    assert!(!cpu.read_zero_flag());
    assert!(cpu.read_negative_flag());
}

#[test]
fn lda_zero_page_same_flags_as_immediate() {
    // The flag rule does not depend on the addressing mode.
    let (mut cpu, mut system) = fresh();
    system.write_u8(0x0040, 0x80, false);
    load_program(&mut cpu, &mut system, &[0xa5, 0x40]);
    assert_eq!(cpu.step(&mut system), Some(3));
    assert_eq!(cpu.a, 0x80);
    assert!(!cpu.read_zero_flag());
    assert!(cpu.read_negative_flag());
}

#[test]
fn adc_sets_carry_and_zero_on_wraparound() {
    let (mut cpu, mut system) = fresh();
    cpu.a = 0xff;
    load_program(&mut cpu, &mut system, &[0x69, 0x01]); // ADC #$01
    assert_eq!(cpu.step(&mut system), Some(2));
    assert_eq!(cpu.a, 0x00);
    assert!(cpu.read_carry_flag());
    assert!(cpu.read_zero_flag());
    assert!(!cpu.read_negative_flag());
}

#[test]
fn adc_sets_overflow_on_signed_overflow() {
    let (mut cpu, mut system) = fresh();
    cpu.a = 0x7f;
    load_program(&mut cpu, &mut system, &[0x69, 0x01]);
    assert_eq!(cpu.step(&mut system), Some(2));
    assert_eq!(cpu.a, 0x80);
    assert!(cpu.read_overflow_flag());
    assert!(cpu.read_negative_flag());
    assert!(!cpu.read_carry_flag());
}

#[test]
fn adc_sbc_round_trip_restores_accumulator() {
    // Add with the carry clear, then subtract with the carry set: the
    // accumulator comes back whenever the addition did not carry out.
    for a in [0u8, 1, 17, 0x40, 0x7f] {
        for b in [0u8, 1, 5, 0x33] {
            if (a as u16) + (b as u16) <= 255 {
                let mut cpu = Cpu::new();
                cpu.reset();
                cpu.a = a;
                cpu.write_carry_flag(false);
                cpu.execute_adc(b);
                cpu.write_carry_flag(true);
                cpu.execute_sbc(b);
                assert_eq!(cpu.a, a);
            }
        }
    }
}

#[test]
fn stack_push_pop_is_lifo() {
    let (mut cpu, mut system) = fresh();
    cpu.stack_push(&mut system, 0x11);
    cpu.stack_push(&mut system, 0x22);
    cpu.stack_push(&mut system, 0x33);
    assert_eq!(cpu.stack_pop(&mut system), 0x33);
    assert_eq!(cpu.stack_pop(&mut system), 0x22);
    assert_eq!(cpu.stack_pop(&mut system), 0x11);
    assert_eq!(cpu.s, 0x01fd);
}

#[test]
fn zero_page_indexed_wraps_in_zero_page() {
    assert_eq!(Cpu::zero_page_indexed(0xff, 0x02), 0x0001);
    assert_eq!(Cpu::zero_page_indexed(0x10, 0x05), 0x0015);
}

#[test]
fn zero_page_x_wrap_through_step() {
    let (mut cpu, mut system) = fresh();
    system.write_u8(0x0001, 0x5a, false);
    cpu.x = 0x02;
    load_program(&mut cpu, &mut system, &[0xb5, 0xff]); // LDA $ff,X
    assert_eq!(cpu.step(&mut system), Some(4));
    assert_eq!(cpu.a, 0x5a);
}

#[test]
fn absolute_indexed_page_cross_costs_one_more_cycle() {
    let (crossing_addr, crossing_cyc) = Cpu::absolute_indexed(0x00f0, 0x20);
    let (plain_addr, plain_cyc) = Cpu::absolute_indexed(0x0010, 0x20);
    assert_eq!(crossing_addr, 0x0110);
    assert_eq!(plain_addr, 0x0030);
    assert_eq!(crossing_cyc, plain_cyc + 1);
}

#[test]
fn page_cross_penalty_through_step() {
    // LDA absolute,X crossing a page boundary costs one extra cycle.
    let (mut cpu, mut system) = fresh();
    cpu.x = 0x20;
    load_program(&mut cpu, &mut system, &[0xbd, 0xf0, 0x04]); // LDA $04f0,X
    let crossing = cpu.step(&mut system).unwrap();

    let (mut cpu2, mut system2) = fresh();
    cpu2.x = 0x20;
    load_program(&mut cpu2, &mut system2, &[0xbd, 0x10, 0x04]); // LDA $0410,X
    let plain = cpu2.step(&mut system2).unwrap();
    assert_eq!(crossing, plain + 1);
}

#[test]
fn jmp_absolute_sets_pc_and_costs_three_cycles() {
    let (mut cpu, mut system) = fresh();
    // Map a cartridge so address 0x8000 reads back the jump instruction.
    system.write_u8(0x8000, 0x4c, false);
    system.write_u8(0x8001, 0x00, false);
    system.write_u8(0x8002, 0x90, false);
    cpu.pc = 0x8000;
    assert_eq!(cpu.step(&mut system), Some(3));
    assert_eq!(cpu.pc, 0x9000);
}

#[test]
fn unmapped_opcode_steps_to_none() {
    let (mut cpu, mut system) = fresh();
    load_program(&mut cpu, &mut system, &[0x02]);
    assert_eq!(cpu.step(&mut system), None);
    assert_eq!(cpu.pc, 0x0201);
}

#[test]
fn branch_taken_costs_more_than_not_taken() {
    let (mut cpu, mut system) = fresh();
    cpu.write_carry_flag(false);
    load_program(&mut cpu, &mut system, &[0x90, 0x05]); // BCC +5, taken
    let taken = cpu.step(&mut system).unwrap();
    assert_eq!(cpu.pc, 0x0207);

    let (mut cpu2, mut system2) = fresh();
    cpu2.write_carry_flag(true);
    load_program(&mut cpu2, &mut system2, &[0x90, 0x05]); // not taken
    let skipped = cpu2.step(&mut system2).unwrap();
    assert_eq!(cpu2.pc, 0x0202);
    assert_eq!(taken, skipped + 1);
}

#[test]
fn compare_sets_carry_zero_negative() {
    let (mut cpu, mut system) = fresh();
    cpu.a = 0x40;
    load_program(&mut cpu, &mut system, &[0xc9, 0x40]); // CMP #$40
    cpu.step(&mut system).unwrap();
    assert!(cpu.read_carry_flag());
    assert!(cpu.read_zero_flag());
    assert!(!cpu.read_negative_flag());
}

#[test]
fn asl_shifts_into_carry_independent_of_mode() {
    // Accumulator mode.
    let (mut cpu, mut system) = fresh();
    cpu.a = 0x81;
    load_program(&mut cpu, &mut system, &[0x0a]); // ASL A
    cpu.step(&mut system).unwrap();
    assert_eq!(cpu.a, 0x02);
    assert!(cpu.read_carry_flag());
    assert!(!cpu.read_zero_flag());

    // Zero-page mode: same flag rule on a memory operand.
    let (mut cpu2, mut system2) = fresh();
    system2.write_u8(0x0040, 0x81, false);
    load_program(&mut cpu2, &mut system2, &[0x06, 0x40]); // ASL $40
    cpu2.step(&mut system2).unwrap();
    assert_eq!(system2.read_u8(0x0040, true), 0x02);
    assert!(cpu2.read_carry_flag());
    assert!(!cpu2.read_zero_flag());
}

#[test]
fn jsr_rts_round_trip() {
    let (mut cpu, mut system) = fresh();
    load_program(&mut cpu, &mut system, &[0x20, 0x00, 0x03]); // JSR $0300
    system.write_u8(0x0300, 0x60, false); // RTS
    cpu.step(&mut system).unwrap();
    assert_eq!(cpu.pc, 0x0300);
    cpu.step(&mut system).unwrap();
    assert_eq!(cpu.pc, 0x0203);
}

#[test]
fn interrupt_reset_loads_vector_without_pushing() {
    let (mut cpu, mut system) = fresh();
    // The reset vector lives at the top of the cartridge window.
    system.write_u8(0xfffc, 0x34, false);
    system.write_u8(0xfffd, 0x12, false);
    let s_before = cpu.s;
    cpu.interrupt(&mut system, Interrupt::RESET);
    assert_eq!(cpu.pc, 0x1234);
    assert_eq!(cpu.s, s_before);
    assert!(cpu.read_interrupt_flag());
}

#[test]
fn interrupt_nmi_pushes_pc_and_status() {
    let (mut cpu, mut system) = fresh();
    system.write_u8(0xfffa, 0x00, false);
    system.write_u8(0xfffb, 0x80, false);
    cpu.pc = 0x1234;
    let s_before = cpu.s;
    let p_before = cpu.p;
    cpu.interrupt(&mut system, Interrupt::NMI);
    assert_eq!(cpu.pc, 0x8000);
    // Three bytes pushed: pc high, pc low, status with break cleared.
    assert_eq!(system.read_u8(s_before, true), 0x12);
    assert_eq!(system.read_u8(s_before - 1, true), 0x34);
    assert_eq!(system.read_u8(s_before - 2, true), p_before & !0x10);
}

#[test]
fn irq_suppressed_while_interrupt_disable_set() {
    let (mut cpu, mut system) = fresh();
    cpu.write_interrupt_flag(true);
    cpu.pc = 0x4321;
    let before = cpu.clone();
    cpu.interrupt(&mut system, Interrupt::IRQ);
    assert_eq!(cpu, before);
}

#[test]
fn registers_report_through_regstat() {
    let mut cpu = Cpu::new();
    cpu.x = 1;
    cpu.y = 2;
    cpu.a = 3;
    assert_eq!(cpu.regstat(0), 1);
    assert_eq!(cpu.regstat(1), 2);
    assert_eq!(cpu.regstat(2), 3);
    assert_eq!(cpu.regstat(9), 254);
    cpu.pc = 0x1234;
    cpu.s = 0x01fd;
    assert_eq!(cpu.regstat16(0), 0x1234);
    assert_eq!(cpu.regstat16(1), 0x01fd);
    assert_eq!(cpu.regstat16(7), 404);
}

#[test]
fn sbc_clears_carry_on_borrow() {
    let (mut cpu, mut system) = fresh();
    cpu.a = 0x03;
    cpu.write_carry_flag(true); // no borrow coming in
    load_program(&mut cpu, &mut system, &[0xe9, 0x05]); // SBC #$05
    cpu.step(&mut system).unwrap();
    assert_eq!(cpu.a, 0xfe);
    assert!(!cpu.read_carry_flag()); // the subtraction borrowed
    assert!(cpu.read_negative_flag());
}

#[test]
fn pha_pla_round_trips_accumulator() {
    let (mut cpu, mut system) = fresh();
    cpu.a = 0x5c;
    load_program(&mut cpu, &mut system, &[0x48, 0xa9, 0x00, 0x68]); // PHA; LDA #0; PLA
    assert_eq!(cpu.step(&mut system), Some(3));
    cpu.step(&mut system).unwrap();
    assert_eq!(cpu.a, 0x00);
    assert_eq!(cpu.step(&mut system), Some(4));
    assert_eq!(cpu.a, 0x5c);
}

#[test]
fn dcp_decrements_memory_then_compares() {
    let (mut cpu, mut system) = fresh();
    cpu.a = 0x10;
    system.write_u8(0x0040, 0x11, false);
    load_program(&mut cpu, &mut system, &[0xc7, 0x40]); // DCP $40
    cpu.step(&mut system).unwrap();
    assert_eq!(system.read_u8(0x0040, true), 0x10);
    assert!(cpu.read_zero_flag()); // 0x10 == decremented byte
    assert!(cpu.read_carry_flag());
}

#[test]
fn slo_shifts_memory_then_ors_accumulator() {
    let (mut cpu, mut system) = fresh();
    cpu.a = 0x01;
    system.write_u8(0x0040, 0x82, false);
    load_program(&mut cpu, &mut system, &[0x07, 0x40]); // SLO $40
    cpu.step(&mut system).unwrap();
    assert_eq!(system.read_u8(0x0040, true), 0x04);
    assert_eq!(cpu.a, 0x05);
    assert!(cpu.read_carry_flag()); // bit 7 shifted out
}

#[test]
fn inx_wraps_and_sets_zero() {
    let (mut cpu, mut system) = fresh();
    cpu.x = 0xff;
    load_program(&mut cpu, &mut system, &[0xe8]); // INX
    assert_eq!(cpu.step(&mut system), Some(2));
    assert_eq!(cpu.x, 0x00);
    assert!(cpu.read_zero_flag());
}

#[test]
fn txs_loads_stack_pointer_in_fixed_page() {
    let (mut cpu, mut system) = fresh();
    cpu.x = 0x42;
    load_program(&mut cpu, &mut system, &[0x9a]); // TXS
    cpu.step(&mut system).unwrap();
    assert_eq!(cpu.s, 0x0142);
}

#[test]
fn bit_sets_flags_from_memory_without_touching_it() {
    let (mut cpu, mut system) = fresh();
    cpu.a = 0x0f;
    system.write_u8(0x0040, 0xc0, false);
    load_program(&mut cpu, &mut system, &[0x24, 0x40]); // BIT $40
    cpu.step(&mut system).unwrap();
    assert!(cpu.read_negative_flag());
    assert!(cpu.read_overflow_flag());
    assert!(cpu.read_zero_flag()); // 0x0f & 0xc0 == 0
    assert_eq!(system.read_u8(0x0040, true), 0xc0);
}

#[test]
fn indirect_y_reads_through_zero_page_pointer() {
    let (mut cpu, mut system) = fresh();
    cpu.y = 0x03;
    system.write_u8(0x0020, 0x00, false);
    system.write_u8(0x0021, 0x03, false); // pointer 0x0300
    system.write_u8(0x0303, 0x7e, false);
    load_program(&mut cpu, &mut system, &[0xb1, 0x20]); // LDA ($20),Y
    cpu.step(&mut system).unwrap();
    assert_eq!(cpu.a, 0x7e);
}

#[test]
fn brk_is_suppressed_while_interrupts_disabled() {
    // The power-on status has the interrupt-disable bit set, so a break
    // only advances past its opcode.
    let (mut cpu, mut system) = fresh();
    load_program(&mut cpu, &mut system, &[0x00]); // BRK
    let s_before = cpu.s;
    assert_eq!(cpu.step(&mut system), Some(7));
    assert_eq!(cpu.s, s_before);
    assert!(cpu.read_break_flag());
}

#[test]
fn rti_restores_status_and_pc() {
    let (mut cpu, mut system) = fresh();
    // Push as an interrupt would: pc high, pc low, status.
    cpu.stack_push(&mut system, 0x12);
    cpu.stack_push(&mut system, 0x34);
    cpu.stack_push(&mut system, 0x81);
    load_program(&mut cpu, &mut system, &[0x40]); // RTI
    assert_eq!(cpu.step(&mut system), Some(6));
    assert_eq!(cpu.p, 0x81);
    assert_eq!(cpu.pc, 0x1234);
}

#[test]
fn brk_runs_interrupt_sequence_when_enabled() {
    let (mut cpu, mut system) = fresh();
    cpu.write_interrupt_flag(false);
    system.write_u8(0xfffe, 0x00, false);
    system.write_u8(0xffff, 0x70, false);
    load_program(&mut cpu, &mut system, &[0x00]); // BRK
    let s_before = cpu.s;
    assert_eq!(cpu.step(&mut system), Some(7));
    assert_eq!(cpu.pc, 0x7000);
    assert_eq!(cpu.s, s_before - 3);
    assert!(cpu.read_interrupt_flag());
}

#[test]
fn lax_loads_both_accumulator_and_x() {
    let (mut cpu, mut system) = fresh();
    system.write_u8(0x0040, 0x9d, false);
    load_program(&mut cpu, &mut system, &[0xa7, 0x40]); // LAX $40
    cpu.step(&mut system).unwrap();
    assert_eq!(cpu.a, 0x9d);
    assert_eq!(cpu.x, 0x9d);
    assert!(cpu.read_negative_flag());
}

#[test]
fn sax_stores_a_and_x() {
    let (mut cpu, mut system) = fresh();
    cpu.a = 0xf0;
    cpu.x = 0x3c;
    load_program(&mut cpu, &mut system, &[0x87, 0x40]); // SAX $40
    cpu.step(&mut system).unwrap();
    assert_eq!(system.read_u8(0x0040, true), 0x30);
}

#[test]
fn alr_ands_then_shifts_right() {
    let (mut cpu, mut system) = fresh();
    cpu.a = 0x0f;
    load_program(&mut cpu, &mut system, &[0x4b, 0x07]); // ALR #$07
    cpu.step(&mut system).unwrap();
    assert_eq!(cpu.a, 0x03); // (0x0f & 0x07) >> 1
    assert!(cpu.read_carry_flag()); // bit 0 of 0x07 shifted out
}

#[test]
fn ror_rotates_through_carry() {
    let (mut cpu, mut system) = fresh();
    cpu.a = 0x01;
    cpu.write_carry_flag(true);
    load_program(&mut cpu, &mut system, &[0x6a]); // ROR A
    cpu.step(&mut system).unwrap();
    assert_eq!(cpu.a, 0x80); // carry rotated into bit 7
    assert!(cpu.read_carry_flag()); // bit 0 rotated out
    assert!(cpu.read_negative_flag());
}

#[test]
fn sta_zero_page_lands_in_work_ram() {
    let (mut cpu, mut system) = fresh();
    cpu.a = 0x42;
    load_program(&mut cpu, &mut system, &[0x85, 0x33]); // STA $33
    assert_eq!(cpu.step(&mut system), Some(3));
    assert_eq!(system.read_u8(0x0033, true), 0x42);
}

#[test]
fn skb_and_ign_consume_operands_without_effect() {
    let (mut cpu, mut system) = fresh();
    load_program(&mut cpu, &mut system, &[0x80, 0x55]); // SKB #$55
    assert_eq!(cpu.step(&mut system), Some(2));
    assert_eq!(cpu.pc, 0x0202);
    assert_eq!(cpu.a, 0);

    let (mut cpu2, mut system2) = fresh();
    load_program(&mut cpu2, &mut system2, &[0x0c, 0x00, 0x01]); // IGN $0100
    assert_eq!(cpu2.step(&mut system2), Some(4));
    assert_eq!(cpu2.pc, 0x0203);
}

#[test]
fn jmp_indirect_wraps_pointer_within_page() {
    // The pointer's high byte is fetched with the low byte stepped
    // without carrying into the page: a pointer at 0x02ff reads its
    // high byte from 0x0200, not 0x0300.
    let (mut cpu, mut system) = fresh();
    system.write_u8(0x02ff, 0x34, false);
    system.write_u8(0x0200, 0x12, false);
    system.write_u8(0x0300, 0x99, false);
    system.write_u8(0x0400, 0x6c, false); // JMP (indirect)
    system.write_u8(0x0401, 0xff, false);
    system.write_u8(0x0402, 0x02, false);
    cpu.pc = 0x0400;
    assert_eq!(cpu.step(&mut system), Some(5));
    assert_eq!(cpu.pc, 0x1234);
}
