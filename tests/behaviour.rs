use simple_6502::bus::Bus;
use simple_6502::cpu::{ExecError, Flags, CPU6502};
use simple_6502::memory::LoadError;

fn cpu_at(pc: u16, program: &[u8]) -> CPU6502 {
    let mut cpu = CPU6502::create_cpu_and_bus(pc);
    for (i, b) in program.iter().enumerate() {
        cpu.write(pc.wrapping_add(i as u16), *b);
    }
    cpu
}

#[test]
fn lda_immediate_negative_after_reset() {
    let mut cpu = CPU6502::new(Box::new(Bus::new()));
    cpu.load(vec![0xA9, 0xFF]).unwrap();
    cpu.run_cycles(8).unwrap();
    assert_eq!(cpu.execute_step(), 2);
    assert_eq!(cpu.reg_a, 0xFF);
    assert!(cpu.status.contains(Flags::negative()));
    assert!(!cpu.status.contains(Flags::zero()));
    assert_eq!(cpu.get_total_cycles(), 10);
}

#[test]
fn absolute_load_after_four_cycles() {
    let mut cpu = CPU6502::new(Box::new(Bus::new()));
    cpu.write(0x7778, 0xCB);
    cpu.load(vec![0xAD, 0x78, 0x77]).unwrap();
    cpu.run_cycles(8).unwrap();
    cpu.run_cycles(4).unwrap();
    assert_eq!(cpu.reg_a, 0xCB);
}

#[test]
fn indexed_load_without_page_cross() {
    let mut cpu = cpu_at(0x8000, &[0xBC, 0x00, 0x60]);
    cpu.reg_x = 5;
    cpu.write(0x6005, 54);
    assert_eq!(cpu.execute_step(), 4);
    assert_eq!(cpu.reg_y, 54);
}

#[test]
fn indexed_load_with_page_cross_costs_one_more() {
    let mut cpu = cpu_at(0x8000, &[0xBE, 0xFB, 0x6F]);
    cpu.reg_y = 5;
    cpu.write(0x7000, 54);
    assert_eq!(cpu.execute_step(), 5);
    assert_eq!(cpu.reg_x, 54);
}

#[test]
fn branch_taken_to_another_page() {
    let mut cpu = cpu_at(0x8004, &[0x90, 0xF9]);
    assert_eq!(cpu.execute_step(), 4);
    assert_eq!(cpu.pc, 0x7FFF);
    let mut cpu = cpu_at(0x8010, &[0x90, 0x02]);
    assert_eq!(cpu.execute_step(), 3);
    assert_eq!(cpu.pc, 0x8014);
    let mut cpu = cpu_at(0x8010, &[0xB0, 0x02]);
    assert_eq!(cpu.execute_step(), 2);
    assert_eq!(cpu.pc, 0x8012);
}

#[test]
fn jsr_then_rts() {
    let mut cpu = cpu_at(0x8000, &[0x20, 0x05, 0x80, 0x00, 0x00, 0x60]);
    assert_eq!(cpu.stk_ptr, 0xFF);
    assert_eq!(cpu.execute_step(), 6);
    assert_eq!(cpu.pc, 0x8005);
    assert_eq!(cpu.read(0x01FE), 0x02);
    assert_eq!(cpu.read(0x01FF), 0x80);
    assert_eq!(cpu.stk_ptr, 0xFD);
    assert_eq!(cpu.execute_step(), 6);
    assert_eq!(cpu.pc, 0x8003);
    assert_eq!(cpu.stk_ptr, 0xFF);
}

#[test]
fn brk_then_rti() {
    let mut cpu = cpu_at(0x8000, &[0xEA, 0x00, 0x00, 0x00, 0x40]);
    cpu.write(0xFFFE, 0x04);
    cpu.write(0xFFFF, 0x80);
    cpu.execute_step();
    assert_eq!(cpu.execute_step(), 7);
    assert_eq!(cpu.read(0x01FE), 0x03);
    assert_eq!(cpu.read(0x01FF), 0x80);
    assert_eq!(cpu.read(0x01FD), (Flags::irq_disable() | Flags::brk() | Flags::unused()).bits());
    assert_eq!(cpu.pc, 0x8004);
    assert!(cpu.status.contains(Flags::irq_disable()));
    assert!(!cpu.status.contains(Flags::brk()));
    cpu.execute_step();
    assert_eq!(cpu.pc, 0x8003);
    assert_eq!(cpu.stk_ptr, 0xFF);
}

#[test]
fn sbc_with_and_without_borrow() {
    let mut cpu = cpu_at(0x8000, &[0xE9, 0x14, 0xE9, 0x1C]);
    cpu.reg_a = 24;
    cpu.status.set(Flags::carry(), true);
    cpu.execute_step();
    assert_eq!(cpu.reg_a, 4);
    assert!(cpu.status.contains(Flags::carry()));
    assert!(!cpu.status.contains(Flags::overflow()));
    cpu.reg_a = 24;
    cpu.status.set(Flags::carry(), false);
    cpu.execute_step();
    assert_eq!(cpu.reg_a, 251);
    assert!(!cpu.status.contains(Flags::carry()));
    assert!(!cpu.status.contains(Flags::overflow()));
}

#[test]
fn reset_state() {
    let mut cpu = cpu_at(0x1234, &[]);
    cpu.reg_a = 1;
    cpu.reg_x = 2;
    cpu.reg_y = 3;
    cpu.stk_ptr = 4;
    cpu.status = Flags::carry();
    cpu.write(0xFFFC, 0x00);
    cpu.write(0xFFFD, 0x90);
    cpu.reset();
    assert_eq!((cpu.reg_a, cpu.reg_x, cpu.reg_y, cpu.stk_ptr), (0, 0, 0, 0xFD));
    assert_eq!(cpu.status, Flags::unused());
    assert_eq!(cpu.pc, 0x9000);
    cpu.write(0x9000, 0xE8);
    cpu.run_cycles(8).unwrap();
    assert_eq!(cpu.reg_x, 0);
    cpu.run_cycles(1).unwrap();
    assert_eq!(cpu.reg_x, 1);
}

#[test]
fn cycles_at_least_base() {
    let mut cpu = cpu_at(0x8000, &[0xBD, 0x00, 0x20, 0xBD, 0xFF, 0x20]);
    cpu.reg_x = 1;
    assert_eq!(cpu.execute_step(), 4);
    assert_eq!(cpu.execute_step(), 5);
    let mut cpu = cpu_at(0x8000, &[0x9D, 0xFF, 0x20]);
    cpu.reg_x = 1;
    assert_eq!(cpu.execute_step(), 5);
}

#[test]
fn strict_mode_refuses_unknown_and_unofficial_opcodes() {
    let mut cpu = cpu_at(0x8000, &[0x02]);
    assert_eq!(cpu.clock(), Err(ExecError::InvalidOpcodeStrict(0x02)));
    assert_eq!(cpu.pc, 0x8000);
    assert_eq!(cpu.get_total_cycles(), 0);
    let mut cpu = cpu_at(0x8000, &[0xEA, 0x1C]);
    assert_eq!(cpu.run_cycles(5), Err(ExecError::UnofficialOpcode(0x1C)));
    assert_eq!(cpu.pc, 0x8001);
    assert_eq!(cpu.get_total_cycles(), 2);
}

#[test]
fn step_mode_runs_unknown_opcodes_as_nop() {
    let mut cpu = cpu_at(0x8000, &[0x02, 0x1C, 0xE8]);
    assert_eq!(cpu.execute_step(), 2);
    assert_eq!(cpu.pc, 0x8001);
    assert_eq!(cpu.execute_step(), 2);
    assert_eq!(cpu.pc, 0x8002);
    cpu.execute_step();
    assert_eq!(cpu.reg_x, 1);
}

#[test]
fn increments_and_decrements_of_y_use_y() {
    let mut cpu = cpu_at(0x8000, &[0x88, 0xC8, 0xC8, 0xCA, 0xE8]);
    cpu.reg_x = 10;
    cpu.reg_y = 0;
    cpu.execute_step();
    assert_eq!(cpu.reg_y, 0xFF);
    assert!(cpu.status.contains(Flags::negative()));
    cpu.execute_step();
    assert_eq!(cpu.reg_y, 0);
    assert!(cpu.status.contains(Flags::zero()));
    cpu.execute_step();
    assert_eq!(cpu.reg_y, 1);
    assert_eq!(cpu.reg_x, 10);
    cpu.execute_step();
    assert_eq!(cpu.reg_x, 9);
    cpu.execute_step();
    assert_eq!(cpu.reg_x, 10);
}

#[test]
fn shifts_and_rotates() {
    let mut cpu = cpu_at(0x8000, &[0x2A, 0x6A, 0x0A, 0x4A, 0x26, 0x10]);
    cpu.reg_a = 0x81;
    cpu.status.set(Flags::carry(), false);
    cpu.execute_step(); // ROL A
    assert_eq!(cpu.reg_a, 0x02);
    assert!(cpu.status.contains(Flags::carry()));
    cpu.execute_step(); // ROR A
    assert_eq!(cpu.reg_a, 0x81);
    assert!(!cpu.status.contains(Flags::carry()));
    cpu.execute_step(); // ASL A
    assert_eq!(cpu.reg_a, 0x02);
    assert!(cpu.status.contains(Flags::carry()));
    cpu.execute_step(); // LSR A
    assert_eq!(cpu.reg_a, 0x01);
    assert!(!cpu.status.contains(Flags::carry()));
    assert!(!cpu.status.contains(Flags::negative()));
    cpu.write(0x10, 0x80);
    cpu.status.set(Flags::carry(), true);
    assert_eq!(cpu.execute_step(), 5); // ROL $10
    assert_eq!(cpu.read(0x10), 0x01);
    assert!(cpu.status.contains(Flags::carry()));
}

#[test]
fn bit_takes_n_and_v_from_operand() {
    let mut cpu = cpu_at(0x8000, &[0x24, 0x10]);
    cpu.write(0x10, 0xC0);
    cpu.reg_a = 0x01;
    cpu.execute_step();
    assert!(cpu.status.contains(Flags::zero()));
    assert!(cpu.status.contains(Flags::negative()));
    assert!(cpu.status.contains(Flags::overflow()));
}

#[test]
fn compare_flags() {
    let mut cpu = cpu_at(0x8000, &[0xC9, 0x10, 0xC9, 0x20, 0xE0, 0x05, 0xC0, 0x06]);
    cpu.reg_a = 0x10;
    cpu.execute_step();
    assert!(cpu.status.contains(Flags::zero() | Flags::carry()));
    assert!(!cpu.status.contains(Flags::negative()));
    cpu.execute_step();
    assert!(!cpu.status.contains(Flags::zero()));
    assert!(!cpu.status.contains(Flags::carry()));
    assert!(cpu.status.contains(Flags::negative()));
    cpu.reg_x = 6;
    cpu.execute_step();
    assert!(cpu.status.contains(Flags::carry()));
    assert!(!cpu.status.contains(Flags::zero()));
    cpu.reg_y = 5;
    cpu.execute_step();
    assert!(!cpu.status.contains(Flags::carry()));
    assert!(cpu.status.contains(Flags::negative()));
}

#[test]
fn plp_clears_b_and_sets_u() {
    let mut cpu = cpu_at(0x8000, &[0x28]);
    cpu.stk_ptr = 0xFE;
    cpu.write(0x01FF, 0xDB);
    cpu.execute_step();
    assert_eq!(cpu.status.bits(), 0xEB);
    assert_eq!(cpu.stk_ptr, 0xFF);
}

#[test]
fn stack_pointer_wraps() {
    let mut cpu = cpu_at(0x8000, &[0x48, 0x68]);
    cpu.stk_ptr = 0;
    cpu.reg_a = 0x42;
    cpu.execute_step();
    assert_eq!(cpu.read(0x0100), 0x42);
    assert_eq!(cpu.stk_ptr, 0xFF);
    cpu.reg_a = 0;
    cpu.execute_step();
    assert_eq!(cpu.reg_a, 0x42);
    assert_eq!(cpu.stk_ptr, 0);
}

#[test]
fn indirect_jump_page_bug() {
    let mut cpu = cpu_at(0x8000, &[0x6C, 0xFF, 0x10]);
    cpu.write(0x10FF, 0x40);
    cpu.write(0x1100, 0x50);
    cpu.write(0x1000, 0x60);
    assert_eq!(cpu.execute_step(), 5);
    assert_eq!(cpu.pc, 0x6040);
}

#[test]
fn zero_page_indexing_wraps() {
    let mut cpu = cpu_at(0x8000, &[0xB5, 0xFF, 0xA1, 0xFF]);
    cpu.write(0x0001, 0x77);
    cpu.reg_x = 2;
    cpu.execute_step();
    assert_eq!(cpu.reg_a, 0x77);
    // (zp,X) with the pointer at 0x01 and 0x02
    cpu.write(0x0002, 0x30);
    cpu.write(0x3077, 0x99);
    cpu.execute_step();
    assert_eq!(cpu.reg_a, 0x99);
}

#[test]
fn interrupts() {
    let mut cpu = cpu_at(0x8000, &[]);
    cpu.write(0xFFFE, 0x00);
    cpu.write(0xFFFF, 0x90);
    cpu.write(0xFFFA, 0x00);
    cpu.write(0xFFFB, 0xA0);
    cpu.status = Flags::irq_disable() | Flags::unused();
    cpu.irq();
    assert_eq!(cpu.pc, 0x8000);
    assert_eq!(cpu.stk_ptr, 0xFF);
    cpu.status = Flags::brk() | Flags::carry();
    cpu.irq();
    assert_eq!(cpu.pc, 0x9000);
    assert_eq!(cpu.stk_ptr, 0xFC);
    assert_eq!(cpu.read(0x01FF), 0x80);
    assert_eq!(cpu.read(0x01FE), 0x00);
    assert_eq!(cpu.read(0x01FD), (Flags::carry() | Flags::irq_disable() | Flags::unused()).bits());
    assert!(cpu.status.contains(Flags::irq_disable()));
    cpu.nmi();
    assert_eq!(cpu.pc, 0xA000);
    assert_eq!(cpu.stk_ptr, 0xF9);
    assert_eq!(cpu.read(0x01FC), 0x90);
    cpu.write(0xA000, 0xEA);
    cpu.run_cycles(8).unwrap();
    assert_eq!(cpu.pc, 0xA000);
    cpu.run_cycles(1).unwrap();
    assert_eq!(cpu.pc, 0xA001);
}

#[test]
fn run_until_brk_stops_past_brk() {
    let mut cpu = cpu_at(0x8000, &[0xA9, 0x01, 0xA2, 0x02, 0x00, 0xE8]);
    assert!(cpu.run_until_brk());
    assert_eq!(cpu.reg_a, 1);
    assert_eq!(cpu.reg_x, 2);
    assert_eq!(cpu.pc, 0x8005);
    assert_eq!(cpu.get_total_cycles(), 4);
}

#[test]
fn load_errors_and_specific_load() {
    let mut cpu = CPU6502::create_cpu_and_bus(0x1234);
    assert_eq!(cpu.load(vec![0; 0x8000]), Err(LoadError::ProgramTooLarge));
    assert_eq!(cpu.pc, 0x1234);
    assert_eq!(cpu.specific_load(vec![1, 2], 0x0600), Ok(()));
    assert_eq!(cpu.read(0x0600), 1);
    assert_eq!(cpu.read(0x0601), 2);
    // loading at an address leaves the reset vector alone
    assert_eq!(cpu.read_u16(0xFFFC), 0x0000);
    assert_eq!(cpu.pc, 0x1234);
    assert_eq!(cpu.specific_load(vec![1, 2], 0xFFFB), Err(LoadError::ProgramTooLarge));
    assert_eq!(cpu.index_memory(0x0600, 0x0601), Some(&[1u8, 2][..]));
}

#[test]
fn transfers() {
    let mut cpu = cpu_at(0x8000, &[0xAA, 0xA8, 0xBA, 0x8A, 0x98, 0x9A]);
    cpu.reg_a = 0x80;
    cpu.execute_step();
    assert_eq!(cpu.reg_x, 0x80);
    cpu.execute_step();
    assert_eq!(cpu.reg_y, 0x80);
    cpu.execute_step();
    assert_eq!(cpu.reg_x, 0xFF);
    cpu.execute_step();
    assert_eq!(cpu.reg_a, 0xFF);
    cpu.reg_y = 0;
    cpu.execute_step();
    assert_eq!(cpu.reg_a, 0);
    assert!(cpu.status.contains(Flags::zero()));
    cpu.reg_x = 0x33;
    cpu.execute_step();
    assert_eq!(cpu.stk_ptr, 0x33);
    assert!(cpu.status.contains(Flags::zero()));
}

#[test]
fn flag_instructions() {
    let mut cpu = cpu_at(0x8000, &[0x38, 0xF8, 0x78, 0x18, 0xD8, 0x58, 0xB8]);
    for _ in 0..3 {
        cpu.execute_step();
    }
    assert!(cpu.status.contains(Flags::carry() | Flags::decimal() | Flags::irq_disable()));
    cpu.status.insert(Flags::overflow());
    for _ in 0..4 {
        cpu.execute_step();
    }
    assert_eq!(cpu.status, Flags::unused());
}

#[test]
fn getters_match_fields() {
    let mut cpu = cpu_at(0x4321, &[]);
    cpu.reg_a = 1;
    cpu.reg_x = 2;
    cpu.reg_y = 3;
    assert_eq!((cpu.get_a(), cpu.get_x(), cpu.get_y(), cpu.get_s(), cpu.get_pc()), (1, 2, 3, 0xFF, 0x4321));
    assert_eq!(cpu.get_status(), Flags::unused());
}

#[test]
fn run_until_brk_counts_step_cycles() {
    let mut cpu = cpu_at(0x8000, &[0xA9, 0x05, 0x00]);
    assert!(cpu.run_until_brk());
    assert_eq!(cpu.reg_a, 5);
    assert!(!cpu.status.contains(Flags::zero()));
    assert!(!cpu.status.contains(Flags::negative()));
    assert_eq!(cpu.pc, 0x8003);
    assert_eq!(cpu.stk_ptr, 0xFF);
    assert!(!cpu.status.contains(Flags::irq_disable()));
    assert_eq!(cpu.get_total_cycles(), 2);
}

#[test]
fn setters_change_one_register() {
    let mut cpu = cpu_at(0x8000, &[0xE9, 0x14]);
    cpu.set_a(24);
    cpu.set_status(Flags::carry() | Flags::unused());
    cpu.set_x(7);
    cpu.set_y(8);
    cpu.set_s(0x80);
    assert_eq!((cpu.get_a(), cpu.get_x(), cpu.get_y(), cpu.get_s()), (24, 7, 8, 0x80));
    assert_eq!(cpu.execute_step(), 2);
    assert_eq!(cpu.get_a(), 4);
    assert!(cpu.get_status().contains(Flags::carry()));
    cpu.set_pc(0x1234);
    assert_eq!(cpu.get_pc(), 0x1234);
    assert_eq!(cpu.get_total_cycles(), 2);
}
