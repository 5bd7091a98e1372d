//! Tests of the remaining semantic families: logic operations, carry
//! chains, absolute jumps and stores, the 0xFF00 page, and SP arithmetic.

use gb_core::cpu::{Cpu, CpuState};

fn cpu_with(program: &[u8]) -> Cpu {
    let mut cpu = Cpu::new();
    cpu.load_rom(program.to_vec()).unwrap();
    cpu
}

fn run_steps(cpu: &mut Cpu, n: usize) {
    let mut i = 0;
    while i < n {
        cpu.step().unwrap();
        i += 1;
    }
}

#[test]
fn adc_consumes_the_carry() {
    // ADD 0xFF+0x01 wraps and sets Carry; ADC 0x00 then yields 0x01.
    let mut cpu = cpu_with(&[0x3E, 0xFF, 0xC6, 0x01, 0xCE, 0x00]);
    run_steps(&mut cpu, 3);
    let r = cpu.register_snapshot();
    assert_eq!(r.a, 0x01);
    assert_eq!(r.f, 0x00);
}

#[test]
fn sbc_consumes_the_carry() {
    // SCF; LD A,0x05; SBC 0x02 computes 5 - 2 - 1.
    let mut cpu = cpu_with(&[0x37, 0x3E, 0x05, 0xDE, 0x02]);
    run_steps(&mut cpu, 3);
    let r = cpu.register_snapshot();
    assert_eq!(r.a, 0x02);
    assert_eq!(r.f, 0x40);
}

#[test]
fn and_forces_half_carry() {
    let mut cpu = cpu_with(&[0x3E, 0x0F, 0xE6, 0xF0]);
    run_steps(&mut cpu, 2);
    let r = cpu.register_snapshot();
    assert_eq!(r.a, 0x00);
    assert_eq!(r.f, 0xA0);
}

#[test]
fn or_and_xor_clear_all_but_zero() {
    let mut cpu = cpu_with(&[0x3E, 0x0F, 0xF6, 0xF0]);
    run_steps(&mut cpu, 2);
    let r = cpu.register_snapshot();
    assert_eq!(r.a, 0xFF);
    assert_eq!(r.f, 0x00);

    // XOR A always zeroes A and leaves only the Zero flag.
    let mut cpu = cpu_with(&[0xAF]);
    run_steps(&mut cpu, 1);
    let r = cpu.register_snapshot();
    assert_eq!(r.a, 0x00);
    assert_eq!(r.f, 0x80);
}

#[test]
fn cpl_complements_and_keeps_zero_carry() {
    let mut cpu = cpu_with(&[0x2F]);
    run_steps(&mut cpu, 1);
    let r = cpu.register_snapshot();
    assert_eq!(r.a, 0xFE);
    assert_eq!(r.f, 0xF0);
}

#[test]
fn scf_then_ccf_toggles_carry() {
    let mut cpu = cpu_with(&[0x37, 0x3F]);
    run_steps(&mut cpu, 1);
    assert_eq!(cpu.register_snapshot().f, 0x90);
    run_steps(&mut cpu, 1);
    assert_eq!(cpu.register_snapshot().f, 0x80);
}

#[test]
fn jp_absolute_and_conditional() {
    let mut cpu = cpu_with(&[0xC3, 0x00, 0x02]);
    assert_eq!(cpu.step().unwrap(), 16);
    assert_eq!(cpu.register_snapshot().pc, 0x0200);

    // JP NZ with Zero set: not taken, the cheaper cost.
    let mut cpu = cpu_with(&[0xC2, 0x00, 0x02]);
    assert_eq!(cpu.step().unwrap(), 12);
    assert_eq!(cpu.register_snapshot().pc, 0x0103);
}

#[test]
fn jp_hl_costs_four() {
    let mut cpu = cpu_with(&[0x21, 0x34, 0x12, 0xE9]);
    run_steps(&mut cpu, 1);
    assert_eq!(cpu.step().unwrap(), 4);
    assert_eq!(cpu.register_snapshot().pc, 0x1234);
}

#[test]
fn ld_nn_sp_stores_little_endian() {
    let mut cpu = cpu_with(&[0x08, 0x00, 0xC0]);
    assert_eq!(cpu.step().unwrap(), 20);
    assert_eq!(cpu.read_u8(0xC000), 0xFE);
    assert_eq!(cpu.read_u8(0xC001), 0xFF);
}

#[test]
fn absolute_store_and_load_of_a() {
    let mut cpu = cpu_with(&[0xEA, 0x00, 0xC0, 0x3E, 0x00, 0xFA, 0x00, 0xC0]);
    assert_eq!(cpu.step().unwrap(), 16);
    assert_eq!(cpu.read_u8(0xC000), 0x01);
    run_steps(&mut cpu, 1);
    assert_eq!(cpu.register_snapshot().a, 0x00);
    assert_eq!(cpu.step().unwrap(), 16);
    assert_eq!(cpu.register_snapshot().a, 0x01);
}

#[test]
fn high_page_store_via_immediate_and_c() {
    let mut cpu = cpu_with(&[0xE0, 0x80, 0xE2]);
    assert_eq!(cpu.step().unwrap(), 12);
    assert_eq!(cpu.read_u8(0xFF80), 0x01);
    // LD (C),A with the reset C of 0x13.
    assert_eq!(cpu.step().unwrap(), 8);
    assert_eq!(cpu.read_u8(0xFF13), 0x01);
}

#[test]
fn add_sp_sets_carries_and_wraps() {
    let mut cpu = cpu_with(&[0xE8, 0x02]);
    assert_eq!(cpu.step().unwrap(), 16);
    let r = cpu.register_snapshot();
    assert_eq!(r.sp, 0x0000);
    assert_eq!(r.f, 0x30);
}

#[test]
fn sra_keeps_the_sign_bit() {
    let mut cpu = cpu_with(&[0x3E, 0x81, 0xCB, 0x2F]);
    run_steps(&mut cpu, 2);
    let r = cpu.register_snapshot();
    assert_eq!(r.a, 0xC0);
    assert_eq!(r.f, 0x10);
}

#[test]
fn inc_hl_memory_wraps_to_zero() {
    let mut cpu = cpu_with(&[0x21, 0x00, 0xC0, 0x34]);
    cpu.write_u8(0xC000, 0xFF);
    run_steps(&mut cpu, 1);
    assert_eq!(cpu.step().unwrap(), 12);
    assert_eq!(cpu.read_u8(0xC000), 0x00);
    // Zero and Half-Carry set, Carry kept from the reset flags.
    assert_eq!(cpu.register_snapshot().f, 0xB0);
}

#[test]
fn run_on_idle_cpu_counts_idle_cycles() {
    let mut cpu = cpu_with(&[0x76]);
    cpu.step().unwrap();
    assert_eq!(cpu.state(), CpuState::Halted);
    assert_eq!(cpu.run(5), Ok(20));
    assert_eq!(cpu.state(), CpuState::Halted);
}
