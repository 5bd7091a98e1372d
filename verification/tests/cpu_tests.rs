//! End-to-end tests of the execution engine: the documented scenarios,
//! the reset state, control flow, the stack, and error reporting.

use gb_core::cpu::{Cpu, CpuState, ExecError};
use gb_core::memory::LoadError;

fn cpu_with(program: &[u8]) -> Cpu {
    let mut cpu = Cpu::new();
    cpu.load_rom(program.to_vec()).unwrap();
    cpu
}

#[test]
fn test_hello() {
    let plus = |a, b| a + b;
    assert_eq!(2, plus(1, 1));
}

#[test]
fn reset_state_is_documented_post_boot_state() {
    let mut cpu = Cpu::new();
    let r = cpu.register_snapshot();
    assert_eq!(r.a, 0x01);
    assert_eq!(r.f, 0xB0);
    assert_eq!(r.b, 0x00);
    assert_eq!(r.c, 0x13);
    assert_eq!(r.d, 0x00);
    assert_eq!(r.e, 0xD8);
    assert_eq!(r.h, 0x01);
    assert_eq!(r.l, 0x4D);
    assert_eq!(r.sp, 0xFFFE);
    assert_eq!(r.pc, 0x0100);
    // Disturb the machine, then reset: the documented values come back.
    cpu.load_rom(vec![0x3E, 0x77, 0x04]).unwrap();
    cpu.step().unwrap();
    cpu.step().unwrap();
    cpu.reset();
    assert_eq!(cpu.register_snapshot(), r);
    assert_eq!(cpu.state(), CpuState::Running);
}

#[test]
fn register_pairs_combine_and_split() {
    let cpu = Cpu::new();
    let r = cpu.register_snapshot();
    assert_eq!(r.af(), 0x01B0);
    assert_eq!(r.bc(), 0x0013);
    assert_eq!(r.de(), 0x00D8);
    assert_eq!(r.hl(), 0x014D);
}

#[test]
fn set_flag_touches_only_its_bit() {
    let mut r = Cpu::new().register_snapshot();
    assert_eq!(r.f, 0xB0);
    r.set_flag(gb_core::register::ZERO_FLAG, false);
    assert_eq!(r.f, 0x30);
    r.set_flag(gb_core::register::SUBTRACT_FLAG, true);
    assert_eq!(r.f, 0x70);
    r.set_flag(gb_core::register::CARRY_FLAG, false);
    assert_eq!(r.f, 0x60);
    r.set_flag(gb_core::register::HALF_CARRY_FLAG, true);
    assert_eq!(r.f, 0x60);
}

#[test]
fn scenario_nop() {
    let mut cpu = cpu_with(&[0x00]);
    let before = cpu.register_snapshot();
    let cycles = cpu.step().unwrap();
    assert_eq!(cycles, 4);
    let after = cpu.register_snapshot();
    assert_eq!(after.pc, 0x0101);
    assert_eq!(after.a, before.a);
    assert_eq!(after.f, before.f);
    assert_eq!(after.b, before.b);
    assert_eq!(after.c, before.c);
    assert_eq!(after.d, before.d);
    assert_eq!(after.e, before.e);
    assert_eq!(after.h, before.h);
    assert_eq!(after.l, before.l);
    assert_eq!(after.sp, before.sp);
}

#[test]
fn scenario_cp_immediate() {
    // LD A,0x05 then CP 0x05: equality sets Zero and Subtract only.
    let mut cpu = cpu_with(&[0x3E, 0x05, 0xFE, 0x05]);
    assert_eq!(cpu.step().unwrap(), 8);
    let cycles = cpu.step().unwrap();
    assert_eq!(cycles, 8);
    let r = cpu.register_snapshot();
    assert_eq!(r.a, 0x05);
    assert_eq!(r.f, 0xC0);
    assert_eq!(r.pc, 0x0104);
}

#[test]
fn scenario_ldh_a_reads_high_page() {
    let mut cpu = cpu_with(&[0xF0, 0x00]);
    cpu.write_u8(0xFF00, 0x42);
    let cycles = cpu.step().unwrap();
    assert_eq!(cycles, 12);
    let r = cpu.register_snapshot();
    assert_eq!(r.a, 0x42);
    assert_eq!(r.pc, 0x0102);
}

#[test]
fn scenario_jr_nz_not_taken_vs_taken() {
    // Reset flags have Zero set: JR NZ,5 is not taken.
    let mut cpu = cpu_with(&[0x20, 0x05]);
    let cycles = cpu.step().unwrap();
    assert_eq!(cycles, 8);
    assert_eq!(cpu.register_snapshot().pc, 0x0102);

    // INC B clears Zero, so the same jump is taken and costs more.
    let mut cpu = cpu_with(&[0x04, 0x20, 0x05]);
    cpu.step().unwrap();
    let cycles = cpu.step().unwrap();
    assert_eq!(cycles, 12);
    assert_eq!(cpu.register_snapshot().pc, 0x0108);
}

#[test]
fn jr_negative_offset_goes_backwards() {
    // JR -2 at 0x0100 jumps back to itself.
    let mut cpu = cpu_with(&[0x18, 0xFE]);
    assert_eq!(cpu.step().unwrap(), 12);
    assert_eq!(cpu.register_snapshot().pc, 0x0100);
}

#[test]
fn push_pop_round_trip_restores_sp_and_value() {
    // PUSH BC; POP DE: DE ends up holding BC and SP is restored.
    let mut cpu = cpu_with(&[0xC5, 0xD1]);
    let before = cpu.register_snapshot();
    assert_eq!(cpu.step().unwrap(), 16);
    assert_eq!(cpu.register_snapshot().sp, before.sp.wrapping_sub(2));
    assert_eq!(cpu.step().unwrap(), 12);
    let after = cpu.register_snapshot();
    assert_eq!(after.sp, before.sp);
    assert_eq!(after.de(), before.bc());
}

#[test]
fn call_and_ret_round_trip() {
    let mut cpu = cpu_with(&[0xCD, 0x10, 0x01]);
    cpu.write_u8(0x0110, 0xC9);
    let sp0 = cpu.register_snapshot().sp;
    assert_eq!(cpu.step().unwrap(), 24);
    let mid = cpu.register_snapshot();
    assert_eq!(mid.pc, 0x0110);
    assert_eq!(mid.sp, sp0.wrapping_sub(2));
    assert_eq!(cpu.step().unwrap(), 16);
    let after = cpu.register_snapshot();
    assert_eq!(after.pc, 0x0103);
    assert_eq!(after.sp, sp0);
}

#[test]
fn conditional_ret_cycles_differ() {
    // RET Z with Zero set (reset flags): taken, 20 cycles.
    let mut cpu = cpu_with(&[0xCD, 0x10, 0x01]);
    cpu.write_u8(0x0110, 0xC8);
    cpu.step().unwrap();
    assert_eq!(cpu.step().unwrap(), 20);
    assert_eq!(cpu.register_snapshot().pc, 0x0103);

    // INC B clears Zero first: RET Z not taken, 8 cycles.
    let mut cpu = cpu_with(&[0xCD, 0x10, 0x01]);
    cpu.write_u8(0x0110, 0x04);
    cpu.write_u8(0x0111, 0xC8);
    cpu.step().unwrap();
    cpu.step().unwrap();
    assert_eq!(cpu.step().unwrap(), 8);
    assert_eq!(cpu.register_snapshot().pc, 0x0112);
}

#[test]
fn rst_pushes_return_address_and_jumps_low() {
    let mut cpu = cpu_with(&[0xEF]);
    let sp0 = cpu.register_snapshot().sp;
    assert_eq!(cpu.step().unwrap(), 16);
    let r = cpu.register_snapshot();
    assert_eq!(r.pc, 0x0028);
    assert_eq!(r.sp, sp0.wrapping_sub(2));
    assert_eq!(cpu.read_u8(r.sp), 0x01);
    assert_eq!(cpu.read_u8(r.sp.wrapping_add(1)), 0x01);
}

#[test]
fn add_with_half_carry_sets_h() {
    // LD A,0x0F; ADD A,0x01: half-carry out of bit 3, result 0x10.
    let mut cpu = cpu_with(&[0x3E, 0x0F, 0xC6, 0x01]);
    cpu.step().unwrap();
    assert_eq!(cpu.step().unwrap(), 8);
    let r = cpu.register_snapshot();
    assert_eq!(r.a, 0x10);
    assert_eq!(r.f, 0x20);
}

#[test]
fn add_with_carry_wraps_and_sets_c_and_z() {
    // LD A,0xFF; ADD A,0x01: wraps to zero with carry and half-carry.
    let mut cpu = cpu_with(&[0x3E, 0xFF, 0xC6, 0x01]);
    cpu.step().unwrap();
    cpu.step().unwrap();
    let r = cpu.register_snapshot();
    assert_eq!(r.a, 0x00);
    assert_eq!(r.f, 0xB0);
}

#[test]
fn sub_borrow_sets_carry() {
    // LD A,0x01; SUB 0x02: borrows, result 0xFF, N and C and H set.
    let mut cpu = cpu_with(&[0x3E, 0x01, 0xD6, 0x02]);
    cpu.step().unwrap();
    cpu.step().unwrap();
    let r = cpu.register_snapshot();
    assert_eq!(r.a, 0xFF);
    assert_eq!(r.f, 0x70);
}

#[test]
fn inc_dec_leave_carry_alone() {
    // Reset Carry is set; INC B must not clear it.
    let mut cpu = cpu_with(&[0x04, 0x05]);
    cpu.step().unwrap();
    let r = cpu.register_snapshot();
    assert_eq!(r.b, 0x01);
    assert_eq!(r.f & 0x10, 0x10);
    cpu.step().unwrap();
    let r = cpu.register_snapshot();
    assert_eq!(r.b, 0x00);
    // DEC to zero: Zero and Subtract set, Carry still held.
    assert_eq!(r.f, 0xD0);
}

#[test]
fn daa_corrects_bcd_addition() {
    // 0x15 + 0x27 = 0x3C; DAA turns it into BCD 0x42.
    let mut cpu = cpu_with(&[0x3E, 0x15, 0xC6, 0x27, 0x27]);
    cpu.step().unwrap();
    cpu.step().unwrap();
    assert_eq!(cpu.step().unwrap(), 4);
    let r = cpu.register_snapshot();
    assert_eq!(r.a, 0x42);
    assert_eq!(r.f, 0x00);
}

#[test]
fn rlca_moves_bit7_to_carry_and_bit0() {
    let mut cpu = cpu_with(&[0x3E, 0x85, 0x07]);
    cpu.step().unwrap();
    cpu.step().unwrap();
    let r = cpu.register_snapshot();
    assert_eq!(r.a, 0x0B);
    assert_eq!(r.f, 0x10);
}

#[test]
fn add_hl_rr_sets_carries_keeps_zero() {
    // LD HL,0x8A23; LD BC,0x0605; ADD HL,BC = 0x9028 with half-carry.
    let mut cpu = cpu_with(&[0x21, 0x23, 0x8A, 0x01, 0x05, 0x06, 0x09]);
    cpu.step().unwrap();
    cpu.step().unwrap();
    assert_eq!(cpu.step().unwrap(), 8);
    let r = cpu.register_snapshot();
    assert_eq!(r.hl(), 0x9028);
    // Zero kept from reset flags; N cleared, H set, C cleared.
    assert_eq!(r.f, 0xA0);
}

#[test]
fn ld_hl_sp_offset_flags_from_low_byte() {
    // LD HL,SP-1 with SP=0xFFFE: HL=0xFFFD, H and C from low-byte add.
    let mut cpu = cpu_with(&[0xF8, 0xFF]);
    assert_eq!(cpu.step().unwrap(), 12);
    let r = cpu.register_snapshot();
    assert_eq!(r.hl(), 0xFFFD);
    assert_eq!(r.f, 0x30);
    assert_eq!(r.sp, 0xFFFE);
}

#[test]
fn sixteen_bit_increment_wraps() {
    // LD SP,0xFFFF; INC SP wraps to zero without touching flags.
    let mut cpu = cpu_with(&[0x31, 0xFF, 0xFF, 0x33]);
    cpu.step().unwrap();
    assert_eq!(cpu.step().unwrap(), 8);
    let r = cpu.register_snapshot();
    assert_eq!(r.sp, 0x0000);
    assert_eq!(r.f, 0xB0);
}

#[test]
fn ld_hl_plus_stores_and_bumps_hl() {
    // LD HL,0xC000; LD A,0x9A; LD (HL+),A.
    let mut cpu = cpu_with(&[0x21, 0x00, 0xC0, 0x3E, 0x9A, 0x22]);
    cpu.step().unwrap();
    cpu.step().unwrap();
    assert_eq!(cpu.step().unwrap(), 8);
    let r = cpu.register_snapshot();
    assert_eq!(cpu.read_u8(0xC000), 0x9A);
    assert_eq!(r.hl(), 0xC001);
}

#[test]
fn register_to_register_loads() {
    // LD B,A copies; LD C,(HL) reads memory.
    let mut cpu = cpu_with(&[0x21, 0x00, 0xC0, 0x47, 0x4E]);
    cpu.write_u8(0xC000, 0x5D);
    cpu.step().unwrap();
    assert_eq!(cpu.step().unwrap(), 4);
    assert_eq!(cpu.register_snapshot().b, 0x01);
    assert_eq!(cpu.step().unwrap(), 8);
    assert_eq!(cpu.register_snapshot().c, 0x5D);
}

#[test]
fn pop_af_clears_flag_low_nibble() {
    // Push 0xABCD via BC, pop into AF: F keeps only its high nibble.
    let mut cpu = cpu_with(&[0x01, 0xCD, 0xAB, 0xC5, 0xF1]);
    cpu.step().unwrap();
    cpu.step().unwrap();
    cpu.step().unwrap();
    let r = cpu.register_snapshot();
    assert_eq!(r.a, 0xAB);
    assert_eq!(r.f, 0xC0);
}

#[test]
fn illegal_opcode_reports_and_leaves_machine_untouched() {
    let mut cpu = cpu_with(&[0xD3]);
    let before = cpu.register_snapshot();
    let err = cpu.step().unwrap_err();
    assert_eq!(err, ExecError::IllegalOpcode { opcode: 0xD3, addr: 0x0100 });
    assert_eq!(cpu.register_snapshot(), before);
    assert_eq!(cpu.state(), CpuState::Running);
}

#[test]
fn halt_idles_until_driven() {
    let mut cpu = cpu_with(&[0x76, 0x00]);
    assert_eq!(cpu.step().unwrap(), 4);
    assert_eq!(cpu.state(), CpuState::Halted);
    let before = cpu.register_snapshot();
    // Halted: steps idle and change nothing.
    assert_eq!(cpu.step().unwrap(), 4);
    assert_eq!(cpu.register_snapshot(), before);
    assert_eq!(cpu.state(), CpuState::Halted);
}

#[test]
fn stop_enters_stopped_mode() {
    let mut cpu = cpu_with(&[0x10]);
    assert_eq!(cpu.step().unwrap(), 4);
    assert_eq!(cpu.state(), CpuState::Stopped);
}

#[test]
fn ei_takes_effect_one_instruction_late() {
    let mut cpu = cpu_with(&[0xFB, 0x00, 0xF3]);
    assert!(!cpu.interrupt_master_enable());
    cpu.step().unwrap();
    assert!(!cpu.interrupt_master_enable());
    cpu.step().unwrap();
    assert!(cpu.interrupt_master_enable());
    cpu.step().unwrap();
    assert!(!cpu.interrupt_master_enable());
}

#[test]
fn reti_reenables_interrupts() {
    let mut cpu = cpu_with(&[0xCD, 0x10, 0x01]);
    cpu.write_u8(0x0110, 0xD9);
    cpu.step().unwrap();
    assert_eq!(cpu.step().unwrap(), 16);
    assert!(cpu.interrupt_master_enable());
    assert_eq!(cpu.register_snapshot().pc, 0x0103);
}

#[test]
fn external_ime_control_is_observable() {
    let mut cpu = Cpu::new();
    cpu.set_interrupt_master_enable(true);
    assert!(cpu.interrupt_master_enable());
    cpu.set_interrupt_master_enable(false);
    assert!(!cpu.interrupt_master_enable());
}

#[test]
fn load_rom_overflow_is_reported_and_harmless() {
    let mut cpu = Cpu::new();
    let too_big = vec![0xAAu8; 0x10000 - 0x0100 + 1];
    assert_eq!(cpu.load_rom(too_big), Err(LoadError::Overflow));
    assert_eq!(cpu.read_u8(0xFFFF), 0x00);
    let fits = vec![0xBBu8; 0x10000 - 0x0100];
    assert_eq!(cpu.load_rom(fits), Ok(()));
    assert_eq!(cpu.read_u8(0xFFFF), 0xBB);
}

#[test]
fn load_image_at_arbitrary_base() {
    let mut cpu = Cpu::new();
    assert_eq!(cpu.load_image(&vec![1, 2, 3], 0xFFFD), Ok(()));
    assert_eq!(cpu.read_u8(0xFFFD), 1);
    assert_eq!(cpu.read_u8(0xFFFE), 2);
    assert_eq!(cpu.read_u8(0xFFFF), 3);
    assert_eq!(cpu.load_image(&vec![1, 2, 3], 0xFFFE), Err(LoadError::Overflow));
    assert_eq!(cpu.read_u8(0xFFFE), 2);
}

#[test]
fn run_sums_cycles_and_stops_on_error() {
    // Four NOPs then an invalid opcode.
    let mut cpu = cpu_with(&[0x00, 0x00, 0x00, 0x00, 0xDB]);
    assert_eq!(cpu.run(4), Ok(16));
    assert_eq!(
        cpu.run(10),
        Err(ExecError::IllegalOpcode { opcode: 0xDB, addr: 0x0104 })
    );
}
