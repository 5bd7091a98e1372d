//! Tests of the two instruction tables: completeness over all 256 bytes,
//! the architecturally invalid encodings, and spot checks of the metadata.

use gb_core::cpu::Cpu;
use gb_core::opcode::{extended, primary, Opcode, OpType};

#[test]
fn every_primary_byte_has_exactly_one_descriptor() {
    for op in 0..=255u8 {
        let d = primary(op);
        assert!(d.bytes >= 1 && d.bytes <= 3, "opcode {:#04X}", op);
        assert!(d.cycles >= 4 && d.cycles <= 24, "opcode {:#04X}", op);
        assert!(!d.name.is_empty(), "opcode {:#04X}", op);
    }
}

#[test]
fn every_extended_byte_has_exactly_one_descriptor() {
    for op in 0..=255u8 {
        let d = extended(op);
        assert_eq!(d.bytes, 2, "extended opcode {:#04X}", op);
        assert!(
            d.cycles == 8 || d.cycles == 12 || d.cycles == 16,
            "extended opcode {:#04X}",
            op
        );
    }
}

#[test]
fn invalid_encodings_resolve_to_invalid_descriptors() {
    let invalid = [0xD3, 0xDB, 0xDD, 0xE3, 0xE4, 0xEB, 0xEC, 0xED, 0xF4, 0xFC, 0xFD];
    for op in 0..=255u8 {
        let d = primary(op);
        if invalid.contains(&op) {
            assert_eq!(d.typ, OpType::Invalid, "opcode {:#04X}", op);
        } else {
            assert_ne!(d.typ, OpType::Invalid, "opcode {:#04X}", op);
        }
    }
}

#[test]
fn descriptor_spot_checks() {
    let nop = primary(0x00);
    assert_eq!(nop.typ, OpType::Misc);
    assert_eq!(nop.bytes, 1);
    assert_eq!(nop.cycles, 4);
    assert_eq!(nop.name, "NOP");

    let ld_bc = primary(0x01);
    assert_eq!(ld_bc.typ, OpType::Load);
    assert_eq!(ld_bc.bytes, 3);
    assert_eq!(ld_bc.cycles, 12);
    assert_eq!(ld_bc.name, "LD BC, nn");

    let call = primary(0xCD);
    assert_eq!(call.typ, OpType::Call);
    assert_eq!(call.bytes, 3);
    assert_eq!(call.cycles, 24);

    let prefix = primary(0xCB);
    assert_eq!(prefix.typ, OpType::BitOp);
    assert_eq!(prefix.bytes, 2);

    let bit_hl = extended(0x46);
    assert_eq!(bit_hl.typ, OpType::BitOp);
    assert_eq!(bit_hl.cycles, 12);
    assert_eq!(bit_hl.name, "BIT 0, (HL)");

    let rlc_b = extended(0x00);
    assert_eq!(rlc_b.typ, OpType::RotShift);
    assert_eq!(rlc_b.cycles, 8);
    assert_eq!(rlc_b.name, "RLC B");
}

#[test]
fn descriptor_builder_keeps_its_fields() {
    let d = Opcode::new(OpType::Jump, 3, 16, "JP nn");
    assert_eq!(d.typ, OpType::Jump);
    assert_eq!(d.bytes, 3);
    assert_eq!(d.cycles, 16);
    assert_eq!(d.name, "JP nn");
}

#[test]
fn extended_table_executes_bit_operations() {
    // LD A,0xAB; SWAP A.
    let mut cpu = Cpu::new();
    cpu.load_rom(vec![0x3E, 0xAB, 0xCB, 0x37]).unwrap();
    cpu.step().unwrap();
    assert_eq!(cpu.step().unwrap(), 8);
    let r = cpu.register_snapshot();
    assert_eq!(r.a, 0xBA);
    assert_eq!(r.f, 0x00);
    assert_eq!(r.pc, 0x0104);

    // BIT 0,A on an odd value: Zero clear, Half-Carry set, Carry kept.
    let mut cpu = Cpu::new();
    cpu.load_rom(vec![0x3E, 0x01, 0xCB, 0x47]).unwrap();
    cpu.step().unwrap();
    assert_eq!(cpu.step().unwrap(), 8);
    assert_eq!(cpu.register_snapshot().f, 0x30);

    // SET 7,B then RES 7,B round-trips.
    let mut cpu = Cpu::new();
    cpu.load_rom(vec![0xCB, 0xF8, 0xCB, 0xB8]).unwrap();
    cpu.step().unwrap();
    assert_eq!(cpu.register_snapshot().b, 0x80);
    cpu.step().unwrap();
    assert_eq!(cpu.register_snapshot().b, 0x00);

    // RL (HL) through carry: reset Carry is set and shifts in.
    let mut cpu = Cpu::new();
    cpu.load_rom(vec![0x21, 0x00, 0xC0, 0xCB, 0x16]).unwrap();
    cpu.write_u8(0xC000, 0x80);
    cpu.step().unwrap();
    assert_eq!(cpu.step().unwrap(), 16);
    assert_eq!(cpu.read_u8(0xC000), 0x01);
    assert_eq!(cpu.register_snapshot().f, 0x10);
}
