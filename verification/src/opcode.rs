//! The instruction tables: a descriptor for every one of the 256 primary
//! opcodes and the 256 extended opcodes reached through the 0xCB prefix
//! escape. Every byte resolves to exactly one descriptor; architecturally
//! invalid encodings resolve to a descriptor of class `Invalid` rather than
//! being absent, so dispatch never fails on a missing entry.
//!
//! The spec functions `primary_class`, `primary_len`, `primary_cycles` (and
//! their `ext_` counterparts) state the whole tables; the executable lookups
//! are proved to agree with them entry by entry. A descriptor's cycle count
//! is the base cost: for conditional jumps, calls and returns it is the
//! "not taken" cost, and the execution engine reports the larger "taken"
//! cost when the branch is taken.

use vstd::prelude::*;

verus! {

/// Instruction class.
#[derive(Clone, Copy, PartialEq, Eq, Structural, Debug)]
pub enum OpType {
    Load,
    ALU,
    Misc,
    RotShift,
    BitOp,
    Jump,
    Call,
    Return,
    Invalid,
}

/// One instruction descriptor: class, encoded length in bytes (opcode byte
/// included), base cycle cost, and mnemonic.
pub struct Opcode {
    pub typ: OpType,
    pub bytes: u8,
    pub cycles: u8,
    pub name: String,
}

impl Opcode {
    /// Build a descriptor.
    pub fn new(typ: OpType, bytes: u8, cycles: u8, name: &str) -> (r: Opcode)
        ensures
            r.typ == typ,
            r.bytes == bytes,
            r.cycles == cycles,
            r.name@ == name@,
    {
        let name = name.to_owned();
        Opcode { typ, name, bytes, cycles }
    }
}

/// Class of each primary opcode.
pub open spec fn primary_class(op: u8) -> OpType {
    let c = op % 8;
    if 0x40 <= op && op <= 0xBF {
        if op == 0x76 {
            OpType::Misc
        } else if op < 0x80 {
            OpType::Load
        } else {
            OpType::ALU
        }
    } else if op < 0x40 {
        if c == 0 {
            if op == 0x08 {
                OpType::Load
            } else if op == 0x00 || op == 0x10 {
                OpType::Misc
            } else {
                OpType::Jump
            }
        } else if c == 1 {
            if op % 16 == 1 {
                OpType::Load
            } else {
                OpType::ALU
            }
        } else if c == 2 {
            OpType::Load
        } else if c == 3 {
            OpType::Misc
        } else if c == 4 || c == 5 {
            OpType::ALU
        } else if c == 6 {
            OpType::Load
        } else {
            OpType::RotShift
        }
    } else {
        if c == 0 {
            if op <= 0xD8 {
                OpType::Return
            } else {
                OpType::Load
            }
        } else if c == 1 {
            if op == 0xC9 || op == 0xD9 {
                OpType::Return
            } else if op == 0xE9 {
                OpType::Jump
            } else {
                OpType::Load
            }
        } else if c == 2 {
            if op == 0xE2 || op == 0xF2 || op == 0xEA || op == 0xFA {
                OpType::Load
            } else {
                OpType::Jump
            }
        } else if c == 3 {
            if op == 0xC3 {
                OpType::Jump
            } else if op == 0xCB {
                OpType::BitOp
            } else if op == 0xF3 || op == 0xFB {
                OpType::Misc
            } else {
                OpType::Invalid
            }
        } else if c == 4 {
            if op < 0xE0 {
                OpType::Call
            } else {
                OpType::Invalid
            }
        } else if c == 5 {
            if op % 16 == 5 {
                OpType::Load
            } else if op == 0xCD {
                OpType::Call
            } else {
                OpType::Invalid
            }
        } else if c == 6 {
            OpType::ALU
        } else {
            OpType::Jump
        }
    }
}

/// Encoded length in bytes of each primary opcode, the opcode byte itself
/// included.
pub open spec fn primary_len(op: u8) -> u8 {
    let c = op % 8;
    if 0x40 <= op && op <= 0xBF {
        1
    } else if op < 0x40 {
        if c == 0 {
            if op == 0x08 {
                3
            } else if op == 0x00 || op == 0x10 {
                1
            } else {
                2
            }
        } else if c == 1 {
            if op % 16 == 1 {
                3
            } else {
                1
            }
        } else if c == 6 {
            2
        } else {
            1
        }
    } else {
        if c == 0 {
            if op <= 0xD8 {
                1
            } else {
                2
            }
        } else if c == 2 {
            if op == 0xE2 || op == 0xF2 {
                1
            } else {
                3
            }
        } else if c == 3 {
            if op == 0xC3 {
                3
            } else if op == 0xCB || op == 0xD3 || op == 0xDB {
                2
            } else {
                1
            }
        } else if c == 4 {
            if op < 0xE0 {
                3
            } else {
                1
            }
        } else if c == 5 {
            if op == 0xCD {
                3
            } else if op == 0xDD {
                2
            } else {
                1
            }
        } else if c == 6 {
            2
        } else {
            1
        }
    }
}

/// Base cycle cost of each primary opcode ("not taken" for the conditional
/// control-flow instructions).
pub open spec fn primary_cycles(op: u8) -> u8 {
    let c = op % 8;
    if 0x40 <= op && op <= 0xBF {
        if op == 0x76 {
            4
        } else if c == 6 || (0x70 <= op && op <= 0x77) {
            8
        } else {
            4
        }
    } else if op < 0x40 {
        if c == 0 {
            if op == 0x08 {
                20
            } else if op == 0x00 || op == 0x10 {
                4
            } else if op == 0x18 {
                12
            } else {
                8
            }
        } else if c == 1 {
            if op % 16 == 1 {
                12
            } else {
                8
            }
        } else if c == 2 || c == 3 {
            8
        } else if c == 4 || c == 5 {
            if op == 0x34 || op == 0x35 {
                12
            } else {
                4
            }
        } else if c == 6 {
            if op == 0x36 {
                12
            } else {
                8
            }
        } else {
            4
        }
    } else {
        if c == 0 {
            if op <= 0xD8 {
                8
            } else if op == 0xE8 {
                16
            } else {
                12
            }
        } else if c == 1 {
            if op % 16 == 1 {
                12
            } else if op == 0xC9 || op == 0xD9 {
                16
            } else if op == 0xE9 {
                4
            } else {
                8
            }
        } else if c == 2 {
            if op == 0xE2 || op == 0xF2 {
                8
            } else if op == 0xEA || op == 0xFA {
                16
            } else {
                12
            }
        } else if c == 3 {
            if op == 0xC3 {
                16
            } else if op == 0xCB {
                8
            } else {
                4
            }
        } else if c == 4 {
            if op < 0xE0 {
                12
            } else {
                4
            }
        } else if c == 5 {
            if op % 16 == 5 {
                16
            } else if op == 0xCD {
                24
            } else {
                4
            }
        } else if c == 6 {
            8
        } else {
            16
        }
    }
}

/// Class of each extended (0xCB-prefixed) opcode: rotates and shifts below
/// 0x40, bit test/set/reset from 0x40 up.
pub open spec fn ext_class(op: u8) -> OpType {
    if op < 0x40 {
        OpType::RotShift
    } else {
        OpType::BitOp
    }
}

/// Cycle cost of each extended opcode: 8 on a register target; on the (HL)
/// memory target, 12 for BIT and 16 otherwise.
pub open spec fn ext_cycles(op: u8) -> u8 {
    if op % 8 == 6 {
        if 0x40 <= op && op < 0x80 {
            12
        } else {
            16
        }
    } else {
        8
    }
}


#[verifier::rlimit(100)]
#[verifier::spinoff_prover]
fn primary_q0(op: u8) -> (r: Opcode)
    requires
        0x00 <= op <= 0x3F,
    ensures
        r.typ == primary_class(op),
        r.bytes == primary_len(op),
        r.cycles == primary_cycles(op),
        r.name@ == primary_name(op),
        1 <= r.bytes <= 3,
        4 <= r.cycles <= 24,
    {
        match op {
            0x00 => {
                return Opcode::new(OpType::Misc, 1, 4, "NOP");
            }
            0x01 => {
                return Opcode::new(OpType::Load, 3, 12, "LD BC, nn");
            }
            0x02 => {
                return Opcode::new(OpType::Load, 1, 8, "LD (BC), A");
            }
            0x03 => {
                return Opcode::new(OpType::Misc, 1, 8, "INC BC");
            }
            0x04 => {
                return Opcode::new(OpType::ALU, 1, 4, "INC B");
            }
            0x05 => {
                return Opcode::new(OpType::ALU, 1, 4, "DEC B");
            }
            0x06 => {
                return Opcode::new(OpType::Load, 2, 8, "LD B, n");
            }
            0x07 => {
                return Opcode::new(OpType::RotShift, 1, 4, "RLCA");
            }
            0x08 => {
                return Opcode::new(OpType::Load, 3, 20, "LD (nn), SP");
            }
            0x09 => {
                return Opcode::new(OpType::ALU, 1, 8, "ADD HL, BC");
            }
            0x0A => {
                return Opcode::new(OpType::Load, 1, 8, "LD A, (BC)");
            }
            0x0B => {
                return Opcode::new(OpType::Misc, 1, 8, "DEC BC");
            }
            0x0C => {
                return Opcode::new(OpType::ALU, 1, 4, "INC C");
            }
            0x0D => {
                return Opcode::new(OpType::ALU, 1, 4, "DEC C");
            }
            0x0E => {
                return Opcode::new(OpType::Load, 2, 8, "LD C, n");
            }
            0x0F => {
                return Opcode::new(OpType::RotShift, 1, 4, "RRCA");
            }
            0x10 => {
                return Opcode::new(OpType::Misc, 1, 4, "STOP");
            }
            0x11 => {
                return Opcode::new(OpType::Load, 3, 12, "LD DE, nn");
            }
            0x12 => {
                return Opcode::new(OpType::Load, 1, 8, "LD (DE), A");
            }
            0x13 => {
                return Opcode::new(OpType::Misc, 1, 8, "INC DE");
            }
            0x14 => {
                return Opcode::new(OpType::ALU, 1, 4, "INC D");
            }
            0x15 => {
                return Opcode::new(OpType::ALU, 1, 4, "DEC D");
            }
            0x16 => {
                return Opcode::new(OpType::Load, 2, 8, "LD D, n");
            }
            0x17 => {
                return Opcode::new(OpType::RotShift, 1, 4, "RLA");
            }
            0x18 => {
                return Opcode::new(OpType::Jump, 2, 12, "JR n");
            }
            0x19 => {
                return Opcode::new(OpType::ALU, 1, 8, "ADD HL, DE");
            }
            0x1A => {
                return Opcode::new(OpType::Load, 1, 8, "LD A, (DE)");
            }
            0x1B => {
                return Opcode::new(OpType::Misc, 1, 8, "DEC DE");
            }
            0x1C => {
                return Opcode::new(OpType::ALU, 1, 4, "INC E");
            }
            0x1D => {
                return Opcode::new(OpType::ALU, 1, 4, "DEC E");
            }
            0x1E => {
                return Opcode::new(OpType::Load, 2, 8, "LD E, n");
            }
            0x1F => {
                return Opcode::new(OpType::RotShift, 1, 4, "RRA");
            }
            0x20 => {
                return Opcode::new(OpType::Jump, 2, 8, "JR NZ, n");
            }
            0x21 => {
                return Opcode::new(OpType::Load, 3, 12, "LD HL, nn");
            }
            0x22 => {
                return Opcode::new(OpType::Load, 1, 8, "LD (HL+), A");
            }
            0x23 => {
                return Opcode::new(OpType::Misc, 1, 8, "INC HL");
            }
            0x24 => {
                return Opcode::new(OpType::ALU, 1, 4, "INC H");
            }
            0x25 => {
                return Opcode::new(OpType::ALU, 1, 4, "DEC H");
            }
            0x26 => {
                return Opcode::new(OpType::Load, 2, 8, "LD H, n");
            }
            0x27 => {
                return Opcode::new(OpType::RotShift, 1, 4, "DAA");
            }
            0x28 => {
                return Opcode::new(OpType::Jump, 2, 8, "JR Z, n");
            }
            0x29 => {
                return Opcode::new(OpType::ALU, 1, 8, "ADD HL, HL");
            }
            0x2A => {
                return Opcode::new(OpType::Load, 1, 8, "LD A, (HL+)");
            }
            0x2B => {
                return Opcode::new(OpType::Misc, 1, 8, "DEC HL");
            }
            0x2C => {
                return Opcode::new(OpType::ALU, 1, 4, "INC L");
            }
            0x2D => {
                return Opcode::new(OpType::ALU, 1, 4, "DEC L");
            }
            0x2E => {
                return Opcode::new(OpType::Load, 2, 8, "LD L, n");
            }
            0x2F => {
                return Opcode::new(OpType::RotShift, 1, 4, "CPL");
            }
            0x30 => {
                return Opcode::new(OpType::Jump, 2, 8, "JR NC, n");
            }
            0x31 => {
                return Opcode::new(OpType::Load, 3, 12, "LD SP, nn");
            }
            0x32 => {
                return Opcode::new(OpType::Load, 1, 8, "LD (HL-), A");
            }
            0x33 => {
                return Opcode::new(OpType::Misc, 1, 8, "INC SP");
            }
            0x34 => {
                return Opcode::new(OpType::ALU, 1, 12, "INC (HL)");
            }
            0x35 => {
                return Opcode::new(OpType::ALU, 1, 12, "DEC (HL)");
            }
            0x36 => {
                return Opcode::new(OpType::Load, 2, 12, "LD (HL), n");
            }
            0x37 => {
                return Opcode::new(OpType::RotShift, 1, 4, "SCF");
            }
            0x38 => {
                return Opcode::new(OpType::Jump, 2, 8, "JR C, n");
            }
            0x39 => {
                return Opcode::new(OpType::ALU, 1, 8, "ADD HL, SP");
            }
            0x3A => {
                return Opcode::new(OpType::Load, 1, 8, "LD A, (HL-)");
            }
            0x3B => {
                return Opcode::new(OpType::Misc, 1, 8, "DEC SP");
            }
            0x3C => {
                return Opcode::new(OpType::ALU, 1, 4, "INC A");
            }
            0x3D => {
                return Opcode::new(OpType::ALU, 1, 4, "DEC A");
            }
            0x3E => {
                return Opcode::new(OpType::Load, 2, 8, "LD A, n");
            }
            0x3F => {
                return Opcode::new(OpType::RotShift, 1, 4, "CCF");
            }
            _ => {
                return Opcode::new(OpType::Invalid, 1, 4, "INVALID");
            }
        }
    }

#[verifier::rlimit(100)]
#[verifier::spinoff_prover]
fn primary_q1(op: u8) -> (r: Opcode)
    requires
        0x40 <= op <= 0x7F,
    ensures
        r.typ == primary_class(op),
        r.bytes == primary_len(op),
        r.cycles == primary_cycles(op),
        r.name@ == primary_name(op),
        1 <= r.bytes <= 3,
        4 <= r.cycles <= 24,
    {
        match op {
            0x40 => {
                return Opcode::new(OpType::Load, 1, 4, "LD B, B");
            }
            0x41 => {
                return Opcode::new(OpType::Load, 1, 4, "LD B, C");
            }
            0x42 => {
                return Opcode::new(OpType::Load, 1, 4, "LD B, D");
            }
            0x43 => {
                return Opcode::new(OpType::Load, 1, 4, "LD B, E");
            }
            0x44 => {
                return Opcode::new(OpType::Load, 1, 4, "LD B, H");
            }
            0x45 => {
                return Opcode::new(OpType::Load, 1, 4, "LD B, L");
            }
            0x46 => {
                return Opcode::new(OpType::Load, 1, 8, "LD B, (HL)");
            }
            0x47 => {
                return Opcode::new(OpType::Load, 1, 4, "LD B, A");
            }
            0x48 => {
                return Opcode::new(OpType::Load, 1, 4, "LD C, B");
            }
            0x49 => {
                return Opcode::new(OpType::Load, 1, 4, "LD C, C");
            }
            0x4A => {
                return Opcode::new(OpType::Load, 1, 4, "LD C, D");
            }
            0x4B => {
                return Opcode::new(OpType::Load, 1, 4, "LD C, E");
            }
            0x4C => {
                return Opcode::new(OpType::Load, 1, 4, "LD C, H");
            }
            0x4D => {
                return Opcode::new(OpType::Load, 1, 4, "LD C, L");
            }
            0x4E => {
                return Opcode::new(OpType::Load, 1, 8, "LD C, (HL)");
            }
            0x4F => {
                return Opcode::new(OpType::Load, 1, 4, "LD C, A");
            }
            0x50 => {
                return Opcode::new(OpType::Load, 1, 4, "LD D, B");
            }
            0x51 => {
                return Opcode::new(OpType::Load, 1, 4, "LD D, C");
            }
            0x52 => {
                return Opcode::new(OpType::Load, 1, 4, "LD D, D");
            }
            0x53 => {
                return Opcode::new(OpType::Load, 1, 4, "LD D, E");
            }
            0x54 => {
                return Opcode::new(OpType::Load, 1, 4, "LD D, H");
            }
            0x55 => {
                return Opcode::new(OpType::Load, 1, 4, "LD D, L");
            }
            0x56 => {
                return Opcode::new(OpType::Load, 1, 8, "LD D, (HL)");
            }
            0x57 => {
                return Opcode::new(OpType::Load, 1, 4, "LD D, A");
            }
            0x58 => {
                return Opcode::new(OpType::Load, 1, 4, "LD E, B");
            }
            0x59 => {
                return Opcode::new(OpType::Load, 1, 4, "LD E, C");
            }
            0x5A => {
                return Opcode::new(OpType::Load, 1, 4, "LD E, D");
            }
            0x5B => {
                return Opcode::new(OpType::Load, 1, 4, "LD E, E");
            }
            0x5C => {
                return Opcode::new(OpType::Load, 1, 4, "LD E, H");
            }
            0x5D => {
                return Opcode::new(OpType::Load, 1, 4, "LD E, L");
            }
            0x5E => {
                return Opcode::new(OpType::Load, 1, 8, "LD E, (HL)");
            }
            0x5F => {
                return Opcode::new(OpType::Load, 1, 4, "LD E, A");
            }
            0x60 => {
                return Opcode::new(OpType::Load, 1, 4, "LD H, B");
            }
            0x61 => {
                return Opcode::new(OpType::Load, 1, 4, "LD H, C");
            }
            0x62 => {
                return Opcode::new(OpType::Load, 1, 4, "LD H, D");
            }
            0x63 => {
                return Opcode::new(OpType::Load, 1, 4, "LD H, E");
            }
            0x64 => {
                return Opcode::new(OpType::Load, 1, 4, "LD H, H");
            }
            0x65 => {
                return Opcode::new(OpType::Load, 1, 4, "LD H, L");
            }
            0x66 => {
                return Opcode::new(OpType::Load, 1, 8, "LD H, (HL)");
            }
            0x67 => {
                return Opcode::new(OpType::Load, 1, 4, "LD H, A");
            }
            0x68 => {
                return Opcode::new(OpType::Load, 1, 4, "LD L, B");
            }
            0x69 => {
                return Opcode::new(OpType::Load, 1, 4, "LD L, C");
            }
            0x6A => {
                return Opcode::new(OpType::Load, 1, 4, "LD L, D");
            }
            0x6B => {
                return Opcode::new(OpType::Load, 1, 4, "LD L, E");
            }
            0x6C => {
                return Opcode::new(OpType::Load, 1, 4, "LD L, H");
            }
            0x6D => {
                return Opcode::new(OpType::Load, 1, 4, "LD L, L");
            }
            0x6E => {
                return Opcode::new(OpType::Load, 1, 8, "LD L, (HL)");
            }
            0x6F => {
                return Opcode::new(OpType::Load, 1, 4, "LD L, A");
            }
            0x70 => {
                return Opcode::new(OpType::Load, 1, 8, "LD (HL), B");
            }
            0x71 => {
                return Opcode::new(OpType::Load, 1, 8, "LD (HL), C");
            }
            0x72 => {
                return Opcode::new(OpType::Load, 1, 8, "LD (HL), D");
            }
            0x73 => {
                return Opcode::new(OpType::Load, 1, 8, "LD (HL), E");
            }
            0x74 => {
                return Opcode::new(OpType::Load, 1, 8, "LD (HL), H");
            }
            0x75 => {
                return Opcode::new(OpType::Load, 1, 8, "LD (HL), L");
            }
            0x76 => {
                return Opcode::new(OpType::Misc, 1, 4, "HALT");
            }
            0x77 => {
                return Opcode::new(OpType::Load, 1, 8, "LD (HL), A");
            }
            0x78 => {
                return Opcode::new(OpType::Load, 1, 4, "LD A, B");
            }
            0x79 => {
                return Opcode::new(OpType::Load, 1, 4, "LD A, C");
            }
            0x7A => {
                return Opcode::new(OpType::Load, 1, 4, "LD A, D");
            }
            0x7B => {
                return Opcode::new(OpType::Load, 1, 4, "LD A, E");
            }
            0x7C => {
                return Opcode::new(OpType::Load, 1, 4, "LD A, H");
            }
            0x7D => {
                return Opcode::new(OpType::Load, 1, 4, "LD A, L");
            }
            0x7E => {
                return Opcode::new(OpType::Load, 1, 8, "LD A, (HL)");
            }
            0x7F => {
                return Opcode::new(OpType::Load, 1, 4, "LD A, A");
            }
            _ => {
                return Opcode::new(OpType::Invalid, 1, 4, "INVALID");
            }
        }
    }

#[verifier::rlimit(100)]
#[verifier::spinoff_prover]
fn primary_q2(op: u8) -> (r: Opcode)
    requires
        0x80 <= op <= 0xBF,
    ensures
        r.typ == primary_class(op),
        r.bytes == primary_len(op),
        r.cycles == primary_cycles(op),
        r.name@ == primary_name(op),
        1 <= r.bytes <= 3,
        4 <= r.cycles <= 24,
    {
        match op {
            0x80 => {
                return Opcode::new(OpType::ALU, 1, 4, "ADD A, B");
            }
            0x81 => {
                return Opcode::new(OpType::ALU, 1, 4, "ADD A, C");
            }
            0x82 => {
                return Opcode::new(OpType::ALU, 1, 4, "ADD A, D");
            }
            0x83 => {
                return Opcode::new(OpType::ALU, 1, 4, "ADD A, E");
            }
            0x84 => {
                return Opcode::new(OpType::ALU, 1, 4, "ADD A, H");
            }
            0x85 => {
                return Opcode::new(OpType::ALU, 1, 4, "ADD A, L");
            }
            0x86 => {
                return Opcode::new(OpType::ALU, 1, 8, "ADD A, (HL)");
            }
            0x87 => {
                return Opcode::new(OpType::ALU, 1, 4, "ADD A, A");
            }
            0x88 => {
                return Opcode::new(OpType::ALU, 1, 4, "ADC A, B");
            }
            0x89 => {
                return Opcode::new(OpType::ALU, 1, 4, "ADC A, C");
            }
            0x8A => {
                return Opcode::new(OpType::ALU, 1, 4, "ADC A, D");
            }
            0x8B => {
                return Opcode::new(OpType::ALU, 1, 4, "ADC A, E");
            }
            0x8C => {
                return Opcode::new(OpType::ALU, 1, 4, "ADC A, H");
            }
            0x8D => {
                return Opcode::new(OpType::ALU, 1, 4, "ADC A, L");
            }
            0x8E => {
                return Opcode::new(OpType::ALU, 1, 8, "ADC A, (HL)");
            }
            0x8F => {
                return Opcode::new(OpType::ALU, 1, 4, "ADC A, A");
            }
            0x90 => {
                return Opcode::new(OpType::ALU, 1, 4, "SUB B");
            }
            0x91 => {
                return Opcode::new(OpType::ALU, 1, 4, "SUB C");
            }
            0x92 => {
                return Opcode::new(OpType::ALU, 1, 4, "SUB D");
            }
            0x93 => {
                return Opcode::new(OpType::ALU, 1, 4, "SUB E");
            }
            0x94 => {
                return Opcode::new(OpType::ALU, 1, 4, "SUB H");
            }
            0x95 => {
                return Opcode::new(OpType::ALU, 1, 4, "SUB L");
            }
            0x96 => {
                return Opcode::new(OpType::ALU, 1, 8, "SUB (HL)");
            }
            0x97 => {
                return Opcode::new(OpType::ALU, 1, 4, "SUB A");
            }
            0x98 => {
                return Opcode::new(OpType::ALU, 1, 4, "SBC A, B");
            }
            0x99 => {
                return Opcode::new(OpType::ALU, 1, 4, "SBC A, C");
            }
            0x9A => {
                return Opcode::new(OpType::ALU, 1, 4, "SBC A, D");
            }
            0x9B => {
                return Opcode::new(OpType::ALU, 1, 4, "SBC A, E");
            }
            0x9C => {
                return Opcode::new(OpType::ALU, 1, 4, "SBC A, H");
            }
            0x9D => {
                return Opcode::new(OpType::ALU, 1, 4, "SBC A, L");
            }
            0x9E => {
                return Opcode::new(OpType::ALU, 1, 8, "SBC A, (HL)");
            }
            0x9F => {
                return Opcode::new(OpType::ALU, 1, 4, "SBC A, A");
            }
            0xA0 => {
                return Opcode::new(OpType::ALU, 1, 4, "AND B");
            }
            0xA1 => {
                return Opcode::new(OpType::ALU, 1, 4, "AND C");
            }
            0xA2 => {
                return Opcode::new(OpType::ALU, 1, 4, "AND D");
            }
            0xA3 => {
                return Opcode::new(OpType::ALU, 1, 4, "AND E");
            }
            0xA4 => {
                return Opcode::new(OpType::ALU, 1, 4, "AND H");
            }
            0xA5 => {
                return Opcode::new(OpType::ALU, 1, 4, "AND L");
            }
            0xA6 => {
                return Opcode::new(OpType::ALU, 1, 8, "AND (HL)");
            }
            0xA7 => {
                return Opcode::new(OpType::ALU, 1, 4, "AND A");
            }
            0xA8 => {
                return Opcode::new(OpType::ALU, 1, 4, "XOR B");
            }
            0xA9 => {
                return Opcode::new(OpType::ALU, 1, 4, "XOR C");
            }
            0xAA => {
                return Opcode::new(OpType::ALU, 1, 4, "XOR D");
            }
            0xAB => {
                return Opcode::new(OpType::ALU, 1, 4, "XOR E");
            }
            0xAC => {
                return Opcode::new(OpType::ALU, 1, 4, "XOR H");
            }
            0xAD => {
                return Opcode::new(OpType::ALU, 1, 4, "XOR L");
            }
            0xAE => {
                return Opcode::new(OpType::ALU, 1, 8, "XOR (HL)");
            }
            0xAF => {
                return Opcode::new(OpType::ALU, 1, 4, "XOR A");
            }
            0xB0 => {
                return Opcode::new(OpType::ALU, 1, 4, "OR B");
            }
            0xB1 => {
                return Opcode::new(OpType::ALU, 1, 4, "OR C");
            }
            0xB2 => {
                return Opcode::new(OpType::ALU, 1, 4, "OR D");
            }
            0xB3 => {
                return Opcode::new(OpType::ALU, 1, 4, "OR E");
            }
            0xB4 => {
                return Opcode::new(OpType::ALU, 1, 4, "OR H");
            }
            0xB5 => {
                return Opcode::new(OpType::ALU, 1, 4, "OR L");
            }
            0xB6 => {
                return Opcode::new(OpType::ALU, 1, 8, "OR (HL)");
            }
            0xB7 => {
                return Opcode::new(OpType::ALU, 1, 4, "OR A");
            }
            0xB8 => {
                return Opcode::new(OpType::ALU, 1, 4, "CP B");
            }
            0xB9 => {
                return Opcode::new(OpType::ALU, 1, 4, "CP C");
            }
            0xBA => {
                return Opcode::new(OpType::ALU, 1, 4, "CP D");
            }
            0xBB => {
                return Opcode::new(OpType::ALU, 1, 4, "CP E");
            }
            0xBC => {
                return Opcode::new(OpType::ALU, 1, 4, "CP H");
            }
            0xBD => {
                return Opcode::new(OpType::ALU, 1, 4, "CP L");
            }
            0xBE => {
                return Opcode::new(OpType::ALU, 1, 8, "CP (HL)");
            }
            0xBF => {
                return Opcode::new(OpType::ALU, 1, 4, "CP A");
            }
            _ => {
                return Opcode::new(OpType::Invalid, 1, 4, "INVALID");
            }
        }
    }

#[verifier::rlimit(100)]
#[verifier::spinoff_prover]
fn primary_q3(op: u8) -> (r: Opcode)
    requires
        0xC0 <= op <= 0xFF,
    ensures
        r.typ == primary_class(op),
        r.bytes == primary_len(op),
        r.cycles == primary_cycles(op),
        r.name@ == primary_name(op),
        1 <= r.bytes <= 3,
        4 <= r.cycles <= 24,
    {
        match op {
            0xC0 => {
                return Opcode::new(OpType::Return, 1, 8, "RET NZ");
            }
            0xC1 => {
                return Opcode::new(OpType::Load, 1, 12, "POP BC");
            }
            0xC2 => {
                return Opcode::new(OpType::Jump, 3, 12, "JP NZ, nn");
            }
            0xC3 => {
                return Opcode::new(OpType::Jump, 3, 16, "JP nn");
            }
            0xC4 => {
                return Opcode::new(OpType::Call, 3, 12, "CALL NZ, nn");
            }
            0xC5 => {
                return Opcode::new(OpType::Load, 1, 16, "PUSH BC");
            }
            0xC6 => {
                return Opcode::new(OpType::ALU, 2, 8, "ADD A, n");
            }
            0xC7 => {
                return Opcode::new(OpType::Jump, 1, 16, "RST 00H");
            }
            0xC8 => {
                return Opcode::new(OpType::Return, 1, 8, "RET Z");
            }
            0xC9 => {
                return Opcode::new(OpType::Return, 1, 16, "RET");
            }
            0xCA => {
                return Opcode::new(OpType::Jump, 3, 12, "JP Z, nn");
            }
            0xCB => {
                return Opcode::new(OpType::BitOp, 2, 8, "PREFIX CB");
            }
            0xCC => {
                return Opcode::new(OpType::Call, 3, 12, "CALL Z, nn");
            }
            0xCD => {
                return Opcode::new(OpType::Call, 3, 24, "CALL nn");
            }
            0xCE => {
                return Opcode::new(OpType::ALU, 2, 8, "ADC A, n");
            }
            0xCF => {
                return Opcode::new(OpType::Jump, 1, 16, "RST 08H");
            }
            0xD0 => {
                return Opcode::new(OpType::Return, 1, 8, "RET NC");
            }
            0xD1 => {
                return Opcode::new(OpType::Load, 1, 12, "POP DE");
            }
            0xD2 => {
                return Opcode::new(OpType::Jump, 3, 12, "JP NC, nn");
            }
            0xD3 => {
                return Opcode::new(OpType::Invalid, 2, 4, "INVALID");
            }
            0xD4 => {
                return Opcode::new(OpType::Call, 3, 12, "CALL NC, nn");
            }
            0xD5 => {
                return Opcode::new(OpType::Load, 1, 16, "PUSH DE");
            }
            0xD6 => {
                return Opcode::new(OpType::ALU, 2, 8, "SUB n");
            }
            0xD7 => {
                return Opcode::new(OpType::Jump, 1, 16, "RST 10H");
            }
            0xD8 => {
                return Opcode::new(OpType::Return, 1, 8, "RET C");
            }
            0xD9 => {
                return Opcode::new(OpType::Return, 1, 16, "RETI");
            }
            0xDA => {
                return Opcode::new(OpType::Jump, 3, 12, "JP C, nn");
            }
            0xDB => {
                return Opcode::new(OpType::Invalid, 2, 4, "INVALID");
            }
            0xDC => {
                return Opcode::new(OpType::Call, 3, 12, "CALL C, nn");
            }
            0xDD => {
                return Opcode::new(OpType::Invalid, 2, 4, "INVALID");
            }
            0xDE => {
                return Opcode::new(OpType::ALU, 2, 8, "SBC A, n");
            }
            0xDF => {
                return Opcode::new(OpType::Jump, 1, 16, "RST 18H");
            }
            0xE0 => {
                return Opcode::new(OpType::Load, 2, 12, "LDH (n), A");
            }
            0xE1 => {
                return Opcode::new(OpType::Load, 1, 12, "POP HL");
            }
            0xE2 => {
                return Opcode::new(OpType::Load, 1, 8, "LD (C), A");
            }
            0xE3 => {
                return Opcode::new(OpType::Invalid, 1, 4, "INVALID");
            }
            0xE4 => {
                return Opcode::new(OpType::Invalid, 1, 4, "INVALID");
            }
            0xE5 => {
                return Opcode::new(OpType::Load, 1, 16, "PUSH HL");
            }
            0xE6 => {
                return Opcode::new(OpType::ALU, 2, 8, "AND n");
            }
            0xE7 => {
                return Opcode::new(OpType::Jump, 1, 16, "RST 20H");
            }
            0xE8 => {
                return Opcode::new(OpType::Load, 2, 16, "ADD SP, n");
            }
            0xE9 => {
                return Opcode::new(OpType::Jump, 1, 4, "JP (HL)");
            }
            0xEA => {
                return Opcode::new(OpType::Load, 3, 16, "LD (nn), A");
            }
            0xEB => {
                return Opcode::new(OpType::Invalid, 1, 4, "INVALID");
            }
            0xEC => {
                return Opcode::new(OpType::Invalid, 1, 4, "INVALID");
            }
            0xED => {
                return Opcode::new(OpType::Invalid, 1, 4, "INVALID");
            }
            0xEE => {
                return Opcode::new(OpType::ALU, 2, 8, "XOR n");
            }
            0xEF => {
                return Opcode::new(OpType::Jump, 1, 16, "RST 28H");
            }
            0xF0 => {
                return Opcode::new(OpType::Load, 2, 12, "LDH A, (n)");
            }
            0xF1 => {
                return Opcode::new(OpType::Load, 1, 12, "POP AF");
            }
            0xF2 => {
                return Opcode::new(OpType::Load, 1, 8, "LD A, (C)");
            }
            0xF3 => {
                return Opcode::new(OpType::Misc, 1, 4, "DI");
            }
            0xF4 => {
                return Opcode::new(OpType::Invalid, 1, 4, "INVALID");
            }
            0xF5 => {
                return Opcode::new(OpType::Load, 1, 16, "PUSH AF");
            }
            0xF6 => {
                return Opcode::new(OpType::ALU, 2, 8, "OR n");
            }
            0xF7 => {
                return Opcode::new(OpType::Jump, 1, 16, "RST 30H");
            }
            0xF8 => {
                return Opcode::new(OpType::Load, 2, 12, "LD HL, SP+n");
            }
            0xF9 => {
                return Opcode::new(OpType::Load, 1, 8, "LD SP, HL");
            }
            0xFA => {
                return Opcode::new(OpType::Load, 3, 16, "LD A, (nn)");
            }
            0xFB => {
                return Opcode::new(OpType::Misc, 1, 4, "EI");
            }
            0xFC => {
                return Opcode::new(OpType::Invalid, 1, 4, "INVALID");
            }
            0xFD => {
                return Opcode::new(OpType::Invalid, 1, 4, "INVALID");
            }
            0xFE => {
                return Opcode::new(OpType::ALU, 2, 8, "CP n");
            }
            0xFF => {
                return Opcode::new(OpType::Jump, 1, 16, "RST 38H");
            }
            _ => {
                return Opcode::new(OpType::Invalid, 1, 4, "INVALID");
            }
        }
    }

/// Look up the descriptor of a primary opcode. Total: every byte yields
/// exactly one descriptor.
pub fn primary(op: u8) -> (r: Opcode)
    ensures
        r.typ == primary_class(op),
        r.bytes == primary_len(op),
        r.cycles == primary_cycles(op),
        r.name@ == primary_name(op),
        1 <= r.bytes <= 3,
        4 <= r.cycles <= 24,
{
    if op < 0x40 {
        primary_q0(op)
    } else if op < 0x80 {
        primary_q1(op)
    } else if op < 0xC0 {
        primary_q2(op)
    } else {
        primary_q3(op)
    }
}

/// Mnemonics of primary opcodes 0x00-0x3F.
pub open spec fn primary_name_q0(op: u8) -> Seq<char> {
    if op == 0x00 {
        "NOP"@
    } else if op == 0x01 {
        "LD BC, nn"@
    } else if op == 0x02 {
        "LD (BC), A"@
    } else if op == 0x03 {
        "INC BC"@
    } else if op == 0x04 {
        "INC B"@
    } else if op == 0x05 {
        "DEC B"@
    } else if op == 0x06 {
        "LD B, n"@
    } else if op == 0x07 {
        "RLCA"@
    } else if op == 0x08 {
        "LD (nn), SP"@
    } else if op == 0x09 {
        "ADD HL, BC"@
    } else if op == 0x0A {
        "LD A, (BC)"@
    } else if op == 0x0B {
        "DEC BC"@
    } else if op == 0x0C {
        "INC C"@
    } else if op == 0x0D {
        "DEC C"@
    } else if op == 0x0E {
        "LD C, n"@
    } else if op == 0x0F {
        "RRCA"@
    } else if op == 0x10 {
        "STOP"@
    } else if op == 0x11 {
        "LD DE, nn"@
    } else if op == 0x12 {
        "LD (DE), A"@
    } else if op == 0x13 {
        "INC DE"@
    } else if op == 0x14 {
        "INC D"@
    } else if op == 0x15 {
        "DEC D"@
    } else if op == 0x16 {
        "LD D, n"@
    } else if op == 0x17 {
        "RLA"@
    } else if op == 0x18 {
        "JR n"@
    } else if op == 0x19 {
        "ADD HL, DE"@
    } else if op == 0x1A {
        "LD A, (DE)"@
    } else if op == 0x1B {
        "DEC DE"@
    } else if op == 0x1C {
        "INC E"@
    } else if op == 0x1D {
        "DEC E"@
    } else if op == 0x1E {
        "LD E, n"@
    } else if op == 0x1F {
        "RRA"@
    } else if op == 0x20 {
        "JR NZ, n"@
    } else if op == 0x21 {
        "LD HL, nn"@
    } else if op == 0x22 {
        "LD (HL+), A"@
    } else if op == 0x23 {
        "INC HL"@
    } else if op == 0x24 {
        "INC H"@
    } else if op == 0x25 {
        "DEC H"@
    } else if op == 0x26 {
        "LD H, n"@
    } else if op == 0x27 {
        "DAA"@
    } else if op == 0x28 {
        "JR Z, n"@
    } else if op == 0x29 {
        "ADD HL, HL"@
    } else if op == 0x2A {
        "LD A, (HL+)"@
    } else if op == 0x2B {
        "DEC HL"@
    } else if op == 0x2C {
        "INC L"@
    } else if op == 0x2D {
        "DEC L"@
    } else if op == 0x2E {
        "LD L, n"@
    } else if op == 0x2F {
        "CPL"@
    } else if op == 0x30 {
        "JR NC, n"@
    } else if op == 0x31 {
        "LD SP, nn"@
    } else if op == 0x32 {
        "LD (HL-), A"@
    } else if op == 0x33 {
        "INC SP"@
    } else if op == 0x34 {
        "INC (HL)"@
    } else if op == 0x35 {
        "DEC (HL)"@
    } else if op == 0x36 {
        "LD (HL), n"@
    } else if op == 0x37 {
        "SCF"@
    } else if op == 0x38 {
        "JR C, n"@
    } else if op == 0x39 {
        "ADD HL, SP"@
    } else if op == 0x3A {
        "LD A, (HL-)"@
    } else if op == 0x3B {
        "DEC SP"@
    } else if op == 0x3C {
        "INC A"@
    } else if op == 0x3D {
        "DEC A"@
    } else if op == 0x3E {
        "LD A, n"@
    } else {
        "CCF"@
    }
}

/// Mnemonics of primary opcodes 0x40-0x7F.
pub open spec fn primary_name_q1(op: u8) -> Seq<char> {
    if op == 0x40 {
        "LD B, B"@
    } else if op == 0x41 {
        "LD B, C"@
    } else if op == 0x42 {
        "LD B, D"@
    } else if op == 0x43 {
        "LD B, E"@
    } else if op == 0x44 {
        "LD B, H"@
    } else if op == 0x45 {
        "LD B, L"@
    } else if op == 0x46 {
        "LD B, (HL)"@
    } else if op == 0x47 {
        "LD B, A"@
    } else if op == 0x48 {
        "LD C, B"@
    } else if op == 0x49 {
        "LD C, C"@
    } else if op == 0x4A {
        "LD C, D"@
    } else if op == 0x4B {
        "LD C, E"@
    } else if op == 0x4C {
        "LD C, H"@
    } else if op == 0x4D {
        "LD C, L"@
    } else if op == 0x4E {
        "LD C, (HL)"@
    } else if op == 0x4F {
        "LD C, A"@
    } else if op == 0x50 {
        "LD D, B"@
    } else if op == 0x51 {
        "LD D, C"@
    } else if op == 0x52 {
        "LD D, D"@
    } else if op == 0x53 {
        "LD D, E"@
    } else if op == 0x54 {
        "LD D, H"@
    } else if op == 0x55 {
        "LD D, L"@
    } else if op == 0x56 {
        "LD D, (HL)"@
    } else if op == 0x57 {
        "LD D, A"@
    } else if op == 0x58 {
        "LD E, B"@
    } else if op == 0x59 {
        "LD E, C"@
    } else if op == 0x5A {
        "LD E, D"@
    } else if op == 0x5B {
        "LD E, E"@
    } else if op == 0x5C {
        "LD E, H"@
    } else if op == 0x5D {
        "LD E, L"@
    } else if op == 0x5E {
        "LD E, (HL)"@
    } else if op == 0x5F {
        "LD E, A"@
    } else if op == 0x60 {
        "LD H, B"@
    } else if op == 0x61 {
        "LD H, C"@
    } else if op == 0x62 {
        "LD H, D"@
    } else if op == 0x63 {
        "LD H, E"@
    } else if op == 0x64 {
        "LD H, H"@
    } else if op == 0x65 {
        "LD H, L"@
    } else if op == 0x66 {
        "LD H, (HL)"@
    } else if op == 0x67 {
        "LD H, A"@
    } else if op == 0x68 {
        "LD L, B"@
    } else if op == 0x69 {
        "LD L, C"@
    } else if op == 0x6A {
        "LD L, D"@
    } else if op == 0x6B {
        "LD L, E"@
    } else if op == 0x6C {
        "LD L, H"@
    } else if op == 0x6D {
        "LD L, L"@
    } else if op == 0x6E {
        "LD L, (HL)"@
    } else if op == 0x6F {
        "LD L, A"@
    } else if op == 0x70 {
        "LD (HL), B"@
    } else if op == 0x71 {
        "LD (HL), C"@
    } else if op == 0x72 {
        "LD (HL), D"@
    } else if op == 0x73 {
        "LD (HL), E"@
    } else if op == 0x74 {
        "LD (HL), H"@
    } else if op == 0x75 {
        "LD (HL), L"@
    } else if op == 0x76 {
        "HALT"@
    } else if op == 0x77 {
        "LD (HL), A"@
    } else if op == 0x78 {
        "LD A, B"@
    } else if op == 0x79 {
        "LD A, C"@
    } else if op == 0x7A {
        "LD A, D"@
    } else if op == 0x7B {
        "LD A, E"@
    } else if op == 0x7C {
        "LD A, H"@
    } else if op == 0x7D {
        "LD A, L"@
    } else if op == 0x7E {
        "LD A, (HL)"@
    } else {
        "LD A, A"@
    }
}

/// Mnemonics of primary opcodes 0x80-0xBF.
pub open spec fn primary_name_q2(op: u8) -> Seq<char> {
    if op == 0x80 {
        "ADD A, B"@
    } else if op == 0x81 {
        "ADD A, C"@
    } else if op == 0x82 {
        "ADD A, D"@
    } else if op == 0x83 {
        "ADD A, E"@
    } else if op == 0x84 {
        "ADD A, H"@
    } else if op == 0x85 {
        "ADD A, L"@
    } else if op == 0x86 {
        "ADD A, (HL)"@
    } else if op == 0x87 {
        "ADD A, A"@
    } else if op == 0x88 {
        "ADC A, B"@
    } else if op == 0x89 {
        "ADC A, C"@
    } else if op == 0x8A {
        "ADC A, D"@
    } else if op == 0x8B {
        "ADC A, E"@
    } else if op == 0x8C {
        "ADC A, H"@
    } else if op == 0x8D {
        "ADC A, L"@
    } else if op == 0x8E {
        "ADC A, (HL)"@
    } else if op == 0x8F {
        "ADC A, A"@
    } else if op == 0x90 {
        "SUB B"@
    } else if op == 0x91 {
        "SUB C"@
    } else if op == 0x92 {
        "SUB D"@
    } else if op == 0x93 {
        "SUB E"@
    } else if op == 0x94 {
        "SUB H"@
    } else if op == 0x95 {
        "SUB L"@
    } else if op == 0x96 {
        "SUB (HL)"@
    } else if op == 0x97 {
        "SUB A"@
    } else if op == 0x98 {
        "SBC A, B"@
    } else if op == 0x99 {
        "SBC A, C"@
    } else if op == 0x9A {
        "SBC A, D"@
    } else if op == 0x9B {
        "SBC A, E"@
    } else if op == 0x9C {
        "SBC A, H"@
    } else if op == 0x9D {
        "SBC A, L"@
    } else if op == 0x9E {
        "SBC A, (HL)"@
    } else if op == 0x9F {
        "SBC A, A"@
    } else if op == 0xA0 {
        "AND B"@
    } else if op == 0xA1 {
        "AND C"@
    } else if op == 0xA2 {
        "AND D"@
    } else if op == 0xA3 {
        "AND E"@
    } else if op == 0xA4 {
        "AND H"@
    } else if op == 0xA5 {
        "AND L"@
    } else if op == 0xA6 {
        "AND (HL)"@
    } else if op == 0xA7 {
        "AND A"@
    } else if op == 0xA8 {
        "XOR B"@
    } else if op == 0xA9 {
        "XOR C"@
    } else if op == 0xAA {
        "XOR D"@
    } else if op == 0xAB {
        "XOR E"@
    } else if op == 0xAC {
        "XOR H"@
    } else if op == 0xAD {
        "XOR L"@
    } else if op == 0xAE {
        "XOR (HL)"@
    } else if op == 0xAF {
        "XOR A"@
    } else if op == 0xB0 {
        "OR B"@
    } else if op == 0xB1 {
        "OR C"@
    } else if op == 0xB2 {
        "OR D"@
    } else if op == 0xB3 {
        "OR E"@
    } else if op == 0xB4 {
        "OR H"@
    } else if op == 0xB5 {
        "OR L"@
    } else if op == 0xB6 {
        "OR (HL)"@
    } else if op == 0xB7 {
        "OR A"@
    } else if op == 0xB8 {
        "CP B"@
    } else if op == 0xB9 {
        "CP C"@
    } else if op == 0xBA {
        "CP D"@
    } else if op == 0xBB {
        "CP E"@
    } else if op == 0xBC {
        "CP H"@
    } else if op == 0xBD {
        "CP L"@
    } else if op == 0xBE {
        "CP (HL)"@
    } else {
        "CP A"@
    }
}

/// Mnemonics of primary opcodes 0xC0-0xFF.
pub open spec fn primary_name_q3(op: u8) -> Seq<char> {
    if op == 0xC0 {
        "RET NZ"@
    } else if op == 0xC1 {
        "POP BC"@
    } else if op == 0xC2 {
        "JP NZ, nn"@
    } else if op == 0xC3 {
        "JP nn"@
    } else if op == 0xC4 {
        "CALL NZ, nn"@
    } else if op == 0xC5 {
        "PUSH BC"@
    } else if op == 0xC6 {
        "ADD A, n"@
    } else if op == 0xC7 {
        "RST 00H"@
    } else if op == 0xC8 {
        "RET Z"@
    } else if op == 0xC9 {
        "RET"@
    } else if op == 0xCA {
        "JP Z, nn"@
    } else if op == 0xCB {
        "PREFIX CB"@
    } else if op == 0xCC {
        "CALL Z, nn"@
    } else if op == 0xCD {
        "CALL nn"@
    } else if op == 0xCE {
        "ADC A, n"@
    } else if op == 0xCF {
        "RST 08H"@
    } else if op == 0xD0 {
        "RET NC"@
    } else if op == 0xD1 {
        "POP DE"@
    } else if op == 0xD2 {
        "JP NC, nn"@
    } else if op == 0xD3 {
        "INVALID"@
    } else if op == 0xD4 {
        "CALL NC, nn"@
    } else if op == 0xD5 {
        "PUSH DE"@
    } else if op == 0xD6 {
        "SUB n"@
    } else if op == 0xD7 {
        "RST 10H"@
    } else if op == 0xD8 {
        "RET C"@
    } else if op == 0xD9 {
        "RETI"@
    } else if op == 0xDA {
        "JP C, nn"@
    } else if op == 0xDB {
        "INVALID"@
    } else if op == 0xDC {
        "CALL C, nn"@
    } else if op == 0xDD {
        "INVALID"@
    } else if op == 0xDE {
        "SBC A, n"@
    } else if op == 0xDF {
        "RST 18H"@
    } else if op == 0xE0 {
        "LDH (n), A"@
    } else if op == 0xE1 {
        "POP HL"@
    } else if op == 0xE2 {
        "LD (C), A"@
    } else if op == 0xE3 {
        "INVALID"@
    } else if op == 0xE4 {
        "INVALID"@
    } else if op == 0xE5 {
        "PUSH HL"@
    } else if op == 0xE6 {
        "AND n"@
    } else if op == 0xE7 {
        "RST 20H"@
    } else if op == 0xE8 {
        "ADD SP, n"@
    } else if op == 0xE9 {
        "JP (HL)"@
    } else if op == 0xEA {
        "LD (nn), A"@
    } else if op == 0xEB {
        "INVALID"@
    } else if op == 0xEC {
        "INVALID"@
    } else if op == 0xED {
        "INVALID"@
    } else if op == 0xEE {
        "XOR n"@
    } else if op == 0xEF {
        "RST 28H"@
    } else if op == 0xF0 {
        "LDH A, (n)"@
    } else if op == 0xF1 {
        "POP AF"@
    } else if op == 0xF2 {
        "LD A, (C)"@
    } else if op == 0xF3 {
        "DI"@
    } else if op == 0xF4 {
        "INVALID"@
    } else if op == 0xF5 {
        "PUSH AF"@
    } else if op == 0xF6 {
        "OR n"@
    } else if op == 0xF7 {
        "RST 30H"@
    } else if op == 0xF8 {
        "LD HL, SP+n"@
    } else if op == 0xF9 {
        "LD SP, HL"@
    } else if op == 0xFA {
        "LD A, (nn)"@
    } else if op == 0xFB {
        "EI"@
    } else if op == 0xFC {
        "INVALID"@
    } else if op == 0xFD {
        "INVALID"@
    } else if op == 0xFE {
        "CP n"@
    } else {
        "RST 38H"@
    }
}

/// Mnemonic of each primary opcode, as the descriptor carries it.
pub open spec fn primary_name(op: u8) -> Seq<char> {
    if op < 0x40 {
        primary_name_q0(op)
    } else if op < 0x80 {
        primary_name_q1(op)
    } else if op < 0xC0 {
        primary_name_q2(op)
    } else {
        primary_name_q3(op)
    }
}

/// Mnemonics of extended opcodes 0x00-0x3F.
pub open spec fn ext_name_q0(op: u8) -> Seq<char> {
    if op == 0x00 {
        "RLC B"@
    } else if op == 0x01 {
        "RLC C"@
    } else if op == 0x02 {
        "RLC D"@
    } else if op == 0x03 {
        "RLC E"@
    } else if op == 0x04 {
        "RLC H"@
    } else if op == 0x05 {
        "RLC L"@
    } else if op == 0x06 {
        "RLC (HL)"@
    } else if op == 0x07 {
        "RLC A"@
    } else if op == 0x08 {
        "RRC B"@
    } else if op == 0x09 {
        "RRC C"@
    } else if op == 0x0A {
        "RRC D"@
    } else if op == 0x0B {
        "RRC E"@
    } else if op == 0x0C {
        "RRC H"@
    } else if op == 0x0D {
        "RRC L"@
    } else if op == 0x0E {
        "RRC (HL)"@
    } else if op == 0x0F {
        "RRC A"@
    } else if op == 0x10 {
        "RL B"@
    } else if op == 0x11 {
        "RL C"@
    } else if op == 0x12 {
        "RL D"@
    } else if op == 0x13 {
        "RL E"@
    } else if op == 0x14 {
        "RL H"@
    } else if op == 0x15 {
        "RL L"@
    } else if op == 0x16 {
        "RL (HL)"@
    } else if op == 0x17 {
        "RL A"@
    } else if op == 0x18 {
        "RR B"@
    } else if op == 0x19 {
        "RR C"@
    } else if op == 0x1A {
        "RR D"@
    } else if op == 0x1B {
        "RR E"@
    } else if op == 0x1C {
        "RR H"@
    } else if op == 0x1D {
        "RR L"@
    } else if op == 0x1E {
        "RR (HL)"@
    } else if op == 0x1F {
        "RR A"@
    } else if op == 0x20 {
        "SLA B"@
    } else if op == 0x21 {
        "SLA C"@
    } else if op == 0x22 {
        "SLA D"@
    } else if op == 0x23 {
        "SLA E"@
    } else if op == 0x24 {
        "SLA H"@
    } else if op == 0x25 {
        "SLA L"@
    } else if op == 0x26 {
        "SLA (HL)"@
    } else if op == 0x27 {
        "SLA A"@
    } else if op == 0x28 {
        "SRA B"@
    } else if op == 0x29 {
        "SRA C"@
    } else if op == 0x2A {
        "SRA D"@
    } else if op == 0x2B {
        "SRA E"@
    } else if op == 0x2C {
        "SRA H"@
    } else if op == 0x2D {
        "SRA L"@
    } else if op == 0x2E {
        "SRA (HL)"@
    } else if op == 0x2F {
        "SRA A"@
    } else if op == 0x30 {
        "SWAP B"@
    } else if op == 0x31 {
        "SWAP C"@
    } else if op == 0x32 {
        "SWAP D"@
    } else if op == 0x33 {
        "SWAP E"@
    } else if op == 0x34 {
        "SWAP H"@
    } else if op == 0x35 {
        "SWAP L"@
    } else if op == 0x36 {
        "SWAP (HL)"@
    } else if op == 0x37 {
        "SWAP A"@
    } else if op == 0x38 {
        "SRL B"@
    } else if op == 0x39 {
        "SRL C"@
    } else if op == 0x3A {
        "SRL D"@
    } else if op == 0x3B {
        "SRL E"@
    } else if op == 0x3C {
        "SRL H"@
    } else if op == 0x3D {
        "SRL L"@
    } else if op == 0x3E {
        "SRL (HL)"@
    } else {
        "SRL A"@
    }
}

/// Mnemonics of extended opcodes 0x40-0x7F.
pub open spec fn ext_name_q1(op: u8) -> Seq<char> {
    if op == 0x40 {
        "BIT 0, B"@
    } else if op == 0x41 {
        "BIT 0, C"@
    } else if op == 0x42 {
        "BIT 0, D"@
    } else if op == 0x43 {
        "BIT 0, E"@
    } else if op == 0x44 {
        "BIT 0, H"@
    } else if op == 0x45 {
        "BIT 0, L"@
    } else if op == 0x46 {
        "BIT 0, (HL)"@
    } else if op == 0x47 {
        "BIT 0, A"@
    } else if op == 0x48 {
        "BIT 1, B"@
    } else if op == 0x49 {
        "BIT 1, C"@
    } else if op == 0x4A {
        "BIT 1, D"@
    } else if op == 0x4B {
        "BIT 1, E"@
    } else if op == 0x4C {
        "BIT 1, H"@
    } else if op == 0x4D {
        "BIT 1, L"@
    } else if op == 0x4E {
        "BIT 1, (HL)"@
    } else if op == 0x4F {
        "BIT 1, A"@
    } else if op == 0x50 {
        "BIT 2, B"@
    } else if op == 0x51 {
        "BIT 2, C"@
    } else if op == 0x52 {
        "BIT 2, D"@
    } else if op == 0x53 {
        "BIT 2, E"@
    } else if op == 0x54 {
        "BIT 2, H"@
    } else if op == 0x55 {
        "BIT 2, L"@
    } else if op == 0x56 {
        "BIT 2, (HL)"@
    } else if op == 0x57 {
        "BIT 2, A"@
    } else if op == 0x58 {
        "BIT 3, B"@
    } else if op == 0x59 {
        "BIT 3, C"@
    } else if op == 0x5A {
        "BIT 3, D"@
    } else if op == 0x5B {
        "BIT 3, E"@
    } else if op == 0x5C {
        "BIT 3, H"@
    } else if op == 0x5D {
        "BIT 3, L"@
    } else if op == 0x5E {
        "BIT 3, (HL)"@
    } else if op == 0x5F {
        "BIT 3, A"@
    } else if op == 0x60 {
        "BIT 4, B"@
    } else if op == 0x61 {
        "BIT 4, C"@
    } else if op == 0x62 {
        "BIT 4, D"@
    } else if op == 0x63 {
        "BIT 4, E"@
    } else if op == 0x64 {
        "BIT 4, H"@
    } else if op == 0x65 {
        "BIT 4, L"@
    } else if op == 0x66 {
        "BIT 4, (HL)"@
    } else if op == 0x67 {
        "BIT 4, A"@
    } else if op == 0x68 {
        "BIT 5, B"@
    } else if op == 0x69 {
        "BIT 5, C"@
    } else if op == 0x6A {
        "BIT 5, D"@
    } else if op == 0x6B {
        "BIT 5, E"@
    } else if op == 0x6C {
        "BIT 5, H"@
    } else if op == 0x6D {
        "BIT 5, L"@
    } else if op == 0x6E {
        "BIT 5, (HL)"@
    } else if op == 0x6F {
        "BIT 5, A"@
    } else if op == 0x70 {
        "BIT 6, B"@
    } else if op == 0x71 {
        "BIT 6, C"@
    } else if op == 0x72 {
        "BIT 6, D"@
    } else if op == 0x73 {
        "BIT 6, E"@
    } else if op == 0x74 {
        "BIT 6, H"@
    } else if op == 0x75 {
        "BIT 6, L"@
    } else if op == 0x76 {
        "BIT 6, (HL)"@
    } else if op == 0x77 {
        "BIT 6, A"@
    } else if op == 0x78 {
        "BIT 7, B"@
    } else if op == 0x79 {
        "BIT 7, C"@
    } else if op == 0x7A {
        "BIT 7, D"@
    } else if op == 0x7B {
        "BIT 7, E"@
    } else if op == 0x7C {
        "BIT 7, H"@
    } else if op == 0x7D {
        "BIT 7, L"@
    } else if op == 0x7E {
        "BIT 7, (HL)"@
    } else {
        "BIT 7, A"@
    }
}

/// Mnemonics of extended opcodes 0x80-0xBF.
pub open spec fn ext_name_q2(op: u8) -> Seq<char> {
    if op == 0x80 {
        "RES 0, B"@
    } else if op == 0x81 {
        "RES 0, C"@
    } else if op == 0x82 {
        "RES 0, D"@
    } else if op == 0x83 {
        "RES 0, E"@
    } else if op == 0x84 {
        "RES 0, H"@
    } else if op == 0x85 {
        "RES 0, L"@
    } else if op == 0x86 {
        "RES 0, (HL)"@
    } else if op == 0x87 {
        "RES 0, A"@
    } else if op == 0x88 {
        "RES 1, B"@
    } else if op == 0x89 {
        "RES 1, C"@
    } else if op == 0x8A {
        "RES 1, D"@
    } else if op == 0x8B {
        "RES 1, E"@
    } else if op == 0x8C {
        "RES 1, H"@
    } else if op == 0x8D {
        "RES 1, L"@
    } else if op == 0x8E {
        "RES 1, (HL)"@
    } else if op == 0x8F {
        "RES 1, A"@
    } else if op == 0x90 {
        "RES 2, B"@
    } else if op == 0x91 {
        "RES 2, C"@
    } else if op == 0x92 {
        "RES 2, D"@
    } else if op == 0x93 {
        "RES 2, E"@
    } else if op == 0x94 {
        "RES 2, H"@
    } else if op == 0x95 {
        "RES 2, L"@
    } else if op == 0x96 {
        "RES 2, (HL)"@
    } else if op == 0x97 {
        "RES 2, A"@
    } else if op == 0x98 {
        "RES 3, B"@
    } else if op == 0x99 {
        "RES 3, C"@
    } else if op == 0x9A {
        "RES 3, D"@
    } else if op == 0x9B {
        "RES 3, E"@
    } else if op == 0x9C {
        "RES 3, H"@
    } else if op == 0x9D {
        "RES 3, L"@
    } else if op == 0x9E {
        "RES 3, (HL)"@
    } else if op == 0x9F {
        "RES 3, A"@
    } else if op == 0xA0 {
        "RES 4, B"@
    } else if op == 0xA1 {
        "RES 4, C"@
    } else if op == 0xA2 {
        "RES 4, D"@
    } else if op == 0xA3 {
        "RES 4, E"@
    } else if op == 0xA4 {
        "RES 4, H"@
    } else if op == 0xA5 {
        "RES 4, L"@
    } else if op == 0xA6 {
        "RES 4, (HL)"@
    } else if op == 0xA7 {
        "RES 4, A"@
    } else if op == 0xA8 {
        "RES 5, B"@
    } else if op == 0xA9 {
        "RES 5, C"@
    } else if op == 0xAA {
        "RES 5, D"@
    } else if op == 0xAB {
        "RES 5, E"@
    } else if op == 0xAC {
        "RES 5, H"@
    } else if op == 0xAD {
        "RES 5, L"@
    } else if op == 0xAE {
        "RES 5, (HL)"@
    } else if op == 0xAF {
        "RES 5, A"@
    } else if op == 0xB0 {
        "RES 6, B"@
    } else if op == 0xB1 {
        "RES 6, C"@
    } else if op == 0xB2 {
        "RES 6, D"@
    } else if op == 0xB3 {
        "RES 6, E"@
    } else if op == 0xB4 {
        "RES 6, H"@
    } else if op == 0xB5 {
        "RES 6, L"@
    } else if op == 0xB6 {
        "RES 6, (HL)"@
    } else if op == 0xB7 {
        "RES 6, A"@
    } else if op == 0xB8 {
        "RES 7, B"@
    } else if op == 0xB9 {
        "RES 7, C"@
    } else if op == 0xBA {
        "RES 7, D"@
    } else if op == 0xBB {
        "RES 7, E"@
    } else if op == 0xBC {
        "RES 7, H"@
    } else if op == 0xBD {
        "RES 7, L"@
    } else if op == 0xBE {
        "RES 7, (HL)"@
    } else {
        "RES 7, A"@
    }
}

/// Mnemonics of extended opcodes 0xC0-0xFF.
pub open spec fn ext_name_q3(op: u8) -> Seq<char> {
    if op == 0xC0 {
        "SET 0, B"@
    } else if op == 0xC1 {
        "SET 0, C"@
    } else if op == 0xC2 {
        "SET 0, D"@
    } else if op == 0xC3 {
        "SET 0, E"@
    } else if op == 0xC4 {
        "SET 0, H"@
    } else if op == 0xC5 {
        "SET 0, L"@
    } else if op == 0xC6 {
        "SET 0, (HL)"@
    } else if op == 0xC7 {
        "SET 0, A"@
    } else if op == 0xC8 {
        "SET 1, B"@
    } else if op == 0xC9 {
        "SET 1, C"@
    } else if op == 0xCA {
        "SET 1, D"@
    } else if op == 0xCB {
        "SET 1, E"@
    } else if op == 0xCC {
        "SET 1, H"@
    } else if op == 0xCD {
        "SET 1, L"@
    } else if op == 0xCE {
        "SET 1, (HL)"@
    } else if op == 0xCF {
        "SET 1, A"@
    } else if op == 0xD0 {
        "SET 2, B"@
    } else if op == 0xD1 {
        "SET 2, C"@
    } else if op == 0xD2 {
        "SET 2, D"@
    } else if op == 0xD3 {
        "SET 2, E"@
    } else if op == 0xD4 {
        "SET 2, H"@
    } else if op == 0xD5 {
        "SET 2, L"@
    } else if op == 0xD6 {
        "SET 2, (HL)"@
    } else if op == 0xD7 {
        "SET 2, A"@
    } else if op == 0xD8 {
        "SET 3, B"@
    } else if op == 0xD9 {
        "SET 3, C"@
    } else if op == 0xDA {
        "SET 3, D"@
    } else if op == 0xDB {
        "SET 3, E"@
    } else if op == 0xDC {
        "SET 3, H"@
    } else if op == 0xDD {
        "SET 3, L"@
    } else if op == 0xDE {
        "SET 3, (HL)"@
    } else if op == 0xDF {
        "SET 3, A"@
    } else if op == 0xE0 {
        "SET 4, B"@
    } else if op == 0xE1 {
        "SET 4, C"@
    } else if op == 0xE2 {
        "SET 4, D"@
    } else if op == 0xE3 {
        "SET 4, E"@
    } else if op == 0xE4 {
        "SET 4, H"@
    } else if op == 0xE5 {
        "SET 4, L"@
    } else if op == 0xE6 {
        "SET 4, (HL)"@
    } else if op == 0xE7 {
        "SET 4, A"@
    } else if op == 0xE8 {
        "SET 5, B"@
    } else if op == 0xE9 {
        "SET 5, C"@
    } else if op == 0xEA {
        "SET 5, D"@
    } else if op == 0xEB {
        "SET 5, E"@
    } else if op == 0xEC {
        "SET 5, H"@
    } else if op == 0xED {
        "SET 5, L"@
    } else if op == 0xEE {
        "SET 5, (HL)"@
    } else if op == 0xEF {
        "SET 5, A"@
    } else if op == 0xF0 {
        "SET 6, B"@
    } else if op == 0xF1 {
        "SET 6, C"@
    } else if op == 0xF2 {
        "SET 6, D"@
    } else if op == 0xF3 {
        "SET 6, E"@
    } else if op == 0xF4 {
        "SET 6, H"@
    } else if op == 0xF5 {
        "SET 6, L"@
    } else if op == 0xF6 {
        "SET 6, (HL)"@
    } else if op == 0xF7 {
        "SET 6, A"@
    } else if op == 0xF8 {
        "SET 7, B"@
    } else if op == 0xF9 {
        "SET 7, C"@
    } else if op == 0xFA {
        "SET 7, D"@
    } else if op == 0xFB {
        "SET 7, E"@
    } else if op == 0xFC {
        "SET 7, H"@
    } else if op == 0xFD {
        "SET 7, L"@
    } else if op == 0xFE {
        "SET 7, (HL)"@
    } else {
        "SET 7, A"@
    }
}

/// Mnemonic of each extended opcode, as the descriptor carries it.
pub open spec fn ext_name(op: u8) -> Seq<char> {
    if op < 0x40 {
        ext_name_q0(op)
    } else if op < 0x80 {
        ext_name_q1(op)
    } else if op < 0xC0 {
        ext_name_q2(op)
    } else {
        ext_name_q3(op)
    }
}

/// Table completeness: the two lookups are total functions of the opcode
/// byte, so every byte 0x00-0xFF resolves to exactly one descriptor in the
/// primary table and exactly one in the extended table, and every
/// descriptor carries a sane encoding length and cycle cost. No lookup is
/// ever undefined.
pub proof fn lemma_table_complete()
    ensures
        forall|op: u8| 1 <= #[trigger] primary_len(op) <= 3,
        forall|op: u8| 4 <= #[trigger] primary_cycles(op) <= 24,
        forall|op: u8| 4 <= #[trigger] ext_cycles(op) <= 16,
{
}

/// Look up the descriptor of an extended opcode (the byte after the 0xCB
/// prefix escape). Total: every byte yields exactly one descriptor.
#[verifier::rlimit(100)]
pub fn extended(op: u8) -> (r: Opcode)
    ensures
        r.typ == ext_class(op),
        r.bytes == 2,
        r.cycles == ext_cycles(op),
        r.name@ == ext_name(op),
        4 <= r.cycles <= 16,
    {
        match op {
            0x00 => {
                return Opcode::new(OpType::RotShift, 2, 8, "RLC B");
            }
            0x01 => {
                return Opcode::new(OpType::RotShift, 2, 8, "RLC C");
            }
            0x02 => {
                return Opcode::new(OpType::RotShift, 2, 8, "RLC D");
            }
            0x03 => {
                return Opcode::new(OpType::RotShift, 2, 8, "RLC E");
            }
            0x04 => {
                return Opcode::new(OpType::RotShift, 2, 8, "RLC H");
            }
            0x05 => {
                return Opcode::new(OpType::RotShift, 2, 8, "RLC L");
            }
            0x06 => {
                return Opcode::new(OpType::RotShift, 2, 16, "RLC (HL)");
            }
            0x07 => {
                return Opcode::new(OpType::RotShift, 2, 8, "RLC A");
            }
            0x08 => {
                return Opcode::new(OpType::RotShift, 2, 8, "RRC B");
            }
            0x09 => {
                return Opcode::new(OpType::RotShift, 2, 8, "RRC C");
            }
            0x0A => {
                return Opcode::new(OpType::RotShift, 2, 8, "RRC D");
            }
            0x0B => {
                return Opcode::new(OpType::RotShift, 2, 8, "RRC E");
            }
            0x0C => {
                return Opcode::new(OpType::RotShift, 2, 8, "RRC H");
            }
            0x0D => {
                return Opcode::new(OpType::RotShift, 2, 8, "RRC L");
            }
            0x0E => {
                return Opcode::new(OpType::RotShift, 2, 16, "RRC (HL)");
            }
            0x0F => {
                return Opcode::new(OpType::RotShift, 2, 8, "RRC A");
            }
            0x10 => {
                return Opcode::new(OpType::RotShift, 2, 8, "RL B");
            }
            0x11 => {
                return Opcode::new(OpType::RotShift, 2, 8, "RL C");
            }
            0x12 => {
                return Opcode::new(OpType::RotShift, 2, 8, "RL D");
            }
            0x13 => {
                return Opcode::new(OpType::RotShift, 2, 8, "RL E");
            }
            0x14 => {
                return Opcode::new(OpType::RotShift, 2, 8, "RL H");
            }
            0x15 => {
                return Opcode::new(OpType::RotShift, 2, 8, "RL L");
            }
            0x16 => {
                return Opcode::new(OpType::RotShift, 2, 16, "RL (HL)");
            }
            0x17 => {
                return Opcode::new(OpType::RotShift, 2, 8, "RL A");
            }
            0x18 => {
                return Opcode::new(OpType::RotShift, 2, 8, "RR B");
            }
            0x19 => {
                return Opcode::new(OpType::RotShift, 2, 8, "RR C");
            }
            0x1A => {
                return Opcode::new(OpType::RotShift, 2, 8, "RR D");
            }
            0x1B => {
                return Opcode::new(OpType::RotShift, 2, 8, "RR E");
            }
            0x1C => {
                return Opcode::new(OpType::RotShift, 2, 8, "RR H");
            }
            0x1D => {
                return Opcode::new(OpType::RotShift, 2, 8, "RR L");
            }
            0x1E => {
                return Opcode::new(OpType::RotShift, 2, 16, "RR (HL)");
            }
            0x1F => {
                return Opcode::new(OpType::RotShift, 2, 8, "RR A");
            }
            0x20 => {
                return Opcode::new(OpType::RotShift, 2, 8, "SLA B");
            }
            0x21 => {
                return Opcode::new(OpType::RotShift, 2, 8, "SLA C");
            }
            0x22 => {
                return Opcode::new(OpType::RotShift, 2, 8, "SLA D");
            }
            0x23 => {
                return Opcode::new(OpType::RotShift, 2, 8, "SLA E");
            }
            0x24 => {
                return Opcode::new(OpType::RotShift, 2, 8, "SLA H");
            }
            0x25 => {
                return Opcode::new(OpType::RotShift, 2, 8, "SLA L");
            }
            0x26 => {
                return Opcode::new(OpType::RotShift, 2, 16, "SLA (HL)");
            }
            0x27 => {
                return Opcode::new(OpType::RotShift, 2, 8, "SLA A");
            }
            0x28 => {
                return Opcode::new(OpType::RotShift, 2, 8, "SRA B");
            }
            0x29 => {
                return Opcode::new(OpType::RotShift, 2, 8, "SRA C");
            }
            0x2A => {
                return Opcode::new(OpType::RotShift, 2, 8, "SRA D");
            }
            0x2B => {
                return Opcode::new(OpType::RotShift, 2, 8, "SRA E");
            }
            0x2C => {
                return Opcode::new(OpType::RotShift, 2, 8, "SRA H");
            }
            0x2D => {
                return Opcode::new(OpType::RotShift, 2, 8, "SRA L");
            }
            0x2E => {
                return Opcode::new(OpType::RotShift, 2, 16, "SRA (HL)");
            }
            0x2F => {
                return Opcode::new(OpType::RotShift, 2, 8, "SRA A");
            }
            0x30 => {
                return Opcode::new(OpType::RotShift, 2, 8, "SWAP B");
            }
            0x31 => {
                return Opcode::new(OpType::RotShift, 2, 8, "SWAP C");
            }
            0x32 => {
                return Opcode::new(OpType::RotShift, 2, 8, "SWAP D");
            }
            0x33 => {
                return Opcode::new(OpType::RotShift, 2, 8, "SWAP E");
            }
            0x34 => {
                return Opcode::new(OpType::RotShift, 2, 8, "SWAP H");
            }
            0x35 => {
                return Opcode::new(OpType::RotShift, 2, 8, "SWAP L");
            }
            0x36 => {
                return Opcode::new(OpType::RotShift, 2, 16, "SWAP (HL)");
            }
            0x37 => {
                return Opcode::new(OpType::RotShift, 2, 8, "SWAP A");
            }
            0x38 => {
                return Opcode::new(OpType::RotShift, 2, 8, "SRL B");
            }
            0x39 => {
                return Opcode::new(OpType::RotShift, 2, 8, "SRL C");
            }
            0x3A => {
                return Opcode::new(OpType::RotShift, 2, 8, "SRL D");
            }
            0x3B => {
                return Opcode::new(OpType::RotShift, 2, 8, "SRL E");
            }
            0x3C => {
                return Opcode::new(OpType::RotShift, 2, 8, "SRL H");
            }
            0x3D => {
                return Opcode::new(OpType::RotShift, 2, 8, "SRL L");
            }
            0x3E => {
                return Opcode::new(OpType::RotShift, 2, 16, "SRL (HL)");
            }
            0x3F => {
                return Opcode::new(OpType::RotShift, 2, 8, "SRL A");
            }
            0x40 => {
                return Opcode::new(OpType::BitOp, 2, 8, "BIT 0, B");
            }
            0x41 => {
                return Opcode::new(OpType::BitOp, 2, 8, "BIT 0, C");
            }
            0x42 => {
                return Opcode::new(OpType::BitOp, 2, 8, "BIT 0, D");
            }
            0x43 => {
                return Opcode::new(OpType::BitOp, 2, 8, "BIT 0, E");
            }
            0x44 => {
                return Opcode::new(OpType::BitOp, 2, 8, "BIT 0, H");
            }
            0x45 => {
                return Opcode::new(OpType::BitOp, 2, 8, "BIT 0, L");
            }
            0x46 => {
                return Opcode::new(OpType::BitOp, 2, 12, "BIT 0, (HL)");
            }
            0x47 => {
                return Opcode::new(OpType::BitOp, 2, 8, "BIT 0, A");
            }
            0x48 => {
                return Opcode::new(OpType::BitOp, 2, 8, "BIT 1, B");
            }
            0x49 => {
                return Opcode::new(OpType::BitOp, 2, 8, "BIT 1, C");
            }
            0x4A => {
                return Opcode::new(OpType::BitOp, 2, 8, "BIT 1, D");
            }
            0x4B => {
                return Opcode::new(OpType::BitOp, 2, 8, "BIT 1, E");
            }
            0x4C => {
                return Opcode::new(OpType::BitOp, 2, 8, "BIT 1, H");
            }
            0x4D => {
                return Opcode::new(OpType::BitOp, 2, 8, "BIT 1, L");
            }
            0x4E => {
                return Opcode::new(OpType::BitOp, 2, 12, "BIT 1, (HL)");
            }
            0x4F => {
                return Opcode::new(OpType::BitOp, 2, 8, "BIT 1, A");
            }
            0x50 => {
                return Opcode::new(OpType::BitOp, 2, 8, "BIT 2, B");
            }
            0x51 => {
                return Opcode::new(OpType::BitOp, 2, 8, "BIT 2, C");
            }
            0x52 => {
                return Opcode::new(OpType::BitOp, 2, 8, "BIT 2, D");
            }
            0x53 => {
                return Opcode::new(OpType::BitOp, 2, 8, "BIT 2, E");
            }
            0x54 => {
                return Opcode::new(OpType::BitOp, 2, 8, "BIT 2, H");
            }
            0x55 => {
                return Opcode::new(OpType::BitOp, 2, 8, "BIT 2, L");
            }
            0x56 => {
                return Opcode::new(OpType::BitOp, 2, 12, "BIT 2, (HL)");
            }
            0x57 => {
                return Opcode::new(OpType::BitOp, 2, 8, "BIT 2, A");
            }
            0x58 => {
                return Opcode::new(OpType::BitOp, 2, 8, "BIT 3, B");
            }
            0x59 => {
                return Opcode::new(OpType::BitOp, 2, 8, "BIT 3, C");
            }
            0x5A => {
                return Opcode::new(OpType::BitOp, 2, 8, "BIT 3, D");
            }
            0x5B => {
                return Opcode::new(OpType::BitOp, 2, 8, "BIT 3, E");
            }
            0x5C => {
                return Opcode::new(OpType::BitOp, 2, 8, "BIT 3, H");
            }
            0x5D => {
                return Opcode::new(OpType::BitOp, 2, 8, "BIT 3, L");
            }
            0x5E => {
                return Opcode::new(OpType::BitOp, 2, 12, "BIT 3, (HL)");
            }
            0x5F => {
                return Opcode::new(OpType::BitOp, 2, 8, "BIT 3, A");
            }
            0x60 => {
                return Opcode::new(OpType::BitOp, 2, 8, "BIT 4, B");
            }
            0x61 => {
                return Opcode::new(OpType::BitOp, 2, 8, "BIT 4, C");
            }
            0x62 => {
                return Opcode::new(OpType::BitOp, 2, 8, "BIT 4, D");
            }
            0x63 => {
                return Opcode::new(OpType::BitOp, 2, 8, "BIT 4, E");
            }
            0x64 => {
                return Opcode::new(OpType::BitOp, 2, 8, "BIT 4, H");
            }
            0x65 => {
                return Opcode::new(OpType::BitOp, 2, 8, "BIT 4, L");
            }
            0x66 => {
                return Opcode::new(OpType::BitOp, 2, 12, "BIT 4, (HL)");
            }
            0x67 => {
                return Opcode::new(OpType::BitOp, 2, 8, "BIT 4, A");
            }
            0x68 => {
                return Opcode::new(OpType::BitOp, 2, 8, "BIT 5, B");
            }
            0x69 => {
                return Opcode::new(OpType::BitOp, 2, 8, "BIT 5, C");
            }
            0x6A => {
                return Opcode::new(OpType::BitOp, 2, 8, "BIT 5, D");
            }
            0x6B => {
                return Opcode::new(OpType::BitOp, 2, 8, "BIT 5, E");
            }
            0x6C => {
                return Opcode::new(OpType::BitOp, 2, 8, "BIT 5, H");
            }
            0x6D => {
                return Opcode::new(OpType::BitOp, 2, 8, "BIT 5, L");
            }
            0x6E => {
                return Opcode::new(OpType::BitOp, 2, 12, "BIT 5, (HL)");
            }
            0x6F => {
                return Opcode::new(OpType::BitOp, 2, 8, "BIT 5, A");
            }
            0x70 => {
                return Opcode::new(OpType::BitOp, 2, 8, "BIT 6, B");
            }
            0x71 => {
                return Opcode::new(OpType::BitOp, 2, 8, "BIT 6, C");
            }
            0x72 => {
                return Opcode::new(OpType::BitOp, 2, 8, "BIT 6, D");
            }
            0x73 => {
                return Opcode::new(OpType::BitOp, 2, 8, "BIT 6, E");
            }
            0x74 => {
                return Opcode::new(OpType::BitOp, 2, 8, "BIT 6, H");
            }
            0x75 => {
                return Opcode::new(OpType::BitOp, 2, 8, "BIT 6, L");
            }
            0x76 => {
                return Opcode::new(OpType::BitOp, 2, 12, "BIT 6, (HL)");
            }
            0x77 => {
                return Opcode::new(OpType::BitOp, 2, 8, "BIT 6, A");
            }
            0x78 => {
                return Opcode::new(OpType::BitOp, 2, 8, "BIT 7, B");
            }
            0x79 => {
                return Opcode::new(OpType::BitOp, 2, 8, "BIT 7, C");
            }
            0x7A => {
                return Opcode::new(OpType::BitOp, 2, 8, "BIT 7, D");
            }
            0x7B => {
                return Opcode::new(OpType::BitOp, 2, 8, "BIT 7, E");
            }
            0x7C => {
                return Opcode::new(OpType::BitOp, 2, 8, "BIT 7, H");
            }
            0x7D => {
                return Opcode::new(OpType::BitOp, 2, 8, "BIT 7, L");
            }
            0x7E => {
                return Opcode::new(OpType::BitOp, 2, 12, "BIT 7, (HL)");
            }
            0x7F => {
                return Opcode::new(OpType::BitOp, 2, 8, "BIT 7, A");
            }
            0x80 => {
                return Opcode::new(OpType::BitOp, 2, 8, "RES 0, B");
            }
            0x81 => {
                return Opcode::new(OpType::BitOp, 2, 8, "RES 0, C");
            }
            0x82 => {
                return Opcode::new(OpType::BitOp, 2, 8, "RES 0, D");
            }
            0x83 => {
                return Opcode::new(OpType::BitOp, 2, 8, "RES 0, E");
            }
            0x84 => {
                return Opcode::new(OpType::BitOp, 2, 8, "RES 0, H");
            }
            0x85 => {
                return Opcode::new(OpType::BitOp, 2, 8, "RES 0, L");
            }
            0x86 => {
                return Opcode::new(OpType::BitOp, 2, 16, "RES 0, (HL)");
            }
            0x87 => {
                return Opcode::new(OpType::BitOp, 2, 8, "RES 0, A");
            }
            0x88 => {
                return Opcode::new(OpType::BitOp, 2, 8, "RES 1, B");
            }
            0x89 => {
                return Opcode::new(OpType::BitOp, 2, 8, "RES 1, C");
            }
            0x8A => {
                return Opcode::new(OpType::BitOp, 2, 8, "RES 1, D");
            }
            0x8B => {
                return Opcode::new(OpType::BitOp, 2, 8, "RES 1, E");
            }
            0x8C => {
                return Opcode::new(OpType::BitOp, 2, 8, "RES 1, H");
            }
            0x8D => {
                return Opcode::new(OpType::BitOp, 2, 8, "RES 1, L");
            }
            0x8E => {
                return Opcode::new(OpType::BitOp, 2, 16, "RES 1, (HL)");
            }
            0x8F => {
                return Opcode::new(OpType::BitOp, 2, 8, "RES 1, A");
            }
            0x90 => {
                return Opcode::new(OpType::BitOp, 2, 8, "RES 2, B");
            }
            0x91 => {
                return Opcode::new(OpType::BitOp, 2, 8, "RES 2, C");
            }
            0x92 => {
                return Opcode::new(OpType::BitOp, 2, 8, "RES 2, D");
            }
            0x93 => {
                return Opcode::new(OpType::BitOp, 2, 8, "RES 2, E");
            }
            0x94 => {
                return Opcode::new(OpType::BitOp, 2, 8, "RES 2, H");
            }
            0x95 => {
                return Opcode::new(OpType::BitOp, 2, 8, "RES 2, L");
            }
            0x96 => {
                return Opcode::new(OpType::BitOp, 2, 16, "RES 2, (HL)");
            }
            0x97 => {
                return Opcode::new(OpType::BitOp, 2, 8, "RES 2, A");
            }
            0x98 => {
                return Opcode::new(OpType::BitOp, 2, 8, "RES 3, B");
            }
            0x99 => {
                return Opcode::new(OpType::BitOp, 2, 8, "RES 3, C");
            }
            0x9A => {
                return Opcode::new(OpType::BitOp, 2, 8, "RES 3, D");
            }
            0x9B => {
                return Opcode::new(OpType::BitOp, 2, 8, "RES 3, E");
            }
            0x9C => {
                return Opcode::new(OpType::BitOp, 2, 8, "RES 3, H");
            }
            0x9D => {
                return Opcode::new(OpType::BitOp, 2, 8, "RES 3, L");
            }
            0x9E => {
                return Opcode::new(OpType::BitOp, 2, 16, "RES 3, (HL)");
            }
            0x9F => {
                return Opcode::new(OpType::BitOp, 2, 8, "RES 3, A");
            }
            0xA0 => {
                return Opcode::new(OpType::BitOp, 2, 8, "RES 4, B");
            }
            0xA1 => {
                return Opcode::new(OpType::BitOp, 2, 8, "RES 4, C");
            }
            0xA2 => {
                return Opcode::new(OpType::BitOp, 2, 8, "RES 4, D");
            }
            0xA3 => {
                return Opcode::new(OpType::BitOp, 2, 8, "RES 4, E");
            }
            0xA4 => {
                return Opcode::new(OpType::BitOp, 2, 8, "RES 4, H");
            }
            0xA5 => {
                return Opcode::new(OpType::BitOp, 2, 8, "RES 4, L");
            }
            0xA6 => {
                return Opcode::new(OpType::BitOp, 2, 16, "RES 4, (HL)");
            }
            0xA7 => {
                return Opcode::new(OpType::BitOp, 2, 8, "RES 4, A");
            }
            0xA8 => {
                return Opcode::new(OpType::BitOp, 2, 8, "RES 5, B");
            }
            0xA9 => {
                return Opcode::new(OpType::BitOp, 2, 8, "RES 5, C");
            }
            0xAA => {
                return Opcode::new(OpType::BitOp, 2, 8, "RES 5, D");
            }
            0xAB => {
                return Opcode::new(OpType::BitOp, 2, 8, "RES 5, E");
            }
            0xAC => {
                return Opcode::new(OpType::BitOp, 2, 8, "RES 5, H");
            }
            0xAD => {
                return Opcode::new(OpType::BitOp, 2, 8, "RES 5, L");
            }
            0xAE => {
                return Opcode::new(OpType::BitOp, 2, 16, "RES 5, (HL)");
            }
            0xAF => {
                return Opcode::new(OpType::BitOp, 2, 8, "RES 5, A");
            }
            0xB0 => {
                return Opcode::new(OpType::BitOp, 2, 8, "RES 6, B");
            }
            0xB1 => {
                return Opcode::new(OpType::BitOp, 2, 8, "RES 6, C");
            }
            0xB2 => {
                return Opcode::new(OpType::BitOp, 2, 8, "RES 6, D");
            }
            0xB3 => {
                return Opcode::new(OpType::BitOp, 2, 8, "RES 6, E");
            }
            0xB4 => {
                return Opcode::new(OpType::BitOp, 2, 8, "RES 6, H");
            }
            0xB5 => {
                return Opcode::new(OpType::BitOp, 2, 8, "RES 6, L");
            }
            0xB6 => {
                return Opcode::new(OpType::BitOp, 2, 16, "RES 6, (HL)");
            }
            0xB7 => {
                return Opcode::new(OpType::BitOp, 2, 8, "RES 6, A");
            }
            0xB8 => {
                return Opcode::new(OpType::BitOp, 2, 8, "RES 7, B");
            }
            0xB9 => {
                return Opcode::new(OpType::BitOp, 2, 8, "RES 7, C");
            }
            0xBA => {
                return Opcode::new(OpType::BitOp, 2, 8, "RES 7, D");
            }
            0xBB => {
                return Opcode::new(OpType::BitOp, 2, 8, "RES 7, E");
            }
            0xBC => {
                return Opcode::new(OpType::BitOp, 2, 8, "RES 7, H");
            }
            0xBD => {
                return Opcode::new(OpType::BitOp, 2, 8, "RES 7, L");
            }
            0xBE => {
                return Opcode::new(OpType::BitOp, 2, 16, "RES 7, (HL)");
            }
            0xBF => {
                return Opcode::new(OpType::BitOp, 2, 8, "RES 7, A");
            }
            0xC0 => {
                return Opcode::new(OpType::BitOp, 2, 8, "SET 0, B");
            }
            0xC1 => {
                return Opcode::new(OpType::BitOp, 2, 8, "SET 0, C");
            }
            0xC2 => {
                return Opcode::new(OpType::BitOp, 2, 8, "SET 0, D");
            }
            0xC3 => {
                return Opcode::new(OpType::BitOp, 2, 8, "SET 0, E");
            }
            0xC4 => {
                return Opcode::new(OpType::BitOp, 2, 8, "SET 0, H");
            }
            0xC5 => {
                return Opcode::new(OpType::BitOp, 2, 8, "SET 0, L");
            }
            0xC6 => {
                return Opcode::new(OpType::BitOp, 2, 16, "SET 0, (HL)");
            }
            0xC7 => {
                return Opcode::new(OpType::BitOp, 2, 8, "SET 0, A");
            }
            0xC8 => {
                return Opcode::new(OpType::BitOp, 2, 8, "SET 1, B");
            }
            0xC9 => {
                return Opcode::new(OpType::BitOp, 2, 8, "SET 1, C");
            }
            0xCA => {
                return Opcode::new(OpType::BitOp, 2, 8, "SET 1, D");
            }
            0xCB => {
                return Opcode::new(OpType::BitOp, 2, 8, "SET 1, E");
            }
            0xCC => {
                return Opcode::new(OpType::BitOp, 2, 8, "SET 1, H");
            }
            0xCD => {
                return Opcode::new(OpType::BitOp, 2, 8, "SET 1, L");
            }
            0xCE => {
                return Opcode::new(OpType::BitOp, 2, 16, "SET 1, (HL)");
            }
            0xCF => {
                return Opcode::new(OpType::BitOp, 2, 8, "SET 1, A");
            }
            0xD0 => {
                return Opcode::new(OpType::BitOp, 2, 8, "SET 2, B");
            }
            0xD1 => {
                return Opcode::new(OpType::BitOp, 2, 8, "SET 2, C");
            }
            0xD2 => {
                return Opcode::new(OpType::BitOp, 2, 8, "SET 2, D");
            }
            0xD3 => {
                return Opcode::new(OpType::BitOp, 2, 8, "SET 2, E");
            }
            0xD4 => {
                return Opcode::new(OpType::BitOp, 2, 8, "SET 2, H");
            }
            0xD5 => {
                return Opcode::new(OpType::BitOp, 2, 8, "SET 2, L");
            }
            0xD6 => {
                return Opcode::new(OpType::BitOp, 2, 16, "SET 2, (HL)");
            }
            0xD7 => {
                return Opcode::new(OpType::BitOp, 2, 8, "SET 2, A");
            }
            0xD8 => {
                return Opcode::new(OpType::BitOp, 2, 8, "SET 3, B");
            }
            0xD9 => {
                return Opcode::new(OpType::BitOp, 2, 8, "SET 3, C");
            }
            0xDA => {
                return Opcode::new(OpType::BitOp, 2, 8, "SET 3, D");
            }
            0xDB => {
                return Opcode::new(OpType::BitOp, 2, 8, "SET 3, E");
            }
            0xDC => {
                return Opcode::new(OpType::BitOp, 2, 8, "SET 3, H");
            }
            0xDD => {
                return Opcode::new(OpType::BitOp, 2, 8, "SET 3, L");
            }
            0xDE => {
                return Opcode::new(OpType::BitOp, 2, 16, "SET 3, (HL)");
            }
            0xDF => {
                return Opcode::new(OpType::BitOp, 2, 8, "SET 3, A");
            }
            0xE0 => {
                return Opcode::new(OpType::BitOp, 2, 8, "SET 4, B");
            }
            0xE1 => {
                return Opcode::new(OpType::BitOp, 2, 8, "SET 4, C");
            }
            0xE2 => {
                return Opcode::new(OpType::BitOp, 2, 8, "SET 4, D");
            }
            0xE3 => {
                return Opcode::new(OpType::BitOp, 2, 8, "SET 4, E");
            }
            0xE4 => {
                return Opcode::new(OpType::BitOp, 2, 8, "SET 4, H");
            }
            0xE5 => {
                return Opcode::new(OpType::BitOp, 2, 8, "SET 4, L");
            }
            0xE6 => {
                return Opcode::new(OpType::BitOp, 2, 16, "SET 4, (HL)");
            }
            0xE7 => {
                return Opcode::new(OpType::BitOp, 2, 8, "SET 4, A");
            }
            0xE8 => {
                return Opcode::new(OpType::BitOp, 2, 8, "SET 5, B");
            }
            0xE9 => {
                return Opcode::new(OpType::BitOp, 2, 8, "SET 5, C");
            }
            0xEA => {
                return Opcode::new(OpType::BitOp, 2, 8, "SET 5, D");
            }
            0xEB => {
                return Opcode::new(OpType::BitOp, 2, 8, "SET 5, E");
            }
            0xEC => {
                return Opcode::new(OpType::BitOp, 2, 8, "SET 5, H");
            }
            0xED => {
                return Opcode::new(OpType::BitOp, 2, 8, "SET 5, L");
            }
            0xEE => {
                return Opcode::new(OpType::BitOp, 2, 16, "SET 5, (HL)");
            }
            0xEF => {
                return Opcode::new(OpType::BitOp, 2, 8, "SET 5, A");
            }
            0xF0 => {
                return Opcode::new(OpType::BitOp, 2, 8, "SET 6, B");
            }
            0xF1 => {
                return Opcode::new(OpType::BitOp, 2, 8, "SET 6, C");
            }
            0xF2 => {
                return Opcode::new(OpType::BitOp, 2, 8, "SET 6, D");
            }
            0xF3 => {
                return Opcode::new(OpType::BitOp, 2, 8, "SET 6, E");
            }
            0xF4 => {
                return Opcode::new(OpType::BitOp, 2, 8, "SET 6, H");
            }
            0xF5 => {
                return Opcode::new(OpType::BitOp, 2, 8, "SET 6, L");
            }
            0xF6 => {
                return Opcode::new(OpType::BitOp, 2, 16, "SET 6, (HL)");
            }
            0xF7 => {
                return Opcode::new(OpType::BitOp, 2, 8, "SET 6, A");
            }
            0xF8 => {
                return Opcode::new(OpType::BitOp, 2, 8, "SET 7, B");
            }
            0xF9 => {
                return Opcode::new(OpType::BitOp, 2, 8, "SET 7, C");
            }
            0xFA => {
                return Opcode::new(OpType::BitOp, 2, 8, "SET 7, D");
            }
            0xFB => {
                return Opcode::new(OpType::BitOp, 2, 8, "SET 7, E");
            }
            0xFC => {
                return Opcode::new(OpType::BitOp, 2, 8, "SET 7, H");
            }
            0xFD => {
                return Opcode::new(OpType::BitOp, 2, 8, "SET 7, L");
            }
            0xFE => {
                return Opcode::new(OpType::BitOp, 2, 16, "SET 7, (HL)");
            }
            0xFF => {
                return Opcode::new(OpType::BitOp, 2, 8, "SET 7, A");
            }
        }
    }

} // verus!
