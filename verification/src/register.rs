//! Register file: eight 8-bit registers (A, F, B, C, D, E, H, L), the 16-bit
//! stack pointer and program counter, paired 16-bit views, and flag access.
//!
//! The F register packs the four condition flags into its high nibble: Zero
//! (bit 7), Subtract (bit 6), Half-Carry (bit 5), Carry (bit 4). The low
//! nibble of F is always zero; `wf` states that invariant and every operation
//! here preserves it.

use vstd::prelude::*;

verus! {

/// Mask of the Zero flag (bit 7 of F).
pub const ZERO_FLAG: u8 = 0x80;

/// Mask of the Subtract flag (bit 6 of F).
pub const SUBTRACT_FLAG: u8 = 0x40;

/// Mask of the Half-Carry flag (bit 5 of F).
pub const HALF_CARRY_FLAG: u8 = 0x20;

/// Mask of the Carry flag (bit 4 of F).
pub const CARRY_FLAG: u8 = 0x10;

/// Bit 7 of a flags byte: the Zero flag.
pub open spec fn flag_z(f: u8) -> bool {
    (f / 0x80) % 2 == 1
}

/// Bit 6 of a flags byte: the Subtract flag.
pub open spec fn flag_n(f: u8) -> bool {
    (f / 0x40) % 2 == 1
}

/// Bit 5 of a flags byte: the Half-Carry flag.
pub open spec fn flag_h(f: u8) -> bool {
    (f / 0x20) % 2 == 1
}

/// Bit 4 of a flags byte: the Carry flag.
pub open spec fn flag_c(f: u8) -> bool {
    (f / 0x10) % 2 == 1
}

/// The flags byte with the four condition bits as given and the low nibble
/// `low` (meaningful for `low < 16`).
pub open spec fn with_flags(z: bool, n: bool, h: bool, c: bool, low: u8) -> u8 {
    ((if z { 0x80int } else { 0int }) + (if n { 0x40int } else { 0int }) + (if h {
        0x20int
    } else {
        0int
    }) + (if c { 0x10int } else { 0int }) + low) as u8
}

/// The flags byte with the four condition bits as given and a clear low
/// nibble. This is the only shape of F that instruction execution produces.
pub open spec fn flags_byte(z: bool, n: bool, h: bool, c: bool) -> u8 {
    with_flags(z, n, h, c, 0)
}

/// A flags byte determines its four condition bits and its low nibble.
pub proof fn lemma_flags_byte_parts(z: bool, n: bool, h: bool, c: bool, low: u8)
    requires
        low < 16,
    ensures
        flag_z(with_flags(z, n, h, c, low)) == z,
        flag_n(with_flags(z, n, h, c, low)) == n,
        flag_h(with_flags(z, n, h, c, low)) == h,
        flag_c(with_flags(z, n, h, c, low)) == c,
        with_flags(z, n, h, c, low) % 16 == low,
{
    let v = with_flags(z, n, h, c, low);
    assert((v / 0x80) % 2 == (if z { 1u8 } else { 0u8 }) && (v / 0x40) % 2 == (if n {
        1u8
    } else {
        0u8
    }) && (v / 0x20) % 2 == (if h { 1u8 } else { 0u8 }) && (v / 0x10) % 2 == (if c {
        1u8
    } else {
        0u8
    }) && v % 16 == low) by (bit_vector)
        requires
            low < 16,
            v == ((if z { 0x80u8 } else { 0u8 }) + (if n { 0x40u8 } else { 0u8 }) + (if h {
                0x20u8
            } else {
                0u8
            }) + (if c { 0x10u8 } else { 0u8 }) + low) as u8,
    ;
}

/// The 16-bit value formed by a high and a low byte.
pub open spec fn pair(hi: u8, lo: u8) -> u16 {
    (hi * 256 + lo) as u16
}

/// The 16-bit value a `u16` splits into when written to a register pair.
pub open spec fn split_hi(v: u16) -> u8 {
    (v / 256) as u8
}

/// The low byte of a 16-bit value written to a register pair.
pub open spec fn split_lo(v: u16) -> u8 {
    (v % 256) as u8
}

/// The register file.
#[derive(Clone, Copy, PartialEq, Eq, Structural, Debug)]
pub struct Registers {
    pub a: u8,
    pub f: u8,
    pub b: u8,
    pub c: u8,
    pub d: u8,
    pub e: u8,
    pub h: u8,
    pub l: u8,
    pub sp: u16,
    pub pc: u16,
}

/// The documented post-boot register values: the state the engine assumes
/// when no boot ROM is emulated.
pub open spec fn reset_registers() -> Registers {
    Registers {
        a: 0x01,
        f: 0xB0,
        b: 0x00,
        c: 0x13,
        d: 0x00,
        e: 0xD8,
        h: 0x01,
        l: 0x4D,
        sp: 0xFFFE,
        pc: 0x0100,
    }
}

impl Registers {
    /// The register file invariant: the low nibble of F is zero.
    pub open spec fn wf(self) -> bool {
        self.f % 16 == 0
    }

    /// The BC pair as a value.
    pub open spec fn bc_pair(self) -> u16 {
        pair(self.b, self.c)
    }

    /// The DE pair as a value.
    pub open spec fn de_pair(self) -> u16 {
        pair(self.d, self.e)
    }

    /// The HL pair as a value.
    pub open spec fn hl_pair(self) -> u16 {
        pair(self.h, self.l)
    }

    /// The AF pair as a value.
    pub open spec fn af_pair(self) -> u16 {
        pair(self.a, self.f)
    }

    /// This register file with the BC pair replaced.
    pub open spec fn with_bc(self, v: u16) -> Registers {
        Registers { b: split_hi(v), c: split_lo(v), ..self }
    }

    /// This register file with the DE pair replaced.
    pub open spec fn with_de(self, v: u16) -> Registers {
        Registers { d: split_hi(v), e: split_lo(v), ..self }
    }

    /// This register file with the HL pair replaced.
    pub open spec fn with_hl(self, v: u16) -> Registers {
        Registers { h: split_hi(v), l: split_lo(v), ..self }
    }

    /// The documented post-boot state: the initial register values the
    /// engine assumes when no boot ROM is emulated.
    pub fn new() -> (r: Registers)
        ensures
            r.a == 0x01,
            r.f == 0xB0,
            r.b == 0x00,
            r.c == 0x13,
            r.d == 0x00,
            r.e == 0xD8,
            r.h == 0x01,
            r.l == 0x4D,
            r.sp == 0xFFFE,
            r.pc == 0x0100,
            r == reset_registers(),
            r.wf(),
    {
        let f: u8 = ZERO_FLAG | HALF_CARRY_FLAG | CARRY_FLAG;
        proof {
            assert(0x80u8 | 0x20u8 | 0x10u8 == 0xB0u8) by (bit_vector);
        }
        Registers {
            a: 0x01,
            f,
            b: 0x00,
            c: 0x13,
            d: 0x00,
            e: 0xD8,
            h: 0x01,
            l: 0x4D,
            sp: 0xFFFE,
            pc: 0x0100,
        }
    }

    /// The AF pair: A in the high byte, F in the low byte.
    pub fn af(&self) -> (r: u16)
        ensures
            r == pair(self.a, self.f),
    {
        (self.a as u16) * 256 + (self.f as u16)
    }

    /// The BC pair.
    pub fn bc(&self) -> (r: u16)
        ensures
            r == pair(self.b, self.c),
    {
        (self.b as u16) * 256 + (self.c as u16)
    }

    /// The DE pair.
    pub fn de(&self) -> (r: u16)
        ensures
            r == pair(self.d, self.e),
    {
        (self.d as u16) * 256 + (self.e as u16)
    }

    /// The HL pair.
    pub fn hl(&self) -> (r: u16)
        ensures
            r == pair(self.h, self.l),
    {
        (self.h as u16) * 256 + (self.l as u16)
    }

    /// Write the AF pair. The low nibble of the resulting F is forced to
    /// zero, keeping the invariant whatever `v` holds.
    pub fn set_af(&mut self, v: u16)
        ensures
            final(self).a == v / 256,
            final(self).f == ((v % 256) / 16) * 16,
            final(self).f % 16 == 0,
            *final(self) == (Registers { a: final(self).a, f: final(self).f, ..*old(self) }),
    {
        self.a = (v / 256) as u8;
        let lo: u16 = v % 256;
        let f: u8 = ((lo / 16) * 16) as u8;
        proof {
            assert((((v % 256) / 16) * 16) % 16 == 0) by (bit_vector);
        }
        self.f = f;
    }

    /// Write the BC pair: high byte to B, low byte to C.
    pub fn set_bc(&mut self, v: u16)
        ensures
            final(self).b == v / 256,
            final(self).c == v % 256,
            *final(self) == (Registers { b: final(self).b, c: final(self).c, ..*old(self) }),
    {
        self.b = (v / 256) as u8;
        self.c = (v % 256) as u8;
    }

    /// Write the DE pair.
    pub fn set_de(&mut self, v: u16)
        ensures
            final(self).d == v / 256,
            final(self).e == v % 256,
            *final(self) == (Registers { d: final(self).d, e: final(self).e, ..*old(self) }),
    {
        self.d = (v / 256) as u8;
        self.e = (v % 256) as u8;
    }

    /// Write the HL pair.
    pub fn set_hl(&mut self, v: u16)
        ensures
            final(self).h == v / 256,
            final(self).l == v % 256,
            *final(self) == (Registers { h: final(self).h, l: final(self).l, ..*old(self) }),
    {
        self.h = (v / 256) as u8;
        self.l = (v % 256) as u8;
    }

    /// Test one of the four condition flags, named by its mask.
    pub fn flag(&self, mask: u8) -> (r: bool)
        requires
            mask == ZERO_FLAG || mask == SUBTRACT_FLAG || mask == HALF_CARRY_FLAG || mask
                == CARRY_FLAG,
        ensures
            mask == ZERO_FLAG ==> r == flag_z(self.f),
            mask == SUBTRACT_FLAG ==> r == flag_n(self.f),
            mask == HALF_CARRY_FLAG ==> r == flag_h(self.f),
            mask == CARRY_FLAG ==> r == flag_c(self.f),
    {
        (self.f / mask) % 2 == 1
    }

    /// Set or clear one condition flag, named by its mask, leaving the other
    /// three flags and the low nibble of F untouched.
    pub fn set_flag(&mut self, mask: u8, is_set: bool)
        requires
            mask == ZERO_FLAG || mask == SUBTRACT_FLAG || mask == HALF_CARRY_FLAG || mask
                == CARRY_FLAG,
        ensures
            final(self).f == with_flags(
                if mask == ZERO_FLAG {
                    is_set
                } else {
                    flag_z(old(self).f)
                },
                if mask == SUBTRACT_FLAG {
                    is_set
                } else {
                    flag_n(old(self).f)
                },
                if mask == HALF_CARRY_FLAG {
                    is_set
                } else {
                    flag_h(old(self).f)
                },
                if mask == CARRY_FLAG {
                    is_set
                } else {
                    flag_c(old(self).f)
                },
                old(self).f % 16,
            ),
            *final(self) == (Registers { f: final(self).f, ..*old(self) }),
    {
        let z: bool = if mask == ZERO_FLAG {
            is_set
        } else {
            (self.f / 0x80) % 2 == 1
        };
        let n: bool = if mask == SUBTRACT_FLAG {
            is_set
        } else {
            (self.f / 0x40) % 2 == 1
        };
        let h: bool = if mask == HALF_CARRY_FLAG {
            is_set
        } else {
            (self.f / 0x20) % 2 == 1
        };
        let c: bool = if mask == CARRY_FLAG {
            is_set
        } else {
            (self.f / 0x10) % 2 == 1
        };
        let low: u8 = self.f % 16;
        self.f = (if z { 0x80u8 } else { 0u8 }) + (if n { 0x40u8 } else { 0u8 }) + (if h {
            0x20u8
        } else {
            0u8
        }) + (if c { 0x10u8 } else { 0u8 }) + low;
    }

    /// Write the four condition flags at once, clearing the low nibble of F.
    pub fn set_flags(&mut self, z: bool, n: bool, h: bool, c: bool)
        ensures
            final(self).f == flags_byte(z, n, h, c),
            final(self).wf(),
            *final(self) == (Registers { f: final(self).f, ..*old(self) }),
    {
        self.f = (if z { 0x80u8 } else { 0u8 }) + (if n { 0x40u8 } else { 0u8 }) + (if h {
            0x20u8
        } else {
            0u8
        }) + (if c { 0x10u8 } else { 0u8 });
        proof {
            lemma_flags_byte_parts(z, n, h, c, 0);
        }
    }
}

} // verus!
