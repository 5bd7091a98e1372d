//! Arithmetic and logic primitives shared by the instruction semantics:
//! 8-bit add/subtract with carry, bitwise operations, increments, 16-bit
//! addition, rotates, shifts, bit test/set/reset, BCD adjustment, and the
//! signed-offset address arithmetic used by relative jumps and the two
//! SP-relative instructions.
//!
//! Every function is total and wraps modularly; flag results follow the
//! LR35902 rules: Zero is set when the result byte is zero, Half-Carry is a
//! carry or borrow out of bit 3 (bit 11 for the 16-bit add), Carry out of
//! bit 7 (bit 15).

use vstd::prelude::*;

verus! {

/// The four condition flags produced by an operation.
#[derive(Clone, Copy, PartialEq, Eq, Structural, Debug)]
pub struct Flags {
    pub z: bool,
    pub n: bool,
    pub h: bool,
    pub c: bool,
}

/// Carry-in as a number.
pub open spec fn carry_in(cin: bool) -> int {
    if cin {
        1
    } else {
        0
    }
}

/// 8-bit addition with optional incoming carry (ADD and ADC).
pub fn add8(a: u8, b: u8, cin: bool) -> (r: (u8, Flags))
    ensures
        r.0 == (a + b + carry_in(cin)) % 256,
        r.1.z == (r.0 == 0),
        r.1.n == false,
        r.1.h == (a % 16 + b % 16 + carry_in(cin) > 15),
        r.1.c == (a + b + carry_in(cin) > 255),
{
    let ci: u16 = if cin { 1 } else { 0 };
    let sum: u16 = a as u16 + b as u16 + ci;
    let res: u8 = (sum % 256) as u8;
    let h = (a % 16) as u16 + (b % 16) as u16 + ci > 15;
    (res, Flags { z: res == 0, n: false, h, c: sum > 255 })
}

/// 8-bit subtraction with optional incoming borrow (SUB, SBC, CP, DEC). The
/// result is `a - b - carry` modulo 256; Carry reports a borrow out of bit
/// 7, Half-Carry a borrow out of bit 3.
pub fn sub8(a: u8, b: u8, cin: bool) -> (r: (u8, Flags))
    ensures
        r.0 == (a - b - carry_in(cin) + 256) % 256,
        r.1.z == (r.0 == 0),
        r.1.n == true,
        r.1.h == (a % 16 < b % 16 + carry_in(cin)),
        r.1.c == (a < b + carry_in(cin)),
{
    let ci: u16 = if cin { 1 } else { 0 };
    let diff: u16 = 256 + a as u16 - b as u16 - ci;
    let res: u8 = (diff % 256) as u8;
    let h = ((a % 16) as u16) < (b % 16) as u16 + ci;
    (res, Flags { z: res == 0, n: true, h, c: (a as u16) < b as u16 + ci })
}

/// Bitwise AND (the AND instruction): Half-Carry forced set, Carry cleared.
pub fn and8(a: u8, b: u8) -> (r: (u8, Flags))
    ensures
        r.0 == a & b,
        r.1 == (Flags { z: r.0 == 0, n: false, h: true, c: false }),
{
    let res = a & b;
    (res, Flags { z: res == 0, n: false, h: true, c: false })
}

/// Bitwise OR (the OR instruction): Half-Carry and Carry cleared.
pub fn or8(a: u8, b: u8) -> (r: (u8, Flags))
    ensures
        r.0 == a | b,
        r.1 == (Flags { z: r.0 == 0, n: false, h: false, c: false }),
{
    let res = a | b;
    (res, Flags { z: res == 0, n: false, h: false, c: false })
}

/// Bitwise exclusive OR (the XOR instruction): Half-Carry and Carry cleared.
pub fn xor8(a: u8, b: u8) -> (r: (u8, Flags))
    ensures
        r.0 == a ^ b,
        r.1 == (Flags { z: r.0 == 0, n: false, h: false, c: false }),
{
    let res = a ^ b;
    (res, Flags { z: res == 0, n: false, h: false, c: false })
}

/// 8-bit increment: never touches Carry, which is passed through.
pub fn inc8(v: u8, c: bool) -> (r: (u8, Flags))
    ensures
        r.0 == (v + 1) % 256,
        r.1 == (Flags { z: r.0 == 0, n: false, h: v % 16 == 15, c }),
{
    let res: u8 = if v == 255 {
        0
    } else {
        v + 1
    };
    (res, Flags { z: res == 0, n: false, h: v % 16 == 15, c })
}

/// 8-bit decrement: never touches Carry, which is passed through.
pub fn dec8(v: u8, c: bool) -> (r: (u8, Flags))
    ensures
        r.0 == (v - 1 + 256) % 256,
        r.1 == (Flags { z: r.0 == 0, n: true, h: v % 16 == 0, c }),
{
    let res: u8 = if v == 0 {
        255
    } else {
        v - 1
    };
    (res, Flags { z: res == 0, n: true, h: v % 16 == 0, c })
}

/// 16-bit addition (ADD HL,rr): Half-Carry out of bit 11, Carry out of bit
/// 15, Zero and Subtract untouched by the caller.
pub fn add16(x: u16, y: u16) -> (r: (u16, bool, bool))
    ensures
        r.0 == (x + y) % 0x10000,
        r.1 == (x % 0x1000 + y % 0x1000 > 0xFFF),
        r.2 == (x + y > 0xFFFF),
{
    let sum: u32 = x as u32 + y as u32;
    let res: u16 = (sum % 0x10000) as u16;
    let h = (x % 0x1000) as u32 + (y % 0x1000) as u32 > 0xFFF;
    (res, h, sum > 0xFFFF)
}

/// Rotate left circular: bit 7 moves to bit 0 and into Carry.
pub fn rlc8(v: u8) -> (r: (u8, bool))
    ensures
        r.0 == (v * 2) % 256 + v / 128,
        r.1 == (v >= 128),
{
    let doubled: u16 = v as u16 * 2;
    (((doubled % 256) as u8) + v / 128, v >= 128)
}

/// Rotate right circular: bit 0 moves to bit 7 and into Carry.
pub fn rrc8(v: u8) -> (r: (u8, bool))
    ensures
        r.0 == v / 2 + (v % 2) * 128,
        r.1 == (v % 2 == 1),
{
    (v / 2 + (v % 2) * 128, v % 2 == 1)
}

/// Rotate left through Carry: the old Carry enters bit 0, bit 7 leaves into
/// Carry.
pub fn rl8(v: u8, cin: bool) -> (r: (u8, bool))
    ensures
        r.0 == (v * 2) % 256 + carry_in(cin),
        r.1 == (v >= 128),
{
    let doubled: u16 = v as u16 * 2;
    (((doubled % 256) as u8) + (if cin { 1 } else { 0 }), v >= 128)
}

/// Rotate right through Carry: the old Carry enters bit 7, bit 0 leaves
/// into Carry.
pub fn rr8(v: u8, cin: bool) -> (r: (u8, bool))
    ensures
        r.0 == v / 2 + carry_in(cin) * 128,
        r.1 == (v % 2 == 1),
{
    (v / 2 + (if cin { 128 } else { 0 }), v % 2 == 1)
}

/// Arithmetic shift left: bit 7 leaves into Carry, bit 0 becomes 0.
pub fn sla8(v: u8) -> (r: (u8, bool))
    ensures
        r.0 == (v * 2) % 256,
        r.1 == (v >= 128),
{
    let doubled: u16 = v as u16 * 2;
    ((doubled % 256) as u8, v >= 128)
}

/// Arithmetic shift right: bit 7 is kept, bit 0 leaves into Carry.
pub fn sra8(v: u8) -> (r: (u8, bool))
    ensures
        r.0 == v / 2 + (v / 128) * 128,
        r.1 == (v % 2 == 1),
{
    (v / 2 + (v / 128) * 128, v % 2 == 1)
}

/// Logical shift right: bit 7 becomes 0, bit 0 leaves into Carry.
pub fn srl8(v: u8) -> (r: (u8, bool))
    ensures
        r.0 == v / 2,
        r.1 == (v % 2 == 1),
{
    (v / 2, v % 2 == 1)
}

/// Swap the two nibbles.
pub fn swap8(v: u8) -> (r: u8)
    ensures
        r == (v % 16) * 16 + v / 16,
{
    (v % 16) * 16 + v / 16
}

/// The power of two for a bit index 0-7.
pub open spec fn pow2_8(i: u8) -> u8 {
    if i == 0 {
        1
    } else if i == 1 {
        2
    } else if i == 2 {
        4
    } else if i == 3 {
        8
    } else if i == 4 {
        16
    } else if i == 5 {
        32
    } else if i == 6 {
        64
    } else {
        128
    }
}

/// Bit `i` of `v`, as the BIT instruction tests it.
pub open spec fn bit_of(v: u8, i: u8) -> bool {
    (v / pow2_8(i)) % 2 == 1
}

/// Power-of-two table for the bit operations.
pub fn pow2_exec(i: u8) -> (r: u8)
    requires
        i < 8,
    ensures
        r == pow2_8(i),
{
    if i == 0 {
        1
    } else if i == 1 {
        2
    } else if i == 2 {
        4
    } else if i == 3 {
        8
    } else if i == 4 {
        16
    } else if i == 5 {
        32
    } else if i == 6 {
        64
    } else {
        128
    }
}

/// Test bit `i` of `v` (the BIT instruction's data computation).
pub fn bit_test(v: u8, i: u8) -> (r: bool)
    requires
        i < 8,
    ensures
        r == bit_of(v, i),
{
    let p = pow2_exec(i);
    (v / p) % 2 == 1
}

/// `v` with bit `i` set.
pub open spec fn bit_set_val(v: u8, i: u8) -> u8 {
    if bit_of(v, i) {
        v
    } else {
        (v + pow2_8(i)) as u8
    }
}

/// `v` with bit `i` cleared.
pub open spec fn bit_res_val(v: u8, i: u8) -> u8 {
    if bit_of(v, i) {
        (v - pow2_8(i)) as u8
    } else {
        v
    }
}

/// Set bit `i` of `v` (the SET instruction).
pub fn bit_set(v: u8, i: u8) -> (r: u8)
    requires
        i < 8,
    ensures
        r == bit_set_val(v, i),
        bit_of(r, i),
        forall|j: u8| j < 8 && j != i ==> bit_of(r, j) == bit_of(v, j),
{
    let p = pow2_exec(i);
    let r = if (v / p) % 2 == 1 {
        v
    } else {
        v + p
    };
    proof {
        lemma_bit_update(v, i, r);
    }
    r
}

/// Clear bit `i` of `v` (the RES instruction).
pub fn bit_res(v: u8, i: u8) -> (r: u8)
    requires
        i < 8,
    ensures
        r == bit_res_val(v, i),
        !bit_of(r, i),
        forall|j: u8| j < 8 && j != i ==> bit_of(r, j) == bit_of(v, j),
{
    let p = pow2_exec(i);
    let r = if (v / p) % 2 == 1 {
        v - p
    } else {
        v
    };
    proof {
        lemma_bit_update(v, i, r);
    }
    r
}

/// Adding or removing the power of two at bit `i` flips that bit and leaves
/// every other bit alone.
proof fn lemma_bit_update(v: u8, i: u8, r: u8)
    requires
        i < 8,
        r == (if bit_of(v, i) {
            v as int
        } else {
            v + pow2_8(i)
        }) || r == (if bit_of(v, i) {
            v - pow2_8(i)
        } else {
            v as int
        }),
    ensures
        r == v || r == v + pow2_8(i) || r == v - pow2_8(i),
        r == v + pow2_8(i) ==> bit_of(r, i) && !bit_of(v, i),
        r == v - pow2_8(i) ==> !bit_of(r, i) && bit_of(v, i),
        forall|j: u8| j < 8 && j != i ==> bit_of(r, j) == bit_of(v, j),
    decreases 0int,
{
    assert forall|j: u8| j < 8 && j != i implies bit_of(r, j) == bit_of(v, j) by {
        lemma_bit_flip(v, i, j, r);
    }
    if !bit_of(v, i) && r == v + pow2_8(i) {
        lemma_bit_add(v, i);
    }
    if bit_of(v, i) && r == v - pow2_8(i) {
        lemma_bit_sub(v, i);
    }
}

/// Adding the power of two at a clear bit `i` sets that bit.
proof fn lemma_bit_add(v: u8, i: u8)
    requires
        i < 8,
        !bit_of(v, i),
    ensures
        v + pow2_8(i) <= 255,
        bit_of((v + pow2_8(i)) as u8, i),
{
    let p = pow2_8(i);
    assert(i < 8 && (v / p) % 2 != 1 ==> v + p <= 255 && (((v + p) as u8) / p) % 2 == 1)
        by (bit_vector)
        requires
            p == pow2_8(i),
            i < 8,
    ;
}

/// Removing the power of two at a set bit `i` clears that bit.
proof fn lemma_bit_sub(v: u8, i: u8)
    requires
        i < 8,
        bit_of(v, i),
    ensures
        v >= pow2_8(i),
        !bit_of((v - pow2_8(i)) as u8, i),
{
    let p = pow2_8(i);
    assert(i < 8 && (v / p) % 2 == 1 ==> v >= p && (((v - p) as u8) / p) % 2 != 1)
        by (bit_vector)
        requires
            p == pow2_8(i),
            i < 8,
    ;
}

/// Changing only the power of two at bit `i` leaves bit `j` alone.
proof fn lemma_bit_flip(v: u8, i: u8, j: u8, r: u8)
    requires
        i < 8,
        j < 8,
        j != i,
        r == v || (!bit_of(v, i) && r == v + pow2_8(i)) || (bit_of(v, i) && r == v - pow2_8(i)),
    ensures
        bit_of(r, j) == bit_of(v, j),
{
    let p = pow2_8(i);
    let q = pow2_8(j);
    assert((i < 8 && j < 8 && j != i && (((v / p) % 2 != 1 && r == v + p) || ((v / p) % 2 == 1 && r
        == v - p) || r == v)) ==> (r / q) % 2 == (v / q) % 2) by (bit_vector)
        requires
            p == pow2_8(i),
            q == pow2_8(j),
            i < 8,
            j < 8,
    ;
}

/// What the DAA adjustment adds to or subtracts from A.
pub open spec fn daa_adjust(a: u8, n: bool, h: bool, c: bool) -> int {
    (if h || (!n && a % 16 > 9) {
        0x06int
    } else {
        0int
    }) + (if c || (!n && a > 0x99) {
        0x60int
    } else {
        0int
    })
}

/// The Carry flag after DAA.
pub open spec fn daa_carry(a: u8, n: bool, c: bool) -> bool {
    c || (!n && a > 0x99)
}

/// The A register after DAA: the adjustment is added after an addition and
/// subtracted after a subtraction, modulo 256.
pub open spec fn daa_result(a: u8, n: bool, h: bool, c: bool) -> u8 {
    if n {
        ((a - daa_adjust(a, n, h, c) + 256) % 256) as u8
    } else {
        ((a + daa_adjust(a, n, h, c)) % 256) as u8
    }
}

/// BCD adjustment of A after an addition or subtraction (the DAA
/// instruction), driven by the Subtract, Half-Carry and Carry flags.
pub fn daa(a: u8, n: bool, h: bool, c: bool) -> (r: (u8, Flags))
    ensures
        r.0 == daa_result(a, n, h, c),
        r.1 == (Flags { z: r.0 == 0, n, h: false, c: daa_carry(a, n, c) }),
{
    let mut adjust: u16 = 0;
    if h || (!n && a % 16 > 9) {
        adjust = 0x06;
    }
    let carry_out = c || (!n && a > 0x99);
    if carry_out {
        adjust = adjust + 0x60;
    }
    let res: u8 = if n {
        (((256 + a as u16) - adjust) % 256) as u8
    } else {
        ((a as u16 + adjust) % 256) as u8
    };
    (res, Flags { z: res == 0, n, h: false, c: carry_out })
}

/// A byte read as a two's-complement offset.
pub open spec fn signed8(v: u8) -> int {
    if v < 128 {
        v as int
    } else {
        v - 256
    }
}

/// `base + signed8(offset)` wrapped into the 16-bit address space: the
/// target arithmetic of JR, ADD SP,n and LD HL,SP+n.
pub open spec fn offset16(base: u16, offset: u8) -> u16 {
    (((base + signed8(offset)) % 0x10000 + 0x10000) % 0x10000) as u16
}

/// Add a signed byte offset to a 16-bit value, wrapping (JR targets and the
/// SP-relative value).
pub fn add_signed(base: u16, offset: u8) -> (r: u16)
    ensures
        r == offset16(base, offset),
{
    let wide: u32 = base as u32 + 0x10000 + offset as u32 - (if offset >= 128 {
        256
    } else {
        0
    });
    let r: u16 = (wide % 0x10000) as u16;
    proof {
        let s = base + signed8(offset);
        assert(wide == s + 0x10000);
        assert(wide % 0x10000 == ((s % 0x10000 + 0x10000) % 0x10000)) by (nonlinear_arith)
            requires
                wide == s + 0x10000,
                -0x10000 <= s < 0x20000,
        ;
    }
    r
}

} // verus!
