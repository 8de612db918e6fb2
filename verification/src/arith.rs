//! Two's-complement conversions and the few 32-bit operations that the
//! executor needs beyond the wrapping operators: multiply-high in its three
//! signedness mixes and division/remainder truncating toward zero.
use vstd::prelude::*;

verus! {

use vstd::arithmetic::div_mod::{
    lemma_fundamental_div_mod,
    lemma_fundamental_div_mod_converse,
    lemma_div_is_ordered,
    lemma_div_pos_is_pos,
    lemma_mod_division_less_than_divisor,
};
use vstd::arithmetic::mul::lemma_mul_inequality;


/// The unsigned reading of a two's-complement 32-bit value.
pub open spec fn u32_of_i32(x: i32) -> u32 {
    if x >= 0 {
        x as u32
    } else {
        (x + 0x1_0000_0000) as u32
    }
}

/// The two's-complement reading of an unsigned 32-bit value.
pub open spec fn i32_of_u32(x: u32) -> i32 {
    if x < 0x8000_0000 {
        x as i32
    } else {
        (x - 0x1_0000_0000) as i32
    }
}

pub fn to_u32(x: i32) -> (r: u32)
    ensures
        r == u32_of_i32(x),
{
    if x >= 0 {
        x as u32
    } else {
        ((x as i64) + 0x1_0000_0000) as u32
    }
}

pub fn to_i32(x: u32) -> (r: i32)
    ensures
        r == i32_of_u32(x),
{
    if x < 0x8000_0000 {
        x as i32
    } else {
        ((x as i64) - 0x1_0000_0000) as i32
    }
}

pub open spec fn abs_int(a: int) -> int {
    if a < 0 {
        -a
    } else {
        a
    }
}

/// The magnitude of a 32-bit signed value; it fits a u64 even for the
/// smallest value.
pub open spec fn mag_of_i32(x: i32) -> u64 {
    abs_int(x as int) as u64
}

pub fn to_mag(x: i32) -> (r: u64)
    ensures
        r == mag_of_i32(x),
        r <= 0x8000_0000,
{
    if x >= 0 {
        x as u64
    } else {
        (-(x as i64)) as u64
    }
}

/// Truncating (toward zero) signed division: the RISC-V DIV rule for a
/// nonzero divisor away from the overflow pair.
pub open spec fn div_trunc(a: int, b: int) -> int
    recommends
        b != 0,
{
    let q = abs_int(a) / abs_int(b);
    if (a < 0) == (b < 0) {
        q
    } else {
        -q
    }
}

/// The remainder matching `div_trunc`: it carries the dividend's sign.
pub open spec fn rem_trunc(a: int, b: int) -> int
    recommends
        b != 0,
{
    let r = abs_int(a) % abs_int(b);
    if a < 0 {
        -r
    } else {
        r
    }
}

/// Signed division truncating toward zero; the two inputs that Rust's `/`
/// refuses (zero divisor, most-negative overflow) are left to the caller.
pub fn div_i32(a: i32, b: i32) -> (r: i32)
    requires
        b != 0,
        !(a == i32::MIN && b == -1),
    ensures
        r == div_trunc(a as int, b as int),
{
    let amag: u64 = to_mag(a);
    let bmag: u64 = to_mag(b);
    let q: u64 = amag / bmag;
    proof {
        lemma_fundamental_div_mod(amag as int, bmag as int);
        lemma_div_pos_is_pos(amag as int, bmag as int);
        lemma_div_is_ordered(amag as int, 0x8000_0000, bmag as int);
    }
    if (a < 0) == (b < 0) {
        assert(q < 0x8000_0000) by {
            if q >= 0x8000_0000 {
                // Only the excluded overflow pair could reach 2^31 here.
                lemma_mul_inequality(1, bmag as int, q as int);
                assert(amag == 0x8000_0000 && q == 0x8000_0000);
                lemma_mul_inequality(2, bmag as int, q as int);
            }
        };
        q as i32
    } else {
        (-(q as i64)) as i32
    }
}

/// Signed remainder with the dividend's sign; same excluded inputs as
/// `div_i32`.
pub fn rem_i32(a: i32, b: i32) -> (r: i32)
    requires
        b != 0,
        !(a == i32::MIN && b == -1),
    ensures
        r == rem_trunc(a as int, b as int),
{
    let amag: u64 = to_mag(a);
    let bmag: u64 = to_mag(b);
    let m: u64 = amag % bmag;
    proof {
        lemma_mod_division_less_than_divisor(amag as int, bmag as int);
    }
    if a < 0 {
        (-(m as i64)) as i32
    } else {
        m as i32
    }
}

/// The upper 32 bits of the unsigned 64-bit product.
pub open spec fn mulhu_spec(a: u32, b: u32) -> u32 {
    ((a * b) / 0x1_0000_0000) as u32
}

pub fn mulhu_u32(a: u32, b: u32) -> (r: u32)
    ensures
        r == mulhu_spec(a, b),
{
    proof {
        lemma_mul_bound_u64(a as u64, 0xffff_ffff, b as u64, 0xffff_ffff);
        lemma_div_is_ordered(a as int * b as int, (0xffff_ffffint) * 0xffff_ffff, 0x1_0000_0000);
    }
    let p: u64 = (a as u64) * (b as u64);
    (p / 0x1_0000_0000) as u32
}

/// The upper 32 bits of the signed 64-bit product: floor division of the
/// exact product.
pub open spec fn mulh_spec(a: i32, b: i32) -> i32 {
    ((a * b) / 0x1_0000_0000) as i32
}

/// The upper 32 bits of the signed-by-unsigned 64-bit product.
pub open spec fn mulhsu_spec(a: i32, b: u32) -> i32 {
    ((a * b) / 0x1_0000_0000) as i32
}

pub fn mulh_i32(a: i32, b: i32) -> (r: i32)
    ensures
        r == mulh_spec(a, b),
{
    let amag: u64 = to_mag(a);
    let bmag: u64 = to_mag(b);
    proof {
        lemma_mul_bound_u64(amag, 0x8000_0000, bmag, 0x8000_0000);
        lemma_mul_signs(a as int, b as int, amag as int, bmag as int);
    }
    let p: u64 = amag * bmag;
    if (a < 0) == (b < 0) {
        proof {
            lemma_div_pos_is_pos(p as int, 0x1_0000_0000);
            lemma_div_is_ordered(p as int, 0x4000_0000_0000_0000, 0x1_0000_0000);
        }
        (p / 0x1_0000_0000) as i32
    } else {
        neg_floor_div(p, 0x4000_0000_0000_0000)
    }
}

pub fn mulhsu_i32(a: i32, b: u32) -> (r: i32)
    ensures
        r == mulhsu_spec(a, b),
{
    let amag: u64 = to_mag(a);
    proof {
        lemma_mul_bound_u64(amag, 0x8000_0000, b as u64, 0xffff_ffff);
        lemma_mul_signs(a as int, b as int, amag as int, b as int);
    }
    let p: u64 = amag * (b as u64);
    if a >= 0 {
        proof {
            lemma_div_pos_is_pos(p as int, 0x1_0000_0000);
            lemma_div_is_ordered(
                p as int,
                (0x8000_0000int) * 0xffff_ffff,
                0x1_0000_0000,
            );
        }
        (p / 0x1_0000_0000) as i32
    } else {
        neg_floor_div(p, 0x8000_0000 * 0xffff_ffff)
    }
}

/// Floor division of `-p` by 2^32, computed from the unsigned quotient and
/// remainder of `p`.
fn neg_floor_div(p: u64, bound: u64) -> (r: i32)
    requires
        p <= bound,
        bound <= (0x8000_0000int) * 0xffff_ffff,
    ensures
        r == ((-(p as int)) / 0x1_0000_0000) as i32,
        -0x8000_0000 <= (-(p as int)) / 0x1_0000_0000 < 0x8000_0000,
{
    let q: u64 = p / 0x1_0000_0000;
    let m: u64 = p % 0x1_0000_0000;
    proof {
        lemma_fundamental_div_mod(p as int, 0x1_0000_0000);
        lemma_div_pos_is_pos(p as int, 0x1_0000_0000);
        lemma_div_is_ordered(p as int, bound as int, 0x1_0000_0000);
        lemma_div_is_ordered(bound as int, (0x8000_0000int) * 0xffff_ffff, 0x1_0000_0000);
        if m == 0 {
            lemma_fundamental_div_mod_converse(
                -(p as int),
                0x1_0000_0000,
                -(q as int),
                0,
            );
        } else {
            lemma_fundamental_div_mod_converse(
                -(p as int),
                0x1_0000_0000,
                -(q as int) - 1,
                0x1_0000_0000 - m as int,
            );
        }
    }
    if m == 0 {
        (-(q as i64)) as i32
    } else {
        (-(q as i64) - 1) as i32
    }
}

/// `x <= xb` and `y <= yb` bound the product by `xb * yb`.
proof fn lemma_mul_bound_u64(x: u64, xb: u64, y: u64, yb: u64)
    requires
        x <= xb,
        y <= yb,
    ensures
        x * y <= xb * yb,
{
    lemma_mul_inequality(x as int, xb as int, y as int);
    lemma_mul_inequality(y as int, yb as int, xb as int);
}

/// The exact product of two signed values, written through their magnitudes.
proof fn lemma_mul_signs(a: int, b: int, amag: int, bmag: int)
    requires
        amag == abs_int(a),
        bmag == abs_int(b),
    ensures
        (a < 0) == (b < 0) ==> a * b == amag * bmag,
        (a < 0) != (b < 0) ==> a * b == -(amag * bmag),
    decreases 0int,
{
    assert((a < 0) == (b < 0) ==> a * b == amag * bmag) by (nonlinear_arith)
        requires
            amag == abs_int(a),
            bmag == abs_int(b),
    ;
    assert((a < 0) != (b < 0) ==> a * b == -(amag * bmag)) by (nonlinear_arith)
        requires
            amag == abs_int(a),
            bmag == abs_int(b),
    ;
}


/// A 16-bit value from its little-endian bytes.
pub open spec fn u16_of_le(b0: u8, b1: u8) -> u16 {
    (b0 + b1 * 0x100) as u16
}

/// A 32-bit value from its little-endian bytes.
pub open spec fn u32_of_le(b0: u8, b1: u8, b2: u8, b3: u8) -> u32 {
    (b0 + b1 * 0x100 + b2 * 0x1_0000 + b3 * 0x100_0000) as u32
}

/// Little-endian byte `k` of a 32-bit value.
pub open spec fn le_byte(v: u32, k: int) -> u8
    recommends
        0 <= k < 4,
{
    ((v / pow256(k)) % 0x100) as u8
}

pub open spec fn pow256(k: int) -> u32
    recommends
        0 <= k < 4,
{
    if k == 0 {
        1
    } else if k == 1 {
        0x100
    } else if k == 2 {
        0x1_0000
    } else {
        0x100_0000
    }
}

pub fn le16(b0: u8, b1: u8) -> (r: u16)
    ensures
        r == u16_of_le(b0, b1),
{
    b0 as u16 + b1 as u16 * 0x100
}

pub fn le32(b0: u8, b1: u8, b2: u8, b3: u8) -> (r: u32)
    ensures
        r == u32_of_le(b0, b1, b2, b3),
{
    b0 as u32 + b1 as u32 * 0x100 + b2 as u32 * 0x1_0000 + b3 as u32 * 0x100_0000
}

pub fn byte_of(v: u32, k: usize) -> (r: u8)
    requires
        k < 4,
    ensures
        r == le_byte(v, k as int),
{
    if k == 0 {
        (v % 0x100) as u8
    } else if k == 1 {
        ((v / 0x100) % 0x100) as u8
    } else if k == 2 {
        ((v / 0x1_0000) % 0x100) as u8
    } else {
        ((v / 0x100_0000) % 0x100) as u8
    }
}

/// A 32-bit value equals the little-endian composition of its four bytes,
/// and each byte of the composition is the byte put in.
pub proof fn lemma_le32_roundtrip(v: u32)
    ensures
        u32_of_le(le_byte(v, 0), le_byte(v, 1), le_byte(v, 2), le_byte(v, 3)) == v,
{
    let b0 = le_byte(v, 0);
    let b1 = le_byte(v, 1);
    let b2 = le_byte(v, 2);
    let b3 = le_byte(v, 3);
    assert(b0 == v % 0x100 && b1 == (v / 0x100) % 0x100 && b2 == (v / 0x1_0000) % 0x100 && b3 == (v
        / 0x100_0000) % 0x100);
    assert(v % 0x100 + ((v / 0x100) % 0x100) * 0x100 + ((v / 0x1_0000) % 0x100) * 0x1_0000 + ((v
        / 0x100_0000) % 0x100) * 0x100_0000 == v) by (nonlinear_arith);
}

/// The bytes of a composed 32-bit value are the bytes composed.
pub proof fn lemma_le32_bytes(b0: u8, b1: u8, b2: u8, b3: u8)
    ensures
        le_byte(u32_of_le(b0, b1, b2, b3), 0) == b0,
        le_byte(u32_of_le(b0, b1, b2, b3), 1) == b1,
        le_byte(u32_of_le(b0, b1, b2, b3), 2) == b2,
        le_byte(u32_of_le(b0, b1, b2, b3), 3) == b3,
{
    let v = u32_of_le(b0, b1, b2, b3);
    assert(v % 0x100 == b0 && (v / 0x100) % 0x100 == b1 && (v / 0x1_0000) % 0x100 == b2 && (v
        / 0x100_0000) % 0x100 == b3) by (nonlinear_arith)
        requires
            v == b0 + b1 * 0x100 + b2 * 0x1_0000 + b3 * 0x100_0000,
    ;
}

/// A 16-bit value equals the composition of its two bytes and back.
pub proof fn lemma_le16_roundtrip(v: u16)
    ensures
        u16_of_le((v % 0x100) as u8, (v / 0x100) as u8) == v,
{
    assert(v % 0x100 + (v / 0x100) * 0x100 == v) by (nonlinear_arith);
}

pub proof fn lemma_le16_bytes(b0: u8, b1: u8)
    ensures
        u16_of_le(b0, b1) % 0x100 == b0,
        u16_of_le(b0, b1) / 0x100 == b1,
{
    assert((b0 + b1 * 0x100) % 0x100 == b0 && (b0 + b1 * 0x100) / 0x100 == b1) by (nonlinear_arith);
}


/// 32-bit wrapping addition.
pub open spec fn wadd32(a: u32, b: u32) -> u32 {
    ((a + b) % 0x1_0000_0000) as u32
}

pub fn w_add32(a: u32, b: u32) -> (r: u32)
    ensures
        r == wadd32(a, b),
{
    let t: u64 = a as u64 + b as u64;
    if t >= 0x1_0000_0000 {
        (t - 0x1_0000_0000) as u32
    } else {
        t as u32
    }
}

/// 32-bit wrapping addition of a signed offset.
pub open spec fn wadd32_signed(a: u32, b: i32) -> u32 {
    (((a + b) % 0x1_0000_0000 + 0x1_0000_0000) % 0x1_0000_0000) as u32
}

pub fn w_add32_signed(a: u32, b: i32) -> (r: u32)
    ensures
        r == wadd32_signed(a, b),
{
    let t: i64 = a as i64 + b as i64;
    if t < 0 {
        proof {
            lemma_wrap_small(a + b);
        }
        (t + 0x1_0000_0000) as u32
    } else if t >= 0x1_0000_0000 {
        proof {
            lemma_wrap_small(a + b);
        }
        (t - 0x1_0000_0000) as u32
    } else {
        proof {
            lemma_wrap_small(a + b);
        }
        t as u32
    }
}

/// For values one wrap away from range, the double modulus is a single
/// correction.
proof fn lemma_wrap_small(t: int)
    requires
        -0x1_0000_0000 < t < 0x2_0000_0000,
    ensures
        0 <= t < 0x1_0000_0000 ==> (t % 0x1_0000_0000 + 0x1_0000_0000) % 0x1_0000_0000 == t,
        t < 0 ==> (t % 0x1_0000_0000 + 0x1_0000_0000) % 0x1_0000_0000 == t + 0x1_0000_0000,
        t >= 0x1_0000_0000 ==> (t % 0x1_0000_0000 + 0x1_0000_0000) % 0x1_0000_0000 == t
            - 0x1_0000_0000,
{
    if 0 <= t < 0x1_0000_0000 {
        lemma_fundamental_div_mod_converse(t, 0x1_0000_0000, 0, t);
        lemma_fundamental_div_mod_converse(
            t + 0x1_0000_0000,
            0x1_0000_0000,
            1,
            t,
        );
    } else if t < 0 {
        lemma_fundamental_div_mod_converse(t, 0x1_0000_0000, -1, t + 0x1_0000_0000);
        lemma_fundamental_div_mod_converse(
            t + 0x2_0000_0000,
            0x1_0000_0000,
            1,
            t + 0x1_0000_0000,
        );
    } else {
        lemma_fundamental_div_mod_converse(t, 0x1_0000_0000, 1, t - 0x1_0000_0000);
        lemma_fundamental_div_mod_converse(
            t - 0x1_0000_0000 + 0x1_0000_0000,
            0x1_0000_0000,
            1,
            t - 0x1_0000_0000,
        );
    }
}

/// 64-bit wrapping increment.
pub open spec fn winc64(a: u64) -> u64 {
    if a == u64::MAX {
        0
    } else {
        (a + 1) as u64
    }
}

pub fn w_inc64(a: u64) -> (r: u64)
    ensures
        r == winc64(a),
{
    if a == u64::MAX {
        0
    } else {
        a + 1
    }
}

} // verus!


