//! Arithmetic on IEEE-754 binary64 bit patterns.
//!
//! The PLC core carries floating-point signal values as their 64-bit
//! encodings and never performs native floating-point arithmetic. The
//! comparisons and conversions the function blocks need are computed here
//! directly on the bit patterns, in verified integer code.
//!
//! An encoding splits into a sign bit and a 63-bit magnitude (biased exponent
//! and fraction). For every pair of non-NaN encodings, the numeric order of
//! the denoted values coincides with the sign-magnitude order of the
//! encodings, with the two zero encodings denoting the same number; that
//! order is captured by `order_key` below.

use vstd::arithmetic::power2::{lemma2_to64, lemma_pow2_adds, lemma_pow2_pos, pow2};
use vstd::prelude::*;

verus! {

/// The sign bit of an encoding.
pub open spec fn sign_of(bits: u64) -> bool {
    bits >= 0x8000_0000_0000_0000
}

/// The biased exponent and fraction of an encoding, as one 63-bit magnitude.
pub open spec fn magnitude_of(bits: u64) -> u64 {
    (bits % 0x8000_0000_0000_0000) as u64
}

/// Whether the encoding denotes NaN: exponent all ones, fraction non-zero.
pub open spec fn is_nan(bits: u64) -> bool {
    magnitude_of(bits) > 0x7FF0_0000_0000_0000
}

/// A key that orders non-NaN encodings as the values they denote:
/// negative encodings in reverse magnitude order, and both zero encodings
/// (`+0.0` and `-0.0`) mapped to the same key.
pub open spec fn order_key(bits: u64) -> int {
    if sign_of(bits) {
        -(magnitude_of(bits) as int)
    } else {
        magnitude_of(bits) as int
    }
}

/// Whether `a` denotes a value strictly below the value of `b`.
/// False whenever either operand is NaN.
pub open spec fn spec_lt(a: u64, b: u64) -> bool {
    !is_nan(a) && !is_nan(b) && order_key(a) < order_key(b)
}

/// Whether `a` and `b` denote the same value (so `+0.0` equals `-0.0`).
/// False whenever either operand is NaN.
pub open spec fn spec_eq(a: u64, b: u64) -> bool {
    !is_nan(a) && !is_nan(b) && order_key(a) == order_key(b)
}

/// Compares two encodings as the values they denote.
pub fn lt_bits(a: u64, b: u64) -> (r: bool)
    ensures
        r == spec_lt(a, b),
{
    let ma: u64 = a % 0x8000_0000_0000_0000;
    let mb: u64 = b % 0x8000_0000_0000_0000;
    if ma > 0x7FF0_0000_0000_0000 || mb > 0x7FF0_0000_0000_0000 {
        false
    } else {
        let sa = a >= 0x8000_0000_0000_0000;
        let sb = b >= 0x8000_0000_0000_0000;
        if sa && sb {
            mb < ma
        } else if !sa && !sb {
            ma < mb
        } else if sa {
            // a negative, b non-negative: below unless both are zeros
            ma != 0 || mb != 0
        } else {
            false
        }
    }
}

/// Tests two encodings for equality of the values they denote.
pub fn eq_bits(a: u64, b: u64) -> (r: bool)
    ensures
        r == spec_eq(a, b),
{
    let ma: u64 = a % 0x8000_0000_0000_0000;
    let mb: u64 = b % 0x8000_0000_0000_0000;
    if ma > 0x7FF0_0000_0000_0000 || mb > 0x7FF0_0000_0000_0000 {
        false
    } else {
        let sa = a >= 0x8000_0000_0000_0000;
        let sb = b >= 0x8000_0000_0000_0000;
        if sa == sb {
            ma == mb
        } else {
            ma == 0 && mb == 0
        }
    }
}

/// The value denoted by the encoding, truncated toward zero and clamped to
/// the range of `i32`; `0` for NaN. This is the conversion Rust's saturating
/// float-to-int cast performs.
pub open spec fn spec_trunc_i32(bits: u64) -> i32 {
    let m = magnitude_of(bits);
    let e = m / 0x10_0000_0000_0000;
    let f = m % 0x10_0000_0000_0000;
    if is_nan(bits) {
        0
    } else if e < 1023 {
        // the magnitude is below one
        0
    } else if e - 1023 >= 31 {
        if sign_of(bits) {
            i32::MIN
        } else {
            i32::MAX
        }
    } else {
        // the magnitude is (2^52 + f) / 2^(52 - (e - 1023)), which the
        // integer division truncates; it is below 2^31
        let t = ((0x10_0000_0000_0000 + f) as nat / pow2((52 - (e - 1023)) as nat)) as int;
        if sign_of(bits) {
            (-t) as i32
        } else {
            t as i32
        }
    }
}

/// Computes `2^e` for `e` below 64.
fn pow2_u64(e: u64) -> (r: u64)
    requires
        e < 64,
    ensures
        r == pow2(e as nat),
{
    let mut r: u64 = 1;
    let mut i: u64 = 0;
    proof {
        lemma2_to64();
    }
    while i < e
        invariant
            i <= e < 64,
            r == pow2(i as nat),
        decreases e - i,
    {
        proof {
            lemma_pow2_adds(i as nat, 1);
            lemma2_to64();
            assert(pow2((i + 1) as nat) == pow2(i as nat) * 2);
            assert(pow2(63) == 0x8000_0000_0000_0000) by {
                lemma_pow2_63_value();
            }
            lemma_pow2_nondecreasing(i as nat + 1, 63);
        }
        r = r * 2;
        i = i + 1;
    }
    r
}

proof fn lemma_pow2_63_value()
    ensures
        pow2(63) == 0x8000000000000000,
{
    vstd::arithmetic::power2::lemma2_to64_rest();
}

proof fn lemma_pow2_nondecreasing(e1: nat, e2: nat)
    requires
        e1 <= e2,
    ensures
        pow2(e1) <= pow2(e2),
{
    if e1 < e2 {
        vstd::arithmetic::power2::lemma_pow2_strictly_increases(e1, e2);
    }
}

/// Truncates the value denoted by the encoding toward zero, clamped to the
/// range of `i32`; `0` for NaN.
pub fn trunc_i32_bits(bits: u64) -> (r: i32)
    ensures
        r == spec_trunc_i32(bits),
{
    let m: u64 = bits % 0x8000_0000_0000_0000;
    let e: u64 = m / 0x10_0000_0000_0000;
    let f: u64 = m % 0x10_0000_0000_0000;
    let s = bits >= 0x8000_0000_0000_0000;
    if m > 0x7FF0_0000_0000_0000 {
        0
    } else if e < 1023 {
        0
    } else if e - 1023 >= 31 {
        if s {
            i32::MIN
        } else {
            i32::MAX
        }
    } else {
        let sh: u64 = 52 - (e - 1023);
        let d: u64 = pow2_u64(sh);
        let c: u64 = 0x10_0000_0000_0000 + f;
        proof {
            lemma_pow2_pos(sh as nat);
            lemma2_to64();
            vstd::arithmetic::power2::lemma2_to64_rest();
            lemma_trunc_quotient_bound(c as nat, sh as nat, (e - 1023) as nat);
        }
        let t: u64 = c / d;
        assert(t < 0x8000_0000);
        if s {
            -(t as i32)
        } else {
            t as i32
        }
    }
}

/// The position of the most significant set bit of `m` (zero for `m <= 1`).
pub open spec fn msb(m: nat) -> nat
    decreases m,
{
    if m <= 1 {
        0
    } else {
        1 + msb(m / 2)
    }
}

/// `msb` is characterized by bracketing between two powers of two.
proof fn lemma_msb_characterizes(m: nat, p: nat)
    requires
        pow2(p) <= m < pow2(p + 1),
    ensures
        msb(m) == p,
    decreases p,
{
    vstd::arithmetic::power2::lemma_pow2_unfold(p + 1);
    if p == 0 {
        lemma2_to64();
    } else {
        vstd::arithmetic::power2::lemma_pow2_unfold(p);
        lemma_msb_characterizes(m / 2, (p - 1) as nat);
    }
}

/// The IEEE-754 binary64 encoding of the integer `i`. Every `i32` is
/// exactly representable: the encoding denotes exactly `i`.
pub open spec fn spec_bits_of_i32(i: i32) -> u64 {
    if i == 0 {
        0
    } else {
        let mag = (if i >= 0 {
            i as int
        } else {
            -(i as int)
        }) as nat;
        let p = msb(mag);
        let sign: int = if i < 0 {
            0x8000_0000_0000_0000
        } else {
            0
        };
        (sign + (1023 + p) * 0x10_0000_0000_0000 + (mag - pow2(p)) * pow2((52 - p) as nat)) as u64
    }
}

/// Encodes the integer `i` as an IEEE-754 binary64 value (the widening
/// conversion from 32-bit integers, which is exact).
pub fn bits_of_i32(i: i32) -> (r: u64)
    ensures
        r == spec_bits_of_i32(i),
{
    if i == 0 {
        return 0;
    }
    let mag: u64 = if i >= 0 {
        i as u64
    } else {
        (-(i as i64)) as u64
    };
    assert(1 <= mag <= 0x8000_0000);
    let mut p: u64 = 0;
    let mut pw: u64 = 1;
    proof {
        lemma2_to64();
    }
    while pw * 2 <= mag
        invariant
            1 <= mag <= 0x8000_0000,
            pw == pow2(p as nat),
            pw <= mag,
            p <= 31,
        decreases mag - pw,
    {
        proof {
            lemma_pow2_adds(p as nat, 1);
            lemma2_to64();
            if p as nat + 1 < 31 {
                vstd::arithmetic::power2::lemma_pow2_strictly_increases(p as nat + 1, 31);
            }
        }
        pw = pw * 2;
        p = p + 1;
    }
    proof {
        lemma_pow2_adds(p as nat, 1);
        lemma_msb_characterizes(mag as nat, p as nat);
    }
    let mult: u64 = pow2_u64(52 - p);
    proof {
        lemma_pow2_pos((52 - p) as nat);
        lemma_pow2_adds(p as nat, (52 - p) as nat);
        vstd::arithmetic::power2::lemma2_to64_rest();
        assert(mag - pw < pw);
        vstd::arithmetic::mul::lemma_mul_strict_inequality(
            mag as int - pw as int,
            pw as int,
            mult as int,
        );
        assert((mag as int - pw as int) * (mult as int) < (pw as int) * (mult as int));
        assert((pw as int) * (mult as int) == (pow2(p as nat) * pow2((52 - p) as nat)) as int);
        assert((mag - pw) * mult < 0x10_0000_0000_0000);
    }
    let frac: u64 = (mag - pw) * mult;
    let sign: u64 = if i < 0 {
        0x8000_0000_0000_0000
    } else {
        0
    };
    sign + (1023 + p) * 0x10_0000_0000_0000 + frac
}

/// The quotient `c / 2^sh` is below `2^31` when `c` is below `2^53` and
/// `sh` is at least `22`.
proof fn lemma_trunc_quotient_bound(c: nat, sh: nat, ue: nat)
    requires
        c < pow2(53),
        sh == 52 - ue,
        ue <= 30,
    ensures
        c / pow2(sh) < pow2(31),
        pow2(sh) > 0,
{
    lemma_pow2_pos(sh);
    lemma_pow2_adds(sh, (ue + 1) as nat);
    assert(pow2(sh) * pow2((ue + 1) as nat) == pow2(53));
    lemma2_to64();
    // c < pow2(sh) * pow2(ue + 1), so c / pow2(sh) < pow2(ue + 1) <= pow2(31)
    assert(c / pow2(sh) < pow2((ue + 1) as nat)) by {
        vstd::arithmetic::div_mod::lemma_multiply_divide_lt(c as int, pow2(sh) as int, pow2((ue
            + 1) as nat) as int);
    }
    lemma_pow2_nondecreasing((ue + 1) as nat, 31);
}

} // verus!
