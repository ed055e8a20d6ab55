//! Integer readings of IEEE-754 binary64 numbers held as their bit patterns.
//!
//! JSON numbers reach the library as the bits of the `f64` a JSON reader
//! gives for them; the quota logic only ever truncates them to `i64` the way
//! Rust's `as i64` does: toward zero, saturating at the `i64` bounds, NaN
//! becoming 0.

use vstd::prelude::*;
use vstd::arithmetic::power2::{pow2, lemma2_to64, lemma_pow2_adds, lemma_pow2_pos, lemma_pow2_strictly_increases};
use vstd::bits::{lemma_u64_shl_is_mul, lemma_u64_shr_is_div};

verus! {

pub open spec fn f64_exponent(bits: u64) -> u64 {
    (bits / 0x10_0000_0000_0000) % 0x800
}

pub open spec fn f64_fraction(bits: u64) -> u64 {
    bits % 0x10_0000_0000_0000
}

pub open spec fn f64_negative(bits: u64) -> bool {
    bits >= 0x8000_0000_0000_0000
}

/// Neither an infinity nor a NaN.
pub open spec fn f64_is_finite(bits: u64) -> bool {
    f64_exponent(bits) != 0x7FF
}

pub open spec fn f64_is_nan(bits: u64) -> bool {
    f64_exponent(bits) == 0x7FF && f64_fraction(bits) != 0
}

/// The magnitude of a finite number, truncated to an integer: the significand
/// `m = fraction + 2^52` scaled by `2^(exponent - 1075)`; subnormals are below 1.
pub open spec fn f64_trunc_magnitude(bits: u64) -> nat {
    let e = f64_exponent(bits);
    let m = f64_fraction(bits) + 0x10_0000_0000_0000;
    if e == 0 {
        0
    } else if e >= 1075 {
        (m * pow2((e - 1075) as nat)) as nat
    } else {
        (m / (pow2((1075 - e) as nat) as int)) as nat
    }
}

pub open spec fn clamp_i64(v: int) -> i64 {
    if v < i64::MIN {
        i64::MIN
    } else if v > i64::MAX {
        i64::MAX
    } else {
        v as i64
    }
}

/// What `f as i64` gives for the double with these bits.
pub open spec fn f64_as_i64(bits: u64) -> i64 {
    if f64_is_nan(bits) {
        0
    } else if !f64_is_finite(bits) {
        if f64_negative(bits) { i64::MIN } else { i64::MAX }
    } else {
        let t = f64_trunc_magnitude(bits) as int;
        clamp_i64(if f64_negative(bits) { -t } else { t })
    }
}

/// Whether the double with these bits is finite.
pub fn f64_bits_is_finite(bits: u64) -> (finite: bool)
    ensures
        finite == f64_is_finite(bits),
{
    let e = (bits >> 52u64) & 0x7FF;
    assert(e == f64_exponent(bits)) by (bit_vector)
        requires
            e == (bits >> 52u64) & 0x7FF,
    ;
    e != 0x7FF
}

/// `f as i64` for the double with these bits: truncation toward zero,
/// saturating at the `i64` bounds, with NaN giving 0.
pub fn f64_bits_as_i64(bits: u64) -> (v: i64)
    ensures
        v == f64_as_i64(bits),
{
    let e = (bits >> 52u64) & 0x7FF;
    let f = bits & 0xF_FFFF_FFFF_FFFF;
    let neg = bits >= 0x8000_0000_0000_0000;
    assert(e == f64_exponent(bits) && f == f64_fraction(bits)) by (bit_vector)
        requires
            e == (bits >> 52u64) & 0x7FF,
            f == bits & 0xF_FFFF_FFFF_FFFF,
    ;
    if e == 0x7FF {
        if f != 0 {
            0
        } else if neg {
            i64::MIN
        } else {
            i64::MAX
        }
    } else if e == 0 {
        0
    } else {
        let m: u64 = f + 0x10_0000_0000_0000;
        proof {
            lemma2_to64();
        }
        if e >= 1075 {
            let k: u64 = e - 1075;
            if k >= 11 {
                proof {
                    if k > 11 {
                        lemma_pow2_strictly_increases(11, k as nat);
                    }
                    assert(pow2(11) == 2048) by {
                        lemma_pow2_adds(10, 1);
                    }
                    assert(m * pow2(k as nat) >= 0x10_0000_0000_0000 * 2048) by (nonlinear_arith)
                        requires
                            m >= 0x10_0000_0000_0000,
                            pow2(k as nat) >= 2048,
                    ;
                }
                if neg {
                    i64::MIN
                } else {
                    i64::MAX
                }
            } else {
                proof {
                    if k < 10 {
                        lemma_pow2_strictly_increases(k as nat, 10);
                    }
                    assert(m * pow2(k as nat) < 0x20_0000_0000_0000 * 1024) by (nonlinear_arith)
                        requires
                            m < 0x20_0000_0000_0000,
                            pow2(k as nat) <= 1024,
                            pow2(k as nat) > 0,
                    ;
                    lemma_u64_shl_is_mul(m, k);
                }
                let mag: u64 = m << k;
                if neg {
                    -(mag as i64)
                } else {
                    mag as i64
                }
            }
        } else {
            let k: u64 = 1075 - e;
            let mag: u64 = if k >= 64 {
                proof {
                    if k > 64 {
                        lemma_pow2_strictly_increases(64, k as nat);
                    }
                    assert(m as nat / pow2(k as nat) == 0) by (nonlinear_arith)
                        requires
                            m < pow2(k as nat),
                    ;
                }
                0
            } else {
                proof {
                    lemma_u64_shr_is_div(m, k);
                    lemma_pow2_pos(k as nat);
                    assert(m as nat / pow2(k as nat) <= m) by (nonlinear_arith)
                        requires
                            pow2(k as nat) >= 1,
                    ;
                }
                m >> k
            };
            if neg {
                -(mag as i64)
            } else {
                mag as i64
            }
        }
    }
}

} // verus!
