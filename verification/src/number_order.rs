//! Exact order between a TOML integer and a TOML float (held as the bits
//! of its `f64`), so that a limit can be compared whichever number type
//! each layer wrote it in.

use vstd::prelude::*;
use crate::toml_value::{f64_is_nan, f64_mag};

verus! {

/// `2` to the power `n`.
pub open spec fn two_pow(n: nat) -> int
    decreases n,
{
    if n == 0 {
        1
    } else {
        2 * two_pow((n - 1) as nat)
    }
}

/// The biased exponent field of an `f64`.
pub open spec fn f64_exponent(b: u64) -> int {
    f64_mag(b) / 0x10_0000_0000_0000
}

/// The fraction field of an `f64`.
pub open spec fn f64_fraction(b: u64) -> int {
    f64_mag(b) % 0x10_0000_0000_0000
}

/// An infinity: every exponent bit set and a zero fraction.
pub open spec fn f64_is_inf(b: u64) -> bool {
    f64_mag(b) == 0x7ff0_0000_0000_0000
}

/// The significand, with the hidden bit of a normal number, and the sign.
pub open spec fn f64_signed_significand(b: u64) -> int {
    let sig = if f64_exponent(b) == 0 {
        f64_fraction(b)
    } else {
        f64_fraction(b) + 0x10_0000_0000_0000
    };
    if b >= 0x8000_0000_0000_0000 {
        -sig
    } else {
        sig
    }
}

/// The power of two that scales the significand: a finite `f64` is
/// `f64_signed_significand(b) * 2^f64_scale(b)`.
pub open spec fn f64_scale(b: u64) -> int {
    if f64_exponent(b) == 0 {
        -1074
    } else {
        f64_exponent(b) - 1075
    }
}

/// The integer `i` is greater than the `f64` with bits `b` (never for a
/// NaN).
pub open spec fn int_above_float(i: int, b: u64) -> bool {
    if f64_is_nan(b) {
        false
    } else if f64_is_inf(b) {
        b >= 0x8000_0000_0000_0000
    } else if f64_scale(b) >= 0 {
        i > f64_signed_significand(b) * two_pow(f64_scale(b) as nat)
    } else {
        i * two_pow((-f64_scale(b)) as nat) > f64_signed_significand(b)
    }
}

/// The `f64` with bits `b` is greater than the integer `i` (never for a
/// NaN).
pub open spec fn float_above_int(b: u64, i: int) -> bool {
    if f64_is_nan(b) {
        false
    } else if f64_is_inf(b) {
        b < 0x8000_0000_0000_0000
    } else if f64_scale(b) >= 0 {
        f64_signed_significand(b) * two_pow(f64_scale(b) as nat) > i
    } else {
        f64_signed_significand(b) > i * two_pow((-f64_scale(b)) as nat)
    }
}

proof fn lemma_two_pow_pos(n: nat)
    ensures
        two_pow(n) >= 1,
    decreases n,
{
    if n > 0 {
        lemma_two_pow_pos((n - 1) as nat);
    }
}

proof fn lemma_two_pow_mono(a: nat, b: nat)
    requires
        a <= b,
    ensures
        two_pow(a) <= two_pow(b),
    decreases b,
{
    if a < b {
        lemma_two_pow_mono(a, (b - 1) as nat);
        lemma_two_pow_pos((b - 1) as nat);
    }
}

proof fn lemma_two_pow_values()
    ensures
        two_pow(52) == 0x10_0000_0000_0000,
        two_pow(64) == 0x1_0000_0000_0000_0000,
        two_pow(70) == 0x40_0000_0000_0000_0000,
        two_pow(71) == 0x80_0000_0000_0000_0000,
{
    reveal_with_fuel(two_pow, 72);
}

/// `2^n` for `n <= 70`.
fn two_pow_exec(n: u64) -> (r: i128)
    requires
        n <= 70,
    ensures
        r == two_pow(n as nat),
        1 <= r <= 0x40_0000_0000_0000_0000,
{
    proof {
        lemma_two_pow_values();
    }
    let mut p: i128 = 1;
    let mut j: u64 = 0;
    while j < n
        invariant
            j <= n <= 70,
            p == two_pow(j as nat),
            two_pow(70) == 0x40_0000_0000_0000_0000,
        decreases n - j,
    {
        proof {
            lemma_two_pow_mono(j as nat, 69);
            lemma_two_pow_pos(j as nat);
            assert(two_pow(70) == 2 * two_pow(69));
        }
        p = p * 2;
        j = j + 1;
    }
    proof {
        lemma_two_pow_mono(n as nat, 70);
        lemma_two_pow_pos(n as nat);
    }
    p
}

/// The parts of a finite `f64`: its signed significand and scale.
fn f64_parts(b: u64) -> (r: (i128, i64))
    requires
        !f64_is_nan(b),
        !f64_is_inf(b),
    ensures
        r.0 == f64_signed_significand(b),
        r.1 == f64_scale(b),
        -0x20_0000_0000_0000 < r.0 < 0x20_0000_0000_0000,
        -1074 <= r.1 <= 971,
        r.1 >= 0 ==> (r.0 >= 0x10_0000_0000_0000 || r.0 <= -0x10_0000_0000_0000),
{
    let mag: u64 = if b >= 0x8000_0000_0000_0000 {
        b - 0x8000_0000_0000_0000
    } else {
        b
    };
    let e: u64 = mag / 0x10_0000_0000_0000;
    let f: u64 = mag % 0x10_0000_0000_0000;
    let sig: i128 = if e == 0 {
        f as i128
    } else {
        f as i128 + 0x10_0000_0000_0000
    };
    let signed: i128 = if b >= 0x8000_0000_0000_0000 {
        -sig
    } else {
        sig
    };
    let scale: i64 = if e == 0 {
        -1074
    } else {
        e as i64 - 1075
    };
    (signed, scale)
}

/// Whether the integer `i` is greater than the `f64` with bits `b`.
pub fn int_gt_float(i: i64, b: u64) -> (r: bool)
    ensures
        r == int_above_float(i as int, b),
{
    let mag: u64 = if b >= 0x8000_0000_0000_0000 {
        b - 0x8000_0000_0000_0000
    } else {
        b
    };
    if mag > 0x7ff0_0000_0000_0000 {
        return false;
    }
    if mag == 0x7ff0_0000_0000_0000 {
        return b >= 0x8000_0000_0000_0000;
    }
    let (sig, scale) = f64_parts(b);
    let ii = i as i128;
    if scale >= 0 {
        let s = scale as u64;
        if s > 70 {
            proof {
                lemma_two_pow_values();
                lemma_two_pow_mono(71, s as nat);
                let p = two_pow(s as nat);
                if sig > 0 {
                    assert(sig * p >= 0x10_0000_0000_0000 * 0x80_0000_0000_0000_0000) by (nonlinear_arith)
                        requires
                            sig >= 0x10_0000_0000_0000,
                            p >= 0x80_0000_0000_0000_0000,
                    ;
                } else {
                    assert(sig * p <= -0x10_0000_0000_0000 * 0x80_0000_0000_0000_0000) by (nonlinear_arith)
                        requires
                            sig <= -0x10_0000_0000_0000,
                            p >= 0x80_0000_0000_0000_0000,
                    ;
                }
            }
            return sig < 0;
        }
        let p = two_pow_exec(s);
        proof {
            assert(-0x20_0000_0000_0000 * 0x40_0000_0000_0000_0000 <= sig * p <= 0x20_0000_0000_0000
                * 0x40_0000_0000_0000_0000) by (nonlinear_arith)
                requires
                    -0x20_0000_0000_0000 < sig < 0x20_0000_0000_0000,
                    1 <= p <= 0x40_0000_0000_0000_0000,
            ;
        }
        ii > sig * p
    } else {
        let t = (0 - scale) as u64;
        if t >= 64 {
            proof {
                lemma_two_pow_values();
                lemma_two_pow_mono(64, t as nat);
                let p = two_pow(t as nat);
                if ii > 0 {
                    assert(ii * p >= p) by (nonlinear_arith)
                        requires
                            ii >= 1,
                            p >= 1,
                    ;
                } else if ii < 0 {
                    assert(ii * p <= -p) by (nonlinear_arith)
                        requires
                            ii <= -1,
                            p >= 1,
                    ;
                }
            }
            if ii == 0 {
                proof {
                    let q = two_pow(t as nat);
                    assert((i as int) * q == 0) by (nonlinear_arith)
                        requires
                            i == 0,
                    ;
                }
                return 0 > sig;
            }
            return ii > 0;
        }
        let p = two_pow_exec(t);
        proof {
            lemma_two_pow_values();
            lemma_two_pow_mono(t as nat, 63);
            assert(two_pow(64) == 2 * two_pow(63));
            assert(-0x8000_0000_0000_0000 * 0x8000_0000_0000_0000 <= ii * p <= 0x8000_0000_0000_0000
                * 0x8000_0000_0000_0000) by (nonlinear_arith)
                requires
                    -0x8000_0000_0000_0000 <= ii < 0x8000_0000_0000_0000,
                    1 <= p <= 0x8000_0000_0000_0000,
            ;
        }
        ii * p > sig
    }
}

/// Whether the `f64` with bits `b` is greater than the integer `i`.
pub fn float_gt_int(b: u64, i: i64) -> (r: bool)
    ensures
        r == float_above_int(b, i as int),
{
    let mag: u64 = if b >= 0x8000_0000_0000_0000 {
        b - 0x8000_0000_0000_0000
    } else {
        b
    };
    if mag > 0x7ff0_0000_0000_0000 {
        return false;
    }
    if mag == 0x7ff0_0000_0000_0000 {
        return b < 0x8000_0000_0000_0000;
    }
    let (sig, scale) = f64_parts(b);
    let ii = i as i128;
    if scale >= 0 {
        let s = scale as u64;
        if s > 70 {
            proof {
                lemma_two_pow_values();
                lemma_two_pow_mono(71, s as nat);
                let p = two_pow(s as nat);
                if sig > 0 {
                    assert(sig * p >= 0x10_0000_0000_0000 * 0x80_0000_0000_0000_0000) by (nonlinear_arith)
                        requires
                            sig >= 0x10_0000_0000_0000,
                            p >= 0x80_0000_0000_0000_0000,
                    ;
                } else {
                    assert(sig * p <= -0x10_0000_0000_0000 * 0x80_0000_0000_0000_0000) by (nonlinear_arith)
                        requires
                            sig <= -0x10_0000_0000_0000,
                            p >= 0x80_0000_0000_0000_0000,
                    ;
                }
            }
            return sig > 0;
        }
        let p = two_pow_exec(s);
        proof {
            assert(-0x20_0000_0000_0000 * 0x40_0000_0000_0000_0000 <= sig * p <= 0x20_0000_0000_0000
                * 0x40_0000_0000_0000_0000) by (nonlinear_arith)
                requires
                    -0x20_0000_0000_0000 < sig < 0x20_0000_0000_0000,
                    1 <= p <= 0x40_0000_0000_0000_0000,
            ;
        }
        sig * p > ii
    } else {
        let t = (0 - scale) as u64;
        if t >= 64 {
            proof {
                lemma_two_pow_values();
                lemma_two_pow_mono(64, t as nat);
                let p = two_pow(t as nat);
                if ii > 0 {
                    assert(ii * p >= p) by (nonlinear_arith)
                        requires
                            ii >= 1,
                            p >= 1,
                    ;
                } else if ii < 0 {
                    assert(ii * p <= -p) by (nonlinear_arith)
                        requires
                            ii <= -1,
                            p >= 1,
                    ;
                }
            }
            if ii == 0 {
                proof {
                    let q = two_pow(t as nat);
                    assert((i as int) * q == 0) by (nonlinear_arith)
                        requires
                            i == 0,
                    ;
                }
                return sig > 0;
            }
            return ii < 0;
        }
        let p = two_pow_exec(t);
        proof {
            lemma_two_pow_values();
            lemma_two_pow_mono(t as nat, 63);
            assert(two_pow(64) == 2 * two_pow(63));
            assert(-0x8000_0000_0000_0000 * 0x8000_0000_0000_0000 <= ii * p <= 0x8000_0000_0000_0000
                * 0x8000_0000_0000_0000) by (nonlinear_arith)
                requires
                    -0x8000_0000_0000_0000 <= ii < 0x8000_0000_0000_0000,
                    1 <= p <= 0x8000_0000_0000_0000,
            ;
        }
        sig > ii * p
    }
}

} // verus!
