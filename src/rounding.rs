//! Integer division with the rounding rules the evaluator needs.
use vstd::prelude::*;

use vstd::arithmetic::div_mod::{lemma_fundamental_div_mod, lemma_fundamental_div_mod_converse};

verus! {

/// How a quotient that is not a whole number becomes one.
#[derive(Clone, Copy, Debug, PartialEq, Eq, Structural)]
pub enum Rounding {
    /// Toward negative infinity.
    Floor,
    /// Toward positive infinity.
    Ceil,
    /// Toward zero.
    Trunc,
    /// To the nearest integer, ties away from zero.
    HalfAway,
    /// To the nearest integer, ties to the even one.
    HalfEven,
}

/// The quotient `a / b`, for `b > 0`, rounded by `mode`. `a / b` and `a % b`
/// are the floor quotient and its remainder in `0 .. b`.
pub open spec fn round_div(a: int, b: int, mode: Rounding) -> int {
    let q = a / b;
    let r = a % b;
    match mode {
        Rounding::Floor => q,
        Rounding::Ceil => if r == 0 { q } else { q + 1 },
        Rounding::Trunc => if a >= 0 || r == 0 { q } else { q + 1 },
        Rounding::HalfAway => if 2 * r < b || (2 * r == b && q < 0) { q } else { q + 1 },
        Rounding::HalfEven => if 2 * r < b || (2 * r == b && q % 2 == 0) { q } else { q + 1 },
    }
}

/// Floor division of two `i128` values.
fn floor_div(a: i128, b: i128) -> (q: i128)
    requires
        b > 0,
    ensures
        q == a / b,
{
    if a >= 0 {
        a / b
    } else {
        let c: i128 = -(a + 1);
        let t: i128 = c / b;
        proof {
            lemma_fundamental_div_mod(c as int, b as int);
            let s = c % b;
            assert(a == (-t - 1) * b + (b - s - 1)) by (nonlinear_arith)
                requires
                    c == b * t + s,
                    c == -(a + 1),
            ;
            lemma_fundamental_div_mod_converse(a as int, b as int, -t - 1, b - s - 1);
        }
        -t - 1
    }
}

/// `a / b` rounded by `mode`, where `|a| + b` fits the arithmetic.
pub fn div_rounded(a: i128, b: i128, mode: Rounding) -> (q: i128)
    requires
        0 < b <= 0x1_0000_0000_0000_0000,
        -0x4000_0000_0000_0000_0000_0000_0000_0000 <= a <= 0x4000_0000_0000_0000_0000_0000_0000_0000,
    ensures
        q == round_div(a as int, b as int, mode),
        a - b <= q * b <= a + b,
{
    let q = floor_div(a, b);
    proof {
        lemma_fundamental_div_mod(a as int, b as int);
        let r = a % b;
        assert(a - b <= q * b <= a + b && a - b <= (q + 1) * b <= a + b) by (nonlinear_arith)
            requires
                a == b * q + r,
                0 <= r < b,
        ;
    }
    let r: i128 = a - q * b;
    let up = match mode {
        Rounding::Floor => false,
        Rounding::Ceil => r != 0,
        Rounding::Trunc => a < 0 && r != 0,
        Rounding::HalfAway => !(2 * r < b || (2 * r == b && q < 0)),
        Rounding::HalfEven => !(2 * r < b || (2 * r == b && q % 2 == 0)),
    };
    if up {
        q + 1
    } else {
        q
    }
}

} // verus!
