//! Fixed-point scales: the rounded base-2 logarithm of a multiplier, and
//! the output scale of each operation.
use vstd::prelude::*;

use crate::eval::LookupError;
use crate::multiplier::{lemma_pow10_18, lemma_pow10_mono, Multiplier};
use crate::op::LookupOp;
use crate::Scale;

verus! {

/// The power of four `4^n`.
pub open spec fn pow4(n: nat) -> nat
    decreases n,
{
    if n == 0 {
        1
    } else {
        4 * pow4((n - 1) as nat)
    }
}

proof fn lemma_pow4_mono(a: nat, b: nat)
    requires
        a <= b,
    ensures
        1 <= pow4(a) <= pow4(b),
    decreases b,
{
    if b > a {
        lemma_pow4_mono(a, (b - 1) as nat);
    } else if a > 0 {
        lemma_pow4_mono((a - 1) as nat, (a - 1) as nat);
    }
}

proof fn lemma_pow4_64()
    ensures
        pow4(64) > u128::MAX,
{
    reveal_with_fuel(pow4, 65);
}

/// `k` is `log2(m)` rounded to the nearest integer, for `m > 0`: it is the
/// largest `k` with `4^k <= 2 * m^2`. Writing `m = u / d`, that is
/// `d^2 * 4^k <= 2 u^2 < d^2 * 4^(k+1)`, with both sides times `4^-k`
/// where `k` is negative. (No decimal lies halfway between two powers of
/// two in the logarithm, as `2 m^2` is never an odd power of two.)
pub open spec fn log2_rounds_to(m: Multiplier, k: int) -> bool {
    let n2 = m.units * m.units;
    let d2 = m.denom() * m.denom();
    if k >= 0 {
        d2 * pow4(k as nat) <= 2 * n2 < d2 * pow4((k + 1) as nat)
    } else {
        d2 <= 2 * n2 * pow4((-k) as nat) < 4 * d2
    }
}

/// At most one integer is the rounded logarithm of a multiplier, so
/// `multiplier_to_scale` has one correct answer.
pub proof fn lemma_log2_rounds_unique(m: Multiplier, k1: int, k2: int)
    requires
        log2_rounds_to(m, k1),
        log2_rounds_to(m, k2),
    ensures
        k1 == k2,
{
    if k1 != k2 {
        let (lo, hi) = if k1 < k2 {
            (k1, k2)
        } else {
            (k2, k1)
        };
        let n2 = m.units * m.units;
        let d2 = m.denom() * m.denom();
        assert(d2 >= 0 && n2 >= 0) by (nonlinear_arith)
            requires
                d2 == m.denom() * m.denom(),
                n2 == m.units * m.units,
        ;
        if lo >= 0 {
            lemma_pow4_mono((lo + 1) as nat, hi as nat);
            assert(d2 * pow4((lo + 1) as nat) <= d2 * pow4(hi as nat)) by (nonlinear_arith)
                requires
                    d2 >= 0,
                    pow4((lo + 1) as nat) <= pow4(hi as nat),
            ;
        } else if hi >= 0 {
            let j = (-lo) as nat;
            lemma_pow4_mono(1, j);
            reveal_with_fuel(pow4, 2);
            assert(2 * n2 * 4 <= 2 * n2 * pow4(j)) by (nonlinear_arith)
                requires
                    n2 >= 0,
                    4 <= pow4(j),
            ;
            lemma_pow4_mono(0, hi as nat);
            assert(d2 <= d2 * pow4(hi as nat)) by (nonlinear_arith)
                requires
                    d2 >= 0,
                    1 <= pow4(hi as nat),
            ;
        } else {
            let j1 = (-hi) as nat;
            let j2 = (-lo) as nat;
            lemma_pow4_mono(j1 + 1, j2);
            assert(pow4(j1 + 1) == 4 * pow4(j1));
            assert(2 * n2 * pow4(j1 + 1) <= 2 * n2 * pow4(j2)) by (nonlinear_arith)
                requires
                    n2 >= 0,
                    pow4(j1 + 1) <= pow4(j2),
            ;
            assert(2 * n2 * pow4(j1 + 1) == 4 * (2 * n2 * pow4(j1))) by (nonlinear_arith)
                requires
                    pow4(j1 + 1) == 4 * pow4(j1),
            ;
        }
    }
}

/// The scale of a positive multiplier: `log2(m)` rounded to the nearest
/// integer. `None` where `m` is not positive.
pub fn multiplier_to_scale(m: &Multiplier) -> (r: Option<Scale>)
    requires
        m.wf(),
    ensures
        r is Some <==> m.units > 0,
        r matches Some(k) ==> log2_rounds_to(*m, k as int),
        r matches Some(k) ==> -64 < k < 64,
{
    if m.units <= 0 {
        return None;
    }
    let d: u64 = m.denominator();
    proof {
        lemma_pow10_18();
        lemma_pow10_mono(m.places as nat, 18);
        lemma_pow4_64();
        assert(m.units * m.units <= 0x4000_0000_0000_0000_0000_0000_0000_0000) by (nonlinear_arith)
            requires
                0 < m.units <= i64::MAX,
        ;
        assert(d * d <= 1_000_000_000_000_000_000_000_000_000_000_000_000u128) by (nonlinear_arith)
            requires
                1 <= d <= 1_000_000_000_000_000_000u64,
        ;
    }
    let u: u128 = m.units as u128;
    let n2: u128 = u * u;
    let d2: u128 = (d as u128) * (d as u128);
    let two_n2: u128 = 2 * n2;
    if two_n2 >= d2 {
        let mut t: u128 = d2;
        let mut k: u32 = 0;
        proof {
            reveal_with_fuel(pow4, 1);
            assert(d2 >= 1) by (nonlinear_arith)
                requires
                    d2 == d * d,
                    d >= 1,
            ;
            assert(pow4(0) == 1);
            assert(t == d2 * pow4(0));
        }
        while t <= two_n2 / 4
            invariant
                1 <= d2,
                1 <= t,
                t == d2 * pow4(k as nat),
                t <= two_n2,
                two_n2 <= 0x8000_0000_0000_0000_0000_0000_0000_0000,
                k < 64,
            decreases two_n2 - t,
        {
            proof {
                assert(t * 4 <= two_n2);
                assert(d2 * pow4((k + 1) as nat) == t * 4) by (nonlinear_arith)
                    requires
                        t == d2 * pow4(k as nat),
                        pow4((k + 1) as nat) == 4 * pow4(k as nat),
                ;
                assert(pow4((k + 1) as nat) <= d2 * pow4((k + 1) as nat)) by (nonlinear_arith)
                    requires
                        1 <= d2,
                ;
                if k + 1 >= 64 {
                    lemma_pow4_mono(64, (k + 1) as nat);
                    lemma_pow4_64();
                }
            }
            t = t * 4;
            k = k + 1;
        }
        proof {
            assert(d2 * pow4((k + 1) as nat) == t * 4) by (nonlinear_arith)
                requires
                    t == d2 * pow4(k as nat),
                    pow4((k + 1) as nat) == 4 * pow4(k as nat),
            ;
        }
        Some(k as Scale)
    } else {
        let mut t: u128 = two_n2;
        let mut j: u32 = 0;
        proof {
            reveal_with_fuel(pow4, 1);
            assert(pow4(0) == 1);
            assert(n2 >= 1) by (nonlinear_arith)
                requires
                    n2 == u * u,
                    u >= 1,
            ;
        }
        while t < d2
            invariant
                1 <= two_n2,
                1 <= t,
                t == two_n2 * pow4(j as nat),
                j == 0 || t < 4 * d2,
                two_n2 < d2,
                d2 <= 1_000_000_000_000_000_000_000_000_000_000_000_000u128,
                j < 64,
            decreases 64 - j,
        {
            proof {
                assert(two_n2 * pow4((j + 1) as nat) == t * 4) by (nonlinear_arith)
                    requires
                        t == two_n2 * pow4(j as nat),
                        pow4((j + 1) as nat) == 4 * pow4(j as nat),
                ;
                assert(pow4((j + 1) as nat) <= two_n2 * pow4((j + 1) as nat)) by (nonlinear_arith)
                    requires
                        1 <= two_n2,
                ;
                assert(t * 4 < 4 * d2);
                if j + 1 >= 64 {
                    lemma_pow4_mono(64, (j + 1) as nat);
                    lemma_pow4_64();
                }
                lemma_pow4_mono(0, j as nat);
                assert(t >= 1) by (nonlinear_arith)
                    requires
                        t == two_n2 * pow4(j as nat),
                        1 <= two_n2,
                        pow4(j as nat) >= 1,
                ;
            }
            t = t * 4;
            j = j + 1;
        }
        Some(-(j as Scale))
    }
}

impl LookupOp {
    /// The scale of the operation's output, given the scales of its inputs:
    /// the first input's scale, but for `Cast`, which adds the scale of
    /// `1 / scale` (the negation of the scale of `scale`), `Recip`, whose
    /// output has the scale of `output_scale`, and `KroneckerDelta`, whose
    /// output has scale zero.
    pub fn out_scale(&self, inputs_scale: &Vec<Scale>) -> (r: Result<Scale, LookupError>)
        requires
            inputs_scale@.len() > 0,
        ensures
            match *self {
                LookupOp::Cast { scale } => if !scale.wf() {
                    r == Err::<Scale, LookupError>(LookupError::Precision)
                } else if scale.units <= 0 {
                    r == Err::<Scale, LookupError>(LookupError::NotPositive)
                } else {
                    match r {
                        Ok(v) => log2_rounds_to(scale, inputs_scale@[0] - v),
                        Err(e) => e == LookupError::Overflow && exists|k: int|
                            log2_rounds_to(scale, k) && !(i32::MIN <= inputs_scale@[0] - k
                                <= i32::MAX),
                    }
                },
                LookupOp::Recip { output_scale, .. } => if !output_scale.wf() {
                    r == Err::<Scale, LookupError>(LookupError::Precision)
                } else if output_scale.units <= 0 {
                    r == Err::<Scale, LookupError>(LookupError::NotPositive)
                } else {
                    r matches Ok(v) && log2_rounds_to(output_scale, v as int)
                },
                LookupOp::KroneckerDelta => r == Ok::<Scale, LookupError>(0),
                _ => r == Ok::<Scale, LookupError>(inputs_scale@[0]),
            },
    {
        match self {
            LookupOp::Cast { scale } if !scale.is_wf() => Err(LookupError::Precision),
            LookupOp::Recip { output_scale, .. } if !output_scale.is_wf() => Err(
                LookupError::Precision,
            ),
            LookupOp::Cast { scale } => match multiplier_to_scale(scale) {
                Some(k) => {
                    let in_scale = inputs_scale[0];
                    if (k > 0 && in_scale < i32::MIN + k) || (k < 0 && in_scale > i32::MAX + k) {
                        Err(LookupError::Overflow)
                    } else {
                        Ok(in_scale - k)
                    }
                },
                None => Err(LookupError::NotPositive),
            },
            LookupOp::Recip { output_scale, .. } => match multiplier_to_scale(output_scale) {
                Some(k) => Ok(k),
                None => Err(LookupError::NotPositive),
            },
            LookupOp::KroneckerDelta => Ok(0),
            _ => Ok(inputs_scale[0]),
        }
    }
}

} // verus!
