//! The forward evaluator: decode field elements, apply the operation's
//! fixed-point function, encode the results.
use vstd::prelude::*;

use crate::field::{decode_spec, encode_spec, felt_to_integer_rep, integer_rep_to_felt, Felt};
use crate::multiplier::{lemma_pow10_18, lemma_pow10_mono, Multiplier};
use crate::op::{half_range, LookupOp};
use crate::rounding::{div_rounded, round_div, Rounding};
use crate::IntegerRep;

verus! {

/// Why an evaluation produced no value.
#[derive(Clone, Copy, Debug, PartialEq, Eq, Structural)]
pub enum LookupError {
    /// The operation was not given exactly one input tensor.
    Shape,
    /// An input lies outside the domain of every table, `|x| <= i64::MAX`,
    /// or is a field element that encodes no such integer.
    OutOfRange,
    /// The operation divides by a multiplier that is zero.
    ZeroMultiplier,
    /// The operation approximates a continuous function in floating point,
    /// which this library does not evaluate.
    Approximate,
    /// A multiplier has more decimal places than `MAX_PLACES`.
    Precision,
    /// A scale is asked of a multiplier that is zero or negative.
    NotPositive,
    /// A derived scale does not fit a `Scale`.
    Overflow,
}

/// The output of an evaluation: one field element per input element.
#[derive(Debug)]
pub struct ForwardResult {
    pub output: Vec<Felt>,
}

/// The integers that some table can hold: those of `bit_range(n)` for
/// every row count `n` a `usize` can give.
pub open spec fn in_domain(x: int) -> bool {
    -(i64::MAX as int) <= x <= i64::MAX
}

/// `x / m` rounded to an integer by `mode`.
pub open spec fn quotient(x: int, m: Multiplier, mode: Rounding) -> int {
    if m.units < 0 {
        round_div(-x * m.denom(), -m.units, mode)
    } else {
        round_div(x * m.denom(), m.units as int, mode)
    }
}

/// `x` moved to a multiple of `m` by rounding `x / m` with `mode`, then
/// truncated toward zero.
pub open spec fn snap(x: int, m: Multiplier, mode: Rounding) -> int {
    round_div(quotient(x, m, mode) * m.units, m.denom() as int, Rounding::Trunc)
}

/// `m * x` rounded to the nearest integer, ties away from zero.
pub open spec fn times(x: int, m: Multiplier) -> int {
    round_div(x * m.units, m.denom() as int, Rounding::HalfAway)
}

/// What the operation maps the integer `x` to.
pub open spec fn forward_spec(op: LookupOp, x: int) -> Result<int, LookupError> {
    if !in_domain(x) {
        Err(LookupError::OutOfRange)
    } else if !op.wf() {
        Err(LookupError::Precision)
    } else {
        match op {
            LookupOp::Ceil { scale } => snap_or_zero(x, scale, Rounding::Ceil),
            LookupOp::Floor { scale } => snap_or_zero(x, scale, Rounding::Floor),
            LookupOp::Round { scale } => snap_or_zero(x, scale, Rounding::HalfAway),
            LookupOp::RoundHalfToEven { scale } => snap_or_zero(x, scale, Rounding::HalfEven),
            LookupOp::Div { denom } => divide_or_zero(x, denom),
            LookupOp::Cast { scale } => divide_or_zero(x, scale),
            LookupOp::LeakyReLU { slope } => Ok(
                if x >= 0 {
                    x
                } else {
                    times(x, slope)
                },
            ),
            LookupOp::KroneckerDelta => Ok(
                if x == 0 {
                    1
                } else {
                    0
                },
            ),
            _ => Err(LookupError::Approximate),
        }
    }
}

/// `snap(x, m, mode)`, or the error for a zero multiplier.
pub open spec fn snap_or_zero(x: int, m: Multiplier, mode: Rounding) -> Result<int, LookupError> {
    if m.units == 0 {
        Err(LookupError::ZeroMultiplier)
    } else {
        Ok(snap(x, m, mode))
    }
}

/// `x / m` rounded half away from zero, or the error for a zero multiplier.
pub open spec fn divide_or_zero(x: int, m: Multiplier) -> Result<int, LookupError> {
    if m.units == 0 {
        Err(LookupError::ZeroMultiplier)
    } else {
        Ok(quotient(x, m, Rounding::HalfAway))
    }
}

/// What the operation maps the integer that `f` encodes to.
pub open spec fn forward_felt(op: LookupOp, f: Felt) -> Result<int, LookupError> {
    match decode_spec(f.value()) {
        Some(x) => forward_spec(op, x),
        None => Err(LookupError::OutOfRange),
    }
}

/// `x / m` rounded by `mode`, and the bound on the quotient times `m`.
fn quotient_exec(x: IntegerRep, m: &Multiplier, mode: Rounding) -> (r: IntegerRep)
    requires
        in_domain(x as int),
        m.wf(),
        m.units != 0,
    ensures
        r == quotient(x as int, *m, mode),
        -0x4000_0000_0000_0000_0000_0000_0000_0000 <= r * m.units
            <= 0x4000_0000_0000_0000_0000_0000_0000_0000,
{
    let d: u64 = m.denominator();
    proof {
        lemma_pow10_18();
        lemma_pow10_mono(m.places as nat, 18);
        assert(-0x0800_0000_0000_0000_0000_0000_0000_0000 <= x * d
            <= 0x0800_0000_0000_0000_0000_0000_0000_0000) by (nonlinear_arith)
            requires
                -(i64::MAX as int) <= x <= i64::MAX,
                1 <= d <= 1_000_000_000_000_000_000u64,
        ;
    }
    let xd: i128 = x * (d as i128);
    let u: i128 = m.units as i128;
    if u < 0 {
        let q = div_rounded(-xd, -u, mode);
        proof {
            assert(-xd == -x * m.denom()) by (nonlinear_arith)
                requires
                    xd == x * d,
                    d == m.denom(),
            ;
            assert(-0x4000_0000_0000_0000_0000_0000_0000_0000 <= q * m.units
                <= 0x4000_0000_0000_0000_0000_0000_0000_0000) by (nonlinear_arith)
                requires
                    -xd - (-u) <= q * (-u) <= -xd + (-u),
                    u == m.units,
                    -0x0800_0000_0000_0000_0000_0000_0000_0000 <= xd
                        <= 0x0800_0000_0000_0000_0000_0000_0000_0000,
                    -0x8000_0000_0000_0000 <= u < 0,
            ;
        }
        q
    } else {
        let q = div_rounded(xd, u, mode);
        proof {
            assert(-0x4000_0000_0000_0000_0000_0000_0000_0000 <= q * m.units
                <= 0x4000_0000_0000_0000_0000_0000_0000_0000) by (nonlinear_arith)
                requires
                    xd - u <= q * u <= xd + u,
                    u == m.units,
                    -0x0800_0000_0000_0000_0000_0000_0000_0000 <= xd
                        <= 0x0800_0000_0000_0000_0000_0000_0000_0000,
                    0 < u <= 0x7fff_ffff_ffff_ffff,
            ;
        }
        q
    }
}

/// `snap(x, m, mode)`.
fn snap_exec(x: IntegerRep, m: &Multiplier, mode: Rounding) -> (r: IntegerRep)
    requires
        in_domain(x as int),
        m.wf(),
        m.units != 0,
    ensures
        r == snap(x as int, *m, mode),
{
    let q = quotient_exec(x, m, mode);
    let qu: i128 = q * (m.units as i128);
    let d: u64 = m.denominator();
    proof {
        lemma_pow10_18();
        lemma_pow10_mono(m.places as nat, 18);
    }
    div_rounded(qu, d as i128, Rounding::Trunc)
}

impl LookupOp {
    /// Applies the operation to one integer.
    pub fn forward(&self, x: IntegerRep) -> (r: Result<IntegerRep, LookupError>)
        ensures
            match r {
                Ok(v) => forward_spec(*self, x as int) == Ok::<int, LookupError>(v as int),
                Err(e) => forward_spec(*self, x as int) == Err::<int, LookupError>(e),
            },
    {
        if x < -0x7fff_ffff_ffff_ffff || x > 0x7fff_ffff_ffff_ffff {
            return Err(LookupError::OutOfRange);
        }
        if !self.is_wf() {
            return Err(LookupError::Precision);
        }
        match self {
            LookupOp::Ceil { scale } => snap_checked(x, scale, Rounding::Ceil),
            LookupOp::Floor { scale } => snap_checked(x, scale, Rounding::Floor),
            LookupOp::Round { scale } => snap_checked(x, scale, Rounding::HalfAway),
            LookupOp::RoundHalfToEven { scale } => snap_checked(x, scale, Rounding::HalfEven),
            LookupOp::Div { denom } => divide_checked(x, denom),
            LookupOp::Cast { scale } => divide_checked(x, scale),
            LookupOp::LeakyReLU { slope } => {
                if x >= 0 {
                    Ok(x)
                } else {
                    let d: u64 = slope.denominator();
                    proof {
                        lemma_pow10_18();
                        lemma_pow10_mono(slope.places as nat, 18);
                        assert(-0x4000_0000_0000_0000_0000_0000_0000_0000 <= x * slope.units
                            <= 0x4000_0000_0000_0000_0000_0000_0000_0000) by (nonlinear_arith)
                            requires
                                -(i64::MAX as int) <= x <= i64::MAX,
                                i64::MIN <= slope.units <= i64::MAX,
                        ;
                    }
                    Ok(div_rounded(x * (slope.units as i128), d as i128, Rounding::HalfAway))
                }
            },
            LookupOp::KroneckerDelta => Ok(
                if x == 0 {
                    1
                } else {
                    0
                },
            ),
            _ => Err(LookupError::Approximate),
        }
    }
}

impl LookupOp {
    /// Evaluates the operation on its single input tensor of field elements:
    /// each element is decoded, mapped by `forward_spec` and encoded again.
    pub fn f(&self, x: &[Vec<Felt>]) -> (r: Result<ForwardResult, LookupError>)
        ensures
            x@.len() != 1 ==> r == Err::<ForwardResult, LookupError>(LookupError::Shape),
            x@.len() == 1 && !self.is_exact_spec() ==> r == Err::<ForwardResult, LookupError>(
                LookupError::Approximate,
            ),
            x@.len() == 1 && self.is_exact_spec() ==> match r {
                Ok(res) => {
                    &&& res.output@.len() == x@[0]@.len()
                    &&& forall|i: int|
                        0 <= i < x@[0]@.len() ==> {
                            &&& forward_felt(*self, #[trigger] x@[0]@[i]) is Ok
                            &&& res.output@[i].wf()
                            &&& res.output@[i].value() == encode_spec(
                                forward_felt(*self, x@[0]@[i])->Ok_0,
                            )
                        }
                },
                Err(e) => exists|i: int|
                    0 <= i < x@[0]@.len() && forward_felt(*self, #[trigger] x@[0]@[i]) == Err::<
                        int,
                        LookupError,
                    >(e),
            },
    {
        if x.len() != 1 {
            return Err(LookupError::Shape);
        }
        if !self.is_exact() {
            return Err(LookupError::Approximate);
        }
        let input: &Vec<Felt> = &x[0];
        let mut output: Vec<Felt> = Vec::new();
        let mut i: usize = 0;
        while i < input.len()
            invariant
                self.is_exact_spec(),
                x@.len() == 1,
                input@ == x@[0]@,
                i <= input@.len(),
                output@.len() == i,
                forall|j: int|
                    0 <= j < i ==> {
                        &&& forward_felt(*self, #[trigger] input@[j]) is Ok
                        &&& output@[j].wf()
                        &&& output@[j].value() == encode_spec(forward_felt(*self, input@[j])->Ok_0)
                    },
            decreases input@.len() - i,
        {
            let v = match felt_to_integer_rep(&input[i]) {
                Some(v) => v,
                None => {
                    return Err(LookupError::OutOfRange);
                },
            };
            match self.forward(v) {
                Ok(y) => {
                    output.push(integer_rep_to_felt(y));
                },
                Err(e) => {
                    return Err(e);
                },
            }
            i = i + 1;
        }
        Ok(ForwardResult { output })
    }
}

/// The operation divides by a multiplier that is zero.
pub open spec fn has_zero_divisor(op: LookupOp) -> bool {
    match op {
        LookupOp::Div { denom } => denom.units == 0,
        LookupOp::Cast { scale } => scale.units == 0,
        LookupOp::Ceil { scale } => scale.units == 0,
        LookupOp::Floor { scale } => scale.units == 0,
        LookupOp::Round { scale } => scale.units == 0,
        LookupOp::RoundHalfToEven { scale } => scale.units == 0,
        _ => false,
    }
}

/// An exactly evaluated operation that divides by no zero multiplier has
/// a value at every integer of every table's range, so its tables have
/// no gaps.
pub proof fn lemma_table_dense(op: LookupOp, max_len: usize, x: int)
    requires
        max_len >= 1,
        -half_range(max_len as nat) <= x <= half_range(max_len as nat),
        op.wf(),
        op.is_exact_spec(),
        !has_zero_divisor(op),
    ensures
        forward_spec(op, x) is Ok,
{
}

/// For a positive multiplier, `Floor` never rises above its input and
/// `Ceil` never falls below it, over the whole domain of the tables.
pub proof fn lemma_floor_ceil_bracket(m: Multiplier, x: int)
    requires
        m.wf(),
        m.units > 0,
        in_domain(x),
    ensures
        forward_spec(LookupOp::Floor { scale: m }, x) is Ok,
        forward_spec(LookupOp::Ceil { scale: m }, x) is Ok,
        forward_spec(LookupOp::Floor { scale: m }, x)->Ok_0 <= x,
        x <= forward_spec(LookupOp::Ceil { scale: m }, x)->Ok_0,
{
    let d = m.denom() as int;
    let u = m.units as int;
    lemma_pow10_mono(m.places as nat, m.places as nat);
    let a = x * d;
    vstd::arithmetic::div_mod::lemma_fundamental_div_mod(a, u);
    let qf = a / u;
    let r = a % u;
    let qc = round_div(a, u, Rounding::Ceil);
    assert(qf * u <= x * d) by (nonlinear_arith)
        requires
            a == u * qf + r,
            0 <= r,
            a == x * d,
    ;
    assert(qc * u >= x * d) by (nonlinear_arith)
        requires
            a == u * qf + r,
            0 <= r < u,
            a == x * d,
            qc == if r == 0 { qf } else { qf + 1 },
    ;
    lemma_trunc_bounds(qf * u, d, x);
    lemma_trunc_bounds(qc * u, d, x);
}

/// Truncating `v / d` keeps it on the side of the integer `x` that `v`
/// is on, relative to `x * d`.
proof fn lemma_trunc_bounds(v: int, d: int, x: int)
    requires
        d > 0,
    ensures
        v <= x * d ==> round_div(v, d, Rounding::Trunc) <= x,
        v >= x * d ==> round_div(v, d, Rounding::Trunc) >= x,
{
    vstd::arithmetic::div_mod::lemma_fundamental_div_mod(v, d);
    let q = v / d;
    let r = v % d;
    if v <= x * d {
        assert(q <= x) by (nonlinear_arith)
            requires
                v == d * q + r,
                0 <= r < d,
                v <= x * d,
        ;
        if v < 0 && r != 0 {
            assert(q + 1 <= x) by (nonlinear_arith)
                requires
                    v == d * q + r,
                    0 < r < d,
                    v <= x * d,
            ;
        }
    }
    if v >= x * d {
        assert(q >= x || (q + 1 >= x && r != 0)) by (nonlinear_arith)
            requires
                v == d * q + r,
                0 <= r < d,
                v >= x * d,
        ;
        if !(v < 0 && r != 0) {
            assert(q >= x) by (nonlinear_arith)
                requires
                    v == d * q + r,
                    0 <= r < d,
                    v >= x * d,
                    v >= 0 || r == 0,
            ;
        }
    }
}

/// `snap_or_zero` on machine integers.
fn snap_checked(x: IntegerRep, m: &Multiplier, mode: Rounding) -> (r: Result<IntegerRep, LookupError>)
    requires
        in_domain(x as int),
        m.wf(),
    ensures
        match r {
            Ok(v) => snap_or_zero(x as int, *m, mode) == Ok::<int, LookupError>(v as int),
            Err(e) => snap_or_zero(x as int, *m, mode) == Err::<int, LookupError>(e),
        },
{
    if m.units == 0 {
        Err(LookupError::ZeroMultiplier)
    } else {
        Ok(snap_exec(x, m, mode))
    }
}

/// `divide_or_zero` on machine integers.
fn divide_checked(x: IntegerRep, m: &Multiplier) -> (r: Result<IntegerRep, LookupError>)
    requires
        in_domain(x as int),
        m.wf(),
    ensures
        match r {
            Ok(v) => divide_or_zero(x as int, *m) == Ok::<int, LookupError>(v as int),
            Err(e) => divide_or_zero(x as int, *m) == Err::<int, LookupError>(e),
        },
{
    if m.units == 0 {
        Err(LookupError::ZeroMultiplier)
    } else {
        Ok(quotient_exec(x, m, Rounding::HalfAway))
    }
}

} // verus!
