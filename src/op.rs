//! The closed set of lookup operations and the domain of their tables.
use vstd::prelude::*;

use crate::multiplier::Multiplier;
use crate::{IntegerRep, Range};

verus! {

/// A nonlinear operation that a circuit expresses through a lookup table.
#[derive(Clone, Copy, Debug, PartialEq, Eq, Structural, Hash, PartialOrd, Ord)]
pub enum LookupOp {
    Div { denom: Multiplier },
    Cast { scale: Multiplier },
    Ceil { scale: Multiplier },
    Floor { scale: Multiplier },
    Round { scale: Multiplier },
    RoundHalfToEven { scale: Multiplier },
    Sqrt { scale: Multiplier },
    Rsqrt { scale: Multiplier },
    Recip { input_scale: Multiplier, output_scale: Multiplier },
    LeakyReLU { slope: Multiplier },
    Sigmoid { scale: Multiplier },
    Ln { scale: Multiplier },
    Exp { scale: Multiplier },
    Cos { scale: Multiplier },
    ACos { scale: Multiplier },
    Cosh { scale: Multiplier },
    ACosh { scale: Multiplier },
    Sin { scale: Multiplier },
    ASin { scale: Multiplier },
    Sinh { scale: Multiplier },
    ASinh { scale: Multiplier },
    Tan { scale: Multiplier },
    ATan { scale: Multiplier },
    Tanh { scale: Multiplier },
    ATanh { scale: Multiplier },
    Erf { scale: Multiplier },
    KroneckerDelta,
    Pow { scale: Multiplier, a: Multiplier },
    HardSwish { scale: Multiplier },
}

/// Half the width of a table with `max_len` rows: `floor((max_len - 1) / 2)`.
pub open spec fn half_range(max_len: nat) -> int {
    (max_len - 1) / 2
}

impl LookupOp {
    /// The inclusive range of integers that a table of `max_len` rows covers:
    /// symmetric around zero, one value short on the positive side when
    /// `max_len` is even.
    pub fn bit_range(max_len: usize) -> (r: Range)
        requires
            max_len >= 1,
        ensures
            r.0 == -half_range(max_len as nat),
            r.1 == half_range(max_len as nat),
    {
        let half = ((max_len - 1) / 2) as IntegerRep;
        (-half, half)
    }
}

} // verus!

verus! {

impl LookupOp {
    /// Every multiplier of the operation has at most `MAX_PLACES` places.
    pub open spec fn wf(&self) -> bool {
        match *self {
            LookupOp::Div { denom } => denom.wf(),
            LookupOp::Cast { scale } => scale.wf(),
            LookupOp::Ceil { scale } => scale.wf(),
            LookupOp::Floor { scale } => scale.wf(),
            LookupOp::Round { scale } => scale.wf(),
            LookupOp::RoundHalfToEven { scale } => scale.wf(),
            LookupOp::Sqrt { scale } => scale.wf(),
            LookupOp::Rsqrt { scale } => scale.wf(),
            LookupOp::Recip { input_scale, output_scale } => input_scale.wf() && output_scale.wf(),
            LookupOp::LeakyReLU { slope } => slope.wf(),
            LookupOp::Sigmoid { scale } => scale.wf(),
            LookupOp::Ln { scale } => scale.wf(),
            LookupOp::Exp { scale } => scale.wf(),
            LookupOp::Cos { scale } => scale.wf(),
            LookupOp::ACos { scale } => scale.wf(),
            LookupOp::Cosh { scale } => scale.wf(),
            LookupOp::ACosh { scale } => scale.wf(),
            LookupOp::Sin { scale } => scale.wf(),
            LookupOp::ASin { scale } => scale.wf(),
            LookupOp::Sinh { scale } => scale.wf(),
            LookupOp::ASinh { scale } => scale.wf(),
            LookupOp::Tan { scale } => scale.wf(),
            LookupOp::ATan { scale } => scale.wf(),
            LookupOp::Tanh { scale } => scale.wf(),
            LookupOp::ATanh { scale } => scale.wf(),
            LookupOp::Erf { scale } => scale.wf(),
            LookupOp::KroneckerDelta => true,
            LookupOp::Pow { scale, a } => scale.wf() && a.wf(),
            LookupOp::HardSwish { scale } => scale.wf(),
        }
    }

    /// Whether every multiplier of the operation has at most `MAX_PLACES`
    /// places.
    pub fn is_wf(&self) -> (r: bool)
        ensures
            r == self.wf(),
    {
        match *self {
            LookupOp::Div { denom } => denom.is_wf(),
            LookupOp::Cast { scale } => scale.is_wf(),
            LookupOp::Ceil { scale } => scale.is_wf(),
            LookupOp::Floor { scale } => scale.is_wf(),
            LookupOp::Round { scale } => scale.is_wf(),
            LookupOp::RoundHalfToEven { scale } => scale.is_wf(),
            LookupOp::Sqrt { scale } => scale.is_wf(),
            LookupOp::Rsqrt { scale } => scale.is_wf(),
            LookupOp::Recip { input_scale, output_scale } => input_scale.is_wf() && output_scale.is_wf(),
            LookupOp::LeakyReLU { slope } => slope.is_wf(),
            LookupOp::Sigmoid { scale } => scale.is_wf(),
            LookupOp::Ln { scale } => scale.is_wf(),
            LookupOp::Exp { scale } => scale.is_wf(),
            LookupOp::Cos { scale } => scale.is_wf(),
            LookupOp::ACos { scale } => scale.is_wf(),
            LookupOp::Cosh { scale } => scale.is_wf(),
            LookupOp::ACosh { scale } => scale.is_wf(),
            LookupOp::Sin { scale } => scale.is_wf(),
            LookupOp::ASin { scale } => scale.is_wf(),
            LookupOp::Sinh { scale } => scale.is_wf(),
            LookupOp::ASinh { scale } => scale.is_wf(),
            LookupOp::Tan { scale } => scale.is_wf(),
            LookupOp::ATan { scale } => scale.is_wf(),
            LookupOp::Tanh { scale } => scale.is_wf(),
            LookupOp::ATanh { scale } => scale.is_wf(),
            LookupOp::Erf { scale } => scale.is_wf(),
            LookupOp::KroneckerDelta => true,
            LookupOp::Pow { scale, a } => scale.is_wf() && a.is_wf(),
            LookupOp::HardSwish { scale } => scale.is_wf(),
        }
    }

    /// The operation is evaluated by exact integer arithmetic in this
    /// library; the others approximate a continuous function in floating
    /// point.
    pub open spec fn is_exact_spec(&self) -> bool {
        match *self {
            LookupOp::Div { .. } | LookupOp::Cast { .. } | LookupOp::Ceil { .. }
            | LookupOp::Floor { .. } | LookupOp::Round { .. } | LookupOp::RoundHalfToEven { .. }
            | LookupOp::LeakyReLU { .. } | LookupOp::KroneckerDelta => true,
            _ => false,
        }
    }

    /// Whether the operation is evaluated by exact integer arithmetic.
    pub fn is_exact(&self) -> (r: bool)
        ensures
            r == self.is_exact_spec(),
    {
        match self {
            LookupOp::Div { .. } | LookupOp::Cast { .. } | LookupOp::Ceil { .. }
            | LookupOp::Floor { .. } | LookupOp::Round { .. } | LookupOp::RoundHalfToEven { .. }
            | LookupOp::LeakyReLU { .. } | LookupOp::KroneckerDelta => true,
            _ => false,
        }
    }
}

} // verus!
