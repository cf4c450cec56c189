//! Catalog of nonlinear lookup operations for a fixed-point arithmetic
//! circuit: the operations and their parameters, the integer domain of
//! their tables, the forward evaluator over field-encoded values, output
//! scale propagation and canonical identifiers.
use vstd::prelude::*;

pub mod multiplier;
pub mod op;
pub mod field;
pub mod rounding;
pub mod eval;
pub mod scale;
pub mod text;
pub mod path;
pub mod injective;

verus! {

/// The signed integer that a field element encodes.
pub type IntegerRep = i128;

/// An inclusive `(min, max)` pair of integers.
pub type Range = (IntegerRep, IntegerRep);

/// A fixed-point scale: the base-2 exponent of a quantization multiplier.
pub type Scale = i32;

} // verus!

pub use eval::{ForwardResult, LookupError};
pub use field::{felt_to_integer_rep, integer_rep_to_felt, Felt};
pub use multiplier::Multiplier;
pub use op::LookupOp;
pub use scale::multiplier_to_scale;
