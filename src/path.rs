//! Canonical identifiers and display names of operations.
use vstd::prelude::*;
use vstd::string::*;

use crate::op::LookupOp;
use crate::text::{multiplier_text, write_multiplier};
use crate::multiplier::Multiplier;

verus! {

/// The canonical path: the variant's lower-case name, then each parameter
/// in decimal, joined by underscores.
pub open spec fn path_spec(op: LookupOp) -> Seq<char> {
    match op {
        LookupOp::Div { denom } => "div_"@ + multiplier_text(denom),
        LookupOp::Cast { scale } => "cast_"@ + multiplier_text(scale),
        LookupOp::Ceil { scale } => "ceil_"@ + multiplier_text(scale),
        LookupOp::Floor { scale } => "floor_"@ + multiplier_text(scale),
        LookupOp::Round { scale } => "round_"@ + multiplier_text(scale),
        LookupOp::RoundHalfToEven { scale } => "round_half_to_even_"@ + multiplier_text(scale),
        LookupOp::Sqrt { scale } => "sqrt_"@ + multiplier_text(scale),
        LookupOp::Rsqrt { scale } => "rsqrt_"@ + multiplier_text(scale),
        LookupOp::LeakyReLU { slope } => "leaky_relu_"@ + multiplier_text(slope),
        LookupOp::Sigmoid { scale } => "sigmoid_"@ + multiplier_text(scale),
        LookupOp::Ln { scale } => "ln_"@ + multiplier_text(scale),
        LookupOp::Exp { scale } => "exp_"@ + multiplier_text(scale),
        LookupOp::Cos { scale } => "cos_"@ + multiplier_text(scale),
        LookupOp::ACos { scale } => "acos_"@ + multiplier_text(scale),
        LookupOp::Cosh { scale } => "cosh_"@ + multiplier_text(scale),
        LookupOp::ACosh { scale } => "acosh_"@ + multiplier_text(scale),
        LookupOp::Sin { scale } => "sin_"@ + multiplier_text(scale),
        LookupOp::ASin { scale } => "asin_"@ + multiplier_text(scale),
        LookupOp::Sinh { scale } => "sinh_"@ + multiplier_text(scale),
        LookupOp::ASinh { scale } => "asinh_"@ + multiplier_text(scale),
        LookupOp::Tan { scale } => "tan_"@ + multiplier_text(scale),
        LookupOp::ATan { scale } => "atan_"@ + multiplier_text(scale),
        LookupOp::Tanh { scale } => "tanh_"@ + multiplier_text(scale),
        LookupOp::ATanh { scale } => "atanh_"@ + multiplier_text(scale),
        LookupOp::Erf { scale } => "erf_"@ + multiplier_text(scale),
        LookupOp::HardSwish { scale } => "hardswish_"@ + multiplier_text(scale),
        LookupOp::Recip { input_scale, output_scale } => "recip_"@ + multiplier_text(input_scale)
            + "_"@ + multiplier_text(output_scale),
        LookupOp::Pow { scale, a } => "pow_"@ + multiplier_text(scale) + "_"@ + multiplier_text(a),
        LookupOp::KroneckerDelta => "kronecker_delta"@,
    }
}

/// The display name: an upper-case mnemonic with the parameters named.
pub open spec fn display_spec(op: LookupOp) -> Seq<char> {
    match op {
        LookupOp::Div { denom } => "DIV(denom="@ + multiplier_text(denom) + ")"@,
        LookupOp::Cast { scale } => "CAST(scale="@ + multiplier_text(scale) + ")"@,
        LookupOp::Ceil { scale } => "CEIL(scale="@ + multiplier_text(scale) + ")"@,
        LookupOp::Floor { scale } => "FLOOR(scale="@ + multiplier_text(scale) + ")"@,
        LookupOp::Round { scale } => "ROUND(scale="@ + multiplier_text(scale) + ")"@,
        LookupOp::RoundHalfToEven { scale } => "ROUND_HALF_TO_EVEN(scale="@ + multiplier_text(scale) + ")"@,
        LookupOp::Sqrt { scale } => "SQRT(scale="@ + multiplier_text(scale) + ")"@,
        LookupOp::Rsqrt { scale } => "RSQRT(scale="@ + multiplier_text(scale) + ")"@,
        LookupOp::LeakyReLU { slope } => "L_RELU(slope="@ + multiplier_text(slope) + ")"@,
        LookupOp::Sigmoid { scale } => "SIGMOID(scale="@ + multiplier_text(scale) + ")"@,
        LookupOp::Ln { scale } => "LN(scale="@ + multiplier_text(scale) + ")"@,
        LookupOp::Exp { scale } => "EXP(scale="@ + multiplier_text(scale) + ")"@,
        LookupOp::Cos { scale } => "COS(scale="@ + multiplier_text(scale) + ")"@,
        LookupOp::ACos { scale } => "ACOS(scale="@ + multiplier_text(scale) + ")"@,
        LookupOp::Cosh { scale } => "COSH(scale="@ + multiplier_text(scale) + ")"@,
        LookupOp::ACosh { scale } => "ACOSH(scale="@ + multiplier_text(scale) + ")"@,
        LookupOp::Sin { scale } => "SIN(scale="@ + multiplier_text(scale) + ")"@,
        LookupOp::ASin { scale } => "ASIN(scale="@ + multiplier_text(scale) + ")"@,
        LookupOp::Sinh { scale } => "SINH(scale="@ + multiplier_text(scale) + ")"@,
        LookupOp::ASinh { scale } => "ASINH(scale="@ + multiplier_text(scale) + ")"@,
        LookupOp::Tan { scale } => "TAN(scale="@ + multiplier_text(scale) + ")"@,
        LookupOp::ATan { scale } => "ATAN(scale="@ + multiplier_text(scale) + ")"@,
        LookupOp::Tanh { scale } => "TANH(scale="@ + multiplier_text(scale) + ")"@,
        LookupOp::ATanh { scale } => "ATANH(scale="@ + multiplier_text(scale) + ")"@,
        LookupOp::Erf { scale } => "ERF(scale="@ + multiplier_text(scale) + ")"@,
        LookupOp::HardSwish { scale } => "HARDSWISH(scale="@ + multiplier_text(scale) + ")"@,
        LookupOp::Recip { input_scale, output_scale } => "RECIP(input_scale="@ + multiplier_text(
            input_scale,
        ) + ", output_scale="@ + multiplier_text(output_scale) + ")"@,
        LookupOp::Pow { scale, a } => "POW(scale="@ + multiplier_text(scale) + ", exponent="@
            + multiplier_text(a) + ")"@,
        LookupOp::KroneckerDelta => "K_DELTA"@,
    }
}

/// `head`, then `m` in decimal, then `tail`.
fn text_one(head: &str, m: &Multiplier, tail: &str) -> (r: String)
    ensures
        r@ == head@ + multiplier_text(*m) + tail@,
{
    let mut s = String::from_str(head);
    write_multiplier(&mut s, m);
    s.append(tail);
    s
}

/// `head`, `a` in decimal, `mid`, `b` in decimal, then `tail`.
fn text_two(head: &str, a: &Multiplier, mid: &str, b: &Multiplier, tail: &str) -> (r: String)
    ensures
        r@ == head@ + multiplier_text(*a) + mid@ + multiplier_text(*b) + tail@,
{
    let mut s = String::from_str(head);
    write_multiplier(&mut s, a);
    s.append(mid);
    write_multiplier(&mut s, b);
    s.append(tail);
    s
}

impl LookupOp {
    /// The canonical path of the operation, a key for caching its table.
    pub fn as_path(&self) -> (r: String)
        ensures
            r@ == path_spec(*self),
    {
        proof {
            reveal_strlit("");
        }
        let r = match self {
            LookupOp::Div { denom } => text_one("div_", denom, ""),
            LookupOp::Cast { scale } => text_one("cast_", scale, ""),
            LookupOp::Ceil { scale } => text_one("ceil_", scale, ""),
            LookupOp::Floor { scale } => text_one("floor_", scale, ""),
            LookupOp::Round { scale } => text_one("round_", scale, ""),
            LookupOp::RoundHalfToEven { scale } => text_one("round_half_to_even_", scale, ""),
            LookupOp::Sqrt { scale } => text_one("sqrt_", scale, ""),
            LookupOp::Rsqrt { scale } => text_one("rsqrt_", scale, ""),
            LookupOp::LeakyReLU { slope } => text_one("leaky_relu_", slope, ""),
            LookupOp::Sigmoid { scale } => text_one("sigmoid_", scale, ""),
            LookupOp::Ln { scale } => text_one("ln_", scale, ""),
            LookupOp::Exp { scale } => text_one("exp_", scale, ""),
            LookupOp::Cos { scale } => text_one("cos_", scale, ""),
            LookupOp::ACos { scale } => text_one("acos_", scale, ""),
            LookupOp::Cosh { scale } => text_one("cosh_", scale, ""),
            LookupOp::ACosh { scale } => text_one("acosh_", scale, ""),
            LookupOp::Sin { scale } => text_one("sin_", scale, ""),
            LookupOp::ASin { scale } => text_one("asin_", scale, ""),
            LookupOp::Sinh { scale } => text_one("sinh_", scale, ""),
            LookupOp::ASinh { scale } => text_one("asinh_", scale, ""),
            LookupOp::Tan { scale } => text_one("tan_", scale, ""),
            LookupOp::ATan { scale } => text_one("atan_", scale, ""),
            LookupOp::Tanh { scale } => text_one("tanh_", scale, ""),
            LookupOp::ATanh { scale } => text_one("atanh_", scale, ""),
            LookupOp::Erf { scale } => text_one("erf_", scale, ""),
            LookupOp::HardSwish { scale } => text_one("hardswish_", scale, ""),
            LookupOp::Recip { input_scale, output_scale } => text_two(
                "recip_",
                input_scale,
                "_",
                output_scale,
                "",
            ),
            LookupOp::Pow { scale, a } => text_two("pow_", scale, "_", a, ""),
            LookupOp::KroneckerDelta => String::from_str("kronecker_delta"),
        };
        proof {
            assert(r@ =~= path_spec(*self));
        }
        r
    }

    /// The name of the operation for diagnostics; not necessarily unique.
    pub fn as_string(&self) -> (r: String)
        ensures
            r@ == display_spec(*self),
    {
        match self {
            LookupOp::Div { denom } => text_one("DIV(denom=", denom, ")"),
            LookupOp::Cast { scale } => text_one("CAST(scale=", scale, ")"),
            LookupOp::Ceil { scale } => text_one("CEIL(scale=", scale, ")"),
            LookupOp::Floor { scale } => text_one("FLOOR(scale=", scale, ")"),
            LookupOp::Round { scale } => text_one("ROUND(scale=", scale, ")"),
            LookupOp::RoundHalfToEven { scale } => text_one("ROUND_HALF_TO_EVEN(scale=", scale, ")"),
            LookupOp::Sqrt { scale } => text_one("SQRT(scale=", scale, ")"),
            LookupOp::Rsqrt { scale } => text_one("RSQRT(scale=", scale, ")"),
            LookupOp::LeakyReLU { slope } => text_one("L_RELU(slope=", slope, ")"),
            LookupOp::Sigmoid { scale } => text_one("SIGMOID(scale=", scale, ")"),
            LookupOp::Ln { scale } => text_one("LN(scale=", scale, ")"),
            LookupOp::Exp { scale } => text_one("EXP(scale=", scale, ")"),
            LookupOp::Cos { scale } => text_one("COS(scale=", scale, ")"),
            LookupOp::ACos { scale } => text_one("ACOS(scale=", scale, ")"),
            LookupOp::Cosh { scale } => text_one("COSH(scale=", scale, ")"),
            LookupOp::ACosh { scale } => text_one("ACOSH(scale=", scale, ")"),
            LookupOp::Sin { scale } => text_one("SIN(scale=", scale, ")"),
            LookupOp::ASin { scale } => text_one("ASIN(scale=", scale, ")"),
            LookupOp::Sinh { scale } => text_one("SINH(scale=", scale, ")"),
            LookupOp::ASinh { scale } => text_one("ASINH(scale=", scale, ")"),
            LookupOp::Tan { scale } => text_one("TAN(scale=", scale, ")"),
            LookupOp::ATan { scale } => text_one("ATAN(scale=", scale, ")"),
            LookupOp::Tanh { scale } => text_one("TANH(scale=", scale, ")"),
            LookupOp::ATanh { scale } => text_one("ATANH(scale=", scale, ")"),
            LookupOp::Erf { scale } => text_one("ERF(scale=", scale, ")"),
            LookupOp::HardSwish { scale } => text_one("HARDSWISH(scale=", scale, ")"),
            LookupOp::Recip { input_scale, output_scale } => text_two(
                "RECIP(input_scale=",
                input_scale,
                ", output_scale=",
                output_scale,
                ")",
            ),
            LookupOp::Pow { scale, a } => text_two("POW(scale=", scale, ", exponent=", a, ")"),
            LookupOp::KroneckerDelta => String::from_str("K_DELTA"),
        }
    }
}

} // verus!
