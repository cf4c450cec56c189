//! Distinct operations have distinct canonical paths.
use vstd::prelude::*;

use crate::multiplier::{lemma_pow10_mono, pow10, Multiplier};
use crate::op::LookupOp;
use crate::path::path_spec;
use crate::text::{digit_char, magnitude, multiplier_text, nat_text, padded_text};

verus! {

/// A decimal digit.
pub open spec fn is_digit(c: char) -> bool {
    '0' <= c && c <= '9'
}

proof fn lemma_digit_char(d: nat, e: nat)
    requires
        d < 10,
        e < 10,
    ensures
        is_digit(digit_char(d)),
        digit_char(d) == digit_char(e) ==> d == e,
{
}

/// When `head1 + r1 == head2 + r2`, every character of `head1` and `head2` is kept by
/// `keep`, and neither `r1` nor `r2` starts with one that is, the two
/// splits are the same.
pub proof fn lemma_split(
    head1: Seq<char>,
    r1: Seq<char>,
    head2: Seq<char>,
    r2: Seq<char>,
    keep: spec_fn(char) -> bool,
)
    requires
        head1 + r1 == head2 + r2,
        forall|i: int| 0 <= i < head1.len() ==> keep(#[trigger] head1[i]),
        forall|i: int| 0 <= i < head2.len() ==> keep(#[trigger] head2[i]),
        r1.len() > 0 ==> !keep(r1[0]),
        r2.len() > 0 ==> !keep(r2[0]),
    ensures
        head1 == head2,
        r1 == r2,
{
    let s = head1 + r1;
    if head1.len() < head2.len() {
        assert(s[head1.len() as int] == head2[head1.len() as int]);
        assert(s[head1.len() as int] == r1[0]);
    } else if head2.len() < head1.len() {
        assert(s[head2.len() as int] == head1[head2.len() as int]);
        assert((head2 + r2)[head2.len() as int] == r2[0]);
    } else {
        assert(head1 =~= s.subrange(0, head1.len() as int));
        assert(head2 =~= (head2 + r2).subrange(0, head2.len() as int));
        assert(r1 =~= s.subrange(head1.len() as int, s.len() as int));
        assert(r2 =~= (head2 + r2).subrange(head2.len() as int, s.len() as int));
    }
}

proof fn lemma_nat_text_digits(n: nat)
    ensures
        nat_text(n).len() >= 1,
        forall|i: int| 0 <= i < nat_text(n).len() ==> is_digit(#[trigger] nat_text(n)[i]),
    decreases n,
{
    lemma_digit_char(n % 10, 0);
    if n >= 10 {
        lemma_nat_text_digits(n / 10);
    }
}

proof fn lemma_nat_text_injective(a: nat, b: nat)
    requires
        nat_text(a) == nat_text(b),
    ensures
        a == b,
    decreases a,
{
    lemma_digit_char(a % 10, b % 10);
    if a >= 10 && b >= 10 {
        let ta = nat_text(a);
        assert(ta[ta.len() - 1] == digit_char(a % 10));
        assert(nat_text(b)[ta.len() - 1] == digit_char(b % 10));
        assert(nat_text(a / 10) =~= ta.drop_last());
        assert(nat_text(b / 10) =~= nat_text(b).drop_last());
        lemma_nat_text_injective(a / 10, b / 10);
        vstd::arithmetic::div_mod::lemma_fundamental_div_mod(a as int, 10);
        vstd::arithmetic::div_mod::lemma_fundamental_div_mod(b as int, 10);
        assert(a % 10 == b % 10);
        assert(a == b);
    } else if a >= 10 {
        lemma_nat_text_digits(a / 10);
        assert(nat_text(a).len() >= 2);
        assert(false);
    } else if b >= 10 {
        lemma_nat_text_digits(b / 10);
        assert(nat_text(b).len() >= 2);
    } else {
        lemma_digit_char(a, b);
        assert(nat_text(a)[0] == digit_char(a));
        assert(nat_text(b)[0] == digit_char(b));
    }
}

proof fn lemma_padded_digits(n: nat, w: nat)
    ensures
        padded_text(n, w).len() == w,
        forall|i: int| 0 <= i < w ==> is_digit(#[trigger] padded_text(n, w)[i]),
    decreases w,
{
    if w > 0 {
        lemma_digit_char(n % 10, 0);
        lemma_padded_digits(n / 10, (w - 1) as nat);
    }
}

proof fn lemma_padded_injective(a: nat, b: nat, w: nat)
    requires
        a < pow10(w),
        b < pow10(w),
        padded_text(a, w) == padded_text(b, w),
    ensures
        a == b,
    decreases w,
{
    if w == 0 {
    } else {
        let ta = padded_text(a, w);
        lemma_padded_digits(a, w);
        assert(ta[w - 1] == digit_char(a % 10));
        assert(padded_text(b, w)[w - 1] == digit_char(b % 10));
        lemma_digit_char(a % 10, b % 10);
        assert(padded_text(a / 10, (w - 1) as nat) =~= ta.drop_last());
        assert(padded_text(b / 10, (w - 1) as nat) =~= padded_text(b, w).drop_last());
        assert(a / 10 < pow10((w - 1) as nat) && b / 10 < pow10((w - 1) as nat)) by {
            vstd::arithmetic::div_mod::lemma_fundamental_div_mod(a as int, 10);
            vstd::arithmetic::div_mod::lemma_fundamental_div_mod(b as int, 10);
        }
        lemma_padded_injective(a / 10, b / 10, (w - 1) as nat);
        vstd::arithmetic::div_mod::lemma_fundamental_div_mod(a as int, 10);
        vstd::arithmetic::div_mod::lemma_fundamental_div_mod(b as int, 10);
    }
}

/// The decimal text of a multiplier starts with a minus sign or a digit
/// and holds nothing but those and a point.
pub proof fn lemma_multiplier_text_chars(m: Multiplier)
    ensures
        multiplier_text(m).len() >= 1,
        multiplier_text(m)[0] == '-' || is_digit(multiplier_text(m)[0]),
        forall|i: int|
            0 <= i < multiplier_text(m).len() ==> {
                let c = #[trigger] multiplier_text(m)[i];
                c == '-' || c == '.' || is_digit(c)
            },
{
    lemma_pow10_mono(m.places as nat, m.places as nat);
    let d = m.denom();
    lemma_nat_text_digits(magnitude(m) / d);
    lemma_padded_digits(magnitude(m) % d, m.places as nat);
    let sign = if m.units < 0 {
        seq!['-']
    } else {
        Seq::empty()
    };
    let frac = if m.places == 0 {
        Seq::empty()
    } else {
        seq!['.'] + padded_text(magnitude(m) % d, m.places as nat)
    };
    let t = multiplier_text(m);
    let nt = nat_text(magnitude(m) / d);
    assert(t =~= sign + nt + frac);
    assert forall|i: int| 0 <= i < t.len() implies {
        let c = #[trigger] t[i];
        c == '-' || c == '.' || is_digit(c)
    } by {
        if i < sign.len() {
        } else if i < sign.len() + nt.len() {
            assert(t[i] == nt[i - sign.len()]);
        } else {
            assert(t[i] == frac[i - sign.len() - nt.len()]);
            if m.places != 0 && i > sign.len() + nt.len() {
                assert(frac[i - sign.len() - nt.len()] == padded_text(
                    magnitude(m) % d,
                    m.places as nat,
                )[i - sign.len() - nt.len() - 1]);
            }
        }
    }
    if m.units >= 0 {
        assert(t[0] == nt[0]);
    }
}

/// Distinct multipliers have distinct decimal texts.
pub proof fn lemma_multiplier_text_injective(m1: Multiplier, m2: Multiplier)
    requires
        multiplier_text(m1) == multiplier_text(m2),
    ensures
        m1 == m2,
{
    lemma_pow10_mono(m1.places as nat, m1.places as nat);
    lemma_pow10_mono(m2.places as nat, m2.places as nat);
    let d1 = m1.denom();
    let d2 = m2.denom();
    let i1 = magnitude(m1) / d1;
    let i2 = magnitude(m2) / d2;
    let f1 = magnitude(m1) % d1;
    let f2 = magnitude(m2) % d2;
    let s1 = if m1.units < 0 { seq!['-'] } else { Seq::empty() };
    let s2 = if m2.units < 0 { seq!['-'] } else { Seq::empty() };
    let fr1 = if m1.places == 0 {
        Seq::empty()
    } else {
        seq!['.'] + padded_text(f1, m1.places as nat)
    };
    let fr2 = if m2.places == 0 {
        Seq::empty()
    } else {
        seq!['.'] + padded_text(f2, m2.places as nat)
    };
    let n1 = nat_text(i1);
    let n2 = nat_text(i2);
    lemma_nat_text_digits(i1);
    lemma_nat_text_digits(i2);
    assert(multiplier_text(m1) =~= s1 + (n1 + fr1));
    assert(multiplier_text(m2) =~= s2 + (n2 + fr2));
    assert((n1 + fr1)[0] == n1[0]);
    assert((n2 + fr2)[0] == n2[0]);
    let is_minus = |c: char| c == '-';
    lemma_split(s1, n1 + fr1, s2, n2 + fr2, is_minus);
    let digit = |c: char| is_digit(c);
    lemma_split(n1, fr1, n2, fr2, digit);
    lemma_nat_text_injective(i1, i2);
    if m1.places != 0 || m2.places != 0 {
        assert(fr1.len() == fr2.len());
        lemma_padded_digits(f1, m1.places as nat);
        lemma_padded_digits(f2, m2.places as nat);
        assert(m1.places == m2.places);
        assert(padded_text(f1, m1.places as nat) =~= fr1.drop_first());
        assert(padded_text(f2, m2.places as nat) =~= fr2.drop_first());
        lemma_padded_injective(f1, f2, m1.places as nat);
    }
    assert(m1.places == m2.places);
    vstd::arithmetic::div_mod::lemma_fundamental_div_mod(magnitude(m1) as int, d1 as int);
    vstd::arithmetic::div_mod::lemma_fundamental_div_mod(magnitude(m2) as int, d2 as int);
    assert(magnitude(m1) == magnitude(m2));
    assert(s1.len() == s2.len());
}

} // verus!

verus! {

/// The variant's name in a path: the lower-case name and an underscore,
/// or the whole path for an operation without parameters.
pub open spec fn path_tag(op: LookupOp) -> Seq<char> {
    match op {
        LookupOp::Div { .. } => "div_"@,
        LookupOp::Cast { .. } => "cast_"@,
        LookupOp::Ceil { .. } => "ceil_"@,
        LookupOp::Floor { .. } => "floor_"@,
        LookupOp::Round { .. } => "round_"@,
        LookupOp::RoundHalfToEven { .. } => "round_half_to_even_"@,
        LookupOp::Sqrt { .. } => "sqrt_"@,
        LookupOp::Rsqrt { .. } => "rsqrt_"@,
        LookupOp::LeakyReLU { .. } => "leaky_relu_"@,
        LookupOp::Sigmoid { .. } => "sigmoid_"@,
        LookupOp::Ln { .. } => "ln_"@,
        LookupOp::Exp { .. } => "exp_"@,
        LookupOp::Cos { .. } => "cos_"@,
        LookupOp::ACos { .. } => "acos_"@,
        LookupOp::Cosh { .. } => "cosh_"@,
        LookupOp::ACosh { .. } => "acosh_"@,
        LookupOp::Sin { .. } => "sin_"@,
        LookupOp::ASin { .. } => "asin_"@,
        LookupOp::Sinh { .. } => "sinh_"@,
        LookupOp::ASinh { .. } => "asinh_"@,
        LookupOp::Tan { .. } => "tan_"@,
        LookupOp::ATan { .. } => "atan_"@,
        LookupOp::Tanh { .. } => "tanh_"@,
        LookupOp::ATanh { .. } => "atanh_"@,
        LookupOp::Erf { .. } => "erf_"@,
        LookupOp::HardSwish { .. } => "hardswish_"@,
        LookupOp::Recip { .. } => "recip_"@,
        LookupOp::Pow { .. } => "pow_"@,
        LookupOp::KroneckerDelta => "kronecker_delta"@,
    }
}

/// The parameters' part of a path.
pub open spec fn path_params(op: LookupOp) -> Seq<char> {
    match op {
        LookupOp::Recip { input_scale, output_scale } => multiplier_text(input_scale) + "_"@
            + multiplier_text(output_scale),
        LookupOp::Pow { scale, a } => multiplier_text(scale) + "_"@ + multiplier_text(a),
        LookupOp::KroneckerDelta => Seq::empty(),
        LookupOp::Div { denom } => multiplier_text(denom),
        LookupOp::Cast { scale } => multiplier_text(scale),
        LookupOp::Ceil { scale } => multiplier_text(scale),
        LookupOp::Floor { scale } => multiplier_text(scale),
        LookupOp::Round { scale } => multiplier_text(scale),
        LookupOp::RoundHalfToEven { scale } => multiplier_text(scale),
        LookupOp::Sqrt { scale } => multiplier_text(scale),
        LookupOp::Rsqrt { scale } => multiplier_text(scale),
        LookupOp::LeakyReLU { slope } => multiplier_text(slope),
        LookupOp::Sigmoid { scale } => multiplier_text(scale),
        LookupOp::Ln { scale } => multiplier_text(scale),
        LookupOp::Exp { scale } => multiplier_text(scale),
        LookupOp::Cos { scale } => multiplier_text(scale),
        LookupOp::ACos { scale } => multiplier_text(scale),
        LookupOp::Cosh { scale } => multiplier_text(scale),
        LookupOp::ACosh { scale } => multiplier_text(scale),
        LookupOp::Sin { scale } => multiplier_text(scale),
        LookupOp::ASin { scale } => multiplier_text(scale),
        LookupOp::Sinh { scale } => multiplier_text(scale),
        LookupOp::ASinh { scale } => multiplier_text(scale),
        LookupOp::Tan { scale } => multiplier_text(scale),
        LookupOp::ATan { scale } => multiplier_text(scale),
        LookupOp::Tanh { scale } => multiplier_text(scale),
        LookupOp::ATanh { scale } => multiplier_text(scale),
        LookupOp::Erf { scale } => multiplier_text(scale),
        LookupOp::HardSwish { scale } => multiplier_text(scale),
    }
}

/// A character that can stand in a variant's name.
pub open spec fn is_tag_char(c: char) -> bool {
    ('a' <= c && c <= 'z') || c == '_'
}

/// The position of the variant in the declaration.
pub open spec fn variant_index(op: LookupOp) -> int {
    match op {
        LookupOp::Div { .. } => 0,
        LookupOp::Cast { .. } => 1,
        LookupOp::Ceil { .. } => 2,
        LookupOp::Floor { .. } => 3,
        LookupOp::Round { .. } => 4,
        LookupOp::RoundHalfToEven { .. } => 5,
        LookupOp::Sqrt { .. } => 6,
        LookupOp::Rsqrt { .. } => 7,
        LookupOp::LeakyReLU { .. } => 8,
        LookupOp::Sigmoid { .. } => 9,
        LookupOp::Ln { .. } => 10,
        LookupOp::Exp { .. } => 11,
        LookupOp::Cos { .. } => 12,
        LookupOp::ACos { .. } => 13,
        LookupOp::Cosh { .. } => 14,
        LookupOp::ACosh { .. } => 15,
        LookupOp::Sin { .. } => 16,
        LookupOp::ASin { .. } => 17,
        LookupOp::Sinh { .. } => 18,
        LookupOp::ASinh { .. } => 19,
        LookupOp::Tan { .. } => 20,
        LookupOp::ATan { .. } => 21,
        LookupOp::Tanh { .. } => 22,
        LookupOp::ATanh { .. } => 23,
        LookupOp::Erf { .. } => 24,
        LookupOp::HardSwish { .. } => 25,
        LookupOp::Recip { .. } => 26,
        LookupOp::Pow { .. } => 27,
        LookupOp::KroneckerDelta => 28,
    }
}

proof fn lemma_path_parts(op: LookupOp)
    ensures
        path_spec(op) == path_tag(op) + path_params(op),
        path_tag(op).len() >= 3,
        forall|i: int| 0 <= i < path_tag(op).len() ==> is_tag_char(#[trigger] path_tag(op)[i]),
        path_params(op).len() > 0 ==> !is_tag_char(path_params(op)[0]),
{
    reveal_strlit("div_");
    reveal_strlit("cast_");
    reveal_strlit("ceil_");
    reveal_strlit("floor_");
    reveal_strlit("round_");
    reveal_strlit("round_half_to_even_");
    reveal_strlit("sqrt_");
    reveal_strlit("rsqrt_");
    reveal_strlit("leaky_relu_");
    reveal_strlit("sigmoid_");
    reveal_strlit("ln_");
    reveal_strlit("exp_");
    reveal_strlit("cos_");
    reveal_strlit("acos_");
    reveal_strlit("cosh_");
    reveal_strlit("acosh_");
    reveal_strlit("sin_");
    reveal_strlit("asin_");
    reveal_strlit("sinh_");
    reveal_strlit("asinh_");
    reveal_strlit("tan_");
    reveal_strlit("atan_");
    reveal_strlit("tanh_");
    reveal_strlit("atanh_");
    reveal_strlit("erf_");
    reveal_strlit("hardswish_");
    reveal_strlit("recip_");
    reveal_strlit("pow_");
    reveal_strlit("kronecker_delta");
    reveal_strlit("_");
    assert(path_spec(op) =~= path_tag(op) + path_params(op));
    match op {
        LookupOp::Recip { input_scale, output_scale } => {
            lemma_multiplier_text_chars(input_scale);
            assert(path_params(op)[0] == multiplier_text(input_scale)[0]);
        },
        LookupOp::Pow { scale, a } => {
            lemma_multiplier_text_chars(scale);
            assert(path_params(op)[0] == multiplier_text(scale)[0]);
        },
        LookupOp::KroneckerDelta => {},
        LookupOp::Div { denom } => lemma_multiplier_text_chars(denom),
        LookupOp::Cast { scale } => lemma_multiplier_text_chars(scale),
        LookupOp::Ceil { scale } => lemma_multiplier_text_chars(scale),
        LookupOp::Floor { scale } => lemma_multiplier_text_chars(scale),
        LookupOp::Round { scale } => lemma_multiplier_text_chars(scale),
        LookupOp::RoundHalfToEven { scale } => lemma_multiplier_text_chars(scale),
        LookupOp::Sqrt { scale } => lemma_multiplier_text_chars(scale),
        LookupOp::Rsqrt { scale } => lemma_multiplier_text_chars(scale),
        LookupOp::LeakyReLU { slope } => lemma_multiplier_text_chars(slope),
        LookupOp::Sigmoid { scale } => lemma_multiplier_text_chars(scale),
        LookupOp::Ln { scale } => lemma_multiplier_text_chars(scale),
        LookupOp::Exp { scale } => lemma_multiplier_text_chars(scale),
        LookupOp::Cos { scale } => lemma_multiplier_text_chars(scale),
        LookupOp::ACos { scale } => lemma_multiplier_text_chars(scale),
        LookupOp::Cosh { scale } => lemma_multiplier_text_chars(scale),
        LookupOp::ACosh { scale } => lemma_multiplier_text_chars(scale),
        LookupOp::Sin { scale } => lemma_multiplier_text_chars(scale),
        LookupOp::ASin { scale } => lemma_multiplier_text_chars(scale),
        LookupOp::Sinh { scale } => lemma_multiplier_text_chars(scale),
        LookupOp::ASinh { scale } => lemma_multiplier_text_chars(scale),
        LookupOp::Tan { scale } => lemma_multiplier_text_chars(scale),
        LookupOp::ATan { scale } => lemma_multiplier_text_chars(scale),
        LookupOp::Tanh { scale } => lemma_multiplier_text_chars(scale),
        LookupOp::ATanh { scale } => lemma_multiplier_text_chars(scale),
        LookupOp::Erf { scale } => lemma_multiplier_text_chars(scale),
        LookupOp::HardSwish { scale } => lemma_multiplier_text_chars(scale),
    }
}

proof fn lemma_tag_injective(a: LookupOp, b: LookupOp)
    requires
        path_tag(a) == path_tag(b),
    ensures
        variant_index(a) == variant_index(b),
{
    reveal_strlit("div_");
    reveal_strlit("cast_");
    reveal_strlit("ceil_");
    reveal_strlit("floor_");
    reveal_strlit("round_");
    reveal_strlit("round_half_to_even_");
    reveal_strlit("sqrt_");
    reveal_strlit("rsqrt_");
    reveal_strlit("leaky_relu_");
    reveal_strlit("sigmoid_");
    reveal_strlit("ln_");
    reveal_strlit("exp_");
    reveal_strlit("cos_");
    reveal_strlit("acos_");
    reveal_strlit("cosh_");
    reveal_strlit("acosh_");
    reveal_strlit("sin_");
    reveal_strlit("asin_");
    reveal_strlit("sinh_");
    reveal_strlit("asinh_");
    reveal_strlit("tan_");
    reveal_strlit("atan_");
    reveal_strlit("tanh_");
    reveal_strlit("atanh_");
    reveal_strlit("erf_");
    reveal_strlit("hardswish_");
    reveal_strlit("recip_");
    reveal_strlit("pow_");
    reveal_strlit("kronecker_delta");
    reveal_strlit("_");
    let ta = path_tag(a);
    let tb = path_tag(b);
    assert(ta.len() == tb.len());
    assert(ta[0] == tb[0]);
    assert(ta[1] == tb[1]);
}

/// `x + "_" + y` determines `x` and `y` when neither holds an underscore.
proof fn lemma_pair_injective(a1: Multiplier, b1: Multiplier, a2: Multiplier, b2: Multiplier)
    requires
        multiplier_text(a1) + "_"@ + multiplier_text(b1) == multiplier_text(a2) + "_"@
            + multiplier_text(b2),
    ensures
        a1 == a2,
        b1 == b2,
{
    reveal_strlit("_");
    lemma_multiplier_text_chars(a1);
    lemma_multiplier_text_chars(a2);
    let t1 = multiplier_text(a1);
    let t2 = multiplier_text(a2);
    let r1 = "_"@ + multiplier_text(b1);
    let r2 = "_"@ + multiplier_text(b2);
    assert(t1 + r1 =~= multiplier_text(a1) + "_"@ + multiplier_text(b1));
    assert(t2 + r2 =~= multiplier_text(a2) + "_"@ + multiplier_text(b2));
    assert(r1[0] == '_');
    assert(r2[0] == '_');
    let no_underscore = |c: char| c != '_';
    lemma_split(t1, r1, t2, r2, no_underscore);
    lemma_multiplier_text_injective(a1, a2);
    assert(multiplier_text(b1) =~= r1.drop_first());
    assert(multiplier_text(b2) =~= r2.drop_first());
    lemma_multiplier_text_injective(b1, b2);
}

/// Two operations have the same canonical path exactly when they are
/// equal: same variant and same parameters.
pub proof fn lemma_path_injective(a: LookupOp, b: LookupOp)
    ensures
        path_spec(a) == path_spec(b) <==> a == b,
{
    if path_spec(a) == path_spec(b) {
        lemma_path_parts(a);
        lemma_path_parts(b);
        let tag_char = |c: char| is_tag_char(c);
        lemma_split(path_tag(a), path_params(a), path_tag(b), path_params(b), tag_char);
        lemma_tag_injective(a, b);
        match (a, b) {
            (
                LookupOp::Recip { input_scale: x1, output_scale: y1 },
                LookupOp::Recip { input_scale: x2, output_scale: y2 },
            ) => lemma_pair_injective(x1, y1, x2, y2),
            (LookupOp::Pow { scale: x1, a: y1 }, LookupOp::Pow { scale: x2, a: y2 }) => {
                lemma_pair_injective(x1, y1, x2, y2)
            },
            (LookupOp::Div { denom: x1 }, LookupOp::Div { denom: x2 }) => {
                lemma_multiplier_text_injective(x1, x2)
            },
            (LookupOp::Cast { scale: x1 }, LookupOp::Cast { scale: x2 }) => {
                lemma_multiplier_text_injective(x1, x2)
            },
            (LookupOp::Ceil { scale: x1 }, LookupOp::Ceil { scale: x2 }) => {
                lemma_multiplier_text_injective(x1, x2)
            },
            (LookupOp::Floor { scale: x1 }, LookupOp::Floor { scale: x2 }) => {
                lemma_multiplier_text_injective(x1, x2)
            },
            (LookupOp::Round { scale: x1 }, LookupOp::Round { scale: x2 }) => {
                lemma_multiplier_text_injective(x1, x2)
            },
            (LookupOp::RoundHalfToEven { scale: x1 }, LookupOp::RoundHalfToEven { scale: x2 }) => {
                lemma_multiplier_text_injective(x1, x2)
            },
            (LookupOp::Sqrt { scale: x1 }, LookupOp::Sqrt { scale: x2 }) => {
                lemma_multiplier_text_injective(x1, x2)
            },
            (LookupOp::Rsqrt { scale: x1 }, LookupOp::Rsqrt { scale: x2 }) => {
                lemma_multiplier_text_injective(x1, x2)
            },
            (LookupOp::LeakyReLU { slope: x1 }, LookupOp::LeakyReLU { slope: x2 }) => {
                lemma_multiplier_text_injective(x1, x2)
            },
            (LookupOp::Sigmoid { scale: x1 }, LookupOp::Sigmoid { scale: x2 }) => {
                lemma_multiplier_text_injective(x1, x2)
            },
            (LookupOp::Ln { scale: x1 }, LookupOp::Ln { scale: x2 }) => {
                lemma_multiplier_text_injective(x1, x2)
            },
            (LookupOp::Exp { scale: x1 }, LookupOp::Exp { scale: x2 }) => {
                lemma_multiplier_text_injective(x1, x2)
            },
            (LookupOp::Cos { scale: x1 }, LookupOp::Cos { scale: x2 }) => {
                lemma_multiplier_text_injective(x1, x2)
            },
            (LookupOp::ACos { scale: x1 }, LookupOp::ACos { scale: x2 }) => {
                lemma_multiplier_text_injective(x1, x2)
            },
            (LookupOp::Cosh { scale: x1 }, LookupOp::Cosh { scale: x2 }) => {
                lemma_multiplier_text_injective(x1, x2)
            },
            (LookupOp::ACosh { scale: x1 }, LookupOp::ACosh { scale: x2 }) => {
                lemma_multiplier_text_injective(x1, x2)
            },
            (LookupOp::Sin { scale: x1 }, LookupOp::Sin { scale: x2 }) => {
                lemma_multiplier_text_injective(x1, x2)
            },
            (LookupOp::ASin { scale: x1 }, LookupOp::ASin { scale: x2 }) => {
                lemma_multiplier_text_injective(x1, x2)
            },
            (LookupOp::Sinh { scale: x1 }, LookupOp::Sinh { scale: x2 }) => {
                lemma_multiplier_text_injective(x1, x2)
            },
            (LookupOp::ASinh { scale: x1 }, LookupOp::ASinh { scale: x2 }) => {
                lemma_multiplier_text_injective(x1, x2)
            },
            (LookupOp::Tan { scale: x1 }, LookupOp::Tan { scale: x2 }) => {
                lemma_multiplier_text_injective(x1, x2)
            },
            (LookupOp::ATan { scale: x1 }, LookupOp::ATan { scale: x2 }) => {
                lemma_multiplier_text_injective(x1, x2)
            },
            (LookupOp::Tanh { scale: x1 }, LookupOp::Tanh { scale: x2 }) => {
                lemma_multiplier_text_injective(x1, x2)
            },
            (LookupOp::ATanh { scale: x1 }, LookupOp::ATanh { scale: x2 }) => {
                lemma_multiplier_text_injective(x1, x2)
            },
            (LookupOp::Erf { scale: x1 }, LookupOp::Erf { scale: x2 }) => {
                lemma_multiplier_text_injective(x1, x2)
            },
            (LookupOp::HardSwish { scale: x1 }, LookupOp::HardSwish { scale: x2 }) => {
                lemma_multiplier_text_injective(x1, x2)
            },
            _ => {},
        }
    }
}

} // verus!
