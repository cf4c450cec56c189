//! Decimal text of integers and multipliers.
use vstd::prelude::*;
use vstd::string::*;

use crate::multiplier::{lemma_pow10_18, lemma_pow10_mono, pow10, Multiplier};

verus! {

/// The decimal digit for `d < 10`.
pub open spec fn digit_char(d: nat) -> char {
    if d == 0 {
        '0'
    } else if d == 1 {
        '1'
    } else if d == 2 {
        '2'
    } else if d == 3 {
        '3'
    } else if d == 4 {
        '4'
    } else if d == 5 {
        '5'
    } else if d == 6 {
        '6'
    } else if d == 7 {
        '7'
    } else if d == 8 {
        '8'
    } else {
        '9'
    }
}

/// `n` in decimal, without leading zeros.
pub open spec fn nat_text(n: nat) -> Seq<char>
    decreases n,
{
    if n < 10 {
        seq![digit_char(n)]
    } else {
        nat_text(n / 10).push(digit_char(n % 10))
    }
}

/// The last `w` decimal digits of `n`, with leading zeros.
pub open spec fn padded_text(n: nat, w: nat) -> Seq<char>
    decreases w,
{
    if w == 0 {
        Seq::empty()
    } else {
        padded_text(n / 10, (w - 1) as nat).push(digit_char(n % 10))
    }
}

/// The magnitude `|units|` of a multiplier.
pub open spec fn magnitude(m: Multiplier) -> nat {
    if m.units < 0 {
        (-m.units) as nat
    } else {
        m.units as nat
    }
}

/// A multiplier in decimal: a minus sign when negative, the whole part,
/// and, when it has places, a point followed by exactly `places` digits.
pub open spec fn multiplier_text(m: Multiplier) -> Seq<char> {
    let sign = if m.units < 0 {
        seq!['-']
    } else {
        Seq::empty()
    };
    let frac = if m.places == 0 {
        Seq::empty()
    } else {
        seq!['.'] + padded_text(magnitude(m) % m.denom(), m.places as nat)
    };
    sign + nat_text(magnitude(m) / m.denom()) + frac
}

fn digit_str(d: u64) -> (r: &'static str)
    requires
        d < 10,
    ensures
        r@ == seq![digit_char(d as nat)],
{
    proof {
        reveal_strlit("0");
        reveal_strlit("1");
        reveal_strlit("2");
        reveal_strlit("3");
        reveal_strlit("4");
        reveal_strlit("5");
        reveal_strlit("6");
        reveal_strlit("7");
        reveal_strlit("8");
        reveal_strlit("9");
    }
    let r = if d == 0 {
        "0"
    } else if d == 1 {
        "1"
    } else if d == 2 {
        "2"
    } else if d == 3 {
        "3"
    } else if d == 4 {
        "4"
    } else if d == 5 {
        "5"
    } else if d == 6 {
        "6"
    } else if d == 7 {
        "7"
    } else if d == 8 {
        "8"
    } else {
        "9"
    };
    proof {
        assert(r@ =~= seq![digit_char(d as nat)]);
    }
    r
}

/// Appends `n` in decimal.
pub fn write_nat(s: &mut String, n: u64)
    ensures
        final(s)@ == old(s)@ + nat_text(n as nat),
    decreases n,
{
    if n < 10 {
        s.append(digit_str(n));
    } else {
        write_nat(s, n / 10);
        s.append(digit_str(n % 10));
        proof {
            assert(final(s)@ =~= old(s)@ + nat_text(n as nat));
        }
    }
}

/// Appends the last `w` digits of `n`, with leading zeros.
pub fn write_padded(s: &mut String, n: u64, w: u8)
    ensures
        final(s)@ == old(s)@ + padded_text(n as nat, w as nat),
    decreases w,
{
    if w == 0 {
        proof {
            assert(final(s)@ =~= old(s)@ + padded_text(n as nat, w as nat));
        }
    } else {
        write_padded(s, n / 10, w - 1);
        s.append(digit_str(n % 10));
        proof {
            assert(final(s)@ =~= old(s)@ + padded_text(n as nat, w as nat));
        }
    }
}

/// Appends the decimal text of a multiplier.
pub fn write_multiplier(s: &mut String, m: &Multiplier)
    ensures
        final(s)@ == old(s)@ + multiplier_text(*m),
{
    proof {
        reveal_strlit("-");
        reveal_strlit(".");
    }
    let a: u64 = if m.units < 0 {
        ((-(m.units + 1)) as u64) + 1
    } else {
        m.units as u64
    };
    proof {
        lemma_pow10_mono(m.places as nat, m.places as nat);
    }
    let (whole, frac): (u64, u64) = if m.is_wf() {
        let d: u64 = m.denominator();
        (a / d, a % d)
    } else {
        proof {
            lemma_pow10_18();
            lemma_pow10_mono(19, m.places as nat);
            assert(pow10(19) == 10 * pow10(18));
            vstd::arithmetic::div_mod::lemma_small_mod(a as nat, m.denom());
            assert((a as nat) / m.denom() == 0) by {
                vstd::arithmetic::div_mod::lemma_basic_div(a as int, m.denom() as int);
            }
        }
        (0, a)
    };
    if m.units < 0 {
        s.append("-");
    }
    write_nat(s, whole);
    if m.places != 0 {
        s.append(".");
        write_padded(s, frac, m.places);
    }
    proof {
        assert(final(s)@ =~= old(s)@ + multiplier_text(*m));
    }
}

/// The decimal text of a multiplier.
pub fn multiplier_string(m: &Multiplier) -> (r: String)
    ensures
        r@ == multiplier_text(*m),
{
    let mut s = String::new();
    write_multiplier(&mut s, m);
    proof {
        assert(s@ =~= multiplier_text(*m));
    }
    s
}

} // verus!
