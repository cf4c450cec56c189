//! Quantization multipliers held as exact decimals, so that equality,
//! hashing and ordering are total and bit-exact.
use vstd::prelude::*;

verus! {

/// Largest number of decimal places a multiplier may carry.
pub const MAX_PLACES: u8 = 18;

/// The power of ten `10^n`.
pub open spec fn pow10(n: nat) -> nat
    decreases n,
{
    if n == 0 {
        1
    } else {
        10 * pow10((n - 1) as nat)
    }
}

/// A decimal number `units / 10^places`.
///
/// Two multipliers are equal exactly when both fields are equal: `1` and
/// `1.0` are distinct values, as two different bit patterns of a float are.
#[derive(Clone, Copy, Debug, PartialEq, Eq, Structural, Hash, PartialOrd, Ord)]
pub struct Multiplier {
    pub units: i64,
    pub places: u8,
}

impl Multiplier {
    /// The number of places fits the arithmetic of this library.
    pub open spec fn wf(&self) -> bool {
        self.places <= MAX_PLACES
    }

    /// Whether the number of places fits the arithmetic of this library.
    pub fn is_wf(&self) -> (r: bool)
        ensures
            r == self.wf(),
    {
        self.places <= MAX_PLACES
    }

    /// The denominator `10^places`.
    pub open spec fn denom(&self) -> nat {
        pow10(self.places as nat)
    }

    /// The whole number `n`.
    pub fn from_int(n: i64) -> (r: Multiplier)
        ensures
            r.wf(),
            r.units == n,
            r.denom() == 1,
    {
        proof {
            reveal_with_fuel(pow10, 1);
        }
        Multiplier { units: n, places: 0 }
    }

    /// The decimal `units / 10^places`.
    pub fn decimal(units: i64, places: u8) -> (r: Multiplier)
        requires
            places <= MAX_PLACES,
        ensures
            r.wf(),
            r.units == units,
            r.places == places,
    {
        Multiplier { units, places }
    }

    /// The exact denominator `10^places`.
    pub fn denominator(&self) -> (r: u64)
        requires
            self.wf(),
        ensures
            r == self.denom(),
    {
        let mut r: u64 = 1;
        let mut i: u8 = 0;
        proof {
            lemma_pow10_mono(0, 18);
            reveal_with_fuel(pow10, 1);
        }
        while i < self.places
            invariant
                self.wf(),
                i <= self.places,
                r == pow10(i as nat),
                r <= pow10(18),
            decreases self.places - i,
        {
            proof {
                lemma_pow10_mono((i + 1) as nat, 18);
                lemma_pow10_18();
            }
            r = r * 10;
            i = i + 1;
        }
        r
    }
}

/// The largest denominator a multiplier can have.
pub proof fn lemma_pow10_18()
    ensures
        pow10(18) == 1_000_000_000_000_000_000,
{
    reveal_with_fuel(pow10, 19);
}

/// Powers of ten grow with the exponent.
pub proof fn lemma_pow10_mono(a: nat, b: nat)
    requires
        a <= b,
    ensures
        1 <= pow10(a) <= pow10(b),
    decreases b,
{
    if b > a {
        lemma_pow10_mono(a, (b - 1) as nat);
    } else if a > 0 {
        lemma_pow10_mono((a - 1) as nat, (a - 1) as nat);
    }
}

} // verus!
