//! Field-encoded values: elements of the BN254 scalar field that encode a
//! signed fixed-point integer, with the codec between the two.
use vstd::prelude::*;

use halo2curves::bn256::Fr;
use halo2curves::ff::PrimeField;

use crate::IntegerRep;

verus! {

/// The order of the BN254 scalar field.
pub open spec fn modulus() -> nat {
    0x30644e72e131a029b85045b68181585du128 as nat * pow2_128()
        + 0x2833e84879b9709143e1f593f0000001u128 as nat
}

/// The number `2^128`.
pub open spec fn pow2_128() -> nat {
    0x1_0000_0000_0000_0000u128 as nat * 0x1_0000_0000_0000_0000u128 as nat
}

/// The number a little-endian byte sequence denotes.
pub open spec fn le_value(s: Seq<u8>) -> nat
    decreases s.len(),
{
    if s.len() == 0 {
        0
    } else {
        s[0] as nat + 256 * le_value(s.drop_first())
    }
}

/// A field element, held as its canonical 32-byte little-endian form.
#[derive(Clone, Copy, Debug, PartialEq, Eq, Hash)]
pub struct Felt {
    pub bytes: [u8; 32],
}

impl Felt {
    /// The residue in `0 .. modulus()` that the bytes denote.
    pub open spec fn value(&self) -> nat {
        le_value(self.bytes@)
    }

    /// The bytes are the canonical form of a field element.
    pub open spec fn wf(&self) -> bool {
        self.value() < modulus()
    }

    /// The canonical little-endian bytes.
    pub fn to_bytes(&self) -> (r: [u8; 32])
        ensures
            r@ == self.bytes@,
    {
        self.bytes
    }
}

/// The residue that encodes the integer `v`: `v` itself when it is not
/// negative, else `modulus() + v`.
pub open spec fn encode_spec(v: int) -> nat {
    if v >= 0 {
        v as nat
    } else {
        (modulus() + v) as nat
    }
}

/// The integer that the residue `x` encodes, where it is one that an
/// `IntegerRep` can hold with its negation: small residues stand for
/// themselves, those just below the modulus for negative integers.
pub open spec fn decode_spec(x: nat) -> Option<int> {
    if x <= i128::MAX {
        Some(x as int)
    } else if x < modulus() && modulus() - x <= i128::MAX {
        Some(x - modulus())
    } else {
        None
    }
}

/// Relies on `Fr::from_u128` and `Fr::to_bytes`: the element congruent to
/// `v`, which is `v` itself as `v` is below the modulus, in canonical
/// little-endian bytes.
#[verifier::external_body]
fn fr_from_u128(v: u128) -> (r: Felt)
    ensures
        r.value() == v,
{
    Felt { bytes: Fr::from_u128(v).to_bytes() }
}

/// Relies on `Fr::from_bytes`, `Neg for Fr` and `Fr::to_bytes`: the additive
/// inverse of a canonical element, in canonical little-endian bytes.
#[verifier::external_body]
fn fr_neg(a: &Felt) -> (r: Felt)
    requires
        a.wf(),
    ensures
        r.value() == (modulus() - a.value()) % (modulus() as int),
{
    let x: Fr = Fr::from_bytes(&a.bytes).unwrap();
    Felt { bytes: (-x).to_bytes() }
}

/// Relies on `Fr::from_bytes`, which accepts exactly the little-endian
/// bytes of a number below the modulus.
#[verifier::external_body]
fn fr_is_canonical(bytes: &[u8; 32]) -> (r: bool)
    ensures
        r == (le_value(bytes@) < modulus()),
{
    bool::from(Fr::from_bytes(bytes).is_some())
}

proof fn lemma_le_value_bound(s: Seq<u8>, k: int)
    requires
        0 <= k <= s.len(),
    ensures
        le_value(s) >= le_value(s.subrange(k, s.len() as int)),
    decreases k,
{
    if k > 0 {
        lemma_le_value_bound(s, k - 1);
        let t = s.subrange(k - 1, s.len() as int);
        assert(t.drop_first() =~= s.subrange(k, s.len() as int));
    } else {
        assert(s.subrange(0, s.len() as int) =~= s);
    }
}

/// The modulus exceeds every `u128`.
proof fn lemma_modulus_large()
    ensures
        modulus() > u128::MAX,
{
}

/// The value of a field element as a `u128`, where it is at most
/// `i128::MAX`.
fn small_value(f: &Felt) -> (r: Option<u128>)
    ensures
        r is Some <==> f.value() <= i128::MAX,
        r is Some ==> r->0 == f.value(),
{
    let mut acc: u128 = 0;
    let mut i: usize = 32;
    proof {
        assert(f.bytes@.subrange(32, 32) =~= Seq::<u8>::empty());
    }
    while i > 0
        invariant
            i <= 32,
            f.bytes@.len() == 32,
            acc == le_value(f.bytes@.subrange(i as int, 32)),
            acc <= i128::MAX,
        decreases i,
    {
        let b: u8 = f.bytes[i - 1];
        let ghost t = f.bytes@.subrange(i - 1, 32);
        proof {
            assert(t.drop_first() =~= f.bytes@.subrange(i as int, 32));
        }
        if acc > (0x7fff_ffff_ffff_ffff_ffff_ffff_ffff_ffffu128 - b as u128) / 256 {
            proof {
                lemma_le_value_bound(f.bytes@, i - 1);
                assert(f.bytes@.subrange(0, 32) =~= f.bytes@);
                assert(acc * 256 + b > i128::MAX) by (nonlinear_arith)
                    requires
                        acc > (0x7fff_ffff_ffff_ffff_ffff_ffff_ffff_ffffu128 - b as u128) / 256,
                        b <= 255,
                ;
            }
            return None;
        }
        proof {
            assert(acc * 256 + b <= i128::MAX) by (nonlinear_arith)
                requires
                    acc <= (0x7fff_ffff_ffff_ffff_ffff_ffff_ffff_ffffu128 - b as u128) / 256,
                    b <= 255,
            ;
        }
        acc = acc * 256 + b as u128;
        i = i - 1;
    }
    proof {
        assert(f.bytes@.subrange(0, 32) =~= f.bytes@);
    }
    Some(acc)
}

/// Encodes a signed integer as a field element: `v` itself when it is not
/// negative, else the negation of `-v`.
pub fn integer_rep_to_felt(v: IntegerRep) -> (r: Felt)
    ensures
        r.wf(),
        r.value() == encode_spec(v as int),
{
    if v >= 0 {
        fr_from_u128(v as u128)
    } else {
        let mag: u128 = ((-(v + 1)) as u128) + 1;
        let pos = fr_from_u128(mag);
        proof {
            lemma_modulus_large();
            vstd::arithmetic::div_mod::lemma_small_mod(
                (modulus() - mag) as nat,
                modulus(),
            );
        }
        fr_neg(&pos)
    }
}

impl Felt {
    /// Whether the bytes are the canonical form of a field element.
    pub fn is_canonical(&self) -> (r: bool)
        ensures
            r == self.wf(),
    {
        fr_is_canonical(&self.bytes)
    }
}

/// Decodes a field element into the signed integer it encodes, or `None`
/// where the bytes are not canonical or the element is neither at most
/// `i128::MAX` nor within `i128::MAX` below the modulus.
pub fn felt_to_integer_rep(f: &Felt) -> (r: Option<IntegerRep>)
    ensures
        r matches Some(v) ==> decode_spec(f.value()) == Some(v as int),
        r is None ==> decode_spec(f.value()) is None,
{
    match small_value(f) {
        Some(v) => Some(v as IntegerRep),
        None => {
            if !f.is_canonical() {
                return None;
            }
            let n = fr_neg(f);
            proof {
                lemma_modulus_large();
                vstd::arithmetic::div_mod::lemma_small_mod(
                    (modulus() - f.value()) as nat,
                    modulus(),
                );
            }
            match small_value(&n) {
                Some(m) => Some(-(m as IntegerRep)),
                None => None,
            }
        },
    }
}

/// Decoding undoes encoding for every integer whose negation is an
/// `IntegerRep` too.
pub proof fn lemma_round_trip(v: int)
    requires
        -i128::MAX <= v <= i128::MAX,
    ensures
        decode_spec(encode_spec(v)) == Some(v),
{
    lemma_modulus_large();
}

} // verus!
