use std::cmp::Ordering;

use lookup_ops::text::multiplier_string;

use lookup_ops::{
    felt_to_integer_rep, integer_rep_to_felt, multiplier_to_scale, Felt, LookupError, LookupOp,
    Multiplier,
};

fn m(units: i64, places: u8) -> Multiplier {
    Multiplier { units, places }
}

fn whole(n: i64) -> Multiplier {
    Multiplier::from_int(n)
}

fn eval(op: LookupOp, x: i128) -> Result<i128, LookupError> {
    op.forward(x)
}

fn eval_felts(op: LookupOp, xs: &[i128]) -> Result<Vec<i128>, LookupError> {
    let input: Vec<Felt> = xs.iter().map(|&x| integer_rep_to_felt(x)).collect();
    let res = op.f(&[input])?;
    Ok(res
        .output
        .iter()
        .map(|f| felt_to_integer_rep(f).expect("encodable"))
        .collect())
}

#[test]
fn bit_range_examples() {
    assert_eq!(LookupOp::bit_range(7), (-3, 3));
    assert_eq!(LookupOp::bit_range(8), (-3, 3));
    assert_eq!(LookupOp::bit_range(1), (0, 0));
    assert_eq!(LookupOp::bit_range(2), (0, 0));
    assert_eq!(
        LookupOp::bit_range(usize::MAX),
        (-(i64::MAX as i128), i64::MAX as i128)
    );
}

#[test]
fn out_scale_examples() {
    let half = multiplier_to_scale(&m(5, 1)).unwrap();
    assert_eq!(half, -1);
    assert_eq!(LookupOp::Cast { scale: whole(2) }.out_scale(&vec![4]), Ok(4 + half));
    assert_eq!(LookupOp::KroneckerDelta.out_scale(&vec![7]), Ok(0));
    for s in [whole(1), m(25, 1), whole(-3)] {
        for k in [-5, 0, 4, 17] {
            assert_eq!(LookupOp::Sqrt { scale: s }.out_scale(&vec![k, 9]), Ok(k));
        }
    }
    let recip = LookupOp::Recip { input_scale: whole(4), output_scale: whole(128) };
    assert_eq!(recip.out_scale(&vec![2]), Ok(7));
}

#[test]
fn out_scale_errors() {
    assert_eq!(
        LookupOp::Cast { scale: whole(0) }.out_scale(&vec![1]),
        Err(LookupError::NotPositive)
    );
    let recip = LookupOp::Recip { input_scale: whole(1), output_scale: whole(-2) };
    assert_eq!(recip.out_scale(&vec![1]), Err(LookupError::NotPositive));
    assert_eq!(
        LookupOp::Cast { scale: m(5, 1) }.out_scale(&vec![i32::MAX]),
        Err(LookupError::Overflow)
    );
}

#[test]
fn multiplier_to_scale_values() {
    assert_eq!(multiplier_to_scale(&whole(1)), Some(0));
    assert_eq!(multiplier_to_scale(&whole(2)), Some(1));
    assert_eq!(multiplier_to_scale(&whole(3)), Some(2));
    assert_eq!(multiplier_to_scale(&whole(5)), Some(2));
    assert_eq!(multiplier_to_scale(&whole(6)), Some(3));
    assert_eq!(multiplier_to_scale(&whole(1024)), Some(10));
    assert_eq!(multiplier_to_scale(&m(25, 2)), Some(-2));
    assert_eq!(multiplier_to_scale(&m(1, 2)), Some(-7));
    assert_eq!(multiplier_to_scale(&whole(0)), None);
    assert_eq!(multiplier_to_scale(&whole(-4)), None);
}

#[test]
fn ceil_and_floor_bracket_input() {
    for s in [whole(1), whole(2), m(25, 1), m(3, 1), whole(7)] {
        for x in [-9_i128, -5, -1, 0, 1, 2, 3, 8, 1000] {
            let hi = eval(LookupOp::Ceil { scale: s }, x).unwrap();
            let lo = eval(LookupOp::Floor { scale: s }, x).unwrap();
            assert!(lo <= x && x <= hi, "scale {:?} x {}", s, x);
        }
    }
}

#[test]
fn ceil_floor_values() {
    assert_eq!(eval(LookupOp::Ceil { scale: m(25, 1) }, 1), Ok(2));
    assert_eq!(eval(LookupOp::Floor { scale: m(25, 1) }, 1), Ok(0));
    assert_eq!(eval(LookupOp::Ceil { scale: whole(4) }, 5), Ok(8));
    assert_eq!(eval(LookupOp::Floor { scale: whole(4) }, -5), Ok(-8));
    assert_eq!(eval(LookupOp::Ceil { scale: whole(4) }, -5), Ok(-4));
}

#[test]
fn round_tie_breaks_differ() {
    let s = whole(2);
    assert_eq!(eval(LookupOp::Round { scale: s }, 1), Ok(2));
    assert_eq!(eval(LookupOp::RoundHalfToEven { scale: s }, 1), Ok(0));
    assert_eq!(eval(LookupOp::Round { scale: s }, 5), Ok(6));
    assert_eq!(eval(LookupOp::RoundHalfToEven { scale: s }, 5), Ok(4));
    assert_eq!(eval(LookupOp::Round { scale: s }, 3), Ok(4));
    assert_eq!(eval(LookupOp::RoundHalfToEven { scale: s }, 3), Ok(4));
    assert_eq!(eval(LookupOp::Round { scale: s }, -1), Ok(-2));
    assert_eq!(eval(LookupOp::RoundHalfToEven { scale: s }, -1), Ok(0));
}

#[test]
fn div_cast_leaky_kronecker() {
    assert_eq!(eval(LookupOp::Div { denom: whole(2) }, 3), Ok(2));
    assert_eq!(eval(LookupOp::Div { denom: whole(2) }, -3), Ok(-2));
    assert_eq!(eval(LookupOp::Div { denom: whole(-4) }, 10), Ok(-3));
    assert_eq!(eval(LookupOp::Cast { scale: m(5, 1) }, 3), Ok(6));
    assert_eq!(eval(LookupOp::LeakyReLU { slope: m(1, 2) }, -150), Ok(-2));
    assert_eq!(eval(LookupOp::LeakyReLU { slope: m(1, 2) }, -149), Ok(-1));
    assert_eq!(eval(LookupOp::LeakyReLU { slope: m(1, 2) }, 50), Ok(50));
    assert_eq!(eval(LookupOp::KroneckerDelta, 0), Ok(1));
    assert_eq!(eval(LookupOp::KroneckerDelta, -7), Ok(0));
}

#[test]
fn forward_errors() {
    assert_eq!(eval(LookupOp::Div { denom: whole(0) }, 3), Err(LookupError::ZeroMultiplier));
    assert_eq!(eval(LookupOp::Sigmoid { scale: whole(1) }, 3), Err(LookupError::Approximate));
    assert_eq!(
        eval(LookupOp::KroneckerDelta, i64::MAX as i128 + 1),
        Err(LookupError::OutOfRange)
    );
    assert_eq!(eval(LookupOp::KroneckerDelta, -(i64::MAX as i128)), Ok(0));
}

#[test]
fn evaluate_tensor() {
    let op = LookupOp::Ceil { scale: whole(4) };
    assert_eq!(eval_felts(op, &[5, -5, 0, 8]), Ok(vec![8, -4, 0, 8]));
    assert_eq!(eval_felts(op, &[]), Ok(vec![]));
    assert_eq!(
        eval_felts(LookupOp::Exp { scale: whole(1) }, &[1]),
        Err(LookupError::Approximate)
    );
    assert_eq!(
        eval_felts(op, &[1, i64::MAX as i128 + 1]),
        Err(LookupError::OutOfRange)
    );
}

#[test]
fn evaluate_shape_errors() {
    let op = LookupOp::KroneckerDelta;
    let none: [Vec<Felt>; 0] = [];
    assert!(matches!(op.f(&none), Err(LookupError::Shape)));
    let two = [vec![integer_rep_to_felt(0)], vec![integer_rep_to_felt(1)]];
    assert!(matches!(op.f(&two), Err(LookupError::Shape)));
}

#[test]
fn evaluation_is_deterministic() {
    let ops = [
        LookupOp::Round { scale: m(25, 1) },
        LookupOp::RoundHalfToEven { scale: whole(2) },
        LookupOp::LeakyReLU { slope: m(1, 2) },
        LookupOp::Cast { scale: whole(3) },
    ];
    let (lo, hi) = LookupOp::bit_range(101);
    for op in ops {
        let first: Vec<i128> = (lo..=hi).map(|x| eval(op, x).unwrap()).collect();
        let second: Vec<i128> = (lo..=hi).map(|x| eval(op, x).unwrap()).collect();
        assert_eq!(first, second);
        let xs: Vec<i128> = (lo..=hi).collect();
        assert_eq!(eval_felts(op, &xs), Ok(first));
    }
}

#[test]
fn field_round_trip() {
    for v in [0_i128, 1, -1, 42, -42, i64::MAX as i128, i128::MAX, -i128::MAX] {
        assert_eq!(felt_to_integer_rep(&integer_rep_to_felt(v)), Some(v));
    }
}

#[test]
fn field_encoding_bytes() {
    let five = integer_rep_to_felt(5).to_bytes();
    assert_eq!(five[0], 5);
    assert!(five[1..].iter().all(|&b| b == 0));
    // -1 is the modulus minus one.
    let minus_one = integer_rep_to_felt(-1).to_bytes();
    assert_eq!(minus_one[0], 0x00);
    assert_eq!(minus_one[1], 0x00);
    assert_eq!(minus_one[3], 0xf0);
    assert_eq!(minus_one[31], 0x30);
    let minus_two = integer_rep_to_felt(-2).to_bytes();
    assert_eq!(minus_two[0], 0xff);
}

#[test]
fn field_decode_rejects_middle() {
    let mut bytes = [0u8; 32];
    bytes[20] = 1;
    assert_eq!(felt_to_integer_rep(&Felt { bytes }), None);
    let mut top = [0u8; 32];
    top[15] = 0x80;
    assert_eq!(felt_to_integer_rep(&Felt { bytes: top }), None);
}

#[test]
fn equality_and_order() {
    let a = LookupOp::LeakyReLU { slope: m(1, 2) };
    let b = LookupOp::LeakyReLU { slope: m(1, 2) };
    assert_eq!(a, b);
    assert_eq!(a.cmp(&b), Ordering::Equal);
    let s1 = LookupOp::Sigmoid { scale: whole(1) };
    let s2 = LookupOp::Sigmoid { scale: whole(2) };
    assert_ne!(s1, s2);
    assert_eq!(s1.cmp(&s2), Ordering::Less);
    assert_eq!(s2.cmp(&s1), Ordering::Greater);
    assert_eq!(s1.cmp(&s2), s1.cmp(&s2));
    let mut v = vec![s2, a, s1, b];
    v.sort();
    let mut w = vec![b, s1, a, s2];
    w.sort();
    assert_eq!(v, w);
}

#[test]
fn canonical_paths() {
    assert_eq!(LookupOp::Sigmoid { scale: whole(4) }.as_path(), "sigmoid_4");
    assert_eq!(LookupOp::LeakyReLU { slope: m(1, 2) }.as_path(), "leaky_relu_0.01");
    assert_eq!(LookupOp::Pow { scale: whole(2), a: m(5, 1) }.as_path(), "pow_2_0.5");
    assert_eq!(
        LookupOp::Recip { input_scale: m(-125, 2), output_scale: whole(128) }.as_path(),
        "recip_-1.25_128"
    );
    assert_eq!(LookupOp::KroneckerDelta.as_path(), "kronecker_delta");
    assert_eq!(
        LookupOp::RoundHalfToEven { scale: m(1000, 3) }.as_path(),
        "round_half_to_even_1.000"
    );
    assert_eq!(LookupOp::Cosh { scale: whole(0) }.as_path(), "cosh_0");
}

#[test]
fn canonical_paths_distinguish() {
    let ops = [
        LookupOp::Cos { scale: whole(1) },
        LookupOp::Cosh { scale: whole(1) },
        LookupOp::Round { scale: whole(1) },
        LookupOp::RoundHalfToEven { scale: whole(1) },
        LookupOp::Sigmoid { scale: whole(1) },
        LookupOp::Sigmoid { scale: m(10, 1) },
        LookupOp::Sigmoid { scale: whole(-1) },
        LookupOp::Pow { scale: whole(1), a: whole(12) },
        LookupOp::Pow { scale: whole(11), a: whole(2) },
    ];
    for a in ops.iter() {
        for b in ops.iter() {
            assert_eq!(a.as_path() == b.as_path(), a == b);
        }
    }
}

#[test]
fn display_names() {
    assert_eq!(LookupOp::Sigmoid { scale: whole(4) }.as_string(), "SIGMOID(scale=4)");
    assert_eq!(LookupOp::KroneckerDelta.as_string(), "K_DELTA");
    assert_eq!(
        LookupOp::Pow { scale: whole(2), a: whole(3) }.as_string(),
        "POW(scale=2, exponent=3)"
    );
    assert_eq!(
        LookupOp::Recip { input_scale: whole(1), output_scale: m(5, 1) }.as_string(),
        "RECIP(input_scale=1, output_scale=0.5)"
    );
    assert_eq!(LookupOp::LeakyReLU { slope: m(1, 2) }.as_string(), "L_RELU(slope=0.01)");
    assert_eq!(LookupOp::Div { denom: whole(-3) }.as_string(), "DIV(denom=-3)");
}

#[test]
fn non_canonical_bytes_rejected() {
    // The modulus itself, little-endian.
    let modulus: [u8; 32] = [
        0x01, 0x00, 0x00, 0xf0, 0x93, 0xf5, 0xe1, 0x43, 0x91, 0x70, 0xb9, 0x79, 0x48, 0xe8, 0x33,
        0x28, 0x5d, 0x58, 0x81, 0x81, 0xb6, 0x45, 0x50, 0xb8, 0x29, 0xa0, 0x31, 0xe1, 0x72, 0x4e,
        0x64, 0x30,
    ];
    let f = Felt { bytes: modulus };
    assert!(!f.is_canonical());
    assert_eq!(felt_to_integer_rep(&f), None);
    let all = Felt { bytes: [0xff; 32] };
    assert!(!all.is_canonical());
    assert_eq!(felt_to_integer_rep(&all), None);
    let minus_one = integer_rep_to_felt(-1);
    assert!(minus_one.is_canonical());
    let mut below = modulus;
    below[0] = 0x00;
    assert_eq!(below, minus_one.to_bytes());
}

#[test]
fn precision_limits() {
    let fine = m(5, 20);
    assert_eq!(LookupOp::Sigmoid { scale: fine }.as_path(), "sigmoid_0.00000000000000000005");
    assert_eq!(eval(LookupOp::Ceil { scale: fine }, 3), Err(LookupError::Precision));
    assert_eq!(
        LookupOp::Cast { scale: fine }.out_scale(&vec![1]),
        Err(LookupError::Precision)
    );
    assert_eq!(LookupOp::Ceil { scale: m(5, 18) }.as_path(), "ceil_0.000000000000000005");
    assert_eq!(eval(LookupOp::Ceil { scale: m(5, 18) }, 0), Ok(0));
}

#[test]
fn multiplier_texts() {
    assert_eq!(multiplier_string(&m(4, 0)), "4");
    assert_eq!(multiplier_string(&m(40, 1)), "4.0");
    assert_eq!(multiplier_string(&m(-5, 3)), "-0.005");
    assert_eq!(multiplier_string(&m(i64::MIN, 0)), "-9223372036854775808");
    assert_eq!(multiplier_string(&Multiplier::decimal(1234, 2)), "12.34");
}
