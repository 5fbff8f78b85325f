use pounce_algorithm::decimal::D0;
use pounce_algorithm::decimal::D1;
use pounce_algorithm::decimal::D11EM1;
use pounce_algorithm::decimal::D15EM1;
use pounce_algorithm::decimal::D1E1;
use pounce_algorithm::decimal::D1E10;
use pounce_algorithm::decimal::D1E19;
use pounce_algorithm::decimal::D1E2;
use pounce_algorithm::decimal::D1E20;
use pounce_algorithm::decimal::D1E3;
use pounce_algorithm::decimal::D1E4;
use pounce_algorithm::decimal::D1E5;
use pounce_algorithm::decimal::D1E6;
use pounce_algorithm::decimal::D1EM1;
use pounce_algorithm::decimal::D1EM10;
use pounce_algorithm::decimal::D1EM11;
use pounce_algorithm::decimal::D1EM12;
use pounce_algorithm::decimal::D1EM2;
use pounce_algorithm::decimal::D1EM20;
use pounce_algorithm::decimal::D1EM3;
use pounce_algorithm::decimal::D1EM4;
use pounce_algorithm::decimal::D1EM5;
use pounce_algorithm::decimal::D1EM6;
use pounce_algorithm::decimal::D1EM8;
use pounce_algorithm::decimal::D1EM9;
use pounce_algorithm::decimal::D23EM1;
use pounce_algorithm::decimal::D25EM2;
use pounce_algorithm::decimal::D2EM1;
use pounce_algorithm::decimal::D5;
use pounce_algorithm::decimal::D5EM1;
use pounce_algorithm::decimal::D5EM2;
use pounce_algorithm::decimal::D64;
use pounce_algorithm::decimal::D8;
use pounce_algorithm::decimal::D8EM1;
use pounce_algorithm::decimal::D999999999EM9;
use pounce_algorithm::decimal::D9999EM4;
use pounce_algorithm::decimal::D99EM2;
use pounce_algorithm::decimal::DM1;
use pounce_algorithm::decimal::DM1E19;
use pounce_algorithm::decimal::EPSILON;
use pounce_algorithm::decimal::ONE_THIRD;
use pounce_algorithm::decimal::TEN_EPSILON;
use pounce_algorithm::number::Number;

fn n(x: f64) -> Number {
    Number::from_bits(x.to_bits())
}

fn f(x: Number) -> f64 {
    f64::from_bits(x.to_bits())
}

fn samples() -> Vec<f64> {
    let base = [
        0.0,
        f64::from_bits(1),
        f64::from_bits(2),
        f64::from_bits(3),
        f64::from_bits(0x000f_ffff_ffff_ffff),
        f64::MIN_POSITIVE,
        f64::from_bits(0x0010_0000_0000_0001),
        1e-300,
        1e-160,
        2.0f64.powi(-1022 + 52),
        2.0f64.powi(-537),
        1.5 * 2.0f64.powi(-538),
        1e-20,
        1e-8,
        0.1,
        1.0 / 3.0,
        0.5,
        1.0 - f64::EPSILON / 2.0,
        1.0,
        1.0 + f64::EPSILON,
        1.0 + 2.0 * f64::EPSILON,
        1.5,
        2.0,
        3.0,
        7.0,
        10.0,
        64.0,
        1234567.891,
        4503599627370495.5,
        4503599627370496.5,
        9007199254740991.0,
        9007199254740993.0,
        1e17,
        1.8446744073709552e19,
        1e20,
        1e150,
        1e154,
        1e300,
        f64::MAX / 2.0,
        f64::from_bits(f64::MAX.to_bits() - 1),
        f64::MAX,
        f64::INFINITY,
        f64::NAN,
    ];
    let mut all = Vec::new();
    for x in base {
        all.push(x);
        all.push(-x);
    }
    let mut state: u64 = 0x9e37_79b9_7f4a_7c15;
    for _ in 0..120 {
        state = state.wrapping_mul(6364136223846793005).wrapping_add(1442695040888963407);
        all.push(f64::from_bits(state));
        let near_one = (state >> 12) | 0x3fe0_0000_0000_0000;
        all.push(f64::from_bits(near_one));
        all.push(f64::from_bits(state >> 11));
    }
    all
}

fn same(got: Number, want: f64, what: &str, a: f64, b: f64) {
    if want.is_nan() {
        assert!(got.is_nan(), "{a:e} {what} {b:e}");
    } else {
        assert_eq!(got.to_bits(), want.to_bits(), "{a:e} {what} {b:e}");
    }
}

#[test]
fn arithmetic_is_that_of_the_machine() {
    let all = samples();
    for &a in &all {
        for &b in &all {
            same(n(a).plus(n(b)), a + b, "+", a, b);
            same(n(a).minus(n(b)), a - b, "-", a, b);
            same(n(a).times(n(b)), a * b, "*", a, b);
            same(n(a).over(n(b)), a / b, "/", a, b);
        }
    }
}

#[test]
fn comparisons_are_those_of_the_machine() {
    let all = samples();
    for &a in &all {
        for &b in &all {
            assert_eq!(n(a).less(n(b)), a < b, "{a:e} < {b:e}");
            assert_eq!(n(a).at_most(n(b)), a <= b, "{a:e} <= {b:e}");
            assert_eq!(n(a).equals(n(b)), a == b, "{a:e} == {b:e}");
            if !(a == 0.0 && b == 0.0) {
                same(n(a).larger(n(b)), a.max(b), "max", a, b);
                same(n(a).smaller(n(b)), a.min(b), "min", a, b);
            }
        }
    }
}

#[test]
fn unary_operations_are_those_of_the_machine() {
    for a in samples() {
        assert_eq!(n(a).is_nan(), a.is_nan(), "{a:e}");
        assert_eq!(n(a).is_finite(), a.is_finite(), "{a:e}");
        same(n(a).abs(), a.abs(), "abs", a, a);
        same(n(a).negated(), -a, "neg", a, a);
        assert_eq!(n(a).as_u64(), a as u64, "{a:e}");
    }
    assert_eq!(n(0.999_999).as_u64(), 0);
    assert_eq!(n(4095.75).as_u64(), 4095);
}

#[test]
fn ties_go_to_even() {
    let half_ulp = f64::EPSILON / 2.0;
    assert_eq!(f(n(1.0).plus(n(half_ulp))), 1.0);
    assert_eq!(f(n(1.0 + f64::EPSILON).plus(n(half_ulp))), 1.0 + 2.0 * f64::EPSILON);
    assert_eq!(n(f64::from_bits(1)).times(n(0.5)).to_bits(), 0);
    assert_eq!(n(f64::from_bits(3)).times(n(0.5)).to_bits(), 2);
    assert_eq!(n(f64::from_bits(3)).over(n(2.0)).to_bits(), 2);
    assert_eq!(f(n(1.0).over(n(3.0))), 1.0 / 3.0);
}

#[test]
fn sums_and_products_commute() {
    let all = samples();
    for &a in &all {
        for &b in &all {
            assert_eq!(n(a).plus(n(b)), n(b).plus(n(a)));
            assert_eq!(n(a).times(n(b)), n(b).times(n(a)));
        }
    }
}

#[test]
fn decimals_are_what_their_names_say() {
    let all: [(u64, f64); 42] = [
        (DM1E19, -1.0e19),
        (DM1, -1.0),
        (D0, 0.0),
        (D1EM20, 1.0e-20),
        (D1EM12, 1.0e-12),
        (D1EM11, 1.0e-11),
        (D1EM10, 1.0e-10),
        (D1EM9, 1.0e-9),
        (D1EM8, 1.0e-8),
        (D1EM6, 1.0e-6),
        (D1EM5, 1.0e-5),
        (D1EM4, 1.0e-4),
        (D1EM3, 1.0e-3),
        (D1EM2, 1.0e-2),
        (D5EM2, 5.0e-2),
        (D1EM1, 1.0e-1),
        (D2EM1, 2.0e-1),
        (D25EM2, 25.0e-2),
        (D5EM1, 5.0e-1),
        (D8EM1, 8.0e-1),
        (D99EM2, 99.0e-2),
        (D9999EM4, 9999.0e-4),
        (D999999999EM9, 999999999.0e-9),
        (D1, 1.0),
        (D11EM1, 11.0e-1),
        (D15EM1, 15.0e-1),
        (D23EM1, 23.0e-1),
        (D5, 5.0),
        (D8, 8.0),
        (D1E1, 1.0e1),
        (D64, 64.0),
        (D1E2, 1.0e2),
        (D1E3, 1.0e3),
        (D1E4, 1.0e4),
        (D1E5, 1.0e5),
        (D1E6, 1.0e6),
        (D1E10, 1.0e10),
        (D1E19, 1.0e19),
        (D1E20, 1.0e20),
        (ONE_THIRD, 1.0 / 3.0),
        (EPSILON, f64::EPSILON),
        (TEN_EPSILON, 10.0 * f64::EPSILON),
    ];
    for (bits, x) in all {
        assert_eq!(bits, x.to_bits(), "{x:e}");
    }
}
