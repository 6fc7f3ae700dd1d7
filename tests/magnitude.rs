use abs_value::binary64::{NEGATIVE_ZERO, POSITIVE_ZERO};
use abs_value::magnitude::{abs_value, abs_value_iter};

fn abs_f64(x: f64) -> f64 {
    f64::from_bits(abs_value(x.to_bits()))
}

fn abs_all(v: &[f64]) -> Vec<f64> {
    let bits: Vec<u64> = v.iter().map(|x| x.to_bits()).collect();
    abs_value_iter(bits).into_iter().map(f64::from_bits).collect()
}

#[test]
fn abs_is_nonnegative_on_finite_values() {
    for x in [-1.4, 2.6, -3.2, 0.0, -0.0, 1e-308, -5e-324, f64::MAX, f64::MIN] {
        assert!(abs_f64(x) >= 0.0, "{}", x);
    }
}

#[test]
fn abs_of_negation_is_the_same() {
    for x in [-1.4, 2.6, 0.0, -0.0, 7.25, f64::MIN_POSITIVE] {
        assert_eq!(abs_f64(x), abs_f64(-x));
        assert_eq!(abs_f64(x).to_bits(), abs_f64(-x).to_bits());
    }
}

#[test]
fn abs_of_zero_is_zero() {
    assert_eq!(abs_f64(0.0), 0.0);
    assert_eq!(abs_value(POSITIVE_ZERO), POSITIVE_ZERO);
}

#[test]
fn abs_of_negative_zero_drops_the_sign() {
    assert_eq!(abs_value(NEGATIVE_ZERO), POSITIVE_ZERO);
    assert!(abs_f64(-0.0).is_sign_positive());
}

#[test]
fn abs_of_positive_keeps_it() {
    assert_eq!(abs_f64(2.6), 2.6);
    assert_eq!(abs_f64(f64::INFINITY), f64::INFINITY);
}

#[test]
fn abs_of_negative_negates_it() {
    assert_eq!(abs_f64(-1.4), 1.4);
    assert_eq!(abs_f64(-3.2), 3.2);
    assert_eq!(abs_f64(f64::NEG_INFINITY), f64::INFINITY);
    assert_eq!(abs_value(0xbff0_0000_0000_0000), 0x3ff0_0000_0000_0000);
}

#[test]
fn abs_of_nan_is_nan_with_sign_flipped() {
    let nan = f64::NAN;
    let r = abs_f64(nan);
    assert!(r.is_nan());
    assert_eq!(r.to_bits(), nan.to_bits() ^ 0x8000_0000_0000_0000);
}

#[test]
fn mapper_keeps_length_and_order() {
    let v = [3.0, -1.0, -2.5, 0.5, -0.0];
    let r = abs_all(&v);
    assert_eq!(r.len(), v.len());
    for i in 0..v.len() {
        assert_eq!(r[i], abs_f64(v[i]));
    }
    assert_eq!(r, vec![3.0, 1.0, 2.5, 0.5, 0.0]);
}

#[test]
fn mapper_of_empty_is_empty() {
    assert_eq!(abs_value_iter(vec![]), Vec::<u64>::new());
}

#[test]
fn mapper_on_three_values() {
    let r = abs_all(&[-1.4, 2.6, -3.2]);
    assert_eq!(r, vec![1.4, 2.6, 3.2]);
    assert_eq!(format!("this is {}", r[0]), "this is 1.4");
}

#[test]
fn mapper_on_signed_zeros() {
    let r = abs_all(&[0.0, -0.0]);
    assert_eq!(r, vec![0.0, 0.0]);
    assert_eq!(r[1].to_bits(), 0);
}

#[test]
fn mapper_on_one_value() {
    let r = abs_all(&[5.0]);
    assert_eq!(r, vec![5.0]);
    assert_eq!(format!("this is {}", r[0]), "this is 5");
}
