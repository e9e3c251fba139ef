use ket::{ket_one, ket_zero, Amplitude, Ket};
use num_complex::Complex64;

fn encode(z: Complex64) -> Amplitude {
    Amplitude { re: z.re.to_bits(), im: z.im.to_bits() }
}

fn decode(z: Amplitude) -> Complex64 {
    Complex64::new(f64::from_bits(z.re), f64::from_bits(z.im))
}

fn state(first: Complex64, second: Complex64) -> Ket {
    Ket { first: encode(first), second: encode(second) }
}

fn sum(a: Ket, b: Ket) -> Ket {
    Ket {
        first: encode(decode(a.first) + decode(b.first)),
        second: encode(decode(a.second) + decode(b.second)),
    }
}

fn scaled_left(k: Complex64, a: Ket) -> Ket {
    Ket { first: encode(k * decode(a.first)), second: encode(k * decode(a.second)) }
}

fn scaled_right(a: Ket, k: Complex64) -> Ket {
    Ket { first: encode(decode(a.first) * k), second: encode(decode(a.second) * k) }
}

fn finite_samples() -> Vec<Complex64> {
    vec![
        Complex64::new(0.0, 0.0),
        Complex64::new(1.0, 0.0),
        Complex64::new(0.0, 1.0),
        Complex64::new(-1.0, 0.0),
        Complex64::new(0.6, 0.0),
        Complex64::new(0.8, 0.0),
        Complex64::new(0.6, -0.8),
        Complex64::new(0.1, 0.2),
        Complex64::new(-3.5, 1e-9),
        Complex64::new(1e150, -1e-150),
        Complex64::new(-0.0, 0.0),
        Complex64::new(f64::MIN_POSITIVE, 2.5),
    ]
}

#[test]
fn ket_zero_add_ket_one() {
    let sum = sum(ket_zero(), ket_one());
    assert!(sum == state(Complex64::new(1.0, 0.0), Complex64::new(1.0, 0.0)))
}

#[test]
fn encode_and_decode_keep_every_bit() {
    for bits in [0u64, 1, 0x8000_0000_0000_0000, 0x3FF0_0000_0000_0000, 0x7FF0_0000_0000_0000] {
        let z = Amplitude { re: bits, im: !bits & 0xFFEF_FFFF_FFFF_FFFF };
        let back = encode(decode(z));
        assert_eq!(back.re, z.re);
        assert_eq!(back.im, z.im);
    }
}

#[test]
fn scaling_a_basis_state_by_one_keeps_it() {
    let one = Complex64::new(1.0, 0.0);
    assert!(scaled_right(ket_zero(), one) == ket_zero());
    assert!(scaled_left(one, ket_zero()) == ket_zero());
    assert!(scaled_right(ket_one(), one) == ket_one());
    assert!(scaled_left(one, ket_one()) == ket_one());
}

#[test]
fn scaling_a_finite_state_by_one_keeps_it() {
    let one = Complex64::new(1.0, 0.0);
    for p in finite_samples() {
        for q in finite_samples() {
            let a = state(p, q);
            assert!(scaled_right(a, one) == a);
            assert!(scaled_left(one, a) == a);
        }
    }
}

#[test]
fn linear_combination_of_the_basis_states() {
    let a = scaled_left(Complex64::new(0.6, 0.0), ket_zero());
    let b = scaled_left(Complex64::new(0.8, 0.0), ket_one());
    let expected = state(Complex64::new(0.6, 0.0), Complex64::new(0.8, 0.0));
    assert!(sum(a, b) == expected);
    assert!(sum(a, b) != state(Complex64::new(0.8, 0.0), Complex64::new(0.6, 0.0)));
}

#[test]
fn scaling_from_either_side_gives_equal_states() {
    for k in finite_samples() {
        for p in finite_samples() {
            let a = state(p, Complex64::new(0.8, -0.6));
            assert!(scaled_left(k, a) == scaled_right(a, k));
        }
    }
}

#[test]
fn sums_in_either_order_are_equal() {
    for p in finite_samples() {
        for q in finite_samples() {
            let a = state(p, q);
            let b = state(q, Complex64::new(0.25, -4.0));
            assert!(sum(a, b) == sum(b, a));
        }
    }
}

#[test]
fn a_sum_that_is_not_a_number_equals_nothing() {
    let up = state(Complex64::new(f64::INFINITY, 0.0), Complex64::new(0.0, 0.0));
    let down = state(Complex64::new(f64::NEG_INFINITY, 0.0), Complex64::new(0.0, 0.0));
    let lost = sum(up, down);
    assert!(lost != lost);
    assert!(sum(up, down) != sum(down, up));
}

#[test]
fn scaling_an_infinite_state_by_one_loses_it() {
    let a = state(Complex64::new(0.0, f64::INFINITY), Complex64::new(1.0, 0.0));
    assert!(a == a);
    assert!(scaled_right(a, Complex64::new(1.0, 0.0)) != a);
}
