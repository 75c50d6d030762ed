use loxite::number::{abs_bits, equal, less, less_equal, nan, negate, INFINITY_BITS, SIGN_BIT};
use loxite::text::{append_chars, append_decimal, chars_of, string_of};

fn samples() -> Vec<f64> {
    vec![
        0.0,
        -0.0,
        1.0,
        -1.0,
        2.5,
        -2.5,
        1e300,
        -1e300,
        5e-324,
        -5e-324,
        f64::INFINITY,
        f64::NEG_INFINITY,
        f64::NAN,
        -f64::NAN,
        f64::MAX,
        f64::MIN,
    ]
}

#[test]
fn comparisons_agree_with_the_machine() {
    for a in samples() {
        for b in samples() {
            let (x, y) = (a.to_bits(), b.to_bits());
            assert_eq!(equal(x, y), a == b, "{} == {}", a, b);
            assert_eq!(less(x, y), a < b, "{} < {}", a, b);
            assert_eq!(less_equal(x, y), a <= b, "{} <= {}", a, b);
        }
    }
}

#[test]
fn negation_agrees_with_the_machine() {
    for a in samples() {
        assert_eq!(negate(a.to_bits()), (-a).to_bits());
        assert_eq!(nan(a.to_bits()), a.is_nan());
        assert_eq!(abs_bits(a.to_bits()), a.abs().to_bits());
    }
}

#[test]
fn constants_are_the_bit_patterns() {
    assert_eq!(SIGN_BIT, (-0.0f64).to_bits());
    assert_eq!(INFINITY_BITS, f64::INFINITY.to_bits());
}

#[test]
fn zeros_are_equal_and_nan_is_not() {
    assert!(equal(0, SIGN_BIT));
    assert!(!less(SIGN_BIT, 0));
    assert!(less_equal(SIGN_BIT, 0));
    assert!(!equal(f64::NAN.to_bits(), f64::NAN.to_bits()));
    assert!(!less_equal(f64::NAN.to_bits(), f64::NAN.to_bits()));
}

#[test]
fn decimal_numerals() {
    for (n, expected) in [(0usize, "0"), (7, "7"), (10, "10"), (65, "65"), (1234567890, "1234567890")] {
        let mut text = String::from("n=");
        append_decimal(&mut text, n);
        assert_eq!(text, format!("n={}", expected));
    }
    let mut text = String::new();
    append_decimal(&mut text, usize::MAX);
    assert_eq!(text, format!("{}", usize::MAX));
}

#[test]
fn characters_in_and_out() {
    let chars = chars_of("héllo\n");
    assert_eq!(chars, vec!['h', 'é', 'l', 'l', 'o', '\n']);
    assert_eq!(string_of(&chars, 1, 4), "éll");
    assert_eq!(string_of(&chars, 2, 2), "");
    let mut text = String::from(">");
    append_chars(&mut text, &chars, 0, 2);
    assert_eq!(text, ">hé");
}
