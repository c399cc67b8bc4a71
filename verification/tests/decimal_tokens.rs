use std::collections::VecDeque;

use obj_parser::utility::{convert_decimal_vec, convert_vec, parse_usize, str_eq, UtilityError};
use obj_parser::{Decimal, UVPair, UVPairError};

fn deque(tokens: &[&str]) -> VecDeque<String> {
    tokens.iter().map(|t| String::from(*t)).collect()
}

#[test]
fn decimal_tokens_normalize_to_one_value() {
    let one = Decimal::from_int(1);
    assert_eq!(Decimal::parse("1"), Some(one));
    assert_eq!(Decimal::parse("1.000000"), Some(one));
    assert_eq!(Decimal::parse("+1.0"), Some(one));
    assert_eq!(Decimal::parse("0.1e1"), Some(one));
    assert_eq!(Decimal::parse("10E-1"), Some(one));

    let minus_six = Decimal::from_int(-6);
    assert_eq!(Decimal::parse("-6"), Some(minus_six));
    assert_eq!(Decimal::parse("-6.000"), Some(minus_six));
    assert_eq!(Decimal::parse("-600e-2"), Some(minus_six));
}

#[test]
fn decimal_parse_exact_fields() {
    let pi_ish = Decimal::parse("3.14").unwrap();
    assert_eq!(pi_ish.neg, false);
    assert_eq!(pi_ish.mantissa, 314);
    assert_eq!(pi_ish.exponent, -2);

    let half = Decimal::parse(".5").unwrap();
    assert_eq!(half.mantissa, 5);
    assert_eq!(half.exponent, -1);

    let ten = Decimal::parse("10").unwrap();
    assert_eq!(ten.mantissa, 1);
    assert_eq!(ten.exponent, 1);

    let zero = Decimal::parse("-0.000").unwrap();
    assert_eq!(zero, Decimal::zero());
}

#[test]
fn decimal_parse_rejections() {
    assert_eq!(Decimal::parse(""), None);
    assert_eq!(Decimal::parse("x"), None);
    assert_eq!(Decimal::parse("."), None);
    assert_eq!(Decimal::parse("+"), None);
    assert_eq!(Decimal::parse("1.0.0"), None);
    assert_eq!(Decimal::parse("1e"), None);
    assert_eq!(Decimal::parse("1e+"), None);
    assert_eq!(Decimal::parse("1 "), None);
    assert_eq!(Decimal::parse("18446744073709551615").unwrap().mantissa, u64::MAX);
    assert_eq!(Decimal::parse("18446744073709551616"), None);
}

#[test]
fn usize_token_grammar() {
    assert_eq!(parse_usize("0"), Some(0));
    assert_eq!(parse_usize("+42"), Some(42));
    assert_eq!(parse_usize("007"), Some(7));
    assert_eq!(parse_usize(""), None);
    assert_eq!(parse_usize("-1"), None);
    assert_eq!(parse_usize("3.0"), None);
    assert_eq!(parse_usize("+"), None);
    assert_eq!(parse_usize("99999999999999999999999999"), None);
}

#[test]
fn convert_vec_is_all_or_nothing() {
    assert_eq!(convert_vec(&deque(&["1", "2", "3"])), Ok(vec![1usize, 2, 3]));
    assert_eq!(
        convert_vec(&deque(&["1", "x", "3"])),
        Err(UtilityError::ConversionError)
    );
    assert_eq!(
        convert_decimal_vec(&deque(&["1.5", "-2"])),
        Ok(vec![Decimal::parse("1.5").unwrap(), Decimal::from_int(-2)])
    );
    assert_eq!(
        convert_decimal_vec(&deque(&["1.5", "oops"])),
        Err(UtilityError::ConversionError)
    );
}

#[test]
fn uv_pair_from_tokens() {
    assert_eq!(UVPair::from(&deque(&["3"])), Ok(UVPair::Curve(3)));
    assert_eq!(UVPair::from(&deque(&["3", "3"])), Ok(UVPair::Surface(3, 3)));
    assert_eq!(UVPair::from(&deque(&[])), Err(UVPairError::InvalidBufferSize));
    assert_eq!(
        UVPair::from(&deque(&["1", "2", "3"])),
        Err(UVPairError::InvalidBufferSize)
    );
    assert_eq!(UVPair::from(&deque(&["x"])), Err(UVPairError::InvalidParameters));
}

#[test]
fn uv_pair_accessors() {
    let curve = UVPair::new_curve(&[5]).unwrap();
    assert_eq!(*curve.u(), 5);
    assert_eq!(curve.v(), None);
    assert!(curve.is_curve());
    assert!(!curve.is_surface());

    let surface = UVPair::new_surface(&[5, 7]).unwrap();
    assert_eq!(*surface.u(), 5);
    assert_eq!(surface.v(), Some(&7));
    assert!(surface.is_surface());

    assert_eq!(UVPair::new_curve(&[]), Err(UVPairError::InvalidBufferSize));
    assert_eq!(UVPair::new_surface(&[1]), Err(UVPairError::InvalidBufferSize));
}

#[test]
fn str_eq_compares_by_characters() {
    assert!(str_eq("bmat", "bmat"));
    assert!(!str_eq("bmat", "bmatrix"));
    assert!(!str_eq("", "x"));
    assert!(str_eq("", ""));
}
