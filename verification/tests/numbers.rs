use berechenbarkeit::Decimal;
use berechenbarkeit::InvoiceParseError;
use berechenbarkeit::calculate_net_for_gross;
use berechenbarkeit::parse_locale_number;

fn dec(neg: bool, mant: u64, scale: u32) -> Decimal {
    Decimal { neg, mant, scale }
}

#[test]
fn parse_bauhaus_number() {
    assert!(parse_locale_number("10,000-").unwrap().eq_value(&dec(true, 10, 0)));
    assert!(parse_locale_number("1.312,00").unwrap().eq_value(&dec(false, 1312, 0)));
}

#[test]
fn parse_locale_zero() {
    let d = parse_locale_number("0,00").unwrap();
    assert_eq!(d, dec(false, 0, 2));
    assert!(d.eq_value(&dec(false, 0, 0)));
}

#[test]
fn parse_locale_thousands_and_decimal() {
    assert_eq!(parse_locale_number("1.312,00").unwrap(), dec(false, 131200, 2));
    assert_eq!(parse_locale_number("10,000-").unwrap(), dec(true, 10000, 3));
    assert_eq!(parse_locale_number("  47,60 ").unwrap(), dec(false, 4760, 2));
    assert_eq!(parse_locale_number("119").unwrap(), dec(false, 119, 0));
    assert_eq!(parse_locale_number("+3,5").unwrap(), dec(false, 35, 1));
    assert_eq!(parse_locale_number("1 234,5").unwrap(), dec(false, 12345, 1));
}

#[test]
fn parse_locale_minus_anywhere_negates_once() {
    assert_eq!(parse_locale_number("-10,00").unwrap(), dec(true, 1000, 2));
    assert_eq!(parse_locale_number("10-,00").unwrap(), dec(true, 1000, 2));
    assert_eq!(parse_locale_number("-10,00-").unwrap(), dec(true, 1000, 2));
}

#[test]
fn parse_locale_rejects_malformed() {
    for bad in ["", "abc", "1,2,3", ",", "-", "12a", "1e5", "--", "++1"] {
        match parse_locale_number(bad) {
            Err(InvoiceParseError::NumberFormat(raw)) => assert_eq!(raw, bad),
            other => panic!("expected a number format error for {bad:?}, got {other:?}"),
        }
    }
}

#[test]
fn parse_locale_rejects_out_of_range() {
    // ten significant digits exceed the supported precision
    assert!(parse_locale_number("1234567890").is_err());
    // nine digits still parse
    assert_eq!(parse_locale_number("123456789").unwrap(), dec(false, 123456789, 0));
    // more than nine decimal places exceed the supported scale
    assert!(parse_locale_number("0,0000000001").is_err());
    assert_eq!(parse_locale_number("0,000000001").unwrap(), dec(false, 1, 9));
}

#[test]
fn derive_net_examples() {
    // 119.00 gross at 19% is exactly 100.000 net
    let net = calculate_net_for_gross(&dec(false, 11900, 2), 1900);
    assert_eq!(net, dec(false, 100_000, 3));
    // 28.02 gross at 19% rounds to 23.546 net
    let net = calculate_net_for_gross(&dec(false, 2802, 2), 1900);
    assert_eq!(net, dec(false, 23_546, 3));
    // 107.00 gross at 7% is exactly 100.000 net
    let net = calculate_net_for_gross(&dec(false, 10700, 2), 700);
    assert_eq!(net, dec(false, 100_000, 3));
    // 0% leaves the amount unchanged (at scale 3)
    let net = calculate_net_for_gross(&dec(false, 4212, 2), 0);
    assert_eq!(net, dec(false, 42_120, 3));
    // the sign is kept
    let net = calculate_net_for_gross(&dec(true, 11900, 2), 1900);
    assert_eq!(net, dec(true, 100_000, 3));
}

#[test]
fn decimal_value_equality() {
    assert!(dec(false, 10000, 3).eq_value(&dec(false, 10, 0)));
    assert!(dec(true, 0, 2).eq_value(&dec(false, 0, 0)));
    assert!(!dec(true, 10, 0).eq_value(&dec(false, 10, 0)));
    assert!(!dec(false, 101, 1).eq_value(&dec(false, 10, 0)));
}
