use ezo_rtd::decimal::Decimal;

#[test]
fn parses_plain_decimals() {
    assert_eq!(Decimal::parse("0").unwrap(), Decimal::new(false, 0, 0, 0).unwrap());
    assert_eq!(Decimal::parse("1234.5").unwrap(), Decimal::new(false, 1234, 5, 1).unwrap());
    assert_eq!(Decimal::parse("-10.035").unwrap(), Decimal::new(true, 10, 35, 3).unwrap());
    assert_eq!(Decimal::parse("+2.50").unwrap(), Decimal::new(false, 2, 50, 2).unwrap());
}

#[test]
fn refuses_text_that_is_not_a_decimal() {
    assert!(Decimal::parse("").is_none());
    assert!(Decimal::parse("-").is_none());
    assert!(Decimal::parse("-x").is_none());
    assert!(Decimal::parse("1.2.3").is_none());
    assert!(Decimal::parse("1,5").is_none());
    assert!(Decimal::parse(".5").is_none());
    assert!(Decimal::parse("5.").is_none());
    assert!(Decimal::parse("1e5").is_none());
}

#[test]
fn keeps_fraction_digits_distinct() {
    let narrow = Decimal::parse("-10.35").unwrap();
    let wide = Decimal::parse("-10.035").unwrap();
    assert_ne!(narrow, wide);
    assert_eq!(narrow.render(), "-10.35");
    assert_eq!(wide.render(), "-10.035");
}

#[test]
fn rendering_parses_back_to_the_same_value() {
    for text in ["0", "7", "-0", "35.25", "-10.5", "0.005", "123456.000789"] {
        let d = Decimal::parse(text).unwrap();
        assert_eq!(Decimal::parse(&d.render()).unwrap(), d);
        assert_eq!(d.render(), text);
    }
    // Leading zeros of the integer part do not survive, but the value does.
    let d = Decimal::parse("007").unwrap();
    assert_eq!(d.render(), "7");
    assert_eq!(Decimal::parse(&d.render()).unwrap(), d);
}

#[test]
fn renders_with_fixed_fraction_digits() {
    assert_eq!(Decimal::parse("35.2459").unwrap().render_fixed(2), "35.25");
    assert_eq!(Decimal::parse("0").unwrap().render_fixed(2), "0.00");
    assert_eq!(Decimal::parse("121.43").unwrap().render_fixed(2), "121.43");
    assert_eq!(Decimal::parse("1234.5").unwrap().render_fixed(3), "1234.500");
    assert_eq!(Decimal::parse("-10.035").unwrap().render_fixed(3), "-10.035");
    assert_eq!(Decimal::parse("-0.001").unwrap().render_fixed(2), "-0.00");
}

#[test]
fn fixed_rendering_rounds_half_away_from_zero() {
    assert_eq!(Decimal::parse("0.005").unwrap().render_fixed(2), "0.01");
    assert_eq!(Decimal::parse("0.004").unwrap().render_fixed(2), "0.00");
    assert_eq!(Decimal::parse("9.995").unwrap().render_fixed(2), "10.00");
    assert_eq!(Decimal::parse("99.999").unwrap().render_fixed(2), "100.00");
    assert_eq!(Decimal::parse("-9.995").unwrap().render_fixed(2), "-10.00");
}

#[test]
fn refuses_parts_that_do_not_fit() {
    assert!(Decimal::new(false, 0, 100, 2).is_none());
    assert!(Decimal::new(false, 1_000_000_000_000_000_000, 0, 0).is_none());
    assert!(Decimal::new(false, 0, 0, 18).is_none());
    assert!(Decimal::parse("1000000000000000000").is_none());
}
