use heat_eq::border::BorderConditions;
use heat_eq::text::parse_usize;
use heat_eq::text::str_eq;

#[test]
fn plain_numerals_parse_to_their_value() {
    assert_eq!(parse_usize("0").unwrap(), 0);
    assert_eq!(parse_usize("42").unwrap(), 42);
    assert_eq!(parse_usize("100").unwrap(), 100);
    assert_eq!(parse_usize("007").unwrap(), 7);
}

#[test]
fn the_largest_value_parses_and_one_more_does_not() {
    assert_eq!(parse_usize("18446744073709551615").unwrap(), usize::MAX);
    let e = parse_usize("18446744073709551616").unwrap_err();
    assert_eq!(e.input, "18446744073709551616");
    assert!(parse_usize("99999999999999999999999999").is_err());
}

#[test]
fn non_numerals_are_rejected_by_name() {
    for bad in ["", " 42", "42 ", "1.5", "-3", "12a", "abc", "4 2"] {
        let e = parse_usize(bad).unwrap_err();
        assert_eq!(e.input, bad);
        assert_eq!(e.message(), "value rejected");
    }
}

#[test]
fn string_equality_compares_contents() {
    assert!(str_eq("", ""));
    assert!(str_eq("Fixed", "Fixed"));
    assert!(!str_eq("Fixed", "Fixes"));
    assert!(!str_eq("Fixed", "Fixed "));
    assert!(!str_eq("", "x"));
}

#[test]
fn border_conditions_parse_exactly_their_names() {
    assert_eq!(BorderConditions::from_str("Fixed").unwrap(), BorderConditions::Fixed);
    assert_eq!(BorderConditions::from_str("Periodic").unwrap(), BorderConditions::Periodic);
    for bad in ["fixed", "PERIODIC", "", "Fixed "] {
        let e = BorderConditions::from_str(bad).unwrap_err();
        assert_eq!(e.input, bad);
    }
}

#[test]
fn border_condition_names_round_trip() {
    for b in [BorderConditions::Fixed, BorderConditions::Periodic] {
        assert_eq!(BorderConditions::from_str(b.as_str()).unwrap(), b);
    }
}

#[test]
fn the_default_border_condition_is_fixed() {
    assert_eq!(BorderConditions::default(), BorderConditions::Fixed);
}
