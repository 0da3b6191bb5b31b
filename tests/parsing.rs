use hltb::{parse_range, parse_range_time, parse_range_year, Range};

#[test]
fn empty_range_is_unbounded() {
    assert_eq!(parse_range_time(""), Ok(Range { min: None, max: None }));
    assert_eq!(parse_range_year(""), Ok(Range { min: None, max: None }));
}

#[test]
fn single_value_sets_only_minimum() {
    assert_eq!(parse_range_time("10"), Ok(Range { min: Some(10), max: None }));
}

#[test]
fn two_values_set_both_bounds() {
    assert_eq!(parse_range_time("10-20"), Ok(Range { min: Some(10), max: Some(20) }));
    assert_eq!(parse_range_year("2000-2010"), Ok(Range { min: Some(2000), max: Some(2010) }));
}

#[test]
fn zero_maximum_means_no_maximum() {
    assert_eq!(parse_range_time("10-0"), Ok(Range { min: Some(10), max: None }));
}

#[test]
fn out_of_domain_year_fails() {
    assert!(parse_range_year("1900").is_err());
    assert!(parse_range_year("2000-2025").is_err());
    assert_eq!(parse_range_year("1958-2024"), Ok(Range { min: Some(1958), max: Some(2024) }));
}

#[test]
fn malformed_pieces_fail() {
    assert!(parse_range_time("10-").is_err());
    assert!(parse_range_time("-5").is_err());
    assert!(parse_range_time("ten").is_err());
    assert!(parse_range_time("70000").is_err());
    assert!(parse_range_time("1-2-x").is_err());
}

#[test]
fn extra_pieces_are_checked_then_ignored() {
    assert_eq!(parse_range_time("1-2-3"), Ok(Range { min: Some(1), max: Some(2) }));
}

#[test]
fn plus_sign_and_largest_playtime() {
    assert_eq!(parse_range_time("+7"), Ok(Range { min: Some(7), max: None }));
    assert_eq!(parse_range_time("0-65535"), Ok(Range { min: Some(0), max: Some(65535) }));
}

#[test]
fn custom_domain_bounds() {
    assert_eq!(parse_range("5", 5, 5), Ok(Range { min: Some(5), max: None }));
    assert_eq!(
        parse_range("6", 5, 5),
        Err("exceeds maximum of 5".to_string())
    );
}
