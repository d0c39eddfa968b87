use rusty::model::observation::{parse_period, validate_observation_fields};

#[test]
fn periods_split_into_kind_and_number() {
    assert_eq!(parse_period("M01"), Ok(('M', 1)));
    assert_eq!(parse_period("Q04"), Ok(('Q', 4)));
    assert_eq!(parse_period("A"), Err(format!("Invalid period: {}", "".parse::<u32>().unwrap_err())));
    assert_eq!(parse_period(""), Err("Empty period".to_string()));
    assert_eq!(parse_period("101"), Err("Invalid period: 101".to_string()));
    assert_eq!(parse_period("Mx1"), Err(format!("Invalid period: {}", "x1".parse::<u32>().unwrap_err())));
    assert_eq!(parse_period("M+7"), Ok(('M', 7)));
}

#[test]
fn observation_fields_are_checked_in_order() {
    assert!(validate_observation_fields("CUUR0000SA0", 2023, "M01").is_ok());
    assert_eq!(validate_observation_fields("SHORT", 2023, "M01"), Err("Invalid series ID: SHORT".to_string()));
    assert_eq!(validate_observation_fields("CUUR0000SA0", 1899, "M1"), Err("Invalid year: 1899".to_string()));
    assert_eq!(validate_observation_fields("CUUR0000SA0", 2101, "M01"), Err("Invalid year: 2101".to_string()));
    assert_eq!(validate_observation_fields("CUUR0000SA0", 2000, "M1"), Err("Invalid period: M1".to_string()));
}
