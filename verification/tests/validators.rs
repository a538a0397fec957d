use resume_model::validate::{
    validate_country_code, validate_email, validate_iso8601, ValidationError,
};

#[test]
fn test_iso8601_validation() {
    assert!(validate_iso8601("2023").is_ok());
    assert!(validate_iso8601("2023-04").is_ok());
    assert!(validate_iso8601("2023-04-15").is_ok());
    assert!(validate_iso8601("invalid").is_err());
}

#[test]
fn date_pattern_is_no_calendar() {
    assert_eq!(validate_iso8601("2023-19-39"), Ok(()));
    assert_eq!(validate_iso8601("1000"), Ok(()));
    assert_eq!(validate_iso8601("2999-00-00"), Ok(()));
}

#[test]
fn date_pattern_rejections() {
    let error = Err(ValidationError::InvalidDateFormat);
    assert_eq!(validate_iso8601(""), error);
    assert_eq!(validate_iso8601("3023"), error);
    assert_eq!(validate_iso8601("0999"), error);
    assert_eq!(validate_iso8601("2023-4"), error);
    assert_eq!(validate_iso8601("2023-20"), error);
    assert_eq!(validate_iso8601("2023-04-40"), error);
    assert_eq!(validate_iso8601("2023/04/15"), error);
    assert_eq!(validate_iso8601("2023-04-15 "), error);
    assert_eq!(validate_iso8601(" 2023"), error);
    assert_eq!(validate_iso8601("2023-04-15T00:00"), error);
    assert_eq!(validate_iso8601("20230"), error);
    assert_eq!(validate_iso8601("２０２３"), error);
}

#[test]
fn email_pattern_scenarios() {
    assert_eq!(validate_email("invalid-email"), Err(ValidationError::InvalidEmailFormat));
    assert_eq!(validate_email("john@example.com"), Ok(()));
    assert_eq!(validate_email("valid@example.com"), Ok(()));
}

#[test]
fn email_pattern_edges() {
    let error = Err(ValidationError::InvalidEmailFormat);
    assert_eq!(validate_email("a@b.c"), Ok(()));
    assert_eq!(validate_email("first.last@mail.example.org"), Ok(()));
    assert_eq!(validate_email(""), error);
    assert_eq!(validate_email("a@b"), error);
    assert_eq!(validate_email("@b.c"), error);
    assert_eq!(validate_email("a@.c"), error);
    assert_eq!(validate_email("a@b."), error);
    assert_eq!(validate_email("a@@b.c"), error);
    assert_eq!(validate_email("a@b@c.d"), error);
    assert_eq!(validate_email("a b@c.d"), error);
    assert_eq!(validate_email("a@b\t.c"), error);
    assert_eq!(validate_email("a.b@c"), error);
}

#[test]
fn country_code_scenarios() {
    assert_eq!(validate_country_code("US"), Ok(()));
    assert_eq!(validate_country_code("USA"), Err(ValidationError::InvalidCountryCode));
    assert_eq!(validate_country_code("us"), Err(ValidationError::InvalidCountryCode));
}

#[test]
fn country_code_is_not_held_to_a_list() {
    assert_eq!(validate_country_code("ZZ"), Ok(()));
    assert_eq!(validate_country_code("U"), Err(ValidationError::InvalidCountryCode));
    assert_eq!(validate_country_code(""), Err(ValidationError::InvalidCountryCode));
    assert_eq!(validate_country_code("U1"), Err(ValidationError::InvalidCountryCode));
    assert_eq!(validate_country_code("ÄÖ"), Err(ValidationError::InvalidCountryCode));
}

#[test]
fn rejection_codes() {
    assert_eq!(ValidationError::InvalidDateFormat.code(), "invalid_iso8601_format");
    assert_eq!(ValidationError::InvalidEmailFormat.code(), "invalid_email_format");
    assert_eq!(ValidationError::InvalidCountryCode.code(), "invalid_country_code");
}
