use resume_model::json::{JsonValue, PropertyMap};
use resume_model::json_resume::{
    Award, Basics, Iso8601Date, Location, Resume, Validate, WorkExperience,
};
use resume_model::uri::Uri;
use resume_model::validate::ValidationError;

#[test]
fn test_resume_creation() {
    let resume = Resume::new();
    assert!(resume.validate_resume().is_ok());
}

#[test]
fn test_email_validation() {
    let mut basics = Basics {
        name: None,
        label: None,
        image: None,
        email: Some("invalid-email".to_string()),
        phone: None,
        url: None,
        summary: None,
        location: None,
        profiles: None,
        additional_properties: PropertyMap::new(),
    };

    assert!(basics.validate().is_err());

    basics.email = Some("valid@example.com".to_string());
    assert!(basics.validate().is_ok());
}

#[test]
fn new_resume_is_empty() {
    let resume = Resume::new();
    assert_eq!(resume, Resume::default());
    assert!(resume.basics.is_none());
    assert!(resume.work.is_none());
    assert!(resume.meta.is_none());
    assert!(resume.additional_properties.is_empty());
}

#[test]
fn first_broken_rule_decides() {
    let mut location = Location::new();
    location.country_code = Some("usa".to_string());
    let mut basics = Basics::new();
    basics.email = Some("nobody".to_string());
    basics.location = Some(location);
    assert_eq!(basics.validate(), Err(ValidationError::InvalidEmailFormat));
    basics.email = None;
    assert_eq!(basics.validate(), Err(ValidationError::InvalidCountryCode));

    let mut work = WorkExperience::new();
    work.end_date = Some(Iso8601Date::new("yesterday"));
    let mut resume = Resume::new();
    resume.basics = Some(basics);
    resume.work = Some(vec![WorkExperience::new(), work]);
    assert_eq!(resume.validate_resume(), Err(ValidationError::InvalidCountryCode));
    resume.basics = None;
    assert_eq!(resume.validate_resume(), Err(ValidationError::InvalidDateFormat));
}

#[test]
fn rules_reach_every_dated_group() {
    let mut award = Award::new();
    award.date = Some(Iso8601Date::from("2021-13".to_string()));
    let mut resume = Resume::new();
    resume.awards = Some(vec![award]);
    assert_eq!(resume.validate_resume(), Ok(()));
    resume.awards.as_mut().unwrap()[0].date = Some(Iso8601Date::new("2021-23"));
    assert_eq!(resume.validate_resume(), Err(ValidationError::InvalidDateFormat));
}

#[test]
fn date_keeps_its_text() {
    let date = Iso8601Date::from("2023-04".to_string());
    assert_eq!(date.as_str(), "2023-04");
    assert_eq!(date, Iso8601Date::new("2023-04"));
    assert_eq!(date, Iso8601Date::from("2023-04"));
    assert_eq!(date.duplicate(), date);
    assert_eq!(date.validate(), Ok(()));
    assert_eq!(
        Iso8601Date::new("April 2023").validate(),
        Err(ValidationError::InvalidDateFormat)
    );
}

#[test]
fn property_map_keeps_insertion_order() {
    let mut map = PropertyMap::new();
    assert!(map.is_empty());
    map.insert("b".to_string(), JsonValue::text("1"));
    map.insert("a".to_string(), JsonValue::Bool(true));
    map.insert("b".to_string(), JsonValue::Null);
    assert_eq!(map.len(), 2);
    assert_eq!(map.entry(0), Some(("b", &JsonValue::Null)));
    assert_eq!(map.entry(1), Some(("a", &JsonValue::Bool(true))));
    assert_eq!(map.entry(2), None);
    assert_eq!(map.get("a"), Some(&JsonValue::Bool(true)));
    assert_eq!(map.get("c"), None);
    assert!(map.contains_key("b"));
    assert_eq!(map.remove("b"), Some(JsonValue::Null));
    assert_eq!(map.remove("b"), None);
    assert_eq!(map.len(), 1);
    assert_eq!(map.entry(0), Some(("a", &JsonValue::Bool(true))));
}

#[test]
fn values_copy_deeply() {
    let mut inner = PropertyMap::new();
    inner.insert("k".to_string(), JsonValue::Number("1.50".to_string()));
    let value = JsonValue::Array(vec![JsonValue::Object(inner), JsonValue::text("x")]);
    assert_eq!(value.clone(), value);
    assert_eq!(
        JsonValue::text_array(&vec!["a".to_string(), "b".to_string()]),
        JsonValue::Array(vec![JsonValue::text("a"), JsonValue::text("b")])
    );
}

#[test]
fn uri_is_kept_as_the_parser_writes_it() {
    let uri = Uri::parse("HTTPS://Example.NET").unwrap();
    assert_eq!(uri.as_str(), "https://example.net/");
    assert_eq!(Uri::parse(uri.as_str()), Some(uri.clone()));
    assert_eq!(Uri::parse("not a url"), None);
    assert_eq!(Uri::parse(""), None);
}
