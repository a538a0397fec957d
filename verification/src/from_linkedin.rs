//! The source normalizer: from the profile view of a LinkedIn member to a resume.
//!
//! Every rule is a spec function from the source value to the model of the entity
//! it gives; the executable functions are proved to compute exactly that.

use crate::document::{
    insert_text, lemma_put_apart, lemma_put_text_apart, put_text, reads_back, uri_is_canonical,
    Document,
};
use crate::resume_document::lemma_resume_round_trip;
use crate::json::{put, text_values, JsonModel, JsonValue, PropertyMap, PropertyModel};
use crate::json_resume::{
    lemma_list_without_violation, Award, AwardModel, Basics, BasicsModel, Certificate,
    CertificateModel, Education, EducationModel, Interest, InterestModel, Iso8601Date, Language,
    LanguageModel, Location, LocationModel, Meta, MetaModel, Profile, ProfileModel, Project,
    Publication, Resume, ResumeModel, Skill, SkillModel, Validate, VolunteerExperience,
    VolunteerExperienceModel, WorkExperience, WorkExperienceModel,
};
use crate::linkedin;
use crate::linkedin::{LanguageProficiency, TimePeriod, YearMonth};
use crate::segment::{
    nonempty, parse_description_and_highlights, segment_highlights, segment_summary,
};
use crate::text::{
    append_chars, chars_string, decimal, digit_char, is_ascii_digit, join, join_chars,
    lemma_decimal_shape, lemma_split_on_len, push_decimal, push_signed_decimal,
    push_two_digit_decimal, rows, rows_strings, signed_decimal, split_chars, split_on, str_equal,
    string_chars, strings_chars, sub_chars, trim, trim_chars, two_digit_decimal,
};
use crate::uri::{parse_uri, Uri};
use crate::validate::{
    chars_are_email, chars_are_iso8601_date, is_country_code, is_email, is_iso8601_date,
};
use vstd::prelude::*;
use vstd::string::*;

verus! {

/// A month of a year as text: the year, a hyphen, and the month in two digits.
pub open spec fn year_month_text(date: YearMonth) -> Seq<char> {
    signed_decimal(date.year as int) + seq!['-'] + two_digit_decimal(date.month.ordinal())
}

/// The date that a month of a year gives: its text where that matches the date
/// pattern, else nothing.
pub open spec fn year_month_date(date: Option<YearMonth>) -> Option<Seq<char>> {
    match date {
        Some(value) if is_iso8601_date(year_month_text(value)) => Some(year_month_text(value)),
        _ => None,
    }
}

/// A month of a year gives a date exactly when the year has four digits and
/// begins with `1` or `2`.
pub proof fn lemma_year_month_date(date: YearMonth)
    ensures
        year_month_date(Some(date)) is Some <==> 1000 <= date.year <= 2999,
{
    let year = date.year as int;
    let month = date.month.ordinal();
    let text = year_month_text(date);
    let numeral = signed_decimal(year);
    let tail = two_digit_decimal(month);
    assert(1 <= month <= 12);
    assert(tail.len() == 2 && ('0' <= tail[0] <= '1') && is_ascii_digit(tail[1])) by {
        reveal_with_fuel(decimal, 2);
    }
    let width = numeral.len() as int;
    assert(text.len() == width + 3);
    assert(text[width] == '-');
    assert(text[width + 1] == tail[0]);
    assert(text[width + 2] == tail[1]);
    assert forall|i: int| 0 <= i < numeral.len() implies text[i] == numeral[i] by {}
    if year < 0 {
        assert(text[0] == '-');
    } else {
        let n = year as nat;
        lemma_decimal_shape(n);
        if n < 1000 {
            assert(1 <= width <= 3);
            assert(!is_ascii_digit(text[width]));
        } else if n < 10000 {
            lemma_decimal_shape(n / 10);
            lemma_decimal_shape(n / 100);
            lemma_decimal_shape(n / 1000);
            assert(numeral[0] == decimal(n / 1000)[0]);
            assert(decimal(n / 1000) =~= seq![digit_char((n / 1000) as int)]);
            assert(is_ascii_digit(text[1]) && is_ascii_digit(text[2]) && is_ascii_digit(text[3]));
        } else {
            assert(numeral.len() >= 5);
            assert(is_ascii_digit(text[4]));
        }
    }
}

/// The start of a period that may be absent.
pub open spec fn period_start(period: Option<TimePeriod>) -> Option<YearMonth> {
    match period {
        Some(value) => value.start_date,
        None => None,
    }
}

/// The end of a period that may be absent.
pub open spec fn period_end(period: Option<TimePeriod>) -> Option<YearMonth> {
    match period {
        Some(value) => value.end_date,
        None => None,
    }
}

fn year_month_chars(date: &YearMonth) -> (r: Vec<char>)
    ensures
        r@ == year_month_text(*date),
{
    let mut out: Vec<char> = Vec::new();
    push_signed_decimal(&mut out, date.year);
    out.push('-');
    let month: u64 = date.month.number() as u64;
    push_two_digit_decimal(&mut out, month);
    assert(out@ =~= year_month_text(*date));
    out
}

/// Writes a month of a year as a date; nothing where the text does not match the
/// date pattern.
pub fn format_year_month(date: &Option<YearMonth>) -> (r: Option<Iso8601Date>)
    ensures
        r.deep_view() == year_month_date(*date),
{
    match date {
        Some(value) => {
            let chars = year_month_chars(value);
            if chars_are_iso8601_date(&chars) {
                Some(Iso8601Date(chars_string(&chars)))
            } else {
                None
            }
        },
        None => None,
    }
}

/// The start and the end of a period as dates.
pub fn convert_time_period(time_period: &Option<TimePeriod>) -> (r: (
    Option<Iso8601Date>,
    Option<Iso8601Date>,
))
    ensures
        r.0.deep_view() == year_month_date(period_start(*time_period)),
        r.1.deep_view() == year_month_date(period_end(*time_period)),
{
    match time_period {
        Some(period) => (
            format_year_month(&period.start_date),
            format_year_month(&period.end_date),
        ),
        None => (None, None),
    }
}

/// The skill that a source skill gives: its name, no level, and the name again as
/// the one keyword.
pub open spec fn skill_of(skill: linkedin::Skill) -> SkillModel {
    SkillModel {
        name: Some(skill.name@),
        level: None,
        keywords: Some(seq![skill.name@]),
        additional_properties: Seq::empty(),
    }
}

/// Makes a skill of a source skill.
pub fn to_jsonresume_skill(skill: &linkedin::Skill) -> (r: Skill)
    ensures
        r.deep_view() == skill_of(*skill),
{
    let keywords: Vec<String> = vec![skill.name.clone()];
    assert(keywords.deep_view() =~= seq![skill.name@]);
    Skill {
        name: Some(skill.name.clone()),
        level: None,
        keywords: Some(keywords),
        additional_properties: PropertyMap::new(),
    }
}

/// The label for a proficiency. Both professional levels give the same label.
pub open spec fn fluency_label(proficiency: Option<LanguageProficiency>) -> Seq<char> {
    match proficiency {
        Some(LanguageProficiency::NativeOrBilingual) => "Native"@,
        Some(LanguageProficiency::FullProfessional) => "Professional"@,
        Some(LanguageProficiency::ProfessionalWorking) => "Professional"@,
        Some(LanguageProficiency::LimitedWorking) => "Conversational"@,
        Some(LanguageProficiency::Elementary) => "Elementary"@,
        None => "Unknown"@,
    }
}

/// The language that a source language gives.
pub open spec fn language_of(language: linkedin::Language) -> LanguageModel {
    LanguageModel {
        language: Some(language.name@),
        fluency: Some(fluency_label(language.proficiency)),
        additional_properties: Seq::empty(),
    }
}

/// Makes a language of a source language.
pub fn to_jsonresume_language(language: &linkedin::Language) -> (r: Language)
    ensures
        r.deep_view() == language_of(*language),
{
    let fluency = match language.proficiency {
        Some(LanguageProficiency::NativeOrBilingual) => "Native",
        Some(LanguageProficiency::FullProfessional) => "Professional",
        Some(LanguageProficiency::ProfessionalWorking) => "Professional",
        Some(LanguageProficiency::LimitedWorking) => "Conversational",
        Some(LanguageProficiency::Elementary) => "Elementary",
        None => "Unknown",
    };
    Language {
        language: Some(language.name.clone()),
        fluency: Some(String::from_str(fluency)),
        additional_properties: PropertyMap::new(),
    }
}

/// The interest that a cause gives: the cause as the name, its kind as the one
/// keyword.
pub open spec fn interest_of(cause: linkedin::VolunteerCause) -> InterestModel {
    InterestModel {
        name: Some(cause.cause_name@),
        keywords: Some(seq![cause.cause_type@]),
        additional_properties: Seq::empty(),
    }
}

/// Makes an interest of a cause.
pub fn to_jsonresume_interest(cause: &linkedin::VolunteerCause) -> (r: Interest)
    ensures
        r.deep_view() == interest_of(*cause),
{
    let keywords: Vec<String> = vec![cause.cause_type.clone()];
    assert(keywords.deep_view() =~= seq![cause.cause_type@]);
    Interest {
        name: Some(cause.cause_name.clone()),
        keywords: Some(keywords),
        additional_properties: PropertyMap::new(),
    }
}

/// The award that an honor gives. The occupation has no field of its own and is
/// kept as `occupation`.
pub open spec fn award_of(honor: linkedin::Honor) -> AwardModel {
    AwardModel {
        title: Some(honor.title@),
        date: year_month_date(honor.issue_date),
        awarder: honor.issuer.deep_view(),
        summary: honor.description.deep_view(),
        additional_properties: put_text(
            Seq::empty(),
            "occupation"@,
            honor.occupation.deep_view(),
        ),
    }
}

/// Makes an award of an honor.
pub fn to_jsonresume_award(honor: &linkedin::Honor) -> (r: Award)
    ensures
        r.deep_view() == award_of(*honor),
{
    let mut properties = PropertyMap::new();
    insert_text(&mut properties, "occupation", &honor.occupation);
    Award {
        title: Some(honor.title.clone()),
        date: format_year_month(&honor.issue_date),
        awarder: honor.issuer.clone(),
        summary: honor.description.clone(),
        additional_properties: properties,
    }
}

/// The text of a month of a year that may be absent, whether or not it matches the
/// date pattern.
pub open spec fn year_month_label(date: Option<YearMonth>) -> Option<Seq<char>> {
    match date {
        Some(value) => Some(year_month_text(value)),
        None => None,
    }
}

/// The certificate that a certification gives. The license number and the month
/// of expiry have no fields of their own and are kept as `licenseNumber` and
/// `expiryDate`.
pub open spec fn certificate_of(certification: linkedin::Certification) -> CertificateModel {
    CertificateModel {
        name: Some(certification.name@),
        date: year_month_date(period_start(certification.time_period)),
        url: certification.url.deep_view(),
        issuer: certification.authority.deep_view(),
        additional_properties: put_text(
            put_text(Seq::empty(), "licenseNumber"@, certification.license_number.deep_view()),
            "expiryDate"@,
            year_month_label(period_end(certification.time_period)),
        ),
    }
}

/// Makes a certificate of a certification.
pub fn to_jsonresume_certificate(certification: &linkedin::Certification) -> (r: Certificate)
    ensures
        r.deep_view() == certificate_of(*certification),
{
    let mut properties = PropertyMap::new();
    insert_text(&mut properties, "licenseNumber", &certification.license_number);
    let (date, expiry) = match &certification.time_period {
        Some(period) => {
            let expiry = match &period.end_date {
                Some(end) => Some(chars_string(&year_month_chars(end))),
                None => None,
            };
            (format_year_month(&period.start_date), expiry)
        },
        None => (None, None),
    };
    insert_text(&mut properties, "expiryDate", &expiry);
    Certificate {
        name: Some(certification.name.clone()),
        date,
        url: certification.url.clone(),
        issuer: certification.authority.clone(),
        additional_properties: properties,
    }
}

/// The certificate that a test score gives. The score, the kind `test_score`, the
/// description and the occupation are kept as `score`, `type`, `description` and
/// `occupation`.
pub open spec fn test_score_certificate_of(test: linkedin::TestScore) -> CertificateModel {
    CertificateModel {
        name: Some(test.name@),
        date: year_month_date(test.date),
        url: None,
        issuer: None,
        additional_properties: put_text(
            put_text(
                put(
                    put(Seq::empty(), "score"@, JsonModel::Text(test.score@)),
                    "type"@,
                    JsonModel::Text("test_score"@),
                ),
                "description"@,
                test.description.deep_view(),
            ),
            "occupation"@,
            test.occupation.deep_view(),
        ),
    }
}

/// Makes a certificate of a test score.
pub fn to_jsonresume_test_score_as_certificate(test: &linkedin::TestScore) -> (r: Certificate)
    ensures
        r.deep_view() == test_score_certificate_of(*test),
{
    let mut properties = PropertyMap::new();
    properties.insert(String::from_str("score"), JsonValue::Text(test.score.clone()));
    properties.insert(String::from_str("type"), JsonValue::text("test_score"));
    insert_text(&mut properties, "description", &test.description);
    insert_text(&mut properties, "occupation", &test.occupation);
    Certificate {
        name: Some(test.name.clone()),
        date: format_year_month(&test.date),
        url: None,
        issuer: None,
        additional_properties: properties,
    }
}

/// The education entry that a course gives: the course as the field of study and
/// as the one course, with `Course` as the kind of credential. The number of the
/// course and the kind `course` are kept as `courseNumber` and `type`.
pub open spec fn course_education_of(course: linkedin::Course) -> EducationModel {
    EducationModel {
        institution: None,
        url: None,
        area: Some(course.name@),
        study_type: Some("Course"@),
        start_date: None,
        end_date: None,
        score: None,
        courses: Some(seq![course.name@]),
        additional_properties: put(
            put_text(Seq::empty(), "courseNumber"@, course.number.deep_view()),
            "type"@,
            JsonModel::Text("course"@),
        ),
    }
}

/// Makes an education entry of a course.
pub fn to_jsonresume_course_as_education(course: &linkedin::Course) -> (r: Education)
    ensures
        r.deep_view() == course_education_of(*course),
{
    let mut properties = PropertyMap::new();
    insert_text(&mut properties, "courseNumber", &course.number);
    properties.insert(String::from_str("type"), JsonValue::text("course"));
    let courses: Vec<String> = vec![course.name.clone()];
    assert(courses.deep_view() =~= seq![course.name@]);
    Education {
        institution: None,
        url: None,
        area: Some(course.name.clone()),
        study_type: Some(String::from_str("Course")),
        start_date: None,
        end_date: None,
        score: None,
        courses: Some(courses),
        additional_properties: properties,
    }
}

/// The first of two values that is present.
pub open spec fn first_present(first: Option<Seq<char>>, second: Option<Seq<char>>) -> Option<
    Seq<char>,
> {
    if first is Some {
        first
    } else {
        second
    }
}

fn first_present_text(first: &Option<String>, second: &Option<String>) -> (r: Option<String>)
    ensures
        r.deep_view() == first_present(first.deep_view(), second.deep_view()),
{
    match first {
        Some(text) => Some(text.clone()),
        None => second.clone(),
    }
}

/// What stands behind the last `sep` of `text`; all of `text` where it holds none.
pub open spec fn last_piece(text: Seq<char>, sep: char) -> Seq<char> {
    split_on(text, sep).last()
}

fn last_piece_chars(text: &str, sep: char) -> (r: Vec<char>)
    ensures
        r@ == last_piece(text@, sep),
{
    let chars = string_chars(text);
    let mut pieces = split_chars(&chars, sep);
    proof {
        lemma_split_on_len(text@, sep);
    }
    let ghost all = pieces@;
    assert(rows(all).last() == all.last()@);
    match pieces.pop() {
        Some(piece) => piece,
        None => Vec::new(),
    }
}

/// The address that `prefix` and `name` make together, where it parses.
pub open spec fn page_address(prefix: Seq<char>, name: Option<Seq<char>>) -> Option<Seq<char>> {
    match name {
        Some(text) => parse_uri(prefix + text),
        None => None,
    }
}

fn page_uri(prefix: &str, name: &Vec<char>) -> (r: Option<Uri>)
    ensures
        r.deep_view() == parse_uri(prefix@ + name@),
{
    let mut chars = string_chars(prefix);
    append_chars(&mut chars, name);
    let text = chars_string(&chars);
    Uri::parse(text.as_str())
}

/// The member's id: what stands behind the last colon of the name that identifies
/// the member.
pub open spec fn profile_id_of(profile: linkedin::Profile) -> Option<Seq<char>> {
    match profile.entity_urn {
        Some(urn) => Some(last_piece(urn@, ':')),
        None => None,
    }
}

/// The member's full name: given and family name with a space between them, or
/// the one that is present.
pub open spec fn full_name_of(profile: linkedin::Profile) -> Option<Seq<char>> {
    match (profile.first_name, profile.last_name) {
        (Some(first), Some(last)) => Some(first@ + seq![' '] + last@),
        (Some(first), None) => Some(first@),
        (None, Some(last)) => Some(last@),
        (None, None) => None,
    }
}

/// The member's full name.
pub fn get_full_name(profile: &linkedin::Profile) -> (r: Option<String>)
    ensures
        r.deep_view() == full_name_of(*profile),
{
    match (&profile.first_name, &profile.last_name) {
        (Some(first), Some(last)) => {
            let mut chars = string_chars(first.as_str());
            chars.push(' ');
            let family = string_chars(last.as_str());
            append_chars(&mut chars, &family);
            assert(chars@ =~= first@ + seq![' '] + last@);
            Some(chars_string(&chars))
        },
        (Some(first), None) => Some(first.clone()),
        (None, Some(last)) => Some(last.clone()),
        (None, None) => None,
    }
}

/// The address of an image: its root followed by the path segment of its first
/// rendition, where that parses. Nothing without a root or without a rendition.
pub open spec fn image_address(image: Option<linkedin::VectorImage>) -> Option<Seq<char>> {
    match image {
        Some(value) if value.root_url is Some && value.artifacts.len() > 0 => parse_uri(
            value.root_url->0@ + match value.artifacts[0].file_identifying_url_path_segment {
                Some(segment) => segment@,
                None => Seq::empty(),
            },
        ),
        _ => None,
    }
}

/// The address of an image.
pub fn image_uri(image: &Option<linkedin::VectorImage>) -> (r: Option<Uri>)
    ensures
        r.deep_view() == image_address(*image),
{
    match image {
        Some(value) => {
            if value.artifacts.len() == 0 {
                return None;
            }
            match &value.root_url {
                Some(root) => {
                    let segment = match &value.artifacts[0].file_identifying_url_path_segment {
                        Some(segment) => string_chars(segment.as_str()),
                        None => Vec::new(),
                    };
                    page_uri(root.as_str(), &segment)
                },
                None => None,
            }
        },
        None => None,
    }
}

/// The two-letter code of a country, for the few countries that the table holds.
pub open spec fn country_code_for(name: Seq<char>) -> Option<Seq<char>> {
    if name == "United States"@ {
        Some("US"@)
    } else if name == "Canada"@ {
        Some("CA"@)
    } else if name == "United Kingdom"@ {
        Some("GB"@)
    } else if name == "Germany"@ {
        Some("DE"@)
    } else if name == "France"@ {
        Some("FR"@)
    } else {
        None
    }
}

/// The two-letter code of a country, for the few countries that the table holds.
pub fn country_code(name: &str) -> (r: Option<String>)
    ensures
        r.deep_view() == country_code_for(name@),
{
    if str_equal(name, "United States") {
        Some(String::from_str("US"))
    } else if str_equal(name, "Canada") {
        Some(String::from_str("CA"))
    } else if str_equal(name, "United Kingdom") {
        Some(String::from_str("GB"))
    } else if str_equal(name, "Germany") {
        Some(String::from_str("DE"))
    } else if str_equal(name, "France") {
        Some(String::from_str("FR"))
    } else {
        None
    }
}

/// The location of a member: present where the profile names a country, a place
/// or an address.
pub open spec fn location_of(profile: linkedin::Profile) -> Option<LocationModel> {
    if profile.geo_country_name is Some || profile.geo_location_name is Some
        || profile.address is Some {
        Some(
            LocationModel {
                address: match profile.address {
                    Some(address) => Some(address.raw@),
                    None => None,
                },
                postal_code: first_present(
                    match profile.geo_location {
                        Some(place) => place.postal_code.deep_view(),
                        None => None,
                    },
                    match profile.address {
                        Some(address) => address.postal_code.deep_view(),
                        None => None,
                    },
                ),
                city: first_present(
                    match profile.address {
                        Some(address) => address.city.deep_view(),
                        None => None,
                    },
                    profile.geo_location_name.deep_view(),
                ),
                country_code: match profile.geo_country_name {
                    Some(name) => country_code_for(name@),
                    None => None,
                },
                region: match profile.address {
                    Some(address) => address.state.deep_view(),
                    None => None,
                },
                additional_properties: Seq::empty(),
            },
        )
    } else {
        None
    }
}

fn to_jsonresume_location(profile: &linkedin::Profile) -> (r: Option<Location>)
    ensures
        r.deep_view() == location_of(*profile),
{
    if profile.geo_country_name.is_none() && profile.geo_location_name.is_none()
        && profile.address.is_none() {
        return None;
    }
    let geo_postal_code = match &profile.geo_location {
        Some(place) => place.postal_code.clone(),
        None => None,
    };
    let (raw, address_postal_code, address_city, state) = match &profile.address {
        Some(address) => (
            Some(address.raw.clone()),
            address.postal_code.clone(),
            address.city.clone(),
            address.state.clone(),
        ),
        None => (None, None, None, None),
    };
    let code = match &profile.geo_country_name {
        Some(name) => country_code(name.as_str()),
        None => None,
    };
    Some(
        Location {
            address: raw,
            postal_code: first_present_text(&geo_postal_code, &address_postal_code),
            city: first_present_text(&address_city, &profile.geo_location_name),
            country_code: code,
            region: state,
            additional_properties: PropertyMap::new(),
        },
    )
}

/// The address of a member's page.
pub open spec fn member_page(profile: linkedin::Profile) -> Option<Seq<char>> {
    page_address("https://www.linkedin.com/in/"@, profile_id_of(profile))
}

/// The basics that a profile gives. Email and phone are not part of a profile
/// and stay absent.
pub open spec fn basics_of(profile: linkedin::Profile) -> BasicsModel {
    BasicsModel {
        name: full_name_of(profile),
        label: profile.headline.deep_view(),
        image: image_address(profile.profile_picture_original_image),
        email: None,
        phone: None,
        url: member_page(profile),
        summary: profile.summary.deep_view(),
        location: location_of(profile),
        profiles: match profile_id_of(profile) {
            Some(id) => Some(
                seq![
                    ProfileModel {
                        network: Some("LinkedIn"@),
                        username: Some(id),
                        url: member_page(profile),
                        additional_properties: Seq::empty(),
                    },
                ],
            ),
            None => None,
        },
        additional_properties: Seq::empty(),
    }
}

/// Makes the basics of a profile.
pub fn to_jsonresume_basics(profile: &linkedin::Profile) -> (r: Basics)
    ensures
        r.deep_view() == basics_of(*profile),
{
    let location = to_jsonresume_location(profile);
    let (url, profiles) = match &profile.entity_urn {
        Some(urn) => {
            let id = last_piece_chars(urn.as_str(), ':');
            let account = Profile {
                network: Some(String::from_str("LinkedIn")),
                username: Some(chars_string(&id)),
                url: page_uri("https://www.linkedin.com/in/", &id),
                additional_properties: PropertyMap::new(),
            };
            let accounts: Vec<Profile> = vec![account];
            assert(accounts.deep_view() =~= seq![accounts[0].deep_view()]);
            (page_uri("https://www.linkedin.com/in/", &id), Some(accounts))
        },
        None => (None, None),
    };
    Basics {
        name: get_full_name(profile),
        label: profile.headline.clone(),
        image: image_uri(&profile.profile_picture_original_image),
        email: None,
        phone: None,
        url,
        summary: profile.summary.clone(),
        location,
        profiles,
        additional_properties: PropertyMap::new(),
    }
}

/// The short record of an organization that may be absent.
pub open spec fn mini_company_of(company: Option<linkedin::CompanyInfo>) -> Option<
    linkedin::MiniCompany,
> {
    match company {
        Some(info) => info.mini_company,
        None => None,
    }
}

/// The address of an organization's page, made from the name under which it has
/// its page.
pub open spec fn company_page(company: Option<linkedin::CompanyInfo>) -> Option<Seq<char>> {
    page_address(
        "https://www.linkedin.com/company/"@,
        match mini_company_of(company) {
            Some(mini) => mini.universal_name.deep_view(),
            None => None,
        },
    )
}

/// The address of an organization's logo.
pub open spec fn company_logo(company: Option<linkedin::CompanyInfo>) -> Option<Seq<char>> {
    match mini_company_of(company) {
        Some(mini) => image_address(mini.logo),
        None => None,
    }
}

fn company_page_uri(company: &Option<linkedin::CompanyInfo>) -> (r: Option<Uri>)
    ensures
        r.deep_view() == company_page(*company),
{
    match company {
        Some(info) => match &info.mini_company {
            Some(mini) => match &mini.universal_name {
                Some(name) => {
                    let chars = string_chars(name.as_str());
                    page_uri("https://www.linkedin.com/company/", &chars)
                },
                None => None,
            },
            None => None,
        },
        None => None,
    }
}

fn company_logo_uri(company: &Option<linkedin::CompanyInfo>) -> (r: Option<Uri>)
    ensures
        r.deep_view() == company_logo(*company),
{
    match company {
        Some(info) => match &info.mini_company {
            Some(mini) => image_uri(&mini.logo),
            None => None,
        },
        None => None,
    }
}

/// The size of an organization as text: the two ends of the range with a hyphen
/// between them.
pub open spec fn company_size_text(range: linkedin::EmployeeCountRange) -> Seq<char> {
    decimal(range.start as nat) + seq!['-'] + decimal(range.end as nat)
}

/// What a position tells that no field holds: the size of the organization as
/// `companySize`, its industries as `industries`, the address of its logo as
/// `companyLogo`.
pub open spec fn work_properties(experience: linkedin::Experience) -> PropertyModel {
    let sized = match experience.company {
        Some(info) if info.employee_count_range is Some => put(
            Seq::empty(),
            "companySize"@,
            JsonModel::Text(company_size_text(info.employee_count_range->0)),
        ),
        _ => Seq::empty(),
    };
    let with_industries = match experience.company {
        Some(info) if info.industries.len() > 0 => put(
            sized,
            "industries"@,
            JsonModel::Array(text_values(info.industries.deep_view())),
        ),
        _ => sized,
    };
    put_text(with_industries, "companyLogo"@, company_logo(experience.company))
}

/// The position that a source position gives.
pub open spec fn work_experience_of(experience: linkedin::Experience) -> WorkExperienceModel {
    WorkExperienceModel {
        name: experience.company_name.deep_view(),
        location: first_present(
            first_present(
                experience.location_name.deep_view(),
                experience.geo_location_name.deep_view(),
            ),
            experience.region.deep_view(),
        ),
        description: experience.description.deep_view(),
        position: experience.title.deep_view(),
        url: company_page(experience.company),
        start_date: year_month_date(period_start(experience.time_period)),
        end_date: year_month_date(period_end(experience.time_period)),
        summary: match experience.description {
            Some(text) => Some(segment_summary(text@)),
            None => None,
        },
        highlights: match experience.description {
            Some(text) => segment_highlights(text@),
            None => None,
        },
        additional_properties: work_properties(experience),
    }
}

fn uri_text(uri: &Option<Uri>) -> (r: Option<String>)
    ensures
        r.deep_view() == uri.deep_view(),
{
    match uri {
        Some(value) => Some(String::from_str(value.as_str())),
        None => None,
    }
}

/// Makes a position of a source position.
pub fn to_jsonresume_work_experience(experience: &linkedin::Experience) -> (r: WorkExperience)
    ensures
        r.deep_view() == work_experience_of(*experience),
{
    let (start_date, end_date) = convert_time_period(&experience.time_period);
    let (summary, highlights) = parse_description_and_highlights(&experience.description);
    let mut properties = PropertyMap::new();
    match &experience.company {
        Some(info) => {
            match &info.employee_count_range {
                Some(range) => {
                    let mut size: Vec<char> = Vec::new();
                    push_decimal(&mut size, range.start as u64);
                    size.push('-');
                    push_decimal(&mut size, range.end as u64);
                    assert(size@ =~= company_size_text(*range));
                    properties.insert(
                        String::from_str("companySize"),
                        JsonValue::Text(chars_string(&size)),
                    );
                },
                None => {},
            }
            if info.industries.len() > 0 {
                properties.insert(
                    String::from_str("industries"),
                    JsonValue::text_array(&info.industries),
                );
            }
        },
        None => {},
    }
    let logo = uri_text(&company_logo_uri(&experience.company));
    insert_text(&mut properties, "companyLogo", &logo);
    let first = first_present_text(&experience.location_name, &experience.geo_location_name);
    WorkExperience {
        name: experience.company_name.clone(),
        location: first_present_text(&first, &experience.region),
        description: experience.description.clone(),
        position: experience.title.clone(),
        url: company_page_uri(&experience.company),
        start_date,
        end_date,
        summary,
        highlights,
        additional_properties: properties,
    }
}

/// The voluntary work that a source entry gives. The cause and the region have
/// no fields of their own and are kept as `cause` and `location`.
pub open spec fn volunteer_of(volunteer: linkedin::VolunteerExperience)
    -> VolunteerExperienceModel {
    VolunteerExperienceModel {
        organization: volunteer.company_name.deep_view(),
        position: Some(volunteer.role@),
        url: company_page(volunteer.company),
        start_date: year_month_date(period_start(volunteer.time_period)),
        end_date: year_month_date(period_end(volunteer.time_period)),
        summary: match volunteer.description {
            Some(text) => Some(segment_summary(text@)),
            None => None,
        },
        highlights: match volunteer.description {
            Some(text) => segment_highlights(text@),
            None => None,
        },
        additional_properties: put_text(
            put_text(Seq::empty(), "cause"@, volunteer.cause.deep_view()),
            "location"@,
            volunteer.region.deep_view(),
        ),
    }
}

/// Makes voluntary work of a source entry.
pub fn to_jsonresume_volunteer(volunteer: &linkedin::VolunteerExperience) -> (r:
    VolunteerExperience)
    ensures
        r.deep_view() == volunteer_of(*volunteer),
{
    let (start_date, end_date) = convert_time_period(&volunteer.time_period);
    let (summary, highlights) = parse_description_and_highlights(&volunteer.description);
    let mut properties = PropertyMap::new();
    insert_text(&mut properties, "cause", &volunteer.cause);
    insert_text(&mut properties, "location", &volunteer.region);
    VolunteerExperience {
        organization: volunteer.company_name.clone(),
        position: Some(volunteer.role.clone()),
        url: company_page_uri(&volunteer.company),
        start_date,
        end_date,
        summary,
        highlights,
        additional_properties: properties,
    }
}

/// `s` without the hyphen-and-space pairs it begins with.
pub open spec fn strip_dashes(s: Seq<char>) -> Seq<char>
    decreases s.len(),
{
    if s.len() >= 2 && s[0] == '-' && s[1] == ' ' {
        strip_dashes(s.skip(2))
    } else {
        s
    }
}

/// From a line to the activity it names: the line trimmed, without the
/// hyphen-and-space pairs in front.
pub open spec fn to_activity() -> spec_fn(Seq<char>) -> Seq<char> {
    |line: Seq<char>| strip_dashes(trim(line))
}

/// The activities that a text names, one to a line; lines that name none are left
/// out.
pub open spec fn activities_of(text: Seq<char>) -> Seq<Seq<char>> {
    split_on(text, '\n').map_values(to_activity()).filter(nonempty())
}

fn activity_chars(line: &Vec<char>) -> (r: Vec<char>)
    ensures
        r@ == to_activity()(line@),
{
    let trimmed = trim_chars(line);
    let n = trimmed.len();
    let mut start: usize = 0;
    assert(trimmed@.skip(0) == trimmed@);
    while n - start >= 2 && trimmed[start] == '-' && trimmed[start + 1] == ' '
        invariant
            start <= n == trimmed.len(),
            strip_dashes(trimmed@) == strip_dashes(trimmed@.skip(start as int)),
        decreases n - start,
    {
        assert(trimmed@.skip(start as int).skip(2) == trimmed@.skip(start + 2));
        start += 2;
    }
    let rest = sub_chars(&trimmed, start, n);
    assert(rest@ == trimmed@.skip(start as int));
    rest
}

/// The activities that a text names, one to a line.
pub fn get_activities_list(activities: &str) -> (r: Vec<String>)
    ensures
        r.deep_view() == activities_of(activities@),
{
    let chars = string_chars(activities);
    let lines = split_chars(&chars, '\n');
    let ghost all = split_on(activities@, '\n');
    let mut out: Vec<Vec<char>> = Vec::new();
    let mut i: usize = 0;
    proof {
        reveal(Seq::filter);
        assert(all.take(0).map_values(to_activity()).filter(nonempty()) =~= rows(out@));
    }
    while i < lines.len()
        invariant
            i <= lines.len() == all.len(),
            rows(lines@) == all,
            rows(out@) == all.take(i as int).map_values(to_activity()).filter(nonempty()),
        decreases lines.len() - i,
    {
        let activity = activity_chars(&lines[i]);
        let ghost before = rows(out@);
        let ghost line = all[i as int];
        assert(line == lines@[i as int]@);
        proof {
            assert(all.take(i + 1) =~= all.take(i as int).push(line));
            all.take(i as int).lemma_push_map_commute(to_activity(), line);
            all.take(i as int).map_values(to_activity()).lemma_filter_push(
                to_activity()(line),
                nonempty(),
            );
        }
        if activity.len() > 0 {
            out.push(activity);
            assert(rows(out@) =~= before.push(to_activity()(line)));
        }
        i += 1;
    }
    assert(all.take(all.len() as int) == all);
    rows_strings(&out)
}

/// A line that lists the items behind a label; no line for an absent or empty
/// list.
pub open spec fn labelled_line(label: Seq<char>, items: Option<Seq<Seq<char>>>) -> Seq<
    Seq<char>,
> {
    match items {
        Some(list) if list.len() > 0 => seq![label + join(list, seq![',', ' '])],
        _ => Seq::empty(),
    }
}

/// The lines that describe a course of study: its description, its honors, its
/// test scores, each where present.
pub open spec fn education_description_lines(education: linkedin::Education) -> Seq<Seq<char>> {
    (match education.description {
        Some(text) => seq![text@],
        None => Seq::empty(),
    }) + labelled_line("Honors: "@, education.honors.deep_view()) + labelled_line(
        "Test Scores: "@,
        education.test_scores.deep_view(),
    )
}

/// The description of a course of study: its lines joined by line breaks, absent
/// where there is no line.
pub open spec fn education_description(education: linkedin::Education) -> Option<Seq<char>> {
    let lines = education_description_lines(education);
    if lines.len() > 0 {
        Some(join(lines, seq!['\n']))
    } else {
        None
    }
}

fn push_labelled_line(lines: &mut Vec<Vec<char>>, label: &str, items: &Option<Vec<String>>)
    ensures
        rows(final(lines)@) == rows(old(lines)@) + labelled_line(label@, items.deep_view()),
{
    let ghost before = rows(lines@);
    match items {
        Some(list) => {
            if list.len() > 0 {
                let mut line = string_chars(label);
                let separator: Vec<char> = vec![',', ' '];
                assert(separator@ =~= seq![',', ' ']);
                let listed = join_chars(&strings_chars(list), &separator);
                append_chars(&mut line, &listed);
                lines.push(line);
                assert(rows(lines@) =~= before + labelled_line(label@, items.deep_view()));
            } else {
                assert(rows(lines@) =~= before + labelled_line(label@, items.deep_view()));
            }
        },
        None => {
            assert(rows(lines@) =~= before + labelled_line(label@, items.deep_view()));
        },
    }
}

fn describe_education(education: &linkedin::Education) -> (r: Option<String>)
    ensures
        r.deep_view() == education_description(*education),
{
    let mut lines: Vec<Vec<char>> = Vec::new();
    match &education.description {
        Some(text) => {
            lines.push(string_chars(text.as_str()));
        },
        None => {},
    }
    assert(rows(lines@) =~= match education.description {
        Some(text) => seq![text@],
        None => Seq::empty(),
    });
    push_labelled_line(&mut lines, "Honors: ", &education.honors);
    push_labelled_line(&mut lines, "Test Scores: ", &education.test_scores);
    if lines.len() > 0 {
        let line_break: Vec<char> = vec!['\n'];
        assert(line_break@ =~= seq!['\n']);
        Some(chars_string(&join_chars(&lines, &line_break)))
    } else {
        None
    }
}

/// The address of a school's page, made from what stands behind the last colon of
/// the name that identifies the school. Nothing without that name.
pub open spec fn school_page(school: Option<linkedin::SchoolInfo>) -> Option<Seq<char>> {
    page_address(
        "https://www.linkedin.com/school/"@,
        match school {
            Some(info) => match info.entity_urn {
                Some(urn) => Some(last_piece(urn@, ':')),
                None => None,
            },
            None => None,
        },
    )
}

/// The address of a school's logo.
pub open spec fn school_logo(school: Option<linkedin::SchoolInfo>) -> Option<Seq<char>> {
    match school {
        Some(info) => image_address(info.logo),
        None => None,
    }
}

/// The courses of a course of study: its activities, absent where it names none.
pub open spec fn courses_of(education: linkedin::Education) -> Option<Seq<Seq<char>>> {
    match education.activities {
        Some(text) if activities_of(text@).len() > 0 => Some(activities_of(text@)),
        _ => None,
    }
}

/// The education entry that a course of study gives. Honors and test scores go
/// into a description of their own, not into the score or the courses; that
/// description, the address of the school's logo and the activities as given are
/// kept as `description`, `schoolLogo` and `activities`.
pub open spec fn education_of(education: linkedin::Education) -> EducationModel {
    EducationModel {
        institution: education.school_name.deep_view(),
        url: school_page(education.school),
        area: education.field_of_study.deep_view(),
        study_type: education.degree_name.deep_view(),
        start_date: year_month_date(period_start(education.time_period)),
        end_date: year_month_date(period_end(education.time_period)),
        score: education.grade.deep_view(),
        courses: courses_of(education),
        additional_properties: put_text(
            put_text(
                put_text(Seq::empty(), "schoolLogo"@, school_logo(education.school)),
                "description"@,
                education_description(education),
            ),
            "activities"@,
            education.activities.deep_view(),
        ),
    }
}

/// Makes an education entry of a course of study.
pub fn to_jsonresume_education(education: &linkedin::Education) -> (r: Education)
    ensures
        r.deep_view() == education_of(*education),
{
    let (start_date, end_date) = convert_time_period(&education.time_period);
    let courses = match &education.activities {
        Some(text) => {
            let list = get_activities_list(text.as_str());
            if list.len() > 0 {
                Some(list)
            } else {
                None
            }
        },
        None => None,
    };
    let (url, logo) = match &education.school {
        Some(info) => {
            let url = match &info.entity_urn {
                Some(urn) => {
                    let id = last_piece_chars(urn.as_str(), ':');
                    page_uri("https://www.linkedin.com/school/", &id)
                },
                None => None,
            };
            (url, uri_text(&image_uri(&info.logo)))
        },
        None => (None, None),
    };
    let mut properties = PropertyMap::new();
    insert_text(&mut properties, "schoolLogo", &logo);
    let description = describe_education(education);
    insert_text(&mut properties, "description", &description);
    insert_text(&mut properties, "activities", &education.activities);
    Education {
        institution: education.school_name.clone(),
        url,
        area: education.field_of_study.clone(),
        study_type: education.degree_name.clone(),
        start_date,
        end_date,
        score: education.grade.clone(),
        courses,
        additional_properties: properties,
    }
}

/// No publication is taken over: the source gives them without a known shape.
pub fn to_jsonresume_publication(publication: &JsonValue) -> (r: Option<Publication>)
    ensures
        r is None,
{
    None
}

/// No project is taken over.
pub fn to_jsonresume_project(project: &linkedin::Project) -> (r: Option<Project>)
    ensures
        r is None,
{
    None
}

/// The positions of all groups, in the order of the groups.
pub open spec fn grouped_positions(groups: Seq<linkedin::PositionGroup>) -> Seq<
    linkedin::Experience,
>
    decreases groups.len(),
{
    if groups.len() == 0 {
        Seq::empty()
    } else {
        grouped_positions(groups.drop_last()) + groups.last().positions@
    }
}

/// A list of entities, absent where it would be empty.
pub open spec fn present_list<M>(items: Seq<M>) -> Option<Seq<M>> {
    if items.len() == 0 {
        None
    } else {
        Some(items)
    }
}

/// `work_experience_of` as a value.
pub open spec fn to_work() -> spec_fn(linkedin::Experience) -> WorkExperienceModel {
    |experience: linkedin::Experience| work_experience_of(experience)
}

/// `education_of` as a value.
pub open spec fn to_education() -> spec_fn(linkedin::Education) -> EducationModel {
    |education: linkedin::Education| education_of(education)
}

/// `course_education_of` as a value.
pub open spec fn to_course_education() -> spec_fn(linkedin::Course) -> EducationModel {
    |course: linkedin::Course| course_education_of(course)
}

/// `skill_of` as a value.
pub open spec fn to_skill() -> spec_fn(linkedin::Skill) -> SkillModel {
    |skill: linkedin::Skill| skill_of(skill)
}

/// `language_of` as a value.
pub open spec fn to_language() -> spec_fn(linkedin::Language) -> LanguageModel {
    |language: linkedin::Language| language_of(language)
}

/// `volunteer_of` as a value.
pub open spec fn to_volunteer() -> spec_fn(linkedin::VolunteerExperience)
    -> VolunteerExperienceModel {
    |volunteer: linkedin::VolunteerExperience| volunteer_of(volunteer)
}

/// `award_of` as a value.
pub open spec fn to_award() -> spec_fn(linkedin::Honor) -> AwardModel {
    |honor: linkedin::Honor| award_of(honor)
}

/// `certificate_of` as a value.
pub open spec fn to_certificate() -> spec_fn(linkedin::Certification) -> CertificateModel {
    |certification: linkedin::Certification| certificate_of(certification)
}

/// `test_score_certificate_of` as a value.
pub open spec fn to_test_score_certificate() -> spec_fn(linkedin::TestScore)
    -> CertificateModel {
    |test: linkedin::TestScore| test_score_certificate_of(test)
}

/// `interest_of` as a value.
pub open spec fn to_interest() -> spec_fn(linkedin::VolunteerCause) -> InterestModel {
    |cause: linkedin::VolunteerCause| interest_of(cause)
}

/// The address of the schema that a normalized resume follows.
pub open spec fn schema_address() -> Option<Seq<char>> {
    parse_uri("https://raw.githubusercontent.com/jsonresume/resume-schema/v1.0.0/schema.json"@)
}

/// The facts that a normalized resume states about itself: version `1.0.0` and
/// the moment of the normalization.
pub open spec fn meta_at(last_modified: Seq<char>) -> MetaModel {
    MetaModel {
        canonical: None,
        version: Some("1.0.0"@),
        last_modified: Some(last_modified),
        additional_properties: Seq::empty(),
    }
}

/// The resume that a profile view gives when it is normalized at the moment
/// `last_modified`.
///
/// Positions come from the groups first, then from the single positions. Courses
/// follow the courses of study as education entries, test scores follow the
/// certifications as certificates, causes become interests. A group that would be
/// empty is absent. Publications, projects and references are never taken over.
pub open spec fn resume_of(view: linkedin::ProfileView, last_modified: Seq<char>) -> ResumeModel {
    ResumeModel {
        schema: schema_address(),
        basics: Some(basics_of(view.profile)),
        work: present_list(
            (grouped_positions(view.position_groups@) + view.positions@).map_values(to_work()),
        ),
        volunteer: present_list(view.volunteer_experiences@.map_values(to_volunteer())),
        education: present_list(
            view.education@.map_values(to_education()) + view.courses@.map_values(
                to_course_education(),
            ),
        ),
        awards: present_list(view.honors@.map_values(to_award())),
        certificates: present_list(
            view.certifications@.map_values(to_certificate()) + view.test_scores@.map_values(
                to_test_score_certificate(),
            ),
        ),
        publications: None,
        skills: present_list(view.skills@.map_values(to_skill())),
        languages: present_list(view.languages@.map_values(to_language())),
        interests: present_list(view.volunteer_causes@.map_values(to_interest())),
        references: None,
        projects: None,
        meta: Some(meta_at(last_modified)),
        additional_properties: Seq::empty(),
    }
}

fn append_converted<S, T: DeepView, F: Fn(&S) -> T>(
    out: &mut Vec<T>,
    items: &Vec<S>,
    convert: F,
    Ghost(model): Ghost<spec_fn(S) -> T::V>,
)
    requires
        forall|item: &S| call_requires(convert, (item,)),
        forall|item: &S, converted: T|
            call_ensures(convert, (item,), converted) ==> converted.deep_view() == model(*item),
    ensures
        final(out).deep_view() == old(out).deep_view() + items@.map_values(model),
{
    let ghost before = out.deep_view();
    let mut i: usize = 0;
    assert(out.deep_view() =~= before + items@.take(0).map_values(model));
    while i < items.len()
        invariant
            i <= items.len(),
            forall|item: &S| call_requires(convert, (item,)),
            forall|item: &S, converted: T|
                call_ensures(convert, (item,), converted) ==> converted.deep_view() == model(
                    *item,
                ),
            out.deep_view() == before + items@.take(i as int).map_values(model),
        decreases items.len() - i,
    {
        let ghost so_far = out.deep_view();
        let converted = convert(&items[i]);
        out.push(converted);
        assert(out.deep_view() =~= so_far.push(model(items@[i as int])));
        assert(items@.take(i + 1) =~= items@.take(i as int).push(items@[i as int]));
        assert(out.deep_view() =~= before + items@.take(i + 1).map_values(model));
        i += 1;
    }
    assert(items@.take(items.len() as int) == items@);
}

fn present<T: DeepView>(items: Vec<T>) -> (r: Option<Vec<T>>)
    ensures
        r.deep_view() == present_list(items.deep_view()),
{
    if items.len() == 0 {
        None
    } else {
        Some(items)
    }
}

fn convert_positions(view: &linkedin::ProfileView) -> (r: Vec<WorkExperience>)
    ensures
        r.deep_view() == (grouped_positions(view.position_groups@) + view.positions@).map_values(
            to_work(),
        ),
{
    let mut work: Vec<WorkExperience> = Vec::new();
    let mut g: usize = 0;
    assert(work.deep_view() =~= grouped_positions(view.position_groups@.take(0)).map_values(
        to_work(),
    ));
    while g < view.position_groups.len()
        invariant
            g <= view.position_groups.len(),
            work.deep_view() == grouped_positions(view.position_groups@.take(g as int)).map_values(
                to_work(),
            ),
        decreases view.position_groups.len() - g,
    {
        let ghost groups = view.position_groups@;
        assert(groups.take(g + 1).drop_last() == groups.take(g as int));
        append_converted(
            &mut work,
            &view.position_groups[g].positions,
            to_jsonresume_work_experience,
            Ghost(to_work()),
        );
        assert(work.deep_view() =~= grouped_positions(groups.take(g + 1)).map_values(to_work()));
        g += 1;
    }
    assert(view.position_groups@.take(view.position_groups.len() as int)
        == view.position_groups@);
    append_converted(&mut work, &view.positions, to_jsonresume_work_experience, Ghost(to_work()));
    assert(work.deep_view() =~= (grouped_positions(view.position_groups@)
        + view.positions@).map_values(to_work()));
    work
}

/// Normalizes a profile view at the moment `last_modified`.
pub fn to_json_resume_at(view: &linkedin::ProfileView, last_modified: String) -> (r: Resume)
    ensures
        r.deep_view() == resume_of(*view, last_modified@),
{
    let work = convert_positions(view);
    let mut volunteer: Vec<VolunteerExperience> = Vec::new();
    append_converted(
        &mut volunteer,
        &view.volunteer_experiences,
        to_jsonresume_volunteer,
        Ghost(to_volunteer()),
    );
    let mut education: Vec<Education> = Vec::new();
    append_converted(
        &mut education,
        &view.education,
        to_jsonresume_education,
        Ghost(to_education()),
    );
    append_converted(
        &mut education,
        &view.courses,
        to_jsonresume_course_as_education,
        Ghost(to_course_education()),
    );
    let mut awards: Vec<Award> = Vec::new();
    append_converted(&mut awards, &view.honors, to_jsonresume_award, Ghost(to_award()));
    let mut certificates: Vec<Certificate> = Vec::new();
    append_converted(
        &mut certificates,
        &view.certifications,
        to_jsonresume_certificate,
        Ghost(to_certificate()),
    );
    append_converted(
        &mut certificates,
        &view.test_scores,
        to_jsonresume_test_score_as_certificate,
        Ghost(to_test_score_certificate()),
    );
    let mut skills: Vec<Skill> = Vec::new();
    append_converted(&mut skills, &view.skills, to_jsonresume_skill, Ghost(to_skill()));
    let mut languages: Vec<Language> = Vec::new();
    append_converted(&mut languages, &view.languages, to_jsonresume_language, Ghost(to_language()));
    let mut interests: Vec<Interest> = Vec::new();
    append_converted(
        &mut interests,
        &view.volunteer_causes,
        to_jsonresume_interest,
        Ghost(to_interest()),
    );
    Resume {
        schema: Uri::parse(
            "https://raw.githubusercontent.com/jsonresume/resume-schema/v1.0.0/schema.json",
        ),
        basics: Some(to_jsonresume_basics(&view.profile)),
        work: present(work),
        volunteer: present(volunteer),
        education: present(education),
        awards: present(awards),
        certificates: present(certificates),
        publications: None,
        skills: present(skills),
        languages: present(languages),
        interests: present(interests),
        references: None,
        projects: None,
        meta: Some(
            Meta {
                canonical: None,
                version: Some(String::from_str("1.0.0")),
                last_modified: Some(last_modified),
                additional_properties: PropertyMap::new(),
            },
        ),
        additional_properties: PropertyMap::new(),
    }
}

/// The moment that `chrono::Utc::now` reports, written by `to_rfc3339`. It differs
/// from call to call, so nothing is claimed of it.
#[verifier::external_body]
fn current_timestamp() -> String {
    chrono::Utc::now().to_rfc3339()
}

/// The moment at which a resume says it was last modified.
pub open spec fn last_modified_of(resume: ResumeModel) -> Seq<char> {
    resume.meta->0.last_modified->0
}

/// A source that can be normalized into a resume.
pub trait ToJsonResume {
    /// The resume that the source gives, normalized at the moment of the call.
    fn to_json_resume(&self) -> Resume;
}

impl ToJsonResume for linkedin::ProfileView {
    /// Normalizes the profile view now: the resume is the one that
    /// `to_json_resume_at` gives for the moment that its own `lastModified` states.
    fn to_json_resume(&self) -> (r: Resume)
        ensures
            r.deep_view() == resume_of(*self, last_modified_of(r.deep_view())),
    {
        to_json_resume_at(self, current_timestamp())
    }
}

/// The email of a contact record, where it matches the email pattern.
pub open spec fn contact_email(contact: linkedin::ContactInfo) -> Option<Seq<char>> {
    match contact.email_address {
        Some(email) if is_email(email@) => Some(email@),
        _ => None,
    }
}

/// The first phone number of a contact record.
pub open spec fn contact_phone(contact: linkedin::ContactInfo) -> Option<Seq<char>> {
    if contact.phone_numbers.len() > 0 {
        Some(contact.phone_numbers[0]@)
    } else {
        None
    }
}

/// `basics` with the email and the phone of `contact` in the places that were
/// empty. What `basics` held stays.
pub open spec fn with_contact(basics: BasicsModel, contact: linkedin::ContactInfo)
    -> BasicsModel {
    BasicsModel {
        email: first_present(basics.email, contact_email(contact)),
        phone: first_present(basics.phone, contact_phone(contact)),
        ..basics
    }
}

/// Lays the contact record over the basics: email and phone are filled in where
/// the basics had none. An email that does not match the email pattern is left
/// out.
pub fn merge_contact_info(basics: &mut Basics, contact: &linkedin::ContactInfo)
    ensures
        final(basics).deep_view() == with_contact(old(basics).deep_view(), *contact),
{
    if basics.email.is_none() {
        match &contact.email_address {
            Some(email) => {
                let chars = string_chars(email.as_str());
                if chars_are_email(&chars) {
                    basics.email = Some(email.clone());
                }
            },
            None => {},
        }
    }
    if basics.phone.is_none() && contact.phone_numbers.len() > 0 {
        basics.phone = Some(contact.phone_numbers[0].clone());
    }
}

/// Basics that break no rule break none after a contact record was laid over
/// them.
pub proof fn lemma_merge_keeps_valid(basics: BasicsModel, contact: linkedin::ContactInfo)
    requires
        Basics::violation_of(basics) is None,
    ensures
        Basics::violation_of(with_contact(basics, contact)) is None,
{
}

/// The code that the table gives for a country matches the country-code pattern.
pub proof fn lemma_country_code_for(name: Seq<char>)
    ensures
        country_code_for(name) matches Some(code) ==> is_country_code(code),
{
    reveal_strlit("US");
    reveal_strlit("CA");
    reveal_strlit("GB");
    reveal_strlit("DE");
    reveal_strlit("FR");
}

/// Whatever the normalizer makes of a profile view breaks no field rule.
pub proof fn lemma_normalized_resume_is_valid(
    view: linkedin::ProfileView,
    last_modified: Seq<char>,
)
    ensures
        Resume::violation_of(resume_of(view, last_modified)) is None,
{
    let resume = resume_of(view, last_modified);
    if let Some(name) = view.profile.geo_country_name {
        lemma_country_code_for(name@);
    }
    assert(Basics::violation_of(basics_of(view.profile)) is None);
    lemma_list_without_violation::<WorkExperience>(resume.work);
    lemma_list_without_violation::<VolunteerExperience>(resume.volunteer);
    lemma_list_without_violation::<Education>(resume.education);
    lemma_list_without_violation::<Award>(resume.awards);
    lemma_list_without_violation::<Certificate>(resume.certificates);
    lemma_list_without_violation::<Publication>(resume.publications);
    lemma_list_without_violation::<Project>(resume.projects);
}

/// A list that is absent or holds something.
pub open spec fn not_empty<M>(items: Option<Seq<M>>) -> bool {
    items matches Some(list) ==> list.len() > 0
}

/// The normalizer gives no empty list: a list of a normalized resume, or of an
/// entity in it, is absent or holds something.
pub proof fn lemma_normalized_resume_has_no_empty_list(
    view: linkedin::ProfileView,
    last_modified: Seq<char>,
)
    ensures
        ({
            let resume = resume_of(view, last_modified);
            &&& not_empty(resume.work)
            &&& not_empty(resume.volunteer)
            &&& not_empty(resume.education)
            &&& not_empty(resume.awards)
            &&& not_empty(resume.certificates)
            &&& not_empty(resume.publications)
            &&& not_empty(resume.skills)
            &&& not_empty(resume.languages)
            &&& not_empty(resume.interests)
            &&& not_empty(resume.references)
            &&& not_empty(resume.projects)
            &&& not_empty(resume.basics->0.profiles)
            &&& resume.work matches Some(list) ==> forall|i: int|
                0 <= i < list.len() ==> not_empty((#[trigger] list[i]).highlights)
            &&& resume.volunteer matches Some(list) ==> forall|i: int|
                0 <= i < list.len() ==> not_empty((#[trigger] list[i]).highlights)
            &&& resume.education matches Some(list) ==> forall|i: int|
                0 <= i < list.len() ==> not_empty((#[trigger] list[i]).courses)
            &&& resume.skills matches Some(list) ==> forall|i: int|
                0 <= i < list.len() ==> not_empty((#[trigger] list[i]).keywords)
            &&& resume.interests matches Some(list) ==> forall|i: int|
                0 <= i < list.len() ==> not_empty((#[trigger] list[i]).keywords)
        }),
{
}

/// Whether the resource identifiers that a profile view brings along are texts
/// of resource identifiers. Every `Uri` is.
pub open spec fn source_is_canonical(view: linkedin::ProfileView) -> bool {
    forall|i: int|
        0 <= i < view.certifications.len() ==> uri_is_canonical(
            (#[trigger] view.certifications[i]).url.deep_view(),
        )
}

/// The names under which the normalizer keeps what has no field in a position
/// are none of the names of its fields.
proof fn lemma_work_kept_names()
    ensures
        !WorkExperience::knows("companySize"@),
        !WorkExperience::knows("industries"@),
        !WorkExperience::knows("companyLogo"@),
{
    reveal_strlit("name");
    assert("name"@.len() == 4);
    reveal_strlit("location");
    assert("location"@.len() == 8);
    reveal_strlit("description");
    assert("description"@.len() == 11);
    assert("description"@[0] == 'd');
    reveal_strlit("position");
    assert("position"@.len() == 8);
    reveal_strlit("url");
    assert("url"@.len() == 3);
    reveal_strlit("startDate");
    assert("startDate"@.len() == 9);
    reveal_strlit("endDate");
    assert("endDate"@.len() == 7);
    reveal_strlit("summary");
    assert("summary"@.len() == 7);
    reveal_strlit("highlights");
    assert("highlights"@.len() == 10);
    assert("highlights"@[0] == 'h');
    reveal_strlit("companySize");
    assert("companySize"@.len() == 11);
    assert("companySize"@[0] == 'c');
    reveal_strlit("industries");
    assert("industries"@.len() == 10);
    assert("industries"@[0] == 'i');
    reveal_strlit("companyLogo");
    assert("companyLogo"@.len() == 11);
    assert("companyLogo"@[0] == 'c');
}

/// The names under which the normalizer keeps what has no field in voluntary work
/// are none of the names of its fields.
proof fn lemma_volunteer_kept_names()
    ensures
        !VolunteerExperience::knows("cause"@),
        !VolunteerExperience::knows("location"@),
{
    reveal_strlit("organization");
    assert("organization"@.len() == 12);
    reveal_strlit("position");
    assert("position"@.len() == 8);
    assert("position"@[0] == 'p');
    reveal_strlit("url");
    assert("url"@.len() == 3);
    reveal_strlit("startDate");
    assert("startDate"@.len() == 9);
    reveal_strlit("endDate");
    assert("endDate"@.len() == 7);
    reveal_strlit("summary");
    assert("summary"@.len() == 7);
    reveal_strlit("highlights");
    assert("highlights"@.len() == 10);
    reveal_strlit("cause");
    assert("cause"@.len() == 5);
    reveal_strlit("location");
    assert("location"@.len() == 8);
    assert("location"@[0] == 'l');
}

/// The names under which the normalizer keeps what has no field in an education entry
/// are none of the names of its fields.
proof fn lemma_education_kept_names()
    ensures
        !Education::knows("schoolLogo"@),
        !Education::knows("description"@),
        !Education::knows("activities"@),
        !Education::knows("courseNumber"@),
        !Education::knows("type"@),
{
    reveal_strlit("institution");
    assert("institution"@.len() == 11);
    assert("institution"@[0] == 'i');
    reveal_strlit("url");
    assert("url"@.len() == 3);
    reveal_strlit("area");
    assert("area"@.len() == 4);
    assert("area"@[0] == 'a');
    reveal_strlit("studyType");
    assert("studyType"@.len() == 9);
    reveal_strlit("startDate");
    assert("startDate"@.len() == 9);
    reveal_strlit("endDate");
    assert("endDate"@.len() == 7);
    reveal_strlit("score");
    assert("score"@.len() == 5);
    reveal_strlit("courses");
    assert("courses"@.len() == 7);
    reveal_strlit("schoolLogo");
    assert("schoolLogo"@.len() == 10);
    reveal_strlit("description");
    assert("description"@.len() == 11);
    assert("description"@[0] == 'd');
    reveal_strlit("activities");
    assert("activities"@.len() == 10);
    reveal_strlit("courseNumber");
    assert("courseNumber"@.len() == 12);
    reveal_strlit("type");
    assert("type"@.len() == 4);
    assert("type"@[0] == 't');
}

/// The names under which the normalizer keeps what has no field in an award
/// are none of the names of its fields.
proof fn lemma_award_kept_names()
    ensures
        !Award::knows("occupation"@),
{
    reveal_strlit("title");
    assert("title"@.len() == 5);
    reveal_strlit("date");
    assert("date"@.len() == 4);
    reveal_strlit("awarder");
    assert("awarder"@.len() == 7);
    reveal_strlit("summary");
    assert("summary"@.len() == 7);
    reveal_strlit("occupation");
    assert("occupation"@.len() == 10);
}

/// The names under which the normalizer keeps what has no field in a certificate
/// are none of the names of its fields.
proof fn lemma_certificate_kept_names()
    ensures
        !Certificate::knows("licenseNumber"@),
        !Certificate::knows("expiryDate"@),
        !Certificate::knows("score"@),
        !Certificate::knows("type"@),
        !Certificate::knows("description"@),
        !Certificate::knows("occupation"@),
{
    reveal_strlit("name");
    assert("name"@.len() == 4);
    assert("name"@[0] == 'n');
    reveal_strlit("date");
    assert("date"@.len() == 4);
    assert("date"@[0] == 'd');
    reveal_strlit("url");
    assert("url"@.len() == 3);
    reveal_strlit("issuer");
    assert("issuer"@.len() == 6);
    reveal_strlit("licenseNumber");
    assert("licenseNumber"@.len() == 13);
    reveal_strlit("expiryDate");
    assert("expiryDate"@.len() == 10);
    reveal_strlit("score");
    assert("score"@.len() == 5);
    reveal_strlit("type");
    assert("type"@.len() == 4);
    assert("type"@[0] == 't');
    reveal_strlit("description");
    assert("description"@.len() == 11);
    reveal_strlit("occupation");
    assert("occupation"@.len() == 10);
}

proof fn lemma_work_is_canonical(experience: linkedin::Experience)
    ensures
        WorkExperience::canonical(work_experience_of(experience)),
{
    lemma_work_kept_names();
    let none = Seq::<(Seq<char>, JsonModel)>::empty();
    let sized = match experience.company {
        Some(info) if info.employee_count_range is Some => put(
            none,
            "companySize"@,
            JsonModel::Text(company_size_text(info.employee_count_range->0)),
        ),
        _ => none,
    };
    if let Some(info) = experience.company {
        if info.employee_count_range is Some {
            lemma_put_apart::<WorkExperience>(
                none,
                "companySize"@,
                JsonModel::Text(company_size_text(info.employee_count_range->0)),
            );
        }
        if info.industries.len() > 0 {
            lemma_put_apart::<WorkExperience>(
                sized,
                "industries"@,
                JsonModel::Array(text_values(info.industries.deep_view())),
            );
        }
    }
    let with_industries = match experience.company {
        Some(info) if info.industries.len() > 0 => put(
            sized,
            "industries"@,
            JsonModel::Array(text_values(info.industries.deep_view())),
        ),
        _ => sized,
    };
    lemma_put_text_apart::<WorkExperience>(
        with_industries,
        "companyLogo"@,
        company_logo(experience.company),
    );
}

proof fn lemma_volunteer_is_canonical(volunteer: linkedin::VolunteerExperience)
    ensures
        VolunteerExperience::canonical(volunteer_of(volunteer)),
{
    lemma_volunteer_kept_names();
    let none = Seq::<(Seq<char>, JsonModel)>::empty();
    lemma_put_text_apart::<VolunteerExperience>(none, "cause"@, volunteer.cause.deep_view());
    lemma_put_text_apart::<VolunteerExperience>(
        put_text(none, "cause"@, volunteer.cause.deep_view()),
        "location"@,
        volunteer.region.deep_view(),
    );
}

proof fn lemma_education_is_canonical(education: linkedin::Education)
    ensures
        Education::canonical(education_of(education)),
{
    lemma_education_kept_names();
    let none = Seq::<(Seq<char>, JsonModel)>::empty();
    let logo = put_text(none, "schoolLogo"@, school_logo(education.school));
    let described = put_text(logo, "description"@, education_description(education));
    lemma_put_text_apart::<Education>(none, "schoolLogo"@, school_logo(education.school));
    lemma_put_text_apart::<Education>(logo, "description"@, education_description(education));
    lemma_put_text_apart::<Education>(
        described,
        "activities"@,
        education.activities.deep_view(),
    );
}

proof fn lemma_course_education_is_canonical(course: linkedin::Course)
    ensures
        Education::canonical(course_education_of(course)),
{
    lemma_education_kept_names();
    let none = Seq::<(Seq<char>, JsonModel)>::empty();
    lemma_put_text_apart::<Education>(none, "courseNumber"@, course.number.deep_view());
    lemma_put_apart::<Education>(
        put_text(none, "courseNumber"@, course.number.deep_view()),
        "type"@,
        JsonModel::Text("course"@),
    );
}

proof fn lemma_award_is_canonical(honor: linkedin::Honor)
    ensures
        Award::canonical(award_of(honor)),
{
    lemma_award_kept_names();
    lemma_put_text_apart::<Award>(Seq::empty(), "occupation"@, honor.occupation.deep_view());
}

proof fn lemma_certificate_is_canonical(certification: linkedin::Certification)
    requires
        uri_is_canonical(certification.url.deep_view()),
    ensures
        Certificate::canonical(certificate_of(certification)),
{
    lemma_certificate_kept_names();
    let none = Seq::<(Seq<char>, JsonModel)>::empty();
    let licensed = put_text(none, "licenseNumber"@, certification.license_number.deep_view());
    lemma_put_text_apart::<Certificate>(
        none,
        "licenseNumber"@,
        certification.license_number.deep_view(),
    );
    lemma_put_text_apart::<Certificate>(
        licensed,
        "expiryDate"@,
        year_month_label(period_end(certification.time_period)),
    );
}

proof fn lemma_test_score_certificate_is_canonical(test: linkedin::TestScore)
    ensures
        Certificate::canonical(test_score_certificate_of(test)),
{
    lemma_certificate_kept_names();
    let none = Seq::<(Seq<char>, JsonModel)>::empty();
    let scored = put(none, "score"@, JsonModel::Text(test.score@));
    let typed = put(scored, "type"@, JsonModel::Text("test_score"@));
    let described = put_text(typed, "description"@, test.description.deep_view());
    lemma_put_apart::<Certificate>(none, "score"@, JsonModel::Text(test.score@));
    lemma_put_apart::<Certificate>(scored, "type"@, JsonModel::Text("test_score"@));
    lemma_put_text_apart::<Certificate>(typed, "description"@, test.description.deep_view());
    lemma_put_text_apart::<Certificate>(described, "occupation"@, test.occupation.deep_view());
}

/// Whatever the normalizer makes of a profile view is canonical: what its
/// entities keep beside their fields has names of its own, and every resource
/// identifier in it is the text of one.
pub proof fn lemma_normalized_resume_is_canonical(
    view: linkedin::ProfileView,
    last_modified: Seq<char>,
)
    requires
        source_is_canonical(view),
    ensures
        Resume::canonical(resume_of(view, last_modified)),
{
    let resume = resume_of(view, last_modified);
    let none = Seq::<(Seq<char>, JsonModel)>::empty();
    assert(Basics::canonical(basics_of(view.profile)));
    assert(Meta::canonical(meta_at(last_modified)));
    if let Some(list) = resume.work {
        let positions = grouped_positions(view.position_groups@) + view.positions@;
        assert forall|i: int| 0 <= i < list.len() implies WorkExperience::canonical(
            #[trigger] list[i],
        ) by {
            lemma_work_is_canonical(positions[i]);
        }
    }
    if let Some(list) = resume.volunteer {
        assert forall|i: int| 0 <= i < list.len() implies VolunteerExperience::canonical(
            #[trigger] list[i],
        ) by {
            lemma_volunteer_is_canonical(view.volunteer_experiences@[i]);
        }
    }
    if let Some(list) = resume.education {
        assert forall|i: int| 0 <= i < list.len() implies Education::canonical(
            #[trigger] list[i],
        ) by {
            if i < view.education.len() {
                lemma_education_is_canonical(view.education@[i]);
            } else {
                lemma_course_education_is_canonical(view.courses@[i - view.education.len()]);
            }
        }
    }
    if let Some(list) = resume.awards {
        assert forall|i: int| 0 <= i < list.len() implies Award::canonical(#[trigger] list[i]) by {
            lemma_award_is_canonical(view.honors@[i]);
        }
    }
    if let Some(list) = resume.certificates {
        assert forall|i: int| 0 <= i < list.len() implies Certificate::canonical(
            #[trigger] list[i],
        ) by {
            if i < view.certifications.len() {
                lemma_certificate_is_canonical(view.certifications@[i]);
            } else {
                lemma_test_score_certificate_is_canonical(
                    view.test_scores@[i - view.certifications.len()],
                );
            }
        }
    }
    if let Some(list) = resume.skills {
        assert forall|i: int| 0 <= i < list.len() implies Skill::canonical(#[trigger] list[i]) by {
            assert(skill_of(view.skills@[i]).additional_properties == none);
        }
    }
    if let Some(list) = resume.languages {
        assert forall|i: int| 0 <= i < list.len() implies Language::canonical(
            #[trigger] list[i],
        ) by {
            assert(language_of(view.languages@[i]).additional_properties == none);
        }
    }
    if let Some(list) = resume.interests {
        assert forall|i: int| 0 <= i < list.len() implies Interest::canonical(
            #[trigger] list[i],
        ) by {
            assert(interest_of(view.volunteer_causes@[i]).additional_properties == none);
        }
    }
}

/// The document of a normalized resume reads back as the resume.
pub proof fn lemma_normalized_resume_reads_back(
    view: linkedin::ProfileView,
    last_modified: Seq<char>,
)
    requires
        source_is_canonical(view),
    ensures
        reads_back::<Resume>(resume_of(view, last_modified)),
{
    lemma_normalized_resume_is_canonical(view, last_modified);
    lemma_resume_round_trip(resume_of(view, last_modified));
}

} // verus!
