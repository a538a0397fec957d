//! The source profile: what the normalizer reads of a LinkedIn profile view, as
//! plain values.

use crate::json::JsonValue;
use crate::uri::Uri;
use vstd::prelude::*;

verus! {

/// A month of the year.
#[derive(Clone, Copy, Debug, PartialEq, Eq, Structural)]
pub enum Month {
    January,
    February,
    March,
    April,
    May,
    June,
    July,
    August,
    September,
    October,
    November,
    December,
}

impl Month {
    /// The number of the month, from 1 for January to 12 for December.
    pub open spec fn ordinal(self) -> nat {
        match self {
            Month::January => 1,
            Month::February => 2,
            Month::March => 3,
            Month::April => 4,
            Month::May => 5,
            Month::June => 6,
            Month::July => 7,
            Month::August => 8,
            Month::September => 9,
            Month::October => 10,
            Month::November => 11,
            Month::December => 12,
        }
    }

    /// The number of the month, from 1 for January to 12 for December.
    pub fn number(&self) -> (n: u8)
        ensures
            n == self.ordinal(),
            1 <= n <= 12,
    {
        match self {
            Month::January => 1,
            Month::February => 2,
            Month::March => 3,
            Month::April => 4,
            Month::May => 5,
            Month::June => 6,
            Month::July => 7,
            Month::August => 8,
            Month::September => 9,
            Month::October => 10,
            Month::November => 11,
            Month::December => 12,
        }
    }

    /// The month with the given number, if it is one from 1 to 12.
    pub fn from_number(n: u8) -> (r: Option<Month>)
        ensures
            r is Some <==> 1 <= n <= 12,
            r matches Some(month) ==> month.ordinal() == n,
    {
        match n {
            1 => Some(Month::January),
            2 => Some(Month::February),
            3 => Some(Month::March),
            4 => Some(Month::April),
            5 => Some(Month::May),
            6 => Some(Month::June),
            7 => Some(Month::July),
            8 => Some(Month::August),
            9 => Some(Month::September),
            10 => Some(Month::October),
            11 => Some(Month::November),
            12 => Some(Month::December),
            _ => None,
        }
    }
}

/// A month of a year.
#[derive(Clone, Copy, Debug, PartialEq, Eq, Structural)]
pub struct YearMonth {
    pub year: i32,
    pub month: Month,
}

/// When something began and ended, as far as known.
#[derive(Clone, Copy, Debug, PartialEq, Eq, Structural)]
pub struct TimePeriod {
    pub start_date: Option<YearMonth>,
    pub end_date: Option<YearMonth>,
}

/// One rendition of an image.
#[derive(Clone, Debug, PartialEq, Eq)]
pub struct ImageArtifact {
    /// The path segment that, behind the root of the image, addresses this rendition.
    pub file_identifying_url_path_segment: Option<String>,
}

/// An image that comes in several renditions.
#[derive(Clone, Debug, PartialEq, Eq)]
pub struct VectorImage {
    /// The address that all renditions begin with.
    pub root_url: Option<String>,
    pub artifacts: Vec<ImageArtifact>,
}

/// A postal address.
#[derive(Clone, Debug, PartialEq, Eq)]
pub struct Address {
    /// The address as it was entered.
    pub raw: String,
    pub city: Option<String>,
    pub state: Option<String>,
    pub postal_code: Option<String>,
}

/// A place on the map.
#[derive(Clone, Debug, PartialEq, Eq)]
pub struct GeoLocation {
    pub postal_code: Option<String>,
}

/// The member's own record.
#[derive(Clone, Debug, PartialEq, Eq)]
pub struct Profile {
    /// The name that identifies the member, with the member's id behind its last colon.
    pub entity_urn: Option<String>,
    pub first_name: Option<String>,
    pub last_name: Option<String>,
    pub headline: Option<String>,
    pub summary: Option<String>,
    pub geo_country_name: Option<String>,
    pub geo_location_name: Option<String>,
    pub geo_location: Option<GeoLocation>,
    pub address: Option<Address>,
    pub profile_picture_original_image: Option<VectorImage>,
}

/// How many people an organization employs.
#[derive(Clone, Copy, Debug, PartialEq, Eq, Structural)]
pub struct EmployeeCountRange {
    pub start: u32,
    pub end: u32,
}

/// The short record of an organization.
#[derive(Clone, Debug, PartialEq, Eq)]
pub struct MiniCompany {
    /// The name under which the organization has its page.
    pub universal_name: Option<String>,
    pub logo: Option<VectorImage>,
}

/// What is known of an organization.
#[derive(Clone, Debug, PartialEq, Eq)]
pub struct CompanyInfo {
    pub employee_count_range: Option<EmployeeCountRange>,
    pub industries: Vec<String>,
    pub mini_company: Option<MiniCompany>,
}

/// A position held.
#[derive(Clone, Debug, PartialEq, Eq)]
pub struct Experience {
    pub title: Option<String>,
    pub company_name: Option<String>,
    pub company: Option<CompanyInfo>,
    pub description: Option<String>,
    pub time_period: Option<TimePeriod>,
    pub geo_location_name: Option<String>,
    pub location_name: Option<String>,
    pub region: Option<String>,
}

/// Positions held at one organization.
#[derive(Clone, Debug, PartialEq, Eq)]
pub struct PositionGroup {
    pub positions: Vec<Experience>,
}

/// What is known of a school.
#[derive(Clone, Debug, PartialEq, Eq)]
pub struct SchoolInfo {
    /// The name that identifies the school, with the school's id behind its last colon.
    pub entity_urn: Option<String>,
    pub logo: Option<VectorImage>,
}

/// A course of study.
#[derive(Clone, Debug, PartialEq, Eq)]
pub struct Education {
    pub school_name: Option<String>,
    pub school: Option<SchoolInfo>,
    pub degree_name: Option<String>,
    pub field_of_study: Option<String>,
    /// Activities, one to a line.
    pub activities: Option<String>,
    pub description: Option<String>,
    pub grade: Option<String>,
    pub time_period: Option<TimePeriod>,
    pub honors: Option<Vec<String>>,
    pub test_scores: Option<Vec<String>>,
}

/// A skill.
#[derive(Clone, Debug, PartialEq, Eq)]
pub struct Skill {
    pub name: String,
}

/// How well a language is spoken.
#[derive(Clone, Copy, Debug, PartialEq, Eq, Structural)]
pub enum LanguageProficiency {
    NativeOrBilingual,
    FullProfessional,
    ProfessionalWorking,
    LimitedWorking,
    Elementary,
}

/// A language spoken.
#[derive(Clone, Debug, PartialEq, Eq)]
pub struct Language {
    pub name: String,
    pub proficiency: Option<LanguageProficiency>,
}

/// Voluntary work.
#[derive(Clone, Debug, PartialEq, Eq)]
pub struct VolunteerExperience {
    pub role: String,
    pub company_name: Option<String>,
    pub company: Option<CompanyInfo>,
    pub cause: Option<String>,
    pub description: Option<String>,
    pub time_period: Option<TimePeriod>,
    pub region: Option<String>,
}

/// A cause that the member supports.
#[derive(Clone, Debug, PartialEq, Eq)]
pub struct VolunteerCause {
    pub cause_name: String,
    pub cause_type: String,
}

/// An honor received.
#[derive(Clone, Debug, PartialEq, Eq)]
pub struct Honor {
    pub title: String,
    pub issuer: Option<String>,
    pub issue_date: Option<YearMonth>,
    pub description: Option<String>,
    pub occupation: Option<String>,
}

/// A certification earned.
#[derive(Clone, Debug, PartialEq, Eq)]
pub struct Certification {
    pub name: String,
    pub authority: Option<String>,
    pub license_number: Option<String>,
    pub time_period: Option<TimePeriod>,
    pub url: Option<Uri>,
}

/// The score of a test taken.
#[derive(Clone, Debug, PartialEq, Eq)]
pub struct TestScore {
    pub name: String,
    pub score: String,
    pub date: Option<YearMonth>,
    pub description: Option<String>,
    pub occupation: Option<String>,
}

/// A course taken.
#[derive(Clone, Debug, PartialEq, Eq)]
pub struct Course {
    pub name: String,
    pub number: Option<String>,
}

/// A project worked on.
#[derive(Clone, Debug, PartialEq, Eq)]
pub struct Project {
    pub title: Option<String>,
    pub description: Option<String>,
}

/// How to reach the member.
#[derive(Clone, Debug, PartialEq, Eq)]
pub struct ContactInfo {
    pub email_address: Option<String>,
    pub phone_numbers: Vec<String>,
}

/// Everything that is read of a member's profile.
#[derive(Clone, Debug, PartialEq, Eq)]
pub struct ProfileView {
    pub profile: Profile,
    pub position_groups: Vec<PositionGroup>,
    pub positions: Vec<Experience>,
    pub education: Vec<Education>,
    pub skills: Vec<Skill>,
    pub languages: Vec<Language>,
    pub volunteer_experiences: Vec<VolunteerExperience>,
    pub volunteer_causes: Vec<VolunteerCause>,
    pub honors: Vec<Honor>,
    pub certifications: Vec<Certification>,
    pub publications: Vec<JsonValue>,
    pub projects: Vec<Project>,
    pub test_scores: Vec<TestScore>,
    pub courses: Vec<Course>,
}

} // verus!
