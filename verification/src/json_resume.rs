//! The canonical schema: a resume and the entities below it. Every entity keeps,
//! beside its modelled fields, the fields of its document that the schema does
//! not model.

use crate::json::{PropertyMap, PropertyModel};
use crate::text::string_chars;
use crate::uri::Uri;
use crate::validate::{
    chars_are_country_code, chars_are_email, chars_are_iso8601_date, is_country_code, is_email,
    is_iso8601_date, ValidationError,
};
use vstd::prelude::*;
use vstd::std_specs::convert::FromSpecImpl;
use vstd::string::*;

verus! {

/// A date kept as the text it was given as: a year, a year and a month, or a full
/// date. Holding one does not make it valid; `validate` tells.
#[derive(Clone, Debug, PartialEq, Eq)]
pub struct Iso8601Date(pub String);

impl DeepView for Iso8601Date {
    type V = Seq<char>;

    open spec fn deep_view(&self) -> Seq<char> {
        self.0@
    }
}

impl From<String> for Iso8601Date {
    fn from(s: String) -> (r: Self) {
        Iso8601Date(s)
    }
}

impl FromSpecImpl<String> for Iso8601Date {
    open spec fn obeys_from_spec() -> bool {
        true
    }

    open spec fn from_spec(s: String) -> Self {
        Iso8601Date(s)
    }
}

// A string is not determined by its characters in specifications, so `from` is
// stated by the characters of its result and not held to `from_spec`.
impl From<&str> for Iso8601Date {
    fn from(s: &str) -> (r: Self)
        ensures
            r.deep_view() == s@,
    {
        Iso8601Date(String::from_str(s))
    }
}

impl FromSpecImpl<&str> for Iso8601Date {
    open spec fn obeys_from_spec() -> bool {
        false
    }

    open spec fn from_spec(s: &str) -> Self {
        arbitrary()
    }
}

impl Iso8601Date {
    /// The date that holds the characters of `text`.
    pub fn new(text: &str) -> (r: Iso8601Date)
        ensures
            r.deep_view() == text@,
    {
        Iso8601Date(String::from_str(text))
    }

    /// The text of the date.
    pub fn as_str(&self) -> (r: &str)
        ensures
            r@ == self.deep_view(),
    {
        self.0.as_str()
    }

    /// A copy of the date.
    pub fn duplicate(&self) -> (r: Iso8601Date)
        ensures
            r.deep_view() == self.deep_view(),
    {
        Iso8601Date(self.0.clone())
    }
}

/// The rule that a present date breaks, if it breaks one.
pub open spec fn date_violation(date: Option<Seq<char>>) -> Option<ValidationError> {
    match date {
        Some(text) if !is_iso8601_date(text) => Some(ValidationError::InvalidDateFormat),
        _ => None,
    }
}

/// The rule that a present email breaks, if it breaks one.
pub open spec fn email_violation(email: Option<Seq<char>>) -> Option<ValidationError> {
    match email {
        Some(text) if !is_email(text) => Some(ValidationError::InvalidEmailFormat),
        _ => None,
    }
}

/// The rule that a present country code breaks, if it breaks one.
pub open spec fn country_code_violation(code: Option<Seq<char>>) -> Option<ValidationError> {
    match code {
        Some(text) if !is_country_code(text) => Some(ValidationError::InvalidCountryCode),
        _ => None,
    }
}

/// The first of two findings.
pub open spec fn or_else(
    first: Option<ValidationError>,
    second: Option<ValidationError>,
) -> Option<ValidationError> {
    if first is Some {
        first
    } else {
        second
    }
}

/// The first finding in a row of findings.
pub open spec fn first_violation(findings: Seq<Option<ValidationError>>) -> Option<
    ValidationError,
>
    decreases findings.len(),
{
    if findings.len() == 0 {
        None
    } else if findings.first() is Some {
        findings.first()
    } else {
        first_violation(findings.drop_first())
    }
}

/// What a validation returns for a finding.
pub open spec fn verdict(finding: Option<ValidationError>) -> Result<(), ValidationError> {
    match finding {
        Some(error) => Err(error),
        None => Ok(()),
    }
}

/// An entity with field rules. Absent fields break no rule; of the present ones
/// the first that breaks its rule, in the order of the fields, decides.
pub trait Validate: DeepView {
    /// The first rule that the entity breaks, if it breaks one.
    spec fn violation_of(model: Self::V) -> Option<ValidationError>;

    /// Checks the rules of the entity and of what is below it.
    fn validate(&self) -> (r: Result<(), ValidationError>)
        ensures
            r == verdict(Self::violation_of(self.deep_view())),
    ;
}

/// The finding for an entity that may be absent.
pub open spec fn present_violation<T: Validate>(item: Option<T::V>) -> Option<ValidationError> {
    match item {
        Some(model) => T::violation_of(model),
        None => None,
    }
}

/// The findings for the entities of a list, in order.
pub open spec fn violations<T: Validate>(items: Seq<T::V>) -> Seq<Option<ValidationError>> {
    items.map_values(|model: T::V| T::violation_of(model))
}

/// The finding for a list of entities that may be absent.
pub open spec fn list_violation<T: Validate>(items: Option<Seq<T::V>>) -> Option<
    ValidationError,
> {
    match items {
        Some(models) => first_violation(violations::<T>(models)),
        None => None,
    }
}

/// A row of findings in which nothing was found gives no finding.
pub proof fn lemma_first_violation_none(findings: Seq<Option<ValidationError>>)
    requires
        forall|i: int| 0 <= i < findings.len() ==> #[trigger] findings[i] is None,
    ensures
        first_violation(findings) is None,
    decreases findings.len(),
{
    if findings.len() > 0 {
        let rest = findings.drop_first();
        assert forall|i: int| 0 <= i < rest.len() implies #[trigger] rest[i] is None by {
            assert(rest[i] == findings[i + 1]);
        }
        lemma_first_violation_none(rest);
    }
}

/// A list whose entities break no rule breaks no rule.
pub proof fn lemma_list_without_violation<T: Validate>(items: Option<Seq<T::V>>)
    requires
        items matches Some(models) ==> forall|i: int|
            0 <= i < models.len() ==> T::violation_of(#[trigger] models[i]) is None,
    ensures
        list_violation::<T>(items) is None,
{
    if let Some(models) = items {
        lemma_first_violation_none(violations::<T>(models));
    }
}

impl Validate for Iso8601Date {
    open spec fn violation_of(model: Seq<char>) -> Option<ValidationError> {
        date_violation(Some(model))
    }

    fn validate(&self) -> (r: Result<(), ValidationError>) {
        let chars = string_chars(self.as_str());
        if chars_are_iso8601_date(&chars) {
            Ok(())
        } else {
            Err(ValidationError::InvalidDateFormat)
        }
    }
}

fn check_date(date: &Option<Iso8601Date>) -> (r: Result<(), ValidationError>)
    ensures
        r == verdict(date_violation(date.deep_view())),
{
    match date {
        Some(value) => value.validate(),
        None => Ok(()),
    }
}

fn check_email(email: &Option<String>) -> (r: Result<(), ValidationError>)
    ensures
        r == verdict(email_violation(email.deep_view())),
{
    match email {
        Some(value) => {
            let chars = string_chars(value.as_str());
            if chars_are_email(&chars) {
                Ok(())
            } else {
                Err(ValidationError::InvalidEmailFormat)
            }
        },
        None => Ok(()),
    }
}

fn check_country_code(code: &Option<String>) -> (r: Result<(), ValidationError>)
    ensures
        r == verdict(country_code_violation(code.deep_view())),
{
    match code {
        Some(value) => {
            let chars = string_chars(value.as_str());
            if chars_are_country_code(&chars) {
                Ok(())
            } else {
                Err(ValidationError::InvalidCountryCode)
            }
        },
        None => Ok(()),
    }
}

/// Validates an entity that may be absent.
pub fn validate_present<T: Validate>(item: &Option<T>) -> (r: Result<(), ValidationError>)
    ensures
        r == verdict(present_violation::<T>(item.deep_view())),
{
    match item {
        Some(value) => value.validate(),
        None => Ok(()),
    }
}

/// Validates the entities of a list that may be absent, in order, up to the
/// first that breaks a rule.
pub fn validate_list<T: Validate>(items: &Option<Vec<T>>) -> (r: Result<(), ValidationError>)
    ensures
        r == verdict(list_violation::<T>(items.deep_view())),
{
    let list = match items {
        Some(list) => list,
        None => {
            return Ok(());
        },
    };
    let ghost findings = violations::<T>(list.deep_view());
    let mut i: usize = 0;
    assert(findings.skip(0) == findings);
    while i < list.len()
        invariant
            i <= list.len(),
            items.deep_view() == Some(list.deep_view()),
            findings == violations::<T>(list.deep_view()),
            first_violation(findings) == first_violation(findings.skip(i as int)),
        decreases list.len() - i,
    {
        let ghost rest = findings.skip(i as int);
        assert(rest.first() == T::violation_of(list[i as int].deep_view()));
        assert(rest.drop_first() == findings.skip(i + 1));
        match list[i].validate() {
            Ok(()) => {},
            Err(error) => {
                return Err(error);
            },
        }
        i += 1;
    }
    Ok(())
}

/// Where a person lives.
#[derive(Clone, Debug, PartialEq, Eq)]
pub struct Location {
    /// Street address.
    pub address: Option<String>,
    /// Postal code.
    pub postal_code: Option<String>,
    /// City.
    pub city: Option<String>,
    /// Country, as two uppercase letters.
    pub country_code: Option<String>,
    /// State, province or region.
    pub region: Option<String>,
    /// The fields of the document that the schema does not model.
    pub additional_properties: PropertyMap,
}

/// What a `Location` stands for.
#[verifier::ext_equal]
pub ghost struct LocationModel {
    pub address: Option<Seq<char>>,
    pub postal_code: Option<Seq<char>>,
    pub city: Option<Seq<char>>,
    pub country_code: Option<Seq<char>>,
    pub region: Option<Seq<char>>,
    pub additional_properties: PropertyModel,
}

impl DeepView for Location {
    type V = LocationModel;

    open spec fn deep_view(&self) -> LocationModel {
        LocationModel {
            address: self.address.deep_view(),
            postal_code: self.postal_code.deep_view(),
            city: self.city.deep_view(),
            country_code: self.country_code.deep_view(),
            region: self.region.deep_view(),
            additional_properties: self.additional_properties.deep_view(),
        }
    }
}

impl LocationModel {
    /// The entity without any field.
    pub open spec fn empty() -> LocationModel {
        LocationModel {
            address: None,
            postal_code: None,
            city: None,
            country_code: None,
            region: None,
            additional_properties: Seq::empty(),
        }
    }
}

impl Location {
    /// The entity without any field.
    pub fn new() -> (r: Location)
        ensures
            r.deep_view() == LocationModel::empty(),
    {
        Location {
            address: None,
            postal_code: None,
            city: None,
            country_code: None,
            region: None,
            additional_properties: PropertyMap::new(),
        }
    }
}

impl Validate for Location {
    open spec fn violation_of(model: LocationModel) -> Option<ValidationError> {
        country_code_violation(model.country_code)
    }

    fn validate(&self) -> (r: Result<(), ValidationError>) {
        check_country_code(&self.country_code)
    }
}

/// An account on a network.
#[derive(Clone, Debug, PartialEq, Eq)]
pub struct Profile {
    /// Name of the network.
    pub network: Option<String>,
    /// Name of the account.
    pub username: Option<String>,
    /// Address of the account.
    pub url: Option<Uri>,
    /// The fields of the document that the schema does not model.
    pub additional_properties: PropertyMap,
}

/// What a `Profile` stands for.
#[verifier::ext_equal]
pub ghost struct ProfileModel {
    pub network: Option<Seq<char>>,
    pub username: Option<Seq<char>>,
    pub url: Option<Seq<char>>,
    pub additional_properties: PropertyModel,
}

impl DeepView for Profile {
    type V = ProfileModel;

    open spec fn deep_view(&self) -> ProfileModel {
        ProfileModel {
            network: self.network.deep_view(),
            username: self.username.deep_view(),
            url: self.url.deep_view(),
            additional_properties: self.additional_properties.deep_view(),
        }
    }
}

impl ProfileModel {
    /// The entity without any field.
    pub open spec fn empty() -> ProfileModel {
        ProfileModel {
            network: None,
            username: None,
            url: None,
            additional_properties: Seq::empty(),
        }
    }
}

impl Profile {
    /// The entity without any field.
    pub fn new() -> (r: Profile)
        ensures
            r.deep_view() == ProfileModel::empty(),
    {
        Profile {
            network: None,
            username: None,
            url: None,
            additional_properties: PropertyMap::new(),
        }
    }
}

/// Who the person is and how to reach them.
#[derive(Clone, Debug, PartialEq, Eq)]
pub struct Basics {
    /// Full name.
    pub name: Option<String>,
    /// Professional headline.
    pub label: Option<String>,
    /// Address of a picture.
    pub image: Option<Uri>,
    /// Email address.
    pub email: Option<String>,
    /// Phone number.
    pub phone: Option<String>,
    /// Personal site.
    pub url: Option<Uri>,
    /// A few sentences about the person.
    pub summary: Option<String>,
    /// Where the person lives.
    pub location: Option<Location>,
    /// Accounts on networks.
    pub profiles: Option<Vec<Profile>>,
    /// The fields of the document that the schema does not model.
    pub additional_properties: PropertyMap,
}

/// What a `Basics` stands for.
#[verifier::ext_equal]
pub ghost struct BasicsModel {
    pub name: Option<Seq<char>>,
    pub label: Option<Seq<char>>,
    pub image: Option<Seq<char>>,
    pub email: Option<Seq<char>>,
    pub phone: Option<Seq<char>>,
    pub url: Option<Seq<char>>,
    pub summary: Option<Seq<char>>,
    pub location: Option<LocationModel>,
    pub profiles: Option<Seq<ProfileModel>>,
    pub additional_properties: PropertyModel,
}

impl DeepView for Basics {
    type V = BasicsModel;

    open spec fn deep_view(&self) -> BasicsModel {
        BasicsModel {
            name: self.name.deep_view(),
            label: self.label.deep_view(),
            image: self.image.deep_view(),
            email: self.email.deep_view(),
            phone: self.phone.deep_view(),
            url: self.url.deep_view(),
            summary: self.summary.deep_view(),
            location: self.location.deep_view(),
            profiles: self.profiles.deep_view(),
            additional_properties: self.additional_properties.deep_view(),
        }
    }
}

impl BasicsModel {
    /// The entity without any field.
    pub open spec fn empty() -> BasicsModel {
        BasicsModel {
            name: None,
            label: None,
            image: None,
            email: None,
            phone: None,
            url: None,
            summary: None,
            location: None,
            profiles: None,
            additional_properties: Seq::empty(),
        }
    }
}

impl Basics {
    /// The entity without any field.
    pub fn new() -> (r: Basics)
        ensures
            r.deep_view() == BasicsModel::empty(),
    {
        Basics {
            name: None,
            label: None,
            image: None,
            email: None,
            phone: None,
            url: None,
            summary: None,
            location: None,
            profiles: None,
            additional_properties: PropertyMap::new(),
        }
    }
}

impl Validate for Basics {
    open spec fn violation_of(model: BasicsModel) -> Option<ValidationError> {
        or_else(
            email_violation(model.email),
            present_violation::<Location>(model.location),
        )
    }

    fn validate(&self) -> (r: Result<(), ValidationError>) {
        if let Err(error) = check_email(&self.email) {
            return Err(error);
        }
        validate_present(&self.location)
    }
}

/// A position held at an organization.
#[derive(Clone, Debug, PartialEq, Eq)]
pub struct WorkExperience {
    /// Name of the organization.
    pub name: Option<String>,
    /// Where the work was done.
    pub location: Option<String>,
    /// What the organization or the position is about.
    pub description: Option<String>,
    /// Title of the position.
    pub position: Option<String>,
    /// Address of the organization.
    pub url: Option<Uri>,
    /// When the position began.
    pub start_date: Option<Iso8601Date>,
    /// When the position ended; absent while it lasts.
    pub end_date: Option<Iso8601Date>,
    /// Prose summary of the work.
    pub summary: Option<String>,
    /// Single accomplishments.
    pub highlights: Option<Vec<String>>,
    /// The fields of the document that the schema does not model.
    pub additional_properties: PropertyMap,
}

/// What a `WorkExperience` stands for.
#[verifier::ext_equal]
pub ghost struct WorkExperienceModel {
    pub name: Option<Seq<char>>,
    pub location: Option<Seq<char>>,
    pub description: Option<Seq<char>>,
    pub position: Option<Seq<char>>,
    pub url: Option<Seq<char>>,
    pub start_date: Option<Seq<char>>,
    pub end_date: Option<Seq<char>>,
    pub summary: Option<Seq<char>>,
    pub highlights: Option<Seq<Seq<char>>>,
    pub additional_properties: PropertyModel,
}

impl DeepView for WorkExperience {
    type V = WorkExperienceModel;

    open spec fn deep_view(&self) -> WorkExperienceModel {
        WorkExperienceModel {
            name: self.name.deep_view(),
            location: self.location.deep_view(),
            description: self.description.deep_view(),
            position: self.position.deep_view(),
            url: self.url.deep_view(),
            start_date: self.start_date.deep_view(),
            end_date: self.end_date.deep_view(),
            summary: self.summary.deep_view(),
            highlights: self.highlights.deep_view(),
            additional_properties: self.additional_properties.deep_view(),
        }
    }
}

impl WorkExperienceModel {
    /// The entity without any field.
    pub open spec fn empty() -> WorkExperienceModel {
        WorkExperienceModel {
            name: None,
            location: None,
            description: None,
            position: None,
            url: None,
            start_date: None,
            end_date: None,
            summary: None,
            highlights: None,
            additional_properties: Seq::empty(),
        }
    }
}

impl WorkExperience {
    /// The entity without any field.
    pub fn new() -> (r: WorkExperience)
        ensures
            r.deep_view() == WorkExperienceModel::empty(),
    {
        WorkExperience {
            name: None,
            location: None,
            description: None,
            position: None,
            url: None,
            start_date: None,
            end_date: None,
            summary: None,
            highlights: None,
            additional_properties: PropertyMap::new(),
        }
    }
}

impl Validate for WorkExperience {
    open spec fn violation_of(model: WorkExperienceModel) -> Option<ValidationError> {
        or_else(
            date_violation(model.start_date),
            date_violation(model.end_date),
        )
    }

    fn validate(&self) -> (r: Result<(), ValidationError>) {
        if let Err(error) = check_date(&self.start_date) {
            return Err(error);
        }
        check_date(&self.end_date)
    }
}

/// Voluntary work for an organization.
#[derive(Clone, Debug, PartialEq, Eq)]
pub struct VolunteerExperience {
    /// Name of the organization.
    pub organization: Option<String>,
    /// Role held.
    pub position: Option<String>,
    /// Address of the organization.
    pub url: Option<Uri>,
    /// When the work began.
    pub start_date: Option<Iso8601Date>,
    /// When the work ended; absent while it lasts.
    pub end_date: Option<Iso8601Date>,
    /// Prose summary of the work.
    pub summary: Option<String>,
    /// Single accomplishments.
    pub highlights: Option<Vec<String>>,
    /// The fields of the document that the schema does not model.
    pub additional_properties: PropertyMap,
}

/// What a `VolunteerExperience` stands for.
#[verifier::ext_equal]
pub ghost struct VolunteerExperienceModel {
    pub organization: Option<Seq<char>>,
    pub position: Option<Seq<char>>,
    pub url: Option<Seq<char>>,
    pub start_date: Option<Seq<char>>,
    pub end_date: Option<Seq<char>>,
    pub summary: Option<Seq<char>>,
    pub highlights: Option<Seq<Seq<char>>>,
    pub additional_properties: PropertyModel,
}

impl DeepView for VolunteerExperience {
    type V = VolunteerExperienceModel;

    open spec fn deep_view(&self) -> VolunteerExperienceModel {
        VolunteerExperienceModel {
            organization: self.organization.deep_view(),
            position: self.position.deep_view(),
            url: self.url.deep_view(),
            start_date: self.start_date.deep_view(),
            end_date: self.end_date.deep_view(),
            summary: self.summary.deep_view(),
            highlights: self.highlights.deep_view(),
            additional_properties: self.additional_properties.deep_view(),
        }
    }
}

impl VolunteerExperienceModel {
    /// The entity without any field.
    pub open spec fn empty() -> VolunteerExperienceModel {
        VolunteerExperienceModel {
            organization: None,
            position: None,
            url: None,
            start_date: None,
            end_date: None,
            summary: None,
            highlights: None,
            additional_properties: Seq::empty(),
        }
    }
}

impl VolunteerExperience {
    /// The entity without any field.
    pub fn new() -> (r: VolunteerExperience)
        ensures
            r.deep_view() == VolunteerExperienceModel::empty(),
    {
        VolunteerExperience {
            organization: None,
            position: None,
            url: None,
            start_date: None,
            end_date: None,
            summary: None,
            highlights: None,
            additional_properties: PropertyMap::new(),
        }
    }
}

impl Validate for VolunteerExperience {
    open spec fn violation_of(model: VolunteerExperienceModel) -> Option<ValidationError> {
        or_else(
            date_violation(model.start_date),
            date_violation(model.end_date),
        )
    }

    fn validate(&self) -> (r: Result<(), ValidationError>) {
        if let Err(error) = check_date(&self.start_date) {
            return Err(error);
        }
        check_date(&self.end_date)
    }
}

/// A course of study at an institution.
#[derive(Clone, Debug, PartialEq, Eq)]
pub struct Education {
    /// Name of the institution.
    pub institution: Option<String>,
    /// Address of the institution.
    pub url: Option<Uri>,
    /// Field of study.
    pub area: Option<String>,
    /// Kind of credential.
    pub study_type: Option<String>,
    /// When the study began.
    pub start_date: Option<Iso8601Date>,
    /// When the study ended.
    pub end_date: Option<Iso8601Date>,
    /// Grade, as free text.
    pub score: Option<String>,
    /// Courses taken.
    pub courses: Option<Vec<String>>,
    /// The fields of the document that the schema does not model.
    pub additional_properties: PropertyMap,
}

/// What a `Education` stands for.
#[verifier::ext_equal]
pub ghost struct EducationModel {
    pub institution: Option<Seq<char>>,
    pub url: Option<Seq<char>>,
    pub area: Option<Seq<char>>,
    pub study_type: Option<Seq<char>>,
    pub start_date: Option<Seq<char>>,
    pub end_date: Option<Seq<char>>,
    pub score: Option<Seq<char>>,
    pub courses: Option<Seq<Seq<char>>>,
    pub additional_properties: PropertyModel,
}

impl DeepView for Education {
    type V = EducationModel;

    open spec fn deep_view(&self) -> EducationModel {
        EducationModel {
            institution: self.institution.deep_view(),
            url: self.url.deep_view(),
            area: self.area.deep_view(),
            study_type: self.study_type.deep_view(),
            start_date: self.start_date.deep_view(),
            end_date: self.end_date.deep_view(),
            score: self.score.deep_view(),
            courses: self.courses.deep_view(),
            additional_properties: self.additional_properties.deep_view(),
        }
    }
}

impl EducationModel {
    /// The entity without any field.
    pub open spec fn empty() -> EducationModel {
        EducationModel {
            institution: None,
            url: None,
            area: None,
            study_type: None,
            start_date: None,
            end_date: None,
            score: None,
            courses: None,
            additional_properties: Seq::empty(),
        }
    }
}

impl Education {
    /// The entity without any field.
    pub fn new() -> (r: Education)
        ensures
            r.deep_view() == EducationModel::empty(),
    {
        Education {
            institution: None,
            url: None,
            area: None,
            study_type: None,
            start_date: None,
            end_date: None,
            score: None,
            courses: None,
            additional_properties: PropertyMap::new(),
        }
    }
}

impl Validate for Education {
    open spec fn violation_of(model: EducationModel) -> Option<ValidationError> {
        or_else(
            date_violation(model.start_date),
            date_violation(model.end_date),
        )
    }

    fn validate(&self) -> (r: Result<(), ValidationError>) {
        if let Err(error) = check_date(&self.start_date) {
            return Err(error);
        }
        check_date(&self.end_date)
    }
}

/// An award received.
#[derive(Clone, Debug, PartialEq, Eq)]
pub struct Award {
    /// Name of the award.
    pub title: Option<String>,
    /// When it was received.
    pub date: Option<Iso8601Date>,
    /// Who gave it.
    pub awarder: Option<String>,
    /// What it was given for.
    pub summary: Option<String>,
    /// The fields of the document that the schema does not model.
    pub additional_properties: PropertyMap,
}

/// What a `Award` stands for.
#[verifier::ext_equal]
pub ghost struct AwardModel {
    pub title: Option<Seq<char>>,
    pub date: Option<Seq<char>>,
    pub awarder: Option<Seq<char>>,
    pub summary: Option<Seq<char>>,
    pub additional_properties: PropertyModel,
}

impl DeepView for Award {
    type V = AwardModel;

    open spec fn deep_view(&self) -> AwardModel {
        AwardModel {
            title: self.title.deep_view(),
            date: self.date.deep_view(),
            awarder: self.awarder.deep_view(),
            summary: self.summary.deep_view(),
            additional_properties: self.additional_properties.deep_view(),
        }
    }
}

impl AwardModel {
    /// The entity without any field.
    pub open spec fn empty() -> AwardModel {
        AwardModel {
            title: None,
            date: None,
            awarder: None,
            summary: None,
            additional_properties: Seq::empty(),
        }
    }
}

impl Award {
    /// The entity without any field.
    pub fn new() -> (r: Award)
        ensures
            r.deep_view() == AwardModel::empty(),
    {
        Award {
            title: None,
            date: None,
            awarder: None,
            summary: None,
            additional_properties: PropertyMap::new(),
        }
    }
}

impl Validate for Award {
    open spec fn violation_of(model: AwardModel) -> Option<ValidationError> {
        date_violation(model.date)
    }

    fn validate(&self) -> (r: Result<(), ValidationError>) {
        check_date(&self.date)
    }
}

/// A certificate earned.
#[derive(Clone, Debug, PartialEq, Eq)]
pub struct Certificate {
    /// Name of the certificate.
    pub name: Option<String>,
    /// When it was issued.
    pub date: Option<Iso8601Date>,
    /// Address of the certificate.
    pub url: Option<Uri>,
    /// Who issued it.
    pub issuer: Option<String>,
    /// The fields of the document that the schema does not model.
    pub additional_properties: PropertyMap,
}

/// What a `Certificate` stands for.
#[verifier::ext_equal]
pub ghost struct CertificateModel {
    pub name: Option<Seq<char>>,
    pub date: Option<Seq<char>>,
    pub url: Option<Seq<char>>,
    pub issuer: Option<Seq<char>>,
    pub additional_properties: PropertyModel,
}

impl DeepView for Certificate {
    type V = CertificateModel;

    open spec fn deep_view(&self) -> CertificateModel {
        CertificateModel {
            name: self.name.deep_view(),
            date: self.date.deep_view(),
            url: self.url.deep_view(),
            issuer: self.issuer.deep_view(),
            additional_properties: self.additional_properties.deep_view(),
        }
    }
}

impl CertificateModel {
    /// The entity without any field.
    pub open spec fn empty() -> CertificateModel {
        CertificateModel {
            name: None,
            date: None,
            url: None,
            issuer: None,
            additional_properties: Seq::empty(),
        }
    }
}

impl Certificate {
    /// The entity without any field.
    pub fn new() -> (r: Certificate)
        ensures
            r.deep_view() == CertificateModel::empty(),
    {
        Certificate {
            name: None,
            date: None,
            url: None,
            issuer: None,
            additional_properties: PropertyMap::new(),
        }
    }
}

impl Validate for Certificate {
    open spec fn violation_of(model: CertificateModel) -> Option<ValidationError> {
        date_violation(model.date)
    }

    fn validate(&self) -> (r: Result<(), ValidationError>) {
        check_date(&self.date)
    }
}

/// A published work.
#[derive(Clone, Debug, PartialEq, Eq)]
pub struct Publication {
    /// Title of the work.
    pub name: Option<String>,
    /// Who published it.
    pub publisher: Option<String>,
    /// When it was published.
    pub release_date: Option<Iso8601Date>,
    /// Address of the work.
    pub url: Option<Uri>,
    /// What it is about.
    pub summary: Option<String>,
    /// The fields of the document that the schema does not model.
    pub additional_properties: PropertyMap,
}

/// What a `Publication` stands for.
#[verifier::ext_equal]
pub ghost struct PublicationModel {
    pub name: Option<Seq<char>>,
    pub publisher: Option<Seq<char>>,
    pub release_date: Option<Seq<char>>,
    pub url: Option<Seq<char>>,
    pub summary: Option<Seq<char>>,
    pub additional_properties: PropertyModel,
}

impl DeepView for Publication {
    type V = PublicationModel;

    open spec fn deep_view(&self) -> PublicationModel {
        PublicationModel {
            name: self.name.deep_view(),
            publisher: self.publisher.deep_view(),
            release_date: self.release_date.deep_view(),
            url: self.url.deep_view(),
            summary: self.summary.deep_view(),
            additional_properties: self.additional_properties.deep_view(),
        }
    }
}

impl PublicationModel {
    /// The entity without any field.
    pub open spec fn empty() -> PublicationModel {
        PublicationModel {
            name: None,
            publisher: None,
            release_date: None,
            url: None,
            summary: None,
            additional_properties: Seq::empty(),
        }
    }
}

impl Publication {
    /// The entity without any field.
    pub fn new() -> (r: Publication)
        ensures
            r.deep_view() == PublicationModel::empty(),
    {
        Publication {
            name: None,
            publisher: None,
            release_date: None,
            url: None,
            summary: None,
            additional_properties: PropertyMap::new(),
        }
    }
}

impl Validate for Publication {
    open spec fn violation_of(model: PublicationModel) -> Option<ValidationError> {
        date_violation(model.release_date)
    }

    fn validate(&self) -> (r: Result<(), ValidationError>) {
        check_date(&self.release_date)
    }
}

/// A skill.
#[derive(Clone, Debug, PartialEq, Eq)]
pub struct Skill {
    /// Name of the skill.
    pub name: Option<String>,
    /// Proficiency, as free text.
    pub level: Option<String>,
    /// Related terms.
    pub keywords: Option<Vec<String>>,
    /// The fields of the document that the schema does not model.
    pub additional_properties: PropertyMap,
}

/// What a `Skill` stands for.
#[verifier::ext_equal]
pub ghost struct SkillModel {
    pub name: Option<Seq<char>>,
    pub level: Option<Seq<char>>,
    pub keywords: Option<Seq<Seq<char>>>,
    pub additional_properties: PropertyModel,
}

impl DeepView for Skill {
    type V = SkillModel;

    open spec fn deep_view(&self) -> SkillModel {
        SkillModel {
            name: self.name.deep_view(),
            level: self.level.deep_view(),
            keywords: self.keywords.deep_view(),
            additional_properties: self.additional_properties.deep_view(),
        }
    }
}

impl SkillModel {
    /// The entity without any field.
    pub open spec fn empty() -> SkillModel {
        SkillModel {
            name: None,
            level: None,
            keywords: None,
            additional_properties: Seq::empty(),
        }
    }
}

impl Skill {
    /// The entity without any field.
    pub fn new() -> (r: Skill)
        ensures
            r.deep_view() == SkillModel::empty(),
    {
        Skill {
            name: None,
            level: None,
            keywords: None,
            additional_properties: PropertyMap::new(),
        }
    }
}

/// A language spoken.
#[derive(Clone, Debug, PartialEq, Eq)]
pub struct Language {
    /// Name of the language.
    pub language: Option<String>,
    /// Fluency, as free text.
    pub fluency: Option<String>,
    /// The fields of the document that the schema does not model.
    pub additional_properties: PropertyMap,
}

/// What a `Language` stands for.
#[verifier::ext_equal]
pub ghost struct LanguageModel {
    pub language: Option<Seq<char>>,
    pub fluency: Option<Seq<char>>,
    pub additional_properties: PropertyModel,
}

impl DeepView for Language {
    type V = LanguageModel;

    open spec fn deep_view(&self) -> LanguageModel {
        LanguageModel {
            language: self.language.deep_view(),
            fluency: self.fluency.deep_view(),
            additional_properties: self.additional_properties.deep_view(),
        }
    }
}

impl LanguageModel {
    /// The entity without any field.
    pub open spec fn empty() -> LanguageModel {
        LanguageModel {
            language: None,
            fluency: None,
            additional_properties: Seq::empty(),
        }
    }
}

impl Language {
    /// The entity without any field.
    pub fn new() -> (r: Language)
        ensures
            r.deep_view() == LanguageModel::empty(),
    {
        Language {
            language: None,
            fluency: None,
            additional_properties: PropertyMap::new(),
        }
    }
}

/// An interest.
#[derive(Clone, Debug, PartialEq, Eq)]
pub struct Interest {
    /// Name of the interest.
    pub name: Option<String>,
    /// Related terms.
    pub keywords: Option<Vec<String>>,
    /// The fields of the document that the schema does not model.
    pub additional_properties: PropertyMap,
}

/// What a `Interest` stands for.
#[verifier::ext_equal]
pub ghost struct InterestModel {
    pub name: Option<Seq<char>>,
    pub keywords: Option<Seq<Seq<char>>>,
    pub additional_properties: PropertyModel,
}

impl DeepView for Interest {
    type V = InterestModel;

    open spec fn deep_view(&self) -> InterestModel {
        InterestModel {
            name: self.name.deep_view(),
            keywords: self.keywords.deep_view(),
            additional_properties: self.additional_properties.deep_view(),
        }
    }
}

impl InterestModel {
    /// The entity without any field.
    pub open spec fn empty() -> InterestModel {
        InterestModel {
            name: None,
            keywords: None,
            additional_properties: Seq::empty(),
        }
    }
}

impl Interest {
    /// The entity without any field.
    pub fn new() -> (r: Interest)
        ensures
            r.deep_view() == InterestModel::empty(),
    {
        Interest {
            name: None,
            keywords: None,
            additional_properties: PropertyMap::new(),
        }
    }
}

/// What somebody else says of the person.
#[derive(Clone, Debug, PartialEq, Eq)]
pub struct Reference {
    /// Who gives the reference.
    pub name: Option<String>,
    /// What they say.
    pub reference: Option<String>,
    /// The fields of the document that the schema does not model.
    pub additional_properties: PropertyMap,
}

/// What a `Reference` stands for.
#[verifier::ext_equal]
pub ghost struct ReferenceModel {
    pub name: Option<Seq<char>>,
    pub reference: Option<Seq<char>>,
    pub additional_properties: PropertyModel,
}

impl DeepView for Reference {
    type V = ReferenceModel;

    open spec fn deep_view(&self) -> ReferenceModel {
        ReferenceModel {
            name: self.name.deep_view(),
            reference: self.reference.deep_view(),
            additional_properties: self.additional_properties.deep_view(),
        }
    }
}

impl ReferenceModel {
    /// The entity without any field.
    pub open spec fn empty() -> ReferenceModel {
        ReferenceModel {
            name: None,
            reference: None,
            additional_properties: Seq::empty(),
        }
    }
}

impl Reference {
    /// The entity without any field.
    pub fn new() -> (r: Reference)
        ensures
            r.deep_view() == ReferenceModel::empty(),
    {
        Reference {
            name: None,
            reference: None,
            additional_properties: PropertyMap::new(),
        }
    }
}

/// A project worked on.
#[derive(Clone, Debug, PartialEq, Eq)]
pub struct Project {
    /// Name of the project.
    pub name: Option<String>,
    /// What the project is about.
    pub description: Option<String>,
    /// Single accomplishments.
    pub highlights: Option<Vec<String>>,
    /// Related terms.
    pub keywords: Option<Vec<String>>,
    /// When the project began.
    pub start_date: Option<Iso8601Date>,
    /// When the project ended.
    pub end_date: Option<Iso8601Date>,
    /// Address of the project.
    pub url: Option<Uri>,
    /// Roles held in the project.
    pub roles: Option<Vec<String>>,
    /// Organization behind the project.
    pub entity: Option<String>,
    /// Kind of project.
    pub project_type: Option<String>,
    /// The fields of the document that the schema does not model.
    pub additional_properties: PropertyMap,
}

/// What a `Project` stands for.
#[verifier::ext_equal]
pub ghost struct ProjectModel {
    pub name: Option<Seq<char>>,
    pub description: Option<Seq<char>>,
    pub highlights: Option<Seq<Seq<char>>>,
    pub keywords: Option<Seq<Seq<char>>>,
    pub start_date: Option<Seq<char>>,
    pub end_date: Option<Seq<char>>,
    pub url: Option<Seq<char>>,
    pub roles: Option<Seq<Seq<char>>>,
    pub entity: Option<Seq<char>>,
    pub project_type: Option<Seq<char>>,
    pub additional_properties: PropertyModel,
}

impl DeepView for Project {
    type V = ProjectModel;

    open spec fn deep_view(&self) -> ProjectModel {
        ProjectModel {
            name: self.name.deep_view(),
            description: self.description.deep_view(),
            highlights: self.highlights.deep_view(),
            keywords: self.keywords.deep_view(),
            start_date: self.start_date.deep_view(),
            end_date: self.end_date.deep_view(),
            url: self.url.deep_view(),
            roles: self.roles.deep_view(),
            entity: self.entity.deep_view(),
            project_type: self.project_type.deep_view(),
            additional_properties: self.additional_properties.deep_view(),
        }
    }
}

impl ProjectModel {
    /// The entity without any field.
    pub open spec fn empty() -> ProjectModel {
        ProjectModel {
            name: None,
            description: None,
            highlights: None,
            keywords: None,
            start_date: None,
            end_date: None,
            url: None,
            roles: None,
            entity: None,
            project_type: None,
            additional_properties: Seq::empty(),
        }
    }
}

impl Project {
    /// The entity without any field.
    pub fn new() -> (r: Project)
        ensures
            r.deep_view() == ProjectModel::empty(),
    {
        Project {
            name: None,
            description: None,
            highlights: None,
            keywords: None,
            start_date: None,
            end_date: None,
            url: None,
            roles: None,
            entity: None,
            project_type: None,
            additional_properties: PropertyMap::new(),
        }
    }
}

impl Validate for Project {
    open spec fn violation_of(model: ProjectModel) -> Option<ValidationError> {
        or_else(
            date_violation(model.start_date),
            date_violation(model.end_date),
        )
    }

    fn validate(&self) -> (r: Result<(), ValidationError>) {
        if let Err(error) = check_date(&self.start_date) {
            return Err(error);
        }
        check_date(&self.end_date)
    }
}

/// Facts about the document itself.
#[derive(Clone, Debug, PartialEq, Eq)]
pub struct Meta {
    /// Address of the latest version of the document.
    pub canonical: Option<Uri>,
    /// Version of the document.
    pub version: Option<String>,
    /// When the document was last changed.
    pub last_modified: Option<String>,
    /// The fields of the document that the schema does not model.
    pub additional_properties: PropertyMap,
}

/// What a `Meta` stands for.
#[verifier::ext_equal]
pub ghost struct MetaModel {
    pub canonical: Option<Seq<char>>,
    pub version: Option<Seq<char>>,
    pub last_modified: Option<Seq<char>>,
    pub additional_properties: PropertyModel,
}

impl DeepView for Meta {
    type V = MetaModel;

    open spec fn deep_view(&self) -> MetaModel {
        MetaModel {
            canonical: self.canonical.deep_view(),
            version: self.version.deep_view(),
            last_modified: self.last_modified.deep_view(),
            additional_properties: self.additional_properties.deep_view(),
        }
    }
}

impl MetaModel {
    /// The entity without any field.
    pub open spec fn empty() -> MetaModel {
        MetaModel {
            canonical: None,
            version: None,
            last_modified: None,
            additional_properties: Seq::empty(),
        }
    }
}

impl Meta {
    /// The entity without any field.
    pub fn new() -> (r: Meta)
        ensures
            r.deep_view() == MetaModel::empty(),
    {
        Meta {
            canonical: None,
            version: None,
            last_modified: None,
            additional_properties: PropertyMap::new(),
        }
    }
}

/// A resume: the root of the document.
#[derive(Clone, Debug, PartialEq, Eq)]
pub struct Resume {
    /// Address of the schema that the document follows.
    pub schema: Option<Uri>,
    /// Who the person is.
    pub basics: Option<Basics>,
    /// Positions held.
    pub work: Option<Vec<WorkExperience>>,
    /// Voluntary work.
    pub volunteer: Option<Vec<VolunteerExperience>>,
    /// Courses of study.
    pub education: Option<Vec<Education>>,
    /// Awards received.
    pub awards: Option<Vec<Award>>,
    /// Certificates earned.
    pub certificates: Option<Vec<Certificate>>,
    /// Published works.
    pub publications: Option<Vec<Publication>>,
    /// Skills.
    pub skills: Option<Vec<Skill>>,
    /// Languages spoken.
    pub languages: Option<Vec<Language>>,
    /// Interests.
    pub interests: Option<Vec<Interest>>,
    /// References.
    pub references: Option<Vec<Reference>>,
    /// Projects worked on.
    pub projects: Option<Vec<Project>>,
    /// Facts about the document itself.
    pub meta: Option<Meta>,
    /// The fields of the document that the schema does not model.
    pub additional_properties: PropertyMap,
}

/// What a `Resume` stands for.
#[verifier::ext_equal]
pub ghost struct ResumeModel {
    pub schema: Option<Seq<char>>,
    pub basics: Option<BasicsModel>,
    pub work: Option<Seq<WorkExperienceModel>>,
    pub volunteer: Option<Seq<VolunteerExperienceModel>>,
    pub education: Option<Seq<EducationModel>>,
    pub awards: Option<Seq<AwardModel>>,
    pub certificates: Option<Seq<CertificateModel>>,
    pub publications: Option<Seq<PublicationModel>>,
    pub skills: Option<Seq<SkillModel>>,
    pub languages: Option<Seq<LanguageModel>>,
    pub interests: Option<Seq<InterestModel>>,
    pub references: Option<Seq<ReferenceModel>>,
    pub projects: Option<Seq<ProjectModel>>,
    pub meta: Option<MetaModel>,
    pub additional_properties: PropertyModel,
}

impl DeepView for Resume {
    type V = ResumeModel;

    open spec fn deep_view(&self) -> ResumeModel {
        ResumeModel {
            schema: self.schema.deep_view(),
            basics: self.basics.deep_view(),
            work: self.work.deep_view(),
            volunteer: self.volunteer.deep_view(),
            education: self.education.deep_view(),
            awards: self.awards.deep_view(),
            certificates: self.certificates.deep_view(),
            publications: self.publications.deep_view(),
            skills: self.skills.deep_view(),
            languages: self.languages.deep_view(),
            interests: self.interests.deep_view(),
            references: self.references.deep_view(),
            projects: self.projects.deep_view(),
            meta: self.meta.deep_view(),
            additional_properties: self.additional_properties.deep_view(),
        }
    }
}

impl ResumeModel {
    /// The entity without any field.
    pub open spec fn empty() -> ResumeModel {
        ResumeModel {
            schema: None,
            basics: None,
            work: None,
            volunteer: None,
            education: None,
            awards: None,
            certificates: None,
            publications: None,
            skills: None,
            languages: None,
            interests: None,
            references: None,
            projects: None,
            meta: None,
            additional_properties: Seq::empty(),
        }
    }
}

impl Resume {
    /// A resume without any field.
    pub fn new() -> (r: Resume)
        ensures
            r.deep_view() == ResumeModel::empty(),
    {
        Resume {
            schema: None,
            basics: None,
            work: None,
            volunteer: None,
            education: None,
            awards: None,
            certificates: None,
            publications: None,
            skills: None,
            languages: None,
            interests: None,
            references: None,
            projects: None,
            meta: None,
            additional_properties: PropertyMap::new(),
        }
    }

    /// Checks every field rule of the resume and of the entities below it.
    pub fn validate_resume(&self) -> (r: Result<(), ValidationError>)
        ensures
            r == verdict(Resume::violation_of(self.deep_view())),
    {
        self.validate()
    }
}

impl Default for Resume {
    fn default() -> (r: Resume)
        ensures
            r.deep_view() == ResumeModel::empty(),
    {
        Resume::new()
    }
}

impl Validate for Resume {
    open spec fn violation_of(model: ResumeModel) -> Option<ValidationError> {
        or_else(
            present_violation::<Basics>(model.basics),
            or_else(
                list_violation::<WorkExperience>(model.work),
                or_else(
                    list_violation::<VolunteerExperience>(model.volunteer),
                    or_else(
                        list_violation::<Education>(model.education),
                        or_else(
                            list_violation::<Award>(model.awards),
                            or_else(
                                list_violation::<Certificate>(model.certificates),
                                or_else(
                                    list_violation::<Publication>(model.publications),
                                    list_violation::<Project>(model.projects),
                                ),
                            ),
                        ),
                    ),
                ),
            ),
        )
    }

    fn validate(&self) -> (r: Result<(), ValidationError>) {
        if let Err(error) = validate_present(&self.basics) {
            return Err(error);
        }
        if let Err(error) = validate_list(&self.work) {
            return Err(error);
        }
        if let Err(error) = validate_list(&self.volunteer) {
            return Err(error);
        }
        if let Err(error) = validate_list(&self.education) {
            return Err(error);
        }
        if let Err(error) = validate_list(&self.awards) {
            return Err(error);
        }
        if let Err(error) = validate_list(&self.certificates) {
            return Err(error);
        }
        if let Err(error) = validate_list(&self.publications) {
            return Err(error);
        }
        validate_list(&self.projects)
    }
}

} // verus!
