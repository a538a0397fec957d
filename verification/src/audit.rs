//! What the normalizer leaves out. A field of the source that cannot be carried
//! over is dropped without a failure; this module tells which fields those are,
//! each with the place in the resume where it would have stood and the reason.

use crate::document::{path_text, path_to_string, PathModel, PathStep, PathStepModel};
use crate::from_linkedin::{
    award_of, basics_of, certificate_of, company_logo, country_code, country_code_for,
    education_of, grouped_positions, image_uri, mini_company_of, period_end, period_start,
    school_logo, test_score_certificate_of, to_json_resume_at, to_jsonresume_award,
    to_jsonresume_basics, to_jsonresume_certificate, to_jsonresume_education,
    to_jsonresume_test_score_as_certificate, to_jsonresume_volunteer,
    to_jsonresume_work_experience, volunteer_of, work_experience_of,
};
use crate::linkedin;
use vstd::prelude::*;
use vstd::string::*;

verus! {

/// Why a field of the source was left out.
#[derive(Clone, Copy, Debug, PartialEq, Eq, Structural)]
pub enum SkipReason {
    /// A month of a year whose text does not match the date pattern.
    InvalidDateFormat,
    /// An address that does not parse as a resource identifier.
    UnparseableUri,
    /// A value for which the schema, or the table that maps it, has no place.
    UnmappableSourceField,
}

/// A field that was left out: where it would have stood in the resume, and why
/// it does not.
#[derive(Clone, Debug, PartialEq, Eq)]
pub struct Skipped {
    pub path: Vec<PathStep>,
    pub reason: SkipReason,
}

/// What a `Skipped` stands for.
pub ghost struct SkippedModel {
    pub path: PathModel,
    pub reason: SkipReason,
}

impl DeepView for Skipped {
    type V = SkippedModel;

    open spec fn deep_view(&self) -> SkippedModel {
        SkippedModel { path: self.path.deep_view(), reason: self.reason }
    }
}

impl Skipped {
    /// The place where the field would have stood, as text.
    pub fn path_string(&self) -> (r: String)
        ensures
            r@ == path_text(self.deep_view().path),
    {
        path_to_string(&self.path)
    }
}

/// The note that the field `name` was left out, where it was.
pub open spec fn noted(name: Seq<char>, left_out: bool, reason: SkipReason) -> Seq<SkippedModel> {
    if left_out {
        seq![SkippedModel { path: seq![PathStepModel::Field(name)], reason }]
    } else {
        Seq::empty()
    }
}

/// Notes about an entity, seen from further up: every path with `steps` before
/// it.
pub open spec fn seen_below(steps: PathModel, notes: Seq<SkippedModel>) -> Seq<SkippedModel> {
    notes.map_values(|note: SkippedModel| SkippedModel { path: steps + note.path, ..note })
}

/// The notes about the entities of the list `name`, which stand in the list from
/// place `offset` on.
pub open spec fn seen_in_list<S>(
    name: Seq<char>,
    offset: nat,
    items: Seq<S>,
    notes: spec_fn(S) -> Seq<SkippedModel>,
) -> Seq<SkippedModel>
    decreases items.len(),
{
    if items.len() == 0 {
        Seq::empty()
    } else {
        seen_in_list(name, offset, items.drop_last(), notes) + seen_below(
            seq![
                PathStepModel::Field(name),
                PathStepModel::Index((offset + items.len() - 1) as nat),
            ],
            notes(items.last()),
        )
    }
}

/// One note for each of `count` items of the list `name` that are never taken
/// over.
pub open spec fn never_taken(name: Seq<char>, count: nat) -> Seq<SkippedModel>
    decreases count,
{
    if count == 0 {
        Seq::empty()
    } else {
        never_taken(name, (count - 1) as nat).push(
            SkippedModel {
                path: seq![PathStepModel::Field(name), PathStepModel::Index((count - 1) as nat)],
                reason: SkipReason::UnmappableSourceField,
            },
        )
    }
}

/// Whether an image has what its address is made of: a root and a rendition.
pub open spec fn has_address(image: Option<linkedin::VectorImage>) -> bool {
    image matches Some(value) && value.root_url is Some && value.artifacts.len() > 0
}

/// The logo of an organization that may be absent.
pub open spec fn logo_of(company: Option<linkedin::CompanyInfo>) -> Option<linkedin::VectorImage> {
    match mini_company_of(company) {
        Some(mini) => mini.logo,
        None => None,
    }
}

/// Whether an organization names its page.
pub open spec fn names_page(company: Option<linkedin::CompanyInfo>) -> bool {
    mini_company_of(company) matches Some(mini) && mini.universal_name is Some
}

/// What is left out of the basics: the picture and the page where their
/// addresses do not parse, the country where the table does not hold it.
pub open spec fn basics_notes(profile: linkedin::Profile) -> Seq<SkippedModel> {
    noted(
        "image"@,
        has_address(profile.profile_picture_original_image) && basics_of(profile).image is None,
        SkipReason::UnparseableUri,
    ) + noted(
        "url"@,
        profile.entity_urn is Some && basics_of(profile).url is None,
        SkipReason::UnparseableUri,
    ) + seen_below(
        seq![PathStepModel::Field("location"@)],
        noted(
            "countryCode"@,
            profile.geo_country_name matches Some(name) && country_code_for(name@) is None,
            SkipReason::UnmappableSourceField,
        ),
    )
}

/// What is left out of a position: the page and the logo of the organization
/// where their addresses do not parse, the dates that do not match the pattern.
pub open spec fn work_notes(experience: linkedin::Experience) -> Seq<SkippedModel> {
    noted(
        "url"@,
        names_page(experience.company) && work_experience_of(experience).url is None,
        SkipReason::UnparseableUri,
    ) + noted(
        "startDate"@,
        period_start(experience.time_period) is Some && work_experience_of(
            experience,
        ).start_date is None,
        SkipReason::InvalidDateFormat,
    ) + noted(
        "endDate"@,
        period_end(experience.time_period) is Some && work_experience_of(experience).end_date
            is None,
        SkipReason::InvalidDateFormat,
    ) + noted(
        "companyLogo"@,
        has_address(logo_of(experience.company)) && company_logo(experience.company) is None,
        SkipReason::UnparseableUri,
    )
}

/// What is left out of voluntary work: the page of the organization where its
/// address does not parse, the dates that do not match the pattern.
pub open spec fn volunteer_notes(volunteer: linkedin::VolunteerExperience) -> Seq<SkippedModel> {
    noted(
        "url"@,
        names_page(volunteer.company) && volunteer_of(volunteer).url is None,
        SkipReason::UnparseableUri,
    ) + noted(
        "startDate"@,
        period_start(volunteer.time_period) is Some && volunteer_of(volunteer).start_date is None,
        SkipReason::InvalidDateFormat,
    ) + noted(
        "endDate"@,
        period_end(volunteer.time_period) is Some && volunteer_of(volunteer).end_date is None,
        SkipReason::InvalidDateFormat,
    )
}

/// Whether a school is identified by a name.
pub open spec fn is_identified(school: Option<linkedin::SchoolInfo>) -> bool {
    school matches Some(info) && info.entity_urn is Some
}

/// The logo of a school that may be absent.
pub open spec fn school_logo_of(school: Option<linkedin::SchoolInfo>) -> Option<
    linkedin::VectorImage,
> {
    match school {
        Some(info) => info.logo,
        None => None,
    }
}

/// What is left out of a course of study: the page and the logo of the school
/// where their addresses do not parse, the dates that do not match the pattern.
pub open spec fn education_notes(education: linkedin::Education) -> Seq<SkippedModel> {
    noted(
        "url"@,
        is_identified(education.school) && education_of(education).url is None,
        SkipReason::UnparseableUri,
    ) + noted(
        "startDate"@,
        period_start(education.time_period) is Some && education_of(education).start_date is None,
        SkipReason::InvalidDateFormat,
    ) + noted(
        "endDate"@,
        period_end(education.time_period) is Some && education_of(education).end_date is None,
        SkipReason::InvalidDateFormat,
    ) + noted(
        "schoolLogo"@,
        has_address(school_logo_of(education.school)) && school_logo(education.school) is None,
        SkipReason::UnparseableUri,
    )
}

/// What is left out of an award: its date where it does not match the pattern.
pub open spec fn award_notes(honor: linkedin::Honor) -> Seq<SkippedModel> {
    noted(
        "date"@,
        honor.issue_date is Some && award_of(honor).date is None,
        SkipReason::InvalidDateFormat,
    )
}

/// What is left out of a certificate: its date where it does not match the
/// pattern.
pub open spec fn certificate_notes(certification: linkedin::Certification) -> Seq<SkippedModel> {
    noted(
        "date"@,
        period_start(certification.time_period) is Some && certificate_of(certification).date
            is None,
        SkipReason::InvalidDateFormat,
    )
}

/// What is left out of the certificate of a test score: its date where it does
/// not match the pattern.
pub open spec fn test_score_notes(test: linkedin::TestScore) -> Seq<SkippedModel> {
    noted(
        "date"@,
        test.date is Some && test_score_certificate_of(test).date is None,
        SkipReason::InvalidDateFormat,
    )
}

/// `work_notes` as a value.
pub open spec fn to_work_notes() -> spec_fn(linkedin::Experience) -> Seq<SkippedModel> {
    |experience: linkedin::Experience| work_notes(experience)
}

/// `volunteer_notes` as a value.
pub open spec fn to_volunteer_notes() -> spec_fn(linkedin::VolunteerExperience) -> Seq<
    SkippedModel,
> {
    |volunteer: linkedin::VolunteerExperience| volunteer_notes(volunteer)
}

/// `education_notes` as a value.
pub open spec fn to_education_notes() -> spec_fn(linkedin::Education) -> Seq<SkippedModel> {
    |education: linkedin::Education| education_notes(education)
}

/// `award_notes` as a value.
pub open spec fn to_award_notes() -> spec_fn(linkedin::Honor) -> Seq<SkippedModel> {
    |honor: linkedin::Honor| award_notes(honor)
}

/// `certificate_notes` as a value.
pub open spec fn to_certificate_notes() -> spec_fn(linkedin::Certification) -> Seq<
    SkippedModel,
> {
    |certification: linkedin::Certification| certificate_notes(certification)
}

/// `test_score_notes` as a value.
pub open spec fn to_test_score_notes() -> spec_fn(linkedin::TestScore) -> Seq<SkippedModel> {
    |test: linkedin::TestScore| test_score_notes(test)
}

/// Everything that the normalizer leaves out of a profile view, in the order of
/// the resume: the basics, the positions, the voluntary work, the courses of
/// study, the awards, the certificates with those of the test scores behind them,
/// and the publications and projects, none of which is taken over.
pub open spec fn skipped_of(view: linkedin::ProfileView) -> Seq<SkippedModel> {
    let positions = grouped_positions(view.position_groups@) + view.positions@;
    let certified = view.certifications.len() as nat;
    seen_below(seq![PathStepModel::Field("basics"@)], basics_notes(view.profile))
        + seen_in_list("work"@, 0, positions, to_work_notes())
        + seen_in_list("volunteer"@, 0, view.volunteer_experiences@, to_volunteer_notes())
        + seen_in_list("education"@, 0, view.education@, to_education_notes())
        + seen_in_list("awards"@, 0, view.honors@, to_award_notes())
        + seen_in_list("certificates"@, 0, view.certifications@, to_certificate_notes())
        + seen_in_list("certificates"@, certified, view.test_scores@, to_test_score_notes())
        + never_taken("publications"@, view.publications.len() as nat)
        + never_taken("projects"@, view.projects.len() as nat)
}

fn note(out: &mut Vec<Skipped>, name: &str, left_out: bool, reason: SkipReason)
    ensures
        final(out).deep_view() == old(out).deep_view() + noted(name@, left_out, reason),
{
    let ghost before = out.deep_view();
    if left_out {
        let path: Vec<PathStep> = vec![PathStep::Field(String::from_str(name))];
        assert(path.deep_view() =~= seq![PathStepModel::Field(name@)]);
        out.push(Skipped { path, reason });
    }
    assert(out.deep_view() =~= before + noted(name@, left_out, reason));
}

fn copy_path(steps: &Vec<PathStep>) -> (r: Vec<PathStep>)
    ensures
        r.deep_view() == steps.deep_view(),
{
    let mut out: Vec<PathStep> = Vec::new();
    let mut i: usize = 0;
    while i < steps.len()
        invariant
            i <= steps.len(),
            out.len() == i,
            forall|j: int| 0 <= j < i ==> out[j].deep_view() == steps[j].deep_view(),
        decreases steps.len() - i,
    {
        let step = match &steps[i] {
            PathStep::Field(name) => PathStep::Field(name.clone()),
            PathStep::Index(place) => PathStep::Index(*place),
        };
        out.push(step);
        i += 1;
    }
    assert(out.deep_view() =~= steps.deep_view());
    out
}

fn append_below(out: &mut Vec<Skipped>, steps: &Vec<PathStep>, notes: &Vec<Skipped>)
    ensures
        final(out).deep_view() == old(out).deep_view() + seen_below(
            steps.deep_view(),
            notes.deep_view(),
        ),
{
    let ghost before = out.deep_view();
    let ghost all = notes.deep_view();
    let ghost front = steps.deep_view();
    let mut i: usize = 0;
    assert(out.deep_view() =~= before + seen_below(front, all.take(0)));
    while i < notes.len()
        invariant
            i <= notes.len() == all.len(),
            front == steps.deep_view(),
            all == notes.deep_view(),
            out.deep_view() == before + seen_below(front, all.take(i as int)),
        decreases notes.len() - i,
    {
        let ghost so_far = out.deep_view();
        let mut path = copy_path(steps);
        let mut tail = copy_path(&notes[i].path);
        path.append(&mut tail);
        assert(path.deep_view() =~= front + all[i as int].path);
        let entry = Skipped { path, reason: notes[i].reason };
        let ghost entry_model = entry.deep_view();
        out.push(entry);
        assert(out.deep_view() =~= so_far.push(entry_model));
        assert(all.take(i + 1) =~= all.take(i as int).push(all[i as int]));
        assert(seen_below(front, all.take(i + 1)) =~= seen_below(front, all.take(i as int)).push(
            entry_model,
        ));
        i += 1;
    }
    assert(all.take(all.len() as int) == all);
}

/// The notes about a list that is made of two parts are those about the first
/// part followed by those about the second, which stands behind the first.
pub proof fn lemma_seen_in_list_of_two<S>(
    name: Seq<char>,
    offset: nat,
    first: Seq<S>,
    second: Seq<S>,
    notes: spec_fn(S) -> Seq<SkippedModel>,
)
    ensures
        seen_in_list(name, offset, first + second, notes) == seen_in_list(
            name,
            offset,
            first,
            notes,
        ) + seen_in_list(name, offset + first.len(), second, notes),
    decreases second.len(),
{
    if second.len() == 0 {
        assert(first + second =~= first);
    } else {
        let both = first + second;
        assert(both.drop_last() =~= first + second.drop_last());
        assert(both.last() == second.last());
        lemma_seen_in_list_of_two(name, offset, first, second.drop_last(), notes);
    }
}

fn has_address_parts(image: &Option<linkedin::VectorImage>) -> (r: bool)
    ensures
        r == has_address(*image),
{
    match image {
        Some(value) => value.root_url.is_some() && value.artifacts.len() > 0,
        None => false,
    }
}

fn company_names_page(company: &Option<linkedin::CompanyInfo>) -> (r: bool)
    ensures
        r == names_page(*company),
{
    match company {
        Some(info) => match &info.mini_company {
            Some(mini) => mini.universal_name.is_some(),
            None => false,
        },
        None => false,
    }
}

fn company_logo_is_lost(company: &Option<linkedin::CompanyInfo>) -> (r: bool)
    ensures
        r == (has_address(logo_of(*company)) && company_logo(*company) is None),
{
    match company {
        Some(info) => match &info.mini_company {
            Some(mini) => has_address_parts(&mini.logo) && image_uri(&mini.logo).is_none(),
            None => false,
        },
        None => false,
    }
}

fn school_logo_is_lost(school: &Option<linkedin::SchoolInfo>) -> (r: bool)
    ensures
        r == (has_address(school_logo_of(*school)) && school_logo(*school) is None),
{
    match school {
        Some(info) => has_address_parts(&info.logo) && image_uri(&info.logo).is_none(),
        None => false,
    }
}

fn has_start(period: &Option<linkedin::TimePeriod>) -> (r: bool)
    ensures
        r == (period_start(*period) is Some),
{
    match period {
        Some(value) => value.start_date.is_some(),
        None => false,
    }
}

fn has_end(period: &Option<linkedin::TimePeriod>) -> (r: bool)
    ensures
        r == (period_end(*period) is Some),
{
    match period {
        Some(value) => value.end_date.is_some(),
        None => false,
    }
}

/// What is left out of the basics.
pub fn basics_skipped(profile: &linkedin::Profile) -> (r: Vec<Skipped>)
    ensures
        r.deep_view() == basics_notes(*profile),
{
    let basics = to_jsonresume_basics(profile);
    let mut out: Vec<Skipped> = Vec::new();
    assert(out.deep_view() =~= Seq::<SkippedModel>::empty());
    note(
        &mut out,
        "image",
        has_address_parts(&profile.profile_picture_original_image) && basics.image.is_none(),
        SkipReason::UnparseableUri,
    );
    note(
        &mut out,
        "url",
        profile.entity_urn.is_some() && basics.url.is_none(),
        SkipReason::UnparseableUri,
    );
    let unmapped = match &profile.geo_country_name {
        Some(name) => country_code(name.as_str()).is_none(),
        None => false,
    };
    let mut inner: Vec<Skipped> = Vec::new();
    assert(inner.deep_view() =~= Seq::<SkippedModel>::empty());
    note(&mut inner, "countryCode", unmapped, SkipReason::UnmappableSourceField);
    let steps: Vec<PathStep> = vec![PathStep::Field(String::from_str("location"))];
    assert(steps.deep_view() =~= seq![PathStepModel::Field("location"@)]);
    append_below(&mut out, &steps, &inner);
    assert(out.deep_view() =~= basics_notes(*profile));
    out
}

/// What is left out of a position.
pub fn work_skipped(experience: &linkedin::Experience) -> (r: Vec<Skipped>)
    ensures
        r.deep_view() == work_notes(*experience),
{
    let work = to_jsonresume_work_experience(experience);
    let mut out: Vec<Skipped> = Vec::new();
    assert(out.deep_view() =~= Seq::<SkippedModel>::empty());
    note(
        &mut out,
        "url",
        company_names_page(&experience.company) && work.url.is_none(),
        SkipReason::UnparseableUri,
    );
    note(
        &mut out,
        "startDate",
        has_start(&experience.time_period) && work.start_date.is_none(),
        SkipReason::InvalidDateFormat,
    );
    note(
        &mut out,
        "endDate",
        has_end(&experience.time_period) && work.end_date.is_none(),
        SkipReason::InvalidDateFormat,
    );
    note(
        &mut out,
        "companyLogo",
        company_logo_is_lost(&experience.company),
        SkipReason::UnparseableUri,
    );
    assert(out.deep_view() =~= work_notes(*experience));
    out
}

/// What is left out of voluntary work.
pub fn volunteer_skipped(volunteer: &linkedin::VolunteerExperience) -> (r: Vec<Skipped>)
    ensures
        r.deep_view() == volunteer_notes(*volunteer),
{
    let entry = to_jsonresume_volunteer(volunteer);
    let mut out: Vec<Skipped> = Vec::new();
    assert(out.deep_view() =~= Seq::<SkippedModel>::empty());
    note(
        &mut out,
        "url",
        company_names_page(&volunteer.company) && entry.url.is_none(),
        SkipReason::UnparseableUri,
    );
    note(
        &mut out,
        "startDate",
        has_start(&volunteer.time_period) && entry.start_date.is_none(),
        SkipReason::InvalidDateFormat,
    );
    note(
        &mut out,
        "endDate",
        has_end(&volunteer.time_period) && entry.end_date.is_none(),
        SkipReason::InvalidDateFormat,
    );
    assert(out.deep_view() =~= volunteer_notes(*volunteer));
    out
}

/// What is left out of a course of study.
pub fn education_skipped(education: &linkedin::Education) -> (r: Vec<Skipped>)
    ensures
        r.deep_view() == education_notes(*education),
{
    let entry = to_jsonresume_education(education);
    let identified = match &education.school {
        Some(info) => info.entity_urn.is_some(),
        None => false,
    };
    let mut out: Vec<Skipped> = Vec::new();
    assert(out.deep_view() =~= Seq::<SkippedModel>::empty());
    note(&mut out, "url", identified && entry.url.is_none(), SkipReason::UnparseableUri);
    note(
        &mut out,
        "startDate",
        has_start(&education.time_period) && entry.start_date.is_none(),
        SkipReason::InvalidDateFormat,
    );
    note(
        &mut out,
        "endDate",
        has_end(&education.time_period) && entry.end_date.is_none(),
        SkipReason::InvalidDateFormat,
    );
    note(
        &mut out,
        "schoolLogo",
        school_logo_is_lost(&education.school),
        SkipReason::UnparseableUri,
    );
    assert(out.deep_view() =~= education_notes(*education));
    out
}

/// What is left out of an award.
pub fn award_skipped(honor: &linkedin::Honor) -> (r: Vec<Skipped>)
    ensures
        r.deep_view() == award_notes(*honor),
{
    let award = to_jsonresume_award(honor);
    let mut out: Vec<Skipped> = Vec::new();
    assert(out.deep_view() =~= Seq::<SkippedModel>::empty());
    note(
        &mut out,
        "date",
        honor.issue_date.is_some() && award.date.is_none(),
        SkipReason::InvalidDateFormat,
    );
    assert(out.deep_view() =~= award_notes(*honor));
    out
}

/// What is left out of a certificate.
pub fn certificate_skipped(certification: &linkedin::Certification) -> (r: Vec<Skipped>)
    ensures
        r.deep_view() == certificate_notes(*certification),
{
    let certificate = to_jsonresume_certificate(certification);
    let mut out: Vec<Skipped> = Vec::new();
    assert(out.deep_view() =~= Seq::<SkippedModel>::empty());
    note(
        &mut out,
        "date",
        has_start(&certification.time_period) && certificate.date.is_none(),
        SkipReason::InvalidDateFormat,
    );
    assert(out.deep_view() =~= certificate_notes(*certification));
    out
}

/// What is left out of the certificate of a test score.
pub fn test_score_skipped(test: &linkedin::TestScore) -> (r: Vec<Skipped>)
    ensures
        r.deep_view() == test_score_notes(*test),
{
    let certificate = to_jsonresume_test_score_as_certificate(test);
    let mut out: Vec<Skipped> = Vec::new();
    assert(out.deep_view() =~= Seq::<SkippedModel>::empty());
    note(
        &mut out,
        "date",
        test.date.is_some() && certificate.date.is_none(),
        SkipReason::InvalidDateFormat,
    );
    assert(out.deep_view() =~= test_score_notes(*test));
    out
}

fn append_list_notes<S, F: Fn(&S) -> Vec<Skipped>>(
    out: &mut Vec<Skipped>,
    name: &str,
    offset: usize,
    items: &Vec<S>,
    audit: F,
    Ghost(notes): Ghost<spec_fn(S) -> Seq<SkippedModel>>,
)
    requires
        offset + items.len() <= usize::MAX,
        forall|item: &S| call_requires(audit, (item,)),
        forall|item: &S, found: Vec<Skipped>|
            call_ensures(audit, (item,), found) ==> found.deep_view() == notes(*item),
    ensures
        final(out).deep_view() == old(out).deep_view() + seen_in_list(
            name@,
            offset as nat,
            items@,
            notes,
        ),
{
    let ghost before = out.deep_view();
    let mut i: usize = 0;
    assert(out.deep_view() =~= before + seen_in_list(name@, offset as nat, items@.take(0), notes));
    while i < items.len()
        invariant
            i <= items.len(),
            offset + items.len() <= usize::MAX,
            forall|item: &S| call_requires(audit, (item,)),
            forall|item: &S, found: Vec<Skipped>|
                call_ensures(audit, (item,), found) ==> found.deep_view() == notes(*item),
            out.deep_view() == before + seen_in_list(
                name@,
                offset as nat,
                items@.take(i as int),
                notes,
            ),
        decreases items.len() - i,
    {
        let ghost so_far = out.deep_view();
        let found = audit(&items[i]);
        let steps: Vec<PathStep> = vec![
            PathStep::Field(String::from_str(name)),
            PathStep::Index(offset + i),
        ];
        assert(steps.deep_view() =~= seq![
            PathStepModel::Field(name@),
            PathStepModel::Index((offset + i) as nat),
        ]);
        append_below(out, &steps, &found);
        assert(items@.take(i + 1).drop_last() == items@.take(i as int));
        assert(items@.take(i + 1).last() == items@[i as int]);
        assert(out.deep_view() =~= before + seen_in_list(
            name@,
            offset as nat,
            items@.take(i + 1),
            notes,
        ));
        i += 1;
    }
    assert(items@.take(items.len() as int) == items@);
}

fn append_never_taken(out: &mut Vec<Skipped>, name: &str, count: usize)
    ensures
        final(out).deep_view() == old(out).deep_view() + never_taken(name@, count as nat),
{
    let ghost before = out.deep_view();
    let mut i: usize = 0;
    assert(out.deep_view() =~= before + never_taken(name@, 0));
    while i < count
        invariant
            i <= count,
            out.deep_view() == before + never_taken(name@, i as nat),
        decreases count - i,
    {
        let ghost so_far = out.deep_view();
        let path: Vec<PathStep> = vec![
            PathStep::Field(String::from_str(name)),
            PathStep::Index(i),
        ];
        assert(path.deep_view() =~= seq![
            PathStepModel::Field(name@),
            PathStepModel::Index(i as nat),
        ]);
        let entry = Skipped { path, reason: SkipReason::UnmappableSourceField };
        let ghost entry_model = entry.deep_view();
        out.push(entry);
        assert(out.deep_view() =~= so_far.push(entry_model));
        i += 1;
    }
}

/// The positions of the groups before a place are at most as many as the
/// positions of all groups.
proof fn lemma_grouped_positions_grow(groups: Seq<linkedin::PositionGroup>, upto: int)
    requires
        0 <= upto < groups.len(),
    ensures
        grouped_positions(groups.take(upto)).len() + groups[upto].positions.len()
            <= grouped_positions(groups).len(),
        grouped_positions(groups.take(upto + 1)) == grouped_positions(groups.take(upto))
            + groups[upto].positions@,
    decreases groups.len(),
{
    assert(groups.take(upto + 1).drop_last() == groups.take(upto));
    if upto + 1 < groups.len() {
        let shorter = groups.drop_last();
        assert(shorter.take(upto) == groups.take(upto));
        lemma_grouped_positions_grow(shorter, upto);
    } else {
        assert(groups.take(upto + 1) == groups);
    }
}

/// The resume holds all positions in one list and all certificates in one list,
/// so there are no more of them than a list can hold.
fn count_lists(view: &linkedin::ProfileView)
    ensures
        grouped_positions(view.position_groups@).len() + view.positions.len() <= usize::MAX,
        view.certifications.len() + view.test_scores.len() <= usize::MAX,
{
    let resume = to_json_resume_at(view, String::new());
    proof {
        if let Some(list) = resume.work {
            assert(list.deep_view().len() == list.len());
        }
        if let Some(list) = resume.certificates {
            assert(list.deep_view().len() == list.len());
        }
    }
}

fn append_work_notes(out: &mut Vec<Skipped>, view: &linkedin::ProfileView)
    requires
        grouped_positions(view.position_groups@).len() + view.positions.len() <= usize::MAX,
    ensures
        final(out).deep_view() == old(out).deep_view() + seen_in_list(
            "work"@,
            0,
            grouped_positions(view.position_groups@) + view.positions@,
            to_work_notes(),
        ),
{
    let ghost base = out.deep_view();
    let ghost groups = view.position_groups@;
    let mut offset: usize = 0;
    let mut g: usize = 0;
    assert(groups.take(0) =~= Seq::<linkedin::PositionGroup>::empty());
    assert(out.deep_view() =~= base + seen_in_list(
        "work"@,
        0,
        grouped_positions(groups.take(0)),
        to_work_notes(),
    ));
    while g < view.position_groups.len()
        invariant
            g <= view.position_groups.len(),
            groups == view.position_groups@,
            offset == grouped_positions(groups.take(g as int)).len(),
            grouped_positions(groups).len() <= usize::MAX,
            out.deep_view() == base + seen_in_list(
                "work"@,
                0,
                grouped_positions(groups.take(g as int)),
                to_work_notes(),
            ),
        decreases view.position_groups.len() - g,
    {
        let ghost so_far = out.deep_view();
        let ghost before = grouped_positions(groups.take(g as int));
        proof {
            lemma_grouped_positions_grow(groups, g as int);
            lemma_seen_in_list_of_two(
                "work"@,
                0,
                before,
                groups[g as int].positions@,
                to_work_notes(),
            );
        }
        append_list_notes(
            out,
            "work",
            offset,
            &view.position_groups[g].positions,
            work_skipped,
            Ghost(to_work_notes()),
        );
        assert(out.deep_view() =~= base + seen_in_list(
            "work"@,
            0,
            grouped_positions(groups.take(g + 1)),
            to_work_notes(),
        ));
        offset += view.position_groups[g].positions.len();
        g += 1;
    }
    let ghost so_far = out.deep_view();
    proof {
        assert(groups.take(groups.len() as int) == groups);
        lemma_seen_in_list_of_two(
            "work"@,
            0,
            grouped_positions(groups),
            view.positions@,
            to_work_notes(),
        );
    }
    append_list_notes(out, "work", offset, &view.positions, work_skipped, Ghost(to_work_notes()));
    assert(out.deep_view() =~= base + seen_in_list(
        "work"@,
        0,
        grouped_positions(groups) + view.positions@,
        to_work_notes(),
    ));
}

/// Everything that the normalizer leaves out of a profile view.
pub fn skipped_mappings(view: &linkedin::ProfileView) -> (r: Vec<Skipped>)
    ensures
        r.deep_view() == skipped_of(*view),
{
    count_lists(view);
    let mut out: Vec<Skipped> = Vec::new();
    assert(out.deep_view() =~= Seq::<SkippedModel>::empty());
    let steps: Vec<PathStep> = vec![PathStep::Field(String::from_str("basics"))];
    assert(steps.deep_view() =~= seq![PathStepModel::Field("basics"@)]);
    append_below(&mut out, &steps, &basics_skipped(&view.profile));
    append_work_notes(&mut out, view);
    append_list_notes(
        &mut out,
        "volunteer",
        0,
        &view.volunteer_experiences,
        volunteer_skipped,
        Ghost(to_volunteer_notes()),
    );
    append_list_notes(
        &mut out,
        "education",
        0,
        &view.education,
        education_skipped,
        Ghost(to_education_notes()),
    );
    append_list_notes(&mut out, "awards", 0, &view.honors, award_skipped, Ghost(to_award_notes()));
    append_list_notes(
        &mut out,
        "certificates",
        0,
        &view.certifications,
        certificate_skipped,
        Ghost(to_certificate_notes()),
    );
    append_list_notes(
        &mut out,
        "certificates",
        view.certifications.len(),
        &view.test_scores,
        test_score_skipped,
        Ghost(to_test_score_notes()),
    );
    append_never_taken(&mut out, "publications", view.publications.len());
    append_never_taken(&mut out, "projects", view.projects.len());
    assert(out.deep_view() =~= skipped_of(*view));
    out
}

} // verus!
