use resume_model::example::{ResumeBuilder, SectionKind};
use resume_model::json_resume::{
    Award, Basics, Certificate, Education, Iso8601Date, Language, Location, Meta, Publication,
    Resume, Skill, WorkExperience,
};
use resume_model::resumes::Available;

fn text(value: &str) -> Option<String> {
    Some(value.to_string())
}

fn date(value: &str) -> Option<Iso8601Date> {
    Some(Iso8601Date::new(value))
}

#[test]
fn empty_resume_has_no_section() {
    assert_eq!(ResumeBuilder::sections(&Resume::new()), vec![]);
}

#[test]
fn sections_come_in_layout_order_and_skip_empty_groups() {
    let mut resume = Resume::new();
    resume.meta = Some(Meta::new());
    resume.skills = Some(vec![Skill::new()]);
    resume.work = Some(vec![]);
    resume.awards = Some(vec![Award::new()]);
    resume.basics = Some(Basics::new());
    assert_eq!(
        ResumeBuilder::sections(&resume),
        vec![SectionKind::Basics, SectionKind::Awards, SectionKind::Skills, SectionKind::Meta]
    );
    assert!(!ResumeBuilder::has_section(&resume, SectionKind::Work));
    assert!(!ResumeBuilder::has_section(&resume, SectionKind::Projects));
    assert!(ResumeBuilder::has_section(&resume, SectionKind::Skills));
    resume.work = Some(vec![WorkExperience::new()]);
    assert!(ResumeBuilder::has_section(&resume, SectionKind::Work));
}

#[test]
fn ongoing_span_reads_present() {
    assert_eq!(ResumeBuilder::date_range(&date("2020-01"), &None), text("2020-01 to Present"));
    assert_eq!(
        ResumeBuilder::date_range(&date("2020-01"), &date("2021")),
        text("2020-01 to 2021")
    );
    assert_eq!(ResumeBuilder::date_range(&None, &date("2021")), text("to 2021"));
    assert_eq!(ResumeBuilder::date_range(&None, &None), None);
}

#[test]
fn location_line() {
    let mut location = Location::new();
    assert_eq!(ResumeBuilder::location_line(&location), None);
    location.city = text("London");
    assert_eq!(ResumeBuilder::location_line(&location), text("London, "));
    location.country_code = text("GB");
    assert_eq!(ResumeBuilder::location_line(&location), text("London, GB"));
    location.city = None;
    assert_eq!(ResumeBuilder::location_line(&location), text(", GB"));
}

#[test]
fn list_lines() {
    let mut award = Award::new();
    assert_eq!(ResumeBuilder::award_line(&award), "");
    award.title = text("Medal");
    award.awarder = text("Society");
    award.date = date("2012-11");
    assert_eq!(ResumeBuilder::award_line(&award), "Medal - Society (2012-11)");
    award.awarder = None;
    assert_eq!(ResumeBuilder::award_line(&award), "Medal (2012-11)");
    let mut certificate = Certificate::new();
    certificate.name = text("Pilot");
    assert_eq!(ResumeBuilder::certificate_line(&certificate), "Pilot");
    certificate.issuer = text("Authority");
    assert_eq!(ResumeBuilder::certificate_line(&certificate), "Pilot - Authority");
    let mut publication = Publication::new();
    publication.publisher = text("Press");
    assert_eq!(ResumeBuilder::publication_line(&publication), " - Press");
    let mut language = Language::new();
    language.language = text("French");
    language.fluency = text("Native");
    assert_eq!(ResumeBuilder::language_line(&language), "French - Native");
}

#[test]
fn degree_line() {
    let mut education = Education::new();
    assert_eq!(ResumeBuilder::degree_line(&education), None);
    education.area = text("Mathematics");
    assert_eq!(ResumeBuilder::degree_line(&education), text("in Mathematics"));
    education.study_type = text("BA");
    assert_eq!(ResumeBuilder::degree_line(&education), text("BA in Mathematics"));
    education.area = None;
    assert_eq!(ResumeBuilder::degree_line(&education), text("BA"));
}

#[test]
fn layouts_by_name() {
    assert_eq!(Available::Basic.label(), "basic");
    assert_eq!(Available::from_label("basic"), Some(Available::Basic));
    assert_eq!(Available::from_label("Basic"), None);
    assert_eq!(Available::from_label(""), None);
}
