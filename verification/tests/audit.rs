use resume_model::audit::{
    award_skipped, basics_skipped, skipped_mappings, work_skipped, SkipReason, Skipped,
};
use resume_model::document::PathStep;
use resume_model::json::JsonValue;
use resume_model::linkedin::{
    Certification, CompanyInfo, Education, Experience, Honor, ImageArtifact, MiniCompany, Month,
    PositionGroup, Profile, ProfileView, Project, SchoolInfo, TestScore, TimePeriod, VectorImage,
    VolunteerExperience, YearMonth,
};

fn text(value: &str) -> Option<String> {
    Some(value.to_string())
}

fn profile() -> Profile {
    Profile {
        entity_urn: None,
        first_name: None,
        last_name: None,
        headline: None,
        summary: None,
        geo_country_name: None,
        geo_location_name: None,
        geo_location: None,
        address: None,
        profile_picture_original_image: None,
    }
}

fn experience() -> Experience {
    Experience {
        title: None,
        company_name: None,
        company: None,
        description: None,
        time_period: None,
        geo_location_name: None,
        location_name: None,
        region: None,
    }
}

fn view() -> ProfileView {
    ProfileView {
        profile: profile(),
        position_groups: vec![],
        positions: vec![],
        education: vec![],
        skills: vec![],
        languages: vec![],
        volunteer_experiences: vec![],
        volunteer_causes: vec![],
        honors: vec![],
        certifications: vec![],
        publications: vec![],
        projects: vec![],
        test_scores: vec![],
        courses: vec![],
    }
}

fn broken_image() -> Option<VectorImage> {
    Some(VectorImage {
        root_url: text("nowhere/"),
        artifacts: vec![ImageArtifact { file_identifying_url_path_segment: text("a.png") }],
    })
}

fn month(year: i32) -> Option<YearMonth> {
    Some(YearMonth { year, month: Month::May })
}

fn lines(notes: &[Skipped]) -> Vec<(String, SkipReason)> {
    notes.iter().map(|note| (note.path_string(), note.reason)).collect()
}

fn line(path: &str, reason: SkipReason) -> (String, SkipReason) {
    (path.to_string(), reason)
}

#[test]
fn nothing_is_left_out_of_a_clean_view() {
    let mut source = view();
    source.profile.entity_urn = text("urn:li:fs_profile:ada");
    source.profile.geo_country_name = text("France");
    let mut position = experience();
    position.time_period = Some(TimePeriod { start_date: month(2020), end_date: None });
    source.positions = vec![position];
    assert_eq!(skipped_mappings(&source), vec![]);
    assert_eq!(skipped_mappings(&view()), vec![]);
}

#[test]
fn basics_notes() {
    let mut source = profile();
    source.geo_country_name = text("Italy");
    source.profile_picture_original_image = broken_image();
    assert_eq!(
        basics_skipped(&source),
        vec![
            Skipped {
                path: vec![PathStep::Field("image".to_string())],
                reason: SkipReason::UnparseableUri,
            },
            Skipped {
                path: vec![
                    PathStep::Field("location".to_string()),
                    PathStep::Field("countryCode".to_string()),
                ],
                reason: SkipReason::UnmappableSourceField,
            },
        ]
    );
    source.profile_picture_original_image =
        Some(VectorImage { root_url: text("nowhere/"), artifacts: vec![] });
    source.geo_country_name = text("Germany");
    assert_eq!(basics_skipped(&source), vec![]);
}

#[test]
fn position_notes() {
    let mut source = experience();
    source.time_period = Some(TimePeriod { start_date: month(999), end_date: month(30000) });
    source.company = Some(CompanyInfo {
        employee_count_range: None,
        industries: vec![],
        mini_company: Some(MiniCompany { universal_name: text("engines"), logo: broken_image() }),
    });
    assert_eq!(
        lines(&work_skipped(&source)),
        vec![
            line("startDate", SkipReason::InvalidDateFormat),
            line("endDate", SkipReason::InvalidDateFormat),
            line("companyLogo", SkipReason::UnparseableUri),
        ]
    );
    source.time_period = Some(TimePeriod { start_date: month(1999), end_date: None });
    source.company = None;
    assert_eq!(work_skipped(&source), vec![]);
}

#[test]
fn award_notes() {
    let mut honor = Honor {
        title: "Medal".to_string(),
        issuer: None,
        issue_date: month(-1),
        description: None,
        occupation: None,
    };
    assert_eq!(lines(&award_skipped(&honor)), vec![line("date", SkipReason::InvalidDateFormat)]);
    honor.issue_date = None;
    assert_eq!(award_skipped(&honor), vec![]);
}

#[test]
fn notes_carry_the_place_in_the_resume() {
    let mut source = view();
    source.profile.geo_country_name = text("Italy");
    let mut late = experience();
    late.time_period = Some(TimePeriod { start_date: None, end_date: month(3000) });
    source.position_groups = vec![
        PositionGroup { positions: vec![experience(), late.clone()] },
        PositionGroup { positions: vec![] },
        PositionGroup { positions: vec![late.clone()] },
    ];
    source.positions = vec![experience(), late];
    source.volunteer_experiences = vec![VolunteerExperience {
        role: "Tutor".to_string(),
        company_name: None,
        company: None,
        cause: None,
        description: None,
        time_period: Some(TimePeriod { start_date: month(1), end_date: None }),
        region: None,
    }];
    source.education = vec![Education {
        school_name: None,
        school: Some(SchoolInfo { entity_urn: None, logo: broken_image() }),
        degree_name: None,
        field_of_study: None,
        activities: None,
        description: None,
        grade: None,
        time_period: None,
        honors: None,
        test_scores: None,
    }];
    source.honors = vec![Honor {
        title: "Medal".to_string(),
        issuer: None,
        issue_date: month(10000),
        description: None,
        occupation: None,
    }];
    source.certifications = vec![Certification {
        name: "Pilot".to_string(),
        authority: None,
        license_number: None,
        time_period: Some(TimePeriod { start_date: month(2020), end_date: month(99999) }),
        url: None,
    }];
    source.test_scores = vec![TestScore {
        name: "GRE".to_string(),
        score: "330".to_string(),
        date: month(0),
        description: None,
        occupation: None,
    }];
    source.publications = vec![JsonValue::Null, JsonValue::Null];
    source.projects = vec![Project { title: None, description: None }];
    assert_eq!(
        lines(&skipped_mappings(&source)),
        vec![
            line("basics.location.countryCode", SkipReason::UnmappableSourceField),
            line("work[1].endDate", SkipReason::InvalidDateFormat),
            line("work[2].endDate", SkipReason::InvalidDateFormat),
            line("work[4].endDate", SkipReason::InvalidDateFormat),
            line("volunteer[0].startDate", SkipReason::InvalidDateFormat),
            line("education[0].schoolLogo", SkipReason::UnparseableUri),
            line("awards[0].date", SkipReason::InvalidDateFormat),
            line("certificates[1].date", SkipReason::InvalidDateFormat),
            line("publications[0]", SkipReason::UnmappableSourceField),
            line("publications[1]", SkipReason::UnmappableSourceField),
            line("projects[0]", SkipReason::UnmappableSourceField),
        ]
    );
}
