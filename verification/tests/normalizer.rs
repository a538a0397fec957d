use resume_model::from_linkedin::{
    convert_time_period, country_code, format_year_month, get_activities_list, get_full_name,
    image_uri, merge_contact_info, to_json_resume_at, to_jsonresume_award, to_jsonresume_basics,
    to_jsonresume_certificate, to_jsonresume_course_as_education, to_jsonresume_education,
    to_jsonresume_language, to_jsonresume_project, to_jsonresume_publication,
    to_jsonresume_skill, to_jsonresume_test_score_as_certificate, to_jsonresume_volunteer,
    to_jsonresume_work_experience, ToJsonResume,
};
use resume_model::document::{from_document, to_document};
use resume_model::json::JsonValue;
use resume_model::json_resume::{Basics, Iso8601Date, Resume};
use resume_model::linkedin::{
    Address, Certification, CompanyInfo, ContactInfo, Course, Education, EmployeeCountRange,
    Experience, GeoLocation, Honor, ImageArtifact, Language, LanguageProficiency, MiniCompany,
    Month, PositionGroup, Profile, ProfileView, Project, SchoolInfo, Skill, TestScore,
    TimePeriod, VectorImage, VolunteerCause, VolunteerExperience, YearMonth,
};
use resume_model::uri::Uri;

fn text(value: &str) -> Option<String> {
    Some(value.to_string())
}

fn profile() -> Profile {
    Profile {
        entity_urn: None,
        first_name: None,
        last_name: None,
        headline: None,
        summary: None,
        geo_country_name: None,
        geo_location_name: None,
        geo_location: None,
        address: None,
        profile_picture_original_image: None,
    }
}

fn experience() -> Experience {
    Experience {
        title: None,
        company_name: None,
        company: None,
        description: None,
        time_period: None,
        geo_location_name: None,
        location_name: None,
        region: None,
    }
}

fn education() -> Education {
    Education {
        school_name: None,
        school: None,
        degree_name: None,
        field_of_study: None,
        activities: None,
        description: None,
        grade: None,
        time_period: None,
        honors: None,
        test_scores: None,
    }
}

fn view() -> ProfileView {
    ProfileView {
        profile: profile(),
        position_groups: vec![],
        positions: vec![],
        education: vec![],
        skills: vec![],
        languages: vec![],
        volunteer_experiences: vec![],
        volunteer_causes: vec![],
        honors: vec![],
        certifications: vec![],
        publications: vec![],
        projects: vec![],
        test_scores: vec![],
        courses: vec![],
    }
}

fn image(root: Option<&str>, segments: &[Option<&str>]) -> VectorImage {
    VectorImage {
        root_url: root.map(|r| r.to_string()),
        artifacts: segments
            .iter()
            .map(|s| ImageArtifact { file_identifying_url_path_segment: s.map(|s| s.to_string()) })
            .collect(),
    }
}

fn month(year: i32, month: Month) -> Option<YearMonth> {
    Some(YearMonth { year, month })
}

#[test]
fn name_from_given_name_alone() {
    let mut source = profile();
    source.first_name = text("Ada");
    assert_eq!(to_jsonresume_basics(&source).name, text("Ada"));
    assert_eq!(get_full_name(&source), text("Ada"));
}

#[test]
fn name_from_both_parts() {
    let mut source = profile();
    source.first_name = text("Ada");
    source.last_name = text("Lovelace");
    assert_eq!(to_jsonresume_basics(&source).name, text("Ada Lovelace"));
}

#[test]
fn name_from_family_name_alone_or_nothing() {
    let mut source = profile();
    assert_eq!(to_jsonresume_basics(&source).name, None);
    source.last_name = text("Lovelace");
    assert_eq!(to_jsonresume_basics(&source).name, text("Lovelace"));
}

#[test]
fn basics_of_an_empty_profile() {
    let basics = to_jsonresume_basics(&profile());
    assert_eq!(basics, Basics::new());
}

#[test]
fn basics_page_and_account_from_the_member_id() {
    let mut source = profile();
    source.entity_urn = text("urn:li:fs_profile:ada-lovelace");
    source.headline = text("Analyst");
    source.summary = text("Notes.");
    let basics = to_jsonresume_basics(&source);
    let page = Uri::parse("https://www.linkedin.com/in/ada-lovelace");
    assert!(page.is_some());
    assert_eq!(basics.url, page);
    assert_eq!(basics.label, text("Analyst"));
    assert_eq!(basics.summary, text("Notes."));
    assert_eq!(basics.email, None);
    assert_eq!(basics.phone, None);
    let accounts = basics.profiles.unwrap();
    assert_eq!(accounts.len(), 1);
    assert_eq!(accounts[0].network, text("LinkedIn"));
    assert_eq!(accounts[0].username, text("ada-lovelace"));
    assert_eq!(accounts[0].url, page);
}

#[test]
fn member_id_is_what_follows_the_last_colon() {
    let mut source = profile();
    source.entity_urn = text("plain");
    assert_eq!(to_jsonresume_basics(&source).profiles.unwrap()[0].username, text("plain"));
    source.entity_urn = text("a:b:");
    assert_eq!(to_jsonresume_basics(&source).profiles.unwrap()[0].username, text(""));
}

#[test]
fn image_address_from_root_and_first_rendition() {
    let picture =
        image(Some("https://media.example.com/img/"), &[Some("200_200/a.jpg"), Some("b")]);
    assert_eq!(
        image_uri(&Some(picture)).unwrap().as_str(),
        "https://media.example.com/img/200_200/a.jpg"
    );
    let bare = image(Some("https://media.example.com/img"), &[None]);
    assert_eq!(image_uri(&Some(bare)).unwrap().as_str(), "https://media.example.com/img");
}

#[test]
fn image_address_degrades_to_nothing() {
    assert_eq!(image_uri(&None), None);
    assert_eq!(image_uri(&Some(image(None, &[Some("a")]))), None);
    assert_eq!(image_uri(&Some(image(Some("https://media.example.com/"), &[]))), None);
    assert_eq!(image_uri(&Some(image(Some("no scheme/"), &[Some("a")]))), None);
}

#[test]
fn location_only_where_the_profile_names_a_place() {
    let mut source = profile();
    source.geo_location = Some(GeoLocation { postal_code: text("12345") });
    assert_eq!(to_jsonresume_basics(&source).location, None);
    source.geo_location_name = text("London Area");
    let location = to_jsonresume_basics(&source).location.unwrap();
    assert_eq!(location.city, text("London Area"));
    assert_eq!(location.postal_code, text("12345"));
    assert_eq!(location.address, None);
    assert_eq!(location.country_code, None);
    assert_eq!(location.region, None);
}

#[test]
fn location_prefers_the_address_for_the_city() {
    let mut source = profile();
    source.geo_country_name = text("United Kingdom");
    source.geo_location_name = text("London Area");
    source.address = Some(Address {
        raw: "12 St James, London, England".to_string(),
        city: text("London"),
        state: text("England"),
        postal_code: text("SW1"),
    });
    let location = to_jsonresume_basics(&source).location.unwrap();
    assert_eq!(location.address, text("12 St James, London, England"));
    assert_eq!(location.city, text("London"));
    assert_eq!(location.region, text("England"));
    assert_eq!(location.postal_code, text("SW1"));
    assert_eq!(location.country_code, text("GB"));
}

#[test]
fn country_table() {
    assert_eq!(country_code("United States"), text("US"));
    assert_eq!(country_code("Canada"), text("CA"));
    assert_eq!(country_code("United Kingdom"), text("GB"));
    assert_eq!(country_code("Germany"), text("DE"));
    assert_eq!(country_code("France"), text("FR"));
    assert_eq!(country_code("Italy"), None);
    assert_eq!(country_code("united states"), None);
    assert_eq!(country_code(""), None);
}

#[test]
fn dates_are_year_and_two_digit_month() {
    assert_eq!(format_year_month(&month(2021, Month::March)), Some(Iso8601Date::new("2021-03")));
    assert_eq!(
        format_year_month(&month(1999, Month::December)),
        Some(Iso8601Date::new("1999-12"))
    );
    assert_eq!(format_year_month(&month(1000, Month::January)), Some(Iso8601Date::new("1000-01")));
    assert_eq!(format_year_month(&None), None);
}

#[test]
fn dates_outside_the_pattern_degrade_to_nothing() {
    assert_eq!(format_year_month(&month(999, Month::May)), None);
    assert_eq!(format_year_month(&month(3000, Month::May)), None);
    assert_eq!(format_year_month(&month(12021, Month::May)), None);
    assert_eq!(format_year_month(&month(0, Month::May)), None);
    assert_eq!(format_year_month(&month(-2021, Month::May)), None);
    assert_eq!(format_year_month(&month(i32::MIN, Month::May)), None);
    assert_eq!(format_year_month(&month(i32::MAX, Month::May)), None);
}

#[test]
fn time_period_gives_start_and_end() {
    let period = TimePeriod {
        start_date: month(2019, Month::October),
        end_date: month(2020, Month::February),
    };
    assert_eq!(
        convert_time_period(&Some(period)),
        (Some(Iso8601Date::new("2019-10")), Some(Iso8601Date::new("2020-02")))
    );
    let open = TimePeriod { start_date: month(2019, Month::October), end_date: None };
    assert_eq!(convert_time_period(&Some(open)), (Some(Iso8601Date::new("2019-10")), None));
    assert_eq!(convert_time_period(&None), (None, None));
}

#[test]
fn months_are_numbered_from_one() {
    assert_eq!(Month::January.number(), 1);
    assert_eq!(Month::December.number(), 12);
    assert_eq!(Month::from_number(7), Some(Month::July));
    assert_eq!(Month::from_number(0), None);
    assert_eq!(Month::from_number(13), None);
    let mut n: u8 = 1;
    while n <= 12 {
        assert_eq!(Month::from_number(n).unwrap().number(), n);
        n += 1;
    }
}

#[test]
fn position_with_everything() {
    let mut source = experience();
    source.title = text("Engineer");
    source.company_name = text("Engines Ltd");
    source.description = text("Built engines.\n- Faster\n- Cheaper");
    source.region = text("Midlands");
    source.geo_location_name = text("Birmingham");
    source.time_period =
        Some(TimePeriod { start_date: month(2015, Month::June), end_date: None });
    source.company = Some(CompanyInfo {
        employee_count_range: Some(EmployeeCountRange { start: 51, end: 200 }),
        industries: vec!["Machinery".to_string(), "Steam".to_string()],
        mini_company: Some(MiniCompany {
            universal_name: text("engines-ltd"),
            logo: Some(image(Some("https://media.example.com/"), &[Some("logo.png")])),
        }),
    });
    let work = to_jsonresume_work_experience(&source);
    assert_eq!(work.name, text("Engines Ltd"));
    assert_eq!(work.position, text("Engineer"));
    assert_eq!(work.location, text("Birmingham"));
    assert_eq!(work.description, text("Built engines.\n- Faster\n- Cheaper"));
    assert_eq!(work.summary, text("Built engines."));
    assert_eq!(work.highlights, Some(vec!["Faster".to_string(), "Cheaper".to_string()]));
    assert_eq!(work.start_date, Some(Iso8601Date::new("2015-06")));
    assert_eq!(work.end_date, None);
    assert_eq!(work.url, Uri::parse("https://www.linkedin.com/company/engines-ltd"));
    assert!(work.url.is_some());
    let extras = &work.additional_properties;
    assert_eq!(extras.len(), 3);
    assert_eq!(extras.get("companySize"), Some(&JsonValue::text("51-200")));
    assert_eq!(
        extras.get("industries"),
        Some(&JsonValue::Array(vec![JsonValue::text("Machinery"), JsonValue::text("Steam")]))
    );
    assert_eq!(
        extras.get("companyLogo"),
        Some(&JsonValue::text("https://media.example.com/logo.png"))
    );
}

#[test]
fn position_location_falls_back_in_order() {
    let mut source = experience();
    source.region = text("r");
    assert_eq!(to_jsonresume_work_experience(&source).location, text("r"));
    source.geo_location_name = text("g");
    assert_eq!(to_jsonresume_work_experience(&source).location, text("g"));
    source.location_name = text("l");
    assert_eq!(to_jsonresume_work_experience(&source).location, text("l"));
}

#[test]
fn position_with_nothing() {
    let work = to_jsonresume_work_experience(&experience());
    assert_eq!(work, resume_model::json_resume::WorkExperience::new());
    let mut source = experience();
    source.company = Some(CompanyInfo {
        employee_count_range: None,
        industries: vec![],
        mini_company: None,
    });
    assert!(to_jsonresume_work_experience(&source).additional_properties.is_empty());
}

#[test]
fn course_of_study_with_everything() {
    let mut source = education();
    source.school_name = text("Cambridge");
    source.degree_name = text("BA");
    source.field_of_study = text("Mathematics");
    source.grade = text("First");
    source.description = text("Tripos.");
    source.honors = Some(vec!["Wrangler".to_string(), "Prize".to_string()]);
    source.test_scores = Some(vec!["A".to_string()]);
    source.activities = text(" - Rowing \n\n- - Chess\nDebating\n - ");
    source.school = Some(SchoolInfo {
        entity_urn: text("urn:li:fs_miniSchool:4242"),
        logo: Some(image(Some("https://media.example.com/"), &[Some("crest.png")])),
    });
    source.time_period = Some(TimePeriod {
        start_date: month(2001, Month::September),
        end_date: month(2004, Month::June),
    });
    let entry = to_jsonresume_education(&source);
    assert_eq!(entry.institution, text("Cambridge"));
    assert_eq!(entry.study_type, text("BA"));
    assert_eq!(entry.area, text("Mathematics"));
    assert_eq!(entry.score, text("First"));
    assert_eq!(entry.start_date, Some(Iso8601Date::new("2001-09")));
    assert_eq!(entry.end_date, Some(Iso8601Date::new("2004-06")));
    assert_eq!(entry.url, Uri::parse("https://www.linkedin.com/school/4242"));
    assert_eq!(
        entry.courses,
        Some(vec![
            "Rowing".to_string(),
            "Chess".to_string(),
            "Debating".to_string(),
            "-".to_string(),
        ])
    );
    let extras = &entry.additional_properties;
    assert_eq!(extras.len(), 3);
    assert_eq!(extras.entry(0).unwrap().0, "schoolLogo");
    assert_eq!(extras.entry(1).unwrap().0, "description");
    assert_eq!(extras.entry(2).unwrap().0, "activities");
    assert_eq!(
        extras.get("schoolLogo"),
        Some(&JsonValue::text("https://media.example.com/crest.png"))
    );
    assert_eq!(
        extras.get("description"),
        Some(&JsonValue::text("Tripos.\nHonors: Wrangler, Prize\nTest Scores: A"))
    );
    assert_eq!(
        extras.get("activities"),
        Some(&JsonValue::text(" - Rowing \n\n- - Chess\nDebating\n - "))
    );
}

#[test]
fn course_of_study_without_school_name_has_no_page() {
    let mut source = education();
    source.school = Some(SchoolInfo { entity_urn: None, logo: None });
    source.honors = Some(vec![]);
    source.activities = text("\n  \n");
    let entry = to_jsonresume_education(&source);
    assert_eq!(entry.url, None);
    assert_eq!(entry.courses, None);
    assert_eq!(entry.additional_properties.len(), 1);
    assert_eq!(entry.additional_properties.get("activities"), Some(&JsonValue::text("\n  \n")));
}

#[test]
fn activities_one_to_a_line() {
    assert_eq!(get_activities_list("- a\n- - b\n-c\n\n  d  "), vec!["a", "b", "-c", "d"]);
    assert_eq!(get_activities_list(""), Vec::<String>::new());
    assert_eq!(get_activities_list("- "), vec!["-"]);
    assert_eq!(get_activities_list("- - "), vec!["-"]);
}

#[test]
fn skill_keeps_its_name_as_keyword() {
    let skill = to_jsonresume_skill(&Skill { name: "Rust".to_string() });
    assert_eq!(skill.name, text("Rust"));
    assert_eq!(skill.level, None);
    assert_eq!(skill.keywords, Some(vec!["Rust".to_string()]));
    assert!(skill.additional_properties.is_empty());
}

#[test]
fn fluency_labels() {
    let label = |proficiency| {
        to_jsonresume_language(&Language { name: "French".to_string(), proficiency }).fluency
    };
    assert_eq!(label(Some(LanguageProficiency::NativeOrBilingual)), text("Native"));
    assert_eq!(label(Some(LanguageProficiency::FullProfessional)), text("Professional"));
    assert_eq!(label(Some(LanguageProficiency::ProfessionalWorking)), text("Professional"));
    assert_eq!(label(Some(LanguageProficiency::LimitedWorking)), text("Conversational"));
    assert_eq!(label(Some(LanguageProficiency::Elementary)), text("Elementary"));
    assert_eq!(label(None), text("Unknown"));
    let language =
        to_jsonresume_language(&Language { name: "French".to_string(), proficiency: None });
    assert_eq!(language.language, text("French"));
}

#[test]
fn voluntary_work() {
    let source = VolunteerExperience {
        role: "Tutor".to_string(),
        company_name: text("School"),
        company: None,
        cause: text("EDUCATION"),
        description: text("* Taught"),
        time_period: Some(TimePeriod { start_date: month(2010, Month::January), end_date: None }),
        region: text("Kent"),
    };
    let entry = to_jsonresume_volunteer(&source);
    assert_eq!(entry.organization, text("School"));
    assert_eq!(entry.position, text("Tutor"));
    assert_eq!(entry.url, None);
    assert_eq!(entry.start_date, Some(Iso8601Date::new("2010-01")));
    assert_eq!(entry.summary, text("* Taught"));
    assert_eq!(entry.highlights, Some(vec!["Taught".to_string()]));
    assert_eq!(entry.additional_properties.get("cause"), Some(&JsonValue::text("EDUCATION")));
    assert_eq!(entry.additional_properties.get("location"), Some(&JsonValue::text("Kent")));
}

#[test]
fn award_from_honor() {
    let source = Honor {
        title: "Medal".to_string(),
        issuer: text("Society"),
        issue_date: month(2012, Month::November),
        description: text("For work."),
        occupation: text("urn:li:position:1"),
    };
    let award = to_jsonresume_award(&source);
    assert_eq!(award.title, text("Medal"));
    assert_eq!(award.awarder, text("Society"));
    assert_eq!(award.date, Some(Iso8601Date::new("2012-11")));
    assert_eq!(award.summary, text("For work."));
    assert_eq!(
        award.additional_properties.get("occupation"),
        Some(&JsonValue::text("urn:li:position:1"))
    );
}

#[test]
fn certificate_from_certification() {
    let source = Certification {
        name: "Pilot".to_string(),
        authority: text("Authority"),
        license_number: text("L-1"),
        time_period: Some(TimePeriod {
            start_date: month(2018, Month::April),
            end_date: month(12022, Month::April),
        }),
        url: Uri::parse("https://cert.example.org/1"),
    };
    let certificate = to_jsonresume_certificate(&source);
    assert_eq!(certificate.name, text("Pilot"));
    assert_eq!(certificate.issuer, text("Authority"));
    assert_eq!(certificate.date, Some(Iso8601Date::new("2018-04")));
    assert_eq!(certificate.url.unwrap().as_str(), "https://cert.example.org/1");
    let extras = &certificate.additional_properties;
    assert_eq!(extras.get("licenseNumber"), Some(&JsonValue::text("L-1")));
    assert_eq!(extras.get("expiryDate"), Some(&JsonValue::text("12022-04")));
}

#[test]
fn certificate_from_test_score() {
    let source = TestScore {
        name: "GRE".to_string(),
        score: "330".to_string(),
        date: month(2016, Month::August),
        description: None,
        occupation: text("student"),
    };
    let certificate = to_jsonresume_test_score_as_certificate(&source);
    assert_eq!(certificate.name, text("GRE"));
    assert_eq!(certificate.date, Some(Iso8601Date::new("2016-08")));
    assert_eq!(certificate.url, None);
    assert_eq!(certificate.issuer, None);
    let extras = &certificate.additional_properties;
    assert_eq!(extras.len(), 3);
    assert_eq!(extras.get("score"), Some(&JsonValue::text("330")));
    assert_eq!(extras.get("type"), Some(&JsonValue::text("test_score")));
    assert_eq!(extras.get("occupation"), Some(&JsonValue::text("student")));
}

#[test]
fn education_from_course() {
    let entry = to_jsonresume_course_as_education(&Course {
        name: "Logic".to_string(),
        number: text("PHIL-101"),
    });
    assert_eq!(entry.area, text("Logic"));
    assert_eq!(entry.study_type, text("Course"));
    assert_eq!(entry.courses, Some(vec!["Logic".to_string()]));
    assert_eq!(entry.institution, None);
    assert_eq!(entry.additional_properties.get("courseNumber"), Some(&JsonValue::text("PHIL-101")));
    assert_eq!(entry.additional_properties.get("type"), Some(&JsonValue::text("course")));
}

#[test]
fn publications_and_projects_are_not_taken_over() {
    assert_eq!(to_jsonresume_publication(&JsonValue::text("paper")), None);
    assert_eq!(
        to_jsonresume_project(&Project { title: text("Engine"), description: None }),
        None
    );
}

#[test]
fn empty_view_gives_no_groups() {
    let resume = to_json_resume_at(&view(), "2024-01-01T00:00:00+00:00".to_string());
    assert_eq!(
        resume.schema.unwrap().as_str(),
        "https://raw.githubusercontent.com/jsonresume/resume-schema/v1.0.0/schema.json"
    );
    assert_eq!(resume.basics, Some(Basics::new()));
    assert_eq!(resume.work, None);
    assert_eq!(resume.volunteer, None);
    assert_eq!(resume.education, None);
    assert_eq!(resume.awards, None);
    assert_eq!(resume.certificates, None);
    assert_eq!(resume.publications, None);
    assert_eq!(resume.skills, None);
    assert_eq!(resume.languages, None);
    assert_eq!(resume.interests, None);
    assert_eq!(resume.references, None);
    assert_eq!(resume.projects, None);
    let meta = resume.meta.unwrap();
    assert_eq!(meta.version, text("1.0.0"));
    assert_eq!(meta.last_modified, text("2024-01-01T00:00:00+00:00"));
    assert_eq!(meta.canonical, None);
    assert!(resume.additional_properties.is_empty());
}

#[test]
fn full_view_keeps_the_order_of_its_parts() {
    let mut source = view();
    let named = |title: &str| {
        let mut e = experience();
        e.title = text(title);
        e
    };
    source.position_groups = vec![
        PositionGroup { positions: vec![named("a"), named("b")] },
        PositionGroup { positions: vec![] },
        PositionGroup { positions: vec![named("c")] },
    ];
    source.positions = vec![named("d")];
    let mut school = education();
    school.school_name = text("School");
    source.education = vec![school];
    source.courses = vec![Course { name: "Logic".to_string(), number: None }];
    source.certifications = vec![Certification {
        name: "Pilot".to_string(),
        authority: None,
        license_number: None,
        time_period: None,
        url: None,
    }];
    source.test_scores = vec![TestScore {
        name: "GRE".to_string(),
        score: "330".to_string(),
        date: None,
        description: None,
        occupation: None,
    }];
    source.volunteer_causes = vec![VolunteerCause {
        cause_name: "Science".to_string(),
        cause_type: "SCIENCE_AND_TECHNOLOGY".to_string(),
    }];
    source.skills = vec![Skill { name: "Rust".to_string() }, Skill { name: "Verus".to_string() }];
    source.publications = vec![JsonValue::Null];
    source.projects = vec![Project { title: None, description: None }];
    let resume = to_json_resume_at(&source, "now".to_string());
    let titles: Vec<Option<String>> =
        resume.work.unwrap().into_iter().map(|w| w.position).collect();
    assert_eq!(titles, vec![text("a"), text("b"), text("c"), text("d")]);
    let education = resume.education.unwrap();
    assert_eq!(education.len(), 2);
    assert_eq!(education[0].institution, text("School"));
    assert_eq!(education[1].study_type, text("Course"));
    let certificates = resume.certificates.unwrap();
    assert_eq!(certificates.len(), 2);
    assert_eq!(certificates[0].name, text("Pilot"));
    assert_eq!(certificates[1].name, text("GRE"));
    let interests = resume.interests.unwrap();
    assert_eq!(interests[0].name, text("Science"));
    assert_eq!(interests[0].keywords, Some(vec!["SCIENCE_AND_TECHNOLOGY".to_string()]));
    assert_eq!(resume.skills.unwrap().len(), 2);
    assert_eq!(resume.publications, None);
    assert_eq!(resume.projects, None);
}

#[test]
fn courses_alone_give_education() {
    let mut source = view();
    source.courses = vec![Course { name: "Logic".to_string(), number: None }];
    source.test_scores = vec![TestScore {
        name: "GRE".to_string(),
        score: "330".to_string(),
        date: None,
        description: None,
        occupation: None,
    }];
    let resume = to_json_resume_at(&source, "now".to_string());
    assert_eq!(resume.education.unwrap().len(), 1);
    assert_eq!(resume.certificates.unwrap().len(), 1);
}

#[test]
fn normalized_resume_breaks_no_rule() {
    let mut source = view();
    source.profile.geo_country_name = text("France");
    let mut odd = experience();
    odd.time_period = Some(TimePeriod {
        start_date: month(-5, Month::May),
        end_date: month(2020, Month::May),
    });
    source.positions = vec![odd];
    source.honors = vec![Honor {
        title: "Medal".to_string(),
        issuer: None,
        issue_date: month(45000, Month::May),
        description: None,
        occupation: None,
    }];
    let resume = to_json_resume_at(&source, "now".to_string());
    assert_eq!(resume.validate_resume(), Ok(()));
    let work = resume.work.unwrap();
    assert_eq!(work[0].start_date, None);
    assert_eq!(work[0].end_date, Some(Iso8601Date::new("2020-05")));
    assert_eq!(resume.awards.unwrap()[0].date, None);
}

#[test]
fn normalizing_now_stamps_the_moment() {
    let mut source = view();
    source.profile.first_name = text("Ada");
    let resume = source.to_json_resume();
    let stamp = resume.meta.clone().unwrap().last_modified.unwrap();
    assert!(stamp.len() >= 20);
    assert_eq!(&stamp[4..5], "-");
    assert_eq!(resume, to_json_resume_at(&source, stamp));
}

#[test]
fn contact_record_fills_what_is_empty() {
    let mut basics = Basics::new();
    basics.name = text("Ada");
    let contact = ContactInfo {
        email_address: text("ada@example.org"),
        phone_numbers: vec!["+44 1".to_string(), "+44 2".to_string()],
    };
    merge_contact_info(&mut basics, &contact);
    assert_eq!(basics.email, text("ada@example.org"));
    assert_eq!(basics.phone, text("+44 1"));
    assert_eq!(basics.name, text("Ada"));
    let other = ContactInfo { email_address: text("b@example.org"), phone_numbers: vec![] };
    merge_contact_info(&mut basics, &other);
    assert_eq!(basics.email, text("ada@example.org"));
    assert_eq!(basics.phone, text("+44 1"));
}

#[test]
fn contact_record_with_a_bad_email_leaves_it_out() {
    let mut basics = Basics::new();
    let contact = ContactInfo { email_address: text("not an email"), phone_numbers: vec![] };
    merge_contact_info(&mut basics, &contact);
    assert_eq!(basics, Basics::new());
}

#[test]
fn normalized_resume_reads_back_from_its_document() {
    let mut source = view();
    source.profile.entity_urn = text("urn:li:fs_profile:ada");
    source.profile.first_name = text("Ada");
    source.profile.geo_country_name = text("United Kingdom");
    source.profile.profile_picture_original_image =
        Some(image(Some("https://media.example.com/"), &[Some("ada.png")]));
    let mut position = experience();
    position.title = text("Analyst");
    position.description = text("Notes.\n- Engine\n- Numbers");
    position.time_period =
        Some(TimePeriod { start_date: month(1842, Month::January), end_date: None });
    position.company = Some(CompanyInfo {
        employee_count_range: Some(EmployeeCountRange { start: 1, end: 10 }),
        industries: vec!["Computing".to_string()],
        mini_company: Some(MiniCompany {
            universal_name: text("engines"),
            logo: Some(image(Some("https://media.example.com/"), &[Some("logo.png")])),
        }),
    });
    source.positions = vec![position];
    let mut school = education();
    school.activities = text("- Chess");
    school.honors = Some(vec!["Prize".to_string()]);
    school.school = Some(SchoolInfo { entity_urn: text("urn:li:school:7"), logo: None });
    source.education = vec![school];
    source.courses = vec![Course { name: "Logic".to_string(), number: text("1") }];
    source.certifications = vec![Certification {
        name: "Pilot".to_string(),
        authority: None,
        license_number: text("L-1"),
        time_period: Some(TimePeriod { start_date: None, end_date: month(2030, Month::May) }),
        url: Uri::parse("https://cert.example.org/1"),
    }];
    source.test_scores = vec![TestScore {
        name: "GRE".to_string(),
        score: "330".to_string(),
        date: None,
        description: text("General"),
        occupation: text("student"),
    }];
    source.honors = vec![Honor {
        title: "Medal".to_string(),
        issuer: None,
        issue_date: None,
        description: None,
        occupation: text("analyst"),
    }];
    source.volunteer_experiences = vec![VolunteerExperience {
        role: "Tutor".to_string(),
        company_name: None,
        company: None,
        cause: text("EDUCATION"),
        description: None,
        time_period: None,
        region: text("Kent"),
    }];
    source.skills = vec![Skill { name: "Rust".to_string() }];
    source.languages = vec![Language { name: "French".to_string(), proficiency: None }];
    source.volunteer_causes = vec![VolunteerCause {
        cause_name: "Science".to_string(),
        cause_type: "SCIENCE".to_string(),
    }];
    let resume = to_json_resume_at(&source, "1852-11-27T00:00:00+00:00".to_string());
    let document = to_document(&resume);
    assert_eq!(from_document::<Resume>(&document), Ok(resume));
}
