use resume_model::document::{from_document, to_document, DocumentError, PathStep};
use resume_model::json::{JsonValue, PropertyMap};
use resume_model::json_resume::{
    Award, Basics, Certificate, Education, Interest, Iso8601Date, Language, Location, Meta,
    Profile, Project, Publication, Reference, Resume, Skill, VolunteerExperience, WorkExperience,
};
use resume_model::uri::Uri;

fn object(fields: Vec<(&str, JsonValue)>) -> JsonValue {
    let mut map = PropertyMap::new();
    for (key, value) in fields {
        map.insert(key.to_string(), value);
    }
    JsonValue::Object(map)
}

fn text(value: &str) -> Option<String> {
    Some(value.to_string())
}

fn path(steps: Vec<PathStep>) -> DocumentError {
    DocumentError { path: steps }
}

fn field(name: &str) -> PathStep {
    PathStep::Field(name.to_string())
}

#[test]
fn unknown_field_stays_beside_the_known_one() {
    let document = object(vec![
        ("name", JsonValue::text("Ada")),
        ("x-nickname", JsonValue::text("Countess")),
    ]);
    let basics: Basics = from_document(&document).unwrap();
    assert_eq!(basics.name, text("Ada"));
    assert_eq!(basics.additional_properties.len(), 1);
    assert_eq!(basics.additional_properties.get("x-nickname"), Some(&JsonValue::text("Countess")));
    assert_eq!(to_document(&basics), document);
}

#[test]
fn unknown_fields_of_every_kind_are_kept_as_they_are() {
    let nested = object(vec![("deep", JsonValue::Array(vec![JsonValue::Null]))]);
    let document = object(vec![
        ("language", JsonValue::text("French")),
        ("certified", JsonValue::Bool(true)),
        ("years", JsonValue::Number("12.50".to_string())),
        ("nothing", JsonValue::Null),
        ("more", nested),
    ]);
    let language: resume_model::json_resume::Language = from_document(&document).unwrap();
    assert_eq!(language.additional_properties.len(), 4);
    assert_eq!(language.additional_properties.entry(0).unwrap().0, "certified");
    assert_eq!(language.additional_properties.entry(3).unwrap().0, "more");
    assert_eq!(to_document(&language), document);
}

#[test]
fn modelled_resume_round_trip() {
    let mut location = Location::new();
    location.city = text("London");
    location.country_code = text("GB");
    let mut account = Profile::new();
    account.network = text("LinkedIn");
    account.url = Uri::parse("https://www.linkedin.com/in/ada");
    let mut basics = Basics::new();
    basics.name = text("Ada Lovelace");
    basics.email = text("ada@example.org");
    basics.image = Uri::parse("https://example.org/ada.png");
    basics.location = Some(location);
    basics.profiles = Some(vec![account, Profile::new()]);
    let mut work = WorkExperience::new();
    work.name = text("Engines Ltd");
    work.start_date = Some(Iso8601Date::new("1842-01"));
    work.highlights = Some(vec!["Notes".to_string(), "Programs".to_string()]);
    let mut skill = Skill::new();
    skill.keywords = Some(vec![]);
    let mut project = Project::new();
    project.project_type = text("application");
    project.roles = Some(vec!["lead".to_string()]);
    let mut meta = Meta::new();
    meta.last_modified = text("1852-11-27");
    let mut resume = Resume::new();
    resume.schema = Uri::parse("https://example.org/schema.json");
    resume.basics = Some(basics);
    resume.work = Some(vec![work]);
    resume.skills = Some(vec![skill]);
    resume.projects = Some(vec![project]);
    resume.interests = Some(vec![]);
    resume.meta = Some(meta);
    let document = to_document(&resume);
    assert_eq!(from_document::<Resume>(&document), Ok(resume.clone()));
    assert_eq!(to_document(&from_document::<Resume>(&document).unwrap()), document);
}

#[test]
fn empty_resume_is_an_empty_object() {
    assert_eq!(to_document(&Resume::new()), object(vec![]));
    assert_eq!(from_document::<Resume>(&object(vec![])), Ok(Resume::new()));
}

#[test]
fn fields_are_written_under_their_names() {
    let mut work = WorkExperience::new();
    work.start_date = Some(Iso8601Date::new("2020-01"));
    work.end_date = Some(Iso8601Date::new("2021"));
    work.additional_properties.insert("companySize".to_string(), JsonValue::text("1-10"));
    let mut location = Location::new();
    location.postal_code = text("SW1");
    location.country_code = text("GB");
    let mut basics = Basics::new();
    basics.location = Some(location);
    let mut project = Project::new();
    project.project_type = text("talk");
    let mut meta = Meta::new();
    meta.last_modified = text("today");
    let mut resume = Resume::new();
    resume.schema = Uri::parse("https://example.org/s");
    resume.basics = Some(basics);
    resume.work = Some(vec![work]);
    resume.projects = Some(vec![project]);
    resume.meta = Some(meta);
    let expected = object(vec![
        ("$schema", JsonValue::text("https://example.org/s")),
        (
            "basics",
            object(vec![(
                "location",
                object(vec![
                    ("postalCode", JsonValue::text("SW1")),
                    ("countryCode", JsonValue::text("GB")),
                ]),
            )]),
        ),
        (
            "work",
            JsonValue::Array(vec![object(vec![
                ("startDate", JsonValue::text("2020-01")),
                ("endDate", JsonValue::text("2021")),
                ("companySize", JsonValue::text("1-10")),
            ])]),
        ),
        ("projects", JsonValue::Array(vec![object(vec![("type", JsonValue::text("talk"))])])),
        ("meta", object(vec![("lastModified", JsonValue::text("today"))])),
    ]);
    assert_eq!(to_document(&resume), expected);
}

#[test]
fn null_stands_for_an_absent_field() {
    let document = object(vec![
        ("name", JsonValue::Null),
        ("location", JsonValue::Null),
        ("profiles", JsonValue::Null),
        ("url", JsonValue::Null),
    ]);
    assert_eq!(from_document::<Basics>(&document), Ok(Basics::new()));
}

#[test]
fn resource_identifiers_are_parsed_on_reading() {
    let document = object(vec![("url", JsonValue::text("HTTP://Example.org"))]);
    let basics: Basics = from_document(&document).unwrap();
    assert_eq!(basics.url.unwrap().as_str(), "http://example.org/");
    let broken = object(vec![("url", JsonValue::text("nowhere"))]);
    assert_eq!(from_document::<Basics>(&broken), Err(path(vec![field("url")])));
}

#[test]
fn wrong_kinds_are_reported_with_their_path() {
    assert_eq!(from_document::<Resume>(&JsonValue::Null), Err(path(vec![])));
    assert_eq!(from_document::<Resume>(&JsonValue::Array(vec![])), Err(path(vec![])));
    let document = object(vec![("basics", object(vec![("name", JsonValue::Bool(true))]))]);
    assert_eq!(
        from_document::<Resume>(&document),
        Err(path(vec![field("basics"), field("name")]))
    );
    let document = object(vec![(
        "work",
        JsonValue::Array(vec![
            object(vec![]),
            object(vec![(
                "highlights",
                JsonValue::Array(vec![JsonValue::text("a"), JsonValue::Null]),
            )]),
            JsonValue::Null,
        ]),
    )]);
    let error = from_document::<Resume>(&document).unwrap_err();
    assert_eq!(
        error,
        path(vec![field("work"), PathStep::Index(1), field("highlights"), PathStep::Index(1)])
    );
    assert_eq!(error.path_string(), "work[1].highlights[1]");
    let document = object(vec![("skills", JsonValue::Array(vec![JsonValue::text("Rust")]))]);
    assert_eq!(
        from_document::<Resume>(&document),
        Err(path(vec![field("skills"), PathStep::Index(0)]))
    );
    let document = object(vec![("skills", object(vec![]))]);
    assert_eq!(from_document::<Resume>(&document), Err(path(vec![field("skills")])));
}

#[test]
fn the_first_wrong_field_of_the_document_decides() {
    let document = object(vec![
        ("x", JsonValue::Null),
        ("summary", JsonValue::Number("1".to_string())),
        ("name", JsonValue::Bool(false)),
    ]);
    let error = from_document::<Basics>(&document).unwrap_err();
    assert_eq!(error.path_string(), "summary");
}

#[test]
fn path_text_forms() {
    assert_eq!(path(vec![]).path_string(), "");
    assert_eq!(path(vec![PathStep::Index(12)]).path_string(), "[12]");
    assert_eq!(
        path(vec![field("basics"), field("location"), field("countryCode")]).path_string(),
        "basics.location.countryCode"
    );
    assert_eq!(
        path(vec![field("work"), PathStep::Index(0), PathStep::Index(305), field("x")])
            .path_string(),
        "work[0][305].x"
    );
}

#[test]
fn a_kept_field_with_a_modelled_name_gives_way() {
    let mut skill = Skill::new();
    skill.name = text("Rust");
    skill.additional_properties.insert("name".to_string(), JsonValue::text("other"));
    skill.additional_properties.insert("since".to_string(), JsonValue::text("2015"));
    assert_eq!(
        to_document(&skill),
        object(vec![("name", JsonValue::text("other")), ("since", JsonValue::text("2015"))])
    );
}

fn names(document: &JsonValue) -> Vec<String> {
    let mut found = Vec::new();
    if let JsonValue::Object(fields) = document {
        let mut place = 0;
        while let Some((key, _)) = fields.entry(place) {
            found.push(key.to_string());
            place += 1;
        }
    }
    found
}

fn day() -> Option<Iso8601Date> {
    Some(Iso8601Date::new("2020-02-02"))
}

fn link() -> Option<Uri> {
    Uri::parse("https://example.org/")
}

fn words() -> Option<Vec<String>> {
    Some(vec!["x".to_string()])
}

#[test]
fn every_field_has_its_name_and_comes_back() {
    let location = Location {
        address: text("a"),
        postal_code: text("b"),
        city: text("c"),
        country_code: text("d"),
        region: text("e"),
        additional_properties: PropertyMap::new(),
    };
    assert_eq!(
        names(&to_document(&location)),
        ["address", "postalCode", "city", "countryCode", "region"]
    );
    assert_eq!(from_document::<Location>(&to_document(&location)), Ok(location.clone()));

    let account = Profile {
        network: text("a"),
        username: text("b"),
        url: link(),
        additional_properties: PropertyMap::new(),
    };
    assert_eq!(names(&to_document(&account)), ["network", "username", "url"]);
    assert_eq!(from_document::<Profile>(&to_document(&account)), Ok(account.clone()));

    let basics = Basics {
        name: text("a"),
        label: text("b"),
        image: link(),
        email: text("c"),
        phone: text("d"),
        url: link(),
        summary: text("e"),
        location: Some(location),
        profiles: Some(vec![account]),
        additional_properties: PropertyMap::new(),
    };
    assert_eq!(
        names(&to_document(&basics)),
        ["name", "label", "image", "email", "phone", "url", "summary", "location", "profiles"]
    );
    assert_eq!(from_document::<Basics>(&to_document(&basics)), Ok(basics.clone()));

    let work = WorkExperience {
        name: text("a"),
        location: text("b"),
        description: text("c"),
        position: text("d"),
        url: link(),
        start_date: day(),
        end_date: day(),
        summary: text("e"),
        highlights: words(),
        additional_properties: PropertyMap::new(),
    };
    assert_eq!(
        names(&to_document(&work)),
        [
            "name",
            "location",
            "description",
            "position",
            "url",
            "startDate",
            "endDate",
            "summary",
            "highlights"
        ]
    );
    assert_eq!(from_document::<WorkExperience>(&to_document(&work)), Ok(work.clone()));

    let volunteer = VolunteerExperience {
        organization: text("a"),
        position: text("b"),
        url: link(),
        start_date: day(),
        end_date: day(),
        summary: text("c"),
        highlights: words(),
        additional_properties: PropertyMap::new(),
    };
    assert_eq!(
        names(&to_document(&volunteer)),
        ["organization", "position", "url", "startDate", "endDate", "summary", "highlights"]
    );
    assert_eq!(
        from_document::<VolunteerExperience>(&to_document(&volunteer)),
        Ok(volunteer.clone())
    );

    let education = Education {
        institution: text("a"),
        url: link(),
        area: text("b"),
        study_type: text("c"),
        start_date: day(),
        end_date: day(),
        score: text("d"),
        courses: words(),
        additional_properties: PropertyMap::new(),
    };
    assert_eq!(
        names(&to_document(&education)),
        ["institution", "url", "area", "studyType", "startDate", "endDate", "score", "courses"]
    );
    assert_eq!(from_document::<Education>(&to_document(&education)), Ok(education.clone()));

    let award = Award {
        title: text("a"),
        date: day(),
        awarder: text("b"),
        summary: text("c"),
        additional_properties: PropertyMap::new(),
    };
    assert_eq!(names(&to_document(&award)), ["title", "date", "awarder", "summary"]);
    assert_eq!(from_document::<Award>(&to_document(&award)), Ok(award.clone()));

    let certificate = Certificate {
        name: text("a"),
        date: day(),
        url: link(),
        issuer: text("b"),
        additional_properties: PropertyMap::new(),
    };
    assert_eq!(names(&to_document(&certificate)), ["name", "date", "url", "issuer"]);
    assert_eq!(from_document::<Certificate>(&to_document(&certificate)), Ok(certificate.clone()));

    let publication = Publication {
        name: text("a"),
        publisher: text("b"),
        release_date: day(),
        url: link(),
        summary: text("c"),
        additional_properties: PropertyMap::new(),
    };
    assert_eq!(
        names(&to_document(&publication)),
        ["name", "publisher", "releaseDate", "url", "summary"]
    );
    assert_eq!(from_document::<Publication>(&to_document(&publication)), Ok(publication.clone()));

    let skill = Skill {
        name: text("a"),
        level: text("b"),
        keywords: words(),
        additional_properties: PropertyMap::new(),
    };
    assert_eq!(names(&to_document(&skill)), ["name", "level", "keywords"]);
    assert_eq!(from_document::<Skill>(&to_document(&skill)), Ok(skill.clone()));

    let language = Language {
        language: text("a"),
        fluency: text("b"),
        additional_properties: PropertyMap::new(),
    };
    assert_eq!(names(&to_document(&language)), ["language", "fluency"]);
    assert_eq!(from_document::<Language>(&to_document(&language)), Ok(language.clone()));

    let interest = Interest {
        name: text("a"),
        keywords: words(),
        additional_properties: PropertyMap::new(),
    };
    assert_eq!(names(&to_document(&interest)), ["name", "keywords"]);
    assert_eq!(from_document::<Interest>(&to_document(&interest)), Ok(interest.clone()));

    let reference = Reference {
        name: text("a"),
        reference: text("b"),
        additional_properties: PropertyMap::new(),
    };
    assert_eq!(names(&to_document(&reference)), ["name", "reference"]);
    assert_eq!(from_document::<Reference>(&to_document(&reference)), Ok(reference.clone()));

    let project = Project {
        name: text("a"),
        description: text("b"),
        highlights: words(),
        keywords: words(),
        start_date: day(),
        end_date: day(),
        url: link(),
        roles: words(),
        entity: text("c"),
        project_type: text("d"),
        additional_properties: PropertyMap::new(),
    };
    assert_eq!(
        names(&to_document(&project)),
        [
            "name",
            "description",
            "highlights",
            "keywords",
            "startDate",
            "endDate",
            "url",
            "roles",
            "entity",
            "type"
        ]
    );
    assert_eq!(from_document::<Project>(&to_document(&project)), Ok(project.clone()));

    let meta = Meta {
        canonical: link(),
        version: text("a"),
        last_modified: text("b"),
        additional_properties: PropertyMap::new(),
    };
    assert_eq!(names(&to_document(&meta)), ["canonical", "version", "lastModified"]);
    assert_eq!(from_document::<Meta>(&to_document(&meta)), Ok(meta.clone()));

    let resume = Resume {
        schema: link(),
        basics: Some(basics),
        work: Some(vec![work]),
        volunteer: Some(vec![volunteer]),
        education: Some(vec![education]),
        awards: Some(vec![award]),
        certificates: Some(vec![certificate]),
        publications: Some(vec![publication]),
        skills: Some(vec![skill]),
        languages: Some(vec![language]),
        interests: Some(vec![interest]),
        references: Some(vec![reference]),
        projects: Some(vec![project]),
        meta: Some(meta),
        additional_properties: PropertyMap::new(),
    };
    assert_eq!(
        names(&to_document(&resume)),
        [
            "$schema",
            "basics",
            "work",
            "volunteer",
            "education",
            "awards",
            "certificates",
            "publications",
            "skills",
            "languages",
            "interests",
            "references",
            "projects",
            "meta"
        ]
    );
    assert_eq!(from_document::<Resume>(&to_document(&resume)), Ok(resume.clone()));
    assert!(resume.validate_resume().is_err());
}
