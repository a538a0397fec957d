//! The basic layout: which sections a resume gets, and the lines of text in them.
//! Turning sections and lines into markup is left to the caller.

use crate::json_resume::{
    Award, AwardModel, Certificate, CertificateModel, Education, EducationModel, Iso8601Date,
    Language, LanguageModel, Location, LocationModel, Publication, PublicationModel, Resume,
    ResumeModel,
};
use crate::text::{append_chars, chars_string, string_chars};
use vstd::prelude::*;
use vstd::string::*;

verus! {

/// A section of a rendered resume.
#[derive(Clone, Copy, Debug, PartialEq, Eq, Structural)]
pub enum SectionKind {
    Basics,
    Work,
    Volunteer,
    Education,
    Awards,
    Certificates,
    Publications,
    Skills,
    Languages,
    Interests,
    References,
    Projects,
    Meta,
}

/// Whether a list of entities is there and holds something.
pub open spec fn is_filled<M>(items: Option<Seq<M>>) -> bool {
    items matches Some(list) && list.len() > 0
}

/// Whether a resume gets the given section: the basics and the facts about the
/// document where they are present, every other section where its list is
/// present and not empty.
pub open spec fn has_section(resume: ResumeModel, kind: SectionKind) -> bool {
    match kind {
        SectionKind::Basics => resume.basics is Some,
        SectionKind::Work => is_filled(resume.work),
        SectionKind::Volunteer => is_filled(resume.volunteer),
        SectionKind::Education => is_filled(resume.education),
        SectionKind::Awards => is_filled(resume.awards),
        SectionKind::Certificates => is_filled(resume.certificates),
        SectionKind::Publications => is_filled(resume.publications),
        SectionKind::Skills => is_filled(resume.skills),
        SectionKind::Languages => is_filled(resume.languages),
        SectionKind::Interests => is_filled(resume.interests),
        SectionKind::References => is_filled(resume.references),
        SectionKind::Projects => is_filled(resume.projects),
        SectionKind::Meta => resume.meta is Some,
    }
}

/// All sections, in the order in which they are rendered.
pub open spec fn section_order() -> Seq<SectionKind> {
    seq![
        SectionKind::Basics,
        SectionKind::Work,
        SectionKind::Volunteer,
        SectionKind::Education,
        SectionKind::Awards,
        SectionKind::Certificates,
        SectionKind::Publications,
        SectionKind::Skills,
        SectionKind::Languages,
        SectionKind::Interests,
        SectionKind::References,
        SectionKind::Projects,
        SectionKind::Meta,
    ]
}

/// The sections that a resume gets, in the order in which they are rendered.
pub open spec fn sections_of(resume: ResumeModel) -> Seq<SectionKind> {
    section_order().filter(|kind: SectionKind| has_section(resume, kind))
}

/// `line` followed by `before`, `value` and `after`, where `value` is present.
pub open spec fn with_part(
    line: Seq<char>,
    before: Seq<char>,
    value: Option<Seq<char>>,
    after: Seq<char>,
) -> Seq<char> {
    match value {
        Some(text) => line + before + text + after,
        None => line,
    }
}

/// The span of time from `start` to `end` as text. A span that has begun and has
/// no end is ongoing and reads `to Present`. Nothing where neither is known.
pub open spec fn date_range_text(start: Option<Seq<char>>, end: Option<Seq<char>>) -> Option<
    Seq<char>,
> {
    match (start, end) {
        (Some(from), Some(to)) => Some(from + " to "@ + to),
        (Some(from), None) => Some(from + " to Present"@),
        (None, Some(to)) => Some("to "@ + to),
        (None, None) => None,
    }
}

/// The line for a location: city and country code with a comma between them.
/// Nothing where neither is known.
pub open spec fn location_text(location: LocationModel) -> Option<Seq<char>> {
    if location.city is Some || location.country_code is Some {
        Some(
            with_part(Seq::empty(), Seq::empty(), location.city, Seq::empty()) + ", "@ + with_part(
                Seq::empty(),
                Seq::empty(),
                location.country_code,
                Seq::empty(),
            ),
        )
    } else {
        None
    }
}

/// The line for an award: its title, then who gave it, then when.
pub open spec fn award_text(award: AwardModel) -> Seq<char> {
    with_part(
        with_part(
            with_part(Seq::empty(), Seq::empty(), award.title, Seq::empty()),
            " - "@,
            award.awarder,
            Seq::empty(),
        ),
        " ("@,
        award.date,
        ")"@,
    )
}

/// The line for a certificate: its name, then who issued it.
pub open spec fn certificate_text(certificate: CertificateModel) -> Seq<char> {
    with_part(
        with_part(Seq::empty(), Seq::empty(), certificate.name, Seq::empty()),
        " - "@,
        certificate.issuer,
        Seq::empty(),
    )
}

/// The line for a publication: its name, then who published it.
pub open spec fn publication_text(publication: PublicationModel) -> Seq<char> {
    with_part(
        with_part(Seq::empty(), Seq::empty(), publication.name, Seq::empty()),
        " - "@,
        publication.publisher,
        Seq::empty(),
    )
}

/// The line for a language: its name, then the fluency.
pub open spec fn language_text(language: LanguageModel) -> Seq<char> {
    with_part(
        with_part(Seq::empty(), Seq::empty(), language.language, Seq::empty()),
        " - "@,
        language.fluency,
        Seq::empty(),
    )
}

/// The line for a degree: the kind of credential, then `in` and the field of
/// study. Nothing where neither is known.
pub open spec fn degree_text(education: EducationModel) -> Option<Seq<char>> {
    match (education.study_type, education.area) {
        (Some(kind), Some(area)) => Some(kind + " in "@ + area),
        (Some(kind), None) => Some(kind),
        (None, Some(area)) => Some("in "@ + area),
        (None, None) => None,
    }
}

fn push_part(line: &mut Vec<char>, before: &str, value: &Option<String>, after: &str)
    ensures
        final(line)@ == with_part(old(line)@, before@, value.deep_view(), after@),
{
    match value {
        Some(text) => {
            append_chars(line, &string_chars(before));
            append_chars(line, &string_chars(text.as_str()));
            append_chars(line, &string_chars(after));
        },
        None => {},
    }
}

fn date_text(date: &Option<Iso8601Date>) -> (r: Option<String>)
    ensures
        r.deep_view() == date.deep_view(),
{
    match date {
        Some(value) => Some(value.0.clone()),
        None => None,
    }
}

/// Renders resumes in the basic layout.
pub struct ResumeBuilder;

impl ResumeBuilder {
    /// Whether the resume gets the given section.
    pub fn has_section(resume: &Resume, kind: SectionKind) -> (r: bool)
        ensures
            r == has_section(resume.deep_view(), kind),
    {
        match kind {
            SectionKind::Basics => resume.basics.is_some(),
            SectionKind::Work => filled(&resume.work),
            SectionKind::Volunteer => filled(&resume.volunteer),
            SectionKind::Education => filled(&resume.education),
            SectionKind::Awards => filled(&resume.awards),
            SectionKind::Certificates => filled(&resume.certificates),
            SectionKind::Publications => filled(&resume.publications),
            SectionKind::Skills => filled(&resume.skills),
            SectionKind::Languages => filled(&resume.languages),
            SectionKind::Interests => filled(&resume.interests),
            SectionKind::References => filled(&resume.references),
            SectionKind::Projects => filled(&resume.projects),
            SectionKind::Meta => resume.meta.is_some(),
        }
    }

    /// The sections that the resume gets, in the order in which they are rendered.
    pub fn sections(resume: &Resume) -> (r: Vec<SectionKind>)
        ensures
            r@ == sections_of(resume.deep_view()),
    {
        let order: Vec<SectionKind> = vec![
            SectionKind::Basics,
            SectionKind::Work,
            SectionKind::Volunteer,
            SectionKind::Education,
            SectionKind::Awards,
            SectionKind::Certificates,
            SectionKind::Publications,
            SectionKind::Skills,
            SectionKind::Languages,
            SectionKind::Interests,
            SectionKind::References,
            SectionKind::Projects,
            SectionKind::Meta,
        ];
        assert(order@ =~= section_order());
        let ghost wanted = |kind: SectionKind| has_section(resume.deep_view(), kind);
        let mut out: Vec<SectionKind> = Vec::new();
        let mut i: usize = 0;
        proof {
            reveal(Seq::filter);
            assert(order@.take(0).filter(wanted) =~= out@);
        }
        while i < order.len()
            invariant
                i <= order.len(),
                wanted == |kind: SectionKind| has_section(resume.deep_view(), kind),
                out@ == order@.take(i as int).filter(wanted),
            decreases order.len() - i,
        {
            proof {
                assert(order@.take(i + 1) =~= order@.take(i as int).push(order@[i as int]));
                order@.take(i as int).lemma_filter_push(order@[i as int], wanted);
            }
            if ResumeBuilder::has_section(resume, order[i]) {
                out.push(order[i]);
            }
            i += 1;
        }
        assert(order@.take(order.len() as int) == order@);
        out
    }

    /// The span of time between two dates as text.
    pub fn date_range(start: &Option<Iso8601Date>, end: &Option<Iso8601Date>) -> (r: Option<
        String,
    >)
        ensures
            r.deep_view() == date_range_text(start.deep_view(), end.deep_view()),
    {
        match (start, end) {
            (Some(from), Some(to)) => {
                let mut line = string_chars(from.as_str());
                append_chars(&mut line, &string_chars(" to "));
                append_chars(&mut line, &string_chars(to.as_str()));
                Some(chars_string(&line))
            },
            (Some(from), None) => {
                let mut line = string_chars(from.as_str());
                append_chars(&mut line, &string_chars(" to Present"));
                Some(chars_string(&line))
            },
            (None, Some(to)) => {
                let mut line = string_chars("to ");
                append_chars(&mut line, &string_chars(to.as_str()));
                Some(chars_string(&line))
            },
            (None, None) => None,
        }
    }

    /// The line for a location.
    pub fn location_line(location: &Location) -> (r: Option<String>)
        ensures
            r.deep_view() == location_text(location.deep_view()),
    {
        if location.city.is_none() && location.country_code.is_none() {
            return None;
        }
        let mut line: Vec<char> = Vec::new();
        push_part(&mut line, "", &location.city, "");
        let ghost city = line@;
        append_chars(&mut line, &string_chars(", "));
        let mut code: Vec<char> = Vec::new();
        push_part(&mut code, "", &location.country_code, "");
        append_chars(&mut line, &code);
        proof {
            reveal_strlit("");
            assert(""@ =~= Seq::<char>::empty());
            assert(city =~= with_part(
                Seq::empty(),
                Seq::empty(),
                location.city.deep_view(),
                Seq::empty(),
            ));
            assert(code@ =~= with_part(
                Seq::empty(),
                Seq::empty(),
                location.country_code.deep_view(),
                Seq::empty(),
            ));
        }
        Some(chars_string(&line))
    }

    /// The line for an award.
    pub fn award_line(award: &Award) -> (r: String)
        ensures
            r@ == award_text(award.deep_view()),
    {
        let mut line: Vec<char> = Vec::new();
        push_part(&mut line, "", &award.title, "");
        push_part(&mut line, " - ", &award.awarder, "");
        push_part(&mut line, " (", &date_text(&award.date), ")");
        proof {
            reveal_strlit("");
            assert(""@ =~= Seq::<char>::empty());
        }
        chars_string(&line)
    }

    /// The line for a certificate.
    pub fn certificate_line(certificate: &Certificate) -> (r: String)
        ensures
            r@ == certificate_text(certificate.deep_view()),
    {
        let mut line: Vec<char> = Vec::new();
        push_part(&mut line, "", &certificate.name, "");
        push_part(&mut line, " - ", &certificate.issuer, "");
        proof {
            reveal_strlit("");
            assert(""@ =~= Seq::<char>::empty());
        }
        chars_string(&line)
    }

    /// The line for a publication.
    pub fn publication_line(publication: &Publication) -> (r: String)
        ensures
            r@ == publication_text(publication.deep_view()),
    {
        let mut line: Vec<char> = Vec::new();
        push_part(&mut line, "", &publication.name, "");
        push_part(&mut line, " - ", &publication.publisher, "");
        proof {
            reveal_strlit("");
            assert(""@ =~= Seq::<char>::empty());
        }
        chars_string(&line)
    }

    /// The line for a language.
    pub fn language_line(language: &Language) -> (r: String)
        ensures
            r@ == language_text(language.deep_view()),
    {
        let mut line: Vec<char> = Vec::new();
        push_part(&mut line, "", &language.language, "");
        push_part(&mut line, " - ", &language.fluency, "");
        proof {
            reveal_strlit("");
            assert(""@ =~= Seq::<char>::empty());
        }
        chars_string(&line)
    }

    /// The line for a degree.
    pub fn degree_line(education: &Education) -> (r: Option<String>)
        ensures
            r.deep_view() == degree_text(education.deep_view()),
    {
        match (&education.study_type, &education.area) {
            (Some(kind), Some(area)) => {
                let mut line = string_chars(kind.as_str());
                append_chars(&mut line, &string_chars(" in "));
                append_chars(&mut line, &string_chars(area.as_str()));
                Some(chars_string(&line))
            },
            (Some(kind), None) => Some(kind.clone()),
            (None, Some(area)) => {
                let mut line = string_chars("in ");
                append_chars(&mut line, &string_chars(area.as_str()));
                Some(chars_string(&line))
            },
            (None, None) => None,
        }
    }
}

fn filled<T: DeepView>(items: &Option<Vec<T>>) -> (r: bool)
    ensures
        r == is_filled(items.deep_view()),
{
    match items {
        Some(list) => list.len() > 0,
        None => false,
    }
}

} // verus!
