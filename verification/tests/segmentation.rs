use resume_model::segment::parse_description_and_highlights;

fn segment(text: &str) -> (Option<String>, Option<Vec<String>>) {
    parse_description_and_highlights(&Some(text.to_string()))
}

fn list(items: &[&str]) -> Option<Vec<String>> {
    Some(items.iter().map(|item| item.to_string()).collect())
}

#[test]
fn summary_then_bullets() {
    let (summary, highlights) = segment("Led the team.\n• Shipped v2\n• Cut costs 20%");
    assert_eq!(summary, Some("Led the team.".to_string()));
    assert_eq!(highlights, list(&["Shipped v2", "Cut costs 20%"]));
}

#[test]
fn no_markers_gives_no_highlights() {
    let (summary, highlights) = segment("Built tools.\nMentored juniors.");
    assert_eq!(summary, Some("Built tools. Mentored juniors.".to_string()));
    assert_eq!(highlights, None);
}

#[test]
fn trailing_line_after_bullet_is_a_highlight() {
    let (summary, highlights) = segment("• Did X\nAlso did Y");
    assert_eq!(highlights, list(&["Did X", "Also did Y"]));
    assert_eq!(summary, Some("• Did X\nAlso did Y".to_string()));
}

#[test]
fn absent_description() {
    assert_eq!(parse_description_and_highlights(&None), (None, None));
}

#[test]
fn empty_description_keeps_itself() {
    assert_eq!(segment(""), (Some(String::new()), None));
    assert_eq!(segment("  \n\n "), (Some("  \n\n ".to_string()), None));
}

#[test]
fn numbered_lines() {
    let (summary, highlights) = segment("Duties:\n1. Plan\n2) no dot here\n3.  Audit. Twice.");
    assert_eq!(summary, Some("Duties:".to_string()));
    assert_eq!(highlights, list(&["Plan", "2) no dot here", "Audit. Twice."]));
}

#[test]
fn digit_without_dot_is_summary() {
    let (summary, highlights) = segment("2020 was busy\n- shipped");
    assert_eq!(summary, Some("2020 was busy".to_string()));
    assert_eq!(highlights, list(&["shipped"]));
}

#[test]
fn all_three_markers_and_surrounding_blanks() {
    let (summary, highlights) = segment("  Intro  \r\n\n  - one \n\t* two\n• three\n\n");
    assert_eq!(summary, Some("Intro".to_string()));
    assert_eq!(highlights, list(&["one", "two", "three"]));
}

#[test]
fn repeated_markers_are_all_stripped() {
    let (_, highlights) = segment("--* deep\n- - spaced\n-");
    assert_eq!(highlights, list(&["deep", "- spaced", ""]));
}

#[test]
fn summary_lines_join_with_one_space() {
    let (summary, _) = segment(" a \n\n b\nc ");
    assert_eq!(summary, Some("a b c".to_string()));
}

#[test]
fn numbering_in_any_script() {
    let (summary, highlights) = segment("Plan\n\u{663}. third\n\u{2461}. second");
    assert_eq!(summary, Some("Plan".to_string()));
    assert_eq!(highlights, list(&["third", "second"]));
}

#[test]
fn letters_do_not_number() {
    let (summary, highlights) = segment("a. first\nb. second");
    assert_eq!(summary, Some("a. first b. second".to_string()));
    assert_eq!(highlights, None);
}
