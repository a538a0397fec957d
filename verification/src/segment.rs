//! The text segmentation heuristic: a free-text description is split, line by
//! line, into a prose summary and a list of highlights.

use crate::text::{
    chars_string, contains_char, find_char, first_index_of, is_numeric_char, join, join_chars,
    rows, rows_strings, split_chars, split_on, string_chars, sub_chars, trim, trim_chars,
};
use vstd::prelude::*;
use vstd::string::*;

verus! {

/// A bullet marker: `•`, `-` or `*`.
pub open spec fn is_bullet(c: char) -> bool {
    c == '\u{2022}' || c == '-' || c == '*'
}

/// `s` without the bullet markers it begins with.
pub open spec fn strip_bullets(s: Seq<char>) -> Seq<char>
    decreases s.len(),
{
    if s.len() > 0 && is_bullet(s.first()) {
        strip_bullets(s.drop_first())
    } else {
        s
    }
}

/// A line that starts with a bullet marker.
pub open spec fn is_bulleted(line: Seq<char>) -> bool {
    line.len() > 0 && is_bullet(line.first())
}

/// A line that starts with a numeric character and holds a `.`.
pub open spec fn is_numbered(line: Seq<char>) -> bool {
    line.len() > 0 && is_numeric_char(line.first()) && line.contains('.')
}

/// A line that opens a highlight by its own marker.
pub open spec fn is_marked(line: Seq<char>) -> bool {
    is_bulleted(line) || is_numbered(line)
}

/// The highlight that a line gives: a bulleted line without its markers, a
/// numbered line without everything up to its first `.`, both trimmed; any other
/// line as it is.
pub open spec fn highlight_text(line: Seq<char>) -> Seq<char> {
    if is_bulleted(line) {
        trim(strip_bullets(line))
    } else if is_numbered(line) {
        trim(line.skip(first_index_of(line, '.') + 1))
    } else {
        line
    }
}

/// The test that keeps the lines that are not empty.
pub open spec fn nonempty() -> spec_fn(Seq<char>) -> bool {
    |line: Seq<char>| line.len() > 0
}

/// `highlight_text` as a value.
pub open spec fn to_highlight() -> spec_fn(Seq<char>) -> Seq<char> {
    |line: Seq<char>| highlight_text(line)
}

/// The lines of a description, each trimmed.
pub open spec fn description_lines(text: Seq<char>) -> Seq<Seq<char>> {
    split_on(text, '\n').map_values(|line: Seq<char>| trim(line))
}

/// The place of the first marked line; the number of lines where none is marked.
pub open spec fn first_marked(lines: Seq<Seq<char>>) -> int
    decreases lines.len(),
{
    if lines.len() == 0 || is_marked(lines.first()) {
        0
    } else {
        1 + first_marked(lines.drop_first())
    }
}

/// The lines that go to the summary: those before the first marked line that are
/// not empty.
pub open spec fn summary_lines(lines: Seq<Seq<char>>) -> Seq<Seq<char>> {
    lines.take(first_marked(lines)).filter(nonempty())
}

/// The highlights: from the first marked line on, every line that is not empty
/// gives one, marked or not.
pub open spec fn highlight_lines(lines: Seq<Seq<char>>) -> Seq<Seq<char>> {
    lines.skip(first_marked(lines)).filter(nonempty()).map_values(to_highlight())
}

/// The summary of a description: its summary lines joined by single spaces, or,
/// where there is none, the whole description as it stands.
pub open spec fn segment_summary(text: Seq<char>) -> Seq<char> {
    let lines = summary_lines(description_lines(text));
    if lines.len() == 0 {
        text
    } else {
        join(lines, seq![' '])
    }
}

/// The highlights of a description, absent where no line gives one.
pub open spec fn segment_highlights(text: Seq<char>) -> Option<Seq<Seq<char>>> {
    let lines = highlight_lines(description_lines(text));
    if lines.len() == 0 {
        None
    } else {
        Some(lines)
    }
}

/// `first_marked` is the place of the first marked line.
pub proof fn lemma_first_marked(lines: Seq<Seq<char>>)
    ensures
        0 <= first_marked(lines) <= lines.len(),
        forall|j: int| 0 <= j < first_marked(lines) ==> !is_marked(#[trigger] lines[j]),
        first_marked(lines) < lines.len() ==> is_marked(lines[first_marked(lines)]),
    decreases lines.len(),
{
    if lines.len() == 0 || is_marked(lines.first()) {
    } else {
        let rest = lines.drop_first();
        lemma_first_marked(rest);
        let k = first_marked(rest);
        assert forall|j: int| 0 <= j < k + 1 implies !is_marked(#[trigger] lines[j]) by {
            if j > 0 {
                assert(lines[j] == rest[j - 1]);
            }
        }
        if k < rest.len() {
            assert(lines[k + 1] == rest[k]);
        }
    }
}

/// A description without a marked line has no highlights, and every line of it
/// that is not empty goes to the summary.
pub proof fn lemma_without_markers(lines: Seq<Seq<char>>)
    requires
        forall|i: int| 0 <= i < lines.len() ==> !is_marked(#[trigger] lines[i]),
    ensures
        first_marked(lines) == lines.len(),
        summary_lines(lines) == lines.filter(nonempty()),
        highlight_lines(lines).len() == 0,
{
    lemma_first_marked(lines);
    assert(lines.take(lines.len() as int) == lines);
    assert(lines.skip(lines.len() as int) =~= Seq::<Seq<char>>::empty());
    reveal(Seq::filter);
}

/// The summary ends where the highlights begin: once a line was marked, a
/// further line never goes to the summary. If it is not empty it is a
/// highlight, with or without a marker of its own.
pub proof fn lemma_highlights_are_sticky(lines: Seq<Seq<char>>, line: Seq<char>)
    requires
        first_marked(lines) < lines.len(),
    ensures
        first_marked(lines.push(line)) == first_marked(lines),
        summary_lines(lines.push(line)) == summary_lines(lines),
        highlight_lines(lines.push(line)) == if line.len() > 0 {
            highlight_lines(lines).push(highlight_text(line))
        } else {
            highlight_lines(lines)
        },
{
    let more = lines.push(line);
    let k = first_marked(lines);
    lemma_first_marked(lines);
    lemma_first_marked_push(lines, line);
    assert(more.take(k) == lines.take(k));
    assert(more.skip(k) == lines.skip(k).push(line));
    lines.skip(k).lemma_filter_push(line, nonempty());
    lines.skip(k).filter(nonempty()).lemma_push_map_commute(to_highlight(), line);
}

/// A further line does not move the first marked line.
pub proof fn lemma_first_marked_push(lines: Seq<Seq<char>>, line: Seq<char>)
    requires
        first_marked(lines) < lines.len(),
    ensures
        first_marked(lines.push(line)) == first_marked(lines),
    decreases lines.len(),
{
    let more = lines.push(line);
    assert(more.first() == lines.first());
    if !is_marked(lines.first()) {
        assert(more.drop_first() == lines.drop_first().push(line));
        lemma_first_marked_push(lines.drop_first(), line);
    }
}

fn is_bullet_char(c: char) -> (r: bool)
    ensures
        r == is_bullet(c),
{
    c == '\u{2022}' || c == '-' || c == '*'
}

/// Whether the line opens a highlight by its own marker.
fn line_is_marked(line: &Vec<char>) -> (r: bool)
    ensures
        r == is_marked(line@),
{
    if line.len() == 0 {
        return false;
    }
    let c = line[0];
    if is_bullet_char(c) {
        return true;
    }
    c.is_numeric() && contains_char(line, '.')
}

/// The highlight that a marked line gives.
fn marked_highlight(line: &Vec<char>) -> (r: Vec<char>)
    requires
        is_marked(line@),
    ensures
        r@ == highlight_text(line@),
{
    if is_bullet_char(line[0]) {
        let n = line.len();
        let mut start: usize = 0;
        assert(line@.skip(0) == line@);
        while start < n && is_bullet_char(line[start])
            invariant
                start <= n == line.len(),
                strip_bullets(line@) == strip_bullets(line@.skip(start as int)),
            decreases n - start,
        {
            assert(line@.skip(start as int).drop_first() == line@.skip(start + 1));
            start += 1;
        }
        let rest = sub_chars(line, start, n);
        assert(rest@ == line@.skip(start as int));
        trim_chars(&rest)
    } else {
        let place = find_char(line, '.');
        match place {
            Some(i) => {
                let rest = sub_chars(line, i + 1, line.len());
                assert(rest@ == line@.skip(i + 1));
                trim_chars(&rest)
            },
            None => Vec::new(),
        }
    }
}

/// Splits a description into its summary and its highlights.
///
/// Lines are trimmed and empty lines skipped. Up to the first line with a
/// marker, lines go to the summary; from that line on every line is a highlight,
/// also one without a marker. The summary falls back to the whole description
/// where no line went to it.
pub fn parse_description_and_highlights(description: &Option<String>) -> (r: (
    Option<String>,
    Option<Vec<String>>,
))
    ensures
        description is None ==> r.0 is None && r.1 is None,
        description matches Some(text) ==> r.0.deep_view() == Some(segment_summary(text@))
            && r.1.deep_view() == segment_highlights(text@),
{
    let text = match description {
        Some(text) => text,
        None => {
            return (None, None);
        },
    };
    let chars = string_chars(text.as_str());
    let raw = split_chars(&chars, '\n');
    let n = raw.len();
    let ghost lines = description_lines(text@);
    let ghost k = first_marked(lines);
    proof {
        lemma_first_marked(lines);
        assert(lines.len() == n);
    }
    let mut summary: Vec<Vec<char>> = Vec::new();
    let mut highlights: Vec<Vec<char>> = Vec::new();
    let mut in_highlights = false;
    let mut i: usize = 0;
    proof {
        reveal(Seq::filter);
        assert(lines.take(0).filter(nonempty()) =~= rows(summary@));
        assert(lines.subrange(0, 0).filter(nonempty()).map_values(to_highlight()) =~= rows(
            highlights@,
        ));
    }
    while i < n
        invariant
            i <= n == raw.len() == lines.len(),
            rows(raw@) == split_on(text@, '\n'),
            lines == description_lines(text@),
            k == first_marked(lines),
            0 <= k <= n,
            forall|j: int| 0 <= j < k ==> !is_marked(#[trigger] lines[j]),
            k < n ==> is_marked(lines[k]),
            in_highlights == (k < i),
            rows(summary@) == lines.take(if i < k { i as int } else { k }).filter(nonempty()),
            rows(highlights@) == lines.subrange(if i < k { i as int } else { k }, i as int).filter(
                nonempty(),
            ).map_values(to_highlight()),
        decreases n - i,
    {
        let line = trim_chars(&raw[i]);
        assert(line@ == lines[i as int]) by {
            assert(rows(raw@)[i as int] == raw@[i as int]@);
        }
        let ghost low = if i < k { i as int } else { k };
        let ghost old_summary = rows(summary@);
        let ghost old_highlights = rows(highlights@);
        let ghost kept = lines.subrange(low, i as int).filter(nonempty());
        if line_is_marked(&line) {
            let entry = marked_highlight(&line);
            highlights.push(entry);
            in_highlights = true;
            proof {
                assert(k <= i);
                assert(lines.subrange(k, i + 1) =~= lines.subrange(k, i as int).push(line@));
                lines.subrange(k, i as int).lemma_filter_push(line@, nonempty());
                kept.lemma_push_map_commute(to_highlight(), line@);
                assert(rows(highlights@) =~= old_highlights.push(highlight_text(line@)));
            }
        } else if !in_highlights && line.len() > 0 {
            summary.push(line);
            proof {
                assert(i < k);
                assert(lines.take(i + 1) =~= lines.take(i as int).push(line@));
                lines.take(i as int).lemma_filter_push(line@, nonempty());
                assert(rows(summary@) =~= old_summary.push(line@));
                assert(lines.subrange(i + 1, i + 1) =~= lines.subrange(i as int, i as int));
            }
        } else if in_highlights && line.len() > 0 {
            highlights.push(line);
            proof {
                assert(lines.subrange(k, i + 1) =~= lines.subrange(k, i as int).push(line@));
                lines.subrange(k, i as int).lemma_filter_push(line@, nonempty());
                kept.lemma_push_map_commute(to_highlight(), line@);
                assert(rows(highlights@) =~= old_highlights.push(line@));
            }
        } else {
            proof {
                if i < k {
                    assert(lines.take(i + 1) =~= lines.take(i as int).push(line@));
                    lines.take(i as int).lemma_filter_push(line@, nonempty());
                    assert(lines.subrange(i + 1, i + 1) =~= lines.subrange(i as int, i as int));
                } else {
                    assert(lines.subrange(k, i + 1) =~= lines.subrange(k, i as int).push(line@));
                    lines.subrange(k, i as int).lemma_filter_push(line@, nonempty());
                }
            }
        }
        i += 1;
    }
    proof {
        assert(lines.subrange(k, n as int) =~= lines.skip(k));
    }
    let summary_text = if summary.len() == 0 {
        text.clone()
    } else {
        let space: Vec<char> = vec![' '];
        assert(space@ =~= seq![' ']);
        chars_string(&join_chars(&summary, &space))
    };
    let highlight_list = if highlights.len() == 0 {
        None
    } else {
        Some(rows_strings(&highlights))
    };
    (Some(summary_text), highlight_list)
}

} // verus!
