//! Resource identifiers, as the `url` crate parses and writes them.

use vstd::prelude::*;
use vstd::string::*;

verus! {

/// The text that `url::Url::parse` gives back for `input`, in the form in which the
/// parsed URL writes itself; `None` where it rejects `input`.
pub uninterp spec fn url_parse(input: Seq<char>) -> Option<Seq<char>>;

/// `url::Url::parse`, followed by the conversion of the parsed URL into its text.
/// The result depends on the input alone and is what `url_parse` names. Nothing
/// else is claimed of it.
#[verifier::external_body]
fn parse_url_text(input: &str) -> (r: Option<String>)
    ensures
        r.deep_view() == url_parse(input@),
{
    match url::Url::parse(input) {
        Ok(parsed) => Some(String::from(parsed)),
        Err(_) => None,
    }
}

/// Whether `text` is the text of a resource identifier: it parses, and to itself.
pub open spec fn is_uri_text(text: Seq<char>) -> bool {
    url_parse(text) == Some(text)
}

/// The resource identifier that `input` gives: what `input` parses to, where that
/// is the text of a resource identifier.
pub open spec fn parse_uri(input: Seq<char>) -> Option<Seq<char>> {
    match url_parse(input) {
        Some(text) if is_uri_text(text) => Some(text),
        _ => None,
    }
}

/// A parsed resource identifier, kept as its text.
#[derive(Debug, PartialEq, Eq)]
pub struct Uri {
    text: String,
}

impl DeepView for Uri {
    type V = Seq<char>;

    closed spec fn deep_view(&self) -> Seq<char> {
        self.text@
    }
}

impl Clone for Uri {
    fn clone(&self) -> (r: Self)
        ensures
            r.deep_view() == self.deep_view(),
    {
        proof {
            use_type_invariant(self);
        }
        Uri { text: self.text.clone() }
    }
}

impl Uri {
    /// The invariant of the type: the text parses to itself.
    #[verifier::type_invariant]
    pub closed spec fn wf(self) -> bool {
        is_uri_text(self.text@)
    }

    /// What the invariant of the type says of the text.
    pub proof fn lemma_wf(self)
        ensures
            self.wf() == is_uri_text(self.deep_view()),
    {
    }

    /// Parses `input`. `None` where it is no absolute URL, or where it parses to a
    /// text that does not parse to itself.
    pub fn parse(input: &str) -> (r: Option<Uri>)
        ensures
            r.deep_view() == parse_uri(input@),
    {
        match parse_url_text(input) {
            Some(text) => match parse_url_text(text.as_str()) {
                Some(again) => {
                    if again == text {
                        Some(Uri { text })
                    } else {
                        None
                    }
                },
                None => None,
            },
            None => None,
        }
    }

    /// The text of the identifier.
    pub fn as_str(&self) -> (r: &str)
        ensures
            r@ == self.deep_view(),
            is_uri_text(r@),
    {
        proof {
            use_type_invariant(self);
        }
        self.text.as_str()
    }
}

/// What parses as a resource identifier is the text of one, and parses as itself.
pub proof fn lemma_parse_uri(input: Seq<char>)
    ensures
        parse_uri(input) matches Some(text) ==> is_uri_text(text) && parse_uri(text) == Some(
            text,
        ),
{
}

} // verus!
