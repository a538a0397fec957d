//! The layouts in which a resume can be rendered.

use crate::text::str_equal;
use vstd::prelude::*;
use vstd::string::*;

verus! {

/// A layout that is available.
#[derive(Clone, Copy, Debug, PartialEq, Eq, Structural)]
pub enum Available {
    Basic,
}

impl Available {
    /// The name under which the layout is chosen.
    pub open spec fn label_text(self) -> Seq<char> {
        match self {
            Available::Basic => "basic"@,
        }
    }

    /// The name under which the layout is chosen.
    pub fn label(&self) -> (r: String)
        ensures
            r@ == self.label_text(),
    {
        match self {
            Available::Basic => String::from_str("basic"),
        }
    }

    /// The layout with the given name, if there is one.
    pub fn from_label(label: &str) -> (r: Option<Available>)
        ensures
            r matches Some(layout) ==> layout.label_text() == label@,
            r is None ==> forall|layout: Available| layout.label_text() != label@,
    {
        if str_equal(label, "basic") {
            Some(Available::Basic)
        } else {
            None
        }
    }
}

} // verus!
