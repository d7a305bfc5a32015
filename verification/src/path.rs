//! A filesystem path carried as plain text, for callers that exchange paths
//! with collaborators outside this core.

use vstd::prelude::*;
use vstd::string::*;

verus! {

broadcast use vstd::string::group_string_axioms;

/// A path kept in its textual form.
#[derive(Debug, Clone, PartialEq, Eq, Hash, PartialOrd, Ord)]
pub struct StrPath(String);

impl View for StrPath {
    type V = Seq<char>;

    closed spec fn view(&self) -> Seq<char> {
        self.0@
    }
}

impl StrPath {
    /// Wraps a path text; any text is accepted.
    pub fn new(s: &str) -> (r: StrPath)
        ensures
            r@ == s@,
    {
        StrPath(String::from_str(s))
    }

    /// The path's text.
    pub fn as_str(&self) -> (r: &str)
        ensures
            r@ == self@,
    {
        self.0.as_str()
    }
}

impl core::str::FromStr for StrPath {
    type Err = &'static str;

    fn from_str(s: &str) -> Result<Self, Self::Err> {
        Ok(StrPath::new(s))
    }
}

} // verus!
