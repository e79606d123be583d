//! Verdicts and the question/verdict/explanation entries of the history list.

use vstd::prelude::*;

verus! {

/// Verdict shown as the leading badge of a history entry.
///
/// The closed set `Yes` / `No` / `Unable` covers the usual answers; `Other`
/// carries a server-provided free-text label outside that set.
#[derive(Clone, Debug, PartialEq)]
pub enum Verdict {
    Yes,
    No,
    Unable,
    Other(String),
}

/// The badge text a verdict is displayed as.
pub open spec fn label_of(v: Verdict) -> Seq<char> {
    match v {
        Verdict::Yes => "Yes"@,
        Verdict::No => "No"@,
        Verdict::Unable => "Unable"@,
        Verdict::Other(s) => s@,
    }
}

/// The CSS class pair controlling the badge colors of a verdict.
pub open spec fn class_of(v: Verdict) -> Seq<char> {
    match v {
        Verdict::Yes => "badge yes"@,
        Verdict::No => "badge no"@,
        Verdict::Unable => "badge wrong"@,
        Verdict::Other(_) => "badge other"@,
    }
}

impl Verdict {
    /// Badge text: a total function of the variant alone.
    pub fn label(&self) -> (r: &str)
        ensures
            r@ == label_of(*self),
    {
        match self {
            Verdict::Yes => "Yes",
            Verdict::No => "No",
            Verdict::Unable => "Unable",
            Verdict::Other(s) => s.as_str(),
        }
    }

    /// Badge CSS classes: a total function of the variant alone.
    pub fn class(&self) -> (r: &'static str)
        ensures
            r@ == class_of(*self),
    {
        match self {
            Verdict::Yes => "badge yes",
            Verdict::No => "badge no",
            Verdict::Unable => "badge wrong",
            Verdict::Other(_) => "badge other",
        }
    }
}

/// One entry of the displayed history: a question, the verdict it got, and a
/// short explanation. Immutable once constructed; display order is the order
/// of the sequence holding the entries.
#[derive(Clone, Debug, PartialEq)]
pub struct QaItem {
    pub question: String,
    pub verdict: Verdict,
    pub explanation: String,
}

} // verus!
