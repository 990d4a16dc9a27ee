//! How an attempt against the platform can fail.

use vstd::prelude::*;
use vstd::string::StringExecFns;

verus! {

/// The failure of one attempt. None of them is fatal: the caller may start the
/// attempt again from scratch.
#[derive(Clone, Debug, PartialEq)]
pub enum PlatformError {
    /// The request or its answer was lost on the way.
    Transport,
    /// A well-formed answer that refuses the request, with the platform's
    /// own words.
    Rejected(String),
    /// The catalog holds no such entry.
    NotFound,
    /// The answer does not have the shape this operation expects.
    Malformed,
}

/// A failure with its words as plain characters.
pub enum PlatformErrorView {
    Transport,
    Rejected(Seq<char>),
    NotFound,
    Malformed,
}

impl View for PlatformError {
    type V = PlatformErrorView;

    open spec fn view(&self) -> PlatformErrorView {
        match self {
            PlatformError::Transport => PlatformErrorView::Transport,
            PlatformError::Rejected(words) => PlatformErrorView::Rejected(words@),
            PlatformError::NotFound => PlatformErrorView::NotFound,
            PlatformError::Malformed => PlatformErrorView::Malformed,
        }
    }
}

impl PlatformErrorView {
    /// The words shown to the user for this failure.
    pub open spec fn reason(self) -> Seq<char> {
        match self {
            PlatformErrorView::Transport => "transport failure"@,
            PlatformErrorView::Rejected(words) => words,
            PlatformErrorView::NotFound => "not found"@,
            PlatformErrorView::Malformed => "malformed response"@,
        }
    }
}

impl PlatformError {
    /// The words shown to the user for this failure: the platform's own
    /// where it gave any.
    pub fn reason(&self) -> (r: String)
        ensures
            r@ == self@.reason(),
    {
        match self {
            PlatformError::Transport => String::from_str("transport failure"),
            PlatformError::Rejected(words) => words.clone(),
            PlatformError::NotFound => String::from_str("not found"),
            PlatformError::Malformed => String::from_str("malformed response"),
        }
    }
}

} // verus!
