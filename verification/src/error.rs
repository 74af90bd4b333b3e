//! Why a triple cannot be resolved.

use vstd::prelude::*;
use vstd::string::*;

verus! {

/// The reasons for which a triple is refused.
#[derive(Debug, Clone, PartialEq, Eq)]
pub enum ResolveError {
    /// The triple has fewer than three fields.
    TooFewFields,
    /// The first field, carried here, names no known architecture.
    UnsupportedArch(String),
    /// The table of configurations does not hold the triple.
    NotConfigured,
}

/// What a `ResolveError` stands for.
pub ghost enum ResolveErrorView {
    TooFewFields,
    UnsupportedArch(Seq<char>),
    NotConfigured,
}

impl View for ResolveError {
    type V = ResolveErrorView;

    open spec fn view(&self) -> ResolveErrorView {
        match self {
            ResolveError::TooFewFields => ResolveErrorView::TooFewFields,
            ResolveError::UnsupportedArch(s) => ResolveErrorView::UnsupportedArch(s@),
            ResolveError::NotConfigured => ResolveErrorView::NotConfigured,
        }
    }
}

impl ResolveErrorView {
    /// The words that report the error. An unknown architecture is named.
    pub open spec fn message(self) -> Seq<char> {
        match self {
            ResolveErrorView::TooFewFields => "target triple has fewer than three fields"@,
            ResolveErrorView::UnsupportedArch(s) => "unsupported cpu arch "@ + s,
            ResolveErrorView::NotConfigured => "target has no workflow configuration"@,
        }
    }
}

impl ResolveError {
    /// The words that report the error.
    pub fn message(&self) -> (r: String)
        ensures
            r@ == self@.message(),
    {
        match self {
            ResolveError::TooFewFields => "target triple has fewer than three fields".to_owned(),
            ResolveError::UnsupportedArch(s) => {
                let mut r = "unsupported cpu arch ".to_owned();
                r.append(s.as_str());
                r
            },
            ResolveError::NotConfigured => "target has no workflow configuration".to_owned(),
        }
    }
}

} // verus!
