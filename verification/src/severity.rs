//! The severity classifier: a pure function from a parse outcome to one
//! of a small closed set of outcome categories.

use vstd::prelude::*;

use crate::error::ErrMode;
use crate::error::PResult;

verus! {

/// The closed classification of a parse outcome.
#[derive(Clone, Copy, Debug, PartialEq, Eq, Structural)]
pub enum Severity {
    Success,
    RecoverableFailure,
    UnrecoverableFailure,
    Incomplete,
}

/// The classification of a parse outcome, as a function of the outcome
/// value alone: it depends on nothing else, so two equal outcomes always
/// classify identically.
pub open spec fn severity_of(r: Result<Seq<u8>, ErrMode>) -> Severity {
    match r {
        Ok(_) => Severity::Success,
        Err(ErrMode::Backtrack { .. }) => Severity::RecoverableFailure,
        Err(ErrMode::Cut { .. }) => Severity::UnrecoverableFailure,
        Err(ErrMode::Incomplete) => Severity::Incomplete,
    }
}

impl Severity {
    /// Classifies the result of delegating to a wrapped parser.
    pub fn with_result(res: &PResult) -> (s: Severity)
        ensures
            s == severity_of(crate::error::res_view(*res)),
    {
        match res {
            Ok(_) => Severity::Success,
            Err(ErrMode::Backtrack { .. }) => Severity::RecoverableFailure,
            Err(ErrMode::Cut { .. }) => Severity::UnrecoverableFailure,
            Err(ErrMode::Incomplete) => Severity::Incomplete,
        }
    }
}

} // verus!
