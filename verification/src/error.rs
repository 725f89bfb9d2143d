//! Outcome values a wrapped parser may produce.
//!
//! The tracer never originates one of these; it only classifies and
//! reports them, and passes them through unchanged.

use vstd::prelude::*;

verus! {

/// The error half of a parse outcome.  The variants distinguish the three
/// failure signals the surrounding grammar reacts to: a recoverable
/// failure (an alternative may be tried), an unrecoverable failure
/// (alternatives must not be tried), and a request for more input.
/// The failing variants carry the input position they were raised at.
#[derive(Clone, Copy, Debug, PartialEq, Eq, Structural)]
pub enum ErrMode {
    Backtrack { pos: usize },
    Cut { pos: usize },
    Incomplete,
}

/// What one parser invocation returns: the matched bytes on success,
/// or an [`ErrMode`] on failure.
pub type PResult = Result<Vec<u8>, ErrMode>;

/// The mathematical value of a [`PResult`]: the matched bytes as a
/// sequence, the error as itself.
pub open spec fn res_view(r: PResult) -> Result<Seq<u8>, ErrMode> {
    match r {
        Ok(v) => Ok(v@),
        Err(e) => Err(e),
    }
}

} // verus!
