//! The parser capability the tracers consume and provide.
//!
//! A parser is any value that can be invoked on an input and returns the
//! matched bytes or an error, leaving the cursor at a new position.  Its
//! behaviour is captured by a functional model, `spec_step`; the
//! invocation contract ties every run to that model and, in addition,
//! disciplines how an invocation may touch the threaded trace context:
//! depth is restored on every exit path, the log only grows, the
//! appended events pair up enter against exit at every depth, and
//! nothing is appended while rendering is off.

use vstd::prelude::*;

use crate::context::TraceContext;
use crate::error::res_view;
use crate::error::ErrMode;
use crate::error::PResult;
use crate::event::all_depths_at_least;
use crate::event::paired;
use crate::stream::Input;

verus! {

/// The functional model of one invocation: the outcome produced on the
/// given data at the given position, and the position the cursor is
/// left at.
#[verifier::ext_equal]
pub struct ParseStep {
    pub out: Result<Seq<u8>, ErrMode>,
    pub pos: int,
}

/// The parser capability.
pub trait Parser: Sized {
    /// The functional model of this parser.
    spec fn spec_step(&self, data: Seq<u8>, pos: int) -> ParseStep;

    /// Invokes the parser once on `input`, threading the trace context
    /// `ctx`.
    ///
    /// The outcome and the new cursor position are exactly what the
    /// model says for the old position; the parser value itself is left
    /// unchanged.  The context comes back at its old depth with its old
    /// toggle, its log extended only by events that pair up and sit at
    /// the old depth or deeper — and extended not at all when rendering
    /// is off.
    fn parse_next(&mut self, input: &mut Input, ctx: &mut TraceContext) -> (r: PResult)
        requires
            old(input).wf(),
        ensures
            *final(self) == *old(self),
            final(input).wf(),
            final(input).data@ == old(input).data@,
            res_view(r) == old(self).spec_step(old(input).data@, old(input).pos as int).out,
            final(input).pos as int == old(self).spec_step(
                old(input).data@,
                old(input).pos as int,
            ).pos,
            final(ctx).toggle == old(ctx).toggle,
            final(ctx).depth() == old(ctx).depth(),
            final(ctx).log@.len() >= old(ctx).log@.len(),
            old(ctx).log@ == final(ctx).log@.take(old(ctx).log@.len() as int),
            paired(final(ctx).log@.skip(old(ctx).log@.len() as int)),
            all_depths_at_least(
                final(ctx).log@.skip(old(ctx).log@.len() as int),
                old(ctx).depth() as int,
            ),
            !old(ctx).toggle.render ==> final(ctx).log@ == old(ctx).log@,
    ;
}

} // verus!
