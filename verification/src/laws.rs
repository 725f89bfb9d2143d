//! The laws of the library, stated once and proved for every input.
//!
//! The invocation contract of [`crate::parser::Parser::parse_next`]
//! already carries most of them: every invocation restores the depth it
//! found, appends only enter/exit events that pair up at every depth,
//! and returns exactly what the functional model of the wrapped parser
//! says.  The proof functions here state the consequences that span
//! more than one function.

use vstd::prelude::*;

use crate::error::ErrMode;
use crate::event::count_events;
use crate::event::lemma_count_split;
use crate::event::paired;
use crate::event::Phase;
use crate::event::TraceEvent;
use crate::parser::Parser;
use crate::severity::severity_of;
use crate::toggle::spec_render;
use crate::tracer::Trace;
use crate::tracer::TraceEmpty;
use crate::tracer::Tracer;

verus! {

/// Depth pairing: a log in which enter and exit events pair up at every
/// depth, extended by an invocation — which by contract appends a
/// segment that pairs up at every depth — still pairs up at every
/// depth.  Starting from the empty log of a fresh context, the whole
/// log therefore pairs up after every top-level invocation.
pub proof fn lemma_paired_extension(l0: Seq<TraceEvent>, l1: Seq<TraceEvent>)
    requires
        l0.len() <= l1.len(),
        l0 == l1.take(l0.len() as int),
        paired(l0),
        paired(l1.skip(l0.len() as int)),
    ensures
        paired(l1),
{
    assert forall|di: int|
        count_events(l1, Phase::Enter, di) == count_events(l1, Phase::Exit, di) by {
        lemma_count_split(l1, l0.len() as int, Phase::Enter, di);
        lemma_count_split(l1, l0.len() as int, Phase::Exit, di);
    }
}

/// The empty log pairs up.
pub proof fn lemma_paired_empty()
    ensures
        paired(Seq::<TraceEvent>::empty()),
{
    assert forall|di: int|
        count_events(Seq::<TraceEvent>::empty(), Phase::Enter, di) == count_events(
            Seq::<TraceEvent>::empty(),
            Phase::Exit,
            di,
        ) by {
        assert(count_events(Seq::<TraceEvent>::empty(), Phase::Enter, di) == 0);
        assert(count_events(Seq::<TraceEvent>::empty(), Phase::Exit, di) == 0);
    }
}

/// Non-negativity: depth counts the guards currently held, so no
/// context can ever observe a negative depth.
pub proof fn lemma_depth_nonnegative(ctx: &crate::context::TraceContext)
    ensures
        ctx.depth() >= 0,
{
}

/// Transparency of the active tracer: wrapping leaves the functional
/// model — outcome and resulting position on every data and position —
/// exactly that of the wrapped parser.
pub proof fn lemma_trace_transparent<P: Parser>(t: Trace<P>, data: Seq<u8>, pos: int)
    ensures
        t.spec_step(data, pos) == t.parser.spec_step(data, pos),
{
}

/// Transparency of the inert tracer: likewise.
pub proof fn lemma_trace_empty_transparent<P: Parser>(t: TraceEmpty<P>, data: Seq<u8>, pos: int)
    ensures
        t.spec_step(data, pos) == t.parser.spec_step(data, pos),
{
}

/// Transparency of either variant: whichever the toggle selected, the
/// functional model of the wrapped parser shines through unchanged.
pub proof fn lemma_tracer_transparent<P: Parser>(t: Tracer<P>, data: Seq<u8>, pos: int)
    ensures
        (t matches Tracer::Active(tr) ==> t.spec_step(data, pos) == tr.parser.spec_step(
            data,
            pos,
        )),
        (t matches Tracer::Inert(tr) ==> t.spec_step(data, pos) == tr.parser.spec_step(
            data,
            pos,
        )),
{
}

/// Inert cost: without instrumentation support, or outside a debug
/// build, no toggle renders, whatever the environment says; and by the
/// invocation contract a non-rendering context receives no trace events
/// at all.
pub proof fn lemma_inert_renders_nothing(support: bool, debug_build: bool, env: Option<Seq<u8>>)
    requires
        !support || !debug_build,
    ensures
        !spec_render(support, debug_build, env),
{
}

/// Classification determinism: severity is a pure function of the
/// outcome value, so equal outcomes classify equally, whatever depth,
/// name or history surrounds them.
pub proof fn lemma_classification_deterministic(
    a: Result<Seq<u8>, ErrMode>,
    b: Result<Seq<u8>, ErrMode>,
)
    requires
        a == b,
    ensures
        severity_of(a) == severity_of(b),
{
}

} // verus!
