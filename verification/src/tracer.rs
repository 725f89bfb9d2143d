//! The tracers: the active wrapper that records enter and exit events
//! around each invocation of the parser it owns, the inert wrapper that
//! passes invocations straight through, and the construction interface
//! that picks between them.

use vstd::prelude::*;

use crate::context::TraceContext;
use crate::error::res_view;
use crate::error::ErrMode;
use crate::error::PResult;
use crate::event::all_depths_at_least;
use crate::event::count_events;
use crate::event::lemma_count_push;
use crate::event::EventModel;
use crate::event::Phase;
use crate::event::TraceEvent;
use crate::parser::Parser;
use crate::parser::ParseStep;
use crate::severity::severity_of;
use crate::severity::Severity;
use crate::stream::copy_bytes;
use crate::stream::preview_bytes;
use crate::stream::preview_of;
use crate::stream::Input;
use crate::toggle::Toggle;

verus! {

/// The event an active tracer records on entering an invocation at
/// depth `d`: the name and a preview of the remaining input.
pub open spec fn enter_model(d: nat, name: Seq<u8>, rest: Seq<u8>) -> EventModel {
    EventModel {
        depth: d,
        name: name,
        phase: Phase::Enter,
        severity: None,
        preview: Some(preview_of(rest)),
        out_preview: None,
    }
}

/// The event an active tracer records on leaving an invocation at depth
/// `d`: the name, the classified severity, and, on success, previews of
/// the produced value and of the remaining input.
pub open spec fn exit_model(
    d: nat,
    name: Seq<u8>,
    out: Result<Seq<u8>, ErrMode>,
    rest: Seq<u8>,
) -> EventModel {
    EventModel {
        depth: d,
        name: name,
        phase: Phase::Exit,
        severity: Some(severity_of(out)),
        preview: match out {
            Ok(_) => Some(preview_of(rest)),
            Err(_) => None,
        },
        out_preview: match out {
            Ok(v) => Some(preview_of(v)),
            Err(_) => None,
        },
    }
}

/// The active tracer: owns a parser and its display name; each
/// invocation is bracketed by a depth scope and, while rendering is on,
/// by an enter and an exit event.
pub struct Trace<P> {
    pub parser: P,
    pub name: Vec<u8>,
}

impl<P: Parser> Trace<P> {
    /// Wraps `parser` under the display name `name`.
    pub fn new(parser: P, name: Vec<u8>) -> (t: Trace<P>)
        ensures
            t.parser == parser,
            t.name == name,
    {
        Trace { parser, name }
    }
}

impl<P: Parser> Parser for Trace<P> {
    /// Wrapping changes nothing of the functional model.
    open spec fn spec_step(&self, data: Seq<u8>, pos: int) -> ParseStep {
        self.parser.spec_step(data, pos)
    }

    fn parse_next(&mut self, input: &mut Input, ctx: &mut TraceContext) -> (r: PResult)
        ensures
            old(ctx).toggle.render ==> final(ctx).log@.len() >= old(ctx).log@.len() + 2,
            old(ctx).toggle.render ==> final(ctx).log@[old(ctx).log@.len() as int]@ == enter_model(
                old(ctx).depth(),
                old(self).name@,
                old(input).rest(),
            ),
            old(ctx).toggle.render ==> final(ctx).log@.last()@ == exit_model(
                old(ctx).depth(),
                old(self).name@,
                res_view(r),
                final(input).rest(),
            ),
            old(ctx).toggle.render ==> (forall|i: int|
                old(ctx).log@.len() < i < final(ctx).log@.len() - 1
                    ==> final(ctx).log@[i].depth >= old(ctx).depth() + 1),
    {
        let ghost l0 = ctx.log@;
        let ghost d0 = ctx.depth();
        let d = ctx.current();
        let render = ctx.toggle.render;
        ctx.enter();
        if render {
            let ev = TraceEvent {
                depth: d,
                name: copy_bytes(&self.name),
                phase: Phase::Enter,
                severity: None,
                preview: Some(input.preview()),
                out_preview: None,
            };
            ctx.emit(ev);
        }
        let ghost e1 = ctx.log@.last();
        let ghost l1 = ctx.log@;
        let r = self.parser.parse_next(input, ctx);
        let ghost l2 = ctx.log@;
        let ghost mid = l2.skip(l1.len() as int);
        let sev = Severity::with_result(&r);
        if render {
            let out_preview: Option<Vec<u8>> = match &r {
                Ok(v) => Some(preview_bytes(v)),
                Err(_) => None,
            };
            let preview: Option<Vec<u8>> = match &r {
                Ok(_) => Some(input.preview()),
                Err(_) => None,
            };
            let ev = TraceEvent {
                depth: d,
                name: copy_bytes(&self.name),
                phase: Phase::Exit,
                severity: Some(sev),
                preview,
                out_preview,
            };
            ctx.emit(ev);
        }
        ctx.exit();
        proof {
            let l3 = ctx.log@;
            let n0 = l0.len() as int;
            let n1 = l1.len() as int;
            assert(l2 =~= l1 + mid);
            if render {
                let e2 = l3.last();
                assert(l1 == l0.push(e1));
                assert(l3 == l2.push(e2));
                assert(l3.take(n0) =~= l0);
                let app = l3.skip(n0);
                assert(app =~= seq![e1] + mid + seq![e2]);
                assert forall|di: int|
                    count_events(app, Phase::Enter, di) == count_events(
                        app,
                        Phase::Exit,
                        di,
                    ) by {
                    lemma_split_counts(e1, mid, e2, di);
                    assert(count_events(mid, Phase::Enter, di) == count_events(
                        mid,
                        Phase::Exit,
                        di,
                    ));
                }
                assert(all_depths_at_least(app, d0 as int));
            } else {
                assert(l1 == l0);
                assert(l3 == l2);
                assert(l3.take(n0) =~= l0);
            }
        }
        r
    }
}

/// The inert tracer: the same shape as the active one, but an
/// invocation delegates directly, with no depth interaction and no
/// rendering of its own.
pub struct TraceEmpty<P> {
    pub parser: P,
    pub name: Vec<u8>,
}

impl<P: Parser> TraceEmpty<P> {
    /// Wraps `parser` under the display name `name`.
    pub fn new(parser: P, name: Vec<u8>) -> (t: TraceEmpty<P>)
        ensures
            t.parser == parser,
            t.name == name,
    {
        TraceEmpty { parser, name }
    }
}

impl<P: Parser> Parser for TraceEmpty<P> {
    /// Wrapping changes nothing of the functional model.
    open spec fn spec_step(&self, data: Seq<u8>, pos: int) -> ParseStep {
        self.parser.spec_step(data, pos)
    }

    fn parse_next(&mut self, input: &mut Input, ctx: &mut TraceContext) -> (r: PResult) {
        self.parser.parse_next(input, ctx)
    }
}

/// A tracer of either variant.  Callers observe only the common
/// invocation contract, not which variant was selected.
pub enum Tracer<P> {
    Active(Trace<P>),
    Inert(TraceEmpty<P>),
}

impl<P: Parser> Parser for Tracer<P> {
    /// Either variant leaves the functional model of the wrapped parser
    /// untouched.
    open spec fn spec_step(&self, data: Seq<u8>, pos: int) -> ParseStep {
        match self {
            Tracer::Active(t) => t.spec_step(data, pos),
            Tracer::Inert(t) => t.spec_step(data, pos),
        }
    }

    fn parse_next(&mut self, input: &mut Input, ctx: &mut TraceContext) -> (r: PResult) {
        match self {
            Tracer::Active(t) => t.parse_next(input, ctx),
            Tracer::Inert(t) => t.parse_next(input, ctx),
        }
    }
}

/// Wraps a parser for tracing under a display name.
///
/// The variant is selected once, here, from the resolved toggle: the
/// active tracer where instrumentation is available in this build, the
/// inert one everywhere else.  Either way the wrapped parser keeps its
/// functional model: wrapping is observationally transparent.
pub fn trace<P: Parser>(name: Vec<u8>, parser: P, toggle: &Toggle) -> (t: Tracer<P>)
    ensures
        forall|data: Seq<u8>, pos: int| #[trigger]
            t.spec_step(data, pos) == parser.spec_step(data, pos),
        toggle.active <==> t is Active,
        (match t {
            Tracer::Active(tr) => tr.parser == parser && tr.name@ == name@,
            Tracer::Inert(tr) => tr.parser == parser && tr.name@ == name@,
        }),
{
    if toggle.active {
        Tracer::Active(Trace::new(parser, name))
    } else {
        Tracer::Inert(TraceEmpty::new(parser, name))
    }
}

/// The event recorded for an outcome observed outside any wrapper: the
/// name and the classified severity, at the current depth.
pub open spec fn result_model(d: nat, name: Seq<u8>, out: Result<Seq<u8>, ErrMode>) -> EventModel {
    EventModel {
        depth: d,
        name: name,
        phase: Phase::Exit,
        severity: Some(severity_of(out)),
        preview: None,
        out_preview: None,
    }
}

/// Records the outcome of a parser that was invoked without being
/// wrapped, while rendering is on; otherwise leaves the context
/// untouched.  The outcome itself is only read.
pub fn trace_result(name: &Vec<u8>, res: &PResult, ctx: &mut TraceContext)
    ensures
        final(ctx).depth() == old(ctx).depth(),
        final(ctx).toggle == old(ctx).toggle,
        old(ctx).toggle.render ==> final(ctx).log@.len() == old(ctx).log@.len() + 1,
        old(ctx).toggle.render ==> final(ctx).log@ == old(ctx).log@.push(
            final(ctx).log@.last(),
        ) && final(ctx).log@.last()@ == result_model(old(ctx).depth(), name@, res_view(*res)),
        !old(ctx).toggle.render ==> *final(ctx) == *old(ctx),
{
    if ctx.toggle.render {
        let d = ctx.current();
        let ev = TraceEvent {
            depth: d,
            name: copy_bytes(name),
            phase: Phase::Exit,
            severity: Some(Severity::with_result(res)),
            preview: None,
            out_preview: None,
        };
        ctx.emit(ev);
    }
}

/// Counting a bracketed segment: one enter-shaped event, an interior,
/// and one exit-shaped event.
proof fn lemma_split_counts(e1: TraceEvent, mid: Seq<TraceEvent>, e2: TraceEvent, di: int)
    ensures
        count_events(seq![e1] + mid + seq![e2], Phase::Enter, di) == count_events(
            seq![e1],
            Phase::Enter,
            di,
        ) + count_events(mid, Phase::Enter, di) + count_events(seq![e2], Phase::Enter, di),
        count_events(seq![e1] + mid + seq![e2], Phase::Exit, di) == count_events(
            seq![e1],
            Phase::Exit,
            di,
        ) + count_events(mid, Phase::Exit, di) + count_events(seq![e2], Phase::Exit, di),
        count_events(seq![e1], Phase::Enter, di) == (if e1.phase == Phase::Enter && e1.depth == di {
            1nat
        } else {
            0nat
        }),
        count_events(seq![e1], Phase::Exit, di) == (if e1.phase == Phase::Exit && e1.depth == di {
            1nat
        } else {
            0nat
        }),
        count_events(seq![e2], Phase::Enter, di) == (if e2.phase == Phase::Enter && e2.depth == di {
            1nat
        } else {
            0nat
        }),
        count_events(seq![e2], Phase::Exit, di) == (if e2.phase == Phase::Exit && e2.depth == di {
            1nat
        } else {
            0nat
        }),
{
    crate::event::lemma_count_concat(seq![e1] + mid, seq![e2], Phase::Enter, di);
    crate::event::lemma_count_concat(seq![e1], mid, Phase::Enter, di);
    crate::event::lemma_count_concat(seq![e1] + mid, seq![e2], Phase::Exit, di);
    crate::event::lemma_count_concat(seq![e1], mid, Phase::Exit, di);
    assert(seq![e1] =~= Seq::<TraceEvent>::empty().push(e1));
    assert(seq![e2] =~= Seq::<TraceEvent>::empty().push(e2));
    lemma_count_push(Seq::<TraceEvent>::empty(), e1, Phase::Enter, di);
    lemma_count_push(Seq::<TraceEvent>::empty(), e1, Phase::Exit, di);
    lemma_count_push(Seq::<TraceEvent>::empty(), e2, Phase::Enter, di);
    lemma_count_push(Seq::<TraceEvent>::empty(), e2, Phase::Exit, di);
}

} // verus!
