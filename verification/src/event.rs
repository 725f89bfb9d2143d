//! Trace events: the ephemeral records an active tracer writes to the
//! trace log, and the counting notions the depth-pairing law is stated
//! over.

use vstd::prelude::*;

use crate::severity::Severity;

verus! {

/// Which side of an invocation an event marks.
#[derive(Clone, Copy, Debug, PartialEq, Eq, Structural)]
pub enum Phase {
    Enter,
    Exit,
}

/// One trace event: the depth of the invocation it belongs to, the
/// display name of the traced parser, the phase, and, where they apply,
/// the classified severity, a preview of the remaining input, and a
/// preview of the produced value.
#[derive(Clone, Debug, PartialEq, Eq)]
pub struct TraceEvent {
    pub depth: usize,
    pub name: Vec<u8>,
    pub phase: Phase,
    pub severity: Option<Severity>,
    pub preview: Option<Vec<u8>>,
    pub out_preview: Option<Vec<u8>>,
}

/// The mathematical value of a trace event.
#[verifier::ext_equal]
pub struct EventModel {
    pub depth: nat,
    pub name: Seq<u8>,
    pub phase: Phase,
    pub severity: Option<Severity>,
    pub preview: Option<Seq<u8>>,
    pub out_preview: Option<Seq<u8>>,
}

impl View for TraceEvent {
    type V = EventModel;

    open spec fn view(&self) -> EventModel {
        EventModel {
            depth: self.depth as nat,
            name: self.name@,
            phase: self.phase,
            severity: self.severity,
            preview: match self.preview {
                Some(p) => Some(p@),
                None => None,
            },
            out_preview: match self.out_preview {
                Some(p) => Some(p@),
                None => None,
            },
        }
    }
}

/// How many events of a sequence carry the given phase at the given
/// depth.
pub open spec fn count_events(s: Seq<TraceEvent>, ph: Phase, d: int) -> nat
    decreases s.len(),
{
    if s.len() == 0 {
        0
    } else {
        count_events(s.drop_last(), ph, d) + (if s.last().phase == ph && s.last().depth == d {
            1nat
        } else {
            0nat
        })
    }
}

/// Enter and exit events pair up: at every depth there are as many of
/// one as of the other.
pub open spec fn paired(s: Seq<TraceEvent>) -> bool {
    forall|d: int| count_events(s, Phase::Enter, d) == count_events(s, Phase::Exit, d)
}

/// Every event of the sequence sits at the given depth or deeper.
pub open spec fn all_depths_at_least(s: Seq<TraceEvent>, d: int) -> bool {
    forall|i: int| 0 <= i < s.len() ==> s[i].depth >= d
}

/// Counting one more event adds one to the count of its phase and depth
/// and leaves every other count unchanged.
pub proof fn lemma_count_push(s: Seq<TraceEvent>, e: TraceEvent, ph: Phase, d: int)
    ensures
        count_events(s.push(e), ph, d) == count_events(s, ph, d) + (if e.phase == ph && e.depth
            == d {
            1nat
        } else {
            0nat
        }),
{
    assert(s.push(e).drop_last() =~= s);
    assert(s.push(e).last() == e);
}

/// Counting distributes over concatenation.
pub proof fn lemma_count_concat(a: Seq<TraceEvent>, b: Seq<TraceEvent>, ph: Phase, d: int)
    ensures
        count_events(a + b, ph, d) == count_events(a, ph, d) + count_events(b, ph, d),
    decreases b.len(),
{
    if b.len() == 0 {
        assert(a + b =~= a);
    } else {
        lemma_count_concat(a, b.drop_last(), ph, d);
        assert((a + b).drop_last() =~= a + b.drop_last());
        assert((a + b).last() == b.last());
        assert(b =~= b.drop_last().push(b.last()));
        lemma_count_push(b.drop_last(), b.last(), ph, d);
    }
}

/// A log that did not change is an extension by a paired, arbitrarily
/// deep, empty segment.
pub proof fn lemma_empty_extension(s: Seq<TraceEvent>, d: int)
    ensures
        s == s.take(s.len() as int),
        paired(s.skip(s.len() as int)),
        all_depths_at_least(s.skip(s.len() as int), d),
{
    assert(s.take(s.len() as int) =~= s);
    assert(s.skip(s.len() as int) =~= Seq::<TraceEvent>::empty());
    assert forall|di: int|
        count_events(s.skip(s.len() as int), Phase::Enter, di) == count_events(
            s.skip(s.len() as int),
            Phase::Exit,
            di,
        ) by {
        assert(count_events(Seq::<TraceEvent>::empty(), Phase::Enter, di) == 0);
        assert(count_events(Seq::<TraceEvent>::empty(), Phase::Exit, di) == 0);
    }
}

/// Two extensions in a row, each paired and each at depth `d` or
/// deeper, make one such extension.
pub proof fn lemma_extension_trans(l0: Seq<TraceEvent>, l1: Seq<TraceEvent>, l2: Seq<TraceEvent>, d: int)
    requires
        l0.len() <= l1.len(),
        l0 == l1.take(l0.len() as int),
        paired(l1.skip(l0.len() as int)),
        all_depths_at_least(l1.skip(l0.len() as int), d),
        l1.len() <= l2.len(),
        l1 == l2.take(l1.len() as int),
        paired(l2.skip(l1.len() as int)),
        all_depths_at_least(l2.skip(l1.len() as int), d),
    ensures
        l0.len() <= l2.len(),
        l0 == l2.take(l0.len() as int),
        paired(l2.skip(l0.len() as int)),
        all_depths_at_least(l2.skip(l0.len() as int), d),
{
    let a = l1.skip(l0.len() as int);
    let b = l2.skip(l1.len() as int);
    assert(l2.skip(l0.len() as int) =~= a + b);
    assert(l2.take(l0.len() as int) =~= l0);
    assert forall|di: int|
        count_events(l2.skip(l0.len() as int), Phase::Enter, di) == count_events(
            l2.skip(l0.len() as int),
            Phase::Exit,
            di,
        ) by {
        lemma_count_concat(a, b, Phase::Enter, di);
        lemma_count_concat(a, b, Phase::Exit, di);
    }
    assert forall|i: int| 0 <= i < l2.skip(l0.len() as int).len() implies l2.skip(
        l0.len() as int,
    )[i].depth >= d by {
        if i < a.len() {
            assert(l2.skip(l0.len() as int)[i] == a[i]);
        } else {
            assert(l2.skip(l0.len() as int)[i] == b[i - a.len()]);
        }
    }
}

/// Counting splits at any cut of the sequence.
pub proof fn lemma_count_split(s: Seq<TraceEvent>, n: int, ph: Phase, d: int)
    requires
        0 <= n <= s.len(),
    ensures
        count_events(s, ph, d) == count_events(s.take(n), ph, d) + count_events(
            s.skip(n),
            ph,
            d,
        ),
{
    assert(s =~= s.take(n) + s.skip(n));
    lemma_count_concat(s.take(n), s.skip(n), ph, d);
}

} // verus!
