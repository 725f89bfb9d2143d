//! The renderer: one trace event becomes one line of human-readable
//! text, indented proportionally to its depth.
//!
//! Rendering is a pure function of the event; it writes nothing itself,
//! so it can never fail the invocation it describes.  The output is
//! human-facing debug text, not a stable machine-readable format.

use vstd::prelude::*;

use crate::event::EventModel;
use crate::event::Phase;
use crate::event::TraceEvent;
use crate::severity::Severity;

verus! {

/// The indentation of a line at depth `d`: two spaces per level.
pub open spec fn indent_of(d: nat) -> Seq<u8>
    decreases d,
{
    if d == 0 {
        Seq::empty()
    } else {
        indent_of((d - 1) as nat) + seq![32u8, 32u8]
    }
}

/// The marker that opens a line: `> ` entering, `< ` leaving.
pub open spec fn phase_mark(ph: Phase) -> Seq<u8> {
    match ph {
        Phase::Enter => seq![62u8, 32u8],
        Phase::Exit => seq![60u8, 32u8],
    }
}

/// The separator between the fields of a line: ` | `.
pub open spec fn field_sep() -> Seq<u8> {
    seq![32u8, 124u8, 32u8]
}

/// The label of a severity.
pub open spec fn severity_label(s: Severity) -> Seq<u8> {
    match s {
        Severity::Success => seq![115u8, 117u8, 99u8, 99u8, 101u8, 115u8, 115u8],
        Severity::RecoverableFailure => seq![
            98u8,
            97u8,
            99u8,
            107u8,
            116u8,
            114u8,
            97u8,
            99u8,
            107u8,
        ],
        Severity::UnrecoverableFailure => seq![99u8, 117u8, 116u8],
        Severity::Incomplete => seq![
            105u8,
            110u8,
            99u8,
            111u8,
            109u8,
            112u8,
            108u8,
            101u8,
            116u8,
            101u8,
        ],
    }
}

/// An optional trailing field: separator plus content where present,
/// nothing where absent.
pub open spec fn opt_field(o: Option<Seq<u8>>) -> Seq<u8> {
    match o {
        Some(p) => field_sep() + p,
        None => Seq::empty(),
    }
}

/// The text of one trace line: indentation, phase marker, name, and the
/// optional severity, value preview and input preview fields.
pub open spec fn render_model(m: EventModel) -> Seq<u8> {
    indent_of(m.depth) + phase_mark(m.phase) + m.name + (match m.severity {
        Some(s) => field_sep() + severity_label(s),
        None => Seq::empty(),
    }) + opt_field(m.out_preview) + opt_field(m.preview)
}

/// Appends a copy of `src` to `out`.
fn push_bytes(out: &mut Vec<u8>, src: &Vec<u8>)
    ensures
        final(out)@ == old(out)@ + src@,
{
    let mut k: usize = 0;
    while k < src.len()
        invariant
            k <= src.len(),
            out@ =~= old(out)@ + src@.take(k as int),
        decreases src.len() - k,
    {
        out.push(src[k]);
        k += 1;
        proof {
            assert(out@ =~= old(out)@ + src@.take(k as int));
        }
    }
    proof {
        assert(out@ =~= old(out)@ + src@);
    }
}

/// Appends the ` | ` separator to `out`.
fn push_sep(out: &mut Vec<u8>)
    ensures
        final(out)@ == old(out)@ + field_sep(),
{
    out.push(32u8);
    out.push(124u8);
    out.push(32u8);
    proof {
        assert(out@ =~= old(out)@ + field_sep());
    }
}

/// Appends the label of `s` to `out`.
fn push_label(out: &mut Vec<u8>, s: &Severity)
    ensures
        final(out)@ == old(out)@ + severity_label(*s),
{
    match s {
        Severity::Success => {
            out.push(115u8);
            out.push(117u8);
            out.push(99u8);
            out.push(99u8);
            out.push(101u8);
            out.push(115u8);
            out.push(115u8);
        },
        Severity::RecoverableFailure => {
            out.push(98u8);
            out.push(97u8);
            out.push(99u8);
            out.push(107u8);
            out.push(116u8);
            out.push(114u8);
            out.push(97u8);
            out.push(99u8);
            out.push(107u8);
        },
        Severity::UnrecoverableFailure => {
            out.push(99u8);
            out.push(117u8);
            out.push(116u8);
        },
        Severity::Incomplete => {
            out.push(105u8);
            out.push(110u8);
            out.push(99u8);
            out.push(111u8);
            out.push(109u8);
            out.push(112u8);
            out.push(108u8);
            out.push(101u8);
            out.push(116u8);
            out.push(101u8);
        },
    }
    proof {
        assert(out@ =~= old(out)@ + severity_label(*s));
    }
}

/// Renders one trace event as one line of text.
pub fn render(ev: &TraceEvent) -> (line: Vec<u8>)
    ensures
        line@ == render_model(ev@),
{
    let mut line: Vec<u8> = Vec::new();
    let mut i: usize = 0;
    while i < ev.depth
        invariant
            i <= ev.depth,
            line@ =~= indent_of(i as nat),
        decreases ev.depth - i,
    {
        line.push(32u8);
        line.push(32u8);
        i += 1;
        proof {
            assert(line@ =~= indent_of(i as nat));
        }
    }
    match &ev.phase {
        Phase::Enter => {
            line.push(62u8);
            line.push(32u8);
        },
        Phase::Exit => {
            line.push(60u8);
            line.push(32u8);
        },
    }
    proof {
        assert(line@ =~= indent_of(ev.depth as nat) + phase_mark(ev.phase));
    }
    push_bytes(&mut line, &ev.name);
    match &ev.severity {
        Some(s) => {
            push_sep(&mut line);
            push_label(&mut line, s);
        },
        None => {},
    }
    match &ev.out_preview {
        Some(p) => {
            push_sep(&mut line);
            push_bytes(&mut line, p);
        },
        None => {},
    }
    match &ev.preview {
        Some(p) => {
            push_sep(&mut line);
            push_bytes(&mut line, p);
        },
        None => {},
    }
    proof {
        assert(line@ =~= render_model(ev@));
    }
    line
}

} // verus!
