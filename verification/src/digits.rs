//! Two small concrete parsers: a single decimal digit, and a
//! one-or-more-digits parser that delegates to a traced digit parser
//! once per matched character.  They exercise the tracers under real
//! recursion: wrapping the digits parser and running it shows one
//! enter/exit pair for the outer invocation and one pair per matched
//! digit one level deeper.

use vstd::prelude::*;

use crate::context::TraceContext;
use crate::error::ErrMode;
use crate::error::PResult;
use crate::event::lemma_empty_extension;
use crate::event::lemma_extension_trans;
use crate::parser::Parser;
use crate::parser::ParseStep;
use crate::stream::Input;
use crate::tracer::Tracer;

verus! {

/// Whether a byte is a decimal digit.
pub open spec fn is_digit(b: u8) -> bool {
    48 <= b <= 57
}

/// Decides whether a byte is a decimal digit.
pub fn is_digit_byte(b: u8) -> (r: bool)
    ensures
        r == is_digit(b),
{
    48 <= b && b <= 57
}

/// A parser that matches exactly one decimal digit at the cursor and
/// consumes it, or fails recoverably at the cursor position.
pub struct DigitParser {}

impl DigitParser {
    /// A digit parser.
    pub fn new() -> DigitParser {
        DigitParser {  }
    }
}

impl Parser for DigitParser {
    /// One digit is consumed where one stands; otherwise nothing is
    /// consumed and the failure names the cursor position.
    open spec fn spec_step(&self, data: Seq<u8>, pos: int) -> ParseStep {
        if 0 <= pos < data.len() && is_digit(data[pos]) {
            ParseStep { out: Ok(seq![data[pos]]), pos: pos + 1 }
        } else {
            ParseStep { out: Err(ErrMode::Backtrack { pos: pos as usize }), pos: pos }
        }
    }

    fn parse_next(&mut self, input: &mut Input, ctx: &mut TraceContext) -> (r: PResult) {
        proof {
            lemma_empty_extension(ctx.log@, ctx.depth() as int);
        }
        if input.pos < input.data.len() {
            let b = input.data[input.pos];
            if is_digit_byte(b) {
                input.pos = input.pos + 1;
                let mut v: Vec<u8> = Vec::new();
                v.push(b);
                proof {
                    assert(v@ =~= seq![b]);
                }
                return Ok(v);
            }
        }
        Err(ErrMode::Backtrack { pos: input.pos })
    }
}

/// The end of the run of decimal digits that starts at `pos`.
pub open spec fn digit_run_end(data: Seq<u8>, pos: int) -> int
    decreases data.len() - pos,
{
    if pos < data.len() && is_digit(data[pos]) {
        digit_run_end(data, pos + 1)
    } else {
        pos
    }
}

/// A digit run ends between its start and the end of the data.
pub proof fn lemma_run_end_bounds(data: Seq<u8>, pos: int)
    requires
        0 <= pos <= data.len(),
    ensures
        pos <= digit_run_end(data, pos) <= data.len(),
    decreases data.len() - pos,
{
    if pos < data.len() && is_digit(data[pos]) {
        lemma_run_end_bounds(data, pos + 1);
    }
}

/// A parser that matches one or more decimal digits by invoking a
/// traced single-digit parser once per matched character.  With no
/// digit at the cursor it fails recoverably at the original position.
pub struct Digits {
    pub inner: Tracer<DigitParser>,
}

impl Digits {
    /// A digits parser around the given traced digit parser.
    pub fn new(inner: Tracer<DigitParser>) -> (p: Digits)
        ensures
            p.inner == inner,
    {
        Digits { inner }
    }
}

impl Parser for Digits {
    /// The maximal digit run at the cursor is consumed and returned
    /// when it is not empty; otherwise nothing is consumed and the
    /// failure names the cursor position.
    open spec fn spec_step(&self, data: Seq<u8>, pos: int) -> ParseStep {
        if digit_run_end(data, pos) > pos {
            ParseStep {
                out: Ok(data.subrange(pos, digit_run_end(data, pos))),
                pos: digit_run_end(data, pos),
            }
        } else {
            ParseStep { out: Err(ErrMode::Backtrack { pos: pos as usize }), pos: pos }
        }
    }

    fn parse_next(&mut self, input: &mut Input, ctx: &mut TraceContext) -> (r: PResult) {
        let start = input.pos;
        let ghost l0 = ctx.log@;
        let ghost d0 = ctx.depth();
        let ghost data = input.data@;
        proof {
            lemma_run_end_bounds(data, start as int);
        }
        let mut out: Vec<u8> = Vec::new();
        while input.pos < input.data.len() && is_digit_byte(input.data[input.pos])
            invariant
                input.wf(),
                input.data@ == data,
                start <= input.pos,
                out@ == data.subrange(start as int, input.pos as int),
                digit_run_end(data, start as int) == digit_run_end(data, input.pos as int),
                self.inner == old(self).inner,
                ctx.depth() == d0,
                ctx.toggle == old(ctx).toggle,
                l0.len() <= ctx.log@.len(),
                l0 == ctx.log@.take(l0.len() as int),
                crate::event::paired(ctx.log@.skip(l0.len() as int)),
                crate::event::all_depths_at_least(ctx.log@.skip(l0.len() as int), d0 as int),
                !old(ctx).toggle.render ==> ctx.log@ == l0,
            decreases input.data@.len() - input.pos,
        {
            let ghost l_pre = ctx.log@;
            let r1 = self.inner.parse_next(input, ctx);
            proof {
                lemma_extension_trans(l0, l_pre, ctx.log@, d0 as int);
            }
            match r1 {
                Ok(mut v) => {
                    out.append(&mut v);
                    proof {
                        assert(out@ =~= data.subrange(start as int, input.pos as int));
                    }
                },
                Err(_) => {
                    proof {
                        assert(false);
                    }
                },
            }
        }
        proof {
            assert(digit_run_end(data, input.pos as int) == input.pos as int);
            lemma_empty_extension(ctx.log@, d0 as int);
        }
        if out.len() > 0 {
            Ok(out)
        } else {
            proof {
                assert(input.pos == start);
            }
            Err(ErrMode::Backtrack { pos: start })
        }
    }
}

} // verus!
