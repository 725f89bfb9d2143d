//! The input stream the wrapped parsers consume: a byte buffer with a
//! cursor, and the bounded preview of the remaining input that trace
//! lines show.

use vstd::prelude::*;

verus! {

/// How many bytes of the remaining input a preview shows at most.
pub const PREVIEW_MAX: usize = 16;

/// A byte input with a cursor.  Parsers consume input by advancing the
/// cursor; the buffer itself is never mutated.
#[derive(Debug)]
pub struct Input {
    pub data: Vec<u8>,
    pub pos: usize,
}

impl Input {
    /// The cursor never leaves the buffer.
    pub open spec fn wf(&self) -> bool {
        self.pos <= self.data@.len()
    }

    /// The remaining input: everything at and after the cursor.
    pub open spec fn rest(&self) -> Seq<u8> {
        self.data@.skip(self.pos as int)
    }

    /// A fresh input with the cursor at the start.
    pub fn new(data: Vec<u8>) -> (i: Input)
        ensures
            i.wf(),
            i.data@ == data@,
            i.pos == 0,
    {
        Input { data, pos: 0 }
    }

    /// How many bytes remain.
    pub fn remaining(&self) -> (n: usize)
        requires
            self.wf(),
        ensures
            n == self.rest().len(),
    {
        self.data.len() - self.pos
    }

    /// A bounded, display-safe preview of the remaining input.
    pub fn preview(&self) -> (p: Vec<u8>)
        requires
            self.wf(),
        ensures
            p@ == preview_of(self.rest()),
    {
        let len = self.data.len() - self.pos;
        let take: usize = if len < PREVIEW_MAX {
            len
        } else {
            PREVIEW_MAX
        };
        let mut p: Vec<u8> = Vec::new();
        let mut k: usize = 0;
        while k < take
            invariant
                self.wf(),
                k <= take,
                take <= len,
                self.pos + len == self.data.len(),
                take == preview_len(self.rest()),
                take <= self.rest().len(),
                p@ =~= preview_of(self.rest()).take(k as int),
            decreases take - k,
        {
            p.push(mask_byte(self.data[self.pos + k]));
            k += 1;
            proof {
                assert(self.rest()[k - 1] == self.data@[self.pos + k - 1]);
                assert(p@ =~= preview_of(self.rest()).take(k as int));
            }
        }
        proof {
            assert(p@ =~= preview_of(self.rest()));
        }
        p
    }
}

/// Whether a byte is shown verbatim in a preview.
pub open spec fn spec_printable(b: u8) -> bool {
    32 <= b <= 126
}

/// The displayed form of one byte: printable bytes stand for themselves,
/// everything else is masked as a dot.
pub open spec fn spec_mask_byte(b: u8) -> u8 {
    if spec_printable(b) {
        b
    } else {
        46u8
    }
}

/// How many bytes of a remaining input the preview shows.
pub open spec fn preview_len(s: Seq<u8>) -> int {
    if s.len() < PREVIEW_MAX {
        s.len() as int
    } else {
        PREVIEW_MAX as int
    }
}

/// The preview of a remaining input: its first bytes, bounded in number,
/// each masked to a printable byte.
pub open spec fn preview_of(s: Seq<u8>) -> Seq<u8> {
    s.take(preview_len(s)).map_values(|b: u8| spec_mask_byte(b))
}

/// A bounded, display-safe preview of a byte string, such as a produced
/// value.
pub fn preview_bytes(v: &Vec<u8>) -> (p: Vec<u8>)
    ensures
        p@ == preview_of(v@),
{
    let len = v.len();
    let take: usize = if len < PREVIEW_MAX {
        len
    } else {
        PREVIEW_MAX
    };
    let mut p: Vec<u8> = Vec::new();
    let mut k: usize = 0;
    while k < take
        invariant
            k <= take,
            take <= v.len(),
            take == preview_len(v@),
            p@ =~= preview_of(v@).take(k as int),
        decreases take - k,
    {
        p.push(mask_byte(v[k]));
        k += 1;
        proof {
            assert(p@ =~= preview_of(v@).take(k as int));
        }
    }
    proof {
        assert(p@ =~= preview_of(v@));
    }
    p
}

/// A copy of a byte string, byte for byte.
pub fn copy_bytes(v: &Vec<u8>) -> (r: Vec<u8>)
    ensures
        r@ == v@,
{
    let r = v.clone();
    proof {
        assert(r@ =~= v@);
    }
    r
}

/// Masks one byte for display.
pub fn mask_byte(b: u8) -> (r: u8)
    ensures
        r == spec_mask_byte(b),
{
    if 32 <= b && b <= 126 {
        b
    } else {
        46u8
    }
}

} // verus!
