//! Byte spans into WGSL source text and the line/column positions they
//! denote.
//!
//! A span counts bytes of the UTF-8 encoding of the source; specifications
//! therefore speak of `source.spec_bytes()`.

use vstd::prelude::*;
use vstd::utf8::*;
use vstd::string::*;

verus! {

broadcast use vstd::utf8::group_utf8_lib;

/// A byte range `start..end` in a source text. The span `0..0` stands for
/// "no position".
#[derive(Clone, Copy, Debug, PartialEq, Eq, Structural)]
pub struct Span {
    pub start: u32,
    pub end: u32,
}

/// A position in a source text: 1-based line number, 1-based byte position
/// within the line, byte offset and byte length.
#[derive(Clone, Copy, Debug, PartialEq, Eq, Structural)]
pub struct SourceLocation {
    pub line_number: u32,
    pub line_position: u32,
    pub offset: u32,
    pub length: u32,
}

/// Number of newline bytes in `b`.
pub open spec fn newline_count(b: Seq<u8>) -> nat
    decreases b.len(),
{
    if b.len() == 0 {
        0
    } else {
        newline_count(b.drop_last()) + if b.last() == 10u8 { 1nat } else { 0nat }
    }
}

/// Byte index just after the last newline in `b`, or 0 when `b` has none.
pub open spec fn line_start(b: Seq<u8>) -> nat
    decreases b.len(),
{
    if b.len() == 0 {
        0
    } else if b.last() == 10u8 {
        b.len()
    } else {
        line_start(b.drop_last())
    }
}

/// `span` can be cut out of the source bytes `src`: it is ordered and both
/// ends fall on character boundaries within `src`.
pub open spec fn sliceable(src: Seq<u8>, span: Span) -> bool {
    &&& span.start <= span.end
    &&& is_char_boundary(src, span.start as int)
    &&& is_char_boundary(src, span.end as int)
}

/// The text that `span` covers in the source bytes `src`.
pub open spec fn source_text(src: Seq<u8>, span: Span) -> Seq<char> {
    decode_utf8(src.subrange(span.start as int, span.end as int))
}

/// The location of `span` in `src` cannot be computed without a `u32`
/// overflow exactly when this fails.
pub open spec fn location_fits(src: Seq<u8>, span: Span) -> bool {
    let prefix = src.subrange(0, span.start as int);
    &&& newline_count(prefix) < u32::MAX
    &&& span.start - line_start(prefix) < u32::MAX
}

impl Span {
    /// The span `start..end`.
    pub fn new(start: u32, end: u32) -> (s: Span)
        ensures
            s == (Span { start, end }),
    {
        Span { start, end }
    }

    /// Whether the span is different from the "no position" span `0..0`.
    pub open spec fn spec_is_defined(&self) -> bool {
        !(self.start == 0 && self.end == 0)
    }

    #[verifier::when_used_as_spec(spec_is_defined)]
    pub fn is_defined(&self) -> (b: bool)
        ensures
            b == self.spec_is_defined(),
    {
        !(self.start == 0 && self.end == 0)
    }

    /// The byte range of a defined span; `None` for the "no position" span.
    pub fn to_range(self) -> (r: Option<core::ops::Range<usize>>)
        ensures
            self.spec_is_defined() ==> r == Some(core::ops::Range { start: self.start as usize, end: self.end as usize }),
            !self.spec_is_defined() ==> r is None,
    {
        if self.is_defined() {
            Some(core::ops::Range { start: self.start as usize, end: self.end as usize })
        } else {
            None
        }
    }

    /// The location of the span in source bytes `src`.
    pub open spec fn spec_location(self, src: Seq<u8>) -> SourceLocation {
        let prefix = src.subrange(0, self.start as int);
        SourceLocation {
            line_number: (newline_count(prefix) + 1) as u32,
            line_position: (self.start - line_start(prefix) + 1) as u32,
            offset: self.start,
            length: (self.end - self.start) as u32,
        }
    }

    /// The line and position at which the span starts in `source`, with the
    /// span's offset and length.
    pub fn location(&self, source: &str) -> (loc: SourceLocation)
        requires
            self.start <= self.end,
            is_char_boundary(source.spec_bytes(), self.start as int),
            location_fits(source.spec_bytes(), *self),
        ensures
            loc == self.spec_location(source.spec_bytes()),
    {
        let bytes = source.as_bytes();
        let ghost src = source.spec_bytes();
        let start = self.start as usize;
        let mut count: u32 = 0;
        let mut after_newline: usize = 0;
        let mut i: usize = 0;
        while i < start
            invariant
                bytes@ == src,
                start == self.start,
                start <= src.len(),
                i <= start,
                location_fits(src, *self),
                count == newline_count(src.subrange(0, i as int)),
                after_newline == line_start(src.subrange(0, i as int)),
            decreases start - i,
        {
            proof {
                let p = src.subrange(0, i as int);
                let q = src.subrange(0, i + 1);
                assert(q.drop_last() =~= p);
                lemma_newline_count_prefix(src, i as int + 1, start as int);
                lemma_line_start_bound(q);
            }
            if bytes[i] == 10u8 {
                count = count + 1;
                after_newline = i + 1;
            }
            i = i + 1;
        }
        proof {
            assert(src.subrange(0, i as int) =~= src.subrange(0, self.start as int));
            lemma_line_start_bound(src.subrange(0, i as int));
        }
        SourceLocation {
            line_number: count + 1,
            line_position: self.start - after_newline as u32 + 1,
            offset: self.start,
            length: self.end - self.start,
        }
    }
}

/// Counting newlines over a longer prefix never gives fewer.
pub(crate) proof fn lemma_newline_count_prefix(src: Seq<u8>, i: int, j: int)
    requires
        0 <= i <= j <= src.len(),
    ensures
        newline_count(src.subrange(0, i)) <= newline_count(src.subrange(0, j)),
    decreases j - i,
{
    if i < j {
        assert(src.subrange(0, j).drop_last() =~= src.subrange(0, j - 1));
        lemma_newline_count_prefix(src, i, j - 1);
    }
}

/// The start of the last line lies within the bytes.
pub(crate) proof fn lemma_line_start_bound(b: Seq<u8>)
    ensures
        line_start(b) <= b.len(),
    decreases b.len(),
{
    if b.len() > 0 {
        lemma_line_start_bound(b.drop_last());
    }
}

/// The text that `span` covers in `source` (what `&source[span]` yields).
pub fn source_slice<'s>(source: &'s str, span: Span) -> (r: &'s str)
    requires
        sliceable(source.spec_bytes(), span),
    ensures
        r@ == source_text(source.spec_bytes(), span),
        r.spec_bytes() == source.spec_bytes().subrange(span.start as int, span.end as int),
{
    let ghost src = source.spec_bytes();
    proof {
        encode_utf8_valid_utf8(source@);
    }
    let (left, _right) = source.split_at(span.end as usize);
    proof {
        let l = left.spec_bytes();
        assert(l =~= src.subrange(0, span.end as int));
        valid_utf8_split(src, span.end as int);
        is_char_boundary_start_end_of_seq(l);
        if 0 < span.start < span.end {
            is_char_boundary_iff_not_is_continuation_byte(src, span.start as int);
            is_char_boundary_iff_not_is_continuation_byte(l, span.start as int);
        }
    }
    let (_head, mid) = left.split_at(span.start as usize);
    proof {
        assert(mid.spec_bytes() =~= src.subrange(span.start as int, span.end as int));
        encode_utf8_decode_utf8(mid@);
    }
    mid
}

} // verus!
