use vstd::prelude::*;

verus! {

/// A half-open byte range `start..end` into a source text.
#[derive(Clone, Copy, Debug, Default, PartialEq, Eq, Structural, PartialOrd, Ord, Hash)]
pub struct Span {
    pub start: u32,
    pub end: u32,
}

impl Span {
    /// The span `start..end`.
    pub fn new(start: u32, end: u32) -> (span: Span)
        ensures
            span.start == start,
            span.end == end,
    {
        Span { start, end }
    }

    /// The empty span at offset zero, used for nodes that were not parsed
    /// from any source text.
    pub fn empty() -> (span: Span)
        ensures
            span == Span::zero(),
    {
        Span::new(0, 0)
    }

    /// The span `0..0`.
    pub open spec fn zero() -> Span {
        Span { start: 0, end: 0 }
    }
}

} // verus!
