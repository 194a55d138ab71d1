//! Source spans: half-open byte ranges into the original source text.

use vstd::prelude::*;

verus! {

/// A half-open byte-offset range `[start, end)` into the source text.
/// Every token and every syntax-tree node carries one, for diagnostics.
#[derive(Debug, Clone, Copy, PartialEq, Eq, Structural)]
pub struct Span {
    pub start: usize,
    pub end: usize,
}

impl Span {
    pub fn new(start: usize, end: usize) -> (s: Span)
        ensures
            s == (Span { start, end }),
    {
        Span { start, end }
    }
}

impl View for Span {
    type V = Span;

    open spec fn view(&self) -> Span {
        *self
    }
}

impl DeepView for Span {
    type V = Span;

    open spec fn deep_view(&self) -> Span {
        *self
    }
}

} // verus!
