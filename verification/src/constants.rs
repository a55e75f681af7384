//! Source spans and the scalar value type of constant declarations.

use vstd::prelude::*;

verus! {

/// A source-location range: byte offset of the first character and length.
/// Attached to every token and every AST node for diagnostics.
#[derive(Debug, Clone, Copy, PartialEq, Eq, Structural, Hash)]
pub struct Span {
    pub start: usize,
    pub len: usize,
}

impl View for Span {
    type V = Span;

    open spec fn view(&self) -> Span {
        *self
    }
}

impl DeepView for Span {
    type V = Span;

    open spec fn deep_view(&self) -> Span {
        *self
    }
}

/// The end offset of a span, as unbounded arithmetic.
pub open spec fn span_end(s: Span) -> int {
    s.start + s.len
}

/// The end offset of a span, clamped to what a `usize` can address.
/// Spans produced by a lexer always lie inside the source text, so the
/// clamp never binds in practice; it makes span merging total.
pub open spec fn span_end_clamped(s: Span) -> int {
    if span_end(s) <= usize::MAX {
        span_end(s)
    } else {
        usize::MAX as int
    }
}

/// The union of two spans: the smallest range covering both.
pub open spec fn spec_merge(a: Span, b: Span) -> Span {
    let start = if a.start <= b.start {
        a.start
    } else {
        b.start
    };
    let end = if span_end_clamped(a) >= span_end_clamped(b) {
        span_end_clamped(a)
    } else {
        span_end_clamped(b)
    };
    Span { start, len: (end - start) as usize }
}

impl Span {
    pub open spec fn spec_new(start: usize, len: usize) -> Span {
        Span { start, len }
    }

    pub fn new(start: usize, len: usize) -> (s: Span)
        ensures
            s == Span::spec_new(start, len),
    {
        Span { start, len }
    }

    /// Merge two adjacent or overlapping ranges by taking their union.
    pub fn merge_with(self, other: Span) -> (s: Span)
        ensures
            s == spec_merge(self, other),
    {
        let self_end: usize = match self.start.checked_add(self.len) {
            Some(e) => e,
            None => usize::MAX,
        };
        let other_end: usize = match other.start.checked_add(other.len) {
            Some(e) => e,
            None => usize::MAX,
        };
        let start: usize = if self.start <= other.start {
            self.start
        } else {
            other.start
        };
        let end: usize = if self_end >= other_end {
            self_end
        } else {
            other_end
        };
        Span { start, len: end - start }
    }
}

/// The primitive scalar element of the target arithmetic system.  A
/// constant declaration's value must be a literal that fits this type.
#[derive(Debug, Clone, Copy, PartialEq, Eq, Structural)]
pub struct Field {
    pub value: u128,
}

} // verus!
