use vstd::prelude::*;

verus! {

/// A source location inside a module's text: byte offsets, 0-based, half-open.
#[derive(Clone, Copy, PartialEq, Eq, Structural, Debug)]
pub struct Span {
    pub start: usize,
    pub end: usize,
}

impl Span {
    /// A span is well formed when it does not end before it starts.
    pub open spec fn wf(self) -> bool {
        self.start <= self.end
    }

    /// Two half-open ranges that share no byte.
    pub open spec fn disjoint(self, other: Span) -> bool {
        self.end <= other.start || other.end <= self.start
    }

    pub fn new(start: usize, end: usize) -> (s: Span)
        requires
            start <= end,
        ensures
            s == (Span { start, end }),
    {
        Span { start, end }
    }
}

} // verus!
