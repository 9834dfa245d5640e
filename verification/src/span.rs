//! Source positions.

use vstd::prelude::*;

verus! {

/// A contiguous range of the source text, with the line it begins on.
///
/// `line_start` is the offset of the first character of that line, so that
/// `start - line_start` is the column of the range's first character.
#[derive(Debug, PartialEq, Eq, Clone, Copy, Structural)]
pub struct Span {
    pub line: usize,
    pub line_start: usize,
    pub start: usize,
    pub end: usize,
}

pub open spec fn min_of(a: int, b: int) -> int {
    if a <= b { a } else { b }
}

pub open spec fn max_of(a: int, b: int) -> int {
    if a >= b { a } else { b }
}

impl Span {
    pub fn new(line: usize, line_start: usize, start: usize, end: usize) -> (s: Self)
        ensures
            s == (Span { line, line_start, start, end }),
    {
        Self { line, line_start, start, end }
    }

    /// The range `[start, end)` covers offset `i`.
    pub open spec fn covers(&self, i: int) -> bool {
        self.start <= i < self.end
    }

    /// The column of the first character, counted from the start of its line.
    pub open spec fn column(&self) -> int {
        if self.start >= self.line_start { self.start - self.line_start } else { 0 }
    }

    /// The smallest span that covers both `self` and `other`; it keeps the
    /// line of `self`.
    pub fn merge(&self, other: &Span) -> (s: Self)
        ensures
            s.line == self.line,
            s.line_start == min_of(self.line_start as int, other.line_start as int),
            s.start == min_of(self.start as int, other.start as int),
            s.end == max_of(self.end as int, other.end as int),
    {
        Self {
            line: self.line,
            line_start: if self.line_start <= other.line_start { self.line_start } else { other.line_start },
            start: if self.start <= other.start { self.start } else { other.start },
            end: if self.end >= other.end { self.end } else { other.end },
        }
    }
}

/// Every offset covered by either argument is covered by their merge, and
/// the merge reaches no further than the two together.
pub proof fn merge_is_smallest_cover(a: Span, b: Span, m: Span)
    requires
        m.start == min_of(a.start as int, b.start as int),
        m.end == max_of(a.end as int, b.end as int),
    ensures
        forall|i: int| a.covers(i) || b.covers(i) ==> m.covers(i),
        m.start == a.start || m.start == b.start,
        m.end == a.end || m.end == b.end,
{
}

} // verus!
