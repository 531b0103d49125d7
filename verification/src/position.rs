use vstd::prelude::*;

verus! {

/// A source range: a line range `[ln_start, ln_end)` paired with a column
/// range `[col_start, col_end)`. Every token and every composite node of the
/// grammar carries one for diagnostics.
#[derive(Clone, Copy, PartialEq, Eq, Structural, Debug)]
pub struct Position {
    pub ln_start: usize,
    pub ln_end: usize,
    pub col_start: usize,
    pub col_end: usize,
}

/// The minimal covering span of two spans: elementwise minimum of the range
/// starts and maximum of the range ends.
pub open spec fn spec_extend(a: Position, b: Position) -> Position {
    Position {
        ln_start: if a.ln_start <= b.ln_start {
            a.ln_start
        } else {
            b.ln_start
        },
        ln_end: if a.ln_end >= b.ln_end {
            a.ln_end
        } else {
            b.ln_end
        },
        col_start: if a.col_start <= b.col_start {
            a.col_start
        } else {
            b.col_start
        },
        col_end: if a.col_end >= b.col_end {
            a.col_end
        } else {
            b.col_end
        },
    }
}

/// `a` covers `b`: every line and column of `b` lies within `a`.
pub open spec fn spec_covers(a: Position, b: Position) -> bool {
    &&& a.ln_start <= b.ln_start
    &&& a.ln_end >= b.ln_end
    &&& a.col_start <= b.col_start
    &&& a.col_end >= b.col_end
}

impl Position {
    pub fn new(ln_start: usize, ln_end: usize, col_start: usize, col_end: usize) -> (r: Position)
        ensures
            r == (Position { ln_start, ln_end, col_start, col_end }),
    {
        Position { ln_start, ln_end, col_start, col_end }
    }

    /// The zero span, the starting point for accumulating a program's span.
    pub fn start() -> (r: Position)
        ensures
            r == (Position { ln_start: 0, ln_end: 0, col_start: 0, col_end: 0 }),
    {
        Position { ln_start: 0, ln_end: 0, col_start: 0, col_end: 0 }
    }

    /// Grow this span to the minimal span covering both itself and `other`.
    pub fn extend(&mut self, other: &Position)
        ensures
            *final(self) == spec_extend(*old(self), *other),
    {
        if other.ln_start < self.ln_start {
            self.ln_start = other.ln_start;
        }
        if other.ln_end > self.ln_end {
            self.ln_end = other.ln_end;
        }
        if other.col_start < self.col_start {
            self.col_start = other.col_start;
        }
        if other.col_end > self.col_end {
            self.col_end = other.col_end;
        }
    }
}

/// Merging spans is commutative: the union of two adjacent spans is
/// independent of the order in which they are extended.
pub proof fn lemma_extend_commutative(a: Position, b: Position)
    ensures
        spec_extend(a, b) == spec_extend(b, a),
{
}

/// Merging spans is associative.
pub proof fn lemma_extend_associative(a: Position, b: Position, c: Position)
    ensures
        spec_extend(spec_extend(a, b), c) == spec_extend(a, spec_extend(b, c)),
{
}

/// Merging spans is monotonic: the union covers both of its parts, and spans
/// never shrink under extension.
pub proof fn lemma_extend_monotonic(a: Position, b: Position)
    ensures
        spec_covers(spec_extend(a, b), a),
        spec_covers(spec_extend(a, b), b),
{
}

/// A value decorated with the source range it came from.
#[derive(Clone, Debug, PartialEq)]
pub struct Located<T> {
    pub item: T,
    pub pos: Position,
}

impl<T> Located<T> {
    pub fn new(item: T, pos: Position) -> (r: Located<T>)
        ensures
            r == (Located { item, pos }),
    {
        Located { item, pos }
    }
}

} // verus!
