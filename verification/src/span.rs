use vstd::prelude::*;

verus! {

/// A range of positions in a source file.
#[derive(Clone, Copy, Debug, PartialEq, Eq, Structural, Hash)]
pub struct Span {
    pub line_start: usize,
    pub line_stop: usize,
    pub col_start: usize,
    pub col_stop: usize,
}

impl Span {
    /// The span that starts and stops at the given line and column range.
    pub fn new(line_start: usize, line_stop: usize, col_start: usize, col_stop: usize) -> (r: Span)
        ensures
            r == (Span { line_start, line_stop, col_start, col_stop }),
    {
        Span { line_start, line_stop, col_start, col_stop }
    }
}

} // verus!
