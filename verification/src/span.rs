//! Places in the text of a program.

use vstd::prelude::*;

verus! {

/// A region of the source buffer: a byte offset and a length.
#[derive(Clone, Copy, Debug, PartialEq, Eq, Structural)]
pub struct Span {
    pub offset: usize,
    pub length: usize,
}

impl Span {
    /// The span that starts where `start` starts and ends where `end` ends.
    pub fn from_to(start: Span, end: Span) -> (r: Span)
        requires
            start.offset <= end.offset,
            end.offset - start.offset + end.length <= usize::MAX,
        ensures
            r.offset == start.offset,
            r.length == end.offset - start.offset + end.length,
    {
        Span { offset: start.offset, length: end.offset - start.offset + end.length }
    }
}

} // verus!
