//! Source ranges attached to tokens, syntax-tree nodes and instructions for
//! diagnostics.

use vstd::prelude::*;

verus! {

/// A range of source text, as byte offsets of its first and one-past-last
/// character. Spans are plain values, copied freely.
#[derive(Debug, Clone, Copy, PartialEq, Eq, Structural)]
pub struct Span {
    /// Offset of the first character covered by the span.
    pub start: usize,
    /// Offset one past the last character covered by the span.
    pub end: usize,
}

/// The smallest span covering both `a` and `b`.
pub open spec fn spec_join(a: Span, b: Span) -> Span {
    Span {
        start: if a.start <= b.start {
            a.start
        } else {
            b.start
        },
        end: if a.end >= b.end {
            a.end
        } else {
            b.end
        },
    }
}

impl Span {
    /// Construct a span from its two offsets.
    pub fn new(start: usize, end: usize) -> (r: Span)
        ensures
            r == (Span { start, end }),
    {
        Span { start, end }
    }

    /// The smallest span covering both `self` and `other`.
    pub fn join(self, other: Span) -> (r: Span)
        ensures
            r == spec_join(self, other),
    {
        Span {
            start: if self.start <= other.start {
                self.start
            } else {
                other.start
            },
            end: if self.end >= other.end {
                self.end
            } else {
                other.end
            },
        }
    }
}

/// Joining a span with itself gives the span back.
pub proof fn lemma_join_self(a: Span)
    ensures
        spec_join(a, a) == a,
{
}

/// Joining is commutative: the cover of two spans does not depend on their
/// order.
pub proof fn lemma_join_commutative(a: Span, b: Span)
    ensures
        spec_join(a, b) == spec_join(b, a),
{
}

/// Joining is associative: covering `a` and `b` and then `c` equals covering
/// `a` with the cover of `b` and `c`.
pub proof fn lemma_join_associative(a: Span, b: Span, c: Span)
    ensures
        spec_join(spec_join(a, b), c) == spec_join(a, spec_join(b, c)),
{
}

} // verus!
