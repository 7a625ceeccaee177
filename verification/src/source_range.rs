//! Byte ranges into the markdown source, and how the ranges of nested
//! constructs are merged while the tree is built.

use vstd::prelude::*;

verus! {

/// A half-open byte range `[start, end)` into the markdown source text.
///
/// Every event of the tokenizer carries one, and every rendered construct
/// keeps the merged range of everything that produced it, so that a click on
/// the rendered output can be mapped back to the source span.
#[derive(Clone, Copy, Debug, PartialEq, Eq, Structural)]
pub struct SourceRange {
    pub start: usize,
    pub end: usize,
}

impl SourceRange {
    /// Extending a construct's accumulated range by a child's range keeps the
    /// construct's own start and takes the larger of the two ends.
    pub open spec fn spec_merge(self, other: SourceRange) -> SourceRange {
        SourceRange {
            start: self.start,
            end: if other.end > self.end {
                other.end
            } else {
                self.end
            },
        }
    }

    pub fn new(start: usize, end: usize) -> (r: SourceRange)
        ensures
            r == (SourceRange { start, end }),
    {
        SourceRange { start, end }
    }

    /// Extends this range by `other`, as [`Self::spec_merge`] says.
    pub fn merge(self, other: SourceRange) -> (r: SourceRange)
        ensures
            r == self.spec_merge(other),
    {
        SourceRange {
            start: self.start,
            end: if other.end > self.end {
                other.end
            } else {
                self.end
            },
        }
    }
}

/// The range a structural construct ends up with: its Start event's range,
/// extended in order by the range of each closed child, and finally by the
/// End event's range.
pub open spec fn merged_range(
    start: SourceRange,
    children: Seq<SourceRange>,
    end: SourceRange,
) -> SourceRange
    decreases children.len(),
{
    if children.len() == 0 {
        start.spec_merge(end)
    } else {
        merged_range(start.spec_merge(children[0]), children.drop_first(), end)
    }
}

/// The largest end among `ranges`, seeded with `seed`.
pub open spec fn max_end(ranges: Seq<SourceRange>, seed: usize) -> usize
    decreases ranges.len(),
{
    if ranges.len() == 0 {
        seed
    } else {
        max_end(
            ranges.drop_first(),
            if ranges[0].end > seed {
                ranges[0].end
            } else {
                seed
            },
        )
    }
}

pub open spec fn max2(a: usize, b: usize) -> usize {
    if a > b {
        a
    } else {
        b
    }
}

proof fn lemma_merged_range_general(start: SourceRange, children: Seq<SourceRange>, end: SourceRange)
    ensures
        merged_range(start, children, end).start == start.start,
        merged_range(start, children, end).end == max_end(children, max2(start.end, end.end)),
    decreases children.len(),
{
    if children.len() == 0 {
    } else {
        lemma_merged_range_general(start.spec_merge(children[0]), children.drop_first(), end);
        assert(max2(max2(start.end, children[0].end), end.end) == max2(
            max2(start.end, end.end),
            children[0].end,
        ));
    }
}

/// Law: a structural construct's final merged range always starts exactly
/// where its Start event's range started, however many children closed inside
/// it.
pub proof fn lemma_merged_range_start(start: SourceRange, children: Seq<SourceRange>, end: SourceRange)
    ensures
        merged_range(start, children, end).start == start.start,
{
    lemma_merged_range_general(start, children, end);
}

/// Law: when the End event's range reaches at least as far as the Start
/// event's range, the construct's final merged range ends at the largest end
/// among the End event's range and all the closed children's ranges.
pub proof fn lemma_merged_range_end(start: SourceRange, children: Seq<SourceRange>, end: SourceRange)
    requires
        start.end <= end.end,
    ensures
        merged_range(start, children, end).end == max_end(children, end.end),
{
    lemma_merged_range_general(start, children, end);
}

} // verus!
