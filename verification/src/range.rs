//! The range of blocks for which an entity version is valid.

use vstd::prelude::*;
use vstd::std_specs::convert::FromSpecImpl;
use std::ops::Bound;
use std::ops::RangeFrom;
use crate::number::{BlockNumber, BLOCK_NUMBER_MAX};

verus! {

#[verifier::external_type_specification]
#[verifier::reject_recursive_types(T)]
pub struct ExBound<T>(Bound<T>);

#[verifier::external_type_specification]
#[verifier::reject_recursive_types(Idx)]
pub struct ExRangeFrom<Idx>(RangeFrom<Idx>);

/// The range of blocks for which an entity is valid: a lower and an upper
/// bound, each included, excluded or absent. Every combination can be
/// written down, also one whose lower bound is above its upper bound; to
/// avoid those is up to the caller (see `is_ordered`).
#[derive(Clone, Copy, Debug)]
pub struct BlockRange(pub Bound<BlockNumber>, pub Bound<BlockNumber>);

/// The bound with the number it refers to copied out.
pub open spec fn cloned(bound: Bound<&BlockNumber>) -> Bound<BlockNumber> {
    match bound {
        Bound::Included(nr) => Bound::Included(*nr),
        Bound::Excluded(nr) => Bound::Excluded(*nr),
        Bound::Unbounded => Bound::Unbounded,
    }
}

/// Whether `block` is on the inner side of `bound`, taken as a lower bound.
pub open spec fn above_lower(bound: Bound<BlockNumber>, block: int) -> bool {
    match bound {
        Bound::Included(nr) => nr <= block,
        Bound::Excluded(nr) => nr < block,
        Bound::Unbounded => true,
    }
}

/// Whether `block` is on the inner side of `bound`, taken as an upper bound.
pub open spec fn below_upper(bound: Bound<BlockNumber>, block: int) -> bool {
    match bound {
        Bound::Included(nr) => block <= nr,
        Bound::Excluded(nr) => block < nr,
        Bound::Unbounded => true,
    }
}

/// The number that a bound names, if it names one.
pub open spec fn bound_number(bound: Bound<BlockNumber>) -> Option<BlockNumber> {
    match bound {
        Bound::Included(nr) => Some(nr),
        Bound::Excluded(nr) => Some(nr),
        Bound::Unbounded => None,
    }
}

/// Copies a bound that borrows its number into one that owns it.
pub fn clone_bound(bound: Bound<&BlockNumber>) -> (r: Bound<BlockNumber>)
    ensures
        r == cloned(bound),
{
    match bound {
        Bound::Included(nr) => Bound::Included(*nr),
        Bound::Excluded(nr) => Bound::Excluded(*nr),
        Bound::Unbounded => Bound::Unbounded,
    }
}

/// `RangeBounds::start_bound` of a `RangeFrom`: the range's start, included.
#[verifier::external_body]
fn start_bound(range: &RangeFrom<BlockNumber>) -> (bound: Bound<&BlockNumber>)
    ensures
        bound == Bound::Included(&range.start),
{
    std::ops::RangeBounds::start_bound(range)
}

/// `RangeBounds::end_bound` of a `RangeFrom`: such a range has no end.
#[verifier::external_body]
fn end_bound(range: &RangeFrom<BlockNumber>) -> (bound: Bound<&BlockNumber>)
    ensures
        bound == Bound::<&BlockNumber>::Unbounded,
{
    std::ops::RangeBounds::end_bound(range)
}

impl View for BlockRange {
    type V = (Bound<BlockNumber>, Bound<BlockNumber>);

    /// The lower and the upper bound.
    open spec fn view(&self) -> Self::V {
        (self.0, self.1)
    }
}

impl BlockRange {
    /// The range with the given bounds.
    pub fn new(lower: Bound<BlockNumber>, upper: Bound<BlockNumber>) -> (range: BlockRange)
        ensures
            range@ == (lower, upper),
    {
        BlockRange(lower, upper)
    }

    /// The lower bound.
    pub fn lower(&self) -> (bound: Bound<BlockNumber>)
        ensures
            bound == self@.0,
    {
        self.0
    }

    /// The upper bound.
    pub fn upper(&self) -> (bound: Bound<BlockNumber>)
        ensures
            bound == self@.1,
    {
        self.1
    }

    /// Whether `block` lies in the range: what `block_range @> block`
    /// says of a stored range.
    pub open spec fn spec_contains(self, block: int) -> bool {
        above_lower(self@.0, block) && below_upper(self@.1, block)
    }

    /// The least block that is not below the range, where the range has a
    /// lower bound.
    pub open spec fn first_block(self) -> Option<int> {
        match self@.0 {
            Bound::Included(nr) => Some(nr as int),
            Bound::Excluded(nr) => Some(nr + 1),
            Bound::Unbounded => None,
        }
    }

    /// The least block that is above the range, where the range has an
    /// upper bound.
    pub open spec fn end_block(self) -> Option<int> {
        match self@.1 {
            Bound::Included(nr) => Some(nr + 1),
            Bound::Excluded(nr) => Some(nr as int),
            Bound::Unbounded => None,
        }
    }

    /// Whether no block lies in the range.
    pub open spec fn spec_is_empty(self) -> bool {
        match (self.first_block(), self.end_block()) {
            (Some(first), Some(end)) => first >= end,
            _ => false,
        }
    }

    /// Whether the lower bound is not above the upper bound, where the
    /// range has both.
    pub open spec fn spec_is_ordered(self) -> bool {
        match (bound_number(self@.0), bound_number(self@.1)) {
            (Some(lower), Some(upper)) => lower <= upper,
            _ => true,
        }
    }

    /// Whether the lower bound is not above the upper bound, where the
    /// range has both. Nothing in this type keeps a range so; the ranges
    /// that get stored are.
    pub fn is_ordered(&self) -> (r: bool)
        ensures
            r == self.spec_is_ordered(),
    {
        match (self.0, self.1) {
            (Bound::Included(lower), Bound::Included(upper)) => lower <= upper,
            (Bound::Included(lower), Bound::Excluded(upper)) => lower <= upper,
            (Bound::Excluded(lower), Bound::Included(upper)) => lower <= upper,
            (Bound::Excluded(lower), Bound::Excluded(upper)) => lower <= upper,
            _ => true,
        }
    }

    /// Whether no block lies in the range.
    pub fn is_empty(&self) -> (r: bool)
        ensures
            r == self.spec_is_empty(),
            r == forall|block: int| !self.spec_contains(block),
    {
        let r = match (self.0, self.1) {
            (Bound::Included(lower), Bound::Included(upper)) => lower > upper,
            (Bound::Included(lower), Bound::Excluded(upper)) => lower >= upper,
            (Bound::Excluded(lower), Bound::Included(upper)) => lower >= upper,
            (Bound::Excluded(lower), Bound::Excluded(upper)) => lower >= upper || lower + 1 == upper,
            _ => false,
        };
        proof {
            self.lemma_empty_contains_nothing();
        }
        r
    }

    /// A range is empty exactly if no block lies in it.
    pub proof fn lemma_empty_contains_nothing(self)
        ensures
            self.spec_is_empty() == forall|block: int| !self.spec_contains(block),
    {
        if !self.spec_is_empty() {
            let witness = match (self.first_block(), self.end_block()) {
                (Some(first), _) => first,
                (None, Some(end)) => end - 1,
                (None, None) => 0,
            };
            assert(self.spec_contains(witness));
        }
    }

    /// What `coalesce(upper(block_range), 2147483647) > block and
    /// lower(block_range) <= block` says of the range, as PostgreSQL
    /// stores it: a range of integers is kept with its lower bound
    /// included and its upper bound excluded; `lower` and `upper` are null
    /// for a missing bound and for an empty range, and a comparison with
    /// null does not hold.
    pub open spec fn spec_brin_contains(self, block: int) -> bool {
        let upper = match self.end_block() {
            Some(end) if !self.spec_is_empty() => end,
            _ => BLOCK_NUMBER_MAX as int,
        };
        let lower_holds = match self.first_block() {
            Some(first) if !self.spec_is_empty() => first <= block,
            _ => false,
        };
        upper > block && lower_holds
    }

    /// Whether the two comparisons on the bounds, by which a BRIN index
    /// finds a range, hold for `block`.
    pub fn brin_contains(&self, block: BlockNumber) -> (r: bool)
        ensures
            r == self.spec_brin_contains(block as int),
    {
        if self.is_empty() {
            return false;
        }
        let below_upper = match self.1 {
            Bound::Included(nr) => block <= nr,
            Bound::Excluded(nr) => block < nr,
            Bound::Unbounded => block < BLOCK_NUMBER_MAX,
        };
        let above_lower = match self.0 {
            Bound::Included(nr) => nr <= block,
            Bound::Excluded(nr) => nr < block,
            Bound::Unbounded => false,
        };
        below_upper && above_lower
    }

    /// Whether `block` lies in the range.
    pub fn contains(&self, block: BlockNumber) -> (r: bool)
        ensures
            r == self.spec_contains(block as int),
    {
        let above = match self.0 {
            Bound::Included(nr) => nr <= block,
            Bound::Excluded(nr) => nr < block,
            Bound::Unbounded => true,
        };
        let below = match self.1 {
            Bound::Included(nr) => block <= nr,
            Bound::Excluded(nr) => block < nr,
            Bound::Unbounded => true,
        };
        above && below
    }
}

impl From<RangeFrom<BlockNumber>> for BlockRange {
    /// The range of all blocks from `range.start` on.
    fn from(range: RangeFrom<BlockNumber>) -> (r: BlockRange) {
        BlockRange(clone_bound(start_bound(&range)), clone_bound(end_bound(&range)))
    }
}

impl FromSpecImpl<RangeFrom<BlockNumber>> for BlockRange {
    open spec fn obeys_from_spec() -> bool {
        true
    }

    open spec fn from_spec(range: RangeFrom<BlockNumber>) -> BlockRange {
        BlockRange(Bound::Included(range.start), Bound::Unbounded)
    }
}

} // verus!
