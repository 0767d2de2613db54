//! What holds of block ranges and of the contains clause, whatever the
//! block, the range and the configuration.

use vstd::prelude::*;
use vstd::std_specs::convert::FromSpec;
use std::ops::Bound;
use std::ops::RangeFrom;
use crate::clause::{brin_pieces, containment_pieces, BlockRangeContainsClause, ClauseConfig};
use crate::number::{BlockNumber, BLOCK_NUMBER_MAX, BLOCK_UNVERSIONED};
use crate::range::BlockRange;

verus! {

/// The range made from `start..` has `start` as its included lower bound
/// and no upper bound, and it contains exactly the blocks from `start` on.
pub proof fn lemma_range_from_contains(start: BlockNumber, block: BlockNumber)
    ensures
        BlockRange::from_spec(RangeFrom { start })@ == (
            Bound::Included(start),
            Bound::<BlockNumber>::Unbounded,
        ),
        BlockRange::from_spec(RangeFrom { start }).spec_contains(block as int) <==> block >= start,
{
}

/// Of a range as it is stored, with its lower bound included and its
/// upper bound excluded or missing, the largest block number is in it
/// exactly if it has no upper end: that is what `BLOCK_RANGE_CURRENT`
/// asks for.
pub proof fn lemma_current_has_no_upper_end(range: BlockRange)
    requires
        range@.0 is Included,
        !(range@.1 is Included),
    ensures
        range.spec_contains(BLOCK_NUMBER_MAX as int) <==> range@.1 is Unbounded,
{
}

/// An entity that is not versioned has the range from `BLOCK_UNVERSIONED`
/// on. The contains clause holds of it for every block that is not
/// negative, whatever the configuration.
pub proof fn lemma_unversioned_always_found(clause: BlockRangeContainsClause<'_>)
    requires
        clause.block >= 0,
    ensures
        clause.holds_for(BlockRange::from_spec(RangeFrom { start: BLOCK_UNVERSIONED })),
{
}

/// For the largest block number the clause is the containment test
/// alone, whatever the configuration.
pub proof fn lemma_max_block_never_expanded(clause: BlockRangeContainsClause<'_>)
    requires
        clause.block == BLOCK_NUMBER_MAX,
    ensures
        !clause.spec_is_expanded(),
        clause.spec_pieces() == containment_pieces(clause.table_prefix@, clause.block),
{
}

/// For the largest block number the two comparisons for the BRIN index
/// would be wrong: a range without an upper end contains that block, and
/// the comparisons do not hold of it.
pub proof fn lemma_brin_wrong_at_max_block(start: BlockNumber)
    ensures
        BlockRange::from_spec(RangeFrom { start }).spec_contains(BLOCK_NUMBER_MAX as int),
        !BlockRange::from_spec(RangeFrom { start }).spec_brin_contains(BLOCK_NUMBER_MAX as int),
{
}

/// Below the largest block number, and with nothing switched off, the
/// clause has the two comparisons for the BRIN index.
pub proof fn lemma_expanded_by_default(clause: BlockRangeContainsClause<'_>)
    requires
        clause.block < BLOCK_NUMBER_MAX,
        !clause.config.disable_brin_block_range,
    ensures
        clause.spec_is_expanded(),
        clause.spec_pieces() =~= containment_pieces(clause.table_prefix@, clause.block)
            + brin_pieces(clause.block),
{
}

/// The two comparisons for the BRIN index change nothing: of a range
/// with a lower bound, the clause holds exactly if the range contains the
/// block, with the comparisons or without them. (Of a range without a
/// lower bound PostgreSQL has no `lower` to compare.)
pub proof fn lemma_brin_comparisons_redundant(clause: BlockRangeContainsClause<'_>, range: BlockRange)
    requires
        !(range@.0 is Unbounded),
    ensures
        clause.holds_for(range) == range.spec_contains(clause.block as int),
        range.spec_contains(clause.block as int) && clause.block < BLOCK_NUMBER_MAX
            ==> range.spec_brin_contains(clause.block as int),
{
}

/// With the setting `DISABLE_BRIN_BLOCK_RANGE` set, to whatever value,
/// no clause has the two comparisons for the BRIN index; with the setting
/// not set, every clause for a block below the largest has them.
pub proof fn lemma_setting_switches_expansion(
    clause: BlockRangeContainsClause<'_>,
    setting: Option<Seq<char>>,
)
    requires
        clause.config == ClauseConfig::for_setting(setting),
    ensures
        setting is Some ==> !clause.spec_is_expanded(),
        setting is Some ==> clause.spec_pieces() == containment_pieces(
            clause.table_prefix@,
            clause.block,
        ),
        setting is None ==> clause.spec_is_expanded() == (clause.block < BLOCK_NUMBER_MAX),
{
}

} // verus!
