//! The block number domain and its reserved values.

use vstd::prelude::*;

verus! {

/// A block number: the store's notion of logical time.
pub type BlockNumber = i32;

/// The largest block number. It is reserved: as the block of a query it
/// means "the current version, whatever the block", and no block that was
/// actually observed carries it.
pub const BLOCK_NUMBER_MAX: BlockNumber = 2147483647;

/// The lower bound of the block range of an entity that is not versioned.
/// Such an entity is changed in place and is present at every block, so
/// its range is `[-1, infinity)`; the odd lower bound makes such rows easy
/// to spot.
pub const BLOCK_UNVERSIONED: BlockNumber = -1;

/// The largest block number is the largest `i32`. The SQL text that this
/// crate generates spells the number out, and relies on this.
pub proof fn lemma_block_number_max_is_i32_max()
    ensures
        BLOCK_NUMBER_MAX == i32::MAX,
        BLOCK_NUMBER_MAX == 2147483647,
{
}

} // verus!
