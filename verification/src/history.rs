//! From the block pointer of a history event to a block number.

use vstd::prelude::*;
use crate::number::{BlockNumber, BLOCK_NUMBER_MAX};

verus! {

/// A pointer to a block of the chain. Chains number their blocks with
/// 64 bits, more than a block range can hold.
#[derive(Clone, Copy, Debug, PartialEq, Eq, Structural)]
pub struct BlockPointer {
    pub number: u64,
}

/// The event that a change to the store is recorded under.
#[derive(Clone, Copy, Debug, PartialEq, Eq, Structural)]
pub struct HistoryEvent {
    pub block_ptr: BlockPointer,
}

/// Why no block number could be had for an operation on versioned data.
#[derive(Clone, Copy, Debug, PartialEq, Eq, Structural)]
pub enum BlockNumberError {
    /// The block pointer's number is `BLOCK_NUMBER_MAX` or more, which a
    /// block range cannot represent. Carries that number.
    DomainOverflow { number: u64 },
    /// The operation came without a history event, so it does not record
    /// history and must not touch versioned data.
    MissingProvenance,
}

impl HistoryEvent {
    /// Whether the event's block fits the block number domain: it is
    /// below the reserved `BLOCK_NUMBER_MAX`.
    pub open spec fn in_domain(self) -> bool {
        self.block_ptr.number < BLOCK_NUMBER_MAX as u64
    }
}

/// What `checked_block_number` returns.
pub open spec fn resolve(history_event: Option<HistoryEvent>) -> Result<BlockNumber, BlockNumberError> {
    match history_event {
        None => Err(BlockNumberError::MissingProvenance),
        Some(event) => if event.in_domain() {
            Ok(event.block_ptr.number as BlockNumber)
        } else {
            Err(BlockNumberError::DomainOverflow { number: event.block_ptr.number })
        },
    }
}

/// The block number contained in the history event. The event's block
/// must be in the domain; `checked_block_number` tests that.
pub fn block_number(history_event: &HistoryEvent) -> (nr: BlockNumber)
    requires
        history_event.in_domain(),
    ensures
        nr as int == history_event.block_ptr.number as int,
        0 <= nr < BLOCK_NUMBER_MAX,
{
    let block_ptr = history_event.block_ptr;
    block_ptr.number as i32
}

/// The block number for an operation that may or may not carry a history
/// event. An operation without one does not record history, and a block
/// number at or above `BLOCK_NUMBER_MAX` cannot be stored: both are errors
/// that the caller should treat as fatal.
pub fn checked_block_number(history_event: Option<&HistoryEvent>) -> (r: Result<BlockNumber, BlockNumberError>)
    ensures
        r == resolve(match history_event { Some(e) => Some(*e), None => None }),
        r matches Ok(nr) ==> 0 <= nr < BLOCK_NUMBER_MAX,
{
    match history_event {
        None => Err(BlockNumberError::MissingProvenance),
        Some(event) => {
            if event.block_ptr.number < BLOCK_NUMBER_MAX as u64 {
                Ok(block_number(event))
            } else {
                Err(BlockNumberError::DomainOverflow { number: event.block_ptr.number })
            }
        },
    }
}

} // verus!
