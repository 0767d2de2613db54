//! Block numbers as logical time, the ranges of blocks for which a stored
//! entity version is valid, and the SQL clause that asks whether such a
//! range contains a given block.

pub mod builder;
pub mod clause;
pub mod history;
pub mod laws;
pub mod number;
pub mod range;
pub mod token;

pub use builder::QueryPass;
pub use clause::{BlockRangeContainsClause, ClauseConfig, BLOCK_RANGE_COLUMN, BLOCK_RANGE_CURRENT};
pub use history::{block_number, checked_block_number, BlockNumberError, BlockPointer, HistoryEvent};
pub use number::{BlockNumber, BLOCK_NUMBER_MAX, BLOCK_UNVERSIONED};
pub use range::{clone_bound, BlockRange};
pub use token::SqlToken;
