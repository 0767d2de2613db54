use std::ops::Bound;

use block_range::{clone_bound, BlockRange, BLOCK_NUMBER_MAX, BLOCK_UNVERSIONED};
use diesel::deserialize::FromSql;
use diesel::pg::Pg;
use diesel::sql_types::{Integer, Range};

#[test]
fn range_from_keeps_start_included_and_end_open() {
    let range = BlockRange::from(1000..);
    assert_eq!(range.lower(), Bound::Included(1000));
    assert_eq!(range.upper(), Bound::Unbounded);
    assert_eq!(range.0, Bound::Included(1000));
    assert_eq!(range.1, Bound::Unbounded);
}

#[test]
fn range_from_matches_what_the_database_reads_back() {
    // The binary form of `[1000,)`: lower bound included, no upper bound,
    // then the lower bound as four bytes behind their length.
    let bytes: Vec<u8> = vec![0x12, 0, 0, 0, 4, 0, 0, 0x03, 0xe8];
    let stored: (Bound<i32>, Bound<i32>) =
        FromSql::<Range<Integer>, Pg>::from_sql(Some(&bytes[..])).unwrap();
    let range = BlockRange::from(1000..);
    assert_eq!((range.lower(), range.upper()), stored);
}

#[test]
fn range_from_contains_blocks_from_start_on() {
    let range = BlockRange::from(1000..);
    assert!(range.contains(1000));
    assert!(range.contains(1001));
    assert!(range.contains(BLOCK_NUMBER_MAX));
    assert!(!range.contains(999));
    assert!(!range.contains(0));
    assert!(!range.contains(-1));
}

#[test]
fn unversioned_range_contains_every_block() {
    let range = BlockRange::from(BLOCK_UNVERSIONED..);
    assert_eq!(range.lower(), Bound::Included(-1));
    assert!(range.contains(0));
    assert!(range.contains(1));
    assert!(range.contains(BLOCK_NUMBER_MAX - 1));
    assert!(range.contains(BLOCK_NUMBER_MAX));
}

#[test]
fn new_keeps_every_kind_of_bound() {
    let kinds = [Bound::Included(3), Bound::Excluded(3), Bound::Unbounded];
    for lower in kinds {
        for upper in kinds {
            let range = BlockRange::new(lower, upper);
            assert_eq!(range.lower(), lower);
            assert_eq!(range.upper(), upper);
        }
    }
}

#[test]
fn contains_respects_the_kind_of_bound() {
    let closed = BlockRange::new(Bound::Included(3), Bound::Included(7));
    assert!(closed.contains(3));
    assert!(closed.contains(7));
    assert!(!closed.contains(2));
    assert!(!closed.contains(8));
    let half_open = BlockRange::new(Bound::Included(3), Bound::Excluded(7));
    assert!(half_open.contains(3));
    assert!(half_open.contains(6));
    assert!(!half_open.contains(7));
    let open = BlockRange::new(Bound::Excluded(3), Bound::Excluded(7));
    assert!(!open.contains(3));
    assert!(open.contains(4));
    let below = BlockRange::new(Bound::Unbounded, Bound::Excluded(7));
    assert!(below.contains(i32::MIN));
    assert!(!below.contains(7));
    let all = BlockRange::new(Bound::Unbounded, Bound::Unbounded);
    assert!(all.contains(i32::MIN));
    assert!(all.contains(i32::MAX));
}

#[test]
fn is_ordered_compares_the_bounds_that_are_there() {
    assert!(BlockRange::from(5..).is_ordered());
    assert!(BlockRange::new(Bound::Included(3), Bound::Excluded(7)).is_ordered());
    assert!(BlockRange::new(Bound::Included(3), Bound::Excluded(3)).is_ordered());
    assert!(!BlockRange::new(Bound::Included(7), Bound::Excluded(3)).is_ordered());
    assert!(!BlockRange::new(Bound::Excluded(4), Bound::Included(3)).is_ordered());
    assert!(BlockRange::new(Bound::Unbounded, Bound::Excluded(3)).is_ordered());
    assert!(BlockRange::new(Bound::Unbounded, Bound::Unbounded).is_ordered());
}

#[test]
fn is_empty_when_no_block_fits() {
    assert!(BlockRange::new(Bound::Included(3), Bound::Excluded(3)).is_empty());
    assert!(BlockRange::new(Bound::Excluded(3), Bound::Excluded(4)).is_empty());
    assert!(BlockRange::new(Bound::Excluded(3), Bound::Included(3)).is_empty());
    assert!(BlockRange::new(Bound::Included(4), Bound::Included(3)).is_empty());
    assert!(BlockRange::new(Bound::Excluded(i32::MAX), Bound::Excluded(i32::MAX)).is_empty());
    assert!(!BlockRange::new(Bound::Included(3), Bound::Included(3)).is_empty());
    assert!(!BlockRange::new(Bound::Excluded(3), Bound::Excluded(5)).is_empty());
    assert!(!BlockRange::new(Bound::Included(3), Bound::Excluded(4)).is_empty());
    assert!(!BlockRange::from(3..).is_empty());
    assert!(!BlockRange::new(Bound::Unbounded, Bound::Excluded(i32::MIN)).is_empty());
}

#[test]
fn brin_contains_follows_the_stored_bounds() {
    let range = BlockRange::from(1000..);
    assert!(range.brin_contains(1000));
    assert!(range.brin_contains(BLOCK_NUMBER_MAX - 1));
    assert!(!range.brin_contains(BLOCK_NUMBER_MAX));
    assert!(!range.brin_contains(999));
    let closed = BlockRange::new(Bound::Excluded(3), Bound::Included(7));
    assert!(!closed.brin_contains(3));
    assert!(closed.brin_contains(4));
    assert!(closed.brin_contains(7));
    assert!(!closed.brin_contains(8));
    let no_lower = BlockRange::new(Bound::Unbounded, Bound::Excluded(7));
    assert!(no_lower.contains(5));
    assert!(!no_lower.brin_contains(5));
    let empty = BlockRange::new(Bound::Included(3), Bound::Excluded(3));
    assert!(!empty.brin_contains(3));
}

#[test]
fn clone_bound_copies_the_number() {
    let nr = 17;
    assert_eq!(clone_bound(Bound::Included(&nr)), Bound::Included(17));
    assert_eq!(clone_bound(Bound::Excluded(&nr)), Bound::Excluded(17));
    assert_eq!(clone_bound(Bound::Unbounded), Bound::Unbounded);
}
