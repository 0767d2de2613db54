use block_range::BLOCK_NUMBER_MAX;

#[test]
fn block_number_max_is_i32_max() {
    // The SQL that this crate generates embeds i32::MAX aka BLOCK_NUMBER_MAX
    // in strings. This assertion makes sure that BLOCK_NUMBER_MAX still
    // is what we think it is
    assert_eq!(2147483647, BLOCK_NUMBER_MAX);
}
