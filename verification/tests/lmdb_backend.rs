use temper_storage::lmdb::rounded_map_size;

#[test]
fn rounded_map_size_rounds_to_nearest_page() {
    assert_eq!(rounded_map_size(10 * 1024 * 1024 * 1024, 4096), 10 * 1024 * 1024 * 1024);
    assert_eq!(rounded_map_size(5000, 4096), 4096);
    assert_eq!(rounded_map_size(6143, 4096), 4096);
    assert_eq!(rounded_map_size(6144, 4096), 8192);
    assert_eq!(rounded_map_size(0, 4096), 0);
    assert_eq!(rounded_map_size(100, 4096), 0);
    assert_eq!(rounded_map_size(3, 1), 3);
}

#[test]
fn rounded_map_size_saturates_beyond_usize() {
    assert_eq!(rounded_map_size(usize::MAX, 4096), usize::MAX);
    assert_eq!(rounded_map_size(usize::MAX - 4096, 4096), usize::MAX - 4095);
}

#[test]
fn rounded_map_size_without_page_size_is_zero() {
    assert_eq!(rounded_map_size(10 * 1024 * 1024, 0), 0);
}
