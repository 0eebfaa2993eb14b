use origins_splitter::image::MemoryImage;
use origins_splitter::pattern::Pattern;
use origins_splitter::resolve::addr_add;
use origins_splitter::resolve::addr_add_u;

#[test]
fn from_cells_accepts_bytes_and_wildcards() {
    let p = Pattern::from_cells(vec![0, 255, -1, 0x3D]).unwrap();
    assert_eq!(p.len(), 4);
    assert!(Pattern::from_cells(vec![]).is_some());
}

#[test]
fn from_cells_rejects_out_of_range_cells() {
    assert!(Pattern::from_cells(vec![0, 256]).is_none());
    assert!(Pattern::from_cells(vec![-2]).is_none());
}

#[test]
fn scan_finds_first_match() {
    let pat = Pattern::new(vec![2, 3]);
    let hay = [1u8, 2, 3, 2, 3];
    assert_eq!(pat.scan(&hay), Some(1));
}

#[test]
fn scan_reports_no_match() {
    let pat = Pattern::new(vec![9]);
    let hay = [1u8, 2, 3];
    assert_eq!(pat.scan(&hay), None);
}

#[test]
fn scan_wildcard_matches_any_byte() {
    let pat = Pattern::new(vec![2, -1, 4]);
    let hay = [2u8, 3, 5, 2, 9, 4];
    assert_eq!(pat.scan(&hay), Some(3));
}

#[test]
fn scan_longer_than_haystack_never_matches() {
    let pat = Pattern::new(vec![1, 2, 3, 4]);
    let hay = [1u8, 2, 3];
    assert_eq!(pat.scan(&hay), None);
}

#[test]
fn empty_pattern_matches_at_offset_zero() {
    let pat = Pattern::new(vec![]);
    let hay = [1u8, 2];
    assert_eq!(pat.scan(&hay), Some(0));
}

#[test]
fn image_reads_little_endian_words() {
    let img = MemoryImage::new(0x1000, vec![0x78, 0x56, 0x34, 0x12, 0xFF, 0xFF, 0xFF, 0xFF]);
    assert_eq!(img.read_u8(0x1000), Some(0x78));
    assert_eq!(img.read_u8(0x1007), Some(0xFF));
    assert_eq!(img.read_u8(0x1008), None);
    assert_eq!(img.read_u8(0xFFF), None);
    assert_eq!(img.read_u32(0x1000), Some(0x12345678));
    assert_eq!(img.read_u32(0x1005), None); // only three bytes left
    assert_eq!(img.read_i32(0x1000), Some(0x12345678));
    assert_eq!(img.read_i32(0x1004), Some(-1)); // 0xFFFFFFFF
}

#[test]
fn address_arithmetic_is_checked() {
    assert_eq!(addr_add(100, -30), Some(70));
    assert_eq!(addr_add(100, -101), None);
    assert_eq!(addr_add(u64::MAX, 1), None);
    assert_eq!(addr_add(u64::MAX - 1, 1), Some(u64::MAX));
    assert_eq!(addr_add_u(u64::MAX, 1), None);
    assert_eq!(addr_add_u(7, 8), Some(15));
}
