use lycrex_tool::memory::utils::{bytes_to_u32, bytes_to_u64, bytes_to_utf8_string,
    bytes_to_hex_string, is_zero_bytes, find_pattern, format_address, format_size};

#[test]
fn test_bytes_to_u32() {
    let bytes = [0x12, 0x34, 0x56, 0x78];
    assert_eq!(bytes_to_u32(&bytes), 0x78563412);

    let short_bytes = [0x12, 0x34];
    assert_eq!(bytes_to_u32(&short_bytes), 0);
}

#[test]
fn test_bytes_to_u64() {
    let bytes = [0x12, 0x34, 0x56, 0x78, 0x9A, 0xBC, 0xDE, 0xF0];
    assert_eq!(bytes_to_u64(&bytes), 0xF0DEBC9A78563412);

    let short_bytes = [0x12, 0x34, 0x56];
    assert_eq!(bytes_to_u64(&short_bytes), 0);
}

#[test]
fn test_bytes_to_utf8_string() {
    let bytes = b"Hello\0World";
    assert_eq!(bytes_to_utf8_string(bytes), "Hello");

    let bytes_no_null = b"Hello";
    assert_eq!(bytes_to_utf8_string(bytes_no_null), "Hello");

    let invalid_utf8 = [0xFF, 0xFE, 0xFD];
    assert_eq!(bytes_to_utf8_string(&invalid_utf8), "");
}

#[test]
fn test_find_pattern() {
    let haystack = b"Hello World, Hello Universe";
    let needle = b"Hello";

    assert_eq!(find_pattern(haystack, needle), Some(0));

    let needle2 = b"World";
    assert_eq!(find_pattern(haystack, needle2), Some(6));

    let needle3 = b"NotFound";
    assert_eq!(find_pattern(haystack, needle3), None);
}

#[test]
fn test_format_size() {
    assert_eq!(format_size(512), "512 B");
    assert_eq!(format_size(1024), "1.00 KB");
    assert_eq!(format_size(1536), "1.50 KB");
    assert_eq!(format_size(1048576), "1.00 MB");
}

#[test]
fn test_bytes_to_u32_non_ascii_utf8() {
    let bytes = "héllo".as_bytes();
    assert_eq!(bytes_to_utf8_string(bytes), "héllo");
}

#[test]
fn test_bytes_to_hex_string() {
    assert_eq!(bytes_to_hex_string(&[0xDE, 0xAD, 0xBE, 0xEF]), "DE AD BE EF");
    assert_eq!(bytes_to_hex_string(&[0x05]), "05");
    assert_eq!(bytes_to_hex_string(&[]), "");
}

#[test]
fn test_is_zero_bytes() {
    assert!(is_zero_bytes(&[0, 0, 0]));
    assert!(is_zero_bytes(&[]));
    assert!(!is_zero_bytes(&[0, 1, 0]));
}

#[test]
fn test_find_pattern_empty_needle() {
    assert_eq!(find_pattern(b"abc", b""), None);
    assert_eq!(find_pattern(b"", b"a"), None);
}

#[test]
fn test_format_address() {
    assert_eq!(format_address(0x1A2B), "0x1A2B");
    assert_eq!(format_address(0), "0x0");
}

#[test]
fn test_format_size_terabytes() {
    assert_eq!(format_size(1024u64 * 1024 * 1024 * 1024), "1.00 TB");
    assert_eq!(format_size(1023), "1023 B");
}
