use openssl::rand::{len_within_limit, request_len, status_ok};
use openssl::text::{to_dec, to_hex, to_hex_padded, to_signed_dec};

#[test]
fn buffer_of_32_is_within_limit() {
    assert!(len_within_limit(32));
    assert_eq!(request_len(32), 32);
}

#[test]
fn largest_buffer_is_within_limit() {
    let max = i32::MAX as usize;
    assert!(len_within_limit(max));
    assert_eq!(request_len(max), i32::MAX);
}

#[test]
fn buffer_over_limit_is_refused() {
    assert!(!len_within_limit(i32::MAX as usize + 1));
    assert!(!len_within_limit(usize::MAX));
}

#[test]
fn return_codes() {
    assert!(status_ok(1));
    assert!(!status_ok(0));
    assert!(!status_ok(-1));
}

#[test]
fn number_text() {
    assert_eq!(to_dec(0), "0");
    assert_eq!(to_dec(1234567890), "1234567890");
    assert_eq!(to_hex(0xDEAD_BEEF), "DEADBEEF");
    assert_eq!(to_hex_padded(0xAB, 8), "000000AB");
    assert_eq!(to_hex_padded(u64::MAX, 8), "FFFFFFFFFFFFFFFF");
    assert_eq!(to_signed_dec(-42), "-42");
    assert_eq!(to_signed_dec(i64::MIN), "-9223372036854775808");
}
