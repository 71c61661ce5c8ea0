//! Check values of data.

use goosefs_sdk::io::crc32::{crc32, crc32_append};
use goosefs_sdk::io::crc32c::{crc32c, crc32c_append};

#[test]
fn matches_java_ieee_check_vector() {
    assert_eq!(crc32(b"123456789"), 0xcbf4_3926);
    assert_eq!(crc32(b""), 0);
    let incremental = crc32_append(crc32(b"12345"), b"6789");
    assert_eq!(incremental, 0xcbf4_3926);
    assert_ne!(crc32(b"123456789"), 0xe306_9283);
}

#[test]
fn crc32_multi_block_e2e_payload_golden() {
    let block = 64 * 1024;
    let payload: Vec<u8> = (0..block * 3 + 123).map(|i| (i % 251) as u8).collect();
    assert_eq!(crc32(&payload), 0x9c20_a08f);
}

#[test]
fn matches_java_castagnoli_check_vector() {
    assert_eq!(crc32c(b"123456789"), 0xe3069283);
    assert_eq!(crc32c(b""), 0);
    let incremental = crc32c_append(crc32c(b"12345"), b"6789");
    assert_eq!(incremental, 0xe3069283);
}

#[test]
fn matches_crc32c_crate_hello_world() {
    assert_eq!(crc32c(b"Hello world!"), 0x7b98_e751);
}

#[test]
fn crc32c_multi_block_e2e_payload_golden() {
    let block = 64 * 1024;
    let payload: Vec<u8> = (0..block * 3 + 123).map(|i| (i % 251) as u8).collect();
    assert_eq!(crc32c(&payload), 0x9fa3_63fa);
}

#[test]
fn check_value_of_parts_is_that_of_the_whole() {
    let data: Vec<u8> = (0..1000u32).map(|i| (i * 7 % 256) as u8).collect();
    for cut in [0usize, 1, 499, 999, 1000] {
        assert_eq!(crc32_append(crc32(&data[..cut]), &data[cut..]), crc32(&data));
        assert_eq!(crc32c_append(crc32c(&data[..cut]), &data[cut..]), crc32c(&data));
    }
    assert_eq!(crc32_append(0x1234, b""), 0x1234);
    assert_eq!(crc32c_append(0x1234, b""), 0x1234);
}
