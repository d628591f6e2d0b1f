use std::time::{SystemTime, UNIX_EPOCH};
use weapay::encoding::hex_encode;
use weapay::error::WeaError;
use weapay::utils::{
    decimal_string, e, generate_random_string, get_timestamp, get_timestamp_millis, random_text,
};

#[test]
fn lib_test_generate_random_string() {
    let mii = SystemTime::now().duration_since(UNIX_EPOCH).unwrap().subsec_nanos();
    println!("{}", mii);
}

#[test]
fn utils_test_generate_random_string() {
    let random_string = generate_random_string(32).unwrap();
    println!("random_string==={}", random_string);
    assert_eq!(random_string.len(), 32);
}

#[test]
fn random_strings_have_the_length_asked_for() {
    for len in [0usize, 1, 2, 3, 31, 32, 33, 64, 101] {
        let text = generate_random_string(len).unwrap();
        assert_eq!(text.len(), len);
        assert!(text.bytes().all(|b| b.is_ascii_digit() || (b'a'..=b'f').contains(&b)));
    }
}

#[test]
fn random_strings_differ() {
    assert_ne!(generate_random_string(32).unwrap(), generate_random_string(32).unwrap());
}

#[test]
fn random_text_is_a_prefix_of_the_hexadecimal_text() {
    assert_eq!(random_text(&[0x00, 0x9f, 0xa0, 0xff], 8), "009fa0ff");
    assert_eq!(random_text(&[0x00, 0x9f, 0xa0, 0xff], 7), "009fa0f");
    assert_eq!(random_text(&[0xab], 1), "a");
    assert_eq!(random_text(&[], 0), "");
}

#[test]
fn hex_encode_writes_two_lowercase_digits_for_each_byte() {
    assert_eq!(hex_encode(&[]), "");
    assert_eq!(hex_encode(&[0]), "00");
    assert_eq!(hex_encode(&[0x0a, 0xb0, 0x19, 0xff]), "0ab019ff");
    let all: Vec<u8> = (0..=255).collect();
    let expected: String = all.iter().map(|b| format!("{:02x}", b)).collect();
    assert_eq!(hex_encode(&all), expected);
}

#[test]
fn decimal_string_writes_numbers_without_leading_zeros() {
    assert_eq!(decimal_string(0), "0");
    assert_eq!(decimal_string(7), "7");
    assert_eq!(decimal_string(10), "10");
    assert_eq!(decimal_string(404), "404");
    assert_eq!(decimal_string(1721352091), "1721352091");
    assert_eq!(decimal_string(u128::MAX), "340282366920938463463374607431768211455");
    for n in [9u128, 99, 100, 101, 1234567890123456789] {
        assert_eq!(decimal_string(n), n.to_string());
    }
}

#[test]
fn the_clock_goes_on() {
    let secs = get_timestamp().unwrap();
    let millis = get_timestamp_millis().unwrap();
    assert!(secs > 1_700_000_000);
    assert!(millis / 1000 >= secs as u128);
    assert!(millis / 1000 <= secs as u128 + 5);
}

#[test]
fn an_error_is_described_by_kind_and_message() {
    let err = WeaError::new("Openssl", "bad key".to_string());
    assert_eq!(err.kind(), "Openssl");
    assert_eq!(err.message(), "bad key");
    assert_eq!(err.describe(), "WeaError: From Openssl, bad key");
    let plain = e("parse url error");
    assert_eq!(plain.kind(), "");
    assert_eq!(plain.describe(), "WeaError: From , parse url error");
}
