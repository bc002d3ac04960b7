use fvm::components::error::Error as ComponentsError;
use fvm::error::Error;
use fvm::utils::hex::{to_int, to_str};
use fvm::utils::{hex_to_int, hex_to_str};

#[test]
fn to_int_u32() {
    let list: Vec<u8> = vec![0x00, 0x00, 0x00, 0x01];
    let num = to_int::<u32>(&list);
    assert_eq!(num, 1u32);
}

#[test]
fn to_int_u8() {
    assert_eq!(to_int::<u8>(&[0x7B]), 0x7Bu8);
}

#[test]
fn to_int_u16() {
    assert_eq!(to_int::<u16>(&[0x12, 0x34]), 0x1234u16);
}

#[test]
fn to_int_u64() {
    let list: Vec<u8> = vec![0x01, 0x02, 0x03, 0x04, 0x05, 0x06, 0x07, 0x08];
    assert_eq!(to_int::<u64>(&list), 0x0102030405060708u64);
}

#[test]
fn to_int_negative_i16() {
    // 0xFFFB is the two's-complement pattern of -5
    assert_eq!(to_int::<i16>(&[0xFF, 0xFB]), -5i16);
}

#[test]
fn to_int_negative_i32() {
    assert_eq!(to_int::<i32>(&[0xFF, 0xFF, 0xFF, 0xFF]), -1i32);
}

#[test]
fn to_int_i64() {
    let list: Vec<u8> = vec![0x80, 0x00, 0x00, 0x00, 0x00, 0x00, 0x00, 0x00];
    assert_eq!(to_int::<i64>(&list), i64::MIN);
}

#[test]
fn to_str_a() {
    let list: Vec<u8> = vec![0x61];
    let s = to_str(&list).unwrap();
    assert_eq!(s, "a");
}

#[test]
fn to_str_abc() {
    let list: Vec<u8> = vec![0x61, 0x62, 0x63];
    let s = to_str(&list).unwrap();
    assert_eq!(s, "abc");
}

#[test]
fn to_str_multibyte() {
    // A two-byte UTF-8 sequence decodes too
    let list: Vec<u8> = vec![0xC3, 0xA9];
    assert_eq!(to_str(&list).unwrap(), "\u{e9}");
}

#[test]
fn to_str_rejects_invalid_utf8() {
    let list: Vec<u8> = vec![0xFC, 0x53];
    assert_eq!(to_str(&list), Err(ComponentsError::ByteToString));
}

#[test]
fn hex_to_int_u32() {
    let list: Vec<u8> = vec![0x00, 0x00, 0x10, 0x01];
    assert_eq!(hex_to_int::<u32>(&list), 0x1001u32);
}

#[test]
fn hex_to_str_ok_and_err() {
    assert_eq!(hex_to_str(&[0x68, 0x69]).unwrap(), "hi");
    assert_eq!(hex_to_str(&[0xFC, 0x53]), Err(Error::ByteToStringError));
}
