use hid_report::privates::{__data_size, __data_to_signed, __data_to_unsigned, __set_data_size};
use hid_report::text::{push_decimal, push_hex_byte, push_joined, push_signed, push_spaces};
use hid_report::HidError;

#[test]
fn data_size_follows_the_two_low_bits() {
    for prefix in 0..=255u8 {
        let expected = match prefix % 4 {
            0 => 0,
            1 => 1,
            2 => 2,
            _ => 4,
        };
        assert_eq!(__data_size(prefix), expected);
    }
}

#[test]
fn set_data_size_rewrites_only_the_two_low_bits() {
    let lengths: [(usize, u8); 4] = [(0, 0b00), (1, 0b01), (2, 0b10), (4, 0b11)];
    for start in 0..=255u8 {
        for (len, selector) in lengths {
            let mut prefix = start;
            let data = vec![0u8; len];
            assert_eq!(__set_data_size(&mut prefix, &data), Ok(()));
            assert_eq!(prefix, (start & 0b1111_1100) | selector);
            assert_eq!(__data_size(prefix), len);
        }
    }
}

#[test]
fn set_data_size_refuses_other_lengths() {
    for len in [3usize, 5, 6, 7, 8, 100] {
        let mut prefix = 0x27;
        let data = vec![0u8; len];
        assert_eq!(__set_data_size(&mut prefix, &data), Err(HidError::InvalidDataSize));
        assert_eq!(prefix, 0x27);
    }
}

#[test]
fn data_reads_as_little_endian_unsigned() {
    assert_eq!(__data_to_unsigned(&[]), 0);
    assert_eq!(__data_to_unsigned(&[0x12]), 0x12);
    assert_eq!(__data_to_unsigned(&[0x34, 0x12]), 0x1234);
    assert_eq!(__data_to_unsigned(&[0x78, 0x56, 0x34, 0x12]), 0x12345678);
    assert_eq!(__data_to_unsigned(&[0xFF, 0xFF, 0xFF, 0xFF]), u32::MAX);
    assert_eq!(__data_to_unsigned(&[0x00, 0x00, 0x00, 0x80]), 0x8000_0000);
}

#[test]
fn data_reads_as_little_endian_signed() {
    assert_eq!(__data_to_signed(&[]), 0);
    assert_eq!(__data_to_signed(&[0x7F]), 127);
    assert_eq!(__data_to_signed(&[0x80]), -128);
    assert_eq!(__data_to_signed(&[0xFF, 0x7F]), 32767);
    assert_eq!(__data_to_signed(&[0x00, 0x80]), -32768);
    assert_eq!(__data_to_signed(&[0xFE, 0xFF]), -2);
    assert_eq!(__data_to_signed(&[0xFF, 0xFF, 0xFF, 0x7F]), i32::MAX);
    assert_eq!(__data_to_signed(&[0x00, 0x00, 0x00, 0x80]), i32::MIN);
    assert_eq!(__data_to_signed(&[0xFE, 0xFF, 0xFF, 0xFF]), -2);
}

#[test]
fn data_of_other_lengths_reads_its_widest_leading_number() {
    assert_eq!(__data_to_unsigned(&[0x34, 0x12, 0xFF]), 0x1234);
    assert_eq!(__data_to_signed(&[0x00, 0x80, 0x01]), -32768);
    assert_eq!(__data_to_unsigned(&[0x78, 0x56, 0x34, 0x12, 0xFF]), 0x12345678);
    assert_eq!(__data_to_signed(&[0xFF, 0xFF, 0xFF, 0xFF, 0x01, 0x02]), -1);
}

#[test]
fn numbers_are_written_in_decimal() {
    let cases: [(u32, &str); 9] = [
        (0, "0"),
        (7, "7"),
        (9, "9"),
        (10, "10"),
        (99, "99"),
        (100, "100"),
        (1_000_000, "1000000"),
        (2_147_483_648, "2147483648"),
        (u32::MAX, "4294967295"),
    ];
    for (n, text) in cases {
        let mut out = String::from("n=");
        push_decimal(&mut out, n);
        assert_eq!(out, format!("n={}", text));
    }
}

#[test]
fn signed_numbers_carry_their_sign() {
    let cases: [(i32, &str); 7] = [
        (0, "0"),
        (1, "1"),
        (-1, "-1"),
        (-10, "-10"),
        (i32::MAX, "2147483647"),
        (i32::MIN, "-2147483648"),
        (-2_147_483_647, "-2147483647"),
    ];
    for (v, text) in cases {
        let mut out = String::new();
        push_signed(&mut out, v);
        assert_eq!(out, text);
    }
}

#[test]
fn every_byte_is_written_as_two_hexadecimal_digits() {
    for byte in 0..=255u8 {
        let mut out = String::new();
        push_hex_byte(&mut out, byte);
        assert_eq!(out, format!("{:#04X}", byte));
    }
}

#[test]
fn spaces_are_counted() {
    let mut out = String::from("a");
    push_spaces(&mut out, 0);
    assert_eq!(out, "a");
    push_spaces(&mut out, 3);
    assert_eq!(out, "a   ");
}

#[test]
fn parts_are_joined_by_the_separator() {
    let mut out = String::from("[");
    push_joined(&mut out, &vec![], ", ");
    assert_eq!(out, "[");
    push_joined(&mut out, &vec!["a"], ", ");
    assert_eq!(out, "[a");
    push_joined(&mut out, &vec!["b", "", "c"], "; ");
    assert_eq!(out, "[ab; ; c");
}
