use aarch64_kvm_regs::format::{format_value, push_decimal, push_hex, trimmed_len};

#[test]
fn trims_high_zero_bytes() {
    let v = [0x34u8, 0x12, 0, 0, 0, 0, 0, 0];
    assert_eq!(trimmed_len(&v), 2);
    assert_eq!(format_value(&v), "0x1234");
}

#[test]
fn inner_bytes_keep_two_digits() {
    assert_eq!(format_value(&[0x05, 0x01, 0x00]), "0x105");
    assert_eq!(format_value(&[0x00, 0x00, 0xab]), "0xab0000");
}

#[test]
fn all_zero_is_single_zero() {
    assert_eq!(format_value(&[0u8; 2048]), "0x0");
    assert_eq!(format_value(&[0u8; 1]), "0x0");
    assert_eq!(format_value(&[]), "0x0");
    assert_eq!(trimmed_len(&[0u8; 16]), 1);
    assert_eq!(trimmed_len(&[]), 0);
}

#[test]
fn trimming_twice_changes_nothing() {
    let v = [0xefu8, 0xbe, 0xad, 0xde, 0, 0, 0, 0];
    let n = trimmed_len(&v);
    assert_eq!(n, 4);
    assert_eq!(trimmed_len(&v[..n]), n);
    assert_eq!(format_value(&v[..n]), format_value(&v));
    assert_eq!(format_value(&v), "0xdeadbeef");
}

#[test]
fn decimal_and_hex_digits() {
    let mut s = String::new();
    push_decimal(&mut s, 0);
    push_decimal(&mut s, 1234567890);
    assert_eq!(s, "01234567890");
    let mut h = String::new();
    push_hex(&mut h, 0x6030_0000_0013_c005);
    assert_eq!(h, "603000000013c005");
    let mut m = String::new();
    push_decimal(&mut m, u64::MAX);
    assert_eq!(m, "18446744073709551615");
}
