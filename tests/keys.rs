use oath::key::{decode_base32, decode_hex};

#[test]
fn hex_decodes_both_cases() {
    assert_eq!(decode_hex("00ff7fA0"), Some(vec![0x00, 0xff, 0x7f, 0xa0]));
    assert_eq!(decode_hex(""), Some(vec![]));
}

#[test]
fn hex_round_trip() {
    let bytes: Vec<u8> = (0..=255u8).collect();
    let text: String = bytes.iter().map(|b| format!("{:02x}", b)).collect();
    assert_eq!(decode_hex(&text), Some(bytes));
}

#[test]
fn hex_rejects_odd_length_and_non_digits() {
    assert_eq!(decode_hex("abc"), None);
    assert_eq!(decode_hex("0g"), None);
    assert_eq!(decode_hex("0 "), None);
    assert_eq!(decode_hex("é0"), None);
}

#[test]
fn base32_decodes_rfc4648() {
    assert_eq!(decode_base32("MZXW6YTBOI"), Some(b"foobar".to_vec()));
    assert_eq!(decode_base32(""), Some(vec![]));
}

#[test]
fn base32_rejects_outside_alphabet() {
    assert_eq!(decode_base32("MZXW6YTB0I"), None);
    assert_eq!(decode_base32("MZXW8"), None);
    assert_eq!(decode_base32("MZ-W6"), None);
    assert_eq!(decode_base32("MZXWé"), None);
}

#[test]
fn base32_rejects_lower_case() {
    assert_eq!(decode_base32("mzxw6ytboi"), None);
    assert_eq!(decode_base32("MZXW6YTBoI"), None);
}

#[test]
fn base32_rejects_padding_sign() {
    assert_eq!(decode_base32("GEZDGNBVGY3TQOJ="), None);
    assert_eq!(decode_base32("MZXW6==="), None);
    assert_eq!(decode_base32("MZ=W6YTBOI"), None);
}
