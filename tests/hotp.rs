use oath::hotp::HOTPBuilder;
use oath::{ErrorCode, HashFunction};

fn text(v: Vec<u8>) -> String {
    String::from_utf8(v).unwrap()
}

#[test]
fn hotp_rfc4226_vectors() {
    let expected = [
        "755224", "287082", "359152", "969429", "338314", "254676", "287922", "162583", "399871", "520489",
    ];
    for (c, want) in expected.iter().enumerate() {
        let hotp = HOTPBuilder::new()
            .ascii_key(&"12345678901234567890".to_string())
            .counter(c as u64)
            .build()
            .unwrap();
        assert_eq!(text(hotp.generate()), *want);
    }
}

#[test]
fn hotp_increment_counter_walks_the_vectors() {
    let mut hotp = HOTPBuilder::new()
        .ascii_key(&"12345678901234567890".to_string())
        .build()
        .unwrap();
    assert_eq!(text(hotp.generate()), "755224");
    hotp.increment_counter();
    assert_eq!(text(hotp.generate()), "287082");
    hotp.increment_counter();
    assert_eq!(text(hotp.generate()), "359152");
}

#[test]
fn hotp_counter_wraps() {
    let mut hotp = HOTPBuilder::new()
        .ascii_key(&"12345678901234567890".to_string())
        .counter(u64::MAX)
        .build()
        .unwrap();
    hotp.increment_counter();
    assert_eq!(text(hotp.generate()), "755224");
}

#[test]
fn hotp_generate_is_deterministic() {
    let hotp = HOTPBuilder::new()
        .key(&vec![1, 2, 3, 4, 5])
        .counter(42)
        .build()
        .unwrap();
    assert_eq!(hotp.generate(), hotp.generate());
    let other = HOTPBuilder::new()
        .key(&vec![1, 2, 3, 4, 5])
        .counter(42)
        .build()
        .unwrap();
    assert_eq!(hotp.generate(), other.generate());
}

#[test]
fn hotp_is_valid() {
    let hotp = HOTPBuilder::new()
        .ascii_key(&"12345678901234567890".to_string())
        .counter(1)
        .build()
        .unwrap();
    assert!(hotp.is_valid("287082"));
    assert!(!hotp.is_valid("755224"));
    assert!(!hotp.is_valid("28708"));
    assert!(!hotp.is_valid(""));
}

#[test]
fn hotp_hex_key_matches_ascii_key() {
    let hotp = HOTPBuilder::new()
        .hex_key(&"3132333435363738393031323334353637383930".to_string())
        .build()
        .unwrap();
    assert_eq!(text(hotp.generate()), "755224");
    let upper = HOTPBuilder::new()
        .hex_key(&"3132333435363738393031323334353637383930".to_uppercase())
        .build()
        .unwrap();
    assert_eq!(text(upper.generate()), "755224");
}

#[test]
fn hotp_base32_key_matches_ascii_key() {
    let hotp = HOTPBuilder::new()
        .base32_key(&"GEZDGNBVGY3TQOJQGEZDGNBVGY3TQOJQ".to_string())
        .build()
        .unwrap();
    assert_eq!(text(hotp.generate()), "755224");
}

#[test]
fn hotp_odd_hex_key_is_rejected() {
    let r = HOTPBuilder::new().hex_key(&"313".to_string()).build();
    assert!(matches!(r, Err(ErrorCode::InvalidKey)));
}

#[test]
fn hotp_non_hex_key_is_rejected() {
    let r = HOTPBuilder::new().hex_key(&"31zz".to_string()).build();
    assert!(matches!(r, Err(ErrorCode::InvalidKey)));
}

#[test]
fn hotp_bad_base32_key_is_rejected() {
    let r = HOTPBuilder::new().base32_key(&"GEZDGNBV1Y3TQOJQ".to_string()).build();
    assert!(matches!(r, Err(ErrorCode::InvalidKey)));
    let r = HOTPBuilder::new().base32_key(&"GEZDG NBV".to_string()).build();
    assert!(matches!(r, Err(ErrorCode::InvalidKey)));
    let r = HOTPBuilder::new().base32_key(&"GEZDGNBVGY3TQOJ=".to_string()).build();
    assert!(matches!(r, Err(ErrorCode::InvalidKey)));
    let r = HOTPBuilder::new().base32_key(&"gezdgnbvgy3tqojq".to_string()).build();
    assert!(matches!(r, Err(ErrorCode::InvalidKey)));
}

#[test]
fn hotp_decoding_failure_wins_over_later_key() {
    let r = HOTPBuilder::new()
        .hex_key(&"xyz".to_string())
        .ascii_key(&"12345678901234567890".to_string())
        .build();
    assert!(matches!(r, Err(ErrorCode::InvalidKey)));
}

#[test]
fn hotp_missing_or_empty_key_is_rejected() {
    assert!(matches!(HOTPBuilder::new().build(), Err(ErrorCode::InvalidKey)));
    assert!(matches!(HOTPBuilder::new().key(&vec![]).build(), Err(ErrorCode::InvalidKey)));
    assert!(matches!(
        HOTPBuilder::new().ascii_key(&String::new()).build(),
        Err(ErrorCode::InvalidKey)
    ));
}

#[test]
fn hotp_short_base_is_rejected() {
    let r = HOTPBuilder::new().key(&vec![1, 2, 3]).output_base(&vec![]).build();
    assert!(matches!(r, Err(ErrorCode::InvalidBaseLen)));
    let r = HOTPBuilder::new().key(&vec![1, 2, 3]).output_base(&vec![b'a']).build();
    assert!(matches!(r, Err(ErrorCode::InvalidBaseLen)));
}

#[test]
fn hotp_repeated_symbol_base_is_rejected() {
    let r = HOTPBuilder::new().key(&vec![1, 2, 3]).output_base(&b"00".to_vec()).build();
    assert!(matches!(r, Err(ErrorCode::InvalidBaseLen)));
    let r = HOTPBuilder::new().key(&vec![1, 2, 3]).output_base(&b"0123456780".to_vec()).build();
    assert!(matches!(r, Err(ErrorCode::InvalidBaseLen)));
}

#[test]
fn hotp_empty_key_checked_before_base() {
    let r = HOTPBuilder::new().output_base(&vec![b'a']).build();
    assert!(matches!(r, Err(ErrorCode::InvalidKey)));
}

#[test]
fn hotp_zero_length_is_too_small() {
    let r = HOTPBuilder::new().key(&vec![1, 2, 3]).output_len(0).build();
    assert!(matches!(r, Err(ErrorCode::CodeTooSmall)));
}

#[test]
fn hotp_modulus_overflow_is_too_big() {
    let r = HOTPBuilder::new().key(&vec![1, 2, 3]).output_len(20).build();
    assert!(matches!(r, Err(ErrorCode::CodeTooBig)));
    let ok = HOTPBuilder::new().key(&vec![1, 2, 3]).output_len(19).build();
    assert!(ok.is_ok());
    let r = HOTPBuilder::new()
        .key(&vec![1, 2, 3])
        .output_base(&vec![0, 1])
        .output_len(64)
        .build();
    assert!(matches!(r, Err(ErrorCode::CodeTooBig)));
    let ok = HOTPBuilder::new()
        .key(&vec![1, 2, 3])
        .output_base(&vec![0, 1])
        .output_len(63)
        .build();
    assert!(ok.is_ok());
}

#[test]
fn hotp_code_uses_base_and_length() {
    let base = b"ABCDEFGHIJKLMNOPQRSTUVWXYZ".to_vec();
    for c in 0..20u64 {
        let hotp = HOTPBuilder::new()
            .ascii_key(&"12345678901234567890".to_string())
            .output_base(&base)
            .output_len(5)
            .counter(c)
            .build()
            .unwrap();
        let code = hotp.generate();
        assert_eq!(code.len(), 5);
        assert!(code.iter().all(|b| base.contains(b)));
    }
}

#[test]
fn hotp_binary_base_renders_low_bits() {
    // counter 0 truncates to 0x4c93cf18 for the RFC 4226 key
    let hotp = HOTPBuilder::new()
        .ascii_key(&"12345678901234567890".to_string())
        .output_base(&b"01".to_vec())
        .output_len(8)
        .build()
        .unwrap();
    assert_eq!(text(hotp.generate()), "00011000");
}

#[test]
fn hotp_long_decimal_code() {
    // 0x4c93cf18 == 1284755224
    let hotp = HOTPBuilder::new()
        .ascii_key(&"12345678901234567890".to_string())
        .output_len(12)
        .build()
        .unwrap();
    assert_eq!(text(hotp.generate()), "001284755224");
}

#[test]
fn hotp_sha256_differs_from_sha1() {
    let a = HOTPBuilder::new()
        .ascii_key(&"12345678901234567890".to_string())
        .hash_function(HashFunction::Sha256)
        .build()
        .unwrap();
    assert_ne!(text(a.generate()), "755224");
    assert_eq!(a.generate().len(), 6);
}
