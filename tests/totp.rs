use oath::totp::TOTPBuilder;
use oath::{ErrorCode, HashFunction};

const KEY20: &str = "12345678901234567890";
const KEY32: &str = "12345678901234567890123456789012";
const KEY64: &str = "1234567890123456789012345678901234567890123456789012345678901234";

fn code(key: &str, h: HashFunction, t: u64) -> String {
    let totp = TOTPBuilder::new()
        .ascii_key(&key.to_string())
        .hash_function(h)
        .output_len(8)
        .timestamp(t)
        .build()
        .unwrap();
    String::from_utf8(totp.generate()).unwrap()
}

#[test]
fn totp_rfc6238_sha1() {
    assert_eq!(code(KEY20, HashFunction::Sha1, 59), "94287082");
    assert_eq!(code(KEY20, HashFunction::Sha1, 1111111109), "07081804");
}

#[test]
fn totp_rfc6238_sha256() {
    assert_eq!(code(KEY32, HashFunction::Sha256, 59), "46119246");
    assert_eq!(code(KEY32, HashFunction::Sha256, 1111111109), "68084774");
}

#[test]
fn totp_rfc6238_sha512() {
    assert_eq!(code(KEY64, HashFunction::Sha512, 59), "90693936");
    assert_eq!(code(KEY64, HashFunction::Sha512, 1111111109), "25091201");
}

#[test]
fn totp_counter_is_time_over_period() {
    let totp = TOTPBuilder::new()
        .ascii_key(&KEY20.to_string())
        .timestamp(59)
        .build()
        .unwrap();
    assert_eq!(totp.counter(), 1);
    let totp = TOTPBuilder::new()
        .ascii_key(&KEY20.to_string())
        .timestamp(100)
        .period(10)
        .build()
        .unwrap();
    assert_eq!(totp.counter(), 10);
}

#[test]
fn totp_zero_period_is_rejected() {
    let r = TOTPBuilder::new()
        .ascii_key(&KEY20.to_string())
        .timestamp(59)
        .period(0)
        .build();
    assert!(matches!(r, Err(ErrorCode::InvalidPeriod)));
}

#[test]
fn totp_key_checked_before_period() {
    let r = TOTPBuilder::new().timestamp(59).period(0).build();
    assert!(matches!(r, Err(ErrorCode::InvalidKey)));
    let r = TOTPBuilder::new()
        .ascii_key(&KEY20.to_string())
        .output_base(&vec![b'x'])
        .period(0)
        .build();
    assert!(matches!(r, Err(ErrorCode::InvalidBaseLen)));
}

#[test]
fn totp_default_uses_the_clock() {
    let totp = TOTPBuilder::new().ascii_key(&KEY20.to_string()).build().unwrap();
    assert_eq!(totp.generate().len(), 6);
    assert!(totp.counter() > 1_000_000);
}

fn code_at_step(step: u64) -> String {
    let totp = TOTPBuilder::new()
        .ascii_key(&KEY20.to_string())
        .timestamp(step * 30 + 7)
        .build()
        .unwrap();
    String::from_utf8(totp.generate()).unwrap()
}

#[test]
fn totp_tolerance_window_boundaries() {
    let current: u64 = 1000;
    let totp = TOTPBuilder::new()
        .ascii_key(&KEY20.to_string())
        .timestamp(current * 30 + 12)
        .period(30)
        .tolerance(1)
        .build()
        .unwrap();
    assert!(totp.is_valid(&code_at_step(current - 1)));
    assert!(totp.is_valid(&code_at_step(current)));
    assert!(totp.is_valid(&code_at_step(current + 1)));
    assert!(!totp.is_valid(&code_at_step(current - 2)));
    assert!(!totp.is_valid(&code_at_step(current + 2)));
}

#[test]
fn totp_no_tolerance_accepts_only_current() {
    let totp = TOTPBuilder::new()
        .ascii_key(&KEY20.to_string())
        .timestamp(59)
        .output_len(8)
        .build()
        .unwrap();
    assert!(totp.is_valid("94287082"));
    assert!(!totp.is_valid("94287083"));
}

#[test]
fn totp_window_at_time_zero() {
    let totp = TOTPBuilder::new()
        .ascii_key(&KEY20.to_string())
        .timestamp(0)
        .tolerance(2)
        .build()
        .unwrap();
    assert!(totp.is_valid("755224"));
    assert!(totp.is_valid("287082"));
    assert!(totp.is_valid("359152"));
    assert!(!totp.is_valid("969429"));
}
