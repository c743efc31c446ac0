//! Decoding of secret keys given as hexadecimal or base32 text.

use vstd::prelude::*;
use vstd::string::StringSliceAdditionalSpecFns;

verus! {

/// An ASCII hexadecimal digit, either case.
pub open spec fn is_hex_digit(c: u8) -> bool {
    (0x30 <= c <= 0x39) || (0x61 <= c <= 0x66) || (0x41 <= c <= 0x46)
}

/// The value of a hexadecimal digit.
pub open spec fn hex_value(c: u8) -> int {
    if 0x30 <= c <= 0x39 {
        c - 0x30
    } else if 0x61 <= c <= 0x66 {
        c - 0x61 + 10
    } else {
        c - 0x41 + 10
    }
}

/// Text that decodes as hexadecimal: an even number of hex digits.
pub open spec fn hex_valid(s: Seq<u8>) -> bool {
    &&& s.len() % 2 == 0
    &&& forall|i: int| 0 <= i < s.len() ==> is_hex_digit(#[trigger] s[i])
}

/// The bytes that valid hexadecimal text stands for, two digits per byte.
pub open spec fn hex_decoded(s: Seq<u8>) -> Seq<u8> {
    Seq::new(s.len() / 2, |i: int| (16 * hex_value(s[2 * i]) + hex_value(s[2 * i + 1])) as u8)
}

/// The lower-case hexadecimal digit of a value below 16.
pub open spec fn hex_digit(v: int) -> u8 {
    if v < 10 {
        (0x30 + v) as u8
    } else {
        (0x61 + v - 10) as u8
    }
}

/// Lower-case hexadecimal text of a byte sequence, high digit first.
pub open spec fn hex_encoded(b: Seq<u8>) -> Seq<u8> {
    Seq::new(
        2 * b.len(),
        |i: int|
            if i % 2 == 0 {
                hex_digit(b[i / 2] as int / 16)
            } else {
                hex_digit(b[i / 2] as int % 16)
            },
    )
}

/// Hexadecimal decoding inverts hexadecimal encoding: the encoding of any
/// byte sequence is valid hexadecimal text, and it decodes to those bytes.
pub proof fn lemma_hex_round_trip(b: Seq<u8>)
    ensures
        hex_valid(hex_encoded(b)),
        hex_decoded(hex_encoded(b)) == b,
{
    let e = hex_encoded(b);
    assert forall|i: int| 0 <= i < e.len() implies is_hex_digit(#[trigger] e[i]) by {
        let x = b[i / 2] as int;
        assert(0 <= x / 16 < 16 && 0 <= x % 16 < 16);
    }
    assert forall|i: int| 0 <= i < b.len() implies hex_decoded(e)[i] == b[i] by {
        let x = b[i] as int;
        assert((2 * i) / 2 == i && (2 * i + 1) / 2 == i && (2 * i) % 2 == 0 && (2 * i + 1) % 2 == 1);
        assert(hex_value(hex_digit(x / 16)) == x / 16);
        assert(hex_value(hex_digit(x % 16)) == x % 16);
        assert(16 * (x / 16) + x % 16 == x);
    }
    assert(hex_decoded(e) =~= b);
}

/// Hexadecimal encoding inverts decoding on valid lower-case text.
pub proof fn lemma_hex_round_trip_text(s: Seq<u8>)
    requires
        hex_valid(s),
        forall|i: int| 0 <= i < s.len() ==> !(0x41 <= #[trigger] s[i] <= 0x46),
    ensures
        hex_encoded(hex_decoded(s)) == s,
{
    let d = hex_decoded(s);
    assert forall|i: int| 0 <= i < s.len() implies hex_encoded(d)[i] == s[i] by {
        let j = i / 2;
        let hi = hex_value(s[2 * j]);
        let lo = hex_value(s[2 * j + 1]);
        assert(is_hex_digit(s[2 * j]) && is_hex_digit(s[2 * j + 1]));
        assert(0 <= hi < 16 && 0 <= lo < 16);
        assert(d[j] as int == 16 * hi + lo);
        assert((16 * hi + lo) / 16 == hi && (16 * hi + lo) % 16 == lo) by (nonlinear_arith)
            requires 0 <= hi < 16, 0 <= lo < 16;
        assert(is_hex_digit(s[i]));
    }
    assert(hex_encoded(d) =~= s);
}

/// The value of one hexadecimal digit, if it is one.
fn hex_digit_value(c: u8) -> (r: Option<u8>)
    ensures
        r is Some <==> is_hex_digit(c),
        r matches Some(v) ==> v as int == hex_value(c) && v < 16,
{
    if 0x30 <= c && c <= 0x39 {
        Some(c - 0x30)
    } else if 0x61 <= c && c <= 0x66 {
        Some(c - 0x61 + 10)
    } else if 0x41 <= c && c <= 0x46 {
        Some(c - 0x41 + 10)
    } else {
        None
    }
}

/// Decodes hexadecimal text: `None` on odd length or on any character that is
/// not a hex digit.
pub fn decode_hex(s: &str) -> (r: Option<Vec<u8>>)
    ensures
        r is Some <==> hex_valid(s.spec_bytes()),
        r matches Some(v) ==> v@ == hex_decoded(s.spec_bytes()),
{
    let b = s.as_bytes();
    let ghost sb = s.spec_bytes();
    if b.len() % 2 != 0 {
        return None;
    }
    let mut out: Vec<u8> = Vec::new();
    let mut i: usize = 0;
    while i < b.len() / 2
        invariant
            b@ == sb,
            sb == s.spec_bytes(),
            sb.len() % 2 == 0,
            0 <= i <= sb.len() / 2,
            forall|k: int| 0 <= k < 2 * i ==> is_hex_digit(#[trigger] sb[k]),
            out@ =~= hex_decoded(sb).subrange(0, i as int),
        decreases b.len() / 2 - i,
    {
        let hi = hex_digit_value(b[2 * i]);
        let lo = hex_digit_value(b[2 * i + 1]);
        match (hi, lo) {
            (Some(h), Some(l)) => {
                out.push(h * 16 + l);
            },
            _ => {
                assert(!is_hex_digit(sb[2 * i as int]) || !is_hex_digit(sb[2 * i + 1]));
                return None;
            },
        }
        i = i + 1;
    }
    Some(out)
}

/// A symbol that base32 decoding accepts: the RFC 4648 letters in either
/// case, the digits 2 to 7, and the padding sign.
pub open spec fn base32_symbol(c: char) -> bool {
    ('A' <= c <= 'Z') || ('a' <= c <= 'z') || ('2' <= c <= '7') || c == '='
}

/// Text made of symbols that base32 decoding accepts.
pub open spec fn base32_text(s: Seq<char>) -> bool {
    forall|i: int| 0 <= i < s.len() ==> base32_symbol(#[trigger] s[i])
}

/// What base32 decoding returns for text made of accepted symbols.
pub uninterp spec fn base32_decoded_of(s: Seq<char>) -> Seq<u8>;

/// Relies on base32::decode with the RFC 4648 alphabet, unpadded: it fails
/// exactly on text holding a character that is none of A-Z, a-z, 2-7 or `=`.
#[verifier::external_body]
fn base32_decode(s: &str) -> (r: Option<Vec<u8>>)
    ensures
        r is None <==> !base32_text(s@),
        r is Some ==> r.unwrap()@ == base32_decoded_of(s@),
{
    base32::decode(base32::Alphabet::RFC4648 { padding: false }, s)
}

/// A symbol of the unpadded RFC 4648 base32 alphabet: an upper-case letter
/// or a digit from 2 to 7.
pub open spec fn rfc4648_symbol(c: char) -> bool {
    ('A' <= c <= 'Z') || ('2' <= c <= '7')
}

/// Text made only of symbols of the unpadded RFC 4648 alphabet.
pub open spec fn rfc4648_text(s: Seq<char>) -> bool {
    forall|i: int| 0 <= i < s.len() ==> rfc4648_symbol(#[trigger] s[i])
}

/// Decodes base32 text (RFC 4648, no padding). Text holding anything but
/// upper-case letters and the digits 2 to 7 (lower case and `=` included) is
/// rejected here, before the decoder, which would accept those.
pub fn decode_base32(s: &str) -> (r: Option<Vec<u8>>)
    ensures
        r is None <==> !rfc4648_text(s@),
        r matches Some(v) ==> v@ == base32_decoded_of(s@),
{
    broadcast use vstd::string::is_ascii_spec_bytes;
    if !s.is_ascii() {
        proof {
            let k = choose|k: int| 0 <= k < s@.len() && !('\0' <= #[trigger] s@[k] <= '\u{7f}');
            assert(!rfc4648_symbol(s@[k]));
        }
        return None;
    }
    let b = s.as_bytes();
    proof {
        assert(b@ =~= Seq::new(s@.len(), |i: int| s@[i] as u8));
    }
    let mut i: usize = 0;
    while i < b.len()
        invariant
            b@ =~= Seq::new(s@.len(), |j: int| s@[j] as u8),
            vstd::utf8::is_ascii_chars(s@),
            0 <= i <= b@.len(),
            forall|k: int| 0 <= k < i ==> rfc4648_symbol(#[trigger] s@[k]),
        decreases b.len() - i,
    {
        let c = b[i];
        proof {
            let ch = s@[i as int];
            assert('\0' <= ch <= '\u{7f}');
            assert(c == ch as u8);
        }
        if !((0x41u8 <= c && c <= 0x5au8) || (0x32u8 <= c && c <= 0x37u8)) {
            return None;
        }
        i = i + 1;
    }
    proof {
        assert forall|k: int| 0 <= k < s@.len() implies base32_symbol(#[trigger] s@[k]) by {
            assert(rfc4648_symbol(s@[k]));
        }
    }
    base32_decode(s)
}

} // verus!
