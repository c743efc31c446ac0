//! The code generator: HMAC of the counter, dynamic truncation, and rendering
//! in the configured alphabet.

use vstd::prelude::*;
use vstd::arithmetic::power::*;
use vstd::arithmetic::div_mod::*;
use hmac::{Hmac, Mac};
use crate::error::HashFunction;

verus! {

/// What HMAC-SHA1 returns for a key and a message.
pub uninterp spec fn hmac_sha1_of(key: Seq<u8>, msg: Seq<u8>) -> Seq<u8>;

/// What HMAC-SHA256 returns for a key and a message.
pub uninterp spec fn hmac_sha256_of(key: Seq<u8>, msg: Seq<u8>) -> Seq<u8>;

/// What HMAC-SHA512 returns for a key and a message.
pub uninterp spec fn hmac_sha512_of(key: Seq<u8>, msg: Seq<u8>) -> Seq<u8>;

/// Relies on hmac::Hmac over sha1::Sha1: the 20-byte HMAC-SHA1 tag of `msg`
/// under `key`. `new_from_slice` of `Hmac` accepts keys of every length.
#[verifier::external_body]
fn hmac_sha1(key: &[u8], msg: &[u8]) -> (r: Vec<u8>)
    ensures
        r@ == hmac_sha1_of(key@, msg@),
        r@.len() == 20,
{
    let mut mac = <Hmac<sha1::Sha1> as Mac>::new_from_slice(key).expect("HMAC takes keys of any length");
    mac.update(msg);
    mac.finalize().into_bytes().to_vec()
}

/// Relies on hmac::Hmac over sha2::Sha256: the 32-byte HMAC-SHA256 tag of
/// `msg` under `key`. `new_from_slice` of `Hmac` accepts keys of every length.
#[verifier::external_body]
fn hmac_sha256(key: &[u8], msg: &[u8]) -> (r: Vec<u8>)
    ensures
        r@ == hmac_sha256_of(key@, msg@),
        r@.len() == 32,
{
    let mut mac = <Hmac<sha2::Sha256> as Mac>::new_from_slice(key).expect("HMAC takes keys of any length");
    mac.update(msg);
    mac.finalize().into_bytes().to_vec()
}

/// Relies on hmac::Hmac over sha2::Sha512: the 64-byte HMAC-SHA512 tag of
/// `msg` under `key`. `new_from_slice` of `Hmac` accepts keys of every length.
#[verifier::external_body]
fn hmac_sha512(key: &[u8], msg: &[u8]) -> (r: Vec<u8>)
    ensures
        r@ == hmac_sha512_of(key@, msg@),
        r@.len() == 64,
{
    let mut mac = <Hmac<sha2::Sha512> as Mac>::new_from_slice(key).expect("HMAC takes keys of any length");
    mac.update(msg);
    mac.finalize().into_bytes().to_vec()
}

/// The HMAC digest of `msg` under `key` with the selected hash function.
pub open spec fn hmac_digest(h: HashFunction, key: Seq<u8>, msg: Seq<u8>) -> Seq<u8> {
    match h {
        HashFunction::Sha1 => hmac_sha1_of(key, msg),
        HashFunction::Sha256 => hmac_sha256_of(key, msg),
        HashFunction::Sha512 => hmac_sha512_of(key, msg),
    }
}

/// The eight bytes of a counter, most significant first.
pub open spec fn counter_bytes(c: u64) -> Seq<u8> {
    seq![
        (c >> 56u64) as u8,
        (c >> 48u64) as u8,
        (c >> 40u64) as u8,
        (c >> 32u64) as u8,
        (c >> 24u64) as u8,
        (c >> 16u64) as u8,
        (c >> 8u64) as u8,
        c as u8,
    ]
}

/// Where dynamic truncation reads: the low four bits of the last byte.
pub open spec fn truncation_offset(d: Seq<u8>) -> int {
    (d.last() & 0x0fu8) as int
}

/// The 31-bit big-endian integer read at the truncation offset, with the top
/// bit of its first byte cleared.
pub open spec fn bin_code(d: Seq<u8>) -> nat {
    let o = truncation_offset(d);
    ((d[o] & 0x7fu8) as nat) * 0x1000000 + (d[o + 1] as nat) * 0x10000 + (d[o + 2] as nat) * 0x100
        + (d[o + 3] as nat)
}

/// `v` written with exactly `n` symbols of `base`, most significant first.
pub open spec fn render(v: nat, base: Seq<u8>, n: nat) -> Seq<u8> {
    Seq::new(n, |i: int| base[((v as int) / pow(base.len() as int, (n - 1 - i) as nat)) % (base.len() as int)])
}

/// The code for a counter: truncate the digest, reduce it modulo
/// `radix ^ length`, and render it.
pub open spec fn otp_code(key: Seq<u8>, h: HashFunction, base: Seq<u8>, n: nat, counter: u64) -> Seq<u8> {
    let d = hmac_digest(h, key, counter_bytes(counter));
    render((bin_code(d) as int % pow(base.len() as int, n)) as nat, base, n)
}

/// Every code has exactly `n` symbols, each taken from the alphabet.
pub proof fn lemma_code_symbols(key: Seq<u8>, h: HashFunction, base: Seq<u8>, n: nat, counter: u64)
    requires
        base.len() >= 2,
    ensures
        otp_code(key, h, base, n, counter).len() == n,
        forall|i: int| 0 <= i < n ==> base.contains(#[trigger] otp_code(key, h, base, n, counter)[i]),
{
    let c = otp_code(key, h, base, n, counter);
    let d = hmac_digest(h, key, counter_bytes(counter));
    let v = (bin_code(d) as int % pow(base.len() as int, n)) as nat;
    assert forall|i: int| 0 <= i < n implies base.contains(#[trigger] c[i]) by {
        let j = ((v as int) / pow(base.len() as int, (n - 1 - i) as nat)) % (base.len() as int);
        assert(0 <= j < base.len());
        assert(c[i] == base[j]);
    }
}

/// An alphabet of two symbols or more, none repeated.
pub open spec fn alphabet_ok(base: Seq<u8>) -> bool {
    base.len() >= 2 && base.no_duplicates()
}

/// Whether no byte occurs twice.
pub fn distinct_bytes(b: &[u8]) -> (r: bool)
    ensures
        r == b@.no_duplicates(),
{
    let mut i: usize = 0;
    while i < b.len()
        invariant
            0 <= i <= b@.len(),
            forall|x: int, y: int| 0 <= x < i && 0 <= y < b@.len() && x != y ==> b@[x] != b@[y],
        decreases b.len() - i,
    {
        let mut j: usize = 0;
        while j < b.len()
            invariant
                0 <= i < b@.len(),
                0 <= j <= b@.len(),
                forall|x: int, y: int| 0 <= x < i && 0 <= y < b@.len() && x != y ==> b@[x] != b@[y],
                forall|y: int| 0 <= y < j && y != i ==> b@[i as int] != b@[y],
            decreases b.len() - j,
        {
            if j != i && b[i] == b[j] {
                return false;
            }
            j = j + 1;
        }
        i = i + 1;
    }
    true
}

/// What a configuration must satisfy before codes are generated from it.
pub open spec fn params_ok(key: Seq<u8>, base: Seq<u8>, n: nat) -> bool {
    &&& key.len() > 0
    &&& alphabet_ok(base)
    &&& n >= 1
    &&& pow(base.len() as int, n) <= u64::MAX
}

pub proof fn lemma_pow_succ(b: int, e: nat)
    ensures
        pow(b, e + 1) == b * pow(b, e),
{
    reveal(pow);
}

/// The counter as eight big-endian bytes.
pub fn counter_to_bytes(c: u64) -> (r: Vec<u8>)
    ensures
        r@ == counter_bytes(c),
{
    let mut r: Vec<u8> = Vec::new();
    r.push((c >> 56u64) as u8);
    r.push((c >> 48u64) as u8);
    r.push((c >> 40u64) as u8);
    r.push((c >> 32u64) as u8);
    r.push((c >> 24u64) as u8);
    r.push((c >> 16u64) as u8);
    r.push((c >> 8u64) as u8);
    r.push(c as u8);
    assert(r@ =~= counter_bytes(c));
    r
}

/// The HMAC digest with the selected hash function.
pub fn compute_hmac(h: HashFunction, key: &[u8], msg: &[u8]) -> (r: Vec<u8>)
    ensures
        r@ == hmac_digest(h, key@, msg@),
        r@.len() >= 20,
{
    match h {
        HashFunction::Sha1 => hmac_sha1(key, msg),
        HashFunction::Sha256 => hmac_sha256(key, msg),
        HashFunction::Sha512 => hmac_sha512(key, msg),
    }
}

/// Dynamic truncation of a digest of at least 20 bytes.
pub fn truncate(d: &[u8]) -> (r: u32)
    requires
        d@.len() >= 20,
    ensures
        r as nat == bin_code(d@),
        r < 0x80000000,
{
    let last = d[d.len() - 1];
    let o = (last & 0x0fu8) as usize;
    assert((last & 0x0fu8) <= 15u8) by (bit_vector);
    let x = d[o];
    let b0 = x & 0x7fu8;
    assert(b0 <= 0x7fu8) by (bit_vector)
        requires b0 == x & 0x7fu8;
    let r = (b0 as u32) * 0x1000000u32 + (d[o + 1] as u32) * 0x10000u32 + (d[o + 2] as u32) * 0x100u32
        + (d[o + 3] as u32);
    r
}

/// Renders `v` with exactly `n` symbols of `base`, most significant first.
pub fn render_code(v: u64, base: &[u8], n: usize) -> (r: Vec<u8>)
    requires
        base@.len() >= 2,
        n >= 1,
        pow(base@.len() as int, n as nat) <= u64::MAX,
    ensures
        r@ == render(v as nat, base@, n as nat),
{
    let radix = base.len() as u64;
    let ghost r_int = radix as int;
    let mut p: u64 = 1;
    let mut k: usize = 1;
    proof {
        lemma_pow0(r_int);
    }
    while k < n
        invariant
            1 <= k <= n,
            radix == base@.len(),
            radix >= 2,
            r_int == radix as int,
            p as int == pow(r_int, (k - 1) as nat),
            pow(r_int, n as nat) <= u64::MAX,
        decreases n - k,
    {
        proof {
            lemma_pow_increases(radix as nat, k as nat, n as nat);
            lemma_pow_succ(r_int, (k - 1) as nat);
        }
        p = p * radix;
        k = k + 1;
    }
    let mut out: Vec<u8> = Vec::new();
    let mut i: usize = 0;
    while i < n
        invariant
            0 <= i <= n,
            radix == base@.len(),
            radix >= 2,
            r_int == radix as int,
            i < n ==> p as int == pow(r_int, (n - 1 - i) as nat),
            out@ =~= render(v as nat, base@, n as nat).subrange(0, i as int),
        decreases n - i,
    {
        proof {
            lemma_pow_positive(r_int, (n - 1 - i) as nat);
        }
        let digit = (v / p) % radix;
        assert(digit < radix);
        out.push(base[digit as usize]);
        if i + 1 < n {
            proof {
                let e = (n - 1 - (i + 1)) as nat;
                lemma_pow_succ(r_int, e);
                lemma_div_multiples_vanish(pow(r_int, e), r_int);
            }
            p = p / radix;
        }
        i = i + 1;
    }
    assert(out@ =~= render(v as nat, base@, n as nat));
    out
}

/// The code for `counter` under a well-formed configuration.
pub fn generate_code(key: &[u8], h: HashFunction, base: &[u8], n: usize, counter: u64) -> (r: Vec<u8>)
    requires
        params_ok(key@, base@, n as nat),
    ensures
        r@ == otp_code(key@, h, base@, n as nat, counter),
{
    let msg = counter_to_bytes(counter);
    let d = compute_hmac(h, key, msg.as_slice());
    let bin = truncate(d.as_slice());
    let radix = base.len() as u64;
    let ghost r_int = radix as int;
    let mut m: u64 = radix;
    let mut k: usize = 1;
    proof {
        lemma_pow1(r_int);
    }
    while k < n
        invariant
            1 <= k <= n,
            radix == base@.len(),
            radix >= 2,
            r_int == radix as int,
            m as int == pow(r_int, k as nat),
            pow(r_int, n as nat) <= u64::MAX,
        decreases n - k,
    {
        proof {
            lemma_pow_increases(radix as nat, (k + 1) as nat, n as nat);
            lemma_pow_succ(r_int, k as nat);
        }
        m = m * radix;
        k = k + 1;
    }
    proof {
        lemma_pow_positive(r_int, n as nat);
    }
    let v = (bin as u64) % m;
    render_code(v, base, n)
}

} // verus!

verus! {

/// Compares two byte strings without stopping at the first difference.
pub fn constant_time_eq(a: &[u8], b: &[u8]) -> (r: bool)
    ensures
        r == (a@ == b@),
{
    if a.len() != b.len() {
        return false;
    }
    let mut acc: u8 = 0;
    let mut i: usize = 0;
    while i < a.len()
        invariant
            a@.len() == b@.len(),
            0 <= i <= a@.len(),
            (acc == 0) <==> (forall|k: int| 0 <= k < i ==> a@[k] == b@[k]),
        decreases a.len() - i,
    {
        let x = a[i];
        let y = b[i];
        let next = acc | (x ^ y);
        assert((next == 0) <==> (acc == 0 && x == y)) by (bit_vector)
            requires next == acc | (x ^ y);
        acc = next;
        i = i + 1;
    }
    assert((acc == 0) ==> a@ =~= b@);
    acc == 0
}

} // verus!
