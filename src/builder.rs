//! The configuration state shared by the HOTP and TOTP builders, and the
//! validation both perform when they build.

use vstd::prelude::*;
use vstd::arithmetic::power::*;
use vstd::string::StringSliceAdditionalSpecFns;
use crate::code::{alphabet_ok, distinct_bytes, params_ok, lemma_pow_succ};
use crate::error::{ErrorCode, HashFunction};
use crate::key::{base32_decoded_of, rfc4648_text, decode_base32, decode_hex, hex_decoded, hex_valid};

verus! {

/// What a builder has accumulated so far.
pub struct SettingsModel {
    pub key: Option<Seq<u8>>,
    pub output_len: nat,
    pub output_base: Seq<u8>,
    pub hash_function: HashFunction,
    pub pending: Option<ErrorCode>,
}

/// The ten ASCII digits, the default output alphabet.
pub open spec fn decimal_digits() -> Seq<u8> {
    seq![0x30u8, 0x31u8, 0x32u8, 0x33u8, 0x34u8, 0x35u8, 0x36u8, 0x37u8, 0x38u8, 0x39u8]
}

/// The state of a fresh builder.
pub open spec fn default_settings() -> SettingsModel {
    SettingsModel {
        key: None,
        output_len: 6,
        output_base: decimal_digits(),
        hash_function: HashFunction::Sha1,
        pending: None,
    }
}

/// Records a decoding failure unless one is already pending.
pub open spec fn record_failure(m: SettingsModel) -> SettingsModel {
    SettingsModel { pending: if m.pending is Some { m.pending } else { Some(ErrorCode::InvalidKey) }, ..m }
}

/// The first rule that the accumulated settings break, in the order the
/// build checks them, or `None` when they make a valid configuration.
pub open spec fn settings_error(m: SettingsModel) -> Option<ErrorCode> {
    if m.key is None || m.key.unwrap().len() == 0 {
        Some(ErrorCode::InvalidKey)
    } else if !alphabet_ok(m.output_base) {
        Some(ErrorCode::InvalidBaseLen)
    } else if m.pending is Some {
        m.pending
    } else if m.output_len == 0 {
        Some(ErrorCode::CodeTooSmall)
    } else if pow(m.output_base.len() as int, m.output_len) > u64::MAX {
        Some(ErrorCode::CodeTooBig)
    } else {
        None
    }
}

/// A build fails with the specific error of the rule broken first: a missing
/// or empty key gives `InvalidKey`, and with a key, an alphabet of fewer than
/// two symbols, or with a symbol repeated, gives `InvalidBaseLen`.
pub proof fn lemma_build_rejects(m: SettingsModel)
    ensures
        m.key is None ==> settings_error(m) == Some(ErrorCode::InvalidKey),
        m.key is Some && m.key.unwrap().len() == 0 ==> settings_error(m) == Some(ErrorCode::InvalidKey),
        m.key is Some && m.key.unwrap().len() > 0 && m.output_base.len() < 2 ==> settings_error(m) == Some(
            ErrorCode::InvalidBaseLen,
        ),
        m.key is Some && m.key.unwrap().len() > 0 && !m.output_base.no_duplicates() ==> settings_error(m)
            == Some(ErrorCode::InvalidBaseLen),
{
}

/// Once a key fails to decode, every build fails; with an alphabet of two
/// distinct symbols or more it fails with `InvalidKey`.
pub proof fn lemma_decoding_failure_rejects(m: SettingsModel)
    requires
        m.pending is None || m.pending == Some(ErrorCode::InvalidKey),
    ensures
        settings_error(record_failure(m)) is Some,
        alphabet_ok(m.output_base) ==> settings_error(record_failure(m)) == Some(ErrorCode::InvalidKey),
{
}

/// Key, output format and hash function, as the builders accumulate them.
pub struct Settings {
    key: Option<Vec<u8>>,
    output_len: usize,
    output_base: Vec<u8>,
    hash_function: HashFunction,
    pending: Option<ErrorCode>,
}

impl View for Settings {
    type V = SettingsModel;

    closed spec fn view(&self) -> SettingsModel {
        SettingsModel {
            key: match self.key {
                Some(k) => Some(k@),
                None => None,
            },
            output_len: self.output_len as nat,
            output_base: self.output_base@,
            hash_function: self.hash_function,
            pending: self.pending,
        }
    }
}

impl Settings {
    /// Fresh settings: no key, six decimal digits, SHA1.
    pub fn new() -> (r: Settings)
        ensures
            r@ == default_settings(),
    {
        let base: Vec<u8> = vec![0x30u8, 0x31u8, 0x32u8, 0x33u8, 0x34u8, 0x35u8, 0x36u8, 0x37u8, 0x38u8, 0x39u8];
        let r = Settings { key: None, output_len: 6, output_base: base, hash_function: HashFunction::Sha1, pending: None };
        assert(r@.output_base =~= decimal_digits());
        r
    }

    /// The secret as raw bytes.
    pub fn set_key(&mut self, key: &[u8])
        ensures
            final(self)@ == (SettingsModel { key: Some(key@), ..old(self)@ }),
    {
        self.key = Some(vstd::slice::slice_to_vec(key));
    }

    /// The secret as the bytes of a text.
    pub fn set_ascii_key(&mut self, key: &str)
        ensures
            final(self)@ == (SettingsModel { key: Some(key.spec_bytes()), ..old(self)@ }),
    {
        self.key = Some(vstd::slice::slice_to_vec(key.as_bytes()));
    }

    /// The secret as hexadecimal text; a decoding failure is recorded.
    pub fn set_hex_key(&mut self, key: &str)
        ensures
            hex_valid(key.spec_bytes()) ==> final(self)@ == (SettingsModel {
                key: Some(hex_decoded(key.spec_bytes())),
                ..old(self)@
            }),
            !hex_valid(key.spec_bytes()) ==> final(self)@ == record_failure(old(self)@),
    {
        match decode_hex(key) {
            Some(k) => {
                self.key = Some(k);
            },
            None => {
                self.record_failure();
            },
        }
    }

    /// The secret as base32 text; a decoding failure is recorded.
    pub fn set_base32_key(&mut self, key: &str)
        ensures
            rfc4648_text(key@) ==> final(self)@ == (SettingsModel {
                key: Some(base32_decoded_of(key@)),
                ..old(self)@
            }),
            !rfc4648_text(key@) ==> final(self)@ == record_failure(old(self)@),
    {
        match decode_base32(key) {
            Some(k) => {
                self.key = Some(k);
            },
            None => {
                self.record_failure();
            },
        }
    }

    fn record_failure(&mut self)
        ensures
            final(self)@ == record_failure(old(self)@),
    {
        if self.pending.is_none() {
            self.pending = Some(ErrorCode::InvalidKey);
        }
    }

    /// The number of symbols in a code.
    pub fn set_output_len(&mut self, output_len: usize)
        ensures
            final(self)@ == (SettingsModel { output_len: output_len as nat, ..old(self)@ }),
    {
        self.output_len = output_len;
    }

    /// The alphabet a code is written in.
    pub fn set_output_base(&mut self, base: &[u8])
        ensures
            final(self)@ == (SettingsModel { output_base: base@, ..old(self)@ }),
    {
        self.output_base = vstd::slice::slice_to_vec(base);
    }

    /// The HMAC hash function.
    pub fn set_hash_function(&mut self, hash_function: HashFunction)
        ensures
            final(self)@ == (SettingsModel { hash_function, ..old(self)@ }),
    {
        self.hash_function = hash_function;
    }

    /// Checks the settings in order: key, alphabet length, pending decoding
    /// failure, code length and modulus.
    pub fn check(&self) -> (r: Result<(), ErrorCode>)
        ensures
            r is Ok <==> settings_error(self@) is None,
            r matches Err(e) ==> settings_error(self@) == Some(e),
            r is Ok ==> params_ok(self@.key.unwrap(), self@.output_base, self@.output_len),
    {
        let key_empty = match &self.key {
            Some(k) => k.len() == 0,
            None => true,
        };
        if key_empty {
            return Err(ErrorCode::InvalidKey);
        }
        if self.output_base.len() < 2 || !distinct_bytes(self.output_base.as_slice()) {
            return Err(ErrorCode::InvalidBaseLen);
        }
        if let Some(e) = self.pending {
            return Err(e);
        }
        if self.output_len == 0 {
            return Err(ErrorCode::CodeTooSmall);
        }
        let radix = self.output_base.len() as u64;
        let ghost r_int = radix as int;
        let n = self.output_len;
        let mut m: u64 = radix;
        let mut k: usize = 1;
        proof {
            lemma_pow1(r_int);
        }
        while k < n
            invariant
                1 <= k <= n,
                n == self.output_len,
                radix == self.output_base@.len(),
                radix >= 2,
                r_int == radix as int,
                m as int == pow(r_int, k as nat),
                self@.key is Some,
                self@.key.unwrap().len() > 0,
                self@.pending is None,
                alphabet_ok(self@.output_base),
            decreases n - k,
        {
            proof {
                lemma_pow_succ(r_int, k as nat);
            }
            match m.checked_mul(radix) {
                Some(x) => {
                    m = x;
                },
                None => {
                    proof {
                        lemma_pow_increases(radix as nat, (k + 1) as nat, n as nat);
                    }
                    return Err(ErrorCode::CodeTooBig);
                },
            }
            k = k + 1;
        }
        Ok(())
    }

    /// The key; only meaningful once `check` has succeeded.
    pub fn key_bytes(&self) -> (r: &[u8])
        requires
            self@.key is Some,
        ensures
            r@ == self@.key.unwrap(),
    {
        match &self.key {
            Some(k) => k.as_slice(),
            None => {
                assert(false);
                &[]
            },
        }
    }

    /// The number of symbols in a code.
    pub fn output_len(&self) -> (r: usize)
        ensures
            r as nat == self@.output_len,
    {
        self.output_len
    }

    /// The alphabet a code is written in.
    pub fn output_base(&self) -> (r: &[u8])
        ensures
            r@ == self@.output_base,
    {
        self.output_base.as_slice()
    }

    /// The HMAC hash function.
    pub fn hash_function(&self) -> (r: HashFunction)
        ensures
            r == self@.hash_function,
    {
        self.hash_function
    }
}

} // verus!
