//! Time-based one-time passwords: HOTP over a counter derived from the time.

use vstd::prelude::*;
use vstd::string::StringSliceAdditionalSpecFns;
use vstd::utf8::encode_utf8;
use crate::builder::{default_settings, record_failure, settings_error, Settings, SettingsModel};
use crate::code::{constant_time_eq, lemma_code_symbols, generate_code, otp_code, params_ok};
use crate::error::{ErrorCode, HashFunction};
use crate::key::{base32_decoded_of, rfc4648_text, hex_decoded, hex_valid};

verus! {

/// Relies on std::time::SystemTime::now: the seconds since the Unix epoch,
/// `None` when the clock stands before it. Nothing is known of the value.
#[verifier::external_body]
fn unix_time_now() -> (r: Option<u64>)
{
    match std::time::SystemTime::now().duration_since(std::time::UNIX_EPOCH) {
        Ok(d) => Some(d.as_secs()),
        Err(_) => None,
    }
}

/// The time step that a Unix time falls in.
pub open spec fn time_step(timestamp: u64, period: u64) -> u64
    recommends
        period > 0,
{
    (timestamp / period) as u64
}

/// What a TOTP builder holds.
pub struct TOTPBuilderModel {
    pub settings: SettingsModel,
    pub timestamp: Option<u64>,
    pub period: u64,
    pub tolerance: u64,
}

/// The first rule a TOTP builder's state breaks, if any: those of the shared
/// settings first, then a zero period or a time before the epoch.
pub open spec fn totp_error(m: TOTPBuilderModel) -> Option<ErrorCode> {
    if settings_error(m.settings) is Some {
        settings_error(m.settings)
    } else if m.period == 0 || m.timestamp is None {
        Some(ErrorCode::InvalidPeriod)
    } else {
        None
    }
}

/// A TOTP build whose shared settings are valid fails with `InvalidPeriod`
/// exactly when the period is zero or the time is unknown.
pub proof fn lemma_zero_period_rejects(m: TOTPBuilderModel)
    requires
        settings_error(m.settings) is None,
    ensures
        m.period == 0 ==> totp_error(m) == Some(ErrorCode::InvalidPeriod),
        totp_error(m) is None <==> (m.period > 0 && m.timestamp is Some),
{
}

/// A validated TOTP configuration.
pub struct TOTPModel {
    pub key: Seq<u8>,
    pub output_len: nat,
    pub output_base: Seq<u8>,
    pub hash_function: HashFunction,
    pub timestamp: u64,
    pub period: u64,
    pub tolerance: u64,
}

impl TOTPModel {
    /// The code for a given counter under this configuration.
    pub open spec fn code_at(self, counter: u64) -> Seq<u8> {
        otp_code(self.key, self.hash_function, self.output_base, self.output_len, counter)
    }

    /// The counter of the configured time.
    pub open spec fn current(self) -> u64 {
        time_step(self.timestamp, self.period)
    }

    /// A counter within `tolerance` steps of the current one.
    pub open spec fn in_window(self, c: int) -> bool {
        &&& 0 <= c <= u64::MAX
        &&& self.current() - self.tolerance <= c <= self.current() + self.tolerance
    }

    /// A code that some counter of the window produces.
    pub open spec fn accepts(self, code: Seq<u8>) -> bool {
        exists|c: int| self.in_window(c) && code == self.code_at(#[trigger] (c as u64))
    }
}

/// Verification accepts the code of every counter within the tolerance
/// window, and rejects a code that no counter of the window produces.
pub proof fn lemma_tolerance_window(m: TOTPModel, c: int, code: Seq<u8>)
    ensures
        m.in_window(c) ==> m.accepts(m.code_at(c as u64)),
        (forall|k: int| m.in_window(k) ==> code != m.code_at(#[trigger] (k as u64))) ==> !m.accepts(code),
{
}

/// Accumulates a TOTP configuration; errors surface only in `build`.
pub struct TOTPBuilder {
    settings: Settings,
    timestamp: Option<u64>,
    period: u64,
    tolerance: u64,
}

impl View for TOTPBuilder {
    type V = TOTPBuilderModel;

    closed spec fn view(&self) -> TOTPBuilderModel {
        TOTPBuilderModel {
            settings: self.settings@,
            timestamp: self.timestamp,
            period: self.period,
            tolerance: self.tolerance,
        }
    }
}

/// A TOTP configuration that passed validation.
pub struct TOTP {
    key: Vec<u8>,
    output_len: usize,
    output_base: Vec<u8>,
    hash_function: HashFunction,
    timestamp: u64,
    period: u64,
    tolerance: u64,
}

impl View for TOTP {
    type V = TOTPModel;

    closed spec fn view(&self) -> TOTPModel {
        TOTPModel {
            key: self.key@,
            output_len: self.output_len as nat,
            output_base: self.output_base@,
            hash_function: self.hash_function,
            timestamp: self.timestamp,
            period: self.period,
            tolerance: self.tolerance,
        }
    }
}

impl TOTPBuilder {
    /// A builder with the defaults: six decimal digits, SHA1, a 30-second
    /// period, no tolerance, and the current time.
    pub fn new() -> (r: TOTPBuilder)
        ensures
            r@.settings == default_settings(),
            r@.period == 30,
            r@.tolerance == 0,
    {
        TOTPBuilder { settings: Settings::new(), timestamp: unix_time_now(), period: 30, tolerance: 0 }
    }

    /// Sets the shared secret.
    pub fn key(&mut self, key: &Vec<u8>) -> (r: &mut TOTPBuilder)
        ensures
            r@ == (TOTPBuilderModel { settings: SettingsModel { key: Some(key@), ..old(self)@.settings }, ..old(self)@ }),
            final(self)@ == final(r)@,
    {
        self.settings.set_key(key.as_slice());
        self
    }

    /// Sets the shared secret, given as text whose bytes are the secret.
    pub fn ascii_key(&mut self, key: &String) -> (r: &mut TOTPBuilder)
        ensures
            r@ == (TOTPBuilderModel {
                settings: SettingsModel { key: Some(encode_utf8(key@)), ..old(self)@.settings },
                ..old(self)@
            }),
            final(self)@ == final(r)@,
    {
        self.settings.set_ascii_key(key.as_str());
        self
    }

    /// Sets the shared secret, given as hexadecimal text.
    pub fn hex_key(&mut self, key: &String) -> (r: &mut TOTPBuilder)
        ensures
            hex_valid(encode_utf8(key@)) ==> r@ == (TOTPBuilderModel {
                settings: SettingsModel { key: Some(hex_decoded(encode_utf8(key@))), ..old(self)@.settings },
                ..old(self)@
            }),
            !hex_valid(encode_utf8(key@)) ==> r@ == (TOTPBuilderModel {
                settings: record_failure(old(self)@.settings),
                ..old(self)@
            }),
            final(self)@ == final(r)@,
    {
        self.settings.set_hex_key(key.as_str());
        self
    }

    /// Sets the shared secret, given as base32 text.
    pub fn base32_key(&mut self, key: &String) -> (r: &mut TOTPBuilder)
        ensures
            rfc4648_text(key@) ==> r@ == (TOTPBuilderModel {
                settings: SettingsModel { key: Some(base32_decoded_of(key@)), ..old(self)@.settings },
                ..old(self)@
            }),
            !rfc4648_text(key@) ==> r@ == (TOTPBuilderModel {
                settings: record_failure(old(self)@.settings),
                ..old(self)@
            }),
            final(self)@ == final(r)@,
    {
        self.settings.set_base32_key(key.as_str());
        self
    }

    /// Sets the number of symbols in a code.
    pub fn output_len(&mut self, output_len: usize) -> (r: &mut TOTPBuilder)
        ensures
            r@ == (TOTPBuilderModel {
                settings: SettingsModel { output_len: output_len as nat, ..old(self)@.settings },
                ..old(self)@
            }),
            final(self)@ == final(r)@,
    {
        self.settings.set_output_len(output_len);
        self
    }

    /// Sets the alphabet a code is written in.
    pub fn output_base(&mut self, base: &Vec<u8>) -> (r: &mut TOTPBuilder)
        ensures
            r@ == (TOTPBuilderModel {
                settings: SettingsModel { output_base: base@, ..old(self)@.settings },
                ..old(self)@
            }),
            final(self)@ == final(r)@,
    {
        self.settings.set_output_base(base.as_slice());
        self
    }

    /// Sets the hash function.
    pub fn hash_function(&mut self, hash_function: HashFunction) -> (r: &mut TOTPBuilder)
        ensures
            r@ == (TOTPBuilderModel {
                settings: SettingsModel { hash_function, ..old(self)@.settings },
                ..old(self)@
            }),
            final(self)@ == final(r)@,
    {
        self.settings.set_hash_function(hash_function);
        self
    }

    /// Sets the Unix time that codes are generated for.
    pub fn timestamp(&mut self, timestamp: u64) -> (r: &mut TOTPBuilder)
        ensures
            r@ == (TOTPBuilderModel { timestamp: Some(timestamp), ..old(self)@ }),
            final(self)@ == final(r)@,
    {
        self.timestamp = Some(timestamp);
        self
    }

    /// Sets the length of a time step, in seconds.
    pub fn period(&mut self, period: u64) -> (r: &mut TOTPBuilder)
        ensures
            r@ == (TOTPBuilderModel { period, ..old(self)@ }),
            final(self)@ == final(r)@,
    {
        self.period = period;
        self
    }

    /// Sets how many time steps before and after the current one
    /// verification accepts.
    pub fn tolerance(&mut self, tolerance: u64) -> (r: &mut TOTPBuilder)
        ensures
            r@ == (TOTPBuilderModel { tolerance, ..old(self)@ }),
            final(self)@ == final(r)@,
    {
        self.tolerance = tolerance;
        self
    }

    /// Validates the settings and produces the configuration, or the error
    /// of the first rule they break.
    pub fn build(&self) -> (r: Result<TOTP, ErrorCode>)
        ensures
            r is Ok <==> totp_error(self@) is None,
            r matches Err(e) ==> totp_error(self@) == Some(e),
            r matches Ok(t) ==> t@ == (TOTPModel {
                key: self@.settings.key.unwrap(),
                output_len: self@.settings.output_len,
                output_base: self@.settings.output_base,
                hash_function: self@.settings.hash_function,
                timestamp: self@.timestamp.unwrap(),
                period: self@.period,
                tolerance: self@.tolerance,
            }),
    {
        if let Err(e) = self.settings.check() {
            return Err(e);
        }
        let timestamp = match self.timestamp {
            Some(t) => t,
            None => {
                return Err(ErrorCode::InvalidPeriod);
            },
        };
        if self.period == 0 {
            return Err(ErrorCode::InvalidPeriod);
        }
        let key = vstd::slice::slice_to_vec(self.settings.key_bytes());
        let base = vstd::slice::slice_to_vec(self.settings.output_base());
        Ok(TOTP {
            key,
            output_len: self.settings.output_len(),
            output_base: base,
            hash_function: self.settings.hash_function(),
            timestamp,
            period: self.period,
            tolerance: self.tolerance,
        })
    }
}

impl TOTP {
    #[verifier::type_invariant]
    spec fn valid(&self) -> bool {
        &&& params_ok(self.key@, self.output_base@, self.output_len as nat)
        &&& self.period > 0
    }

    /// The counter of the configured time: the time divided by the period.
    pub fn counter(&self) -> (r: u64)
        ensures
            r == self@.current(),
            self@.period > 0,
    {
        proof {
            use_type_invariant(self);
        }
        self.timestamp / self.period
    }

    fn code_for(&self, counter: u64) -> (r: Vec<u8>)
        ensures
            r@ == self@.code_at(counter),
    {
        proof {
            use_type_invariant(self);
        }
        generate_code(self.key.as_slice(), self.hash_function, self.output_base.as_slice(), self.output_len, counter)
    }

    /// The code for the configured time.
    pub fn generate(&self) -> (r: Vec<u8>)
        ensures
            r@ == self@.code_at(self@.current()),
            r@.len() == self@.output_len,
            forall|i: int| 0 <= i < r@.len() ==> self@.output_base.contains(#[trigger] r@[i]),
    {
        proof {
            use_type_invariant(self);
            lemma_code_symbols(self@.key, self@.hash_function, self@.output_base, self@.output_len, self@.current());
        }
        let c = self.counter();
        self.code_for(c)
    }

    /// Whether `code` is the code of a counter within `tolerance` steps of
    /// the current one; each candidate is compared in constant time.
    pub fn is_valid(&self, code: &str) -> (r: bool)
        ensures
            r == self@.accepts(code.spec_bytes()),
    {
        let cur = self.counter();
        let lo: u64 = if cur >= self.tolerance { cur - self.tolerance } else { 0 };
        let hi: u64 = if u64::MAX - cur >= self.tolerance { cur + self.tolerance } else { u64::MAX };
        let bytes = code.as_bytes();
        let mut c: u64 = lo;
        loop
            invariant
                lo <= c <= hi,
                cur == self@.current(),
                bytes@ == code.spec_bytes(),
                lo as int == if cur >= self@.tolerance { cur - self@.tolerance } else { 0 },
                hi as int == if u64::MAX - cur >= self@.tolerance { cur + self@.tolerance } else { u64::MAX as int },
                forall|k: int| lo <= k < c ==> bytes@ != self@.code_at(#[trigger] (k as u64)),
            decreases hi - c,
        {
            let expected = self.code_for(c);
            if constant_time_eq(bytes, expected.as_slice()) {
                assert(self@.in_window(c as int) && bytes@ == self@.code_at((c as int) as u64));
                return true;
            }
            if c == hi {
                assert forall|k: int| self@.in_window(k) implies bytes@ != self@.code_at(#[trigger] (k as u64)) by {
                    assert(lo <= k <= hi);
                }
                return false;
            }
            c = c + 1;
        }
    }
}

} // verus!
