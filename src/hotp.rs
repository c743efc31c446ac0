//! Counter-based one-time passwords.

use vstd::prelude::*;
use vstd::string::StringSliceAdditionalSpecFns;
use vstd::utf8::encode_utf8;
use crate::builder::{default_settings, record_failure, settings_error, Settings, SettingsModel};
use crate::code::{constant_time_eq, lemma_code_symbols, generate_code, otp_code, params_ok};
use crate::error::{ErrorCode, HashFunction};
use crate::key::{base32_decoded_of, rfc4648_text, hex_decoded, hex_valid};

verus! {

/// What a HOTP builder holds.
pub struct HOTPBuilderModel {
    pub settings: SettingsModel,
    pub counter: u64,
}

/// A validated HOTP configuration.
pub struct HOTPModel {
    pub key: Seq<u8>,
    pub output_len: nat,
    pub output_base: Seq<u8>,
    pub hash_function: HashFunction,
    pub counter: u64,
}

impl HOTPModel {
    /// The code for a given counter under this configuration.
    pub open spec fn code_at(self, counter: u64) -> Seq<u8> {
        otp_code(self.key, self.hash_function, self.output_base, self.output_len, counter)
    }
}

/// Generation is deterministic: two configurations equal in key, hash
/// function, alphabet and length give the same code for the same counter.
pub proof fn lemma_generate_deterministic(a: HOTPModel, b: HOTPModel, counter: u64)
    requires
        a.key == b.key,
        a.hash_function == b.hash_function,
        a.output_base == b.output_base,
        a.output_len == b.output_len,
    ensures
        a.code_at(counter) == b.code_at(counter),
{
}

/// Accumulates a HOTP configuration; errors surface only in `build`.
pub struct HOTPBuilder {
    settings: Settings,
    counter: u64,
}

impl View for HOTPBuilder {
    type V = HOTPBuilderModel;

    closed spec fn view(&self) -> HOTPBuilderModel {
        HOTPBuilderModel { settings: self.settings@, counter: self.counter }
    }
}

/// A HOTP configuration that passed validation; it cannot be changed but
/// for moving its counter forward.
pub struct HOTP {
    key: Vec<u8>,
    output_len: usize,
    output_base: Vec<u8>,
    hash_function: HashFunction,
    counter: u64,
}

impl View for HOTP {
    type V = HOTPModel;

    closed spec fn view(&self) -> HOTPModel {
        HOTPModel {
            key: self.key@,
            output_len: self.output_len as nat,
            output_base: self.output_base@,
            hash_function: self.hash_function,
            counter: self.counter,
        }
    }
}

impl HOTPBuilder {
    /// A builder with the defaults: six decimal digits, SHA1, counter 0.
    pub fn new() -> (r: HOTPBuilder)
        ensures
            r@ == (HOTPBuilderModel { settings: default_settings(), counter: 0 }),
    {
        HOTPBuilder { settings: Settings::new(), counter: 0 }
    }

    /// Sets the shared secret.
    pub fn key(&mut self, key: &Vec<u8>) -> (r: &mut HOTPBuilder)
        ensures
            r@ == (HOTPBuilderModel { settings: SettingsModel { key: Some(key@), ..old(self)@.settings }, ..old(self)@ }),
            final(self)@ == final(r)@,
    {
        self.settings.set_key(key.as_slice());
        self
    }

    /// Sets the shared secret, given as text whose bytes are the secret.
    pub fn ascii_key(&mut self, key: &String) -> (r: &mut HOTPBuilder)
        ensures
            r@ == (HOTPBuilderModel {
                settings: SettingsModel { key: Some(encode_utf8(key@)), ..old(self)@.settings },
                ..old(self)@
            }),
            final(self)@ == final(r)@,
    {
        self.settings.set_ascii_key(key.as_str());
        self
    }

    /// Sets the shared secret, given as hexadecimal text.
    pub fn hex_key(&mut self, key: &String) -> (r: &mut HOTPBuilder)
        ensures
            hex_valid(encode_utf8(key@)) ==> r@ == (HOTPBuilderModel {
                settings: SettingsModel { key: Some(hex_decoded(encode_utf8(key@))), ..old(self)@.settings },
                ..old(self)@
            }),
            !hex_valid(encode_utf8(key@)) ==> r@ == (HOTPBuilderModel {
                settings: record_failure(old(self)@.settings),
                ..old(self)@
            }),
            final(self)@ == final(r)@,
    {
        self.settings.set_hex_key(key.as_str());
        self
    }

    /// Sets the shared secret, given as base32 text.
    pub fn base32_key(&mut self, key: &String) -> (r: &mut HOTPBuilder)
        ensures
            rfc4648_text(key@) ==> r@ == (HOTPBuilderModel {
                settings: SettingsModel { key: Some(base32_decoded_of(key@)), ..old(self)@.settings },
                ..old(self)@
            }),
            !rfc4648_text(key@) ==> r@ == (HOTPBuilderModel {
                settings: record_failure(old(self)@.settings),
                ..old(self)@
            }),
            final(self)@ == final(r)@,
    {
        self.settings.set_base32_key(key.as_str());
        self
    }

    /// Sets the number of symbols in a code.
    pub fn output_len(&mut self, output_len: usize) -> (r: &mut HOTPBuilder)
        ensures
            r@ == (HOTPBuilderModel {
                settings: SettingsModel { output_len: output_len as nat, ..old(self)@.settings },
                ..old(self)@
            }),
            final(self)@ == final(r)@,
    {
        self.settings.set_output_len(output_len);
        self
    }

    /// Sets the alphabet a code is written in.
    pub fn output_base(&mut self, base: &Vec<u8>) -> (r: &mut HOTPBuilder)
        ensures
            r@ == (HOTPBuilderModel {
                settings: SettingsModel { output_base: base@, ..old(self)@.settings },
                ..old(self)@
            }),
            final(self)@ == final(r)@,
    {
        self.settings.set_output_base(base.as_slice());
        self
    }

    /// Sets the hash function.
    pub fn hash_function(&mut self, hash_function: HashFunction) -> (r: &mut HOTPBuilder)
        ensures
            r@ == (HOTPBuilderModel {
                settings: SettingsModel { hash_function, ..old(self)@.settings },
                ..old(self)@
            }),
            final(self)@ == final(r)@,
    {
        self.settings.set_hash_function(hash_function);
        self
    }

    /// Sets the counter.
    pub fn counter(&mut self, counter: u64) -> (r: &mut HOTPBuilder)
        ensures
            r@ == (HOTPBuilderModel { counter, ..old(self)@ }),
            final(self)@ == final(r)@,
    {
        self.counter = counter;
        self
    }

    /// Validates the settings and produces the configuration, or the error
    /// of the first rule they break.
    pub fn build(&self) -> (r: Result<HOTP, ErrorCode>)
        ensures
            r is Ok <==> settings_error(self@.settings) is None,
            r matches Err(e) ==> settings_error(self@.settings) == Some(e),
            r matches Ok(h) ==> h@ == (HOTPModel {
                key: self@.settings.key.unwrap(),
                output_len: self@.settings.output_len,
                output_base: self@.settings.output_base,
                hash_function: self@.settings.hash_function,
                counter: self@.counter,
            }),
    {
        match self.settings.check() {
            Err(e) => Err(e),
            Ok(()) => {
                let key = vstd::slice::slice_to_vec(self.settings.key_bytes());
                let base = vstd::slice::slice_to_vec(self.settings.output_base());
                Ok(HOTP {
                    key,
                    output_len: self.settings.output_len(),
                    output_base: base,
                    hash_function: self.settings.hash_function(),
                    counter: self.counter,
                })
            },
        }
    }
}

impl HOTP {
    #[verifier::type_invariant]
    spec fn valid(&self) -> bool {
        params_ok(self.key@, self.output_base@, self.output_len as nat)
    }

    /// The code for the current counter.
    pub fn generate(&self) -> (r: Vec<u8>)
        ensures
            r@ == self@.code_at(self@.counter),
            r@.len() == self@.output_len,
            forall|i: int| 0 <= i < r@.len() ==> self@.output_base.contains(#[trigger] r@[i]),
    {
        proof {
            use_type_invariant(self);
            lemma_code_symbols(self@.key, self@.hash_function, self@.output_base, self@.output_len, self@.counter);
        }
        generate_code(self.key.as_slice(), self.hash_function, self.output_base.as_slice(), self.output_len, self.counter)
    }

    /// Moves the counter one step forward, wrapping at 64 bits.
    pub fn increment_counter(&mut self)
        ensures
            final(self)@ == (HOTPModel { counter: (if old(self)@.counter == u64::MAX { 0 } else { (old(self)@.counter + 1) as u64 }), ..old(self)@ }),
    {
        proof {
            use_type_invariant(&*self);
        }
        self.counter = self.counter.wrapping_add(1);
    }

    /// Whether `code` is the code for the current counter, compared in
    /// constant time.
    pub fn is_valid(&self, code: &str) -> (r: bool)
        ensures
            r == (code.spec_bytes() == self@.code_at(self@.counter)),
    {
        let expected = self.generate();
        constant_time_eq(code.as_bytes(), expected.as_slice())
    }
}

} // verus!
