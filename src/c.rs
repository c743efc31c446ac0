//! Checks at the foreign boundary. The caller's raw pointers are turned into
//! optional slices outside this library (`None` for a null pointer); these
//! functions decide what each input means and which error it gives.

use vstd::prelude::*;
use vstd::utf8::{encode_utf8, valid_utf8};
use crate::builder::decimal_digits;
use crate::error::ErrorCode;

verus! {

/// Copies `code` to the front of `dest` and puts a zero byte right after it;
/// nothing past that byte is written.
pub fn write_code(code: &Vec<u8>, dest: &mut [u8])
    requires
        old(dest)@.len() >= code@.len() + 1,
    ensures
        final(dest)@.len() == old(dest)@.len(),
        final(dest)@.subrange(0, code@.len() as int) == code@,
        final(dest)@[code@.len() as int] == 0,
        final(dest)@.subrange(code@.len() + 1int, old(dest)@.len() as int) == old(dest)@.subrange(
            code@.len() + 1int,
            old(dest)@.len() as int,
        ),
{
    let len = code.len();
    let mut i: usize = 0;
    while i < len
        invariant
            len == code@.len(),
            0 <= i <= len,
            dest@.len() == old(dest)@.len(),
            old(dest)@.len() >= len + 1,
            forall|k: int| 0 <= k < i ==> dest@[k] == code@[k],
            forall|k: int| i <= k < dest@.len() ==> dest@[k] == old(dest)@[k],
        decreases len - i,
    {
        dest[i] = code[i];
        i = i + 1;
    }
    dest[len] = 0;
    assert(dest@.subrange(0, len as int) =~= code@);
    assert(dest@.subrange(len + 1, old(dest)@.len() as int) =~= old(dest)@.subrange(len + 1, old(dest)@.len() as int));
}

/// The configuration a caller passed, or `CfgNullPtr` when it passed none.
pub fn get_cfg<T>(cfg: Option<&T>) -> (r: Result<&T, ErrorCode>)
    ensures
        cfg is None ==> r == Err::<&T, ErrorCode>(ErrorCode::CfgNullPtr),
        cfg is Some ==> r == Ok::<&T, ErrorCode>(cfg.unwrap()),
{
    match cfg {
        Some(c) => Ok(c),
        None => Err(ErrorCode::CfgNullPtr),
    }
}

/// Relies on std's String::from_utf8: it succeeds exactly on valid UTF-8,
/// and the text it returns has those bytes.
#[verifier::external_body]
fn string_from_utf8(bytes: Vec<u8>) -> (r: Option<String>)
    ensures
        r is Some <==> valid_utf8(bytes@),
        r is Some ==> encode_utf8(r.unwrap()@) == bytes@,
{
    match String::from_utf8(bytes) {
        Ok(s) => Some(s),
        Err(_) => None,
    }
}

/// A code passed by a caller, as text: `CodeNullPtr` when there is none,
/// `CodeInvalidUTF8` when its bytes are not UTF-8.
pub fn get_code(code: Option<&[u8]>) -> (r: Result<String, ErrorCode>)
    ensures
        code is None ==> r == Err::<String, ErrorCode>(ErrorCode::CodeNullPtr),
        code is Some && !valid_utf8(code.unwrap()@) ==> r == Err::<String, ErrorCode>(ErrorCode::CodeInvalidUTF8),
        code is Some && valid_utf8(code.unwrap()@) ==> r is Ok && encode_utf8(r.unwrap()@) == code.unwrap()@,
{
    match code {
        None => Err(ErrorCode::CodeNullPtr),
        Some(c) => match string_from_utf8(vstd::slice::slice_to_vec(c)) {
            Some(s) => Ok(s),
            None => Err(ErrorCode::CodeInvalidUTF8),
        },
    }
}

/// The buffer a code is written to: `code_len` symbols and a terminating zero.
/// `CodeNullPtr` when the caller gave none.
pub fn get_mut_code(code: Option<&mut [u8]>, code_len: usize) -> (r: Result<&mut [u8], ErrorCode>)
    requires
        code is Some ==> code.unwrap()@.len() == code_len + 1,
    ensures
        code is None ==> r is Err && r.unwrap_err() == ErrorCode::CodeNullPtr,
        code is Some ==> r is Ok && r.unwrap()@ == code.unwrap()@,
        code is Some ==> final(r.unwrap())@ == final(code.unwrap())@,
{
    match code {
        Some(c) => Ok(c),
        None => Err(ErrorCode::CodeNullPtr),
    }
}

/// The output alphabet a caller passed: the decimal digits when there is
/// none, `InvalidBaseLen` when it has fewer than two symbols.
pub fn get_output_base(output_base: Option<&[u8]>) -> (r: Result<Vec<u8>, ErrorCode>)
    ensures
        output_base is None ==> r is Ok && r.unwrap()@ == decimal_digits(),
        output_base is Some && output_base.unwrap()@.len() < 2 ==> r == Err::<Vec<u8>, ErrorCode>(
            ErrorCode::InvalidBaseLen,
        ),
        output_base is Some && output_base.unwrap()@.len() >= 2 ==> r is Ok && r.unwrap()@
            == output_base.unwrap()@,
{
    match output_base {
        None => {
            let d: Vec<u8> = vec![0x30u8, 0x31u8, 0x32u8, 0x33u8, 0x34u8, 0x35u8, 0x36u8, 0x37u8, 0x38u8, 0x39u8];
            assert(d@ =~= decimal_digits());
            Ok(d)
        },
        Some(b) => {
            if b.len() < 2 {
                Err(ErrorCode::InvalidBaseLen)
            } else {
                Ok(vstd::slice::slice_to_vec(b))
            }
        },
    }
}

/// The key a caller passed: `KeyNullPtr` when there is none, `InvalidKeyLen`
/// when it is empty.
pub fn get_key(key: Option<&[u8]>) -> (r: Result<Vec<u8>, ErrorCode>)
    ensures
        key is None ==> r == Err::<Vec<u8>, ErrorCode>(ErrorCode::KeyNullPtr),
        key is Some && key.unwrap()@.len() == 0 ==> r == Err::<Vec<u8>, ErrorCode>(ErrorCode::InvalidKeyLen),
        key is Some && key.unwrap()@.len() > 0 ==> r is Ok && r.unwrap()@ == key.unwrap()@,
{
    match key {
        None => Err(ErrorCode::KeyNullPtr),
        Some(k) => {
            if k.len() == 0 {
                Err(ErrorCode::InvalidKeyLen)
            } else {
                Ok(vstd::slice::slice_to_vec(k))
            }
        },
    }
}

} // verus!
