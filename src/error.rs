use vstd::prelude::*;

verus! {

/// The HMAC primitive used to derive a code.
#[derive(Clone, Copy, Debug, PartialEq, Eq, Structural)]
pub enum HashFunction {
    Sha1,
    Sha256,
    Sha512,
}

/// Every failure the library reports, one flat enumeration.
#[derive(Clone, Copy, Debug, PartialEq, Eq, Structural)]
pub enum ErrorCode {
    CfgNullPtr,
    CodeNullPtr,
    KeyNullPtr,
    InvalidBaseLen,
    InvalidKeyLen,
    CodeTooSmall,
    CodeTooBig,
    InvalidKey,
    InvalidPeriod,
    CodeInvalidUTF8,
}

/// The stable integer that stands for an error at the foreign boundary.
pub open spec fn error_number(e: ErrorCode) -> i32 {
    match e {
        ErrorCode::CfgNullPtr => 1,
        ErrorCode::CodeNullPtr => 2,
        ErrorCode::KeyNullPtr => 3,
        ErrorCode::InvalidBaseLen => 10,
        ErrorCode::InvalidKeyLen => 11,
        ErrorCode::CodeTooSmall => 12,
        ErrorCode::CodeTooBig => 13,
        ErrorCode::InvalidKey => 20,
        ErrorCode::InvalidPeriod => 21,
        ErrorCode::CodeInvalidUTF8 => 30,
    }
}

/// The stable integer that selects a hash function at the foreign boundary.
pub open spec fn hash_number(h: HashFunction) -> u32 {
    match h {
        HashFunction::Sha1 => 1,
        HashFunction::Sha256 => 2,
        HashFunction::Sha512 => 3,
    }
}

impl ErrorCode {
    /// The error's number at the foreign boundary.
    pub fn number(&self) -> (r: i32)
        ensures
            r == error_number(*self),
    {
        match self {
            ErrorCode::CfgNullPtr => 1,
            ErrorCode::CodeNullPtr => 2,
            ErrorCode::KeyNullPtr => 3,
            ErrorCode::InvalidBaseLen => 10,
            ErrorCode::InvalidKeyLen => 11,
            ErrorCode::CodeTooSmall => 12,
            ErrorCode::CodeTooBig => 13,
            ErrorCode::InvalidKey => 20,
            ErrorCode::InvalidPeriod => 21,
            ErrorCode::CodeInvalidUTF8 => 30,
        }
    }
}

impl HashFunction {
    /// The hash function's number at the foreign boundary.
    pub fn number(&self) -> (r: u32)
        ensures
            r == hash_number(*self),
    {
        match self {
            HashFunction::Sha1 => 1,
            HashFunction::Sha256 => 2,
            HashFunction::Sha512 => 3,
        }
    }

    /// The hash function that a foreign caller selects by number, if any.
    pub fn from_number(n: u32) -> (r: Option<HashFunction>)
        ensures
            r matches Some(h) ==> hash_number(h) == n,
            r is None <==> !(1 <= n <= 3),
    {
        if n == 1 {
            Some(HashFunction::Sha1)
        } else if n == 2 {
            Some(HashFunction::Sha256)
        } else if n == 3 {
            Some(HashFunction::Sha512)
        } else {
            None
        }
    }
}

} // verus!
