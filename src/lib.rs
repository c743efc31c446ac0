//! HOTP and TOTP one-time passwords with verified configuration, truncation
//! and rendering.

pub mod error;
pub mod code;
pub mod key;
pub mod builder;
pub mod hotp;
pub mod totp;
pub mod c;

pub use error::{ErrorCode, HashFunction};
