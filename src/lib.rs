//! A single 7-bit ASCII character as a value type, with conversions from
//! bytes and `char`s and the classic character-class predicates.

pub mod ascii;
pub mod convert;
pub mod laws;

pub use crate::ascii::Ascii;
pub use crate::convert::{AsciiCast, IntoAscii, IntoAsciiError};
