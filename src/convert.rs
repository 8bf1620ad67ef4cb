use vstd::prelude::*;

use crate::ascii::{ascii_of, ascii_of_code, Ascii};

verus! {

/// The error of a conversion whose source lies outside the ASCII range.
#[derive(Debug, PartialEq, Eq, Structural)]
pub struct IntoAsciiError;

impl IntoAsciiError {
    /// The fixed description of the error.
    pub fn description(&self) -> (res: &'static str)
        ensures
            res@ == "not an ASCII character"@,
    {
        "not an ASCII character"
    }

    /// The description as an owned string.
    pub fn to_string(&self) -> (res: String)
        ensures
            res@ == "not an ASCII character"@,
    {
        String::from_str("not an ASCII character")
    }
}

/// Conversion of `u8`, `char` and `Ascii` values to `Ascii`, by code point.
pub trait IntoAscii: Sized {
    /// The numeric code point of the value.
    spec fn code_point(&self) -> int;

    /// Converts to `Ascii` a value already known to be in range.
    fn into_ascii_unchecked(self) -> (res: Ascii)
        requires
            self.code_point() <= 0x7F,
        ensures
            res@ == self.code_point(),
    ;

    /// Converts to `Ascii`; fails exactly when the code point is above `0x7F`.
    fn into_ascii(self) -> (res: Result<Ascii, IntoAsciiError>)
        ensures
            res is Ok <==> self.code_point() <= 0x7F,
            res matches Ok(val) ==> val@ == self.code_point() && val == ascii_of(
                self.code_point() as u8,
            ),
    ;
}

impl IntoAscii for u8 {
    open spec fn code_point(&self) -> int {
        *self as int
    }

    fn into_ascii_unchecked(self) -> (res: Ascii) {
        ascii_of_code(self)
    }

    fn into_ascii(self) -> (res: Result<Ascii, IntoAsciiError>) {
        if self <= 0x7F {
            Ok(self.into_ascii_unchecked())
        } else {
            Err(IntoAsciiError)
        }
    }
}

impl IntoAscii for char {
    open spec fn code_point(&self) -> int {
        *self as u32 as int
    }

    fn into_ascii_unchecked(self) -> (res: Ascii) {
        let code = self as u32;
        (code as u8).into_ascii_unchecked()
    }

    fn into_ascii(self) -> (res: Result<Ascii, IntoAsciiError>) {
        if self as u32 <= 0x7F {
            Ok(self.into_ascii_unchecked())
        } else {
            Err(IntoAsciiError)
        }
    }
}

impl IntoAscii for Ascii {
    open spec fn code_point(&self) -> int {
        self@ as int
    }

    fn into_ascii_unchecked(self) -> (res: Ascii) {
        self
    }

    fn into_ascii(self) -> (res: Result<Ascii, IntoAsciiError>) {
        proof {
            self.lemma_code_in_range();
        }
        Ok(self)
    }
}

/// Conversion to `Ascii` from a borrowed `u8` or `char`.
pub trait AsciiCast: IntoAscii + Copy {
    /// Converts to `Ascii`; fails exactly when the code point is above `0x7F`.
    fn to_ascii(&self) -> (res: Result<Ascii, ()>)
        ensures
            res is Ok <==> self.code_point() <= 0x7F,
            res matches Ok(val) ==> val@ == self.code_point() && val == ascii_of(
                self.code_point() as u8,
            ),
    ;

    /// Converts to `Ascii` a value already known to be in range.
    fn to_ascii_nocheck(&self) -> (res: Ascii)
        requires
            self.code_point() <= 0x7F,
        ensures
            res@ == self.code_point(),
    ;
}

impl AsciiCast for u8 {
    fn to_ascii(&self) -> (res: Result<Ascii, ()>) {
        Ascii::from(*self)
    }

    fn to_ascii_nocheck(&self) -> (res: Ascii) {
        (*self).into_ascii_unchecked()
    }
}

impl AsciiCast for char {
    fn to_ascii(&self) -> (res: Result<Ascii, ()>) {
        Ascii::from(*self)
    }

    fn to_ascii_nocheck(&self) -> (res: Ascii) {
        (*self).into_ascii_unchecked()
    }
}

impl Ascii {
    /// Constructs a character from a `u8`, a `char` or another `Ascii`;
    /// fails exactly when the code point is above `0x7F`.
    pub fn from<C: IntoAscii>(ch: C) -> (res: Result<Ascii, ()>)
        ensures
            res is Ok <==> ch.code_point() <= 0x7F,
            res matches Ok(val) ==> val@ == ch.code_point() && val == ascii_of(
                ch.code_point() as u8,
            ),
    {
        match ch.into_ascii() {
            Ok(val) => Ok(val),
            Err(_) => Err(()),
        }
    }

    /// Constructs a character from a value whose code point the caller knows
    /// to be at most `0x7F`, without testing it again.
    pub fn from_unchecked<C: IntoAscii>(ch: C) -> (res: Ascii)
        requires
            ch.code_point() <= 0x7F,
        ensures
            res@ == ch.code_point(),
    {
        ch.into_ascii_unchecked()
    }
}

} // verus!
