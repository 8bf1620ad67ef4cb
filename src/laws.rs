use vstd::prelude::*;

use crate::ascii::{
    ascii_of, is_alphabetic_code, is_alphanumeric_code, is_digit_code, is_graph_code,
    is_punctuation_code, Ascii,
};
use crate::convert::IntoAscii;

verus! {

/// The bytes `0..=0x7F` are exactly the codes of characters: each of them
/// names a character whose code is that byte, so `from_byte` accepts it and
/// `as_byte` gives it back, and no character has a code above `0x7F`, so
/// `from_byte` rejects every larger byte.
pub proof fn lemma_byte_range(code: u8)
    ensures
        code <= 0x7F ==> ascii_of(code)@ == code,
        code > 0x7F ==> forall|ch: Ascii| ch@ != code,
{
    if code <= 0x7F {
        Ascii::lemma_code_named(code);
    } else {
        assert forall|ch: Ascii| ch@ != code by {
            ch.lemma_code_in_range();
        }
    }
}

/// Converting a character's own byte, or its own `char`, gives the same
/// character back: both code points are the character's code, that code is
/// in range, and the character it names is the character itself.
pub proof fn lemma_round_trip(ch: Ascii)
    ensures
        ch.as_byte_spec().code_point() == ch@ as int,
        ch.as_char_spec().code_point() == ch@ as int,
        ch@ <= 0x7F,
        ascii_of(ch@) == ch,
{
    ch.lemma_code_in_range();
}

/// Two characters with the same code are the same character.
pub proof fn lemma_code_injective(ch: Ascii, other: Ascii)
    requires
        ch@ == other@,
    ensures
        ch == other,
{
    ch.lemma_code_in_range();
    other.lemma_code_in_range();
}

/// Punctuation is exactly what is visible and neither letter nor digit, and
/// the alphanumeric characters are exactly the letters and the digits.
pub proof fn lemma_class_composition(ch: Ascii)
    ensures
        is_punctuation_code(ch@) == (is_graph_code(ch@) && !is_alphanumeric_code(ch@)),
        is_alphanumeric_code(ch@) == (is_alphabetic_code(ch@) || is_digit_code(ch@)),
{
}

} // verus!
