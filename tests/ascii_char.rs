use ascii::{Ascii, AsciiCast, IntoAscii, IntoAsciiError};

fn generic<C: IntoAscii>(c: C) -> Result<Ascii, IntoAsciiError> {
    c.into_ascii()
}

#[test]
fn to_ascii() {
    assert_eq!(65_u8.to_ascii(), Ok(Ascii::A));
    assert_eq!(255_u8.to_ascii(), Err(()));

    assert_eq!('A'.to_ascii(), Ok(Ascii::A));
    assert_eq!('λ'.to_ascii(), Err(()));
}

#[test]
fn into_ascii() {
    assert_eq!(generic('A'), Ok(Ascii::A));
    assert_eq!(generic(b'A'), Ok(Ascii::A));
}

#[test]
fn as_byte() {
    assert_eq!(65u8.to_ascii().unwrap().as_byte(), 65u8);
    assert_eq!('A'.to_ascii().unwrap().as_byte(), 65u8);
}

#[test]
fn as_char() {
    assert_eq!(65u8.to_ascii().unwrap().as_char(), 'A');
    assert_eq!('A'.to_ascii().unwrap().as_char(), 'A');
}

#[test]
fn is_digit() {
    assert!('0'.to_ascii().unwrap().is_digit());
    assert!('9'.to_ascii().unwrap().is_digit());
    assert!(!'/'.to_ascii().unwrap().is_digit());
    assert!(!':'.to_ascii().unwrap().is_digit());
}

#[test]
fn is_control() {
    assert!(0x1f_u8.to_ascii().unwrap().is_control());
    assert!(0x7f_u8.to_ascii().unwrap().is_control());
    assert!(!' '.to_ascii().unwrap().is_control());
}

#[test]
fn fmt_display_ascii() {
    assert_eq!(Ascii::t.to_string(), "t".to_string());
}

#[test]
fn fmt_debug_ascii() {
    assert_eq!(Ascii::t.to_debug_string(), "'t'".to_string());
}
