use ascii::{Ascii, AsciiCast, IntoAscii, IntoAsciiError};

#[test]
fn every_byte_up_to_7f_converts_and_reads_back() {
    for b in 0u8..=127 {
        let ch = Ascii::from_byte(b).unwrap();
        assert_eq!(ch.as_byte(), b);
    }
    for b in 128u8..=255 {
        assert_eq!(Ascii::from_byte(b), Err(()));
    }
}

#[test]
fn byte_and_char_round_trip() {
    for b in 0u8..=127 {
        let ch = Ascii::from_byte(b).unwrap();
        assert_eq!(Ascii::from_byte(ch.as_byte()), Ok(ch));
        assert_eq!(Ascii::from(ch.as_char()), Ok(ch));
        assert_eq!(ch.as_char() as u32, b as u32);
    }
}

#[test]
fn char_boundary() {
    for c in 0u32..=127 {
        let code = char::from_u32(c).unwrap();
        assert_eq!(Ascii::from(code).unwrap().as_byte() as u32, c);
    }
    assert_eq!(Ascii::from('\u{80}'), Err(()));
    assert_eq!(Ascii::from('λ'), Err(()));
    assert_eq!('\u{3bb}'.into_ascii(), Err(IntoAsciiError));
    assert_eq!(Ascii::from('\u{10FFFF}'), Err(()));
}

#[test]
fn class_composition() {
    for b in 0u8..=127 {
        let ch = Ascii::from_byte(b).unwrap();
        assert_eq!(ch.is_punctuation(), ch.is_graph() && !ch.is_alphanumeric());
        assert_eq!(ch.is_alphanumeric(), ch.is_alphabetic() || ch.is_digit());
    }
}

#[test]
fn hex_boundary() {
    assert!('5'.to_ascii().unwrap().is_hex());
    assert!('a'.to_ascii().unwrap().is_hex());
    assert!('F'.to_ascii().unwrap().is_hex());
    assert!(!32u8.to_ascii().unwrap().is_hex());
    assert!(!Ascii::G.is_hex());
    assert!(!Ascii::g.is_hex());
    assert!(!Ascii::At.is_hex());
    assert!(!Ascii::Grave.is_hex());
}

#[test]
fn case_predicates() {
    assert!(Ascii::a.is_lowercase());
    assert!(!Ascii::a.is_uppercase());
    assert!(Ascii::A.is_uppercase());
    assert!(!Ascii::A.is_lowercase());
    assert!(!Ascii::At.is_lowercase());
    assert!(!Ascii::At.is_uppercase());
    assert!(!Ascii::BracketOpen.is_uppercase());
    assert!(!Ascii::CurlyBraceOpen.is_lowercase());
}

#[test]
fn class_counts_over_the_whole_range() {
    let mut counts = [0u32; 11];
    for b in 0u8..=127 {
        let ch = Ascii::from_byte(b).unwrap();
        let flags = [
            ch.is_alphabetic(),
            ch.is_digit(),
            ch.is_alphanumeric(),
            ch.is_blank(),
            ch.is_control(),
            ch.is_graph(),
            ch.is_print(),
            ch.is_lowercase(),
            ch.is_uppercase(),
            ch.is_punctuation(),
            ch.is_hex(),
        ];
        for (i, f) in flags.iter().enumerate() {
            if *f {
                counts[i] += 1;
            }
        }
    }
    assert_eq!(counts, [52, 10, 62, 2, 33, 94, 95, 26, 26, 32, 22]);
}

#[test]
fn blank_graph_and_print_edges() {
    assert!(Ascii::Space.is_blank());
    assert!(Ascii::Tab.is_blank());
    assert!(!Ascii::LineFeed.is_blank());
    assert!(!Ascii::Space.is_graph());
    assert!(Ascii::Exclamation.is_graph());
    assert!(Ascii::Tilde.is_graph());
    assert!(!Ascii::DEL.is_graph());
    assert!(Ascii::Space.is_print());
    assert!(!Ascii::US.is_print());
    assert!(!Ascii::DEL.is_print());
    assert!(Ascii::UnderScore.is_punctuation());
    assert!(Ascii::Tilde.is_punctuation());
    assert!(!Ascii::n.is_punctuation());
    assert!(!Ascii::Space.is_punctuation());
    assert!(Ascii::Z.is_alphabetic());
    assert!(!Ascii::At.is_alphabetic());
    assert!(!Ascii::BracketOpen.is_alphabetic());
    assert!(!Ascii::Grave.is_alphabetic());
    assert!(!Ascii::CurlyBraceOpen.is_alphabetic());
}

#[test]
fn case_conversion() {
    assert_eq!(Ascii::a.to_ascii_uppercase(), Ascii::A);
    assert_eq!(Ascii::A.to_ascii_uppercase(), Ascii::A);
    assert_eq!(Ascii::A.to_ascii_lowercase(), Ascii::a);
    assert_eq!(Ascii::z.to_ascii_lowercase(), Ascii::z);
    assert_eq!(Ascii::At.to_ascii_lowercase(), Ascii::At);
    assert_eq!(Ascii::Grave.to_ascii_uppercase(), Ascii::Grave);
    assert!(Ascii::q.eq_ignore_ascii_case(&Ascii::Q));
    assert!(!Ascii::At.eq_ignore_ascii_case(&Ascii::Grave));
    let mut cur = Ascii::m;
    cur.make_ascii_uppercase();
    assert_eq!(cur, Ascii::M);
    cur.make_ascii_lowercase();
    assert_eq!(cur, Ascii::m);
    assert!(cur.is_ascii());
}

#[test]
fn unchecked_and_generic_construction() {
    assert_eq!(Ascii::from_unchecked(b'~'), Ascii::Tilde);
    assert_eq!(Ascii::from_unchecked('0'), Ascii::_0);
    assert_eq!(Ascii::from(Ascii::DEL), Ok(Ascii::DEL));
    assert_eq!(Ascii::from(200u8), Err(()));
    assert_eq!(200u8.into_ascii(), Err(IntoAsciiError));
    assert_eq!(b'k'.to_ascii_nocheck(), Ascii::k);
    assert_eq!('K'.to_ascii_nocheck(), Ascii::K);
    assert_eq!('K'.into_ascii_unchecked(), Ascii::K);
}

#[test]
fn ordering_follows_codes() {
    assert!(Ascii::Null < Ascii::SOH);
    assert!(Ascii::_9 < Ascii::Colon);
    assert!(Ascii::Z < Ascii::a);
    assert!(Ascii::Tilde < Ascii::DEL);
}

#[test]
fn rendering() {
    assert_eq!(Ascii::Space.to_string(), " ".to_string());
    assert_eq!(Ascii::A.to_debug_string(), "'A'".to_string());
    assert_eq!(Ascii::LineFeed.to_debug_string(), "'\\n'".to_string());
    assert_eq!(Ascii::Apostrophe.to_debug_string(), "'\\''".to_string());
}

#[test]
fn error_description() {
    assert_eq!(IntoAsciiError.description(), "not an ASCII character");
}

#[test]
fn error_message_string() {
    assert_eq!(IntoAsciiError.to_string(), "not an ASCII character".to_string());
}
