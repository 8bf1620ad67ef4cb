use vstd::prelude::*;

verus! {

/// One character of the 7-bit ASCII set. Each of the 128 codes has a
/// variant of its own, declared in code order, so the derived ordering is
/// the order of the codes. The derived `Debug` writes the variant's name;
/// `to_debug_string` renders the character itself.
#[allow(non_camel_case_types)]
#[derive(Clone, Copy, Debug, PartialEq, Eq, Structural, PartialOrd, Ord, Hash)]
pub enum Ascii {
    /// Control code 0x00, null.
    Null,
    /// Control code 0x01, start of heading.
    SOH,
    /// Control code 0x02, start of text.
    SOX,
    /// Control code 0x03, end of text.
    ETX,
    /// Control code 0x04, end of transmission.
    EOT,
    /// Control code 0x05, enquiry.
    ENQ,
    /// Control code 0x06, acknowledge.
    ACK,
    /// Control code 0x07, bell.
    Bell,
    /// Control code 0x08, backspace.
    BackSpace,
    /// Control code 0x09, horizontal tab.
    Tab,
    /// Control code 0x0A, line feed.
    LineFeed,
    /// Control code 0x0B, vertical tab.
    VT,
    /// Control code 0x0C, form feed.
    FF,
    /// Control code 0x0D, carriage return.
    CarriageReturn,
    /// Control code 0x0E, shift out.
    SI,
    /// Control code 0x0F, shift in.
    SO,
    /// Control code 0x10, data link escape.
    DLE,
    /// Control code 0x11, device control one.
    DC1,
    /// Control code 0x12, device control two.
    DC2,
    /// Control code 0x13, device control three.
    DC3,
    /// Control code 0x14, device control four.
    DC4,
    /// Control code 0x15, negative acknowledge.
    NAK,
    /// Control code 0x16, synchronous idle.
    SYN,
    /// Control code 0x17, end of transmission block.
    ETB,
    /// Control code 0x18, cancel.
    CAN,
    /// Control code 0x19, end of medium.
    EM,
    /// Control code 0x1A, substitute.
    SUB,
    /// Control code 0x1B, escape.
    ESC,
    /// Control code 0x1C, file separator.
    FS,
    /// Control code 0x1D, group separator.
    GS,
    /// Control code 0x1E, record separator.
    RS,
    /// Control code 0x1F, unit separator.
    US,
    /// `' '`, the space.
    Space,
    /// `'!'`
    Exclamation,
    /// `'"'`
    Quotation,
    /// `'#'`
    Hash,
    /// `'$'`
    Dollar,
    /// `'%'`
    Percent,
    /// `'&'`
    Ampersand,
    /// `'\''`
    Apostrophe,
    /// `'('`
    ParenOpen,
    /// `')'`
    ParenClose,
    /// `'*'`
    Asterisk,
    /// `'+'`
    Plus,
    /// `','`
    Comma,
    /// `'-'`
    Minus,
    /// `'.'`
    Dot,
    /// `'/'`
    Slash,
    /// `'0'`
    _0,
    /// `'1'`
    _1,
    /// `'2'`
    _2,
    /// `'3'`
    _3,
    /// `'4'`
    _4,
    /// `'5'`
    _5,
    /// `'6'`
    _6,
    /// `'7'`
    _7,
    /// `'8'`
    _8,
    /// `'9'`
    _9,
    /// `':'`
    Colon,
    /// `';'`
    SemiColon,
    /// `'<'`
    LessThan,
    /// `'='`
    Equal,
    /// `'>'`
    GreaterThan,
    /// `'?'`
    Question,
    /// `'@'`
    At,
    /// `'A'`
    A,
    /// `'B'`
    B,
    /// `'C'`
    C,
    /// `'D'`
    D,
    /// `'E'`
    E,
    /// `'F'`
    F,
    /// `'G'`
    G,
    /// `'H'`
    H,
    /// `'I'`
    I,
    /// `'J'`
    J,
    /// `'K'`
    K,
    /// `'L'`
    L,
    /// `'M'`
    M,
    /// `'N'`
    N,
    /// `'O'`
    O,
    /// `'P'`
    P,
    /// `'Q'`
    Q,
    /// `'R'`
    R,
    /// `'S'`
    S,
    /// `'T'`
    T,
    /// `'U'`
    U,
    /// `'V'`
    V,
    /// `'W'`
    W,
    /// `'X'`
    X,
    /// `'Y'`
    Y,
    /// `'Z'`
    Z,
    /// `'['`
    BracketOpen,
    /// `'\\'`
    BackSlash,
    /// `']'`
    BracketClose,
    /// `'^'`
    Caret,
    /// `'_'`
    UnderScore,
    /// ``'`'``
    Grave,
    /// `'a'`
    a,
    /// `'b'`
    b,
    /// `'c'`
    c,
    /// `'d'`
    d,
    /// `'e'`
    e,
    /// `'f'`
    f,
    /// `'g'`
    g,
    /// `'h'`
    h,
    /// `'i'`
    i,
    /// `'j'`
    j,
    /// `'k'`
    k,
    /// `'l'`
    l,
    /// `'m'`
    m,
    /// `'n'`
    n,
    /// `'o'`
    o,
    /// `'p'`
    p,
    /// `'q'`
    q,
    /// `'r'`
    r,
    /// `'s'`
    s,
    /// `'t'`
    t,
    /// `'u'`
    u,
    /// `'v'`
    v,
    /// `'w'`
    w,
    /// `'x'`
    x,
    /// `'y'`
    y,
    /// `'z'`
    z,
    /// `'{'`
    CurlyBraceOpen,
    /// `'|'`
    VerticalBar,
    /// `'}'`
    CurlyBraceClose,
    /// `'~'`
    Tilde,
    /// Control code 0x7F, delete.
    DEL,
}

impl View for Ascii {
    /// The code of the character, in `0..=0x7F`.
    type V = u8;

    open spec fn view(&self) -> u8 {
        match *self {
            Ascii::Null => 0,
            Ascii::SOH => 1,
            Ascii::SOX => 2,
            Ascii::ETX => 3,
            Ascii::EOT => 4,
            Ascii::ENQ => 5,
            Ascii::ACK => 6,
            Ascii::Bell => 7,
            Ascii::BackSpace => 8,
            Ascii::Tab => 9,
            Ascii::LineFeed => 10,
            Ascii::VT => 11,
            Ascii::FF => 12,
            Ascii::CarriageReturn => 13,
            Ascii::SI => 14,
            Ascii::SO => 15,
            Ascii::DLE => 16,
            Ascii::DC1 => 17,
            Ascii::DC2 => 18,
            Ascii::DC3 => 19,
            Ascii::DC4 => 20,
            Ascii::NAK => 21,
            Ascii::SYN => 22,
            Ascii::ETB => 23,
            Ascii::CAN => 24,
            Ascii::EM => 25,
            Ascii::SUB => 26,
            Ascii::ESC => 27,
            Ascii::FS => 28,
            Ascii::GS => 29,
            Ascii::RS => 30,
            Ascii::US => 31,
            Ascii::Space => 32,
            Ascii::Exclamation => 33,
            Ascii::Quotation => 34,
            Ascii::Hash => 35,
            Ascii::Dollar => 36,
            Ascii::Percent => 37,
            Ascii::Ampersand => 38,
            Ascii::Apostrophe => 39,
            Ascii::ParenOpen => 40,
            Ascii::ParenClose => 41,
            Ascii::Asterisk => 42,
            Ascii::Plus => 43,
            Ascii::Comma => 44,
            Ascii::Minus => 45,
            Ascii::Dot => 46,
            Ascii::Slash => 47,
            Ascii::_0 => 48,
            Ascii::_1 => 49,
            Ascii::_2 => 50,
            Ascii::_3 => 51,
            Ascii::_4 => 52,
            Ascii::_5 => 53,
            Ascii::_6 => 54,
            Ascii::_7 => 55,
            Ascii::_8 => 56,
            Ascii::_9 => 57,
            Ascii::Colon => 58,
            Ascii::SemiColon => 59,
            Ascii::LessThan => 60,
            Ascii::Equal => 61,
            Ascii::GreaterThan => 62,
            Ascii::Question => 63,
            Ascii::At => 64,
            Ascii::A => 65,
            Ascii::B => 66,
            Ascii::C => 67,
            Ascii::D => 68,
            Ascii::E => 69,
            Ascii::F => 70,
            Ascii::G => 71,
            Ascii::H => 72,
            Ascii::I => 73,
            Ascii::J => 74,
            Ascii::K => 75,
            Ascii::L => 76,
            Ascii::M => 77,
            Ascii::N => 78,
            Ascii::O => 79,
            Ascii::P => 80,
            Ascii::Q => 81,
            Ascii::R => 82,
            Ascii::S => 83,
            Ascii::T => 84,
            Ascii::U => 85,
            Ascii::V => 86,
            Ascii::W => 87,
            Ascii::X => 88,
            Ascii::Y => 89,
            Ascii::Z => 90,
            Ascii::BracketOpen => 91,
            Ascii::BackSlash => 92,
            Ascii::BracketClose => 93,
            Ascii::Caret => 94,
            Ascii::UnderScore => 95,
            Ascii::Grave => 96,
            Ascii::a => 97,
            Ascii::b => 98,
            Ascii::c => 99,
            Ascii::d => 100,
            Ascii::e => 101,
            Ascii::f => 102,
            Ascii::g => 103,
            Ascii::h => 104,
            Ascii::i => 105,
            Ascii::j => 106,
            Ascii::k => 107,
            Ascii::l => 108,
            Ascii::m => 109,
            Ascii::n => 110,
            Ascii::o => 111,
            Ascii::p => 112,
            Ascii::q => 113,
            Ascii::r => 114,
            Ascii::s => 115,
            Ascii::t => 116,
            Ascii::u => 117,
            Ascii::v => 118,
            Ascii::w => 119,
            Ascii::x => 120,
            Ascii::y => 121,
            Ascii::z => 122,
            Ascii::CurlyBraceOpen => 123,
            Ascii::VerticalBar => 124,
            Ascii::CurlyBraceClose => 125,
            Ascii::Tilde => 126,
            Ascii::DEL => 127,
        }
    }
}

/// The character whose code is `code`; codes above `0x7F` have none and
/// give `DEL`, which no contract relies on.
pub open spec fn ascii_of(code: u8) -> Ascii {
    match code {
        0 => Ascii::Null,
        1 => Ascii::SOH,
        2 => Ascii::SOX,
        3 => Ascii::ETX,
        4 => Ascii::EOT,
        5 => Ascii::ENQ,
        6 => Ascii::ACK,
        7 => Ascii::Bell,
        8 => Ascii::BackSpace,
        9 => Ascii::Tab,
        10 => Ascii::LineFeed,
        11 => Ascii::VT,
        12 => Ascii::FF,
        13 => Ascii::CarriageReturn,
        14 => Ascii::SI,
        15 => Ascii::SO,
        16 => Ascii::DLE,
        17 => Ascii::DC1,
        18 => Ascii::DC2,
        19 => Ascii::DC3,
        20 => Ascii::DC4,
        21 => Ascii::NAK,
        22 => Ascii::SYN,
        23 => Ascii::ETB,
        24 => Ascii::CAN,
        25 => Ascii::EM,
        26 => Ascii::SUB,
        27 => Ascii::ESC,
        28 => Ascii::FS,
        29 => Ascii::GS,
        30 => Ascii::RS,
        31 => Ascii::US,
        32 => Ascii::Space,
        33 => Ascii::Exclamation,
        34 => Ascii::Quotation,
        35 => Ascii::Hash,
        36 => Ascii::Dollar,
        37 => Ascii::Percent,
        38 => Ascii::Ampersand,
        39 => Ascii::Apostrophe,
        40 => Ascii::ParenOpen,
        41 => Ascii::ParenClose,
        42 => Ascii::Asterisk,
        43 => Ascii::Plus,
        44 => Ascii::Comma,
        45 => Ascii::Minus,
        46 => Ascii::Dot,
        47 => Ascii::Slash,
        48 => Ascii::_0,
        49 => Ascii::_1,
        50 => Ascii::_2,
        51 => Ascii::_3,
        52 => Ascii::_4,
        53 => Ascii::_5,
        54 => Ascii::_6,
        55 => Ascii::_7,
        56 => Ascii::_8,
        57 => Ascii::_9,
        58 => Ascii::Colon,
        59 => Ascii::SemiColon,
        60 => Ascii::LessThan,
        61 => Ascii::Equal,
        62 => Ascii::GreaterThan,
        63 => Ascii::Question,
        64 => Ascii::At,
        65 => Ascii::A,
        66 => Ascii::B,
        67 => Ascii::C,
        68 => Ascii::D,
        69 => Ascii::E,
        70 => Ascii::F,
        71 => Ascii::G,
        72 => Ascii::H,
        73 => Ascii::I,
        74 => Ascii::J,
        75 => Ascii::K,
        76 => Ascii::L,
        77 => Ascii::M,
        78 => Ascii::N,
        79 => Ascii::O,
        80 => Ascii::P,
        81 => Ascii::Q,
        82 => Ascii::R,
        83 => Ascii::S,
        84 => Ascii::T,
        85 => Ascii::U,
        86 => Ascii::V,
        87 => Ascii::W,
        88 => Ascii::X,
        89 => Ascii::Y,
        90 => Ascii::Z,
        91 => Ascii::BracketOpen,
        92 => Ascii::BackSlash,
        93 => Ascii::BracketClose,
        94 => Ascii::Caret,
        95 => Ascii::UnderScore,
        96 => Ascii::Grave,
        97 => Ascii::a,
        98 => Ascii::b,
        99 => Ascii::c,
        100 => Ascii::d,
        101 => Ascii::e,
        102 => Ascii::f,
        103 => Ascii::g,
        104 => Ascii::h,
        105 => Ascii::i,
        106 => Ascii::j,
        107 => Ascii::k,
        108 => Ascii::l,
        109 => Ascii::m,
        110 => Ascii::n,
        111 => Ascii::o,
        112 => Ascii::p,
        113 => Ascii::q,
        114 => Ascii::r,
        115 => Ascii::s,
        116 => Ascii::t,
        117 => Ascii::u,
        118 => Ascii::v,
        119 => Ascii::w,
        120 => Ascii::x,
        121 => Ascii::y,
        122 => Ascii::z,
        123 => Ascii::CurlyBraceOpen,
        124 => Ascii::VerticalBar,
        125 => Ascii::CurlyBraceClose,
        126 => Ascii::Tilde,
        _ => Ascii::DEL,
    }
}

/// The character whose code is `code`, for `code <= 0x7F`.
pub(crate) fn ascii_of_code(code: u8) -> (res: Ascii)
    requires
        code <= 0x7F,
    ensures
        res == ascii_of(code),
        res@ == code,
{
    match code {
        0 => Ascii::Null,
        1 => Ascii::SOH,
        2 => Ascii::SOX,
        3 => Ascii::ETX,
        4 => Ascii::EOT,
        5 => Ascii::ENQ,
        6 => Ascii::ACK,
        7 => Ascii::Bell,
        8 => Ascii::BackSpace,
        9 => Ascii::Tab,
        10 => Ascii::LineFeed,
        11 => Ascii::VT,
        12 => Ascii::FF,
        13 => Ascii::CarriageReturn,
        14 => Ascii::SI,
        15 => Ascii::SO,
        16 => Ascii::DLE,
        17 => Ascii::DC1,
        18 => Ascii::DC2,
        19 => Ascii::DC3,
        20 => Ascii::DC4,
        21 => Ascii::NAK,
        22 => Ascii::SYN,
        23 => Ascii::ETB,
        24 => Ascii::CAN,
        25 => Ascii::EM,
        26 => Ascii::SUB,
        27 => Ascii::ESC,
        28 => Ascii::FS,
        29 => Ascii::GS,
        30 => Ascii::RS,
        31 => Ascii::US,
        32 => Ascii::Space,
        33 => Ascii::Exclamation,
        34 => Ascii::Quotation,
        35 => Ascii::Hash,
        36 => Ascii::Dollar,
        37 => Ascii::Percent,
        38 => Ascii::Ampersand,
        39 => Ascii::Apostrophe,
        40 => Ascii::ParenOpen,
        41 => Ascii::ParenClose,
        42 => Ascii::Asterisk,
        43 => Ascii::Plus,
        44 => Ascii::Comma,
        45 => Ascii::Minus,
        46 => Ascii::Dot,
        47 => Ascii::Slash,
        48 => Ascii::_0,
        49 => Ascii::_1,
        50 => Ascii::_2,
        51 => Ascii::_3,
        52 => Ascii::_4,
        53 => Ascii::_5,
        54 => Ascii::_6,
        55 => Ascii::_7,
        56 => Ascii::_8,
        57 => Ascii::_9,
        58 => Ascii::Colon,
        59 => Ascii::SemiColon,
        60 => Ascii::LessThan,
        61 => Ascii::Equal,
        62 => Ascii::GreaterThan,
        63 => Ascii::Question,
        64 => Ascii::At,
        65 => Ascii::A,
        66 => Ascii::B,
        67 => Ascii::C,
        68 => Ascii::D,
        69 => Ascii::E,
        70 => Ascii::F,
        71 => Ascii::G,
        72 => Ascii::H,
        73 => Ascii::I,
        74 => Ascii::J,
        75 => Ascii::K,
        76 => Ascii::L,
        77 => Ascii::M,
        78 => Ascii::N,
        79 => Ascii::O,
        80 => Ascii::P,
        81 => Ascii::Q,
        82 => Ascii::R,
        83 => Ascii::S,
        84 => Ascii::T,
        85 => Ascii::U,
        86 => Ascii::V,
        87 => Ascii::W,
        88 => Ascii::X,
        89 => Ascii::Y,
        90 => Ascii::Z,
        91 => Ascii::BracketOpen,
        92 => Ascii::BackSlash,
        93 => Ascii::BracketClose,
        94 => Ascii::Caret,
        95 => Ascii::UnderScore,
        96 => Ascii::Grave,
        97 => Ascii::a,
        98 => Ascii::b,
        99 => Ascii::c,
        100 => Ascii::d,
        101 => Ascii::e,
        102 => Ascii::f,
        103 => Ascii::g,
        104 => Ascii::h,
        105 => Ascii::i,
        106 => Ascii::j,
        107 => Ascii::k,
        108 => Ascii::l,
        109 => Ascii::m,
        110 => Ascii::n,
        111 => Ascii::o,
        112 => Ascii::p,
        113 => Ascii::q,
        114 => Ascii::r,
        115 => Ascii::s,
        116 => Ascii::t,
        117 => Ascii::u,
        118 => Ascii::v,
        119 => Ascii::w,
        120 => Ascii::x,
        121 => Ascii::y,
        122 => Ascii::z,
        123 => Ascii::CurlyBraceOpen,
        124 => Ascii::VerticalBar,
        125 => Ascii::CurlyBraceClose,
        126 => Ascii::Tilde,
        _ => Ascii::DEL,
    }
}

/// `A`-`Z` and `a`-`z`.
pub open spec fn is_alphabetic_code(code: u8) -> bool {
    (0x41 <= code <= 0x5A) || (0x61 <= code <= 0x7A)
}

/// `0`-`9`.
pub open spec fn is_digit_code(code: u8) -> bool {
    0x30 <= code <= 0x39
}

/// `0`-`9`, `A`-`Z` and `a`-`z`.
pub open spec fn is_alphanumeric_code(code: u8) -> bool {
    (0x30 <= code <= 0x39) || (0x41 <= code <= 0x5A) || (0x61 <= code <= 0x7A)
}

/// Space and horizontal tab.
pub open spec fn is_blank_code(code: u8) -> bool {
    code == 0x20 || code == 0x09
}

/// The codes below space, and delete.
pub open spec fn is_control_code(code: u8) -> bool {
    code < 0x20 || code == 0x7F
}

/// The visible characters: `!` through `~`.
pub open spec fn is_graph_code(code: u8) -> bool {
    0x21 <= code <= 0x7E
}

/// The visible characters and space.
pub open spec fn is_print_code(code: u8) -> bool {
    0x20 <= code <= 0x7E
}

/// `a`-`z`.
pub open spec fn is_lowercase_code(code: u8) -> bool {
    0x61 <= code <= 0x7A
}

/// `A`-`Z`.
pub open spec fn is_uppercase_code(code: u8) -> bool {
    0x41 <= code <= 0x5A
}

/// The four runs of visible characters between and around digits and
/// letters: `!`-`/`, `:`-`@`, `[`-`` ` `` and `{`-`~`.
pub open spec fn is_punctuation_code(code: u8) -> bool {
    (0x21 <= code <= 0x2F) || (0x3A <= code <= 0x40) || (0x5B <= code <= 0x60) || (0x7B
        <= code <= 0x7E)
}

/// `0`-`9`, `A`-`F` and `a`-`f`.
pub open spec fn is_hex_code(code: u8) -> bool {
    (0x30 <= code <= 0x39) || (0x41 <= code <= 0x46) || (0x61 <= code <= 0x66)
}

/// The code with `a`-`z` moved to `A`-`Z`; every other code unchanged.
pub open spec fn to_uppercase_code(code: u8) -> u8 {
    if 0x61 <= code <= 0x7A {
        (code - 0x20) as u8
    } else {
        code
    }
}

/// The code with `A`-`Z` moved to `a`-`z`; every other code unchanged.
pub open spec fn to_lowercase_code(code: u8) -> u8 {
    if 0x41 <= code <= 0x5A {
        (code + 0x20) as u8
    } else {
        code
    }
}

/// What `char`'s `Debug` formatting writes for a character.
pub uninterp spec fn char_debug_text(ch: char) -> Seq<char>;

/// Relies on `String::push`: appends the character at the end of the string.
#[verifier::external_body]
fn push_char(text: &mut String, ch: char)
    ensures
        final(text)@ == old(text)@.push(ch),
{
    text.push(ch)
}

/// Relies on `char`'s `Debug` formatting, which depends on the character alone.
#[verifier::external_body]
fn char_debug(ch: char) -> (res: String)
    ensures
        res@ == char_debug_text(ch),
{
    format!("{:?}", ch)
}

impl Ascii {
    /// Every character's code lies in `0..=0x7F`, and the character is the
    /// one that its code names.
    pub proof fn lemma_code_in_range(self)
        ensures
            self@ <= 0x7F,
            ascii_of(self@) == self,
    {
    }

    /// Each code in `0..=0x7F` names a character with that code.
    pub proof fn lemma_code_named(code: u8)
        requires
            code <= 0x7F,
        ensures
            ascii_of(code)@ == code,
    {
    }

    /// Constructs a character from a byte; fails on bytes above `0x7F`.
    pub fn from_byte(ch: u8) -> (res: Result<Ascii, ()>)
        ensures
            res is Ok <==> ch <= 0x7F,
            res matches Ok(val) ==> val@ == ch && val == ascii_of(ch),
    {
        if ch <= 0x7F {
            Ok(ascii_of_code(ch))
        } else {
            Err(())
        }
    }

    /// The code of the character, as a byte.
    pub open spec fn as_byte_spec(&self) -> u8 {
        self@
    }

    /// The code of the character.
    pub fn as_byte(&self) -> (res: u8)
        ensures
            res == self@,
            res == self.as_byte_spec(),
    {
        match *self {
            Ascii::Null => 0,
            Ascii::SOH => 1,
            Ascii::SOX => 2,
            Ascii::ETX => 3,
            Ascii::EOT => 4,
            Ascii::ENQ => 5,
            Ascii::ACK => 6,
            Ascii::Bell => 7,
            Ascii::BackSpace => 8,
            Ascii::Tab => 9,
            Ascii::LineFeed => 10,
            Ascii::VT => 11,
            Ascii::FF => 12,
            Ascii::CarriageReturn => 13,
            Ascii::SI => 14,
            Ascii::SO => 15,
            Ascii::DLE => 16,
            Ascii::DC1 => 17,
            Ascii::DC2 => 18,
            Ascii::DC3 => 19,
            Ascii::DC4 => 20,
            Ascii::NAK => 21,
            Ascii::SYN => 22,
            Ascii::ETB => 23,
            Ascii::CAN => 24,
            Ascii::EM => 25,
            Ascii::SUB => 26,
            Ascii::ESC => 27,
            Ascii::FS => 28,
            Ascii::GS => 29,
            Ascii::RS => 30,
            Ascii::US => 31,
            Ascii::Space => 32,
            Ascii::Exclamation => 33,
            Ascii::Quotation => 34,
            Ascii::Hash => 35,
            Ascii::Dollar => 36,
            Ascii::Percent => 37,
            Ascii::Ampersand => 38,
            Ascii::Apostrophe => 39,
            Ascii::ParenOpen => 40,
            Ascii::ParenClose => 41,
            Ascii::Asterisk => 42,
            Ascii::Plus => 43,
            Ascii::Comma => 44,
            Ascii::Minus => 45,
            Ascii::Dot => 46,
            Ascii::Slash => 47,
            Ascii::_0 => 48,
            Ascii::_1 => 49,
            Ascii::_2 => 50,
            Ascii::_3 => 51,
            Ascii::_4 => 52,
            Ascii::_5 => 53,
            Ascii::_6 => 54,
            Ascii::_7 => 55,
            Ascii::_8 => 56,
            Ascii::_9 => 57,
            Ascii::Colon => 58,
            Ascii::SemiColon => 59,
            Ascii::LessThan => 60,
            Ascii::Equal => 61,
            Ascii::GreaterThan => 62,
            Ascii::Question => 63,
            Ascii::At => 64,
            Ascii::A => 65,
            Ascii::B => 66,
            Ascii::C => 67,
            Ascii::D => 68,
            Ascii::E => 69,
            Ascii::F => 70,
            Ascii::G => 71,
            Ascii::H => 72,
            Ascii::I => 73,
            Ascii::J => 74,
            Ascii::K => 75,
            Ascii::L => 76,
            Ascii::M => 77,
            Ascii::N => 78,
            Ascii::O => 79,
            Ascii::P => 80,
            Ascii::Q => 81,
            Ascii::R => 82,
            Ascii::S => 83,
            Ascii::T => 84,
            Ascii::U => 85,
            Ascii::V => 86,
            Ascii::W => 87,
            Ascii::X => 88,
            Ascii::Y => 89,
            Ascii::Z => 90,
            Ascii::BracketOpen => 91,
            Ascii::BackSlash => 92,
            Ascii::BracketClose => 93,
            Ascii::Caret => 94,
            Ascii::UnderScore => 95,
            Ascii::Grave => 96,
            Ascii::a => 97,
            Ascii::b => 98,
            Ascii::c => 99,
            Ascii::d => 100,
            Ascii::e => 101,
            Ascii::f => 102,
            Ascii::g => 103,
            Ascii::h => 104,
            Ascii::i => 105,
            Ascii::j => 106,
            Ascii::k => 107,
            Ascii::l => 108,
            Ascii::m => 109,
            Ascii::n => 110,
            Ascii::o => 111,
            Ascii::p => 112,
            Ascii::q => 113,
            Ascii::r => 114,
            Ascii::s => 115,
            Ascii::t => 116,
            Ascii::u => 117,
            Ascii::v => 118,
            Ascii::w => 119,
            Ascii::x => 120,
            Ascii::y => 121,
            Ascii::z => 122,
            Ascii::CurlyBraceOpen => 123,
            Ascii::VerticalBar => 124,
            Ascii::CurlyBraceClose => 125,
            Ascii::Tilde => 126,
            Ascii::DEL => 127,
        }
    }

    /// The `char` with the same code point as the character.
    pub open spec fn as_char_spec(&self) -> char {
        self@ as char
    }

    /// The character as a `char` with the same code point.
    pub fn as_char(&self) -> (res: char)
        ensures
            res == self.as_char_spec(),
            res as u32 == self@ as u32,
    {
        self.as_byte() as char
    }
    // The predicates below follow the ctype conventions and test the code
    // with a few integer operations, in the manner of musl.

    /// Whether the character is a letter, `a`-`z` or `A`-`Z`.
    pub fn is_alphabetic(&self) -> (res: bool)
        ensures
            res == is_alphabetic_code(self@),
    {
        let code = self.as_byte();
        // Setting this bit moves `A`-`Z` onto `a`-`z`.
        let folded = code | 0b010_0000u8;
        assert((folded >= 0x61 && folded <= 0x7A) == ((0x41 <= code <= 0x5A) || (0x61 <= code
            <= 0x7A))) by (bit_vector)
            requires
                folded == code | 0x20u8,
        ;
        // `a` is 0x61 and `z` is 0x7A.
        folded >= 0x61 && folded <= 0x7A
    }

    /// Whether the character is a decimal digit, `0`-`9`.
    pub fn is_digit(&self) -> (res: bool)
        ensures
            res == is_digit_code(self@),
    {
        let code = self.as_byte();
        // `0` is 0x30 and `9` is 0x39.
        code >= 0x30 && code <= 0x39
    }

    /// Whether the character is a letter or a digit.
    pub fn is_alphanumeric(&self) -> (res: bool)
        ensures
            res == is_alphanumeric_code(self@),
    {
        self.is_alphabetic() || self.is_digit()
    }

    /// Whether the character is a space or a horizontal tab.
    pub fn is_blank(&self) -> (res: bool)
        ensures
            res == is_blank_code(self@),
    {
        *self == Ascii::Space || *self == Ascii::Tab
    }

    /// Whether the character is a control character: a code below space, or
    /// delete.
    pub fn is_control(&self) -> (res: bool)
        ensures
            res == is_control_code(self@),
    {
        self.as_byte() < 0x20 || *self == Ascii::DEL
    }

    /// Whether the character is visible: printable and not a space.
    pub fn is_graph(&self) -> (res: bool)
        ensures
            res == is_graph_code(self@),
    {
        // Codes below `!` wrap round to large values.
        self.as_byte().wrapping_sub(0x21) < 0x5E
    }

    /// Whether the character is printable, space included.
    pub fn is_print(&self) -> (res: bool)
        ensures
            res == is_print_code(self@),
    {
        self.as_byte().wrapping_sub(0x20) < 0x5F
    }

    /// Whether the character is a lowercase letter.
    pub fn is_lowercase(&self) -> (res: bool)
        ensures
            res == is_lowercase_code(self@),
    {
        // `a` is 0x61.
        self.as_byte().wrapping_sub(0x61) < 26
    }

    /// Whether the character is an uppercase letter.
    pub fn is_uppercase(&self) -> (res: bool)
        ensures
            res == is_uppercase_code(self@),
    {
        // `A` is 0x41.
        self.as_byte().wrapping_sub(0x41) < 26
    }

    /// Whether the character is punctuation: visible, and neither a letter
    /// nor a digit.
    pub fn is_punctuation(&self) -> (res: bool)
        ensures
            res == is_punctuation_code(self@),
    {
        self.is_graph() && !self.is_alphanumeric()
    }

    /// Whether the character is a hexadecimal digit: `0`-`9`, `a`-`f` or
    /// `A`-`F`.
    pub fn is_hex(&self) -> (res: bool)
        ensures
            res == is_hex_code(self@),
    {
        let code = self.as_byte();
        // Setting this bit moves `A`-`F` onto `a`-`f`.
        let folded = code | 32u8;
        assert((folded >= 0x61 && folded <= 0x66) == ((0x41 <= code <= 0x46) || (0x61 <= code
            <= 0x66))) by (bit_vector)
            requires
                folded == code | 0x20u8,
        ;
        self.is_digit() || folded.wrapping_sub(0x61) < 6
    }

    /// Always true: every `Ascii` is an ASCII character.
    pub fn is_ascii(&self) -> (res: bool)
        ensures
            res,
    {
        true
    }

    /// The character with `a`-`z` moved to `A`-`Z`; others unchanged.
    pub fn to_ascii_uppercase(&self) -> (res: Ascii)
        ensures
            res@ == to_uppercase_code(self@),
    {
        if self.is_lowercase() {
            ascii_of_code(self.as_byte() - 0x20)
        } else {
            *self
        }
    }

    /// The character with `A`-`Z` moved to `a`-`z`; others unchanged.
    pub fn to_ascii_lowercase(&self) -> (res: Ascii)
        ensures
            res@ == to_lowercase_code(self@),
    {
        if self.is_uppercase() {
            ascii_of_code(self.as_byte() + 0x20)
        } else {
            *self
        }
    }

    /// Whether the two characters are equal once letters are folded to one
    /// case.
    pub fn eq_ignore_ascii_case(&self, other: &Ascii) -> (res: bool)
        ensures
            res == (to_lowercase_code(self@) == to_lowercase_code(other@)),
    {
        self.to_ascii_lowercase().as_byte() == other.to_ascii_lowercase().as_byte()
    }

    /// Moves the character from `a`-`z` to `A`-`Z` in place.
    pub fn make_ascii_uppercase(&mut self)
        ensures
            final(self)@ == to_uppercase_code(old(self)@),
    {
        *self = self.to_ascii_uppercase();
    }

    /// Moves the character from `A`-`Z` to `a`-`z` in place.
    pub fn make_ascii_lowercase(&mut self)
        ensures
            final(self)@ == to_lowercase_code(old(self)@),
    {
        *self = self.to_ascii_lowercase();
    }

    /// The character as a one-character string.
    pub fn to_string(&self) -> (res: String)
        ensures
            res@ == seq![self.as_char_spec()],
    {
        let mut text = String::new();
        push_char(&mut text, self.as_char());
        text
    }

    /// The character as `char`'s debug formatting renders it: quoted, with
    /// control characters, quotes and backslash escaped.
    pub fn to_debug_string(&self) -> (res: String)
        ensures
            res@ == char_debug_text(self.as_char_spec()),
    {
        char_debug(self.as_char())
    }
}

} // verus!
