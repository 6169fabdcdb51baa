use vstd::prelude::*;

verus! {

/// Display category of a byte.
#[derive(Clone, Copy, Debug, PartialEq, Eq, Structural)]
pub enum ByteType {
    Null,
    PrintableAscii,
    WhitespaceAscii,
    OtherAscii,
    NonAscii,
}

/// Foreground colours used to paint bytes and offsets.
#[derive(Clone, Copy, Debug, PartialEq, Eq, Structural)]
pub enum Colour {
    Black,
    Cyan,
    White,
    Green,
    Red,
}

/// A run of text with the colour it is shown in (none: the terminal's
/// default) and whether it is shown highlighted.
#[derive(Clone, Debug, PartialEq, Eq)]
pub struct Styled {
    pub text: String,
    pub colour: Option<Colour>,
    pub highlighted: bool,
}

impl View for Styled {
    type V = (Seq<char>, Option<Colour>, bool);

    open spec fn view(&self) -> (Seq<char>, Option<Colour>, bool) {
        (self.text@, self.colour, self.highlighted)
    }
}

/// Relies on `String::push`: appends one character.
#[verifier::external_body]
pub(crate) fn push_char(s: &mut String, c: char)
    ensures
        final(s)@ == old(s)@.push(c),
{
    s.push(c)
}

/// `u8::is_ascii_graphic`: from '!' to '~'.
pub open spec fn is_graphic(b: u8) -> bool {
    0x21 <= b <= 0x7e
}

/// `u8::is_ascii_whitespace`: space, tab, line feed, form feed, carriage return.
pub open spec fn is_whitespace(b: u8) -> bool {
    b == 0x20 || b == 0x09 || b == 0x0a || b == 0x0c || b == 0x0d
}

/// The category that each byte belongs to, as a predicate per category.
pub open spec fn in_category(b: u8, t: ByteType) -> bool {
    match t {
        ByteType::Null => b == 0,
        ByteType::PrintableAscii => is_graphic(b),
        ByteType::WhitespaceAscii => is_whitespace(b) && !is_graphic(b),
        ByteType::OtherAscii => b != 0 && b < 0x80 && !is_graphic(b) && !is_whitespace(b),
        ByteType::NonAscii => b >= 0x80,
    }
}

pub open spec fn type_of(b: u8) -> ByteType {
    if b == 0 {
        ByteType::Null
    } else if is_graphic(b) {
        ByteType::PrintableAscii
    } else if is_whitespace(b) {
        ByteType::WhitespaceAscii
    } else if b < 0x80 {
        ByteType::OtherAscii
    } else {
        ByteType::NonAscii
    }
}

pub open spec fn colour_of(t: ByteType) -> Colour {
    match t {
        ByteType::Null => Colour::Black,
        ByteType::PrintableAscii => Colour::Cyan,
        ByteType::WhitespaceAscii => Colour::White,
        ByteType::OtherAscii => Colour::Green,
        ByteType::NonAscii => Colour::Red,
    }
}

/// The glyph shown for byte `b` taken to be of category `t`.
pub open spec fn glyph_as(b: u8, t: ByteType) -> char {
    match t {
        ByteType::Null => '0',
        ByteType::OtherAscii => '\u{2022}',
        ByteType::WhitespaceAscii => '_',
        ByteType::PrintableAscii => b as char,
        ByteType::NonAscii => '\u{d7}',
    }
}

/// The glyph shown for a byte in the character pane.
pub open spec fn glyph(b: u8) -> char {
    glyph_as(b, type_of(b))
}

/// Upper-case hexadecimal digit of a value below 16.
pub open spec fn hex_digit(n: int) -> char {
    if n < 10 {
        (n + 48) as char
    } else {
        (n + 55) as char
    }
}

/// Value of an upper-case hexadecimal digit.
pub open spec fn hex_value(c: char) -> int {
    if '0' <= c <= '9' {
        c as int - 48
    } else {
        c as int - 55
    }
}

/// The two hexadecimal digits of a byte, high nibble first.
pub open spec fn hex_pair(b: u8) -> Seq<char> {
    seq![hex_digit(b as int / 16), hex_digit(b as int % 16)]
}

/// Every byte falls in exactly one category, the one `ByteType::get_type`
/// picks: `Null` is the zero byte alone and `NonAscii` the bytes from 0x80.
pub proof fn lemma_category_partition(b: u8)
    ensures
        forall|t: ByteType| #[trigger] in_category(b, t) <==> t == type_of(b),
        type_of(b) == ByteType::Null <==> b == 0,
        type_of(b) == ByteType::NonAscii <==> b >= 0x80,
{
}

/// Decoding the two hexadecimal digits written for a byte gives the byte back.
pub proof fn lemma_hex_round_trip(b: u8)
    ensures
        hex_pair(b).len() == 2,
        16 * hex_value(hex_pair(b)[0]) + hex_value(hex_pair(b)[1]) == b as int,
{
}

#[derive(Debug)]
pub enum ByteError {
    NibbleParseError(u8),
}

impl ByteType {
    pub fn get_type(data: u8) -> (r: ByteType)
        ensures
            r == type_of(data),
    {
        if data == 0 {
            ByteType::Null
        } else if 0x21 <= data && data <= 0x7e {
            ByteType::PrintableAscii
        } else if data == 0x20 || data == 0x09 || data == 0x0a || data == 0x0c || data == 0x0d {
            ByteType::WhitespaceAscii
        } else if data < 0x80 {
            ByteType::OtherAscii
        } else {
            ByteType::NonAscii
        }
    }

    pub fn colour(&self) -> (r: Colour)
        ensures
            r == colour_of(*self),
    {
        match self {
            ByteType::Null => Colour::Black,
            ByteType::PrintableAscii => Colour::Cyan,
            ByteType::WhitespaceAscii => Colour::White,
            ByteType::OtherAscii => Colour::Green,
            ByteType::NonAscii => Colour::Red,
        }
    }

    /// The text, to be shown in the colour of this category.
    pub fn colour_byte(&self, string: String) -> (r: Styled)
        ensures
            r@ == (string@, Some(colour_of(*self)), false),
    {
        let c = self.colour();
        Styled { text: string, colour: Some(c), highlighted: false }
    }
}

pub fn nibble_to_hex(nibble: u8) -> (r: Result<char, ByteError>)
    ensures
        nibble < 16 ==> r == Ok::<char, ByteError>(hex_digit(nibble as int)),
        nibble >= 16 ==> r is Err && r->Err_0 == ByteError::NibbleParseError(nibble),
{
    match nibble {
        0 => Ok('0'),
        1 => Ok('1'),
        2 => Ok('2'),
        3 => Ok('3'),
        4 => Ok('4'),
        5 => Ok('5'),
        6 => Ok('6'),
        7 => Ok('7'),
        8 => Ok('8'),
        9 => Ok('9'),
        10 => Ok('A'),
        11 => Ok('B'),
        12 => Ok('C'),
        13 => Ok('D'),
        14 => Ok('E'),
        15 => Ok('F'),
        _ => Err(ByteError::NibbleParseError(nibble)),
    }
}

/// Hexadecimal digit of a value below 16.
pub fn hex_char(n: u8) -> (r: char)
    requires
        n < 16,
    ensures
        r == hex_digit(n as int),
{
    match nibble_to_hex(n) {
        Ok(c) => c,
        Err(_) => '0',
    }
}

pub fn u8_to_hex(byte: u8) -> (r: [char; 2])
    ensures
        r@ == hex_pair(byte),
{
    let upper = byte >> 4;
    let lower = byte & 0x0f;
    assert(byte >> 4u8 == byte / 16) by (bit_vector);
    assert(byte & 0x0fu8 == byte % 16) by (bit_vector);
    let r = [hex_char(upper), hex_char(lower)];
    assert(r@ =~= hex_pair(byte));
    r
}

pub fn byte_to_char(byte: u8, byte_type: &ByteType) -> (r: char)
    ensures
        r == glyph_as(byte, *byte_type),
{
    match byte_type {
        ByteType::Null => '0',
        ByteType::OtherAscii => '\u{2022}',
        ByteType::WhitespaceAscii => '_',
        ByteType::PrintableAscii => byte as char,
        ByteType::NonAscii => '\u{d7}',
    }
}

/// A byte of the file with its hexadecimal digits, glyph and category.
pub struct Byte {
    decimal: u8,
    hex: [char; 2],
    char: char,
    byte_type: ByteType,
}

impl View for Byte {
    type V = u8;

    closed spec fn view(&self) -> u8 {
        self.decimal
    }
}

impl Byte {
    #[verifier::type_invariant]
    spec fn inv(&self) -> bool {
        &&& self.hex@ == hex_pair(self.decimal)
        &&& self.char == glyph(self.decimal)
        &&& self.byte_type == type_of(self.decimal)
    }

    pub fn new(data: u8) -> (r: Byte)
        ensures
            r@ == data,
    {
        let byte_type = ByteType::get_type(data);
        Byte { decimal: data, hex: u8_to_hex(data), char: byte_to_char(data, &byte_type), byte_type }
    }

    pub fn value(&self) -> (r: u8)
        ensures
            r == self@,
    {
        self.decimal
    }

    /// The glyph, in the colour of the byte's category.
    pub fn char(&self) -> (r: Styled)
        ensures
            r@ == (seq![glyph(self@)], Some(colour_of(type_of(self@))), false),
    {
        proof {
            use_type_invariant(self);
        }
        let mut s = String::new();
        push_char(&mut s, self.char);
        assert(s@ =~= seq![glyph(self@)]);
        self.byte_type.colour_byte(s)
    }

    /// The two hexadecimal digits, in the colour of the byte's category.
    pub fn hex(&self) -> (r: Styled)
        ensures
            r@ == (hex_pair(self@), Some(colour_of(type_of(self@))), false),
    {
        proof {
            use_type_invariant(self);
        }
        let mut s = String::new();
        push_char(&mut s, self.hex[0]);
        push_char(&mut s, self.hex[1]);
        assert(s@ =~= hex_pair(self@));
        self.byte_type.colour_byte(s)
    }
}

} // verus!
