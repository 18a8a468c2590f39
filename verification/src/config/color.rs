//! 24-bit RGB colour used by border styling.
//!
//! The text form is `#RRGGBB`. Reading is strict but takes either case of the
//! digits; writing gives upper case.
use crate::text::{concat, concat3, debug_quoted, decimal, decimal_text, hex_pair, hex_pair_text, quoted};
use vstd::prelude::*;
use vstd::string::*;
use vstd::utf8::*;

verus! {

/// 24-bit RGB colour (no alpha).
#[derive(Debug, Clone, Copy, PartialEq, Eq, Hash, Structural)]
pub struct Color {
    /// Red channel.
    pub r: u8,
    /// Green channel.
    pub g: u8,
    /// Blue channel.
    pub b: u8,
}

/// Value of an ASCII hexadecimal digit of either case.
pub open spec fn hex_value(byte: u8) -> Option<int> {
    if 0x30 <= byte <= 0x39 {
        Some(byte - 0x30)
    } else if 0x41 <= byte <= 0x46 {
        Some(byte - 0x41 + 10)
    } else if 0x61 <= byte <= 0x66 {
        Some(byte - 0x61 + 10)
    } else {
        None
    }
}

/// Value of two hexadecimal digits.
pub open spec fn hex_byte(high: u8, low: u8) -> Option<int> {
    match (hex_value(high), hex_value(low)) {
        (Some(h), Some(l)) => Some(h * 16 + l),
        _ => None,
    }
}

/// Why a text is not a colour.
pub enum ColorFault {
    /// It does not start with `#`.
    NoHash,
    /// It does not have six bytes after the `#`.
    Length,
    /// The two characters of a channel are not hexadecimal digits.
    Red,
    /// As above.
    Green,
    /// As above.
    Blue,
}

/// The colour that a text, given by its UTF-8 bytes, denotes.
pub open spec fn color_of(bytes: Seq<u8>) -> Result<Color, ColorFault> {
    if bytes.len() == 0 || bytes[0] != 0x23 {
        Err(ColorFault::NoHash)
    } else if bytes.len() != 7 {
        Err(ColorFault::Length)
    } else {
        match (
            hex_byte(bytes[1], bytes[2]),
            hex_byte(bytes[3], bytes[4]),
            hex_byte(bytes[5], bytes[6]),
        ) {
            (None, _, _) => Err(ColorFault::Red),
            (_, None, _) => Err(ColorFault::Green),
            (_, _, None) => Err(ColorFault::Blue),
            (Some(r), Some(g), Some(b)) => Ok(Color { r: r as u8, g: g as u8, b: b as u8 }),
        }
    }
}

/// The message for a text that is not a colour.
pub open spec fn fault_message(fault: ColorFault, s: Seq<char>, byte_len: nat) -> Seq<char> {
    match fault {
        ColorFault::NoHash => "color must start with '#': got "@ + debug_quoted(s),
        ColorFault::Length => "color must be 6 hex digits (#RRGGBB): got "@ + debug_quoted(s) + (
        " ("@ + decimal((byte_len - 1) as nat) + " chars after '#')"@),
        ColorFault::Red => "invalid red channel in "@ + debug_quoted(s)
            + ": invalid digit found in string"@,
        ColorFault::Green => "invalid green channel in "@ + debug_quoted(s)
            + ": invalid digit found in string"@,
        ColorFault::Blue => "invalid blue channel in "@ + debug_quoted(s)
            + ": invalid digit found in string"@,
    }
}

/// The text form of a colour.
pub open spec fn color_text(c: Color) -> Seq<char> {
    "#"@ + hex_pair(c.r) + hex_pair(c.g) + hex_pair(c.b)
}

fn hex_digit_value(byte: u8) -> (res: Option<u8>)
    ensures
        res is Some <==> hex_value(byte) is Some,
        res is Some ==> res->Some_0 == hex_value(byte)->Some_0 && res->Some_0 < 16,
{
    if 0x30 <= byte && byte <= 0x39 {
        Some((byte - 0x30) as u8)
    } else if 0x41 <= byte && byte <= 0x46 {
        Some((byte - 0x41 + 10) as u8)
    } else if 0x61 <= byte && byte <= 0x66 {
        Some((byte - 0x61 + 10) as u8)
    } else {
        None
    }
}

fn channel_value(high: u8, low: u8) -> (res: Option<u8>)
    ensures
        res is Some <==> hex_byte(high, low) is Some,
        res is Some ==> res->Some_0 == hex_byte(high, low)->Some_0,
{
    match hex_digit_value(high) {
        Some(h) => match hex_digit_value(low) {
            Some(l) => Some(h * 16 + l),
            None => None,
        },
        None => None,
    }
}

impl Color {
    /// Constructs a colour from its channels.
    #[must_use]
    pub fn rgb(r: u8, g: u8, b: u8) -> (res: Self)
        ensures
            res == (Color { r, g, b }),
    {
        Self { r, g, b }
    }

    /// Converts to the `0x00BBGGRR` form that GDI takes.
    #[must_use]
    pub fn to_colorref(self) -> (res: u32)
        ensures
            res == self.b * 0x1_0000 + self.g * 0x100 + self.r,
    {
        let r: u32 = self.r as u32;
        let g: u32 = self.g as u32;
        let b: u32 = self.b as u32;
        assert(r | (g << 8) | (b << 16) == b * 0x1_0000 + g * 0x100 + r) by (bit_vector)
            requires
                r <= 255,
                g <= 255,
                b <= 255,
        ;
        r | (g << 8) | (b << 16)
    }

    /// Reads a `#RRGGBB` text; the digits may be of either case.
    ///
    /// Gives a message when the `#` is missing, when not exactly six digits follow
    /// it, or when one of them is not hexadecimal.
    pub fn parse(s: &str) -> (res: Result<Self, String>)
        ensures
            match color_of(encode_utf8(s@)) {
                Ok(c) => res == Ok::<Color, String>(c),
                Err(fault) => res is Err && res->Err_0@ == fault_message(
                    fault,
                    s@,
                    encode_utf8(s@).len(),
                ),
            },
    {
        let bytes: &[u8] = s.as_bytes();
        let n: usize = bytes.len();
        if n == 0 || bytes[0] != 0x23 {
            return Err(concat("color must start with '#': got ", quoted(s).as_str()));
        }
        if n != 7 {
            let count: String = decimal_text((n - 1) as u64);
            let tail: String = concat3(" (", count.as_str(), " chars after '#')");
            return Err(
                concat3(
                    "color must be 6 hex digits (#RRGGBB): got ",
                    quoted(s).as_str(),
                    tail.as_str(),
                ),
            );
        }
        let why: &str = ": invalid digit found in string";
        let r: u8 = match channel_value(bytes[1], bytes[2]) {
            Some(v) => v,
            None => return Err(concat3("invalid red channel in ", quoted(s).as_str(), why)),
        };
        let g: u8 = match channel_value(bytes[3], bytes[4]) {
            Some(v) => v,
            None => return Err(concat3("invalid green channel in ", quoted(s).as_str(), why)),
        };
        let b: u8 = match channel_value(bytes[5], bytes[6]) {
            Some(v) => v,
            None => return Err(concat3("invalid blue channel in ", quoted(s).as_str(), why)),
        };
        Ok(Color::rgb(r, g, b))
    }

    /// The text form: `#` and six upper-case hexadecimal digits.
    #[must_use]
    pub fn to_string(&self) -> (res: String)
        ensures
            res@ == color_text(*self),
    {
        let mut s: String = concat("#", hex_pair_text(self.r).as_str());
        s.append(hex_pair_text(self.g).as_str());
        s.append(hex_pair_text(self.b).as_str());
        s
    }

    /// Name of the colour type in a JSON schema.
    #[must_use]
    pub fn schema_name() -> (res: String)
        ensures
            res@ == "Color"@,
    {
        "Color".to_owned()
    }

    /// Path-qualified identifier of the colour type, so that it cannot collide with a
    /// type of the same name elsewhere.
    #[must_use]
    pub fn schema_id() -> (res: String)
        ensures
            res@ == "flow_wm::config::color::Color"@,
    {
        "flow_wm::config::color::Color".to_owned()
    }

    /// A colour schema is written in place, not referred to: it is a leaf.
    #[must_use]
    pub fn inline_schema() -> (res: bool)
        ensures
            res,
    {
        true
    }
}

impl Default for Color {
    /// Black.
    fn default() -> (res: Self)
        ensures
            res == (Color { r: 0, g: 0, b: 0 }),
    {
        Color { r: 0, g: 0, b: 0 }
    }
}

impl core::str::FromStr for Color {
    type Err = String;

    /// See [`Color::parse`].
    fn from_str(s: &str) -> (res: Result<Self, String>)
        ensures
            match color_of(encode_utf8(s@)) {
                Ok(c) => res == Ok::<Color, String>(c),
                Err(fault) => res is Err && res->Err_0@ == fault_message(
                    fault,
                    s@,
                    encode_utf8(s@).len(),
                ),
            },
    {
        Color::parse(s)
    }
}

proof fn lemma_digit(d: int)
    requires
        0 <= d < 16,
    ensures
        (crate::text::digit_char(d) as u32) < 128,
        hex_value(crate::text::digit_char(d) as u8) == Some(d),
{
}

/// Reading what was written gives the colour back.
pub proof fn written_color_reads_back(c: Color)
    ensures
        color_of(encode_utf8(color_text(c))) == Ok::<Color, ColorFault>(c),
{
    reveal_strlit("#");
    let text = color_text(c);
    lemma_digit(c.r as int / 16);
    lemma_digit(c.r as int % 16);
    lemma_digit(c.g as int / 16);
    lemma_digit(c.g as int % 16);
    lemma_digit(c.b as int / 16);
    lemma_digit(c.b as int % 16);
    assert(is_ascii_chars(text));
    is_ascii_chars_encode_utf8(text);
}

/// The same digits, letters in upper case.
pub open spec fn upper_hex(byte: u8) -> u8 {
    if 0x61 <= byte <= 0x66 {
        (byte - 0x20) as u8
    } else {
        byte
    }
}

/// The case of the digits does not matter.
pub proof fn color_case_does_not_matter(bytes: Seq<u8>)
    ensures
        color_of(bytes.map_values(|b: u8| upper_hex(b))) == color_of(bytes),
{
    let up = bytes.map_values(|b: u8| upper_hex(b));
    assert forall|i: int| 0 <= i < bytes.len() implies hex_value(#[trigger] up[i]) == hex_value(
        bytes[i],
    ) by {}
    if bytes.len() == 7 {
        assert(hex_value(up[1]) == hex_value(bytes[1]));
        assert(hex_value(up[2]) == hex_value(bytes[2]));
        assert(hex_value(up[3]) == hex_value(bytes[3]));
        assert(hex_value(up[4]) == hex_value(bytes[4]));
        assert(hex_value(up[5]) == hex_value(bytes[5]));
        assert(hex_value(up[6]) == hex_value(bytes[6]));
    }
}

/// A text is a colour exactly when it is `#` followed by six hexadecimal digits.
pub proof fn colors_are_hash_and_six_digits(bytes: Seq<u8>)
    ensures
        color_of(bytes) is Ok <==> {
            &&& bytes.len() == 7
            &&& bytes[0] == 0x23
            &&& forall|i: int| 1 <= i < 7 ==> hex_value(#[trigger] bytes[i]) is Some
        },
{
    if color_of(bytes) is Ok {
        assert forall|i: int| 1 <= i < 7 implies hex_value(#[trigger] bytes[i]) is Some by {
            assert(i == 1 || i == 2 || i == 3 || i == 4 || i == 5 || i == 6);
        }
    }
}

/// A byte is a hexadecimal digit exactly when it is one of `0` to `9`, `A` to `F` and `a` to `f`,
/// and its value grows by one from each to the next.
pub proof fn hexadecimal_digits_count_up(byte: u8)
    ensures
        hex_value(byte) is Some <==> 0x30 <= byte <= 0x39 || 0x41 <= byte <= 0x46 || 0x61 <= byte
            <= 0x66,
        hex_value(0x30) == Some(0int) && hex_value(0x41) == Some(10int) && hex_value(0x61) == Some(
            10int,
        ),
        byte != 0x30 && byte != 0x41 && byte != 0x61 && hex_value(byte) is Some ==> hex_value(
            (byte - 1) as u8,
        ) is Some && hex_value(byte)->Some_0 == hex_value((byte - 1) as u8)->Some_0 + 1,
{
}

/// The first two digits of a colour are its red channel, the next two its green and the last two
/// its blue one, the higher digit before the lower one.
pub proof fn channels_are_read_in_order(bytes: Seq<u8>, c: Color)
    requires
        color_of(bytes) == Ok::<Color, ColorFault>(c),
    ensures
        bytes.len() == 7,
        c.r == 16 * hex_value(bytes[1])->Some_0 + hex_value(bytes[2])->Some_0,
        c.g == 16 * hex_value(bytes[3])->Some_0 + hex_value(bytes[4])->Some_0,
        c.b == 16 * hex_value(bytes[5])->Some_0 + hex_value(bytes[6])->Some_0,
{
}

/// What is wrong with a text that is no colour: first that it does not start with `#`, then that
/// its length is wrong, then the first channel that is not two digits.
pub proof fn first_fault_of_a_color(bytes: Seq<u8>)
    ensures
        ({
            let hash = bytes.len() > 0 && bytes[0] == 0x23;
            let red = hex_value(bytes[1]) is Some && hex_value(bytes[2]) is Some;
            let green = hex_value(bytes[3]) is Some && hex_value(bytes[4]) is Some;
            let blue = hex_value(bytes[5]) is Some && hex_value(bytes[6]) is Some;
            &&& !hash ==> color_of(bytes) == Err::<Color, ColorFault>(ColorFault::NoHash)
            &&& hash && bytes.len() != 7 ==> color_of(bytes) == Err::<Color, ColorFault>(
                ColorFault::Length,
            )
            &&& hash && bytes.len() == 7 && !red ==> color_of(bytes) == Err::<Color, ColorFault>(
                ColorFault::Red,
            )
            &&& hash && bytes.len() == 7 && red && !green ==> color_of(bytes) == Err::<
                Color,
                ColorFault,
            >(ColorFault::Green)
            &&& hash && bytes.len() == 7 && red && green && !blue ==> color_of(bytes) == Err::<
                Color,
                ColorFault,
            >(ColorFault::Blue)
        }),
{
}

/// The message about a text that is no colour quotes the text and names what is wrong.
pub proof fn color_faults_in_words(s: Seq<char>, n: nat)
    requires
        n > 0,
    ensures
        fault_message(ColorFault::NoHash, s, n) == "color must start with '#': got "@
            + debug_quoted(s),
        fault_message(ColorFault::Length, s, n) == "color must be 6 hex digits (#RRGGBB): got "@
            + debug_quoted(s) + (" ("@ + decimal((n - 1) as nat) + " chars after '#')"@),
        fault_message(ColorFault::Red, s, n) == "invalid red channel in "@ + debug_quoted(s)
            + ": invalid digit found in string"@,
        fault_message(ColorFault::Green, s, n) == "invalid green channel in "@ + debug_quoted(s)
            + ": invalid digit found in string"@,
        fault_message(ColorFault::Blue, s, n) == "invalid blue channel in "@ + debug_quoted(s)
            + ": invalid digit found in string"@,
{
}

/// A colour is written as `#` and six digits, two for each of red, green and blue, in that order.
pub proof fn colors_are_written_in_order(c: Color)
    ensures
        color_text(c).len() == 7,
        color_text(c)[0] == '#',
        color_text(c)[1] == crate::text::digit_char(c.r as int / 16),
        color_text(c)[2] == crate::text::digit_char(c.r as int % 16),
        color_text(c)[3] == crate::text::digit_char(c.g as int / 16),
        color_text(c)[4] == crate::text::digit_char(c.g as int % 16),
        color_text(c)[5] == crate::text::digit_char(c.b as int / 16),
        color_text(c)[6] == crate::text::digit_char(c.b as int % 16),
{
    reveal_strlit("#");
}

} // verus!
