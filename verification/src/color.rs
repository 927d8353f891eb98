//! Colors, their textual hex form, and zone color sets.

use vstd::prelude::*;
use vstd::string::*;

verus! {

/// An RGB color, one unsigned byte per channel.
#[derive(Debug, Clone, Copy, PartialEq, Eq, Structural)]
pub struct Color {
    pub r: u8,
    pub g: u8,
    pub b: u8,
}

/// Why a string failed to parse as a color.
#[derive(Debug, Clone, Copy, PartialEq, Eq, Structural)]
pub enum ColorParseError {
    /// Not exactly six characters after stripping an optional `#` prefix.
    BadLength,
    /// A character among the six is not a hexadecimal digit.
    BadDigit,
}

/// Whether `c` is a hexadecimal digit, upper or lower case.
pub open spec fn is_hex_digit(c: char) -> bool {
    ('0' <= c && c <= '9') || ('a' <= c && c <= 'f') || ('A' <= c && c <= 'F')
}

/// The numeric value of a hexadecimal digit.
pub open spec fn hex_digit_value(c: char) -> u8
    recommends
        is_hex_digit(c),
{
    if '0' <= c && c <= '9' {
        (c as u32 - 48) as u8
    } else if 'a' <= c && c <= 'f' {
        (c as u32 - 87) as u8
    } else {
        (c as u32 - 55) as u8
    }
}

/// The upper-case hexadecimal digit for a value below 16.
pub open spec fn hex_digit_char(v: u8) -> char
    recommends
        v < 16,
{
    if v == 0 { '0' } else if v == 1 { '1' } else if v == 2 { '2' } else if v == 3 { '3' }
    else if v == 4 { '4' } else if v == 5 { '5' } else if v == 6 { '6' } else if v == 7 { '7' }
    else if v == 8 { '8' } else if v == 9 { '9' } else if v == 10 { 'A' } else if v == 11 { 'B' }
    else if v == 12 { 'C' } else if v == 13 { 'D' } else if v == 14 { 'E' } else { 'F' }
}

/// A hexadecimal digit with any lower-case letter replaced by its upper-case
/// form; other characters are left alone.
pub open spec fn upper_hex_digit(c: char) -> char {
    if c == 'a' { 'A' } else if c == 'b' { 'B' } else if c == 'c' { 'C' }
    else if c == 'd' { 'D' } else if c == 'e' { 'E' } else if c == 'f' { 'F' }
    else { c }
}

/// `s` with one leading `#` removed, if present.
pub open spec fn strip_hash(s: Seq<char>) -> Seq<char> {
    if s.len() > 0 && s[0] == '#' {
        s.skip(1)
    } else {
        s
    }
}

/// Whether `s` is a valid color string: exactly six hexadecimal digits after
/// an optional `#` prefix.
pub open spec fn valid_color_str(s: Seq<char>) -> bool {
    let t = strip_hash(s);
    t.len() == 6 && (forall|i: int| 0 <= i < 6 ==> is_hex_digit(#[trigger] t[i]))
}

/// The byte a pair of hexadecimal digits denotes, high digit first.
pub open spec fn byte_of_digits(hi: char, lo: char) -> u8
    recommends
        is_hex_digit(hi),
        is_hex_digit(lo),
{
    (hex_digit_value(hi) * 16 + hex_digit_value(lo)) as u8
}

/// The color a valid color string denotes.
pub open spec fn color_of_str(s: Seq<char>) -> Color
    recommends
        valid_color_str(s),
{
    let t = strip_hash(s);
    Color {
        r: byte_of_digits(t[0], t[1]),
        g: byte_of_digits(t[2], t[3]),
        b: byte_of_digits(t[4], t[5]),
    }
}

/// The canonical textual form of a color: `#` followed by six upper-case
/// hexadecimal digits.
pub open spec fn color_str(c: Color) -> Seq<char> {
    seq![
        '#',
        hex_digit_char((c.r / 16) as u8),
        hex_digit_char((c.r % 16) as u8),
        hex_digit_char((c.g / 16) as u8),
        hex_digit_char((c.g % 16) as u8),
        hex_digit_char((c.b / 16) as u8),
        hex_digit_char((c.b % 16) as u8),
    ]
}

/// The color packed into the low 24 bits of a `u64`, red highest.
pub open spec fn u64_of_color(c: Color) -> u64 {
    (c.r * 0x10000 + c.g * 0x100 + c.b) as u64
}

/// The color held in the low 24 bits of a `u64`.
pub open spec fn color_of_u64(v: u64) -> Color {
    Color {
        r: (v / 0x10000 % 0x100) as u8,
        g: (v / 0x100 % 0x100) as u8,
        b: (v % 0x100) as u8,
    }
}

/// The numeric value of a hexadecimal digit, or `None` for any other
/// character.
pub fn hex_digit(c: char) -> (r: Option<u8>)
    ensures
        match r {
            Some(v) => is_hex_digit(c) && v == hex_digit_value(c) && v < 16,
            None => !is_hex_digit(c),
        },
{
    if c >= '0' && c <= '9' {
        Some((c as u32 - 48) as u8)
    } else if c >= 'a' && c <= 'f' {
        Some((c as u32 - 87) as u8)
    } else if c >= 'A' && c <= 'F' {
        Some((c as u32 - 55) as u8)
    } else {
        None
    }
}

/// The one-character string for a hexadecimal digit value.
fn hex_digit_str(v: u8) -> (r: &'static str)
    requires
        v < 16,
    ensures
        r@ =~= seq![hex_digit_char(v)],
{
    proof {
        reveal_strlit("0");
        reveal_strlit("1");
        reveal_strlit("2");
        reveal_strlit("3");
        reveal_strlit("4");
        reveal_strlit("5");
        reveal_strlit("6");
        reveal_strlit("7");
        reveal_strlit("8");
        reveal_strlit("9");
        reveal_strlit("A");
        reveal_strlit("B");
        reveal_strlit("C");
        reveal_strlit("D");
        reveal_strlit("E");
        reveal_strlit("F");
    }
    if v == 0 { "0" } else if v == 1 { "1" } else if v == 2 { "2" } else if v == 3 { "3" }
    else if v == 4 { "4" } else if v == 5 { "5" } else if v == 6 { "6" } else if v == 7 { "7" }
    else if v == 8 { "8" } else if v == 9 { "9" } else if v == 10 { "A" } else if v == 11 { "B" }
    else if v == 12 { "C" } else if v == 13 { "D" } else if v == 14 { "E" } else { "F" }
}

impl Color {
    pub fn new(r: u8, g: u8, b: u8) -> (c: Self)
        ensures
            c == (Color { r, g, b }),
    {
        Self { r, g, b }
    }

    /// Parses a six-hex-digit color string with an optional `#` prefix,
    /// case-insensitively. Fails for every other string.
    pub fn parse(s: &str) -> (r: Result<Color, ColorParseError>)
        ensures
            match r {
                Ok(c) => valid_color_str(s@) && c == color_of_str(s@),
                Err(ColorParseError::BadLength) => strip_hash(s@).len() != 6,
                Err(ColorParseError::BadDigit) => strip_hash(s@).len() == 6 && !valid_color_str(
                    s@,
                ),
            },
    {
        let n = s.unicode_len();
        let start: usize = if n > 0 && s.get_char(0) == '#' {
            1
        } else {
            0
        };
        assert(strip_hash(s@).len() == n - start);
        if n - start != 6 {
            return Err(ColorParseError::BadLength);
        }
        let ghost t = strip_hash(s@);
        proof {
            assert(t[0] == s@[start as int]);
            assert(t[1] == s@[start as int + 1]);
            assert(t[2] == s@[start as int + 2]);
            assert(t[3] == s@[start as int + 3]);
            assert(t[4] == s@[start as int + 4]);
            assert(t[5] == s@[start as int + 5]);
        }
        let d0 = match hex_digit(s.get_char(start)) {
            Some(v) => v,
            None => {
                return Err(ColorParseError::BadDigit);
            },
        };
        let d1 = match hex_digit(s.get_char(start + 1)) {
            Some(v) => v,
            None => {
                return Err(ColorParseError::BadDigit);
            },
        };
        let d2 = match hex_digit(s.get_char(start + 2)) {
            Some(v) => v,
            None => {
                return Err(ColorParseError::BadDigit);
            },
        };
        let d3 = match hex_digit(s.get_char(start + 3)) {
            Some(v) => v,
            None => {
                return Err(ColorParseError::BadDigit);
            },
        };
        let d4 = match hex_digit(s.get_char(start + 4)) {
            Some(v) => v,
            None => {
                return Err(ColorParseError::BadDigit);
            },
        };
        let d5 = match hex_digit(s.get_char(start + 5)) {
            Some(v) => v,
            None => {
                return Err(ColorParseError::BadDigit);
            },
        };
        Ok(Color::new(d0 * 16 + d1, d2 * 16 + d3, d4 * 16 + d5))
    }

    /// The canonical `#RRGGBB` form, upper case.
    pub fn to_hex_string(&self) -> (r: String)
        ensures
            r@ == color_str(*self),
    {
        proof {
            reveal_strlit("#");
        }
        let mut out = String::from_str("#");
        out.append(hex_digit_str(self.r / 16));
        out.append(hex_digit_str(self.r % 16));
        out.append(hex_digit_str(self.g / 16));
        out.append(hex_digit_str(self.g % 16));
        out.append(hex_digit_str(self.b / 16));
        out.append(hex_digit_str(self.b % 16));
        assert(out@ =~= color_str(*self));
        out
    }
}

impl Default for Color {
    /// The default color is black.
    fn default() -> (c: Self)
        ensures
            c == (Color { r: 0, g: 0, b: 0 }),
    {
        Self::new(0, 0, 0)
    }
}

impl core::str::FromStr for Color {
    type Err = ColorParseError;

    fn from_str(s: &str) -> Result<Self, Self::Err> {
        Color::parse(s)
    }
}

impl From<u64> for Color {
    fn from(value: u64) -> (c: Self) {
        Self::new((value / 0x10000 % 0x100) as u8, (value / 0x100 % 0x100) as u8, (value
            % 0x100) as u8)
    }
}

impl vstd::std_specs::convert::FromSpecImpl<u64> for Color {
    open spec fn obeys_from_spec() -> bool {
        true
    }

    open spec fn from_spec(v: u64) -> Self {
        color_of_u64(v)
    }
}

impl From<Color> for u64 {
    fn from(value: Color) -> (n: Self) {
        (value.r as u64) * 0x10000 + (value.g as u64) * 0x100 + (value.b as u64)
    }
}

impl vstd::std_specs::convert::FromSpecImpl<Color> for u64 {
    open spec fn obeys_from_spec() -> bool {
        true
    }

    open spec fn from_spec(c: Color) -> Self {
        u64_of_color(c)
    }
}

/// A color choice for each of the four keyboard zones. An absent color means
/// "leave this zone alone" when writing and "unknown" when reading.
#[derive(Debug, Clone, Copy, PartialEq, Eq)]
pub struct ZoneColors {
    pub right: Option<Color>,
    pub center: Option<Color>,
    pub left: Option<Color>,
    pub game: Option<Color>,
}

/// The color itself, or black where none is present.
pub open spec fn or_black(c: Option<Color>) -> Color {
    match c {
        Some(c0) => c0,
        None => Color { r: 0, g: 0, b: 0 },
    }
}

/// The textual form of a zone color set, absent zones shown as black.
pub open spec fn zone_colors_str(z: ZoneColors) -> Seq<char> {
    "R: "@ + color_str(or_black(z.right)) + ", C: "@ + color_str(or_black(z.center)) + ", L: "@
        + color_str(or_black(z.left)) + ", G: "@ + color_str(or_black(z.game))
}

impl ZoneColors {
    /// One line naming each zone's color, absent zones shown as black.
    pub fn to_display_string(&self) -> (r: String)
        ensures
            r@ == zone_colors_str(*self),
    {
        let right = match self.right {
            Some(c) => c,
            None => Color::new(0, 0, 0),
        };
        let center = match self.center {
            Some(c) => c,
            None => Color::new(0, 0, 0),
        };
        let left = match self.left {
            Some(c) => c,
            None => Color::new(0, 0, 0),
        };
        let game = match self.game {
            Some(c) => c,
            None => Color::new(0, 0, 0),
        };
        let mut out = String::from_str("R: ");
        let s_right = right.to_hex_string();
        out.append(s_right.as_str());
        out.append(", C: ");
        let s_center = center.to_hex_string();
        out.append(s_center.as_str());
        out.append(", L: ");
        let s_left = left.to_hex_string();
        out.append(s_left.as_str());
        out.append(", G: ");
        let s_game = game.to_hex_string();
        out.append(s_game.as_str());
        assert(out@ =~= zone_colors_str(*self));
        out
    }
}

/// Law: a hexadecimal digit survives a round trip through its value, up to
/// upper-casing.
proof fn lemma_hex_digit_round_trip(c: char)
    requires
        is_hex_digit(c),
    ensures
        hex_digit_char(hex_digit_value(c)) == upper_hex_digit(c),
{
}

/// Law: parsing any valid color string (six hexadecimal digits, with or
/// without a leading `#`) and formatting the result yields the canonical
/// form: `#` followed by the same six digits in upper case.
pub proof fn lemma_parse_format_round_trip(s: Seq<char>)
    requires
        valid_color_str(s),
    ensures
        color_str(color_of_str(s)) =~= seq!['#'] + strip_hash(s).map_values(
            |c: char| upper_hex_digit(c),
        ),
{
    let t = strip_hash(s);
    let c = color_of_str(s);
    assert forall|i: int| 0 <= i < 6 implies is_hex_digit(t[i]) by {}
    assert(c.r == hex_digit_value(t[0]) * 16 + hex_digit_value(t[1]));
    assert(c.r / 16 == hex_digit_value(t[0]) && c.r % 16 == hex_digit_value(t[1])) by {
        lemma_byte_of_digits_split(t[0], t[1]);
    }
    assert(c.g / 16 == hex_digit_value(t[2]) && c.g % 16 == hex_digit_value(t[3])) by {
        lemma_byte_of_digits_split(t[2], t[3]);
    }
    assert(c.b / 16 == hex_digit_value(t[4]) && c.b % 16 == hex_digit_value(t[5])) by {
        lemma_byte_of_digits_split(t[4], t[5]);
    }
    assert forall|i: int| 0 <= i < 6 implies hex_digit_char(hex_digit_value(t[i]))
        == upper_hex_digit(t[i]) by {
        lemma_hex_digit_round_trip(t[i]);
    }
}

/// Splitting the byte two hexadecimal digits denote recovers each digit.
proof fn lemma_byte_of_digits_split(hi: char, lo: char)
    requires
        is_hex_digit(hi),
        is_hex_digit(lo),
    ensures
        byte_of_digits(hi, lo) / 16 == hex_digit_value(hi),
        byte_of_digits(hi, lo) % 16 == hex_digit_value(lo),
{
    let h = hex_digit_value(hi) as int;
    let l = hex_digit_value(lo) as int;
    assert(0 <= h < 16 && 0 <= l < 16);
    assert((h * 16 + l) / 16 == h && (h * 16 + l) % 16 == l) by (nonlinear_arith)
        requires
            0 <= h < 16 && 0 <= l < 16,
    {}
}

} // verus!
