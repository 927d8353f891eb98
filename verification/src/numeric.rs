//! Numeric color forms used at the command-line and embedding boundaries.
//!
//! A zone's color travels across those boundaries as a `u64` holding the
//! packed RGB value, with one sentinel value standing for "no color given".
//! Command-line arguments arrive as hexadecimal strings of any length that
//! fits the packed form.

use vstd::prelude::*;
use vstd::pervasive::unreached;
use vstd::string::*;

use crate::color::{
    color_of_u64, hex_digit, hex_digit_value, is_hex_digit, strip_hash, Color, ZoneColors,
};

verus! {

/// Sentinel packed value meaning "no color given for this zone".
pub const NO_COLOR: u64 = 0xFFFFFFFF;

/// A color choice for each zone as packed values: the color's numeric form,
/// or `NO_COLOR` where none is given.
#[derive(Debug, Clone, Copy, PartialEq, Eq, Structural)]
pub struct NumZoneColors {
    pub right: u64,
    pub center: u64,
    pub left: u64,
    pub game: u64,
}

/// The optional color a packed value denotes.
pub open spec fn spec_color_from_num(value: u64) -> Option<Color> {
    if value == NO_COLOR {
        None
    } else {
        Some(color_of_u64(value))
    }
}

/// Unpacks a zone argument: the sentinel means no color.
pub fn color_from_num(value: u64) -> (r: Option<Color>)
    ensures
        r == spec_color_from_num(value),
{
    if value == NO_COLOR {
        None
    } else {
        Some(Color::from(value))
    }
}

/// The zone color set a packed quadruple denotes.
pub fn zone_colors_from_nums(nums: &NumZoneColors) -> (r: ZoneColors)
    ensures
        r.right == spec_color_from_num(nums.right),
        r.center == spec_color_from_num(nums.center),
        r.left == spec_color_from_num(nums.left),
        r.game == spec_color_from_num(nums.game),
{
    ZoneColors {
        right: color_from_num(nums.right),
        center: color_from_num(nums.center),
        left: color_from_num(nums.left),
        game: color_from_num(nums.game),
    }
}

/// Packs a fully known zone color set, as a read reports it.
pub fn nums_from_zone_colors(colors: &ZoneColors) -> (r: NumZoneColors)
    requires
        colors.right is Some,
        colors.center is Some,
        colors.left is Some,
        colors.game is Some,
    ensures
        r.right == crate::color::u64_of_color(colors.right->0),
        r.center == crate::color::u64_of_color(colors.center->0),
        r.left == crate::color::u64_of_color(colors.left->0),
        r.game == crate::color::u64_of_color(colors.game->0),
{
    NumZoneColors {
        right: u64::from(colors.right.unwrap()),
        center: u64::from(colors.center.unwrap()),
        left: u64::from(colors.left.unwrap()),
        game: u64::from(colors.game.unwrap()),
    }
}

/// Whether every character of `s` is a hexadecimal digit.
pub open spec fn all_hex_digits(s: Seq<char>) -> bool {
    forall|i: int| 0 <= i < s.len() ==> is_hex_digit(#[trigger] s[i])
}

/// The number a sequence of hexadecimal digits denotes, most significant
/// digit first.
pub open spec fn hex_num_value(s: Seq<char>) -> nat
    recommends
        all_hex_digits(s),
    decreases s.len(),
{
    if s.len() == 0 {
        0
    } else {
        (hex_num_value(s.drop_last()) * 16 + hex_digit_value(s.last())) as nat
    }
}

/// Whether a command-line color argument is acceptable: after an optional
/// `#` prefix, at least one character, all hexadecimal, denoting a number
/// that fits a `u64`.
pub open spec fn hex_color_arg_ok(s: Seq<char>) -> bool {
    let t = strip_hash(s);
    t.len() > 0 && all_hex_digits(t) && hex_num_value(t) <= u64::MAX
}

/// The value of a digit prefix never exceeds the value of the whole digit
/// string.
proof fn lemma_hex_prefix_le(s: Seq<char>, j: int)
    requires
        0 <= j <= s.len(),
    ensures
        hex_num_value(s.take(j)) <= hex_num_value(s),
    decreases s.len() - j,
{
    if j < s.len() {
        assert(s.take(j + 1).drop_last() =~= s.take(j));
        assert(s.take(j + 1).last() == s[j]);
        assert(hex_num_value(s.take(j + 1)) == hex_num_value(s.take(j)) * 16 + hex_digit_value(
            s[j],
        ));
        lemma_hex_prefix_le(s, j + 1);
    } else {
        assert(s.take(j) =~= s);
    }
}

/// Parses a hexadecimal color argument with an optional `#` prefix, or
/// `None` for an empty, non-hexadecimal or too large one.
pub fn try_parse_hex_color(s: &str) -> (r: Option<u64>)
    ensures
        match r {
            Some(v) => hex_color_arg_ok(s@) && v == hex_num_value(strip_hash(s@)),
            None => !hex_color_arg_ok(s@),
        },
{
    let n = s.unicode_len();
    let start: usize = if n > 0 && s.get_char(0) == '#' {
        1
    } else {
        0
    };
    let ghost t = strip_hash(s@);
    proof {
        assert(t =~= s@.subrange(start as int, n as int));
    }
    if n == start {
        return None;
    }
    let mut acc: u64 = 0;
    let mut j: usize = 0;
    while j < n - start
        invariant
            0 <= j <= n - start,
            start <= n == s@.len(),
            t == strip_hash(s@),
            t =~= s@.subrange(start as int, n as int),
            t.len() == n - start,
            all_hex_digits(t.take(j as int)),
            acc == hex_num_value(t.take(j as int)),
        decreases n - start - j,
    {
        let c = s.get_char(start + j);
        proof {
            assert(t[j as int] == s@[start as int + j as int]);
        }
        let d = match hex_digit(c) {
            Some(d) => d,
            None => {
                return None;
            },
        };
        if acc > u64::MAX / 16 {
            proof {
                assert(t.take(j as int + 1).drop_last() =~= t.take(j as int));
                assert(hex_num_value(t.take(j as int + 1)) == acc * 16 + hex_digit_value(
                    t[j as int],
                ));
                lemma_hex_prefix_le(t, j as int + 1);
            }
            return None;
        }
        acc = acc * 16 + (d as u64);
        j = j + 1;
        proof {
            assert(t.take(j as int).drop_last() =~= t.take(j as int - 1));
            assert(t.take(j as int).last() == t[j as int - 1]);
        }
    }
    proof {
        assert(t.take(t.len() as int) =~= t);
    }
    Some(acc)
}

/// Parses a hexadecimal color argument known to be acceptable.
pub fn parse_hex_color(s: &str) -> (r: u64)
    requires
        hex_color_arg_ok(s@),
    ensures
        r == hex_num_value(strip_hash(s@)),
{
    match try_parse_hex_color(s) {
        Some(v) => v,
        None => unreached(),
    }
}

/// The packed value of one zone's command-line arguments: the zone's own
/// color if given, otherwise the all-zones color if given, otherwise the
/// no-color sentinel.
pub fn str_to_color(color: &Option<String>, default_color: &Option<String>) -> (r: u64)
    requires
        match color {
            Some(s) => hex_color_arg_ok(s@),
            None => match default_color {
                Some(s) => hex_color_arg_ok(s@),
                None => true,
            },
        },
    ensures
        match color {
            Some(s) => r == hex_num_value(strip_hash(s@)),
            None => match default_color {
                Some(s) => r == hex_num_value(strip_hash(s@)),
                None => r == NO_COLOR,
            },
        },
{
    match color {
        Some(s) => parse_hex_color(s.as_str()),
        None => match default_color {
            Some(s) => parse_hex_color(s.as_str()),
            None => NO_COLOR,
        },
    }
}

} // verus!
