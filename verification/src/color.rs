//! Hex colour literals: `#RGB` and `#RRGGBB`, and their RGB channel values.

use vstd::prelude::*;
use vstd::string::*;

verus! {

/// An ASCII hexadecimal digit, in either case.
pub open spec fn is_hex_digit(c: char) -> bool {
    ('0' <= c && c <= '9') || ('a' <= c && c <= 'f') || ('A' <= c && c <= 'F')
}

/// The value, 0 to 15, of a hexadecimal digit.
pub open spec fn hex_value(c: char) -> int {
    if '0' <= c && c <= '9' {
        c as int - '0' as int
    } else if 'a' <= c && c <= 'f' {
        c as int - 'a' as int + 10
    } else {
        c as int - 'A' as int + 10
    }
}

/// A colour literal: `#` followed by exactly three or exactly six
/// hexadecimal digits.
pub open spec fn is_hex_color(s: Seq<char>) -> bool {
    &&& (s.len() == 4 || s.len() == 7)
    &&& s[0] == '#'
    &&& forall|i: int| 1 <= i < s.len() ==> is_hex_digit(#[trigger] s[i])
}

/// The six-digit literal that a three-digit literal abbreviates: every digit
/// doubled.
pub open spec fn expand(s: Seq<char>) -> Seq<char> {
    seq![s[0], s[1], s[1], s[2], s[2], s[3], s[3]]
}

/// The six-digit form of a colour literal.
pub open spec fn canonical(s: Seq<char>) -> Seq<char> {
    if s.len() == 4 {
        expand(s)
    } else {
        s
    }
}

/// Channel `i` (0 red, 1 green, 2 blue) of a colour literal.
pub open spec fn channel(s: Seq<char>, i: int) -> int {
    16 * hex_value(canonical(s)[1 + 2 * i]) + hex_value(canonical(s)[2 + 2 * i])
}

/// The three channel values of a colour literal.
pub open spec fn rgb_of(s: Seq<char>) -> Seq<u8> {
    seq![channel(s, 0) as u8, channel(s, 1) as u8, channel(s, 2) as u8]
}

/// The text of the rejection of a malformed literal.
pub open spec fn invalid_color_message(s: Seq<char>) -> Seq<char> {
    s + " is not a valid hex color code"@
}

fn hex_digit(c: char) -> (r: Option<u8>)
    ensures
        match r {
            Some(v) => is_hex_digit(c) && v as int == hex_value(c),
            None => !is_hex_digit(c),
        },
{
    if '0' <= c && c <= '9' {
        Some((c as u32 - '0' as u32) as u8)
    } else if 'a' <= c && c <= 'f' {
        Some((c as u32 - 'a' as u32 + 10) as u8)
    } else if 'A' <= c && c <= 'F' {
        Some((c as u32 - 'A' as u32 + 10) as u8)
    } else {
        None
    }
}

/// Decides whether `hex` is a colour literal.
pub fn is_valid_hex_color(hex: &str) -> (r: bool)
    ensures
        r == is_hex_color(hex@),
{
    let n = hex.unicode_len();
    if n != 4 && n != 7 {
        return false;
    }
    if hex.get_char(0) != '#' {
        return false;
    }
    let mut i: usize = 1;
    while i < n
        invariant
            1 <= i <= n,
            n == hex@.len(),
            forall|j: int| 1 <= j < i ==> is_hex_digit(#[trigger] hex@[j]),
        decreases n - i,
    {
        if hex_digit(hex.get_char(i)).is_none() {
            return false;
        }
        i += 1;
    }
    true
}

/// Accepts a colour literal and hands it back unchanged; rejects anything
/// else with a message that names the offending text.
pub fn parse_hex_color(hex: &str) -> (r: Result<String, String>)
    ensures
        match r {
            Ok(s) => is_hex_color(hex@) && s@ == hex@,
            Err(msg) => !is_hex_color(hex@) && msg@ == invalid_color_message(hex@),
        },
{
    if is_valid_hex_color(hex) {
        Ok(String::from_str(hex))
    } else {
        let mut msg = String::from_str(hex);
        msg.append(" is not a valid hex color code");
        Err(msg)
    }
}

fn channel_at(hex: &str, short: bool, i: usize) -> (r: u8)
    requires
        is_hex_color(hex@),
        short == (hex@.len() == 4),
        i < 3,
    ensures
        r as int == channel(hex@, i as int),
{
    if short {
        let d = hex.get_char(1 + i);
        match hex_digit(d) {
            Some(v) => 16 * v + v,
            None => 0,
        }
    } else {
        let hi = hex.get_char(1 + 2 * i);
        let lo = hex.get_char(2 + 2 * i);
        match (hex_digit(hi), hex_digit(lo)) {
            (Some(h), Some(l)) => 16 * h + l,
            _ => 0,
        }
    }
}

/// The RGB channels of a colour literal; a three-digit literal stands for the
/// six-digit one with every digit doubled.
pub fn hex_to_rgb(hex: &str) -> (rgb: [u8; 3])
    requires
        is_hex_color(hex@),
    ensures
        rgb@ == rgb_of(hex@),
        forall|i: int| 0 <= i < 3 ==> (#[trigger] rgb@[i]) as int == channel(hex@, i),
{
    let short = hex.unicode_len() == 4;
    let r = channel_at(hex, short, 0);
    let g = channel_at(hex, short, 1);
    let b = channel_at(hex, short, 2);
    let rgb = [r, g, b];
    assert(rgb@ =~= rgb_of(hex@));
    rgb
}

/// Parses a colour literal into its RGB channels; rejects anything that is
/// not a colour literal with a message that names the offending text.
pub fn parse_rgb(literal: &str) -> (r: Result<[u8; 3], String>)
    ensures
        match r {
            Ok(rgb) => is_hex_color(literal@) && rgb@ == rgb_of(literal@),
            Err(msg) => !is_hex_color(literal@) && msg@ == invalid_color_message(literal@),
        },
{
    match parse_hex_color(literal) {
        Ok(_) => Ok(hex_to_rgb(literal)),
        Err(msg) => Err(msg),
    }
}

/// A three-digit literal and the six-digit literal with each digit doubled
/// are both colour literals and name the same colour.
pub proof fn lemma_short_form_is_doubled(s: Seq<char>)
    requires
        is_hex_color(s),
        s.len() == 4,
    ensures
        is_hex_color(expand(s)),
        rgb_of(expand(s)) == rgb_of(s),
        forall|i: int| 0 <= i < 3 ==> channel(s, i) == 17 * hex_value(#[trigger] s[1 + i]),
{
    let e = expand(s);
    assert(e.len() == 7);
    assert forall|i: int| 1 <= i < e.len() implies is_hex_digit(#[trigger] e[i]) by {
        assert(is_hex_digit(s[1]) && is_hex_digit(s[2]) && is_hex_digit(s[3]));
    }
    assert(canonical(e) == e);
}

/// A text of the wrong length, a text that does not begin with `#`, and a
/// text with a character after the first that is no hexadecimal digit are
/// each no colour literal.
pub proof fn lemma_malformed_is_no_color(s: Seq<char>)
    requires
        (s.len() != 4 && s.len() != 7) || s[0] != '#' || exists|i: int|
            1 <= i < s.len() && !is_hex_digit(#[trigger] s[i]),
    ensures
        !is_hex_color(s),
{
}

/// Every channel of a colour literal is an 8-bit value.
pub proof fn lemma_channel_range(s: Seq<char>, i: int)
    requires
        is_hex_color(s),
        0 <= i < 3,
    ensures
        0 <= channel(s, i) <= 255,
{
    let c = canonical(s);
    if s.len() == 4 {
        assert(is_hex_digit(s[1 + i]));
    } else {
        assert(is_hex_digit(s[1 + 2 * i]) && is_hex_digit(s[2 + 2 * i]));
    }
}

/// Upper-case and lower-case digits have the same value.
pub proof fn lemma_hex_value_ignores_case(k: int)
    requires
        0 <= k < 6,
    ensures
        hex_value((('a' as int + k) as u8) as char) == 10 + k,
        hex_value((('A' as int + k) as u8) as char) == 10 + k,
{
}

} // verus!
