//! Hex color strings and their parsed RGB form.
//!
//! Candle bodies, volume bars and markers each carry a color given as a hex
//! string such as `"#1A2B3C"`. A malformed string (wrong length or a non-hex
//! character) falls back to the layer's default color.

use vstd::prelude::*;

verus! {

/// An opaque RGB color, as carried by every drawing primitive.
#[derive(Clone, Copy, PartialEq, Eq, Structural, Debug)]
pub struct Rgb {
    pub r: u8,
    pub g: u8,
    pub b: u8,
}

/// Default for candle bodies whose hex string is missing or malformed.
pub open spec fn spec_black() -> Rgb {
    Rgb { r: 0, g: 0, b: 0 }
}

/// Default for volume bars and the generic hex-parse fallback.
pub open spec fn spec_mid_gray() -> Rgb {
    Rgb { r: 130, g: 130, b: 130 }
}

/// Color of the current-price line and summary row when the last candle closes up.
pub open spec fn spec_up_green() -> Rgb {
    Rgb { r: 0, g: 150, b: 0 }
}

/// Color of the current-price line and summary row when the last candle closes down.
pub open spec fn spec_down_red() -> Rgb {
    Rgb { r: 180, g: 0, b: 0 }
}

pub fn black() -> (c: Rgb)
    ensures
        c == spec_black(),
{
    Rgb { r: 0, g: 0, b: 0 }
}

pub fn mid_gray() -> (c: Rgb)
    ensures
        c == spec_mid_gray(),
{
    Rgb { r: 130, g: 130, b: 130 }
}

pub fn up_green() -> (c: Rgb)
    ensures
        c == spec_up_green(),
{
    Rgb { r: 0, g: 150, b: 0 }
}

pub fn down_red() -> (c: Rgb)
    ensures
        c == spec_down_red(),
{
    Rgb { r: 180, g: 0, b: 0 }
}

/// A hexadecimal digit: `0-9`, `a-f` or `A-F`.
pub open spec fn is_hex_digit(c: char) -> bool {
    ('0' <= c && c <= '9') || ('a' <= c && c <= 'f') || ('A' <= c && c <= 'F')
}

/// Numeric value of a hexadecimal digit.
pub open spec fn hex_val(c: char) -> int {
    if '0' <= c && c <= '9' {
        c as int - '0' as int
    } else if 'a' <= c && c <= 'f' {
        c as int - 'a' as int + 10
    } else {
        c as int - 'A' as int + 10
    }
}

/// The string with every leading `#` removed.
pub open spec fn strip_hash(s: Seq<char>) -> Seq<char>
    decreases s.len(),
{
    if s.len() > 0 && s[0] == '#' {
        strip_hash(s.skip(1))
    } else {
        s
    }
}

/// Stripping the leading `#` characters is the same as skipping past them:
/// if the first `k` characters are `#` and the string ends or goes on with
/// another character there, the stripped string is the tail from `k`.
proof fn lemma_strip_hash_skip(s: Seq<char>, k: int)
    requires
        0 <= k <= s.len(),
        forall|j: int| 0 <= j < k ==> s[j] == '#',
        k == s.len() || s[k] != '#',
    ensures
        strip_hash(s) == s.skip(k),
    decreases k,
{
    if k == 0 {
        assert(strip_hash(s) =~= s.skip(0));
    } else {
        lemma_strip_hash_skip(s.skip(1), k - 1);
        assert(s.skip(1).skip(k - 1) =~= s.skip(k));
    }
}

/// Exactly six hexadecimal digits.
pub open spec fn valid_hex6(s: Seq<char>) -> bool {
    s.len() == 6 && forall|i: int| 0 <= i < 6 ==> is_hex_digit(#[trigger] s[i])
}

/// Value of a two-digit hexadecimal byte.
pub open spec fn hex_byte(hi: char, lo: char) -> int {
    16 * hex_val(hi) + hex_val(lo)
}

/// The color denoted by six hexadecimal digits `RRGGBB`.
pub open spec fn hex_rgb(s: Seq<char>) -> Rgb {
    Rgb {
        r: hex_byte(s[0], s[1]) as u8,
        g: hex_byte(s[2], s[3]) as u8,
        b: hex_byte(s[4], s[5]) as u8,
    }
}

fn hex_digit_value(c: char) -> (r: Option<u8>)
    ensures
        match r {
            Some(v) => is_hex_digit(c) && v == hex_val(c) && v < 16,
            None => !is_hex_digit(c),
        },
{
    if '0' <= c && c <= '9' {
        Some((c as u32 - '0' as u32) as u8)
    } else if 'a' <= c && c <= 'f' {
        Some((c as u32 - 'a' as u32 + 10) as u8)
    } else if 'A' <= c && c <= 'F' {
        Some((c as u32 - 'A' as u32 + 10) as u8)
    } else {
        None
    }
}

/// Parses `#RRGGBB` (any number of leading `#` is stripped) into an RGB
/// color; any malformed string yields the given default instead.
pub fn pick_from_hex(s: &str, default: Rgb) -> (c: Rgb)
    ensures
        valid_hex6(strip_hash(s@)) ==> c == hex_rgb(strip_hash(s@)),
        !valid_hex6(strip_hash(s@)) ==> c == default,
{
    let n = s.unicode_len();
    let mut start: usize = 0;
    while start < n && s.get_char(start) == '#'
        invariant
            start <= n,
            n == s@.len(),
            forall|j: int| 0 <= j < start ==> s@[j] == '#',
        decreases n - start,
    {
        start = start + 1;
    }
    proof {
        lemma_strip_hash_skip(s@, start as int);
    }
    if n - start != 6 {
        return default;
    }
    let h0 = hex_digit_value(s.get_char(start));
    let h1 = hex_digit_value(s.get_char(start + 1));
    let h2 = hex_digit_value(s.get_char(start + 2));
    let h3 = hex_digit_value(s.get_char(start + 3));
    let h4 = hex_digit_value(s.get_char(start + 4));
    let h5 = hex_digit_value(s.get_char(start + 5));
    match (h0, h1, h2, h3, h4, h5) {
        (Some(a), Some(b), Some(cc), Some(d), Some(e), Some(f)) => Rgb {
            r: 16 * a + b,
            g: 16 * cc + d,
            b: 16 * e + f,
        },
        _ => default,
    }
}

} // verus!
