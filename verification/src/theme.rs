use vstd::prelude::*;
use crate::text::chars_of;

verus! {

/// A colour as red, green and blue intensities.
#[derive(Debug, Clone, Copy, PartialEq, Eq, Structural)]
pub struct Rgb {
    pub r: u8,
    pub g: u8,
    pub b: u8,
}

/// Brand presets (primary colours).
#[derive(Debug, Clone, Copy, PartialEq, Eq, Structural)]
pub enum BrandPreset {
    /// Cyan `#22d3ee`.
    PlasmCore,
}

/// The text with every leading `#` removed.
pub open spec fn strip_hashes(s: Seq<char>) -> Seq<char>
    decreases s.len(),
{
    if s.len() > 0 && s[0] == '#' {
        strip_hashes(s.drop_first())
    } else {
        s
    }
}

/// The value of a hexadecimal digit, if `c` is one.
pub open spec fn hex_digit(c: char) -> Option<u8> {
    if '0' <= c && c <= '9' {
        Some((c as u32 - '0' as u32) as u8)
    } else if 'a' <= c && c <= 'f' {
        Some((c as u32 - 'a' as u32 + 10) as u8)
    } else if 'A' <= c && c <= 'F' {
        Some((c as u32 - 'A' as u32 + 10) as u8)
    } else {
        None
    }
}

/// What `u8::from_str_radix(_, 16)` gives for two characters: an optional `+`
/// followed by one digit, or two digits; anything else is an error (`None`).
pub open spec fn parse_hex_pair(a: char, b: char) -> Option<u8> {
    if a == '+' {
        hex_digit(b)
    } else {
        match (hex_digit(a), hex_digit(b)) {
            (Some(x), Some(y)) => Some((x * 16 + y) as u8),
            _ => None,
        }
    }
}

/// A pair parsed as a hexadecimal byte, or 0 where it is not one.
pub open spec fn channel(a: char, b: char) -> u8 {
    match parse_hex_pair(a, b) {
        Some(v) => v,
        None => 0,
    }
}

/// A character of the ASCII range, one byte in UTF-8.
pub open spec fn is_ascii_char(c: char) -> bool {
    (c as u32) < 0x80
}

/// How many bytes the character takes in UTF-8.
pub open spec fn utf8_width(c: char) -> nat {
    let u = c as u32;
    if u < 0x80 {
        1
    } else if u < 0x800 {
        2
    } else if u < 0x10000 {
        3
    } else {
        4
    }
}

/// The text begins with two ASCII characters.
pub open spec fn ascii_pair(s: Seq<char>) -> bool {
    s.len() >= 2 && is_ascii_char(s[0]) && is_ascii_char(s[1])
}

/// The first two bytes of the text are whole characters: two ASCII ones, or
/// a single character of two bytes. Slicing them out of the text is then
/// possible without cutting a character.
pub open spec fn whole_byte_pair(s: Seq<char>) -> bool {
    ascii_pair(s) || (s.len() >= 1 && utf8_width(s[0]) == 2)
}

/// How many characters the first two bytes of the text hold.
pub open spec fn pair_chars(s: Seq<char>) -> int {
    if ascii_pair(s) {
        2
    } else {
        1
    }
}

/// The byte the first two bytes of the text give as hexadecimal, 0 where they
/// are not one (a single two-byte character never is).
pub open spec fn pair_channel(s: Seq<char>) -> u8 {
    if ascii_pair(s) {
        channel(s[0], s[1])
    } else {
        0
    }
}

/// The text after the red pair.
pub open spec fn after_red(h: Seq<char>) -> Seq<char> {
    h.skip(pair_chars(h))
}

/// The text after the red and green pairs.
pub open spec fn after_green(h: Seq<char>) -> Seq<char> {
    after_red(h).skip(pair_chars(after_red(h)))
}

/// The first six bytes of the code (its `#`s removed) split into three pairs
/// of whole characters, as slicing the code's bytes at 2, 4 and 6 requires.
pub open spec fn colour_code_ok(hex: Seq<char>) -> bool {
    let h = strip_hashes(hex);
    &&& whole_byte_pair(h)
    &&& whole_byte_pair(after_red(h))
    &&& whole_byte_pair(after_green(h))
}

/// The colour `#RRGGBB` stands for.
pub open spec fn spec_hex_to_rgb(hex: Seq<char>) -> Rgb {
    let h = strip_hashes(hex);
    Rgb { r: pair_channel(h), g: pair_channel(after_red(h)), b: pair_channel(after_green(h)) }
}

/// The value of a hexadecimal digit, if `c` is one.
fn hex_digit_value(c: char) -> (v: Option<u8>)
    ensures
        v == hex_digit(c),
{
    if '0' <= c && c <= '9' {
        Some((c as u32 - '0' as u32) as u8)
    } else if 'a' <= c && c <= 'f' {
        Some((c as u32 - 'a' as u32 + 10) as u8)
    } else if 'A' <= c && c <= 'F' {
        Some((c as u32 - 'A' as u32 + 10) as u8)
    } else {
        None
    }
}

/// Parses two characters as a hexadecimal byte, 0 where they are not one.
fn channel_value(a: char, b: char) -> (v: u8)
    ensures
        v == channel(a, b),
{
    if a == '+' {
        match hex_digit_value(b) {
            Some(d) => d,
            None => 0,
        }
    } else {
        match (hex_digit_value(a), hex_digit_value(b)) {
            (Some(x), Some(y)) => {
                assert(x < 16 && y < 16);
                x * 16 + y
            },
            _ => 0,
        }
    }
}

/// The byte that the two bytes at position `at` give as hexadecimal, and the
/// position after them.
fn pair_at(chars: &Vec<char>, at: usize) -> (r: (u8, usize))
    requires
        at <= chars@.len(),
        whole_byte_pair(chars@.skip(at as int)),
    ensures
        r.0 == pair_channel(chars@.skip(at as int)),
        r.1 == at + pair_chars(chars@.skip(at as int)),
        r.1 <= chars@.len(),
{
    let ghost s = chars@.skip(at as int);
    if chars.len() - at >= 2 && (chars[at] as u32) < 0x80 && (chars[at + 1] as u32) < 0x80 {
        assert(s[0] == chars@[at as int] && s[1] == chars@[at + 1]);
        (channel_value(chars[at], chars[at + 1]), at + 2)
    } else {
        assert(!ascii_pair(s));
        (0, at + 1)
    }
}

/// Converts `#RRGGBB` (leading `#`s optional) to a colour; a pair that is not
/// a hexadecimal byte gives 0.
pub fn hex_to_rgb(hex: &str) -> (c: Rgb)
    requires
        colour_code_ok(hex@),
    ensures
        c == spec_hex_to_rgb(hex@),
{
    let chars = chars_of(hex);
    let mut start: usize = 0;
    assert(chars@.skip(0) =~= hex@);
    while start < chars.len() && chars[start] == '#'
        invariant
            start <= chars@.len(),
            chars@ == hex@,
            strip_hashes(chars@.skip(start as int)) == strip_hashes(hex@),
        decreases chars@.len() - start,
    {
        assert(chars@.skip(start as int).drop_first() =~= chars@.skip(start + 1));
        start = start + 1;
    }
    let ghost h = chars@.skip(start as int);
    assert(strip_hashes(h) == h);
    let (r, g_at) = pair_at(&chars, start);
    assert(chars@.skip(g_at as int) =~= after_red(h));
    let (g, b_at) = pair_at(&chars, g_at);
    assert(chars@.skip(b_at as int) =~= after_green(h));
    let (b, _) = pair_at(&chars, b_at);
    Rgb { r, g, b }
}

impl BrandPreset {
    /// The hexadecimal code of the preset's primary colour.
    pub open spec fn spec_primary_hex(self) -> Seq<char> {
        match self {
            BrandPreset::PlasmCore => "#22d3ee"@,
        }
    }

    /// The preset's primary colour.
    pub fn primary(&self) -> (c: Rgb)
        ensures
            c == spec_hex_to_rgb(self.spec_primary_hex()),
    {
        match self {
            BrandPreset::PlasmCore => {
                proof {
                    reveal_strlit("#22d3ee");
                    let h = "#22d3ee"@.drop_first();
                    assert(strip_hashes(h) == h);
                    assert(ascii_pair(h));
                    assert(after_red(h) =~= h.skip(2));
                    assert(ascii_pair(after_red(h)));
                    assert(after_green(h) =~= h.skip(4));
                    assert(ascii_pair(after_green(h)));
                }
                hex_to_rgb("#22d3ee")
            },
        }
    }
}

} // verus!
