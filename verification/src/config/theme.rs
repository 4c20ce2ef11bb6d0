//! Colour themes: sixteen named colours, each written as `#rrggbb`.

use vstd::prelude::*;
use vstd::string::StringSliceAdditionalSpecFns;
use crate::text::same_text;

verus! {

/// A theme of sixteen colours.
#[derive(Debug, Clone)]
#[allow(non_snake_case)]
pub struct Theme {
    pub name: String,
    pub author: Option<String>,
    pub base00: String,
    pub base01: String,
    pub base02: String,
    pub base03: String,
    pub base04: String,
    pub base05: String,
    pub base06: String,
    pub base07: String,
    pub base08: String,
    pub base09: String,
    pub base0A: String,
    pub base0B: String,
    pub base0C: String,
    pub base0D: String,
    pub base0E: String,
    pub base0F: String,
}

/// A colour of a theme.
#[derive(Debug, Clone, Copy, PartialEq, Eq, Structural)]
pub enum ThemeColor {
    /// Plain white: what a colour that is not written as six digits is
    /// shown as.
    White,
    /// Red, green and blue.
    Rgb(u8, u8, u8),
}

/// The value of a hexadecimal digit.
pub open spec fn hex_digit(b: u8) -> Option<u8> {
    if 48 <= b <= 57 {
        Some((b - 48) as u8)
    } else if 97 <= b <= 102 {
        Some((b - 87) as u8)
    } else if 65 <= b <= 70 {
        Some((b - 55) as u8)
    } else {
        None
    }
}

/// The value of two bytes read as a hexadecimal number: two digits, or a
/// plus sign and one digit. Anything else reads as 255.
pub open spec fn hex_pair(high: u8, low: u8) -> u8 {
    match (hex_digit(high), hex_digit(low)) {
        (Some(h), Some(l)) => (h * 16 + l) as u8,
        (None, Some(l)) => if high == 43 {
            l
        } else {
            255u8
        },
        _ => 255u8,
    }
}

/// The number of `#` that a text starts with.
pub open spec fn leading_hashes(s: Seq<u8>) -> nat
    decreases s.len(),
{
    if s.len() > 0 && s[0] == 35 {
        1 + leading_hashes(s.drop_first())
    } else {
        0
    }
}

/// The colour that a text, given by its bytes, is read as: six bytes after
/// any leading `#` make red, green and blue, and anything else is white.
pub open spec fn hex_color(s: Seq<u8>) -> ThemeColor {
    let digits = s.skip(leading_hashes(s) as int);
    if digits.len() != 6 {
        ThemeColor::White
    } else {
        ThemeColor::Rgb(
            hex_pair(digits[0], digits[1]),
            hex_pair(digits[2], digits[3]),
            hex_pair(digits[4], digits[5]),
        )
    }
}

/// The value of a hexadecimal digit.
fn digit_value(b: u8) -> (v: Option<u8>)
    ensures
        v == hex_digit(b),
        v matches Some(d) ==> d < 16,
{
    if 48 <= b && b <= 57 {
        Some(b - 48)
    } else if 97 <= b && b <= 102 {
        Some(b - 87)
    } else if 65 <= b && b <= 70 {
        Some(b - 55)
    } else {
        None
    }
}

/// The value of two bytes read as a hexadecimal number.
fn pair_value(high: u8, low: u8) -> (v: u8)
    ensures
        v == hex_pair(high, low),
{
    match (digit_value(high), digit_value(low)) {
        (Some(h), Some(l)) => h * 16 + l,
        (None, Some(l)) => if high == 43 {
            l
        } else {
            255
        },
        _ => 255,
    }
}

/// Reads a colour written as `#rrggbb`.
pub fn hex_to_color(hex: &str) -> (color: ThemeColor)
    ensures
        color == hex_color(hex.spec_bytes()),
{
    let bytes = hex.as_bytes();
    let n = bytes.len();
    let mut start: usize = 0;
    assert(bytes@.skip(0) == bytes@);
    while start < n && bytes[start] == 35
        invariant
            n == bytes@.len(),
            start <= n,
            leading_hashes(bytes@) == start + leading_hashes(bytes@.skip(start as int)),
        decreases n - start,
    {
        proof {
            let rest = bytes@.skip(start as int);
            assert(rest[0] == bytes@[start as int]);
            assert(rest.drop_first() == bytes@.skip(start + 1));
        }
        start += 1;
    }
    proof {
        let rest = bytes@.skip(start as int);
        if start < n {
            assert(rest[0] == bytes@[start as int]);
        }
        assert(leading_hashes(rest) == 0);
    }
    if n - start != 6 {
        return ThemeColor::White;
    }
    let ghost digits = bytes@.skip(start as int);
    assert(forall|i: int| 0 <= i < 6 ==> digits[i] == bytes@[start + i]);
    ThemeColor::Rgb(
        pair_value(bytes[start], bytes[start + 1]),
        pair_value(bytes[start + 2], bytes[start + 3]),
        pair_value(bytes[start + 4], bytes[start + 5]),
    )
}

impl Theme {
    /// The text that the theme gives for the colour named `base`; the
    /// foreground colour `base05` for a name that the theme does not know.
    pub open spec fn entry(&self, base: Seq<char>) -> Seq<u8> {
        if base == "base00"@ {
            self.base00.spec_bytes_of()
        } else if base == "base01"@ {
            self.base01.spec_bytes_of()
        } else if base == "base02"@ {
            self.base02.spec_bytes_of()
        } else if base == "base03"@ {
            self.base03.spec_bytes_of()
        } else if base == "base04"@ {
            self.base04.spec_bytes_of()
        } else if base == "base05"@ {
            self.base05.spec_bytes_of()
        } else if base == "base06"@ {
            self.base06.spec_bytes_of()
        } else if base == "base07"@ {
            self.base07.spec_bytes_of()
        } else if base == "base08"@ {
            self.base08.spec_bytes_of()
        } else if base == "base09"@ {
            self.base09.spec_bytes_of()
        } else if base == "base0A"@ {
            self.base0A.spec_bytes_of()
        } else if base == "base0B"@ {
            self.base0B.spec_bytes_of()
        } else if base == "base0C"@ {
            self.base0C.spec_bytes_of()
        } else if base == "base0D"@ {
            self.base0D.spec_bytes_of()
        } else if base == "base0E"@ {
            self.base0E.spec_bytes_of()
        } else if base == "base0F"@ {
            self.base0F.spec_bytes_of()
        } else {
            self.base05.spec_bytes_of()
        }
    }

    /// The colour named `base`.
    pub fn get_color(&self, base: &str) -> (color: ThemeColor)
        ensures
            color == hex_color(self.entry(base@)),
    {
        let hex: &String = if same_text(base, "base00") {
            &self.base00
        } else if same_text(base, "base01") {
            &self.base01
        } else if same_text(base, "base02") {
            &self.base02
        } else if same_text(base, "base03") {
            &self.base03
        } else if same_text(base, "base04") {
            &self.base04
        } else if same_text(base, "base05") {
            &self.base05
        } else if same_text(base, "base06") {
            &self.base06
        } else if same_text(base, "base07") {
            &self.base07
        } else if same_text(base, "base08") {
            &self.base08
        } else if same_text(base, "base09") {
            &self.base09
        } else if same_text(base, "base0A") {
            &self.base0A
        } else if same_text(base, "base0B") {
            &self.base0B
        } else if same_text(base, "base0C") {
            &self.base0C
        } else if same_text(base, "base0D") {
            &self.base0D
        } else if same_text(base, "base0E") {
            &self.base0E
        } else if same_text(base, "base0F") {
            &self.base0F
        } else {
            &self.base05
        };
        hex_to_color(hex.as_str())
    }
}

/// The bytes of a string.
pub trait TextBytes {
    /// The bytes that the string is written with.
    spec fn spec_bytes_of(&self) -> Seq<u8>;
}

impl TextBytes for String {
    open spec fn spec_bytes_of(&self) -> Seq<u8> {
        vstd::utf8::encode_utf8(self@)
    }
}

impl Default for Theme {
    /// The fallback theme: greys, and the six primary and secondary colours.
    fn default() -> (theme: Theme)
        ensures
            theme.name@ == "Fallback"@,
            theme.author is None,
            theme.base00@ == "#000000"@,
            theme.base05@ == "#dddddd"@,
            theme.base07@ == "#ffffff"@,
            theme.base08@ == "#ff0000"@,
    {
        Theme {
            name: "Fallback".to_owned(),
            author: None,
            base00: "#000000".to_owned(),
            base01: "#111111".to_owned(),
            base02: "#222222".to_owned(),
            base03: "#333333".to_owned(),
            base04: "#cccccc".to_owned(),
            base05: "#dddddd".to_owned(),
            base06: "#eeeeee".to_owned(),
            base07: "#ffffff".to_owned(),
            base08: "#ff0000".to_owned(),
            base09: "#ff8800".to_owned(),
            base0A: "#ffff00".to_owned(),
            base0B: "#00ff00".to_owned(),
            base0C: "#00ffff".to_owned(),
            base0D: "#0088ff".to_owned(),
            base0E: "#8800ff".to_owned(),
            base0F: "#ff00ff".to_owned(),
        }
    }
}

} // verus!
