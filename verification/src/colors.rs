//! Foreground and background colours, written as `#RRGGBB`.

use vstd::prelude::*;
use vstd::string::*;
use crate::contrast::{
    contrast_milli, contrast_ratio_of, lemma_contrast_range, lemma_no_contrast_with_itself,
    MIN_CONTRAST_MILLI,
};
use crate::text::{byte_len, chars_of, reports, utf8_len};

verus! {

/// `c` is a hexadecimal digit, in either case.
pub open spec fn is_hex_digit(c: char) -> bool {
    ('0' <= c && c <= '9') || ('a' <= c && c <= 'f') || ('A' <= c && c <= 'F')
}

/// The number from 0 to 15 that the hexadecimal digit `c` stands for.
pub open spec fn hex_value(c: char) -> int
    recommends
        is_hex_digit(c),
{
    if '0' <= c && c <= '9' {
        c as int - '0' as int
    } else if 'a' <= c && c <= 'f' {
        c as int - 'a' as int + 10
    } else {
        c as int - 'A' as int + 10
    }
}

/// Every character of `s` is a hexadecimal digit.
pub open spec fn all_hex_digits(s: Seq<char>) -> bool {
    forall|i: int| 0 <= i < s.len() ==> is_hex_digit(#[trigger] s[i])
}

/// Why `color` is no colour, if it is none. `role` names the colour in the
/// message. A colour is `#` followed by six hexadecimal digits; the length is
/// counted in bytes of UTF-8, so that a text with a character outside ASCII can
/// be refused for its characters where its length in bytes happens to fit.
pub open spec fn color_failure(color: Seq<char>, role: Seq<char>) -> Option<Seq<char>> {
    if color.len() == 0 || color[0] != '#' {
        Some(role + " color must start with '#'"@)
    } else if utf8_len(color) != 7 {
        Some(role + " color must be 6 hex digits (e.g., #FF0000)"@)
    } else if !all_hex_digits(color.skip(1)) {
        Some(role + " color contains invalid hex characters"@)
    } else {
        None
    }
}

/// `color` is `#` followed by exactly six hexadecimal digits.
pub open spec fn is_hex_color(color: Seq<char>) -> bool {
    color.len() == 7 && color[0] == '#' && all_hex_digits(color.skip(1))
}

/// The byte written by the two hexadecimal digits of `color` at `at` and `at + 1`,
/// if both are there.
pub open spec fn hex_pair(color: Seq<char>, at: int) -> Option<u8> {
    if 0 <= at && at + 1 < color.len() && is_hex_digit(color[at]) && is_hex_digit(color[at + 1]) {
        Some((16 * hex_value(color[at]) + hex_value(color[at + 1])) as u8)
    } else {
        None
    }
}

/// The red, green and blue bytes of `color`: the three pairs of hexadecimal
/// digits that follow its first character. Where a pair is missing or is no
/// pair of digits, the first such pair is named.
pub open spec fn rgb_of(color: Seq<char>) -> Result<(u8, u8, u8), Seq<char>> {
    match hex_pair(color, 1) {
        None => Err("Invalid red component"@),
        Some(r) => match hex_pair(color, 3) {
            None => Err("Invalid green component"@),
            Some(g) => match hex_pair(color, 5) {
                None => Err("Invalid blue component"@),
                Some(b) => Ok((r, g, b)),
            },
        },
    }
}

/// A pair of colours as plain text: what a `QrColors` stands for.
pub struct ColorPair {
    pub foreground: Seq<char>,
    pub background: Seq<char>,
}

impl ColorPair {
    /// Black on white.
    pub open spec fn standard() -> ColorPair {
        ColorPair { foreground: "#000000"@, background: "#FFFFFF"@ }
    }

    /// Why the pair is refused, if it is: the foreground must be a colour, then
    /// the background, and the two texts must differ. Two texts that differ only
    /// in the case of their digits are two colours here.
    pub open spec fn failure(self) -> Option<Seq<char>> {
        if color_failure(self.foreground, "foreground"@) is Some {
            color_failure(self.foreground, "foreground"@)
        } else if color_failure(self.background, "background"@) is Some {
            color_failure(self.background, "background"@)
        } else if self.foreground == self.background {
            Some("Foreground and background colors cannot be the same"@)
        } else {
            None
        }
    }

    /// The contrast ratio of the pair in thousandths, or the component that
    /// cannot be read.
    pub open spec fn contrast(self) -> Result<int, Seq<char>> {
        match rgb_of(self.foreground) {
            Err(message) => Err(message),
            Ok(fg) => match rgb_of(self.background) {
                Err(message) => Err(message),
                Ok(bg) => Ok(contrast_milli(fg, bg)),
            },
        }
    }

    /// How the pair is shown to a reader.
    pub open spec fn label(self) -> Seq<char> {
        "fg: "@ + self.foreground + ", bg: "@ + self.background
    }
}

/// A text passes the colour check exactly when it is `#` and six hexadecimal digits.
pub proof fn lemma_color_failure_none(color: Seq<char>, role: Seq<char>)
    ensures
        color_failure(color, role) is None <==> is_hex_color(color),
{
    broadcast use vstd::utf8::is_ascii_chars_encode_utf8;

    if color.len() > 0 && color[0] == '#' && all_hex_digits(color.skip(1)) {
        assert forall|i: int| 0 <= i < color.len() implies '\0' <= #[trigger] color[i] && color[i]
            <= '\u{7f}' by {
            if i > 0 {
                assert(is_hex_digit(color.skip(1)[i - 1]));
            }
        }
        assert(vstd::utf8::is_ascii_chars(color));
    }
}

/// Every colour has a red, a green and a blue byte.
pub proof fn lemma_hex_color_has_rgb(color: Seq<char>)
    requires
        is_hex_color(color),
    ensures
        rgb_of(color) is Ok,
{
    let digits = color.skip(1);
    assert(is_hex_digit(digits[0]) && is_hex_digit(digits[1]));
    assert(is_hex_digit(digits[2]) && is_hex_digit(digits[3]));
    assert(is_hex_digit(digits[4]) && is_hex_digit(digits[5]));
}

/// A colour is refused as its own background, with the message of that rule
/// and whatever the colour is.
pub proof fn lemma_equal_colors_refused(color: Seq<char>)
    requires
        is_hex_color(color),
    ensures
        (ColorPair { foreground: color, background: color }).failure() == Some(
            "Foreground and background colors cannot be the same"@,
        ),
{
    lemma_color_failure_none(color, "foreground"@);
    lemma_color_failure_none(color, "background"@);
}

/// Colours are compared as they are written. Two colours that are written
/// differently pass as a pair even where they stand for the same bytes, as
/// `#ffffff` and `#FFFFFF` do; their contrast ratio is then exactly 1.
pub proof fn lemma_colors_compared_as_text(foreground: Seq<char>, background: Seq<char>)
    requires
        is_hex_color(foreground),
        is_hex_color(background),
        foreground != background,
    ensures
        (ColorPair { foreground, background }).failure() is None,
        rgb_of(foreground) == rgb_of(background) ==> (ColorPair { foreground, background }).contrast()
            == Ok::<int, Seq<char>>(1_000),
{
    lemma_color_failure_none(foreground, "foreground"@);
    lemma_color_failure_none(background, "background"@);
    lemma_hex_color_has_rgb(foreground);
    lemma_hex_color_has_rgb(background);
    if rgb_of(foreground) == rgb_of(background) {
        lemma_no_contrast_with_itself(rgb_of(foreground)->Ok_0);
    }
}

/// A pair of colours that passes has a contrast ratio, between 1 and 21.
pub proof fn lemma_accepted_pair_has_contrast(pair: ColorPair)
    requires
        pair.failure() is None,
    ensures
        pair.contrast() is Ok,
        1_000 <= pair.contrast()->Ok_0 <= 21_000,
{
    lemma_color_failure_none(pair.foreground, "foreground"@);
    lemma_color_failure_none(pair.background, "background"@);
    lemma_hex_color_has_rgb(pair.foreground);
    lemma_hex_color_has_rgb(pair.background);
    lemma_contrast_range(rgb_of(pair.foreground)->Ok_0, rgb_of(pair.background)->Ok_0);
}

/// The standard foreground, black.
pub fn default_foreground() -> (color: String)
    ensures
        color@ == ColorPair::standard().foreground,
{
    String::from_str("#000000")
}

/// The standard background, white.
pub fn default_background() -> (color: String)
    ensures
        color@ == ColorPair::standard().background,
{
    String::from_str("#FFFFFF")
}

/// The value of a hexadecimal digit, or nothing for any other character.
pub fn hex_digit(c: char) -> (v: Option<u8>)
    ensures
        v is Some <==> is_hex_digit(c),
        v matches Some(d) ==> d == hex_value(c) && d < 16,
{
    if c >= '0' && c <= '9' {
        Some((c as u32 - '0' as u32) as u8)
    } else if c >= 'a' && c <= 'f' {
        Some((c as u32 - 'a' as u32 + 10) as u8)
    } else if c >= 'A' && c <= 'F' {
        Some((c as u32 - 'A' as u32 + 10) as u8)
    } else {
        None
    }
}

/// Reads the byte written by the two hexadecimal digits at `at` and `at + 1`.
fn read_hex_pair(color: &Vec<char>, at: usize) -> (byte: Option<u8>)
    requires
        at < 6,
    ensures
        byte == hex_pair(color@, at as int),
{
    if at + 1 >= color.len() {
        return None;
    }
    match hex_digit(color[at]) {
        None => None,
        Some(high) => match hex_digit(color[at + 1]) {
            None => None,
            Some(low) => Some(16 * high + low),
        },
    }
}

/// A foreground and a background colour, each written as `#RRGGBB`.
#[derive(Debug)]
pub struct QrColors {
    pub foreground: String,
    pub background: String,
}

impl View for QrColors {
    type V = ColorPair;

    open spec fn view(&self) -> ColorPair {
        ColorPair { foreground: self.foreground@, background: self.background@ }
    }
}

impl Clone for QrColors {
    fn clone(&self) -> (copy: Self)
        ensures
            copy@ == self@,
    {
        QrColors { foreground: self.foreground.clone(), background: self.background.clone() }
    }
}

impl Default for QrColors {
    fn default() -> (colors: Self)
        ensures
            colors@ == ColorPair::standard(),
    {
        QrColors { foreground: default_foreground(), background: default_background() }
    }
}

impl QrColors {
    /// Builds a pair of colours, or says why the two texts are none.
    pub fn new(foreground: String, background: String) -> (r: Result<Self, String>)
        ensures
            match r {
                Ok(colors) => (ColorPair { foreground: foreground@, background: background@ }).failure()
                    is None && colors@ == (ColorPair { foreground: foreground@, background: background@ }),
                Err(message) => (ColorPair { foreground: foreground@, background: background@ }).failure()
                    == Some(message@),
            },
    {
        let colors = QrColors { foreground, background };
        match colors.validate() {
            Ok(_) => Ok(colors),
            Err(message) => Err(message),
        }
    }

    /// Checks that both texts are colours and that they differ.
    pub fn validate(&self) -> (r: Result<(), String>)
        ensures
            reports(r, self@.failure()),
    {
        match self.validate_color(self.foreground.as_str(), "foreground") {
            Err(message) => {
                return Err(message);
            },
            Ok(_) => {},
        }
        match self.validate_color(self.background.as_str(), "background") {
            Err(message) => {
                return Err(message);
            },
            Ok(_) => {},
        }
        if self.foreground == self.background {
            return Err(
                String::from_str("Foreground and background colors cannot be the same"),
            );
        }
        Ok(())
    }

    /// Checks that `color` is `#` followed by six hexadecimal digits.
    pub fn validate_color(&self, color: &str, color_type: &str) -> (r: Result<(), String>)
        ensures
            reports(r, color_failure(color@, color_type@)),
    {
        let chars = chars_of(color);
        if chars.len() == 0 || chars[0] != '#' {
            let mut message = String::from_str(color_type);
            message.append(" color must start with '#'");
            return Err(message);
        }
        if byte_len(color) != 7 {
            let mut message = String::from_str(color_type);
            message.append(" color must be 6 hex digits (e.g., #FF0000)");
            return Err(message);
        }
        let mut i: usize = 1;
        while i < chars.len()
            invariant
                1 <= i <= chars.len(),
                chars@ == color@,
                chars@[0] == '#',
                utf8_len(color@) == 7,
                forall|k: int| 0 <= k < i - 1 ==> is_hex_digit(#[trigger] chars@.skip(1)[k]),
            decreases chars.len() - i,
        {
            if hex_digit(chars[i]).is_none() {
                assert(!is_hex_digit(chars@.skip(1)[i - 1]));
                let mut message = String::from_str(color_type);
                message.append(" color contains invalid hex characters");
                return Err(message);
            }
            i += 1;
        }
        Ok(())
    }

    /// The red, green and blue bytes of the foreground.
    pub fn foreground_rgb(&self) -> (r: Result<(u8, u8, u8), String>)
        ensures
            match r {
                Ok(rgb) => rgb_of(self@.foreground) == Ok::<(u8, u8, u8), Seq<char>>(rgb),
                Err(message) => rgb_of(self@.foreground) == Err::<(u8, u8, u8), Seq<char>>(message@),
            },
    {
        self.hex_to_rgb(self.foreground.as_str())
    }

    /// The red, green and blue bytes of the background.
    pub fn background_rgb(&self) -> (r: Result<(u8, u8, u8), String>)
        ensures
            match r {
                Ok(rgb) => rgb_of(self@.background) == Ok::<(u8, u8, u8), Seq<char>>(rgb),
                Err(message) => rgb_of(self@.background) == Err::<(u8, u8, u8), Seq<char>>(message@),
            },
    {
        self.hex_to_rgb(self.background.as_str())
    }

    /// Reads the three pairs of hexadecimal digits that follow the first character of `hex`.
    pub fn hex_to_rgb(&self, hex: &str) -> (r: Result<(u8, u8, u8), String>)
        ensures
            match r {
                Ok(rgb) => rgb_of(hex@) == Ok::<(u8, u8, u8), Seq<char>>(rgb),
                Err(message) => rgb_of(hex@) == Err::<(u8, u8, u8), Seq<char>>(message@),
            },
    {
        let chars = chars_of(hex);
        let red = match read_hex_pair(&chars, 1) {
            Some(byte) => byte,
            None => {
                return Err(String::from_str("Invalid red component"));
            },
        };
        let green = match read_hex_pair(&chars, 3) {
            Some(byte) => byte,
            None => {
                return Err(String::from_str("Invalid green component"));
            },
        };
        let blue = match read_hex_pair(&chars, 5) {
            Some(byte) => byte,
            None => {
                return Err(String::from_str("Invalid blue component"));
            },
        };
        Ok((red, green, blue))
    }

    /// The contrast ratio of the two colours in thousandths, rounded down.
    pub fn contrast_ratio(&self) -> (r: Result<u32, String>)
        ensures
            match r {
                Ok(ratio) => self@.contrast() == Ok::<int, Seq<char>>(ratio as int),
                Err(message) => self@.contrast() == Err::<int, Seq<char>>(message@),
            },
    {
        let fg = match self.foreground_rgb() {
            Ok(rgb) => rgb,
            Err(message) => {
                return Err(message);
            },
        };
        let bg = match self.background_rgb() {
            Ok(rgb) => rgb,
            Err(message) => {
                return Err(message);
            },
        };
        Ok(contrast_ratio_of(fg, bg))
    }

    /// Whether the two colours are at least three to one in contrast.
    pub fn has_sufficient_contrast(&self) -> (r: Result<bool, String>)
        ensures
            match r {
                Ok(enough) => self@.contrast() matches Ok(ratio) && enough == (ratio
                    >= MIN_CONTRAST_MILLI),
                Err(message) => self@.contrast() == Err::<int, Seq<char>>(message@),
            },
    {
        match self.contrast_ratio() {
            Ok(ratio) => Ok(ratio >= MIN_CONTRAST_MILLI),
            Err(message) => Err(message),
        }
    }

    /// Renders the pair for display.
    pub fn to_string(&self) -> (s: String)
        ensures
            s@ == self@.label(),
    {
        let mut s = String::from_str("fg: ");
        s.append(self.foreground.as_str());
        s.append(", bg: ");
        s.append(self.background.as_str());
        s
    }
}

} // verus!
