//! Colours, written in the map as hexadecimal strings.

use vstd::prelude::*;
use crate::error::{debug_text, quoted, Failure, TiledError};
use crate::json::{json_data, member, JsonData};

verus! {

/// A colour as its red, green, blue and alpha channels, in that order.
#[derive(Debug, PartialEq, Eq, Copy, Clone)]
pub struct Color([u8; 4]);

impl View for Color {
    type V = Seq<u8>;

    closed spec fn view(&self) -> Seq<u8> {
        self.0@
    }
}

/// The value of a hexadecimal digit, in either case.
pub open spec fn hex_value(c: char) -> Option<u8> {
    let u = c as u32;
    if 0x30 <= u <= 0x39 {
        Some((u - 0x30) as u8)
    } else if 0x41 <= u <= 0x46 {
        Some((u - 0x41 + 10) as u8)
    } else if 0x61 <= u <= 0x66 {
        Some((u - 0x61 + 10) as u8)
    } else {
        None
    }
}

/// Whether a text is made of hexadecimal digits alone.
pub open spec fn is_hex(text: Seq<char>) -> bool {
    forall|i: int| 0 <= i < text.len() ==> (#[trigger] hex_value(text[i])) is Some
}

/// The byte that the `k`-th pair of hexadecimal digits spells.
pub open spec fn hex_byte(digits: Seq<char>, k: int) -> u8 {
    (16 * hex_value(digits[2 * k]).unwrap() + hex_value(digits[2 * k + 1]).unwrap()) as u8
}

/// A colour text without the `#` that may stand before it.
pub open spec fn without_hash(text: Seq<char>) -> Seq<char> {
    if text.len() > 0 && text.first() == '#' {
        text.drop_first()
    } else {
        text
    }
}

/// The channels that hexadecimal digits spell: six digits are red, green and
/// blue, with full alpha; eight digits are alpha, red, green and blue. The
/// channels come out as red, green, blue, alpha either way. Any other text
/// spells no colour.
pub open spec fn channels_of(digits: Seq<char>) -> Option<Seq<u8>> {
    if !is_hex(digits) {
        None
    } else if digits.len() == 6 {
        Some(seq![hex_byte(digits, 0), hex_byte(digits, 1), hex_byte(digits, 2), 255u8])
    } else if digits.len() == 8 {
        Some(seq![hex_byte(digits, 1), hex_byte(digits, 2), hex_byte(digits, 3), hex_byte(digits, 0)])
    } else {
        None
    }
}

/// The message for digits that spell no colour.
pub open spec fn invalid_color(digits: Seq<char>) -> Seq<char> {
    "Invalid color value "@ + quoted(digits)
}

/// The value of one hexadecimal digit.
fn hex_digit(c: char) -> (res: Option<u8>)
    ensures
        res == hex_value(c),
{
    let u: u32 = c as u32;
    if 0x30 <= u && u <= 0x39 {
        Some((u - 0x30) as u8)
    } else if 0x41 <= u && u <= 0x46 {
        Some((u - 0x41 + 10) as u8)
    } else if 0x61 <= u && u <= 0x66 {
        Some((u - 0x61 + 10) as u8)
    } else {
        None
    }
}

/// The byte of the `k`-th pair of digits, where both are hexadecimal.
fn hex_pair(digits: &str, k: usize) -> (res: Option<u8>)
    requires
        2 * k + 1 < digits@.len(),
        digits@.len() <= 8,
    ensures
        match res {
            Some(byte) => hex_value(digits@[2 * k]) is Some && hex_value(digits@[2 * k + 1]) is Some
                && byte == hex_byte(digits@, k as int),
            None => hex_value(digits@[2 * k]) is None || hex_value(digits@[2 * k + 1]) is None,
        },
{
    let high = hex_digit(digits.get_char(2 * k));
    let low = hex_digit(digits.get_char(2 * k + 1));
    match (high, low) {
        (Some(h), Some(l)) => Some(16 * h + l),
        _ => None,
    }
}

fn invalid(digits: &str) -> (res: TiledError)
    ensures
        res@ == Failure::Other(invalid_color(digits@)),
{
    let text = debug_text(digits);
    TiledError::Other("Invalid color value ".to_owned().concat(text.as_str()))
}

impl Color {
    /// The channels: red, green, blue, alpha.
    pub fn channels(&self) -> (res: [u8; 4])
        ensures
            res@ == self@,
    {
        self.0
    }

    /// Reads a colour from `RRGGBB` or `AARRGGBB`, with or without a `#`
    /// before it.
    pub fn from_str(s: &str) -> (res: Result<Color, TiledError>)
        ensures
            match channels_of(without_hash(s@)) {
                Some(channels) => res matches Ok(color) && color@ == channels,
                None => res matches Err(e) && e@ == Failure::Other(
                    invalid_color(without_hash(s@)),
                ),
            },
    {
        let total = s.unicode_len();
        let digits: &str = if total > 0 && s.get_char(0) == '#' {
            s.substring_char(1, total)
        } else {
            s
        };
        assert(digits@ =~= without_hash(s@));
        let n = digits.unicode_len();
        if n != 6 && n != 8 {
            return Err(invalid(digits));
        }
        let b0 = match hex_pair(digits, 0) {
            Some(b) => b,
            None => { return Err(invalid(digits)); },
        };
        let b1 = match hex_pair(digits, 1) {
            Some(b) => b,
            None => { return Err(invalid(digits)); },
        };
        let b2 = match hex_pair(digits, 2) {
            Some(b) => b,
            None => { return Err(invalid(digits)); },
        };
        if n == 8 {
            let b3 = match hex_pair(digits, 3) {
                Some(b) => b,
                None => { return Err(invalid(digits)); },
            };
            let color = Color([b1, b2, b3, b0]);
            assert(color@ =~= seq![b1, b2, b3, b0]);
            Ok(color)
        } else {
            let color = Color([b0, b1, b2, 255]);
            assert(color@ =~= seq![b0, b1, b2, 255u8]);
            Ok(color)
        }
    }
}

/// Six hexadecimal digits, with or without a `#` before them, spell red,
/// green and blue, and the colour has full alpha.
pub proof fn lemma_rgb(text: Seq<char>, digits: Seq<char>)
    requires
        is_hex(digits),
        digits.len() == 6,
        text == digits || text == seq!['#'] + digits,
    ensures
        channels_of(without_hash(text)) == Some(
            seq![hex_byte(digits, 0), hex_byte(digits, 1), hex_byte(digits, 2), 255u8],
        ),
{
    if text == digits {
        assert(hex_value(digits[0]) is Some);
    } else {
        assert(text.drop_first() =~= digits);
    }
}

/// Eight hexadecimal digits, with or without a `#` before them, spell
/// alpha, red, green and blue, and the colour has the alpha last.
pub proof fn lemma_argb(text: Seq<char>, digits: Seq<char>)
    requires
        is_hex(digits),
        digits.len() == 8,
        text == digits || text == seq!['#'] + digits,
    ensures
        channels_of(without_hash(text)) == Some(
            seq![hex_byte(digits, 1), hex_byte(digits, 2), hex_byte(digits, 3), hex_byte(digits, 0)],
        ),
{
    if text == digits {
        assert(hex_value(digits[0]) is Some);
    } else {
        assert(text.drop_first() =~= digits);
    }
}

/// A text that, without its `#`, has neither six nor eight characters, or
/// has a character that is no hexadecimal digit, spells no colour.
pub proof fn lemma_not_a_color(text: Seq<char>)
    requires
        (without_hash(text).len() != 6 && without_hash(text).len() != 8) || !is_hex(
            without_hash(text),
        ),
    ensures
        channels_of(without_hash(text)) is None,
{
}

/// What an optional colour holds.
pub open spec fn color_view(color: Option<Color>) -> Option<Seq<u8>> {
    match color {
        Some(c) => Some(c@),
        None => None,
    }
}

/// The colour under `key`, which a record may leave out or set to null. A
/// string there must spell a colour; a member of another kind is unreadable.
pub open spec fn color_field(record: JsonData, key: Seq<char>) -> Result<Option<Seq<u8>>, Failure> {
    match record.field(key) {
        None | Some(JsonData::Null) => Ok(None),
        Some(JsonData::Text(text)) => match channels_of(without_hash(text)) {
            Some(channels) => Ok(Some(channels)),
            None => Err(Failure::Other(invalid_color(without_hash(text)))),
        },
        Some(_) => Err(Failure::Parsing),
    }
}

/// Reads the colour under `key`.
pub fn color_member(record: &serde_json::Value, key: &str) -> (res: Result<Option<Color>, TiledError>)
    ensures
        match color_field(json_data(*record), key@) {
            Ok(color) => res matches Ok(found) && color_view(found) == color,
            Err(failure) => res matches Err(e) && e@ == failure,
        },
{
    match member(record, key) {
        None => Ok(None),
        Some(value) => {
            if value.is_null() {
                Ok(None)
            } else {
                match value.as_str() {
                    Some(text) => match Color::from_str(text) {
                        Ok(color) => Ok(Some(color)),
                        Err(error) => Err(error),
                    },
                    None => Err(TiledError::unreadable("colour")),
                }
            }
        },
    }
}

impl std::str::FromStr for Color {
    type Err = TiledError;

    fn from_str(s: &str) -> (res: Result<Self, Self::Err>)
        ensures
            match channels_of(without_hash(s@)) {
                Some(channels) => res matches Ok(color) && color@ == channels,
                None => res matches Err(e) && e@ == Failure::Other(
                    invalid_color(without_hash(s@)),
                ),
            },
    {
        Color::from_str(s)
    }
}

} // verus!
