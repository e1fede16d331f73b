//! Hexadecimal notation: the `#rrggbb` form of a color and the digits of a
//! single channel.
use crate::colorerror::ColorError;
use crate::digits::{append_padded_hex, padded_hex_text, Text};
use vstd::prelude::*;
use vstd::string::StrSliceExecFns;
use vstd::utf8::is_ascii_chars;

verus! {

/// The value of one character read as a hex digit, in either case.
pub open spec fn digit_value(c: char) -> Option<u8> {
    if '0' <= c <= '9' {
        Some((c as u8 - 0x30) as u8)
    } else if 'a' <= c <= 'f' {
        Some((c as u8 - 0x61 + 10) as u8)
    } else if 'A' <= c <= 'F' {
        Some((c as u8 - 0x41 + 10) as u8)
    } else {
        None
    }
}

/// The value of a run of hex digits, the first digit weighing most; zero for
/// the empty run, and nothing where a character is no hex digit.
pub open spec fn digits_value(digits: Seq<char>) -> Option<nat>
    decreases digits.len(),
{
    if digits.len() == 0 {
        Some(0)
    } else {
        match (digits_value(digits.drop_last()), digit_value(digits.last())) {
            (Some(v), Some(d)) => Some(16 * v + d as nat),
            _ => None,
        }
    }
}

/// The number that `digits` writes in base sixteen, where they are at least
/// one, all of them hex digits, and the number is `limit` at most.
pub open spec fn number_value(digits: Seq<char>, limit: nat) -> Option<nat> {
    if digits.len() == 0 {
        None
    } else {
        match digits_value(digits) {
            Some(n) => if n <= limit {
                Some(n)
            } else {
                None
            },
            None => None,
        }
    }
}

/// The value of two hex digits, the first weighing sixteen times the second.
pub open spec fn pair_value(high: char, low: char) -> Option<u8> {
    match (digit_value(high), digit_value(low)) {
        (Some(h), Some(l)) => Some((16 * h + l) as u8),
        _ => None,
    }
}

/// What is wrong with the outer form of a hex color of this text: its
/// length in characters is looked at first, then its first character, which
/// must be `#`.
pub open spec fn shape_error(text: Seq<char>) -> Option<ColorError> {
    if text.len() < 7 {
        Some(ColorError::TruncatedHexString)
    } else if text.len() > 7 {
        Some(ColorError::HexStringOverflow)
    } else if text[0] != '#' {
        Some(ColorError::InvalidHexCharacter)
    } else {
        None
    }
}

/// The three channels that a hex color of this text holds, or the reason
/// why it holds none.
pub open spec fn triplet(text: Seq<char>) -> Result<(u8, u8, u8), ColorError> {
    match shape_error(text) {
        Some(e) => Err(e),
        None => match (
            pair_value(text[1], text[2]),
            pair_value(text[3], text[4]),
            pair_value(text[5], text[6]),
        ) {
            (Some(r), Some(g), Some(b)) => Ok((r, g, b)),
            _ => Err(ColorError::InvalidHexCharacter),
        },
    }
}

/// Checks the outer form of a hex color: seven characters, the first of
/// them `#`.
///
/// A shorter string is `TruncatedHexString`, a longer one
/// `HexStringOverflow`, and one of seven characters that does not start
/// with `#` is `InvalidHexCharacter`. The six characters after the `#` are
/// not looked at.
pub fn validate_hex_string(hex: &str) -> (r: Result<(), ColorError>)
    ensures
        match shape_error(hex@) {
            Some(e) => r == Err::<(), ColorError>(e),
            None => r is Ok,
        },
{
    let length = hex.unicode_len();
    if length < 7 {
        Err(ColorError::TruncatedHexString)
    } else if length > 7 {
        Err(ColorError::HexStringOverflow)
    } else if hex.get_char(0) != '#' {
        Err(ColorError::InvalidHexCharacter)
    } else {
        Ok(())
    }
}

/// A hex digit is a character of one byte.
pub proof fn lemma_digit_is_ascii(c: char)
    requires
        digit_value(c) is Some,
    ensures
        '\0' <= c <= '\u{7f}',
{
}

/// Where every character of a run is a hex digit, so is every character of
/// each run that it starts with, and the value of that run is not greater.
pub proof fn lemma_digits_value_of_prefix(digits: Seq<char>, k: int)
    requires
        0 <= k <= digits.len(),
        digits_value(digits) is Some,
    ensures
        digits_value(digits.take(k)) is Some,
        digits_value(digits.take(k))->0 <= digits_value(digits)->0,
    decreases digits.len(),
{
    if k == digits.len() {
        assert(digits.take(k) =~= digits);
    } else {
        lemma_digits_value_of_prefix(digits.drop_last(), k);
        assert(digits.drop_last().take(k) =~= digits.take(k));
    }
}

/// A run of hex digits is made of characters of one byte each.
pub proof fn lemma_digits_are_ascii(digits: Seq<char>)
    requires
        digits_value(digits) is Some,
    ensures
        is_ascii_chars(digits),
    decreases digits.len(),
{
    if digits.len() > 0 {
        lemma_digits_are_ascii(digits.drop_last());
        lemma_digit_is_ascii(digits.last());
        assert forall|i: int| 0 <= i < digits.len() implies '\0' <= #[trigger] digits[i]
            <= '\u{7f}' by {
            if i < digits.len() - 1 {
                assert(digits[i] == digits.drop_last()[i]);
            }
        }
    }
}

/// Reads one byte, which is the character `c`, as a hex digit.
fn read_digit(b: u8, Ghost(c): Ghost<char>) -> (r: Option<u8>)
    requires
        c <= '\u{7f}',
        c as u8 == b,
    ensures
        r == digit_value(c),
{
    if 0x30 <= b && b <= 0x39 {
        Some(b - 0x30)
    } else if 0x61 <= b && b <= 0x66 {
        Some(b - 0x61 + 10)
    } else if 0x41 <= b && b <= 0x46 {
        Some(b - 0x41 + 10)
    } else {
        None
    }
}

/// Reads the two characters at `at` and after it as the two hex digits of
/// one channel.
fn read_pair(hex: &str, at: usize) -> (r: Result<u8, ColorError>)
    requires
        hex.is_ascii(),
        at + 1 < hex@.len(),
    ensures
        match pair_value(hex@[at as int], hex@[at + 1]) {
            Some(v) => r == Ok::<u8, ColorError>(v),
            None => r == Err::<u8, ColorError>(ColorError::InvalidHexCharacter),
        },
{
    proof {
        vstd::string::is_ascii_spec_bytes(hex);
    }
    let bytes = hex.as_bytes();
    let high = read_digit(bytes[at], Ghost(hex@[at as int]));
    let low = read_digit(bytes[at + 1], Ghost(hex@[at + 1]));
    match (high, low) {
        (Some(h), Some(l)) => Ok(16 * h + l),
        _ => Err(ColorError::InvalidHexCharacter),
    }
}

/// Reads the three channels of a hex color of the form `#rrggbb`.
///
/// The outer form is checked as `validate_hex_string` does it. Then each of
/// the six characters after the `#` must be a hex digit, in either case, or
/// the result is `InvalidHexCharacter`.
pub fn parse_hex(hex: &str) -> (r: Result<(u8, u8, u8), ColorError>)
    ensures
        r == triplet(hex@),
{
    validate_hex_string(hex)?;
    if !hex.is_ascii() {
        proof {
            let i = choose|i: int|
                0 <= i < hex@.len() && !('\0' <= #[trigger] hex@[i] <= '\u{7f}');
            assert(1 <= i <= 6);
            assert(digit_value(hex@[i]) is None);
        }
        return Err(ColorError::InvalidHexCharacter);
    }
    let red = read_pair(hex, 1)?;
    let green = read_pair(hex, 3)?;
    let blue = read_pair(hex, 5)?;
    Ok((red, green, blue))
}

/// Transformations to and from hexadecimal notation (base 16).
pub trait Hex: Sized {
    /// What is returned where a string holds no value.
    type Err;

    /// The text that represents this value in hex notation.
    spec fn hex_text(&self) -> Text;

    /// The value that a hex string of this text holds, if it holds one.
    spec fn hex_value(text: Text) -> Option<Self>;

    /// Represent a value as a hex string.
    fn to_hex(&self) -> (s: String)
        ensures
            s@ == self.hex_text(),
    ;

    /// Convert a hex string to a value: an error comes back exactly where
    /// the string is not valid or its value is out of bounds.
    fn from_hex(hex: &str) -> (r: Result<Self, Self::Err>)
        ensures
            match Self::hex_value(hex@) {
                Some(v) => r == Ok::<Self, Self::Err>(v),
                None => r is Err,
            },
    ;
}

/// Reads a run of hex digits as a number that is `limit` at most.
fn read_number(hex: &str, limit: u64) -> (r: Option<u64>)
    ensures
        match number_value(hex@, limit as nat) {
            Some(n) => r == Some(n as u64),
            None => r is None,
        },
{
    if !hex.is_ascii() {
        proof {
            if digits_value(hex@) is Some {
                lemma_digits_are_ascii(hex@);
            }
        }
        return None;
    }
    proof {
        vstd::string::is_ascii_spec_bytes(hex);
    }
    let digits = hex.as_bytes();
    if digits.len() == 0 {
        return None;
    }
    let mut value: u64 = 0;
    let mut i: usize = 0;
    while i < digits.len()
        invariant
            0 <= i <= digits.len(),
            digits.len() == hex@.len(),
            is_ascii_chars(hex@),
            forall|j: int| 0 <= j < digits.len() ==> digits@[j] == hex@[j] as u8,
            digits_value(hex@.take(i as int)) == Some(value as nat),
            value <= limit,
        decreases digits.len() - i,
    {
        proof {
            assert(hex@.take(i + 1).drop_last() =~= hex@.take(i as int));
            assert(hex@.take(i + 1).last() == hex@[i as int]);
            if digits_value(hex@) is Some {
                lemma_digits_value_of_prefix(hex@, i + 1);
            }
        }
        let digit = match read_digit(digits[i], Ghost(hex@[i as int])) {
            Some(d) => d as u64,
            None => {
                return None;
            },
        };
        if value > limit / 16 || digit > limit - 16 * value {
            return None;
        }
        value = 16 * value + digit;
        i = i + 1;
    }
    proof {
        assert(hex@.take(i as int) =~= hex@);
    }
    Some(value)
}

impl Hex for u8 {
    type Err = ColorError;

    /// Two hex digits at least, in lower case.
    open spec fn hex_text(&self) -> Seq<char> {
        padded_hex_text(*self as nat)
    }

    /// The number that the text writes in base sixteen, where it is made of
    /// hex digits alone and the number fits the type.
    open spec fn hex_value(text: Seq<char>) -> Option<Self> {
        match number_value(text, 0xff) {
            Some(n) => Some(n as u8),
            None => None,
        }
    }

    fn to_hex(&self) -> (s: String) {
        let mut s = String::new();
        append_padded_hex(&mut s, *self as u64);
        s
    }

    fn from_hex(hex: &str) -> (r: Result<Self, Self::Err>)
        ensures
            r is Err ==> r == Err::<Self, ColorError>(ColorError::InvalidHexCharacter),
    {
        match read_number(hex, 0xff) {
            Some(c) => Ok(c as u8),
            None => Err(ColorError::InvalidHexCharacter),
        }
    }
}

impl Hex for u16 {
    type Err = ColorError;

    /// Two hex digits at least, in lower case.
    open spec fn hex_text(&self) -> Seq<char> {
        padded_hex_text(*self as nat)
    }

    /// The number that the text writes in base sixteen, where it is made of
    /// hex digits alone and the number fits the type.
    open spec fn hex_value(text: Seq<char>) -> Option<Self> {
        match number_value(text, 0xffff) {
            Some(n) => Some(n as u16),
            None => None,
        }
    }

    fn to_hex(&self) -> (s: String) {
        let mut s = String::new();
        append_padded_hex(&mut s, *self as u64);
        s
    }

    fn from_hex(hex: &str) -> (r: Result<Self, Self::Err>)
        ensures
            r is Err ==> r == Err::<Self, ColorError>(ColorError::InvalidHexCharacter),
    {
        match read_number(hex, 0xffff) {
            Some(c) => Ok(c as u16),
            None => Err(ColorError::InvalidHexCharacter),
        }
    }
}

impl Hex for u32 {
    type Err = ColorError;

    /// Two hex digits at least, in lower case.
    open spec fn hex_text(&self) -> Seq<char> {
        padded_hex_text(*self as nat)
    }

    /// The number that the text writes in base sixteen, where it is made of
    /// hex digits alone and the number fits the type.
    open spec fn hex_value(text: Seq<char>) -> Option<Self> {
        match number_value(text, 0xffff_ffff) {
            Some(n) => Some(n as u32),
            None => None,
        }
    }

    fn to_hex(&self) -> (s: String) {
        let mut s = String::new();
        append_padded_hex(&mut s, *self as u64);
        s
    }

    fn from_hex(hex: &str) -> (r: Result<Self, Self::Err>)
        ensures
            r is Err ==> r == Err::<Self, ColorError>(ColorError::InvalidHexCharacter),
    {
        match read_number(hex, 0xffff_ffff) {
            Some(c) => Ok(c as u32),
            None => Err(ColorError::InvalidHexCharacter),
        }
    }
}

impl Hex for u64 {
    type Err = ColorError;

    /// Two hex digits at least, in lower case.
    open spec fn hex_text(&self) -> Seq<char> {
        padded_hex_text(*self as nat)
    }

    /// The number that the text writes in base sixteen, where it is made of
    /// hex digits alone and the number fits the type.
    open spec fn hex_value(text: Seq<char>) -> Option<Self> {
        match number_value(text, 0xffff_ffff_ffff_ffff) {
            Some(n) => Some(n as u64),
            None => None,
        }
    }

    fn to_hex(&self) -> (s: String) {
        let mut s = String::new();
        append_padded_hex(&mut s, *self);
        s
    }

    fn from_hex(hex: &str) -> (r: Result<Self, Self::Err>)
        ensures
            r is Err ==> r == Err::<Self, ColorError>(ColorError::InvalidHexCharacter),
    {
        match read_number(hex, 0xffff_ffff_ffff_ffff) {
            Some(c) => Ok(c as u64),
            None => Err(ColorError::InvalidHexCharacter),
        }
    }
}

impl Hex for i16 {
    type Err = ColorError;

    /// Two hex digits at least, in lower case; a negative value as
    /// the type stores it, in two's complement.
    open spec fn hex_text(&self) -> Seq<char> {
        if *self < 0 {
            padded_hex_text((*self + 0x1_0000) as nat)
        } else {
            padded_hex_text(*self as nat)
        }
    }

    /// The number that the text writes in base sixteen, where it is made of
    /// hex digits alone and the number fits the type.
    open spec fn hex_value(text: Seq<char>) -> Option<Self> {
        match number_value(text, 0x7fff) {
            Some(n) => Some(n as i16),
            None => None,
        }
    }

    fn to_hex(&self) -> (s: String) {
        let mut s = String::new();
        let bits: u64 = if *self < 0 {
            (*self as i64 + 0x1_0000) as u64
        } else {
            *self as u64
        };
        append_padded_hex(&mut s, bits);
        s
    }

    fn from_hex(hex: &str) -> (r: Result<Self, Self::Err>)
        ensures
            r is Err ==> r == Err::<Self, ColorError>(ColorError::InvalidHexCharacter),
    {
        match read_number(hex, 0x7fff) {
            Some(c) => Ok(c as i16),
            None => Err(ColorError::InvalidHexCharacter),
        }
    }
}

impl Hex for i32 {
    type Err = ColorError;

    /// Two hex digits at least, in lower case; a negative value as
    /// the type stores it, in two's complement.
    open spec fn hex_text(&self) -> Seq<char> {
        if *self < 0 {
            padded_hex_text((*self + 0x1_0000_0000) as nat)
        } else {
            padded_hex_text(*self as nat)
        }
    }

    /// The number that the text writes in base sixteen, where it is made of
    /// hex digits alone and the number fits the type.
    open spec fn hex_value(text: Seq<char>) -> Option<Self> {
        match number_value(text, 0x7fff_ffff) {
            Some(n) => Some(n as i32),
            None => None,
        }
    }

    fn to_hex(&self) -> (s: String) {
        let mut s = String::new();
        let bits: u64 = if *self < 0 {
            (*self as i64 + 0x1_0000_0000) as u64
        } else {
            *self as u64
        };
        append_padded_hex(&mut s, bits);
        s
    }

    fn from_hex(hex: &str) -> (r: Result<Self, Self::Err>)
        ensures
            r is Err ==> r == Err::<Self, ColorError>(ColorError::InvalidHexCharacter),
    {
        match read_number(hex, 0x7fff_ffff) {
            Some(c) => Ok(c as i32),
            None => Err(ColorError::InvalidHexCharacter),
        }
    }
}

impl Hex for i64 {
    type Err = ColorError;

    /// Two hex digits at least, in lower case; a negative value as
    /// the type stores it, in two's complement.
    open spec fn hex_text(&self) -> Seq<char> {
        if *self < 0 {
            padded_hex_text((*self + 0x1_0000_0000_0000_0000) as nat)
        } else {
            padded_hex_text(*self as nat)
        }
    }

    /// The number that the text writes in base sixteen, where it is made of
    /// hex digits alone and the number fits the type.
    open spec fn hex_value(text: Seq<char>) -> Option<Self> {
        match number_value(text, 0x7fff_ffff_ffff_ffff) {
            Some(n) => Some(n as i64),
            None => None,
        }
    }

    fn to_hex(&self) -> (s: String) {
        let mut s = String::new();
        let bits: u64 = if *self < 0 {
            (*self + 0x7fff_ffff_ffff_ffff + 1) as u64 + 0x8000_0000_0000_0000
        } else {
            *self as u64
        };
        append_padded_hex(&mut s, bits);
        s
    }

    fn from_hex(hex: &str) -> (r: Result<Self, Self::Err>)
        ensures
            r is Err ==> r == Err::<Self, ColorError>(ColorError::InvalidHexCharacter),
    {
        match read_number(hex, 0x7fff_ffff_ffff_ffff) {
            Some(c) => Ok(c as i64),
            None => Err(ColorError::InvalidHexCharacter),
        }
    }
}

} // verus!
