//! What holds of the color types and of hex notation, whatever the values.
use crate::channel::{bound_error, clamped, within_bounds, ColorChannel};
use crate::colorerror::ColorError;
use crate::digits::{digit_char, hex_text, padded_hex_text};
use crate::hex::{digit_value, digits_value, number_value, pair_value, shape_error, triplet, Hex};
use crate::hexcolor::HexColor;
use crate::primary::PrimaryColor;
use crate::reduced::ReducedRGBA;
use crate::rgb::RGB;
use crate::rgba::RGBA;
use vstd::prelude::*;
use vstd::utf8::is_ascii_chars;

verus! {

/// A color whose channels are each at one of the two limits of the channel
/// type is valid: the limits themselves are within the range.
pub proof fn lemma_limits_are_valid<T: ColorChannel>(red: bool, green: bool, blue: bool)
    ensures
        (RGB::<T> {
            red: if red {
                T::highest()
            } else {
                T::lowest()
            },
            green: if green {
                T::highest()
            } else {
                T::lowest()
            },
            blue: if blue {
                T::highest()
            } else {
                T::lowest()
            },
        }).violation() is None,
{
    T::limits_are_within_bounds();
}

/// A color has no violation exactly where it is valid, and the violation of
/// a color that is not valid is one of the two errors of the range.
pub proof fn lemma_violation_iff_not_valid<T: ColorChannel>(color: RGBA<T>)
    ensures
        color.violation() is None <==> color.is_valid(),
        color.violation() matches Some(e) ==> e == ColorError::OutsideBoundsNegative || e
            == ColorError::OutsideBoundsHigh,
{
}

/// Where a channel under the lower limit comes before every channel over
/// the upper limit, the error is `OutsideBoundsNegative`; and where red is
/// under the lower limit it is so whatever the other channels hold.
pub proof fn lemma_first_violation_decides<T: ColorChannel>(color: RGB<T>)
    ensures
        color.red.below_min() ==> color.violation() == Some(ColorError::OutsideBoundsNegative),
        !color.red.below_min() && color.red.above_max() ==> color.violation() == Some(
            ColorError::OutsideBoundsHigh,
        ),
        within_bounds(color.red) && color.green.below_min() ==> color.violation() == Some(
            ColorError::OutsideBoundsNegative,
        ),
        within_bounds(color.red) && within_bounds(color.green) ==> color.violation()
            == bound_error(color.blue),
{
}

/// Clamping gives a valid color, and gives back the channels of a color
/// that was valid before: the clamping constructor agrees with the checked
/// one wherever the checked one succeeds.
pub proof fn lemma_clamping_agrees_with_checking<T: ColorChannel>(color: RGBA<T>)
    ensures
        (RGBA {
            red: clamped(color.red),
            green: clamped(color.green),
            blue: clamped(color.blue),
            alpha: clamped(color.alpha),
        }).is_valid(),
        color.is_valid() ==> (RGBA {
            red: clamped(color.red),
            green: clamped(color.green),
            blue: clamped(color.blue),
            alpha: clamped(color.alpha),
        }) == color,
{
    T::limits_are_within_bounds();
}

/// Every digit is written as a character that reads back as the same
/// digit.
pub proof fn lemma_digit_reads_back(d: int)
    requires
        0 <= d < 16,
    ensures
        digit_value(digit_char(d)) == Some(d as u8),
{
}

/// A byte is written as its two hex digits, the one that weighs sixteen
/// first.
pub proof fn lemma_byte_text(v: u8)
    ensures
        padded_hex_text(v as nat) == seq![digit_char(v as int / 16), digit_char(v as int % 16)],
{
    reveal_with_fuel(hex_text, 3);
    assert(padded_hex_text(v as nat) =~= seq![
        digit_char(v as int / 16),
        digit_char(v as int % 16),
    ]);
}

/// Two characters write a number exactly where both are hex digits, and the
/// number is then the value of the pair, which every limit from 255 on
/// lets through.
pub proof fn lemma_pair_is_number(high: char, low: char, limit: nat)
    requires
        limit >= 255,
    ensures
        number_value(seq![high, low], limit) == match pair_value(high, low) {
            Some(v) => Some(v as nat),
            None => None::<nat>,
        },
{
    let pair = seq![high, low];
    reveal_with_fuel(digits_value, 3);
    assert(pair.drop_last() =~= seq![high]);
    assert(pair.drop_last().drop_last() =~= Seq::<char>::empty());
    assert(pair.last() == low);
    assert(pair.drop_last().last() == high);
}

/// The channel type reads these two characters as a pair of hex digits: the
/// value that stands for the level that the pair writes, and nothing where
/// one of the two is no hex digit.
pub open spec fn reads_pair<T: ColorChannel + Hex>(high: char, low: char) -> bool {
    T::hex_value(seq![high, low]) == match pair_value(high, low) {
        Some(v) => Some(T::of_level(v)),
        None => None::<T>,
    }
}

/// The color of three channels that the text holds, each channel as the
/// value that stands for the level that its two hex digits write.
pub open spec fn rgb_of_triplet<T: ColorChannel>(text: Seq<char>) -> Result<RGB<T>, ColorError> {
    match triplet(text) {
        Ok(levels) => Ok(
            RGB {
                red: T::of_level(levels.0),
                green: T::of_level(levels.1),
                blue: T::of_level(levels.2),
            },
        ),
        Err(e) => Err(e),
    }
}

/// The fully opaque color of four channels that the text holds.
pub open spec fn rgba_of_triplet<T: ColorChannel>(text: Seq<char>) -> Result<
    RGBA<T>,
    ColorError,
> {
    match triplet(text) {
        Ok(levels) => Ok(
            RGBA {
                red: T::of_level(levels.0),
                green: T::of_level(levels.1),
                blue: T::of_level(levels.2),
                alpha: T::highest(),
            },
        ),
        Err(e) => Err(e),
    }
}

/// Over a channel type that reads pairs of hex digits, a color is read from
/// a text as its three channels are: a `#` and six hex digits always read,
/// each pair as the value for its level, and every other text fails for the
/// reason that `triplet` gives.
pub proof fn lemma_read_agrees_with_triplet<T: ColorChannel + Hex>(text: Seq<char>)
    requires
        shape_error(text) is None ==> reads_pair::<T>(text[1], text[2]) && reads_pair::<T>(
            text[3],
            text[4],
        ) && reads_pair::<T>(text[5], text[6]),
    ensures
        RGB::<T>::read(text) == rgb_of_triplet::<T>(text),
        RGBA::<T>::read(text) == rgba_of_triplet::<T>(text),
{
    if shape_error(text) is None {
        if is_ascii_chars(text) {
            assert(text.subrange(1, 3) =~= seq![text[1], text[2]]);
            assert(text.subrange(3, 5) =~= seq![text[3], text[4]]);
            assert(text.subrange(5, 7) =~= seq![text[5], text[6]]);
            match triplet(text) {
                Ok(levels) => {
                    T::levels_are_kept(levels.0);
                    T::levels_are_kept(levels.1);
                    T::levels_are_kept(levels.2);
                },
                Err(_) => {},
            }
        } else {
            let i = choose|i: int|
                0 <= i < text.len() && !('\0' <= #[trigger] text[i] <= '\u{7f}');
            assert(1 <= i <= 6);
            assert(digit_value(text[i]) is None);
        }
    }
}

/// Over `u8`, a color is read from a text as its three channels are.
pub proof fn lemma_u8_reads_hex(text: Seq<char>)
    ensures
        RGB::<u8>::read(text) == rgb_of_triplet::<u8>(text),
        RGBA::<u8>::read(text) == rgba_of_triplet::<u8>(text),
{
    if shape_error(text) is None {
        lemma_pair_is_number(text[1], text[2], 0xff);
        lemma_pair_is_number(text[3], text[4], 0xff);
        lemma_pair_is_number(text[5], text[6], 0xff);
    }
    lemma_read_agrees_with_triplet::<u8>(text);
}

/// Over `u16`, a color is read from a text as its three channels are.
pub proof fn lemma_u16_reads_hex(text: Seq<char>)
    ensures
        RGB::<u16>::read(text) == rgb_of_triplet::<u16>(text),
        RGBA::<u16>::read(text) == rgba_of_triplet::<u16>(text),
{
    if shape_error(text) is None {
        lemma_pair_is_number(text[1], text[2], 0xffff);
        lemma_pair_is_number(text[3], text[4], 0xffff);
        lemma_pair_is_number(text[5], text[6], 0xffff);
    }
    lemma_read_agrees_with_triplet::<u16>(text);
}

/// Over `u32`, a color is read from a text as its three channels are.
pub proof fn lemma_u32_reads_hex(text: Seq<char>)
    ensures
        RGB::<u32>::read(text) == rgb_of_triplet::<u32>(text),
        RGBA::<u32>::read(text) == rgba_of_triplet::<u32>(text),
{
    if shape_error(text) is None {
        lemma_pair_is_number(text[1], text[2], 0xffff_ffff);
        lemma_pair_is_number(text[3], text[4], 0xffff_ffff);
        lemma_pair_is_number(text[5], text[6], 0xffff_ffff);
    }
    lemma_read_agrees_with_triplet::<u32>(text);
}

/// Over `u64`, a color is read from a text as its three channels are.
pub proof fn lemma_u64_reads_hex(text: Seq<char>)
    ensures
        RGB::<u64>::read(text) == rgb_of_triplet::<u64>(text),
        RGBA::<u64>::read(text) == rgba_of_triplet::<u64>(text),
{
    if shape_error(text) is None {
        lemma_pair_is_number(text[1], text[2], 0xffff_ffff_ffff_ffff);
        lemma_pair_is_number(text[3], text[4], 0xffff_ffff_ffff_ffff);
        lemma_pair_is_number(text[5], text[6], 0xffff_ffff_ffff_ffff);
    }
    lemma_read_agrees_with_triplet::<u64>(text);
}

/// Over `i16`, a color is read from a text as its three channels are.
pub proof fn lemma_i16_reads_hex(text: Seq<char>)
    ensures
        RGB::<i16>::read(text) == rgb_of_triplet::<i16>(text),
        RGBA::<i16>::read(text) == rgba_of_triplet::<i16>(text),
{
    if shape_error(text) is None {
        lemma_pair_is_number(text[1], text[2], 0x7fff);
        lemma_pair_is_number(text[3], text[4], 0x7fff);
        lemma_pair_is_number(text[5], text[6], 0x7fff);
    }
    lemma_read_agrees_with_triplet::<i16>(text);
}

/// Over `i32`, a color is read from a text as its three channels are.
pub proof fn lemma_i32_reads_hex(text: Seq<char>)
    ensures
        RGB::<i32>::read(text) == rgb_of_triplet::<i32>(text),
        RGBA::<i32>::read(text) == rgba_of_triplet::<i32>(text),
{
    if shape_error(text) is None {
        lemma_pair_is_number(text[1], text[2], 0x7fff_ffff);
        lemma_pair_is_number(text[3], text[4], 0x7fff_ffff);
        lemma_pair_is_number(text[5], text[6], 0x7fff_ffff);
    }
    lemma_read_agrees_with_triplet::<i32>(text);
}

/// Over `i64`, a color is read from a text as its three channels are.
pub proof fn lemma_i64_reads_hex(text: Seq<char>)
    ensures
        RGB::<i64>::read(text) == rgb_of_triplet::<i64>(text),
        RGBA::<i64>::read(text) == rgba_of_triplet::<i64>(text),
{
    if shape_error(text) is None {
        lemma_pair_is_number(text[1], text[2], 0x7fff_ffff_ffff_ffff);
        lemma_pair_is_number(text[3], text[4], 0x7fff_ffff_ffff_ffff);
        lemma_pair_is_number(text[5], text[6], 0x7fff_ffff_ffff_ffff);
    }
    lemma_read_agrees_with_triplet::<i64>(text);
}

/// What `to_hex` writes of a color of eight bits is a `#` and six hex
/// digits that hold its three channels.
pub proof fn lemma_hex_text_holds_channels(color: RGB<u8>)
    ensures
        color.hex_text().len() == 7,
        triplet(color.hex_text()) == Ok::<(u8, u8, u8), ColorError>(
            (color.red, color.green, color.blue),
        ),
{
    let text = color.hex_text();
    reveal_strlit("#");
    lemma_byte_text(color.red);
    lemma_byte_text(color.green);
    lemma_byte_text(color.blue);
    let expected = seq![
        '#',
        digit_char(color.red as int / 16),
        digit_char(color.red as int % 16),
        digit_char(color.green as int / 16),
        digit_char(color.green as int % 16),
        digit_char(color.blue as int / 16),
        digit_char(color.blue as int % 16),
    ];
    assert(text =~= expected);
    lemma_digit_reads_back(color.red as int / 16);
    lemma_digit_reads_back(color.red as int % 16);
    lemma_digit_reads_back(color.green as int / 16);
    lemma_digit_reads_back(color.green as int % 16);
    lemma_digit_reads_back(color.blue as int / 16);
    lemma_digit_reads_back(color.blue as int % 16);
}

/// Hex notation is exact for channels of eight bits: what `to_hex` writes
/// of a color, `from_hex` reads back as the same color.
pub proof fn lemma_hex_round_trip(color: RGB<u8>)
    ensures
        RGB::<u8>::read(color.hex_text()) == Ok::<RGB<u8>, ColorError>(color),
        RGBA::<u8>::read(color.hex_text()) == Ok::<RGBA<u8>, ColorError>(
            RGBA { red: color.red, green: color.green, blue: color.blue, alpha: 255 },
        ),
{
    lemma_hex_text_holds_channels(color);
    lemma_u8_reads_hex(color.hex_text());
}

/// The hex color of a named color is valid. Its way to channels of eight
/// bits gives the named color there, and the way back gives the same string
/// and the same opacity again.
pub proof fn lemma_named_hex_round_trip<A: ColorChannel>(hex: HexColor<A>, color: PrimaryColor)
    requires
        hex.color@ == HexColor::<A>::named_text(color),
        hex.alpha == A::highest(),
    ensures
        hex.is_valid(),
        hex.reduced() == Ok::<ReducedRGBA, ColorError>(ReducedRGBA::named(color)),
        ReducedRGBA::named(color).hex_text() == hex.color@,
        A::of_level(ReducedRGBA::named(color).alpha) == hex.alpha,
{
    A::limits_are_within_bounds();
    A::levels_are_kept(255);
    reveal_strlit("#");
    reveal_strlit("#000000");
    reveal_strlit("#ffffff");
    reveal_strlit("#ff0000");
    reveal_strlit("#00ff00");
    reveal_strlit("#0000ff");
    reveal_strlit("#ffff00");
    reveal_strlit("#ff00ff");
    reveal_strlit("#00ffff");
    let named = ReducedRGBA::named(color);
    let rgb = RGB::<u8> { red: named.red, green: named.green, blue: named.blue };
    lemma_byte_text(named.red);
    lemma_byte_text(named.green);
    lemma_byte_text(named.blue);
    assert(rgb.hex_text() =~= hex.color@);
    lemma_hex_text_holds_channels(rgb);
}

/// The named color is the same in every representation: in channels of any
/// type it is the way of the named color of eight bits to that type.
pub proof fn lemma_named_colors_agree<A: ColorChannel>(color: PrimaryColor)
    ensures
        ReducedRGBA::named(color).rgba::<A>() == RGBA::<A>::named(color),
        RGBA::<A>::named(color).reduced() == Ok::<ReducedRGBA, ColorError>(
            ReducedRGBA::named(color),
        ),
        RGB::<A>::named(color) == (RGB::<A> {
            red: RGBA::<A>::named(color).red,
            green: RGBA::<A>::named(color).green,
            blue: RGBA::<A>::named(color).blue,
        }),
{
    A::limits_are_within_bounds();
    A::levels_are_kept(0);
    A::levels_are_kept(255);
}

/// A color of channels of eight bits that goes to channels of any type and
/// back is the color that it was: nothing is lost at the 256 levels.
pub proof fn lemma_reduced_round_trip<A: ColorChannel>(color: ReducedRGBA)
    ensures
        color.rgba::<A>().is_valid(),
        color.rgba::<A>().reduced() == Ok::<ReducedRGBA, ColorError>(color),
{
    A::levels_are_kept(color.red);
    A::levels_are_kept(color.green);
    A::levels_are_kept(color.blue);
    A::levels_are_kept(color.alpha);
}

/// A color of channels of eight bits that goes to hex notation and back is
/// the color that it was.
pub proof fn lemma_reduced_hex_round_trip<A: ColorChannel>(color: ReducedRGBA, hex: HexColor<A>)
    requires
        hex.color@ == color.hex_text(),
        hex.alpha == A::of_level(color.alpha),
    ensures
        hex.is_valid(),
        hex.reduced() == Ok::<ReducedRGBA, ColorError>(color),
{
    A::levels_are_kept(color.alpha);
    let rgb = RGB::<u8> { red: color.red, green: color.green, blue: color.blue };
    lemma_hex_text_holds_channels(rgb);
}

/// Every way out of a color starts with the same check: a color that is not
/// valid gives the same error whatever it is converted to.
pub proof fn lemma_conversions_fail_alike<A: ColorChannel>(hex: HexColor<A>, color: RGBA<A>)
    ensures
        hex.violation() matches Some(e) ==> hex.reduced() == Err::<ReducedRGBA, ColorError>(e)
            && hex.rgba() == Err::<RGBA<A>, ColorError>(e),
        hex.violation() is None ==> hex.reduced() is Ok && hex.rgba() is Ok,
        color.violation() matches Some(e) ==> color.reduced() == Err::<ReducedRGBA, ColorError>(
            e,
        ),
        color.violation() is None ==> color.reduced() is Ok,
{
}

/// The way of a valid color through hex notation to channels of eight bits
/// ends where the straight way ends: the string holds the levels of red,
/// green and blue, and the opacity stands for the level of the alpha
/// channel, whatever the type of the opacity.
pub proof fn lemma_ways_to_reduced_agree<T: ColorChannel, A: ColorChannel>(
    color: RGBA<T>,
    hex: HexColor<A>,
)
    requires
        color.is_valid(),
        hex.color@ == color.levels().hex_text(),
        hex.alpha == A::of_level(color.alpha.level()),
    ensures
        hex.is_valid(),
        hex.reduced() == color.reduced(),
{
    let levels = color.levels();
    let rgb = RGB::<u8> { red: levels.red, green: levels.green, blue: levels.blue };
    A::levels_are_kept(levels.alpha);
    lemma_hex_text_holds_channels(rgb);
}

} // verus!
