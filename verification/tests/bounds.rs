use rgba_simple::{Channel, ColorChannel, ColorError, Primary, PrimaryColor, RGB, RGBA};

#[test]
fn try_new_accepts_the_limits() {
    assert_eq!(
        RGB::<u8>::try_new(0, 255, 0),
        Ok(RGB {
            red: 0,
            green: 255,
            blue: 0,
        })
    );
    assert_eq!(
        RGB::<i64>::try_new(255, 0, 255),
        Ok(RGB {
            red: 255,
            green: 0,
            blue: 255,
        })
    );
    assert_eq!(
        RGBA::<u16>::try_new(0, 0, 0, 255),
        Ok(RGBA {
            red: 0,
            green: 0,
            blue: 0,
            alpha: 255,
        })
    );
}

#[test]
fn try_new_rejects_what_is_outside() {
    assert_eq!(
        RGB::<i16>::try_new(-1, 0, 0),
        Err(ColorError::OutsideBoundsNegative)
    );
    assert_eq!(
        RGB::<i16>::try_new(0, 0, -1),
        Err(ColorError::OutsideBoundsNegative)
    );
    assert_eq!(RGB::<u16>::try_new(0, 256, 0), Err(ColorError::OutsideBoundsHigh));
    assert_eq!(
        RGB::<u64>::try_new(0, 0, u64::MAX),
        Err(ColorError::OutsideBoundsHigh)
    );
    assert_eq!(
        RGBA::<i32>::try_new(0, 0, 0, 256),
        Err(ColorError::OutsideBoundsHigh)
    );
    assert_eq!(
        RGBA::<i32>::try_new(0, 0, 0, -256),
        Err(ColorError::OutsideBoundsNegative)
    );
}

#[test]
fn try_new_reports_the_first_channel_outside() {
    assert_eq!(
        RGB::<i16>::try_new(-5, 300, 128),
        Err(ColorError::OutsideBoundsNegative)
    );
    assert_eq!(
        RGB::<i16>::try_new(300, -5, 128),
        Err(ColorError::OutsideBoundsHigh)
    );
    assert_eq!(
        RGBA::<i64>::try_new(0, 0, 256, -1),
        Err(ColorError::OutsideBoundsHigh)
    );
    assert_eq!(
        RGBA::<i64>::try_new(0, 0, -1, 256),
        Err(ColorError::OutsideBoundsNegative)
    );
}

#[test]
fn new_clamps() {
    assert_eq!(
        RGB::<i16>::new(-5, 300, 128),
        RGB {
            red: 0,
            green: 255,
            blue: 128,
        }
    );
    assert_eq!(
        RGB::<i64>::new(i64::MIN, i64::MAX, 0),
        RGB {
            red: 0,
            green: 255,
            blue: 0,
        }
    );
    assert_eq!(
        RGBA::<u32>::new(256, 255, 254, 1000),
        RGBA {
            red: 255,
            green: 255,
            blue: 254,
            alpha: 255,
        }
    );
    assert_eq!(
        RGBA::<i32>::new(-1, 0, 1, -1000),
        RGBA {
            red: 0,
            green: 0,
            blue: 1,
            alpha: 0,
        }
    );
}

#[test]
fn new_agrees_with_try_new_where_it_succeeds() {
    for v in [0i32, 1, 127, 254, 255] {
        assert_eq!(Ok(RGB::new(v, 255 - v, v)), RGB::try_new(v, 255 - v, v));
        assert_eq!(
            Ok(RGBA::new(v, 255 - v, v, v)),
            RGBA::try_new(v, 255 - v, v, v)
        );
    }
}

#[test]
fn limits_of_every_integer_type() {
    assert_eq!((<u8 as ColorChannel>::MIN, <u8 as ColorChannel>::MAX), (0, 255));
    assert_eq!((<u16 as ColorChannel>::MIN, <u16 as ColorChannel>::MAX), (0, 255));
    assert_eq!((<u32 as ColorChannel>::MIN, <u32 as ColorChannel>::MAX), (0, 255));
    assert_eq!((<u64 as ColorChannel>::MIN, <u64 as ColorChannel>::MAX), (0, 255));
    assert_eq!((<i16 as ColorChannel>::MIN, <i16 as ColorChannel>::MAX), (0, 255));
    assert_eq!((<i32 as ColorChannel>::MIN, <i32 as ColorChannel>::MAX), (0, 255));
    assert_eq!((<i64 as ColorChannel>::MIN, <i64 as ColorChannel>::MAX), (0, 255));
}

#[test]
fn range_tests_of_wide_types() {
    assert!(!255u16.is_above_max());
    assert!(256u16.is_above_max());
    assert!(!0i16.is_below_min());
    assert!((-1i16).is_below_min());
    assert!(!i16::MIN.is_above_max());
    assert!(i64::MAX.is_above_max());
    assert!(!0u8.is_below_min());
    assert!(!255u8.is_above_max());
}

#[test]
fn levels_of_integer_channels() {
    for level in 0..=255u8 {
        assert_eq!(i16::from_byte(level).to_byte(), level);
        assert_eq!(u64::from_byte(level), u64::from(level));
        assert_eq!(i32::from_byte(level), i32::from(level));
    }
    assert_eq!(u16::from_byte(0), <u16 as ColorChannel>::MIN);
    assert_eq!(u16::from_byte(255), <u16 as ColorChannel>::MAX);
}

#[test]
fn primary_table() {
    let table = [
        (PrimaryColor::Black, 0, 0, 0),
        (PrimaryColor::White, 255, 255, 255),
        (PrimaryColor::Red, 255, 0, 0),
        (PrimaryColor::Green, 0, 255, 0),
        (PrimaryColor::Blue, 0, 0, 255),
        (PrimaryColor::Yellow, 255, 255, 0),
        (PrimaryColor::Magenta, 255, 0, 255),
        (PrimaryColor::Cyan, 0, 255, 255),
    ];
    for (color, red, green, blue) in table {
        assert_eq!(RGB::<u16>::primary(color), RGB { red, green, blue });
        assert_eq!(
            RGBA::<i64>::primary(color),
            RGBA {
                red: i64::from(red),
                green: i64::from(green),
                blue: i64::from(blue),
                alpha: 255,
            }
        );
    }
}

#[test]
fn display_of_integer_colors() {
    let red = RGBA::<u8>::try_new(255, 0, 0, 255).unwrap();
    assert_eq!(red.to_string(), "RGBA(255, 0, 0, 255)");
    let color = RGB::<u16>::try_new(1, 20, 255).unwrap();
    assert_eq!(color.to_string(), "RGB(1, 20, 255)");
    let odd = RGB::<i64> {
        red: i64::MIN,
        green: -7,
        blue: i64::MAX,
    };
    assert_eq!(
        odd.to_string(),
        "RGB(-9223372036854775808, -7, 9223372036854775807)"
    );
    let wide = RGBA::<u64> {
        red: u64::MAX,
        green: 10,
        blue: 100,
        alpha: 1000,
    };
    assert_eq!(wide.to_string(), "RGBA(18446744073709551615, 10, 100, 1000)");
}

#[test]
fn channel_display_is_decimal() {
    assert_eq!(0u8.channel_display(), "0");
    assert_eq!(255u8.channel_display(), "255");
    assert_eq!((-32768i16).channel_display(), "-32768");
    assert_eq!(4294967295u32.channel_display(), "4294967295");
    assert_eq!((-2147483648i32).channel_display(), "-2147483648");
}

#[test]
fn error_messages() {
    assert_eq!(
        ColorError::OutsideBoundsNegative.to_string(),
        "Value out of bounds: negative"
    );
    assert_eq!(
        ColorError::OutsideBoundsHigh.to_string(),
        "Value out of bounds: too high"
    );
    assert_eq!(
        ColorError::TruncatedHexString.to_string(),
        "Hex string is truncated"
    );
    assert_eq!(
        ColorError::HexStringOverflow.to_string(),
        "Extra characters in hex string"
    );
    assert_eq!(
        ColorError::InvalidHexCharacter.to_string(),
        "Invalid character in hex string"
    );
}
