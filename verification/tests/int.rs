use rgba_simple::{ColorChannel, ColorError, HexColor, Primary, PrimaryColor, ReducedRGBA, RGBA};

/// A channel of single precision, from 0.0 to 1.0.
#[derive(Clone, Copy, Debug, PartialEq)]
struct Unit(f32);

impl ColorChannel for Unit {
    const MAX: Self = Unit(1.0);
    const MIN: Self = Unit(0.0);

    fn highest() -> Self {
        Self::MAX
    }

    fn lowest() -> Self {
        Self::MIN
    }

    fn below_min(self) -> bool {
        self.0 < 0.0
    }

    fn above_max(self) -> bool {
        self.0 > 1.0
    }

    fn level(self) -> u8 {
        (self.0 * 255.0).round() as u8
    }

    fn of_level(level: u8) -> Self {
        Unit(f32::from(level) / 255.0)
    }

    fn is_below_min(&self) -> bool {
        self.0 < 0.0
    }

    fn is_above_max(&self) -> bool {
        self.0 > 1.0
    }

    fn to_byte(&self) -> u8 {
        (self.0 * 255.0).round() as u8
    }

    fn from_byte(b: u8) -> Self {
        Unit(f32::from(b) / 255.0)
    }

    fn limits_are_within_bounds() {}

    fn levels_are_kept(_level: u8) {}
}

#[test]
fn int_black() {
    let k = ReducedRGBA::primary(PrimaryColor::Black);
    assert_eq!(
        k,
        ReducedRGBA {
            red: 0,
            green: 0,
            blue: 0,
            alpha: 255,
        }
    );
}

#[test]
fn int_white() {
    let w = ReducedRGBA::primary(PrimaryColor::White);
    assert_eq!(
        w,
        ReducedRGBA {
            red: 255,
            green: 255,
            blue: 255,
            alpha: 255,
        }
    );
}

#[test]
fn int_red() {
    let red = ReducedRGBA::primary(PrimaryColor::Red);
    assert_eq!(
        red,
        ReducedRGBA {
            red: 255,
            green: 0,
            blue: 0,
            alpha: 255,
        }
    );
}

#[test]
fn int_green() {
    let grn = ReducedRGBA::primary(PrimaryColor::Green);
    assert_eq!(
        grn,
        ReducedRGBA {
            red: 0,
            green: 255,
            blue: 0,
            alpha: 255,
        }
    );
}

#[test]
fn int_blue() {
    let blue = ReducedRGBA::primary(PrimaryColor::Blue);
    assert_eq!(
        blue,
        ReducedRGBA {
            red: 0,
            green: 0,
            blue: 255,
            alpha: 255,
        }
    );
}

#[test]
fn int_yellow() {
    let yel = ReducedRGBA::primary(PrimaryColor::Yellow);
    assert_eq!(
        yel,
        ReducedRGBA {
            red: 255,
            green: 255,
            blue: 0,
            alpha: 255,
        }
    );
}

#[test]
fn int_magenta() {
    let mag = ReducedRGBA::primary(PrimaryColor::Magenta);
    assert_eq!(
        mag,
        ReducedRGBA {
            red: 255,
            green: 0,
            blue: 255,
            alpha: 255,
        }
    );
}

#[test]
fn int_cyan() {
    let c = ReducedRGBA::primary(PrimaryColor::Cyan);
    assert_eq!(
        c,
        ReducedRGBA {
            red: 0,
            green: 255,
            blue: 255,
            alpha: 255,
        }
    );
}

#[test]
fn int_to_string() {
    let blk = ReducedRGBA::primary(PrimaryColor::Black).to_string();
    assert_eq!(blk, "RGBA(0, 0, 0, 255)");
}

#[test]
fn int_to_reduced_rgba() {
    let red = ReducedRGBA::primary(PrimaryColor::Red);
    assert_eq!(red, red.to_reduced_rgba().unwrap());
}

#[test]
fn int_to_hex() {
    let red = ReducedRGBA::primary(PrimaryColor::Red);
    let red_hex: HexColor<Unit> = red.to_hex().unwrap();
    assert_eq!(red_hex.color, String::from("#ff0000"));
    assert_eq!(red_hex.alpha.0, 1.0);
}

#[test]
fn int_to_rgba() {
    let red = ReducedRGBA::primary(PrimaryColor::Red).to_rgba::<Unit>();
    assert_eq!(red, Ok(RGBA::primary(PrimaryColor::Red)));
}

#[test]
fn int_wide_channels_to_reduced() {
    let wide = RGBA::<i64>::try_new(255, 0, 17, 128).unwrap();
    assert_eq!(
        wide.to_reduced_rgba(),
        Ok(ReducedRGBA {
            red: 255,
            green: 0,
            blue: 17,
            alpha: 128,
        })
    );
    let back: RGBA<u16> = wide.to_reduced_rgba().unwrap().to_rgba().unwrap();
    assert_eq!(
        back,
        RGBA {
            red: 255,
            green: 0,
            blue: 17,
            alpha: 128,
        }
    );
}

#[test]
fn int_wide_channels_out_of_range_do_not_convert() {
    let high = RGBA::<u32> {
        red: 0,
        green: 256,
        blue: 0,
        alpha: 255,
    };
    assert_eq!(high.to_reduced_rgba(), Err(ColorError::OutsideBoundsHigh));
    assert_eq!(
        high.to_hex::<u32>(),
        Err(ColorError::OutsideBoundsHigh)
    );
    assert_eq!(high.to_rgba(), Err(ColorError::OutsideBoundsHigh));
    let low = RGBA::<i32> {
        red: 0,
        green: 300,
        blue: -1,
        alpha: 255,
    };
    assert_eq!(low.to_reduced_rgba(), Err(ColorError::OutsideBoundsHigh));
    let low = RGBA::<i32> {
        red: -1,
        green: 300,
        blue: 0,
        alpha: 255,
    };
    assert_eq!(low.to_reduced_rgba(), Err(ColorError::OutsideBoundsNegative));
}

#[test]
fn int_to_hex_scales_alpha() {
    let color = RGBA::<u16>::try_new(18, 52, 171, 51).unwrap();
    let hex: HexColor<Unit> = color.to_hex().unwrap();
    assert_eq!(hex.color, "#1234ab");
    assert_eq!(hex.alpha.0, 0.2);
    let hex: HexColor<i64> = color.to_hex().unwrap();
    assert_eq!(hex.color, "#1234ab");
    assert_eq!(hex.alpha, 51);
    let opaque = RGBA::<i32>::try_new(0, 0, 0, 255).unwrap();
    let hex: HexColor<Unit> = opaque.to_hex().unwrap();
    assert_eq!(hex.alpha.0, 1.0);
}
