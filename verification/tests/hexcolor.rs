use rgba_simple::{
    Channel, ColorChannel, ColorError, HexColor, Primary, PrimaryColor, ReducedRGBA, Text, RGBA,
};

/// A channel of single precision, from 0.0 to 1.0.
#[derive(Clone, Copy, Debug, PartialEq)]
struct Unit(f32);

impl ColorChannel for Unit {
    const MAX: Self = Unit(1.0);
    const MIN: Self = Unit(0.0);

    fn highest() -> Self {
        Self::MAX
    }

    fn lowest() -> Self {
        Self::MIN
    }

    fn below_min(self) -> bool {
        self.0 < 0.0
    }

    fn above_max(self) -> bool {
        self.0 > 1.0
    }

    fn level(self) -> u8 {
        (self.0 * 255.0).round() as u8
    }

    fn of_level(level: u8) -> Self {
        Unit(f32::from(level) / 255.0)
    }

    fn is_below_min(&self) -> bool {
        self.0 < 0.0
    }

    fn is_above_max(&self) -> bool {
        self.0 > 1.0
    }

    fn to_byte(&self) -> u8 {
        (self.0 * 255.0).round() as u8
    }

    fn from_byte(b: u8) -> Self {
        Unit(f32::from(b) / 255.0)
    }

    fn limits_are_within_bounds() {}

    fn levels_are_kept(_level: u8) {}
}

impl Channel for Unit {
    fn display_text(self) -> Text {
        unreachable!()
    }

    fn channel_display(&self) -> String {
        format!("{:.3}", self.0)
    }
}

#[test]
fn hexcolor_black() {
    let k = HexColor::primary(PrimaryColor::Black);
    assert_eq!(
        k,
        HexColor {
            color: String::from("#000000"),
            alpha: Unit(1.0),
        }
    );
}

#[test]
fn hexcolor_white() {
    let w = HexColor::primary(PrimaryColor::White);
    assert_eq!(
        w,
        HexColor {
            color: String::from("#ffffff"),
            alpha: Unit(1.0),
        }
    );
}

#[test]
fn hexcolor_red() {
    let red = HexColor::primary(PrimaryColor::Red);
    assert_eq!(
        red,
        HexColor {
            color: String::from("#ff0000"),
            alpha: Unit(1.0),
        }
    );
}

#[test]
fn hexcolor_green() {
    let grn = HexColor::primary(PrimaryColor::Green);
    assert_eq!(
        grn,
        HexColor {
            color: String::from("#00ff00"),
            alpha: Unit(1.0),
        }
    );
}

#[test]
fn hexcolor_blue() {
    let blue = HexColor::primary(PrimaryColor::Blue);
    assert_eq!(
        blue,
        HexColor {
            color: String::from("#0000ff"),
            alpha: Unit(1.0),
        }
    );
}

#[test]
fn hexcolor_yellow() {
    let yel = HexColor::primary(PrimaryColor::Yellow);
    assert_eq!(
        yel,
        HexColor {
            color: String::from("#ffff00"),
            alpha: Unit(1.0),
        }
    );
}

#[test]
fn hexcolor_magenta() {
    let mag = HexColor::primary(PrimaryColor::Magenta);
    assert_eq!(
        mag,
        HexColor {
            color: String::from("#ff00ff"),
            alpha: Unit(1.0),
        }
    );
}

#[test]
fn hexcolor_cyan() {
    let c = HexColor::primary(PrimaryColor::Cyan);
    assert_eq!(
        c,
        HexColor {
            color: String::from("#00ffff"),
            alpha: Unit(1.0),
        }
    );
}

#[test]
fn hexcolor_to_string() {
    let red = HexColor::<Unit>::primary(PrimaryColor::Red).to_string();
    assert_eq!(red, "color: #ff0000, alpha: 1.000");
}

#[test]
fn hexcolor_to_hex() {
    let foo = HexColor::<Unit>::primary(PrimaryColor::Blue);
    let bar = foo.to_hex();
    assert_eq!(bar, Ok(HexColor::primary(PrimaryColor::Blue)));
}

#[test]
fn to_hex_invalid() {
    let foo = HexColor {
        color: String::from("#ggffee"),
        alpha: Unit(1.0),
    };
    let bar = foo.to_hex();
    assert_eq!(bar, Err(ColorError::InvalidHexCharacter));
}

#[test]
fn hexcolor_to_hex_negative() {
    let foo = HexColor {
        color: String::from("#343434"),
        alpha: Unit(-0.5),
    };
    let bar = foo.to_hex();
    assert_eq!(bar, Err(ColorError::OutsideBoundsNegative));
}

#[test]
fn hexcolor_to_hex_high() {
    let foo = HexColor {
        color: String::from("#343434"),
        alpha: Unit(1.1),
    };
    let bar = foo.to_hex();
    assert_eq!(bar, Err(ColorError::OutsideBoundsHigh));
}

#[test]
fn hexcolor_to_rgba() {
    let foo = HexColor::<Unit>::primary(PrimaryColor::Green);
    let bar = foo.to_rgba();
    assert_eq!(bar, Ok(RGBA::primary(PrimaryColor::Green)));
}

#[test]
fn to_rgba_invalid() {
    let foo = HexColor {
        color: String::from("#00fpee"),
        alpha: Unit(1.0),
    };
    let bar = foo.to_rgba();
    assert_eq!(bar, Err(ColorError::InvalidHexCharacter));
}

#[test]
fn hexcolor_to_rgba_negative() {
    let foo = HexColor {
        color: String::from("#343434"),
        alpha: Unit(-0.5),
    };
    let bar = foo.to_rgba();
    assert_eq!(bar, Err(ColorError::OutsideBoundsNegative));
}

#[test]
fn hexcolor_to_rgba_high() {
    let foo = HexColor {
        color: String::from("#343434"),
        alpha: Unit(1.1),
    };
    let bar = foo.to_rgba();
    assert_eq!(bar, Err(ColorError::OutsideBoundsHigh));
}

#[test]
fn to_reduced() {
    let red_hex = HexColor::<Unit>::primary(PrimaryColor::Red);
    let red = red_hex.to_reduced_rgba();
    assert_eq!(red, Ok(ReducedRGBA::primary(PrimaryColor::Red)));
}

#[test]
fn to_reduced_invalid() {
    let foo = HexColor {
        color: String::from("#ggffee"),
        alpha: Unit(1.0),
    };
    let bar = foo.to_reduced_rgba();
    assert_eq!(bar, Err(ColorError::InvalidHexCharacter));
}

#[test]
fn hexcolor_to_reduced_negative() {
    let foo = HexColor {
        color: String::from("#343434"),
        alpha: Unit(-0.5),
    };
    let bar = foo.to_reduced_rgba();
    assert_eq!(bar, Err(ColorError::OutsideBoundsNegative));
}

#[test]
fn hexcolor_to_reduced_high() {
    let foo = HexColor {
        color: String::from("#343434"),
        alpha: Unit(1.1),
    };
    let bar = foo.to_reduced_rgba();
    assert_eq!(bar, Err(ColorError::OutsideBoundsHigh));
}

#[test]
fn hexcolor_red_end_to_end() {
    let red = HexColor {
        color: String::from("#ff0000"),
        alpha: Unit(1.0),
    };
    assert_eq!(
        red.to_reduced_rgba(),
        Ok(ReducedRGBA {
            red: 255,
            green: 0,
            blue: 0,
            alpha: 255,
        })
    );
    assert_eq!(
        red.to_rgba(),
        Ok(RGBA {
            red: Unit(1.0),
            green: Unit(0.0),
            blue: Unit(0.0),
            alpha: Unit(1.0),
        })
    );
}

#[test]
fn hexcolor_validate_looks_at_alpha_first() {
    let foo = HexColor {
        color: String::from("#ggg"),
        alpha: Unit(-0.5),
    };
    assert_eq!(foo.validate(), Err(ColorError::OutsideBoundsNegative));
    let foo = HexColor {
        color: String::from("#ggg"),
        alpha: Unit(0.5),
    };
    assert_eq!(foo.validate(), Err(ColorError::TruncatedHexString));
    let foo = HexColor {
        color: String::from("#3434345"),
        alpha: Unit(0.5),
    };
    assert_eq!(foo.validate(), Err(ColorError::HexStringOverflow));
    let foo = HexColor {
        color: String::from("3434345"),
        alpha: Unit(0.5),
    };
    assert_eq!(foo.validate(), Err(ColorError::InvalidHexCharacter));
    let foo = HexColor {
        color: String::from("#34343G"),
        alpha: Unit(0.0),
    };
    assert_eq!(foo.validate(), Err(ColorError::InvalidHexCharacter));
    let foo = HexColor {
        color: String::from("#AbCdEf"),
        alpha: Unit(0.0),
    };
    assert_eq!(foo.validate(), Ok(()));
}

#[test]
fn hexcolor_primary_round_trip() {
    let all = [
        PrimaryColor::Black,
        PrimaryColor::White,
        PrimaryColor::Red,
        PrimaryColor::Green,
        PrimaryColor::Blue,
        PrimaryColor::Yellow,
        PrimaryColor::Magenta,
        PrimaryColor::Cyan,
    ];
    for color in all {
        let hex = HexColor::<Unit>::primary(color);
        let back: HexColor<Unit> = hex.to_reduced_rgba().unwrap().to_hex().unwrap();
        assert_eq!(back.color, hex.color);
        assert_eq!(back.alpha.0.to_bits(), hex.alpha.0.to_bits());
        assert_eq!(hex.to_reduced_rgba(), Ok(ReducedRGBA::primary(color)));
    }
}

#[test]
fn hexcolor_half_opacity_to_reduced() {
    let grey = HexColor {
        color: String::from("#7f8081"),
        alpha: Unit(0.5),
    };
    assert_eq!(
        grey.to_reduced_rgba(),
        Ok(ReducedRGBA {
            red: 0x7f,
            green: 0x80,
            blue: 0x81,
            alpha: 128,
        })
    );
}

#[test]
fn hexcolor_with_byte_opacity() {
    let red = HexColor::<u8>::primary(PrimaryColor::Red);
    assert_eq!(red.alpha, 255);
    assert_eq!(red.to_string(), "color: #ff0000, alpha: 255");
    assert_eq!(red.to_rgba(), Ok(RGBA::<u8>::primary(PrimaryColor::Red)));
}
