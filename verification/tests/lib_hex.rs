use rgba_simple::{ColorChannel, ColorError, Hex, Primary, PrimaryColor, Text, RGB, RGBA};

/// A channel of double precision, from 0.0 to 1.0.
#[derive(Clone, Copy, Debug, PartialEq)]
struct Double(f64);

impl ColorChannel for Double {
    const MAX: Self = Double(1.0);
    const MIN: Self = Double(0.0);

    fn highest() -> Self {
        Self::MAX
    }

    fn lowest() -> Self {
        Self::MIN
    }

    fn below_min(self) -> bool {
        self.0 < 0.0
    }

    fn above_max(self) -> bool {
        self.0 > 1.0
    }

    fn level(self) -> u8 {
        (self.0 * 255.0).round() as u8
    }

    fn of_level(level: u8) -> Self {
        Double(f64::from(level) / 255.0)
    }

    fn is_below_min(&self) -> bool {
        self.0 < 0.0
    }

    fn is_above_max(&self) -> bool {
        self.0 > 1.0
    }

    fn to_byte(&self) -> u8 {
        (self.0 * 255.0).round() as u8
    }

    fn from_byte(b: u8) -> Self {
        Double(f64::from(b) / 255.0)
    }

    fn limits_are_within_bounds() {}

    fn levels_are_kept(_level: u8) {}
}

impl Hex for Double {
    type Err = ColorError;

    fn hex_text(&self) -> Text {
        unreachable!()
    }

    fn hex_value(_text: Text) -> Option<Self> {
        unreachable!()
    }

    fn to_hex(&self) -> String {
        self.to_byte().to_hex()
    }

    fn from_hex(hex: &str) -> Result<Self, Self::Err> {
        match u8::from_hex(hex) {
            Ok(c) => Ok(Double::from_byte(c)),
            Err(_) => Err(ColorError::InvalidHexCharacter),
        }
    }
}

#[test]
fn from_hex() {
    let red_hex = String::from("#ff0000");
    let red: RGB<u8> = PrimaryColor::Red.into();
    assert_eq!(red, RGB::<u8>::from_hex(&red_hex).unwrap());
}

#[test]
fn lib_to_hex() {
    let blue_hex = String::from("#0000ff");
    let blue: RGB<u8> = PrimaryColor::Blue.into();
    assert_eq!(blue.to_hex(), blue_hex);
}

#[test]
fn from_hex_float() {
    let red_hex = String::from("#ff0000");
    let red: RGBA<Double> = RGBA::from(PrimaryColor::Red);
    assert_eq!(red, RGBA::<Double>::from_hex(&red_hex).unwrap());
}

#[test]
fn to_hex_float() {
    let blue_hex = String::from("#0000ff");
    let blue: RGB<Double> = RGB::from(PrimaryColor::Blue);
    assert_eq!(blue.to_hex(), blue_hex);
}

#[test]
fn from_agrees_with_primary() {
    let all = [
        PrimaryColor::Black,
        PrimaryColor::White,
        PrimaryColor::Red,
        PrimaryColor::Green,
        PrimaryColor::Blue,
        PrimaryColor::Yellow,
        PrimaryColor::Magenta,
        PrimaryColor::Cyan,
    ];
    for color in all {
        assert_eq!(RGB::<i32>::from(color), RGB::<i32>::primary(color));
        assert_eq!(RGBA::<u64>::from(color), RGBA::<u64>::primary(color));
        assert_eq!(RGBA::<Double>::from(color), RGBA::<Double>::primary(color));
    }
}

#[test]
fn rgba_hex_string_leaves_alpha_out() {
    let color = RGBA::<u8>::try_new(1, 2, 3, 4).unwrap();
    assert_eq!(Hex::to_hex(&color), "#010203");
    assert_eq!(
        RGBA::<u8>::from_hex("#010203"),
        Ok(RGBA {
            red: 1,
            green: 2,
            blue: 3,
            alpha: 255,
        })
    );
}

#[test]
fn hex_round_trip_of_every_byte() {
    for v in 0..=255u8 {
        let color = RGB::<u8> {
            red: v,
            green: 255 - v,
            blue: v ^ 0x5a,
        };
        let text = color.to_hex();
        assert_eq!(text.len(), 7);
        assert_eq!(RGB::<u8>::from_hex(&text), Ok(color));
        assert_eq!(
            rgba_simple::parse_hex(&text),
            Ok((color.red, color.green, color.blue))
        );
    }
}
