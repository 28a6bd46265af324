use tacky_borders::colors::{
    can_slice, get_accent_color, get_color_from_hex, parse_hex, read_color, BrushColor, BrushNotCreated,
    ColorBrush, ColorBrushConfig, GradientBrushConfig, GradientCoordinates, GradientDirection,
    InvalidHex,
};
use tacky_borders::float_bits::FloatBits;

fn channels(r: u8, g: u8, b: u8, a: u8) -> BrushColor {
    BrushColor::Channels { r, g, b, a }
}

fn bits(value: f32) -> FloatBits {
    FloatBits { bits: value.to_bits() }
}

fn gradient(colors: &[&str], direction: GradientDirection) -> ColorBrushConfig {
    ColorBrushConfig::Gradient(GradientBrushConfig {
        colors: colors.iter().map(|color| color.to_string()).collect(),
        direction,
    })
}

#[test]
fn test_color_parser_translucent() {
    let color_brush_config = ColorBrushConfig::Solid("#ffffff80".to_string());
    let color_brush: ColorBrush<()> = color_brush_config.to_color_brush(true, 0, None);

    if let ColorBrush::Solid(ref solid) = color_brush {
        if let BrushColor::Channels { r, g, b, a } = solid.color {
            assert!(r as f32 / 255.0 == 1.0);
            assert!(g as f32 / 255.0 == 1.0);
            assert!(b as f32 / 255.0 == 1.0);
            assert!(a as f32 / 255.0 == 128.0 / 255.0);
        } else {
            panic!("created incorrect color");
        }
    } else {
        panic!("created incorrect color brush");
    }
}

#[test]
fn short_colors_count_their_digits_twice() {
    assert_eq!(parse_hex("f80"), Ok(channels(0xff, 0x88, 0x00, 0xff)));
    assert_eq!(parse_hex("ff8800"), parse_hex("f80"));
    assert_eq!(parse_hex("F80c"), Ok(channels(0xff, 0x88, 0x00, 0xcc)));
    assert_eq!(parse_hex("ff8800cc"), parse_hex("F80c"));
}

#[test]
fn colors_without_alpha_are_opaque() {
    assert_eq!(parse_hex("123456"), parse_hex("123456ff"));
    assert_eq!(parse_hex("123"), parse_hex("123f"));
    assert_eq!(parse_hex("123456"), Ok(channels(0x12, 0x34, 0x56, 0xff)));
}

#[test]
fn colors_of_other_lengths_or_letters_are_refused() {
    assert!(parse_hex("").is_err());
    assert!(parse_hex("ff").is_err());
    assert!(parse_hex("fffff").is_err());
    assert!(parse_hex("fffffffff").is_err());
    assert!(parse_hex("ggg").is_err());
    assert!(parse_hex("12345g").is_err());
    assert!(parse_hex("1é3").is_err());
}

#[test]
fn a_plus_sign_counts_as_zero_in_a_pair_only() {
    assert_eq!(parse_hex("+12345"), Ok(channels(0x01, 0x23, 0x45, 0xff)));
    assert!(parse_hex("+12").is_err());
    assert!(parse_hex("1+2345").is_err());
}

#[test]
fn texts_that_begin_inside_a_character_cannot_be_cut() {
    assert!(can_slice(""));
    assert!(can_slice("fff"));
    assert!(can_slice("1é"));
    assert!(can_slice("é123"));
    assert!(!can_slice("é1"));
    assert!(!can_slice("é12"));
    assert!(!can_slice("é1234"));
}

#[test]
fn unreadable_colors_are_clear() {
    assert_eq!(get_color_from_hex("#102030"), channels(16, 32, 48, 255));
    assert_eq!(get_color_from_hex("102030"), channels(0, 0, 0, 0));
    assert_eq!(get_color_from_hex("#zzz"), channels(0, 0, 0, 0));
    assert_eq!(get_color_from_hex(""), channels(0, 0, 0, 0));
}

#[test]
fn the_accent_color_is_taken_apart() {
    assert_eq!(get_accent_color(0xC412_3456, true), channels(0x12, 0x34, 0x56, 255));
    assert_eq!(
        get_accent_color(0xC412_3456, false),
        BrushColor::InactiveAccent { r: 0x12, g: 0x34, b: 0x56 }
    );
}

#[test]
fn the_default_color_is_the_accent_color() {
    let brush: ColorBrush<()> = ColorBrushConfig::default().to_color_brush(true, 0x00AA_BBCC, None);
    match brush {
        ColorBrush::Solid(solid) => {
            assert_eq!(solid.color, channels(0xaa, 0xbb, 0xcc, 255));
            assert!(solid.brush.is_none());
        }
        ColorBrush::Gradient(_) => panic!("a single colour was asked for"),
    }
}

#[test]
fn gradients_keep_their_points_and_the_order_of_colors() {
    let points = GradientCoordinates {
        start: [bits(0.0), bits(0.5)],
        end: [bits(1.0), bits(0.5)],
    };
    let config = gradient(
        &["#000", "accent", "#fff"],
        GradientDirection::Coordinates(points),
    );
    assert!(config.can_paint());
    let brush: ColorBrush<u8> = config.to_color_brush(true, 0x0001_0203, None);
    match brush {
        ColorBrush::Gradient(made) => {
            assert_eq!(
                made.gradient_stops,
                vec![channels(0, 0, 0, 255), channels(1, 2, 3, 255), channels(255, 255, 255, 255)]
            );
            assert_eq!(made.direction.start[1].bits, 0.5f32.to_bits());
            assert_eq!(made.direction.end[0].bits, 1.0f32.to_bits());
            assert!(made.brush.is_none());
        }
        ColorBrush::Solid(_) => panic!("a gradient was asked for"),
    }
}

#[test]
fn angles_take_the_points_that_were_found_for_them() {
    let config = gradient(&["#fff", "#000"], GradientDirection::Angle(" 45 deg".to_string()));
    assert_eq!(config.angle_text(), Some(" 45 ".to_string()));
    let points = GradientCoordinates {
        start: [bits(0.0), bits(1.0)],
        end: [bits(1.0), bits(0.0)],
    };
    let brush: ColorBrush<u8> = config.to_color_brush(false, 0, Some(points));
    assert!(matches!(brush, ColorBrush::Gradient(_)));
}

#[test]
fn angles_that_are_no_numbers_give_a_clear_brush() {
    let no_unit = gradient(&["#fff", "#000"], GradientDirection::Angle("45".to_string()));
    assert_eq!(no_unit.angle_text(), None);
    let points = GradientCoordinates {
        start: [bits(0.0), bits(1.0)],
        end: [bits(1.0), bits(0.0)],
    };
    let brush: ColorBrush<u8> = no_unit.to_color_brush(false, 0, Some(points));
    match brush {
        ColorBrush::Solid(solid) => assert_eq!(solid.color, channels(0, 0, 0, 0)),
        ColorBrush::Gradient(_) => panic!("the direction cannot be read"),
    }

    let no_number = gradient(&["#fff", "#000"], GradientDirection::Angle("upwardsdeg".to_string()));
    assert_eq!(no_number.angle_text(), Some("upwards".to_string()));
    let brush: ColorBrush<u8> = no_number.to_color_brush(false, 0, None);
    assert!(matches!(brush, ColorBrush::Solid(_)));
}

#[test]
fn gradients_need_a_color_and_readable_names() {
    let angle = GradientDirection::Angle("0deg".to_string());
    assert!(!gradient(&[], angle.clone()).can_paint());
    assert!(gradient(&["nonsense"], angle.clone()).can_paint());
    assert!(!gradient(&["#fff", "#é1"], angle).can_paint());
    assert!(!ColorBrushConfig::Solid("#é12".to_string()).can_paint());
}

#[test]
fn brushes_keep_what_the_renderer_made() {
    let mut brush: ColorBrush<u8> = ColorBrush::default();
    assert!(brush.get_brush().is_none());
    assert_eq!(brush.created_brush(), Err(BrushNotCreated));
    brush.init_brush(7);
    assert_eq!(brush.get_brush(), Some(&7));
    assert_eq!(brush.created_brush(), Ok(&7));
    assert_eq!(brush.take_brush(), Some(7));
    assert_eq!(brush.take_brush(), None);
}

#[test]
fn capital_letters_are_digits_too() {
    assert_eq!(parse_hex("ABCDEF"), parse_hex("abcdef"));
    assert_eq!(parse_hex("aBcD"), Ok(channels(0xaa, 0xbb, 0xcc, 0xdd)));
}

#[test]
fn unreadable_colors_say_what_they_are() {
    let error = parse_hex("ggg").unwrap_err();
    assert_eq!(error, InvalidHex { hex: "ggg".to_string() });
    assert_eq!(error.message(), "invalid hex: ggg");
    assert_eq!(read_color("#12345").unwrap_err().message(), "invalid hex: 12345");
    assert_eq!(read_color("blue").unwrap_err().message(), "invalid hex: ");
    assert_eq!(read_color("#123"), parse_hex("123"));
    assert_eq!(BrushNotCreated.message(), "brush has not been created yet");
}

#[test]
fn all_unreadable_colors_of_a_brush_are_listed() {
    let texts = |config: &ColorBrushConfig| -> Vec<String> {
        config.color_errors().into_iter().map(|error| error.hex).collect()
    };
    let angle = GradientDirection::Angle("0deg".to_string());
    assert_eq!(
        texts(&gradient(&["#zz", "accent", "#fff", "red", "#12345"], angle.clone())),
        vec!["zz".to_string(), String::new(), "12345".to_string()]
    );
    assert!(texts(&gradient(&["#fff", "accent"], angle)).is_empty());
    assert_eq!(texts(&ColorBrushConfig::Solid("#zz".to_string())), vec!["zz".to_string()]);
    assert!(texts(&ColorBrushConfig::default()).is_empty());
}
