//! Laws about colours.
use crate::colors::{
    accent_color, after_number_sign, clear_color, color_from_hex, has_stops, hex_color, hex_value,
    invalid_names, is_readable_name, is_sliceable, named_color, BrushColor, ColorBrush,
    ColorBrushConfig, GradientBrush, GradientBrushConfig, GradientCoordinates, GradientDirection,
    SolidBrush,
};
use vstd::prelude::*;

verus! {

/// The sixteen digits, counted out.
pub open spec fn lower_digits() -> Seq<char> {
    seq!['0', '1', '2', '3', '4', '5', '6', '7', '8', '9', 'a', 'b', 'c', 'd', 'e', 'f']
}

/// The sixteen digits with capital letters, counted out.
pub open spec fn upper_digits() -> Seq<char> {
    seq!['0', '1', '2', '3', '4', '5', '6', '7', '8', '9', 'A', 'B', 'C', 'D', 'E', 'F']
}

/// Whether a character is one of the digits.
pub open spec fn is_digit(c: char) -> bool {
    lower_digits().contains(c) || upper_digits().contains(c)
}

/// A number up to 255 in base sixteen, with two digits.
pub open spec fn numeral(n: u8) -> Seq<char> {
    seq![lower_digits()[n as int / 16], lower_digits()[n as int % 16]]
}

/// The digits have the values 0 to 15, in the order in which they are counted out.
pub proof fn digits_count_from_zero(n: int)
    requires
        0 <= n < 16,
    ensures
        hex_value(lower_digits()[n]) == Some(n as u8),
        hex_value(upper_digits()[n]) == Some(n as u8),
{
}

/// Nothing but the digits has a value.
pub proof fn only_digits_have_a_value(c: char)
    ensures
        hex_value(c) is Some <==> is_digit(c),
{
    if is_digit(c) {
        if lower_digits().contains(c) {
            let i = choose|i: int| 0 <= i < lower_digits().len() && lower_digits()[i] == c;
            digits_count_from_zero(i);
        } else {
            let i = choose|i: int| 0 <= i < upper_digits().len() && upper_digits()[i] == c;
            digits_count_from_zero(i);
        }
    }
    if '0' <= c <= '9' {
        assert(lower_digits()[c as u32 - '0' as u32] == c);
    }
    if 'a' <= c <= 'f' {
        assert(lower_digits()[c as u32 - 'a' as u32 + 10] == c);
    }
    if 'A' <= c <= 'F' {
        assert(upper_digits()[c as u32 - 'A' as u32 + 10] == c);
    }
}

proof fn lemma_numeral_digits(n: u8)
    ensures
        hex_value(numeral(n)[0]) == Some((n / 16) as u8),
        hex_value(numeral(n)[1]) == Some((n % 16) as u8),
{
    digits_count_from_zero(n as int / 16);
    digits_count_from_zero(n as int % 16);
}

/// Channels written in base sixteen, two digits each, give the colour with those channels.
pub proof fn channels_are_numbers_in_base_sixteen(r: u8, g: u8, b: u8, a: u8)
    ensures
        hex_color(numeral(r) + numeral(g) + numeral(b)) == Some(
            BrushColor::Channels { r, g, b, a: 255 },
        ),
        hex_color(numeral(r) + numeral(g) + numeral(b) + numeral(a)) == Some(
            BrushColor::Channels { r, g, b, a },
        ),
{
    lemma_numeral_digits(r);
    lemma_numeral_digits(g);
    lemma_numeral_digits(b);
    lemma_numeral_digits(a);
    let short = numeral(r) + numeral(g) + numeral(b);
    let long = short + numeral(a);
    assert(short.len() == 6 && long.len() == 8);
    assert(short[0] == numeral(r)[0] && short[1] == numeral(r)[1]);
    assert(short[2] == numeral(g)[0] && short[3] == numeral(g)[1]);
    assert(short[4] == numeral(b)[0] && short[5] == numeral(b)[1]);
    assert(long[0] == numeral(r)[0] && long[1] == numeral(r)[1]);
    assert(long[2] == numeral(g)[0] && long[3] == numeral(g)[1]);
    assert(long[4] == numeral(b)[0] && long[5] == numeral(b)[1]);
    assert(long[6] == numeral(a)[0] && long[7] == numeral(a)[1]);
}

/// Channels written with one digit each count as that digit written twice.
pub proof fn short_channels_repeat_their_digit(r: int, g: int, b: int, a: int)
    requires
        0 <= r < 16,
        0 <= g < 16,
        0 <= b < 16,
        0 <= a < 16,
    ensures
        hex_color(seq![lower_digits()[r], lower_digits()[g], lower_digits()[b]]) == Some(
            BrushColor::Channels {
                r: (r * 16 + r) as u8,
                g: (g * 16 + g) as u8,
                b: (b * 16 + b) as u8,
                a: 255,
            },
        ),
        hex_color(
            seq![lower_digits()[r], lower_digits()[g], lower_digits()[b], lower_digits()[a]],
        ) == Some(
            BrushColor::Channels {
                r: (r * 16 + r) as u8,
                g: (g * 16 + g) as u8,
                b: (b * 16 + b) as u8,
                a: (a * 16 + a) as u8,
            },
        ),
{
    digits_count_from_zero(r);
    digits_count_from_zero(g);
    digits_count_from_zero(b);
    digits_count_from_zero(a);
}

/// Every text of three, four, six or eight digits stands for a colour.
pub proof fn digits_make_a_color(s: Seq<char>)
    requires
        s.len() == 3 || s.len() == 4 || s.len() == 6 || s.len() == 8,
        forall|i: int| 0 <= i < s.len() ==> is_digit(#[trigger] s[i]),
    ensures
        hex_color(s) is Some,
{
    assert forall|i: int| 0 <= i < s.len() implies (#[trigger] hex_value(s[i])) is Some by {
        assert(is_digit(s[i]));
        only_digits_have_a_value(s[i]);
    }
    assert(hex_value(s[0]) is Some && hex_value(s[1]) is Some && hex_value(s[2]) is Some);
}

/// Nothing else stands for a colour, but for a plus sign in front of a digit that begins the first
/// pair.
pub proof fn only_digits_make_a_color(s: Seq<char>)
    requires
        hex_color(s) is Some,
    ensures
        s.len() == 3 || s.len() == 4 || s.len() == 6 || s.len() == 8,
        forall|i: int| 1 <= i < s.len() ==> is_digit(#[trigger] s[i]),
        is_digit(s[0]) || (s[0] == '+' && s.len() >= 6),
        hex_color(s)->0 is Channels,
{
    assert forall|i: int| 1 <= i < s.len() implies is_digit(#[trigger] s[i]) by {
        assert(hex_value(s[i]) is Some);
        only_digits_have_a_value(s[i]);
    }
    only_digits_have_a_value(s[0]);
}

/// A plus sign at the front counts as the digit zero.
pub proof fn plus_sign_counts_as_zero(rest: Seq<char>)
    requires
        rest.len() == 5 || rest.len() == 7,
    ensures
        hex_color(seq!['+'] + rest) == hex_color(seq!['0'] + rest),
{
    let plus = seq!['+'] + rest;
    let zero = seq!['0'] + rest;
    digits_count_from_zero(0);
    assert(forall|i: int| 1 <= i < plus.len() ==> #[trigger] plus[i] == zero[i]);
    if forall|i: int| 1 <= i < plus.len() ==> (#[trigger] hex_value(plus[i])) is Some {
        assert forall|i: int| 1 <= i < zero.len() implies (#[trigger] hex_value(zero[i])) is Some by {
            assert(hex_value(plus[i]) is Some);
        }
        assert(hex_value(plus[1]) is Some);
    } else {
        let i = choose|i: int| 1 <= i < plus.len() && (#[trigger] hex_value(plus[i])) is None;
        assert(hex_value(zero[i]) is None);
    }
}

/// A colour is written behind a number sign. Without one, or where what is behind it stands for
/// none, there is no colour: all channels are zero.
pub proof fn colors_stand_behind_a_number_sign(s: Seq<char>)
    ensures
        hex_color(s) matches Some(color) ==> color_from_hex(seq!['#'] + s) == color,
        hex_color(s) is None ==> color_from_hex(seq!['#'] + s) == (BrushColor::Channels {
            r: 0,
            g: 0,
            b: 0,
            a: 0,
        }),
        s.len() == 0 || s[0] != '#' ==> color_from_hex(s) == (BrushColor::Channels {
            r: 0,
            g: 0,
            b: 0,
            a: 0,
        }),
        after_number_sign(seq!['#'] + s) == s,
        clear_color() == (BrushColor::Channels { r: 0, g: 0, b: 0, a: 0 }),
{
    assert((seq!['#'] + s).skip(1) =~= s);
}

/// The bytes of a colorization value are alpha, red, green and blue from the top, and its alpha
/// does not count.
pub proof fn accent_channels_are_bytes(alpha: u8, r: u8, g: u8, b: u8)
    ensures
        accent_color((alpha * 0x100_0000 + r * 0x1_0000 + g * 0x100 + b) as u32, true) == (
        BrushColor::Channels { r, g, b, a: 255 }),
        accent_color((alpha * 0x100_0000 + r * 0x1_0000 + g * 0x100 + b) as u32, false) == (
        BrushColor::InactiveAccent { r, g, b }),
{
}

/// The name `accent` is the accent colour, and every other name is read as a text.
pub proof fn accent_is_a_name(name: Seq<char>, is_active_color: bool, colorization: u32)
    ensures
        named_color("accent"@, is_active_color, colorization) == accent_color(
            colorization,
            is_active_color,
        ),
        name != "accent"@ ==> named_color(name, is_active_color, colorization) == color_from_hex(
            name,
        ),
{
}

/// Every name that begins with an ASCII character, behind its number sign, can be read, and so can
/// one without a number sign.
pub proof fn ascii_names_are_readable(s: Seq<char>)
    ensures
        s.len() == 0 || (s[0] as u32) < 0x80 ==> is_readable_name(seq!['#'] + s),
        s.len() == 0 || s[0] != '#' ==> is_readable_name(s),
        is_readable_name("accent"@),
        s != "accent"@ ==> is_readable_name(s) == is_sliceable(after_number_sign(s)),
        s.len() > 0 && s[0] as u32 >= 0x80 ==> is_sliceable(s) == {
            let bytes = vstd::utf8::encode_utf8(s).len();
            !(bytes == 3 || bytes == 4 || bytes == 6 || bytes == 8)
        },
{
    colors_stand_behind_a_number_sign(s);
}

/// A brush can be made of every single colour whose name is readable, and of a gradient exactly if
/// it has a colour and all its names are readable.
pub proof fn paintable_means_readable(name: String, gradient: GradientBrushConfig)
    ensures
        ColorBrushConfig::Solid(name).is_paintable() <==> is_readable_name(name@),
        ColorBrushConfig::Gradient(gradient).is_paintable() <==> gradient.colors@.len() >= 1
            && forall|i: int|
            0 <= i < gradient.colors@.len() ==> is_readable_name((#[trigger] gradient.colors@[i])@),
{
}

/// A gradient has as many stops as colour names, in the same order.
pub proof fn stops_follow_the_names(
    stops: Seq<BrushColor>,
    names: Seq<String>,
    is_active_color: bool,
    colorization: u32,
)
    ensures
        has_stops(stops, names, is_active_color, colorization) <==> stops == Seq::new(
            names.len(),
            |i: int| named_color(names[i]@, is_active_color, colorization),
        ),
{
    let expected = Seq::new(
        names.len(),
        |i: int| named_color(names[i]@, is_active_color, colorization),
    );
    if has_stops(stops, names, is_active_color, colorization) {
        assert(stops =~= expected);
    }
}

/// An angle is a number in front of `deg`.
pub proof fn angles_end_with_their_unit(gradient: GradientBrushConfig, number: Seq<char>)
    requires
        gradient.direction is Angle,
    ensures
        ColorBrushConfig::Gradient(gradient).degrees() == Some(number)
            <==> gradient.direction->Angle_0@ == number + "deg"@,
{
    let angle = gradient.direction->Angle_0@;
    let unit = "deg"@;
    if angle == number + unit {
        assert(angle.skip(angle.len() - unit.len()) =~= unit);
        assert(angle.take(angle.len() - unit.len()) =~= number);
    }
    if ColorBrushConfig::Gradient(gradient).degrees() == Some(number) {
        assert(angle =~= angle.take(angle.len() - unit.len()) + angle.skip(
            angle.len() - unit.len(),
        ));
    }
}

/// A gradient runs between its own points, or between those of its angle. Only an angle that is a
/// number in front of `deg` has any.
pub proof fn gradients_run_between_their_points(
    gradient: GradientBrushConfig,
    angle_points: Option<GradientCoordinates>,
)
    ensures
        gradient.direction matches GradientDirection::Coordinates(own)
            ==> ColorBrushConfig::Gradient(gradient).points(angle_points) == Some(own),
        gradient.direction matches GradientDirection::Angle(angle) ==> {
            &&& (exists|number: Seq<char>| angle@ == #[trigger] (number + "deg"@))
                ==> ColorBrushConfig::Gradient(gradient).points(angle_points) == angle_points
            &&& !(exists|number: Seq<char>| angle@ == #[trigger] (number + "deg"@))
                ==> ColorBrushConfig::Gradient(gradient).points(angle_points) is None
        },
{
    if let GradientDirection::Angle(angle) = gradient.direction {
        if exists|number: Seq<char>| angle@ == #[trigger] (number + "deg"@) {
            let number = choose|number: Seq<char>| angle@ == #[trigger] (number + "deg"@);
            angles_end_with_their_unit(gradient, number);
        } else if ColorBrushConfig::Gradient(gradient).degrees() is Some {
            let number = ColorBrushConfig::Gradient(gradient).degrees()->0;
            angles_end_with_their_unit(gradient, number);
            assert(angle@ == number + "deg"@);
        }
    }
}

/// What the renderer made is kept beside the colours of a brush, and does not touch them.
pub proof fn renderer_objects_do_not_touch_colors<B>(
    color: BrushColor,
    stops: Vec<BrushColor>,
    direction: GradientCoordinates,
    before: Option<B>,
    after: Option<B>,
)
    ensures
        ColorBrush::Solid(SolidBrush { color, brush: before }).made() == before,
        ColorBrush::Solid(SolidBrush { color, brush: before }).with_made(after)
            == ColorBrush::Solid(SolidBrush { color, brush: after }),
        ColorBrush::Gradient(
            GradientBrush { gradient_stops: stops, direction, brush: before },
        ).made() == before,
        ColorBrush::Gradient(
            GradientBrush { gradient_stops: stops, direction, brush: before },
        ).with_made(after) == ColorBrush::Gradient(
            GradientBrush { gradient_stops: stops, direction, brush: after },
        ),
{
}

/// A name is complained of exactly if it is not `accent` and its text stands for no colour, and
/// complaints come in the order of the names.
pub proof fn complaints_follow_the_names(names: Seq<String>, name: String)
    ensures
        invalid_names(Seq::<String>::empty()) == Seq::<Seq<char>>::empty(),
        name@ == "accent"@ ==> invalid_names(names.push(name)) == invalid_names(names),
        hex_color(after_number_sign(name@)) is Some ==> invalid_names(names.push(name))
            == invalid_names(names),
        name@ != "accent"@ && hex_color(after_number_sign(name@)) is None ==> invalid_names(
            names.push(name),
        ) == invalid_names(names).push(after_number_sign(name@)),
{
    assert(names.push(name).drop_last() =~= names);
}

/// A single colour has one name, and a gradient those of its colours.
pub proof fn brushes_have_the_names_of_their_colors(name: String, gradient: GradientBrushConfig)
    ensures
        ColorBrushConfig::Solid(name).names() == seq![name],
        ColorBrushConfig::Gradient(gradient).names() == gradient.colors@,
{
}

} // verus!
