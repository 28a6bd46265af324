//! Colours of borders: reading them from the configuration and turning them into brushes.
use crate::float_bits::FloatBits;
use crate::same::Same;
use crate::text::{chars_of, same_text, strip_text_suffix};
use vstd::prelude::*;

verus! {

// ---------------------------------------------------------------------------------------------
// Configuration
// ---------------------------------------------------------------------------------------------

/// A colour of the configuration: one colour, or a gradient of several.
#[derive(Debug, Clone)]
pub enum ColorBrushConfig {
    Solid(String),
    Gradient(GradientBrushConfig),
}

#[derive(Debug, Clone)]
pub struct GradientBrushConfig {
    pub colors: Vec<String>,
    pub direction: GradientDirection,
}

/// The direction of a gradient: an angle such as `90deg`, or two points of the unit square.
#[derive(Debug, Clone)]
pub enum GradientDirection {
    Angle(String),
    Coordinates(GradientCoordinates),
}

#[derive(Debug, Clone, Copy)]
pub struct GradientCoordinates {
    pub start: [FloatBits; 2],
    pub end: [FloatBits; 2],
}

impl Default for ColorBrushConfig {
    /// The accent colour of the desktop.
    fn default() -> (config: Self)
        ensures
            config matches ColorBrushConfig::Solid(name) && name@ == "accent"@,
    {
        ColorBrushConfig::Solid("accent".to_owned())
    }
}

impl Same for GradientCoordinates {
    open spec fn same(&self, other: &Self) -> bool {
        &&& self.start@[0].same(&other.start@[0])
        &&& self.start@[1].same(&other.start@[1])
        &&& self.end@[0].same(&other.end@[0])
        &&& self.end@[1].same(&other.end@[1])
    }

    open spec fn comparable(&self) -> bool {
        &&& self.start@[0].comparable()
        &&& self.start@[1].comparable()
        &&& self.end@[0].comparable()
        &&& self.end@[1].comparable()
    }

    proof fn lemma_symmetric(&self, other: &Self) {
    }

    proof fn lemma_reflexive(&self) {
    }

    fn is_same(&self, other: &Self) -> (same: bool) {
        self.start[0].is_same(&other.start[0]) && self.start[1].is_same(&other.start[1])
            && self.end[0].is_same(&other.end[0]) && self.end[1].is_same(&other.end[1])
    }
}

impl Same for GradientDirection {
    open spec fn same(&self, other: &Self) -> bool {
        match (*self, *other) {
            (GradientDirection::Angle(left), GradientDirection::Angle(right)) => left.same(&right),
            (
                GradientDirection::Coordinates(left),
                GradientDirection::Coordinates(right),
            ) => left.same(&right),
            _ => false,
        }
    }

    open spec fn comparable(&self) -> bool {
        match *self {
            GradientDirection::Angle(_) => true,
            GradientDirection::Coordinates(points) => points.comparable(),
        }
    }

    proof fn lemma_symmetric(&self, other: &Self) {
    }

    proof fn lemma_reflexive(&self) {
    }

    fn is_same(&self, other: &Self) -> (same: bool) {
        match (self, other) {
            (GradientDirection::Angle(left), GradientDirection::Angle(right)) => left.is_same(
                right,
            ),
            (
                GradientDirection::Coordinates(left),
                GradientDirection::Coordinates(right),
            ) => left.is_same(right),
            _ => false,
        }
    }
}

impl Same for GradientBrushConfig {
    open spec fn same(&self, other: &Self) -> bool {
        self.colors.same(&other.colors) && self.direction.same(&other.direction)
    }

    open spec fn comparable(&self) -> bool {
        self.colors.comparable() && self.direction.comparable()
    }

    proof fn lemma_symmetric(&self, other: &Self) {
        self.colors.lemma_symmetric(&other.colors);
        self.direction.lemma_symmetric(&other.direction);
    }

    proof fn lemma_reflexive(&self) {
        self.colors.lemma_reflexive();
        self.direction.lemma_reflexive();
    }

    fn is_same(&self, other: &Self) -> (same: bool) {
        self.colors.is_same(&other.colors) && self.direction.is_same(&other.direction)
    }
}

impl Same for ColorBrushConfig {
    open spec fn same(&self, other: &Self) -> bool {
        match (*self, *other) {
            (ColorBrushConfig::Solid(left), ColorBrushConfig::Solid(right)) => left.same(&right),
            (ColorBrushConfig::Gradient(left), ColorBrushConfig::Gradient(right)) => left.same(
                &right,
            ),
            _ => false,
        }
    }

    open spec fn comparable(&self) -> bool {
        match *self {
            ColorBrushConfig::Solid(_) => true,
            ColorBrushConfig::Gradient(gradient) => gradient.comparable(),
        }
    }

    proof fn lemma_symmetric(&self, other: &Self) {
        match (*self, *other) {
            (
                ColorBrushConfig::Gradient(left),
                ColorBrushConfig::Gradient(right),
            ) => left.lemma_symmetric(&right),
            _ => {},
        }
    }

    proof fn lemma_reflexive(&self) {
        match *self {
            ColorBrushConfig::Gradient(gradient) => gradient.lemma_reflexive(),
            _ => {},
        }
    }

    fn is_same(&self, other: &Self) -> (same: bool) {
        match (self, other) {
            (ColorBrushConfig::Solid(left), ColorBrushConfig::Solid(right)) => left.is_same(right),
            (ColorBrushConfig::Gradient(left), ColorBrushConfig::Gradient(right)) => left.is_same(
                right,
            ),
            _ => false,
        }
    }
}

// ---------------------------------------------------------------------------------------------
// Single colours
// ---------------------------------------------------------------------------------------------

/// A colour of a brush. Every channel counts up to 255.
#[derive(Debug, Clone, Copy, PartialEq, Eq, Structural)]
pub enum BrushColor {
    Channels { r: u8, g: u8, b: u8, a: u8 },
    /// The accent colour of the desktop, to be toned down for a window that is not active: each
    /// channel becomes its tenth plus two thirds of the average of all three.
    InactiveAccent { r: u8, g: u8, b: u8 },
}

/// No colour at all: what a border gets where its colour cannot be read.
pub open spec fn clear_color() -> BrushColor {
    BrushColor::Channels { r: 0, g: 0, b: 0, a: 0 }
}

/// Why a colour was not read: this text, which has lost its number sign, stands for none.
#[derive(Debug, Clone, PartialEq, Eq)]
pub struct InvalidHex {
    pub hex: String,
}

impl InvalidHex {
    /// What the error says.
    pub fn message(&self) -> (message: String)
        ensures
            message@ == "invalid hex: "@ + self.hex@,
    {
        let mut message = "invalid hex: ".to_owned();
        message.append(self.hex.as_str());
        message
    }
}

/// The value of a hexadecimal digit.
pub open spec fn hex_value(c: char) -> Option<u8> {
    if '0' <= c <= '9' {
        Some((c as u32 - '0' as u32) as u8)
    } else if 'a' <= c <= 'f' {
        Some((c as u32 - 'a' as u32 + 10) as u8)
    } else if 'A' <= c <= 'F' {
        Some((c as u32 - 'A' as u32 + 10) as u8)
    } else {
        None
    }
}

/// A channel given by one digit: the digit counts twice.
pub open spec fn single_channel(c: char) -> Option<u8> {
    match hex_value(c) {
        Some(v) => Some((17 * v) as u8),
        None => None,
    }
}

/// A channel given by two digits. A plus sign in place of the first one counts as zero.
pub open spec fn pair_channel(high: char, low: char) -> Option<u8> {
    match (hex_value(high), hex_value(low)) {
        (Some(h), Some(l)) => Some((16 * h + l) as u8),
        (None, Some(l)) => if high == '+' {
            Some(l)
        } else {
            None
        },
        _ => None,
    }
}

/// The colour with the given channels, where all of them were read.
pub open spec fn color_of(r: Option<u8>, g: Option<u8>, b: Option<u8>, a: Option<u8>) -> Option<
    BrushColor,
> {
    match (r, g, b, a) {
        (Some(r), Some(g), Some(b), Some(a)) => Some(BrushColor::Channels { r, g, b, a }),
        _ => None,
    }
}

/// The colour that a text without its number sign stands for: three or four single digits, or
/// three or four pairs, all of them digits from the second character on. Where the fourth channel
/// is missing the colour is opaque.
pub open spec fn hex_color(s: Seq<char>) -> Option<BrushColor> {
    if !(forall|i: int| 1 <= i < s.len() ==> (#[trigger] hex_value(s[i])) is Some) {
        None
    } else if s.len() == 3 {
        color_of(single_channel(s[0]), single_channel(s[1]), single_channel(s[2]), Some(255))
    } else if s.len() == 4 {
        color_of(
            single_channel(s[0]),
            single_channel(s[1]),
            single_channel(s[2]),
            single_channel(s[3]),
        )
    } else if s.len() == 6 {
        color_of(
            pair_channel(s[0], s[1]),
            pair_channel(s[2], s[3]),
            pair_channel(s[4], s[5]),
            Some(255),
        )
    } else if s.len() == 8 {
        color_of(
            pair_channel(s[0], s[1]),
            pair_channel(s[2], s[3]),
            pair_channel(s[4], s[5]),
            pair_channel(s[6], s[7]),
        )
    } else {
        None
    }
}

/// Whether a text can be cut after its first byte as soon as its length in bytes is that of a
/// colour.
pub open spec fn is_sliceable(s: Seq<char>) -> bool {
    s.len() > 0 && s[0] as u32 >= 0x80 ==> {
        let bytes = vstd::utf8::encode_utf8(s).len();
        bytes != 3 && bytes != 4 && bytes != 6 && bytes != 8
    }
}

/// Whether a text can be cut after its first byte as soon as its length in bytes is that of a
/// colour.
pub fn can_slice(s: &str) -> (sliceable: bool)
    ensures
        sliceable == is_sliceable(s@),
{
    if s.unicode_len() == 0 || s.get_char(0) as u32 <= 0x7F {
        return true;
    }
    let bytes: usize = s.as_bytes().len();
    bytes != 3 && bytes != 4 && bytes != 6 && bytes != 8
}

fn digit(c: char) -> (value: Option<u8>)
    ensures
        value == hex_value(c),
{
    if '0' <= c && c <= '9' {
        Some((c as u32 - '0' as u32) as u8)
    } else if 'a' <= c && c <= 'f' {
        Some((c as u32 - 'a' as u32 + 10) as u8)
    } else if 'A' <= c && c <= 'F' {
        Some((c as u32 - 'A' as u32 + 10) as u8)
    } else {
        None
    }
}

fn read_single(c: char) -> (channel: Option<u8>)
    ensures
        channel == single_channel(c),
{
    match digit(c) {
        Some(v) => Some(17 * v),
        None => None,
    }
}

fn read_pair(high: char, low: char) -> (channel: Option<u8>)
    ensures
        channel == pair_channel(high, low),
{
    match (digit(high), digit(low)) {
        (Some(h), Some(l)) => Some(16 * h + l),
        (None, Some(l)) => if high == '+' {
            Some(l)
        } else {
            None
        },
        _ => None,
    }
}

fn assemble(r: Option<u8>, g: Option<u8>, b: Option<u8>, a: Option<u8>) -> (color: Option<
    BrushColor,
>)
    ensures
        color == color_of(r, g, b, a),
{
    match (r, g, b, a) {
        (Some(r), Some(g), Some(b), Some(a)) => Some(BrushColor::Channels { r, g, b, a }),
        _ => None,
    }
}

fn read_channels(s: &str) -> (color: Option<BrushColor>)
    ensures
        color == hex_color(s@),
{
    let chars = chars_of(s);
    let n: usize = chars.len();
    if n != 3 && n != 4 && n != 6 && n != 8 {
        return None;
    }
    let mut idx: usize = 1;
    while idx < n
        invariant
            n == chars@.len(),
            1 <= idx <= n,
            chars@ == s@,
            forall|i: int| 1 <= i < idx ==> (#[trigger] hex_value(s@[i])) is Some,
        decreases n - idx,
    {
        if digit(chars[idx]).is_none() {
            assert(hex_value(s@[idx as int]) is None);
            return None;
        }
        idx = idx + 1;
    }
    if n == 3 || n == 4 {
        let a = if n == 4 {
            read_single(chars[3])
        } else {
            Some(255)
        };
        assemble(read_single(chars[0]), read_single(chars[1]), read_single(chars[2]), a)
    } else {
        let a = if n == 8 {
            read_pair(chars[6], chars[7])
        } else {
            Some(255)
        };
        assemble(
            read_pair(chars[0], chars[1]),
            read_pair(chars[2], chars[3]),
            read_pair(chars[4], chars[5]),
            a,
        )
    }
}

/// Reads a colour that has lost its number sign.
pub fn parse_hex(s: &str) -> (result: Result<BrushColor, InvalidHex>)
    requires
        is_sliceable(s@),
    ensures
        match hex_color(s@) {
            Some(color) => result == Ok::<BrushColor, InvalidHex>(color),
            None => result matches Err(error) && error.hex@ == s@,
        },
{
    match read_channels(s) {
        Some(color) => Ok(color),
        None => Err(InvalidHex { hex: s.to_owned() }),
    }
}

/// The same colour text with every digit written twice.
pub open spec fn doubled(s: Seq<char>) -> Seq<char> {
    Seq::new(2 * s.len(), |i: int| s[i / 2])
}

/// Writing every digit of a short colour twice does not change the colour.
pub proof fn short_colors_double_their_digits(s: Seq<char>)
    requires
        s.len() == 3 || s.len() == 4,
    ensures
        hex_color(doubled(s)) == hex_color(s),
{
    let d = doubled(s);
    assert(forall|i: int| 0 <= i < d.len() ==> d[i] == s[i / 2]);
    if forall|i: int| 1 <= i < s.len() ==> (#[trigger] hex_value(s[i])) is Some {
        if hex_value(s[0]) is Some {
            assert forall|i: int| 1 <= i < d.len() implies (#[trigger] hex_value(d[i])) is Some by {
                assert(hex_value(s[i / 2]) is Some);
            }
            assert(hex_value(s[1]) is Some);
            assert(hex_value(s[2]) is Some);
        } else {
            assert(d[1] == s[0]);
            assert(hex_value(d[1]) is None);
        }
    } else {
        let i = choose|i: int| 1 <= i < s.len() && (#[trigger] hex_value(s[i])) is None;
        assert(d[2 * i] == s[i]);
        assert(hex_value(d[2 * i]) is None);
    }
}

/// Whether a letter is a capital one does not matter.
pub proof fn letter_case_does_not_matter(s: Seq<char>)
    ensures
        hex_color(s.map_values(|c: char| crate::text::ascii_lowercase(c))) == hex_color(s),
{
    let lower = s.map_values(|c: char| crate::text::ascii_lowercase(c));
    assert forall|i: int| 0 <= i < s.len() implies #[trigger] hex_value(lower[i]) == hex_value(
        s[i],
    ) by {
        lemma_digit_case(s[i]);
    }
    assert forall|i: int| 0 <= i < s.len() implies (#[trigger] lower[i] == '+' <==> s[i] == '+') by {
        lemma_digit_case(s[i]);
    }
    if forall|i: int| 1 <= i < s.len() ==> (#[trigger] hex_value(s[i])) is Some {
        assert forall|i: int| 1 <= i < lower.len() implies (
        #[trigger] hex_value(lower[i])) is Some by {
            assert(hex_value(s[i]) is Some);
        }
    } else {
        let i = choose|i: int| 1 <= i < s.len() && (#[trigger] hex_value(s[i])) is None;
        assert(hex_value(lower[i]) is None);
    }
}

proof fn lemma_digit_case(c: char)
    ensures
        hex_value(crate::text::ascii_lowercase(c)) == hex_value(c),
        crate::text::ascii_lowercase(c) == '+' <==> c == '+',
{
}

/// A colour without a fourth channel is opaque: it is the colour with that channel at its highest.
pub proof fn missing_alpha_is_opaque(s: Seq<char>)
    ensures
        s.len() == 3 ==> hex_color(s.push('f')) == hex_color(s),
        s.len() == 6 ==> hex_color(s.push('f').push('f')) == hex_color(s),
{
    assert(hex_value('f') == Some(15u8));
    let t = s.push('f');
    let u = t.push('f');
    if forall|i: int| 1 <= i < s.len() ==> (#[trigger] hex_value(s[i])) is Some {
        assert forall|i: int| 1 <= i < t.len() implies (#[trigger] hex_value(t[i])) is Some by {
            assert(i < s.len() ==> hex_value(s[i]) is Some);
        }
        assert forall|i: int| 1 <= i < u.len() implies (#[trigger] hex_value(u[i])) is Some by {
            assert(i < s.len() ==> hex_value(s[i]) is Some);
        }
    } else {
        let i = choose|i: int| 1 <= i < s.len() && (#[trigger] hex_value(s[i])) is None;
        assert(hex_value(t[i]) is None);
        assert(hex_value(u[i]) is None);
    }
}

/// What stands behind the number sign; nothing where there is none.
pub open spec fn after_number_sign(hex: Seq<char>) -> Seq<char> {
    if hex.len() > 0 && hex[0] == '#' {
        hex.skip(1)
    } else {
        Seq::empty()
    }
}

/// The colour that a text such as `#ff8000` stands for; no colour where it stands for none.
pub open spec fn color_from_hex(hex: Seq<char>) -> BrushColor {
    match hex_color(after_number_sign(hex)) {
        Some(color) => color,
        None => clear_color(),
    }
}

fn behind_number_sign(hex: &str) -> (rest: String)
    ensures
        rest@ == after_number_sign(hex@),
{
    let len: usize = hex.unicode_len();
    if len > 0 && hex.get_char(0) == '#' {
        let rest = hex.substring_char(1, len).to_owned();
        assert(rest@ =~= hex@.skip(1));
        rest
    } else {
        String::new()
    }
}

/// Whether the colour text can be read without cutting a character in two.
pub fn can_read_color(hex: &str) -> (readable: bool)
    ensures
        readable == is_sliceable(after_number_sign(hex@)),
{
    can_slice(behind_number_sign(hex).as_str())
}

/// Reads a colour such as `#ff8000`. A text without a number sign is taken for an empty one.
pub fn read_color(hex: &str) -> (result: Result<BrushColor, InvalidHex>)
    requires
        is_sliceable(after_number_sign(hex@)),
    ensures
        match hex_color(after_number_sign(hex@)) {
            Some(color) => result == Ok::<BrushColor, InvalidHex>(color),
            None => result matches Err(error) && error.hex@ == after_number_sign(hex@),
        },
{
    let rest = behind_number_sign(hex);
    parse_hex(rest.as_str())
}

/// The colour that a text such as `#ff8000` stands for; no colour where it stands for none.
pub fn get_color_from_hex(hex: &str) -> (color: BrushColor)
    requires
        is_sliceable(after_number_sign(hex@)),
    ensures
        color == color_from_hex(hex@),
{
    match read_color(hex) {
        Ok(color) => color,
        Err(_) => BrushColor::Channels { r: 0, g: 0, b: 0, a: 0 },
    }
}

/// The accent colour in a colorization value of the desktop, whose bytes are alpha, red, green and
/// blue from the top.
pub open spec fn accent_color(colorization: u32, is_active_color: bool) -> BrushColor {
    let r = ((colorization / 0x1_0000) % 0x100) as u8;
    let g = ((colorization / 0x100) % 0x100) as u8;
    let b = (colorization % 0x100) as u8;
    if is_active_color {
        BrushColor::Channels { r, g, b, a: 255 }
    } else {
        BrushColor::InactiveAccent { r, g, b }
    }
}

/// The accent colour in a colorization value of the desktop.
pub fn get_accent_color(colorization: u32, is_active_color: bool) -> (color: BrushColor)
    ensures
        color == accent_color(colorization, is_active_color),
{
    assert((colorization & 0x00FF_0000) >> 16 == (colorization / 0x1_0000) % 0x100)
        by (bit_vector);
    assert((colorization & 0x0000_FF00) >> 8 == (colorization / 0x100) % 0x100) by (bit_vector);
    assert(colorization & 0x0000_00FF == colorization % 0x100) by (bit_vector);
    let r: u8 = ((colorization & 0x00FF_0000) >> 16) as u8;
    let g: u8 = ((colorization & 0x0000_FF00) >> 8) as u8;
    let b: u8 = (colorization & 0x0000_00FF) as u8;
    if is_active_color {
        BrushColor::Channels { r, g, b, a: 255 }
    } else {
        BrushColor::InactiveAccent { r, g, b }
    }
}

/// The colour that a name of the configuration stands for.
pub open spec fn named_color(
    name: Seq<char>,
    is_active_color: bool,
    colorization: u32,
) -> BrushColor {
    if name == "accent"@ {
        accent_color(colorization, is_active_color)
    } else {
        color_from_hex(name)
    }
}

/// Whether a colour name of the configuration can be read without cutting a character in two.
pub open spec fn is_readable_name(name: Seq<char>) -> bool {
    name == "accent"@ || is_sliceable(after_number_sign(name))
}

fn get_named_color(name: &str, is_active_color: bool, colorization: u32) -> (color: BrushColor)
    requires
        is_readable_name(name@),
    ensures
        color == named_color(name@, is_active_color, colorization),
{
    if same_text(name, "accent") {
        get_accent_color(colorization, is_active_color)
    } else {
        get_color_from_hex(name)
    }
}

// ---------------------------------------------------------------------------------------------
// Brushes
// ---------------------------------------------------------------------------------------------

/// A brush of one colour. `B` is whatever the renderer draws with.
#[derive(Debug, Clone)]
pub struct SolidBrush<B> {
    pub color: BrushColor,
    pub brush: Option<B>,
}

/// A brush that runs through several colours, evenly spaced from the start to the end.
#[derive(Debug, Clone)]
pub struct GradientBrush<B> {
    pub gradient_stops: Vec<BrushColor>,
    pub direction: GradientCoordinates,
    pub brush: Option<B>,
}

#[derive(Debug, Clone)]
pub enum ColorBrush<B> {
    Solid(SolidBrush<B>),
    Gradient(GradientBrush<B>),
}

/// Why a brush could not be used: the renderer has not made it yet.
#[derive(Debug, Clone, Copy, PartialEq, Eq, Structural)]
pub struct BrushNotCreated;

impl BrushNotCreated {
    /// What the error says.
    pub fn message(&self) -> (message: &'static str)
        ensures
            message@ == "brush has not been created yet"@,
    {
        "brush has not been created yet"
    }
}

impl<B> ColorBrush<B> {
    /// What the renderer has made for this brush.
    pub open spec fn made(self) -> Option<B> {
        match self {
            ColorBrush::Solid(solid) => solid.brush,
            ColorBrush::Gradient(gradient) => gradient.brush,
        }
    }

    /// The same brush with another renderer object in it.
    pub open spec fn with_made(self, brush: Option<B>) -> Self {
        match self {
            ColorBrush::Solid(solid) => ColorBrush::Solid(SolidBrush { brush, ..solid }),
            ColorBrush::Gradient(gradient) => ColorBrush::Gradient(
                GradientBrush { brush, ..gradient },
            ),
        }
    }

    /// Keeps what the renderer has made for this brush.
    pub fn init_brush(&mut self, brush: B)
        ensures
            *final(self) == old(self).with_made(Some(brush)),
    {
        match self {
            ColorBrush::Solid(solid) => {
                solid.brush = Some(brush);
            },
            ColorBrush::Gradient(gradient) => {
                gradient.brush = Some(brush);
            },
        }
    }

    /// What the renderer has made for this brush, if it has.
    pub fn get_brush(&self) -> (brush: Option<&B>)
        ensures
            brush == (match self.made() {
                Some(made) => Some(&made),
                None => None,
            }),
    {
        match self {
            ColorBrush::Solid(solid) => solid.brush.as_ref(),
            ColorBrush::Gradient(gradient) => gradient.brush.as_ref(),
        }
    }

    /// Hands out what the renderer has made, and forgets it.
    pub fn take_brush(&mut self) -> (brush: Option<B>)
        ensures
            brush == old(self).made(),
            *final(self) == old(self).with_made(None),
    {
        match self {
            ColorBrush::Solid(solid) => solid.brush.take(),
            ColorBrush::Gradient(gradient) => gradient.brush.take(),
        }
    }

    /// What the renderer has made for this brush; an error where its opacity is asked for before.
    pub fn created_brush(&self) -> (result: Result<&B, BrushNotCreated>)
        ensures
            match self.made() {
                Some(made) => result == Ok::<&B, BrushNotCreated>(&made),
                None => result == Err::<&B, BrushNotCreated>(BrushNotCreated),
            },
    {
        match self.get_brush() {
            Some(brush) => Ok(brush),
            None => Err(BrushNotCreated),
        }
    }
}

impl<B> Default for ColorBrush<B> {
    /// A brush without colour.
    fn default() -> (brush: Self)
        ensures
            brush == ColorBrush::Solid(SolidBrush::<B> { color: clear_color(), brush: None }),
    {
        ColorBrush::Solid(
            SolidBrush { color: BrushColor::Channels { r: 0, g: 0, b: 0, a: 0 }, brush: None },
        )
    }
}

/// Whether a brush holds the given colours, in order.
pub open spec fn has_stops(
    stops: Seq<BrushColor>,
    names: Seq<String>,
    is_active_color: bool,
    colorization: u32,
) -> bool {
    &&& stops.len() == names.len()
    &&& forall|i: int|
        0 <= i < names.len() ==> #[trigger] stops[i] == named_color(
            names[i]@,
            is_active_color,
            colorization,
        )
}

/// The texts behind the number sign of those colour names that stand for no colour, in order.
pub open spec fn invalid_names(names: Seq<String>) -> Seq<Seq<char>>
    decreases names.len(),
{
    if names.len() == 0 {
        Seq::empty()
    } else {
        let before = invalid_names(names.drop_last());
        let name = names.last()@;
        if name != "accent"@ && hex_color(after_number_sign(name)) is None {
            before.push(after_number_sign(name))
        } else {
            before
        }
    }
}

fn note_invalid_name(errors: &mut Vec<InvalidHex>, name: &str)
    requires
        is_readable_name(name@),
    ensures
        name@ != "accent"@ && hex_color(after_number_sign(name@)) is None ==> {
            &&& final(errors)@.len() == old(errors)@.len() + 1
            &&& final(errors)@.drop_last() == old(errors)@
            &&& final(errors)@.last().hex@ == after_number_sign(name@)
        },
        !(name@ != "accent"@ && hex_color(after_number_sign(name@)) is None) ==> final(errors)@
            == old(errors)@,
{
    if !same_text(name, "accent") {
        if let Err(error) = read_color(name) {
            errors.push(error);
            assert(errors@.drop_last() =~= old(errors)@);
        }
    }
}

impl ColorBrushConfig {
    /// Whether a brush can be made: every colour name can be read, and a gradient has one.
    pub open spec fn is_paintable(&self) -> bool {
        match *self {
            ColorBrushConfig::Solid(name) => is_readable_name(name@),
            ColorBrushConfig::Gradient(gradient) => {
                &&& gradient.colors@.len() > 0
                &&& forall|i: int|
                    0 <= i < gradient.colors@.len() ==> is_readable_name(
                        (#[trigger] gradient.colors@[i])@,
                    )
            },
        }
    }

    /// Whether a brush can be made: every colour name can be read, and a gradient has one.
    pub fn can_paint(&self) -> (paintable: bool)
        ensures
            paintable == self.is_paintable(),
    {
        match self {
            ColorBrushConfig::Solid(name) => same_text(name.as_str(), "accent") || can_read_color(
                name.as_str(),
            ),
            ColorBrushConfig::Gradient(gradient) => {
                if gradient.colors.len() == 0 {
                    return false;
                }
                let mut idx: usize = 0;
                while idx < gradient.colors.len()
                    invariant
                        *self == ColorBrushConfig::Gradient(*gradient),
                        idx <= gradient.colors@.len(),
                        forall|i: int|
                            0 <= i < idx ==> is_readable_name((#[trigger] gradient.colors@[i])@),
                    decreases gradient.colors@.len() - idx,
                {
                    let name = gradient.colors[idx].as_str();
                    if !same_text(name, "accent") && !can_read_color(name) {
                        assert(!is_readable_name(gradient.colors@[idx as int]@));
                        return false;
                    }
                    idx = idx + 1;
                }
                true
            },
        }
    }

    /// The names of all colours, in order.
    pub open spec fn names(&self) -> Seq<String> {
        match *self {
            ColorBrushConfig::Solid(name) => seq![name],
            ColorBrushConfig::Gradient(gradient) => gradient.colors@,
        }
    }

    /// Why colours are missing from the brush: the names that stand for none, in order.
    pub fn color_errors(&self) -> (errors: Vec<InvalidHex>)
        requires
            self.is_paintable(),
        ensures
            errors@.map_values(|error: InvalidHex| error.hex@) == invalid_names(self.names()),
    {
        let mut errors: Vec<InvalidHex> = Vec::new();
        match self {
            ColorBrushConfig::Solid(name) => {
                note_invalid_name(&mut errors, name.as_str());
                let ghost names = self.names();
                assert(names.drop_last() =~= Seq::<String>::empty());
                assert(invalid_names(names.drop_last()) == Seq::<Seq<char>>::empty());
                assert(errors@.map_values(|error: InvalidHex| error.hex@) =~= invalid_names(names));
            },
            ColorBrushConfig::Gradient(gradient) => {
                let mut idx: usize = 0;
                while idx < gradient.colors.len()
                    invariant
                        idx <= gradient.colors@.len(),
                        forall|i: int|
                            0 <= i < gradient.colors@.len() ==> is_readable_name(
                                (#[trigger] gradient.colors@[i])@,
                            ),
                        errors@.map_values(|error: InvalidHex| error.hex@) =~= invalid_names(
                            gradient.colors@.take(idx as int),
                        ),
                    decreases gradient.colors@.len() - idx,
                {
                    let ghost before = errors@;
                    assert(gradient.colors@.take(idx + 1).drop_last() =~= gradient.colors@.take(
                        idx as int,
                    ));
                    note_invalid_name(&mut errors, gradient.colors[idx].as_str());
                    assert(errors@.map_values(|error: InvalidHex| error.hex@) =~= invalid_names(
                        gradient.colors@.take(idx + 1),
                    )) by {
                        if errors@.len() > before.len() {
                            assert forall|i: int| 0 <= i < before.len() implies #[trigger] errors@[i]
                                == before[i] by {
                                assert(errors@.drop_last()[i] == before[i]);
                            }
                        }
                    }
                    idx = idx + 1;
                }
                assert(gradient.colors@.take(gradient.colors@.len() as int) =~= gradient.colors@);
            },
        }
        errors
    }

    /// The number in front of `deg` where the direction of a gradient is given as an angle.
    pub open spec fn degrees(&self) -> Option<Seq<char>> {
        match *self {
            ColorBrushConfig::Gradient(gradient) => match gradient.direction {
                GradientDirection::Angle(angle) => crate::text::without_suffix(angle@, "deg"@),
                GradientDirection::Coordinates(_) => None,
            },
            ColorBrushConfig::Solid(_) => None,
        }
    }

    /// The number in front of `deg` where the direction of a gradient is given as an angle. It is
    /// for the caller to read it, and to find the points where that line meets the unit square.
    pub fn angle_text(&self) -> (text: Option<String>)
        ensures
            text is Some <==> self.degrees() is Some,
            text matches Some(number) ==> Some(number@) == self.degrees(),
    {
        match self {
            ColorBrushConfig::Gradient(gradient) => match &gradient.direction {
                GradientDirection::Angle(angle) => strip_text_suffix(angle.as_str(), "deg"),
                GradientDirection::Coordinates(_) => None,
            },
            ColorBrushConfig::Solid(_) => None,
        }
    }

    /// The points of a gradient, where it has any: its own, or those of its angle.
    pub open spec fn points(&self, angle_points: Option<GradientCoordinates>) -> Option<
        GradientCoordinates,
    > {
        match *self {
            ColorBrushConfig::Gradient(gradient) => match gradient.direction {
                GradientDirection::Coordinates(points) => Some(points),
                GradientDirection::Angle(_) => if self.degrees() is Some {
                    angle_points
                } else {
                    None
                },
            },
            ColorBrushConfig::Solid(_) => None,
        }
    }

    /// The brush for this colour.
    ///
    /// `colorization` is what the desktop says of its accent colour, and `angle_points` are the
    /// points for the angle that [`ColorBrushConfig::angle_text`] gives, if it is a number. A
    /// gradient whose direction cannot be read has no colour.
    pub fn to_color_brush<B>(
        &self,
        is_active_color: bool,
        colorization: u32,
        angle_points: Option<GradientCoordinates>,
    ) -> (brush: ColorBrush<B>)
        requires
            self.is_paintable(),
        ensures
            match *self {
                ColorBrushConfig::Solid(name) => brush == ColorBrush::Solid(
                    SolidBrush::<B> {
                        color: named_color(name@, is_active_color, colorization),
                        brush: None,
                    },
                ),
                ColorBrushConfig::Gradient(gradient) => match self.points(angle_points) {
                    None => brush == ColorBrush::Solid(
                        SolidBrush::<B> { color: clear_color(), brush: None },
                    ),
                    Some(points) => brush matches ColorBrush::Gradient(made) && {
                        &&& has_stops(
                            made.gradient_stops@,
                            gradient.colors@,
                            is_active_color,
                            colorization,
                        )
                        &&& made.direction == points
                        &&& made.brush is None
                    },
                },
            },
    {
        match self {
            ColorBrushConfig::Solid(name) => ColorBrush::Solid(
                SolidBrush {
                    color: get_named_color(name.as_str(), is_active_color, colorization),
                    brush: None,
                },
            ),
            ColorBrushConfig::Gradient(gradient) => {
                let points = match &gradient.direction {
                    GradientDirection::Coordinates(points) => Some(*points),
                    GradientDirection::Angle(_) => if self.angle_text().is_some() {
                        angle_points
                    } else {
                        None
                    },
                };
                let direction = match points {
                    Some(points) => points,
                    None => return ColorBrush::default(),
                };
                let mut gradient_stops: Vec<BrushColor> = Vec::new();
                let mut idx: usize = 0;
                while idx < gradient.colors.len()
                    invariant
                        idx <= gradient.colors@.len(),
                        gradient_stops@.len() == idx,
                        forall|i: int|
                            0 <= i < gradient.colors@.len() ==> is_readable_name(
                                (#[trigger] gradient.colors@[i])@,
                            ),
                        forall|i: int|
                            0 <= i < idx ==> #[trigger] gradient_stops@[i] == named_color(
                                gradient.colors@[i]@,
                                is_active_color,
                                colorization,
                            ),
                    decreases gradient.colors@.len() - idx,
                {
                    let color = get_named_color(
                        gradient.colors[idx].as_str(),
                        is_active_color,
                        colorization,
                    );
                    gradient_stops.push(color);
                    idx = idx + 1;
                }
                ColorBrush::Gradient(GradientBrush { gradient_stops, direction, brush: None })
            },
        }
    }
}

} // verus!
