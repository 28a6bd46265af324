//! Laws about the configuration: when two of them are equal, what one switches on, and how its file
//! is loaded.
use crate::bezier::CubicBezier;
use crate::colors::{ColorBrushConfig, GradientBrushConfig, GradientCoordinates, GradientDirection};
use crate::config::{
    keep_all, load_after, preferred_radius, runs_after, service_change, Config, ConfigLoad,
    CornerRadius, Global, LoadEvent, LoadStep, RadiusConfig, ReloadPlan, RenderBackendConfig,
    ServiceChange, Services, WindowRule, ZOrderMode,
};
use crate::float_bits::FloatBits;
use crate::komorebi::KomorebiColorsConfig;
use crate::same::Same;
use vstd::prelude::*;

verus! {

// ---------------------------------------------------------------------------------------------
// Numbers
// ---------------------------------------------------------------------------------------------

/// Whether two bit patterns stand for the same number: they are one pattern, and not one of those
/// that stand for no number, or they are the two zeros.
pub open spec fn same_number(left: FloatBits, right: FloatBits) -> bool {
    ||| left.bits == right.bits && (left.bits <= 0x7F80_0000 || 0x8000_0000 <= left.bits
        <= 0xFF80_0000)
    ||| (left.bits == 0 || left.bits == 0x8000_0000) && (right.bits == 0 || right.bits
        == 0x8000_0000)
}

/// Two settings that are numbers are equal exactly if they stand for the same number.
pub proof fn numbers_are_equal_by_value(left: FloatBits, right: FloatBits)
    ensures
        left.same(&right) <==> same_number(left, right),
        left.equals(right) <==> same_number(left, right),
{
}

/// The patterns up to that of one, and the negative zero, are the numbers from zero to one. The
/// two zeros are the only patterns of zero.
pub proof fn units_lie_between_zero_and_one(number: FloatBits)
    ensures
        number.is_unit() <==> number.bits <= 0x3F80_0000 || number.bits == 0x8000_0000,
        number.is_zero() <==> number.bits == 0 || number.bits == 0x8000_0000,
        number.is_nan() <==> 0x7F80_0000 < number.bits < 0x8000_0000 || 0xFF80_0000 < number.bits,
{
}

/// A curve is straight exactly if both its control points lie on the diagonal.
pub proof fn straight_curves_have_points_on_the_diagonal(curve: CubicBezier)
    ensures
        curve.is_linear() <==> same_number(curve.x1, curve.y1) && same_number(curve.x2, curve.y2),
{
}

// ---------------------------------------------------------------------------------------------
// Equality, setting by setting
// ---------------------------------------------------------------------------------------------

/// Whether two settings that may be missing are both missing, or both there and in agreement.
pub open spec fn same_optional_number(left: Option<FloatBits>, right: Option<FloatBits>) -> bool {
    ||| left is None && right is None
    ||| left is Some && right is Some && same_number(left->0, right->0)
}

/// Whether two texts that may be missing are both missing, or both there with the same characters.
pub open spec fn same_optional_text(left: Option<String>, right: Option<String>) -> bool {
    ||| left is None && right is None
    ||| left is Some && right is Some && left->0@ == right->0@
}

/// Whether two radius settings are the same choice, with the same number where it has one.
pub open spec fn same_radius(left: RadiusConfig, right: RadiusConfig) -> bool {
    ||| left is Auto && right is Auto
    ||| left is Square && right is Square
    ||| left is Round && right is Round
    ||| left is RoundSmall && right is RoundSmall
    ||| left is Custom && right is Custom && same_number(left->Custom_0, right->Custom_0)
}

/// Whether two pairs of points are the same, number by number.
pub open spec fn same_points(left: GradientCoordinates, right: GradientCoordinates) -> bool {
    &&& same_number(left.start@[0], right.start@[0])
    &&& same_number(left.start@[1], right.start@[1])
    &&& same_number(left.end@[0], right.end@[0])
    &&& same_number(left.end@[1], right.end@[1])
}

/// Whether two directions are the same angle text, or the same points.
pub open spec fn same_direction(left: GradientDirection, right: GradientDirection) -> bool {
    ||| left is Angle && right is Angle && left->Angle_0@ == right->Angle_0@
    ||| left is Coordinates && right is Coordinates && same_points(
        left->Coordinates_0,
        right->Coordinates_0,
    )
}

/// Whether two colours are the same text, or gradients of the same texts in the same direction.
pub open spec fn same_color(left: ColorBrushConfig, right: ColorBrushConfig) -> bool {
    ||| left is Solid && right is Solid && left->Solid_0@ == right->Solid_0@
    ||| {
        &&& left is Gradient && right is Gradient
        &&& left->Gradient_0.colors@.len() == right->Gradient_0.colors@.len()
        &&& forall|i: int|
            0 <= i < left->Gradient_0.colors@.len() ==> (#[trigger] left->Gradient_0.colors@[i])@
                == right->Gradient_0.colors@[i]@
        &&& same_direction(left->Gradient_0.direction, right->Gradient_0.direction)
    }
}

/// Whether two colours that may be missing are both missing, or both there and the same.
pub open spec fn same_optional_color(
    left: Option<ColorBrushConfig>,
    right: Option<ColorBrushConfig>,
) -> bool {
    ||| left is None && right is None
    ||| left is Some && right is Some && same_color(left->0, right->0)
}

/// Whether two sets of komorebi colours are the same, setting by setting.
pub open spec fn same_komorebi_colors(
    left: KomorebiColorsConfig,
    right: KomorebiColorsConfig,
) -> bool {
    &&& same_optional_color(left.stack_color, right.stack_color)
    &&& same_optional_color(left.monocle_color, right.monocle_color)
    &&& same_optional_color(left.floating_color, right.floating_color)
    &&& left.enabled == right.enabled
}

/// Whether two sets of komorebi colours that may be missing are both missing, or both there and
/// the same.
pub open spec fn same_optional_komorebi_colors(
    left: Option<KomorebiColorsConfig>,
    right: Option<KomorebiColorsConfig>,
) -> bool {
    ||| left is None && right is None
    ||| left is Some && right is Some && same_komorebi_colors(left->0, right->0)
}

/// Points are equal exactly if they are the same, number by number.
pub proof fn points_are_equal_by_value(left: GradientCoordinates, right: GradientCoordinates)
    ensures
        left.same(&right) <==> same_points(left, right),
{
    numbers_are_equal_by_value(left.start@[0], right.start@[0]);
    numbers_are_equal_by_value(left.start@[1], right.start@[1]);
    numbers_are_equal_by_value(left.end@[0], right.end@[0]);
    numbers_are_equal_by_value(left.end@[1], right.end@[1]);
}

/// Radius settings are equal exactly if they are the same choice with the same number.
pub proof fn radii_are_equal_by_value(left: RadiusConfig, right: RadiusConfig)
    ensures
        left.same(&right) <==> same_radius(left, right),
{
    if left is Custom && right is Custom {
        numbers_are_equal_by_value(left->Custom_0, right->Custom_0);
    }
}

/// Colours are equal exactly if they are the same texts, in the same direction.
pub proof fn colors_are_equal_by_value(left: ColorBrushConfig, right: ColorBrushConfig)
    ensures
        left.same(&right) <==> same_color(left, right),
{
    if left is Gradient && right is Gradient {
        let a = left->Gradient_0;
        let b = right->Gradient_0;
        if a.direction is Coordinates && b.direction is Coordinates {
            points_are_equal_by_value(a.direction->Coordinates_0, b.direction->Coordinates_0);
        }
        assert(a.direction.same(&b.direction) <==> same_direction(a.direction, b.direction));
        assert forall|i: int| 0 <= i < a.colors@.len() && i < b.colors@.len() implies (
        #[trigger] a.colors@[i]).same(&b.colors@[i]) == (a.colors@[i]@ == b.colors@[i]@) by {}
        if same_color(left, right) {
            assert forall|i: int| 0 <= i < a.colors@.len() implies (#[trigger] a.colors@[i]).same(
                &b.colors@[i],
            ) by {
                assert(a.colors@[i]@ == b.colors@[i]@);
            }
            assert(a.colors.same(&b.colors));
        }
        if left.same(&right) {
            assert(a.colors.same(&b.colors));
            assert forall|i: int| 0 <= i < a.colors@.len() implies (#[trigger] a.colors@[i])@
                == b.colors@[i]@ by {
                assert(a.colors@[i].same(&b.colors@[i]));
            }
        }
    }
}

proof fn lemma_optional_color(left: Option<ColorBrushConfig>, right: Option<ColorBrushConfig>)
    ensures
        left.same(&right) <==> same_optional_color(left, right),
{
    if left is Some && right is Some {
        colors_are_equal_by_value(left->0, right->0);
    }
}

/// Komorebi colours are equal exactly if each setting of them is.
pub proof fn komorebi_colors_are_equal_by_value(
    left: KomorebiColorsConfig,
    right: KomorebiColorsConfig,
)
    ensures
        left.same(&right) <==> same_komorebi_colors(left, right),
{
    lemma_optional_color(left.stack_color, right.stack_color);
    lemma_optional_color(left.monocle_color, right.monocle_color);
    lemma_optional_color(left.floating_color, right.floating_color);
}

/// Two rules are equal exactly if every setting of them is.
pub proof fn rules_are_equal_by_every_setting(left: WindowRule, right: WindowRule)
    ensures
        left.same(&right) <==> {
            &&& left.kind == right.kind
            &&& same_optional_text(left.name, right.name)
            &&& left.strategy == right.strategy
            &&& same_optional_number(left.border_width, right.border_width)
            &&& left.border_offset == right.border_offset
            &&& left.border_radius is Some == right.border_radius is Some
            &&& left.border_radius is Some && right.border_radius is Some ==> same_radius(
                left.border_radius->0,
                right.border_radius->0,
            )
            &&& left.border_z_order == right.border_z_order
            &&& left.follow_native_border == right.follow_native_border
            &&& same_optional_color(left.active_color, right.active_color)
            &&& same_optional_color(left.inactive_color, right.inactive_color)
            &&& same_optional_komorebi_colors(left.komorebi_colors, right.komorebi_colors)
            &&& left.initialize_delay == right.initialize_delay
            &&& left.unminimize_delay == right.unminimize_delay
            &&& left.enabled == right.enabled
        },
{
    lemma_optional_color(left.active_color, right.active_color);
    lemma_optional_color(left.inactive_color, right.inactive_color);
    if left.komorebi_colors is Some && right.komorebi_colors is Some {
        komorebi_colors_are_equal_by_value(left.komorebi_colors->0, right.komorebi_colors->0);
    }
    if left.border_width is Some && right.border_width is Some {
        numbers_are_equal_by_value(left.border_width->0, right.border_width->0);
    }
    if left.border_radius is Some && right.border_radius is Some {
        radii_are_equal_by_value(left.border_radius->0, right.border_radius->0);
    }
}

/// Two sets of global settings are equal exactly if every setting of them is.
pub proof fn globals_are_equal_by_every_setting(left: Global, right: Global)
    ensures
        left.same(&right) <==> {
            &&& same_number(left.border_width, right.border_width)
            &&& left.border_offset == right.border_offset
            &&& same_radius(left.border_radius, right.border_radius)
            &&& left.border_z_order == right.border_z_order
            &&& left.follow_native_border == right.follow_native_border
            &&& same_color(left.active_color, right.active_color)
            &&& same_color(left.inactive_color, right.inactive_color)
            &&& same_komorebi_colors(left.komorebi_colors, right.komorebi_colors)
            &&& left.initialize_delay == right.initialize_delay
            &&& left.unminimize_delay == right.unminimize_delay
        },
{
    numbers_are_equal_by_value(left.border_width, right.border_width);
    radii_are_equal_by_value(left.border_radius, right.border_radius);
    colors_are_equal_by_value(left.active_color, right.active_color);
    colors_are_equal_by_value(left.inactive_color, right.inactive_color);
    komorebi_colors_are_equal_by_value(left.komorebi_colors, right.komorebi_colors);
}

/// Two configurations are equal exactly if every setting of them is, and their rules are equal one
/// by one.
pub proof fn configs_are_equal_by_every_setting(left: Config, right: Config)
    ensures
        left.same(&right) <==> {
            &&& left.watch_config_changes == right.watch_config_changes
            &&& left.enable_logging == right.enable_logging
            &&& left.render_backend == right.render_backend
            &&& left.global.same(&right.global)
            &&& left.window_rules@.len() == right.window_rules@.len()
            &&& forall|i: int|
                0 <= i < left.window_rules@.len() ==> (#[trigger] left.window_rules@[i]).same(
                    &right.window_rules@[i],
                )
        },
{
    assert(left.window_rules.same(&right.window_rules) <==> left.window_rules@.len()
        == right.window_rules@.len() && forall|i: int|
        0 <= i < left.window_rules@.len() ==> (#[trigger] left.window_rules@[i]).same(
            &right.window_rules@[i],
        ));
}

// ---------------------------------------------------------------------------------------------
// What a configuration switches on
// ---------------------------------------------------------------------------------------------

/// A service is started exactly if it is wanted and does not run, and stopped exactly if it runs
/// and is not wanted.
pub proof fn services_change_only_where_they_must()
    ensures
        service_change(true, false) == ServiceChange::Start,
        service_change(false, true) == ServiceChange::Stop,
        service_change(true, true) == ServiceChange::Keep,
        service_change(false, false) == ServiceChange::Keep,
        forall|running: bool|
            {
                &&& #[trigger] runs_after(ServiceChange::Start, running)
                &&& !runs_after(ServiceChange::Stop, running)
                &&& runs_after(ServiceChange::Keep, running) == running
            },
        keep_all() == (ReloadPlan {
            config_watcher: ServiceChange::Keep,
            komorebi_integration: ServiceChange::Keep,
            directx_devices: ServiceChange::Keep,
        }),
{
}

/// The watcher runs if changes are to be watched, komorebi is followed if the global settings or any
/// rule says so, and render devices are made for the newer way of drawing.
pub proof fn configs_switch_on_what_they_say(config: Config)
    ensures
        config.wanted().config_watcher == config.watch_config_changes,
        config.global.komorebi_colors.enabled ==> config.wanted().komorebi_integration,
        (exists|i: int|
            0 <= i < config.window_rules@.len() && (
            #[trigger] config.window_rules@[i]).komorebi_colors is Some
                && config.window_rules@[i].komorebi_colors->0.enabled)
            ==> config.wanted().komorebi_integration,
        !config.global.komorebi_colors.enabled && (forall|i: int|
            0 <= i < config.window_rules@.len() && (
            #[trigger] config.window_rules@[i]).komorebi_colors is Some
                ==> !config.window_rules@[i].komorebi_colors->0.enabled)
            ==> !config.wanted().komorebi_integration,
        config.render_backend is V2 ==> config.wanted().directx_devices,
        config.render_backend is Legacy ==> !config.wanted().directx_devices,
{
    if exists|i: int|
        0 <= i < config.window_rules@.len() && (
        #[trigger] config.window_rules@[i]).komorebi_colors is Some
            && config.window_rules@[i].komorebi_colors->0.enabled {
        let i = choose|i: int|
            0 <= i < config.window_rules@.len() && (
            #[trigger] config.window_rules@[i]).komorebi_colors is Some
                && config.window_rules@[i].komorebi_colors->0.enabled;
        assert(crate::config::rule_follows_komorebi(config.window_rules@[i]));
    }
}

/// A plan deals with each service by itself: it starts and stops exactly what is not as wanted.
pub proof fn plans_deal_with_each_service(config: Config, running: Services)
    ensures
        config.plan(running).config_watcher == service_change(
            config.watch_config_changes,
            running.config_watcher,
        ),
        config.plan(running).komorebi_integration == service_change(
            config.wanted().komorebi_integration,
            running.komorebi_integration,
        ),
        config.plan(running).directx_devices == service_change(
            config.render_backend is V2,
            running.directx_devices,
        ),
{
}

/// A blank configuration switches nothing on but what its way of drawing needs, and its borders
/// have no width.
pub proof fn blank_configs_switch_nothing_on(config: Config, backend: RenderBackendConfig)
    requires
        config.is_blank(backend),
    ensures
        !config.wanted().config_watcher,
        !config.wanted().komorebi_integration,
        config.wanted().directx_devices == (backend is V2),
        !config.enable_logging,
        config.window_rules@.len() == 0,
        config.global.border_width.bits == 0,
        config.global.border_offset == 0,
        config.global.initialize_delay == 0,
        config.global.unminimize_delay == 0,
        !config.global.follow_native_border,
        config.global.border_radius is Auto,
        config.global.border_z_order == ZOrderMode::AboveWindow,
        config.global.active_color is Solid && config.global.active_color->Solid_0@ == "accent"@,
        config.global.inactive_color is Solid && config.global.inactive_color->Solid_0@
            == "accent"@,
        config.global.komorebi_colors.stack_color is None,
        config.global.komorebi_colors.monocle_color is None,
        config.global.komorebi_colors.floating_color is None,
{
    configs_switch_on_what_they_say(config);
}

/// Where the configuration has no global settings, borders are four pixels wide and one pixel
/// closer.
pub proof fn borders_show_by_default()
    ensures
        crate::config::DEFAULT_BORDER_WIDTH == 0x4080_0000,
        crate::config::DEFAULT_BORDER_OFFSET == -1,
{
}

// ---------------------------------------------------------------------------------------------
// Loading
// ---------------------------------------------------------------------------------------------

/// A file that is missing for the first, and for the first two times, is looked for again, after a
/// wait. Missing for the third time it is written. There is no wait before the first look.
pub proof fn missing_files_are_looked_for_three_times()
    ensures
        ({
            let start = ConfigLoad::Checking { checks: 0 };
            let missing = LoadEvent::Exists(false);
            &&& start.step() == LoadStep::CheckExists { wait: false }
            &&& start.after(missing).step() == LoadStep::CheckExists { wait: true }
            &&& start.after(missing).after(missing).step() == LoadStep::CheckExists { wait: true }
            &&& start.after(missing).after(missing).after(missing).step() == LoadStep::WriteDefault
            &&& start.after(missing).after(missing).after(missing).after(
                LoadEvent::DefaultWritten,
            ).step() == LoadStep::Read { wait: false }
        }),
        crate::config::RETRY_DELAY_MS == 20,
{
}

/// A file that is there is read at once, however often it was missing before.
pub proof fn existing_files_are_read_at_once(checks: u32)
    requires
        checks < 3,
    ensures
        (ConfigLoad::Checking { checks }).after(LoadEvent::Exists(true)).step() == (LoadStep::Read {
            wait: false,
        }),
{
}

/// A file that is empty is read three times in all, with a wait before each further time. Contents
/// are taken as soon as there are any.
pub proof fn empty_files_are_read_three_times(load: ConfigLoad)
    requires
        load.step() == (LoadStep::Read { wait: false }),
        load.wf(),
    ensures
        ({
            let empty = LoadEvent::Contents { empty: true };
            let full = LoadEvent::Contents { empty: false };
            &&& load.after(full).step() == LoadStep::Parse
            &&& load.after(empty).step() == LoadStep::Read { wait: true }
            &&& load.after(empty).after(full).step() == LoadStep::Parse
            &&& load.after(empty).after(empty).step() == LoadStep::Read { wait: true }
            &&& load.after(empty).after(empty).after(full).step() == LoadStep::Parse
            &&& load.after(empty).after(empty).after(empty).step() == LoadStep::Parse
        }),
{
}

/// Events take effect one by one, and one that does not belong to the step at hand has none.
pub proof fn events_take_effect_one_by_one(
    load: ConfigLoad,
    events: Seq<LoadEvent>,
    event: LoadEvent,
)
    ensures
        load_after(load, Seq::<LoadEvent>::empty()) == load,
        load_after(load, events.push(event)) == load_after(load, events).after(event),
        !(event is Exists) && load.step() is CheckExists ==> load.after(event) == load,
        !(event is DefaultWritten) && load.step() is WriteDefault ==> load.after(event) == load,
        !(event is Contents) && load.step() is Read ==> load.after(event) == load,
        load.step() is Parse ==> load.after(event) == load,
        load.expects(event) <==> match load.step() {
            LoadStep::CheckExists { .. } => event is Exists,
            LoadStep::WriteDefault => event is DefaultWritten,
            LoadStep::Read { .. } => event is Contents,
            LoadStep::Parse => false,
        },
{
    assert(events.push(event).drop_last() =~= events);
}

// ---------------------------------------------------------------------------------------------
// Corners
// ---------------------------------------------------------------------------------------------

/// A window that asks for round corners gets a radius of eight, for small ones four, and sharp ones
/// otherwise. One that asks for nothing gets what its version of Windows has.
pub proof fn corners_follow_the_preference(preference: i32, is_windows_11: bool)
    ensures
        preferred_radius(0, true) == CornerRadius::Scaled(FloatBits { bits: 0x4100_0000 }),
        preferred_radius(0, false) is Sharp,
        preferred_radius(1, is_windows_11) is Sharp,
        preferred_radius(2, is_windows_11) == CornerRadius::Scaled(
            FloatBits { bits: 0x4100_0000 },
        ),
        preferred_radius(3, is_windows_11) == CornerRadius::Scaled(
            FloatBits { bits: 0x4080_0000 },
        ),
        preference < 0 || preference > 3 ==> preferred_radius(preference, is_windows_11) is Sharp,
{
}

/// The window is asked where the radius is left open, and where it is the number minus one.
pub proof fn minus_one_leaves_the_radius_open(radius: RadiusConfig)
    ensures
        radius.is_automatic() <==> radius is Auto || (radius is Custom && radius->Custom_0.bits
            == 0xBF80_0000),
        crate::config::WINDOWS_11_BUILD == 22000,
        crate::config::CORNER_DEFAULT == 0 && crate::config::CORNER_DO_NOT_ROUND == 1,
        crate::config::CORNER_ROUND == 2 && crate::config::CORNER_ROUND_SMALL == 3,
        crate::float_bits::EIGHT == 0x4100_0000 && crate::float_bits::FOUR == 0x4080_0000,
{
}

} // verus!
