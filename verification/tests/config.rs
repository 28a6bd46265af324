use tacky_borders::colors::{ColorBrushConfig, GradientCoordinates, GradientBrushConfig, GradientDirection};
use tacky_borders::config::{
    config_watcher_callback, is_windows_11_build, serde_default_bool, serde_default_global,
    serde_default_u64, Config, ConfigDir, ConfigLoad, CornerRadius, EnableMode, Global, LoadEvent,
    LoadStep, MatchKind, MatchStrategy, NoConfigDir, RadiusConfig, ReloadPlan, RenderBackendConfig,
    ServiceChange, Services, WindowRule, ZOrderMode, CORNER_DEFAULT, CORNER_DO_NOT_ROUND,
    CORNER_ROUND, CORNER_ROUND_SMALL,
};
use tacky_borders::float_bits::FloatBits;
use tacky_borders::komorebi::KomorebiColorsConfig;
use tacky_borders::same::Same;

fn bits(value: f32) -> FloatBits {
    FloatBits { bits: value.to_bits() }
}

fn sample() -> Config {
    Config {
        watch_config_changes: true,
        enable_logging: true,
        render_backend: RenderBackendConfig::V2,
        global: serde_default_global(),
        window_rules: vec![WindowRule {
            kind: Some(MatchKind::Title),
            name: Some("Terminal".to_string()),
            strategy: Some(MatchStrategy::Contains),
            border_radius: Some(RadiusConfig::Custom(bits(3.0))),
            ..WindowRule::default()
        }],
    }
}

fn with_komorebi(enabled: bool) -> KomorebiColorsConfig {
    KomorebiColorsConfig { enabled, ..KomorebiColorsConfig::default() }
}

#[test]
fn defaults_are_the_numbers_they_are_asked_for() {
    assert_eq!(serde_default_u64::<250>(), 250);
    assert_eq!(serde_default_u64::<200>(), 200);
    assert!(serde_default_bool::<true>());
    assert!(!serde_default_bool::<false>());
}

#[test]
fn an_empty_file_shows_borders_and_a_default_does_not() {
    let from_file = serde_default_global();
    assert_eq!(f32::from_bits(from_file.border_width.bits), 4.0);
    assert_eq!(from_file.border_offset, -1);
    let zeroed = Global::default();
    assert_eq!(f32::from_bits(zeroed.border_width.bits), 0.0);
    assert_eq!(zeroed.border_offset, 0);
    assert_eq!(zeroed.initialize_delay, 0);
    assert_eq!(zeroed.unminimize_delay, 0);
    assert!(!zeroed.follow_native_border);
    assert_eq!(zeroed.border_z_order, ZOrderMode::AboveWindow);
    assert_eq!(EnableMode::default(), EnableMode::Auto);
    assert_eq!(ZOrderMode::default(), ZOrderMode::AboveWindow);
    assert!(matches!(RadiusConfig::default(), RadiusConfig::Auto));
}

#[test]
fn an_unchanged_file_reloads_no_borders() {
    let old = sample();
    let mut new = sample();
    assert!(!config_watcher_callback(&old, &new, true));
    assert!(config_watcher_callback(&old, &new, false));
    new.window_rules[0].name = Some("terminal".to_string());
    assert!(config_watcher_callback(&old, &new, true));
}

#[test]
fn every_setting_counts_when_configurations_are_compared() {
    let old = sample();
    let mut changed = sample();
    changed.watch_config_changes = false;
    assert!(!old.is_same(&changed));
    let mut changed = sample();
    changed.enable_logging = false;
    assert!(!old.is_same(&changed));
    let mut changed = sample();
    changed.render_backend = RenderBackendConfig::Legacy;
    assert!(!old.is_same(&changed));
    let mut changed = sample();
    changed.global.border_width = bits(5.0);
    assert!(!old.is_same(&changed));
    let mut changed = sample();
    changed.global.active_color = ColorBrushConfig::Solid("#fff".to_string());
    assert!(!old.is_same(&changed));
    let mut changed = sample();
    changed.window_rules.push(WindowRule::default());
    assert!(!old.is_same(&changed));
    let mut changed = sample();
    changed.window_rules[0].border_radius = Some(RadiusConfig::Square);
    assert!(!old.is_same(&changed));
    let mut changed = sample();
    changed.window_rules[0].enabled = Some(EnableMode::Bool(true));
    assert!(!old.is_same(&changed));
}

#[test]
fn numbers_compare_as_numbers() {
    assert!(bits(0.0).is_same(&bits(-0.0)));
    assert!(!bits(f32::NAN).is_same(&bits(f32::NAN)));
    assert!(bits(1.5).is_same(&bits(1.5)));
    assert!(!bits(1.5).is_same(&bits(-1.5)));
    assert!(bits(f32::INFINITY).is_same(&bits(f32::INFINITY)));

    let mut unequal = sample();
    unequal.global.border_width = bits(f32::NAN);
    let other = unequal.clone();
    assert!(!unequal.is_same(&other));
    assert!(config_watcher_callback(&unequal, &other, true));
}

#[test]
fn gradients_compare_by_points_and_colors() {
    let make = |x: f32| {
        ColorBrushConfig::Gradient(GradientBrushConfig {
            colors: vec!["#fff".to_string(), "#000".to_string()],
            direction: GradientDirection::Coordinates(GradientCoordinates {
                start: [bits(x), bits(0.0)],
                end: [bits(1.0), bits(1.0)],
            }),
        })
    };
    assert!(make(0.0).is_same(&make(-0.0)));
    assert!(!make(0.0).is_same(&make(0.25)));
    assert!(!make(0.0).is_same(&ColorBrushConfig::default()));
}

#[test]
fn komorebi_is_followed_globally_or_by_a_rule() {
    let mut config = sample();
    assert!(!config.is_komorebi_integration_enabled());
    config.window_rules[0].komorebi_colors = Some(with_komorebi(false));
    assert!(!config.is_komorebi_integration_enabled());
    config.window_rules.push(WindowRule {
        komorebi_colors: Some(with_komorebi(true)),
        ..WindowRule::default()
    });
    assert!(config.is_komorebi_integration_enabled());
    let mut config = sample();
    config.global.komorebi_colors = with_komorebi(true);
    assert!(config.is_komorebi_integration_enabled());
    assert!(config.is_config_watcher_enabled());
}

#[test]
fn a_reload_starts_and_stops_what_changed() {
    let running = Services {
        config_watcher: false,
        komorebi_integration: true,
        directx_devices: true,
    };
    let (config, plan) = Config::reload(Some(sample()), running, RenderBackendConfig::Legacy);
    assert!(config.is_same(&sample()));
    assert_eq!(
        plan,
        ReloadPlan {
            config_watcher: ServiceChange::Start,
            komorebi_integration: ServiceChange::Stop,
            directx_devices: ServiceChange::Keep,
        }
    );
    let settled = Services {
        config_watcher: true,
        komorebi_integration: false,
        directx_devices: true,
    };
    let (_, plan) = Config::reload(Some(sample()), settled, RenderBackendConfig::Legacy);
    assert_eq!(
        plan,
        ReloadPlan {
            config_watcher: ServiceChange::Keep,
            komorebi_integration: ServiceChange::Keep,
            directx_devices: ServiceChange::Keep,
        }
    );
}

#[test]
fn an_unreadable_file_leaves_the_services_alone() {
    let running = Services {
        config_watcher: true,
        komorebi_integration: true,
        directx_devices: false,
    };
    let (config, plan) = Config::reload(None, running, RenderBackendConfig::V2);
    assert!(config.is_same(&Config::unreadable(RenderBackendConfig::V2)));
    assert!(!config.watch_config_changes);
    assert!(!config.enable_logging);
    assert!(config.window_rules.is_empty());
    assert_eq!(plan.config_watcher, ServiceChange::Keep);
    assert_eq!(plan.komorebi_integration, ServiceChange::Keep);
    assert_eq!(plan.directx_devices, ServiceChange::Keep);
}

#[test]
fn a_start_makes_what_the_configuration_wants() {
    let plan = sample().startup();
    assert!(plan.logger);
    assert_eq!(
        plan.services,
        Services { config_watcher: true, komorebi_integration: false, directx_devices: true }
    );
    let plan = Config::unreadable(RenderBackendConfig::Legacy).startup();
    assert!(!plan.logger);
    assert_eq!(
        plan.services,
        Services { config_watcher: false, komorebi_integration: false, directx_devices: false }
    );
}

#[test]
fn the_environment_goes_before_the_home_directory() {
    assert_eq!(Config::get_dir(true, true), Ok(ConfigDir::FromEnvironment));
    assert_eq!(Config::get_dir(true, false), Ok(ConfigDir::FromEnvironment));
    assert_eq!(Config::get_dir(false, true), Ok(ConfigDir::UnderHome));
    assert_eq!(Config::get_dir(false, false), Err(NoConfigDir));
}

#[test]
fn a_missing_file_is_looked_for_three_times() {
    let mut load = Config::create();
    assert_eq!(load.next_step(), LoadStep::CheckExists { wait: false });
    load.advance(LoadEvent::Exists(false));
    assert_eq!(load.next_step(), LoadStep::CheckExists { wait: true });
    load.advance(LoadEvent::Exists(false));
    assert_eq!(load.next_step(), LoadStep::CheckExists { wait: true });
    load.advance(LoadEvent::Exists(false));
    assert_eq!(load.next_step(), LoadStep::WriteDefault);
    load.advance(LoadEvent::DefaultWritten);
    assert_eq!(load.next_step(), LoadStep::Read { wait: false });
}

#[test]
fn an_empty_file_is_read_three_times() {
    let mut load = Config::create();
    load.advance(LoadEvent::Exists(true));
    load.advance(LoadEvent::Contents { empty: true });
    assert_eq!(load.next_step(), LoadStep::Read { wait: true });
    load.advance(LoadEvent::Contents { empty: true });
    assert_eq!(load.next_step(), LoadStep::Read { wait: true });
    load.advance(LoadEvent::Contents { empty: true });
    assert_eq!(load.next_step(), LoadStep::Parse);

    let mut load = Config::create();
    load.advance(LoadEvent::Exists(true));
    load.advance(LoadEvent::DefaultWritten);
    assert_eq!(load, ConfigLoad::Reading { reads: 0 });
    load.advance(LoadEvent::Contents { empty: false });
    assert_eq!(load.next_step(), LoadStep::Parse);
}

fn scaled(radius: CornerRadius) -> Option<f32> {
    match radius {
        CornerRadius::Sharp => None,
        CornerRadius::Scaled(value) => Some(f32::from_bits(value.bits)),
    }
}

#[test]
fn automatic_corners_follow_the_window() {
    for radius in [RadiusConfig::Auto, RadiusConfig::Custom(bits(-1.0))] {
        assert!(radius.asks_window());
        assert_eq!(scaled(radius.to_radius(Some(CORNER_DEFAULT), true)), Some(8.0));
        assert_eq!(scaled(radius.to_radius(Some(CORNER_DEFAULT), false)), None);
        assert_eq!(scaled(radius.to_radius(None, true)), Some(8.0));
        assert_eq!(scaled(radius.to_radius(None, false)), None);
        assert_eq!(scaled(radius.to_radius(Some(CORNER_DO_NOT_ROUND), true)), None);
        assert_eq!(scaled(radius.to_radius(Some(CORNER_ROUND), false)), Some(8.0));
        assert_eq!(scaled(radius.to_radius(Some(CORNER_ROUND_SMALL), false)), Some(4.0));
        assert_eq!(scaled(radius.to_radius(Some(17), true)), None);
    }
}

#[test]
fn fixed_corners_ignore_the_window() {
    assert!(!RadiusConfig::Square.asks_window());
    assert_eq!(scaled(RadiusConfig::Square.to_radius(Some(CORNER_ROUND), true)), None);
    assert_eq!(scaled(RadiusConfig::Round.to_radius(None, false)), Some(8.0));
    assert_eq!(scaled(RadiusConfig::RoundSmall.to_radius(None, false)), Some(4.0));
    assert_eq!(scaled(RadiusConfig::Custom(bits(2.5)).to_radius(None, true)), Some(2.5));
    assert_eq!(scaled(RadiusConfig::Custom(bits(0.0)).to_radius(None, true)), None);
    assert_eq!(scaled(RadiusConfig::Custom(bits(-0.0)).to_radius(None, true)), None);
}

#[test]
fn windows_11_begins_with_its_first_build() {
    assert!(!is_windows_11_build(21999));
    assert!(is_windows_11_build(22000));
    assert!(is_windows_11_build(26100));
}
