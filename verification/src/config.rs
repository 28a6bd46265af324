//! The configuration: its settings, what they switch on, and what happens when its file changes.
use crate::colors::ColorBrushConfig;
use crate::float_bits::{FloatBits, EIGHT, FOUR, MINUS_ONE};
use crate::komorebi::KomorebiColorsConfig;
use crate::same::Same;
use vstd::prelude::*;

verus! {

// ---------------------------------------------------------------------------------------------
// Settings
// ---------------------------------------------------------------------------------------------

/// Which name of a window a rule looks at.
#[derive(Debug, Clone, Copy, PartialEq, Eq, Structural)]
pub enum MatchKind {
    Title,
    Class,
    Process,
}

/// How a rule compares names.
#[derive(Debug, Clone, Copy, PartialEq, Eq, Structural)]
pub enum MatchStrategy {
    Equals,
    Contains,
    Regex,
}

/// Whether windows get a border: by their style, or always or never.
#[derive(Debug, Clone, Copy, PartialEq, Eq, Structural)]
pub enum EnableMode {
    Auto,
    Bool(bool),
}

/// Whether a border lies above or below its window.
#[derive(Debug, Clone, Copy, PartialEq, Eq, Structural)]
pub enum ZOrderMode {
    AboveWindow,
    BelowWindow,
}

/// Which of the two ways of drawing is used.
#[derive(Debug, Clone, Copy, PartialEq, Eq, Structural)]
pub enum RenderBackendConfig {
    V2,
    Legacy,
}

/// How round the corners of a border are.
#[derive(Debug, Clone, Copy)]
pub enum RadiusConfig {
    Auto,
    Square,
    Round,
    RoundSmall,
    Custom(FloatBits),
}

/// What applies to the windows that a rule matches, where it says anything.
///
/// The settings of animations and effects are not held here.
#[derive(Debug, Clone)]
pub struct WindowRule {
    pub kind: Option<MatchKind>,
    pub name: Option<String>,
    pub strategy: Option<MatchStrategy>,
    pub border_width: Option<FloatBits>,
    pub border_offset: Option<i32>,
    pub border_radius: Option<RadiusConfig>,
    pub border_z_order: Option<ZOrderMode>,
    pub follow_native_border: Option<bool>,
    pub active_color: Option<ColorBrushConfig>,
    pub inactive_color: Option<ColorBrushConfig>,
    pub komorebi_colors: Option<KomorebiColorsConfig>,
    pub initialize_delay: Option<u64>,
    pub unminimize_delay: Option<u64>,
    pub enabled: Option<EnableMode>,
}

/// What applies to windows that no rule says anything of.
#[derive(Debug, Clone)]
pub struct Global {
    pub border_width: FloatBits,
    pub border_offset: i32,
    pub border_radius: RadiusConfig,
    pub border_z_order: ZOrderMode,
    pub follow_native_border: bool,
    pub active_color: ColorBrushConfig,
    pub inactive_color: ColorBrushConfig,
    pub komorebi_colors: KomorebiColorsConfig,
    pub initialize_delay: u64,
    pub unminimize_delay: u64,
}

#[derive(Debug, Clone)]
pub struct Config {
    pub watch_config_changes: bool,
    pub enable_logging: bool,
    pub render_backend: RenderBackendConfig,
    pub global: Global,
    pub window_rules: Vec<WindowRule>,
}

/// The default of a numeric setting.
pub fn serde_default_u64<const V: u64>() -> (value: u64)
    ensures
        value == V,
{
    V
}

/// The default of a switch.
pub fn serde_default_bool<const V: bool>() -> (value: bool)
    ensures
        value == V,
{
    V
}

/// The width of a border where the configuration does not give any, as a bit pattern: four pixels.
pub const DEFAULT_BORDER_WIDTH: u32 = FOUR;

/// The offset of a border where the configuration does not give any.
pub const DEFAULT_BORDER_OFFSET: i32 = -1;

impl Default for EnableMode {
    fn default() -> (mode: Self)
        ensures
            mode == EnableMode::Auto,
    {
        EnableMode::Auto
    }
}

impl Default for ZOrderMode {
    fn default() -> (mode: Self)
        ensures
            mode == ZOrderMode::AboveWindow,
    {
        ZOrderMode::AboveWindow
    }
}

impl Default for RadiusConfig {
    fn default() -> (radius: Self)
        ensures
            radius is Auto,
    {
        RadiusConfig::Auto
    }
}

/// A colour that is the accent colour of the desktop.
pub open spec fn is_accent(color: ColorBrushConfig) -> bool {
    color matches ColorBrushConfig::Solid(name) && name@ == "accent"@
}

impl Global {
    /// Whether everything but the width and the offset is at its zero setting: nothing is followed,
    /// no delay is kept, and the colours are the accent colour.
    pub open spec fn is_bare(&self) -> bool {
        &&& self.border_radius is Auto
        &&& self.border_z_order == ZOrderMode::AboveWindow
        &&& !self.follow_native_border
        &&& is_accent(self.active_color)
        &&& is_accent(self.inactive_color)
        &&& self.komorebi_colors.stack_color is None
        &&& self.komorebi_colors.monocle_color is None
        &&& self.komorebi_colors.floating_color is None
        &&& !self.komorebi_colors.enabled
        &&& self.initialize_delay == 0
        &&& self.unminimize_delay == 0
    }
}

impl Default for Global {
    /// Everything at its zero setting, so that no border shows.
    fn default() -> (global: Self)
        ensures
            global.border_width == (FloatBits { bits: 0 }),
            global.border_offset == 0,
            global.is_bare(),
    {
        Global {
            border_width: FloatBits { bits: 0 },
            border_offset: 0,
            border_radius: RadiusConfig::Auto,
            border_z_order: ZOrderMode::AboveWindow,
            follow_native_border: false,
            active_color: ColorBrushConfig::default(),
            inactive_color: ColorBrushConfig::default(),
            komorebi_colors: KomorebiColorsConfig::default(),
            initialize_delay: 0,
            unminimize_delay: 0,
        }
    }
}

/// The global settings of a configuration that has none. Borders show all the same.
pub fn serde_default_global() -> (global: Global)
    ensures
        global.border_width == (FloatBits { bits: DEFAULT_BORDER_WIDTH }),
        global.border_offset == DEFAULT_BORDER_OFFSET,
        global.is_bare(),
{
    Global {
        border_width: FloatBits { bits: DEFAULT_BORDER_WIDTH },
        border_offset: DEFAULT_BORDER_OFFSET,
        ..Global::default()
    }
}

impl Default for WindowRule {
    /// A rule that says nothing.
    fn default() -> (rule: Self)
        ensures
            rule.kind is None,
            rule.name is None,
            rule.strategy is None,
            rule.border_width is None,
            rule.border_offset is None,
            rule.border_radius is None,
            rule.border_z_order is None,
            rule.follow_native_border is None,
            rule.active_color is None,
            rule.inactive_color is None,
            rule.komorebi_colors is None,
            rule.initialize_delay is None,
            rule.unminimize_delay is None,
            rule.enabled is None,
    {
        WindowRule {
            kind: None,
            name: None,
            strategy: None,
            border_width: None,
            border_offset: None,
            border_radius: None,
            border_z_order: None,
            follow_native_border: None,
            active_color: None,
            inactive_color: None,
            komorebi_colors: None,
            initialize_delay: None,
            unminimize_delay: None,
            enabled: None,
        }
    }
}

// ---------------------------------------------------------------------------------------------
// Comparing settings
// ---------------------------------------------------------------------------------------------

impl Same for MatchKind {
    open spec fn same(&self, other: &Self) -> bool {
        *self == *other
    }

    open spec fn comparable(&self) -> bool {
        true
    }

    proof fn lemma_symmetric(&self, other: &Self) {
    }

    proof fn lemma_reflexive(&self) {
    }

    fn is_same(&self, other: &Self) -> (same: bool) {
        *self == *other
    }
}

impl Same for MatchStrategy {
    open spec fn same(&self, other: &Self) -> bool {
        *self == *other
    }

    open spec fn comparable(&self) -> bool {
        true
    }

    proof fn lemma_symmetric(&self, other: &Self) {
    }

    proof fn lemma_reflexive(&self) {
    }

    fn is_same(&self, other: &Self) -> (same: bool) {
        *self == *other
    }
}

impl Same for EnableMode {
    open spec fn same(&self, other: &Self) -> bool {
        *self == *other
    }

    open spec fn comparable(&self) -> bool {
        true
    }

    proof fn lemma_symmetric(&self, other: &Self) {
    }

    proof fn lemma_reflexive(&self) {
    }

    fn is_same(&self, other: &Self) -> (same: bool) {
        *self == *other
    }
}

impl Same for ZOrderMode {
    open spec fn same(&self, other: &Self) -> bool {
        *self == *other
    }

    open spec fn comparable(&self) -> bool {
        true
    }

    proof fn lemma_symmetric(&self, other: &Self) {
    }

    proof fn lemma_reflexive(&self) {
    }

    fn is_same(&self, other: &Self) -> (same: bool) {
        *self == *other
    }
}

impl Same for RenderBackendConfig {
    open spec fn same(&self, other: &Self) -> bool {
        *self == *other
    }

    open spec fn comparable(&self) -> bool {
        true
    }

    proof fn lemma_symmetric(&self, other: &Self) {
    }

    proof fn lemma_reflexive(&self) {
    }

    fn is_same(&self, other: &Self) -> (same: bool) {
        *self == *other
    }
}

impl Same for RadiusConfig {
    open spec fn same(&self, other: &Self) -> bool {
        match (*self, *other) {
            (RadiusConfig::Auto, RadiusConfig::Auto) => true,
            (RadiusConfig::Square, RadiusConfig::Square) => true,
            (RadiusConfig::Round, RadiusConfig::Round) => true,
            (RadiusConfig::RoundSmall, RadiusConfig::RoundSmall) => true,
            (RadiusConfig::Custom(left), RadiusConfig::Custom(right)) => left.same(&right),
            _ => false,
        }
    }

    open spec fn comparable(&self) -> bool {
        match *self {
            RadiusConfig::Custom(radius) => radius.comparable(),
            _ => true,
        }
    }

    proof fn lemma_symmetric(&self, other: &Self) {
    }

    proof fn lemma_reflexive(&self) {
    }

    fn is_same(&self, other: &Self) -> (same: bool) {
        match (self, other) {
            (RadiusConfig::Auto, RadiusConfig::Auto) => true,
            (RadiusConfig::Square, RadiusConfig::Square) => true,
            (RadiusConfig::Round, RadiusConfig::Round) => true,
            (RadiusConfig::RoundSmall, RadiusConfig::RoundSmall) => true,
            (RadiusConfig::Custom(left), RadiusConfig::Custom(right)) => left.is_same(right),
            _ => false,
        }
    }
}

impl Same for WindowRule {
    open spec fn same(&self, other: &Self) -> bool {
        &&& self.kind.same(&other.kind)
        &&& self.name.same(&other.name)
        &&& self.strategy.same(&other.strategy)
        &&& self.border_width.same(&other.border_width)
        &&& self.border_offset.same(&other.border_offset)
        &&& self.border_radius.same(&other.border_radius)
        &&& self.border_z_order.same(&other.border_z_order)
        &&& self.follow_native_border.same(&other.follow_native_border)
        &&& self.active_color.same(&other.active_color)
        &&& self.inactive_color.same(&other.inactive_color)
        &&& self.komorebi_colors.same(&other.komorebi_colors)
        &&& self.initialize_delay.same(&other.initialize_delay)
        &&& self.unminimize_delay.same(&other.unminimize_delay)
        &&& self.enabled.same(&other.enabled)
    }

    open spec fn comparable(&self) -> bool {
        &&& self.border_width.comparable()
        &&& self.border_radius.comparable()
        &&& self.active_color.comparable()
        &&& self.inactive_color.comparable()
        &&& self.komorebi_colors.comparable()
    }

    proof fn lemma_symmetric(&self, other: &Self) {
        self.active_color.lemma_symmetric(&other.active_color);
        self.inactive_color.lemma_symmetric(&other.inactive_color);
        self.komorebi_colors.lemma_symmetric(&other.komorebi_colors);
    }

    proof fn lemma_reflexive(&self) {
        self.active_color.lemma_reflexive();
        self.inactive_color.lemma_reflexive();
        self.komorebi_colors.lemma_reflexive();
    }

    fn is_same(&self, other: &Self) -> (same: bool) {
        self.kind.is_same(&other.kind) && self.name.is_same(&other.name) && self.strategy.is_same(
            &other.strategy,
        ) && self.border_width.is_same(&other.border_width) && self.border_offset.is_same(
            &other.border_offset,
        ) && self.border_radius.is_same(&other.border_radius) && self.border_z_order.is_same(
            &other.border_z_order,
        ) && self.follow_native_border.is_same(&other.follow_native_border)
            && self.active_color.is_same(&other.active_color) && self.inactive_color.is_same(
            &other.inactive_color,
        ) && self.komorebi_colors.is_same(&other.komorebi_colors)
            && self.initialize_delay.is_same(&other.initialize_delay)
            && self.unminimize_delay.is_same(&other.unminimize_delay) && self.enabled.is_same(
            &other.enabled,
        )
    }
}

impl Same for Global {
    open spec fn same(&self, other: &Self) -> bool {
        &&& self.border_width.same(&other.border_width)
        &&& self.border_offset.same(&other.border_offset)
        &&& self.border_radius.same(&other.border_radius)
        &&& self.border_z_order.same(&other.border_z_order)
        &&& self.follow_native_border.same(&other.follow_native_border)
        &&& self.active_color.same(&other.active_color)
        &&& self.inactive_color.same(&other.inactive_color)
        &&& self.komorebi_colors.same(&other.komorebi_colors)
        &&& self.initialize_delay.same(&other.initialize_delay)
        &&& self.unminimize_delay.same(&other.unminimize_delay)
    }

    open spec fn comparable(&self) -> bool {
        &&& self.border_width.comparable()
        &&& self.border_radius.comparable()
        &&& self.active_color.comparable()
        &&& self.inactive_color.comparable()
        &&& self.komorebi_colors.comparable()
    }

    proof fn lemma_symmetric(&self, other: &Self) {
        self.active_color.lemma_symmetric(&other.active_color);
        self.inactive_color.lemma_symmetric(&other.inactive_color);
        self.komorebi_colors.lemma_symmetric(&other.komorebi_colors);
    }

    proof fn lemma_reflexive(&self) {
        self.active_color.lemma_reflexive();
        self.inactive_color.lemma_reflexive();
        self.komorebi_colors.lemma_reflexive();
    }

    fn is_same(&self, other: &Self) -> (same: bool) {
        self.border_width.is_same(&other.border_width) && self.border_offset.is_same(
            &other.border_offset,
        ) && self.border_radius.is_same(&other.border_radius) && self.border_z_order.is_same(
            &other.border_z_order,
        ) && self.follow_native_border.is_same(&other.follow_native_border)
            && self.active_color.is_same(&other.active_color) && self.inactive_color.is_same(
            &other.inactive_color,
        ) && self.komorebi_colors.is_same(&other.komorebi_colors)
            && self.initialize_delay.is_same(&other.initialize_delay)
            && self.unminimize_delay.is_same(&other.unminimize_delay)
    }
}

impl Same for Config {
    open spec fn same(&self, other: &Self) -> bool {
        &&& self.watch_config_changes.same(&other.watch_config_changes)
        &&& self.enable_logging.same(&other.enable_logging)
        &&& self.render_backend.same(&other.render_backend)
        &&& self.global.same(&other.global)
        &&& self.window_rules.same(&other.window_rules)
    }

    open spec fn comparable(&self) -> bool {
        &&& self.global.comparable()
        &&& self.window_rules.comparable()
    }

    proof fn lemma_symmetric(&self, other: &Self) {
        self.global.lemma_symmetric(&other.global);
        self.window_rules.lemma_symmetric(&other.window_rules);
    }

    proof fn lemma_reflexive(&self) {
        self.global.lemma_reflexive();
        self.window_rules.lemma_reflexive();
    }

    fn is_same(&self, other: &Self) -> (same: bool) {
        self.watch_config_changes.is_same(&other.watch_config_changes)
            && self.enable_logging.is_same(&other.enable_logging) && self.render_backend.is_same(
            &other.render_backend,
        ) && self.global.is_same(&other.global) && self.window_rules.is_same(&other.window_rules)
    }
}

/// Whether the borders have to be made anew after the configuration went from `old` to `new`.
///
/// `carried_same` says whether the settings that are not held here, those of animations and
/// effects, are equal in both.
pub fn config_watcher_callback(old: &Config, new: &Config, carried_same: bool) -> (reload: bool)
    ensures
        reload == !(old.same(new) && carried_same),
{
    !(old.is_same(new) && carried_same)
}

/// A file that was saved without a change makes no border anew, unless a setting of it is a number
/// that equals nothing.
pub proof fn unchanged_config_keeps_borders(config: Config)
    ensures
        config.same(&config) == config.comparable(),
{
    config.lemma_reflexive();
}

// ---------------------------------------------------------------------------------------------
// What a configuration switches on
// ---------------------------------------------------------------------------------------------

/// The services that run beside the borders.
#[derive(Debug, Clone, Copy, PartialEq, Eq, Structural)]
pub struct Services {
    pub config_watcher: bool,
    pub komorebi_integration: bool,
    pub directx_devices: bool,
}

/// What happens to a service.
#[derive(Debug, Clone, Copy, PartialEq, Eq, Structural)]
pub enum ServiceChange {
    Start,
    Stop,
    Keep,
}

/// What happens to all services when a configuration takes effect.
#[derive(Debug, Clone, Copy, PartialEq, Eq, Structural)]
pub struct ReloadPlan {
    pub config_watcher: ServiceChange,
    pub komorebi_integration: ServiceChange,
    pub directx_devices: ServiceChange,
}

/// What is made when the program starts.
#[derive(Debug, Clone, Copy, PartialEq, Eq, Structural)]
pub struct StartupPlan {
    pub logger: bool,
    pub services: Services,
}

/// What has to happen to a service for it to run exactly if it is wanted.
pub open spec fn service_change(wanted: bool, running: bool) -> ServiceChange {
    if wanted && !running {
        ServiceChange::Start
    } else if !wanted && running {
        ServiceChange::Stop
    } else {
        ServiceChange::Keep
    }
}

/// Whether a service runs after a change, if it could be started.
pub open spec fn runs_after(change: ServiceChange, running: bool) -> bool {
    match change {
        ServiceChange::Start => true,
        ServiceChange::Stop => false,
        ServiceChange::Keep => running,
    }
}

/// The services after a plan was carried out, if all of them could be started.
pub open spec fn services_after(plan: ReloadPlan, running: Services) -> Services {
    Services {
        config_watcher: runs_after(plan.config_watcher, running.config_watcher),
        komorebi_integration: runs_after(plan.komorebi_integration, running.komorebi_integration),
        directx_devices: runs_after(plan.directx_devices, running.directx_devices),
    }
}

/// The plan that leaves all services alone.
pub open spec fn keep_all() -> ReloadPlan {
    ReloadPlan {
        config_watcher: ServiceChange::Keep,
        komorebi_integration: ServiceChange::Keep,
        directx_devices: ServiceChange::Keep,
    }
}

fn plan_service(wanted: bool, running: bool) -> (change: ServiceChange)
    ensures
        change == service_change(wanted, running),
{
    if wanted && !running {
        ServiceChange::Start
    } else if !wanted && running {
        ServiceChange::Stop
    } else {
        ServiceChange::Keep
    }
}

/// Whether a rule wants komorebi to be followed.
pub open spec fn rule_follows_komorebi(rule: WindowRule) -> bool {
    rule.komorebi_colors matches Some(colors) && colors.enabled
}

impl Config {
    /// Whether komorebi is followed: globally, or by a rule.
    pub open spec fn follows_komorebi(&self) -> bool {
        ||| self.global.komorebi_colors.enabled
        ||| exists|i: int|
            0 <= i < self.window_rules@.len() && #[trigger] rule_follows_komorebi(
                self.window_rules@[i],
            )
    }

    /// The services that this configuration wants.
    pub open spec fn wanted(&self) -> Services {
        Services {
            config_watcher: self.watch_config_changes,
            komorebi_integration: self.follows_komorebi(),
            directx_devices: self.render_backend == RenderBackendConfig::V2,
        }
    }

    /// What has to happen for the wanted services to run, and no others.
    pub open spec fn plan(&self, running: Services) -> ReloadPlan {
        let wanted = self.wanted();
        ReloadPlan {
            config_watcher: service_change(wanted.config_watcher, running.config_watcher),
            komorebi_integration: service_change(
                wanted.komorebi_integration,
                running.komorebi_integration,
            ),
            directx_devices: service_change(wanted.directx_devices, running.directx_devices),
        }
    }

    /// Whether everything is off and at zero, and there is no rule.
    pub open spec fn is_blank(&self, render_backend: RenderBackendConfig) -> bool {
        &&& !self.watch_config_changes
        &&& !self.enable_logging
        &&& self.render_backend == render_backend
        &&& self.global.border_width == (FloatBits { bits: 0 })
        &&& self.global.border_offset == 0
        &&& self.global.is_bare()
        &&& self.window_rules@.len() == 0
    }

    /// The configuration in force where the file could not be read: everything off and at zero.
    pub fn unreadable(render_backend: RenderBackendConfig) -> (config: Self)
        ensures
            config.is_blank(render_backend),
    {
        Config {
            watch_config_changes: false,
            enable_logging: false,
            render_backend,
            global: Global::default(),
            window_rules: Vec::new(),
        }
    }

    pub fn is_config_watcher_enabled(&self) -> (enabled: bool)
        ensures
            enabled == self.watch_config_changes,
    {
        self.watch_config_changes
    }

    /// Whether komorebi is followed: globally, or by a rule.
    pub fn is_komorebi_integration_enabled(&self) -> (enabled: bool)
        ensures
            enabled == self.follows_komorebi(),
    {
        if self.global.komorebi_colors.enabled {
            return true;
        }
        let mut idx: usize = 0;
        while idx < self.window_rules.len()
            invariant
                !self.global.komorebi_colors.enabled,
                idx <= self.window_rules@.len(),
                forall|i: int|
                    0 <= i < idx ==> !#[trigger] rule_follows_komorebi(self.window_rules@[i]),
            decreases self.window_rules@.len() - idx,
        {
            let follows = match &self.window_rules[idx].komorebi_colors {
                Some(colors) => colors.enabled,
                None => false,
            };
            assert(follows == rule_follows_komorebi(self.window_rules@[idx as int]));
            if follows {
                return true;
            }
            idx = idx + 1;
        }
        false
    }

    /// What to make when the program starts with this configuration.
    pub fn startup(&self) -> (plan: StartupPlan)
        ensures
            plan.logger == self.enable_logging,
            plan.services == self.wanted(),
    {
        StartupPlan {
            logger: self.enable_logging,
            services: Services {
                config_watcher: self.is_config_watcher_enabled(),
                komorebi_integration: self.is_komorebi_integration_enabled(),
                directx_devices: self.render_backend == RenderBackendConfig::V2,
            },
        }
    }

    /// The configuration that is in force after a reload, and what to start and stop for it.
    ///
    /// `created` is what was read. Where nothing could be read, everything is off and at zero, and
    /// the services are left alone.
    pub fn reload(
        created: Option<Config>,
        running: Services,
        default_backend: RenderBackendConfig,
    ) -> (reloaded: (Config, ReloadPlan))
        ensures
            match created {
                Some(config) => reloaded.0 == config && reloaded.1 == config.plan(running),
                None => reloaded.0.is_blank(default_backend) && reloaded.1 == keep_all(),
            },
    {
        match created {
            Some(config) => {
                let plan = ReloadPlan {
                    config_watcher: plan_service(
                        config.is_config_watcher_enabled(),
                        running.config_watcher,
                    ),
                    komorebi_integration: plan_service(
                        config.is_komorebi_integration_enabled(),
                        running.komorebi_integration,
                    ),
                    directx_devices: plan_service(
                        config.render_backend == RenderBackendConfig::V2,
                        running.directx_devices,
                    ),
                };
                (config, plan)
            },
            None => (
                Config::unreadable(default_backend),
                ReloadPlan {
                    config_watcher: ServiceChange::Keep,
                    komorebi_integration: ServiceChange::Keep,
                    directx_devices: ServiceChange::Keep,
                },
            ),
        }
    }
}

/// After a reload exactly the wanted services run, and a second reload changes nothing.
pub proof fn reload_settles(config: Config, running: Services)
    ensures
        services_after(config.plan(running), running) == config.wanted(),
        config.plan(config.wanted()) == keep_all(),
{
}

/// Starting with a configuration gives the same services as reloading it with none running.
pub proof fn startup_is_a_first_reload(config: Config)
    ensures
        services_after(
            config.plan(
                Services {
                    config_watcher: false,
                    komorebi_integration: false,
                    directx_devices: false,
                },
            ),
            Services {
                config_watcher: false,
                komorebi_integration: false,
                directx_devices: false,
            },
        ) == config.wanted(),
{
}

// ---------------------------------------------------------------------------------------------
// Finding and reading the file
// ---------------------------------------------------------------------------------------------

/// Where the configuration lies.
#[derive(Debug, Clone, Copy, PartialEq, Eq, Structural)]
pub enum ConfigDir {
    /// In the directory that the environment names.
    FromEnvironment,
    /// In `.config/tacky-borders` under the home directory.
    UnderHome,
}

/// Why there is no place for the configuration: the environment names none, and there is no home
/// directory.
#[derive(Debug, Clone, Copy, PartialEq, Eq, Structural)]
pub struct NoConfigDir;

impl Config {
    /// Where the configuration lies. The environment goes first.
    pub fn get_dir(in_environment: bool, has_home: bool) -> (dir: Result<ConfigDir, NoConfigDir>)
        ensures
            in_environment ==> dir == Ok::<ConfigDir, NoConfigDir>(ConfigDir::FromEnvironment),
            !in_environment && has_home ==> dir == Ok::<ConfigDir, NoConfigDir>(
                ConfigDir::UnderHome,
            ),
            !in_environment && !has_home ==> dir == Err::<ConfigDir, NoConfigDir>(NoConfigDir),
    {
        if in_environment {
            Ok(ConfigDir::FromEnvironment)
        } else if has_home {
            Ok(ConfigDir::UnderHome)
        } else {
            Err(NoConfigDir)
        }
    }

    /// Starts loading a configuration.
    pub fn create() -> (load: ConfigLoad)
        ensures
            load == (ConfigLoad::Checking { checks: 0 }),
            load.wf(),
    {
        ConfigLoad::Checking { checks: 0 }
    }
}

/// How often the file is looked for, and how often it is read while it is empty. A text editor
/// that saves a file may leave it missing or empty for a moment.
pub const MAX_ATTEMPTS: u32 = 3;

/// How long to wait between two attempts, in milliseconds.
pub const RETRY_DELAY_MS: u64 = 20;

/// What to do while a configuration is loaded.
#[derive(Debug, Clone, Copy, PartialEq, Eq, Structural)]
pub enum LoadStep {
    /// Look whether the file is there; `wait` first, unless it is the first attempt.
    CheckExists { wait: bool },
    /// Write the default configuration.
    WriteDefault,
    /// Read the file; `wait` first, unless it is the first attempt.
    Read { wait: bool },
    /// Take what was read last.
    Parse,
}

/// What came of a step.
#[derive(Debug, Clone, Copy, PartialEq, Eq, Structural)]
pub enum LoadEvent {
    Exists(bool),
    DefaultWritten,
    Contents { empty: bool },
}

/// How far the loading of a configuration has come.
#[derive(Debug, Clone, Copy, PartialEq, Eq, Structural)]
pub enum ConfigLoad {
    /// The file has been looked for so many times, in vain.
    Checking { checks: u32 },
    Writing,
    /// The file has been read so many times, and was empty.
    Reading { reads: u32 },
    Done,
}

impl ConfigLoad {
    /// Whether no more attempts were made than are allowed.
    pub open spec fn wf(self) -> bool {
        match self {
            ConfigLoad::Checking { checks } => checks < MAX_ATTEMPTS,
            ConfigLoad::Reading { reads } => reads < MAX_ATTEMPTS,
            _ => true,
        }
    }

    /// What to do next.
    pub open spec fn step(self) -> LoadStep {
        match self {
            ConfigLoad::Checking { checks } => LoadStep::CheckExists { wait: checks > 0 },
            ConfigLoad::Writing => LoadStep::WriteDefault,
            ConfigLoad::Reading { reads } => LoadStep::Read { wait: reads > 0 },
            ConfigLoad::Done => LoadStep::Parse,
        }
    }

    /// Whether an event can follow the step at hand.
    pub open spec fn expects(self, event: LoadEvent) -> bool {
        match self {
            ConfigLoad::Checking { .. } => event is Exists,
            ConfigLoad::Writing => event is DefaultWritten,
            ConfigLoad::Reading { .. } => event is Contents,
            ConfigLoad::Done => false,
        }
    }

    /// How far the loading is after an event.
    pub open spec fn after(self, event: LoadEvent) -> ConfigLoad {
        match (self, event) {
            (ConfigLoad::Checking { checks }, LoadEvent::Exists(exists)) => if exists {
                ConfigLoad::Reading { reads: 0 }
            } else if checks + 1 < MAX_ATTEMPTS {
                ConfigLoad::Checking { checks: (checks + 1) as u32 }
            } else {
                ConfigLoad::Writing
            },
            (ConfigLoad::Writing, LoadEvent::DefaultWritten) => ConfigLoad::Reading { reads: 0 },
            (ConfigLoad::Reading { reads }, LoadEvent::Contents { empty }) => if empty && reads + 1
                < MAX_ATTEMPTS {
                ConfigLoad::Reading { reads: (reads + 1) as u32 }
            } else {
                ConfigLoad::Done
            },
            _ => self,
        }
    }

    /// What to do next.
    pub fn next_step(&self) -> (step: LoadStep)
        ensures
            step == self.step(),
    {
        match *self {
            ConfigLoad::Checking { checks } => LoadStep::CheckExists { wait: checks > 0 },
            ConfigLoad::Writing => LoadStep::WriteDefault,
            ConfigLoad::Reading { reads } => LoadStep::Read { wait: reads > 0 },
            ConfigLoad::Done => LoadStep::Parse,
        }
    }

    /// Takes note of what came of a step. An event that does not belong to it changes nothing.
    pub fn advance(&mut self, event: LoadEvent)
        requires
            old(self).wf(),
        ensures
            *final(self) == old(self).after(event),
            final(self).wf(),
    {
        match (*self, event) {
            (ConfigLoad::Checking { checks }, LoadEvent::Exists(exists)) => {
                if exists {
                    *self = ConfigLoad::Reading { reads: 0 };
                } else if checks + 1 < MAX_ATTEMPTS {
                    *self = ConfigLoad::Checking { checks: checks + 1 };
                } else {
                    *self = ConfigLoad::Writing;
                }
            },
            (ConfigLoad::Writing, LoadEvent::DefaultWritten) => {
                *self = ConfigLoad::Reading { reads: 0 };
            },
            (ConfigLoad::Reading { reads }, LoadEvent::Contents { empty }) => {
                if empty && reads + 1 < MAX_ATTEMPTS {
                    *self = ConfigLoad::Reading { reads: reads + 1 };
                } else {
                    *self = ConfigLoad::Done;
                }
            },
            _ => {},
        }
    }

    /// How many steps are left at most.
    pub open spec fn steps_left(self) -> int {
        match self {
            ConfigLoad::Checking { checks } => 2 * MAX_ATTEMPTS + 1 - checks,
            ConfigLoad::Writing => MAX_ATTEMPTS + 1,
            ConfigLoad::Reading { reads } => MAX_ATTEMPTS - reads,
            ConfigLoad::Done => 0,
        }
    }
}

/// How far the loading is after a list of events.
pub open spec fn load_after(load: ConfigLoad, events: Seq<LoadEvent>) -> ConfigLoad
    decreases events.len(),
{
    if events.len() == 0 {
        load
    } else {
        load_after(load, events.drop_last()).after(events.last())
    }
}

/// Whether each event belongs to the step that was at hand when it came.
pub open spec fn is_run(load: ConfigLoad, events: Seq<LoadEvent>) -> bool
    decreases events.len(),
{
    events.len() > 0 ==> {
        &&& is_run(load, events.drop_last())
        &&& load_after(load, events.drop_last()).expects(events.last())
    }
}

/// Every step brings the loading closer to its end.
pub proof fn loading_ends(load: ConfigLoad, event: LoadEvent)
    requires
        load.wf(),
        load.expects(event),
    ensures
        0 <= load.after(event).steps_left() < load.steps_left(),
{
}

/// The default configuration is written only after the file was missing in every attempt.
pub proof fn default_needs_all_attempts_to_miss(events: Seq<LoadEvent>)
    requires
        is_run(ConfigLoad::Checking { checks: 0 }, events),
        load_after(ConfigLoad::Checking { checks: 0 }, events).step() is WriteDefault,
    ensures
        events == Seq::new(MAX_ATTEMPTS as nat, |i: int| LoadEvent::Exists(false)),
{
    lemma_checks_missed(events);
    assert(events =~= Seq::new(MAX_ATTEMPTS as nat, |i: int| LoadEvent::Exists(false)));
}

proof fn lemma_checks_missed(events: Seq<LoadEvent>)
    requires
        is_run(ConfigLoad::Checking { checks: 0 }, events),
    ensures
        ({
            let load = load_after(ConfigLoad::Checking { checks: 0 }, events);
            &&& load.wf()
            &&& load matches ConfigLoad::Checking { checks } ==> events.len() == checks
            &&& load is Writing ==> events.len() == MAX_ATTEMPTS
            &&& load is Checking || load is Writing ==> forall|i: int|
                0 <= i < events.len() ==> #[trigger] events[i] == LoadEvent::Exists(false)
        }),
    decreases events.len(),
{
    if events.len() > 0 {
        lemma_checks_missed(events.drop_last());
        let before = load_after(ConfigLoad::Checking { checks: 0 }, events.drop_last());
        assert forall|i: int|
            (before is Checking || before is Writing) && 0 <= i < events.len()
                - 1 implies #[trigger] events[i] == LoadEvent::Exists(false) by {
            assert(events.drop_last()[i] == events[i]);
        }
    }
}

// ---------------------------------------------------------------------------------------------
// Corners
// ---------------------------------------------------------------------------------------------

/// What a window prefers for its corners, as the desktop numbers it.
pub const CORNER_DEFAULT: i32 = 0;

pub const CORNER_DO_NOT_ROUND: i32 = 1;

pub const CORNER_ROUND: i32 = 2;

pub const CORNER_ROUND_SMALL: i32 = 3;

/// The radius of a border's corners, before it is scaled to the screen.
#[derive(Debug, Clone, Copy)]
pub enum CornerRadius {
    /// Sharp corners.
    Sharp,
    /// A radius for the scale of 96 dots per inch, to be scaled, and to be widened by half the
    /// width of the border. Zero stays zero.
    Scaled(FloatBits),
}

/// The radius for a preference of a window. Windows 11 rounds corners by default.
pub open spec fn preferred_radius(preference: i32, is_windows_11: bool) -> CornerRadius {
    if preference == CORNER_ROUND || (preference == CORNER_DEFAULT && is_windows_11) {
        CornerRadius::Scaled(FloatBits { bits: EIGHT })
    } else if preference == CORNER_ROUND_SMALL {
        CornerRadius::Scaled(FloatBits { bits: FOUR })
    } else {
        CornerRadius::Sharp
    }
}

/// The first build of Windows 11.
pub const WINDOWS_11_BUILD: u32 = 22000;

/// Whether a build of Windows is one of Windows 11.
pub fn is_windows_11_build(build: u32) -> (is_windows_11: bool)
    ensures
        is_windows_11 == (build >= WINDOWS_11_BUILD),
{
    build >= WINDOWS_11_BUILD
}

impl RadiusConfig {
    /// Whether the window is asked for its preference. A radius of minus one asks for it too.
    pub open spec fn is_automatic(&self) -> bool {
        match *self {
            RadiusConfig::Auto => true,
            RadiusConfig::Custom(radius) => radius.bits == MINUS_ONE,
            _ => false,
        }
    }

    /// Whether the window is asked for its preference.
    pub fn asks_window(&self) -> (asks: bool)
        ensures
            asks == self.is_automatic(),
    {
        match *self {
            RadiusConfig::Auto => true,
            RadiusConfig::Custom(radius) => radius.bits == MINUS_ONE,
            _ => false,
        }
    }

    /// The radius of a border's corners. `preference` is what the window answers, if it is asked
    /// and does.
    pub fn to_radius(&self, preference: Option<i32>, is_windows_11: bool) -> (radius: CornerRadius)
        ensures
            self.is_automatic() ==> radius == preferred_radius(
                (match preference {
                    Some(answer) => answer,
                    None => CORNER_DEFAULT,
                }),
                is_windows_11,
            ),
            !self.is_automatic() ==> match *self {
                RadiusConfig::Square => radius == CornerRadius::Sharp,
                RadiusConfig::Round => radius == CornerRadius::Scaled(FloatBits { bits: EIGHT }),
                RadiusConfig::RoundSmall => radius == CornerRadius::Scaled(
                    FloatBits { bits: FOUR },
                ),
                RadiusConfig::Custom(custom) => radius == (if custom.is_zero() {
                    CornerRadius::Sharp
                } else {
                    CornerRadius::Scaled(custom)
                }),
                RadiusConfig::Auto => true,
            },
    {
        if self.asks_window() {
            let answer: i32 = preference.unwrap_or(CORNER_DEFAULT);
            if answer == CORNER_ROUND || (answer == CORNER_DEFAULT && is_windows_11) {
                CornerRadius::Scaled(FloatBits { bits: EIGHT })
            } else if answer == CORNER_ROUND_SMALL {
                CornerRadius::Scaled(FloatBits { bits: FOUR })
            } else {
                CornerRadius::Sharp
            }
        } else {
            match *self {
                RadiusConfig::Round => CornerRadius::Scaled(FloatBits { bits: EIGHT }),
                RadiusConfig::RoundSmall => CornerRadius::Scaled(FloatBits { bits: FOUR }),
                RadiusConfig::Custom(custom) => if custom.zero() {
                    CornerRadius::Sharp
                } else {
                    CornerRadius::Scaled(custom)
                },
                _ => CornerRadius::Sharp,
            }
        }
    }
}

} // verus!
