//! Application configuration: the settings, their defaults and their validity.
use crate::config::color::Color;
use crate::text::{concat, decimal, decimal_text, signed_decimal, signed_decimal_text};
use vstd::prelude::*;
use vstd::string::*;

verus! {

/// Top-level application configuration.
///
/// Window classification rules live apart from it, in [`WindowRulesConfig`].
#[derive(Debug, Clone, PartialEq)]
pub struct FlowConfig {
    /// Number of columns that fit side by side on one screen.
    pub columns_per_screen: u32,
    /// Fixed column width in pixels, which overrides `columns_per_screen`.
    pub column_width: Option<u32>,
    /// Columns cannot be resized below this width.
    pub min_column_width_px: u32,
    /// Lower bound for the height of a window inside a column.
    pub min_window_height_px: u32,
    /// Padding settings.
    pub padding: Padding,
    /// Animation settings.
    pub animation: AnimationConfig,
    /// What happens when a minimized tiling window is restored.
    pub minimize_restore: MinimizeRestore,
    /// Window border settings.
    pub borders: BorderConfig,
    /// Default size of floating windows.
    pub floating: FloatingConfig,
    /// Focus reconciliation.
    pub focus: FocusConfig,
    /// Dragging tiles.
    pub drag: DragConfig,
    /// Scrolling at a screen edge.
    pub edge_scroll: EdgeScrollConfig,
    /// Hovering with the mouse.
    pub hover: HoverConfig,
    /// Saving and restoring loadouts.
    pub loadout: LoadoutConfig,
    /// Whether startup looks for a newer release.
    pub check_for_updates: bool,
}

/// Loadout save and restore settings.
#[derive(Debug, Clone, PartialEq)]
pub struct LoadoutConfig {
    /// File name, relative to the configuration directory.
    pub default_path: String,
    /// Age in seconds beyond which a saved loadout is stale; zero switches the check
    /// off.
    pub max_age_secs: u64,
}

impl Default for LoadoutConfig {
    fn default() -> (res: Self)
        ensures
            res.default_path@ == "loadout.json"@,
            res.max_age_secs == 60,
    {
        Self { default_path: "loadout.json".to_owned(), max_age_secs: 60 }
    }
}

/// The action for a window that no rule matches, where nothing else is configured.
pub fn default_window_action() -> (res: WindowAction)
    ensures
        res == WindowAction::Float,
{
    WindowAction::Float
}

impl Default for FlowConfig {
    fn default() -> (res: Self)
        ensures
            res.is_default(),
    {
        Self {
            columns_per_screen: 4,
            column_width: None,
            min_column_width_px: 640,
            min_window_height_px: 100,
            padding: Padding::default(),
            animation: AnimationConfig::default(),
            minimize_restore: MinimizeRestore::default(),
            borders: BorderConfig::default(),
            floating: FloatingConfig::default(),
            focus: FocusConfig::default(),
            drag: DragConfig::default(),
            edge_scroll: EdgeScrollConfig::default(),
            hover: HoverConfig::default(),
            loadout: LoadoutConfig::default(),
            check_for_updates: true,
        }
    }
}

/// Gap and margins in pixels. `window_gap` is the one spacing between windows and to
/// the screen edges; `up` and `down` are reserved at the top and at the bottom.
#[derive(Debug, Clone, PartialEq, Eq, Structural)]
pub struct Padding {
    /// Uniform gap between all elements.
    pub window_gap: i32,
    /// Top screen margin.
    pub up: i32,
    /// Bottom screen margin.
    pub down: i32,
}

impl Default for Padding {
    fn default() -> (res: Self)
        ensures
            res == (Padding { window_gap: 16, up: 0, down: 0 }),
    {
        Self { window_gap: 16, up: 0, down: 0 }
    }
}

/// Whether a result is `Ok` exactly when there is no fault, and otherwise carries the
/// message of the fault.
pub open spec fn reports(res: Result<(), String>, fault: Option<Seq<char>>) -> bool {
    match fault {
        None => res is Ok,
        Some(message) => res is Err && res->Err_0@ == message,
    }
}

impl Padding {
    /// The first field that is negative, as a message.
    pub open spec fn fault(&self) -> Option<Seq<char>> {
        if self.window_gap < 0 {
            Some(
                "padding.window_gap must be non-negative, got "@ + signed_decimal(
                    self.window_gap as int,
                ),
            )
        } else if self.up < 0 {
            Some("padding.up must be non-negative, got "@ + signed_decimal(self.up as int))
        } else if self.down < 0 {
            Some("padding.down must be non-negative, got "@ + signed_decimal(self.down as int))
        } else {
            None
        }
    }

    /// Checks that no value is negative; the message names the first that is.
    pub fn validate(&self) -> (res: Result<(), String>)
        ensures
            reports(res, self.fault()),
    {
        if self.window_gap < 0 {
            let n: String = signed_decimal_text(self.window_gap as i64);
            return Err(concat("padding.window_gap must be non-negative, got ", n.as_str()));
        }
        if self.up < 0 {
            let n: String = signed_decimal_text(self.up as i64);
            return Err(concat("padding.up must be non-negative, got ", n.as_str()));
        }
        if self.down < 0 {
            let n: String = signed_decimal_text(self.down as i64);
            return Err(concat("padding.down must be non-negative, got ", n.as_str()));
        }
        Ok(())
    }
}

impl FlowConfig {
    /// Whether every setting has its default value.
    pub open spec fn is_default(&self) -> bool {
        &&& self.columns_per_screen == 4
        &&& self.column_width is None
        &&& self.min_column_width_px == 640
        &&& self.min_window_height_px == 100
        &&& self.padding == (Padding { window_gap: 16, up: 0, down: 0 })
        &&& self.animation == (AnimationConfig {
            enabled: true,
            duration_ms: 240,
            easing: ConfigEasing::EaseOutExpo,
        })
        &&& self.minimize_restore == (MinimizeRestore {
            strategy: MinimizeRestoreStrategy::OriginalSlot,
        })
        &&& self.borders.is_default()
        &&& self.floating == (FloatingConfig { default_width: None, default_height: None })
        &&& self.focus == (FocusConfig { foreground_sync_interval_ms: 250 })
        &&& self.drag == (DragConfig { col_edge_ratio_bits: 0x3E38_51EC, col_edge_max_px: 120 })
        &&& self.edge_scroll == (EdgeScrollConfig {
            band_width: 30,
            initial_delay_ms: 500,
            repeat_interval_ms: 240,
        })
        &&& self.hover == (HoverConfig {
            focus_follows_mouse: true,
            focus_dwell_ms: 300,
            edge_scroll: true,
            edge_dwell_ms: 150,
            poll_interval_ms: 50,
        })
        &&& self.loadout.default_path@ == "loadout.json"@
        &&& self.loadout.max_age_secs == 60
        &&& self.check_for_updates
    }

    /// The first setting that is not valid, as a message.
    pub open spec fn fault(&self) -> Option<Seq<char>> {
        let floor = self.edge_scroll.repeat_interval(self.animation);
        if self.padding.fault() is Some {
            self.padding.fault()
        } else if self.borders.fault() is Some {
            self.borders.fault()
        } else if self.columns_per_screen == 0 {
            Some("columns_per_screen must be at least 1, got 0"@)
        } else if self.min_column_width_px == 0 {
            Some("min_column_width_px must be positive, got 0"@)
        } else if self.min_window_height_px == 0 {
            Some("min_window_height_px must be positive, got 0"@)
        } else if self.column_width is Some && self.min_column_width_px
            > self.column_width->Some_0 {
            Some(
                "min_column_width_px ("@ + decimal(self.min_column_width_px as nat)
                    + ") must not exceed column_width ("@ + decimal(
                    self.column_width->Some_0 as nat,
                ) + ")"@,
            )
        } else if self.edge_scroll.repeat_interval_ms < floor {
            Some(
                "edge_scroll.repeat_interval_ms ("@ + decimal(
                    self.edge_scroll.repeat_interval_ms as nat,
                ) + ") is below its effective floor ("@ + decimal(floor as nat)
                    + " ms, raised by the spam-guard floor or the enabled animation duration); it will be clamped at runtime — set it to at least "@
                    + decimal(floor as nat) + " to silence this warning"@,
            )
        } else {
            None
        }
    }

    /// Checks what the file format cannot: signs, limits and how settings relate. The
    /// message is about the first fault.
    ///
    /// Without a fixed column width, its comparison with the minimum is left to the
    /// time when the width is computed.
    pub fn validate(&self) -> (res: Result<(), String>)
        ensures
            reports(res, self.fault()),
    {
        self.padding.validate()?;
        self.borders.validate()?;
        if self.columns_per_screen == 0 {
            return Err("columns_per_screen must be at least 1, got 0".to_owned());
        }
        if self.min_column_width_px == 0 {
            return Err("min_column_width_px must be positive, got 0".to_owned());
        }
        if self.min_window_height_px == 0 {
            return Err("min_window_height_px must be positive, got 0".to_owned());
        }
        if let Some(cw) = self.column_width {
            if self.min_column_width_px > cw {
                let mut s: String = "min_column_width_px (".to_owned();
                s.append(decimal_text(self.min_column_width_px as u64).as_str());
                s.append(") must not exceed column_width (");
                s.append(decimal_text(cw as u64).as_str());
                s.append(")");
                return Err(s);
            }
        }
        let effective_repeat: u32 = self.edge_scroll.effective_repeat_interval_ms(&self.animation);
        if self.edge_scroll.repeat_interval_ms < effective_repeat {
            let floor: String = decimal_text(effective_repeat as u64);
            let mut s: String = "edge_scroll.repeat_interval_ms (".to_owned();
            s.append(decimal_text(self.edge_scroll.repeat_interval_ms as u64).as_str());
            s.append(") is below its effective floor (");
            s.append(floor.as_str());
            s.append(
                " ms, raised by the spam-guard floor or the enabled animation duration); it will be clamped at runtime — set it to at least ",
            );
            s.append(floor.as_str());
            s.append(" to silence this warning");
            return Err(s);
        }
        Ok(())
    }
}

/// A window classification rule. Rules are tried from the top, and the first match wins.
#[derive(Debug, Clone, PartialEq)]
pub struct WindowRule {
    /// Criteria to match against a window.
    pub match_: MatchRule,
    /// Action to take when matched.
    pub action: WindowAction,
    /// Initial column width in pixels.
    pub initial_width_px: Option<u32>,
    /// Whether this rule overrides what was learned about the application.
    pub override_persist: bool,
}

/// Match criteria of a rule; all that are given must hold.
#[derive(Debug, Clone, PartialEq, Default)]
pub struct MatchRule {
    /// Exact executable name, in any case.
    pub exe: Option<String>,
    /// Exact window title.
    pub title: Option<String>,
    /// Part of the window title.
    pub title_contains: Option<String>,
    /// Regular expression for the window title.
    pub title_regex: Option<String>,
    /// Exact window class name.
    pub class: Option<String>,
    /// Exact path of the executable, in any case.
    pub process_path: Option<String>,
    /// Regular expression for the executable name.
    pub exe_regex: Option<String>,
    /// Regular expression for the window class name.
    pub class_regex: Option<String>,
    /// Regular expression for the path of the executable.
    pub process_path_regex: Option<String>,
}

/// What to do with a window.
#[derive(Debug, Clone, Copy, PartialEq, Eq, Structural)]
pub enum WindowAction {
    /// Managed by the layout.
    Tile,
    /// Free-floating, positioned by the user.
    Float,
    /// Left alone.
    Ignore,
}

/// Window classification settings. Where no rule matches, `default_action` applies.
#[derive(Debug, Clone, PartialEq)]
pub struct WindowRulesConfig {
    /// Action for windows that no rule matches.
    pub default_action: WindowAction,
    /// Rules, first match wins.
    pub rules: Vec<WindowRule>,
}

impl WindowRulesConfig {
    /// Whether these are the default settings: everything floats.
    pub open spec fn is_default(&self) -> bool {
        self.default_action == WindowAction::Float && self.rules@.len() == 0
    }
}

impl Default for WindowRulesConfig {
    fn default() -> (res: Self)
        ensures
            res.is_default(),
    {
        Self { default_action: default_window_action(), rules: Vec::new() }
    }
}

/// Named easing curves that the configuration offers.
#[derive(Debug, Clone, Copy, PartialEq, Eq, Structural)]
pub enum ConfigEasing {
    /// Constant velocity.
    Linear,
    /// Accelerating sine curve.
    EaseInSine,
    /// Decelerating sine curve.
    EaseOutSine,
    /// Symmetric sine curve.
    EaseInOutSine,
    /// Accelerating quadratic curve.
    EaseInQuad,
    /// Decelerating quadratic curve.
    EaseOutQuad,
    /// Symmetric quadratic curve.
    EaseInOutQuad,
    /// Accelerating cubic curve.
    EaseInCubic,
    /// Decelerating cubic curve.
    EaseOutCubic,
    /// Symmetric cubic curve.
    EaseInOutCubic,
    /// Accelerating quartic curve.
    EaseInQuart,
    /// Decelerating quartic curve.
    EaseOutQuart,
    /// Symmetric quartic curve.
    EaseInOutQuart,
    /// Accelerating quintic curve.
    EaseInQuint,
    /// Decelerating quintic curve.
    EaseOutQuint,
    /// Symmetric quintic curve.
    EaseInOutQuint,
    /// Accelerating exponential curve.
    EaseInExpo,
    /// Decelerating exponential curve.
    EaseOutExpo,
    /// Symmetric exponential curve.
    EaseInOutExpo,
    /// Accelerating circular curve.
    EaseInCirc,
    /// Decelerating circular curve.
    EaseOutCirc,
    /// Symmetric circular curve.
    EaseInOutCirc,
    /// Accelerating back curve.
    EaseInBack,
    /// Decelerating back curve.
    EaseOutBack,
    /// Symmetric back curve.
    EaseInOutBack,
    /// Accelerating elastic curve.
    EaseInElastic,
    /// Decelerating elastic curve.
    EaseOutElastic,
    /// Symmetric elastic curve.
    EaseInOutElastic,
    /// Accelerating bounce curve.
    EaseInBounce,
    /// Decelerating bounce curve.
    EaseOutBounce,
    /// Symmetric bounce curve.
    EaseInOutBounce,
}

impl Default for ConfigEasing {
    fn default() -> (res: Self)
        ensures
            res == ConfigEasing::EaseOutExpo,
    {
        ConfigEasing::EaseOutExpo
    }
}

/// Animation of layout transitions.
#[derive(Debug, Clone, PartialEq, Eq, Structural)]
pub struct AnimationConfig {
    /// Whether transitions are animated at all.
    pub enabled: bool,
    /// Duration in milliseconds.
    pub duration_ms: u32,
    /// Easing curve of the position.
    pub easing: ConfigEasing,
}

impl Default for AnimationConfig {
    fn default() -> (res: Self)
        ensures
            res == (AnimationConfig {
                enabled: true,
                duration_ms: 240,
                easing: ConfigEasing::EaseOutExpo,
            }),
    {
        Self { enabled: true, duration_ms: 240, easing: ConfigEasing::EaseOutExpo }
    }
}

/// Restoring minimized tiling windows.
#[derive(Debug, Clone, PartialEq, Eq, Structural)]
pub struct MinimizeRestore {
    /// Where a restored window goes.
    pub strategy: MinimizeRestoreStrategy,
}

impl Default for MinimizeRestore {
    fn default() -> (res: Self)
        ensures
            res == (MinimizeRestore { strategy: MinimizeRestoreStrategy::OriginalSlot }),
    {
        Self { strategy: MinimizeRestoreStrategy::OriginalSlot }
    }
}

/// Where a restored window goes.
#[derive(Debug, Clone, Copy, PartialEq, Eq, Structural)]
pub enum MinimizeRestoreStrategy {
    /// Back where it was.
    OriginalSlot,
    /// To the right of the focused column.
    RightOfFocused,
    /// To the far right.
    AppendRight,
}

/// Window borders.
#[derive(Debug, Clone, PartialEq, Eq, Structural)]
pub struct BorderConfig {
    /// Whether borders are drawn at all.
    pub enabled: bool,
    /// Ring thickness in pixels.
    pub thickness: u32,
    /// How many pixels of the ring lie over the window.
    pub overlap: u32,
    /// Colour of the focused window.
    pub focused_color: Color,
    /// Colour of tiled windows without focus.
    pub unfocused_color: Color,
    /// Colour of floating windows.
    pub floating_color: Color,
}

impl Default for BorderConfig {
    fn default() -> (res: Self)
        ensures
            res.is_default(),
    {
        Self {
            enabled: true,
            thickness: 3,
            overlap: 1,
            focused_color: Color::rgb(0x00, 0xAA, 0xFF),
            unfocused_color: Color::rgb(0x55, 0x55, 0x55),
            floating_color: Color::rgb(0xAA, 0x00, 0xFF),
        }
    }
}

/// The thickest border that is accepted, in pixels.
pub const MAX_THICKNESS: u32 = 50;

impl BorderConfig {
    /// Whether every border setting has its default value.
    pub open spec fn is_default(&self) -> bool {
        &&& self.enabled
        &&& self.thickness == 3
        &&& self.overlap == 1
        &&& self.focused_color == (Color { r: 0x00, g: 0xAA, b: 0xFF })
        &&& self.unfocused_color == (Color { r: 0x55, g: 0x55, b: 0x55 })
        &&& self.floating_color == (Color { r: 0xAA, g: 0x00, b: 0xFF })
    }

    /// The first border setting that is not valid, as a message.
    pub open spec fn fault(&self) -> Option<Seq<char>> {
        if self.thickness > MAX_THICKNESS {
            Some(
                "borders.thickness must be at most "@ + decimal(MAX_THICKNESS as nat)
                    + " px, got "@ + decimal(self.thickness as nat),
            )
        } else if self.overlap > self.thickness {
            Some(
                "borders.overlap must be at most borders.thickness ("@ + decimal(
                    self.thickness as nat,
                ) + "), got "@ + decimal(self.overlap as nat),
            )
        } else {
            None
        }
    }

    /// Checks that the border is not too thick and does not lie over the window by more
    /// than its thickness.
    pub fn validate(&self) -> (res: Result<(), String>)
        ensures
            reports(res, self.fault()),
    {
        if self.thickness > MAX_THICKNESS {
            let mut s: String = "borders.thickness must be at most ".to_owned();
            s.append(decimal_text(MAX_THICKNESS as u64).as_str());
            s.append(" px, got ");
            s.append(decimal_text(self.thickness as u64).as_str());
            return Err(s);
        }
        if self.overlap > self.thickness {
            let mut s: String = "borders.overlap must be at most borders.thickness (".to_owned();
            s.append(decimal_text(self.thickness as u64).as_str());
            s.append("), got ");
            s.append(decimal_text(self.overlap as u64).as_str());
            return Err(s);
        }
        Ok(())
    }
}

/// Focus reconciliation.
#[derive(Debug, Clone, PartialEq, Eq, Structural)]
pub struct FocusConfig {
    /// Interval in milliseconds at which the foreground window is checked.
    pub foreground_sync_interval_ms: u64,
}

impl Default for FocusConfig {
    fn default() -> (res: Self)
        ensures
            res == (FocusConfig { foreground_sync_interval_ms: 250 }),
    {
        Self { foreground_sync_interval_ms: 250 }
    }
}

/// Default size of floating windows.
#[derive(Debug, Clone, PartialEq, Eq, Structural)]
pub struct FloatingConfig {
    /// Width in pixels; none for the window's own.
    pub default_width: Option<i32>,
    /// Height in pixels; none for the window's own.
    pub default_height: Option<i32>,
}

impl Default for FloatingConfig {
    fn default() -> (res: Self)
        ensures
            res == (FloatingConfig { default_width: None, default_height: None }),
    {
        Self { default_width: None, default_height: None }
    }
}

/// Dragging tiles.
#[derive(Debug, Clone)]
pub struct DragConfig {
    /// Share of a column's width that counts as its edge, as the bit pattern of a
    /// single-precision number.
    pub col_edge_ratio_bits: u32,
    /// Upper bound of that edge in pixels.
    pub col_edge_max_px: i32,
}

/// The bits of a single-precision number without its sign.
pub open spec fn magnitude_bits(bits: u32) -> u32 {
    (bits % 0x8000_0000) as u32
}

/// Whether two bit patterns stand for equal numbers: the zeros of both signs are equal, and what is
/// not a number equals nothing.
pub open spec fn same_number(a: u32, b: u32) -> bool {
    &&& magnitude_bits(a) <= 0x7F80_0000
    &&& a == b || (magnitude_bits(a) == 0 && magnitude_bits(b) == 0)
}

impl PartialEq for DragConfig {
    /// Equal settings; the ratio is compared as a number.
    fn eq(&self, other: &Self) -> (res: bool) {
        let a: u32 = self.col_edge_ratio_bits;
        let b: u32 = other.col_edge_ratio_bits;
        let same: bool = a % 0x8000_0000 <= 0x7F80_0000 && (a == b || (a % 0x8000_0000 == 0 && b
            % 0x8000_0000 == 0));
        same && self.col_edge_max_px == other.col_edge_max_px
    }
}

impl vstd::std_specs::cmp::PartialEqSpecImpl for DragConfig {
    open spec fn obeys_eq_spec() -> bool {
        true
    }

    open spec fn eq_spec(&self, other: &Self) -> bool {
        same_number(self.col_edge_ratio_bits, other.col_edge_ratio_bits) && self.col_edge_max_px
            == other.col_edge_max_px
    }
}

impl Default for DragConfig {
    /// A ratio of 0.18, and at most 120 pixels.
    fn default() -> (res: Self)
        ensures
            res == (DragConfig { col_edge_ratio_bits: 0x3E38_51EC, col_edge_max_px: 120 }),
    {
        Self { col_edge_ratio_bits: 0x3E38_51EC, col_edge_max_px: 120 }
    }
}

/// Scrolling at a screen edge.
#[derive(Debug, Clone, PartialEq, Eq, Structural)]
pub struct EdgeScrollConfig {
    /// Width of the band at the screen edge, in pixels.
    pub band_width: i32,
    /// Delay before the first scroll, in milliseconds.
    pub initial_delay_ms: u32,
    /// Delay between scrolls, in milliseconds.
    pub repeat_interval_ms: u32,
}

/// No two edge scrolls follow each other faster than this, in milliseconds.
pub const EDGE_SCROLL_SPAM_GUARD_FLOOR_MS: u32 = 80;

impl Default for EdgeScrollConfig {
    fn default() -> (res: Self)
        ensures
            res == (EdgeScrollConfig {
                band_width: 30,
                initial_delay_ms: 500,
                repeat_interval_ms: 240,
            }),
    {
        Self { band_width: 30, initial_delay_ms: 500, repeat_interval_ms: 240 }
    }
}

/// The greater of two integers.
pub open spec fn greater(a: int, b: int) -> int {
    if a >= b { a } else { b }
}

impl EdgeScrollConfig {
    /// The repeat interval that applies: as configured, but no shorter than the floor and
    /// than an animation that has to finish first.
    pub open spec fn repeat_interval(&self, animation: AnimationConfig) -> int {
        greater(
            self.repeat_interval_ms as int,
            greater(
                EDGE_SCROLL_SPAM_GUARD_FLOOR_MS as int,
                if animation.enabled { animation.duration_ms as int } else { 0 },
            ),
        )
    }

    /// The repeat interval in milliseconds that applies at run time.
    #[must_use]
    pub fn effective_repeat_interval_ms(&self, animation: &AnimationConfig) -> (res: u32)
        ensures
            res == self.repeat_interval(*animation),
    {
        let mut floor: u32 = EDGE_SCROLL_SPAM_GUARD_FLOOR_MS;
        if animation.enabled && animation.duration_ms > floor {
            floor = animation.duration_ms;
        }
        if self.repeat_interval_ms >= floor {
            self.repeat_interval_ms
        } else {
            floor
        }
    }

    /// The initial delay in milliseconds that applies at run time: never shorter than the
    /// repeat interval.
    #[must_use]
    pub fn effective_initial_delay_ms(&self, effective_repeat_interval_ms: u32) -> (res: u32)
        ensures
            res == greater(self.initial_delay_ms as int, effective_repeat_interval_ms as int),
    {
        if self.initial_delay_ms >= effective_repeat_interval_ms {
            self.initial_delay_ms
        } else {
            effective_repeat_interval_ms
        }
    }
}

/// The mouse position is not polled more often than this, in milliseconds.
pub const HOVER_POLL_FLOOR_MS: u32 = 8;

/// Hovering with the mouse.
#[derive(Debug, Clone, PartialEq, Eq, Structural)]
pub struct HoverConfig {
    /// Whether focus follows the mouse.
    pub focus_follows_mouse: bool,
    /// How long the mouse rests on a window before it gets focus, in milliseconds.
    pub focus_dwell_ms: u32,
    /// Whether resting at a screen edge scrolls.
    pub edge_scroll: bool,
    /// How long the mouse rests at an edge before scrolling starts, in milliseconds.
    pub edge_dwell_ms: u32,
    /// Polling interval in milliseconds.
    pub poll_interval_ms: u32,
}

impl Default for HoverConfig {
    fn default() -> (res: Self)
        ensures
            res == (HoverConfig {
                focus_follows_mouse: true,
                focus_dwell_ms: 300,
                edge_scroll: true,
                edge_dwell_ms: 150,
                poll_interval_ms: 50,
            }),
    {
        Self {
            focus_follows_mouse: true,
            focus_dwell_ms: 300,
            edge_scroll: true,
            edge_dwell_ms: 150,
            poll_interval_ms: 50,
        }
    }
}

impl HoverConfig {
    /// The polling interval in milliseconds that applies at run time.
    #[must_use]
    pub fn effective_poll_interval_ms(&self) -> (res: u32)
        ensures
            res == greater(self.poll_interval_ms as int, HOVER_POLL_FLOOR_MS as int),
    {
        if self.poll_interval_ms >= HOVER_POLL_FLOOR_MS {
            self.poll_interval_ms
        } else {
            HOVER_POLL_FLOOR_MS
        }
    }
}

/// The default configuration is valid.
pub proof fn default_config_is_valid(c: FlowConfig)
    requires
        c.is_default(),
    ensures
        c.fault() is None,
{
}

/// A configuration is valid exactly when every rule holds: nothing negative, nothing
/// zero that must be positive, borders within their limits, the minimum width within the
/// fixed width, and no repeat interval that would be raised at run time.
pub proof fn valid_configs_keep_every_rule(c: FlowConfig)
    ensures
        c.fault() is None <==> {
            &&& c.padding.window_gap >= 0 && c.padding.up >= 0 && c.padding.down >= 0
            &&& c.borders.overlap <= c.borders.thickness <= MAX_THICKNESS
            &&& c.columns_per_screen > 0
            &&& c.min_column_width_px > 0
            &&& c.min_window_height_px > 0
            &&& c.column_width is Some ==> c.min_column_width_px <= c.column_width->Some_0
            &&& c.edge_scroll.repeat_interval_ms == c.edge_scroll.repeat_interval(c.animation)
        },
{
}

/// The interval that applies is never below what is configured, the guard floor or an
/// enabled animation, and it equals one of them.
pub proof fn repeat_interval_bounds(e: EdgeScrollConfig, a: AnimationConfig)
    ensures
        e.repeat_interval(a) >= e.repeat_interval_ms,
        e.repeat_interval(a) >= EDGE_SCROLL_SPAM_GUARD_FLOOR_MS,
        a.enabled ==> e.repeat_interval(a) >= a.duration_ms,
        e.repeat_interval(a) == e.repeat_interval_ms || e.repeat_interval(a)
            == EDGE_SCROLL_SPAM_GUARD_FLOOR_MS || (a.enabled && e.repeat_interval(a)
            == a.duration_ms),
{
}

/// A disabled animation does not raise the repeat interval, however long it is.
pub proof fn disabled_animation_does_not_raise_the_interval(
    e: EdgeScrollConfig,
    a: AnimationConfig,
    b: AnimationConfig,
)
    requires
        !a.enabled,
        !b.enabled,
    ensures
        e.repeat_interval(a) == e.repeat_interval(b),
{
}

/// Configuring the interval that applies makes it apply unchanged.
pub proof fn applying_the_interval_is_stable(e: EdgeScrollConfig, a: AnimationConfig)
    ensures
        (EdgeScrollConfig { repeat_interval_ms: e.repeat_interval(a) as u32, ..e }).repeat_interval(
            a,
        ) == e.repeat_interval(a),
{
}

/// A result reports a fault exactly where there is one, in its words.
pub proof fn faults_are_reported(res: Result<(), String>, fault: Option<Seq<char>>)
    requires
        reports(res, fault),
    ensures
        res is Ok <==> fault is None,
        fault is Some ==> res is Err && res->Err_0@ == fault->Some_0,
{
}

/// Padding is valid exactly when no value is negative. The message names the first that is, with
/// its value.
pub proof fn padding_is_valid_without_negative_values(p: Padding)
    ensures
        p.fault() is None <==> p.window_gap >= 0 && p.up >= 0 && p.down >= 0,
        p.window_gap < 0 ==> p.fault() == Some(
            "padding.window_gap must be non-negative, got "@ + signed_decimal(p.window_gap as int),
        ),
        p.window_gap >= 0 && p.up < 0 ==> p.fault() == Some(
            "padding.up must be non-negative, got "@ + signed_decimal(p.up as int),
        ),
        p.window_gap >= 0 && p.up >= 0 && p.down < 0 ==> p.fault() == Some(
            "padding.down must be non-negative, got "@ + signed_decimal(p.down as int),
        ),
{
}

/// Border settings are valid exactly when the border is at most fifty pixels thick and lies over
/// the window by no more than its thickness. The message tells the limit and the value.
pub proof fn borders_are_valid_within_their_limits(b: BorderConfig)
    ensures
        b.fault() is None <==> b.thickness <= 50 && b.overlap <= b.thickness,
        b.thickness > 50 ==> b.fault() == Some(
            "borders.thickness must be at most "@ + decimal(50) + " px, got "@ + decimal(
                b.thickness as nat,
            ),
        ),
        b.thickness <= 50 && b.overlap > b.thickness ==> b.fault() == Some(
            "borders.overlap must be at most borders.thickness ("@ + decimal(b.thickness as nat)
                + "), got "@ + decimal(b.overlap as nat),
        ),
{
}

/// Settings are valid exactly when every one of these holds: valid padding and borders, at least
/// one column, minimal sizes above zero, a fixed column width that is not below the minimum, and a
/// repeat interval that is neither below eighty milliseconds nor below the duration of an animation
/// that is switched on.
pub proof fn settings_are_valid_exactly_within_all_limits(c: FlowConfig)
    ensures
        c.fault() is None <==> {
            &&& c.padding.window_gap >= 0
            &&& c.padding.up >= 0
            &&& c.padding.down >= 0
            &&& c.borders.thickness <= 50
            &&& c.borders.overlap <= c.borders.thickness
            &&& c.columns_per_screen >= 1
            &&& c.min_column_width_px >= 1
            &&& c.min_window_height_px >= 1
            &&& c.column_width is Some ==> c.min_column_width_px <= c.column_width->Some_0
            &&& c.edge_scroll.repeat_interval_ms >= 80
            &&& c.animation.enabled ==> c.edge_scroll.repeat_interval_ms >= c.animation.duration_ms
        },
{
}

/// The message is about the first fault: padding before borders, borders before the sizes, sizes
/// before the repeat interval.
pub proof fn first_fault_is_reported(c: FlowConfig)
    ensures
        c.padding.fault() is Some ==> c.fault() == c.padding.fault(),
        c.padding.fault() is None && c.borders.fault() is Some ==> c.fault() == c.borders.fault(),
        c.padding.fault() is None && c.borders.fault() is None ==> {
            &&& c.columns_per_screen == 0 ==> c.fault() == Some(
                "columns_per_screen must be at least 1, got 0"@,
            )
            &&& c.columns_per_screen > 0 ==> {
                &&& c.min_column_width_px == 0 ==> c.fault() == Some(
                    "min_column_width_px must be positive, got 0"@,
                )
                &&& c.min_column_width_px > 0 && c.min_window_height_px == 0 ==> c.fault() == Some(
                    "min_window_height_px must be positive, got 0"@,
                )
                &&& c.min_column_width_px > 0 && c.min_window_height_px > 0 && c.column_width
                    is Some && c.column_width->Some_0 < c.min_column_width_px ==> c.fault() == Some(
                    "min_column_width_px ("@ + decimal(c.min_column_width_px as nat)
                        + ") must not exceed column_width ("@ + decimal(
                        c.column_width->Some_0 as nat,
                    ) + ")"@,
                )
                &&& c.min_column_width_px > 0 && c.min_window_height_px > 0 && (c.column_width
                    is None || c.column_width->Some_0 >= c.min_column_width_px)
                    && c.edge_scroll.repeat_interval_ms < c.edge_scroll.repeat_interval(c.animation)
                    ==> c.fault() == Some(
                    "edge_scroll.repeat_interval_ms ("@ + decimal(
                        c.edge_scroll.repeat_interval_ms as nat,
                    ) + ") is below its effective floor ("@ + decimal(
                        c.edge_scroll.repeat_interval(c.animation) as nat,
                    )
                        + " ms, raised by the spam-guard floor or the enabled animation duration); it will be clamped at runtime — set it to at least "@
                        + decimal(c.edge_scroll.repeat_interval(c.animation) as nat)
                        + " to silence this warning"@,
                )
            }
        },
{
}

/// The settings that a fresh install has.
pub proof fn fresh_settings(c: FlowConfig)
    requires
        c.is_default(),
    ensures
        c.columns_per_screen == 4 && c.column_width is None && c.min_column_width_px == 640
            && c.min_window_height_px == 100,
        c.padding.window_gap == 16 && c.padding.up == 0 && c.padding.down == 0,
        c.animation.enabled && c.animation.duration_ms == 240 && c.animation.easing
            == ConfigEasing::EaseOutExpo,
        c.minimize_restore.strategy == MinimizeRestoreStrategy::OriginalSlot,
        c.borders.enabled && c.borders.thickness == 3 && c.borders.overlap == 1,
        c.borders.focused_color == (Color { r: 0x00, g: 0xAA, b: 0xFF }),
        c.borders.unfocused_color == (Color { r: 0x55, g: 0x55, b: 0x55 }),
        c.borders.floating_color == (Color { r: 0xAA, g: 0x00, b: 0xFF }),
        c.floating.default_width is None && c.floating.default_height is None,
        c.focus.foreground_sync_interval_ms == 250,
        c.drag.col_edge_ratio_bits == 0x3E38_51EC && c.drag.col_edge_max_px == 120,
        c.edge_scroll.band_width == 30 && c.edge_scroll.initial_delay_ms == 500
            && c.edge_scroll.repeat_interval_ms == 240,
        c.hover.focus_follows_mouse && c.hover.focus_dwell_ms == 300 && c.hover.edge_scroll
            && c.hover.edge_dwell_ms == 150 && c.hover.poll_interval_ms == 50,
        c.loadout.default_path@ == "loadout.json"@ && c.loadout.max_age_secs == 60,
        c.check_for_updates,
{
}

/// Fresh window rules let every window float.
pub proof fn fresh_rules(c: WindowRulesConfig)
    requires
        c.is_default(),
    ensures
        c.default_action == WindowAction::Float,
        c.rules@.len() == 0,
{
}

/// Ratios are equal as numbers are: a number equals itself, the zeros of both signs are equal, and
/// other numbers are equal only where all bits are.
pub proof fn ratios_are_equal_as_numbers(a: u32, b: u32)
    ensures
        same_number(a, a) <==> a <= 0x7F80_0000 || 0x8000_0000 <= a <= 0xFF80_0000,
        same_number(a, b) == same_number(b, a),
        same_number(0, 0x8000_0000),
        same_number(a, b) && a != b ==> (a == 0 || a == 0x8000_0000) && (b == 0 || b
            == 0x8000_0000),
{
}

} // verus!
