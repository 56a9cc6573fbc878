//! The persisted settings of the client and the manager that owns them.
//!
//! Window geometry is kept exactly as the IEEE-754 bit pattern of the `f64`
//! that the windowing layer uses (`f64::to_bits`); the settings logic stores
//! and moves these values but never computes with them.
use vstd::prelude::*;

verus! {

/// Bit pattern of `420.0_f64`, the default companion width.
pub const DEFAULT_COMPANION_WIDTH_BITS: u64 = 0x407a_4000_0000_0000u64;

/// Bit pattern of `520.0_f64`, the default companion height.
pub const DEFAULT_COMPANION_HEIGHT_BITS: u64 = 0x4080_4000_0000_0000u64;

/// Bit pattern of `1.0_f64`, a fully opaque window.
pub const OPAQUE_BITS: u64 = 0x3ff0_0000_0000_0000u64;

/// The global shortcut that toggles the companion window.
#[derive(Debug)]
pub struct HotkeyConfig {
    pub accelerator: String,
}

/// A stored window position; `x` and `y` are `f64` bit patterns.
#[derive(Clone, Copy, Debug)]
pub struct WindowPosition {
    pub x: u64,
    pub y: u64,
}

/// Geometry and behaviour of the companion window; `width`, `height` and
/// `opacity` are `f64` bit patterns.
#[derive(Clone, Copy, Debug)]
pub struct WindowState {
    pub width: u64,
    pub height: u64,
    pub position: Option<WindowPosition>,
    pub always_on_top: bool,
    pub opacity: u64,
}

/// Settings of the quick-chat companion window.
#[derive(Clone, Copy, Debug)]
pub struct CompanionSettings {
    pub window: WindowState,
    pub remember_position: bool,
}

/// User preferences shown in the settings window.
#[derive(Clone, Copy, Debug)]
pub struct Preferences {
    pub open_links_in_browser: bool,
    pub notifications_enabled: bool,
    pub launch_at_login: bool,
    pub allow_voice: bool,
}

/// Everything the client persists.
#[derive(Debug)]
pub struct AppSettings {
    pub hotkey: HotkeyConfig,
    pub companion: CompanionSettings,
    pub preferences: Preferences,
}

/// The mathematical value of an [`AppSettings`]: the accelerator as text, the
/// other parts as they are.
pub struct AppSettingsView {
    pub accelerator: Seq<char>,
    pub companion: CompanionSettings,
    pub preferences: Preferences,
}

impl View for AppSettings {
    type V = AppSettingsView;

    open spec fn view(&self) -> AppSettingsView {
        AppSettingsView {
            accelerator: self.hotkey.accelerator@,
            companion: self.companion,
            preferences: self.preferences,
        }
    }
}

pub open spec fn default_window_position() -> WindowPosition {
    WindowPosition { x: 0, y: 0 }
}

pub open spec fn default_window_state() -> WindowState {
    WindowState {
        width: DEFAULT_COMPANION_WIDTH_BITS,
        height: DEFAULT_COMPANION_HEIGHT_BITS,
        position: None,
        always_on_top: true,
        opacity: OPAQUE_BITS,
    }
}

pub open spec fn default_companion_settings() -> CompanionSettings {
    CompanionSettings { window: default_window_state(), remember_position: true }
}

pub open spec fn default_preferences() -> Preferences {
    Preferences {
        open_links_in_browser: true,
        notifications_enabled: true,
        launch_at_login: false,
        allow_voice: true,
    }
}

impl AppSettingsView {
    /// The settings a fresh installation starts with.
    pub open spec fn default_view() -> AppSettingsView {
        AppSettingsView {
            accelerator: "Alt+Space"@,
            companion: default_companion_settings(),
            preferences: default_preferences(),
        }
    }

    /// The same settings with the companion window's stored position replaced.
    pub open spec fn with_companion_position(self, position: Option<WindowPosition>) -> AppSettingsView {
        AppSettingsView {
            companion: CompanionSettings {
                window: WindowState { position: position, ..self.companion.window },
                ..self.companion
            },
            ..self
        }
    }

    /// The same settings with "open external links in the browser" flipped.
    pub open spec fn with_links_toggled(self) -> AppSettingsView {
        AppSettingsView {
            preferences: Preferences {
                open_links_in_browser: !self.preferences.open_links_in_browser,
                ..self.preferences
            },
            ..self
        }
    }
}

/// What loading yields: the stored settings when a readable file was found,
/// the defaults otherwise.
pub open spec fn stored_or_default(stored: Option<AppSettings>) -> AppSettingsView {
    match stored {
        Some(s) => s@,
        None => AppSettingsView::default_view(),
    }
}

impl Clone for HotkeyConfig {
    fn clone(&self) -> (r: Self)
        ensures
            r == *self,
    {
        HotkeyConfig { accelerator: self.accelerator.clone() }
    }
}

impl Clone for AppSettings {
    fn clone(&self) -> (r: Self)
        ensures
            r == *self,
    {
        AppSettings {
            hotkey: self.hotkey.clone(),
            companion: self.companion,
            preferences: self.preferences,
        }
    }
}

impl Default for HotkeyConfig {
    fn default() -> (r: Self)
        ensures
            r.accelerator@ == "Alt+Space"@,
    {
        HotkeyConfig { accelerator: String::from_str("Alt+Space") }
    }
}

impl Default for WindowPosition {
    fn default() -> (r: Self)
        ensures
            r == default_window_position(),
    {
        WindowPosition { x: 0, y: 0 }
    }
}

impl Default for WindowState {
    fn default() -> (r: Self)
        ensures
            r == default_window_state(),
    {
        WindowState {
            width: DEFAULT_COMPANION_WIDTH_BITS,
            height: DEFAULT_COMPANION_HEIGHT_BITS,
            position: None,
            always_on_top: true,
            opacity: OPAQUE_BITS,
        }
    }
}

impl Default for CompanionSettings {
    fn default() -> (r: Self)
        ensures
            r == default_companion_settings(),
    {
        CompanionSettings { window: WindowState::default(), remember_position: true }
    }
}

impl Default for Preferences {
    fn default() -> (r: Self)
        ensures
            r == default_preferences(),
    {
        Preferences {
            open_links_in_browser: true,
            notifications_enabled: true,
            launch_at_login: false,
            allow_voice: true,
        }
    }
}

impl Default for AppSettings {
    fn default() -> (r: Self)
        ensures
            r@ == AppSettingsView::default_view(),
    {
        AppSettings {
            hotkey: HotkeyConfig::default(),
            companion: CompanionSettings::default(),
            preferences: Preferences::default(),
        }
    }
}

/// Owner of the current settings and of the path of the file that holds them.
///
/// Reading and writing that file is left to the caller: every operation that
/// changes the settings returns the settings that must now be written.
pub struct SettingsManager {
    path: String,
    state: AppSettings,
}

impl View for SettingsManager {
    type V = AppSettingsView;

    open spec fn view(&self) -> AppSettingsView {
        self.settings()@
    }
}

impl SettingsManager {
    /// The settings currently held.
    pub closed spec fn settings(&self) -> AppSettings {
        self.state
    }

    /// The path of the settings file.
    pub closed spec fn path_view(&self) -> Seq<char> {
        self.path@
    }

    /// A manager for the settings file at `path`, given what was read from
    /// it: `Some` settings when the file existed and held valid settings,
    /// `None` when it was missing or could not be understood.
    pub fn from_path(path: String, stored: Option<AppSettings>) -> (r: Self)
        ensures
            r.path_view() == path@,
            r@ == stored_or_default(stored),
            stored matches Some(s) ==> r.settings() == s,
    {
        let state = match stored {
            Some(s) => s,
            None => AppSettings::default(),
        };
        SettingsManager { path, state }
    }

    /// The path of the settings file.
    pub fn path(&self) -> (r: &str)
        ensures
            r@ == self.path_view(),
    {
        self.path.as_str()
    }

    /// A copy of the current settings.
    pub fn get(&self) -> (r: AppSettings)
        ensures
            r == self.settings(),
    {
        self.state.clone()
    }

    /// Replaces the settings by what `updater` makes of them and returns the
    /// new settings, which are to be written to the settings file.
    pub fn update<F: FnOnce(AppSettings) -> AppSettings>(&mut self, updater: F) -> (r: AppSettings)
        requires
            call_requires(updater, (old(self).settings(),)),
        ensures
            call_ensures(updater, (old(self).settings(),), final(self).settings()),
            r == final(self).settings(),
            final(self).path_view() == old(self).path_view(),
    {
        let current = self.state.clone();
        self.state = updater(current);
        self.state.clone()
    }

    /// Returns every setting to its default and returns the defaults, which
    /// are to be written before the settings file is removed.
    pub fn clear(&mut self) -> (r: AppSettings)
        ensures
            final(self)@ == AppSettingsView::default_view(),
            r == final(self).settings(),
            final(self).path_view() == old(self).path_view(),
    {
        self.state = AppSettings::default();
        self.state.clone()
    }
}

/// Forgets the companion window's stored position, so that it is placed at
/// the bottom centre of the screen again; nothing else changes.
pub fn reset_companion_position(settings: &mut SettingsManager) -> (r: AppSettings)
    ensures
        final(settings)@ == old(settings)@.with_companion_position(None),
        final(settings).settings().companion.window.position is None,
        final(settings).settings().companion.window.width == old(settings).settings().companion.window.width,
        final(settings).settings().companion.window.height == old(settings).settings().companion.window.height,
        final(settings).settings().companion.window.always_on_top == old(settings).settings().companion.window.always_on_top,
        final(settings).settings().companion.window.opacity == old(settings).settings().companion.window.opacity,
        final(settings).settings().companion.remember_position == old(settings).settings().companion.remember_position,
        final(settings).settings().preferences.open_links_in_browser == old(settings).settings().preferences.open_links_in_browser,
        final(settings).settings().preferences.notifications_enabled == old(settings).settings().preferences.notifications_enabled,
        final(settings).settings().preferences.launch_at_login == old(settings).settings().preferences.launch_at_login,
        final(settings).settings().preferences.allow_voice == old(settings).settings().preferences.allow_voice,
        final(settings).settings().hotkey.accelerator@ == old(settings).settings().hotkey.accelerator@,
        r == final(settings).settings(),
        final(settings).path_view() == old(settings).path_view(),
{
    let forget = |s: AppSettings| -> (r: AppSettings)
        ensures r@ == s@.with_companion_position(None)
    {
        let mut s = s;
        s.companion.window.position = None;
        s
    };
    settings.update(forget)
}

/// Flips "open external links in the browser"; nothing else changes.
pub fn toggle_external_links(settings: &mut SettingsManager) -> (r: AppSettings)
    ensures
        final(settings)@ == old(settings)@.with_links_toggled(),
        final(settings).settings().preferences.open_links_in_browser
            == !old(settings).settings().preferences.open_links_in_browser,
        final(settings).settings().companion.window.width == old(settings).settings().companion.window.width,
        final(settings).settings().companion.window.height == old(settings).settings().companion.window.height,
        final(settings).settings().companion.window.always_on_top == old(settings).settings().companion.window.always_on_top,
        final(settings).settings().companion.window.opacity == old(settings).settings().companion.window.opacity,
        final(settings).settings().companion.window.position == old(settings).settings().companion.window.position,
        final(settings).settings().companion.remember_position == old(settings).settings().companion.remember_position,
        final(settings).settings().preferences.notifications_enabled == old(settings).settings().preferences.notifications_enabled,
        final(settings).settings().preferences.launch_at_login == old(settings).settings().preferences.launch_at_login,
        final(settings).settings().preferences.allow_voice == old(settings).settings().preferences.allow_voice,
        final(settings).settings().hotkey.accelerator@ == old(settings).settings().hotkey.accelerator@,
        r == final(settings).settings(),
        final(settings).path_view() == old(settings).path_view(),
{
    let flip = |s: AppSettings| -> (r: AppSettings)
        ensures r@ == s@.with_links_toggled()
    {
        let mut s = s;
        s.preferences.open_links_in_browser = !s.preferences.open_links_in_browser;
        s
    };
    settings.update(flip)
}

/// Remembers `position` as where the companion window was moved to;
/// nothing else changes.
pub fn record_companion_position(settings: &mut SettingsManager, position: WindowPosition) -> (r: AppSettings)
    ensures
        final(settings)@ == old(settings)@.with_companion_position(Some(position)),
        final(settings).settings().companion.window.position == Some(position),
        final(settings).settings().companion.window.width == old(settings).settings().companion.window.width,
        final(settings).settings().companion.window.height == old(settings).settings().companion.window.height,
        final(settings).settings().companion.window.always_on_top == old(settings).settings().companion.window.always_on_top,
        final(settings).settings().companion.window.opacity == old(settings).settings().companion.window.opacity,
        final(settings).settings().companion.remember_position == old(settings).settings().companion.remember_position,
        final(settings).settings().preferences.open_links_in_browser == old(settings).settings().preferences.open_links_in_browser,
        final(settings).settings().preferences.notifications_enabled == old(settings).settings().preferences.notifications_enabled,
        final(settings).settings().preferences.launch_at_login == old(settings).settings().preferences.launch_at_login,
        final(settings).settings().preferences.allow_voice == old(settings).settings().preferences.allow_voice,
        final(settings).settings().hotkey.accelerator@ == old(settings).settings().hotkey.accelerator@,
        r == final(settings).settings(),
        final(settings).path_view() == old(settings).path_view(),
{
    let remember = move |s: AppSettings| -> (r: AppSettings)
        ensures r@ == s@.with_companion_position(Some(position))
    {
        let mut s = s;
        s.companion.window.position = Some(position);
        s
    };
    settings.update(remember)
}

/// Replaces all settings by `new_settings`, as the settings window saves them.
pub fn replace_settings(settings: &mut SettingsManager, new_settings: AppSettings) -> (r: AppSettings)
    ensures
        final(settings).settings() == new_settings,
        r == new_settings,
        final(settings).path_view() == old(settings).path_view(),
{
    let ghost expected = new_settings;
    let replace = move |s: AppSettings| -> (r: AppSettings)
        ensures r == expected
    {
        new_settings
    };
    settings.update(replace)
}

/// Settings that were written load back unchanged, and a missing or
/// unreadable settings file loads as the defaults.
pub proof fn lemma_reload_gives_back_what_was_saved(saved: AppSettings)
    ensures
        stored_or_default(Some(saved)) == saved@,
        stored_or_default(None) == AppSettingsView::default_view(),
{
}

/// Toggling the external-links preference twice restores the settings.
pub proof fn lemma_toggling_links_twice_restores(v: AppSettingsView)
    ensures
        v.with_links_toggled().with_links_toggled() == v,
{
    assert(v.with_links_toggled().with_links_toggled().preferences == v.preferences);
}

/// Resetting the companion position forgets any position recorded before,
/// and resetting twice is the same as resetting once.
pub proof fn lemma_reset_forgets_recorded_position(v: AppSettingsView, position: WindowPosition)
    ensures
        v.with_companion_position(Some(position)).with_companion_position(None)
            == v.with_companion_position(None),
        v.with_companion_position(None).with_companion_position(None) == v.with_companion_position(None),
{
    assert(v.with_companion_position(Some(position)).with_companion_position(None).companion
        == v.with_companion_position(None).companion);
}

/// Recording a position stores exactly that position, whatever position was
/// stored before, and leaves every other setting as it was.
pub proof fn lemma_recording_position_stores_it(v: AppSettingsView, position: WindowPosition)
    ensures
        ({
            let r = v.with_companion_position(Some(position));
            &&& r.companion.window.position == Some(position)
            &&& r.companion.window.width == v.companion.window.width
            &&& r.companion.window.height == v.companion.window.height
            &&& r.companion.window.always_on_top == v.companion.window.always_on_top
            &&& r.companion.window.opacity == v.companion.window.opacity
            &&& r.companion.remember_position == v.companion.remember_position
            &&& r.preferences == v.preferences
            &&& r.accelerator == v.accelerator
        }),
{
}

/// Resetting the companion position clears only the position: size,
/// opacity, always-on-top, the other companion setting, the preferences and
/// the hotkey keep their values.
pub proof fn lemma_reset_changes_only_the_position(v: AppSettingsView)
    ensures
        ({
            let r = v.with_companion_position(None);
            &&& r.companion.window.position is None
            &&& r.companion.window.width == v.companion.window.width
            &&& r.companion.window.height == v.companion.window.height
            &&& r.companion.window.always_on_top == v.companion.window.always_on_top
            &&& r.companion.window.opacity == v.companion.window.opacity
            &&& r.companion.remember_position == v.companion.remember_position
            &&& r.preferences == v.preferences
            &&& r.accelerator == v.accelerator
        }),
{
}

/// Toggling external links flips that preference and nothing else.
pub proof fn lemma_toggle_flips_only_external_links(v: AppSettingsView)
    ensures
        ({
            let r = v.with_links_toggled();
            &&& r.preferences.open_links_in_browser == !v.preferences.open_links_in_browser
            &&& r.preferences.notifications_enabled == v.preferences.notifications_enabled
            &&& r.preferences.launch_at_login == v.preferences.launch_at_login
            &&& r.preferences.allow_voice == v.preferences.allow_voice
            &&& r.companion == v.companion
            &&& r.accelerator == v.accelerator
        }),
{
}

/// A fresh installation, and every clear, starts from these values: the
/// `Alt+Space` hotkey; a 420 by 520, fully opaque, always-on-top companion
/// window with no stored position that remembers where it is moved; links
/// opened in the browser, notifications and voice on, launch at login off.
pub proof fn lemma_default_settings_values()
    ensures
        AppSettingsView::default_view().accelerator == "Alt+Space"@,
        AppSettingsView::default_view().companion.window.width == 0x407a_4000_0000_0000u64,
        AppSettingsView::default_view().companion.window.height == 0x4080_4000_0000_0000u64,
        AppSettingsView::default_view().companion.window.opacity == 0x3ff0_0000_0000_0000u64,
        AppSettingsView::default_view().companion.window.position is None,
        AppSettingsView::default_view().companion.window.always_on_top,
        AppSettingsView::default_view().companion.remember_position,
        AppSettingsView::default_view().preferences.open_links_in_browser,
        AppSettingsView::default_view().preferences.notifications_enabled,
        !AppSettingsView::default_view().preferences.launch_at_login,
        AppSettingsView::default_view().preferences.allow_voice,
        stored_or_default(None) == AppSettingsView::default_view(),
{
}

} // verus!
