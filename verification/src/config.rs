//! Settings of the application and their defaults.

use vstd::prelude::*;

verus! {

/// General settings.
#[derive(Clone, Debug)]
pub struct GeneralConfig {
    pub auto_start: bool,
    pub language: String,
}

/// Settings of the hotkey.
#[derive(Clone, Debug)]
pub struct HotkeyConfig {
    pub mode: String,
    pub combo_key: String,
    pub double_tap_key: String,
    pub double_tap_interval: u64,
}

/// Settings of the floating button.
#[derive(Clone, Copy, Debug, PartialEq, Eq, Structural)]
pub struct FloatingButtonConfig {
    pub enabled: bool,
    pub position_x: i32,
    pub position_y: i32,
}

/// Settings of the recognition.
#[derive(Clone, Copy, Debug, PartialEq, Eq, Structural)]
pub struct AsrConfig {
    pub vad_enabled: bool,
}

/// All settings of the application.
#[derive(Clone, Debug)]
pub struct AppConfig {
    pub general: GeneralConfig,
    pub hotkey: HotkeyConfig,
    pub floating_button: FloatingButtonConfig,
    pub asr: AsrConfig,
}

/// The language that is set where none is named.
pub fn default_language() -> (language: String)
    ensures
        language@ == "zh-CN"@,
{
    "zh-CN".to_owned()
}

/// The hotkey mode that is set where none is named.
pub fn default_hotkey_mode() -> (mode: String)
    ensures
        mode@ == "combo"@,
{
    "combo".to_owned()
}

/// The key combination that is set where none is named.
pub fn default_combo_key() -> (key: String)
    ensures
        key@ == "Ctrl+Shift+V"@,
{
    "Ctrl+Shift+V".to_owned()
}

/// The key to tap twice that is set where none is named.
pub fn default_double_tap_key() -> (key: String)
    ensures
        key@ == "Ctrl"@,
{
    "Ctrl".to_owned()
}

/// The longest time between two taps, in milliseconds, that is set where
/// none is named.
pub fn default_double_tap_interval() -> (interval: u64)
    ensures
        interval == 300,
{
    300
}

/// The value of a switch that is on where nothing is said.
pub fn default_true() -> (on: bool)
    ensures
        on,
{
    true
}

/// The position of the floating button, on either axis, where none is
/// named.
pub fn default_position() -> (position: i32)
    ensures
        position == 100,
{
    100
}

impl GeneralConfig {
    /// The settings hold the defaults.
    pub open spec fn is_default(&self) -> bool {
        !self.auto_start && self.language@ == "zh-CN"@
    }
}

impl Default for GeneralConfig {
    fn default() -> (config: GeneralConfig)
        ensures
            config.is_default(),
    {
        GeneralConfig { auto_start: false, language: default_language() }
    }
}

impl HotkeyConfig {
    /// The settings hold the defaults.
    pub open spec fn is_default(&self) -> bool {
        &&& self.mode@ == "combo"@
        &&& self.combo_key@ == "Ctrl+Shift+V"@
        &&& self.double_tap_key@ == "Ctrl"@
        &&& self.double_tap_interval == 300
    }
}

impl Default for HotkeyConfig {
    fn default() -> (config: HotkeyConfig)
        ensures
            config.is_default(),
    {
        HotkeyConfig {
            mode: default_hotkey_mode(),
            combo_key: default_combo_key(),
            double_tap_key: default_double_tap_key(),
            double_tap_interval: default_double_tap_interval(),
        }
    }
}

impl Default for FloatingButtonConfig {
    fn default() -> (config: FloatingButtonConfig)
        ensures
            config == (FloatingButtonConfig { enabled: true, position_x: 100, position_y: 100 }),
    {
        FloatingButtonConfig { enabled: true, position_x: 100, position_y: 100 }
    }
}

impl Default for AsrConfig {
    fn default() -> (config: AsrConfig)
        ensures
            config == (AsrConfig { vad_enabled: true }),
    {
        AsrConfig { vad_enabled: true }
    }
}

impl AppConfig {
    /// All settings hold their defaults.
    pub open spec fn is_default(&self) -> bool {
        &&& self.general.is_default()
        &&& self.hotkey.is_default()
        &&& self.floating_button == (FloatingButtonConfig {
            enabled: true,
            position_x: 100,
            position_y: 100,
        })
        &&& self.asr == (AsrConfig { vad_enabled: true })
    }
}

impl Default for AppConfig {
    fn default() -> (config: AppConfig)
        ensures
            config.is_default(),
    {
        AppConfig {
            general: GeneralConfig::default(),
            hotkey: HotkeyConfig::default(),
            floating_button: FloatingButtonConfig::default(),
            asr: AsrConfig::default(),
        }
    }
}

} // verus!
