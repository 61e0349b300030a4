//! Settings of the panel and of the key handling.

use vstd::prelude::*;
use vstd::string::StringExecFns;

verus! {

/// Virtual-key code of the default trigger key (`~`).
pub const DEFAULT_TRIGGER_KEY: u16 = 0xC0;

/// All settings.
#[derive(Debug, Clone)]
pub struct Config {
    /// Only react when the foreground window belongs to the game.
    pub only_300: bool,
    /// Send to the public channel (Shift + Enter).
    pub public_chat: bool,
    /// Panel on the left (`true`) or right side of the game window.
    pub panel_left: bool,
    /// Virtual-key code of the key that opens and closes the panel.
    pub trigger_key: u16,
    /// Keep keys from reaching the game while the panel is open.
    pub shield_hotkey: bool,
    /// Go back to the home page after sending from a secondary panel.
    pub auto_back: bool,
    /// Only paste, without pressing Enter.
    pub chat_mode: bool,
    /// Burst interval (0 = off, 1-9 seconds).
    pub burst_interval: u8,
    /// Active scheme number.
    pub active_scheme: u8,
    /// Whether keys 1-9 open secondary panels.
    pub use_secondary: bool,
    /// Panel width in pixels.
    pub panel_width: u16,
    /// Background colour (RGB).
    pub bg_color: [u8; 3],
    /// Background opacity 0-255.
    pub bg_alpha: u8,
    /// Font family.
    pub font_family: String,
    /// Font size in pixels.
    pub font_size: u16,
    /// Bold text.
    pub font_bold: bool,
    /// Text colour (RGB).
    pub text_color: [u8; 3],
    /// Outline colour (RGB).
    pub outline_color: [u8; 3],
    /// Outline width in pixels.
    pub outline_size: u8,
}

/// An RGB colour given by its three components.
pub open spec fn is_rgb(c: [u8; 3], r: u8, g: u8, b: u8) -> bool {
    c[0] == r && c[1] == g && c[2] == b
}

impl Config {
    /// The settings a fresh installation starts with.
    pub open spec fn is_default(&self) -> bool {
        &&& self.only_300
        &&& self.public_chat
        &&& self.panel_left
        &&& self.trigger_key == DEFAULT_TRIGGER_KEY
        &&& !self.shield_hotkey
        &&& self.auto_back
        &&& !self.chat_mode
        &&& self.burst_interval == 0
        &&& self.active_scheme == 0
        &&& self.use_secondary
        &&& self.panel_width == 400
        &&& is_rgb(self.bg_color, 0, 0, 0)
        &&& self.bg_alpha == 200
        &&& self.font_family@ == "Microsoft YaHei"@
        &&& self.font_size == 24
        &&& self.font_bold
        &&& is_rgb(self.text_color, 255, 255, 255)
        &&& is_rgb(self.outline_color, 0, 0, 0)
        &&& self.outline_size == 1
    }
}

impl Default for Config {
    fn default() -> (c: Self)
        ensures
            c.is_default(),
    {
        Config {
            only_300: true,
            public_chat: true,
            panel_left: true,
            trigger_key: DEFAULT_TRIGGER_KEY,
            shield_hotkey: false,
            auto_back: true,
            chat_mode: false,
            burst_interval: 0,
            active_scheme: 0,
            use_secondary: true,
            panel_width: 400,
            bg_color: [0, 0, 0],
            bg_alpha: 200,
            font_family: String::from_str("Microsoft YaHei"),
            font_size: 24,
            font_bold: true,
            text_color: [255, 255, 255],
            outline_color: [0, 0, 0],
            outline_size: 1,
        }
    }
}

} // verus!
