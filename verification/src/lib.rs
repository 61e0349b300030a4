//! Verified core of a quick-chat panel for a game: scheme storage, the key
//! state machine that drives the panel, and the decisions around it.

pub mod pinyin_table;
pub mod search;
pub mod text;
pub mod scheme;
pub mod state;
pub mod config;
pub mod overlay;
pub mod burst;
pub mod app;
pub mod logger;
pub mod input;
pub mod updater;
pub mod ui;
pub mod window;
