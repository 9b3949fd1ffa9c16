//! Record-and-replay of global mouse and keyboard input, with the small
//! search and bookkeeping helpers of the launcher that hosts it.
//!
//! Every function here works on plain values; reading the clock, the disk, the
//! database and the operating system is left to the caller.

pub mod app_search;
pub mod clipboard;
pub mod clipboard_image;
pub mod db;
pub mod file_history;
pub mod hooks;
pub mod hotkey;
pub mod json;
pub mod ranking;
pub mod recording;
pub mod replay;
pub mod settings;
pub mod system_folders_search;
pub mod text;
pub mod window_config;
pub mod word_records;
