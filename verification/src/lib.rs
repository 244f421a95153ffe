//! Verified core of the voicefox terminal music player: download planning and
//! bookkeeping, WebDAV path handling, and the small decision functions the
//! interface runs on every key press and frame.

pub mod app_loop;
pub mod casefold;
pub mod config_migration;
pub mod cover;
pub mod download;
pub mod navigation;
pub mod notify;
pub mod pages;
pub mod playback;
pub mod player_settings;
pub mod song;
pub mod text;
pub mod width;
