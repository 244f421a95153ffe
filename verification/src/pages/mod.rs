//! The decisions behind the interface's pages and overlays: key handling,
//! scrolling, and the text they show.

pub mod bili_login;
pub mod context_menu;
pub mod downloads;
pub mod geometry;
pub mod help;
pub mod history;
pub mod input;
pub mod leaderboard;
pub mod local_music;
pub mod player_controls;
pub mod song_table;
pub mod toast;
pub mod status_bar;
pub mod lyric;
pub mod tabs;
pub mod frame;
pub mod favorites;
pub mod song_menu;
