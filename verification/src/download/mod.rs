//! Music downloads: transfer planning, the task list, persistent records and
//! WebDAV synchronisation.

pub mod engine;
pub mod manager;
pub mod records;
pub mod webdav;
