//! What a chosen song menu item asks the program to do, and the notices
//! that report how it went.

use vstd::prelude::*;
use crate::notify::{Notification, NotificationLevel};
use crate::pages::context_menu::{PlaybackMenuAction, SongContextMenu, SongMenuAction, SortTarget};
use crate::song::SongInfo;
use crate::text::{push_str, str_eq, string_of, trim_seq};

verus! {

broadcast use vstd::string::group_string_axioms;

/// What the program does for a chosen menu item; "the song" is the one
/// the menu was opened on.
#[derive(Debug, Clone)]
pub enum SongMenuCommand {
    /// Play the menu's list from this position.
    Play { index: usize },
    Download,
    /// Queue the song next or last.
    Enqueue { next: bool },
    Nothing,
    /// Only show this notification.
    Notice(Notification),
    AddToCustomPlaylist(String),
    RemoveFromCustomPlaylist(String),
    ToggleFavorite,
    Playback(PlaybackMenuAction),
    CycleSort(SortTarget),
    /// Take the song at this queue position off the queue, if it is still
    /// the song there.
    RemoveFromQueue { index: usize },
    /// Remove the song from the history and select this row.
    RemoveFromHistory { select: usize },
    ClearHistory,
    /// Ask before deleting the song's file.
    ConfirmDelete { name: String, path: String },
    ShowArtist,
    ShowAlbum,
}

/// A notification of `level` saying `message`, without title or action.
pub open spec fn notice_is(n: Notification, level: NotificationLevel, message: Seq<char>) -> bool {
    n.level == level && n.message@ == message && n.title is None && n.action_label is None && n.action_url is None
}

/// The command for `action` on the song at `index` of `songs`.
pub open spec fn song_menu_spec(action: SongMenuAction, songs: Seq<SongInfo>, index: int, r: SongMenuCommand) -> bool {
    let song = songs[index];
    match action {
        SongMenuAction::Play => r == SongMenuCommand::Play { index: index as usize },
        SongMenuAction::Download => r is Download,
        SongMenuAction::PlayNext => r == SongMenuCommand::Enqueue { next: true },
        SongMenuAction::AddToQueue => r == SongMenuCommand::Enqueue { next: false },
        SongMenuAction::OpenPlaybackControls => r is Nothing,
        SongMenuAction::OpenCustomPlaylists => r matches SongMenuCommand::Notice(n) && notice_is(
            n,
            NotificationLevel::Info,
            "请选择一个自建歌单"@,
        ),
        SongMenuAction::AddToCustomPlaylist(id) => r matches SongMenuCommand::AddToCustomPlaylist(i) && i@ == id@,
        SongMenuAction::NoCustomPlaylists => r matches SongMenuCommand::Notice(n) && notice_is(
            n,
            NotificationLevel::Info,
            "暂无自建歌单，请先进入歌单页按 c 创建"@,
        ),
        SongMenuAction::ToggleFavorite => r is ToggleFavorite,
        SongMenuAction::Playback(p) => r == SongMenuCommand::Playback(p),
        SongMenuAction::CycleSort(t) => r == SongMenuCommand::CycleSort(t),
        SongMenuAction::RemoveFromQueue => r == SongMenuCommand::RemoveFromQueue { index: index as usize },
        SongMenuAction::RemoveFromHistory => r == SongMenuCommand::RemoveFromHistory {
            select: (if index <= songs.len() - 2 { index } else if songs.len() >= 2 { songs.len() - 2 } else { 0 }) as usize,
        },
        SongMenuAction::ClearHistory => r is ClearHistory,
        SongMenuAction::DeleteLocal => match song.file_path {
            Some(p) => r matches SongMenuCommand::ConfirmDelete { name, path } && name@ == song.name@ && path@ == p@,
            None => r matches SongMenuCommand::Notice(n) && notice_is(n, NotificationLevel::Error, "无法删除：没有本地文件路径"@),
        },
        SongMenuAction::RemoveFromCustomPlaylist(id) => r matches SongMenuCommand::RemoveFromCustomPlaylist(i) && i@ == id@,
        SongMenuAction::ViewArtist => if trim_seq(song.singer@).len() > 0 {
            r is ShowArtist
        } else {
            r is Nothing
        },
        SongMenuAction::ViewAlbum => if trim_seq(song.album_name@).len() > 0 {
            r is ShowAlbum
        } else {
            r is Nothing
        },
    }
}

/// The command for a chosen item of `menu`.
pub fn song_menu_command(action: &SongMenuAction, menu: &SongContextMenu) -> (r: SongMenuCommand)
    ensures
        menu.index_spec() < menu.song_list().len(),
        song_menu_spec(*action, menu.song_list(), menu.index_spec() as int, r),
{
    let song = menu.song();
    let index = menu.index();
    match action {
        SongMenuAction::Play => SongMenuCommand::Play { index },
        SongMenuAction::Download => SongMenuCommand::Download,
        SongMenuAction::PlayNext => SongMenuCommand::Enqueue { next: true },
        SongMenuAction::AddToQueue => SongMenuCommand::Enqueue { next: false },
        SongMenuAction::OpenPlaybackControls => SongMenuCommand::Nothing,
        SongMenuAction::OpenCustomPlaylists => SongMenuCommand::Notice(Notification::info("请选择一个自建歌单")),
        SongMenuAction::AddToCustomPlaylist(id) => SongMenuCommand::AddToCustomPlaylist(id.clone()),
        SongMenuAction::NoCustomPlaylists => SongMenuCommand::Notice(Notification::info("暂无自建歌单，请先进入歌单页按 c 创建")),
        SongMenuAction::ToggleFavorite => SongMenuCommand::ToggleFavorite,
        SongMenuAction::Playback(p) => SongMenuCommand::Playback(*p),
        SongMenuAction::CycleSort(t) => SongMenuCommand::CycleSort(*t),
        SongMenuAction::RemoveFromQueue => SongMenuCommand::RemoveFromQueue { index },
        SongMenuAction::RemoveFromHistory => {
            let last = menu.songs().len().saturating_sub(2);
            SongMenuCommand::RemoveFromHistory { select: if index <= last { index } else { last } }
        },
        SongMenuAction::ClearHistory => SongMenuCommand::ClearHistory,
        SongMenuAction::DeleteLocal => match &song.file_path {
            Some(p) => SongMenuCommand::ConfirmDelete { name: song.name.clone(), path: p.clone() },
            None => SongMenuCommand::Notice(Notification::error("无法删除：没有本地文件路径")),
        },
        SongMenuAction::RemoveFromCustomPlaylist(id) => SongMenuCommand::RemoveFromCustomPlaylist(id.clone()),
        SongMenuAction::ViewArtist => {
            if crate::text::trim(song.singer.as_str()).as_str().unicode_len() > 0 {
                SongMenuCommand::ShowArtist
            } else {
                SongMenuCommand::Nothing
            }
        },
        SongMenuAction::ViewAlbum => {
            if crate::text::trim(song.album_name.as_str()).as_str().unicode_len() > 0 {
                SongMenuCommand::ShowAlbum
            } else {
                SongMenuCommand::Nothing
            }
        },
    }
}

/// Whether the queue still holds the menu's song at its position: the
/// entry there has the same id and source.
pub fn queue_entry_unchanged(current: Option<&SongInfo>, expected: &SongInfo) -> (r: bool)
    ensures
        r == match current {
            Some(c) => c.id@ == expected.id@ && c.source@ == expected.source@,
            None => false,
        },
{
    match current {
        Some(c) => str_eq(c.id.as_str(), expected.id.as_str()) && str_eq(c.source.as_str(), expected.source.as_str()),
        None => false,
    }
}

/// The notice after removing from the queue: the song's name, or a warning
/// that the queue changed under the menu.
pub fn queue_removal_notice(unchanged: bool, name: &str) -> (n: Notification)
    ensures
        unchanged ==> notice_is(n, NotificationLevel::Success, "已从队列移除: "@ + name@),
        !unchanged ==> notice_is(n, NotificationLevel::Warn, "队列已变化，请重新右键选择要移除的歌曲"@),
{
    if unchanged {
        let mut m = string_of("已从队列移除: ");
        push_str(&mut m, name);
        Notification::success(m.as_str())
    } else {
        Notification::warning("队列已变化，请重新右键选择要移除的歌曲")
    }
}

/// The notice after toggling a favorite.
pub fn favorite_notice(was_favorite: bool) -> (n: Notification)
    ensures
        notice_is(n, NotificationLevel::Success, if was_favorite { "已取消收藏"@ } else { "已添加收藏"@ }),
{
    Notification::success(if was_favorite { "已取消收藏" } else { "已添加收藏" })
}

/// The notice after adding to a custom playlist: added, already there, or
/// the storage's error.
pub fn playlist_add_notice(result: &Result<bool, String>) -> (n: Notification)
    ensures
        match result {
            Ok(true) => notice_is(n, NotificationLevel::Success, "已加入自建歌单"@),
            Ok(false) => notice_is(n, NotificationLevel::Info, "歌曲已经在这个歌单中"@),
            Err(e) => notice_is(n, NotificationLevel::Error, e@),
        },
{
    match result {
        Ok(true) => Notification::success("已加入自建歌单"),
        Ok(false) => Notification::info("歌曲已经在这个歌单中"),
        Err(e) => Notification::error(e.as_str()),
    }
}

/// The notice after removing from a custom playlist.
pub fn playlist_remove_notice(result: &Result<bool, String>) -> (n: Notification)
    ensures
        match result {
            Ok(true) => notice_is(n, NotificationLevel::Success, "已从自建歌单移除"@),
            Ok(false) => notice_is(n, NotificationLevel::Info, "歌曲已经不在这个歌单中"@),
            Err(e) => notice_is(n, NotificationLevel::Error, e@),
        },
{
    match result {
        Ok(true) => Notification::success("已从自建歌单移除"),
        Ok(false) => Notification::info("歌曲已经不在这个歌单中"),
        Err(e) => Notification::error(e.as_str()),
    }
}

/// The notice after changing a list's order.
pub fn sort_notice(label: &str) -> (n: Notification)
    ensures
        notice_is(n, NotificationLevel::Info, "排序方式: "@ + label@),
{
    let mut m = string_of("排序方式: ");
    push_str(&mut m, label);
    Notification::info(m.as_str())
}

} // verus!
