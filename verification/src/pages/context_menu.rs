//! The song context menu: the items it offers for a song, moving through
//! them, opening its sub-menus, and where it appears on screen.

use vstd::prelude::*;
use crate::pages::geometry::{sat_add16, sat_sub16, Position, Rect};
use crate::pages::input::{KeyCode, KeyEvent, MouseEvent, MouseEventKind};
use crate::song::SongInfo;
use crate::pages::song_table::{push_spaces, spaces};
use crate::text::{push_char, push_str, string_of, trim_seq};
use crate::width::{str_width, unicode_str_width};

verus! {

broadcast use vstd::string::group_string_axioms;

/// The list a menu was opened on.
#[derive(Debug, Clone, Copy, PartialEq, Eq, Structural)]
pub enum SongMenuKind {
    Queue,
    Standard,
    History,
    Local,
}

/// Lists whose order can be changed from the menu.
#[derive(Debug, Clone, Copy, PartialEq, Eq, Structural)]
pub enum SortTarget {
    Favorites,
    History,
    Local,
}

/// Playback settings reachable from the menu.
#[derive(Debug, Clone, Copy, PartialEq, Eq, Structural)]
pub enum PlaybackMenuAction {
    CycleSpeed,
    UseDefaultAudioDevice,
    CycleReplayGainMode,
    CycleReplayGainPreamp,
    ToggleReplayGainClip,
    CycleEqualizer,
    CycleChannelMode,
    CycleBalance,
    FadeIn,
    FadeOut,
    SetAbLoopStart,
    SetAbLoopEnd,
    ClearAbLoop,
}

/// What a menu item does.
#[derive(Debug, Clone, PartialEq, Eq)]
pub enum SongMenuAction {
    Play,
    Download,
    PlayNext,
    AddToQueue,
    OpenCustomPlaylists,
    OpenPlaybackControls,
    Playback(PlaybackMenuAction),
    AddToCustomPlaylist(String),
    NoCustomPlaylists,
    ToggleFavorite,
    CycleSort(SortTarget),
    RemoveFromQueue,
    RemoveFromHistory,
    ClearHistory,
    DeleteLocal,
    RemoveFromCustomPlaylist(String),
    ViewArtist,
    ViewAlbum,
}

/// What a key or click on the menu leads to.
#[derive(Debug, Clone, PartialEq, Eq)]
pub enum MenuOutcome {
    /// The menu stays open; nothing to carry out.
    Unchanged,
    Close,
    Action(SongMenuAction),
}

/// The groups items are drawn in, with separators between.
#[derive(Debug, Clone, Copy, PartialEq, Eq, Structural)]
pub enum MenuGroup {
    Playback,
    Operations,
    Playlist,
    Info,
    Manage,
    Other,
}

/// One menu line.
#[derive(Debug, Clone)]
pub struct MenuItem {
    pub label: String,
    pub action: SongMenuAction,
    pub icon: Option<&'static str>,
    pub shortcut: Option<&'static str>,
    pub disabled: bool,
    pub group: MenuGroup,
}



pub open spec fn opt_view(o: Option<&'static str>) -> Option<Seq<char>> {
    match o {
        Some(s) => Some(s@),
        None => None,
    }
}

impl MenuItem {
    pub open spec fn view_item(self) -> (Seq<char>, SongMenuAction, Option<Seq<char>>, Option<Seq<char>>, bool, MenuGroup) {
        (self.label@, self.action, opt_view(self.icon), opt_view(self.shortcut), self.disabled, self.group)
    }

    /// An enabled item with no icon or shortcut, in no group.
    pub fn new(label: String, action: SongMenuAction) -> (m: Self)
        ensures
            m.label == label,
            m.action == action,
            m.icon is None,
            m.shortcut is None,
            !m.disabled,
            m.group == MenuGroup::Other,
    {
        MenuItem { label, action, icon: None, shortcut: None, disabled: false, group: MenuGroup::Other }
    }

    pub fn with_icon(self, icon: &'static str) -> (m: Self)
        ensures
            m == (MenuItem { icon: Some(icon), ..self }),
    {
        MenuItem { icon: Some(icon), ..self }
    }

    pub fn with_shortcut(self, sc: &'static str) -> (m: Self)
        ensures
            m == (MenuItem { shortcut: Some(sc), ..self }),
    {
        MenuItem { shortcut: Some(sc), ..self }
    }

    pub fn disabled(self) -> (m: Self)
        ensures
            m == (MenuItem { disabled: true, ..self }),
    {
        MenuItem { disabled: true, ..self }
    }

    pub fn in_group(self, g: MenuGroup) -> (m: Self)
        ensures
            m == (MenuItem { group: g, ..self }),
    {
        MenuItem { group: g, ..self }
    }
}

fn item(label: &str, action: SongMenuAction, icon: &'static str, shortcut: Option<&'static str>, group: MenuGroup) -> (m: MenuItem)
    ensures
        m.view_item() == (label@, action, Some(icon@), opt_view(shortcut), false, group),
{
    MenuItem { label: string_of(label), action, icon: Some(icon), shortcut, disabled: false, group }
}

/// The playback settings shown in the playback sub-menu, each already
/// written out.
#[derive(Debug, Clone)]
pub struct PlaybackMenuState {
    /// The speed, such as `1.25`.
    pub speed: String,
    pub audio_device: String,
    pub replaygain_mode: String,
    /// The preamp in dB with its sign, such as `+0.0`.
    pub replaygain_preamp: String,
    pub replaygain_clip: bool,
    pub equalizer: String,
    pub channel_mode: String,
    /// The balance with its sign, such as `+0.00`.
    pub balance: String,
    pub ab_loop: String,
}

/// What the menu offers besides the fixed items.
#[derive(Debug, Clone)]
pub struct SongContextMenuOptions {
    /// A sortable list and its current order's name.
    pub sort: Option<(SortTarget, String)>,
    /// (id, name) of the user's playlists.
    pub custom_playlists: Vec<(String, String)>,
    /// The playlist the list shows, when it is one of the user's.
    pub current_custom_playlist: Option<String>,
    pub playback: Option<PlaybackMenuState>,
}

impl SongContextMenuOptions {
    /// No sorting, no playlists, no playback sub-menu.
    pub fn empty() -> (o: Self)
        ensures
            o.sort is None,
            o.custom_playlists@.len() == 0,
            o.current_custom_playlist is None,
            o.playback is None,
    {
        SongContextMenuOptions { sort: None, custom_playlists: Vec::new(), current_custom_playlist: None, playback: None }
    }
}

/// Playing, downloading (not for local files) and queueing (not from the
/// queue itself).
pub open spec fn play_items(kind: SongMenuKind) -> Seq<(Seq<char>, SongMenuAction, Option<Seq<char>>, Option<Seq<char>>, bool, MenuGroup)> {
    let play = seq![("播放"@, SongMenuAction::Play, Some("▶"@), Some("Enter"@), false, MenuGroup::Playback)];
    let download = if kind != SongMenuKind::Local {
        seq![("下载歌曲"@, SongMenuAction::Download, Some("⇩"@), Some("d"@), false, MenuGroup::Playback)]
    } else {
        Seq::empty()
    };
    let queueing = if kind != SongMenuKind::Queue {
        seq![
            ("设为下一首"@, SongMenuAction::PlayNext, Some("⟶"@), Some("N"@), false, MenuGroup::Playback),
            ("加入队尾"@, SongMenuAction::AddToQueue, Some("＋"@), Some("+"@), false, MenuGroup::Playback),
        ]
    } else {
        Seq::empty()
    };
    play + download + queueing
}

/// Playlists: add to one, remove from the one shown, (un)favourite.
pub open spec fn playlist_items(is_favorite: bool, current_playlist: Option<String>) -> Seq<(Seq<char>, SongMenuAction, Option<Seq<char>>, Option<Seq<char>>, bool, MenuGroup)> {
    let playlists = seq![("加入自建歌单…"@, SongMenuAction::OpenCustomPlaylists, Some("♪"@), None, false, MenuGroup::Playlist)];
    let remove_from_playlist = match current_playlist {
        Some(id) => seq![("从当前歌单移除"@, SongMenuAction::RemoveFromCustomPlaylist(id), Some("✕"@), Some("r"@), false, MenuGroup::Playlist)],
        None => Seq::empty(),
    };
    let favorite = seq![(
        if is_favorite { "取消收藏"@ } else { "收藏歌曲"@ },
        SongMenuAction::ToggleFavorite,
        Some(if is_favorite { "☆"@ } else { "♥"@ }),
        Some("f"@),
        false,
        MenuGroup::Playlist,
    )];
    playlists + remove_from_playlist + favorite
}

/// Information: the singer and album pages, when the song names them; and
/// the playback sub-menu when offered.
pub open spec fn info_items(singer: Seq<char>, album: Seq<char>, has_playback: bool) -> Seq<(Seq<char>, SongMenuAction, Option<Seq<char>>, Option<Seq<char>>, bool, MenuGroup)> {
    let artist = if trim_seq(singer).len() > 0 {
        seq![("查看歌手"@, SongMenuAction::ViewArtist, Some("👤"@), None, false, MenuGroup::Info)]
    } else {
        Seq::empty()
    };
    let album_item = if trim_seq(album).len() > 0 {
        seq![("查看专辑"@, SongMenuAction::ViewAlbum, Some("◉"@), None, false, MenuGroup::Info)]
    } else {
        Seq::empty()
    };
    let playback = if has_playback {
        seq![("播放控制…"@, SongMenuAction::OpenPlaybackControls, Some("⚙"@), None, false, MenuGroup::Operations)]
    } else {
        Seq::empty()
    };
    artist + album_item + playback
}

/// Sorting, when the list can be sorted, and the list's own removals.
pub open spec fn manage_items(kind: SongMenuKind, sort: Option<(SortTarget, Seq<char>)>) -> Seq<(Seq<char>, SongMenuAction, Option<Seq<char>>, Option<Seq<char>>, bool, MenuGroup)> {
    let sort_item = match sort {
        Some((target, mode)) => seq![(
            "排序："@ + mode + "（切换）"@,
            SongMenuAction::CycleSort(target),
            Some("↕"@),
            None,
            false,
            MenuGroup::Operations,
        )],
        None => Seq::empty(),
    };
    let manage = match kind {
        SongMenuKind::Queue => seq![("从队列移除"@, SongMenuAction::RemoveFromQueue, Some("✕"@), Some("Del"@), false, MenuGroup::Manage)],
        SongMenuKind::History => seq![
            ("删除这条历史"@, SongMenuAction::RemoveFromHistory, Some("✕"@), Some("Del"@), false, MenuGroup::Manage),
            ("清空播放历史"@, SongMenuAction::ClearHistory, Some("🗑"@), Some("⇧D"@), false, MenuGroup::Manage),
        ],
        SongMenuKind::Local => seq![("删除本地文件"@, SongMenuAction::DeleteLocal, Some("🗑"@), Some("D"@), false, MenuGroup::Manage)],
        SongMenuKind::Standard => Seq::empty(),
    };
    sort_item + manage
}

/// The root items for a song, in the order shown.
pub open spec fn root_items_spec(
    kind: SongMenuKind,
    is_favorite: bool,
    singer: Seq<char>,
    album: Seq<char>,
    sort: Option<(SortTarget, Seq<char>)>,
    current_playlist: Option<String>,
    has_playback: bool,
) -> Seq<(Seq<char>, SongMenuAction, Option<Seq<char>>, Option<Seq<char>>, bool, MenuGroup)> {
    play_items(kind) + playlist_items(is_favorite, current_playlist) + info_items(singer, album, has_playback)
        + manage_items(kind, sort)
}

/// The item views of a list of items.
pub open spec fn items_view(items: Seq<MenuItem>) -> Seq<(Seq<char>, SongMenuAction, Option<Seq<char>>, Option<Seq<char>>, bool, MenuGroup)> {
    items.map_values(|i: MenuItem| i.view_item())
}

fn push_item(items: &mut Vec<MenuItem>, it: MenuItem)
    ensures
        items_view(final(items)@) == items_view(old(items)@).push(it.view_item()),
{
    items.push(it);
    assert(items_view(items@) =~= items_view(old(items)@).push(it.view_item()));
}


fn sort_view(sort: &Option<(SortTarget, String)>) -> (r: Option<(SortTarget, String)>)
    ensures
        r == *sort,
{
    match sort {
        Some((t, m)) => Some((*t, m.clone())),
        None => None,
    }
}

pub open spec fn sort_label_view(sort: Option<(SortTarget, String)>) -> Option<(SortTarget, Seq<char>)> {
    match sort {
        Some((t, m)) => Some((t, m@)),
        None => None,
    }
}

fn push_play_items(items: &mut Vec<MenuItem>, kind: SongMenuKind)
    ensures
        items_view(final(items)@) == items_view(old(items)@) + play_items(kind),
{
    push_item(items, item("播放", SongMenuAction::Play, "▶", Some("Enter"), MenuGroup::Playback));
    if kind != SongMenuKind::Local {
        push_item(items, item("下载歌曲", SongMenuAction::Download, "⇩", Some("d"), MenuGroup::Playback));
    }
    if kind != SongMenuKind::Queue {
        push_item(items, item("设为下一首", SongMenuAction::PlayNext, "⟶", Some("N"), MenuGroup::Playback));
        push_item(items, item("加入队尾", SongMenuAction::AddToQueue, "＋", Some("+"), MenuGroup::Playback));
    }
    assert(items_view(items@) =~= items_view(old(items)@) + play_items(kind));
}

fn push_playlist_items(items: &mut Vec<MenuItem>, is_favorite: bool, current_playlist: &Option<String>)
    ensures
        items_view(final(items)@) == items_view(old(items)@) + playlist_items(is_favorite, *current_playlist),
{
    push_item(items, item("加入自建歌单…", SongMenuAction::OpenCustomPlaylists, "♪", None, MenuGroup::Playlist));
    match current_playlist {
        Some(id) => {
            push_item(items, item("从当前歌单移除", SongMenuAction::RemoveFromCustomPlaylist(id.clone()), "✕", Some("r"), MenuGroup::Playlist));
        },
        None => {},
    }
    let fav_label = if is_favorite { "取消收藏" } else { "收藏歌曲" };
    let fav_icon = if is_favorite { "☆" } else { "♥" };
    push_item(items, item(fav_label, SongMenuAction::ToggleFavorite, fav_icon, Some("f"), MenuGroup::Playlist));
    assert(items_view(items@) =~= items_view(old(items)@) + playlist_items(is_favorite, *current_playlist));
}

fn push_info_items(items: &mut Vec<MenuItem>, song: &SongInfo, has_playback: bool)
    ensures
        items_view(final(items)@) == items_view(old(items)@) + info_items(song.singer@, song.album_name@, has_playback),
{
    let singer = crate::text::trim(song.singer.as_str());
    if singer.as_str().unicode_len() > 0 {
        push_item(items, item("查看歌手", SongMenuAction::ViewArtist, "👤", None, MenuGroup::Info));
    }
    let album = crate::text::trim(song.album_name.as_str());
    if album.as_str().unicode_len() > 0 {
        push_item(items, item("查看专辑", SongMenuAction::ViewAlbum, "◉", None, MenuGroup::Info));
    }
    if has_playback {
        push_item(items, item("播放控制…", SongMenuAction::OpenPlaybackControls, "⚙", None, MenuGroup::Operations));
    }
    assert(items_view(items@) =~= items_view(old(items)@) + info_items(song.singer@, song.album_name@, has_playback));
}

fn push_manage_items(items: &mut Vec<MenuItem>, kind: SongMenuKind, sort: &Option<(SortTarget, String)>)
    ensures
        items_view(final(items)@) == items_view(old(items)@) + manage_items(kind, sort_label_view(*sort)),
{
    match sort_view(sort) {
        Some((target, mode)) => {
            let mut label = string_of("排序：");
            push_str(&mut label, mode.as_str());
            push_str(&mut label, "（切换）");
            let it = MenuItem { label, action: SongMenuAction::CycleSort(target), icon: Some("↕"), shortcut: None, disabled: false, group: MenuGroup::Operations };
            push_item(items, it);
        },
        None => {},
    }
    match kind {
        SongMenuKind::Queue => {
            push_item(items, item("从队列移除", SongMenuAction::RemoveFromQueue, "✕", Some("Del"), MenuGroup::Manage));
        },
        SongMenuKind::History => {
            push_item(items, item("删除这条历史", SongMenuAction::RemoveFromHistory, "✕", Some("Del"), MenuGroup::Manage));
            push_item(items, item("清空播放历史", SongMenuAction::ClearHistory, "🗑", Some("⇧D"), MenuGroup::Manage));
        },
        SongMenuKind::Local => {
            push_item(items, item("删除本地文件", SongMenuAction::DeleteLocal, "🗑", Some("D"), MenuGroup::Manage));
        },
        SongMenuKind::Standard => {},
    }
    assert(items_view(items@) =~= items_view(old(items)@) + manage_items(kind, sort_label_view(*sort)));
}

/// The root items for a song.
pub fn root_items(
    kind: SongMenuKind,
    is_favorite: bool,
    song: &SongInfo,
    sort: &Option<(SortTarget, String)>,
    current_playlist: &Option<String>,
    has_playback: bool,
) -> (items: Vec<MenuItem>)
    ensures
        items_view(items@) == root_items_spec(
            kind,
            is_favorite,
            song.singer@,
            song.album_name@,
            sort_label_view(*sort),
            *current_playlist,
            has_playback,
        ),
{
    let mut items: Vec<MenuItem> = Vec::new();
    assert(items_view(items@) =~= Seq::<(Seq<char>, SongMenuAction, Option<Seq<char>>, Option<Seq<char>>, bool, MenuGroup)>::empty());
    push_play_items(&mut items, kind);
    push_playlist_items(&mut items, is_favorite, current_playlist);
    push_info_items(&mut items, song, has_playback);
    push_manage_items(&mut items, kind, sort);
    assert(items_view(items@) =~= root_items_spec(
        kind,
        is_favorite,
        song.singer@,
        song.album_name@,
        sort_label_view(*sort),
        *current_playlist,
        has_playback,
    ));
    items
}

/// The user's playlists as items, or one disabled hint when there are none.
pub open spec fn playlist_choice_items(custom: Seq<(String, String)>) -> Seq<(Seq<char>, SongMenuAction, Option<Seq<char>>, Option<Seq<char>>, bool, MenuGroup)> {
    if custom.len() == 0 {
        seq![("暂无自建歌单，请先创建"@, SongMenuAction::NoCustomPlaylists, Some("—"@), None, true, MenuGroup::Other)]
    } else {
        custom.map_values(|p: (String, String)| (p.1@, SongMenuAction::AddToCustomPlaylist(p.0), Some("♪"@), None, false, MenuGroup::Playlist))
    }
}

/// The items of the playlist sub-menu.
pub fn custom_playlist_items(custom: Vec<(String, String)>) -> (items: Vec<MenuItem>)
    ensures
        items_view(items@) == playlist_choice_items(custom@),
{
    let mut items: Vec<MenuItem> = Vec::new();
    if custom.len() == 0 {
        let it = MenuItem::new(string_of("暂无自建歌单，请先创建"), SongMenuAction::NoCustomPlaylists).disabled().with_icon("—");
        push_item(&mut items, it);
        assert(items_view(items@) =~= playlist_choice_items(custom@));
        return items;
    }
    let mut i: usize = 0;
    assert(items_view(items@) =~= playlist_choice_items(custom@).take(0));
    while i < custom.len()
        invariant
            i <= custom@.len(),
            custom@.len() > 0,
            items_view(items@) == playlist_choice_items(custom@).take(i as int),
        decreases custom@.len() - i,
    {
        let (id, name) = (custom[i].0.clone(), custom[i].1.clone());
        let it = MenuItem { label: name, action: SongMenuAction::AddToCustomPlaylist(id), icon: Some("♪"), shortcut: None, disabled: false, group: MenuGroup::Playlist };
        push_item(&mut items, it);
        assert(playlist_choice_items(custom@).take(i + 1) =~= playlist_choice_items(custom@).take(i as int).push(
            playlist_choice_items(custom@)[i as int],
        ));
        i = i + 1;
    }
    assert(playlist_choice_items(custom@).take(i as int) =~= playlist_choice_items(custom@));
    items
}

/// The items of the playback sub-menu.
pub open spec fn playback_items_spec(st: PlaybackMenuState) -> Seq<(Seq<char>, SongMenuAction, Option<Seq<char>>, Option<Seq<char>>, bool, MenuGroup)> {
    seq![
        ("播放速度: "@ + st.speed@ + "x（切换）"@, SongMenuAction::Playback(PlaybackMenuAction::CycleSpeed), Some("⏩"@), None, false, MenuGroup::Operations),
        ("音频设备: "@ + st.audio_device@ + "（恢复默认）"@, SongMenuAction::Playback(PlaybackMenuAction::UseDefaultAudioDevice), Some("🔊"@), None, false, MenuGroup::Operations),
        ("ReplayGain: "@ + st.replaygain_mode@ + "（切换）"@, SongMenuAction::Playback(PlaybackMenuAction::CycleReplayGainMode), Some("↯"@), None, false, MenuGroup::Operations),
        ("ReplayGain 预放大: "@ + st.replaygain_preamp@ + " dB"@, SongMenuAction::Playback(PlaybackMenuAction::CycleReplayGainPreamp), Some("↯"@), None, false, MenuGroup::Operations),
        ("ReplayGain 削波保护: "@ + (if st.replaygain_clip { "开"@ } else { "关"@ }), SongMenuAction::Playback(PlaybackMenuAction::ToggleReplayGainClip), Some("✓"@), None, false, MenuGroup::Operations),
        ("均衡器: "@ + st.equalizer@ + "（切换）"@, SongMenuAction::Playback(PlaybackMenuAction::CycleEqualizer), Some("≡"@), None, false, MenuGroup::Operations),
        ("声道模式: "@ + st.channel_mode@ + "（切换）"@, SongMenuAction::Playback(PlaybackMenuAction::CycleChannelMode), Some("◐"@), None, false, MenuGroup::Operations),
        ("左右平衡: "@ + st.balance@ + "（切换）"@, SongMenuAction::Playback(PlaybackMenuAction::CycleBalance), Some("⇆"@), None, false, MenuGroup::Operations),
        ("立即淡入"@, SongMenuAction::Playback(PlaybackMenuAction::FadeIn), Some("▲"@), Some("F"@), false, MenuGroup::Playback),
        ("立即淡出"@, SongMenuAction::Playback(PlaybackMenuAction::FadeOut), Some("▼"@), Some("⇧F"@), false, MenuGroup::Playback),
        ("以当前进度设置 A 点"@, SongMenuAction::Playback(PlaybackMenuAction::SetAbLoopStart), Some("A"@), None, false, MenuGroup::Playback),
        ("以当前进度设置 B 点"@, SongMenuAction::Playback(PlaybackMenuAction::SetAbLoopEnd), Some("B"@), None, false, MenuGroup::Playback),
        ("清除 A-B 循环: "@ + st.ab_loop@, SongMenuAction::Playback(PlaybackMenuAction::ClearAbLoop), Some("✕"@), None, false, MenuGroup::Playback),
    ]
}

fn framed(prefix: &str, middle: &str, suffix: &str) -> (s: String)
    ensures
        s@ == prefix@ + middle@ + suffix@,
{
    let mut s = string_of(prefix);
    push_str(&mut s, middle);
    push_str(&mut s, suffix);
    s
}

fn labeled(label: String, action: PlaybackMenuAction, icon: &'static str, shortcut: Option<&'static str>, group: MenuGroup) -> (m: MenuItem)
    ensures
        m.view_item() == (label@, SongMenuAction::Playback(action), Some(icon@), opt_view(shortcut), false, group),
{
    MenuItem { label, action: SongMenuAction::Playback(action), icon: Some(icon), shortcut, disabled: false, group }
}

/// The items of the playback sub-menu.
#[verifier::rlimit(30)]
pub fn build_playback_control_items(st: &PlaybackMenuState) -> (items: Vec<MenuItem>)
    ensures
        items_view(items@) == playback_items_spec(*st),
{
    let mut items: Vec<MenuItem> = Vec::new();
    let g_ops = MenuGroup::Operations;
    let g_play = MenuGroup::Playback;
    push_item(&mut items, labeled(framed("播放速度: ", st.speed.as_str(), "x（切换）"), PlaybackMenuAction::CycleSpeed, "⏩", None, g_ops));
    push_item(&mut items, labeled(framed("音频设备: ", st.audio_device.as_str(), "（恢复默认）"), PlaybackMenuAction::UseDefaultAudioDevice, "🔊", None, g_ops));
    push_item(&mut items, labeled(framed("ReplayGain: ", st.replaygain_mode.as_str(), "（切换）"), PlaybackMenuAction::CycleReplayGainMode, "↯", None, g_ops));
    push_item(&mut items, labeled(framed("ReplayGain 预放大: ", st.replaygain_preamp.as_str(), " dB"), PlaybackMenuAction::CycleReplayGainPreamp, "↯", None, g_ops));
    let clip = if st.replaygain_clip { "开" } else { "关" };
    push_item(&mut items, labeled(framed("ReplayGain 削波保护: ", clip, ""), PlaybackMenuAction::ToggleReplayGainClip, "✓", None, g_ops));
    push_item(&mut items, labeled(framed("均衡器: ", st.equalizer.as_str(), "（切换）"), PlaybackMenuAction::CycleEqualizer, "≡", None, g_ops));
    push_item(&mut items, labeled(framed("声道模式: ", st.channel_mode.as_str(), "（切换）"), PlaybackMenuAction::CycleChannelMode, "◐", None, g_ops));
    push_item(&mut items, labeled(framed("左右平衡: ", st.balance.as_str(), "（切换）"), PlaybackMenuAction::CycleBalance, "⇆", None, g_ops));
    push_item(&mut items, labeled(string_of("立即淡入"), PlaybackMenuAction::FadeIn, "▲", Some("F"), g_play));
    push_item(&mut items, labeled(string_of("立即淡出"), PlaybackMenuAction::FadeOut, "▼", Some("⇧F"), g_play));
    push_item(&mut items, labeled(string_of("以当前进度设置 A 点"), PlaybackMenuAction::SetAbLoopStart, "A", None, g_play));
    push_item(&mut items, labeled(string_of("以当前进度设置 B 点"), PlaybackMenuAction::SetAbLoopEnd, "B", None, g_play));
    push_item(&mut items, labeled(framed("清除 A-B 循环: ", st.ab_loop.as_str(), ""), PlaybackMenuAction::ClearAbLoop, "✕", None, g_play));
    proof {
        reveal_strlit("");
    }
    assert(items_view(items@) =~= playback_items_spec(*st));
    items
}

/// Which list of items the menu shows.
#[derive(Debug, Clone, Copy, PartialEq, Eq, Structural)]
pub enum MenuLevel {
    Root,
    CustomPlaylists,
    PlaybackControls,
}

/// What the key bindings make of a key in a list, where they map it to a
/// list action.
#[derive(Debug, Clone, Copy, PartialEq, Eq, Structural)]
pub enum ListAction {
    SelectUp,
    SelectDown,
    Activate,
    GoBack,
}

fn copy_action(a: &SongMenuAction) -> (r: SongMenuAction)
    ensures
        r == *a,
{
    match a {
        SongMenuAction::Play => SongMenuAction::Play,
        SongMenuAction::Download => SongMenuAction::Download,
        SongMenuAction::PlayNext => SongMenuAction::PlayNext,
        SongMenuAction::AddToQueue => SongMenuAction::AddToQueue,
        SongMenuAction::OpenCustomPlaylists => SongMenuAction::OpenCustomPlaylists,
        SongMenuAction::OpenPlaybackControls => SongMenuAction::OpenPlaybackControls,
        SongMenuAction::Playback(p) => SongMenuAction::Playback(*p),
        SongMenuAction::AddToCustomPlaylist(id) => SongMenuAction::AddToCustomPlaylist(id.clone()),
        SongMenuAction::NoCustomPlaylists => SongMenuAction::NoCustomPlaylists,
        SongMenuAction::ToggleFavorite => SongMenuAction::ToggleFavorite,
        SongMenuAction::CycleSort(t) => SongMenuAction::CycleSort(*t),
        SongMenuAction::RemoveFromQueue => SongMenuAction::RemoveFromQueue,
        SongMenuAction::RemoveFromHistory => SongMenuAction::RemoveFromHistory,
        SongMenuAction::ClearHistory => SongMenuAction::ClearHistory,
        SongMenuAction::DeleteLocal => SongMenuAction::DeleteLocal,
        SongMenuAction::RemoveFromCustomPlaylist(id) => SongMenuAction::RemoveFromCustomPlaylist(id.clone()),
        SongMenuAction::ViewArtist => SongMenuAction::ViewArtist,
        SongMenuAction::ViewAlbum => SongMenuAction::ViewAlbum,
    }
}

/// The selection after moving up: from the first item to the last.
pub open spec fn previous_spec(selected: int, len: int) -> int {
    if selected == 0 {
        len - 1
    } else {
        selected - 1
    }
}

/// The first item shown once `selected` is brought into a view of
/// `visible` rows (at least one) starting at `scroll`.
pub open spec fn scroll_into_view(selected: int, scroll: int, visible: int) -> int {
    let v = if visible >= 1 { visible } else { 1 };
    if selected < scroll {
        selected
    } else if selected >= scroll + v {
        selected + 1 - v
    } else {
        scroll
    }
}

/// What activating item `sel` of `items` answers.
pub open spec fn activate_outcome(items: Seq<MenuItem>, sel: int) -> MenuOutcome {
    if 0 <= sel < items.len() && !items[sel].disabled {
        match items[sel].action {
            SongMenuAction::OpenCustomPlaylists => MenuOutcome::Unchanged,
            SongMenuAction::OpenPlaybackControls => MenuOutcome::Unchanged,
            _ => MenuOutcome::Action(items[sel].action),
        }
    } else {
        MenuOutcome::Close
    }
}

/// The list shown after activating item `sel` of `items` at `level`.
pub open spec fn activate_level(items: Seq<MenuItem>, sel: int, level: MenuLevel) -> MenuLevel {
    if 0 <= sel < items.len() && !items[sel].disabled {
        match items[sel].action {
            SongMenuAction::OpenCustomPlaylists => MenuLevel::CustomPlaylists,
            SongMenuAction::OpenPlaybackControls => MenuLevel::PlaybackControls,
            _ => level,
        }
    } else {
        level
    }
}

/// The context menu of a song in a list.
#[derive(Debug)]
pub struct SongContextMenu {
    origin: Position,
    songs: Vec<SongInfo>,
    index: usize,
    selected: usize,
    scroll_offset: usize,
    level: MenuLevel,
    root_items: Vec<MenuItem>,
    custom_playlist_items: Vec<MenuItem>,
    playback_control_items: Vec<MenuItem>,
}

impl SongContextMenu {
    #[verifier::type_invariant]
    spec fn well_formed(self) -> bool {
        &&& self.index < self.songs@.len()
        &&& (self.selected == 0 || self.selected < self.level_items(self.level).len())
    }

    spec fn level_items(self, level: MenuLevel) -> Seq<MenuItem> {
        match level {
            MenuLevel::Root => self.root_items@,
            MenuLevel::CustomPlaylists => self.custom_playlist_items@,
            MenuLevel::PlaybackControls => self.playback_control_items@,
        }
    }

    /// The items shown now.
    pub closed spec fn items_spec(self) -> Seq<MenuItem> {
        self.level_items(self.level)
    }

    pub closed spec fn root_spec(self) -> Seq<MenuItem> {
        self.root_items@
    }

    pub closed spec fn playlist_items_spec(self) -> Seq<MenuItem> {
        self.custom_playlist_items@
    }

    pub closed spec fn playback_items_spec_of(self) -> Seq<MenuItem> {
        self.playback_control_items@
    }

    pub closed spec fn level_spec(self) -> MenuLevel {
        self.level
    }

    pub closed spec fn selected_spec(self) -> usize {
        self.selected
    }

    pub closed spec fn scroll_spec(self) -> usize {
        self.scroll_offset
    }

    pub closed spec fn origin_spec(self) -> Position {
        self.origin
    }

    pub closed spec fn song_list(self) -> Seq<SongInfo> {
        self.songs@
    }

    pub closed spec fn index_spec(self) -> usize {
        self.index
    }

    /// The menu for song `index` of `songs` opened at `origin`; `None` when
    /// there is no such song. It opens on the root items, first selected.
    pub fn new(
        origin: Position,
        songs: Vec<SongInfo>,
        index: usize,
        kind: SongMenuKind,
        is_favorite: bool,
        options: SongContextMenuOptions,
    ) -> (r: Option<Self>)
        ensures
            index >= songs@.len() ==> r is None,
            index < songs@.len() ==> (r matches Some(m) && {
                &&& m.song_list() == songs@
                &&& m.index_spec() == index
                &&& m.origin_spec() == origin
                &&& m.level_spec() == MenuLevel::Root
                &&& m.selected_spec() == 0
                &&& m.scroll_spec() == 0
                &&& items_view(m.root_spec()) == root_items_spec(
                    kind,
                    is_favorite,
                    songs@[index as int].singer@,
                    songs@[index as int].album_name@,
                    sort_label_view(options.sort),
                    options.current_custom_playlist,
                    options.playback is Some,
                )
                &&& items_view(m.playlist_items_spec()) == playlist_choice_items(options.custom_playlists@)
                &&& items_view(m.playback_items_spec_of()) == match options.playback {
                    Some(st) => playback_items_spec(st),
                    None => Seq::empty(),
                }
            }),
    {
        if index >= songs.len() {
            return None;
        }
        let root_items = root_items(
            kind,
            is_favorite,
            &songs[index],
            &options.sort,
            &options.current_custom_playlist,
            options.playback.is_some(),
        );
        let custom_playlist_items = custom_playlist_items(options.custom_playlists);
        let playback_control_items = match &options.playback {
            Some(st) => build_playback_control_items(st),
            None => {
                let v: Vec<MenuItem> = Vec::new();
                assert(items_view(v@) =~= Seq::empty());
                v
            },
        };
        Some(SongContextMenu {
            origin,
            songs,
            index,
            selected: 0,
            scroll_offset: 0,
            level: MenuLevel::Root,
            root_items,
            custom_playlist_items,
            playback_control_items,
        })
    }

    /// The songs of the list.
    pub fn songs(&self) -> (r: &Vec<SongInfo>)
        ensures
            r@ == self.song_list(),
    {
        &self.songs
    }

    /// The position of the song the menu is for.
    pub fn index(&self) -> (r: usize)
        ensures
            r == self.index_spec(),
    {
        self.index
    }

    /// The song the menu is for.
    pub fn song(&self) -> (r: &SongInfo)
        ensures
            self.index_spec() < self.song_list().len(),
            *r == self.song_list()[self.index_spec() as int],
    {
        proof {
            use_type_invariant(self);
        }
        &self.songs[self.index]
    }

    /// The items shown now.
    pub fn items(&self) -> (r: &Vec<MenuItem>)
        ensures
            r@ == self.items_spec(),
    {
        match self.level {
            MenuLevel::Root => &self.root_items,
            MenuLevel::CustomPlaylists => &self.custom_playlist_items,
            MenuLevel::PlaybackControls => &self.playback_control_items,
        }
    }

    /// The selected item's position.
    pub fn selected(&self) -> (r: usize)
        ensures
            r == self.selected_spec(),
    {
        self.selected
    }

    /// The first item shown.
    pub fn scroll_offset(&self) -> (r: usize)
        ensures
            r == self.scroll_spec(),
    {
        self.scroll_offset
    }

    /// The list shown.
    pub fn level(&self) -> (r: MenuLevel)
        ensures
            r == self.level_spec(),
    {
        self.level
    }

    fn items_len(&self) -> (n: usize)
        ensures
            n == self.items_spec().len(),
    {
        self.items().len()
    }

    fn ensure_selected_visible(&mut self, visible_items: usize)
        ensures
            final(self).scroll_spec() == scroll_into_view(
                old(self).selected_spec() as int,
                old(self).scroll_spec() as int,
                visible_items as int,
            ),
            final(self).selected_spec() == old(self).selected_spec(),
            final(self).level_spec() == old(self).level_spec(),
            final(self).items_spec() == old(self).items_spec(),
            final(self).song_list() == old(self).song_list(),
            final(self).index_spec() == old(self).index_spec(),
            final(self).origin_spec() == old(self).origin_spec(),
    {
        proof {
            use_type_invariant(&*self);
        }
        let v = if visible_items >= 1 { visible_items } else { 1 };
        let n = self.items_len();
        assert(self.selected == 0 || self.selected < n);
        if self.selected < self.scroll_offset {
            self.scroll_offset = self.selected;
        } else if self.selected - self.scroll_offset >= v {
            self.scroll_offset = self.selected + 1 - v;
        }
    }

    /// Moves the selection up (from the first item to the last) and keeps
    /// it in view.
    pub fn select_previous(&mut self, visible_items: usize)
        ensures
            final(self).level_spec() == old(self).level_spec(),
            final(self).items_spec() == old(self).items_spec(),
            final(self).song_list() == old(self).song_list(),
            final(self).index_spec() == old(self).index_spec(),
            final(self).origin_spec() == old(self).origin_spec(),
            old(self).items_spec().len() == 0 ==> final(self).selected_spec() == old(self).selected_spec()
                && final(self).scroll_spec() == old(self).scroll_spec(),
            old(self).items_spec().len() > 0 ==> {
                &&& final(self).selected_spec() == previous_spec(old(self).selected_spec() as int, old(self).items_spec().len() as int)
                &&& final(self).scroll_spec() == scroll_into_view(final(self).selected_spec() as int, old(self).scroll_spec() as int, visible_items as int)
            },
    {
        proof {
            use_type_invariant(&*self);
        }
        let len = self.items_len();
        if len == 0 {
            return;
        }
        self.selected = if self.selected == 0 { len - 1 } else { self.selected - 1 };
        self.ensure_selected_visible(visible_items);
    }

    /// Moves the selection down (from the last item to the first) and keeps
    /// it in view.
    pub fn select_next(&mut self, visible_items: usize)
        ensures
            final(self).level_spec() == old(self).level_spec(),
            final(self).items_spec() == old(self).items_spec(),
            final(self).song_list() == old(self).song_list(),
            final(self).index_spec() == old(self).index_spec(),
            final(self).origin_spec() == old(self).origin_spec(),
            old(self).items_spec().len() == 0 ==> final(self).selected_spec() == old(self).selected_spec()
                && final(self).scroll_spec() == old(self).scroll_spec(),
            old(self).items_spec().len() > 0 ==> {
                &&& final(self).selected_spec() == (old(self).selected_spec() + 1) % (old(self).items_spec().len() as int)
                &&& final(self).scroll_spec() == scroll_into_view(final(self).selected_spec() as int, old(self).scroll_spec() as int, visible_items as int)
            },
    {
        proof {
            use_type_invariant(&*self);
        }
        let len = self.items_len();
        if len > 0 {
            self.selected = (self.selected + 1) % len;
            self.ensure_selected_visible(visible_items);
        }
    }

    /// Carries out the selected item: the two sub-menu items open their
    /// list (first item selected); a disabled or missing item closes the
    /// menu; any other item is handed back as the action to run.
    pub fn activate(&mut self) -> (r: MenuOutcome)
        ensures
            final(self).song_list() == old(self).song_list(),
            final(self).index_spec() == old(self).index_spec(),
            final(self).origin_spec() == old(self).origin_spec(),
            final(self).root_spec() == old(self).root_spec(),
            final(self).playlist_items_spec() == old(self).playlist_items_spec(),
            final(self).playback_items_spec_of() == old(self).playback_items_spec_of(),
            r == activate_outcome(old(self).items_spec(), old(self).selected_spec() as int),
            final(self).level_spec() == activate_level(old(self).items_spec(), old(self).selected_spec() as int, old(self).level_spec()),
            ({
                let items = old(self).items_spec();
                let sel = old(self).selected_spec() as int;
                if sel < items.len() && !items[sel].disabled {
                    match items[sel].action {
                        SongMenuAction::OpenCustomPlaylists => r == MenuOutcome::Unchanged
                            && final(self).level_spec() == MenuLevel::CustomPlaylists
                            && final(self).selected_spec() == 0 && final(self).scroll_spec() == 0,
                        SongMenuAction::OpenPlaybackControls => r == MenuOutcome::Unchanged
                            && final(self).level_spec() == MenuLevel::PlaybackControls
                            && final(self).selected_spec() == 0 && final(self).scroll_spec() == 0,
                        _ => r == MenuOutcome::Action(items[sel].action)
                            && final(self).level_spec() == old(self).level_spec()
                            && final(self).selected_spec() == old(self).selected_spec()
                            && final(self).scroll_spec() == old(self).scroll_spec(),
                    }
                } else {
                    r == MenuOutcome::Close && final(self).level_spec() == old(self).level_spec()
                        && final(self).selected_spec() == old(self).selected_spec()
                        && final(self).scroll_spec() == old(self).scroll_spec()
                }
            }),
    {
        proof {
            use_type_invariant(&*self);
        }
        let action = {
            let items = self.items();
            if self.selected < items.len() && !items[self.selected].disabled {
                Some(copy_action(&items[self.selected].action))
            } else {
                None
            }
        };
        match action {
            Some(SongMenuAction::OpenCustomPlaylists) => {
                self.selected = 0;
                self.scroll_offset = 0;
                self.level = MenuLevel::CustomPlaylists;
                MenuOutcome::Unchanged
            },
            Some(SongMenuAction::OpenPlaybackControls) => {
                self.selected = 0;
                self.scroll_offset = 0;
                self.level = MenuLevel::PlaybackControls;
                MenuOutcome::Unchanged
            },
            Some(a) => MenuOutcome::Action(a),
            None => MenuOutcome::Close,
        }
    }

    /// Selects item `i` of the list shown.
    pub fn select(&mut self, i: usize)
        requires
            i < old(self).items_spec().len(),
        ensures
            final(self).selected_spec() == i,
            final(self).level_spec() == old(self).level_spec(),
            final(self).items_spec() == old(self).items_spec(),
            final(self).scroll_spec() == old(self).scroll_spec(),
    {
        proof {
            use_type_invariant(&*self);
        }
        self.selected = i;
    }

    /// Shows one of the lists, first item selected.
    pub fn show_level(&mut self, level: MenuLevel)
        ensures
            final(self).level_spec() == level,
            final(self).selected_spec() == 0,
            final(self).scroll_spec() == 0,
            final(self).root_spec() == old(self).root_spec(),
            final(self).playlist_items_spec() == old(self).playlist_items_spec(),
            final(self).playback_items_spec_of() == old(self).playback_items_spec_of(),
    {
        proof {
            use_type_invariant(&*self);
        }
        self.selected = 0;
        self.scroll_offset = 0;
        self.level = level;
    }

    /// Goes back to the root items, first selected.
    fn back_to_root(&mut self)
        ensures
            final(self).level_spec() == MenuLevel::Root,
            final(self).selected_spec() == 0,
            final(self).scroll_spec() == 0,
            final(self).song_list() == old(self).song_list(),
            final(self).index_spec() == old(self).index_spec(),
            final(self).origin_spec() == old(self).origin_spec(),
            final(self).root_spec() == old(self).root_spec(),
            final(self).playlist_items_spec() == old(self).playlist_items_spec(),
            final(self).playback_items_spec_of() == old(self).playback_items_spec_of(),
    {
        proof {
            use_type_invariant(&*self);
        }
        self.selected = 0;
        self.scroll_offset = 0;
        self.level = MenuLevel::Root;
    }
}

/// The columns an item wants: its label, its icon (or three blank cells)
/// with a space each side, and its shortcut with a space each side.
pub open spec fn item_width(it: MenuItem) -> int {
    let base = unicode_str_width(it.label@) as int;
    let icon = match it.icon {
        Some(i) => unicode_str_width(i@) + 2,
        None => 3,
    };
    let sc = match it.shortcut {
        Some(x) => unicode_str_width(x@) + 2,
        None => 0,
    };
    base + icon + sc
}

/// The widest item, or 16 when there are none.
pub open spec fn widest(items: Seq<MenuItem>) -> int
    decreases items.len(),
{
    if items.len() == 0 {
        16
    } else if items.len() == 1 {
        item_width(items[0])
    } else {
        let rest = widest(items.drop_last());
        let w = item_width(items.last());
        if w >= rest { w } else { rest }
    }
}

/// `a` wrapped into 16 bits.
pub open spec fn wrap16(a: int) -> u16 {
    (a % 0x10000) as u16
}

/// `v` within `lo..=hi` (for `lo <= hi`).
pub open spec fn clamp16(v: u16, lo: u16, hi: u16) -> u16 {
    if v < lo {
        lo
    } else if v > hi {
        hi
    } else {
        v
    }
}

/// Where the menu is drawn: wide enough for its widest item (32 to 56
/// columns, at most the bounds), one row per item plus the border, moved
/// from `origin` as little as needed to stay inside `bounds`.
pub open spec fn menu_area_spec(bounds: Rect, origin: Position, items: Seq<MenuItem>) -> Rect {
    if bounds.width == 0 || bounds.height == 0 {
        Rect { x: 0, y: 0, width: 0, height: 0 }
    } else {
        let w0 = clamp16(wrap16(wrap16(widest(items)) + 4), 32, 56);
        let width = if w0 <= bounds.width { w0 } else { bounds.width };
        let h0 = wrap16(wrap16(items.len() as int) + 2);
        let height = if h0 <= bounds.height { h0 } else { bounds.height };
        let max_x = sat_sub16(bounds.spec_right(), width);
        let max_y = sat_sub16(bounds.spec_bottom(), height);
        Rect { x: clamp16(origin.x, bounds.x, max_x), y: clamp16(origin.y, bounds.y, max_y), width, height }
    }
}

fn item_width_exec(it: &MenuItem) -> (w: u128)
    ensures
        w == item_width(*it),
{
    let base = str_width(it.label.as_str()) as u128;
    let icon: u128 = match it.icon {
        Some(i) => str_width(i) as u128 + 2,
        None => 3,
    };
    let sc: u128 = match it.shortcut {
        Some(x) => str_width(x) as u128 + 2,
        None => 0,
    };
    base + icon + sc
}

/// Where the menu is drawn inside `bounds` when opened at `origin`.
pub fn menu_area(bounds: Rect, origin: Position, items: &Vec<MenuItem>) -> (r: Rect)
    requires
        bounds.x + bounds.width <= u16::MAX,
        bounds.y + bounds.height <= u16::MAX,
    ensures
        r == menu_area_spec(bounds, origin, items@),
{
    if bounds.width == 0 || bounds.height == 0 {
        return Rect::zero();
    }
    let mut widest_w: u128 = 16;
    let mut i: usize = 0;
    while i < items.len()
        invariant
            i <= items@.len(),
            widest_w == widest(items@.take(i as int)),
            widest_w <= 0x4_0000_0000_0000_0000,
        decreases items@.len() - i,
    {
        assert(items@.take(i + 1).drop_last() =~= items@.take(i as int));
        assert(items@.take(i + 1).last() == items@[i as int]);
        let w = item_width_exec(&items[i]);
        if i == 0 || w >= widest_w {
            widest_w = w;
        }
        i = i + 1;
    }
    assert(items@.take(i as int) =~= items@);
    let w16 = (widest_w % 0x10000) as u16;
    let w1 = ((w16 as u32 + 4) % 0x10000) as u16;
    let w0 = if w1 < 32 { 32 } else if w1 > 56 { 56 } else { w1 };
    let width = if w0 <= bounds.width { w0 } else { bounds.width };
    let n16 = (items.len() % 0x10000) as u16;
    let h0 = ((n16 as u32 + 2) % 0x10000) as u16;
    let height = if h0 <= bounds.height { h0 } else { bounds.height };
    let max_x = bounds.right().saturating_sub(width);
    let max_y = bounds.bottom().saturating_sub(height);
    let x = if origin.x < bounds.x { bounds.x } else if origin.x > max_x { max_x } else { origin.x };
    let y = if origin.y < bounds.y { bounds.y } else if origin.y > max_y { max_y } else { origin.y };
    Rect::new(x, y, width, height)
}

/// The item under `position` in a menu drawn in `area` and scrolled by
/// `scroll_offset`; `None` on the border, outside, or below the last item.
pub open spec fn item_at_spec(area: Rect, position: Position, item_count: int, scroll_offset: int) -> Option<int> {
    let inner = area.spec_inner();
    if !inner.spec_contains(position) {
        None
    } else {
        let index = scroll_offset + (position.y - inner.y);
        if index < item_count {
            Some(index)
        } else {
            None
        }
    }
}

/// The item under a cell.
pub fn item_at(area: Rect, position: Position, item_count: usize, scroll_offset: usize) -> (r: Option<usize>)
    ensures
        match r {
            Some(i) => item_at_spec(area, position, item_count as int, scroll_offset as int) == Some(i as int),
            None => item_at_spec(area, position, item_count as int, scroll_offset as int) is None,
        },
{
    let inner = area.inner();
    if !inner.contains(position) {
        return None;
    }
    let row = (position.y - inner.y) as usize;
    if row >= item_count || scroll_offset >= item_count - row {
        return None;
    }
    Some(scroll_offset + row)
}

impl SongContextMenu {
    /// Where the menu is drawn inside `bounds`.
    pub fn area(&self, bounds: Rect) -> (r: Rect)
        requires
            bounds.x + bounds.width <= u16::MAX,
            bounds.y + bounds.height <= u16::MAX,
        ensures
            r == menu_area_spec(bounds, self.origin_spec(), self.items_spec()),
    {
        menu_area(bounds, self.origin, self.items())
    }

    /// The rows available for items inside `bounds`.
    pub fn visible_item_count(&self, bounds: Rect) -> (n: usize)
        requires
            bounds.x + bounds.width <= u16::MAX,
            bounds.y + bounds.height <= u16::MAX,
        ensures
            n == menu_area_spec(bounds, self.origin_spec(), self.items_spec()).spec_inner().height,
    {
        self.area(bounds).inner().height as usize
    }

    /// Handles a key: Escape or `q` closes, Enter activates; otherwise the
    /// list action the key is bound to (`bound`), or the arrow keys, move
    /// the selection.
    pub fn handle_key(&mut self, key: &KeyEvent, bound: Option<ListAction>, bounds: Rect) -> (r: MenuOutcome)
        requires
            bounds.x + bounds.width <= u16::MAX,
            bounds.y + bounds.height <= u16::MAX,
        ensures
            (key.plain(KeyCode::Esc) || key.plain(KeyCode::Char('q'))) ==> r == MenuOutcome::Close
                && final(self).selected_spec() == old(self).selected_spec()
                && final(self).level_spec() == old(self).level_spec(),
            !(key.plain(KeyCode::Esc) || key.plain(KeyCode::Char('q'))) && !key.plain(KeyCode::Enter)
                && bound == Some(ListAction::GoBack) ==> r == MenuOutcome::Close,
            key.plain(KeyCode::Enter) ==> r == activate_outcome(old(self).items_spec(), old(self).selected_spec() as int)
                && final(self).level_spec() == activate_level(old(self).items_spec(), old(self).selected_spec() as int, old(self).level_spec()),
            !(key.plain(KeyCode::Esc) || key.plain(KeyCode::Char('q'))) && !key.plain(KeyCode::Enter)
                && bound == Some(ListAction::Activate) ==> r == activate_outcome(old(self).items_spec(), old(self).selected_spec() as int),
            (!(key.plain(KeyCode::Esc) || key.plain(KeyCode::Char('q'))) && !key.plain(KeyCode::Enter)
                && (bound == Some(ListAction::SelectUp) || bound == Some(ListAction::SelectDown)
                || (bound is None && (key.plain(KeyCode::Up) || key.plain(KeyCode::Down))))) ==> {
                &&& r == MenuOutcome::Unchanged
                &&& final(self).level_spec() == old(self).level_spec()
                &&& old(self).items_spec().len() > 0 ==> final(self).selected_spec() == if bound == Some(ListAction::SelectUp)
                    || (bound is None && key.plain(KeyCode::Up)) {
                    previous_spec(old(self).selected_spec() as int, old(self).items_spec().len() as int)
                } else {
                    (old(self).selected_spec() + 1) % (old(self).items_spec().len() as int)
                }
            },
            (!(key.plain(KeyCode::Esc) || key.plain(KeyCode::Char('q'))) && !key.plain(KeyCode::Enter)
                && bound is None && !key.plain(KeyCode::Up) && !key.plain(KeyCode::Down)) ==> r == MenuOutcome::Unchanged
                && final(self).selected_spec() == old(self).selected_spec()
                && final(self).scroll_spec() == old(self).scroll_spec()
                && final(self).level_spec() == old(self).level_spec(),
            final(self).song_list() == old(self).song_list(),
            final(self).index_spec() == old(self).index_spec(),
    {
        let visible_items = self.visible_item_count(bounds);
        let none = !key.modifiers.shift && !key.modifiers.control && !key.modifiers.alt && !key.modifiers.other;
        if none && (key.code == KeyCode::Esc || key.code == KeyCode::Char('q')) {
            return MenuOutcome::Close;
        }
        if none && key.code == KeyCode::Enter {
            return self.activate();
        }
        match bound {
            Some(ListAction::SelectUp) => self.select_previous(visible_items),
            Some(ListAction::SelectDown) => self.select_next(visible_items),
            Some(ListAction::Activate) => {
                return self.activate();
            },
            Some(ListAction::GoBack) => {
                return MenuOutcome::Close;
            },
            None => {
                if none && key.code == KeyCode::Up {
                    self.select_previous(visible_items);
                } else if none && key.code == KeyCode::Down {
                    self.select_next(visible_items);
                }
            },
        }
        MenuOutcome::Unchanged
    }

    /// Handles the mouse: the wheel moves the selection, hovering selects,
    /// a left click activates the item under it (or closes the menu when
    /// outside), a right click inside a sub-menu goes back to the root
    /// items and closes the menu otherwise.
    pub fn handle_mouse(&mut self, event: MouseEvent, bounds: Rect) -> (r: MenuOutcome)
        requires
            bounds.x + bounds.width <= u16::MAX,
            bounds.y + bounds.height <= u16::MAX,
        ensures
            final(self).song_list() == old(self).song_list(),
            final(self).index_spec() == old(self).index_spec(),
            ({
                let area = menu_area_spec(bounds, old(self).origin_spec(), old(self).items_spec());
                let p = Position { x: event.column, y: event.row };
                let hit = item_at_spec(area, p, old(self).items_spec().len() as int, old(self).scroll_spec() as int);
                match event.kind {
                    MouseEventKind::Moved => r == MenuOutcome::Unchanged && final(self).selected_spec() == match hit {
                        Some(i) => i as usize,
                        None => old(self).selected_spec(),
                    },
                    MouseEventKind::LeftDown => match hit {
                        None => r == MenuOutcome::Close,
                        Some(i) => r == activate_outcome(old(self).items_spec(), i)
                            && final(self).level_spec() == activate_level(old(self).items_spec(), i, old(self).level_spec()),
                    },
                    MouseEventKind::ScrollUp => r == MenuOutcome::Unchanged && (old(self).items_spec().len() > 0
                        ==> final(self).selected_spec() == previous_spec(old(self).selected_spec() as int, old(self).items_spec().len() as int)),
                    MouseEventKind::ScrollDown => r == MenuOutcome::Unchanged && (old(self).items_spec().len() > 0
                        ==> final(self).selected_spec() == (old(self).selected_spec() + 1) % (old(self).items_spec().len() as int)),
                    MouseEventKind::RightDown => if old(self).level_spec() != MenuLevel::Root && area.spec_contains(p) {
                        r == MenuOutcome::Unchanged && final(self).level_spec() == MenuLevel::Root
                            && final(self).selected_spec() == 0 && final(self).scroll_spec() == 0
                    } else {
                        r == MenuOutcome::Close
                    },
                    MouseEventKind::Other => r == MenuOutcome::Unchanged && final(self).selected_spec() == old(self).selected_spec()
                        && final(self).scroll_spec() == old(self).scroll_spec(),
                }
            }),
    {
        proof {
            use_type_invariant(&*self);
        }
        let area = self.area(bounds);
        let visible_items = area.inner().height as usize;
        let p = Position::new(event.column, event.row);
        match event.kind {
            MouseEventKind::ScrollUp => self.select_previous(visible_items),
            MouseEventKind::ScrollDown => self.select_next(visible_items),
            MouseEventKind::Moved => {
                match item_at(area, p, self.items_len(), self.scroll_offset) {
                    Some(i) => {
                        self.selected = i;
                    },
                    None => {},
                }
            },
            MouseEventKind::LeftDown => {
                match item_at(area, p, self.items_len(), self.scroll_offset) {
                    None => {
                        return MenuOutcome::Close;
                    },
                    Some(i) => {
                        self.selected = i;
                        return self.activate();
                    },
                }
            },
            MouseEventKind::RightDown => {
                if self.level != MenuLevel::Root && area.contains(p) {
                    self.back_to_root();
                } else {
                    return MenuOutcome::Close;
                }
            },
            MouseEventKind::Other => {},
        }
        MenuOutcome::Unchanged
    }
}

/// Moving down and then up through a non-empty menu returns to the item
/// one started from, and so does moving up and then down.
pub proof fn lemma_menu_moves_round_trip(selected: int, len: int)
    requires
        0 <= selected < len,
    ensures
        previous_spec((selected + 1) % len, len) == selected,
        (previous_spec(selected, len) + 1) % len == selected,
        0 <= previous_spec(selected, len) < len,
        0 <= (selected + 1) % len < len,
{
    if selected + 1 < len {
        vstd::arithmetic::div_mod::lemma_small_mod((selected + 1) as nat, len as nat);
    } else {
        vstd::arithmetic::div_mod::lemma_mod_self_0(len);
    }
    if selected == 0 {
        vstd::arithmetic::div_mod::lemma_mod_self_0(len);
    } else {
        vstd::arithmetic::div_mod::lemma_small_mod(selected as nat, len as nat);
    }
}

/// A disabled item is never carried out: activating it closes the menu.
pub proof fn lemma_disabled_items_close(items: Seq<MenuItem>, sel: int, level: MenuLevel)
    requires
        0 <= sel < items.len(),
        items[sel].disabled,
    ensures
        activate_outcome(items, sel) == MenuOutcome::Close,
        activate_level(items, sel, level) == level,
{
}

/// The menu always lies inside the area it is drawn in.
pub proof fn lemma_menu_area_inside(bounds: Rect, origin: Position, items: Seq<MenuItem>)
    requires
        bounds.x + bounds.width <= u16::MAX,
        bounds.y + bounds.height <= u16::MAX,
    ensures
        ({
            let a = menu_area_spec(bounds, origin, items);
            (bounds.width > 0 && bounds.height > 0) ==> {
                &&& bounds.x <= a.x
                &&& a.x + a.width <= bounds.x + bounds.width
                &&& bounds.y <= a.y
                &&& a.y + a.height <= bounds.y + bounds.height
            }
        }),
{
}


/// How an item row is drawn.
#[derive(Debug, Clone, Copy, PartialEq, Eq, Structural)]
pub enum RowRole {
    Disabled,
    Selected,
    Normal,
}

/// A row of the open menu.
#[derive(Debug, Clone, PartialEq, Eq)]
pub enum MenuRow {
    /// A rule between groups, in place of the item.
    Separator(String),
    /// An item: its index, how it is drawn, the icon cell, the label, and
    /// with a shortcut the spaces before it and its cell.
    Item { index: usize, role: RowRole, icon: String, label: String, shortcut: Option<(usize, String)> },
}

/// The title of the menu at each level.
pub open spec fn menu_title_spec(level: MenuLevel) -> Seq<char> {
    match level {
        MenuLevel::Root => " 歌曲操作 "@,
        MenuLevel::CustomPlaylists => " 歌曲操作 › 选择自建歌单 "@,
        MenuLevel::PlaybackControls => " 歌曲操作 › 播放控制 "@,
    }
}

/// The title of the menu.
pub fn menu_title(level: MenuLevel) -> (s: &'static str)
    ensures
        s@ == menu_title_spec(level),
{
    match level {
        MenuLevel::Root => " 歌曲操作 ",
        MenuLevel::CustomPlaylists => " 歌曲操作 › 选择自建歌单 ",
        MenuLevel::PlaybackControls => " 歌曲操作 › 播放控制 ",
    }
}

/// Whether item `i` is drawn as a rule: it is not the first item nor the
/// first row shown, its group differs from the item before, and that one
/// is enabled.
pub open spec fn separates(items: Seq<MenuItem>, i: int, scroll: int) -> bool {
    i > 0 && i > scroll && items[i - 1].group != items[i].group && !items[i - 1].disabled
}

/// The view of a row, for contracts.
pub open spec fn row_view(r: MenuRow) -> (bool, int, RowRole, Seq<char>, Seq<char>, Option<(int, Seq<char>)>) {
    match r {
        MenuRow::Separator(t) => (true, 0, RowRole::Normal, t@, Seq::empty(), None),
        MenuRow::Item { index, role, icon, label, shortcut } => (false, index as int, role, icon@, label@, match shortcut {
            Some((g, c)) => Some((g as int, c@)),
            None => None,
        }),
    }
}

/// The row of item `i` in a menu `width` columns inside: the label's
/// icon cell and label, and with a shortcut the spaces that push its cell
/// to the right edge less two columns (the widths added as sixteen-bit
/// numbers).
pub open spec fn menu_row_spec(items: Seq<MenuItem>, i: int, selected: int, scroll: int, width: u16) -> (bool, int, RowRole, Seq<char>, Seq<char>, Option<(int, Seq<char>)>) {
    if separates(items, i, scroll) {
        (true, 0, RowRole::Normal, " "@ + Seq::new(sat_sub16(width, 2) as nat, |k: int| '─') + " "@, Seq::empty(), None)
    } else {
        let item = items[i];
        let role = if item.disabled {
            RowRole::Disabled
        } else if i == selected {
            RowRole::Selected
        } else {
            RowRole::Normal
        };
        let icon = match item.icon {
            Some(c) => " "@ + c@ + " "@,
            None => "   "@,
        };
        let consumed = wrap16(unicode_str_width(icon) + unicode_str_width(item.label@));
        (false, i, role, icon, item.label@, match item.shortcut {
            Some(c) => {
                let cell = " "@ + c@ + " "@;
                let right = wrap16(unicode_str_width(cell) as int);
                Some((sat_sub16(width, wrap16(consumed + right + 2)) as int, cell))
            },
            None => None,
        })
    }
}

fn icon_cell(icon: Option<&'static str>) -> (s: String)
    ensures
        s@ == match icon {
            Some(c) => " "@ + c@ + " "@,
            None => "   "@,
        },
{
    match icon {
        Some(c) => {
            let mut s = string_of(" ");
            push_str(&mut s, c);
            push_str(&mut s, " ");
            s
        },
        None => string_of("   "),
    }
}

/// The rows of `items` from `scroll`, as many as `inner` is tall.
pub fn menu_rows(items: &Vec<MenuItem>, selected: usize, scroll: usize, inner: Rect) -> (r: Vec<MenuRow>)
    ensures
        ({
            let end = if scroll + inner.height <= items@.len() { scroll + inner.height } else { items@.len() as int };
            &&& r@.len() == if end >= scroll { end - scroll } else { 0 }
            &&& forall|k: int| 0 <= k < r@.len() ==> row_view(#[trigger] r@[k]) == menu_row_spec(items@, scroll + k, selected as int, scroll as int, inner.width)
        }),
{
    let total = items.len();
    let h = inner.height as usize;
    let end = if scroll <= total && total - scroll >= h { scroll + h } else { total };
    let mut out: Vec<MenuRow> = Vec::new();
    let mut i = scroll;
    while i < end
        invariant
            scroll <= i,
            i <= end || end < scroll,
            end < scroll ==> i == scroll,
            end <= total,
            total == items@.len(),
            end == (if scroll + inner.height <= total { scroll + inner.height } else { total as int }),
            out@.len() == i - scroll,
            forall|k: int| 0 <= k < out@.len() ==> row_view(#[trigger] out@[k]) == menu_row_spec(items@, scroll + k, selected as int, scroll as int, inner.width),
        decreases end - i,
    {
        let item = &items[i];
        let row = if i > 0 && i > scroll && items[i - 1].group != item.group && !items[i - 1].disabled {
            let mut t = string_of(" ");
            let n = inner.width.saturating_sub(2) as usize;
            let mut k: usize = 0;
            while k < n
                invariant
                    k <= n,
                    t@ == " "@ + Seq::new(k as nat, |j: int| '─'),
                decreases n - k,
            {
                push_char(&mut t, '─');
                assert(t@ =~= " "@ + Seq::new((k + 1) as nat, |j: int| '─'));
                k = k + 1;
            }
            push_str(&mut t, " ");
            MenuRow::Separator(t)
        } else {
            let role = if item.disabled {
                RowRole::Disabled
            } else if i == selected {
                RowRole::Selected
            } else {
                RowRole::Normal
            };
            let icon = icon_cell(item.icon);
            let consumed = ((str_width(icon.as_str()) as u128 + str_width(item.label.as_str()) as u128) % 65536) as u16;
            let shortcut = match item.shortcut {
                Some(c) => {
                    let cell = icon_cell(Some(c));
                    let right = (str_width(cell.as_str()) as u128 % 65536) as u16;
                    let need = ((consumed as u32 + right as u32 + 2) % 65536) as u16;
                    Some((inner.width.saturating_sub(need) as usize, cell))
                },
                None => None,
            };
            MenuRow::Item { index: i, role, icon, label: item.label.clone(), shortcut }
        };
        proof {
            let k = i - scroll;
            assert(row_view(row) == menu_row_spec(items@, scroll + k, selected as int, scroll as int, inner.width)) by {
                assert(scroll + k == i);
            }
        }
        out.push(row);
        i = i + 1;
    }
    out
}

impl SongContextMenu {
    /// The rows of the menu as shown inside `inner`.
    pub fn rows(&self, inner: Rect) -> (r: Vec<MenuRow>)
        ensures
            ({
                let items = self.items_spec();
                let scroll = self.scroll_spec() as int;
                let end = if scroll + inner.height <= items.len() { scroll + inner.height } else { items.len() as int };
                &&& r@.len() == if end >= scroll { end - scroll } else { 0 }
                &&& forall|k: int| 0 <= k < r@.len() ==> row_view(#[trigger] r@[k]) == menu_row_spec(items, scroll + k, self.selected_spec() as int, scroll, inner.width)
            }),
    {
        menu_rows(self.items(), self.selected(), self.scroll_offset(), inner)
    }
}

} // verus!
