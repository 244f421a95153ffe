//! The bottom status bar: which segments fit, what each one says, and the
//! key hint of the current page.

use vstd::prelude::*;
use crate::pages::geometry::{truncate_width, truncate_width_spec};
use crate::song::SongInfo;
use crate::navigation::{clock_spec, format_clock};
use crate::text::{decimal_seq, push_decimal, push_str, str_eq, string_of, trim_seq};
use crate::width::{str_width, unicode_str_width};

verus! {

broadcast use vstd::string::group_string_axioms;

/// The actions whose configured keys the page hints name.
#[derive(Debug, Clone, Copy, PartialEq, Eq, Structural)]
pub enum BindingAction {
    ListSelectUp,
    ListSelectDown,
    SearchInputMode,
    ListActivate,
    ListToggleFavorite,
    ListDownload,
    ListCycleSort,
    ListAddToQueue,
    LocalRescan,
    LocalDelete,
}

/// The key bound to `action` first in `bindings`, if any.
pub open spec fn binding_for(bindings: Seq<(BindingAction, Seq<char>)>, action: BindingAction) -> Option<Seq<char>>
    decreases bindings.len(),
{
    if bindings.len() == 0 {
        None
    } else if bindings[0].0 == action {
        Some(bindings[0].1)
    } else {
        binding_for(bindings.drop_first(), action)
    }
}

/// The key shown for `action`: the configured one, else `fallback`.
pub open spec fn key_spec(bindings: Seq<(BindingAction, Seq<char>)>, action: BindingAction, fallback: Seq<char>) -> Seq<char> {
    match binding_for(bindings, action) {
        Some(k) => k,
        None => fallback,
    }
}

pub open spec fn bindings_view(b: Seq<(BindingAction, String)>) -> Seq<(BindingAction, Seq<char>)> {
    b.map_values(|p: (BindingAction, String)| (p.0, p.1@))
}

/// The key hint of a page, naming the keys its bindings give (the default
/// key where a page binds none); empty for pages without a hint.
pub open spec fn page_hint_spec(page: Seq<char>, b: Seq<(BindingAction, Seq<char>)>) -> Seq<char> {
    let up = key_spec(b, BindingAction::ListSelectUp, "k"@);
    let down = key_spec(b, BindingAction::ListSelectDown, "j"@);
    let download = key_spec(b, BindingAction::ListDownload, "D"@);
    let sort = key_spec(b, BindingAction::ListCycleSort, "s"@);
    if page == "main"@ {
        up + " / "@ + down + " 上下 · Enter 播放 · a 加队尾 · D 清空"@
    } else if page == "search"@ {
        key_spec(b, BindingAction::SearchInputMode, "i"@) + " 搜索 · "@ + key_spec(b, BindingAction::ListActivate, "l"@)
            + " 播放 · "@ + key_spec(b, BindingAction::ListToggleFavorite, "f"@) + " 收藏 · "@ + download
            + " 下载 · ←/→ 音源"@
    } else if page == "leaderboard"@ || page == "playlists"@ {
        up + " / "@ + down + " 导航 · Enter 进入/播放 · a 加队列 · "@ + download + " 下载 · Esc 返回"@
    } else if page == "favorites"@ {
        up + " / "@ + down + " 导航 · Enter 播放 · "@ + key_spec(b, BindingAction::ListToggleFavorite, "f"@)
            + " 收藏 · "@ + download + " 下载 · "@ + sort + " 排序 · / 筛选"@
    } else if page == "history"@ {
        up + " / "@ + down + " 导航 · Enter 播放 · "@ + download + " 下载 · "@ + sort + " 排序 · / 筛选 · D 清空"@
    } else if page == "local"@ {
        up + " / "@ + down + " 导航 · Enter 播放 · "@ + key_spec(b, BindingAction::ListAddToQueue, "a"@) + " 加队列 · "@
            + sort + " 排序 · "@ + key_spec(b, BindingAction::LocalRescan, "r"@) + " 扫描 · "@ + key_spec(
            b,
            BindingAction::LocalDelete,
            "d"@,
        ) + " 删除 · / 筛选"@
    } else if page == "downloads"@ {
        "↑/k ↓/j 导航 · d 取消/移除 · x 清理完成 · C 清空历史 · Esc 返回"@
    } else if page == "sources"@ {
        "←/→ 分类 · s 切换区域 · a 添加 · d 删除 · h 检测 · l 导航栏透明"@
    } else if page == "settings"@ {
        "←/→ 分类 · s 切换区域 · 1-0 切换页面 · Esc 取消输入"@
    } else {
        Seq::empty()
    }
}

/// Appends the key configured for `action` (or `fallback`).
fn push_key(s: &mut String, bindings: &Vec<(BindingAction, String)>, action: BindingAction, fallback: &str)
    ensures
        final(s)@ == old(s)@ + key_spec(bindings_view(bindings@), action, fallback@),
{
    let ghost b = bindings_view(bindings@);
    let mut i: usize = 0;
    assert(b.skip(0) =~= b);
    while i < bindings.len()
        invariant
            i <= bindings@.len(),
            s@ == old(s)@,
            b == bindings_view(bindings@),
            binding_for(b, action) == binding_for(b.skip(i as int), action),
        decreases bindings@.len() - i,
    {
        assert(b.skip(i as int)[0] == b[i as int]);
        assert(b[i as int] == (bindings@[i as int].0, bindings@[i as int].1@));
        if bindings[i].0 == action {
            push_str(s, bindings[i].1.as_str());
            return;
        }
        assert(b.skip(i as int).drop_first() =~= b.skip(i + 1));
        i = i + 1;
    }
    assert(b.skip(i as int).len() == 0);
    push_str(s, fallback);
}

/// The key hint of `page`.
pub fn page_hint(page: &str, bindings: &Vec<(BindingAction, String)>) -> (s: String)
    ensures
        s@ == page_hint_spec(page@, bindings_view(bindings@)),
{
    let mut s = String::new();
    if str_eq(page, "main") {
        push_key(&mut s, bindings, BindingAction::ListSelectUp, "k");
        push_str(&mut s, " / ");
        push_key(&mut s, bindings, BindingAction::ListSelectDown, "j");
        push_str(&mut s, " 上下 · Enter 播放 · a 加队尾 · D 清空");
    } else if str_eq(page, "search") {
        push_key(&mut s, bindings, BindingAction::SearchInputMode, "i");
        push_str(&mut s, " 搜索 · ");
        push_key(&mut s, bindings, BindingAction::ListActivate, "l");
        push_str(&mut s, " 播放 · ");
        push_key(&mut s, bindings, BindingAction::ListToggleFavorite, "f");
        push_str(&mut s, " 收藏 · ");
        push_key(&mut s, bindings, BindingAction::ListDownload, "D");
        push_str(&mut s, " 下载 · ←/→ 音源");
    } else if str_eq(page, "leaderboard") || str_eq(page, "playlists") {
        push_key(&mut s, bindings, BindingAction::ListSelectUp, "k");
        push_str(&mut s, " / ");
        push_key(&mut s, bindings, BindingAction::ListSelectDown, "j");
        push_str(&mut s, " 导航 · Enter 进入/播放 · a 加队列 · ");
        push_key(&mut s, bindings, BindingAction::ListDownload, "D");
        push_str(&mut s, " 下载 · Esc 返回");
    } else if str_eq(page, "favorites") {
        push_key(&mut s, bindings, BindingAction::ListSelectUp, "k");
        push_str(&mut s, " / ");
        push_key(&mut s, bindings, BindingAction::ListSelectDown, "j");
        push_str(&mut s, " 导航 · Enter 播放 · ");
        push_key(&mut s, bindings, BindingAction::ListToggleFavorite, "f");
        push_str(&mut s, " 收藏 · ");
        push_key(&mut s, bindings, BindingAction::ListDownload, "D");
        push_str(&mut s, " 下载 · ");
        push_key(&mut s, bindings, BindingAction::ListCycleSort, "s");
        push_str(&mut s, " 排序 · / 筛选");
    } else if str_eq(page, "history") {
        push_key(&mut s, bindings, BindingAction::ListSelectUp, "k");
        push_str(&mut s, " / ");
        push_key(&mut s, bindings, BindingAction::ListSelectDown, "j");
        push_str(&mut s, " 导航 · Enter 播放 · ");
        push_key(&mut s, bindings, BindingAction::ListDownload, "D");
        push_str(&mut s, " 下载 · ");
        push_key(&mut s, bindings, BindingAction::ListCycleSort, "s");
        push_str(&mut s, " 排序 · / 筛选 · D 清空");
    } else if str_eq(page, "local") {
        push_key(&mut s, bindings, BindingAction::ListSelectUp, "k");
        push_str(&mut s, " / ");
        push_key(&mut s, bindings, BindingAction::ListSelectDown, "j");
        push_str(&mut s, " 导航 · Enter 播放 · ");
        push_key(&mut s, bindings, BindingAction::ListAddToQueue, "a");
        push_str(&mut s, " 加队列 · ");
        push_key(&mut s, bindings, BindingAction::ListCycleSort, "s");
        push_str(&mut s, " 排序 · ");
        push_key(&mut s, bindings, BindingAction::LocalRescan, "r");
        push_str(&mut s, " 扫描 · ");
        push_key(&mut s, bindings, BindingAction::LocalDelete, "d");
        push_str(&mut s, " 删除 · / 筛选");
    } else if str_eq(page, "downloads") {
        push_str(&mut s, "↑/k ↓/j 导航 · d 取消/移除 · x 清理完成 · C 清空历史 · Esc 返回");
    } else if str_eq(page, "sources") {
        push_str(&mut s, "←/→ 分类 · s 切换区域 · a 添加 · d 删除 · h 检测 · l 导航栏透明");
    } else if str_eq(page, "settings") {
        push_str(&mut s, "←/→ 分类 · s 切换区域 · 1-0 切换页面 · Esc 取消输入");
    }
    proof {
        assert(s@ =~= page_hint_spec(page@, bindings_view(bindings@)));
    }
    s
}


/// The segments the status bar can show, in the order the user configured.
#[derive(Debug, Clone, Copy, PartialEq, Eq, Structural)]
pub enum StatusBarItem {
    State,
    Source,
    Sort,
    Song,
    Time,
    Volume,
    PlayMode,
    Quality,
    Queue,
    JsSourceState,
}

/// What the player is doing.
#[derive(Debug, Clone, Copy, PartialEq, Eq, Structural)]
pub enum PlayerState {
    Playing,
    Paused,
    Loading,
    Stopped,
    Idle,
}

pub open spec fn state_label_spec(state: PlayerState) -> Seq<char> {
    match state {
        PlayerState::Playing => "播放"@,
        PlayerState::Paused => "暂停"@,
        PlayerState::Loading => "缓冲"@,
        PlayerState::Stopped => "停止"@,
        PlayerState::Idle => "空闲"@,
    }
}

/// The word for the player's state.
pub fn state_label(state: PlayerState) -> (s: &'static str)
    ensures
        s@ == state_label_spec(state),
{
    match state {
        PlayerState::Playing => "播放",
        PlayerState::Paused => "暂停",
        PlayerState::Loading => "缓冲",
        PlayerState::Stopped => "停止",
        PlayerState::Idle => "空闲",
    }
}

/// The position, and the length when it is known (not zero), as `MM:SS`.
pub open spec fn time_text_spec(position_ms: nat, duration_ms: nat) -> Seq<char> {
    if duration_ms == 0 {
        clock_spec(position_ms / 1000)
    } else {
        clock_spec(position_ms / 1000) + "/"@ + clock_spec(duration_ms / 1000)
    }
}

/// The time segment.
pub fn time_text(position_ms: u64, duration_ms: u64) -> (s: String)
    ensures
        s@ == time_text_spec(position_ms as nat, duration_ms as nat),
{
    let mut s = format_clock(position_ms / 1000);
    if duration_ms != 0 {
        push_str(&mut s, "/");
        let d = format_clock(duration_ms / 1000);
        push_str(&mut s, d.as_str());
    }
    s
}

/// The song segment: `title - singer` (the title alone when the singer is
/// blank), `voicefox` when nothing plays, and the audio format appended
/// when the quality segment is not shown.
pub open spec fn song_text_spec(song: Option<SongInfo>, audio_label: Option<Seq<char>>, show_quality_item: bool) -> Seq<char> {
    let base = match song {
        Some(s) => if trim_seq(s.singer@).len() == 0 {
            s.name@
        } else {
            s.name@ + " - "@ + s.singer@
        },
        None => "voicefox"@,
    };
    match audio_label {
        Some(l) => if show_quality_item {
            base
        } else {
            base + " · "@ + l
        },
        None => base,
    }
}

/// The song segment's text.
pub fn song_text(song: Option<&SongInfo>, audio_label: Option<&str>, show_quality_item: bool) -> (s: String)
    ensures
        s@ == song_text_spec(
            match song {
                Some(x) => Some(*x),
                None => None,
            },
            match audio_label {
                Some(l) => Some(l@),
                None => None,
            },
            show_quality_item,
        ),
{
    let mut s = match song {
        Some(x) => {
            let singer = crate::text::trim(x.singer.as_str());
            if singer.as_str().unicode_len() == 0 {
                x.name.clone()
            } else {
                let mut t = x.name.clone();
                push_str(&mut t, " - ");
                push_str(&mut t, x.singer.as_str());
                t
            }
        },
        None => string_of("voicefox"),
    };
    if !show_quality_item {
        if let Some(l) = audio_label {
            push_str(&mut s, " · ");
            push_str(&mut s, l);
        }
    }
    s
}

/// The queue position: `index/len` counted from one, `0/0` when empty.
pub open spec fn queue_position_spec(len: nat, index: nat) -> Seq<char> {
    if len == 0 {
        "0/0"@
    } else {
        decimal_seq(if index + 1 <= u64::MAX { (index + 1) as nat } else { u64::MAX as nat }) + "/"@ + decimal_seq(len)
    }
}

/// The queue segment's position text.
pub fn queue_position(len: u64, index: u64) -> (s: String)
    ensures
        s@ == queue_position_spec(len as nat, index as nat),
{
    if len == 0 {
        return string_of("0/0");
    }
    let mut s = String::new();
    push_decimal(&mut s, index.saturating_add(1));
    push_str(&mut s, "/");
    push_decimal(&mut s, len);
    s
}

/// The download summary shown first while downloads run: how many, and
/// their average progress when some know it; none when nothing runs.
pub open spec fn download_indicator_spec(active: nat, percent: Option<u32>) -> Option<Seq<char>> {
    if active == 0 {
        None
    } else {
        match percent {
            Some(p) => Some("下载 "@ + decimal_seq(active) + " 项 "@ + decimal_seq(p as nat) + "% (Ctrl+o)"@),
            None => Some("下载 "@ + decimal_seq(active) + " 项 (Ctrl+o)"@),
        }
    }
}

/// The download summary segment.
pub fn download_indicator(active: u64, percent: Option<u32>) -> (r: Option<String>)
    ensures
        match r {
            Some(s) => download_indicator_spec(active as nat, percent) == Some(s@),
            None => download_indicator_spec(active as nat, percent) is None,
        },
{
    if active == 0 {
        return None;
    }
    let mut s = string_of("下载 ");
    push_decimal(&mut s, active);
    match percent {
        Some(p) => {
            push_str(&mut s, " 项 ");
            push_decimal(&mut s, p as u64);
            push_str(&mut s, "% (Ctrl+o)");
        },
        None => {
            push_str(&mut s, " 项 (Ctrl+o)");
        },
    }
    Some(s)
}

/// Where a shown segment came from, so that it can be styled.
#[derive(Debug, Clone, Copy, PartialEq, Eq, Structural)]
pub enum SegmentKind {
    Downloads,
    Item(StatusBarItem),
    Hint,
}

/// A segment the status bar shows; segments are separated by `  ·  `.
#[derive(Debug, Clone)]
pub struct StatusSegment {
    pub kind: SegmentKind,
    pub text: String,
}

/// What the status bar shows, in plain values.
#[derive(Debug, Clone)]
pub struct StatusInput {
    /// The bar's width in columns.
    pub width: u16,
    pub downloads: Option<String>,
    pub items: Vec<StatusBarItem>,
    pub state: PlayerState,
    pub source: String,
    pub sort_status: Option<String>,
    pub song: String,
    pub time: String,
    pub volume: u32,
    pub mode: String,
    pub quality: String,
    pub queue: String,
    pub source_online: bool,
    pub hint: String,
}

/// The width of the separator between segments.
pub open spec fn sep_width() -> usize {
    unicode_str_width("  ·  "@)
}

/// `a + b`, at most `usize::MAX`.
pub open spec fn sat_add(a: int, b: int) -> int {
    if a + b <= usize::MAX {
        a + b
    } else {
        usize::MAX as int
    }
}

/// The segments placed so far and the columns they take.
pub type Placed = (Seq<(SegmentKind, Seq<char>)>, int);

/// Places a segment when it has some width and fits, with its separator,
/// in what is left; otherwise leaves it out.
pub open spec fn append_spec(acc: Placed, total: int, kind: SegmentKind, text: Seq<char>) -> Placed {
    let tw = unicode_str_width(text) as int;
    let sep = if acc.0.len() == 0 { 0 } else { sep_width() as int };
    let required = sat_add(sep, tw);
    if tw == 0 || sat_add(acc.1, required) > total {
        acc
    } else {
        (acc.0.push((kind, text)), acc.1 + required)
    }
}

/// The columns left for the next segment after its separator.
pub open spec fn remaining_spec(acc: Placed, total: int) -> int {
    let need = sat_add(acc.1, if acc.0.len() == 0 { 0 } else { sep_width() as int });
    if total >= need {
        total - need
    } else {
        0
    }
}

/// The widest source name: 8, 14 or 20 columns as the bar widens.
pub open spec fn source_cap(width: u16) -> int {
    if width <= 49 {
        8
    } else if width <= 89 {
        14
    } else {
        20
    }
}

/// The text of one configured segment with `remaining` columns left, if
/// it shows.
pub open spec fn item_text_spec(item: StatusBarItem, inp: StatusInput, remaining: int) -> Option<Seq<char>> {
    match item {
        StatusBarItem::State => Some(" "@ + state_label_spec(inp.state) + " "@),
        StatusBarItem::Source => {
            let label = unicode_str_width("音源 "@) as int;
            let room = if remaining >= label { remaining - label } else { 0 };
            let w = if room <= source_cap(inp.width) { room } else { source_cap(inp.width) };
            if w > 0 {
                Some("音源 "@ + truncate_width_spec(inp.source@, w as nat))
            } else {
                None
            }
        },
        StatusBarItem::Sort => match inp.sort_status {
            Some(s) => Some("排序 "@ + s@ + " (s)"@),
            None => None,
        },
        StatusBarItem::Song => if remaining > 0 {
            Some(truncate_width_spec(inp.song@, if remaining <= 28 { remaining as nat } else { 28 }))
        } else {
            None
        },
        StatusBarItem::Time => Some(inp.time@),
        StatusBarItem::Volume => Some("音量 "@ + decimal_seq(inp.volume as nat) + "%"@),
        StatusBarItem::PlayMode => Some(inp.mode@),
        StatusBarItem::Quality => Some(inp.quality@),
        StatusBarItem::Queue => Some("队列 "@ + inp.queue@),
        StatusBarItem::JsSourceState => Some(
            if inp.source_online {
                "自定义音源在线"@
            } else {
                "自定义音源离线"@
            },
        ),
    }
}

/// The configured segments placed one after another from `start`.
pub open spec fn place_items(inp: StatusInput, items: Seq<StatusBarItem>, start: Placed) -> Placed
    decreases items.len(),
{
    if items.len() == 0 {
        start
    } else {
        let acc = place_items(inp, items.drop_last(), start);
        match item_text_spec(items.last(), inp, remaining_spec(acc, inp.width as int)) {
            Some(t) => append_spec(acc, inp.width as int, SegmentKind::Item(items.last()), t),
            None => acc,
        }
    }
}

/// The status bar: the download summary first, then the configured
/// segments in order, then the page's key hint, each kept only where it
/// fits in what is left of the width.
pub open spec fn status_spec(inp: StatusInput) -> Seq<(SegmentKind, Seq<char>)> {
    let total = inp.width as int;
    let a0: Placed = (Seq::empty(), 0);
    let a1 = match inp.downloads {
        Some(d) => append_spec(a0, total, SegmentKind::Downloads, d@),
        None => a0,
    };
    let a2 = place_items(inp, inp.items@, a1);
    let a3 = if inp.hint@.len() > 0 {
        append_spec(a2, total, SegmentKind::Hint, inp.hint@)
    } else {
        a2
    };
    a3.0
}

pub open spec fn segments_view(v: Seq<StatusSegment>) -> Seq<(SegmentKind, Seq<char>)> {
    v.map_values(|s: StatusSegment| (s.kind, s.text@))
}

fn append_segment(segs: &mut Vec<StatusSegment>, used: &mut usize, total: usize, sep: usize, kind: SegmentKind, text: String)
    requires
        sep == sep_width(),
        *old(used) <= total,
        total <= u16::MAX,
    ensures
        (segments_view(final(segs)@), *final(used) as int) == append_spec(
            (segments_view(old(segs)@), *old(used) as int),
            total as int,
            kind,
            text@,
        ),
        *final(used) <= total,
{
    let tw = str_width(text.as_str());
    let s = if segs.len() == 0 { 0 } else { sep };
    let required = s.saturating_add(tw);
    if tw == 0 || used.saturating_add(required) > total {
        return;
    }
    let ghost before = segs@;
    segs.push(StatusSegment { kind, text });
    assert(segments_view(segs@) =~= segments_view(before).push((kind, text@)));
    *used = *used + required;
}

fn item_text(item: StatusBarItem, inp: &StatusInput, remaining: usize) -> (r: Option<String>)
    ensures
        match r {
            Some(t) => item_text_spec(item, *inp, remaining as int) == Some(t@),
            None => item_text_spec(item, *inp, remaining as int) is None,
        },
{
    match item {
        StatusBarItem::State => {
            let mut s = string_of(" ");
            push_str(&mut s, state_label(inp.state));
            push_str(&mut s, " ");
            Some(s)
        },
        StatusBarItem::Source => {
            let label = str_width("音源 ");
            let room = remaining.saturating_sub(label);
            let cap: usize = if inp.width <= 49 {
                8
            } else if inp.width <= 89 {
                14
            } else {
                20
            };
            let w = if room <= cap { room } else { cap };
            if w > 0 {
                let mut s = string_of("音源 ");
                let t = truncate_width(inp.source.as_str(), w);
                push_str(&mut s, t.as_str());
                Some(s)
            } else {
                None
            }
        },
        StatusBarItem::Sort => match &inp.sort_status {
            Some(st) => {
                let mut s = string_of("排序 ");
                push_str(&mut s, st.as_str());
                push_str(&mut s, " (s)");
                Some(s)
            },
            None => None,
        },
        StatusBarItem::Song => if remaining > 0 {
            Some(truncate_width(inp.song.as_str(), if remaining <= 28 { remaining } else { 28 }))
        } else {
            None
        },
        StatusBarItem::Time => Some(inp.time.clone()),
        StatusBarItem::Volume => {
            let mut s = string_of("音量 ");
            push_decimal(&mut s, inp.volume as u64);
            push_str(&mut s, "%");
            Some(s)
        },
        StatusBarItem::PlayMode => Some(inp.mode.clone()),
        StatusBarItem::Quality => Some(inp.quality.clone()),
        StatusBarItem::Queue => {
            let mut s = string_of("队列 ");
            push_str(&mut s, inp.queue.as_str());
            Some(s)
        },
        StatusBarItem::JsSourceState => Some(
            if inp.source_online {
                string_of("自定义音源在线")
            } else {
                string_of("自定义音源离线")
            },
        ),
    }
}

/// The segments the status bar shows, in order.
pub fn status_segments(inp: &StatusInput) -> (r: Vec<StatusSegment>)
    ensures
        segments_view(r@) == status_spec(*inp),
{
    let total = inp.width as usize;
    let sep = str_width("  ·  ");
    let mut segs: Vec<StatusSegment> = Vec::new();
    let mut used: usize = 0;
    assert(segments_view(segs@) =~= Seq::<(SegmentKind, Seq<char>)>::empty());
    if let Some(d) = &inp.downloads {
        append_segment(&mut segs, &mut used, total, sep, SegmentKind::Downloads, d.clone());
    }
    let ghost a1 = (segments_view(segs@), used as int);
    let mut i: usize = 0;
    assert(inp.items@.take(0) =~= Seq::<StatusBarItem>::empty());
    while i < inp.items.len()
        invariant
            i <= inp.items@.len(),
            total == inp.width as usize,
            sep == sep_width(),
            used <= total,
            (segments_view(segs@), used as int) == place_items(*inp, inp.items@.take(i as int), a1),
        decreases inp.items@.len() - i,
    {
        let item = inp.items[i];
        let first = segs.len() == 0;
        let need = used.saturating_add(if first { 0 } else { sep });
        let remaining = total.saturating_sub(need);
        proof {
            assert(inp.items@.take(i + 1).drop_last() =~= inp.items@.take(i as int));
            assert(inp.items@.take(i + 1).last() == item);
        }
        match item_text(item, inp, remaining) {
            Some(t) => append_segment(&mut segs, &mut used, total, sep, SegmentKind::Item(item), t),
            None => {},
        }
        i = i + 1;
    }
    assert(inp.items@.take(inp.items@.len() as int) =~= inp.items@);
    if inp.hint.as_str().unicode_len() > 0 {
        append_segment(&mut segs, &mut used, total, sep, SegmentKind::Hint, inp.hint.clone());
    }
    segs
}

/// The columns a row of segments takes: their widths, and a separator
/// between each two.
pub open spec fn row_width(segs: Seq<(SegmentKind, Seq<char>)>) -> int
    decreases segs.len(),
{
    if segs.len() == 0 {
        0
    } else if segs.len() == 1 {
        unicode_str_width(segs[0].1) as int
    } else {
        row_width(segs.drop_last()) + sep_width() + unicode_str_width(segs.last().1)
    }
}

proof fn lemma_append_fits(acc: Placed, total: int, kind: SegmentKind, text: Seq<char>)
    requires
        0 <= total <= u16::MAX,
        acc.1 == row_width(acc.0),
        0 <= acc.1 <= total,
    ensures
        append_spec(acc, total, kind, text).1 == row_width(append_spec(acc, total, kind, text).0),
        0 <= append_spec(acc, total, kind, text).1 <= total,
{
    let tw = unicode_str_width(text) as int;
    let sep = if acc.0.len() == 0 { 0 } else { sep_width() as int };
    let required = sat_add(sep, tw);
    if !(tw == 0 || sat_add(acc.1, required) > total) {
        assert(required == sep + tw);
        let pushed = acc.0.push((kind, text));
        assert(pushed.drop_last() =~= acc.0);
        assert(pushed.last() == (kind, text));
        if acc.0.len() == 0 {
            assert(row_width(pushed) == tw);
        } else {
            assert(row_width(pushed) == row_width(acc.0) + sep_width() + tw);
        }
    }
}

proof fn lemma_place_items_fit(inp: StatusInput, items: Seq<StatusBarItem>, start: Placed)
    requires
        start.1 == row_width(start.0),
        0 <= start.1 <= inp.width,
    ensures
        place_items(inp, items, start).1 == row_width(place_items(inp, items, start).0),
        0 <= place_items(inp, items, start).1 <= inp.width,
    decreases items.len(),
{
    if items.len() > 0 {
        lemma_place_items_fit(inp, items.drop_last(), start);
        let acc = place_items(inp, items.drop_last(), start);
        match item_text_spec(items.last(), inp, remaining_spec(acc, inp.width as int)) {
            Some(t) => lemma_append_fits(acc, inp.width as int, SegmentKind::Item(items.last()), t),
            None => {},
        }
    }
}

/// The status bar never runs past its width: the segments it keeps and
/// the separators between them fit in it.
pub proof fn lemma_status_fits(inp: StatusInput)
    ensures
        row_width(status_spec(inp)) <= inp.width,
{
    let total = inp.width as int;
    let a0: Placed = (Seq::empty(), 0);
    let a1 = match inp.downloads {
        Some(d) => append_spec(a0, total, SegmentKind::Downloads, d@),
        None => a0,
    };
    if let Some(d) = inp.downloads {
        lemma_append_fits(a0, total, SegmentKind::Downloads, d@);
    }
    lemma_place_items_fit(inp, inp.items@, a1);
    let a2 = place_items(inp, inp.items@, a1);
    if inp.hint@.len() > 0 {
        lemma_append_fits(a2, total, SegmentKind::Hint, inp.hint@);
    }
}

} // verus!
