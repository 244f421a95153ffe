//! The local music page: its filtered view, what it shows, and which song
//! a click hits.

use vstd::prelude::*;
use crate::casefold::{to_lowercase, unicode_lowercase};
use crate::pages::geometry::{sat_add16, sat_sub16, Position, Rect};
use crate::pages::history::{matching_indices, same_songs, song_matches, songs_at};
use crate::pages::input::{MouseEvent, MouseEventKind};
use crate::song::{copy_song, same_song, SongInfo};
use crate::text::{chars_of, contains, decimal_seq, join_chars, join_spec, nested_view, push_decimal, push_str, string_of, trim_seq};

verus! {

broadcast use vstd::string::group_string_axioms;

/// The local songs as shown: all of them, or those matching the filter,
/// as positions into the sorted list.
#[derive(Debug)]
pub enum LocalSongView<'a> {
    Identity(&'a [SongInfo]),
    Filtered(&'a [SongInfo], Vec<usize>),
}

fn song_matches_exec(song: &SongInfo, query: &Vec<char>) -> (r: bool)
    ensures
        r == song_matches(*song, query@),
{
    let name = to_lowercase(song.name.as_str());
    if contains(&chars_of(name.as_str()), query) {
        return true;
    }
    let singer = to_lowercase(song.singer.as_str());
    contains(&chars_of(singer.as_str()), query)
}

impl<'a> LocalSongView<'a> {
    pub open spec fn spec_len(self) -> int {
        match self {
            LocalSongView::Identity(s) => s@.len() as int,
            LocalSongView::Filtered(_, v) => v@.len() as int,
        }
    }

    /// The shown song `i`.
    pub open spec fn spec_get(self, i: int) -> Option<SongInfo> {
        match self {
            LocalSongView::Identity(s) => if 0 <= i < s@.len() { Some(s@[i]) } else { None },
            LocalSongView::Filtered(s, v) => if 0 <= i < v@.len() && v@[i] < s@.len() { Some(s@[v@[i] as int]) } else { None },
        }
    }

    /// The view of `all` under `query`: everything when the query is blank,
    /// else the songs whose title or singer contain it, ignoring case.
    pub fn build(all: &'a [SongInfo], query: &str) -> (v: Self)
        ensures
            trim_seq(query@).len() == 0 ==> v == LocalSongView::Identity(all),
            trim_seq(query@).len() > 0 ==> (v matches LocalSongView::Filtered(s, idx) && s == all && idx@
                == matching_indices(all@, unicode_lowercase(trim_seq(query@)))),
    {
        let t = crate::text::trim(query);
        if t.as_str().unicode_len() == 0 {
            return LocalSongView::Identity(all);
        }
        let q = to_lowercase(t.as_str());
        let qc = chars_of(q.as_str());
        let mut out: Vec<usize> = Vec::new();
        let mut i: usize = 0;
        assert(all@.take(0) =~= Seq::<SongInfo>::empty());
        while i < all.len()
            invariant
                i <= all@.len(),
                qc@ == unicode_lowercase(trim_seq(query@)),
                out@ == matching_indices(all@.take(i as int), qc@),
            decreases all@.len() - i,
        {
            assert(all@.take(i + 1).drop_last() =~= all@.take(i as int));
            assert(all@.take(i + 1).last() == all@[i as int]);
            if song_matches_exec(&all[i], &qc) {
                out.push(i);
            }
            i = i + 1;
        }
        assert(all@.take(i as int) =~= all@);
        LocalSongView::Filtered(all, out)
    }

    /// How many songs are shown.
    pub fn len(&self) -> (n: usize)
        ensures
            n == self.spec_len(),
    {
        match self {
            LocalSongView::Identity(s) => s.len(),
            LocalSongView::Filtered(_, v) => v.len(),
        }
    }

    pub fn is_empty(&self) -> (b: bool)
        ensures
            b == (self.spec_len() == 0),
    {
        self.len() == 0
    }

    /// The shown songs, in order.
    pub open spec fn shown(self) -> Seq<SongInfo> {
        match self {
            LocalSongView::Identity(s) => s@,
            LocalSongView::Filtered(s, v) => songs_at(s@, v@.map_values(|k: usize| k as int)),
        }
    }

    /// The shown songs, as a queue to play.
    pub fn to_queue(&self) -> (q: Vec<SongInfo>)
        ensures
            same_songs(q@, self.shown()),
    {
        let mut q: Vec<SongInfo> = Vec::new();
        match self {
            LocalSongView::Identity(s) => {
                let mut i: usize = 0;
                while i < s.len()
                    invariant
                        i <= s@.len(),
                        q@.len() == i,
                        forall|k: int| 0 <= k < i ==> same_song(#[trigger] q@[k], s@[k]),
                    decreases s@.len() - i,
                {
                    q.push(copy_song(&s[i]));
                    i = i + 1;
                }
            },
            LocalSongView::Filtered(s, v) => {
                let ghost pos = v@.map_values(|k: usize| k as int);
                let mut i: usize = 0;
                assert(pos.take(0) =~= Seq::<int>::empty());
                while i < v.len()
                    invariant
                        i <= v@.len(),
                        pos == v@.map_values(|k: usize| k as int),
                        same_songs(q@, songs_at(s@, pos.take(i as int))),
                    decreases v@.len() - i,
                {
                    assert(pos.take(i + 1).drop_last() =~= pos.take(i as int));
                    assert(pos.take(i + 1).last() == v@[i as int] as int);
                    let ghost prev = q@;
                    if v[i] < s.len() {
                        q.push(copy_song(&s[v[i]]));
                        assert(q@ == prev.push(q@.last()));
                    }
                    i = i + 1;
                }
                assert(pos.take(v@.len() as int) =~= pos);
            },
        }
        q
    }

    /// The shown song `index`.
    pub fn get(&self, index: usize) -> (r: Option<&'a SongInfo>)
        ensures
            match r {
                Some(s) => self.spec_get(index as int) == Some(*s),
                None => self.spec_get(index as int) is None,
            },
    {
        match self {
            LocalSongView::Identity(s) => if index < s.len() { Some(&s[index]) } else { None },
            LocalSongView::Filtered(s, v) => {
                if index < v.len() && v[index] < s.len() {
                    Some(&s[v[index]])
                } else {
                    None
                }
            },
        }
    }
}

/// The shown song under a click: below the header row (and the filter row
/// when shown), inside the border, within the list.
pub open spec fn song_index_at_spec(area: Rect, p: Position, scroll: int, len: int, filter_visible: bool) -> Option<int> {
    let inner = area.spec_inner();
    let rows_top: u16 = if filter_visible { 2 } else { 1 };
    let list = Rect { x: inner.x, y: sat_add16(inner.y, rows_top), width: inner.width, height: sat_sub16(inner.height, 2) };
    if !list.spec_contains(p) {
        None
    } else {
        let index = scroll + (p.y - list.y);
        if index < len { Some(index) } else { None }
    }
}

/// The shown song under a click.
pub fn song_index_at(area: Rect, position: Position, scroll: usize, len: usize, filter_visible: bool) -> (r: Option<usize>)
    ensures
        match r {
            Some(i) => song_index_at_spec(area, position, scroll as int, len as int, filter_visible) == Some(i as int),
            None => song_index_at_spec(area, position, scroll as int, len as int, filter_visible) is None,
        },
{
    let inner = area.inner();
    let rows_top: u16 = if filter_visible { 2 } else { 1 };
    let list = Rect::new(inner.x, inner.y.saturating_add(rows_top), inner.width, inner.height.saturating_sub(2));
    if !list.contains(position) {
        return None;
    }
    let offset = (position.y - list.y) as usize;
    if scroll < len && offset < len - scroll {
        Some(scroll + offset)
    } else {
        None
    }
}

/// What the mouse does to the local music selection: the wheel moves by
/// `scroll_amount` (at least one); a left click selects the song under it
/// and returns it when the click activates.
pub fn handle_mouse(
    selected: &mut usize,
    event: MouseEvent,
    area: Rect,
    scroll: usize,
    len: usize,
    filter_visible: bool,
    scroll_amount: usize,
    activate: bool,
) -> (r: Option<usize>)
    ensures
        ({
            let step = if scroll_amount >= 1 { scroll_amount as int } else { 1 };
            let last = if len >= 1 { len - 1 } else { 0 };
            match event.kind {
                MouseEventKind::ScrollUp => r is None && *final(selected) == (if *old(selected) >= step {
                    *old(selected) - step
                } else {
                    0
                }),
                MouseEventKind::ScrollDown => r is None && *final(selected) == (if *old(selected) + step <= last {
                    *old(selected) + step
                } else {
                    last
                }),
                MouseEventKind::LeftDown => match song_index_at_spec(area, Position { x: event.column, y: event.row }, scroll as int, len as int, filter_visible) {
                    Some(i) => *final(selected) == i && r == if activate { Some(i as usize) } else { None },
                    None => r is None && *final(selected) == *old(selected),
                },
                _ => r is None && *final(selected) == *old(selected),
            }
        }),
{
    let step = if scroll_amount >= 1 { scroll_amount } else { 1 };
    match event.kind {
        MouseEventKind::ScrollUp => {
            *selected = selected.saturating_sub(step);
            None
        },
        MouseEventKind::ScrollDown => {
            let last = len.saturating_sub(1);
            *selected = if *selected <= last && last - *selected >= step { *selected + step } else { last };
            None
        },
        MouseEventKind::LeftDown => match song_index_at(area, Position::new(event.column, event.row), scroll, len, filter_visible) {
            Some(i) => {
                *selected = i;
                if activate { Some(i) } else { None }
            },
            None => None,
        },
        _ => None,
    }
}


/// The songs the local page shows under a filter.
pub open spec fn local_shown(all: Seq<SongInfo>, query: Seq<char>) -> Seq<SongInfo> {
    if trim_seq(query).len() == 0 {
        all
    } else {
        songs_at(all, matching_indices(all, unicode_lowercase(trim_seq(query))).map_values(|k: usize| k as int))
    }
}

/// How many songs the local page shows under a filter.
pub open spec fn local_len(all: Seq<SongInfo>, query: Seq<char>) -> int {
    if trim_seq(query).len() == 0 {
        all.len() as int
    } else {
        matching_indices(all, unicode_lowercase(trim_seq(query))).len() as int
    }
}

/// The song under a right click on the local list: it becomes the
/// selection, and the shown songs come back, as a queue, with its position.
pub fn context_song_at(
    event: MouseEvent,
    area: Rect,
    songs: &[SongInfo],
    filter_query: &str,
    filter_visible: bool,
    scroll: usize,
    selected: &mut usize,
) -> (r: Option<(Vec<SongInfo>, usize)>)
    ensures
        match song_index_at_spec(area, Position { x: event.column, y: event.row }, scroll as int, local_len(songs@, filter_query@), filter_visible) {
            Some(i) => r matches Some((q, j)) && j == i && *final(selected) == i && same_songs(q@, local_shown(songs@, filter_query@)),
            None => r is None && *final(selected) == *old(selected),
        },
{
    let view = LocalSongView::build(songs, filter_query);
    let position = Position::new(event.column, event.row);
    match song_index_at(area, position, scroll, view.len(), filter_visible) {
        Some(i) => {
            *selected = i;
            Some((view.to_queue(), i))
        },
        None => None,
    }
}


/// The page's title: how many songs are shown, whether a scan runs, the
/// order, the filter with its match count, and the files that failed or
/// went missing when there are any.
pub open spec fn local_title_spec(count: nat, scanning: bool, sort_label: Seq<char>, query: Seq<char>, failed: nat, missing: nat) -> Seq<char> {
    let filter = if query.len() == 0 {
        Seq::empty()
    } else {
        " · 过滤 '"@ + query + "' ("@ + decimal_seq(count) + " 匹配)"@
    };
    let diagnostics = if failed > 0 || missing > 0 {
        " · 损坏 "@ + decimal_seq(failed) + " · 缺失 "@ + decimal_seq(missing)
    } else {
        Seq::empty()
    };
    " 本地音乐 · "@ + decimal_seq(count) + " 首 · "@ + (if scanning { "⏳ 扫描中 · "@ } else { Seq::empty() }) + "排序 "@
        + sort_label + " · s 切换"@ + filter + diagnostics + " "@
}

/// The page's title.
pub fn local_title(count: u64, scanning: bool, sort_label: &str, query: &str, failed: u64, missing: u64) -> (s: String)
    ensures
        s@ == local_title_spec(count as nat, scanning, sort_label@, query@, failed as nat, missing as nat),
{
    let mut s = string_of(" 本地音乐 · ");
    push_decimal(&mut s, count);
    push_str(&mut s, " 首 · ");
    if scanning {
        push_str(&mut s, "⏳ 扫描中 · ");
    }
    push_str(&mut s, "排序 ");
    push_str(&mut s, sort_label);
    push_str(&mut s, " · s 切换");
    if query.unicode_len() > 0 {
        push_str(&mut s, " · 过滤 '");
        push_str(&mut s, query);
        push_str(&mut s, "' (");
        push_decimal(&mut s, count);
        push_str(&mut s, " 匹配)");
    }
    if failed > 0 || missing > 0 {
        push_str(&mut s, " · 损坏 ");
        push_decimal(&mut s, failed);
        push_str(&mut s, " · 缺失 ");
        push_decimal(&mut s, missing);
    }
    push_str(&mut s, " ");
    proof {
        assert(s@ =~= local_title_spec(count as nat, scanning, sort_label@, query@, failed as nat, missing as nat));
    }
    s
}

/// What the inside of the local music card shows.
#[derive(Debug, Clone, PartialEq, Eq)]
pub enum LocalBody {
    /// Too little room for anything.
    Nothing,
    /// A line of text in place of the list.
    Message(String),
    /// The header on row `header_y` and the songs below it, `visible`
    /// rows of them, from `scroll`.
    List { header_y: u16, visible: usize, scroll: usize },
}

/// The first song shown so that the selection is in view and the list no
/// further down than its last page.
pub open spec fn local_scroll_spec(selected: int, scroll: int, visible: int, len: int) -> int {
    let back = if visible >= 1 { visible - 1 } else { 0 };
    let s1 = if selected >= scroll + visible {
        if selected >= back { selected - back } else { 0 }
    } else if selected < scroll {
        selected
    } else {
        scroll
    };
    let limit = if len >= visible { len - visible } else { 0 };
    if s1 <= limit { s1 } else { limit }
}

/// What the local music card shows inside `inner`: nothing when it is
/// under two rows; a notice when no folder is set, when a scan runs with
/// nothing found yet, or when nothing was found; otherwise the song list
/// below the filter row (when shown), if at least three rows are left.
pub open spec fn local_body_spec(inner: Rect, has_paths: bool, count: int, scanning: bool, filter_visible: bool, selected: int, scroll: int) -> (int, Seq<char>, u16, int, int) {
    if inner.height < 2 {
        (0, Seq::empty(), 0, 0, 0)
    } else if !has_paths {
        (1, " 未配置音乐目录，请在设置（0）→ 数据与本地库中添加"@, 0, 0, 0)
    } else if count == 0 && scanning {
        (1, " 正在扫描本地音乐，请稍候..."@, 0, 0, 0)
    } else if count == 0 {
        (1, " 目录下未找到音频文件，按 r 重新扫描"@, 0, 0, 0)
    } else {
        let header_y = if filter_visible { (inner.y + 1) as u16 } else { inner.y };
        let height = if filter_visible { sat_sub16(inner.height, 1) } else { inner.height };
        if height < 3 {
            (0, Seq::empty(), 0, 0, 0)
        } else {
            let visible = sat_sub16(height, 2) as int;
            (2, Seq::empty(), header_y, visible, local_scroll_spec(selected, scroll, visible, count))
        }
    }
}

pub open spec fn local_body_view(b: LocalBody) -> (int, Seq<char>, u16, int, int) {
    match b {
        LocalBody::Nothing => (0, Seq::empty(), 0, 0, 0),
        LocalBody::Message(m) => (1, m@, 0, 0, 0),
        LocalBody::List { header_y, visible, scroll } => (2, Seq::empty(), header_y, visible as int, scroll as int),
    }
}

/// What the card shows, with the list's scroll kept around the selection.
pub fn local_body(inner: Rect, has_paths: bool, count: usize, scanning: bool, filter_visible: bool, selected: usize, scroll: usize) -> (r: LocalBody)
    requires
        filter_visible ==> inner.y + 1 <= u16::MAX,
        scroll + inner.height <= usize::MAX,
    ensures
        local_body_view(r) == local_body_spec(inner, has_paths, count as int, scanning, filter_visible, selected as int, scroll as int),
{
    if inner.height < 2 {
        return LocalBody::Nothing;
    }
    if !has_paths {
        return LocalBody::Message(string_of(" 未配置音乐目录，请在设置（0）→ 数据与本地库中添加"));
    }
    if count == 0 && scanning {
        return LocalBody::Message(string_of(" 正在扫描本地音乐，请稍候..."));
    }
    if count == 0 {
        return LocalBody::Message(string_of(" 目录下未找到音频文件，按 r 重新扫描"));
    }
    let header_y = if filter_visible { inner.y + 1 } else { inner.y };
    let height = if filter_visible { inner.height.saturating_sub(1) } else { inner.height };
    if height < 3 {
        return LocalBody::Nothing;
    }
    let visible = height.saturating_sub(2) as usize;
    let s1 = if selected >= scroll + visible {
        selected.saturating_sub(visible.saturating_sub(1))
    } else if selected < scroll {
        selected
    } else {
        scroll
    };
    let limit = count.saturating_sub(visible);
    let sc = if s1 <= limit { s1 } else { limit };
    LocalBody::List { header_y, visible, scroll: sc }
}

/// The delete confirmation dialog in the card: 72 columns at most (the
/// card less two), seven rows at most, centred.
pub open spec fn delete_dialog_spec(inner: Rect) -> Rect {
    let w = if sat_sub16(inner.width, 2) <= 72 { sat_sub16(inner.width, 2) } else { 72 };
    let h = if inner.height <= 7 { inner.height } else { 7 };
    Rect { x: (inner.x + sat_sub16(inner.width, w) / 2) as u16, y: (inner.y + sat_sub16(inner.height, h) / 2) as u16, width: w, height: h }
}

/// Where the delete confirmation goes.
pub fn delete_dialog_area(inner: Rect) -> (r: Rect)
    requires
        inner.x + sat_sub16(inner.width, delete_dialog_spec(inner).width) / 2 <= u16::MAX,
        inner.y + sat_sub16(inner.height, delete_dialog_spec(inner).height) / 2 <= u16::MAX,
    ensures
        r == delete_dialog_spec(inner),
{
    let narrowed = inner.width.saturating_sub(2);
    let w: u16 = if narrowed <= 72 { narrowed } else { 72 };
    let h: u16 = if inner.height <= 7 { inner.height } else { 7 };
    Rect::new(inner.x + inner.width.saturating_sub(w) / 2, inner.y + inner.height.saturating_sub(h) / 2, w, h)
}

/// The lines of the delete confirmation: the question, the path, a blank
/// line and the keys.
pub fn delete_dialog_lines(name: &str, path: &str) -> (r: Vec<String>)
    ensures
        r@.len() == 4,
        r@[0]@ == "删除「"@ + name@ + "」？"@,
        r@[1]@ == path@,
        r@[2]@.len() == 0,
        r@[3]@ == "y 确认删除    n / Esc 取消"@,
{
    let mut question = string_of("删除「");
    push_str(&mut question, name);
    push_str(&mut question, "」？");
    let blank = String::new();
    proof {
        assert(blank@ =~= Seq::<char>::empty());
    }
    vec![question, string_of(path), blank, string_of("y 确认删除    n / Esc 取消")]
}


/// The lists of the local library check.
#[derive(Debug, Clone, Copy, PartialEq, Eq, Structural)]
pub enum LocalDiagnosticsKind {
    Corrupt,
    Missing,
    Duplicates,
}

pub open spec fn diagnostics_name(kind: LocalDiagnosticsKind) -> Seq<char> {
    match kind {
        LocalDiagnosticsKind::Corrupt => "损坏文件"@,
        LocalDiagnosticsKind::Missing => "缺失文件"@,
        LocalDiagnosticsKind::Duplicates => "重复歌曲"@,
    }
}

/// The title of the library check overlay for a list.
pub fn diagnostics_title(kind: LocalDiagnosticsKind) -> (s: String)
    ensures
        s@ == "本地库诊断 · "@ + diagnostics_name(kind) + " · i 切换，Esc 关闭"@,
{
    let mut s = string_of("本地库诊断 · ");
    push_str(&mut s, match kind {
        LocalDiagnosticsKind::Corrupt => "损坏文件",
        LocalDiagnosticsKind::Missing => "缺失文件",
        LocalDiagnosticsKind::Duplicates => "重复歌曲",
    });
    push_str(&mut s, " · i 切换，Esc 关闭");
    s
}

/// The library check overlay: 110 columns at most (the area less four),
/// the area's height less four and at least five rows, centred.
pub open spec fn diagnostics_area_spec(area: Rect) -> Rect {
    let w = if sat_sub16(area.width, 4) <= 110 { sat_sub16(area.width, 4) } else { 110 };
    let h = if sat_sub16(area.height, 4) >= 5 { sat_sub16(area.height, 4) } else { 5 };
    Rect { x: (area.x + sat_sub16(area.width, w) / 2) as u16, y: (area.y + sat_sub16(area.height, h) / 2) as u16, width: w, height: h }
}

/// Where the library check overlay goes.
pub fn diagnostics_area(area: Rect) -> (r: Rect)
    requires
        area.x + sat_sub16(area.width, diagnostics_area_spec(area).width) / 2 <= u16::MAX,
        area.y + sat_sub16(area.height, diagnostics_area_spec(area).height) / 2 <= u16::MAX,
    ensures
        r == diagnostics_area_spec(area),
{
    let narrowed = area.width.saturating_sub(4);
    let w: u16 = if narrowed <= 110 { narrowed } else { 110 };
    let shortened = area.height.saturating_sub(4);
    let h: u16 = if shortened >= 5 { shortened } else { 5 };
    Rect::new(area.x + area.width.saturating_sub(w) / 2, area.y + area.height.saturating_sub(h) / 2, w, h)
}

/// How a song of a duplicate group is named: its file, else its id.
pub open spec fn duplicate_name(s: SongInfo) -> Seq<char> {
    match s.file_path {
        Some(p) => p@,
        None => s.id@,
    }
}

/// A line for a group of duplicate songs: their names joined by `  <->  `.
pub fn duplicate_group_line(songs: &Vec<SongInfo>) -> (s: String)
    ensures
        s@ == join_spec(songs@.map_values(|x: SongInfo| duplicate_name(x)), "  <->  "@),
{
    let mut names: Vec<Vec<char>> = Vec::new();
    let mut i: usize = 0;
    while i < songs.len()
        invariant
            i <= songs@.len(),
            nested_view(names@) == songs@.take(i as int).map_values(|x: SongInfo| duplicate_name(x)),
        decreases songs@.len() - i,
    {
        let name = match &songs[i].file_path {
            Some(p) => chars_of(p.as_str()),
            None => chars_of(songs[i].id.as_str()),
        };
        assert(name@ == duplicate_name(songs@[i as int]));
        let ghost prev = names@;
        names.push(name);
        assert(names@ == prev.push(name));
        assert(nested_view(names@) =~= nested_view(prev).push(name@));
        assert(songs@.take(i + 1).map_values(|x: SongInfo| duplicate_name(x)) =~= songs@.take(i as int).map_values(
            |x: SongInfo| duplicate_name(x),
        ).push(duplicate_name(songs@[i as int])));
        i = i + 1;
    }
    assert(songs@.take(songs@.len() as int) =~= songs@);
    join_chars(&names, "  <->  ")
}

} // verus!
