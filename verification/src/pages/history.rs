//! The play history page: its filtered view, the keys and clicks on it,
//! and the two-step confirmation before the whole history is cleared.

use vstd::prelude::*;
use crate::casefold::{to_lowercase, unicode_lowercase};
use crate::pages::geometry::{sat_add16, Rect};
use crate::pages::input::{KeyCode, KeyEvent, MouseEvent, MouseEventKind};
use crate::song::{copy_song, same_song, SongInfo};
use crate::text::{chars_of, contains, contains_seq, decimal_seq, push_decimal, push_str, string_of, trim_seq};

verus! {

broadcast use vstd::string::group_string_axioms;

/// A second `D` within this many milliseconds clears the history.
pub const CLEAR_HISTORY_CONFIRM_WINDOW_MS: u64 = 5000;

/// The positions of the shown songs in the sorted history: a plain range
/// when nothing filters, else the positions that match.
#[derive(Debug, Clone, PartialEq, Eq)]
pub enum HistoryIndices {
    Identity(usize, usize),
    Filtered(Vec<usize>),
}

impl HistoryIndices {
    pub open spec fn spec_len(self) -> int {
        match self {
            HistoryIndices::Identity(start, end) => if end >= start { end - start } else { 0 },
            HistoryIndices::Filtered(v) => v@.len() as int,
        }
    }

    pub open spec fn spec_get(self, i: int) -> Option<int> {
        match self {
            HistoryIndices::Identity(start, end) => if 0 <= i && start + i < end { Some(start + i) } else { None },
            HistoryIndices::Filtered(v) => if 0 <= i < v@.len() { Some(v@[i] as int) } else { None },
        }
    }

    /// How many songs are shown.
    pub fn len(&self) -> (n: usize)
        ensures
            n == self.spec_len(),
    {
        match self {
            HistoryIndices::Identity(start, end) => end.saturating_sub(*start),
            HistoryIndices::Filtered(v) => v.len(),
        }
    }

    /// The position in the sorted history of shown song `i`.
    pub fn get(&self, i: usize) -> (r: Option<usize>)
        ensures
            match r {
                Some(k) => self.spec_get(i as int) == Some(k as int),
                None => self.spec_get(i as int) is None,
            },
    {
        match self {
            HistoryIndices::Identity(start, end) => match start.checked_add(i) {
                Some(k) => if k < *end { Some(k) } else { None },
                None => None,
            },
            HistoryIndices::Filtered(v) => if i < v.len() { Some(v[i]) } else { None },
        }
    }
}

/// Whether a song matches a lower-case query, in its title or singer.
pub open spec fn song_matches(song: SongInfo, query: Seq<char>) -> bool {
    contains_seq(unicode_lowercase(song.name@), query) || contains_seq(unicode_lowercase(song.singer@), query)
}

/// The positions of the songs that match a lower-case query, in order.
pub open spec fn matching_indices(songs: Seq<SongInfo>, query: Seq<char>) -> Seq<usize>
    decreases songs.len(),
{
    if songs.len() == 0 {
        Seq::empty()
    } else {
        let prev = matching_indices(songs.drop_last(), query);
        if song_matches(songs.last(), query) {
            prev.push((songs.len() - 1) as usize)
        } else {
            prev
        }
    }
}

/// Whether a song matches a lower-case query.
fn matches_query(song: &SongInfo, query: &Vec<char>) -> (r: bool)
    ensures
        r == song_matches(*song, query@),
{
    let name = to_lowercase(song.name.as_str());
    if contains(&chars_of(name.as_str()), query) {
        return true;
    }
    let singer = to_lowercase(song.singer.as_str());
    contains(&chars_of(singer.as_str()), query)
}

/// The view of the history under a filter.
pub fn history_view(songs: &Vec<SongInfo>, filter: &str) -> (r: HistoryIndices)
    ensures
        trim_seq(filter@).len() == 0 ==> r == HistoryIndices::Identity(0, songs@.len() as usize),
        trim_seq(filter@).len() > 0 ==> (r matches HistoryIndices::Filtered(v) && v@ == matching_indices(
            songs@,
            unicode_lowercase(trim_seq(filter@)),
        )),
{
    let t = crate::text::trim(filter);
    if t.as_str().unicode_len() == 0 {
        return HistoryIndices::Identity(0, songs.len());
    }
    let q = to_lowercase(t.as_str());
    let query = chars_of(q.as_str());
    let mut out: Vec<usize> = Vec::new();
    let mut i: usize = 0;
    assert(songs@.take(0) =~= Seq::<SongInfo>::empty());
    while i < songs.len()
        invariant
            i <= songs@.len(),
            query@ == unicode_lowercase(trim_seq(filter@)),
            out@ == matching_indices(songs@.take(i as int), query@),
        decreases songs@.len() - i,
    {
        assert(songs@.take(i + 1).drop_last() =~= songs@.take(i as int));
        assert(songs@.take(i + 1).last() == songs@[i as int]);
        if matches_query(&songs[i], &query) {
            out.push(i);
        }
        i = i + 1;
    }
    assert(songs@.take(i as int) =~= songs@);
    HistoryIndices::Filtered(out)
}

/// The positions a view shows, in order.
pub open spec fn view_positions(idx: HistoryIndices) -> Seq<int> {
    match idx {
        HistoryIndices::Identity(start, end) => Seq::new(
            if end >= start {
                (end - start) as nat
            } else {
                0
            },
            |i: int| start + i,
        ),
        HistoryIndices::Filtered(v) => v@.map_values(|k: usize| k as int),
    }
}

/// The songs of `sorted` at `positions`, in order, skipping positions past
/// its end.
pub open spec fn songs_at(sorted: Seq<SongInfo>, positions: Seq<int>) -> Seq<SongInfo>
    decreases positions.len(),
{
    if positions.len() == 0 {
        Seq::empty()
    } else {
        let prev = songs_at(sorted, positions.drop_last());
        let k = positions.last();
        if 0 <= k < sorted.len() {
            prev.push(sorted[k])
        } else {
            prev
        }
    }
}

/// Two song lists hold the same songs in the same order.
pub open spec fn same_songs(a: Seq<SongInfo>, b: Seq<SongInfo>) -> bool {
    a.len() == b.len() && forall|i: int| 0 <= i < a.len() ==> same_song(#[trigger] a[i], b[i])
}

/// Every position of a list, in order, picks out the list itself.
pub proof fn lemma_songs_at_all(sorted: Seq<SongInfo>, n: int)
    requires
        0 <= n <= sorted.len(),
    ensures
        songs_at(sorted, Seq::new(n as nat, |i: int| i)) == sorted.take(n),
    decreases n,
{
    if n > 0 {
        assert(Seq::new(n as nat, |i: int| i).drop_last() =~= Seq::new((n - 1) as nat, |i: int| i));
        lemma_songs_at_all(sorted, n - 1);
        assert(sorted.take(n) =~= sorted.take(n - 1).push(sorted[n - 1]));
    } else {
        assert(sorted.take(0) =~= Seq::<SongInfo>::empty());
    }
}

/// Copies of the shown songs, in order.
pub fn view_songs(sorted: &[SongInfo], indices: &HistoryIndices) -> (out: Vec<SongInfo>)
    ensures
        same_songs(out@, songs_at(sorted@, view_positions(*indices))),
{
    let ghost pos = view_positions(*indices);
    let n = indices.len();
    let mut out: Vec<SongInfo> = Vec::new();
    let mut i: usize = 0;
    assert(pos.take(0) =~= Seq::<int>::empty());
    while i < n
        invariant
            n == indices.spec_len(),
            pos == view_positions(*indices),
            pos.len() == n,
            i <= n,
            same_songs(out@, songs_at(sorted@, pos.take(i as int))),
        decreases n - i,
    {
        assert(pos.take(i + 1).drop_last() =~= pos.take(i as int));
        assert(indices.spec_get(i as int) == Some(pos[i as int]));
        let ghost prev = out@;
        match indices.get(i) {
            Some(k) => {
                if k < sorted.len() {
                    out.push(copy_song(&sorted[k]));
                    assert(same_songs(out@, songs_at(sorted@, pos.take(i + 1)))) by {
                        assert(out@ == prev.push(out@.last()));
                    }
                }
            },
            None => {},
        }
        i = i + 1;
    }
    assert(pos.take(n as int) =~= pos);
    out
}

/// The songs the history page shows under a filter.
pub open spec fn history_shown(sorted: Seq<SongInfo>, filter: Seq<char>) -> Seq<SongInfo> {
    if trim_seq(filter).len() == 0 {
        sorted
    } else {
        songs_at(sorted, matching_indices(sorted, unicode_lowercase(trim_seq(filter))).map_values(|k: usize| k as int))
    }
}

/// The song under a right click on the history list: it becomes the
/// selection, and the shown songs come back with its position.
pub fn context_song_at(event: MouseEvent, area: Rect, sorted: &Vec<SongInfo>, filter_query: &str, state: &mut HistoryState) -> (r: Option<(Vec<SongInfo>, usize)>)
    ensures
        final(state).scroll == old(state).scroll,
        final(state).clear_armed_at == old(state).clear_armed_at,
        ({
            let shown = history_shown(sorted@, filter_query@);
            match history_row_at(area, event.row, trim_seq(filter_query@).len() > 0, old(state).scroll as int, shown.len() as int) {
                Some(i) => r matches Some((list, j)) && j == i && final(state).selected == i && same_songs(list@, shown),
                None => r is None && final(state).selected == old(state).selected,
            }
        }),
{
    let idx = history_view(sorted, filter_query);
    let list = view_songs(sorted.as_slice(), &idx);
    proof {
        let shown = history_shown(sorted@, filter_query@);
        if trim_seq(filter_query@).len() == 0 {
            assert(sorted@.len() == sorted.len());
            assert(idx == HistoryIndices::Identity(0, sorted@.len() as usize));
            let vp = view_positions(idx);
            assert(vp.len() == sorted@.len());
            assert forall|i: int| 0 <= i < vp.len() implies vp[i] == i by {}
            assert(vp =~= Seq::new(sorted@.len(), |i: int| i));
            lemma_songs_at_all(sorted@, sorted@.len() as int);
            assert(sorted@.take(sorted@.len() as int) =~= sorted@);
        }
        assert(same_songs(list@, shown));
    }
    let filter_shown = crate::text::trim(filter_query).as_str().unicode_len() > 0;
    match history_song_at(area, event.row, filter_shown, state.scroll, list.len()) {
        Some(i) => {
            state.selected = i;
            Some((list, i))
        },
        None => None,
    }
}

/// The list actions the key bindings of the history page name.
#[derive(Debug, Clone, Copy, PartialEq, Eq, Structural)]
pub enum HistoryBinding {
    CycleSort,
    Filter,
    SelectUp,
    SelectDown,
    SelectFirst,
    SelectLast,
    PageUp,
    PageDown,
    AddToQueue,
    AddToQueueNext,
    Activate,
    ToggleFavorite,
    Download,
}

/// What the history page asks the main loop to do; indices are positions
/// in the shown list.
#[derive(Debug, Clone, Copy, PartialEq, Eq, Structural)]
pub enum HistoryCommand {
    Nothing,
    CycleSort,
    PlayFrom(usize),
    AddToQueue { index: usize, next: bool },
    ToggleFavorite(usize),
    Download(usize),
    RemoveHistory(usize),
    /// The second `D` came in time: clear everything and go to the top.
    ClearHistory,
    /// The first `D`: ask for a second one.
    ConfirmClear,
}

/// The selection and scroll of the history page, and when clearing was
/// armed.
#[derive(Debug, Clone, Copy, PartialEq, Eq, Structural)]
pub struct HistoryState {
    pub selected: usize,
    pub scroll: usize,
    pub clear_armed_at: Option<u64>,
}

/// The selection after moving up (wrapping to the end when `wrap` is set).
pub open spec fn up_spec(selected: int, len: int, wrap: bool) -> int {
    if len == 0 {
        selected
    } else if selected > 0 {
        selected - 1
    } else if wrap {
        len - 1
    } else {
        selected
    }
}

/// The selection after moving down (wrapping to the start when `wrap` is
/// set).
pub open spec fn down_spec(selected: int, len: int, wrap: bool) -> int {
    if len == 0 {
        selected
    } else if selected + 1 < len {
        selected + 1
    } else if wrap {
        0
    } else {
        selected
    }
}

pub open spec fn last_of(len: int) -> int {
    if len >= 1 { len - 1 } else { 0 }
}

pub open spec fn page_down_spec(selected: int, len: int) -> int {
    if selected + 10 <= last_of(len) { selected + 10 } else { last_of(len) }
}

pub open spec fn page_up_spec(selected: int) -> int {
    if selected >= 10 { selected - 10 } else { 0 }
}

/// Whether clearing was armed recently enough at `now_ms` for a second `D`
/// to go through.
pub open spec fn clear_confirmed(armed: Option<u64>, now_ms: u64) -> bool {
    armed matches Some(t) && (if now_ms >= t { now_ms - t } else { 0 }) <= CLEAR_HISTORY_CONFIRM_WINDOW_MS
}

fn up(selected: usize, len: usize, wrap: bool) -> (r: usize)
    ensures
        r == up_spec(selected as int, len as int, wrap),
{
    if len == 0 {
        selected
    } else if selected > 0 {
        selected - 1
    } else if wrap {
        len - 1
    } else {
        selected
    }
}

fn down(selected: usize, len: usize, wrap: bool) -> (r: usize)
    ensures
        r == down_spec(selected as int, len as int, wrap),
{
    if len == 0 {
        selected
    } else if selected < len - 1 {
        selected + 1
    } else if wrap {
        0
    } else {
        selected
    }
}

fn page_down(selected: usize, len: usize) -> (r: usize)
    ensures
        r == page_down_spec(selected as int, len as int),
{
    let last = len.saturating_sub(1);
    if selected <= last && last - selected >= 10 { selected + 10 } else { last }
}

/// What a key does on the history page. A list action the bindings name
/// (`bound`) is taken first; otherwise the page's own keys apply.
/// `activation_key` says whether the key is one that plays a song.
pub open spec fn history_key_spec(
    st: HistoryState,
    key: KeyEvent,
    bound: Option<HistoryBinding>,
    len: int,
    wrap: bool,
    activation_key: bool,
    now_ms: u64,
) -> (HistoryState, HistoryCommand) {
    let sel = st.selected as int;
    let has = sel < len;
    let at = |s: int| HistoryState { selected: s as usize, ..st };
    match bound {
        Some(HistoryBinding::CycleSort) => (st, HistoryCommand::CycleSort),
        Some(HistoryBinding::Filter) => (st, HistoryCommand::Nothing),
        Some(HistoryBinding::SelectUp) => (at(up_spec(sel, len, wrap)), HistoryCommand::Nothing),
        Some(HistoryBinding::SelectDown) => (at(down_spec(sel, len, wrap)), HistoryCommand::Nothing),
        Some(HistoryBinding::SelectFirst) => (at(0), HistoryCommand::Nothing),
        Some(HistoryBinding::SelectLast) => (at(last_of(len)), HistoryCommand::Nothing),
        Some(HistoryBinding::PageUp) => (at(page_up_spec(sel)), HistoryCommand::Nothing),
        Some(HistoryBinding::PageDown) => (at(page_down_spec(sel, len)), HistoryCommand::Nothing),
        Some(HistoryBinding::AddToQueue) => (st, if has { HistoryCommand::AddToQueue { index: st.selected, next: false } } else { HistoryCommand::Nothing }),
        Some(HistoryBinding::AddToQueueNext) => (st, if has { HistoryCommand::AddToQueue { index: st.selected, next: true } } else { HistoryCommand::Nothing }),
        Some(HistoryBinding::Activate) => (st, if len != 0 && has { HistoryCommand::PlayFrom(st.selected) } else { HistoryCommand::Nothing }),
        Some(HistoryBinding::ToggleFavorite) => (st, if has { HistoryCommand::ToggleFavorite(st.selected) } else { HistoryCommand::Nothing }),
        Some(HistoryBinding::Download) => (st, if has { HistoryCommand::Download(st.selected) } else { HistoryCommand::Nothing }),
        None => {
            if key.plain(KeyCode::Char('s')) {
                (st, HistoryCommand::CycleSort)
            } else if key.plain(KeyCode::Up) {
                (at(up_spec(sel, len, wrap)), HistoryCommand::Nothing)
            } else if key.plain(KeyCode::Down) {
                (at(down_spec(sel, len, wrap)), HistoryCommand::Nothing)
            } else if key.plain(KeyCode::Home) || key.plain(KeyCode::Char('g')) {
                (at(0), HistoryCommand::Nothing)
            } else if key.plain(KeyCode::End) || key.plain(KeyCode::Char('G')) || key.shifted(KeyCode::Char('G')) {
                (at(last_of(len)), HistoryCommand::Nothing)
            } else if key.ctrl(KeyCode::Char('u')) || key.plain(KeyCode::PageUp) {
                (at(page_up_spec(sel)), HistoryCommand::Nothing)
            } else if key.ctrl(KeyCode::Char('d')) || key.plain(KeyCode::PageDown) {
                (at(page_down_spec(sel, len)), HistoryCommand::Nothing)
            } else if activation_key && len != 0 && has {
                (st, HistoryCommand::PlayFrom(st.selected))
            } else if key.plain(KeyCode::Char('a')) {
                (st, if has { HistoryCommand::AddToQueue { index: st.selected, next: false } } else { HistoryCommand::Nothing })
            } else if key.plain(KeyCode::Char('A')) || key.shifted(KeyCode::Char('A')) {
                (st, if has { HistoryCommand::AddToQueue { index: st.selected, next: true } } else { HistoryCommand::Nothing })
            } else if key.plain(KeyCode::Char('d')) || key.plain(KeyCode::Delete) {
                if has {
                    let bound2 = if len >= 2 { len - 2 } else { 0 };
                    (at(if sel <= bound2 { sel } else { bound2 }), HistoryCommand::RemoveHistory(st.selected))
                } else {
                    (st, HistoryCommand::Nothing)
                }
            } else if key.plain(KeyCode::Char('f')) {
                (st, if has { HistoryCommand::ToggleFavorite(st.selected) } else { HistoryCommand::Nothing })
            } else if key.plain(KeyCode::Esc) {
                (HistoryState { clear_armed_at: None, ..st }, HistoryCommand::Nothing)
            } else if key.shifted(KeyCode::Char('D')) || key.plain(KeyCode::Char('D')) {
                if clear_confirmed(st.clear_armed_at, now_ms) {
                    (HistoryState { selected: 0, scroll: 0, clear_armed_at: None }, HistoryCommand::ClearHistory)
                } else {
                    (HistoryState { clear_armed_at: Some(now_ms), ..st }, HistoryCommand::ConfirmClear)
                }
            } else {
                (st, HistoryCommand::Nothing)
            }
        },
    }
}

fn plain(k: &KeyEvent, code: KeyCode) -> (r: bool)
    ensures
        r == k.plain(code),
{
    !k.modifiers.shift && !k.modifiers.control && !k.modifiers.alt && !k.modifiers.other && k.code == code
}

fn ctrl(k: &KeyEvent, code: KeyCode) -> (r: bool)
    ensures
        r == k.ctrl(code),
{
    !k.modifiers.shift && k.modifiers.control && !k.modifiers.alt && !k.modifiers.other && k.code == code
}

fn shifted(k: &KeyEvent, code: KeyCode) -> (r: bool)
    ensures
        r == k.shifted(code),
{
    k.modifiers.shift && !k.modifiers.control && !k.modifiers.alt && !k.modifiers.other && k.code == code
}

impl HistoryState {
    /// Handles a key on a shown list of `len` songs at `now_ms`.
    #[verifier::rlimit(40)]
    pub fn handle_input(
        &mut self,
        key: &KeyEvent,
        bound: Option<HistoryBinding>,
        len: usize,
        wrap: bool,
        activation_key: bool,
        now_ms: u64,
    ) -> (r: HistoryCommand)
        ensures
            (*final(self), r) == history_key_spec(*old(self), *key, bound, len as int, wrap, activation_key, now_ms),
    {
        let sel = self.selected;
        let has = sel < len;
        match bound {
            Some(HistoryBinding::CycleSort) => { return HistoryCommand::CycleSort; },
            Some(HistoryBinding::Filter) => { return HistoryCommand::Nothing; },
            Some(HistoryBinding::SelectUp) => { self.selected = up(sel, len, wrap); return HistoryCommand::Nothing; },
            Some(HistoryBinding::SelectDown) => { self.selected = down(sel, len, wrap); return HistoryCommand::Nothing; },
            Some(HistoryBinding::SelectFirst) => { self.selected = 0; return HistoryCommand::Nothing; },
            Some(HistoryBinding::SelectLast) => { self.selected = len.saturating_sub(1); return HistoryCommand::Nothing; },
            Some(HistoryBinding::PageUp) => { self.selected = sel.saturating_sub(10); return HistoryCommand::Nothing; },
            Some(HistoryBinding::PageDown) => { self.selected = page_down(sel, len); return HistoryCommand::Nothing; },
            Some(HistoryBinding::AddToQueue) => {
                return if has { HistoryCommand::AddToQueue { index: sel, next: false } } else { HistoryCommand::Nothing };
            },
            Some(HistoryBinding::AddToQueueNext) => {
                return if has { HistoryCommand::AddToQueue { index: sel, next: true } } else { HistoryCommand::Nothing };
            },
            Some(HistoryBinding::Activate) => {
                return if len != 0 && has { HistoryCommand::PlayFrom(sel) } else { HistoryCommand::Nothing };
            },
            Some(HistoryBinding::ToggleFavorite) => {
                return if has { HistoryCommand::ToggleFavorite(sel) } else { HistoryCommand::Nothing };
            },
            Some(HistoryBinding::Download) => {
                return if has { HistoryCommand::Download(sel) } else { HistoryCommand::Nothing };
            },
            None => {},
        }
        if plain(key, KeyCode::Char('s')) {
            HistoryCommand::CycleSort
        } else if plain(key, KeyCode::Up) {
            self.selected = up(sel, len, wrap);
            HistoryCommand::Nothing
        } else if plain(key, KeyCode::Down) {
            self.selected = down(sel, len, wrap);
            HistoryCommand::Nothing
        } else if plain(key, KeyCode::Home) || plain(key, KeyCode::Char('g')) {
            self.selected = 0;
            HistoryCommand::Nothing
        } else if plain(key, KeyCode::End) || plain(key, KeyCode::Char('G')) || shifted(key, KeyCode::Char('G')) {
            self.selected = len.saturating_sub(1);
            HistoryCommand::Nothing
        } else if ctrl(key, KeyCode::Char('u')) || plain(key, KeyCode::PageUp) {
            self.selected = sel.saturating_sub(10);
            HistoryCommand::Nothing
        } else if ctrl(key, KeyCode::Char('d')) || plain(key, KeyCode::PageDown) {
            self.selected = page_down(sel, len);
            HistoryCommand::Nothing
        } else if activation_key && len != 0 && has {
            HistoryCommand::PlayFrom(sel)
        } else if plain(key, KeyCode::Char('a')) {
            if has { HistoryCommand::AddToQueue { index: sel, next: false } } else { HistoryCommand::Nothing }
        } else if plain(key, KeyCode::Char('A')) || shifted(key, KeyCode::Char('A')) {
            if has { HistoryCommand::AddToQueue { index: sel, next: true } } else { HistoryCommand::Nothing }
        } else if plain(key, KeyCode::Char('d')) || plain(key, KeyCode::Delete) {
            if has {
                let b = len.saturating_sub(2);
                self.selected = if sel <= b { sel } else { b };
                HistoryCommand::RemoveHistory(sel)
            } else {
                HistoryCommand::Nothing
            }
        } else if plain(key, KeyCode::Char('f')) {
            if has { HistoryCommand::ToggleFavorite(sel) } else { HistoryCommand::Nothing }
        } else if plain(key, KeyCode::Esc) {
            self.clear_armed_at = None;
            HistoryCommand::Nothing
        } else if shifted(key, KeyCode::Char('D')) || plain(key, KeyCode::Char('D')) {
            let confirmed = match self.clear_armed_at {
                Some(t) => now_ms.saturating_sub(t) <= CLEAR_HISTORY_CONFIRM_WINDOW_MS,
                None => false,
            };
            if confirmed {
                self.clear_armed_at = None;
                self.selected = 0;
                self.scroll = 0;
                HistoryCommand::ClearHistory
            } else {
                self.clear_armed_at = Some(now_ms);
                HistoryCommand::ConfirmClear
            }
        } else {
            HistoryCommand::Nothing
        }
    }
}

/// The row of a click in the history list: the list starts below the
/// header row, and one row lower while the filter is shown.
pub open spec fn history_row_at(area: Rect, row: u16, filter_shown: bool, scroll: int, len: int) -> Option<int> {
    let inner = area.spec_inner();
    let list_y = sat_add16(sat_add16(inner.y, if filter_shown { 1 } else { 0 }), 1);
    if row < list_y || row >= inner.spec_bottom() {
        None
    } else {
        let index = scroll + (row - list_y);
        if index < len { Some(index) } else { None }
    }
}

/// The shown song under a click, if any.
pub fn history_song_at(area: Rect, row: u16, filter_shown: bool, scroll: usize, len: usize) -> (r: Option<usize>)
    ensures
        match r {
            Some(i) => history_row_at(area, row, filter_shown, scroll as int, len as int) == Some(i as int),
            None => history_row_at(area, row, filter_shown, scroll as int, len as int) is None,
        },
{
    let inner = area.inner();
    let list_y = inner.y.saturating_add(if filter_shown { 1 } else { 0 }).saturating_add(1);
    if row < list_y || row >= inner.bottom() {
        return None;
    }
    let offset = (row - list_y) as usize;
    if scroll < len && offset < len - scroll {
        Some(scroll + offset)
    } else {
        None
    }
}

impl HistoryState {
    /// Handles the mouse: the wheel moves by `scroll_amount` (at least one),
    /// a left click selects the song under it; returns the song to play when
    /// the click activates.
    pub fn handle_mouse(
        &mut self,
        event: MouseEvent,
        area: Rect,
        filter_shown: bool,
        len: usize,
        scroll_amount: usize,
        activate: bool,
    ) -> (r: Option<usize>)
        ensures
            final(self).scroll == old(self).scroll,
            final(self).clear_armed_at == old(self).clear_armed_at,
            ({
                let step = if scroll_amount >= 1 { scroll_amount as int } else { 1 };
                match event.kind {
                    MouseEventKind::ScrollUp => r is None && final(self).selected == (if old(self).selected >= step {
                        old(self).selected - step
                    } else {
                        0
                    }),
                    MouseEventKind::ScrollDown => r is None && final(self).selected == (if old(self).selected + step
                        <= last_of(len as int) {
                        old(self).selected + step
                    } else {
                        last_of(len as int)
                    }),
                    MouseEventKind::LeftDown => match history_row_at(area, event.row, filter_shown, old(self).scroll as int, len as int) {
                        Some(i) => final(self).selected == i && r == if activate { Some(i as usize) } else { None },
                        None => r is None && final(self).selected == old(self).selected,
                    },
                    _ => r is None && final(self).selected == old(self).selected,
                }
            }),
    {
        let step = if scroll_amount >= 1 { scroll_amount } else { 1 };
        match event.kind {
            MouseEventKind::ScrollUp => {
                self.selected = self.selected.saturating_sub(step);
                None
            },
            MouseEventKind::ScrollDown => {
                let last = len.saturating_sub(1);
                self.selected = if self.selected <= last && last - self.selected >= step { self.selected + step } else { last };
                None
            },
            MouseEventKind::LeftDown => match history_song_at(area, event.row, filter_shown, self.scroll, len) {
                Some(i) => {
                    self.selected = i;
                    if activate { Some(i) } else { None }
                },
                None => None,
            },
            _ => None,
        }
    }
}

/// The scroll position that keeps `selected` in a view of `visible` rows
/// over `total` songs, as drawn.
pub open spec fn fit_scroll_spec(selected: int, scroll: int, visible: int, total: int) -> int {
    let s1 = if visible >= 1 && selected >= scroll + visible {
        selected - (visible - 1)
    } else if selected < scroll {
        selected
    } else {
        scroll
    };
    let limit = if total >= visible { total - visible } else { 0 };
    if s1 <= limit { s1 } else { limit }
}

/// Brings the selection into view before drawing `total` songs in
/// `visible` rows; a selection past the end goes back to the first song.
pub fn fit_view(state: &mut HistoryState, visible: usize, total: usize)
    requires
        visible >= 1,
    ensures
        final(state).selected == if old(state).selected >= total { 0 } else { old(state).selected },
        final(state).scroll == fit_scroll_spec(final(state).selected as int, old(state).scroll as int, visible as int, total as int),
        final(state).clear_armed_at == old(state).clear_armed_at,
{
    if state.selected >= total {
        state.selected = 0;
    }
    let sel = state.selected;
    let s1 = if sel >= state.scroll && sel - state.scroll >= visible {
        sel - (visible - 1)
    } else if sel < state.scroll {
        sel
    } else {
        state.scroll
    };
    let limit = total.saturating_sub(visible);
    state.scroll = if s1 <= limit { s1 } else { limit };
}

/// Clearing the history takes two presses of `D`: the first only asks,
/// and a second within the confirmation window clears and puts the
/// selection and scroll back at the top.
pub proof fn lemma_clear_needs_two_presses(
    st: HistoryState,
    key: KeyEvent,
    len: int,
    wrap: bool,
    t1: u64,
    t2: u64,
)
    requires
        st.clear_armed_at is None,
        key.plain(KeyCode::Char('D')) || key.shifted(KeyCode::Char('D')),
        t1 <= t2 <= t1 + CLEAR_HISTORY_CONFIRM_WINDOW_MS,
    ensures
        ({
            let (st1, c1) = history_key_spec(st, key, None, len, wrap, false, t1);
            let (st2, c2) = history_key_spec(st1, key, None, len, wrap, false, t2);
            &&& c1 == HistoryCommand::ConfirmClear
            &&& c2 == HistoryCommand::ClearHistory
            &&& st2 == (HistoryState { selected: 0, scroll: 0, clear_armed_at: None })
        }),
{
}

/// Escape takes back a first press of `D`: the next `D` only asks again.
pub proof fn lemma_escape_disarms_clear(st: HistoryState, d: KeyEvent, esc: KeyEvent, len: int, wrap: bool, t: u64)
    requires
        d.plain(KeyCode::Char('D')) || d.shifted(KeyCode::Char('D')),
        esc.plain(KeyCode::Esc),
    ensures
        ({
            let (st1, _) = history_key_spec(st, esc, None, len, wrap, false, t);
            history_key_spec(st1, d, None, len, wrap, false, t).1 == HistoryCommand::ConfirmClear
        }),
{
}


/// The history card's title: how many songs are shown, the order, and the
/// filter with its match count.
pub open spec fn history_title_spec(count: nat, sort_label: Seq<char>, query: Seq<char>) -> Seq<char> {
    "播放历史 ("@ + decimal_seq(count) + " 首) · 排序 "@ + sort_label + " · s 切换"@ + if query.len() == 0 {
        Seq::empty()
    } else {
        " · 过滤 '"@ + query + "' ("@ + decimal_seq(count) + " 匹配)"@
    }
}

/// The history card's title.
pub fn history_title(count: u64, sort_label: &str, query: &str) -> (s: String)
    ensures
        s@ == history_title_spec(count as nat, sort_label@, query@),
{
    let mut s = string_of("播放历史 (");
    push_decimal(&mut s, count);
    push_str(&mut s, " 首) · 排序 ");
    push_str(&mut s, sort_label);
    push_str(&mut s, " · s 切换");
    if query.unicode_len() > 0 {
        push_str(&mut s, " · 过滤 '");
        push_str(&mut s, query);
        push_str(&mut s, "' (");
        push_decimal(&mut s, count);
        push_str(&mut s, " 匹配)");
    }
    proof {
        assert(s@ =~= history_title_spec(count as nat, sort_label@, query@));
    }
    s
}

/// What an empty history card says: that there is no history, or that
/// the filter matches none.
pub fn history_empty_message(query: &str) -> (s: &'static str)
    ensures
        s@ == if query@.len() == 0 { "暂无播放历史"@ } else { "无匹配历史记录，按 Esc 清除过滤"@ },
{
    if query.unicode_len() == 0 {
        "暂无播放历史"
    } else {
        "无匹配历史记录，按 Esc 清除过滤"
    }
}

} // verus!
