//! Decisions of the main loop: which page gets a key, when the local music
//! page scans, how list selections move, how a saved session resumes.

use vstd::prelude::*;
use crate::pages::input::{KeyCode, KeyEvent, MouseEvent, MouseEventKind};
use crate::pages::status_bar::PlayerState;
use crate::text::{decimal2_seq, push_decimal2, push_str};

verus! {

broadcast use vstd::string::group_string_axioms;

/// Covers are sent to the terminal again at most this often, in
/// milliseconds.
pub const COVER_REDRAW_THROTTLE_MS: u64 = 2000;

/// Two left clicks at one cell within this many milliseconds are a double
/// click.
pub const DOUBLE_CLICK_MS: u64 = 500;

/// The pages of the sidebar.
#[derive(Debug, Clone, Copy, PartialEq, Eq, Structural)]
pub enum NavTab {
    Main,
    Search,
    Leaderboard,
    Playlists,
    Favorites,
    History,
    LocalMusic,
    Downloads,
    Sources,
    Settings,
}

impl NavTab {
    pub open spec fn spec_scope(self) -> Seq<char> {
        match self {
            NavTab::Main => "main"@,
            NavTab::Search => "search"@,
            NavTab::Leaderboard => "leaderboard"@,
            NavTab::Playlists => "playlists"@,
            NavTab::Favorites => "favorites"@,
            NavTab::History => "history"@,
            NavTab::LocalMusic => "local"@,
            NavTab::Downloads => "downloads"@,
            NavTab::Sources => "sources"@,
            NavTab::Settings => "settings"@,
        }
    }
}

/// The key binding scope of a page.
pub fn nav_page_scope(tab: NavTab) -> (s: &'static str)
    ensures
        s@ == tab.spec_scope(),
{
    match tab {
        NavTab::Main => "main",
        NavTab::Search => "search",
        NavTab::Leaderboard => "leaderboard",
        NavTab::Playlists => "playlists",
        NavTab::Favorites => "favorites",
        NavTab::History => "history",
        NavTab::LocalMusic => "local",
        NavTab::Downloads => "downloads",
        NavTab::Sources => "sources",
        NavTab::Settings => "settings",
    }
}

/// Whether Escape goes back to the main page: not while the page takes
/// text input, not from the pages that handle it themselves, and not while
/// a playlist or leaderboard is open on its page.
pub open spec fn should_go_to_main_spec(
    active_tab: NavTab,
    page_input_active: bool,
    playlist_open: bool,
    leaderboard_open: bool,
) -> bool {
    &&& !page_input_active
    &&& active_tab != NavTab::Main
    &&& active_tab != NavTab::Search
    &&& active_tab != NavTab::Favorites
    &&& !(active_tab == NavTab::Playlists && playlist_open)
    &&& !(active_tab == NavTab::Leaderboard && leaderboard_open)
}

/// Whether Escape goes back to the main page.
pub fn should_go_to_main(
    active_tab: NavTab,
    page_input_active: bool,
    playlist_open: bool,
    leaderboard_open: bool,
) -> (r: bool)
    ensures
        r == should_go_to_main_spec(active_tab, page_input_active, playlist_open, leaderboard_open),
{
    !page_input_active && active_tab != NavTab::Main && active_tab != NavTab::Search && active_tab
        != NavTab::Favorites && !(active_tab == NavTab::Playlists && playlist_open) && !(active_tab
        == NavTab::Leaderboard && leaderboard_open)
}

/// Whether entering the local music page starts a scan: the page was just
/// entered, scanning is on, there are folders, nothing is listed yet, and
/// no scan is running.
pub fn should_scan_local_music_on_entry(
    previous_tab: NavTab,
    active_tab: NavTab,
    enabled: bool,
    has_paths: bool,
    songs_empty: bool,
    is_scanning: bool,
) -> (r: bool)
    ensures
        r == (previous_tab != NavTab::LocalMusic && active_tab == NavTab::LocalMusic && enabled
            && has_paths && songs_empty && !is_scanning),
{
    previous_tab != NavTab::LocalMusic && active_tab == NavTab::LocalMusic && enabled && has_paths
        && songs_empty && !is_scanning
}

/// The selection after moving up in a list of `len`: from the top it wraps
/// to the bottom when `wrap` is set, else stays.
pub open spec fn previous_index_spec(selected: int, len: int, wrap: bool) -> int {
    if len == 0 {
        0
    } else if selected == 0 && wrap {
        len - 1
    } else {
        let up = if selected > 0 {
            selected - 1
        } else {
            0
        };
        if up < len - 1 {
            up
        } else {
            len - 1
        }
    }
}

/// The selection after moving down in a list of `len`: from the bottom it
/// wraps to the top when `wrap` is set, else stays at the bottom.
pub open spec fn next_index_spec(selected: int, len: int, wrap: bool) -> int {
    if len == 0 {
        0
    } else if selected + 1 < len {
        selected + 1
    } else if wrap {
        0
    } else {
        len - 1
    }
}

/// The selection after moving up in a list.
pub fn previous_list_index(selected: usize, len: usize, wrap: bool) -> (r: usize)
    ensures
        r == previous_index_spec(selected as int, len as int, wrap),
{
    if len == 0 {
        0
    } else if selected == 0 && wrap {
        len - 1
    } else {
        let up = selected.saturating_sub(1);
        if up < len - 1 {
            up
        } else {
            len - 1
        }
    }
}

/// The selection after moving down in a list.
pub fn next_list_index(selected: usize, len: usize, wrap: bool) -> (r: usize)
    ensures
        r == next_index_spec(selected as int, len as int, wrap),
{
    if len == 0 {
        0
    } else if selected < len - 1 {
        selected + 1
    } else if wrap {
        0
    } else {
        len - 1
    }
}

/// Moving through a non-empty list always lands on an item, and with
/// wrapping, moving down then up (or up then down) returns to the item one
/// started from.
pub proof fn lemma_list_moves_round_trip(selected: int, len: int)
    requires
        0 <= selected < len,
    ensures
        0 <= next_index_spec(selected, len, true) < len,
        0 <= previous_index_spec(selected, len, true) < len,
        0 <= next_index_spec(selected, len, false) < len,
        0 <= previous_index_spec(selected, len, false) < len,
        previous_index_spec(next_index_spec(selected, len, true), len, true) == selected,
        next_index_spec(previous_index_spec(selected, len, true), len, true) == selected,
{
}

/// How the player was left when the session was saved.
#[derive(Debug, Clone, Copy, PartialEq, Eq, Structural)]
pub enum SavedPlayerState {
    Playing,
    Paused,
    Stopped,
}

/// How a saved session resumes: whether the song is loaded into the player,
/// and whether it starts paused. A stopped session only restores the queue.
pub fn playback_restore_flags(state: SavedPlayerState) -> (r: (bool, bool))
    ensures
        r == match state {
            SavedPlayerState::Playing => (true, false),
            SavedPlayerState::Paused => (true, true),
            SavedPlayerState::Stopped => (false, false),
        },
{
    match state {
        SavedPlayerState::Playing => (true, false),
        SavedPlayerState::Paused => (true, true),
        SavedPlayerState::Stopped => (false, false),
    }
}

/// What the play key asks of the player.
#[derive(Debug, Clone, Copy, PartialEq, Eq, Structural)]
pub enum PlayStep {
    Pause,
    Resume,
    StartCurrent,
    Nothing,
}

/// The play/pause key: a playing or loading song pauses, a paused one
/// resumes, and an idle or stopped player starts the current queue entry.
pub fn toggle_step(state: PlayerState) -> (r: PlayStep)
    ensures
        r == match state {
            PlayerState::Playing | PlayerState::Loading => PlayStep::Pause,
            PlayerState::Paused => PlayStep::Resume,
            PlayerState::Idle | PlayerState::Stopped => PlayStep::StartCurrent,
        },
{
    match state {
        PlayerState::Playing | PlayerState::Loading => PlayStep::Pause,
        PlayerState::Paused => PlayStep::Resume,
        PlayerState::Idle | PlayerState::Stopped => PlayStep::StartCurrent,
    }
}

/// The resume key: a paused song resumes, an idle or stopped player starts
/// the current queue entry, and a playing or loading one is left alone.
pub fn resume_step(state: PlayerState) -> (r: PlayStep)
    ensures
        r == match state {
            PlayerState::Paused => PlayStep::Resume,
            PlayerState::Idle | PlayerState::Stopped => PlayStep::StartCurrent,
            PlayerState::Playing | PlayerState::Loading => PlayStep::Nothing,
        },
{
    match state {
        PlayerState::Paused => PlayStep::Resume,
        PlayerState::Idle | PlayerState::Stopped => PlayStep::StartCurrent,
        PlayerState::Playing | PlayerState::Loading => PlayStep::Nothing,
    }
}

/// A volume change: the requested volume capped at 100, and whether it
/// differs from the saved one (and so must be written to the config).
pub fn volume_update(saved: u32, requested: u32) -> (r: (u32, bool))
    ensures
        r.0 == if requested > 100 { 100 } else { requested },
        r.1 == (r.0 != saved),
{
    let volume = if requested > 100 { 100 } else { requested };
    (volume, volume != saved)
}

/// Advances a request counter and returns the new generation.
pub fn next_generation(sequence: &mut u64) -> (g: u64)
    requires
        *old(sequence) < u64::MAX,
    ensures
        g == *old(sequence) + 1,
        *final(sequence) == g,
{
    *sequence = *sequence + 1;
    *sequence
}

/// Whether enough time has passed since the last cover redraw to send it
/// again.
pub fn should_retransmit_cover(since_last_redraw_ms: u64) -> (r: bool)
    ensures
        r == (since_last_redraw_ms >= COVER_REDRAW_THROTTLE_MS),
{
    since_last_redraw_ms >= COVER_REDRAW_THROTTLE_MS
}

/// A time in seconds as `MM:SS` (minutes may run past two digits).
pub open spec fn clock_spec(total_secs: nat) -> Seq<char> {
    decimal2_seq(total_secs / 60) + ":"@ + decimal2_seq(total_secs % 60)
}

/// A time in seconds as `MM:SS` (minutes may run past two digits).
pub fn format_clock(total_secs: u64) -> (s: String)
    ensures
        s@ == clock_spec(total_secs as nat),
{
    let mut s = String::new();
    push_decimal2(&mut s, total_secs / 60);
    push_str(&mut s, ":");
    push_decimal2(&mut s, total_secs % 60);
    s
}

/// The answer to the local file deletion prompt.
#[derive(Debug, Clone, Copy, PartialEq, Eq, Structural)]
pub enum DeleteConfirmationAction {
    Confirm,
    Cancel,
    Ignore,
}

/// What a key answers to the deletion prompt: `y` confirms and `n` or
/// Escape cancels, with or without Shift (terminals differ in what they
/// send for capitals).
pub open spec fn delete_confirmation_spec(k: KeyEvent) -> DeleteConfirmationAction {
    let plain_or_shift = k.modifiers.is_none() || k.modifiers.is_shift();
    if plain_or_shift && (k.code == KeyCode::Char('y') || k.code == KeyCode::Char('Y')) {
        DeleteConfirmationAction::Confirm
    } else if (plain_or_shift && (k.code == KeyCode::Char('n') || k.code == KeyCode::Char('N'))) || k.plain(
        KeyCode::Esc,
    ) {
        DeleteConfirmationAction::Cancel
    } else {
        DeleteConfirmationAction::Ignore
    }
}

/// What a key answers to the deletion prompt.
pub fn delete_confirmation_action(key: &KeyEvent) -> (r: DeleteConfirmationAction)
    ensures
        r == delete_confirmation_spec(*key),
{
    let m = key.modifiers;
    let none = !m.shift && !m.control && !m.alt && !m.other;
    let shift_only = m.shift && !m.control && !m.alt && !m.other;
    let plain_or_shift = none || shift_only;
    if plain_or_shift && (key.code == KeyCode::Char('y') || key.code == KeyCode::Char('Y')) {
        DeleteConfirmationAction::Confirm
    } else if (plain_or_shift && (key.code == KeyCode::Char('n') || key.code == KeyCode::Char('N'))) || (
    none && key.code == KeyCode::Esc) {
        DeleteConfirmationAction::Cancel
    } else {
        DeleteConfirmationAction::Ignore
    }
}

/// Remembers the last left click to tell double clicks.
#[derive(Debug)]
pub struct ClickTracker {
    last_left_click: Option<(u64, u16, u16)>,
}

impl ClickTracker {
    pub closed spec fn last_click(&self) -> Option<(u64, u16, u16)> {
        self.last_left_click
    }

    /// No click seen yet.
    pub fn new() -> (t: Self)
        ensures
            t.last_click() is None,
    {
        ClickTracker { last_left_click: None }
    }

    /// Whether a click at `now_ms` completes a double click: a left click at
    /// the cell of the previous one, less than `DOUBLE_CLICK_MS` later. A
    /// double click is forgotten, so a third click starts over.
    pub fn is_double_click(&mut self, event: MouseEvent, now_ms: u64) -> (r: bool)
        ensures
            event.kind != MouseEventKind::LeftDown ==> !r && final(self).last_click() == old(self).last_click(),
            event.kind == MouseEventKind::LeftDown ==> {
                &&& r == (old(self).last_click() matches Some((t, x, y)) && x == event.column && y
                    == event.row && (if now_ms >= t { now_ms - t } else { 0 }) < DOUBLE_CLICK_MS)
                &&& final(self).last_click() == if r {
                    None
                } else {
                    Some((now_ms, event.column, event.row))
                }
            },
    {
        if event.kind != MouseEventKind::LeftDown {
            return false;
        }
        let doubled = match self.last_left_click {
            Some((t, x, y)) => x == event.column && y == event.row && now_ms.saturating_sub(t) < DOUBLE_CLICK_MS,
            None => false,
        };
        self.last_left_click = if doubled {
            None
        } else {
            Some((now_ms, event.column, event.row))
        };
        doubled
    }
}

} // verus!
