//! The leaderboard page: choosing a board, moving through its songs, and
//! the states of loading it.

use vstd::prelude::*;
use crate::pages::geometry::{Position, Rect};
use crate::pages::input::{KeyCode, KeyEvent, MouseEvent, MouseEventKind};
use crate::song::SongInfo;
use crate::pages::song_table::{push_spaces, row, spaces};
use crate::text::{push_str, string_of};

verus! {

broadcast use vstd::string::group_string_axioms;

/// A chart of one source.
#[derive(Debug, Clone)]
pub struct BoardInfo {
    pub name: String,
    pub id: String,
    /// The source's short name.
    pub source: String,
}

/// What the page asks the main loop to do.
#[derive(Debug, Clone, Copy, PartialEq, Eq, Structural)]
pub enum LeaderboardAction {
    Nothing,
    /// Play the board's songs from this one.
    PlaySong(usize),
}

/// The leaderboard page.
#[derive(Debug)]
pub struct LeaderboardPage {
    pub boards: Vec<BoardInfo>,
    pub songs: Vec<SongInfo>,
    pub selected: usize,
    pub selected_board: Option<usize>,
    pub loaded: bool,
    pub loading: bool,
    pub scroll_offset: usize,
    pub error_message: Option<String>,
}

fn board(name: &str, id: &str) -> (b: BoardInfo)
    ensures
        b.name@ == name@ && b.id@ == id@ && b.source@ == "kg"@,
{
    BoardInfo { name: string_of(name), id: string_of(id), source: string_of("kg") }
}

/// The boards offered: six charts of the KuGou source.
pub open spec fn default_boards(b: Seq<BoardInfo>) -> bool {
    &&& b.len() == 6
    &&& b[0].name@ == "TOP500"@ && b[0].id@ == "8888"@
    &&& b[1].name@ == "飙升榜"@ && b[1].id@ == "6666"@
    &&& b[2].name@ == "抖音热歌榜"@ && b[2].id@ == "52144"@
    &&& b[3].name@ == "电音榜"@ && b[3].id@ == "33160"@
    &&& b[4].name@ == "粤语金曲榜"@ && b[4].id@ == "33165"@
    &&& b[5].name@ == "欧美金曲榜"@ && b[5].id@ == "33166"@
    &&& forall|i: int| 0 <= i < 6 ==> #[trigger] b[i].source@ == "kg"@
}

/// The selection after moving up in a list of `len`.
pub open spec fn step_up(selected: int, len: int, wrap: bool) -> int {
    if selected > 0 {
        selected - 1
    } else if wrap {
        if len >= 1 { len - 1 } else { 0 }
    } else {
        selected
    }
}

/// The selection after moving down in a list of `len`.
pub open spec fn step_down(selected: int, len: int, wrap: bool) -> int {
    if selected + 1 < len {
        selected + 1
    } else if wrap {
        0
    } else {
        selected
    }
}

/// `n - 1`, at least 0.
pub open spec fn last_index(n: int) -> int {
    if n >= 1 { n - 1 } else { 0 }
}

impl LeaderboardPage {
    /// The page with its boards listed, none opened.
    pub fn new() -> (p: Self)
        ensures
            default_boards(p.boards@),
            p.songs@.len() == 0,
            p.selected == 0,
            p.selected_board is None,
            !p.loaded && !p.loading,
            p.scroll_offset == 0,
            p.error_message is None,
    {
        let boards = vec![
            board("TOP500", "8888"),
            board("飙升榜", "6666"),
            board("抖音热歌榜", "52144"),
            board("电音榜", "33160"),
            board("粤语金曲榜", "33165"),
            board("欧美金曲榜", "33166"),
        ];
        LeaderboardPage {
            boards,
            songs: Vec::new(),
            selected: 0,
            selected_board: None,
            loaded: false,
            loading: false,
            scroll_offset: 0,
            error_message: None,
        }
    }

    /// Whether the song list of an opened board is what moves.
    pub open spec fn in_songs(self) -> bool {
        self.selected_board is Some && self.songs@.len() > 0
    }

    /// The length of the list the keys move through.
    pub open spec fn list_len(self) -> int {
        if self.selected_board is Some {
            self.songs@.len() as int
        } else {
            self.boards@.len() as int
        }
    }

    /// Opens board `index`: its songs are to be loaded.
    fn open_board(&mut self, index: usize)
        ensures
            final(self).selected_board == Some(index),
            final(self).songs@.len() == 0,
            final(self).selected == 0,
            !final(self).loaded && !final(self).loading,
            final(self).error_message is None,
            final(self).boards == old(self).boards,
            final(self).scroll_offset == old(self).scroll_offset,
    {
        self.selected_board = Some(index);
        self.songs = Vec::new();
        self.selected = 0;
        self.loaded = false;
        self.loading = false;
        self.error_message = None;
    }

    /// Goes back to the board list.
    fn close_board(&mut self)
        ensures
            final(self).selected_board is None,
            final(self).songs@.len() == 0,
            final(self).selected == 0,
            !final(self).loaded && !final(self).loading,
            final(self).error_message is None,
            final(self).boards == old(self).boards,
            final(self).scroll_offset == old(self).scroll_offset,
    {
        self.selected_board = None;
        self.songs = Vec::new();
        self.selected = 0;
        self.loaded = false;
        self.loading = false;
        self.error_message = None;
    }

    /// Handles a key. Up and down move through the opened board's songs,
    /// or through the boards, wrapping when `wrap` is set; Enter plays the
    /// selected song or opens the selected board; Right opens, Left and
    /// Escape close a board.
    pub fn handle_input(&mut self, key: &KeyEvent, wrap: bool) -> (r: LeaderboardAction)
        ensures
            final(self).boards == old(self).boards,
            final(self).scroll_offset == old(self).scroll_offset,
            (key.plain(KeyCode::Up) || key.plain(KeyCode::Char('k'))) ==> r == LeaderboardAction::Nothing
                && final(self).selected == if old(self).in_songs() {
                    step_up(old(self).selected as int, old(self).songs@.len() as int, wrap)
                } else if old(self).boards@.len() > 0 {
                    step_up(old(self).selected as int, old(self).boards@.len() as int, wrap)
                } else {
                    old(self).selected as int
                } && final(self).selected_board == old(self).selected_board,
            (key.plain(KeyCode::Down) || key.plain(KeyCode::Char('j'))) ==> r == LeaderboardAction::Nothing
                && final(self).selected == if old(self).in_songs() {
                    step_down(old(self).selected as int, old(self).songs@.len() as int, wrap)
                } else if old(self).boards@.len() > 0 {
                    step_down(old(self).selected as int, old(self).boards@.len() as int, wrap)
                } else {
                    old(self).selected as int
                } && final(self).selected_board == old(self).selected_board,
            (key.plain(KeyCode::Home) || key.plain(KeyCode::Char('g'))) ==> final(self).selected == 0
                && r == LeaderboardAction::Nothing,
            (key.plain(KeyCode::End) || key.plain(KeyCode::Char('G')) || key.shifted(KeyCode::Char('G')))
                ==> final(self).selected == last_index(old(self).list_len()) && r == LeaderboardAction::Nothing,
            (key.ctrl(KeyCode::Char('u')) || key.plain(KeyCode::PageUp)) ==> final(self).selected
                == (if old(self).selected >= 10 { old(self).selected - 10 } else { 0 }) && r == LeaderboardAction::Nothing,
            (key.ctrl(KeyCode::Char('d')) || key.plain(KeyCode::PageDown)) ==> final(self).selected == (if old(
                self,
            ).selected + 10 <= last_index(old(self).list_len()) {
                old(self).selected + 10
            } else {
                last_index(old(self).list_len())
            }) && r == LeaderboardAction::Nothing,
            (key.plain(KeyCode::Enter) || key.plain(KeyCode::Char('\r'))) ==> if old(self).in_songs() {
                r == LeaderboardAction::PlaySong(old(self).selected) && final(self).selected == old(self).selected
                    && final(self).selected_board == old(self).selected_board
            } else if old(self).selected < old(self).boards@.len() {
                r == LeaderboardAction::Nothing && final(self).selected_board == Some(old(self).selected)
                    && final(self).songs@.len() == 0 && final(self).selected == 0 && !final(self).loaded
                    && !final(self).loading && final(self).error_message is None
            } else {
                r == LeaderboardAction::Nothing && final(self).selected == old(self).selected
                    && final(self).selected_board == old(self).selected_board
            },
            (key.plain(KeyCode::Right) && old(self).selected_board is None) ==> r == LeaderboardAction::Nothing
                && if old(self).selected < old(self).boards@.len() {
                final(self).selected_board == Some(old(self).selected) && final(self).songs@.len() == 0
                    && final(self).selected == 0
            } else {
                final(self).selected_board is None && final(self).selected == old(self).selected
            },
            ((key.plain(KeyCode::Left) || key.plain(KeyCode::Esc)) && old(self).selected_board is Some)
                ==> r == LeaderboardAction::Nothing && final(self).selected_board is None
                && final(self).songs@.len() == 0 && final(self).selected == 0,
    {
        let none = !key.modifiers.shift && !key.modifiers.control && !key.modifiers.alt && !key.modifiers.other;
        let ctrl = !key.modifiers.shift && key.modifiers.control && !key.modifiers.alt && !key.modifiers.other;
        let shift = key.modifiers.shift && !key.modifiers.control && !key.modifiers.alt && !key.modifiers.other;
        let code = key.code;
        let in_songs = self.selected_board.is_some() && self.songs.len() > 0;
        let list_len = if self.selected_board.is_some() { self.songs.len() } else { self.boards.len() };
        if none && (code == KeyCode::Up || code == KeyCode::Char('k')) {
            let len = if in_songs { self.songs.len() } else { self.boards.len() };
            if in_songs || self.boards.len() > 0 {
                if self.selected > 0 {
                    self.selected = self.selected - 1;
                } else if wrap {
                    self.selected = len.saturating_sub(1);
                }
            }
        } else if none && (code == KeyCode::Down || code == KeyCode::Char('j')) {
            let len = if in_songs { self.songs.len() } else { self.boards.len() };
            if in_songs || self.boards.len() > 0 {
                if self.selected < len - 1 {
                    self.selected = self.selected + 1;
                } else if wrap {
                    self.selected = 0;
                }
            }
        } else if none && (code == KeyCode::Home || code == KeyCode::Char('g')) {
            self.selected = 0;
        } else if (none && (code == KeyCode::End || code == KeyCode::Char('G'))) || (shift && code == KeyCode::Char('G')) {
            self.selected = list_len.saturating_sub(1);
        } else if (ctrl && code == KeyCode::Char('u')) || (none && code == KeyCode::PageUp) {
            self.selected = self.selected.saturating_sub(10);
        } else if (ctrl && code == KeyCode::Char('d')) || (none && code == KeyCode::PageDown) {
            let last = list_len.saturating_sub(1);
            self.selected = if self.selected <= last && last - self.selected >= 10 { self.selected + 10 } else { last };
        } else if none && (code == KeyCode::Enter || code == KeyCode::Char('\r')) {
            if in_songs {
                return LeaderboardAction::PlaySong(self.selected);
            } else if self.selected < self.boards.len() {
                let index = self.selected;
                self.open_board(index);
                return LeaderboardAction::Nothing;
            }
        } else if none && code == KeyCode::Right && self.selected_board.is_none() {
            if self.selected < self.boards.len() {
                let index = self.selected;
                self.open_board(index);
            }
        } else if none && (code == KeyCode::Left || code == KeyCode::Esc) && self.selected_board.is_some() {
            self.close_board();
        }
        LeaderboardAction::Nothing
    }

    /// The songs of the opened board arrived.
    pub fn update_songs(&mut self, songs: Vec<SongInfo>)
        ensures
            final(self).songs == songs,
            final(self).loaded && !final(self).loading,
            final(self).error_message is None,
            final(self).selected == 0 && final(self).scroll_offset == 0,
            final(self).boards == old(self).boards,
            final(self).selected_board == old(self).selected_board,
    {
        self.songs = songs;
        self.loaded = true;
        self.loading = false;
        self.error_message = None;
        self.selected = 0;
        self.scroll_offset = 0;
    }

    /// Loading the opened board started.
    pub fn begin_loading(&mut self)
        ensures
            final(self).loading && !final(self).loaded,
            final(self).error_message is None,
            final(self).songs == old(self).songs,
            final(self).selected == old(self).selected,
            final(self).selected_board == old(self).selected_board,
    {
        self.loading = true;
        self.loaded = false;
        self.error_message = None;
    }

    /// Loading failed with `message`.
    pub fn update_error(&mut self, message: String)
        ensures
            final(self).songs@.len() == 0,
            !final(self).loading && !final(self).loaded,
            final(self).error_message == Some(message),
            final(self).selected == 0 && final(self).scroll_offset == 0,
            final(self).selected_board == old(self).selected_board,
    {
        self.songs = Vec::new();
        self.loading = false;
        self.loaded = false;
        self.error_message = Some(message);
        self.selected = 0;
        self.scroll_offset = 0;
    }

    /// Handles the mouse over the board list (`board_area`) and the song
    /// list (`song_area`): the wheel moves by `scroll_amount` (at least
    /// one), a left click selects, and opens or plays when `activate` is set.
    pub fn handle_mouse(
        &mut self,
        event: MouseEvent,
        board_area: Rect,
        song_area: Rect,
        activate: bool,
        scroll_amount: usize,
    ) -> (r: LeaderboardAction)
        ensures
            final(self).boards == old(self).boards,
            final(self).scroll_offset == old(self).scroll_offset,
            ({
                let step = if scroll_amount >= 1 { scroll_amount as int } else { 1 };
                let p = Position { x: event.column, y: event.row };
                let board_inner = board_area.spec_inner();
                let song_inner = song_area.spec_inner();
                let list_y = crate::pages::geometry::sat_add16(song_inner.y, 1);
                match event.kind {
                    MouseEventKind::ScrollUp => r == LeaderboardAction::Nothing
                        && final(self).selected == (if old(self).selected >= step { old(self).selected - step } else { 0 }),
                    MouseEventKind::ScrollDown => r == LeaderboardAction::Nothing && final(self).selected == (if old(
                        self,
                    ).selected + step <= last_index(old(self).list_len()) {
                        old(self).selected + step
                    } else {
                        last_index(old(self).list_len())
                    }),
                    MouseEventKind::LeftDown => if board_inner.spec_contains(p) {
                        let index = event.row - board_inner.y;
                        r == LeaderboardAction::Nothing && if index < old(self).boards@.len() {
                            if activate {
                                final(self).selected_board == Some(index as usize) && final(self).selected == 0
                                    && final(self).songs@.len() == 0
                            } else if old(self).selected_board is None {
                                final(self).selected == index && final(self).selected_board is None
                            } else {
                                final(self).selected == old(self).selected
                            }
                        } else {
                            final(self).selected == old(self).selected
                        }
                    } else if old(self).selected_board is Some && list_y <= event.row < song_inner.spec_bottom()
                        && old(self).scroll_offset + (event.row - list_y) < old(self).songs@.len() {
                        let index = old(self).scroll_offset + (event.row - list_y);
                        final(self).selected == index && r == if activate {
                            LeaderboardAction::PlaySong(index as usize)
                        } else {
                            LeaderboardAction::Nothing
                        }
                    } else {
                        r == LeaderboardAction::Nothing && final(self).selected == old(self).selected
                    },
                    _ => r == LeaderboardAction::Nothing && final(self).selected == old(self).selected,
                }
            }),
    {
        let step = if scroll_amount >= 1 { scroll_amount } else { 1 };
        let list_len = if self.selected_board.is_some() { self.songs.len() } else { self.boards.len() };
        match event.kind {
            MouseEventKind::ScrollUp => {
                self.selected = self.selected.saturating_sub(step);
            },
            MouseEventKind::ScrollDown => {
                let last = list_len.saturating_sub(1);
                self.selected = if self.selected <= last && last - self.selected >= step { self.selected + step } else { last };
            },
            MouseEventKind::LeftDown => {
                let p = Position::new(event.column, event.row);
                let board_inner = board_area.inner();
                if board_inner.contains(p) {
                    let index = (event.row - board_inner.y) as usize;
                    if index < self.boards.len() {
                        if activate {
                            self.open_board(index);
                        } else if self.selected_board.is_none() {
                            self.selected = index;
                        }
                    }
                    return LeaderboardAction::Nothing;
                }
                if self.selected_board.is_some() {
                    let song_inner = song_area.inner();
                    let list_y = song_inner.y.saturating_add(1);
                    if event.row >= list_y && event.row < song_inner.bottom() {
                        let offset = (event.row - list_y) as usize;
                        if self.scroll_offset < self.songs.len() && offset < self.songs.len() - self.scroll_offset {
                            let index = self.scroll_offset + offset;
                            self.selected = index;
                            if activate {
                                return LeaderboardAction::PlaySong(index);
                            }
                        }
                    }
                }
            },
            _ => {},
        }
        LeaderboardAction::Nothing
    }
}


/// How a board row is drawn.
#[derive(Debug, Clone, Copy, PartialEq, Eq, Structural)]
pub enum BoardStyle {
    /// The selection, while no board is open.
    Selected,
    /// The open board.
    Open,
    Normal,
}

/// What the song panel shows.
#[derive(Debug, Clone, PartialEq, Eq)]
pub enum SongPanel {
    /// A line of text in place of the list.
    Message(String),
    /// The header and the song rows.
    Songs,
    /// Nothing yet.
    Blank,
}

/// `s` padded with spaces to `n` characters (`{:<n}`).
pub open spec fn pad_spec(s: Seq<char>, n: nat) -> Seq<char> {
    if s.len() >= n {
        s
    } else {
        s + spaces((n - s.len()) as nat)
    }
}

/// The first board row shown: the selection stays on the last visible row.
pub open spec fn board_scroll_spec(selected: int, visible: int) -> int {
    if selected >= visible {
        selected - (visible - 1)
    } else {
        0
    }
}

impl LeaderboardPage {
    /// The title of the song panel: the open board's name, if any.
    pub open spec fn song_title_spec(self) -> Seq<char> {
        match self.selected_board {
            Some(i) => if i < self.boards@.len() {
                self.boards@[i as int].name@ + " - 歌曲列表"@
            } else {
                "歌曲列表"@
            },
            None => "歌曲列表"@,
        }
    }

    /// The title of the song panel.
    pub fn song_title(&self) -> (s: String)
        ensures
            s@ == self.song_title_spec(),
    {
        match self.selected_board {
            Some(i) => if i < self.boards.len() {
                let mut s = self.boards[i].name.clone();
                push_str(&mut s, " - 歌曲列表");
                s
            } else {
                string_of("歌曲列表")
            },
            None => string_of("歌曲列表"),
        }
    }

    /// What the song panel shows: the failure, then loading, then a prompt
    /// to choose a board, then that the board is empty, else the songs.
    pub fn song_panel(&self) -> (r: SongPanel)
        ensures
            match self.error_message {
                Some(e) => r matches SongPanel::Message(m) && m@ == "加载失败: "@ + e@,
                None => if self.loading {
                    r matches SongPanel::Message(m) && m@ == "加载中..."@
                } else if self.selected_board is None {
                    r matches SongPanel::Message(m) && m@ == "选择一个榜单"@
                } else if self.songs@.len() == 0 && self.loaded {
                    r matches SongPanel::Message(m) && m@ == "该榜单暂无歌曲"@
                } else if self.songs@.len() > 0 {
                    r == SongPanel::Songs
                } else {
                    r == SongPanel::Blank
                },
            },
    {
        if let Some(e) = &self.error_message {
            let mut m = string_of("加载失败: ");
            push_str(&mut m, e.as_str());
            SongPanel::Message(m)
        } else if self.loading {
            SongPanel::Message(string_of("加载中..."))
        } else if self.selected_board.is_none() {
            SongPanel::Message(string_of("选择一个榜单"))
        } else if self.songs.len() == 0 && self.loaded {
            SongPanel::Message(string_of("该榜单暂无歌曲"))
        } else if self.songs.len() > 0 {
            SongPanel::Songs
        } else {
            SongPanel::Blank
        }
    }

    /// The board rows that fit `visible` rows: each board's index, its
    /// source padded to four characters and its name, and its style.
    pub fn board_rows(&self, visible: usize) -> (r: Vec<(usize, String, BoardStyle)>)
        requires
            self.selected >= visible ==> visible > 0,
        ensures
            ({
                let start = board_scroll_spec(self.selected as int, visible as int);
                let end = if start + visible <= self.boards@.len() { start + visible } else { self.boards@.len() as int };
                &&& r@.len() == if end >= start { end - start } else { 0 }
                &&& forall|k: int| 0 <= k < r@.len() ==> {
                    let i = start + k;
                    let b = #[trigger] r@[k];
                    &&& b.0 == i
                    &&& b.1@ == "  "@ + pad_spec(self.boards@[i].source@, 4) + " "@ + self.boards@[i].name@
                    &&& b.2 == if i == self.selected && self.selected_board is None {
                        BoardStyle::Selected
                    } else if self.selected_board == Some(i as usize) {
                        BoardStyle::Open
                    } else {
                        BoardStyle::Normal
                    }
                }
            }),
    {
        let start = if self.selected >= visible { self.selected - (visible - 1) } else { 0 };
        let total = self.boards.len();
        let end = if start <= total && total - start >= visible { start + visible } else { total };
        let mut out: Vec<(usize, String, BoardStyle)> = Vec::new();
        let mut i = start;
        while i < end
            invariant
                start <= i,
                i <= end || end < start,
                end < start ==> i == start,
                end <= total,
                total == self.boards@.len(),
                start == board_scroll_spec(self.selected as int, visible as int),
                end == (if start + visible <= total { start + visible } else { total as int }),
                out@.len() == i - start,
                forall|k: int| 0 <= k < out@.len() ==> {
                    let j = start + k;
                    let b = #[trigger] out@[k];
                    &&& b.0 == j
                    &&& b.1@ == "  "@ + pad_spec(self.boards@[j].source@, 4) + " "@ + self.boards@[j].name@
                    &&& b.2 == if j == self.selected && self.selected_board is None {
                        BoardStyle::Selected
                    } else if self.selected_board == Some(j as usize) {
                        BoardStyle::Open
                    } else {
                        BoardStyle::Normal
                    }
                },
            decreases end - i,
        {
            let board = &self.boards[i];
            let mut text = string_of("  ");
            push_str(&mut text, board.source.as_str());
            let n = board.source.as_str().unicode_len();
            if n < 4 {
                push_spaces(&mut text, 4 - n);
            }
            push_str(&mut text, " ");
            push_str(&mut text, board.name.as_str());
            proof {
                assert(text@ =~= "  "@ + pad_spec(self.boards@[i as int].source@, 4) + " "@ + self.boards@[i as int].name@);
            }
            let style = if i == self.selected && self.selected_board.is_none() {
                BoardStyle::Selected
            } else if self.selected_board == Some(i) {
                BoardStyle::Open
            } else {
                BoardStyle::Normal
            };
            out.push((i, text, style));
            i = i + 1;
        }
        proof {
            if end < start {
                assert(out@.len() == 0);
            }
        }
        out
    }

    /// Keeps the selected song within the `visible` rows of the list, and
    /// the list no further down than its last page; nothing when no row
    /// shows.
    pub fn fit_song_scroll(&mut self, visible: usize)
        ensures
            final(self).boards == old(self).boards,
            final(self).songs == old(self).songs,
            final(self).selected == old(self).selected,
            final(self).selected_board == old(self).selected_board,
            final(self).loaded == old(self).loaded && final(self).loading == old(self).loading,
            final(self).error_message == old(self).error_message,
            visible == 0 ==> final(self).scroll_offset == old(self).scroll_offset,
            visible > 0 ==> final(self).scroll_offset == ({
                let s = old(self).scroll_offset as int;
                let sel = old(self).selected as int;
                let v = visible as int;
                let s1 = if sel >= s + v { sel - (v - 1) } else if sel < s { sel } else { s };
                let limit = if old(self).songs@.len() >= v { old(self).songs@.len() - v } else { 0 };
                if s1 <= limit { s1 } else { limit }
            }),
    {
        if visible == 0 {
            return;
        }
        let s = self.scroll_offset;
        let sel = self.selected;
        let s1 = if sel >= s && sel - s >= visible {
            sel - (visible - 1)
        } else if sel < s {
            sel
        } else {
            s
        };
        let limit = self.songs.len().saturating_sub(visible);
        self.scroll_offset = if s1 <= limit { s1 } else { limit };
    }

    /// The song rows that fit `visible` rows from the scroll position:
    /// each song's index and its table row for `width` columns.
    pub fn song_rows(&self, visible: usize, width: u16) -> (r: Vec<(usize, String)>)
        ensures
            ({
                let start = self.scroll_offset as int;
                let end = if start + visible <= self.songs@.len() { start + visible } else { self.songs@.len() as int };
                &&& r@.len() == if end >= start { end - start } else { 0 }
                &&& forall|k: int| 0 <= k < r@.len() ==> (#[trigger] r@[k]).0 == start + k
                    && r@[k].1@ == crate::pages::song_table::format_columns_spec(
                        width as nat,
                        crate::text::decimal_seq((start + k + 1) as nat),
                        self.songs@[start + k].name@,
                        self.songs@[start + k].singer@,
                        self.songs@[start + k].album_name@,
                        crate::pages::song_table::format_duration_spec(self.songs@[start + k].duration_secs as nat),
                        if self.songs@[start + k].qualities@.len() == 0 {
                            "-"@
                        } else {
                            self.songs@[start + k].qualities@.last().spec_label()
                        },
                        self.songs@[start + k].source@,
                    )
            }),
    {
        let start = self.scroll_offset;
        let total = self.songs.len();
        let end = if start <= total && total - start >= visible { start + visible } else { total };
        let mut out: Vec<(usize, String)> = Vec::new();
        let mut i = start;
        while i < end
            invariant
                start <= i,
                i <= end || end < start,
                end < start ==> i == start,
                end <= total,
                total == self.songs@.len(),
                start == self.scroll_offset,
                end == (if start + visible <= total { start + visible } else { total as int }),
                out@.len() == i - start,
                forall|k: int| 0 <= k < out@.len() ==> (#[trigger] out@[k]).0 == start + k
                    && out@[k].1@ == crate::pages::song_table::format_columns_spec(
                        width as nat,
                        crate::text::decimal_seq((start + k + 1) as nat),
                        self.songs@[start + k].name@,
                        self.songs@[start + k].singer@,
                        self.songs@[start + k].album_name@,
                        crate::pages::song_table::format_duration_spec(self.songs@[start + k].duration_secs as nat),
                        if self.songs@[start + k].qualities@.len() == 0 {
                            "-"@
                        } else {
                            self.songs@[start + k].qualities@.last().spec_label()
                        },
                        self.songs@[start + k].source@,
                    ),
            decreases end - i,
        {
            let text = row(&self.songs[i], i, width);
            out.push((i, text));
            i = i + 1;
        }
        proof {
            if end < start {
                assert(out@.len() == 0);
            }
        }
        out
    }
}

} // verus!
