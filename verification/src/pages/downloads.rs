//! The downloads overlay: selection and scrolling in the task list, the
//! commands its keys give, and the text of its rows.

use vstd::prelude::*;
use crate::download::manager::{display_name_spec, DownloadState, DownloadTaskView, DownloadTrigger, Quality};
use crate::download::records::DownloadRecord;
use crate::pages::geometry::{sat_sub16, Rect};
use crate::pages::input::{KeyCode, KeyEvent, KeyModifiers};
use crate::text::{chars_of, decimal_seq, digit_char, push_char, push_decimal, push_str, string_of};
use crate::width::{char_width, column_width, str_width, unicode_str_width};

verus! {

broadcast use vstd::string::group_string_axioms;

/// History records shown at the bottom of the overlay.
pub const HISTORY_LIMIT: usize = 5;

/// What a key did to the overlay.
#[derive(Debug, Clone, Copy, PartialEq, Eq, Structural)]
pub enum PanelOutcome {
    /// The key was used; redraw.
    Consumed,
    /// Close the overlay.
    Close,
    /// Not a key of the overlay; the main loop handles it.
    Ignore,
}

/// What the overlay asks the download queue to do.
#[derive(Debug, Clone, PartialEq, Eq)]
pub enum PanelCommand {
    Nothing,
    /// Cancel the task (`active`) or take it off the list.
    Cancel { id: u64, active: bool, name: String },
    ClearFinished,
    ClearRecords,
}

/// The answer to a key: the outcome and the command to carry out.
#[derive(Debug, Clone, PartialEq, Eq)]
pub struct PanelReply {
    pub outcome: PanelOutcome,
    pub command: PanelCommand,
}

/// The keys of the overlay, by what they do.
#[derive(Debug, Clone, Copy, PartialEq, Eq, Structural)]
pub enum PanelKey {
    Close,
    Next,
    Previous,
    First,
    Last,
    PageDown,
    PageUp,
    Remove,
    ClearFinished,
    ClearRecords,
    Other,
}

/// What a key does in the overlay.
pub open spec fn panel_key_spec(k: KeyEvent) -> PanelKey {
    if k.plain(KeyCode::Esc) || k.ctrl(KeyCode::Char('o')) || k.plain(KeyCode::Char('q')) {
        PanelKey::Close
    } else if k.plain(KeyCode::Char('j')) || k.plain(KeyCode::Char('J')) || k.plain(KeyCode::Down) {
        PanelKey::Next
    } else if k.plain(KeyCode::Char('k')) || k.plain(KeyCode::Char('K')) || k.plain(KeyCode::Up) {
        PanelKey::Previous
    } else if k.plain(KeyCode::Char('g')) || k.plain(KeyCode::Home) {
        PanelKey::First
    } else if k.plain(KeyCode::Char('G')) || k.shifted(KeyCode::Char('G')) || k.plain(KeyCode::End) {
        PanelKey::Last
    } else if k.ctrl(KeyCode::Char('d')) || k.plain(KeyCode::PageDown) {
        PanelKey::PageDown
    } else if k.ctrl(KeyCode::Char('u')) || k.plain(KeyCode::PageUp) {
        PanelKey::PageUp
    } else if k.plain(KeyCode::Char('c')) || k.plain(KeyCode::Char('d')) || k.plain(KeyCode::Delete) {
        PanelKey::Remove
    } else if k.plain(KeyCode::Char('x')) {
        PanelKey::ClearFinished
    } else if k.shifted(KeyCode::Char('C')) || k.shifted(KeyCode::Char('c')) || k.plain(KeyCode::Char('C')) {
        PanelKey::ClearRecords
    } else {
        PanelKey::Other
    }
}

/// The arrow keys move like the vi keys: with no modifier, Down is the
/// same key as `j` and selects the next task, Up the same as `k` and
/// selects the previous one.
pub proof fn lemma_arrows_like_vi_keys(m: KeyModifiers)
    requires
        m.is_none(),
    ensures
        panel_key_spec(KeyEvent { code: KeyCode::Down, modifiers: m }) == panel_key_spec(
            KeyEvent { code: KeyCode::Char('j'), modifiers: m },
        ),
        panel_key_spec(KeyEvent { code: KeyCode::Down, modifiers: m }) == PanelKey::Next,
        panel_key_spec(KeyEvent { code: KeyCode::Up, modifiers: m }) == panel_key_spec(
            KeyEvent { code: KeyCode::Char('k'), modifiers: m },
        ),
        panel_key_spec(KeyEvent { code: KeyCode::Up, modifiers: m }) == PanelKey::Previous,
{
}

fn is_plain(k: &KeyEvent, code: KeyCode) -> (r: bool)
    ensures
        r == k.plain(code),
{
    !k.modifiers.shift && !k.modifiers.control && !k.modifiers.alt && !k.modifiers.other && k.code == code
}

fn is_ctrl(k: &KeyEvent, code: KeyCode) -> (r: bool)
    ensures
        r == k.ctrl(code),
{
    !k.modifiers.shift && k.modifiers.control && !k.modifiers.alt && !k.modifiers.other && k.code == code
}

fn is_shifted(k: &KeyEvent, code: KeyCode) -> (r: bool)
    ensures
        r == k.shifted(code),
{
    k.modifiers.shift && !k.modifiers.control && !k.modifiers.alt && !k.modifiers.other && k.code == code
}

/// What a key does in the overlay.
pub fn panel_key(k: &KeyEvent) -> (r: PanelKey)
    ensures
        r == panel_key_spec(*k),
{
    if is_plain(k, KeyCode::Esc) || is_ctrl(k, KeyCode::Char('o')) || is_plain(k, KeyCode::Char('q')) {
        PanelKey::Close
    } else if is_plain(k, KeyCode::Char('j')) || is_plain(k, KeyCode::Char('J')) || is_plain(k, KeyCode::Down) {
        PanelKey::Next
    } else if is_plain(k, KeyCode::Char('k')) || is_plain(k, KeyCode::Char('K')) || is_plain(k, KeyCode::Up) {
        PanelKey::Previous
    } else if is_plain(k, KeyCode::Char('g')) || is_plain(k, KeyCode::Home) {
        PanelKey::First
    } else if is_plain(k, KeyCode::Char('G')) || is_shifted(k, KeyCode::Char('G')) || is_plain(k, KeyCode::End) {
        PanelKey::Last
    } else if is_ctrl(k, KeyCode::Char('d')) || is_plain(k, KeyCode::PageDown) {
        PanelKey::PageDown
    } else if is_ctrl(k, KeyCode::Char('u')) || is_plain(k, KeyCode::PageUp) {
        PanelKey::PageUp
    } else if is_plain(k, KeyCode::Char('c')) || is_plain(k, KeyCode::Char('d')) || is_plain(k, KeyCode::Delete) {
        PanelKey::Remove
    } else if is_plain(k, KeyCode::Char('x')) {
        PanelKey::ClearFinished
    } else if is_shifted(k, KeyCode::Char('C')) || is_shifted(k, KeyCode::Char('c')) || is_plain(k, KeyCode::Char('C')) {
        PanelKey::ClearRecords
    } else {
        PanelKey::Other
    }
}

/// `n - m`, or 0 when `m` is larger.
pub open spec fn sat_sub(n: int, m: int) -> int {
    if n >= m {
        n - m
    } else {
        0
    }
}

/// The smaller of two numbers.
pub open spec fn min_int(a: int, b: int) -> int {
    if a <= b {
        a
    } else {
        b
    }
}

/// The downloads overlay: whether it is open, the selected task and the
/// first task shown.
#[derive(Debug)]
pub struct DownloadsPanel {
    open: bool,
    selected: usize,
    scroll: usize,
}

impl Default for DownloadsPanel {
    fn default() -> (p: Self)
        ensures
            !p.is_open_spec() && p.selected_spec() == 0 && p.scroll_spec() == 0,
    {
        Self::new()
    }
}

impl DownloadsPanel {
    pub closed spec fn is_open_spec(&self) -> bool {
        self.open
    }

    pub closed spec fn selected_spec(&self) -> usize {
        self.selected
    }

    pub closed spec fn scroll_spec(&self) -> usize {
        self.scroll
    }

    /// A closed overlay with the first task selected.
    pub fn new() -> (p: Self)
        ensures
            !p.is_open_spec() && p.selected_spec() == 0 && p.scroll_spec() == 0,
    {
        DownloadsPanel { open: false, selected: 0, scroll: 0 }
    }

    pub fn is_open(&self) -> (r: bool)
        ensures
            r == self.is_open_spec(),
    {
        self.open
    }

    /// The selected task's position.
    pub fn selected(&self) -> (r: usize)
        ensures
            r == self.selected_spec(),
    {
        self.selected
    }

    /// The position of the first task shown.
    pub fn scroll(&self) -> (r: usize)
        ensures
            r == self.scroll_spec(),
    {
        self.scroll
    }

    /// Opens or closes the overlay; opening selects the newest of
    /// `task_count` tasks and scrolls to the top.
    pub fn toggle(&mut self, task_count: usize)
        ensures
            final(self).is_open_spec() == !old(self).is_open_spec(),
            final(self).is_open_spec() ==> final(self).selected_spec() == sat_sub(task_count as int, 1)
                && final(self).scroll_spec() == 0,
            !final(self).is_open_spec() ==> final(self).selected_spec() == old(self).selected_spec()
                && final(self).scroll_spec() == old(self).scroll_spec(),
    {
        self.open = !self.open;
        if self.open {
            self.selected = task_count.saturating_sub(1);
            self.scroll = 0;
        }
    }

    pub fn close(&mut self)
        ensures
            !final(self).is_open_spec(),
            final(self).selected_spec() == old(self).selected_spec(),
            final(self).scroll_spec() == old(self).scroll_spec(),
    {
        self.open = false;
    }

    /// Handles a key against the current tasks: moves the selection, or
    /// names the command to carry out.
    pub fn handle_key(&mut self, key: &KeyEvent, tasks: &Vec<DownloadTaskView>) -> (r: PanelReply)
        ensures
            final(self).is_open_spec() == old(self).is_open_spec(),
            final(self).scroll_spec() == old(self).scroll_spec(),
            ({
                let len = tasks@.len() as int;
                let sel = old(self).selected_spec() as int;
                let new_sel = final(self).selected_spec() as int;
                match panel_key_spec(*key) {
                    PanelKey::Close => r == (PanelReply { outcome: PanelOutcome::Close, command: PanelCommand::Nothing })
                        && new_sel == sel,
                    PanelKey::Other => r == (PanelReply { outcome: PanelOutcome::Ignore, command: PanelCommand::Nothing })
                        && new_sel == sel,
                    PanelKey::Next => r.outcome == PanelOutcome::Consumed && r.command == PanelCommand::Nothing
                        && new_sel == if len > 0 { min_int(sel + 1, len - 1) } else { sel },
                    PanelKey::Previous => r.outcome == PanelOutcome::Consumed && r.command == PanelCommand::Nothing
                        && new_sel == sat_sub(sel, 1),
                    PanelKey::First => r.outcome == PanelOutcome::Consumed && r.command == PanelCommand::Nothing
                        && new_sel == 0,
                    PanelKey::Last => r.outcome == PanelOutcome::Consumed && r.command == PanelCommand::Nothing
                        && new_sel == sat_sub(len, 1),
                    PanelKey::PageDown => r.outcome == PanelOutcome::Consumed && r.command == PanelCommand::Nothing
                        && new_sel == min_int(sel + 5, sat_sub(len, 1)),
                    PanelKey::PageUp => r.outcome == PanelOutcome::Consumed && r.command == PanelCommand::Nothing
                        && new_sel == sat_sub(sel, 5),
                    PanelKey::Remove => r.outcome == PanelOutcome::Consumed && if sel < len {
                        &&& r.command == (PanelCommand::Cancel {
                            id: tasks@[sel].id,
                            active: tasks@[sel].state.spec_is_active(),
                            name: tasks@[sel].name,
                        })
                        &&& new_sel == min_int(sel, sat_sub(len, 2))
                    } else {
                        r.command == PanelCommand::Nothing && new_sel == sel
                    },
                    PanelKey::ClearFinished => r.outcome == PanelOutcome::Consumed
                        && r.command == PanelCommand::ClearFinished && new_sel == 0,
                    PanelKey::ClearRecords => r.outcome == PanelOutcome::Consumed
                        && r.command == PanelCommand::ClearRecords && new_sel == sel,
                }
            }),
    {
        let len = tasks.len();
        let mut command = PanelCommand::Nothing;
        match panel_key(key) {
            PanelKey::Close => {
                return PanelReply { outcome: PanelOutcome::Close, command: PanelCommand::Nothing };
            },
            PanelKey::Other => {
                return PanelReply { outcome: PanelOutcome::Ignore, command: PanelCommand::Nothing };
            },
            PanelKey::Next => {
                if len > 0 {
                    let next = self.selected.saturating_add(1);
                    self.selected = if next < len - 1 { next } else { len - 1 };
                }
            },
            PanelKey::Previous => {
                self.selected = self.selected.saturating_sub(1);
            },
            PanelKey::First => {
                self.selected = 0;
            },
            PanelKey::Last => {
                self.selected = len.saturating_sub(1);
            },
            PanelKey::PageDown => {
                let next = self.selected.saturating_add(5);
                let last = len.saturating_sub(1);
                self.selected = if next < last { next } else { last };
            },
            PanelKey::PageUp => {
                self.selected = self.selected.saturating_sub(5);
            },
            PanelKey::Remove => {
                if self.selected < len {
                    let task = &tasks[self.selected];
                    command = PanelCommand::Cancel {
                        id: task.id,
                        active: task.state.is_active(),
                        name: task.name.clone(),
                    };
                    let bound = len.saturating_sub(2);
                    self.selected = if self.selected < bound { self.selected } else { bound };
                }
            },
            PanelKey::ClearFinished => {
                self.selected = 0;
                command = PanelCommand::ClearFinished;
            },
            PanelKey::ClearRecords => {
                command = PanelCommand::ClearRecords;
            },
        }
        PanelReply { outcome: PanelOutcome::Consumed, command }
    }

    /// The history was cleared: select the first task again.
    pub fn records_cleared(&mut self)
        ensures
            final(self).selected_spec() == 0,
            final(self).is_open_spec() == old(self).is_open_spec(),
            final(self).scroll_spec() == old(self).scroll_spec(),
    {
        self.selected = 0;
    }

    /// Keeps the selection inside `len` tasks and in view of `rows` rows.
    pub fn clamp_scroll(&mut self, len: usize, rows: usize)
        ensures
            final(self).is_open_spec() == old(self).is_open_spec(),
            final(self).selected_spec() == min_int(old(self).selected_spec() as int, sat_sub(len as int, 1)),
            ({
                let sel = final(self).selected_spec() as int;
                let scroll = old(self).scroll_spec() as int;
                final(self).scroll_spec() == if sel < scroll {
                    sel
                } else if rows > 0 && sel >= scroll + rows {
                    sel + 1 - rows
                } else {
                    scroll
                }
            }),
    {
        let last = len.saturating_sub(1);
        if self.selected > last {
            self.selected = last;
        }
        if self.selected < self.scroll {
            self.scroll = self.selected;
        } else if rows > 0 && self.selected - self.scroll >= rows {
            self.scroll = self.selected + 1 - rows;
        }
    }
}

/// The message for a cancelled or removed task.
pub fn cancel_notice(active: bool, name: &str) -> (m: String)
    ensures
        m@ == (if active { "已取消下载: "@ } else { "已移除下载记录: "@ }) + name@,
{
    let mut m = if active {
        string_of("已取消下载: ")
    } else {
        string_of("已移除下载记录: ")
    };
    push_str(&mut m, name);
    m
}

/// The footer line naming the download directory.
pub fn download_dir_footer(dir: &str) -> (s: String)
    ensures
        s@ == "下载目录 "@ + dir@ + "/"@,
{
    let mut s = string_of("下载目录 ");
    push_str(&mut s, dir);
    push_str(&mut s, "/");
    s
}

/// Rows the history takes: one per record and a title, none when empty.
pub fn history_rows(count: usize) -> (r: usize)
    requires
        count < usize::MAX,
    ensures
        r == if count == 0 {
            0
        } else {
            count + 1
        },
{
    if count == 0 {
        0
    } else {
        count + 1
    }
}

/// How long ago `finished_at` was at `now` (Unix seconds), in words: just
/// now, minutes, hours or days. A clock that went back counts as just now;
/// the difference is taken in 64 bits, saturating.
pub open spec fn relative_time_spec(finished_at: i64, now: i64) -> Seq<char> {
    let diff = if now - finished_at > i64::MAX {
        i64::MAX as int
    } else {
        now - finished_at
    };
    let elapsed = if diff > 0 {
        diff
    } else {
        0
    };
    if elapsed < 60 {
        "刚刚"@
    } else if elapsed < 3600 {
        decimal_seq((elapsed / 60) as nat) + " 分钟前"@
    } else if elapsed < 86400 {
        decimal_seq((elapsed / 3600) as nat) + " 小时前"@
    } else {
        decimal_seq((elapsed / 86400) as nat) + " 天前"@
    }
}

/// How long ago `finished_at` was at `now`, in words.
pub fn relative_time(finished_at: i64, now: i64) -> (s: String)
    ensures
        s@ == relative_time_spec(finished_at, now),
{
    let wide: i128 = now as i128 - finished_at as i128;
    let diff: i128 = if wide > i64::MAX as i128 { i64::MAX as i128 } else { wide };
    let elapsed: u64 = if diff > 0 {
        diff as u64
    } else {
        0
    };
    if elapsed < 60 {
        string_of("刚刚")
    } else if elapsed < 3600 {
        let mut s = String::new();
        push_decimal(&mut s, elapsed / 60);
        push_str(&mut s, " 分钟前");
        s
    } else if elapsed < 86400 {
        let mut s = String::new();
        push_decimal(&mut s, elapsed / 3600);
        push_str(&mut s, " 小时前");
        s
    } else {
        let mut s = String::new();
        push_decimal(&mut s, elapsed / 86400);
        push_str(&mut s, " 天前");
        s
    }
}

/// How many times a size is divided by 1024 before it is shown (at most
/// three: B, KB, MB, GB).
pub open spec fn size_unit(bytes: nat) -> nat {
    if bytes < 1024 {
        0
    } else if bytes < 1024 * 1024 {
        1
    } else if bytes < 1024 * 1024 * 1024 {
        2
    } else {
        3
    }
}

pub open spec fn unit_divisor(u: nat) -> nat {
    if u == 0 {
        1
    } else if u == 1 {
        1024
    } else if u == 2 {
        1024 * 1024
    } else {
        1024 * 1024 * 1024
    }
}

pub open spec fn unit_name(u: nat) -> Seq<char> {
    if u == 0 {
        "B"@
    } else if u == 1 {
        "KB"@
    } else if u == 2 {
        "MB"@
    } else {
        "GB"@
    }
}

/// `n / d` rounded to the nearest whole number, ties to even.
pub open spec fn round_half_even(n: nat, d: nat) -> nat
    recommends
        d > 0,
{
    let q = n / d;
    let r = n % d;
    if 2 * r > d || (2 * r == d && q % 2 == 1) {
        q + 1
    } else {
        q
    }
}

/// A byte count for people: whole bytes below 1 KB, else one decimal in
/// the largest unit that keeps the value at least 1 (up to GB), rounded to
/// the nearest tenth, ties to even.
pub open spec fn human_size_spec(bytes: nat) -> Seq<char> {
    let u = size_unit(bytes);
    if u == 0 {
        decimal_seq(bytes) + "B"@
    } else {
        let tenths = round_half_even(bytes * 10, unit_divisor(u));
        decimal_seq(tenths / 10) + "."@ + seq![digit_char(tenths % 10)] + unit_name(u)
    }
}

/// A byte count for people.
pub fn human_size(bytes: u64) -> (s: String)
    ensures
        s@ == human_size_spec(bytes as nat),
{
    let mut s = String::new();
    if bytes < 1024 {
        push_decimal(&mut s, bytes);
        push_str(&mut s, "B");
        return s;
    }
    let (divisor, unit): (u128, &str) = if bytes < 1024 * 1024 {
        (1024, "KB")
    } else if bytes < 1024 * 1024 * 1024 {
        (1024 * 1024, "MB")
    } else {
        (1024 * 1024 * 1024, "GB")
    };
    assert(divisor as nat == unit_divisor(size_unit(bytes as nat)));
    assert(unit@ == unit_name(size_unit(bytes as nat)));
    let n: u128 = bytes as u128 * 10;
    let q = n / divisor;
    let r = n % divisor;
    let tenths: u128 = if 2 * r > divisor || (2 * r == divisor && q % 2 == 1) {
        q + 1
    } else {
        q
    };
    assert(tenths == round_half_even(bytes as nat * 10, divisor as nat));
    assert(q <= 0x1000_0000_0000_0000) by (nonlinear_arith)
        requires
            q == n / divisor,
            divisor >= 1024,
            n <= 0xffff_ffff_ffff_ffff * 10,
    {
        assert(q * divisor <= n);
        assert(q * 1024 <= q * divisor);
    }
    let whole = (tenths / 10) as u64;
    let frac = (tenths % 10) as u64;
    push_decimal(&mut s, whole);
    push_str(&mut s, ".");
    push_char(&mut s, crate::text::digit_to_char(frac));
    push_str(&mut s, unit);
    s
}

/// How many leading characters fit when at most `max` columns are used and
/// one is kept for the ellipsis: characters are taken while they fit.
pub open spec fn fitting_count(cs: Seq<char>, used: nat, max: nat) -> nat
    decreases cs.len(),
{
    if cs.len() == 0 {
        0
    } else if used + column_width(cs[0]) + 1 > max {
        0
    } else {
        1 + fitting_count(cs.drop_first(), used + column_width(cs[0]), max)
    }
}

/// `value` cut to `max_width` columns with an ellipsis; unchanged when it
/// fits or when `max_width` is at most 1.
pub open spec fn truncate_spec(value: Seq<char>, max_width: nat) -> Seq<char> {
    if unicode_str_width(value) <= max_width || max_width <= 1 {
        value
    } else {
        value.take(fitting_count(value, 0, max_width) as int).push('…')
    }
}

proof fn lemma_fitting_step(cs: Seq<char>, i: int, used: nat, max: nat)
    requires
        0 <= i < cs.len(),
        used + column_width(cs[i]) + 1 <= max,
    ensures
        fitting_count(cs.skip(i), used, max) == 1 + fitting_count(cs.skip(i + 1), used + column_width(cs[i]), max),
{
    assert(cs.skip(i).drop_first() =~= cs.skip(i + 1));
    assert(cs.skip(i)[0] == cs[i]);
}

/// `value` cut to `max_width` columns with an ellipsis.
pub fn truncate_to_width(value: &str, max_width: usize) -> (s: String)
    ensures
        s@ == truncate_spec(value@, max_width as nat),
{
    if str_width(value) <= max_width || max_width <= 1 {
        return string_of(value);
    }
    let cs = chars_of(value);
    let mut out = String::new();
    let mut used: usize = 0;
    let mut i: usize = 0;
    assert(cs@.skip(0) =~= cs@);
    while i < cs.len()
        invariant
            i <= cs@.len(),
            cs@ == value@,
            used <= max_width,
            out@ == cs@.take(i as int),
            fitting_count(cs@, 0, max_width as nat) == i + fitting_count(cs@.skip(i as int), used as nat, max_width as nat),
        ensures
            i == fitting_count(cs@, 0, max_width as nat),
            out@ == cs@.take(i as int),
        decreases cs@.len() - i,
    {
        let w: usize = match char_width(cs[i]) {
            Some(w) => w,
            None => 0,
        };
        assert(w == column_width(cs@[i as int]));
        if w >= max_width - used {
            assert(cs@.skip(i as int)[0] == cs@[i as int]);
            assert(cs@.skip(i as int).len() > 0);
            assert(fitting_count(cs@.skip(i as int), used as nat, max_width as nat) == 0);
            break;
        }
        proof {
            lemma_fitting_step(cs@, i as int, used as nat, max_width as nat);
        }
        push_char(&mut out, cs[i]);
        assert(cs@.take(i + 1) =~= cs@.take(i as int).push(cs@[i as int]));
        used = used + w;
        i = i + 1;
    }
    push_char(&mut out, '…');
    out
}

/// The quality column of a task: the declared size with the bitrate, or
/// with the requested quality when no bitrate is known; `None` without a
/// size. The engine's measured total wins over the declared size.
pub open spec fn size_spec_spec(task: DownloadTaskView) -> Option<Seq<char>> {
    let total = if task.progress.total > 0 {
        Some(task.progress.total)
    } else {
        task.expected_size
    };
    let quality = match task.bitrate_kbps {
        Some(b) => decimal_seq(b as nat) + "kbps"@,
        None => task.quality.spec_label(),
    };
    match total {
        Some(size) => Some(human_size_spec(size as nat) + " · "@ + quality),
        None => None,
    }
}

/// The size and quality of a task, when its size is known.
pub fn size_spec(task: &DownloadTaskView) -> (r: Option<String>)
    ensures
        match r {
            Some(s) => size_spec_spec(*task) == Some(s@),
            None => size_spec_spec(*task) is None,
        },
{
    let total = if task.progress.total > 0 {
        Some(task.progress.total)
    } else {
        task.expected_size
    };
    match total {
        None => None,
        Some(size) => {
            let mut s = human_size(size);
            push_str(&mut s, " · ");
            match task.bitrate_kbps {
                Some(b) => {
                    push_decimal(&mut s, b as u64);
                    push_str(&mut s, "kbps");
                },
                None => {
                    push_str(&mut s, task.quality.label());
                },
            }
            Some(s)
        },
    }
}

/// Elapsed time in whole seconds as `XmYs`, or `Ys` below a minute.
pub open spec fn elapsed_text_spec(secs: nat) -> Seq<char> {
    if secs >= 60 {
        decimal_seq(secs / 60) + "m"@ + decimal_seq(secs % 60) + "s"@
    } else {
        decimal_seq(secs) + "s"@
    }
}

fn elapsed_text(secs: u64) -> (s: String)
    ensures
        s@ == elapsed_text_spec(secs as nat),
{
    let mut s = String::new();
    if secs >= 60 {
        push_decimal(&mut s, secs / 60);
        push_str(&mut s, "m");
        push_decimal(&mut s, secs % 60);
        push_str(&mut s, "s");
    } else {
        push_decimal(&mut s, secs);
        push_str(&mut s, "s");
    }
    s
}

/// The detail line of a task. `percent` is the progress shown while
/// downloading with a known total (such as ` 50%`); otherwise the bytes so
/// far are shown.
pub open spec fn progress_detail_spec(task: DownloadTaskView, percent: Option<Seq<char>>) -> Seq<char> {
    let spec = size_spec_spec(task);
    let downloaded = if task.progress.downloaded >= task.bytes {
        task.progress.downloaded
    } else {
        task.bytes
    };
    let size = match percent {
        Some(p) => if task.state == DownloadState::Downloading {
            p
        } else {
            human_size_spec(downloaded as nat)
        },
        None => human_size_spec(downloaded as nat),
    };
    let elapsed = elapsed_text_spec((task.elapsed_ms / 1000) as nat);
    match task.state {
        DownloadState::Done => match spec {
            Some(sp) => sp + " · "@ + elapsed + " · 已保存 "@ + task.dest@,
            None => size + " · "@ + elapsed + " · 已保存 "@ + task.dest@,
        },
        DownloadState::Skipped => "已存在: "@ + task.dest@,
        DownloadState::Queued => "等待空闲下载位"@,
        DownloadState::Resolving => "正在解析播放地址（失败会自动换源）"@,
        DownloadState::Tagging => match spec {
            Some(sp) => sp + " · 写入标签与歌词"@,
            None => size + " · 写入标签与歌词"@,
        },
        DownloadState::Cancelled => "已取消"@,
        DownloadState::Failed => "失败"@,
        DownloadState::Downloading => match spec {
            Some(sp) => sp + " · "@ + size + " · "@ + elapsed,
            None => size + " · "@ + elapsed + " · "@ + task.quality.spec_label(),
        },
    }
}

/// The detail line of a task: sizes, elapsed time, where it was saved.
pub fn format_progress_detail(task: &DownloadTaskView, percent: Option<&str>) -> (s: String)
    ensures
        s@ == progress_detail_spec(*task, match percent {
            Some(p) => Some(p@),
            None => None,
        }),
{
    let spec = size_spec(task);
    let downloaded = if task.progress.downloaded >= task.bytes {
        task.progress.downloaded
    } else {
        task.bytes
    };
    let size = match percent {
        Some(p) => if task.state == DownloadState::Downloading {
            string_of(p)
        } else {
            human_size(downloaded)
        },
        None => human_size(downloaded),
    };
    let elapsed = elapsed_text(task.elapsed_ms / 1000);
    match task.state {
        DownloadState::Done => {
            let mut s = match spec {
                Some(sp) => sp,
                None => size,
            };
            push_str(&mut s, " · ");
            push_str(&mut s, elapsed.as_str());
            push_str(&mut s, " · 已保存 ");
            push_str(&mut s, task.dest.as_str());
            s
        },
        DownloadState::Skipped => {
            let mut s = string_of("已存在: ");
            push_str(&mut s, task.dest.as_str());
            s
        },
        DownloadState::Queued => string_of("等待空闲下载位"),
        DownloadState::Resolving => string_of("正在解析播放地址（失败会自动换源）"),
        DownloadState::Tagging => {
            let mut s = match spec {
                Some(sp) => sp,
                None => size,
            };
            push_str(&mut s, " · 写入标签与歌词");
            s
        },
        DownloadState::Cancelled => string_of("已取消"),
        DownloadState::Failed => string_of("失败"),
        DownloadState::Downloading => match spec {
            Some(sp) => {
                let mut s = sp;
                push_str(&mut s, " · ");
                push_str(&mut s, size.as_str());
                push_str(&mut s, " · ");
                push_str(&mut s, elapsed.as_str());
                s
            },
            None => {
                let mut s = size;
                push_str(&mut s, " · ");
                push_str(&mut s, elapsed.as_str());
                push_str(&mut s, " · ");
                push_str(&mut s, task.quality.label());
                s
            },
        },
    }
}

/// The marker shown before a history record.
pub fn history_marker(record: &DownloadRecord) -> (m: &'static str)
    ensures
        m@ == match record.status {
            crate::download::records::DownloadStatus::Done => "✓"@,
            crate::download::records::DownloadStatus::Skipped => "·"@,
            crate::download::records::DownloadStatus::Failed => "✗"@,
        },
{
    match record.status {
        crate::download::records::DownloadStatus::Done => "✓",
        crate::download::records::DownloadStatus::Skipped => "·",
        crate::download::records::DownloadStatus::Failed => "✗",
    }
}


/// The heading of the history list.
pub fn history_heading(width: usize) -> (s: String)
    ensures
        s@ == truncate_spec("历史（C 清空，清空后可重新下载）"@, width as nat),
{
    truncate_to_width("历史（C 清空，清空后可重新下载）", width)
}

pub open spec fn marker_spec(record: DownloadRecord) -> Seq<char> {
    match record.status {
        crate::download::records::DownloadStatus::Done => "✓"@,
        crate::download::records::DownloadStatus::Skipped => "·"@,
        crate::download::records::DownloadStatus::Failed => "✗"@,
    }
}

/// One history row: marker, singer, title, outcome and age, cut to the
/// width.
pub open spec fn history_line_spec(record: DownloadRecord, now: i64, width: nat) -> Seq<char> {
    truncate_spec(
        "  "@ + marker_spec(record) + " "@ + record.singer@ + " · "@ + record.name@ + " · "@ + record.status.spec_label()
            + " · "@ + relative_time_spec(record.finished_at, now),
        width,
    )
}

/// One history row.
pub fn history_line(record: &DownloadRecord, now: i64, width: usize) -> (s: String)
    ensures
        s@ == history_line_spec(*record, now, width as nat),
{
    let mut text = string_of("  ");
    push_str(&mut text, history_marker(record));
    push_str(&mut text, " ");
    push_str(&mut text, record.singer.as_str());
    push_str(&mut text, " · ");
    push_str(&mut text, record.name.as_str());
    push_str(&mut text, " · ");
    push_str(&mut text, record.status.label());
    push_str(&mut text, " · ");
    let age = relative_time(record.finished_at, now);
    push_str(&mut text, age.as_str());
    truncate_to_width(text.as_str(), width)
}

/// Where a task came from as its title shows it: the source, marked as a
/// cache when it was queued automatically.
pub open spec fn origin_spec(task: DownloadTaskView) -> Seq<char> {
    if task.trigger == DownloadTrigger::AutoCache {
        task.source@ + "·缓存"@
    } else {
        task.source@
    }
}

/// The three parts of a task's title row: the selection marker, the state
/// and source, and the name, cut to what is left of the width after the
/// marker, the state with the task's origin, and eight more columns.
pub open spec fn task_title_spec(task: DownloadTaskView, selected: bool, width: nat) -> (Seq<char>, Seq<char>, Seq<char>) {
    let marker = if selected { "▶ "@ } else { "  "@ };
    let prefix = marker + task.state.spec_label() + " ["@ + origin_spec(task) + "] "@;
    let taken = unicode_str_width(prefix) as int + 8;
    let room = if width >= taken { (width - taken) as nat } else { 0 };
    (marker, task.state.spec_label() + " ["@ + task.source@ + "] "@, truncate_spec(display_name_spec(task.name@, task.singer@), room))
}

/// The parts of a task's title row.
pub fn task_title(task: &DownloadTaskView, selected: bool, width: usize) -> (r: (String, String, String))
    ensures
        (r.0@, r.1@, r.2@) == task_title_spec(*task, selected, width as nat),
{
    let marker = if selected { "▶ " } else { "  " };
    let mut prefix = string_of(marker);
    push_str(&mut prefix, task.state.label());
    push_str(&mut prefix, " [");
    push_str(&mut prefix, task.source.as_str());
    if task.trigger == DownloadTrigger::AutoCache {
        push_str(&mut prefix, "·缓存");
    }
    push_str(&mut prefix, "] ");
    proof {
        assert(prefix@ =~= (if selected { "▶ "@ } else { "  "@ }) + task.state.spec_label() + " ["@ + origin_spec(*task) + "] "@);
    }
    let taken = str_width(prefix.as_str()) as u128 + 8;
    let room: usize = if (width as u128) >= taken { (width as u128 - taken) as usize } else { 0 };
    let name = task.display_name();
    let cut = truncate_to_width(name.as_str(), room);
    let mut shown = string_of(task.state.label());
    push_str(&mut shown, " [");
    push_str(&mut shown, task.source.as_str());
    push_str(&mut shown, "] ");
    (string_of(marker), shown, cut)
}

/// A progress bar of twelve cells, `filled` of them full.
pub open spec fn bar_spec(filled: nat) -> Seq<char> {
    let full = if filled <= 12 { filled } else { 12 };
    Seq::new(full, |i: int| '█') + Seq::new((12 - full) as nat, |i: int| '░')
}

/// The second row of a task: the failure reason, or the bar (empty when
/// the progress is unknown) and the progress detail; cut to the width.
pub open spec fn task_progress_spec(task: DownloadTaskView, filled: Option<nat>, percent: Option<Seq<char>>, width: nat) -> Seq<char> {
    match task.error {
        Some(e) => truncate_spec("   失败: "@ + e@, width),
        None => truncate_spec(
            "    "@ + bar_spec(
                match filled {
                    Some(f) => f,
                    None => 0,
                },
            ) + " "@ + progress_detail_spec(task, percent),
            width,
        ),
    }
}

/// The second row of a task; `filled` is the number of full bar cells
/// (the progress ratio of twelve, rounded) when the size is known.
pub fn task_progress(task: &DownloadTaskView, filled: Option<usize>, percent: Option<&str>, width: usize) -> (s: String)
    ensures
        s@ == task_progress_spec(
            *task,
            match filled {
                Some(f) => Some(f as nat),
                None => None,
            },
            match percent {
                Some(p) => Some(p@),
                None => None,
            },
            width as nat,
        ),
{
    if let Some(e) = &task.error {
        let mut text = string_of("   失败: ");
        push_str(&mut text, e.as_str());
        return truncate_to_width(text.as_str(), width);
    }
    let f: usize = match filled {
        Some(f) => if f <= 12 { f } else { 12 },
        None => 0,
    };
    let mut text = string_of("    ");
    let ghost start = text@;
    let mut i: usize = 0;
    while i < 12
        invariant
            f <= 12,
            i <= 12,
            text@ == start + (if i <= f { Seq::new(i as nat, |k: int| '█') } else { Seq::new(f as nat, |k: int| '█') + Seq::new((i - f) as nat, |k: int| '░') }),
        decreases 12 - i,
    {
        let ghost before = text@;
        if i < f {
            push_char(&mut text, '█');
            assert(text@ =~= start + Seq::new((i + 1) as nat, |k: int| '█'));
        } else {
            push_char(&mut text, '░');
            assert(text@ =~= start + Seq::new(f as nat, |k: int| '█') + Seq::new((i + 1 - f) as nat, |k: int| '░'));
        }
        i = i + 1;
    }
    proof {
        let full: nat = match filled {
            Some(x) => if x <= 12 { x as nat } else { 12 },
            None => 0,
        };
        assert(full == f);
        if f == 12 {
            assert(text@ =~= start + bar_spec(match filled { Some(x) => x as nat, None => 0 }));
        } else {
            assert(text@ =~= start + bar_spec(match filled { Some(x) => x as nat, None => 0 }));
        }
    }
    push_str(&mut text, " ");
    let detail = format_progress_detail(task, percent);
    push_str(&mut text, detail.as_str());
    truncate_to_width(text.as_str(), width)
}


/// `v` kept to sixteen bits, as `u16` arithmetic wraps.
pub open spec fn wrap16(v: int) -> u16 {
    (v % 65536) as u16
}

/// Where the overlay's parts go.
#[derive(Debug, Clone, PartialEq, Eq)]
pub struct PanelLayout {
    /// The overlay with its border.
    pub panel: Rect,
    pub inner: Rect,
    pub title: String,
    /// The task list.
    pub list: Rect,
    /// The history above the footer.
    pub history: Rect,
    /// The download directory on the last row.
    pub footer: Rect,
    /// The first task shown, and how many fit (two rows each).
    pub first_task: usize,
    pub task_rows: usize,
}

/// The overlay's width in `area`: its width less two, between 20 and 96.
pub open spec fn panel_width(area: Rect) -> u16 {
    let w = sat_sub16(area.width, 2);
    if w < 20 { 20 } else if w > 96 { 96 } else { w }
}

/// The overlay's height: two rows per task (one when there is none), the
/// history, and five more, at most the area's height less two and at
/// least five (the sum taken in sixteen bits).
pub open spec fn panel_height(area: Rect, task_count: int, history_len: int) -> u16 {
    let tasks = if task_count == 0 { 1 } else { task_count * 2 };
    let history = if history_len == 0 { 0 } else { history_len + 1 };
    let wanted = wrap16(wrap16(tasks) as int + wrap16(history) as int + 5);
    let capped = if wanted <= sat_sub16(area.height, 2) { wanted } else { sat_sub16(area.height, 2) };
    if capped >= 5 { capped } else { 5 }
}

/// The overlay's title: how many tasks and how many run, and the history
/// size.
pub open spec fn panel_title_spec(task_count: nat, active: nat, record_count: nat) -> Seq<char> {
    if task_count == 0 {
        " 下载 · 历史 "@ + decimal_seq(record_count) + " 条 (Ctrl+o 关闭) "@
    } else {
        " 下载 · "@ + decimal_seq(task_count) + " 条 · "@ + decimal_seq(active) + " 进行中 · 历史 "@ + decimal_seq(
            record_count,
        ) + " 条 (Ctrl+o 关闭) "@
    }
}

impl DownloadsPanel {
    /// Lays the open overlay out in `area` for `task_count` tasks
    /// (`active` of them running), `history_len` history rows shown and
    /// `record_count` records kept; keeps the selection within the task
    /// rows. None when the overlay is closed or the area smaller than 20
    /// by 5.
    pub fn layout(&mut self, area: Rect, task_count: usize, active: usize, history_len: usize, record_count: usize) -> (r: Option<PanelLayout>)
        requires
            history_len < usize::MAX,
            task_count * 2 <= usize::MAX,
            area.x + sat_sub16(area.width, panel_width(area)) / 2 <= u16::MAX,
            area.y + sat_sub16(area.height, panel_height(area, task_count as int, history_len as int)) / 2 <= u16::MAX,
        ensures
            final(self).is_open_spec() == old(self).is_open_spec(),
            (!old(self).is_open_spec() || area.width < 20 || area.height < 5) ==> r is None && *final(self) == *old(self),
            (old(self).is_open_spec() && area.width >= 20 && area.height >= 5) ==> (r matches Some(l) && {
                let w = panel_width(area);
                let h = panel_height(area, task_count as int, history_len as int);
                let panel = Rect { x: (area.x + sat_sub16(area.width, w) / 2) as u16, y: (area.y + sat_sub16(area.height, h) / 2) as u16, width: w, height: h };
                let inner = panel.spec_inner();
                let footer: u16 = if inner.height > 0 { 1 } else { 0 };
                let hist = wrap16(if history_len == 0 { 0 } else { history_len + 1 });
                let below = wrap16(footer + hist);
                let list = Rect { height: sat_sub16(inner.height, below), ..inner };
                &&& l.panel == panel
                &&& l.inner == inner
                &&& l.title@ == panel_title_spec(task_count as nat, active as nat, record_count as nat)
                &&& l.list == list
                &&& l.history == Rect { y: wrap16(inner.y + sat_sub16(inner.height, below)), height: if hist <= sat_sub16(inner.height, footer) { hist } else { sat_sub16(inner.height, footer) }, ..inner }
                &&& l.footer == Rect { y: wrap16(inner.y + sat_sub16(inner.height, 1)), height: footer, ..inner }
                &&& (task_count == 0 ==> l.task_rows == 0 && l.first_task == 0 && *final(self) == *old(self))
                &&& (task_count > 0 ==> {
                    let rows = if list.height / 2 >= 1 { list.height / 2 } else { 1 };
                    let sel = min_int(old(self).selected_spec() as int, sat_sub(task_count as int, 1));
                    let scroll = old(self).scroll_spec() as int;
                    &&& final(self).selected_spec() == sel
                    &&& final(self).scroll_spec() == if sel < scroll { sel } else if sel >= scroll + rows { sel + 1 - rows } else { scroll }
                    &&& l.first_task == final(self).scroll_spec()
                    &&& l.task_rows == rows
                })
            }),
    {
        if !self.open || area.width < 20 || area.height < 5 {
            return None;
        }
        let narrowed = area.width.saturating_sub(2);
        let w: u16 = if narrowed < 20 { 20 } else if narrowed > 96 { 96 } else { narrowed };
        let tasks: usize = if task_count == 0 { 1 } else { task_count * 2 };
        let hist_rows = history_rows(history_len);
        let t16 = (tasks % 65536) as u16;
        let h16 = (hist_rows % 65536) as u16;
        let wanted = ((t16 as u32 + h16 as u32 + 5) % 65536) as u16;
        let limit = area.height.saturating_sub(2);
        let capped = if wanted <= limit { wanted } else { limit };
        let h: u16 = if capped >= 5 { capped } else { 5 };
        proof {
            assert(w == panel_width(area));
            assert(h == panel_height(area, task_count as int, history_len as int));
        }
        let panel = Rect::new(area.x + area.width.saturating_sub(w) / 2, area.y + area.height.saturating_sub(h) / 2, w, h);
        let inner = panel.inner();
        let footer: u16 = if inner.height > 0 { 1 } else { 0 };
        let below = ((footer as u32 + h16 as u32) % 65536) as u16;
        let list = Rect { height: inner.height.saturating_sub(below), ..inner };
        let hist_cap = inner.height.saturating_sub(footer);
        let history = Rect {
            y: ((inner.y as u32 + inner.height.saturating_sub(below) as u32) % 65536) as u16,
            height: if h16 <= hist_cap { h16 } else { hist_cap },
            ..inner
        };
        let footer_area = Rect { y: ((inner.y as u32 + inner.height.saturating_sub(1) as u32) % 65536) as u16, height: footer, ..inner };
        let mut title = String::new();
        if task_count == 0 {
            push_str(&mut title, " 下载 · 历史 ");
            push_decimal(&mut title, record_count as u64);
            push_str(&mut title, " 条 (Ctrl+o 关闭) ");
        } else {
            push_str(&mut title, " 下载 · ");
            push_decimal(&mut title, task_count as u64);
            push_str(&mut title, " 条 · ");
            push_decimal(&mut title, active as u64);
            push_str(&mut title, " 进行中 · 历史 ");
            push_decimal(&mut title, record_count as u64);
            push_str(&mut title, " 条 (Ctrl+o 关闭) ");
        }
        proof {
            assert(title@ =~= panel_title_spec(task_count as nat, active as nat, record_count as nat));
        }
        let (first_task, task_rows) = if task_count == 0 {
            (0, 0)
        } else {
            let half = (list.height / 2) as usize;
            let rows = if half >= 1 { half } else { 1 };
            self.clamp_scroll(task_count, rows);
            (self.scroll, rows)
        };
        Some(PanelLayout { panel, inner, title, list, history, footer: footer_area, first_task, task_rows })
    }
}

} // verus!
