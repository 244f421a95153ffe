//! The bilibili QR login page: its states while the code waits to be
//! scanned, the answers to each poll, and the half-block drawing of the
//! code in a terminal.

use vstd::prelude::*;
use crate::pages::geometry::{sat_add16, sat_sub16, Rect};
use crate::pages::input::{KeyCode, KeyEvent};
use crate::text::{decimal_seq, push_char, push_decimal, push_str, string_of};
use vstd::string::StringSliceAdditionalSpecFns;

verus! {

broadcast use vstd::string::group_string_axioms;

/// What a poll of the login code answered.
#[derive(Debug, Clone, Copy, PartialEq, Eq, Structural)]
pub enum QrStatus {
    Waiting,
    Scanned,
    Success,
    Expired,
}

/// One poll's answer, with the account's name on success.
#[derive(Debug, Clone)]
pub struct QrPoll {
    pub status: QrStatus,
    pub user_name: Option<String>,
}

/// The states of the login page.
#[derive(Debug, Clone)]
pub enum BiliLoginState {
    Generating,
    Waiting { key: String, qr_lines: Vec<String>, started_ms: u64, expires_in: u64 },
    Scanned { key: String, qr_lines: Vec<String>, started_ms: u64, expires_in: u64 },
    Success { user_name: String },
    Expired,
    Error(String),
}

/// What the page asks of the main loop.
#[derive(Debug, Clone, Copy, PartialEq, Eq, Structural)]
pub enum BiliLoginAction {
    Nothing,
    GoBack,
    LoginSuccess,
}

/// The login page.
#[derive(Debug)]
pub struct BiliLoginPage {
    pub state: BiliLoginState,
    poll_in_flight: bool,
}

/// Whether the code has expired at `now_ms`: whole seconds since it was
/// shown reached its lifetime.
pub open spec fn expired_at(started_ms: u64, expires_in: u64, now_ms: u64) -> bool {
    (if now_ms >= started_ms { (now_ms - started_ms) / 1000 } else { 0 }) >= expires_in
}

/// The user name a poll names, empty when it names none.
pub open spec fn user_name_of(p: QrPoll) -> Seq<char> {
    match p.user_name {
        Some(n) => n@,
        None => Seq::empty(),
    }
}

/// What a state becomes when a poll result arrives at `now_ms`: an expired
/// code expires; otherwise the poll's status moves the state on (a scanned
/// code never goes back to waiting), and a failed poll is an error.
pub open spec fn next_state_matches(old: BiliLoginState, result: Result<QrPoll, String>, now_ms: u64, new: BiliLoginState) -> bool {
    match old {
        BiliLoginState::Waiting { key, qr_lines, started_ms, expires_in } => if expired_at(started_ms, expires_in, now_ms) {
            new is Expired
        } else {
            match result {
                Ok(p) => match p.status {
                    QrStatus::Waiting => new == BiliLoginState::Waiting { key, qr_lines, started_ms, expires_in },
                    QrStatus::Scanned => new == BiliLoginState::Scanned { key, qr_lines, started_ms, expires_in },
                    QrStatus::Success => new matches BiliLoginState::Success { user_name } && user_name@ == user_name_of(p),
                    QrStatus::Expired => new is Expired,
                },
                Err(e) => new matches BiliLoginState::Error(m) && m@ == "轮询失败: "@ + e@,
            }
        },
        BiliLoginState::Scanned { key, qr_lines, started_ms, expires_in } => if expired_at(started_ms, expires_in, now_ms) {
            new is Expired
        } else {
            match result {
                Ok(p) => match p.status {
                    QrStatus::Waiting => new == BiliLoginState::Scanned { key, qr_lines, started_ms, expires_in },
                    QrStatus::Scanned => new == BiliLoginState::Scanned { key, qr_lines, started_ms, expires_in },
                    QrStatus::Success => new matches BiliLoginState::Success { user_name } && user_name@ == user_name_of(p),
                    QrStatus::Expired => new is Expired,
                },
                Err(e) => new matches BiliLoginState::Error(m) && m@ == "轮询失败: "@ + e@,
            }
        },
        _ => new == old,
    }
}

fn poll_error(e: &str) -> (m: String)
    ensures
        m@ == "轮询失败: "@ + e@,
{
    let mut m = string_of("轮询失败: ");
    crate::text::push_str(&mut m, e);
    m
}

fn name_of(p: &QrPoll) -> (n: String)
    ensures
        n@ == user_name_of(*p),
{
    match &p.user_name {
        Some(n) => n.clone(),
        None => {
            let s = String::new();
            assert(s@ =~= Seq::<char>::empty());
            s
        },
    }
}

impl BiliLoginPage {
    pub closed spec fn polling(&self) -> bool {
        self.poll_in_flight
    }

    /// The page's state.
    pub closed spec fn current(&self) -> BiliLoginState {
        self.state
    }

    /// The page while the code is being made.
    pub fn new() -> (p: Self)
        ensures
            p.current() is Generating,
            !p.polling(),
    {
        BiliLoginPage { state: BiliLoginState::Generating, poll_in_flight: false }
    }

    /// The code is shown at `now_ms` and waits to be scanned.
    pub fn set_waiting(&mut self, key: String, qr_lines: Vec<String>, expires_in: u64, now_ms: u64)
        ensures
            final(self).current() == (BiliLoginState::Waiting { key, qr_lines, started_ms: now_ms, expires_in }),
            final(self).polling() == old(self).polling(),
    {
        self.state = BiliLoginState::Waiting { key, qr_lines, started_ms: now_ms, expires_in };
    }

    pub fn set_error(&mut self, msg: String)
        ensures
            final(self).current() == BiliLoginState::Error(msg),
            final(self).polling() == old(self).polling(),
    {
        self.state = BiliLoginState::Error(msg);
    }

    /// Whether to poll now: a code is shown and no poll is running.
    pub fn should_poll(&self) -> (r: bool)
        ensures
            r == (!self.polling() && (self.current() is Waiting || self.current() is Scanned)),
    {
        !self.poll_in_flight && match self.state {
            BiliLoginState::Waiting { .. } => true,
            BiliLoginState::Scanned { .. } => true,
            _ => false,
        }
    }

    /// Starts a poll: returns the code's key, and notes the poll as running.
    pub fn begin_poll(&mut self) -> (r: Option<String>)
        ensures
            final(self).current() == old(self).current(),
            match old(self).current() {
                BiliLoginState::Waiting { key, .. } => r == Some(key) && final(self).polling(),
                BiliLoginState::Scanned { key, .. } => r == Some(key) && final(self).polling(),
                _ => r is None && final(self).polling() == old(self).polling(),
            },
    {
        let key = match &self.state {
            BiliLoginState::Waiting { key, .. } => Some(key.clone()),
            BiliLoginState::Scanned { key, .. } => Some(key.clone()),
            _ => None,
        };
        if key.is_some() {
            self.poll_in_flight = true;
        }
        key
    }

    /// Applies a poll's result at `now_ms`.
    pub fn apply_check_result(&mut self, result: Result<QrPoll, String>, now_ms: u64)
        ensures
            !final(self).polling(),
            next_state_matches(old(self).current(), result, now_ms, final(self).current()),
    {
        self.poll_in_flight = false;
        let mut old_state = BiliLoginState::Generating;
        std::mem::swap(&mut old_state, &mut self.state);
        self.state = match old_state {
            BiliLoginState::Waiting { key, qr_lines, started_ms, expires_in } => {
                let elapsed = now_ms.saturating_sub(started_ms) / 1000;
                if elapsed >= expires_in {
                    BiliLoginState::Expired
                } else {
                    match result {
                        Ok(p) => match p.status {
                            QrStatus::Waiting => BiliLoginState::Waiting { key, qr_lines, started_ms, expires_in },
                            QrStatus::Scanned => BiliLoginState::Scanned { key, qr_lines, started_ms, expires_in },
                            QrStatus::Success => BiliLoginState::Success { user_name: name_of(&p) },
                            QrStatus::Expired => BiliLoginState::Expired,
                        },
                        Err(e) => BiliLoginState::Error(poll_error(e.as_str())),
                    }
                }
            },
            BiliLoginState::Scanned { key, qr_lines, started_ms, expires_in } => {
                let elapsed = now_ms.saturating_sub(started_ms) / 1000;
                if elapsed >= expires_in {
                    BiliLoginState::Expired
                } else {
                    match result {
                        Ok(p) => match p.status {
                            QrStatus::Scanned => BiliLoginState::Scanned { key, qr_lines, started_ms, expires_in },
                            QrStatus::Success => BiliLoginState::Success { user_name: name_of(&p) },
                            QrStatus::Expired => BiliLoginState::Expired,
                            QrStatus::Waiting => BiliLoginState::Scanned { key, qr_lines, started_ms, expires_in },
                        },
                        Err(e) => BiliLoginState::Error(poll_error(e.as_str())),
                    }
                }
            },
            other => other,
        };
    }

    /// Escape, Backspace or `q` leave the page: reporting success once
    /// logged in, else going back.
    pub fn handle_input(&self, key: KeyEvent) -> (r: BiliLoginAction)
        ensures
            (key.plain(KeyCode::Esc) || key.plain(KeyCode::Backspace) || key.plain(KeyCode::Char('q'))) ==> r
                == if self.current() is Success {
                BiliLoginAction::LoginSuccess
            } else {
                BiliLoginAction::GoBack
            },
            !(key.plain(KeyCode::Esc) || key.plain(KeyCode::Backspace) || key.plain(KeyCode::Char('q'))) ==> r
                == BiliLoginAction::Nothing,
    {
        let m = key.modifiers;
        let none = !m.shift && !m.control && !m.alt && !m.other;
        if none && (key.code == KeyCode::Esc || key.code == KeyCode::Backspace || key.code == KeyCode::Char('q')) {
            match self.state {
                BiliLoginState::Success { .. } => BiliLoginAction::LoginSuccess,
                _ => BiliLoginAction::GoBack,
            }
        } else {
            BiliLoginAction::Nothing
        }
    }
}

/// Once scanned, a code never goes back to waiting, and a finished login
/// (success, expiry, error) is left as it is by later polls.
pub proof fn lemma_login_moves_forward(old: BiliLoginState, result: Result<QrPoll, String>, now_ms: u64, new: BiliLoginState)
    requires
        next_state_matches(old, result, now_ms, new),
    ensures
        old is Scanned ==> !(new is Waiting) && !(new is Generating),
        (old is Success || old is Expired || old is Error) ==> new == old,
{
}

/// The quiet zone around a code, in modules.
pub const QUIET_ZONE: usize = 4;

/// Whether module (`r`, `c`) of the padded code is dark: inside the code
/// and dark there; the quiet zone is light.
pub open spec fn padded_dark(m: Seq<Seq<bool>>, r: int, c: int) -> bool {
    let w = m.len() as int;
    let rr = r - QUIET_ZONE;
    let cc = c - QUIET_ZONE;
    0 <= rr < w && 0 <= cc < w && cc < m[rr].len() && m[rr][cc]
}

/// The character for a pair of module rows: dark modules are blank cells,
/// light ones are drawn, halves for mixed pairs.
pub open spec fn half_block(upper: bool, lower: bool) -> char {
    if upper && lower {
        ' '
    } else if !upper && !lower {
        '█'
    } else if upper {
        '▄'
    } else {
        '▀'
    }
}

/// One text line of the code: rows `2*i` and `2*i + 1` of the padded code
/// (a missing lower row counts as light).
pub open spec fn qr_line(m: Seq<Seq<bool>>, i: int) -> Seq<char> {
    let padded = m.len() + 2 * QUIET_ZONE;
    Seq::new(padded as nat, |c: int| half_block(padded_dark(m, 2 * i, c), 2 * i + 1 < padded && padded_dark(m, 2 * i + 1, c)))
}

/// The number of text lines of a code of `w` modules.
pub open spec fn qr_line_count(w: int) -> int {
    (w + 2 * QUIET_ZONE + 1) / 2
}

fn module_dark(m: &Vec<Vec<bool>>, r: usize, c: usize) -> (b: bool)
    ensures
        b == padded_dark(m@.map_values(|row: Vec<bool>| row@), r as int, c as int),
{
    let w = m.len();
    if r < QUIET_ZONE || c < QUIET_ZONE {
        return false;
    }
    let rr = r - QUIET_ZONE;
    let cc = c - QUIET_ZONE;
    if rr < w && cc < w && cc < m[rr].len() {
        m[rr][cc]
    } else {
        false
    }
}

/// The code drawn with half blocks, two module rows per text line, inside
/// a quiet zone of four light modules.
pub fn qr_half_blocks(m: &Vec<Vec<bool>>) -> (lines: Vec<String>)
    requires
        m@.len() + 2 * QUIET_ZONE + 1 <= usize::MAX,
    ensures
        lines@.len() == qr_line_count(m@.len() as int),
        forall|i: int| 0 <= i < lines@.len() ==> #[trigger] lines@[i]@ == qr_line(m@.map_values(|row: Vec<bool>| row@), i),
{
    let ghost mv = m@.map_values(|row: Vec<bool>| row@);
    let padded = m.len() + 2 * QUIET_ZONE;
    let mut lines: Vec<String> = Vec::new();
    let mut row: usize = 0;
    while row < padded
        invariant
            padded == m@.len() + 2 * QUIET_ZONE,
            padded + 1 <= usize::MAX,
            mv == m@.map_values(|row: Vec<bool>| row@),
            row % 2 == 0,
            row <= padded + 1,
            lines@.len() == row / 2,
            forall|i: int| 0 <= i < lines@.len() ==> #[trigger] lines@[i]@ == qr_line(mv, i),
        decreases padded + 2 - row,
    {
        let mut line = String::new();
        let mut col: usize = 0;
        while col < padded
            invariant
                padded == m@.len() + 2 * QUIET_ZONE,
                mv == m@.map_values(|row: Vec<bool>| row@),
                row < padded,
                row % 2 == 0,
                col <= padded,
                line@ == qr_line(mv, row as int / 2).take(col as int),
            decreases padded - col,
        {
            let upper = module_dark(m, row, col);
            let lower = row + 1 < padded && module_dark(m, row + 1, col);
            let ch = if upper && lower {
                ' '
            } else if !upper && !lower {
                '█'
            } else if upper {
                '▄'
            } else {
                '▀'
            };
            push_char(&mut line, ch);
            assert(row as int / 2 * 2 == row);
            assert(qr_line(mv, row as int / 2).take(col + 1) =~= qr_line(mv, row as int / 2).take(col as int).push(ch));
            col = col + 1;
        }
        assert(qr_line(mv, row as int / 2).take(padded as int) =~= qr_line(mv, row as int / 2));
        lines.push(line);
        row = row + 2;
    }
    lines
}


/// The modules of the QR code that `qrcode::QrCode::new` makes of `data`,
/// row by row (true for dark), or none when the data does not fit a code.
pub uninterp spec fn qr_code_modules(data: Seq<u8>) -> Option<Seq<Seq<bool>>>;

/// Encodes `data` with `qrcode::QrCode::new` (medium error correction, the
/// smallest version that holds it) and reads its modules row by row. The
/// crate only picks versions 1 to 40, so a side has at most 177 modules,
/// and every row is as long as the code is wide.
#[verifier::external_body]
fn qr_modules(data: &[u8]) -> (r: Option<Vec<Vec<bool>>>)
    ensures
        match r {
            Some(m) => qr_code_modules(data@) == Some(m@.map_values(|row: Vec<bool>| row@)) && m@.len() <= 177
                && forall|i: int| 0 <= i < m@.len() ==> #[trigger] m@[i]@.len() == m@.len(),
            None => qr_code_modules(data@) is None,
        },
{
    match qrcode::QrCode::new(data) {
        Ok(code) => {
            let w = code.width();
            Some((0..w).map(|r| (0..w).map(|c| code[(c, r)] == qrcode::Color::Dark).collect()).collect())
        },
        Err(_) => None,
    }
}

/// The text lines of a code of modules `m`.
pub open spec fn qr_text(m: Seq<Seq<bool>>) -> Seq<Seq<char>> {
    Seq::new(qr_line_count(m.len() as int) as nat, |i: int| qr_line(m, i))
}

/// Every character of `line` repeated `k` times.
pub open spec fn widen(line: Seq<char>, k: nat) -> Seq<char>
    decreases line.len(),
{
    if line.len() == 0 {
        Seq::empty()
    } else {
        widen(line.drop_last(), k) + Seq::new(k, |j: int| line.last())
    }
}

/// Every line widened `k` times and repeated `k` times; a scale of one or
/// less leaves the lines as they are.
pub open spec fn scale_lines(lines: Seq<Seq<char>>, k: nat) -> Seq<Seq<char>>
    decreases lines.len(),
{
    if k <= 1 || lines.len() == 0 {
        lines
    } else {
        scale_lines(lines.drop_last(), k) + Seq::new(k, |j: int| widen(lines.last(), k))
    }
}

/// The text shown for a link: its code drawn with half blocks and scaled,
/// or a notice when no code can hold it.
pub open spec fn qr_terminal_spec(data: Seq<u8>, scale: nat) -> Seq<Seq<char>> {
    match qr_code_modules(data) {
        Some(m) => scale_lines(qr_text(m), scale),
        None => seq!["(QR 码生成失败)"@],
    }
}

fn widen_exec(line: &String, k: u32) -> (out: String)
    ensures
        out@ == widen(line@, k as nat),
{
    let chars = crate::text::chars_of(line.as_str());
    let mut out = String::new();
    let mut p: usize = 0;
    assert(widen(chars@.take(0), k as nat) =~= Seq::<char>::empty());
    while p < chars.len()
        invariant
            p <= chars@.len(),
            chars@ == line@,
            out@ == widen(chars@.take(p as int), k as nat),
        decreases chars@.len() - p,
    {
        let c = chars[p];
        let ghost before = out@;
        let mut t: u32 = 0;
        while t < k
            invariant
                t <= k,
                out@ == before + Seq::new(t as nat, |j: int| c),
            decreases k - t,
        {
            push_char(&mut out, c);
            assert(before + Seq::new((t + 1) as nat, |j: int| c) =~= (before + Seq::new(t as nat, |j: int| c)).push(c));
            t = t + 1;
        }
        assert(chars@.take(p + 1).drop_last() =~= chars@.take(p as int));
        p = p + 1;
    }
    assert(chars@.take(chars@.len() as int) =~= chars@);
    out
}

/// The lines of the QR code for `url`, drawn with half blocks and scaled
/// `scale` times in both directions (`scale` of one or less draws it as
/// is); a notice line when the link does not fit a code.
pub fn render_qr_terminal(url: &str, scale: u32) -> (lines: Vec<String>)
    ensures
        lines@.map_values(|l: String| l@) == qr_terminal_spec(url.spec_bytes(), scale as nat),
{
    let modules = match qr_modules(url.as_bytes()) {
        Some(m) => m,
        None => {
            let v = vec![string_of("(QR 码生成失败)")];
            assert(v@.map_values(|l: String| l@) =~= seq!["(QR 码生成失败)"@]);
            return v;
        },
    };
    let ghost mv = modules@.map_values(|row: Vec<bool>| row@);
    let lines = qr_half_blocks(&modules);
    assert(lines@.map_values(|l: String| l@) =~= qr_text(mv));
    if scale <= 1 {
        return lines;
    }
    let ghost text = lines@.map_values(|l: String| l@);
    let mut scaled: Vec<String> = Vec::new();
    let mut i: usize = 0;
    assert(scale_lines(text.take(0), scale as nat) =~= Seq::<Seq<char>>::empty());
    while i < lines.len()
        invariant
            i <= lines@.len(),
            scale > 1,
            text == lines@.map_values(|l: String| l@),
            scaled@.map_values(|l: String| l@) == scale_lines(text.take(i as int), scale as nat),
        decreases lines@.len() - i,
    {
        let wide = widen_exec(&lines[i], scale);
        let ghost before = scaled@.map_values(|l: String| l@);
        let mut t: u32 = 0;
        while t < scale
            invariant
                t <= scale,
                scaled@.map_values(|l: String| l@) == before + Seq::new(t as nat, |j: int| wide@),
            decreases scale - t,
        {
            let ghost prev = scaled@;
            let copy = wide.clone();
            scaled.push(copy);
            assert(scaled@ == prev.push(copy));
            assert(scaled@.map_values(|l: String| l@) =~= prev.map_values(|l: String| l@).push(wide@));
            assert(scaled@.map_values(|l: String| l@) =~= before + Seq::new((t + 1) as nat, |j: int| wide@));
            t = t + 1;
        }
        assert(text.take(i + 1).drop_last() =~= text.take(i as int));
        assert(text.take(i + 1).last() == text[i as int]);
        i = i + 1;
    }
    assert(text.take(lines@.len() as int) =~= text);
    scaled
}

/// Where the login page is drawn: at most 66 by 40 cells, two cells in
/// from every edge, centred.
pub open spec fn login_width(area: Rect) -> u16 {
    if 66 <= sat_sub16(area.width, 4) { 66 } else { sat_sub16(area.width, 4) }
}

pub open spec fn login_height(area: Rect) -> u16 {
    if 40 <= sat_sub16(area.height, 4) { 40 } else { sat_sub16(area.height, 4) }
}

pub open spec fn login_area_spec(area: Rect) -> Rect {
    let w = login_width(area);
    let h = login_height(area);
    Rect {
        x: (area.x + (area.width - w) / 2) as u16,
        y: (area.y + (area.height - h) / 2) as u16,
        width: w,
        height: h,
    }
}

/// The rectangle of the login page inside `area`.
pub fn calculate_bili_login_area(area: Rect) -> (r: Rect)
    requires
        area.x + (area.width - login_width(area)) / 2 <= u16::MAX,
        area.y + (area.height - login_height(area)) / 2 <= u16::MAX,
    ensures
        r == login_area_spec(area),
{
    let narrowed = area.width.saturating_sub(4);
    let shortened = area.height.saturating_sub(4);
    let w: u16 = if 66 <= narrowed { 66 } else { narrowed };
    let h: u16 = if 40 <= shortened { 40 } else { shortened };
    let x = area.x + (area.width - w) / 2;
    let y = area.y + (area.height - h) / 2;
    Rect::new(x, y, w, h)
}


/// The width of a drawn code: the characters of its first line.
pub open spec fn qr_width_spec(lines: Seq<String>) -> u16 {
    if lines.len() > 0 {
        lines[0]@.len() as u16
    } else {
        0
    }
}

/// Whether a drawn code fits `area` with three rows to spare for its
/// status.
pub open spec fn qr_fits_spec(area: Rect, lines: Seq<String>) -> bool {
    qr_width_spec(lines) <= area.width && sat_add16(lines.len() as u16, 3) <= area.height
}

fn qr_width(lines: &Vec<String>) -> (w: u16)
    ensures
        w == qr_width_spec(lines@),
{
    if lines.len() > 0 {
        lines[0].as_str().unicode_len() as u16
    } else {
        0
    }
}

/// Whether a drawn code fits.
pub fn qr_fits(area: Rect, lines: &Vec<String>) -> (r: bool)
    ensures
        r == qr_fits_spec(area, lines@),
{
    qr_width(lines) <= area.width && (lines.len() as u16).saturating_add(3) <= area.height
}

/// Where the code's lines go in `area`: the first row (the code centred in
/// what is left above three status rows, when those fit), the column, and
/// the width of each line.
pub open spec fn qr_place_spec(area: Rect, lines: Seq<String>) -> (u16, u16, u16) {
    let h = lines.len() as u16;
    let w = qr_width_spec(lines);
    let reserved: u16 = if area.height >= sat_add16(h, 3) { 3 } else { 0 };
    let start_y = sat_add16(area.y, sat_sub16(sat_sub16(area.height, reserved), h) / 2);
    let left = sat_sub16(area.width, w) / 2;
    let x = sat_add16(area.x, left);
    let room = sat_sub16(area.width, left);
    (start_y, x, if w <= room { w } else { room })
}

/// Where the code's lines go.
pub fn qr_place(area: Rect, lines: &Vec<String>) -> (r: (u16, u16, u16))
    ensures
        r == qr_place_spec(area, lines@),
{
    let h = lines.len() as u16;
    let w = qr_width(lines);
    let reserved: u16 = if area.height >= h.saturating_add(3) { 3 } else { 0 };
    let start_y = area.y.saturating_add(area.height.saturating_sub(reserved).saturating_sub(h) / 2);
    let left = area.width.saturating_sub(w) / 2;
    let x = area.x.saturating_add(left);
    let room = area.width.saturating_sub(left);
    (start_y, x, if w <= room { w } else { room })
}

/// What the login page's body shows.
#[derive(Debug, Clone, PartialEq, Eq)]
pub enum LoginContent {
    /// The window is too small for the page at all.
    TooSmall,
    /// A line centred in the body.
    Centered(String),
    /// The code, with a status line two rows above the bottom.
    Qr(String),
    /// A line halfway down the body.
    Middle(String),
}

/// The login page laid out in `area`: the inside of its border, the row of
/// the key hint (when it is below the top row), the body above the hint,
/// and what the body shows.
#[derive(Debug, Clone, PartialEq, Eq)]
pub struct LoginView {
    pub inner: Rect,
    pub tips_row: Option<u16>,
    pub body: Rect,
    pub content: LoginContent,
}

/// The seconds left before a code shown at `started_ms` expires.
pub open spec fn remaining_secs(started_ms: u64, expires_in: u64, now_ms: u64) -> int {
    let elapsed = if now_ms >= started_ms { (now_ms - started_ms) / 1000 } else { 0 };
    if expires_in >= elapsed { expires_in - elapsed } else { 0 }
}

pub open spec fn content_view(c: LoginContent) -> (int, Seq<char>) {
    match c {
        LoginContent::TooSmall => (0, Seq::empty()),
        LoginContent::Centered(t) => (1, t@),
        LoginContent::Qr(t) => (2, t@),
        LoginContent::Middle(t) => (3, t@),
    }
}

/// What the body shows in each state, `now_ms` being the time.
pub open spec fn login_content_spec(state: BiliLoginState, body: Rect, now_ms: u64) -> (int, Seq<char>) {
    match state {
        BiliLoginState::Generating => (1, " █ 正在生成二维码..."@),
        BiliLoginState::Waiting { qr_lines, started_ms, expires_in, .. } => if qr_fits_spec(body, qr_lines@) {
            (2, " 请使用哔哩哔哩客户端扫码 ("@ + decimal_seq(remaining_secs(started_ms, expires_in, now_ms) as nat) + "s 后过期)"@)
        } else {
            (1, "终端窗口太小，无法完整显示二维码"@)
        },
        BiliLoginState::Scanned { qr_lines, .. } => if qr_fits_spec(body, qr_lines@) {
            (2, " 已扫码，请在手机上确认登录"@)
        } else {
            (1, "已扫码，请在手机上确认登录"@)
        },
        BiliLoginState::Success { user_name } => (1, " ✓ 登录成功! 欢迎, "@ + user_name@),
        BiliLoginState::Expired => (3, "二维码已过期，按 Esc 返回设置重新生成"@),
        BiliLoginState::Error(m) => (3, " 错误: "@ + m@),
    }
}

impl BiliLoginPage {
    /// The page laid out in `area` at `now_ms`.
    pub fn login_view(&self, area: Rect, now_ms: u64) -> (v: LoginView)
        ensures
            v.inner == area.spec_inner(),
            ({
                let inner = area.spec_inner();
                if inner.height < 6 || inner.width < 10 {
                    v.content == LoginContent::TooSmall
                } else {
                    let tips_y = sat_sub16(inner.spec_bottom(), 1);
                    let body = Rect { x: inner.x, y: inner.y, width: inner.width, height: sat_sub16(inner.height, 1) };
                    &&& v.tips_row == if tips_y > inner.y { Some(tips_y) } else { None::<u16> }
                    &&& v.body == body
                    &&& content_view(v.content) == login_content_spec(self.current(), body, now_ms)
                }
            }),
    {
        let inner = area.inner();
        if inner.height < 6 || inner.width < 10 {
            return LoginView { inner, tips_row: None, body: inner, content: LoginContent::TooSmall };
        }
        let tips_y = inner.bottom().saturating_sub(1);
        let tips_row = if tips_y > inner.y { Some(tips_y) } else { None };
        let body = Rect::new(inner.x, inner.y, inner.width, inner.height.saturating_sub(1));
        let content = match &self.state {
            BiliLoginState::Generating => LoginContent::Centered(string_of(" █ 正在生成二维码...")),
            BiliLoginState::Waiting { qr_lines, started_ms, expires_in, .. } => {
                if qr_fits(body, qr_lines) {
                    let elapsed = if now_ms >= *started_ms { (now_ms - *started_ms) / 1000 } else { 0 };
                    let remaining = expires_in.saturating_sub(elapsed);
                    let mut t = string_of(" 请使用哔哩哔哩客户端扫码 (");
                    push_decimal(&mut t, remaining);
                    push_str(&mut t, "s 后过期)");
                    LoginContent::Qr(t)
                } else {
                    LoginContent::Centered(string_of("终端窗口太小，无法完整显示二维码"))
                }
            },
            BiliLoginState::Scanned { qr_lines, .. } => {
                if qr_fits(body, qr_lines) {
                    LoginContent::Qr(string_of(" 已扫码，请在手机上确认登录"))
                } else {
                    LoginContent::Centered(string_of("已扫码，请在手机上确认登录"))
                }
            },
            BiliLoginState::Success { user_name } => {
                let mut t = string_of(" ✓ 登录成功! 欢迎, ");
                push_str(&mut t, user_name.as_str());
                LoginContent::Centered(t)
            },
            BiliLoginState::Expired => LoginContent::Middle(string_of("二维码已过期，按 Esc 返回设置重新生成")),
            BiliLoginState::Error(m) => {
                let mut t = string_of(" 错误: ");
                push_str(&mut t, m.as_str());
                LoginContent::Middle(t)
            },
        };
        LoginView { inner, tips_row, body, content }
    }
}

} // verus!
