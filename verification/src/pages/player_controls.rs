//! The player bar: where its buttons lie, which one a click hits, and the
//! text of its rows.

use vstd::prelude::*;
use crate::navigation::{clock_spec, format_clock};
use crate::pages::downloads::{truncate_spec, truncate_to_width};
use crate::pages::geometry::{sat_add16, sat_sub16, Position, Rect};
use crate::pages::leaderboard::pad_spec;
use crate::pages::song_table::{push_spaces, spaces};
use crate::pages::status_bar::PlayerState;
use crate::text::{decimal_seq, push_char, push_decimal, push_str, string_of};
use crate::width::{str_width, unicode_str_width};

verus! {

/// A button of the player bar.
#[derive(Debug, Clone, Copy, PartialEq, Eq, Structural)]
pub enum ControlHit {
    Mode,
    Previous,
    PlayPause,
    Next,
    Volume,
}

/// The buttons in order, with the columns each wants.
pub open spec fn control_specs() -> Seq<(ControlHit, u16)> {
    seq![
        (ControlHit::Mode, 8u16),
        (ControlHit::Previous, 8u16),
        (ControlHit::PlayPause, 8u16),
        (ControlHit::Next, 8u16),
        (ControlHit::Volume, 13u16),
    ]
}

/// The buttons laid out from `x`: each as wide as it wants, cut at `right`.
pub open spec fn layout_spec(x: u16, y: u16, right: u16, specs: Seq<(ControlHit, u16)>) -> Seq<(ControlHit, Rect)>
    decreases specs.len(),
{
    if specs.len() == 0 {
        Seq::empty()
    } else {
        let room = sat_sub16(right, x);
        let width = if specs[0].1 <= room { specs[0].1 } else { room };
        seq![(specs[0].0, Rect { x, y, width, height: 1 })] + layout_spec(
            sat_add16(x, width),
            y,
            right,
            specs.drop_first(),
        )
    }
}

/// The button boxes of the bar in `area`.
pub open spec fn control_rects_spec(area: Rect) -> Seq<(ControlHit, Rect)> {
    layout_spec(area.x, area.y, area.spec_right(), control_specs())
}

/// The button boxes of the bar in `area`, left to right.
pub fn control_rects(area: Rect) -> (r: Vec<(ControlHit, Rect)>)
    ensures
        r@ == control_rects_spec(area),
{
    let specs: Vec<(ControlHit, u16)> = vec![
        (ControlHit::Mode, 8),
        (ControlHit::Previous, 8),
        (ControlHit::PlayPause, 8),
        (ControlHit::Next, 8),
        (ControlHit::Volume, 13),
    ];
    assert(specs@ =~= control_specs());
    let right = area.right();
    let mut x = area.x;
    let mut out: Vec<(ControlHit, Rect)> = Vec::new();
    let mut i: usize = 0;
    assert(specs@.skip(0) =~= specs@);
    while i < specs.len()
        invariant
            i <= specs@.len(),
            specs@ == control_specs(),
            right == area.spec_right(),
            control_rects_spec(area) == out@ + layout_spec(x, area.y, right, specs@.skip(i as int)),
        decreases specs@.len() - i,
    {
        let ghost rest = specs@.skip(i as int);
        assert(rest[0] == specs@[i as int]);
        assert(rest.drop_first() =~= specs@.skip(i + 1));
        let (hit, want) = specs[i];
        let room = right.saturating_sub(x);
        let width = if want <= room { want } else { room };
        let entry = (hit, Rect::new(x, area.y, width, 1));
        let ghost before = out@;
        out.push(entry);
        assert(before + (seq![entry] + layout_spec(sat_add16(x, width), area.y, right, specs@.skip(i + 1)))
            =~= out@ + layout_spec(sat_add16(x, width), area.y, right, specs@.skip(i + 1)));
        x = x.saturating_add(width);
        i = i + 1;
    }
    assert(specs@.skip(i as int) =~= Seq::<(ControlHit, u16)>::empty());
    assert(out@ + Seq::<(ControlHit, Rect)>::empty() =~= out@);
    out
}

/// The first button whose box holds the cell, if any.
pub open spec fn first_hit(rects: Seq<(ControlHit, Rect)>, p: Position) -> Option<ControlHit>
    decreases rects.len(),
{
    if rects.len() == 0 {
        None
    } else if rects[0].1.spec_contains(p) {
        Some(rects[0].0)
    } else {
        first_hit(rects.drop_first(), p)
    }
}

/// The button under `column` on the bar's row.
pub fn control_at(area: Rect, column: u16) -> (r: Option<ControlHit>)
    ensures
        r == first_hit(control_rects_spec(area), Position { x: column, y: area.y }),
{
    let rects = control_rects(area);
    let p = Position::new(column, area.y);
    let mut i: usize = 0;
    assert(rects@.skip(0) =~= rects@);
    while i < rects.len()
        invariant
            i <= rects@.len(),
            rects@ == control_rects_spec(area),
            p == (Position { x: column, y: area.y }),
            first_hit(rects@, p) == first_hit(rects@.skip(i as int), p),
        decreases rects@.len() - i,
    {
        assert(rects@.skip(i as int)[0] == rects@[i as int]);
        assert(rects@.skip(i as int).drop_first() =~= rects@.skip(i + 1));
        let (hit, rect) = rects[i];
        if rect.contains(p) {
            return Some(hit);
        }
        i = i + 1;
    }
    None
}

proof fn lemma_layout_len(x: u16, y: u16, right: u16, specs: Seq<(ControlHit, u16)>)
    ensures
        layout_spec(x, y, right, specs).len() == specs.len(),
        forall|i: int| 0 <= i < specs.len() ==> #[trigger] layout_spec(x, y, right, specs)[i].0 == specs[i].0,
    decreases specs.len(),
{
    if specs.len() > 0 {
        let room = sat_sub16(right, x);
        let width = if specs[0].1 <= room { specs[0].1 } else { room };
        lemma_layout_len(sat_add16(x, width), y, right, specs.drop_first());
        let l = layout_spec(x, y, right, specs);
        assert forall|i: int| 0 <= i < specs.len() implies #[trigger] l[i].0 == specs[i].0 by {
            if i > 0 {
                assert(l[i] == layout_spec(sat_add16(x, width), y, right, specs.drop_first())[i - 1]);
            }
        }
    }
}

/// The volume button's box: the last of the bar.
pub open spec fn volume_rect(area: Rect) -> Rect {
    control_rects_spec(area)[4].1
}

/// The width of the volume button.
pub fn volume_width(area: Rect) -> (w: u16)
    ensures
        w == volume_rect(area).width,
{
    let rects = control_rects(area);
    proof {
        lemma_layout_len(area.x, area.y, area.spec_right(), control_specs());
    }
    rects[4].1.width
}

/// How far into the volume button `column` is, when it is on it.
pub fn volume_offset(area: Rect, column: u16) -> (r: Option<u16>)
    ensures
        r == if volume_rect(area).spec_contains(Position { x: column, y: area.y }) {
            Some(sat_sub16(column, volume_rect(area).x))
        } else {
            None::<u16>
        },
{
    let rects = control_rects(area);
    proof {
        lemma_layout_len(area.x, area.y, area.spec_right(), control_specs());
    }
    let rect = rects[4].1;
    if rect.contains(Position::new(column, area.y)) {
        Some(column.saturating_sub(rect.x))
    } else {
        None
    }
}

/// Where a click on the progress row seeks, as a fraction
/// (`offset`, `span`) of the song: the bar starts six columns in, leaves
/// five columns for the time on each side, and is at least one column
/// wide; `offset` is how far into the bar the click is, at most `span`.
/// None when the length is unknown or the click misses the row.
pub open spec fn seek_fraction_spec(area: Rect, column: u16, has_duration: bool) -> Option<(u16, u16)> {
    if !has_duration || area.width == 0 || column < area.x || column >= area.spec_right() {
        None
    } else {
        let bar_width = if sat_sub16(area.width, 12) >= 1 { sat_sub16(area.width, 12) } else { 1 };
        let bar_x = (area.x + 6) as u16;
        let last = sat_sub16(bar_width, 1);
        let offset = if sat_sub16(column, bar_x) <= last { sat_sub16(column, bar_x) } else { last };
        Some((offset, if last >= 1 { last } else { 1 }))
    }
}

/// The seek fraction of a click on the progress row.
pub fn seek_fraction(area: Rect, column: u16, has_duration: bool) -> (r: Option<(u16, u16)>)
    requires
        (has_duration && area.width != 0 && area.x <= column < area.spec_right()) ==> area.x + 6 <= u16::MAX,
    ensures
        r == seek_fraction_spec(area, column, has_duration),
{
    if !has_duration || area.width == 0 || column < area.x || column >= area.right() {
        return None;
    }
    let narrowed = area.width.saturating_sub(12);
    let bar_width = if narrowed >= 1 { narrowed } else { 1 };
    let bar_x = area.x + 6;
    let last = bar_width.saturating_sub(1);
    let into = column.saturating_sub(bar_x);
    let offset = if into <= last { into } else { last };
    Some((offset, if last >= 1 { last } else { 1 }))
}


/// Text cut to `max` columns with an ellipsis; nothing for zero columns and
/// only the ellipsis for one.
pub open spec fn cut_spec(text: Seq<char>, max: nat) -> Seq<char> {
    if unicode_str_width(text) <= max {
        text
    } else if max == 0 {
        Seq::empty()
    } else if max == 1 {
        seq!['…']
    } else {
        truncate_spec(text, max)
    }
}

/// Text cut to fit.
pub fn cut(text: &str, max: usize) -> (s: String)
    ensures
        s@ == cut_spec(text@, max as nat),
{
    if str_width(text) <= max {
        return string_of(text);
    }
    if max == 0 {
        return String::new();
    }
    if max == 1 {
        let mut s = String::new();
        push_char(&mut s, '…');
        return s;
    }
    truncate_to_width(text, max)
}

/// The playing order, as the mode button names it.
#[derive(Debug, Clone, Copy, PartialEq, Eq, Structural)]
pub enum PlayMode {
    Sequential,
    ListLoop,
    SingleLoop,
    Random,
}

pub open spec fn mode_label_spec(mode: PlayMode) -> Seq<char> {
    match mode {
        PlayMode::Random => "随机"@,
        PlayMode::SingleLoop => "单曲"@,
        PlayMode::ListLoop => "列表"@,
        PlayMode::Sequential => "顺序"@,
    }
}

/// `s` padded on the left with spaces to `n` characters (`{:>n}`).
pub open spec fn left_pad_spec(s: Seq<char>, n: nat) -> Seq<char> {
    if s.len() >= n {
        s
    } else {
        spaces((n - s.len()) as nat) + s
    }
}

/// The labels of the five buttons: the order, back, play or pause, next,
/// and the volume right-aligned in three characters.
pub open spec fn control_labels_spec(mode: PlayMode, playing: bool, volume: u32) -> Seq<Seq<char>> {
    seq![
        " "@ + mode_label_spec(mode) + " "@,
        "  <<  "@,
        "  "@ + (if playing { "暂停"@ } else { "播放"@ }) + "  "@,
        "  >>  "@,
        "  音量 "@ + left_pad_spec(decimal_seq(volume as nat), 3) + "%  "@,
    ]
}

/// The labels of the five buttons.
pub fn control_labels(mode: PlayMode, playing: bool, volume: u32) -> (r: Vec<String>)
    ensures
        r@.map_values(|l: String| l@) == control_labels_spec(mode, playing, volume),
{
    let mut m = string_of(" ");
    push_str(&mut m, match mode {
        PlayMode::Random => "随机",
        PlayMode::SingleLoop => "单曲",
        PlayMode::ListLoop => "列表",
        PlayMode::Sequential => "顺序",
    });
    push_str(&mut m, " ");
    let mut p = string_of("  ");
    push_str(&mut p, if playing { "暂停" } else { "播放" });
    push_str(&mut p, "  ");
    let mut v = string_of("  音量 ");
    let digits = crate::text::decimal_string(volume as u64);
    let n = digits.as_str().unicode_len();
    if n < 3 {
        push_spaces(&mut v, 3 - n);
    }
    push_str(&mut v, digits.as_str());
    push_str(&mut v, "%  ");
    proof {
        assert(v@ =~= "  音量 "@ + left_pad_spec(decimal_seq(volume as nat), 3) + "%  "@);
    }
    let r = vec![m, string_of("  <<  "), p, string_of("  >>  "), v];
    assert(r@.map_values(|l: String| l@) =~= control_labels_spec(mode, playing, volume));
    r
}

/// A button's text in a box `w` columns wide: cut when wider, else padded
/// with spaces to `w` characters.
pub open spec fn cell_text_spec(label: Seq<char>, w: nat) -> Seq<char> {
    if unicode_str_width(label) > w {
        cut_spec(label, w)
    } else {
        pad_spec(label, w)
    }
}

/// The columns `texts` take together.
pub open spec fn widths_sum(texts: Seq<Seq<char>>) -> int
    decreases texts.len(),
{
    if texts.len() == 0 {
        0
    } else {
        widths_sum(texts.drop_last()) + unicode_str_width(texts.last())
    }
}

/// The buttons' texts in their boxes of the bar in `area`, and the spaces
/// that fill the rest of the row.
pub fn control_cells(area: Rect, labels: &Vec<String>) -> (r: (Vec<String>, usize))
    requires
        labels@.len() == 5,
    ensures
        r.0@.len() == 5,
        forall|i: int| 0 <= i < 5 ==> #[trigger] r.0@[i]@ == cell_text_spec(labels@[i]@, control_rects_spec(area)[i].1.width as nat),
        r.1 == if widths_sum(r.0@.map_values(|t: String| t@)) < area.width {
            area.width - widths_sum(r.0@.map_values(|t: String| t@))
        } else {
            0
        },
{
    let rects = control_rects(area);
    proof {
        lemma_layout_len(area.x, area.y, area.spec_right(), control_specs());
    }
    let mut out: Vec<String> = Vec::new();
    let mut used: u128 = 0;
    let mut i: usize = 0;
    while i < 5
        invariant
            i <= 5,
            labels@.len() == 5,
            rects@ == control_rects_spec(area),
            rects@.len() == 5,
            out@.len() == i,
            forall|k: int| 0 <= k < i ==> #[trigger] out@[k]@ == cell_text_spec(labels@[k]@, control_rects_spec(area)[k].1.width as nat),
            used == widths_sum(out@.map_values(|t: String| t@)),
            used <= i * 0x1_0000_0000_0000_0000,
        decreases 5 - i,
    {
        let w = rects[i].1.width as usize;
        let label = &labels[i];
        let text = if str_width(label.as_str()) > w {
            cut(label.as_str(), w)
        } else {
            let mut t = label.clone();
            let n = label.as_str().unicode_len();
            if n < w {
                push_spaces(&mut t, w - n);
            }
            assert(t@ =~= pad_spec(labels@[i as int]@, w as nat));
            t
        };
        let tw = str_width(text.as_str());
        let ghost prev = out@;
        out.push(text);
        assert(out@.map_values(|t: String| t@).drop_last() =~= prev.map_values(|t: String| t@));
        used = used + tw as u128;
        i = i + 1;
    }
    let fill: usize = if used < area.width as u128 { (area.width as u128 - used) as usize } else { 0 };
    (out, fill)
}

/// The meta row: queue position, order, state, whether the song is a
/// favorite and whether downloads run, cut to the width.
pub open spec fn meta_text_spec(queue_len: nat, current: nat, mode: Seq<char>, state: PlayerState, favorite: bool, downloading: bool, width: nat) -> Seq<char> {
    let state_word = match state {
        PlayerState::Playing => "播放中"@,
        PlayerState::Loading => "缓冲"@,
        PlayerState::Paused => "暂停"@,
        _ => "待机"@,
    };
    cut_spec(
        " 队列 "@ + decimal_seq(if queue_len == 0 { 0 } else { current + 1 }) + "/"@ + decimal_seq(queue_len) + "  ·  "@ + mode
            + "  ·  "@ + state_word + "  ·  "@ + (if favorite { "已收藏"@ } else { "未收藏"@ }) + "  ·  "@ + (if downloading {
            "下载中"@
        } else {
            "无下载任务"@
        }),
        width,
    )
}

/// The meta row of the player bar.
pub fn meta_text(queue_len: u64, current: u64, mode: &str, state: PlayerState, favorite: bool, downloading: bool, width: u16) -> (s: String)
    requires
        queue_len > 0 ==> current < u64::MAX,
    ensures
        s@ == meta_text_spec(queue_len as nat, current as nat, mode@, state, favorite, downloading, width as nat),
{
    let mut t = string_of(" 队列 ");
    push_decimal(&mut t, if queue_len == 0 { 0 } else { current + 1 });
    push_str(&mut t, "/");
    push_decimal(&mut t, queue_len);
    push_str(&mut t, "  ·  ");
    push_str(&mut t, mode);
    push_str(&mut t, "  ·  ");
    push_str(&mut t, match state {
        PlayerState::Playing => "播放中",
        PlayerState::Loading => "缓冲",
        PlayerState::Paused => "暂停",
        _ => "待机",
    });
    push_str(&mut t, "  ·  ");
    push_str(&mut t, if favorite { "已收藏" } else { "未收藏" });
    push_str(&mut t, "  ·  ");
    push_str(&mut t, if downloading { "下载中" } else { "无下载任务" });
    cut(t.as_str(), width as usize)
}

/// The progress row for a bar `width` wide: the position, the bar with its
/// marker `marker` cells in, and the length; none under twelve columns.
pub open spec fn progress_line_spec(width: u16, position_secs: nat, duration_secs: nat, marker: nat) -> Option<Seq<char>> {
    if width < 12 {
        None
    } else {
        let bar = if sat_sub16(width, 12) >= 1 { sat_sub16(width, 12) as nat } else { 1 };
        let empty = if bar >= marker + 1 { (bar - marker - 1) as nat } else { 0 };
        Some(clock_spec(position_secs) + " "@ + Seq::new(marker, |i: int| '━') + "●"@ + Seq::new(empty, |i: int| '─') + " "@
            + clock_spec(duration_secs))
    }
}

/// The progress row; `marker` is how far the position is into the bar, in
/// cells.
pub fn progress_line(width: u16, position_secs: u64, duration_secs: u64, marker: usize) -> (r: Option<String>)
    requires
        width >= 12 ==> marker < usize::MAX,
    ensures
        match r {
            Some(s) => progress_line_spec(width, position_secs as nat, duration_secs as nat, marker as nat) == Some(s@),
            None => progress_line_spec(width, position_secs as nat, duration_secs as nat, marker as nat) is None,
        },
{
    if width < 12 {
        return None;
    }
    let narrowed = width.saturating_sub(12);
    let bar: usize = if narrowed >= 1 { narrowed as usize } else { 1 };
    let empty = bar.saturating_sub(marker + 1);
    let mut s = format_clock(position_secs);
    push_str(&mut s, " ");
    let ghost start = s@;
    let mut k: usize = 0;
    while k < marker
        invariant
            k <= marker,
            s@ == start + Seq::new(k as nat, |i: int| '━'),
        decreases marker - k,
    {
        push_char(&mut s, '━');
        assert(s@ =~= start + Seq::new((k + 1) as nat, |i: int| '━'));
        k = k + 1;
    }
    push_str(&mut s, "●");
    let ghost mid = s@;
    let mut j: usize = 0;
    while j < empty
        invariant
            j <= empty,
            s@ == mid + Seq::new(j as nat, |i: int| '─'),
        decreases empty - j,
    {
        push_char(&mut s, '─');
        assert(s@ =~= mid + Seq::new((j + 1) as nat, |i: int| '─'));
        j = j + 1;
    }
    push_str(&mut s, " ");
    let d = format_clock(duration_secs);
    push_str(&mut s, d.as_str());
    proof {
        assert(s@ =~= progress_line_spec(width, position_secs as nat, duration_secs as nat, marker as nat)->0);
    }
    Some(s)
}


/// What the song row says of the current song; the source and quality as
/// the interface names them.
#[derive(Debug, Clone)]
pub struct SongLabels {
    pub title: String,
    pub singer: String,
    pub album: String,
    pub source: String,
    pub quality: String,
}

/// The pieces joined into one text.
pub open spec fn concat(parts: Seq<Seq<char>>) -> Seq<char>
    decreases parts.len(),
{
    if parts.len() == 0 {
        Seq::empty()
    } else {
        concat(parts.drop_last()) + parts.last()
    }
}

/// Adds each candidate piece in turn while the row is still narrower than
/// `width`.
pub open spec fn add_pieces(row: Seq<Seq<char>>, candidates: Seq<Seq<char>>, width: nat) -> Seq<Seq<char>>
    decreases candidates.len(),
{
    if candidates.len() == 0 {
        row
    } else {
        let next = if unicode_str_width(concat(row)) < width { row.push(candidates[0]) } else { row };
        add_pieces(next, candidates.drop_first(), width)
    }
}

/// The song row (nothing on a bar of no width): the title cut to the width less eight, then the singer
/// and album (when known), the source with the quality, and the state in
/// brackets, each while the row is narrower than the bar; then spaces to
/// the bar's width.
pub open spec fn song_line_spec(song: Option<SongLabels>, state: PlayerState, width: nat) -> Seq<Seq<char>> {
    if width == 0 {
        Seq::empty()
    } else {
        song_row_spec(song, state, width)
    }
}

/// The song row on a bar of positive width.
pub open spec fn song_row_spec(song: Option<SongLabels>, state: PlayerState, width: nat) -> Seq<Seq<char>> {
    let (title, singer, album, source, quality) = match song {
        Some(s) => (s.title@, s.singer@, s.album@, s.source@, s.quality@),
        None => ("暂无播放"@, Seq::empty(), Seq::empty(), "-"@, "-"@),
    };
    let state_word = match state {
        PlayerState::Playing => "播放中"@,
        PlayerState::Loading => "缓冲中"@,
        PlayerState::Paused => "已暂停"@,
        _ => "待机"@,
    };
    let candidates = (if singer.len() > 0 { seq!["  ·  "@ + singer] } else { Seq::empty() }) + (if album.len() > 0 {
        seq!["  ·  "@ + album]
    } else {
        Seq::empty()
    }) + seq!["  ·  "@ + source + " · "@ + quality, "  ["@ + state_word + "]"@];
    let row = add_pieces(seq![cut_spec(title, if width >= 8 { (width - 8) as nat } else { 0 })], candidates, width);
    let w = unicode_str_width(concat(row)) as nat;
    if w < width {
        row.push(spaces((width - w) as nat))
    } else {
        row
    }
}

/// The song row's pieces.
pub fn song_line(song: Option<&SongLabels>, state: PlayerState, width: u16) -> (r: Vec<String>)
    ensures
        r@.map_values(|t: String| t@) == song_line_spec(
            match song {
                Some(s) => Some(*s),
                None => None,
            },
            state,
            width as nat,
        ),
{
    if width == 0 {
        return Vec::new();
    }
    let (title, singer, album, source, quality) = match song {
        Some(s) => (s.title.clone(), s.singer.clone(), s.album.clone(), s.source.clone(), s.quality.clone()),
        None => (string_of("暂无播放"), String::new(), String::new(), string_of("-"), string_of("-")),
    };
    let state_word = match state {
        PlayerState::Playing => "播放中",
        PlayerState::Loading => "缓冲中",
        PlayerState::Paused => "已暂停",
        _ => "待机",
    };
    let mut candidates: Vec<String> = Vec::new();
    if singer.as_str().unicode_len() > 0 {
        let mut t = string_of("  ·  ");
        push_str(&mut t, singer.as_str());
        candidates.push(t);
    }
    if album.as_str().unicode_len() > 0 {
        let mut t = string_of("  ·  ");
        push_str(&mut t, album.as_str());
        candidates.push(t);
    }
    let mut src = string_of("  ·  ");
    push_str(&mut src, source.as_str());
    push_str(&mut src, " · ");
    push_str(&mut src, quality.as_str());
    candidates.push(src);
    let mut st = string_of("  [");
    push_str(&mut st, state_word);
    push_str(&mut st, "]");
    candidates.push(st);
    let ghost cands = candidates@.map_values(|t: String| t@);
    proof {
        let sw: Seq<char> = match state {
            PlayerState::Playing => "播放中"@,
            PlayerState::Loading => "缓冲中"@,
            PlayerState::Paused => "已暂停"@,
            _ => "待机"@,
        };
        assert(cands =~= (if singer@.len() > 0 { seq!["  ·  "@ + singer@] } else { Seq::empty() }) + (if album@.len() > 0 {
            seq!["  ·  "@ + album@]
        } else {
            Seq::empty()
        }) + seq!["  ·  "@ + source@ + " · "@ + quality@, "  ["@ + sw + "]"@]);
    }
    let w = width as usize;
    let first = cut(title.as_str(), w.saturating_sub(8));
    let mut joined = first.clone();
    let ghost first_view = first@;
    let mut row: Vec<String> = Vec::new();
    row.push(first);
    proof {
        let rv = row@.map_values(|t: String| t@);
        assert(rv =~= seq![first_view]);
        assert(rv.drop_last() =~= Seq::<Seq<char>>::empty());
        assert(concat(rv.drop_last()) =~= Seq::<char>::empty());
        assert(concat(rv) =~= joined@);
        assert(w as nat == width as nat);
        assert(first_view == cut_spec(title@, if w >= 8 { (w - 8) as nat } else { 0 }));
        assert(rv =~= seq![cut_spec(title@, if w >= 8 { (w - 8) as nat } else { 0 })]);
    }
    let mut i: usize = 0;
    assert(cands.skip(0) =~= cands);
    while i < candidates.len()
        invariant
            i <= candidates@.len(),
            cands == candidates@.map_values(|t: String| t@),
            w == width as usize,
            concat(row@.map_values(|t: String| t@)) == joined@,
            add_pieces(row@.map_values(|t: String| t@), cands.skip(i as int), w as nat) == add_pieces(
                seq![cut_spec(title@, if w >= 8 { (w - 8) as nat } else { 0 })],
                cands,
                w as nat,
            ),
        decreases candidates@.len() - i,
    {
        let ghost before = row@.map_values(|t: String| t@);
        assert(cands.skip(i as int)[0] == cands[i as int]);
        assert(cands.skip(i as int).drop_first() =~= cands.skip(i + 1));
        if str_width(joined.as_str()) < w {
            let piece = candidates[i].clone();
            push_str(&mut joined, piece.as_str());
            let ghost prev = row@;
            row.push(piece);
            assert(row@.map_values(|t: String| t@) =~= before.push(cands[i as int]));
            assert(row@.map_values(|t: String| t@).drop_last() =~= before);
        }
        i = i + 1;
    }
    assert(cands.skip(i as int) =~= Seq::<Seq<char>>::empty());
    let total = str_width(joined.as_str());
    if total < w {
        let mut pad = String::new();
        push_spaces(&mut pad, w - total);
        assert(pad@ =~= spaces((w - total) as nat));
        let ghost before = row@.map_values(|t: String| t@);
        row.push(pad);
        assert(row@.map_values(|t: String| t@) =~= before.push(spaces((w - total) as nat)));
    }
    row
}

} // verus!
