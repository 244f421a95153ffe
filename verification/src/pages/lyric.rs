//! The lyric panel: which lines show on which rows around the current
//! one, where its translation goes, and how each line is cut to fit.

use vstd::prelude::*;
use crate::pages::downloads::{truncate_spec, truncate_to_width};
use crate::text::{push_char, push_str, string_of, trim, trim_seq};
use crate::width::{str_width, unicode_str_width};

verus! {

broadcast use vstd::string::group_string_axioms;

/// A lyric line placed on a row of the panel, and how far it is from the
/// current line (which the panel dims by).
#[derive(Debug, Clone, Copy, PartialEq, Eq, Structural)]
pub struct LyricRow {
    pub line: usize,
    pub row: usize,
    pub distance: usize,
}

/// Whether the translation of the current line shows: there is one and a
/// row below the middle one.
pub open spec fn translation_shown(visible: int, has_translation: bool) -> bool {
    has_translation && visible / 2 + 1 < visible
}

/// The row of lyric line `line`: the current line sits on the middle row,
/// earlier lines above it, later ones below it and below the translation
/// when that shows.
pub open spec fn row_of(line: int, current: int, visible: int, has_translation: bool) -> int {
    let middle = visible / 2;
    if line <= current {
        middle + (line - current)
    } else {
        middle + (line - current) + if translation_shown(visible, has_translation) { 1int } else { 0 }
    }
}

/// `|a - b|`.
pub open spec fn distance(a: int, b: int) -> int {
    if a >= b {
        a - b
    } else {
        b - a
    }
}

/// The placed lines among lines `start` up to (not including) `end`, in
/// order: those whose row lies on the panel.
pub open spec fn rows_between(start: int, end: int, current: int, visible: int, has_translation: bool) -> Seq<LyricRow>
    decreases end - start,
{
    if end <= start {
        Seq::empty()
    } else {
        let prev = rows_between(start, end - 1, current, visible, has_translation);
        let r = row_of(end - 1, current, visible, has_translation);
        if 0 <= r < visible {
            prev.push(LyricRow { line: (end - 1) as usize, row: r as usize, distance: distance(end - 1, current) as usize })
        } else {
            prev
        }
    }
}

/// The lines the panel shows: from the middle row's worth before the
/// current line to as many after it as the panel has rows (and one more),
/// within the song's lines; none when the panel has no rows.
pub open spec fn lyric_rows_spec(line_count: int, current: int, visible: int, has_translation: bool) -> Seq<LyricRow> {
    if visible == 0 {
        Seq::empty()
    } else {
        let middle = visible / 2;
        let start = if current >= middle { current - middle } else { 0 };
        let end = if current + visible + 1 <= line_count { current + visible + 1 } else { line_count };
        rows_between(start, end, current, visible, has_translation)
    }
}

/// The lines of the lyric panel and their rows.
pub fn lyric_rows(line_count: usize, current: usize, visible: usize, has_translation: bool) -> (r: Vec<LyricRow>)
    requires
        visible > 0 ==> current + visible + 1 <= usize::MAX,
    ensures
        r@ == lyric_rows_spec(line_count as int, current as int, visible as int, has_translation),
{
    let mut out: Vec<LyricRow> = Vec::new();
    if visible == 0 {
        return out;
    }
    let middle = visible / 2;
    let shown = has_translation && middle + 1 < visible;
    let start = current.saturating_sub(middle);
    let upper = current + visible + 1;
    let end = if upper <= line_count { upper } else { line_count };
    let mut line = start;
    while line < end
        invariant
            visible > 0,
            start == (if current >= middle { current - middle } else { 0int }),
            end == (if current + visible + 1 <= line_count { current + visible + 1 } else { line_count as int }),
            start <= line,
            line <= end || end < start,
            end < start ==> line == start,
            middle == visible / 2,
            shown == translation_shown(visible as int, has_translation),
            current + visible + 1 <= usize::MAX,
            end <= current + visible + 1,
            out@ == rows_between(start as int, line as int, current as int, visible as int, has_translation),
        decreases end - line,
    {
        let (row_ok, row) = if line <= current {
            let back = current - line;
            if back <= middle {
                (true, middle - back)
            } else {
                (false, 0)
            }
        } else {
            let ahead = line - current;
            let need = ahead + if shown { 1 } else { 0 };
            let room = visible - middle;
            if need < room {
                (true, middle + need)
            } else {
                (false, 0)
            }
        };
        let d = if line >= current { line - current } else { current - line };
        proof {
            let r = row_of(line as int, current as int, visible as int, has_translation);
            assert(row_ok == (0 <= r < visible));
            assert(row_ok ==> row == r);
            assert(rows_between(start as int, line + 1, current as int, visible as int, has_translation)
                == if 0 <= r < visible {
                    out@.push(LyricRow { line, row: r as usize, distance: d })
                } else {
                    out@
                });
        }
        if row_ok {
            out.push(LyricRow { line, row, distance: d });
        }
        line = line + 1;
    }
    proof {
        if end < start {
            assert(rows_between(start as int, end as int, current as int, visible as int, has_translation) =~= Seq::<LyricRow>::empty());
            assert(out@ =~= Seq::<LyricRow>::empty());
        } else {
            assert(line == end);
        }
        assert(lyric_rows_spec(line_count as int, current as int, visible as int, has_translation)
            == rows_between(start as int, end as int, current as int, visible as int, has_translation));
    }
    out
}

/// The row of the current line's translation, when it shows.
pub fn translation_row(visible: usize, has_translation: bool) -> (r: Option<usize>)
    ensures
        r == if visible > 0 && translation_shown(visible as int, has_translation) {
            Some((visible / 2 + 1) as usize)
        } else {
            None::<usize>
        },
{
    if visible > 0 && has_translation && visible / 2 + 1 < visible {
        Some(visible / 2 + 1)
    } else {
        None
    }
}

/// A lyric text trimmed and cut to `max` columns with an ellipsis; a width
/// of zero leaves nothing and of one only the ellipsis.
pub open spec fn lyric_cut_spec(text: Seq<char>, max: nat) -> Seq<char> {
    let t = trim_seq(text);
    if unicode_str_width(t) <= max {
        t
    } else if max == 0 {
        Seq::empty()
    } else if max == 1 {
        seq!['…']
    } else {
        truncate_spec(t, max)
    }
}

/// A lyric text cut to fit.
pub fn lyric_cut(text: &str, max: usize) -> (s: String)
    ensures
        s@ == lyric_cut_spec(text@, max as nat),
{
    let t = trim(text);
    if str_width(t.as_str()) <= max {
        return t;
    }
    if max == 0 {
        return String::new();
    }
    if max == 1 {
        let mut s = String::new();
        push_char(&mut s, '…');
        return s;
    }
    truncate_to_width(t.as_str(), max)
}

/// The text of a placed line: a marker before the current line, two
/// spaces before the others, and the line cut to the panel less two.
pub open spec fn lyric_line_spec(text: Seq<char>, is_current: bool, width: u16) -> Seq<char> {
    (if is_current {
        "❯ "@
    } else {
        "  "@
    }) + lyric_cut_spec(text, if width >= 2 { (width - 2) as nat } else { 0 })
}

/// The text of a placed line.
pub fn lyric_line(text: &str, is_current: bool, width: u16) -> (s: String)
    ensures
        s@ == lyric_line_spec(text@, is_current, width),
{
    let mut s = if is_current {
        string_of("❯ ")
    } else {
        string_of("  ")
    };
    let cut = lyric_cut(text, width.saturating_sub(2) as usize);
    push_str(&mut s, cut.as_str());
    s
}

proof fn lemma_rows_between_has(start: int, end: int, current: int, visible: int, has_translation: bool, line: int)
    requires
        start <= line < end,
        0 <= line,
        0 <= row_of(line, current, visible, has_translation) < visible,
    ensures
        rows_between(start, end, current, visible, has_translation).contains(
            LyricRow {
                line: line as usize,
                row: row_of(line, current, visible, has_translation) as usize,
                distance: distance(line, current) as usize,
            },
        ),
    decreases end - start,
{
    let rows = rows_between(start, end, current, visible, has_translation);
    let prev = rows_between(start, end - 1, current, visible, has_translation);
    let want = LyricRow {
        line: line as usize,
        row: row_of(line, current, visible, has_translation) as usize,
        distance: distance(line, current) as usize,
    };
    if line == end - 1 {
        assert(rows.last() == want);
    } else {
        lemma_rows_between_has(start, end - 1, current, visible, has_translation, line);
        let i = choose|i: int| 0 <= i < prev.len() && prev[i] == want;
        assert(rows[i] == want);
    }
}

/// The current line is always shown, on the middle row.
pub proof fn lemma_current_line_in_middle(line_count: int, current: int, visible: int, has_translation: bool)
    requires
        0 <= current < line_count,
        visible > 0,
    ensures
        lyric_rows_spec(line_count, current, visible, has_translation).contains(
            LyricRow { line: current as usize, row: (visible / 2) as usize, distance: 0 },
        ),
{
    let middle = visible / 2;
    let start = if current >= middle { current - middle } else { 0 };
    let end = if current + visible + 1 <= line_count { current + visible + 1 } else { line_count };
    lemma_rows_between_has(start, end, current, visible, has_translation, current);
}

} // verus!
