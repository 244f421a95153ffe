//! The columns of song lists: a header and one row per song, each cell cut
//! or padded to its width in terminal columns.

use vstd::prelude::*;
use crate::download::manager::Quality;
use crate::song::SongInfo;
use crate::text::{chars_of, decimal2_seq, decimal_seq, push_char, push_decimal, push_decimal2, push_str, string_of, trim_seq};
use crate::width::{char_width, column_width, str_width, unicode_str_width};

verus! {

broadcast use vstd::string::group_string_axioms;

/// `n` spaces.
pub open spec fn spaces(n: nat) -> Seq<char> {
    Seq::new(n, |i: int| ' ')
}

pub(crate) fn push_spaces(s: &mut String, n: usize)
    ensures
        final(s)@ == old(s)@ + spaces(n as nat),
{
    let mut k: usize = 0;
    while k < n
        invariant
            k <= n,
            s@ == old(s)@ + spaces(k as nat),
        decreases n - k,
    {
        push_char(s, ' ');
        assert(spaces((k + 1) as nat) =~= spaces(k as nat).push(' '));
        k = k + 1;
    }
}

/// How many leading characters fit in `max` columns, taken while they fit.
pub open spec fn fit_count(cs: Seq<char>, used: nat, max: nat) -> nat
    decreases cs.len(),
{
    if cs.len() == 0 {
        0
    } else if used + column_width(cs[0]) > max {
        0
    } else {
        1 + fit_count(cs.drop_first(), used + column_width(cs[0]), max)
    }
}

/// The columns those characters take.
pub open spec fn fit_width(cs: Seq<char>, used: nat, max: nat) -> nat
    decreases cs.len(),
{
    if cs.len() == 0 {
        used
    } else if used + column_width(cs[0]) > max {
        used
    } else {
        fit_width(cs.drop_first(), used + column_width(cs[0]), max)
    }
}

/// One cell: the trimmed value padded with spaces to `width` columns, or
/// cut with an ellipsis when it is wider.
pub open spec fn cell_spec(value: Seq<char>, width: nat) -> Seq<char> {
    let v = trim_seq(value);
    let vw = unicode_str_width(v) as nat;
    if width == 0 {
        Seq::empty()
    } else if vw <= width {
        v + spaces((width - vw) as nat)
    } else if width == 1 {
        seq!['…']
    } else {
        let content = (width - 1) as nat;
        let n = fit_count(v, 0, content);
        let used = fit_width(v, 0, content);
        v.take(n as int).push('…') + spaces(if width >= used + 1 { (width - used - 1) as nat } else { 0 })
    }
}

/// One cell of `width` columns.
pub fn cell(value: &str, width: usize) -> (s: String)
    ensures
        s@ == cell_spec(value@, width as nat),
{
    if width == 0 {
        return String::new();
    }
    let v = crate::text::trim(value);
    let vw = str_width(v.as_str());
    if vw <= width {
        let mut s = v;
        push_spaces(&mut s, width - vw);
        return s;
    }
    if width == 1 {
        let mut s = String::new();
        push_char(&mut s, '…');
        return s;
    }
    let content = width - 1;
    let cs = chars_of(v.as_str());
    let mut out = String::new();
    let mut used: usize = 0;
    let mut i: usize = 0;
    assert(cs@.skip(0) =~= cs@);
    while i < cs.len()
        invariant
            i <= cs@.len(),
            used <= content,
            out@ == cs@.take(i as int),
            fit_count(cs@, 0, content as nat) == i + fit_count(cs@.skip(i as int), used as nat, content as nat),
            fit_width(cs@, 0, content as nat) == fit_width(cs@.skip(i as int), used as nat, content as nat),
        ensures
            i == fit_count(cs@, 0, content as nat),
            used == fit_width(cs@, 0, content as nat),
            out@ == cs@.take(i as int),
        decreases cs@.len() - i,
    {
        let w: usize = match char_width(cs[i]) {
            Some(w) => w,
            None => 0,
        };
        assert(cs@.skip(i as int)[0] == cs@[i as int]);
        assert(cs@.skip(i as int).drop_first() =~= cs@.skip(i + 1));
        if w > content - used {
            break;
        }
        push_char(&mut out, cs[i]);
        assert(cs@.take(i + 1) =~= cs@.take(i as int).push(cs@[i as int]));
        used = used + w;
        i = i + 1;
    }
    push_char(&mut out, '…');
    push_spaces(&mut out, width.saturating_sub(used + 1));
    out
}

/// `name - singer` for the compact layout, or the name alone when the
/// singer is blank.
pub open spec fn compact_name_spec(name: Seq<char>, singer: Seq<char>) -> Seq<char> {
    if trim_seq(singer).len() == 0 {
        name
    } else {
        trim_seq(name) + " - "@ + trim_seq(singer)
    }
}

/// The columns of a list row for a terminal `width` wide: every column from
/// 96 columns, without album and quality from 64, and a compact
/// index-title-source row below that.
pub open spec fn format_columns_spec(
    width: nat,
    index: Seq<char>,
    name: Seq<char>,
    singer: Seq<char>,
    album: Seq<char>,
    duration: Seq<char>,
    quality: Seq<char>,
    source: Seq<char>,
) -> Seq<char> {
    if width >= 96 {
        let flexible = (width - 46) as nat;
        let name_width = (flexible + 1) / 2;
        let album_width = (flexible - name_width) as nat;
        cell_spec(index, 4) + cell_spec(name, name_width) + cell_spec(singer, 20) + cell_spec(album, album_width)
            + cell_spec(duration, 7) + cell_spec(quality, 8) + cell_spec(source, 7)
    } else if width >= 64 {
        let name_width = (width - 38) as nat;
        cell_spec(index, 4) + cell_spec(name, name_width) + cell_spec(singer, 20) + cell_spec(duration, 7)
            + cell_spec(source, 7)
    } else {
        let name_width = if width >= 11 { (width - 11) as nat } else { 0 };
        cell_spec(index, 4) + cell_spec(compact_name_spec(name, singer), name_width) + cell_spec(source, 7)
    }
}

fn push_cell(s: &mut String, value: &str, width: usize)
    ensures
        final(s)@ == old(s)@ + cell_spec(value@, width as nat),
{
    let c = cell(value, width);
    push_str(s, c.as_str());
}

/// The columns of a list row.
pub fn format_columns(
    width: usize,
    index: &str,
    name: &str,
    singer: &str,
    album: &str,
    duration: &str,
    quality: &str,
    source: &str,
) -> (s: String)
    ensures
        s@ == format_columns_spec(width as nat, index@, name@, singer@, album@, duration@, quality@, source@),
{
    let mut s = String::new();
    if width >= 96 {
        let flexible = width - 46;
        let name_width = flexible / 2 + flexible % 2;
        assert(name_width == (flexible + 1) / 2);
        let album_width = flexible - name_width;
        push_cell(&mut s, index, 4);
        push_cell(&mut s, name, name_width);
        push_cell(&mut s, singer, 20);
        push_cell(&mut s, album, album_width);
        push_cell(&mut s, duration, 7);
        push_cell(&mut s, quality, 8);
        push_cell(&mut s, source, 7);
        assert(s@ =~= format_columns_spec(width as nat, index@, name@, singer@, album@, duration@, quality@, source@));
        return s;
    }
    if width >= 64 {
        let name_width = width - 38;
        push_cell(&mut s, index, 4);
        push_cell(&mut s, name, name_width);
        push_cell(&mut s, singer, 20);
        push_cell(&mut s, duration, 7);
        push_cell(&mut s, source, 7);
        assert(s@ =~= format_columns_spec(width as nat, index@, name@, singer@, album@, duration@, quality@, source@));
        return s;
    }
    let name_width = width.saturating_sub(11);
    let singer_t = crate::text::trim(singer);
    let compact = if singer_t.as_str().unicode_len() == 0 {
        string_of(name)
    } else {
        let mut c = crate::text::trim(name);
        push_str(&mut c, " - ");
        push_str(&mut c, singer_t.as_str());
        c
    };
    push_cell(&mut s, index, 4);
    push_cell(&mut s, compact.as_str(), name_width);
    push_cell(&mut s, source, 7);
    assert(s@ =~= format_columns_spec(width as nat, index@, name@, singer@, album@, duration@, quality@, source@));
    s
}

/// The header row of song lists.
pub fn header(width: u16) -> (s: String)
    ensures
        s@ == format_columns_spec(width as nat, "#"@, "歌曲"@, "歌手"@, "专辑"@, "时长"@, "音质"@, "来源"@),
{
    format_columns(width as usize, "#", "歌曲", "歌手", "专辑", "时长", "音质", "来源")
}

/// A song length as `MM:SS`, or `--:--` when unknown (zero).
pub open spec fn format_duration_spec(secs: nat) -> Seq<char> {
    if secs == 0 {
        "--:--"@
    } else {
        decimal2_seq(secs / 60) + ":"@ + decimal2_seq(secs % 60)
    }
}

/// A song length as `MM:SS`.
pub fn format_duration(secs: u64) -> (s: String)
    ensures
        s@ == format_duration_spec(secs as nat),
{
    if secs == 0 {
        return string_of("--:--");
    }
    let mut s = String::new();
    push_decimal2(&mut s, secs / 60);
    push_str(&mut s, ":");
    push_decimal2(&mut s, secs % 60);
    s
}

/// A song's row: its 1-based position, title, singer, album, length, best
/// quality (`-` when none is listed) and source.
pub fn row(song: &SongInfo, index: usize, width: u16) -> (s: String)
    requires
        index < usize::MAX,
    ensures
        s@ == format_columns_spec(
            width as nat,
            decimal_seq((index + 1) as nat),
            song.name@,
            song.singer@,
            song.album_name@,
            format_duration_spec(song.duration_secs as nat),
            if song.qualities@.len() == 0 {
                "-"@
            } else {
                song.qualities@.last().spec_label()
            },
            song.source@,
        ),
{
    let mut idx = String::new();
    push_decimal(&mut idx, (index + 1) as u64);
    let duration = format_duration(song.duration_secs);
    let quality = if song.qualities.len() == 0 {
        "-"
    } else {
        song.qualities[song.qualities.len() - 1].label()
    };
    format_columns(
        width as usize,
        idx.as_str(),
        song.name.as_str(),
        song.singer.as_str(),
        song.album_name.as_str(),
        duration.as_str(),
        quality,
        song.source.as_str(),
    )
}

} // verus!
