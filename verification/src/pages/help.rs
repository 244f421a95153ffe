//! The key help overlay: its sections, scrolling and the keys that close it.

use vstd::prelude::*;
use crate::casefold::{to_lowercase, unicode_lowercase};
use crate::pages::input::{KeyCode, KeyEvent, MouseEvent, MouseEventKind};
use crate::pages::geometry::{sat_sub16, Rect};
use crate::pages::leaderboard::pad_spec;
use crate::pages::song_table::push_spaces;
use crate::text::{chars_of, decimal_seq, push_decimal, push_str, string_of};

verus! {

/// One group of keys (global, or one page's), as (key, what it does) pairs.
#[derive(Debug, Clone)]
pub struct Section {
    pub title: String,
    pub entries: Vec<(String, String)>,
}

/// The help overlay: its sections and the first line shown.
#[derive(Debug)]
pub struct HelpPage {
    sections: Vec<Section>,
    scroll: usize,
}

/// `min(scroll, total - visible)`: the scroll position that keeps the last
/// line at the bottom at most.
pub open spec fn clamp_scroll_spec(scroll: int, total: int, visible: int) -> int {
    let limit = if total >= visible {
        total - visible
    } else {
        0
    };
    if scroll <= limit {
        scroll
    } else {
        limit
    }
}

/// Keeps a scroll position within the content.
pub fn clamp_scroll(scroll: usize, total: usize, visible: usize) -> (r: usize)
    ensures
        r == clamp_scroll_spec(scroll as int, total as int, visible as int),
{
    let limit = total.saturating_sub(visible);
    if scroll <= limit {
        scroll
    } else {
        limit
    }
}

/// The lines the sections take: for each, a blank line, the title, its
/// entries and a blank line; and one more per section.
pub open spec fn line_total(sections: Seq<Section>) -> int
    decreases sections.len(),
{
    if sections.len() == 0 {
        0
    } else {
        line_total(sections.drop_last()) + sections.last().entries@.len() + 4
    }
}

/// The scroll step of each key of the overlay.
pub enum HelpKey {
    Close,
    Down(usize),
    Up(usize),
    Top,
    Bottom,
    Other,
}

/// What a key does in the overlay.
pub open spec fn help_key_spec(k: KeyEvent) -> HelpKey {
    if k.plain(KeyCode::Esc) || k.plain(KeyCode::Char('q')) || k.plain(KeyCode::Char('\\'))
        || k.plain(KeyCode::Char('?')) {
        HelpKey::Close
    } else if k.plain(KeyCode::Char('j')) || k.plain(KeyCode::Char('J')) || k.plain(KeyCode::Down) {
        HelpKey::Down(1)
    } else if k.plain(KeyCode::Char('k')) || k.plain(KeyCode::Char('K')) || k.plain(KeyCode::Up) {
        HelpKey::Up(1)
    } else if k.ctrl(KeyCode::Char('d')) || k.plain(KeyCode::PageDown) {
        HelpKey::Down(15)
    } else if k.ctrl(KeyCode::Char('u')) || k.plain(KeyCode::PageUp) {
        HelpKey::Up(15)
    } else if k.plain(KeyCode::Char('g')) || k.plain(KeyCode::Home) {
        HelpKey::Top
    } else if k.plain(KeyCode::Char('G')) || k.plain(KeyCode::End) || k.shifted(KeyCode::Char('G')) {
        HelpKey::Bottom
    } else {
        HelpKey::Other
    }
}

fn plain(k: &KeyEvent, code: KeyCode) -> (r: bool)
    ensures
        r == k.plain(code),
{
    !k.modifiers.shift && !k.modifiers.control && !k.modifiers.alt && !k.modifiers.other && k.code == code
}

fn ctrl(k: &KeyEvent, code: KeyCode) -> (r: bool)
    ensures
        r == k.ctrl(code),
{
    !k.modifiers.shift && k.modifiers.control && !k.modifiers.alt && !k.modifiers.other && k.code == code
}

fn shifted(k: &KeyEvent, code: KeyCode) -> (r: bool)
    ensures
        r == k.shifted(code),
{
    k.modifiers.shift && !k.modifiers.control && !k.modifiers.alt && !k.modifiers.other && k.code == code
}

/// What a key does in the overlay.
pub fn help_key(k: &KeyEvent) -> (r: HelpKey)
    ensures
        r == help_key_spec(*k),
{
    if plain(k, KeyCode::Esc) || plain(k, KeyCode::Char('q')) || plain(k, KeyCode::Char('\\')) || plain(
        k,
        KeyCode::Char('?'),
    ) {
        HelpKey::Close
    } else if plain(k, KeyCode::Char('j')) || plain(k, KeyCode::Char('J')) || plain(k, KeyCode::Down) {
        HelpKey::Down(1)
    } else if plain(k, KeyCode::Char('k')) || plain(k, KeyCode::Char('K')) || plain(k, KeyCode::Up) {
        HelpKey::Up(1)
    } else if ctrl(k, KeyCode::Char('d')) || plain(k, KeyCode::PageDown) {
        HelpKey::Down(15)
    } else if ctrl(k, KeyCode::Char('u')) || plain(k, KeyCode::PageUp) {
        HelpKey::Up(15)
    } else if plain(k, KeyCode::Char('g')) || plain(k, KeyCode::Home) {
        HelpKey::Top
    } else if plain(k, KeyCode::Char('G')) || plain(k, KeyCode::End) || shifted(k, KeyCode::Char('G')) {
        HelpKey::Bottom
    } else {
        HelpKey::Other
    }
}

/// `a + b`, at most `usize::MAX`.
pub open spec fn sat_add(a: int, b: int) -> int {
    if a + b <= usize::MAX {
        a + b
    } else {
        usize::MAX as int
    }
}

/// `a - b`, at least 0.
pub open spec fn sat_sub(a: int, b: int) -> int {
    if a >= b {
        a - b
    } else {
        0
    }
}

impl HelpPage {
    pub closed spec fn section_list(&self) -> Seq<Section> {
        self.sections@
    }

    pub closed spec fn scroll_spec(&self) -> usize {
        self.scroll
    }

    /// An overlay showing `sections`, scrolled to the top.
    pub fn new(sections: Vec<Section>) -> (p: Self)
        ensures
            p.section_list() == sections@,
            p.scroll_spec() == 0,
    {
        HelpPage { sections, scroll: 0 }
    }

    /// The sections shown.
    pub fn sections(&self) -> (r: &Vec<Section>)
        ensures
            r@ == self.section_list(),
    {
        &self.sections
    }

    /// The first line shown.
    pub fn scroll(&self) -> (r: usize)
        ensures
            r == self.scroll_spec(),
    {
        self.scroll
    }

    /// Handles a key; false when the overlay closes.
    pub fn handle_input(&mut self, key: &KeyEvent) -> (open: bool)
        ensures
            open == !(help_key_spec(*key) is Close),
            final(self).section_list() == old(self).section_list(),
            final(self).scroll_spec() == match help_key_spec(*key) {
                HelpKey::Down(n) => sat_add(old(self).scroll_spec() as int, n as int) as usize,
                HelpKey::Up(n) => sat_sub(old(self).scroll_spec() as int, n as int) as usize,
                HelpKey::Top => 0,
                HelpKey::Bottom => usize::MAX,
                _ => old(self).scroll_spec(),
            },
    {
        match help_key(key) {
            HelpKey::Close => {
                return false;
            },
            HelpKey::Down(n) => {
                self.scroll = self.scroll.saturating_add(n);
            },
            HelpKey::Up(n) => {
                self.scroll = self.scroll.saturating_sub(n);
            },
            HelpKey::Top => {
                self.scroll = 0;
            },
            HelpKey::Bottom => {
                self.scroll = usize::MAX;
            },
            HelpKey::Other => {},
        }
        true
    }

    /// Handles the mouse: the wheel scrolls by three lines, a left click
    /// closes the overlay (false).
    pub fn handle_mouse(&mut self, event: MouseEvent) -> (open: bool)
        ensures
            open == (event.kind != MouseEventKind::LeftDown),
            final(self).section_list() == old(self).section_list(),
            final(self).scroll_spec() == match event.kind {
                MouseEventKind::ScrollUp => sat_sub(old(self).scroll_spec() as int, 3) as usize,
                MouseEventKind::ScrollDown => sat_add(old(self).scroll_spec() as int, 3) as usize,
                _ => old(self).scroll_spec(),
            },
    {
        match event.kind {
            MouseEventKind::ScrollUp => {
                self.scroll = self.scroll.saturating_sub(3);
            },
            MouseEventKind::ScrollDown => {
                self.scroll = self.scroll.saturating_add(3);
            },
            MouseEventKind::LeftDown => {
                return false;
            },
            _ => {},
        }
        true
    }

    /// The lines of the whole text (at most `usize::MAX`).
    pub fn line_count(&self) -> (n: usize)
        ensures
            n == if line_total(self.section_list()) <= usize::MAX {
                line_total(self.section_list())
            } else {
                usize::MAX as int
            },
    {
        let mut total: u128 = 0;
        let mut i: usize = 0;
        let mut capped = false;
        assert(self.sections@.take(0) =~= Seq::<Section>::empty());
        while i < self.sections.len()
            invariant
                i <= self.sections@.len(),
                !capped ==> total == line_total(self.sections@.take(i as int)) && total <= usize::MAX,
                capped ==> line_total(self.sections@.take(i as int)) > usize::MAX,
            decreases self.sections@.len() - i,
        {
            assert(self.sections@.take(i + 1).drop_last() =~= self.sections@.take(i as int));
            proof {
                lemma_line_total_nonneg(self.sections@.take(i as int));
            }
            if !capped {
                let add = self.sections[i].entries.len() as u128 + 4;
                total = total + add;
                if total > usize::MAX as u128 {
                    capped = true;
                }
            }
            i = i + 1;
        }
        assert(self.sections@.take(i as int) =~= self.sections@);
        if capped {
            usize::MAX
        } else {
            total as usize
        }
    }
}

proof fn lemma_line_total_nonneg(s: Seq<Section>)
    ensures
        line_total(s) >= 0,
    decreases s.len(),
{
    if s.len() > 0 {
        lemma_line_total_nonneg(s.drop_last());
    }
}


/// Whether `a` comes before `b` character by character, a proper prefix
/// first.
pub open spec fn chars_lt(a: Seq<char>, b: Seq<char>) -> bool
    decreases a.len(),
{
    if a.len() == 0 {
        b.len() > 0
    } else if b.len() == 0 {
        false
    } else if a[0] != b[0] {
        a[0] < b[0]
    } else {
        chars_lt(a.drop_first(), b.drop_first())
    }
}

proof fn lemma_chars_lt_transitive(a: Seq<char>, b: Seq<char>, c: Seq<char>)
    requires
        chars_lt(a, b),
        chars_lt(b, c),
    ensures
        chars_lt(a, c),
    decreases a.len(),
{
    if a.len() > 0 && b.len() > 0 && c.len() > 0 && a[0] == b[0] && b[0] == c[0] {
        lemma_chars_lt_transitive(a.drop_first(), b.drop_first(), c.drop_first());
    }
}

proof fn lemma_chars_lt_irreflexive(a: Seq<char>)
    ensures
        !chars_lt(a, a),
    decreases a.len(),
{
    if a.len() > 0 {
        lemma_chars_lt_irreflexive(a.drop_first());
    }
}

/// The order of help entries: by key ignoring case, then by action.
pub open spec fn entry_lt(x: (Seq<char>, Seq<char>), y: (Seq<char>, Seq<char>)) -> bool {
    let kx = unicode_lowercase(x.0);
    let ky = unicode_lowercase(y.0);
    chars_lt(kx, ky) || (kx == ky && chars_lt(x.1, y.1))
}

proof fn lemma_entry_lt_transitive(x: (Seq<char>, Seq<char>), y: (Seq<char>, Seq<char>), z: (Seq<char>, Seq<char>))
    requires
        entry_lt(x, y),
        entry_lt(y, z),
    ensures
        entry_lt(x, z),
{
    let kx = unicode_lowercase(x.0);
    let ky = unicode_lowercase(y.0);
    let kz = unicode_lowercase(z.0);
    if chars_lt(kx, ky) && chars_lt(ky, kz) {
        lemma_chars_lt_transitive(kx, ky, kz);
    } else if kx == ky && ky == kz {
        lemma_chars_lt_transitive(x.1, y.1, z.1);
    }
}

/// Entries that sort as equal: the same key ignoring case, the same action.
pub open spec fn entry_equiv(x: (Seq<char>, Seq<char>), y: (Seq<char>, Seq<char>)) -> bool {
    unicode_lowercase(x.0) == unicode_lowercase(y.0) && x.1 == y.1
}

/// The entries of `s` that sort as equal to `x`, in their order in `s`.
pub open spec fn equal_run(s: Seq<(Seq<char>, Seq<char>)>, x: (Seq<char>, Seq<char>)) -> Seq<(Seq<char>, Seq<char>)>
    decreases s.len(),
{
    if s.len() == 0 {
        Seq::empty()
    } else if entry_equiv(s.last(), x) {
        equal_run(s.drop_last(), x).push(s.last())
    } else {
        equal_run(s.drop_last(), x)
    }
}

proof fn lemma_equal_run_push(s: Seq<(Seq<char>, Seq<char>)>, v: (Seq<char>, Seq<char>), x: (Seq<char>, Seq<char>))
    ensures
        equal_run(s.push(v), x) == if entry_equiv(v, x) { equal_run(s, x).push(v) } else { equal_run(s, x) },
{
    assert(s.push(v).drop_last() =~= s);
}

proof fn lemma_equal_run_insert_other(
    s: Seq<(Seq<char>, Seq<char>)>,
    p: int,
    v: (Seq<char>, Seq<char>),
    x: (Seq<char>, Seq<char>),
)
    requires
        0 <= p <= s.len(),
        !entry_equiv(v, x),
    ensures
        equal_run(s.insert(p, v), x) == equal_run(s, x),
    decreases s.len(),
{
    if p == s.len() {
        assert(s.insert(p, v) =~= s.push(v));
        lemma_equal_run_push(s, v, x);
    } else {
        let t = s.insert(p, v);
        assert(t.drop_last() =~= s.drop_last().insert(p, v));
        assert(t.last() == s.last());
        lemma_equal_run_insert_other(s.drop_last(), p, v, x);
    }
}

proof fn lemma_equal_run_insert_last(
    s: Seq<(Seq<char>, Seq<char>)>,
    p: int,
    v: (Seq<char>, Seq<char>),
    x: (Seq<char>, Seq<char>),
)
    requires
        0 <= p <= s.len(),
        entry_equiv(v, x),
        forall|k: int| p <= k < s.len() ==> !entry_equiv(#[trigger] s[k], x),
    ensures
        equal_run(s.insert(p, v), x) == equal_run(s, x).push(v),
    decreases s.len(),
{
    if p == s.len() {
        assert(s.insert(p, v) =~= s.push(v));
        lemma_equal_run_push(s, v, x);
    } else {
        let t = s.insert(p, v);
        assert(t.drop_last() =~= s.drop_last().insert(p, v));
        assert(t.last() == s.last());
        assert(!entry_equiv(s[s.len() - 1], x));
        lemma_equal_run_insert_last(s.drop_last(), p, v, x);
    }
}

pub open spec fn entries_view(v: Seq<(String, String)>) -> Seq<(Seq<char>, Seq<char>)> {
    v.map_values(|e: (String, String)| (e.0@, e.1@))
}

/// Entries in order: none comes after one that it precedes.
pub open spec fn entries_sorted(s: Seq<(Seq<char>, Seq<char>)>) -> bool {
    forall|i: int, j: int| 0 <= i < j < s.len() ==> !entry_lt(#[trigger] s[j], #[trigger] s[i])
}

fn chars_less(a: &Vec<char>, b: &Vec<char>) -> (r: bool)
    ensures
        r == chars_lt(a@, b@),
{
    let mut i: usize = 0;
    assert(a@.skip(0) =~= a@ && b@.skip(0) =~= b@);
    while i < a.len() && i < b.len()
        invariant
            i <= a@.len() && i <= b@.len(),
            chars_lt(a@, b@) == chars_lt(a@.skip(i as int), b@.skip(i as int)),
        decreases a@.len() - i,
    {
        assert(a@.skip(i as int)[0] == a@[i as int] && b@.skip(i as int)[0] == b@[i as int]);
        if a[i] != b[i] {
            return a[i] < b[i];
        }
        assert(a@.skip(i as int).drop_first() =~= a@.skip(i + 1));
        assert(b@.skip(i as int).drop_first() =~= b@.skip(i + 1));
        i = i + 1;
    }
    i >= a.len() && i < b.len()
}

fn entry_less(kx: &Vec<char>, lx: &Vec<char>, ky: &Vec<char>, ly: &Vec<char>) -> (r: bool)
    ensures
        r == (chars_lt(kx@, ky@) || (kx@ == ky@ && chars_lt(lx@, ly@))),
{
    if chars_less(kx, ky) {
        return true;
    }
    if kx.len() != ky.len() {
        return false;
    }
    let mut i: usize = 0;
    while i < kx.len()
        invariant
            !chars_lt(kx@, ky@),
            kx@.len() == ky@.len(),
            i <= kx@.len(),
            forall|k: int| 0 <= k < i ==> kx@[k] == ky@[k],
        decreases kx@.len() - i,
    {
        if kx[i] != ky[i] {
            assert(kx@[i as int] != ky@[i as int]);
            return false;
        }
        i = i + 1;
    }
    assert(kx@ =~= ky@);
    chars_less(lx, ly)
}

/// The entries sorted by key ignoring case, then by action; entries that
/// sort as equal keep their order.
pub fn sort_entries(entries: Vec<(String, String)>) -> (out: Vec<(String, String)>)
    ensures
        entries_view(out@).to_multiset() == entries_view(entries@).to_multiset(),
        entries_sorted(entries_view(out@)),
        forall|x: (Seq<char>, Seq<char>)| #[trigger] equal_run(entries_view(out@), x) == equal_run(entries_view(entries@), x),
{
    broadcast use vstd::seq_lib::group_to_multiset_ensures;
    let mut out: Vec<(String, String)> = Vec::new();
    let mut keys: Vec<Vec<char>> = Vec::new();
    let mut labels: Vec<Vec<char>> = Vec::new();
    let ghost input = entries_view(entries@);
    let mut i: usize = 0;
    assert(input.take(0) =~= Seq::<(Seq<char>, Seq<char>)>::empty());
    assert(entries_view(out@) =~= Seq::<(Seq<char>, Seq<char>)>::empty());
    while i < entries.len()
        invariant
            i <= entries@.len(),
            input == entries_view(entries@),
            keys@.len() == out@.len() && labels@.len() == out@.len(),
            forall|k: int| 0 <= k < out@.len() ==> #[trigger] keys@[k]@ == unicode_lowercase(out@[k].0@),
            forall|k: int| 0 <= k < out@.len() ==> #[trigger] labels@[k]@ == out@[k].1@,
            entries_view(out@).to_multiset() == input.take(i as int).to_multiset(),
            entries_sorted(entries_view(out@)),
            forall|x: (Seq<char>, Seq<char>)| #[trigger] equal_run(entries_view(out@), x) == equal_run(input.take(i as int), x),
        decreases entries@.len() - i,
    {
        let e = (entries[i].0.clone(), entries[i].1.clone());
        let key = chars_of(to_lowercase(e.0.as_str()).as_str());
        let label = chars_of(e.1.as_str());
        let ghost ev = (e.0@, e.1@);
        assert(ev == input[i as int]);
        let ghost old_view = entries_view(out@);
        let mut p: usize = 0;
        while p < out.len() && !entry_less(&key, &label, &keys[p], &labels[p])
            invariant
                p <= out@.len(),
                keys@.len() == out@.len() && labels@.len() == out@.len(),
                forall|k: int| 0 <= k < out@.len() ==> #[trigger] keys@[k]@ == unicode_lowercase(out@[k].0@),
                forall|k: int| 0 <= k < out@.len() ==> #[trigger] labels@[k]@ == out@[k].1@,
                key@ == unicode_lowercase(ev.0) && label@ == ev.1,
                old_view == entries_view(out@),
                forall|k: int| 0 <= k < p ==> !entry_lt(ev, #[trigger] old_view[k]),
            decreases out@.len() - p,
        {
            assert(old_view[p as int] == (out@[p as int].0@, out@[p as int].1@));
            p = p + 1;
        }
        proof {
            if p < out@.len() {
                assert(old_view[p as int] == (out@[p as int].0@, out@[p as int].1@));
                assert(entry_lt(ev, old_view[p as int]));
            }
        }
        out.insert(p, e);
        keys.insert(p, key);
        labels.insert(p, label);
        proof {
            let nv = entries_view(out@);
            assert(nv =~= old_view.insert(p as int, ev));
            assert(input.take(i + 1) =~= input.take(i as int).push(ev));
            vstd::seq_lib::to_multiset_insert(old_view, p as int, ev);
            vstd::seq_lib::to_multiset_build(input.take(i as int), ev);
            assert forall|a: int, b: int| 0 <= a < b < nv.len() implies !entry_lt(#[trigger] nv[b], #[trigger] nv[a]) by {
                if a < p && b < p {
                    assert(nv[a] == old_view[a] && nv[b] == old_view[b]);
                } else if a < p && b == p {
                    assert(nv[a] == old_view[a]);
                } else if a < p && b > p {
                    assert(nv[a] == old_view[a] && nv[b] == old_view[b - 1]);
                } else if a == p {
                    assert(nv[b] == old_view[b - 1]);
                    assert(p < old_view.len());
                    if entry_lt(old_view[b - 1], ev) {
                        lemma_entry_lt_transitive(old_view[b - 1], ev, old_view[p as int]);
                        if b - 1 == p {
                            lemma_chars_lt_irreflexive(unicode_lowercase(ev.0));
                            lemma_chars_lt_irreflexive(ev.1);
                            lemma_chars_lt_irreflexive(unicode_lowercase(old_view[p as int].0));
                            lemma_chars_lt_irreflexive(old_view[p as int].1);
                        }
                    }
                } else {
                    assert(nv[a] == old_view[a - 1] && nv[b] == old_view[b - 1]);
                }
            }
            assert forall|x: (Seq<char>, Seq<char>)| #[trigger] equal_run(nv, x) == equal_run(input.take(i + 1), x) by {
                lemma_equal_run_push(input.take(i as int), ev, x);
                if entry_equiv(ev, x) {
                    assert forall|k: int| p <= k < old_view.len() implies !entry_equiv(#[trigger] old_view[k], x) by {
                        if entry_equiv(old_view[k], x) {
                            assert(entry_lt(ev, old_view[p as int]));
                            if k == p {
                                lemma_chars_lt_irreflexive(unicode_lowercase(ev.0));
                                lemma_chars_lt_irreflexive(ev.1);
                            } else {
                                assert(!entry_lt(old_view[k], old_view[p as int]));
                            }
                        }
                    }
                    lemma_equal_run_insert_last(old_view, p as int, ev, x);
                } else {
                    lemma_equal_run_insert_other(old_view, p as int, ev, x);
                }
            }
        }
        i = i + 1;
    }
    assert(input.take(entries@.len() as int) =~= input);
    out
}


/// Two entry lists hold the same entries, the first in order, with entries
/// that sort as equal in their order in the second.
pub open spec fn sorted_from(out: Seq<(String, String)>, input: Seq<(String, String)>) -> bool {
    &&& entries_view(out).to_multiset() == entries_view(input).to_multiset()
    &&& entries_sorted(entries_view(out))
    &&& forall|x: (Seq<char>, Seq<char>)| #[trigger] equal_run(entries_view(out), x) == equal_run(entries_view(input), x)
}

/// The fixed keys of the side bar.
pub open spec fn nav_entries() -> Seq<(Seq<char>, Seq<char>)> {
    seq![
        ("1"@, "队列"@),
        ("2"@, "搜索"@),
        ("3"@, "排行榜"@),
        ("4"@, "歌单"@),
        ("5"@, "收藏"@),
        ("6"@, "历史"@),
        ("7"@, "本地音乐"@),
        ("8"@, "下载"@),
        ("9"@, "音源"@),
        ("0"@, "设置"@),
        ("Tab"@, "下一个标签页"@),
        ("Shift+Tab"@, "上一个标签页"@),
        ("? / \\"@, "打开 / 关闭快捷键说明"@),
    ]
}

/// The keys of the downloads page and panel.
pub open spec fn download_entries() -> Seq<(Seq<char>, Seq<char>)> {
    seq![
        ("j / ↓"@, "选择下一项"@),
        ("k / ↑"@, "选择上一项"@),
        ("g / Home"@, "跳到第一项"@),
        ("G / End"@, "跳到最后一项"@),
        ("Ctrl+d / PageDown"@, "向下翻页"@),
        ("Ctrl+u / PageUp"@, "向上翻页"@),
        ("c / d / Delete"@, "取消任务 / 移除记录"@),
        ("x"@, "清理已完成记录"@),
        ("C"@, "清空下载历史"@),
        ("Esc / q"@, "关闭下载浮层"@),
    ]
}

/// The keys of the sources page, which the settings page's handler serves.
pub open spec fn source_entries() -> Seq<(Seq<char>, Seq<char>)> {
    seq![
        ("← / →"@, "切换设置分类"@),
        ("s"@, "切换管理区域"@),
        ("a"@, "添加 JS 音源"@),
        ("d"@, "删除选中的 JS 音源（需再次确认）"@),
        ("h"@, "检测音源健康状态"@),
        ("y / K"@, "选择 / 切换内置音源"@),
        ("b"@, "打开扫码登录选择器"@),
        ("l"@, "切换导航栏透明背景"@),
    ]
}

/// One page's key bindings for the overlay: the page's display name, its
/// scope name, and its (key, action) pairs when it has any.
#[derive(Debug, Clone)]
pub struct PageBindings {
    pub display: String,
    pub page: String,
    pub entries: Option<Vec<(String, String)>>,
}

/// The section titled after a page: `display（page）`.
pub open spec fn page_title(b: PageBindings) -> Seq<char> {
    b.display@ + "（"@ + b.page@ + "）"@
}

/// The page sections: one per page that has bindings, in order, titled
/// after it, with its bindings sorted.
pub open spec fn page_sections(secs: Seq<Section>, pages: Seq<PageBindings>) -> bool
    decreases pages.len(),
{
    if pages.len() == 0 {
        secs.len() == 0
    } else {
        match pages.last().entries {
            None => page_sections(secs, pages.drop_last()),
            Some(e) => secs.len() > 0 && secs.last().title@ == page_title(pages.last()) && sorted_from(
                secs.last().entries@,
                e@,
            ) && page_sections(secs.drop_last(), pages.drop_last()),
        }
    }
}

fn pair(key: &str, label: &str) -> (p: (String, String))
    ensures
        p.0@ == key@ && p.1@ == label@,
{
    (string_of(key), string_of(label))
}

fn copy_entries(v: &Vec<(String, String)>) -> (out: Vec<(String, String)>)
    ensures
        entries_view(out@) == entries_view(v@),
{
    let mut out: Vec<(String, String)> = Vec::new();
    let mut i: usize = 0;
    while i < v.len()
        invariant
            i <= v@.len(),
            entries_view(out@) == entries_view(v@.take(i as int)),
        decreases v@.len() - i,
    {
        let a = v[i].0.clone();
        let b = v[i].1.clone();
        let ghost prev = out@;
        out.push((a, b));
        assert(out@ == prev.push((a, b)));
        assert(entries_view(out@) =~= entries_view(prev).push((v@[i as int].0@, v@[i as int].1@)));
        assert(entries_view(v@.take(i + 1)) =~= entries_view(v@.take(i as int)).push((v@[i as int].0@, v@[i as int].1@)));
        i = i + 1;
    }
    assert(v@.take(v@.len() as int) =~= v@);
    out
}

impl HelpPage {
    /// The overlay for the bindings in effect: the fixed side bar keys,
    /// the global bindings sorted, the downloads and sources keys, then a
    /// section per page that has bindings, each sorted; scrolled to the top.
    pub fn from_config(global: &Vec<(String, String)>, pages: &Vec<PageBindings>) -> (p: Self)
        ensures
            p.scroll_spec() == 0,
            p.section_list().len() >= 4,
            p.section_list()[0].title@ == "侧边栏导航（固定）"@,
            entries_view(p.section_list()[0].entries@) == nav_entries(),
            p.section_list()[1].title@ == "全局快捷键"@,
            sorted_from(p.section_list()[1].entries@, global@),
            p.section_list()[2].title@ == "下载页 / 下载面板"@,
            entries_view(p.section_list()[2].entries@) == download_entries(),
            p.section_list()[3].title@ == "音源页（复用设置键位）"@,
            entries_view(p.section_list()[3].entries@) == source_entries(),
            page_sections(p.section_list().skip(4), pages@),
    {
        let mut sections: Vec<Section> = Vec::new();
        let nav = vec![
            pair("1", "队列"),
            pair("2", "搜索"),
            pair("3", "排行榜"),
            pair("4", "歌单"),
            pair("5", "收藏"),
            pair("6", "历史"),
            pair("7", "本地音乐"),
            pair("8", "下载"),
            pair("9", "音源"),
            pair("0", "设置"),
            pair("Tab", "下一个标签页"),
            pair("Shift+Tab", "上一个标签页"),
            pair("? / \\", "打开 / 关闭快捷键说明"),
        ];
        assert(entries_view(nav@) =~= nav_entries());
        sections.push(Section { title: string_of("侧边栏导航（固定）"), entries: nav });
        let g = sort_entries(copy_entries(global));
        sections.push(Section { title: string_of("全局快捷键"), entries: g });
        let dl = vec![
            pair("j / ↓", "选择下一项"),
            pair("k / ↑", "选择上一项"),
            pair("g / Home", "跳到第一项"),
            pair("G / End", "跳到最后一项"),
            pair("Ctrl+d / PageDown", "向下翻页"),
            pair("Ctrl+u / PageUp", "向上翻页"),
            pair("c / d / Delete", "取消任务 / 移除记录"),
            pair("x", "清理已完成记录"),
            pair("C", "清空下载历史"),
            pair("Esc / q", "关闭下载浮层"),
        ];
        assert(entries_view(dl@) =~= download_entries());
        sections.push(Section { title: string_of("下载页 / 下载面板"), entries: dl });
        let src = vec![
            pair("← / →", "切换设置分类"),
            pair("s", "切换管理区域"),
            pair("a", "添加 JS 音源"),
            pair("d", "删除选中的 JS 音源（需再次确认）"),
            pair("h", "检测音源健康状态"),
            pair("y / K", "选择 / 切换内置音源"),
            pair("b", "打开扫码登录选择器"),
            pair("l", "切换导航栏透明背景"),
        ];
        assert(entries_view(src@) =~= source_entries());
        sections.push(Section { title: string_of("音源页（复用设置键位）"), entries: src });
        let ghost fixed = sections@;
        let mut i: usize = 0;
        assert(sections@.skip(4) =~= Seq::<Section>::empty());
        assert(pages@.take(0) =~= Seq::<PageBindings>::empty());
        while i < pages.len()
            invariant
                i <= pages@.len(),
                sections@.len() >= 4,
                sections@.take(4) == fixed,
                page_sections(sections@.skip(4), pages@.take(i as int)),
            decreases pages@.len() - i,
        {
            assert(pages@.take(i + 1).drop_last() =~= pages@.take(i as int));
            assert(pages@.take(i + 1).last() == pages@[i as int]);
            match &pages[i].entries {
                Some(e) => {
                    let mut title = pages[i].display.clone();
                    push_str(&mut title, "（");
                    push_str(&mut title, pages[i].page.as_str());
                    push_str(&mut title, "）");
                    let sorted = sort_entries(copy_entries(e));
                    let ghost before = sections@;
                    sections.push(Section { title, entries: sorted });
                    assert(sections@.skip(4).drop_last() =~= before.skip(4));
                    assert(sections@.take(4) =~= before.take(4));
                },
                None => {},
            }
            i = i + 1;
        }
        assert(pages@.take(pages@.len() as int) =~= pages@);
        assert(sections@[0] == fixed[0] && sections@[1] == fixed[1] && sections@[2] == fixed[2] && sections@[3] == fixed[3]) by {
            assert(sections@.take(4)[0] == sections@[0]);
            assert(sections@.take(4)[1] == sections@[1]);
            assert(sections@.take(4)[2] == sections@[2]);
            assert(sections@.take(4)[3] == sections@[3]);
        }
        HelpPage { sections, scroll: 0 }
    }
}


/// The help overlay's rectangle in `area`: 84 columns at most and never
/// fewer than 20, the area's height less two and never fewer than five,
/// centred.
pub open spec fn help_overlay_spec(area: Rect) -> Rect {
    let w0 = if 84 <= sat_sub16(area.width, 4) { 84 } else { sat_sub16(area.width, 4) };
    let w: u16 = if w0 >= 20 { w0 } else { 20 };
    let h: u16 = if sat_sub16(area.height, 2) >= 5 { sat_sub16(area.height, 2) } else { 5 };
    Rect {
        x: (area.x + sat_sub16(area.width, w) / 2) as u16,
        y: (area.y + sat_sub16(area.height, h) / 2) as u16,
        width: w,
        height: h,
    }
}

/// The help overlay's rectangle.
pub fn help_overlay_area(area: Rect) -> (r: Rect)
    requires
        area.x + sat_sub16(area.width, help_overlay_spec(area).width) / 2 <= u16::MAX,
        area.y + sat_sub16(area.height, help_overlay_spec(area).height) / 2 <= u16::MAX,
    ensures
        r == help_overlay_spec(area),
{
    let narrowed = area.width.saturating_sub(4);
    let w0: u16 = if 84 <= narrowed { 84 } else { narrowed };
    let w: u16 = if w0 >= 20 { w0 } else { 20 };
    let shortened = area.height.saturating_sub(2);
    let h: u16 = if shortened >= 5 { shortened } else { 5 };
    Rect::new(area.x + area.width.saturating_sub(w) / 2, area.y + area.height.saturating_sub(h) / 2, w, h)
}

/// A line of the help text.
#[derive(Debug, Clone, PartialEq, Eq)]
pub enum HelpLine {
    Blank,
    Title(String),
    /// The key, indented by two and padded to twelve characters, and what
    /// it does.
    Entry(String, String),
}

pub open spec fn help_line_view(l: HelpLine) -> (int, Seq<char>, Seq<char>) {
    match l {
        HelpLine::Blank => (0, Seq::empty(), Seq::empty()),
        HelpLine::Title(t) => (1, t@, Seq::empty()),
        HelpLine::Entry(k, v) => (2, k@, v@),
    }
}

/// The lines of one section: a blank line, the title, the entries and a
/// blank line.
pub open spec fn section_text(s: Section) -> Seq<(int, Seq<char>, Seq<char>)> {
    seq![(0int, Seq::<char>::empty(), Seq::<char>::empty()), (1int, s.title@, Seq::<char>::empty())]
        + s.entries@.map_values(|e: (String, String)| (2int, "  "@ + pad_spec(e.0@, 12), e.1@))
        + seq![(0int, Seq::<char>::empty(), Seq::<char>::empty())]
}

/// The lines of all sections, in order.
pub open spec fn help_text(sections: Seq<Section>) -> Seq<(int, Seq<char>, Seq<char>)>
    decreases sections.len(),
{
    if sections.len() == 0 {
        Seq::empty()
    } else {
        help_text(sections.drop_last()) + section_text(sections.last())
    }
}

/// What the overlay shows: the first line, how many lines fit, and the
/// title with the position in the text.
#[derive(Debug, Clone, PartialEq, Eq)]
pub struct HelpView {
    pub start: usize,
    pub visible: usize,
    pub title: String,
}

impl HelpPage {
    /// The whole help text.
    pub fn lines(&self) -> (r: Vec<HelpLine>)
        ensures
            r@.map_values(|l: HelpLine| help_line_view(l)) == help_text(self.section_list()),
    {
        let mut out: Vec<HelpLine> = Vec::new();
        let mut i: usize = 0;
        assert(self.sections@.take(0) =~= Seq::<Section>::empty());
        while i < self.sections.len()
            invariant
                i <= self.sections@.len(),
                out@.map_values(|l: HelpLine| help_line_view(l)) == help_text(self.sections@.take(i as int)),
            decreases self.sections@.len() - i,
        {
            let section = &self.sections[i];
            let ghost before = out@.map_values(|l: HelpLine| help_line_view(l));
            out.push(HelpLine::Blank);
            out.push(HelpLine::Title(section.title.clone()));
            let mut j: usize = 0;
            let ghost mid = out@.map_values(|l: HelpLine| help_line_view(l));
            assert(mid =~= before + seq![(0int, Seq::<char>::empty(), Seq::<char>::empty()), (1int, section.title@, Seq::<char>::empty())]);
            while j < section.entries.len()
                invariant
                    j <= section.entries@.len(),
                    out@.map_values(|l: HelpLine| help_line_view(l)) == mid + section.entries@.take(j as int).map_values(
                        |e: (String, String)| (2int, "  "@ + pad_spec(e.0@, 12), e.1@),
                    ),
                decreases section.entries@.len() - j,
            {
                let mut key = string_of("  ");
                push_str(&mut key, section.entries[j].0.as_str());
                let n = section.entries[j].0.as_str().unicode_len();
                if n < 12 {
                    push_spaces(&mut key, 12 - n);
                }
                let ghost e = section.entries@[j as int];
                assert(key@ =~= "  "@ + pad_spec(e.0@, 12));
                let ghost prev = out@;
                out.push(HelpLine::Entry(key, section.entries[j].1.clone()));
                assert(out@.map_values(|l: HelpLine| help_line_view(l)) =~= prev.map_values(|l: HelpLine| help_line_view(l)).push((2int, "  "@ + pad_spec(e.0@, 12), e.1@)));
                assert(section.entries@.take(j + 1).map_values(|e: (String, String)| (2int, "  "@ + pad_spec(e.0@, 12), e.1@))
                    =~= section.entries@.take(j as int).map_values(|e: (String, String)| (2int, "  "@ + pad_spec(e.0@, 12), e.1@)).push((2int, "  "@ + pad_spec(e.0@, 12), e.1@)));
                j = j + 1;
            }
            let ghost pre = out@;
            out.push(HelpLine::Blank);
            assert(out@.map_values(|l: HelpLine| help_line_view(l)) =~= pre.map_values(|l: HelpLine| help_line_view(l)).push(
                (0int, Seq::<char>::empty(), Seq::<char>::empty()),
            ));
            assert(section.entries@.take(section.entries@.len() as int) =~= section.entries@);
            assert(*section == self.sections@[i as int]);
            assert(self.sections@.take(i + 1).drop_last() =~= self.sections@.take(i as int));
            assert(out@.map_values(|l: HelpLine| help_line_view(l)) =~= before + section_text(self.sections@[i as int]));
            i = i + 1;
        }
        assert(self.sections@.take(self.sections@.len() as int) =~= self.sections@);
        out
    }

    /// Fits the overlay to `overlay`: the scroll is kept within the text
    /// for the rows inside the border, and the title reads
    /// `快捷键说明 · <last shown>/<total> 行 · j/k 滚动 · ? / \ 关闭`.
    pub fn fit_view(&mut self, overlay: Rect) -> (v: HelpView)
        ensures
            final(self).section_list() == old(self).section_list(),
            ({
                let total = if line_total(old(self).section_list()) <= usize::MAX {
                    line_total(old(self).section_list())
                } else {
                    usize::MAX as int
                };
                let visible = sat_sub16(overlay.height, 2) as int;
                let start = clamp_scroll_spec(old(self).scroll_spec() as int, total, visible);
                let last = if start + visible <= total { start + visible } else { total };
                &&& final(self).scroll_spec() == start
                &&& v.start == start && v.visible == visible
                &&& v.title@ == "快捷键说明 · "@ + decimal_seq(last as nat) + "/"@ + decimal_seq(total as nat)
                    + " 行 · j/k 滚动 · ? / \\ 关闭"@
            }),
    {
        let total = self.line_count();
        let visible = overlay.height.saturating_sub(2) as usize;
        let start = clamp_scroll(self.scroll, total, visible);
        self.scroll = start;
        let last = if start <= total && total - start >= visible { start + visible } else { total };
        let mut title = string_of("快捷键说明 · ");
        push_decimal(&mut title, last as u64);
        push_str(&mut title, "/");
        push_decimal(&mut title, total as u64);
        push_str(&mut title, " 行 · j/k 滚动 · ? / \\ 关闭");
        HelpView { start, visible, title }
    }
}

} // verus!
