//! Screen rectangles and the hit boxes laid out in them.

use vstd::prelude::*;
use crate::pages::downloads::{truncate_spec, truncate_to_width};
use crate::text::{push_char, string_of};
use crate::width::{str_width, unicode_str_width};

verus! {

broadcast use vstd::string::group_string_axioms;

/// A cell position on screen.
#[derive(Debug, Clone, Copy, PartialEq, Eq, Structural)]
pub struct Position {
    pub x: u16,
    pub y: u16,
}

impl Position {
    pub fn new(x: u16, y: u16) -> (p: Self)
        ensures
            p.x == x && p.y == y,
    {
        Position { x, y }
    }
}

/// A rectangle of cells.
#[derive(Debug, Clone, Copy, PartialEq, Eq, Structural)]
pub struct Rect {
    pub x: u16,
    pub y: u16,
    pub width: u16,
    pub height: u16,
}

/// `a + b`, at most `u16::MAX`.
pub open spec fn sat_add16(a: u16, b: u16) -> u16 {
    if a + b <= u16::MAX {
        (a + b) as u16
    } else {
        u16::MAX
    }
}

/// `a - b`, at least 0.
pub open spec fn sat_sub16(a: u16, b: u16) -> u16 {
    if a >= b {
        (a - b) as u16
    } else {
        0
    }
}

impl Rect {
    pub fn new(x: u16, y: u16, width: u16, height: u16) -> (r: Self)
        ensures
            r == (Rect { x, y, width, height }),
    {
        Rect { x, y, width, height }
    }

    /// The empty rectangle at the origin.
    pub fn zero() -> (r: Self)
        ensures
            r == (Rect { x: 0, y: 0, width: 0, height: 0 }),
    {
        Rect { x: 0, y: 0, width: 0, height: 0 }
    }

    pub open spec fn spec_right(self) -> u16 {
        sat_add16(self.x, self.width)
    }

    pub open spec fn spec_bottom(self) -> u16 {
        sat_add16(self.y, self.height)
    }

    pub open spec fn spec_contains(self, p: Position) -> bool {
        self.x <= p.x < self.spec_right() && self.y <= p.y < self.spec_bottom()
    }

    /// The first column right of the rectangle.
    pub fn right(&self) -> (r: u16)
        ensures
            r == self.spec_right(),
    {
        self.x.saturating_add(self.width)
    }

    /// The first row below the rectangle.
    pub fn bottom(&self) -> (r: u16)
        ensures
            r == self.spec_bottom(),
    {
        self.y.saturating_add(self.height)
    }

    /// Whether a cell lies inside.
    pub fn contains(&self, p: Position) -> (r: bool)
        ensures
            r == self.spec_contains(p),
    {
        self.x <= p.x && p.x < self.right() && self.y <= p.y && p.y < self.bottom()
    }

    /// The inside of a one-cell border all around: one cell in from the
    /// left and top (never past the right or bottom edge), two cells
    /// narrower and shorter (never below zero).
    pub open spec fn spec_inner(self) -> Rect {
        let x1 = sat_add16(self.x, 1);
        let y1 = sat_add16(self.y, 1);
        Rect {
            x: if x1 <= self.spec_right() { x1 } else { self.spec_right() },
            y: if y1 <= self.spec_bottom() { y1 } else { self.spec_bottom() },
            width: sat_sub16(sat_sub16(self.width, 1), 1),
            height: sat_sub16(sat_sub16(self.height, 1), 1),
        }
    }

    /// The inside of a one-cell border all around.
    pub fn inner(&self) -> (r: Rect)
        ensures
            r == self.spec_inner(),
    {
        let right = self.right();
        let bottom = self.bottom();
        let x1 = self.x.saturating_add(1);
        let y1 = self.y.saturating_add(1);
        Rect {
            x: if x1 <= right { x1 } else { right },
            y: if y1 <= bottom { y1 } else { bottom },
            width: self.width.saturating_sub(1).saturating_sub(1),
            height: self.height.saturating_sub(1).saturating_sub(1),
        }
    }
}

/// `value` cut to `max_width` columns with an ellipsis; a width of at most
/// one column leaves only the ellipsis.
pub open spec fn truncate_width_spec(value: Seq<char>, max_width: nat) -> Seq<char> {
    if unicode_str_width(value) <= max_width {
        value
    } else if max_width <= 1 {
        seq!['…']
    } else {
        truncate_spec(value, max_width)
    }
}

/// `value` cut to `max_width` columns with an ellipsis.
pub fn truncate_width(value: &str, max_width: usize) -> (s: String)
    ensures
        s@ == truncate_width_spec(value@, max_width as nat),
{
    if str_width(value) <= max_width {
        return string_of(value);
    }
    if max_width <= 1 {
        let mut s = String::new();
        push_char(&mut s, '…');
        return s;
    }
    truncate_to_width(value, max_width)
}

/// The hit box of one tab.
#[derive(Debug, Clone, Copy, PartialEq, Eq, Structural)]
pub struct TabRect {
    pub index: usize,
    pub rect: Rect,
}

/// `a` wrapped into 16 bits, for sums of two 16-bit values.
pub open spec fn wrap16(a: int) -> u16 {
    if a >= 0x10000 {
        (a - 0x10000) as u16
    } else {
        a as u16
    }
}

/// The width of a tab: its label's columns and a space each side (wrapping
/// like the 16-bit arithmetic it is done in).
pub open spec fn tab_width(label: Seq<char>, max_width: nat) -> u16 {
    wrap16((unicode_str_width(truncate_width_spec(label, max_width)) as u16) + 2)
}

/// Where the tab after one at `x` of `width` starts.
pub open spec fn next_tab_x(x: u16, width: u16, gap: u16) -> u16 {
    sat_add16(x, wrap16(width + gap))
}

/// The tab boxes laid out from `x` for `labels`, `gap` cells apart, until
/// one does not fit before `right`.
pub open spec fn tab_rects_spec(x: u16, y: u16, right: u16, labels: Seq<Seq<char>>, first: nat, gap: u16, max_width: nat) -> Seq<TabRect>
    decreases labels.len(),
{
    if labels.len() == 0 {
        Seq::empty()
    } else {
        let width = tab_width(labels[0], max_width);
        if width == 0 || sat_add16(x, width) > right {
            Seq::empty()
        } else {
            seq![TabRect { index: first as usize, rect: Rect { x, y, width, height: 1 } }] + tab_rects_spec(
                next_tab_x(x, width, gap),
                y,
                right,
                labels.drop_first(),
                first + 1,
                gap,
                max_width,
            )
        }
    }
}

proof fn lemma_tab_step(x: u16, y: u16, right: u16, labels: Seq<Seq<char>>, first: nat, gap: u16, max_width: nat)
    requires
        labels.len() > 0,
        tab_width(labels[0], max_width) != 0,
        sat_add16(x, tab_width(labels[0], max_width)) <= right,
    ensures
        tab_rects_spec(x, y, right, labels, first, gap, max_width) == seq![
            TabRect { index: first as usize, rect: Rect { x, y, width: tab_width(labels[0], max_width), height: 1 } },
        ] + tab_rects_spec(
            next_tab_x(x, tab_width(labels[0], max_width), gap),
            y,
            right,
            labels.drop_first(),
            first + 1,
            gap,
            max_width,
        ),
{
}

fn label_width(label: &String, max_width: usize) -> (w: u16)
    ensures
        w == tab_width(label@, max_width as nat),
{
    let t = truncate_width(label.as_str(), max_width);
    let w = str_width(t.as_str());
    (w as u16).wrapping_add(2)
}

/// The hit boxes of tabs with `labels`, as the renderer lays them out.
#[verifier::rlimit(30)]
pub fn tab_rects(area: Rect, labels: &Vec<String>, gap: u16, max_width: usize) -> (r: Vec<TabRect>)
    ensures
        r@ == tab_rects_spec(area.x, area.y, area.spec_right(), labels@.map_values(|l: String| l@), 0, gap, max_width as nat),
{
    let ghost lv = labels@.map_values(|l: String| l@);
    let mut x = area.x;
    let mut result: Vec<TabRect> = Vec::new();
    let right = area.right();
    let mut i: usize = 0;
    assert(lv.skip(0) =~= lv);
    assert(result@ + tab_rects_spec(x, area.y, right, lv.skip(0), 0, gap, max_width as nat)
        =~= tab_rects_spec(area.x, area.y, right, lv, 0, gap, max_width as nat));
    while i < labels.len()
        invariant
            i <= labels@.len(),
            lv == labels@.map_values(|l: String| l@),
            right == area.spec_right(),
            tab_rects_spec(area.x, area.y, right, lv, 0, gap, max_width as nat)
                == result@ + tab_rects_spec(x, area.y, right, lv.skip(i as int), i as nat, gap, max_width as nat),
        ensures
            tab_rects_spec(area.x, area.y, right, lv, 0, gap, max_width as nat) == result@,
        decreases labels@.len() - i,
    {
        let ghost rest = lv.skip(i as int);
        assert(rest[0] == labels@[i as int]@);
        assert(rest.drop_first() =~= lv.skip(i + 1));
        let width = label_width(&labels[i], max_width);
        if width == 0 || x.saturating_add(width) > right {
            assert(result@ + Seq::<TabRect>::empty() =~= result@);
            break;
        }
        proof {
            lemma_tab_step(x, area.y, right, rest, i as nat, gap, max_width as nat);
        }
        let tab = TabRect { index: i, rect: Rect::new(x, area.y, width, 1) };
        let ghost before = result@;
        let ghost nx = next_tab_x(x, width, gap);
        result.push(tab);
        assert(before + (seq![tab] + tab_rects_spec(nx, area.y, right, lv.skip(i + 1), (i + 1) as nat, gap, max_width as nat))
            =~= result@ + tab_rects_spec(nx, area.y, right, lv.skip(i + 1), (i + 1) as nat, gap, max_width as nat));
        x = x.saturating_add(width.wrapping_add(gap));
        i = i + 1;
    }
    result
}

} // verus!
