//! Where the in-app notification toast stands, and the click on its action
//! button.

use vstd::prelude::*;
use crate::notify::Notification;
use crate::pages::geometry::{sat_add16, sat_sub16, Rect};
use crate::width::{str_width, unicode_str_width};

verus! {

/// `a + b`, at most `usize::MAX`.
pub open spec fn sat_add_usize(a: int, b: int) -> usize {
    if a + b <= usize::MAX {
        (a + b) as usize
    } else {
        usize::MAX
    }
}

/// `a / b` rounded up (`b` positive).
pub open spec fn div_ceil_spec(a: int, b: int) -> int {
    if a % b == 0 {
        a / b
    } else {
        a / b + 1
    }
}

/// The column width of an optional text, zero when absent.
pub open spec fn opt_width(t: Option<String>) -> usize {
    match t {
        Some(s) => unicode_str_width(s@),
        None => 0,
    }
}

pub open spec fn max3(a: usize, b: usize, c: usize) -> usize {
    let ab = if a >= b { a } else { b };
    if ab >= c {
        ab
    } else {
        c
    }
}

/// The toast's width: its widest text plus four, between 28 and 72
/// columns, and never wider than the screen less two.
pub open spec fn toast_width(screen: Rect, n: Notification) -> u16 {
    let message = unicode_str_width(n.message@);
    let action = sat_add_usize(opt_width(n.action_label) as int, 4);
    let wanted = sat_add_usize(max3(message, opt_width(n.title), action) as int, 4);
    let desired = if wanted < 28 {
        28
    } else if wanted > 72 {
        72
    } else {
        wanted
    };
    let available = sat_sub16(screen.width, 2);
    if desired <= available {
        desired as u16
    } else {
        available
    }
}

/// The rows the toast's text takes: the title's lines, the message's lines
/// (at least one, and no more than leave the frame, title and action row
/// on screen), and one row for the action.
pub open spec fn toast_text_rows(screen: Rect, n: Notification, width: u16) -> u16 {
    let content = if sat_sub16(width, 2) >= 1 { sat_sub16(width, 2) as int } else { 1 };
    let message = unicode_str_width(n.message@);
    let message_width = if message >= 1 { message as int } else { 1 };
    let title_lines: u16 = match n.title {
        Some(t) => div_ceil_spec(unicode_str_width(t@) as int, content) as u16,
        None => 0,
    };
    let action_lines: u16 = if n.action_url is Some { 1 } else { 0 };
    let chrome = sat_add16(sat_add16(2, title_lines), action_lines);
    let max_message = if sat_sub16(sat_sub16(screen.height, 1), chrome) >= 1 {
        sat_sub16(sat_sub16(screen.height, 1), chrome)
    } else {
        1
    };
    let wanted = div_ceil_spec(message_width, content) as u16;
    let message_lines = if wanted < 1 {
        1
    } else if wanted > max_message {
        max_message
    } else {
        wanted
    };
    sat_add16(sat_add16(message_lines, title_lines), action_lines)
}

/// Where the newest notification is drawn: in the bottom right corner,
/// one column in from the right edge and two rows above the bottom; none
/// when in-app notifications are off, there is none, or the screen is
/// smaller than 12 by 4.
pub open spec fn toast_area_spec(screen: Rect, in_app: bool, newest: Option<Notification>) -> Option<Rect> {
    match newest {
        Some(n) => if !in_app || screen.width < 12 || screen.height < 4 {
            None
        } else {
            let width = toast_width(screen, n);
            let rows = toast_text_rows(screen, n, width);
            let height = if sat_add16(rows, 2) <= sat_sub16(screen.height, 1) {
                sat_add16(rows, 2)
            } else {
                sat_sub16(screen.height, 1)
            };
            let x = sat_sub16(sat_sub16(screen.spec_right(), width), 1);
            let y0 = sat_sub16(sat_sub16(screen.spec_bottom(), height), 2);
            let y = if y0 >= screen.y { y0 } else { screen.y };
            Some(Rect { x, y, width, height })
        },
        None => None,
    }
}

fn div_ceil(a: usize, b: usize) -> (r: usize)
    requires
        b > 0,
    ensures
        r == div_ceil_spec(a as int, b as int),
{
    if a % b == 0 {
        a / b
    } else {
        assert(a / b < usize::MAX) by (nonlinear_arith)
            requires
                b > 0,
                a % b != 0,
                a <= usize::MAX,
        ;
        a / b + 1
    }
}

fn opt_str_width(t: &Option<String>) -> (w: usize)
    ensures
        w == opt_width(*t),
{
    match t {
        Some(s) => str_width(s.as_str()),
        None => 0,
    }
}

/// The rectangle of the toast for the newest notification, if one shows.
pub fn toast_area(screen: Rect, in_app: bool, newest: Option<&Notification>) -> (r: Option<Rect>)
    ensures
        r == toast_area_spec(screen, in_app, match newest {
            Some(n) => Some(*n),
            None => None,
        }),
{
    if !in_app {
        return None;
    }
    let n = match newest {
        Some(n) => n,
        None => return None,
    };
    if screen.width < 12 || screen.height < 4 {
        return None;
    }
    let available = screen.width.saturating_sub(2);
    let title_width = opt_str_width(&n.title);
    let action_width = opt_str_width(&n.action_label).saturating_add(4);
    let message = str_width(n.message.as_str());
    let widest = if message >= title_width { message } else { title_width };
    let widest = if widest >= action_width { widest } else { action_width };
    let wanted = widest.saturating_add(4);
    let desired: u16 = if wanted < 28 {
        28
    } else if wanted > 72 {
        72
    } else {
        wanted as u16
    };
    let width = if desired <= available { desired } else { available };
    proof {
        assert(width == toast_width(screen, *n));
    }
    let content_cols = width.saturating_sub(2);
    let content: usize = if content_cols >= 1 { content_cols as usize } else { 1 };
    let message_width = if message >= 1 { message } else { 1 };
    let title_lines: u16 = match &n.title {
        Some(t) => div_ceil(str_width(t.as_str()), content) as u16,
        None => 0,
    };
    let action_lines: u16 = if n.action_url.is_some() { 1 } else { 0 };
    let chrome = 2u16.saturating_add(title_lines).saturating_add(action_lines);
    let room = screen.height.saturating_sub(1).saturating_sub(chrome);
    let max_message = if room >= 1 { room } else { 1 };
    let wanted_lines = div_ceil(message_width, content) as u16;
    let message_lines = if wanted_lines < 1 {
        1
    } else if wanted_lines > max_message {
        max_message
    } else {
        wanted_lines
    };
    let rows = message_lines.saturating_add(title_lines).saturating_add(action_lines);
    proof {
        assert(rows == toast_text_rows(screen, *n, width));
    }
    let framed = rows.saturating_add(2);
    let limit = screen.height.saturating_sub(1);
    let height = if framed <= limit { framed } else { limit };
    let x = screen.right().saturating_sub(width).saturating_sub(1);
    let y0 = screen.bottom().saturating_sub(height).saturating_sub(2);
    let y = if y0 >= screen.y { y0 } else { screen.y };
    Some(Rect::new(x, y, width, height))
}

/// Whether a click at (`column`, `row`) inside the toast `area` hits the
/// action button: on the last inner row, from the inner left edge across
/// the label and four more columns (never past the inner right edge).
pub open spec fn action_hit(area: Rect, column: u16, row: u16, label: Seq<char>) -> bool {
    let inner = area.spec_inner();
    let start = inner.x;
    let end0 = sat_add16(sat_add16(start, unicode_str_width(label) as u16), 4);
    let end = if end0 <= inner.spec_right() { end0 } else { inner.spec_right() };
    inner.height != 0 && row == sat_sub16(inner.spec_bottom(), 1) && start <= column && column < end
}

/// The link a click opens: the newest notification's action link when it
/// has one with a label and the click hits the button.
pub fn action_url_at(area: Rect, column: u16, row: u16, newest: Option<&Notification>) -> (r: Option<String>)
    ensures
        match newest {
            Some(n) => match (n.action_url, n.action_label) {
                (Some(url), Some(label)) => if action_hit(area, column, row, label@) {
                    r matches Some(u) && u@ == url@
                } else {
                    r is None
                },
                _ => r is None,
            },
            None => r is None,
        },
{
    let n = match newest {
        Some(n) => n,
        None => return None,
    };
    let url = match &n.action_url {
        Some(u) => u,
        None => return None,
    };
    let label = match &n.action_label {
        Some(l) => l,
        None => return None,
    };
    let inner = area.inner();
    if inner.height == 0 || row != inner.bottom().saturating_sub(1) {
        return None;
    }
    let start = inner.x;
    let end0 = start.saturating_add(str_width(label.as_str()) as u16).saturating_add(4);
    let right = inner.right();
    let end = if end0 <= right { end0 } else { right };
    if column >= start && column < end {
        Some(url.clone())
    } else {
        None
    }
}

/// The toast lies inside the screen, clear of its right edge.
pub proof fn lemma_toast_inside_screen(screen: Rect, in_app: bool, newest: Option<Notification>)
    requires
        screen.x + screen.width <= u16::MAX,
        screen.y + screen.height <= u16::MAX,
    ensures
        toast_area_spec(screen, in_app, newest) matches Some(t) ==> {
            &&& screen.x < t.x
            &&& t.x + t.width < screen.x + screen.width
            &&& screen.y <= t.y
            &&& t.y + t.height <= screen.y + screen.height
        },
{
}

} // verus!
