//! The favorites page: moving through the list, playing, removing, and
//! the clicks on it.

use vstd::prelude::*;
use crate::pages::geometry::{sat_add16, Rect};
use crate::pages::history::fit_scroll_spec;
use crate::pages::input::{KeyCode, KeyEvent, MouseEvent, MouseEventKind};
use crate::text::{decimal_seq, push_decimal, push_str, string_of};

verus! {

/// What the favorites page asks the main loop to do.
#[derive(Debug, Clone, Copy, PartialEq, Eq, Structural)]
pub enum FavoritesCommand {
    Nothing,
    /// Play the favorites from this one.
    PlaySong(usize),
    /// Take this song out of the favorites.
    Remove(usize),
}

/// What a key does to `selected` in a list of `len` favorites.
pub open spec fn favorites_key_spec(key: KeyEvent, len: int, wrap: bool, selected: int) -> (int, FavoritesCommand) {
    if key.plain(KeyCode::Up) || key.plain(KeyCode::Char('k')) {
        (if len == 0 {
            selected
        } else if selected > 0 {
            selected - 1
        } else if wrap {
            len - 1
        } else {
            selected
        }, FavoritesCommand::Nothing)
    } else if key.plain(KeyCode::Down) || key.plain(KeyCode::Char('j')) {
        (if len == 0 {
            selected
        } else if selected + 1 < len {
            selected + 1
        } else if wrap {
            0
        } else {
            selected
        }, FavoritesCommand::Nothing)
    } else if key.plain(KeyCode::Enter) || key.plain(KeyCode::Char('\r')) {
        (selected, if selected < len { FavoritesCommand::PlaySong(selected as usize) } else { FavoritesCommand::Nothing })
    } else if key.plain(KeyCode::Char('d')) {
        if selected < len {
            (if selected >= len - 1 {
                if len >= 2 { len - 2 } else { 0 }
            } else {
                selected
            }, FavoritesCommand::Remove(selected as usize))
        } else {
            (selected, FavoritesCommand::Nothing)
        }
    } else {
        (selected, FavoritesCommand::Nothing)
    }
}

/// Handles a key on a list of `len` favorites.
pub fn handle_input(key: &KeyEvent, len: usize, wrap: bool, selected: &mut usize) -> (r: FavoritesCommand)
    ensures
        (*final(selected) as int, r) == favorites_key_spec(*key, len as int, wrap, *old(selected) as int),
{
    let none = !key.modifiers.shift && !key.modifiers.control && !key.modifiers.alt && !key.modifiers.other;
    let code = key.code;
    if none && (code == KeyCode::Up || code == KeyCode::Char('k')) {
        if len > 0 {
            if *selected > 0 {
                *selected = *selected - 1;
            } else if wrap {
                *selected = len - 1;
            }
        }
        FavoritesCommand::Nothing
    } else if none && (code == KeyCode::Down || code == KeyCode::Char('j')) {
        if len > 0 {
            if *selected < len - 1 {
                *selected = *selected + 1;
            } else if wrap {
                *selected = 0;
            }
        }
        FavoritesCommand::Nothing
    } else if none && (code == KeyCode::Enter || code == KeyCode::Char('\r')) {
        if *selected < len {
            FavoritesCommand::PlaySong(*selected)
        } else {
            FavoritesCommand::Nothing
        }
    } else if none && code == KeyCode::Char('d') {
        if *selected < len {
            let removed = *selected;
            if *selected >= len - 1 {
                *selected = len.saturating_sub(2);
            }
            FavoritesCommand::Remove(removed)
        } else {
            FavoritesCommand::Nothing
        }
    } else {
        FavoritesCommand::Nothing
    }
}

/// The favorite under a click: the list starts one row below the inside
/// of the border.
pub open spec fn favorite_row_at(area: Rect, row: u16, scroll: int, len: int) -> Option<int> {
    let inner = area.spec_inner();
    let list_y = sat_add16(inner.y, 1);
    if row < list_y || row >= inner.spec_bottom() {
        None
    } else {
        let index = scroll + (row - list_y);
        if index < len { Some(index) } else { None }
    }
}

/// Handles the mouse: the wheel moves by `scroll_amount` (at least one), a
/// left click selects the favorite under it and, when the click activates,
/// returns it to play.
pub fn handle_mouse(
    event: MouseEvent,
    area: Rect,
    len: usize,
    selected: &mut usize,
    scroll: usize,
    activate: bool,
    scroll_amount: usize,
) -> (r: Option<usize>)
    ensures
        ({
            let step = if scroll_amount >= 1 { scroll_amount as int } else { 1 };
            let last = if len >= 1 { len - 1 } else { 0 };
            match event.kind {
                MouseEventKind::ScrollUp => r is None && *final(selected) == (if *old(selected) >= step {
                    *old(selected) - step
                } else {
                    0
                }),
                MouseEventKind::ScrollDown => r is None && *final(selected) == (if *old(selected) + step <= last {
                    *old(selected) + step
                } else {
                    last
                }),
                MouseEventKind::LeftDown => match favorite_row_at(area, event.row, scroll as int, len as int) {
                    Some(i) => *final(selected) == i && r == if activate { Some(i as usize) } else { None },
                    None => r is None && *final(selected) == *old(selected),
                },
                _ => r is None && *final(selected) == *old(selected),
            }
        }),
{
    let step = if scroll_amount >= 1 { scroll_amount } else { 1 };
    match event.kind {
        MouseEventKind::ScrollUp => {
            *selected = selected.saturating_sub(step);
            None
        },
        MouseEventKind::ScrollDown => {
            let last = len.saturating_sub(1);
            *selected = if *selected <= last && last - *selected >= step { *selected + step } else { last };
            None
        },
        MouseEventKind::LeftDown => {
            let inner = area.inner();
            let list_y = inner.y.saturating_add(1);
            if event.row < list_y || event.row >= inner.bottom() {
                return None;
            }
            let offset = (event.row - list_y) as usize;
            if scroll < len && offset < len - scroll {
                let index = scroll + offset;
                *selected = index;
                if activate {
                    Some(index)
                } else {
                    None
                }
            } else {
                None
            }
        },
        _ => None,
    }
}

/// Removing a favorite leaves the selection on a song of the shorter list
/// (or at the top when the list empties).
pub proof fn lemma_remove_keeps_selection(key: KeyEvent, len: int, wrap: bool, selected: int)
    requires
        key.plain(KeyCode::Char('d')),
        0 <= selected < len,
    ensures
        favorites_key_spec(key, len, wrap, selected).1 == FavoritesCommand::Remove(selected as usize),
        len >= 2 ==> 0 <= favorites_key_spec(key, len, wrap, selected).0 < len - 1,
        len == 1 ==> favorites_key_spec(key, len, wrap, selected).0 == 0,
{
}

/// The favorites card's title: `收藏 (<count> 首)`.
pub fn favorites_title(count: u64) -> (s: String)
    ensures
        s@ == "收藏 ("@ + decimal_seq(count as nat) + " 首)"@,
{
    let mut s = string_of("收藏 (");
    push_decimal(&mut s, count);
    push_str(&mut s, " 首)");
    s
}

/// What an empty favorites card says.
pub fn favorites_empty_message() -> (s: &'static str)
    ensures
        s@ == "暂无收藏，在主页面按 Ctrl+L 收藏当前歌曲"@,
{
    "暂无收藏，在主页面按 Ctrl+L 收藏当前歌曲"
}

/// Brings the selection into view before drawing `total` favorites in
/// `visible` rows (a selection past the end goes back to the first one):
/// the new selection and first row shown.
pub fn fit_favorites(selected: usize, scroll: usize, visible: usize, total: usize) -> (r: (usize, usize))
    requires
        visible >= 1,
    ensures
        r.0 == if selected >= total { 0 } else { selected },
        r.1 == fit_scroll_spec(r.0 as int, scroll as int, visible as int, total as int),
{
    let sel = if selected >= total { 0 } else { selected };
    let s1 = if sel >= scroll && sel - scroll >= visible {
        sel - (visible - 1)
    } else if sel < scroll {
        sel
    } else {
        scroll
    };
    let limit = total.saturating_sub(visible);
    (sel, if s1 <= limit { s1 } else { limit })
}

} // verus!
