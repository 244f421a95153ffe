//! The frame of the interface: the side bar on the left, and beside it the
//! page title, the page, and the player bar with its four rows.

use vstd::prelude::*;
use crate::pages::geometry::Rect;

verus! {

/// The areas of one frame.
#[derive(Debug, Clone, Copy, PartialEq, Eq, Structural)]
pub struct FrameLayout {
    pub sidebar: Rect,
    /// The page title and the rule under it.
    pub header: Rect,
    pub content: Rect,
    /// The player bar, its top border included.
    pub player: Rect,
    pub song_row: Rect,
    pub progress_row: Rect,
    pub controls_row: Rect,
    pub meta_row: Rect,
}

/// The least width the page keeps beside the side bar.
pub const MIN_MAIN_WIDTH: u16 = 30;

/// The least height that holds the title (2 rows), a page of 3 rows and the
/// player bar (5 rows).
pub const MIN_FRAME_HEIGHT: u16 = 10;

/// The frame of a `width` by `height` screen with a side bar
/// `sidebar_width` columns wide: the side bar takes the full height; beside
/// it the title takes 2 rows, the player bar the last 5 (a border, then the
/// song, progress, control and meta rows), and the page the rest. None when
/// the screen cannot give every part its least size.
pub open spec fn frame_layout_spec(width: u16, height: u16, sidebar_width: u16) -> Option<FrameLayout> {
    if width < sidebar_width + MIN_MAIN_WIDTH || height < MIN_FRAME_HEIGHT {
        None
    } else {
        let mx = sidebar_width;
        let mw = (width - sidebar_width) as u16;
        let py = (height - 5) as u16;
        Some(FrameLayout {
            sidebar: Rect { x: 0, y: 0, width: sidebar_width, height },
            header: Rect { x: mx, y: 0, width: mw, height: 2 },
            content: Rect { x: mx, y: 2, width: mw, height: (height - 7) as u16 },
            player: Rect { x: mx, y: py, width: mw, height: 5 },
            song_row: Rect { x: mx, y: (py + 1) as u16, width: mw, height: 1 },
            progress_row: Rect { x: mx, y: (py + 2) as u16, width: mw, height: 1 },
            controls_row: Rect { x: mx, y: (py + 3) as u16, width: mw, height: 1 },
            meta_row: Rect { x: mx, y: (py + 4) as u16, width: mw, height: 1 },
        })
    }
}

/// The frame of a screen, when it is large enough.
pub fn frame_layout(width: u16, height: u16, sidebar_width: u16) -> (l: Option<FrameLayout>)
    ensures
        l == frame_layout_spec(width, height, sidebar_width),
{
    if sidebar_width > width || width - sidebar_width < MIN_MAIN_WIDTH || height < MIN_FRAME_HEIGHT {
        return None;
    }
    let mx = sidebar_width;
    let mw = width - sidebar_width;
    let py = height - 5;
    Some(FrameLayout {
        sidebar: Rect::new(0, 0, sidebar_width, height),
        header: Rect::new(mx, 0, mw, 2),
        content: Rect::new(mx, 2, mw, height - 7),
        player: Rect::new(mx, py, mw, 5),
        song_row: Rect::new(mx, py + 1, mw, 1),
        progress_row: Rect::new(mx, py + 2, mw, 1),
        controls_row: Rect::new(mx, py + 3, mw, 1),
        meta_row: Rect::new(mx, py + 4, mw, 1),
    })
}

/// The parts of a frame tile the screen: the side bar and the page column
/// lie side by side, and the title, page and player bar stack in the page
/// column without gaps or overlap, the player's rows under its border.
pub proof fn lemma_frame_tiles(width: u16, height: u16, sidebar_width: u16)
    requires
        frame_layout_spec(width, height, sidebar_width) is Some,
    ensures
        ({
            let l = frame_layout_spec(width, height, sidebar_width)->0;
            &&& l.sidebar.width + l.header.width == width
            &&& l.header.x == l.sidebar.width && l.content.x == l.header.x && l.player.x == l.header.x
            &&& l.header.height + l.content.height + l.player.height == height
            &&& l.content.y == l.header.y + l.header.height
            &&& l.player.y == l.content.y + l.content.height
            &&& l.content.height >= 3
            &&& l.song_row.y == l.player.y + 1 && l.meta_row.y + 1 == height
        }),
{
}

} // verus!
