//! The tab strips at the top of list pages.

use vstd::prelude::*;
use crate::pages::geometry::{tab_rects, tab_rects_spec, Rect, TabRect};

verus! {

/// The hit boxes of a tab strip, two columns apart.
pub fn rects(area: Rect, labels: &Vec<String>, max_width: usize) -> (r: Vec<TabRect>)
    ensures
        r@ == tab_rects_spec(area.x, area.y, area.spec_right(), labels@.map_values(|l: String| l@), 0, 2, max_width as nat),
{
    tab_rects(area, labels, 2, max_width)
}

} // verus!
