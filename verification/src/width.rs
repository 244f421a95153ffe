//! Display widths of characters and strings in terminal columns, as the
//! `unicode-width` crate measures them.

use vstd::prelude::*;
use unicode_width::{UnicodeWidthChar, UnicodeWidthStr};

verus! {

/// The column width `unicode-width` gives a character (`None` for control
/// characters).
pub uninterp spec fn unicode_char_width(c: char) -> Option<usize>;

/// The column width `unicode-width` gives a string.
pub uninterp spec fn unicode_str_width(s: Seq<char>) -> usize;

/// `UnicodeWidthChar::width`: the columns a character takes. Its source
/// answers `None` for the control codes below U+0020 and from U+007F to
/// U+009F, `Some(1)` for the rest of ASCII, and a table value otherwise.
#[verifier::external_body]
pub(crate) fn char_width(c: char) -> (r: Option<usize>)
    ensures
        r == unicode_char_width(c),
        (c < ' ' || ('\u{7f}' <= c && c < '\u{a0}')) ==> r is None,
        (' ' <= c && c < '\u{7f}') ==> r == Some(1usize),
        c >= '\u{a0}' ==> r is Some,
{
    UnicodeWidthChar::width(c)
}

/// `UnicodeWidthStr::width`: the columns a string takes; it is not always
/// the sum of its characters' widths (some sequences combine), so only its
/// name is stated.
#[verifier::external_body]
pub(crate) fn str_width(s: &str) -> (w: usize)
    ensures
        w == unicode_str_width(s@),
{
    UnicodeWidthStr::width(s)
}

/// The width a character adds when text is cut to fit: control characters
/// count as nothing.
pub open spec fn column_width(c: char) -> nat {
    match unicode_char_width(c) {
        Some(w) => w as nat,
        None => 0,
    }
}

} // verus!
