//! Lower-casing text for case-insensitive search, as std does it.

use vstd::prelude::*;

verus! {

/// The lower-case form `str::to_lowercase` gives a string.
pub uninterp spec fn unicode_lowercase(s: Seq<char>) -> Seq<char>;

/// `str::to_lowercase`: the Unicode lower-case mapping of every character
/// (context-dependent for final sigma); only its name is stated.
#[verifier::external_body]
pub(crate) fn to_lowercase(s: &str) -> (r: String)
    ensures
        r@ == unicode_lowercase(s@),
{
    s.to_lowercase()
}

} // verus!
