//! Counting the user-perceived characters of a text.

use unicode_segmentation::UnicodeSegmentation;
use vstd::prelude::*;

verus! {

/// The number of extended grapheme clusters into which Unicode Standard
/// Annex #29 divides `s`.
pub uninterp spec fn extended_grapheme_count(s: Seq<char>) -> nat;

/// `UnicodeSegmentation::graphemes` of the crate unicode-segmentation, asked
/// for extended clusters, and the number of items of the iterator it gives.
/// Not proved: the contract only gives that number its name, and says
/// nothing of its size.
#[verifier::external_body]
pub(crate) fn count_extended_graphemes(s: &str) -> (n: usize)
    ensures
        n == extended_grapheme_count(s@),
{
    s.graphemes(true).count()
}

} // verus!
