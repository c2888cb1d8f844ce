//! The trusted boundary to the Unicode data the text model depends on:
//! extended grapheme cluster segmentation, display width, and two character
//! classes. Each result is a function of the characters alone, so it is
//! given a name that the contracts of the text model speak of.

use vstd::prelude::*;
use unicode_segmentation::UnicodeSegmentation;
use unicode_width::UnicodeWidthStr;

verus! {

/// The extended grapheme clusters of a string, in order.
pub uninterp spec fn grapheme_segments(s: Seq<char>) -> Seq<Seq<char>>;

/// The number of terminal columns a string occupies.
pub uninterp spec fn display_width(s: Seq<char>) -> nat;

/// Whether a character has the Unicode `White_Space` property.
pub uninterp spec fn char_whitespace(c: char) -> bool;

/// Whether a character is in the Unicode `Cc` (control) category.
pub uninterp spec fn char_control(c: char) -> bool;

/// Relies on unicode_segmentation's `UnicodeSegmentation::graphemes` with
/// `is_extended = true` (UAX #29 extended grapheme clusters): the clusters
/// are nonempty substrings of `s` that, concatenated in order, reproduce
/// `s` exactly, and the split depends on the characters alone.
#[verifier::external_body]
pub fn split_graphemes(s: &str) -> (segs: Vec<String>)
    ensures
        segs.deep_view() == grapheme_segments(s@),
        segs.deep_view().flatten() == s@,
        forall|i: int| 0 <= i < segs.deep_view().len() ==> segs.deep_view()[i].len() > 0,
{
    s.graphemes(true).map(|g| g.to_string()).collect()
}

/// Relies on unicode_width's `UnicodeWidthStr::width` (UAX #11): the display
/// width of a string, which depends on the characters alone.
#[verifier::external_body]
pub fn measured_width(s: &str) -> (w: usize)
    ensures
        w as nat == display_width(s@),
{
    UnicodeWidthStr::width(s)
}

/// Relies on char::is_whitespace from std: the `White_Space` property.
pub assume_specification[ char::is_whitespace ](c: char) -> (r: bool)
    ensures
        r == char_whitespace(c),
;

/// Relies on char::is_control from std: the `Cc` general category.
pub assume_specification[ char::is_control ](c: char) -> (r: bool)
    ensures
        r == char_control(c),
;

} // verus!
