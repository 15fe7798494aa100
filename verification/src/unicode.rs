//! The boundary to the Unicode facilities the line model is built on: grapheme
//! segmentation, display width, and the character classes used to pick a
//! replacement glyph. Each item here wraps exactly one outside function and
//! states only what that function's documentation and source show.

use vstd::prelude::*;

use unicode_segmentation::UnicodeSegmentation;
use unicode_width::UnicodeWidthStr;

verus! {

/// The grapheme-cluster decomposition of a character sequence, as
/// unicode_segmentation's extended-cluster segmentation produces it.
pub uninterp spec fn graphemes_of(s: Seq<char>) -> Seq<Seq<char>>;

/// The terminal column width of a character sequence, as unicode_width
/// computes it.
pub uninterp spec fn display_width(s: Seq<char>) -> nat;

/// Whether a character has the Unicode `White_Space` property, as
/// `char::is_whitespace` reports it.
pub uninterp spec fn is_white_char(c: char) -> bool;

/// Whether a character is a control character, as `char::is_control`
/// reports it.
pub uninterp spec fn is_ctrl_char(c: char) -> bool;

/// Relies on unicode_segmentation's `str::graphemes(true)`: the iterator
/// yields consecutive nonempty substrings of the input, cut at extended
/// grapheme cluster boundaries, whose concatenation is the input again.
#[verifier::external_body]
pub fn split_graphemes(s: &str) -> (r: Vec<String>)
    ensures
        r.deep_view() == graphemes_of(s@),
        r.deep_view().flatten() == s@,
        forall|i: int| 0 <= i < r.deep_view().len() ==> r.deep_view()[i].len() > 0,
{
    s.graphemes(true).map(|g| g.to_string()).collect()
}

/// Relies on unicode_width's `UnicodeWidthStr::width`: the column width of a
/// string, a function of its characters alone.
#[verifier::external_body]
pub fn str_display_width(s: &str) -> (r: usize)
    ensures
        r as nat == display_width(s@),
{
    UnicodeWidthStr::width(s)
}

/// Relies on `char::is_whitespace` of std: true exactly for characters with
/// the `White_Space` property.
#[verifier::external_body]
pub fn char_is_whitespace(c: char) -> (r: bool)
    ensures
        r == is_white_char(c),
{
    c.is_whitespace()
}

/// Relies on `char::is_control` of std: true exactly for characters in the
/// `Cc` general category.
#[verifier::external_body]
pub fn char_is_control(c: char) -> (r: bool)
    ensures
        r == is_ctrl_char(c),
{
    c.is_control()
}

/// Relies on `String::push` of std: appends the character to the end of the
/// string.
#[verifier::external_body]
pub fn push_char(s: &mut String, c: char)
    ensures
        final(s)@ == old(s)@.push(c),
{
    s.push(c)
}

/// Relies on `String::pop` of std: removes and returns the last character, or
/// returns `None` and leaves the string unchanged when it is empty.
#[verifier::external_body]
pub fn pop_char(s: &mut String) -> (r: Option<char>)
    ensures
        old(s)@.len() == 0 ==> final(s)@ == old(s)@ && r is None,
        old(s)@.len() > 0 ==> final(s)@ == old(s)@.drop_last() && r == Some(old(s)@.last()),
{
    s.pop()
}

} // verus!
