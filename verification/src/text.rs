//! Text as the console edits and measures it.

use unicode_width::UnicodeWidthStr;
use vstd::prelude::*;

verus! {

/// `String::push` appends the character to the end of the string.
pub assume_specification[ String::push ](text: &mut String, ch: char)
    ensures
        final(text)@ == old(text)@.push(ch),
;

/// `String::pop` removes the last character and returns it; on an empty
/// string it returns `None` and changes nothing.
pub assume_specification[ String::pop ](text: &mut String) -> (ch: Option<char>)
    ensures
        old(text)@.len() == 0 ==> ch is None && final(text)@ == old(text)@,
        old(text)@.len() > 0 ==> ch == Some(old(text)@.last()) && final(text)@ == old(
            text,
        )@.drop_last(),
;

/// The number of terminal columns that a text takes when displayed, as the
/// Unicode width tables give it.
pub uninterp spec fn display_width(text: Seq<char>) -> nat;

/// `UnicodeWidthStr::width` of the `unicode-width` crate: the displayed
/// width of `text` in columns. The contract only names the result: it is a
/// function of the characters alone.
#[verifier::external_body]
pub(crate) fn text_width(text: &str) -> (columns: usize)
    ensures
        columns == display_width(text@),
{
    text.width()
}

} // verus!
