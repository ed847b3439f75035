//! What the library needs from `String` and `str` beyond what vstd specifies.

use vstd::prelude::*;

verus! {

/// Whether `c` has the Unicode `White_Space` property: what
/// `char::is_whitespace` answers, and what `str::trim` strips.
pub uninterp spec fn is_white_space(c: char) -> bool;

/// The text has at least one character that is not white space.
pub open spec fn has_visible_char(text: Seq<char>) -> bool {
    exists|i: int| 0 <= i < text.len() && !is_white_space(#[trigger] text[i])
}

/// The length of the text in bytes of its UTF-8 encoding, as `str::len`
/// reports it.
pub open spec fn byte_len(text: Seq<char>) -> usize {
    vstd::utf8::encode_utf8(text).len() as usize
}

/// `String::push`: appends `c` to the end of `text`.
#[verifier::external_body]
pub(crate) fn push_char(text: &mut String, c: char)
    ensures
        final(text)@ == old(text)@.push(c),
{
    text.push(c)
}

/// `String::pop`: removes the last character and returns it, or returns
/// `None` and leaves an empty `text` as it is.
#[verifier::external_body]
pub(crate) fn pop_char(text: &mut String) -> (last: Option<char>)
    ensures
        old(text)@.len() == 0 ==> last.is_none() && final(text)@ == old(text)@,
        old(text)@.len() > 0 ==> last == Some(old(text)@.last()),
        old(text)@.len() > 0 ==> last.is_some() && final(text)@ == old(text)@.drop_last(),
{
    text.pop()
}

/// `inner` is `text` without the white space at both ends: it starts at
/// `start`, every character before and after it is white space, and its first
/// and last characters, if it has any, are not.
pub open spec fn is_trimmed(text: Seq<char>, inner: Seq<char>, start: int) -> bool {
    &&& 0 <= start
    &&& start + inner.len() <= text.len()
    &&& inner == text.subrange(start, start + inner.len())
    &&& forall|k: int| 0 <= k < start ==> is_white_space(#[trigger] text[k])
    &&& forall|k: int| start + inner.len() <= k < text.len() ==> is_white_space(#[trigger] text[k])
    &&& inner.len() > 0 ==> !is_white_space(inner[0]) && !is_white_space(inner[inner.len() - 1])
}

/// `str::trim`: the slice of `text` that is left when the white space at
/// both ends is taken away, white space being what `char::is_whitespace`
/// answers to.
#[verifier::external_body]
pub(crate) fn trim(text: &str) -> (inner: &str)
    ensures
        exists|start: int| is_trimmed(text@, inner@, start),
        inner@.len() > 0 ==> !is_white_space(inner@[0]),
{
    text.trim()
}

/// The length of `text` in bytes.
pub fn text_len(text: &String) -> (len: usize)
    ensures
        len == byte_len(text@),
{
    text.as_str().len()
}

/// Whether `text` is empty or white space only.
pub fn is_blank(text: &String) -> (blank: bool)
    ensures
        blank == !has_visible_char(text@),
{
    let inner = trim(text.as_str());
    proof {
        let start = choose|start: int| is_trimmed(text@, inner@, start);
        if inner@.len() > 0 {
            assert(inner@[0] == text@[start]);
            assert(!is_white_space(text@[start]));
        } else {
            assert forall|i: int| 0 <= i < text@.len() implies is_white_space(
                #[trigger] text@[i],
            ) by {
                assert(i < start || start + inner@.len() <= i);
            }
        }
    }
    inner.is_empty()
}

} // verus!
