//! Editing a line of text one character at a time. Places are counted in
//! characters, not in bytes.

use vstd::prelude::*;
use vstd::string::*;

verus! {

/// `String::push` of the standard library. Its documentation says that it
/// appends the given character to the end of the string; the contract says
/// the same of the string's characters.
pub assume_specification[ String::push ](s: &mut String, ch: char)
    ensures
        final(s)@ == old(s)@.push(ch),
;

/// The number of characters of `text`.
pub(crate) fn char_count(text: &String) -> (n: usize)
    ensures
        n == text@.len(),
{
    text.as_str().unicode_len()
}

/// `text` with `c` put in before the character at `at`, or at the end where
/// `at` is the length.
pub(crate) fn with_char_at(text: &String, at: usize, c: char) -> (r: String)
    requires
        at <= text@.len(),
    ensures
        r@ == text@.insert(at as int, c),
{
    let whole = text.as_str();
    let n: usize = whole.unicode_len();
    let mut r = whole.substring_char(0, at).to_owned();
    r.push(c);
    r.append(whole.substring_char(at, n));
    assert(r@ =~= text@.insert(at as int, c));
    r
}

/// `text` without the character at `at`.
pub(crate) fn without_char_at(text: &String, at: usize) -> (r: String)
    requires
        at < text@.len(),
    ensures
        r@ == text@.remove(at as int),
{
    let whole = text.as_str();
    let n: usize = whole.unicode_len();
    let mut r = whole.substring_char(0, at).to_owned();
    r.append(whole.substring_char(at + 1, n));
    assert(r@ =~= text@.remove(at as int));
    r
}

} // verus!
