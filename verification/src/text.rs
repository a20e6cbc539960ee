//! Capitalization of the opening word of a verse.

use vstd::prelude::*;
use vstd::string::{StrSliceExecFns, StringExecFns};

verus! {

/// The ASCII upper-case counterpart of a character; characters outside
/// `'a'..='z'` are unchanged.
pub open spec fn upper_char(c: char) -> char {
    if 'a' <= c && c <= 'z' {
        ((c as int) - 32) as char
    } else {
        c
    }
}

/// A sequence of characters with its first character upper-cased.
pub open spec fn capitalized(s: Seq<char>) -> Seq<char> {
    if s.len() == 0 {
        s
    } else {
        seq![upper_char(s[0])] + s.drop_first()
    }
}

/// Relies on `String::push`: appends the given character to the end of the
/// string.
#[verifier::external_body]
pub(crate) fn push_char(s: &mut String, c: char)
    ensures
        final(s)@ == old(s)@.push(c),
{
    s.push(c);
}

/// The ASCII upper-case counterpart of `c`.
fn to_upper(c: char) -> (r: char)
    ensures
        r == upper_char(c),
{
    if 'a' <= c && c <= 'z' {
        (((c as u32) - 32) as u8) as char
    } else {
        c
    }
}

/// Upper-cases the first character of a word, as the opening of a verse
/// demands; an empty word stays empty.
pub(crate) fn capitalize(word: &str) -> (r: String)
    ensures
        r@ == capitalized(word@),
{
    let len: usize = word.unicode_len();
    if len == 0 {
        String::new()
    } else {
        let first = word.get_char(0);
        let mut r = String::new();
        push_char(&mut r, to_upper(first));
        let rest = word.substring_char(1, len);
        r.append(rest);
        proof {
            assert(r@ =~= capitalized(word@));
        }
        r
    }
}

/// Capitalizing a non-empty word leaves everything after the word alone.
pub proof fn lemma_capitalized_append(a: Seq<char>, b: Seq<char>)
    requires
        a.len() > 0,
    ensures
        capitalized(a + b) == capitalized(a) + b,
{
    assert((a + b)[0] == a[0]);
    assert(capitalized(a + b) =~= capitalized(a) + b);
}

} // verus!
