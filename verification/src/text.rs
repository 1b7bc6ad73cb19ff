//! Small operations on text, stated over sequences of characters.

use vstd::prelude::*;
use vstd::string::*;

verus! {

/// Whether two pieces of text hold the same characters.
pub fn same_text(a: &str, b: &str) -> (same: bool)
    ensures
        same == (a@ == b@),
{
    let left: String = a.to_owned();
    let right: String = b.to_owned();
    left == right
}

/// Whether `text` begins with `prefix`.
pub fn has_prefix(text: &str, prefix: &str) -> (found: bool)
    ensures
        found == prefix@.is_prefix_of(text@),
{
    let text_len: usize = text.unicode_len();
    let prefix_len: usize = prefix.unicode_len();
    if text_len < prefix_len {
        false
    } else {
        let head: &str = text.substring_char(0, prefix_len);
        let found: bool = same_text(head, prefix);
        proof {
            assert(head@ == text@.subrange(0, prefix_len as int));
            if found {
                assert(prefix@ =~= text@.subrange(0, prefix@.len() as int));
            }
        }
        found
    }
}

/// The part of `text` that follows its first `count` characters; empty
/// where `text` has no more than `count` characters.
pub fn text_after(text: &str, count: usize) -> (rest: String)
    ensures
        rest@ == if count <= text@.len() {
            text@.skip(count as int)
        } else {
            Seq::empty()
        },
{
    let text_len: usize = text.unicode_len();
    if count <= text_len {
        text.substring_char(count, text_len).to_owned()
    } else {
        String::new()
    }
}

} // verus!
