//! Texts as sequences of characters.

use vstd::prelude::*;

verus! {

/// Returns whether `text` starts with `prefix`.
pub(crate) fn starts_with(text: &str, prefix: &str) -> (yes: bool)
    ensures
        yes == prefix@.is_prefix_of(text@),
{
    let text_len: usize = text.unicode_len();
    let prefix_len: usize = prefix.unicode_len();
    if prefix_len > text_len {
        return false;
    }
    for i in 0..prefix_len
        invariant
            prefix_len == prefix@.len(),
            prefix_len <= text@.len(),
            forall|j: int| 0 <= j < i ==> prefix@[j] == text@[j],
    {
        if prefix.get_char(i) != text.get_char(i) {
            return false;
        }
    }
    assert(prefix@ =~= text@.subrange(0, prefix@.len() as int));
    true
}

/// Returns `text` with a line break at its end.
pub(crate) fn line(text: &String) -> (with_break: String)
    ensures
        with_break@ == text@ + "\n"@,
{
    text.clone().concat("\n")
}

} // verus!
