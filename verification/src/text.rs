//! Two questions about texts: whether they are the same, and whether one
//! holds the other.

use vstd::prelude::*;
use vstd::slice::*;

verus! {

/// Whether two texts are the same, character for character.
pub fn str_equal(left: &str, right: &str) -> (same: bool)
    ensures
        same == (left@ == right@),
{
    let a = left.as_bytes();
    let b = right.as_bytes();
    if a.len() != b.len() {
        return false;
    }
    let mut i: usize = 0;
    while i < a.len()
        invariant
            i <= a.len(),
            a@ == vstd::utf8::encode_utf8(left@),
            b@ == vstd::utf8::encode_utf8(right@),
            a@.len() == b@.len(),
            forall|k: int| 0 <= k < i ==> a@[k] == b@[k],
        decreases a.len() - i,
    {
        if a[i] != b[i] {
            return false;
        }
        i += 1;
    }
    proof {
        assert(a@ =~= b@);
        vstd::utf8::encode_utf8_decode_utf8(left@);
        vstd::utf8::encode_utf8_decode_utf8(right@);
    }
    true
}

/// Whether `part` stands somewhere in `text`, character for character.
pub open spec fn is_part_of(part: Seq<char>, text: Seq<char>) -> bool {
    exists|from: int|
        0 <= from && from + part.len() <= text.len() && #[trigger] text.subrange(
            from,
            from + part.len(),
        ) == part
}

/// Looks for a text in another with `str::contains` of the standard
/// library. The contract claims what its documentation says: the answer is
/// whether the pattern matches a part of the text.
#[verifier::external_body]
pub(crate) fn contains_text(text: &str, part: &str) -> (found: bool)
    ensures
        found == is_part_of(part@, text@),
{
    text.contains(part)
}

} // verus!
