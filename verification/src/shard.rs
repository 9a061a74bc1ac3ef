//! The directory prefix under which a sparse index files a crate name.

use vstd::prelude::*;
use vstd::string::*;
use vstd::utf8::*;

verus! {

/// Whether a name has a sharding prefix: it is one to three bytes long, or
/// holds at least four characters.
pub open spec fn has_prefix(name: Seq<char>) -> bool {
    1 <= encode_utf8(name).len() <= 3 || name.len() >= 4
}

/// The sharding prefix of a name: `1` and `2` for names of one and two
/// bytes, `3/` and the first character for names of three bytes, and the
/// first four characters, two by two, for all longer names.
pub open spec fn prefix_of(name: Seq<char>) -> Seq<char> {
    let bytes = encode_utf8(name).len();
    if bytes == 1 {
        seq!['1']
    } else if bytes == 2 {
        seq!['2']
    } else if bytes == 3 {
        seq!['3', '/', name[0]]
    } else {
        seq![name[0], name[1], '/', name[2], name[3]]
    }
}

/// A name that encodes to at least one byte holds at least one character.
pub proof fn lemma_nonempty_bytes(name: Seq<char>)
    requires
        encode_utf8(name).len() > 0,
    ensures
        name.len() > 0,
{
}

/// Whether a name has a sharding prefix.
pub fn is_shardable(name: &str) -> (ok: bool)
    ensures
        ok == has_prefix(name@),
{
    let bytes = name.as_bytes().len();
    (1 <= bytes && bytes <= 3) || name.unicode_len() >= 4
}

/// Works out the sharding prefix of a name.
pub fn crate_prefix(name: &str) -> (prefix: String)
    requires
        has_prefix(name@),
    ensures
        prefix@ == prefix_of(name@),
{
    let bytes = name.as_bytes().len();
    proof {
        reveal_strlit("1");
        reveal_strlit("2");
        reveal_strlit("3/");
        reveal_strlit("/");
    }
    if bytes == 1 {
        String::from_str("1")
    } else if bytes == 2 {
        String::from_str("2")
    } else if bytes == 3 {
        proof {
            lemma_nonempty_bytes(name@);
        }
        let out = String::from_str("3/").concat(name.substring_char(0, 1));
        assert(out@ =~= prefix_of(name@));
        out
    } else {
        let out = String::from_str(name.substring_char(0, 2)).concat("/").concat(
            name.substring_char(2, 4),
        );
        assert(out@ =~= prefix_of(name@));
        out
    }
}

} // verus!
