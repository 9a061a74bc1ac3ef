//! Where the content store keeps the archive of a version.

use vstd::prelude::*;
use vstd::string::*;

verus! {

/// The place of an archive below the data directory, as the names of the
/// directories and of the file: `crates`, the name of the crate, and the
/// version with `.crate` after it.
pub open spec fn path_of(name: Seq<char>, version: Seq<char>) -> Seq<Seq<char>> {
    seq!["crates"@, name, version + ".crate"@]
}

/// The place of the archive of a version below the data directory.
pub fn crate_path(name: &str, version: &str) -> (path: Vec<String>)
    ensures
        path.deep_view() == path_of(name@, version@),
{
    let mut path: Vec<String> = Vec::new();
    path.push("crates".to_owned());
    path.push(name.to_owned());
    path.push(version.to_owned().concat(".crate"));
    assert(path.deep_view() =~= path_of(name@, version@));
    path
}

} // verus!
