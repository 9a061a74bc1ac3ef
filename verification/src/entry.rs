//! What the store keeps for one crate name: its version history, when it was
//! last touched, and whether it is the registry's own.

use vstd::prelude::*;
use crate::package::{UploadedPackage, UploadedPackageView};
use crate::time::Timestamp;
use crate::version::{
    compare_semver, parse_semver, precedes, semver_parse, well_formed, Precedence, SemVer, Version,
};

verus! {

/// The record of one crate name.
#[derive(Debug)]
pub struct Entry {
    pub versions: Vec<UploadedPackage>,
    pub time_of_last_update: Timestamp,
    pub is_local: bool,
}

/// The mathematical value of an [`Entry`].
pub struct EntryView {
    pub versions: Seq<UploadedPackageView>,
    pub time_of_last_update: Timestamp,
    pub is_local: bool,
}

impl View for Entry {
    type V = EntryView;

    open spec fn view(&self) -> EntryView {
        EntryView {
            versions: self.versions.deep_view(),
            time_of_last_update: self.time_of_last_update,
            is_local: self.is_local,
        }
    }
}

impl DeepView for Entry {
    type V = EntryView;

    open spec fn deep_view(&self) -> EntryView {
        self@
    }
}

/// The version that a stored package claims, where its text is one.
pub open spec fn version_of(item: UploadedPackageView) -> Option<SemVer> {
    semver_parse(item.pkg.vers)
}

/// Every stored package names a semantic version.
pub open spec fn all_versioned(items: Seq<UploadedPackageView>) -> bool {
    forall|i: int| 0 <= i < items.len() ==> (#[trigger] version_of(items[i])) is Some
}

/// The versions of the stored packages, in their order.
pub open spec fn versions_of(items: Seq<UploadedPackageView>) -> Seq<SemVer> {
    Seq::new(items.len(), |i: int| version_of(items[i]).unwrap())
}

/// Each version comes strictly before all that follow it.
pub open spec fn rising(versions: Seq<SemVer>) -> bool {
    forall|i: int, j: int|
        #![trigger versions[i], versions[j]]
        0 <= i < j < versions.len() ==> precedes(versions[i], versions[j])
}

/// A history of semantic versions in strictly ascending order.
pub open spec fn ascending(items: Seq<UploadedPackageView>) -> bool {
    all_versioned(items) && rising(versions_of(items))
}

impl EntryView {
    /// The invariant of a record: the history of a local crate is ascending,
    /// so no version occurs twice. A mirrored history is kept as upstream
    /// gave it.
    pub open spec fn wf(self) -> bool {
        self.is_local ==> ascending(self.versions)
    }
}

impl Clone for Entry {
    fn clone(&self) -> (copy: Self)
        ensures
            copy@ == self@,
    {
        let mut versions: Vec<UploadedPackage> = Vec::new();
        let mut i: usize = 0;
        while i < self.versions.len()
            invariant
                i <= self.versions.len(),
                versions.len() == i,
                forall|k: int| 0 <= k < i ==> versions[k]@ == self.versions[k]@,
            decreases self.versions.len() - i,
        {
            versions.push(self.versions[i].clone());
            i += 1;
        }
        assert(versions.deep_view() =~= self.versions.deep_view());
        Entry {
            versions,
            time_of_last_update: self.time_of_last_update,
            is_local: self.is_local,
        }
    }
}

/// Reads the version of every stored package; nothing where one of them
/// names no semantic version.
pub fn parse_versions(items: &Vec<UploadedPackage>) -> (parsed: Option<Vec<Version>>)
    ensures
        match parsed {
            Some(list) => all_versioned(items.deep_view()) && list.deep_view() == versions_of(
                items.deep_view(),
            ),
            None => !all_versioned(items.deep_view()),
        },
        parsed matches Some(list) ==> list.len() == items.len() && forall|k: int|
            0 <= k < list.len() ==> well_formed(#[trigger] list[k]@),
{
    let mut list: Vec<Version> = Vec::new();
    let mut i: usize = 0;
    while i < items.len()
        invariant
            i <= items.len(),
            list.len() == i,
            forall|k: int| 0 <= k < i ==> version_of(items[k]@) == Some(#[trigger] list[k]@),
        decreases items.len() - i,
    {
        match parse_semver(items[i].pkg.vers.as_str()) {
            Some(version) => {
                list.push(version);
            },
            None => {
                assert(version_of(items.deep_view()[i as int]) is None);
                return None;
            },
        }
        i += 1;
    }
    proof {
        assert forall|k: int| 0 <= k < items.deep_view().len() implies (#[trigger] version_of(
            items.deep_view()[k],
        )) is Some by {
            assert(version_of(items[k]@) == Some(list[k]@));
        }
        assert(list.deep_view() =~= versions_of(items.deep_view()));
        assert forall|k: int| 0 <= k < list.len() implies well_formed(#[trigger] list[k]@) by {
            assert(semver_parse(items[k]@.pkg.vers) == Some(list[k]@));
        }
    }
    Some(list)
}

/// Whether each version of a list comes strictly before all that follow it.
pub(crate) fn is_rising(list: &Vec<Version>) -> (rises: bool)
    requires
        forall|k: int| 0 <= k < list.len() ==> well_formed(#[trigger] list[k]@),
    ensures
        rises == rising(list.deep_view()),
{
    let ghost versions = list.deep_view();
    let mut i: usize = 1;
    while i < list.len()
        invariant
            1 <= i,
            versions == list.deep_view(),
            forall|k: int| 0 <= k < list.len() ==> well_formed(#[trigger] list[k]@),
            forall|a: int, b: int|
                #![trigger versions[a], versions[b]]
                0 <= a < b < i && b < versions.len() ==> precedes(versions[a], versions[b]),
        decreases list.len() - i,
    {
        let found = compare_semver(&list[i - 1], &list[i]);
        assert(well_formed(list[i - 1]@) && well_formed(list[i as int]@));
        match found {
            Some(Precedence::Lower) => {
                proof {
                    let low = versions[i - 1];
                    let high = versions[i as int];
                    assert(precedes(low, high));
                    assert forall|a: int, b: int|
                        #![trigger versions[a], versions[b]]
                        0 <= a < b < i + 1 && b < versions.len() implies precedes(
                        versions[a],
                        versions[b],
                    ) by {
                        if b == i && a < i - 1 {
                            assert(precedes(versions[a], versions[i - 1]));
                            assert(well_formed(list[a]@));
                        }
                    }
                }
            },
            _ => {
                assert(!precedes(versions[i - 1], versions[i as int]));
                return false;
            },
        }
        i += 1;
    }
    true
}

impl Entry {
    /// Whether the record keeps its invariant.
    pub fn is_well_formed(&self) -> (ok: bool)
        ensures
            ok == self@.wf(),
    {
        if !self.is_local {
            return true;
        }
        match parse_versions(&self.versions) {
            Some(list) => is_rising(&list),
            None => false,
        }
    }
}

} // verus!
