//! The life of a version: it is published once, into its place in the
//! ascending history of its crate, and may then be yanked and unyanked.
//!
//! Versions may arrive in any order: a version older than the newest takes
//! its place among the stored ones, so the history stays ascending.

use vstd::prelude::*;
use crate::entry::{
    ascending, is_rising, parse_versions, rising, version_of, versions_of, Entry, EntryView,
};
use crate::error::LifecycleError;
use crate::package::{
    package_of, Metadata, MetadataView, UploadedPackage, UploadedPackageView,
};
use crate::time::Timestamp;
use crate::version::{
    compare_semver, parse_semver, precedes, semver_order, semver_parse, well_formed, Precedence,
    SemVer, Version,
};

verus! {

/// The stored package at `at` names exactly the version `target`.
pub open spec fn matches_at(items: Seq<UploadedPackageView>, target: SemVer, at: int) -> bool {
    0 <= at < items.len() && version_of(items[at]) == Some(target)
}

/// Some stored package names exactly the version `target`.
pub open spec fn holds_version(items: Seq<UploadedPackageView>, target: SemVer) -> bool {
    exists|at: int| matches_at(items, target, at)
}

/// `at` is the first stored package that names the version `target`.
pub open spec fn first_match(items: Seq<UploadedPackageView>, target: SemVer, at: int) -> bool {
    matches_at(items, target, at) && forall|k: int| 0 <= k < at ==> !matches_at(items, target, k)
}

/// The versions before `at` come before `version`, and `version` comes
/// before all from `at` on.
pub open spec fn splits_at(versions: Seq<SemVer>, version: SemVer, at: int) -> bool {
    &&& 0 <= at <= versions.len()
    &&& forall|i: int| 0 <= i < at ==> precedes(#[trigger] versions[i], version)
    &&& forall|j: int| at <= j < versions.len() ==> precedes(version, #[trigger] versions[j])
}

/// `after` is `before` with `item` put in at `at`, where its version belongs.
pub open spec fn placed_at(
    before: Seq<UploadedPackageView>,
    item: UploadedPackageView,
    at: int,
    after: Seq<UploadedPackageView>,
) -> bool {
    &&& version_of(item) is Some
    &&& splits_at(versions_of(before), version_of(item).unwrap(), at)
    &&& after == before.insert(at, item)
}

/// `after` is `before` with `item` put in where its version belongs.
pub open spec fn placed(
    before: Seq<UploadedPackageView>,
    item: UploadedPackageView,
    after: Seq<UploadedPackageView>,
) -> bool {
    exists|at: int| placed_at(before, item, at, after)
}

/// The stored form of a fresh upload.
pub open spec fn uploaded(meta: MetadataView, cksum: Seq<char>, now: Timestamp)
    -> UploadedPackageView {
    UploadedPackageView {
        pkg: package_of(meta, cksum),
        upload_meta: Some(meta),
        upload_timestamp: Some(now),
    }
}

/// The history that a publish finds: that of the record, or none.
pub open spec fn history(existing: Option<EntryView>) -> Seq<UploadedPackageView> {
    match existing {
        Some(entry) => entry.versions,
        None => Seq::empty(),
    }
}

/// Why a publish is turned down, if it is. The checks are made in this
/// order: a mirrored name takes no upload, whatever the version; the version
/// must be a semantic version; the stored history must be sound; and it must
/// not hold the version yet.
pub open spec fn publish_refusal(existing: Option<EntryView>, meta: MetadataView) -> Option<
    LifecycleError,
> {
    if existing is Some && !existing.unwrap().is_local {
        Some(LifecycleError::NameShadowConflict)
    } else if semver_parse(meta.vers) is None {
        Some(LifecycleError::InvalidVersion)
    } else if !ascending(history(existing)) {
        Some(LifecycleError::CorruptEntry)
    } else if holds_version(history(existing), semver_parse(meta.vers).unwrap()) {
        Some(LifecycleError::AlreadyExists)
    } else {
        None
    }
}

/// `after` is the record that an accepted publish leaves: local, touched
/// now, and holding the upload at its place in the history.
pub open spec fn published(
    existing: Option<EntryView>,
    meta: MetadataView,
    cksum: Seq<char>,
    now: Timestamp,
    after: EntryView,
) -> bool {
    &&& publish_refusal(existing, meta) is None
    &&& after.is_local
    &&& after.time_of_last_update == now
    &&& placed(history(existing), uploaded(meta, cksum, now), after.versions)
}

/// Where a version belongs in a rising list: the index before which it goes,
/// or nothing where the list holds it already.
pub(crate) fn find_place(list: &Vec<Version>, version: &Version) -> (place: Option<usize>)
    requires
        forall|k: int| 0 <= k < list.len() ==> well_formed(#[trigger] list[k]@),
        well_formed(version@),
        rising(list.deep_view()),
    ensures
        match place {
            Some(at) => splits_at(list.deep_view(), version@, at as int) && !list.deep_view().contains(
                version@,
            ),
            None => list.deep_view().contains(version@),
        },
{
    let ghost versions = list.deep_view();
    let mut at: usize = 0;
    let mut i: usize = 0;
    while i < list.len()
        invariant
            i <= list.len(),
            at <= i,
            versions == list.deep_view(),
            forall|k: int| 0 <= k < list.len() ==> well_formed(#[trigger] list[k]@),
            well_formed(version@),
            rising(versions),
            forall|k: int| 0 <= k < at ==> precedes(#[trigger] versions[k], version@),
            forall|k: int|
                at <= k < i ==> semver_order(#[trigger] versions[k], version@) is Higher
                    && precedes(version@, versions[k]),
            forall|k: int| 0 <= k < i ==> #[trigger] versions[k] != version@,
        decreases list.len() - i,
    {
        assert(well_formed(list[i as int]@));
        let found = compare_semver(&list[i], version);
        match found {
            Some(Precedence::Same) => {
                assert(versions[i as int] == version@);
                return None;
            },
            Some(Precedence::Lower) => {
                proof {
                    if at < i {
                        let k = at as int;
                        assert(semver_order(versions[k], version@) is Higher);
                        assert(precedes(versions[k], versions[i as int]));
                        assert(well_formed(list[k]@));
                        assert(precedes(versions[k], version@));
                    }
                }
                at = i + 1;
            },
            _ => {},
        }
        i += 1;
    }
    proof {
        if versions.contains(version@) {
            let k = choose|k: int| 0 <= k < versions.len() && versions[k] == version@;
            assert(versions[k] != version@);
        }
    }
    Some(at)
}

/// Publishes a version of a crate: from the record that the store holds for
/// the name, if any, to the record that takes its place.
pub fn publish(existing: Option<Entry>, meta: &Metadata, cksum: &str, now: Timestamp) -> (outcome:
    Result<Entry, LifecycleError>)
    ensures
        match outcome {
            Ok(after) => published(existing.deep_view(), meta@, cksum@, now, after@),
            Err(error) => publish_refusal(existing.deep_view(), meta@) == Some(error),
        },
        outcome matches Ok(after) ==> after@.wf(),
{
    let ghost before = history(existing.deep_view());
    let ghost fresh = uploaded(meta@, cksum@, now);
    if let Some(entry) = &existing {
        if !entry.is_local {
            return Err(LifecycleError::NameShadowConflict);
        }
    }
    let version = match parse_semver(meta.vers.as_str()) {
        Some(version) => version,
        None => {
            return Err(LifecycleError::InvalidVersion);
        },
    };
    assert(version_of(fresh) == Some(version@));
    let mut entry = match existing {
        Some(entry) => entry,
        None => Entry { versions: Vec::new(), time_of_last_update: now, is_local: true },
    };
    assert(entry.versions.deep_view() =~= before);
    let list = match parse_versions(&entry.versions) {
        Some(list) => list,
        None => {
            return Err(LifecycleError::CorruptEntry);
        },
    };
    if !is_rising(&list) {
        return Err(LifecycleError::CorruptEntry);
    }
    let at = match find_place(&list, &version) {
        Some(at) => at,
        None => {
            proof {
                let k = choose|k: int|
                    0 <= k < list.deep_view().len() && list.deep_view()[k] == version@;
                assert(matches_at(before, version@, k));
            }
            return Err(LifecycleError::AlreadyExists);
        },
    };
    proof {
        if holds_version(before, version@) {
            let k = choose|k: int| matches_at(before, version@, k);
            assert(list.deep_view()[k] == version@);
            assert(list.deep_view().contains(version@));
        }
    }
    let item = UploadedPackage {
        pkg: meta.to_package(cksum.to_owned()),
        upload_meta: Some(meta.clone()),
        upload_timestamp: Some(now),
    };
    assert(item@ == fresh);
    entry.versions.insert(at, item);
    entry.time_of_last_update = now;
    entry.is_local = true;
    proof {
        assert(entry.versions.deep_view() =~= before.insert(at as int, fresh));
        assert(placed_at(before, fresh, at as int, entry@.versions));
        lemma_placed_ascending(before, fresh, entry@.versions);
    }
    Ok(entry)
}

/// Putting a package in where its version belongs keeps an ascending
/// history ascending, and makes it one longer.
pub proof fn lemma_placed_ascending(
    before: Seq<UploadedPackageView>,
    item: UploadedPackageView,
    after: Seq<UploadedPackageView>,
)
    requires
        ascending(before),
        placed(before, item, after),
    ensures
        ascending(after),
        after.len() == before.len() + 1,
{
    let at = choose|at: int| placed_at(before, item, at, after);
    let old_versions = versions_of(before);
    let new_versions = versions_of(after);
    let version = version_of(item).unwrap();
    assert forall|i: int| 0 <= i < after.len() implies (#[trigger] version_of(after[i])) is Some by {
        if i < at {
            assert(after[i] == before[i]);
        } else if i > at {
            assert(after[i] == before[i - 1]);
            assert(version_of(before[i - 1]) is Some);
        }
    }
    assert forall|i: int, j: int|
        #![trigger new_versions[i], new_versions[j]]
        0 <= i < j < new_versions.len() implies precedes(new_versions[i], new_versions[j]) by {
        let a = if i < at { i } else { i - 1 };
        let b = if j < at { j } else { j - 1 };
        if i != at {
            assert(after[i] == before[a]);
            assert(new_versions[i] == old_versions[a]);
        }
        if j != at {
            assert(after[j] == before[b]);
            assert(new_versions[j] == old_versions[b]);
        }
        if i != at && j != at {
            assert(precedes(old_versions[a], old_versions[b]));
        }
    }
}

/// A stored package with its yanked flag set as given, all else as it was.
pub open spec fn flagged(item: UploadedPackageView, yanked: bool) -> UploadedPackageView {
    UploadedPackageView {
        pkg: crate::package::PackageView { yanked: yanked, ..item.pkg },
        ..item
    }
}

/// The first stored package that names the version `target`, where there is
/// one.
pub open spec fn first_index(items: Seq<UploadedPackageView>, target: SemVer) -> int {
    choose|at: int| first_match(items, target, at)
}

/// What setting the yanked flag of a version to `yanked` comes to: the
/// record with that flag changed on the first package that names the
/// version and with nothing else touched, or the reason why not. The checks
/// are made in this order: the version must be a semantic version, the crate
/// must be there, it must have the version, and the flag must change.
pub open spec fn toggled(existing: Option<EntryView>, version: Seq<char>, yanked: bool) -> Result<
    EntryView,
    LifecycleError,
> {
    match semver_parse(version) {
        None => Err(LifecycleError::InvalidVersion),
        Some(target) => match existing {
            None => Err(LifecycleError::CrateNotFound),
            Some(entry) => if !holds_version(entry.versions, target) {
                Err(LifecycleError::VersionNotFound)
            } else {
                let at = first_index(entry.versions, target);
                if entry.versions[at].pkg.yanked == yanked {
                    Err(
                        if yanked {
                            LifecycleError::AlreadyYanked
                        } else {
                            LifecycleError::NotYanked
                        },
                    )
                } else {
                    Ok(
                        EntryView {
                            versions: entry.versions.update(at, flagged(entry.versions[at], yanked)),
                            ..entry
                        },
                    )
                }
            },
        },
    }
}

/// Where some stored package names the version, one of them is the first.
pub proof fn lemma_first_match_exists(items: Seq<UploadedPackageView>, target: SemVer, at: int)
    requires
        matches_at(items, target, at),
    ensures
        first_match(items, target, first_index(items, target)),
    decreases at,
{
    if exists|k: int| 0 <= k < at && matches_at(items, target, k) {
        let k = choose|k: int| 0 <= k < at && matches_at(items, target, k);
        lemma_first_match_exists(items, target, k);
    } else {
        assert(first_match(items, target, at));
    }
}

/// Among the stored packages there is at most one first match.
pub proof fn lemma_first_match_unique(items: Seq<UploadedPackageView>, target: SemVer, at: int)
    requires
        first_match(items, target, at),
    ensures
        holds_version(items, target),
        first_index(items, target) == at,
{
    let other = first_index(items, target);
    assert(first_match(items, target, other));
    if other < at {
        assert(!matches_at(items, target, other));
    } else if at < other {
        assert(!matches_at(items, target, at));
    }
}

/// The first stored package that names the version, if one does.
pub(crate) fn find_version(items: &Vec<UploadedPackage>, version: &Version) -> (found: Option<usize>)
    requires
        well_formed(version@),
    ensures
        match found {
            Some(at) => first_match(items.deep_view(), version@, at as int),
            None => !holds_version(items.deep_view(), version@),
        },
{
    let mut i: usize = 0;
    while i < items.len()
        invariant
            i <= items.len(),
            well_formed(version@),
            forall|k: int| 0 <= k < i ==> !matches_at(items.deep_view(), version@, k),
        decreases items.len() - i,
    {
        if let Some(stored) = parse_semver(items[i].pkg.vers.as_str()) {
            assert(version_of(items.deep_view()[i as int]) == Some(stored@));
            if let Some(Precedence::Same) = compare_semver(&stored, version) {
                return Some(i);
            }
            assert(stored@ != version@);
        }
        i += 1;
    }
    None
}

/// Sets the yanked flag of one version of a crate.
fn set_yanked(existing: Option<Entry>, version: &str, yanked: bool) -> (outcome: Result<
    Entry,
    LifecycleError,
>)
    ensures
        match outcome {
            Ok(after) => toggled(existing.deep_view(), version@, yanked) == Ok::<
                EntryView,
                LifecycleError,
            >(after@),
            Err(error) => toggled(existing.deep_view(), version@, yanked) == Err::<
                EntryView,
                LifecycleError,
            >(error),
        },
{
    let target = match parse_semver(version) {
        Some(target) => target,
        None => {
            return Err(LifecycleError::InvalidVersion);
        },
    };
    let mut entry = match existing {
        Some(entry) => entry,
        None => {
            return Err(LifecycleError::CrateNotFound);
        },
    };
    let ghost before = entry@;
    let at = match find_version(&entry.versions, &target) {
        Some(at) => at,
        None => {
            return Err(LifecycleError::VersionNotFound);
        },
    };
    proof {
        lemma_first_match_unique(before.versions, target@, at as int);
    }
    if entry.versions[at].pkg.yanked == yanked {
        return Err(if yanked { LifecycleError::AlreadyYanked } else { LifecycleError::NotYanked });
    }
    let mut item = entry.versions.remove(at);
    item.pkg.yanked = yanked;
    entry.versions.insert(at, item);
    assert(entry.versions.deep_view() =~= before.versions.update(
        at as int,
        flagged(before.versions[at as int], yanked),
    ));
    Ok(entry)
}

/// Yanks a version: marks it as one that new resolutions should pass over.
/// It stays downloadable.
pub fn yank(existing: Option<Entry>, version: &str) -> (outcome: Result<Entry, LifecycleError>)
    ensures
        match outcome {
            Ok(after) => toggled(existing.deep_view(), version@, true) == Ok::<
                EntryView,
                LifecycleError,
            >(after@),
            Err(error) => toggled(existing.deep_view(), version@, true) == Err::<
                EntryView,
                LifecycleError,
            >(error),
        },
{
    set_yanked(existing, version, true)
}

/// Takes a yank back.
pub fn unyank(existing: Option<Entry>, version: &str) -> (outcome: Result<Entry, LifecycleError>)
    ensures
        match outcome {
            Ok(after) => toggled(existing.deep_view(), version@, false) == Ok::<
                EntryView,
                LifecycleError,
            >(after@),
            Err(error) => toggled(existing.deep_view(), version@, false) == Err::<
                EntryView,
                LifecycleError,
            >(error),
        },
{
    set_yanked(existing, version, false)
}

/// One upload: the metadata, the checksum of the archive, and the time.
pub struct Upload {
    pub meta: MetadataView,
    pub cksum: Seq<char>,
    pub now: Timestamp,
}

/// The record before the upload numbered `step` of a run that began with
/// `start` and left `records` one by one.
pub open spec fn record_before(start: Option<EntryView>, records: Seq<EntryView>, step: int)
    -> Option<EntryView> {
    if step == 0 {
        start
    } else {
        Some(records[step - 1])
    }
}

/// A run of accepted publishes to one name: each upload was accepted on the
/// record that the one before it left.
pub open spec fn accepted_run(
    start: Option<EntryView>,
    uploads: Seq<Upload>,
    records: Seq<EntryView>,
) -> bool {
    &&& records.len() == uploads.len()
    &&& forall|step: int|
        0 <= step < uploads.len() ==> published(
            record_before(start, records, step),
            (#[trigger] uploads[step]).meta,
            uploads[step].cksum,
            uploads[step].now,
            records[step],
        )
}

/// A version cannot be published twice. Once an upload is accepted, every
/// later upload of the same version to that name is refused as a conflict,
/// and the record holds the version exactly once.
pub proof fn law_republish_refused(
    existing: Option<EntryView>,
    meta: MetadataView,
    cksum: Seq<char>,
    now: Timestamp,
    after: EntryView,
    again: MetadataView,
)
    requires
        published(existing, meta, cksum, now, after),
        semver_parse(again.vers) == semver_parse(meta.vers),
    ensures
        publish_refusal(Some(after), again) == Some(LifecycleError::AlreadyExists),
        LifecycleError::AlreadyExists.spec_kind() == crate::error::ErrorKind::Conflict,
        exists|at: int|
            matches_at(after.versions, semver_parse(meta.vers).unwrap(), at) && forall|k: int|
                k != at ==> !matches_at(after.versions, semver_parse(meta.vers).unwrap(), k),
{
    let before = history(existing);
    let item = uploaded(meta, cksum, now);
    let version = semver_parse(meta.vers).unwrap();
    let at = choose|at: int| placed_at(before, item, at, after.versions);
    lemma_placed_ascending(before, item, after.versions);
    assert(after.versions[at] == item);
    assert(matches_at(after.versions, version, at));
    assert forall|k: int| k != at implies !matches_at(after.versions, version, k) by {
        if 0 <= k < after.versions.len() {
            let b = if k < at { k } else { k - 1 };
            assert(after.versions[k] == before[b]);
            assert(!matches_at(before, version, b));
        }
    }
}

/// However many uploads a name accepts, and in whatever order their versions
/// come, its history stays strictly ascending, and grows by one with each.
pub proof fn law_history_ascending(
    start: Option<EntryView>,
    uploads: Seq<Upload>,
    records: Seq<EntryView>,
)
    requires
        accepted_run(start, uploads, records),
        uploads.len() > 0,
    ensures
        records.last().is_local,
        records.last().wf(),
        ascending(records.last().versions),
        records.last().versions.len() == history(start).len() + uploads.len(),
    decreases uploads.len(),
{
    let n = uploads.len() as int;
    let last = uploads[n - 1];
    assert(published(
        record_before(start, records, n - 1),
        last.meta,
        last.cksum,
        last.now,
        records[n - 1],
    ));
    if n > 1 {
        let shorter = uploads.drop_last();
        let earlier = records.drop_last();
        assert forall|step: int| 0 <= step < shorter.len() implies published(
            record_before(start, earlier, step),
            (#[trigger] shorter[step]).meta,
            shorter[step].cksum,
            shorter[step].now,
            earlier[step],
        ) by {
            assert(shorter[step] == uploads[step]);
            assert(record_before(start, earlier, step) == record_before(start, records, step));
        }
        law_history_ascending(start, shorter, earlier);
        assert(earlier.last() == records[n - 2]);
    }
    lemma_placed_ascending(
        history(record_before(start, records, n - 1)),
        uploaded(last.meta, last.cksum, last.now),
        records[n - 1].versions,
    );
}

/// A yank can be taken back. Unyanking the version that was just yanked
/// gives the record as it was before the yank: the version is not yanked,
/// and no other version, and nothing else of the record, has changed.
pub proof fn law_unyank_restores(entry: EntryView, version: Seq<char>)
    requires
        toggled(Some(entry), version, true) is Ok,
    ensures
        toggled(Some(toggled(Some(entry), version, true).unwrap()), version, false) == Ok::<
            EntryView,
            LifecycleError,
        >(entry),
{
    let target = semver_parse(version).unwrap();
    let at = first_index(entry.versions, target);
    let some = choose|k: int| matches_at(entry.versions, target, k);
    lemma_first_match_exists(entry.versions, target, some);
    let yanked = toggled(Some(entry), version, true).unwrap();
    assert(yanked.versions == entry.versions.update(at, flagged(entry.versions[at], true)));
    assert forall|k: int| 0 <= k < at implies !matches_at(yanked.versions, target, k) by {
        assert(yanked.versions[k] == entry.versions[k]);
        assert(!matches_at(entry.versions, target, k));
    }
    assert(matches_at(yanked.versions, target, at));
    lemma_first_match_unique(yanked.versions, target, at);
    assert(flagged(yanked.versions[at], false) == entry.versions[at]);
    assert(yanked.versions.update(at, flagged(yanked.versions[at], false)) =~= entry.versions);
}

/// A version that the record does not hold cannot be yanked or unyanked:
/// the request fails, and says that the version was not found.
pub proof fn law_absent_version_not_found(entry: EntryView, version: Seq<char>, yanked: bool)
    requires
        semver_parse(version) is Some,
        !holds_version(entry.versions, semver_parse(version).unwrap()),
    ensures
        toggled(Some(entry), version, yanked) == Err::<EntryView, LifecycleError>(
            LifecycleError::VersionNotFound,
        ),
{
}

/// A mirrored name takes no upload: whatever the version and the rest of
/// the metadata, the publish is refused because the name is upstream's.
pub proof fn law_mirrored_name_refuses(entry: EntryView, meta: MetadataView)
    requires
        !entry.is_local,
    ensures
        publish_refusal(Some(entry), meta) == Some(LifecycleError::NameShadowConflict),
{
}

/// Yanking and unyanking touch one flag and nothing else: the record keeps
/// its packages in their order, each with its version, so a sound record
/// stays sound; and all flags but that of the first package with the
/// version stay as they were.
pub proof fn law_toggle_keeps_history(
    entry: EntryView,
    version: Seq<char>,
    yanked: bool,
    after: EntryView,
)
    requires
        toggled(Some(entry), version, yanked) == Ok::<EntryView, LifecycleError>(after),
    ensures
        after.is_local == entry.is_local,
        after.time_of_last_update == entry.time_of_last_update,
        after.versions.len() == entry.versions.len(),
        forall|i: int|
            0 <= i < entry.versions.len() ==> (#[trigger] after.versions[i]) == flagged(
                entry.versions[i],
                after.versions[i].pkg.yanked,
            ),
        forall|i: int|
            0 <= i < entry.versions.len() && i != first_index(
                entry.versions,
                semver_parse(version).unwrap(),
            ) ==> (#[trigger] after.versions[i]) == entry.versions[i],
        entry.wf() ==> after.wf(),
{
    let target = semver_parse(version).unwrap();
    let at = first_index(entry.versions, target);
    let some = choose|k: int| matches_at(entry.versions, target, k);
    lemma_first_match_exists(entry.versions, target, some);
    assert forall|i: int| 0 <= i < entry.versions.len() implies (#[trigger] after.versions[i])
        == flagged(entry.versions[i], after.versions[i].pkg.yanked) by {
        if i != at {
            assert(after.versions[i] == entry.versions[i]);
        }
    }
    if entry.wf() && entry.is_local {
        assert forall|i: int| 0 <= i < after.versions.len() implies (#[trigger] version_of(
            after.versions[i],
        )) is Some by {
            assert(version_of(after.versions[i]) == version_of(entry.versions[i]));
        }
        assert(versions_of(after.versions) =~= versions_of(entry.versions));
    }
}

} // verus!
