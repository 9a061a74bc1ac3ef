//! Names that the registry does not host are read from an upstream registry
//! and kept for half an hour. What the registry hosts itself is never read
//! from upstream, and never written over by it.

use vstd::prelude::*;
use vstd::string::*;
use crate::entry::{Entry, EntryView};
use crate::package::{Package, PackageView, UploadedPackage, UploadedPackageView};
use crate::shard::{has_prefix, prefix_of};
use crate::time::{nanos_between, Timestamp};

verus! {

/// The age from which a mirrored record is stale: thirty minutes, in
/// nanoseconds.
pub const STALE_AFTER_NANOS: u64 = 1_800_000_000_000;

/// How the cache stands to a name.
#[derive(Debug, Clone, Copy, PartialEq, Eq, Structural)]
pub enum CacheState {
    /// The store has no record of the name.
    Absent,
    /// The crate is the registry's own.
    Local,
    /// The record mirrors upstream, and is less than thirty minutes old.
    MirrorFresh,
    /// The record mirrors upstream, and is thirty minutes old or older.
    MirrorStale,
}

/// How the cache stands to a name at the time `now`, by the record that the
/// store holds for it.
pub open spec fn state_of(existing: Option<EntryView>, now: Timestamp) -> CacheState {
    match existing {
        None => CacheState::Absent,
        Some(entry) => if entry.is_local {
            CacheState::Local
        } else if nanos_between(entry.time_of_last_update, now) >= STALE_AFTER_NANOS {
            CacheState::MirrorStale
        } else {
            CacheState::MirrorFresh
        },
    }
}

/// Works out how the cache stands to a name.
pub fn cache_state(existing: &Option<Entry>, now: Timestamp) -> (state: CacheState)
    ensures
        state == state_of(existing.deep_view(), now),
{
    match existing {
        None => CacheState::Absent,
        Some(entry) => {
            if entry.is_local {
                CacheState::Local
            } else {
                let then = entry.time_of_last_update;
                let seconds: i128 = now.secs as i128 - then.secs as i128;
                let nanos: i128 = now.nanos as i128 - then.nanos as i128;
                let age: i128 = seconds * 1_000_000_000 + nanos;
                if age >= STALE_AFTER_NANOS as i128 {
                    CacheState::MirrorStale
                } else {
                    CacheState::MirrorFresh
                }
            }
        },
    }
}

/// What a read does with the cache.
#[derive(Debug, Clone, Copy, PartialEq, Eq, Structural)]
pub enum Plan {
    /// Answer from the store.
    Serve,
    /// Ask upstream.
    Fetch,
    /// Answer that there is no such crate.
    NotFound,
}

/// What a read of metadata does, by the state of the cache and by whether
/// the registry is cut off from upstream. What is local or fresh is served
/// from the store. What is stale is fetched anew, but served as it is when
/// upstream cannot be reached. What is absent is fetched, and not found
/// when upstream cannot be reached.
pub open spec fn spec_metadata_plan(state: CacheState, offline: bool) -> Plan {
    match state {
        CacheState::Local | CacheState::MirrorFresh => Plan::Serve,
        CacheState::MirrorStale => if offline {
            Plan::Serve
        } else {
            Plan::Fetch
        },
        CacheState::Absent => if offline {
            Plan::NotFound
        } else {
            Plan::Fetch
        },
    }
}

#[verifier::when_used_as_spec(spec_metadata_plan)]
pub fn metadata_plan(state: CacheState, offline: bool) -> (plan: Plan)
    ensures
        plan == spec_metadata_plan(state, offline),
{
    match state {
        CacheState::Local => Plan::Serve,
        CacheState::MirrorFresh => Plan::Serve,
        CacheState::MirrorStale => if offline {
            Plan::Serve
        } else {
            Plan::Fetch
        },
        CacheState::Absent => if offline {
            Plan::NotFound
        } else {
            Plan::Fetch
        },
    }
}

/// What a read of an archive does, by whether the content store holds it
/// and by whether the registry is cut off from upstream. An archive in the
/// store is served whatever its age: archives never change.
pub open spec fn spec_blob_plan(stored: bool, offline: bool) -> Plan {
    if stored {
        Plan::Serve
    } else if offline {
        Plan::NotFound
    } else {
        Plan::Fetch
    }
}

#[verifier::when_used_as_spec(spec_blob_plan)]
pub fn blob_plan(stored: bool, offline: bool) -> (plan: Plan)
    ensures
        plan == spec_blob_plan(stored, offline),
{
    if stored {
        Plan::Serve
    } else if offline {
        Plan::NotFound
    } else {
        Plan::Fetch
    }
}

/// A package as a mirrored record keeps it: without metadata and without a
/// time of upload.
pub open spec fn mirrored_package(pkg: PackageView) -> UploadedPackageView {
    UploadedPackageView { pkg, upload_meta: None, upload_timestamp: None }
}

/// The record that mirrors what upstream sent at the time `now`.
pub open spec fn mirrored(packages: Seq<PackageView>, now: Timestamp) -> EntryView {
    EntryView {
        versions: Seq::new(packages.len(), |i: int| mirrored_package(packages[i])),
        time_of_last_update: now,
        is_local: false,
    }
}

/// Builds the record that mirrors what upstream sent: the packages in the
/// order in which they came, marked as not the registry's own.
pub fn mirrored_entry(packages: &Vec<Package>, now: Timestamp) -> (entry: Entry)
    ensures
        entry@ == mirrored(packages.deep_view(), now),
{
    let mut versions: Vec<UploadedPackage> = Vec::new();
    let mut i: usize = 0;
    while i < packages.len()
        invariant
            i <= packages.len(),
            versions.len() == i,
            forall|k: int| 0 <= k < i ==> versions[k]@ == mirrored_package(packages[k]@),
        decreases packages.len() - i,
    {
        versions.push(
            UploadedPackage { pkg: packages[i].clone(), upload_meta: None, upload_timestamp: None },
        );
        i += 1;
    }
    assert(versions.deep_view() =~= mirrored(packages.deep_view(), now).versions);
    Entry { versions, time_of_last_update: now, is_local: false }
}

/// What upstream said to a request.
#[derive(Debug, Clone, Copy, PartialEq, Eq, Structural)]
pub enum Reply {
    /// It sent what was asked for.
    Found,
    /// It has no such thing.
    NotFound,
    /// It failed, or refused.
    Failed,
}

/// What an HTTP status of upstream means: 404 is "no such thing", every
/// other status from 400 to 599 is a failure, and all else is an answer.
pub open spec fn spec_reply_of(status: u16) -> Reply {
    if status == 404 {
        Reply::NotFound
    } else if 400 <= status <= 599 {
        Reply::Failed
    } else {
        Reply::Found
    }
}

#[verifier::when_used_as_spec(spec_reply_of)]
pub fn reply_of(status: u16) -> (reply: Reply)
    ensures
        reply == spec_reply_of(status),
{
    if status == 404 {
        Reply::NotFound
    } else if 400 <= status && status <= 599 {
        Reply::Failed
    } else {
        Reply::Found
    }
}

/// The sharding prefix of a name in the upstream index.
pub fn crate_prefix(name: &str) -> (prefix: String)
    requires
        has_prefix(name@),
    ensures
        prefix@ == prefix_of(name@),
{
    crate::shard::crate_prefix(name)
}

/// The address of the upstream index.
pub open spec fn index_root() -> Seq<char> {
    "https://index.crates.io"@
}

/// The address under which upstream serves archives.
pub open spec fn download_root() -> Seq<char> {
    "https://crates.io/api/v1/crates"@
}

/// Where upstream keeps the metadata of a name.
pub open spec fn index_url_of(name: Seq<char>) -> Seq<char> {
    index_root() + seq!['/'] + prefix_of(name) + seq!['/'] + name
}

/// Where upstream serves the archive of a version.
pub open spec fn download_url_of(name: Seq<char>, version: Seq<char>) -> Seq<char> {
    download_root() + seq!['/'] + name + seq!['/'] + version + "/download"@
}

/// The address of the metadata of a name in the upstream index.
pub fn index_url(name: &str) -> (url: String)
    requires
        has_prefix(name@),
    ensures
        url@ == index_url_of(name@),
{
    proof {
        reveal_strlit("/");
    }
    let prefix = crate_prefix(name);
    let url = String::from_str("https://index.crates.io").concat("/").concat(
        prefix.as_str(),
    ).concat("/").concat(name);
    assert(url@ =~= index_url_of(name@));
    url
}

/// The address of the archive of a version at upstream.
pub fn download_url(name: &str, version: &str) -> (url: String)
    ensures
        url@ == download_url_of(name@, version@),
{
    proof {
        reveal_strlit("/");
    }
    let url = String::from_str("https://crates.io/api/v1/crates").concat("/").concat(name).concat(
        "/",
    ).concat(version).concat("/download");
    assert(url@ =~= download_url_of(name@, version@));
    url
}

/// A mirrored record is served from the store, with no word to upstream,
/// from the moment it is made until it is thirty minutes old.
pub proof fn law_fresh_mirror_is_served(
    packages: Seq<PackageView>,
    fetched: Timestamp,
    now: Timestamp,
    offline: bool,
)
    requires
        nanos_between(fetched, now) < STALE_AFTER_NANOS,
    ensures
        state_of(Some(mirrored(packages, fetched)), now) == CacheState::MirrorFresh,
        spec_metadata_plan(state_of(Some(mirrored(packages, fetched)), now), offline)
            == Plan::Serve,
{
}

/// What the registry hosts itself is always served from the store: no read
/// of a local crate asks upstream, however old the record is.
pub proof fn law_local_is_served(entry: EntryView, now: Timestamp, offline: bool)
    requires
        entry.is_local,
    ensures
        spec_metadata_plan(state_of(Some(entry), now), offline) == Plan::Serve,
{
}

/// Cut off from upstream, a read never asks it: it serves what the store
/// has, stale or not, and finds nothing where the store has nothing.
pub proof fn law_offline_never_fetches(existing: Option<EntryView>, now: Timestamp, stored: bool)
    ensures
        spec_metadata_plan(state_of(existing, now), true) != Plan::Fetch,
        spec_metadata_plan(state_of(existing, now), true) == Plan::NotFound <==> existing is None,
        spec_blob_plan(stored, true) != Plan::Fetch,
{
}

} // verus!
