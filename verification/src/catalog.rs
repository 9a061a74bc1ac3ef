//! Looking through the crates of the store: the search that clients make by
//! a part of the name, and the choice of the version that a page shows.

use vstd::prelude::*;
use crate::entry::{Entry, EntryView};
use crate::package::UploadedPackageView;
use crate::text::{contains_text, is_part_of, str_equal};

verus! {

/// A crate of the store: its name and its record.
pub struct NamedEntry {
    pub name: String,
    pub entry: Entry,
}

/// The mathematical value of a [`NamedEntry`].
pub struct NamedEntryView {
    pub name: Seq<char>,
    pub entry: EntryView,
}

impl View for NamedEntry {
    type V = NamedEntryView;

    open spec fn view(&self) -> NamedEntryView {
        NamedEntryView { name: self.name@, entry: self.entry@ }
    }
}

impl DeepView for NamedEntry {
    type V = NamedEntryView;

    open spec fn deep_view(&self) -> NamedEntryView {
        self@
    }
}

/// What a search tells of one crate.
#[derive(Debug)]
pub struct SearchResult {
    pub name: String,
    /// The last version of the history; empty where the history is.
    pub max_version: String,
    /// The description that came with that version; empty where none did.
    pub description: String,
}

/// The mathematical value of a [`SearchResult`].
pub struct SearchResultView {
    pub name: Seq<char>,
    pub max_version: Seq<char>,
    pub description: Seq<char>,
}

impl View for SearchResult {
    type V = SearchResultView;

    open spec fn view(&self) -> SearchResultView {
        SearchResultView {
            name: self.name@,
            max_version: self.max_version@,
            description: self.description@,
        }
    }
}

impl DeepView for SearchResult {
    type V = SearchResultView;

    open spec fn deep_view(&self) -> SearchResultView {
        self@
    }
}

/// What a search answers.
pub struct SearchPage {
    /// The first results, as many as a page takes.
    pub crates: Vec<SearchResult>,
    /// How many crates the search found in all.
    pub total: usize,
}

/// The description that came with a stored package; empty where none did.
pub open spec fn description_of(item: UploadedPackageView) -> Seq<char> {
    match item.upload_meta {
        Some(meta) => match meta.description {
            Some(text) => text,
            None => Seq::empty(),
        },
        None => Seq::empty(),
    }
}

/// What a search tells of a crate: its name, and the version and the
/// description of the last package of its history.
pub open spec fn summary_of(found: NamedEntryView) -> SearchResultView {
    if found.entry.versions.len() == 0 {
        SearchResultView { name: found.name, max_version: Seq::empty(), description: Seq::empty() }
    } else {
        SearchResultView {
            name: found.name,
            max_version: found.entry.versions.last().pkg.vers,
            description: description_of(found.entry.versions.last()),
        }
    }
}

/// The crates whose name holds the query, in the order of the store.
pub open spec fn found_by(crates: Seq<NamedEntryView>, query: Seq<char>) -> Seq<NamedEntryView> {
    crates.filter(|found: NamedEntryView| is_part_of(query, found.name))
}

/// The first `count` of some things, or all of them where there are fewer.
pub open spec fn first_of<T>(all: Seq<T>, count: int) -> Seq<T> {
    if count < all.len() {
        all.subrange(0, count)
    } else {
        all
    }
}

/// Whether a crate is listed under a query: under none all are, and under
/// one those whose name holds it.
pub fn name_matches(name: &str, query: Option<&str>) -> (listed: bool)
    ensures
        listed == match query {
            Some(part) => is_part_of(part@, name@),
            None => true,
        },
{
    match query {
        Some(part) => contains_text(name, part),
        None => true,
    }
}

/// What a search tells of one crate.
pub fn summarize(found: &NamedEntry) -> (summary: SearchResult)
    ensures
        summary@ == summary_of(found@),
{
    let count = found.entry.versions.len();
    if count == 0 {
        SearchResult { name: found.name.clone(), max_version: String::new(), description: String::new() }
    } else {
        let last = &found.entry.versions[count - 1];
        assert(found@.entry.versions.last() == last@);
        let description = match &last.upload_meta {
            Some(meta) => match &meta.description {
                Some(text) => text.clone(),
                None => String::new(),
            },
            None => String::new(),
        };
        SearchResult { name: found.name.clone(), max_version: last.pkg.vers.clone(), description }
    }
}

/// Searches the crates of the store for those whose name holds the query:
/// counts them all, and tells of the first `per_page` of them.
pub fn search(crates: &Vec<NamedEntry>, query: &str, per_page: usize) -> (page: SearchPage)
    ensures
        page.total == found_by(crates.deep_view(), query@).len(),
        page.crates.deep_view() == first_of(
            found_by(crates.deep_view(), query@),
            per_page as int,
        ).map_values(|found: NamedEntryView| summary_of(found)),
{
    let ghost all = crates.deep_view();
    let ghost wanted = |found: NamedEntryView| is_part_of(query@, found.name);
    let ghost summary = |found: NamedEntryView| summary_of(found);
    let mut results: Vec<SearchResult> = Vec::new();
    let mut total: usize = 0;
    let mut i: usize = 0;
    proof {
        reveal(Seq::filter);
        assert(all.subrange(0, 0) =~= Seq::<NamedEntryView>::empty());
        assert(results.deep_view() =~= first_of(
            all.subrange(0, 0).filter(wanted),
            per_page as int,
        ).map_values(summary));
    }
    while i < crates.len()
        invariant
            i <= crates.len(),
            all == crates.deep_view(),
            wanted == |found: NamedEntryView| is_part_of(query@, found.name),
            summary == |found: NamedEntryView| summary_of(found),
            total == all.subrange(0, i as int).filter(wanted).len(),
            total <= i,
            results.deep_view() == first_of(
                all.subrange(0, i as int).filter(wanted),
                per_page as int,
            ).map_values(summary),
        decreases crates.len() - i,
    {
        let ghost kept = all.subrange(0, i as int).filter(wanted);
        let ghost before = results.deep_view();
        proof {
            reveal(Seq::filter);
            assert(all.subrange(0, i + 1).drop_last() =~= all.subrange(0, i as int));
            assert(all.subrange(0, i + 1).last() == crates[i as int]@);
        }
        if contains_text(crates[i].name.as_str(), query) {
            if total < per_page {
                results.push(summarize(&crates[i]));
                proof {
                    let more = kept.push(crates[i as int]@);
                    assert(results.deep_view() =~= before.push(summary_of(crates[i as int]@)));
                    assert(first_of(more, per_page as int) =~= first_of(kept, per_page as int).push(
                        crates[i as int]@,
                    ));
                    assert(first_of(more, per_page as int).map_values(summary) =~= before.push(
                        summary_of(crates[i as int]@),
                    ));
                }
            } else {
                proof {
                    let more = kept.push(crates[i as int]@);
                    assert(first_of(more, per_page as int) =~= first_of(kept, per_page as int));
                }
            }
            total += 1;
        }
        i += 1;
    }
    assert(all.subrange(0, i as int) =~= all);
    SearchPage { crates: results, total }
}

/// The package of a history that a request for a version means: the last
/// one where the request is for `latest`, else the first whose version is
/// written exactly as asked. Nothing where there is no such package.
pub open spec fn chosen(items: Seq<UploadedPackageView>, requested: Seq<char>) -> Option<int> {
    if requested == "latest"@ {
        if items.len() == 0 {
            None
        } else {
            Some(items.len() - 1)
        }
    } else if exists|at: int| written_at(items, requested, at) {
        Some(choose|at: int| first_written(items, requested, at))
    } else {
        None
    }
}

/// The package at `at` has its version written as `requested`.
pub open spec fn written_at(items: Seq<UploadedPackageView>, requested: Seq<char>, at: int) -> bool {
    0 <= at < items.len() && items[at].pkg.vers == requested
}

/// `at` is the first package whose version is written as `requested`.
pub open spec fn first_written(items: Seq<UploadedPackageView>, requested: Seq<char>, at: int)
    -> bool {
    written_at(items, requested, at) && forall|k: int|
        0 <= k < at ==> !written_at(items, requested, k)
}

/// Chooses the package of a record that a request for a version means.
pub fn select_version(entry: &Entry, requested: &str) -> (choice: Option<usize>)
    ensures
        match choice {
            Some(at) => chosen(entry@.versions, requested@) == Some(at as int),
            None => chosen(entry@.versions, requested@) is None,
        },
{
    let ghost items = entry@.versions;
    if str_equal(requested, "latest") {
        let count = entry.versions.len();
        return if count == 0 {
            None
        } else {
            Some(count - 1)
        };
    }
    let mut i: usize = 0;
    while i < entry.versions.len()
        invariant
            i <= entry.versions.len(),
            items == entry@.versions,
            requested@ != "latest"@,
            forall|k: int| 0 <= k < i ==> !written_at(items, requested@, k),
        decreases entry.versions.len() - i,
    {
        if str_equal(entry.versions[i].pkg.vers.as_str(), requested) {
            proof {
                let at = i as int;
                assert(first_written(items, requested@, at));
                let other = choose|at: int| first_written(items, requested@, at);
                if other < at {
                    assert(!written_at(items, requested@, other));
                } else if at < other {
                    assert(!written_at(items, requested@, at));
                }
            }
            return Some(i);
        }
        i += 1;
    }
    None
}

} // verus!
