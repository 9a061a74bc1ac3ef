use std::collections::HashMap;

use altreg::catalog::{name_matches, search, select_version, summarize, NamedEntry};
use altreg::entry::Entry;
use altreg::lines::{join_lines, split_lines};
use altreg::package::{Metadata, Package, UploadedPackage};
use altreg::schema::{schema_action, SchemaAction, DB_VERSION};
use altreg::time::Timestamp;

fn lines(text: &[u8]) -> Vec<Vec<u8>> {
    split_lines(text).into_iter().map(|l| l.to_vec()).collect()
}

fn owned(lines: &[&[u8]]) -> Vec<Vec<u8>> {
    lines.iter().map(|l| l.to_vec()).collect()
}

#[test]
fn lines_are_joined_with_a_feed_after_each() {
    assert_eq!(join_lines(&Vec::new()), b"");
    assert_eq!(join_lines(&owned(&[b"{}"])), b"{}\n");
    assert_eq!(join_lines(&owned(&[b"a", b"", b"bc"])), b"a\n\nbc\n");
}

#[test]
fn text_is_split_at_feeds() {
    assert_eq!(lines(b""), owned(&[]));
    assert_eq!(lines(b"a"), owned(&[b"a"]));
    assert_eq!(lines(b"a\n"), owned(&[b"a"]));
    assert_eq!(lines(b"a\nb"), owned(&[b"a", b"b"]));
    assert_eq!(lines(b"a\n\nb\n"), owned(&[b"a", b"", b"b"]));
    assert_eq!(lines(b"\n"), owned(&[b""]));
    assert_eq!(lines(b"\n\n"), owned(&[b"", b""]));
}

#[test]
fn carriage_return_before_a_feed_is_dropped() {
    assert_eq!(lines(b"a\r\nb\r\n"), owned(&[b"a", b"b"]));
    assert_eq!(lines(b"a\r\r\nb"), owned(&[b"a\r", b"b"]));
    assert_eq!(lines(b"\r\n"), owned(&[b""]));
    // without a feed after it, it stays
    assert_eq!(lines(b"a\rb\n"), owned(&[b"a\rb"]));
    assert_eq!(lines(b"a\nb\r"), owned(&[b"a", b"b\r"]));
}

#[test]
fn splitting_agrees_with_the_standard_library() {
    for text in ["", "a", "a\n", "\n", "a\r\n\r\nb", "x\ry\n\rz\r", "{\"a\":1}\n{\"a\":2}\n"] {
        let expected: Vec<Vec<u8>> = text.lines().map(|l| l.as_bytes().to_vec()).collect();
        assert_eq!(lines(text.as_bytes()), expected);
    }
}

#[test]
fn what_is_joined_is_split_back() {
    let records = owned(&[
        b"{\"name\":\"foo\",\"vers\":\"1.0.0\",\"kind\":\"normal\"}",
        b"{\"name\":\"foo\",\"vers\":\"1.1.0\",\"kind\":\"build\"}",
        b"",
        b"{\"name\":\"foo\",\"vers\":\"2.0.0\",\"kind\":\"dev\"}",
    ]);
    assert_eq!(lines(&join_lines(&records)), records);
}

fn package(vers: &str) -> Package {
    Package {
        name: "foo".to_string(),
        vers: vers.to_string(),
        deps: Vec::new(),
        cksum: String::new(),
        features: HashMap::new(),
        yanked: false,
        links: None,
        v: None,
        features2: None,
    }
}

fn described(vers: &str, description: Option<&str>) -> UploadedPackage {
    UploadedPackage {
        pkg: package(vers),
        upload_meta: Some(Metadata {
            name: "foo".to_string(),
            vers: vers.to_string(),
            deps: Vec::new(),
            features: HashMap::new(),
            authors: Vec::new(),
            description: description.map(|d| d.to_string()),
            documentation: None,
            homepage: None,
            readme: None,
            readme_file: None,
            keywords: Vec::new(),
            categories: Vec::new(),
            license: None,
            license_file: None,
            repository: None,
            badges: HashMap::new(),
            links: None,
        }),
        upload_timestamp: None,
    }
}

fn named(name: &str, versions: Vec<UploadedPackage>) -> NamedEntry {
    NamedEntry {
        name: name.to_string(),
        entry: Entry { versions, time_of_last_update: Timestamp { secs: 0, nanos: 0 }, is_local: true },
    }
}

fn bare(vers: &str) -> UploadedPackage {
    UploadedPackage { pkg: package(vers), upload_meta: None, upload_timestamp: None }
}

#[test]
fn part_of_a_name_is_found() {
    let found = |name: &str, query: &str| search(&vec![named(name, Vec::new())], query, 1).total == 1;
    assert!(found("serde_json", "de_j"));
    assert!(found("serde_json", ""));
    assert!(found("serde_json", "serde_json"));
    assert!(!found("serde_json", "serde_jsonx"));
    assert!(!found("serde_json", "JSON"));
    assert!(found("", ""));
    assert!(!found("", "a"));
}

#[test]
fn every_name_is_listed_under_no_query() {
    assert!(name_matches("serde", None));
    assert!(name_matches("", None));
    assert!(name_matches("serde", Some("erd")));
    assert!(name_matches("serde", Some("")));
    assert!(!name_matches("serde", Some("serdes")));
}

#[test]
fn summary_tells_of_the_last_version() {
    let found = named("foo", vec![described("1.0.0", Some("old")), described("1.1.0", Some("new"))]);
    let summary = summarize(&found);
    assert_eq!(summary.name, "foo");
    assert_eq!(summary.max_version, "1.1.0");
    assert_eq!(summary.description, "new");
    let summary = summarize(&named("foo", vec![described("1.0.0", None)]));
    assert_eq!(summary.description, "");
    let summary = summarize(&named("foo", vec![described("1.0.0", Some("d")), bare("2.0.0")]));
    assert_eq!(summary.max_version, "2.0.0");
    assert_eq!(summary.description, "");
    let summary = summarize(&named("empty", Vec::new()));
    assert_eq!(summary.name, "empty");
    assert_eq!(summary.max_version, "");
    assert_eq!(summary.description, "");
}

#[test]
fn search_counts_all_and_tells_of_a_page() {
    let crates = vec![
        named("serde", vec![bare("1.0.0")]),
        named("tokio", vec![bare("1.2.0")]),
        named("serde_json", vec![bare("1.0.1"), bare("1.0.2")]),
        named("my-serde", vec![described("0.1.0", Some("mine"))]),
    ];
    let page = search(&crates, "serde", 2);
    assert_eq!(page.total, 3);
    assert_eq!(page.crates.len(), 2);
    assert_eq!(page.crates[0].name, "serde");
    assert_eq!(page.crates[0].max_version, "1.0.0");
    assert_eq!(page.crates[1].name, "serde_json");
    assert_eq!(page.crates[1].max_version, "1.0.2");

    let page = search(&crates, "serde", 10);
    assert_eq!(page.total, 3);
    assert_eq!(page.crates.len(), 3);
    assert_eq!(page.crates[2].name, "my-serde");
    assert_eq!(page.crates[2].description, "mine");

    let page = search(&crates, "serde", 0);
    assert_eq!((page.total, page.crates.len()), (3, 0));
    let page = search(&crates, "", 10);
    assert_eq!((page.total, page.crates.len()), (4, 4));
    let page = search(&crates, "nothing", 10);
    assert_eq!((page.total, page.crates.len()), (0, 0));
    let page = search(&Vec::new(), "", 10);
    assert_eq!((page.total, page.crates.len()), (0, 0));
}

#[test]
fn version_is_chosen_as_it_is_written() {
    let entry = named("foo", vec![bare("1.0.0"), bare("1.1.0"), bare("latest"), bare("1.1.0")]).entry;
    assert_eq!(select_version(&entry, "latest"), Some(3));
    assert_eq!(select_version(&entry, "1.0.0"), Some(0));
    assert_eq!(select_version(&entry, "1.1.0"), Some(1));
    assert_eq!(select_version(&entry, "1.1"), None);
    assert_eq!(select_version(&entry, "1.1.0+x"), None);
    let empty = named("foo", Vec::new()).entry;
    assert_eq!(select_version(&empty, "latest"), None);
    assert_eq!(select_version(&empty, "1.0.0"), None);
}

#[test]
fn store_layout_is_judged() {
    assert_eq!(DB_VERSION, 2);
    assert_eq!(schema_action(None), SchemaAction::Initialize);
    assert_eq!(schema_action(Some(0)), SchemaAction::Upgrade { from: 0 });
    assert_eq!(schema_action(Some(1)), SchemaAction::Upgrade { from: 1 });
    assert_eq!(schema_action(Some(2)), SchemaAction::Proceed);
    assert_eq!(schema_action(Some(3)), SchemaAction::Refuse { found: 3 });
    assert_eq!(schema_action(Some(u32::MAX)), SchemaAction::Refuse { found: u32::MAX });
}
