use std::collections::HashMap;

use altreg::entry::Entry;
use altreg::error::{ErrorKind, LifecycleError};
use altreg::lifecycle::{publish, unyank, yank};
use altreg::package::{Dependency, DependencyKind, Metadata, Package, UploadedPackage};
use altreg::time::Timestamp;

fn meta(name: &str, vers: &str) -> Metadata {
    Metadata {
        name: name.to_string(),
        vers: vers.to_string(),
        deps: Vec::new(),
        features: HashMap::new(),
        authors: Vec::new(),
        description: None,
        documentation: None,
        homepage: None,
        readme: None,
        readme_file: None,
        keywords: Vec::new(),
        categories: Vec::new(),
        license: None,
        license_file: None,
        repository: None,
        badges: HashMap::new(),
        links: None,
    }
}

fn at(secs: i64) -> Timestamp {
    Timestamp { secs, nanos: 0 }
}

fn versions(entry: &Entry) -> Vec<String> {
    entry.versions.iter().map(|v| v.pkg.vers.clone()).collect()
}

fn mirrored(vers: &[&str]) -> Entry {
    Entry {
        versions: vers
            .iter()
            .map(|v| UploadedPackage {
                pkg: meta("foo", v).to_package("00".to_string()),
                upload_meta: None,
                upload_timestamp: None,
            })
            .collect(),
        time_of_last_update: at(0),
        is_local: false,
    }
}

fn local(vers: &[&str]) -> Entry {
    let mut entry = mirrored(vers);
    entry.is_local = true;
    entry
}

#[test]
fn to_package_copies_the_metadata() {
    let mut m = meta("foo", "1.2.3");
    m.links = Some("z".to_string());
    m.features.insert("default".to_string(), vec!["std".to_string()]);
    m.deps.push(Dependency {
        name: "serde".to_string(),
        req: "^1".to_string(),
        features: vec!["derive".to_string()],
        optional: true,
        default_features: false,
        target: Some("cfg(unix)".to_string()),
        kind: DependencyKind::Build,
        registry: None,
        package: Some("serde_renamed".to_string()),
    });
    let pkg: Package = m.to_package("abcd".to_string());
    assert_eq!(pkg.name, "foo");
    assert_eq!(pkg.vers, "1.2.3");
    assert_eq!(pkg.cksum, "abcd");
    assert!(!pkg.yanked);
    assert_eq!(pkg.v, Some(2));
    assert!(pkg.features2.is_none());
    assert_eq!(pkg.links.as_deref(), Some("z"));
    assert_eq!(pkg.features.get("default"), Some(&vec!["std".to_string()]));
    assert_eq!(pkg.deps.len(), 1);
    let dep = &pkg.deps[0];
    assert_eq!(dep.name, "serde");
    assert_eq!(dep.req, "^1");
    assert_eq!(dep.features, vec!["derive".to_string()]);
    assert!(dep.optional);
    assert!(!dep.default_features);
    assert_eq!(dep.target.as_deref(), Some("cfg(unix)"));
    assert_eq!(dep.kind, DependencyKind::Build);
    assert!(dep.registry.is_none());
    assert_eq!(dep.package.as_deref(), Some("serde_renamed"));
}

#[test]
fn dependency_kinds_are_kept() {
    for kind in [DependencyKind::Normal, DependencyKind::Build, DependencyKind::Dev] {
        let mut m = meta("foo", "1.0.0");
        m.deps.push(Dependency {
            name: "d".to_string(),
            req: "*".to_string(),
            features: Vec::new(),
            optional: false,
            default_features: true,
            target: None,
            kind,
            registry: None,
            package: None,
        });
        assert_eq!(m.to_package(String::new()).deps[0].kind, kind);
        assert_eq!(m.clone().deps[0].kind, kind);
    }
}

#[test]
fn first_publish_makes_a_local_record() {
    let entry = publish(None, &meta("foo", "1.0.0"), "c0ffee", at(10)).unwrap();
    assert!(entry.is_local);
    assert_eq!(entry.time_of_last_update, at(10));
    assert_eq!(entry.versions.len(), 1);
    let stored = &entry.versions[0];
    assert_eq!(stored.pkg.name, "foo");
    assert_eq!(stored.pkg.vers, "1.0.0");
    assert_eq!(stored.pkg.cksum, "c0ffee");
    assert!(!stored.pkg.yanked);
    assert_eq!(stored.upload_timestamp, Some(at(10)));
    assert_eq!(stored.upload_meta.as_ref().unwrap().vers, "1.0.0");
    assert!(entry.is_well_formed());
}

#[test]
fn publish_yank_yank_again() {
    let entry = publish(None, &meta("foo", "1.0.0"), "", at(1)).unwrap();
    assert_eq!(versions(&entry), ["1.0.0"]);
    assert!(!entry.versions[0].pkg.yanked);

    let entry = yank(Some(entry), "1.0.0").unwrap();
    assert_eq!(versions(&entry), ["1.0.0"]);
    assert!(entry.versions[0].pkg.yanked);

    let error = yank(Some(entry), "1.0.0").unwrap_err();
    assert_eq!(error, LifecycleError::AlreadyYanked);
    assert_eq!(error.status(), 400);
    assert_eq!(error.message(), "version has already been yanked");
    assert_eq!(error.kind(), ErrorKind::Conflict);
}

#[test]
fn same_version_twice_is_a_conflict() {
    let entry = publish(None, &meta("foo", "1.0.0"), "aa", at(1)).unwrap();
    let copy = entry.clone();
    let error = publish(Some(entry), &meta("foo", "1.0.0"), "bb", at(2)).unwrap_err();
    assert_eq!(error, LifecycleError::AlreadyExists);
    assert_eq!(error.kind(), ErrorKind::Conflict);
    assert_eq!(error.status(), 400);
    assert_eq!(error.message(), "attempted to upload existing version");
    // the record that stays is the one before, with one copy of the version
    assert_eq!(versions(&copy), ["1.0.0"]);
    assert_eq!(copy.versions[0].pkg.cksum, "aa");
}

#[test]
fn versions_stay_ascending_in_any_order_of_arrival() {
    let arrivals = ["1.0.0", "2.0.0", "1.5.0", "1.0.0-alpha", "10.0.0", "1.5.1", "0.0.1"];
    let mut entry: Option<Entry> = None;
    let mut accepted = 0;
    for (i, vers) in arrivals.iter().enumerate() {
        let next = publish(entry, &meta("foo", vers), "", at(i as i64)).unwrap();
        accepted += 1;
        assert_eq!(next.versions.len(), accepted);
        assert!(next.is_well_formed());
        entry = Some(next);
    }
    let entry = entry.unwrap();
    assert_eq!(
        versions(&entry),
        ["0.0.1", "1.0.0-alpha", "1.0.0", "1.5.0", "1.5.1", "2.0.0", "10.0.0"]
    );
    assert_eq!(entry.time_of_last_update, at(6));
}

#[test]
fn rejected_publishes_do_not_count() {
    let mut entry = publish(None, &meta("foo", "1.0.0"), "", at(0)).unwrap();
    let mut accepted = 1;
    for vers in ["1.0.0", "1.1.0", "bogus", "1.1.0", "1.0.1"] {
        match publish(Some(entry.clone()), &meta("foo", vers), "", at(1)) {
            Ok(next) => {
                accepted += 1;
                entry = next;
            }
            Err(_) => {}
        }
        assert_eq!(entry.versions.len(), accepted);
    }
    assert_eq!(accepted, 3);
    assert_eq!(versions(&entry), ["1.0.0", "1.0.1", "1.1.0"]);
}

#[test]
fn prereleases_are_ordered_by_semver() {
    let arrivals = [
        "1.0.0",
        "1.0.0-rc.1",
        "1.0.0-beta.11",
        "1.0.0-beta.2",
        "1.0.0-beta",
        "1.0.0-alpha.beta",
        "1.0.0-alpha.1",
        "1.0.0-alpha",
    ];
    let mut entry: Option<Entry> = None;
    for vers in arrivals {
        entry = Some(publish(entry, &meta("foo", vers), "", at(0)).unwrap());
    }
    assert_eq!(
        versions(&entry.unwrap()),
        [
            "1.0.0-alpha",
            "1.0.0-alpha.1",
            "1.0.0-alpha.beta",
            "1.0.0-beta",
            "1.0.0-beta.2",
            "1.0.0-beta.11",
            "1.0.0-rc.1",
            "1.0.0"
        ]
    );
}

#[test]
fn build_metadata_tells_versions_apart() {
    let entry = publish(None, &meta("foo", "1.0.0+b"), "", at(0)).unwrap();
    let entry = publish(Some(entry), &meta("foo", "1.0.0+a"), "", at(0)).unwrap();
    assert_eq!(versions(&entry), ["1.0.0+a", "1.0.0+b"]);
    let error = publish(Some(entry), &meta("foo", "1.0.0+a"), "", at(0)).unwrap_err();
    assert_eq!(error, LifecycleError::AlreadyExists);
}

#[test]
fn invalid_version_is_refused() {
    for vers in ["", "1", "1.0", "1.0.0.0", "01.0.0", "a.b.c", "1.0.0-", "v1.0.0"] {
        let error = publish(None, &meta("foo", vers), "", at(0)).unwrap_err();
        assert_eq!(error, LifecycleError::InvalidVersion);
        assert_eq!(error.kind(), ErrorKind::Validation);
        assert_eq!(error.status(), 400);
        assert_eq!(error.message(), "invalid crate version supplied");
    }
}

#[test]
fn mirrored_name_takes_no_upload() {
    for vers in ["1.0.0", "9.9.9", "0.0.1-pre", "not a version"] {
        let error = publish(Some(mirrored(&["1.0.0"])), &meta("foo", vers), "", at(0)).unwrap_err();
        assert_eq!(error, LifecycleError::NameShadowConflict);
        assert_eq!(error.kind(), ErrorKind::Conflict);
        assert_eq!(
            error.message(),
            "attempted to upload crate with the same name as a cached upstream crate"
        );
    }
    let error = publish(Some(mirrored(&[])), &meta("foo", "1.0.0"), "", at(0)).unwrap_err();
    assert_eq!(error, LifecycleError::NameShadowConflict);
}

#[test]
fn unsound_local_history_is_not_built_on() {
    let error = publish(Some(local(&["2.0.0", "1.0.0"])), &meta("foo", "3.0.0"), "", at(0))
        .unwrap_err();
    assert_eq!(error, LifecycleError::CorruptEntry);
    assert_eq!(error.kind(), ErrorKind::Storage);
    assert_eq!(error.status(), 500);
    let error = publish(Some(local(&["1.0.0", "1.0.0"])), &meta("foo", "3.0.0"), "", at(0))
        .unwrap_err();
    assert_eq!(error, LifecycleError::CorruptEntry);
    let error = publish(Some(local(&["1.0.0", "what"])), &meta("foo", "3.0.0"), "", at(0))
        .unwrap_err();
    assert_eq!(error, LifecycleError::CorruptEntry);
    assert!(!local(&["2.0.0", "1.0.0"]).is_well_formed());
    assert!(!local(&["1.0.0", "what"]).is_well_formed());
    assert!(local(&["1.0.0", "2.0.0"]).is_well_formed());
    assert!(local(&[]).is_well_formed());
    assert!(mirrored(&["2.0.0", "1.0.0", "what"]).is_well_formed());
}

#[test]
fn unyank_undoes_yank() {
    let mut entry: Option<Entry> = None;
    for vers in ["1.0.0", "1.1.0", "2.0.0"] {
        entry = Some(publish(entry, &meta("foo", vers), vers, at(5)).unwrap());
    }
    let before = entry.unwrap();
    let yanked = yank(Some(before.clone()), "1.1.0").unwrap();
    assert_eq!(
        yanked.versions.iter().map(|v| v.pkg.yanked).collect::<Vec<_>>(),
        [false, true, false]
    );
    let after = unyank(Some(yanked), "1.1.0").unwrap();
    assert_eq!(versions(&after), versions(&before));
    assert_eq!(after.time_of_last_update, before.time_of_last_update);
    assert_eq!(after.is_local, before.is_local);
    for (a, b) in after.versions.iter().zip(before.versions.iter()) {
        assert_eq!(a.pkg.yanked, false);
        assert_eq!(a.pkg.name, b.pkg.name);
        assert_eq!(a.pkg.vers, b.pkg.vers);
        assert_eq!(a.pkg.cksum, b.pkg.cksum);
        assert_eq!(a.pkg.v, b.pkg.v);
        assert_eq!(a.upload_timestamp, b.upload_timestamp);
        assert_eq!(a.upload_meta.is_some(), b.upload_meta.is_some());
    }
}

#[test]
fn yank_finds_a_version_however_it_is_written() {
    // a mirrored history is searched in its order
    let entry = yank(Some(mirrored(&["2.0.0", "odd", "1.0.0"])), "1.0.0").unwrap();
    assert_eq!(
        entry.versions.iter().map(|v| v.pkg.yanked).collect::<Vec<_>>(),
        [false, false, true]
    );
    assert!(!entry.is_local);
}

#[test]
fn yank_failures() {
    let error = yank(Some(local(&["1.0.0"])), "2.0.0").unwrap_err();
    assert_eq!(error, LifecycleError::VersionNotFound);
    assert_eq!(error.message(), "crate does not have the specified version published");
    assert_eq!(error.kind(), ErrorKind::NotFound);
    assert_eq!(error.status(), 400);

    let error = yank(None, "1.0.0").unwrap_err();
    assert_eq!(error, LifecycleError::CrateNotFound);
    assert_eq!(error.message(), "crate does not exist in index");

    // the version is read before the crate is looked for
    let error = yank(None, "one").unwrap_err();
    assert_eq!(error, LifecycleError::InvalidVersion);
    let error = unyank(Some(local(&["1.0.0"])), "1.0").unwrap_err();
    assert_eq!(error, LifecycleError::InvalidVersion);

    let error = unyank(Some(local(&["1.0.0"])), "1.0.0").unwrap_err();
    assert_eq!(error, LifecycleError::NotYanked);
    assert_eq!(error.message(), "version has not been yanked");
    assert_eq!(error.kind(), ErrorKind::Conflict);

    let error = unyank(None, "1.0.0").unwrap_err();
    assert_eq!(error, LifecycleError::CrateNotFound);
    let error = unyank(Some(local(&["1.0.0"])), "1.0.1").unwrap_err();
    assert_eq!(error, LifecycleError::VersionNotFound);
}

#[test]
fn remaining_errors_have_their_words() {
    assert_eq!(LifecycleError::Contention.kind(), ErrorKind::Conflict);
    assert_eq!(LifecycleError::Contention.status(), 400);
    assert_eq!(
        LifecycleError::Contention.message(),
        "crate was changed concurrently, try again"
    );
    assert_eq!(LifecycleError::Storage.kind(), ErrorKind::Storage);
    assert_eq!(LifecycleError::Storage.status(), 500);
    assert_eq!(LifecycleError::Storage.message(), "something went wrong");
    assert_eq!(LifecycleError::CorruptEntry.message(), "something went wrong");
    assert_eq!(LifecycleError::CrateNotFound.kind(), ErrorKind::NotFound);
}

#[test]
fn versions_are_ordered_by_number_not_by_text() {
    let mut entry: Option<Entry> = None;
    for vers in ["1.10.0", "1.9.0", "1.0.0-pre12", "1.0.0-pre8", "1.0.0-pre.12", "1.0.0-pre.8"] {
        entry = Some(publish(entry, &meta("foo", vers), "", at(0)).unwrap());
    }
    assert_eq!(
        versions(&entry.unwrap()),
        ["1.0.0-pre.8", "1.0.0-pre.12", "1.0.0-pre12", "1.0.0-pre8", "1.9.0", "1.10.0"]
    );
}

#[test]
fn version_beyond_sixty_four_bits_is_refused() {
    let error = publish(None, &meta("foo", "18446744073709551616.0.0"), "", at(0)).unwrap_err();
    assert_eq!(error, LifecycleError::InvalidVersion);
    let entry = publish(None, &meta("foo", "18446744073709551615.0.0"), "", at(0)).unwrap();
    assert_eq!(versions(&entry), ["18446744073709551615.0.0"]);
}
