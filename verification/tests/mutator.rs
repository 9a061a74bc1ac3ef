use std::collections::HashMap;

use altreg::entry::Entry;
use altreg::error::LifecycleError;
use altreg::mutator::{Action, Event, Mutation, Mutator, Phase};
use altreg::package::Metadata;
use altreg::time::Timestamp;

fn meta(name: &str, vers: &str) -> Metadata {
    Metadata {
        name: name.to_string(),
        vers: vers.to_string(),
        deps: Vec::new(),
        features: HashMap::new(),
        authors: Vec::new(),
        description: None,
        documentation: None,
        homepage: None,
        readme: None,
        readme_file: None,
        keywords: Vec::new(),
        categories: Vec::new(),
        license: None,
        license_file: None,
        repository: None,
        badges: HashMap::new(),
        links: None,
    }
}

fn upload(vers: &str) -> Mutation {
    Mutation::Publish {
        meta: meta("foo", vers),
        cksum: "ab".to_string(),
        now: Timestamp { secs: 7, nanos: 0 },
    }
}

fn versions(entry: &Entry) -> Vec<String> {
    entry.versions.iter().map(|v| v.pkg.vers.clone()).collect()
}

/// A store of one record that counts what is asked of it, and lets another
/// writer get in before the first `rivals` swaps.
struct Store {
    record: Option<Entry>,
    reads: usize,
    writes: usize,
    rivals: usize,
}

fn run(store: &mut Store, mutation: Mutation, attempts: usize) -> Result<(), LifecycleError> {
    let mut mutator = Mutator::new(mutation, attempts);
    let mut action = mutator.begin();
    loop {
        let event = match action {
            Action::Read => {
                store.reads += 1;
                Event::Read { existing: store.record.clone() }
            }
            Action::Swap { entry } => {
                if store.rivals > 0 {
                    store.rivals -= 1;
                    Event::Changed
                } else {
                    store.writes += 1;
                    store.record = Some(entry);
                    Event::Written
                }
            }
            Action::Insert { entry } => {
                store.writes += 1;
                store.record = Some(entry);
                Event::Written
            }
            Action::Finish { outcome } => {
                assert_eq!(mutator.phase(), Phase::Done);
                return outcome;
            }
        };
        action = mutator.step(event);
    }
}

#[test]
fn first_publish_is_inserted() {
    let mut store = Store { record: None, reads: 0, writes: 0, rivals: 0 };
    assert_eq!(run(&mut store, upload("1.0.0"), 3), Ok(()));
    assert_eq!((store.reads, store.writes), (1, 1));
    let record = store.record.unwrap();
    assert!(record.is_local);
    assert_eq!(versions(&record), ["1.0.0"]);
}

#[test]
fn later_publish_is_swapped_in() {
    let mut store = Store { record: None, reads: 0, writes: 0, rivals: 0 };
    run(&mut store, upload("1.0.0"), 3).unwrap();
    let mut mutator = Mutator::new(upload("0.9.0"), 3);
    assert!(matches!(mutator.begin(), Action::Read));
    assert_eq!(mutator.phase(), Phase::Reading);
    let action = mutator.step(Event::Read { existing: store.record.clone() });
    assert_eq!(mutator.phase(), Phase::Writing);
    match action {
        Action::Swap { entry } => assert_eq!(versions(&entry), ["0.9.0", "1.0.0"]),
        _ => panic!("a record that was found is swapped"),
    }
    assert!(matches!(mutator.step(Event::Written), Action::Finish { outcome: Ok(()) }));
    assert_eq!(mutator.phase(), Phase::Done);
}

#[test]
fn refused_change_writes_nothing() {
    let mut store = Store { record: None, reads: 0, writes: 0, rivals: 0 };
    run(&mut store, upload("1.0.0"), 3).unwrap();
    let before = (store.reads, store.writes);

    let outcome = run(&mut store, Mutation::Yank { version: "2.0.0".to_string() }, 3);
    assert_eq!(outcome, Err(LifecycleError::VersionNotFound));
    assert_eq!((store.reads, store.writes), (before.0 + 1, before.1));

    let outcome = run(&mut store, upload("1.0.0"), 3);
    assert_eq!(outcome, Err(LifecycleError::AlreadyExists));
    assert_eq!(store.writes, before.1);

    let outcome = run(&mut store, Mutation::Unyank { version: "1.0.0".to_string() }, 3);
    assert_eq!(outcome, Err(LifecycleError::NotYanked));
    assert_eq!(store.writes, before.1);
    assert_eq!(versions(store.record.as_ref().unwrap()), ["1.0.0"]);
    assert!(!store.record.as_ref().unwrap().versions[0].pkg.yanked);
}

#[test]
fn yank_of_a_missing_crate_writes_nothing() {
    let mut store = Store { record: None, reads: 0, writes: 0, rivals: 0 };
    let outcome = run(&mut store, Mutation::Yank { version: "1.0.0".to_string() }, 3);
    assert_eq!(outcome, Err(LifecycleError::CrateNotFound));
    assert_eq!((store.reads, store.writes), (1, 0));
    assert!(store.record.is_none());
}

#[test]
fn yank_and_unyank_go_through_the_store() {
    let mut store = Store { record: None, reads: 0, writes: 0, rivals: 0 };
    run(&mut store, upload("1.0.0"), 3).unwrap();
    run(&mut store, Mutation::Yank { version: "1.0.0".to_string() }, 3).unwrap();
    assert!(store.record.as_ref().unwrap().versions[0].pkg.yanked);
    run(&mut store, Mutation::Unyank { version: "1.0.0".to_string() }, 3).unwrap();
    assert!(!store.record.as_ref().unwrap().versions[0].pkg.yanked);
    assert_eq!(store.writes, 3);
}

#[test]
fn lost_swap_is_tried_again_on_a_new_read() {
    let mut store = Store { record: None, reads: 0, writes: 0, rivals: 0 };
    run(&mut store, upload("1.0.0"), 3).unwrap();
    store.reads = 0;
    store.writes = 0;
    store.rivals = 2;
    assert_eq!(run(&mut store, upload("2.0.0"), 3), Ok(()));
    assert_eq!((store.reads, store.writes), (3, 1));
    assert_eq!(versions(store.record.as_ref().unwrap()), ["1.0.0", "2.0.0"]);
}

#[test]
fn retry_sees_what_the_rival_wrote() {
    let mut store = Store { record: None, reads: 0, writes: 0, rivals: 0 };
    run(&mut store, upload("1.0.0"), 3).unwrap();
    let mut mutator = Mutator::new(upload("2.0.0"), 3);
    mutator.begin();
    mutator.step(Event::Read { existing: store.record.clone() });
    // a rival publishes 3.0.0 before the swap
    run(&mut store, upload("3.0.0"), 3).unwrap();
    assert!(matches!(mutator.step(Event::Changed), Action::Read));
    match mutator.step(Event::Read { existing: store.record.clone() }) {
        Action::Swap { entry } => assert_eq!(versions(&entry), ["1.0.0", "2.0.0", "3.0.0"]),
        _ => panic!("the change is made on the new record"),
    }
}

#[test]
fn attempts_run_out() {
    let mut store = Store { record: None, reads: 0, writes: 0, rivals: 0 };
    run(&mut store, upload("1.0.0"), 3).unwrap();
    store.reads = 0;
    store.writes = 0;
    store.rivals = 100;
    assert_eq!(run(&mut store, upload("2.0.0"), 4), Err(LifecycleError::Contention));
    assert_eq!((store.reads, store.writes), (4, 0));
    assert_eq!(versions(store.record.as_ref().unwrap()), ["1.0.0"]);

    store.reads = 0;
    assert_eq!(run(&mut store, upload("2.0.0"), 1), Err(LifecycleError::Contention));
    assert_eq!(store.reads, 1);

    store.reads = 0;
    assert_eq!(run(&mut store, upload("2.0.0"), 0), Err(LifecycleError::Contention));
    assert_eq!(store.reads, 0);
}

#[test]
fn fault_of_the_store_ends_the_change() {
    let mut mutator = Mutator::new(upload("1.0.0"), 3);
    mutator.begin();
    assert!(matches!(
        mutator.step(Event::Failed),
        Action::Finish { outcome: Err(LifecycleError::Storage) }
    ));
    assert_eq!(mutator.phase(), Phase::Done);

    let mut mutator = Mutator::new(upload("1.0.0"), 3);
    mutator.begin();
    mutator.step(Event::Read { existing: None });
    assert!(matches!(
        mutator.step(Event::Failed),
        Action::Finish { outcome: Err(LifecycleError::Storage) }
    ));
}

#[test]
fn event_out_of_turn_ends_the_change() {
    let mut mutator = Mutator::new(upload("1.0.0"), 3);
    assert_eq!(mutator.phase(), Phase::Idle);
    assert!(matches!(
        mutator.step(Event::Written),
        Action::Finish { outcome: Err(LifecycleError::Storage) }
    ));
    assert_eq!(mutator.phase(), Phase::Done);
    assert!(matches!(
        mutator.begin(),
        Action::Finish { outcome: Err(LifecycleError::Storage) }
    ));
    assert!(matches!(
        mutator.step(Event::Read { existing: None }),
        Action::Finish { outcome: Err(LifecycleError::Storage) }
    ));
}

#[test]
fn upload_records_the_checksum_of_the_archive() {
    let mut store = Store { record: None, reads: 0, writes: 0, rivals: 0 };
    let mutation = Mutation::upload(meta("foo", "1.0.0"), b"abc", Timestamp { secs: 3, nanos: 4 });
    run(&mut store, mutation, 1).unwrap();
    let record = store.record.unwrap();
    assert_eq!(
        record.versions[0].pkg.cksum,
        "ba7816bf8f01cfea414140de5dae2223b00361a396177a9cb410ff61f20015ad"
    );
    assert_eq!(record.time_of_last_update, Timestamp { secs: 3, nanos: 4 });
}

#[test]
fn upload_now_is_dated_by_the_clock() {
    let mut store = Store { record: None, reads: 0, writes: 0, rivals: 0 };
    let mutation = Mutation::upload_now(meta("foo", "1.0.0"), b"");
    run(&mut store, mutation, 1).unwrap();
    let record = store.record.unwrap();
    assert_eq!(
        record.versions[0].pkg.cksum,
        "e3b0c44298fc1c149afbf4c8996fb92427ae41e4649b934ca495991b7852b855"
    );
    assert_eq!(record.versions[0].upload_timestamp, Some(record.time_of_last_update));
    // the clock of this machine is past the year 2001
    assert!(record.time_of_last_update.secs > 1_000_000_000);
}
