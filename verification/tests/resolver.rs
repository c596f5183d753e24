use wmd::error::ErrorKind;
use wmd::metadata::{
    begin_resolve, job_complete, latest_entry, resolve_latest, JobStatus, ResolveStep, VersionEntry,
};
use wmd::version::{Version, VersionSpec};

fn entry(version: &str, complete: bool) -> VersionEntry {
    VersionEntry { version: Version::parse(version).unwrap(), complete }
}

#[test]
fn exact_version_is_returned_without_a_request() {
    let spec = VersionSpec::from_str("20230301").unwrap();
    match begin_resolve(&spec, "enwiki") {
        ResolveStep::Resolved(v) => assert_eq!(v.as_str(), "20230301"),
        other => panic!("{other:?}"),
    }
}

#[test]
fn latest_asks_the_canonical_index_once() {
    let spec = VersionSpec::from_str("latest").unwrap();
    assert_eq!(
        begin_resolve(&spec, "enwiki"),
        ResolveStep::FetchIndex { url: "https://dumps.wikimedia.org/enwiki/".to_string() }
    );
}

#[test]
fn most_recent_complete_version_is_chosen() {
    let entries = vec![
        entry("20230201", true),
        entry("20230320", false),
        entry("20230301", true),
        entry("20221201", true),
    ];
    assert_eq!(latest_entry(&entries), Some(2));
    assert_eq!(resolve_latest(Some(&entries)).unwrap().as_str(), "20230301");
}

#[test]
fn first_of_equal_dates_is_chosen() {
    let entries = vec![entry("20230301", true), entry("20230301", true)];
    assert_eq!(latest_entry(&entries), Some(0));
}

#[test]
fn dates_are_compared_as_numbers() {
    let entries = vec![entry("09991231", true), entry("10000101", true)];
    assert_eq!(resolve_latest(Some(&entries)).unwrap().as_str(), "10000101");
}

#[test]
fn no_complete_version_is_an_error() {
    let entries = vec![entry("20230301", false), entry("20230320", false)];
    assert_eq!(latest_entry(&entries), None);
    assert_eq!(resolve_latest(Some(&entries)), Err(ErrorKind::NoVersionsFound));
    assert_eq!(resolve_latest(Some(&Vec::new())), Err(ErrorKind::NoVersionsFound));
}

#[test]
fn unreachable_index_is_an_error() {
    assert_eq!(resolve_latest(None), Err(ErrorKind::MetadataUnavailable));
}

#[test]
fn job_counts_as_complete_only_where_it_is_told_so() {
    let jobs = vec![
        JobStatus { name: "xmlstubsdump".to_string(), complete: true },
        JobStatus { name: "metacurrentdumprecombine".to_string(), complete: false },
    ];
    assert!(job_complete(&jobs, "xmlstubsdump"));
    assert!(!job_complete(&jobs, "metacurrentdumprecombine"));
    assert!(!job_complete(&jobs, "nojob"));
    assert!(!job_complete(&Vec::new(), "xmlstubsdump"));
}
