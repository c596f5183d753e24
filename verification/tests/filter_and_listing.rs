use wmd::error::ErrorKind;
use wmd::files::{filter_files, names_unique, retain_flagged, FileMeta};
use wmd::filter::UserRegex;
use wmd::metadata::{find_job, list, JobEntry, ManifestReply};

fn file(name: &str, size: u64) -> FileMeta {
    FileMeta { name: name.to_string(), url: format!("/enwiki/20230301/{name}"), size }
}

fn names(files: &[FileMeta]) -> Vec<&str> {
    files.iter().map(|f| f.name.as_str()).collect()
}

fn sample() -> Vec<FileMeta> {
    vec![file("a.xml.bz2", 10), file("a.xml.bz2.rss", 20), file("b.xml.bz2", 30)]
}

#[test]
fn anchored_pattern_keeps_exactly_one_file() {
    let re = UserRegex::from_str(r"a\.xml\.bz2$").unwrap();
    let kept = filter_files(&sample(), Some(&re));
    assert_eq!(kept, vec![file("a.xml.bz2", 10)]);
}

#[test]
fn pattern_is_searched_anywhere_in_the_name() {
    let re = UserRegex::from_str(r"xml").unwrap();
    assert_eq!(names(&filter_files(&sample(), Some(&re))), vec!["a.xml.bz2", "a.xml.bz2.rss", "b.xml.bz2"]);
    let re = UserRegex::from_str(r"^b").unwrap();
    assert_eq!(names(&filter_files(&sample(), Some(&re))), vec!["b.xml.bz2"]);
}

#[test]
fn without_a_filter_every_file_stays() {
    assert_eq!(filter_files(&sample(), None), sample());
}

#[test]
fn filter_that_matches_nothing_gives_an_empty_listing() {
    let re = UserRegex::from_str(r"\.7z$").unwrap();
    assert!(filter_files(&sample(), Some(&re)).is_empty());
}

#[test]
fn compiled_pattern_remembers_its_text() {
    let re = UserRegex::from_str(r"a\.xml\.bz2$").unwrap();
    assert_eq!(re.as_str(), r"a\.xml\.bz2$");
    assert!(re.is_match("data/a.xml.bz2"));
    assert!(!re.is_match("a.xml.bz2.rss"));
}

#[test]
fn pattern_that_does_not_compile_is_reported() {
    let err = UserRegex::from_str("foo(bar").unwrap_err();
    assert_eq!(err.pattern, "foo(bar");
    assert!(!err.reason.is_empty());
    assert_ne!(err.reason, "foo(bar");
}

#[test]
fn outcome_of_compiling_is_wrapped_as_it_is() {
    let ok = UserRegex::from_compiled("^x", regex::Regex::new("^x"));
    assert_eq!(ok.unwrap().as_str(), "^x");
    let bad = UserRegex::from_compiled("(", regex::Regex::new("("));
    assert_eq!(bad.unwrap_err().pattern, "(");
}

#[test]
fn flagged_files_stay_in_order() {
    let kept = retain_flagged(&sample(), &vec![true, false, true]);
    assert_eq!(names(&kept), vec!["a.xml.bz2", "b.xml.bz2"]);
    assert!(retain_flagged(&sample(), &vec![false, false, false]).is_empty());
}

#[test]
fn flags_of_another_length_keep_nothing() {
    assert!(retain_flagged(&sample(), &vec![true, true]).is_empty());
    assert!(retain_flagged(&sample(), &vec![true, true, true, true]).is_empty());
}

#[test]
fn repeated_names_are_found() {
    assert!(names_unique(&sample()));
    assert!(names_unique(&Vec::new()));
    let mut twice = sample();
    twice.push(file("a.xml.bz2", 99));
    assert!(!names_unique(&twice));
}

fn manifest() -> ManifestReply {
    ManifestReply::Jobs(vec![
        JobEntry { name: "xmlstubsdump".to_string(), files: vec![file("stubs.xml.gz", 5)] },
        JobEntry { name: "metacurrentdumprecombine".to_string(), files: sample() },
        JobEntry { name: "metacurrentdumprecombine".to_string(), files: vec![file("later.xml", 1)] },
    ])
}

#[test]
fn job_is_found_by_name() {
    let ManifestReply::Jobs(jobs) = manifest() else { unreachable!() };
    assert_eq!(find_job(&jobs, "xmlstubsdump"), Some(0));
    assert_eq!(find_job(&jobs, "metacurrentdumprecombine"), Some(1));
    assert_eq!(find_job(&jobs, "nojob"), None);
    assert_eq!(find_job(&Vec::new(), "xmlstubsdump"), None);
}

#[test]
fn listing_keeps_the_order_of_the_manifest() {
    let listed = list(&manifest(), "metacurrentdumprecombine", None).unwrap();
    assert_eq!(listed, sample());
    let again = list(&manifest(), "metacurrentdumprecombine", None).unwrap();
    assert_eq!(listed, again);
}

#[test]
fn listing_applies_the_filter() {
    let re = UserRegex::from_str(r"a\.xml\.bz2$").unwrap();
    let listed = list(&manifest(), "metacurrentdumprecombine", Some(&re)).unwrap();
    assert_eq!(names(&listed), vec!["a.xml.bz2"]);
    let none = UserRegex::from_str(r"nothing").unwrap();
    assert_eq!(list(&manifest(), "metacurrentdumprecombine", Some(&none)), Ok(Vec::new()));
}

#[test]
fn unknown_job_is_an_error() {
    assert_eq!(list(&manifest(), "nojob", None), Err(ErrorKind::JobNotFound));
    assert_eq!(list(&ManifestReply::Jobs(Vec::new()), "nojob", None), Err(ErrorKind::JobNotFound));
}

#[test]
fn unknown_version_is_an_error() {
    assert_eq!(
        list(&ManifestReply::VersionNotFound, "metacurrentdumprecombine", None),
        Err(ErrorKind::VersionNotFound)
    );
}

#[test]
fn unreachable_source_is_an_error() {
    assert_eq!(
        list(&ManifestReply::Unavailable, "metacurrentdumprecombine", None),
        Err(ErrorKind::MetadataUnavailable)
    );
}

#[test]
fn manifest_with_a_repeated_file_name_is_malformed() {
    let mut files = sample();
    files.push(file("b.xml.bz2", 31));
    let reply = ManifestReply::Jobs(vec![JobEntry { name: "job".to_string(), files }]);
    assert_eq!(list(&reply, "job", None), Err(ErrorKind::MetadataUnavailable));
}

#[test]
fn pattern_is_read_by_parse_too() {
    let re: UserRegex = r"^b".parse().unwrap();
    assert!(re.is_match("b.xml.bz2"));
    assert!("(".parse::<UserRegex>().is_err());
}
