use std::collections::{BTreeMap, BTreeSet};

use wmd::args::{
    Args, CommonArgs, DumpNameArg, FileNameRegexArg, HttpCacheMode, JobNameArg, VersionSpecArg,
};
use wmd::error::{DownloadFailure, ErrorKind};
use wmd::files::FileMeta;
use wmd::filter::UserRegex;
use wmd::metadata::{JobEntry, ManifestReply, VersionEntry};
use wmd::pipeline::{Action, Event, Phase, Pipeline, Report};
use wmd::summary::OutcomeKind;
use wmd::version::{Version, VersionSpec};

const CANONICAL: &str = "https://dumps.wikimedia.org";
const MIRROR: &str = "https://mirror.example/dumps";
const JOB: &str = "metacurrentdumprecombine";

/// What a host does when a file is asked of it.
#[derive(Clone)]
enum Served {
    Whole,
    Status(u16),
    BreaksOffAfter(u64),
}

/// A disk and the hosts, in memory.
struct Outside {
    files: BTreeMap<String, u64>,
    dirs: BTreeSet<String>,
    index: Option<Vec<(&'static str, bool)>>,
    listed: Vec<(&'static str, u64)>,
    served: BTreeMap<String, Served>,
    staging_fails: bool,
    requests: Vec<String>,
    smallest_seen_at_final: BTreeMap<String, u64>,
}

impl Outside {
    fn new(listed: &[(&'static str, u64)]) -> Outside {
        Outside {
            files: BTreeMap::new(),
            dirs: BTreeSet::new(),
            index: Some(vec![("20230201", true), ("20230301", true), ("20230320", false)]),
            listed: listed.to_vec(),
            served: BTreeMap::new(),
            staging_fails: false,
            requests: Vec::new(),
            smallest_seen_at_final: BTreeMap::new(),
        }
    }

    fn manifest(&self) -> ManifestReply {
        let files = self
            .listed
            .iter()
            .map(|(name, size)| FileMeta {
                name: name.to_string(),
                url: format!("/enwiki/20230301/{name}"),
                size: *size,
            })
            .collect();
        ManifestReply::Jobs(vec![JobEntry { name: JOB.to_string(), files }])
    }

    fn size_listed(&self, url: &str) -> u64 {
        let name = url.rsplit('/').next().unwrap();
        self.listed.iter().find(|(n, _)| *n == name).map(|(_, s)| *s).unwrap()
    }

    fn perform(&mut self, action: &Action) -> Event {
        let event = match action {
            Action::FetchIndex { url } => {
                self.requests.push(url.clone());
                Event::Index(self.index.as_ref().map(|entries| {
                    entries
                        .iter()
                        .map(|(v, complete)| VersionEntry {
                            version: Version::parse(v).unwrap(),
                            complete: *complete,
                        })
                        .collect()
                }))
            }
            Action::FetchManifest { url } => {
                self.requests.push(url.clone());
                if url.contains("/20230301/") {
                    Event::Manifest(self.manifest())
                } else {
                    Event::Manifest(ManifestReply::VersionNotFound)
                }
            }
            Action::CreateStaging { path } => {
                if self.staging_fails || self.dirs.contains(path) {
                    Event::StagingCreated(false)
                } else {
                    self.dirs.insert(path.clone());
                    Event::StagingCreated(true)
                }
            }
            Action::Stat { path } => Event::Stat(self.files.get(path).copied()),
            Action::Download { url, to } => {
                self.requests.push(url.clone());
                let size = self.size_listed(url);
                let name = url.rsplit('/').next().unwrap().to_string();
                match self.served.get(&name).cloned().unwrap_or(Served::Whole) {
                    Served::Whole => {
                        self.files.insert(to.clone(), size);
                        Event::Transferred { status: 200, bytes: size }
                    }
                    Served::Status(status) => Event::Transferred { status, bytes: 0 },
                    Served::BreaksOffAfter(bytes) => {
                        self.files.insert(to.clone(), bytes);
                        Event::TransferFailed { cause: "connection reset".to_string() }
                    }
                }
            }
            Action::Promote { from, to } => match self.files.remove(from) {
                Some(size) => {
                    self.files.insert(to.clone(), size);
                    Event::Promoted
                }
                None => Event::PromotionFailed { cause: "no such file".to_string() },
            },
            Action::RemoveStaging { path } => {
                self.dirs.remove(path);
                let inside = format!("{path}/");
                self.files.retain(|p, _| !p.starts_with(&inside));
                Event::Disposed
            }
            Action::Finish(_) => unreachable!(),
        };
        for (name, _) in &self.listed {
            let path = final_path(name);
            if let Some(size) = self.files.get(&path) {
                let seen = self.smallest_seen_at_final.entry(path).or_insert(*size);
                *seen = (*seen).min(*size);
            }
        }
        event
    }
}

fn final_path(name: &str) -> String {
    format!("./out/enwiki/20230301/{JOB}/{name}")
}

fn args(spec: &str, mirror: Option<&str>, keep: bool, filter: Option<&str>) -> Args {
    Args {
        common: CommonArgs { out_dir: "./out".to_string(), http_cache_mode: HttpCacheMode::Default },
        dump_name: DumpNameArg { value: "enwiki".to_string() },
        version_spec: VersionSpecArg { value: VersionSpec::from_str(spec).unwrap() },
        job_name: JobNameArg { value: JOB.to_string() },
        file_name_regex: FileNameRegexArg { value: filter.map(|f| UserRegex::from_str(f).unwrap()) },
        keep_temp_dir: keep,
        mirror_url: mirror.map(|m| m.to_string()),
    }
}

fn run(args: Args, outside: &mut Outside) -> Report {
    let mut pipeline = Pipeline::new(args);
    let mut event = Event::Start;
    for _ in 0..10_000 {
        let (next, action) = pipeline.step(event);
        pipeline = next;
        match action.expect("the event is the one awaited") {
            Action::Finish(report) => {
                assert!(pipeline.is_finished());
                return report;
            }
            action => event = outside.perform(&action),
        }
    }
    panic!("the run does not end");
}

const THREE: [(&str, u64); 3] = [("a.xml.bz2", 100), ("b.xml.bz2", 200), ("c.xml.bz2", 300)];

#[test]
fn fresh_run_downloads_every_file() {
    let mut outside = Outside::new(&THREE);
    let report = run(args("latest", Some(MIRROR), false, None), &mut outside);
    let summary = report.result.unwrap();
    assert_eq!((summary.download_ok(), summary.download_len()), (3, 600));
    assert_eq!((summary.existing_ok(), summary.existing_len()), (0, 0));
    assert_eq!(report.outcomes.len(), 3);
    for ((name, size), outcome) in THREE.iter().zip(&report.outcomes) {
        assert_eq!(outcome.file, *name);
        assert_eq!(outcome.kind, OutcomeKind::Downloaded);
        assert_eq!(outcome.bytes, *size);
        assert_eq!(outside.files.get(&final_path(name)), Some(size));
    }
}

#[test]
fn second_run_downloads_nothing() {
    let mut outside = Outside::new(&THREE);
    run(args("latest", Some(MIRROR), false, None), &mut outside).result.unwrap();
    outside.requests.clear();
    let report = run(args("latest", Some(MIRROR), false, None), &mut outside);
    let summary = report.result.unwrap();
    assert_eq!((summary.download_ok(), summary.download_len()), (0, 0));
    assert_eq!((summary.existing_ok(), summary.existing_len()), (3, 600));
    assert!(report.outcomes.iter().all(|o| o.kind == OutcomeKind::AlreadyPresent));
    assert!(outside.requests.iter().all(|url| url.starts_with(CANONICAL)));
    assert_eq!(outside.requests.len(), 2);
}

#[test]
fn interrupted_run_is_taken_up_where_it_stopped() {
    let mut outside = Outside::new(&THREE);
    outside.served.insert("b.xml.bz2".to_string(), Served::BreaksOffAfter(50));
    let first = run(args("latest", Some(MIRROR), false, None), &mut outside);
    let error = first.result.unwrap_err();
    assert_eq!(
        error.kind,
        ErrorKind::DownloadFailed { cause: DownloadFailure::Transport("connection reset".to_string()) }
    );
    assert_eq!(first.outcomes.len(), 1);
    assert_eq!(outside.files.get(&final_path("a.xml.bz2")), Some(&100));
    assert_eq!(outside.files.get(&final_path("b.xml.bz2")), None);

    outside.served.clear();
    let second = run(args("latest", Some(MIRROR), false, None), &mut outside);
    let summary = second.result.unwrap();
    assert_eq!((summary.existing_ok(), summary.existing_len()), (1, 100));
    assert_eq!((summary.download_ok(), summary.download_len()), (2, 500));
    let kinds: Vec<OutcomeKind> = second.outcomes.iter().map(|o| o.kind).collect();
    assert_eq!(kinds, vec![OutcomeKind::AlreadyPresent, OutcomeKind::Downloaded, OutcomeKind::Downloaded]);
}

#[test]
fn aborted_transfer_leaves_no_partial_file_at_the_final_path() {
    let mut outside = Outside::new(&THREE);
    outside.served.insert("a.xml.bz2".to_string(), Served::BreaksOffAfter(1));
    outside.served.insert("b.xml.bz2".to_string(), Served::Status(503));
    let first = run(args("20230301", None, true, None), &mut outside);
    assert!(first.result.is_err());
    assert_eq!(outside.files.get(&final_path("a.xml.bz2")), None);
    assert_eq!(outside.files.get("./out/_temp/a.xml.bz2"), Some(&1));

    outside.served.remove("a.xml.bz2");
    outside.dirs.clear();
    let second = run(args("20230301", None, false, None), &mut outside);
    assert_eq!(
        second.result.unwrap_err().kind,
        ErrorKind::DownloadFailed { cause: DownloadFailure::Status(503) }
    );
    for (name, size) in THREE {
        if let Some(seen) = outside.smallest_seen_at_final.get(&final_path(name)) {
            assert_eq!(*seen, size);
        }
    }
    assert_eq!(outside.files.get(&final_path("a.xml.bz2")), Some(&100));
    assert_eq!(outside.files.get(&final_path("b.xml.bz2")), None);
}

#[test]
fn stale_copy_of_another_size_is_replaced() {
    let mut outside = Outside::new(&THREE);
    outside.files.insert(final_path("b.xml.bz2"), 7);
    outside.files.insert(final_path("c.xml.bz2"), 300);
    let report = run(args("20230301", Some(MIRROR), false, None), &mut outside);
    let summary = report.result.unwrap();
    assert_eq!((summary.existing_ok(), summary.existing_len()), (1, 300));
    assert_eq!((summary.download_ok(), summary.download_len()), (2, 300));
    assert_eq!(outside.files.get(&final_path("b.xml.bz2")), Some(&200));
}

#[test]
fn metadata_is_asked_of_the_canonical_host_and_files_of_the_mirror() {
    let mut outside = Outside::new(&THREE);
    run(args("latest", Some(MIRROR), false, None), &mut outside).result.unwrap();
    assert_eq!(
        outside.requests,
        vec![
            "https://dumps.wikimedia.org/enwiki/".to_string(),
            "https://dumps.wikimedia.org/enwiki/20230301/dumpstatus.json".to_string(),
            "https://mirror.example/dumps/enwiki/20230301/a.xml.bz2".to_string(),
            "https://mirror.example/dumps/enwiki/20230301/b.xml.bz2".to_string(),
            "https://mirror.example/dumps/enwiki/20230301/c.xml.bz2".to_string(),
        ]
    );
}

#[test]
fn without_a_mirror_files_are_asked_of_the_canonical_host() {
    let mut outside = Outside::new(&THREE);
    run(args("20230301", None, false, None), &mut outside).result.unwrap();
    assert_eq!(
        outside.requests,
        vec![
            "https://dumps.wikimedia.org/enwiki/20230301/dumpstatus.json".to_string(),
            "https://dumps.wikimedia.org/enwiki/20230301/a.xml.bz2".to_string(),
            "https://dumps.wikimedia.org/enwiki/20230301/b.xml.bz2".to_string(),
            "https://dumps.wikimedia.org/enwiki/20230301/c.xml.bz2".to_string(),
        ]
    );
}

#[test]
fn summary_of_one_present_and_two_downloaded() {
    let mut outside = Outside::new(&THREE);
    outside.files.insert(final_path("a.xml.bz2"), 100);
    let summary = run(args("latest", Some(MIRROR), false, None), &mut outside).result.unwrap();
    assert_eq!(summary.existing_ok(), 1);
    assert_eq!(summary.existing_len(), 100);
    assert_eq!(summary.download_ok(), 2);
    assert_eq!(summary.download_len(), 500);
}

#[test]
fn staging_directory_is_removed_after_a_run() {
    let mut outside = Outside::new(&THREE);
    let report = run(args("latest", Some(MIRROR), false, None), &mut outside);
    assert!(report.result.is_ok());
    assert_eq!(report.kept_staging, None);
    assert!(!outside.dirs.contains("./out/_temp"));
    assert!(outside.files.keys().all(|p| !p.starts_with("./out/_temp/")));
}

#[test]
fn staging_directory_is_kept_and_reported_on_request() {
    let mut outside = Outside::new(&THREE);
    let report = run(args("latest", Some(MIRROR), true, None), &mut outside);
    assert!(report.result.is_ok());
    assert_eq!(report.kept_staging, Some("./out/_temp".to_string()));
    assert!(outside.dirs.contains("./out/_temp"));
}

#[test]
fn staging_directory_is_removed_after_a_failed_download() {
    let mut outside = Outside::new(&THREE);
    outside.served.insert("a.xml.bz2".to_string(), Served::Status(404));
    let report = run(args("latest", Some(MIRROR), false, None), &mut outside);
    let error = report.result.unwrap_err();
    assert_eq!(error.kind, ErrorKind::DownloadFailed { cause: DownloadFailure::Status(404) });
    assert_eq!(error.dump, "enwiki");
    assert_eq!(error.version, Some("20230301".to_string()));
    assert_eq!(error.job, JOB);
    assert_eq!(error.file, Some("/enwiki/20230301/a.xml.bz2".to_string()));
    assert!(!outside.dirs.contains("./out/_temp"));
    assert!(report.outcomes.is_empty());
}

#[test]
fn staging_directory_that_cannot_be_created_ends_the_run() {
    let mut outside = Outside::new(&THREE);
    outside.staging_fails = true;
    let report = run(args("latest", Some(MIRROR), false, None), &mut outside);
    let error = report.result.unwrap_err();
    assert_eq!(error.kind, ErrorKind::StagingCreateFailed);
    assert_eq!(error.file, None);
    assert_eq!(outside.requests.len(), 2);
    assert!(outside.files.is_empty());
}

#[test]
fn unreachable_index_ends_the_run() {
    let mut outside = Outside::new(&THREE);
    outside.index = None;
    let error = run(args("latest", None, false, None), &mut outside).result.unwrap_err();
    assert_eq!(error.kind, ErrorKind::MetadataUnavailable);
    assert_eq!(error.version, None);
    assert_eq!(outside.requests, vec!["https://dumps.wikimedia.org/enwiki/".to_string()]);
}

#[test]
fn index_without_a_complete_version_ends_the_run() {
    let mut outside = Outside::new(&THREE);
    outside.index = Some(vec![("20230320", false)]);
    let error = run(args("latest", None, false, None), &mut outside).result.unwrap_err();
    assert_eq!(error.kind, ErrorKind::NoVersionsFound);
}

#[test]
fn unknown_version_ends_the_run() {
    let mut outside = Outside::new(&THREE);
    let error = run(args("19990101", None, false, None), &mut outside).result.unwrap_err();
    assert_eq!(error.kind, ErrorKind::VersionNotFound);
    assert_eq!(error.version, Some("19990101".to_string()));
}

#[test]
fn unknown_job_ends_the_run() {
    let mut outside = Outside::new(&THREE);
    let mut a = args("20230301", None, false, None);
    a.job_name.value = "nojob".to_string();
    let error = run(a, &mut outside).result.unwrap_err();
    assert_eq!(error.kind, ErrorKind::JobNotFound);
    assert_eq!(error.job, "nojob");
    assert!(outside.dirs.is_empty());
}

#[test]
fn filter_limits_what_is_downloaded() {
    let mut outside = Outside::new(&[("a.xml.bz2", 10), ("a.xml.bz2.rss", 20), ("b.xml.bz2", 30)]);
    let report = run(args("20230301", Some(MIRROR), false, Some(r"a\.xml\.bz2$")), &mut outside);
    let summary = report.result.unwrap();
    assert_eq!((summary.download_ok(), summary.download_len()), (1, 10));
    assert_eq!(report.outcomes.len(), 1);
    assert_eq!(report.outcomes[0].file, "a.xml.bz2");
    assert_eq!(outside.files.len(), 1);
}

#[test]
fn filter_that_matches_nothing_is_no_error() {
    let mut outside = Outside::new(&THREE);
    let report = run(args("20230301", Some(MIRROR), false, Some(r"\.7z$")), &mut outside);
    let summary = report.result.unwrap();
    assert_eq!((summary.download_ok(), summary.existing_ok()), (0, 0));
    assert!(report.outcomes.is_empty());
    assert!(!outside.dirs.contains("./out/_temp"));
}

#[test]
fn downloaded_bytes_are_those_transferred() {
    let mut pipeline = Pipeline::new(args("20230301", None, true, None));
    let mut outside = Outside::new(&[("a.xml.bz2", 100)]);
    let mut event = Event::Start;
    loop {
        let (next, action) = pipeline.step(event);
        pipeline = next;
        match action.unwrap() {
            Action::Finish(report) => {
                let summary = report.result.unwrap();
                assert_eq!((summary.download_ok(), summary.download_len()), (1, 42));
                break;
            }
            Action::Download { to, .. } => {
                outside.files.insert(to, 42);
                event = Event::Transferred { status: 200, bytes: 42 };
            }
            action => event = outside.perform(&action),
        }
    }
}

#[test]
fn failed_promotion_ends_the_run() {
    let mut pipeline = Pipeline::new(args("20230301", None, false, None));
    let mut outside = Outside::new(&THREE);
    let mut event = Event::Start;
    let report = loop {
        let (next, action) = pipeline.step(event);
        pipeline = next;
        match action.unwrap() {
            Action::Finish(report) => break report,
            Action::Promote { from, to } => {
                assert_eq!(from, "./out/_temp/a.xml.bz2");
                assert_eq!(to, final_path("a.xml.bz2"));
                event = Event::PromotionFailed { cause: "read-only".to_string() };
            }
            action => event = outside.perform(&action),
        }
    };
    assert_eq!(
        report.result.unwrap_err().kind,
        ErrorKind::DownloadFailed { cause: DownloadFailure::Promotion("read-only".to_string()) }
    );
    assert!(!outside.dirs.contains("./out/_temp"));
}

#[test]
fn event_that_is_not_awaited_changes_nothing() {
    let pipeline = Pipeline::new(args("latest", None, false, None));
    assert_eq!(pipeline.phase(), Phase::Idle);
    let (pipeline, action) = pipeline.step(Event::Disposed);
    assert_eq!(action, None);
    assert_eq!(pipeline.phase(), Phase::Idle);
    let (pipeline, action) = pipeline.step(Event::Stat(Some(3)));
    assert_eq!(action, None);
    let (pipeline, action) = pipeline.step(Event::Start);
    assert_eq!(action, Some(Action::FetchIndex { url: format!("{CANONICAL}/enwiki/") }));
    assert_eq!(pipeline.phase(), Phase::AwaitIndex);
    let (pipeline, action) = pipeline.step(Event::Start);
    assert_eq!(action, None);
    assert_eq!(pipeline.phase(), Phase::AwaitIndex);
    assert!(!pipeline.is_finished());
}

#[test]
fn finished_run_takes_no_further_event() {
    let mut outside = Outside::new(&[]);
    let mut pipeline = Pipeline::new(args("20230301", None, false, None));
    let mut event = Event::Start;
    loop {
        let (next, action) = pipeline.step(event);
        pipeline = next;
        match action.unwrap() {
            Action::Finish(report) => {
                assert!(report.result.is_ok());
                break;
            }
            action => event = outside.perform(&action),
        }
    }
    for event in [Event::Start, Event::Disposed, Event::Promoted, Event::StagingCreated(true)] {
        let (next, action) = pipeline.step(event);
        pipeline = next;
        assert_eq!(action, None);
        assert_eq!(pipeline.phase(), Phase::Finished);
    }
}
