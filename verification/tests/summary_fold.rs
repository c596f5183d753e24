use wmd::summary::{DownloadOutcome, OutcomeKind, RunSummary};

fn outcome(file: &str, kind: OutcomeKind, bytes: u64) -> DownloadOutcome {
    DownloadOutcome { file: file.to_string(), kind, bytes }
}

#[test]
fn new_summary_is_empty() {
    let s = RunSummary::new();
    assert_eq!((s.download_ok(), s.download_len(), s.existing_ok(), s.existing_len()), (0, 0, 0, 0));
}

#[test]
fn three_files_one_present_two_downloaded() {
    let mut s = RunSummary::new();
    s.fold(&outcome("a", OutcomeKind::AlreadyPresent, 100));
    s.fold(&outcome("b", OutcomeKind::Downloaded, 200));
    s.fold(&outcome("c", OutcomeKind::Downloaded, 300));
    assert_eq!(s.existing_ok(), 1);
    assert_eq!(s.existing_len(), 100);
    assert_eq!(s.download_ok(), 2);
    assert_eq!(s.download_len(), 500);
}

#[test]
fn fold_touches_only_the_counters_of_its_kind() {
    let mut s = RunSummary::new();
    s.fold(&outcome("a", OutcomeKind::Downloaded, 7));
    assert_eq!((s.download_ok(), s.download_len(), s.existing_ok(), s.existing_len()), (1, 7, 0, 0));
    s.fold(&outcome("b", OutcomeKind::AlreadyPresent, 0));
    assert_eq!((s.download_ok(), s.download_len(), s.existing_ok(), s.existing_len()), (1, 7, 1, 0));
}

#[test]
fn byte_totals_do_not_wrap() {
    let mut s = RunSummary::new();
    s.fold(&outcome("a", OutcomeKind::Downloaded, u64::MAX));
    s.fold(&outcome("b", OutcomeKind::Downloaded, u64::MAX));
    assert_eq!(s.download_ok(), 2);
    assert_eq!(s.download_len(), 2 * (u64::MAX as u128));
}
