//! The decisions about one file: whether it has to be fetched, from where, and what a
//! finished transfer amounts to.
//!
//! A file whose final path already holds a copy of the listed size is not fetched again.
//! Otherwise its bytes are written to the staging area and, once the transfer has
//! succeeded, moved to the final path in one step.

use vstd::prelude::*;
use vstd::string::*;
use crate::error::DownloadFailure;
use crate::files::{FileMeta, FileMetaView};
use crate::layout::{joined, source_url, source_url_text};
use crate::staging::StagingArea;
use crate::summary::{DownloadOutcome, OutcomeKind, OutcomeView};

verus! {

/// Whether what was found at a final path is a complete copy of a file of `size` bytes:
/// there is a file, and it has that size.
pub open spec fn is_complete_copy(found: Option<u64>, size: nat) -> bool {
    found matches Some(n) && n == size
}

/// Whether a status reports success.
pub open spec fn is_success(status: u16) -> bool {
    200 <= status < 300
}

/// What is done about one file.
#[derive(Debug, PartialEq, Eq)]
pub enum FileDecision {
    /// The final path holds a complete copy: nothing is fetched.
    AlreadyPresent(DownloadOutcome),
    /// The file is fetched from `url` and written to `to`, a path in the staging area.
    Fetch { url: String, to: String },
}

/// A decision as plain values.
pub enum FileDecisionView {
    AlreadyPresent(OutcomeView),
    Fetch { url: Seq<char>, to: Seq<char> },
}

impl View for FileDecision {
    type V = FileDecisionView;

    open spec fn view(&self) -> FileDecisionView {
        match self {
            FileDecision::AlreadyPresent(outcome) => FileDecisionView::AlreadyPresent(outcome@),
            FileDecision::Fetch { url, to } => FileDecisionView::Fetch { url: url@, to: to@ },
        }
    }
}

/// The outcome of a file of which a complete copy was found.
pub open spec fn present_outcome(file: FileMetaView) -> OutcomeView {
    OutcomeView { file: file.name, kind: OutcomeKind::AlreadyPresent, bytes: file.size }
}

/// The outcome of a file that was fetched with `bytes` bytes transferred.
pub open spec fn downloaded_outcome(file: FileMetaView, bytes: nat) -> OutcomeView {
    OutcomeView { file: file.name, kind: OutcomeKind::Downloaded, bytes }
}

/// What is done about `file` when `found` is the size of what is at its final path: a
/// complete copy is kept, anything else is fetched anew, from the mirror where one is
/// configured.
pub open spec fn decision(
    file: FileMetaView,
    found: Option<u64>,
    mirror: Option<Seq<char>>,
    staging_dir: Seq<char>,
) -> FileDecisionView {
    if is_complete_copy(found, file.size) {
        FileDecisionView::AlreadyPresent(present_outcome(file))
    } else {
        FileDecisionView::Fetch {
            url: source_url_text(mirror, file.url),
            to: joined(staging_dir, file.name),
        }
    }
}

/// The text behind an optional string slice.
pub open spec fn opt_str_text(s: Option<&str>) -> Option<Seq<char>> {
    match s {
        Some(t) => Some(t@),
        None => None,
    }
}

/// Decides what is done about `file`; `found` is the size of the file at its final path,
/// or `None` where there is none.
pub fn decide(file: &FileMeta, found: Option<u64>, mirror: Option<&str>, staging: &StagingArea) -> (r:
    FileDecision)
    ensures
        r@ == decision(file@, found, opt_str_text(mirror), staging@.dir),
{
    let complete = match found {
        Some(n) => n == file.size,
        None => false,
    };
    if complete {
        FileDecision::AlreadyPresent(
            DownloadOutcome {
                file: file.name.clone(),
                kind: OutcomeKind::AlreadyPresent,
                bytes: file.size,
            },
        )
    } else {
        FileDecision::Fetch {
            url: source_url(mirror, file.url.as_str()),
            to: staging.path_for(file.name.as_str()),
        }
    }
}

/// Judges the status a host answered with: any status but a success is a failure of the
/// transfer.
pub fn check_status(status: u16) -> (r: Result<(), DownloadFailure>)
    ensures
        is_success(status) ==> r is Ok,
        !is_success(status) ==> r == Err::<(), DownloadFailure>(DownloadFailure::Status(status)),
{
    if 200 <= status && status < 300 {
        Ok(())
    } else {
        Err(DownloadFailure::Status(status))
    }
}

/// The outcome of a file that was fetched and moved to its final path; `bytes` is the
/// length that was transferred.
pub fn downloaded(file: &FileMeta, bytes: u64) -> (r: DownloadOutcome)
    ensures
        r@ == downloaded_outcome(file@, bytes as nat),
{
    DownloadOutcome { file: file.name.clone(), kind: OutcomeKind::Downloaded, bytes }
}

} // verus!
