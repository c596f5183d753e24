//! What can end a run, and the context an error is reported with.

use vstd::prelude::*;
use vstd::string::*;

verus! {

/// Why the transfer of one file failed.
#[derive(Debug, PartialEq, Eq)]
pub enum DownloadFailure {
    /// The host answered with a status that is no success.
    Status(u16),
    /// The request or the body's transfer broke off.
    Transport(String),
    /// The fetched file could not be moved to its final path.
    Promotion(String),
}

/// A transfer failure as plain values.
pub enum DownloadFailureView {
    Status(u16),
    Transport(Seq<char>),
    Promotion(Seq<char>),
}

impl View for DownloadFailure {
    type V = DownloadFailureView;

    open spec fn view(&self) -> DownloadFailureView {
        match self {
            DownloadFailure::Status(code) => DownloadFailureView::Status(*code),
            DownloadFailure::Transport(cause) => DownloadFailureView::Transport(cause@),
            DownloadFailure::Promotion(cause) => DownloadFailureView::Promotion(cause@),
        }
    }
}

/// The kinds of error. Each ends the run; none is retried.
#[derive(Debug, PartialEq, Eq)]
pub enum ErrorKind {
    /// The canonical source could not be reached or sent malformed data.
    MetadataUnavailable,
    /// The dump has no version whose data for the job is complete.
    NoVersionsFound,
    /// The canonical source does not know the version.
    VersionNotFound,
    /// The version's manifest has no job of the given name.
    JobNotFound,
    /// The staging directory could not be created.
    StagingCreateFailed,
    /// A file could not be fetched.
    DownloadFailed { cause: DownloadFailure },
}

/// An error kind as plain values.
pub enum ErrorKindView {
    MetadataUnavailable,
    NoVersionsFound,
    VersionNotFound,
    JobNotFound,
    StagingCreateFailed,
    DownloadFailed { cause: DownloadFailureView },
}

impl View for ErrorKind {
    type V = ErrorKindView;

    open spec fn view(&self) -> ErrorKindView {
        match self {
            ErrorKind::MetadataUnavailable => ErrorKindView::MetadataUnavailable,
            ErrorKind::NoVersionsFound => ErrorKindView::NoVersionsFound,
            ErrorKind::VersionNotFound => ErrorKindView::VersionNotFound,
            ErrorKind::JobNotFound => ErrorKindView::JobNotFound,
            ErrorKind::StagingCreateFailed => ErrorKindView::StagingCreateFailed,
            ErrorKind::DownloadFailed { cause } => ErrorKindView::DownloadFailed { cause: cause@ },
        }
    }
}

/// An error together with the dump, version, job and file that were being worked on.
#[derive(Debug, PartialEq, Eq)]
pub struct RunError {
    pub kind: ErrorKind,
    pub dump: String,
    /// The version, once it is resolved.
    pub version: Option<String>,
    pub job: String,
    /// The relative address of the file, where the error concerns one file.
    pub file: Option<String>,
}

/// An error with its context as plain values.
pub struct RunErrorView {
    pub kind: ErrorKindView,
    pub dump: Seq<char>,
    pub version: Option<Seq<char>>,
    pub job: Seq<char>,
    pub file: Option<Seq<char>>,
}

/// The text of an optional string.
pub open spec fn opt_text(s: Option<String>) -> Option<Seq<char>> {
    match s {
        Some(t) => Some(t@),
        None => None,
    }
}

impl View for RunError {
    type V = RunErrorView;

    open spec fn view(&self) -> RunErrorView {
        RunErrorView {
            kind: self.kind@,
            dump: self.dump@,
            version: opt_text(self.version),
            job: self.job@,
            file: opt_text(self.file),
        }
    }
}

/// One part of a context line: a blank where something precedes it, the label, and the
/// value between single quotes.
pub open spec fn context_part(label: Seq<char>, value: Seq<char>) -> Seq<char> {
    label + seq!['=', '\''] + value + seq!['\'']
}

/// The context line of an error: `dump='..' version='..' job='..' file='..'`, without the
/// parts that are not known.
pub open spec fn context_text(e: RunErrorView) -> Seq<char> {
    context_part("dump"@, e.dump) + (match e.version {
        Some(v) => seq![' '] + context_part("version"@, v),
        None => Seq::empty(),
    }) + seq![' '] + context_part("job"@, e.job) + (match e.file {
        Some(f) => seq![' '] + context_part("file"@, f),
        None => Seq::empty(),
    })
}

fn push_part(line: &mut String, label: &str, value: &str)
    ensures
        final(line)@ == old(line)@ + context_part(label@, value@),
{
    proof {
        reveal_strlit("='");
        reveal_strlit("'");
    }
    line.append(label);
    line.append("='");
    line.append(value);
    line.append("'");
    proof {
        assert("='"@ =~= seq!['=', '\'']);
        assert("'"@ =~= seq!['\'']);
        assert(final(line)@ =~= old(line)@ + context_part(label@, value@));
    }
}

impl RunError {
    /// The context of the error in one line, for a report to the user.
    pub fn context(&self) -> (line: String)
        ensures
            line@ == context_text(self@),
    {
        proof {
            reveal_strlit(" ");
        }
        let mut line = String::new();
        push_part(&mut line, "dump", self.dump.as_str());
        match &self.version {
            Some(v) => {
                line.append(" ");
                push_part(&mut line, "version", v.as_str());
            },
            None => {},
        }
        line.append(" ");
        push_part(&mut line, "job", self.job.as_str());
        match &self.file {
            Some(f) => {
                line.append(" ");
                push_part(&mut line, "file", f.as_str());
            },
            None => {},
        }
        proof {
            assert(" "@ =~= seq![' ']);
            assert(line@ =~= context_text(self@));
        }
        line
    }
}

} // verus!
