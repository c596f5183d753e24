//! The run as a state machine.
//!
//! A run alternates between decisions and work on the outside: requests to hosts and
//! operations on the file system. The decisions are made here. A caller starts with
//! [`Event::Start`], performs each [`Action`] it is handed, and reports what happened as
//! the next [`Event`], until it is handed [`Action::Finish`].

use vstd::prelude::*;
use vstd::string::*;
use crate::args::{Args, ArgsView};
use crate::download::{
    check_status, decide, decision, downloaded, downloaded_outcome, is_success, FileDecision,
    FileDecisionView,
};
use crate::error::{
    opt_text, DownloadFailure, DownloadFailureView, ErrorKind, ErrorKindView, RunError,
    RunErrorView,
};
use crate::files::{file_views, unique_names, FileMeta, FileMetaView};
use crate::layout::{
    final_path, final_path_text, manifest_url, manifest_url_text, staging_dir_text,
    staging_path_text, versions_url_text,
};
use crate::metadata::{
    begin_resolve, entry_views, lemma_listing_unique, list, listing, resolve_latest,
    resolved_latest, ManifestReply, ManifestView, ResolveStep, VersionEntry, VersionEntryView,
};
use crate::staging::{disposal_of, Disposal, DisposalView, StagingArea, StagingView};
use crate::summary::{
    lemma_tally_bounds, outcome_views, tally_add, tally_of, DownloadOutcome, OutcomeView, RunSummary, Tally,
};
use crate::version::Version;

verus! {

/// Where a run stands: what it has asked for and waits to hear of.
#[derive(Clone, Copy, Debug, PartialEq, Eq, Structural)]
pub enum Phase {
    /// Nothing has been asked yet.
    Idle,
    /// The index of the dump's versions.
    AwaitIndex,
    /// The manifest of the resolved version.
    AwaitManifest,
    /// The creation of the staging directory.
    AwaitStaging,
    /// The size of what is at the final path of the current file.
    AwaitStat,
    /// The transfer of the current file to its staging path.
    AwaitTransfer,
    /// The move of the current file from its staging path to its final path.
    AwaitPromotion,
    /// The removal of the staging directory.
    AwaitDisposal,
    /// The run has ended.
    Finished,
}

/// What the outside reports to the run.
#[derive(Debug, PartialEq, Eq)]
pub enum Event {
    /// The run may begin.
    Start,
    /// The reply to the index request: the versions of the dump, or `None` where the
    /// canonical source could not be reached or sent malformed data.
    Index(Option<Vec<VersionEntry>>),
    /// The reply to the manifest request.
    Manifest(ManifestReply),
    /// Whether the staging directory was created.
    StagingCreated(bool),
    /// The size of the file at the path asked about, or `None` where there is none.
    Stat(Option<u64>),
    /// The host answered with `status` and `bytes` bytes of body were written to the
    /// staging path.
    Transferred { status: u16, bytes: u64 },
    /// The transfer broke off.
    TransferFailed { cause: String },
    /// The staged file was moved to its final path.
    Promoted,
    /// The staged file could not be moved; the final path is as it was.
    PromotionFailed { cause: String },
    /// The staging directory was removed.
    Disposed,
}

/// An event as plain values.
pub enum EventView {
    Start,
    Index(Option<Seq<VersionEntryView>>),
    Manifest(ManifestView),
    StagingCreated(bool),
    Stat(Option<u64>),
    Transferred { status: u16, bytes: u64 },
    TransferFailed { cause: Seq<char> },
    Promoted,
    PromotionFailed { cause: Seq<char> },
    Disposed,
}

impl View for Event {
    type V = EventView;

    open spec fn view(&self) -> EventView {
        match self {
            Event::Start => EventView::Start,
            Event::Index(reply) => EventView::Index(
                match reply {
                    Some(entries) => Some(entry_views(entries@)),
                    None => None,
                },
            ),
            Event::Manifest(reply) => EventView::Manifest(reply@),
            Event::StagingCreated(ok) => EventView::StagingCreated(*ok),
            Event::Stat(found) => EventView::Stat(*found),
            Event::Transferred { status, bytes } => EventView::Transferred {
                status: *status,
                bytes: *bytes,
            },
            Event::TransferFailed { cause } => EventView::TransferFailed { cause: cause@ },
            Event::Promoted => EventView::Promoted,
            Event::PromotionFailed { cause } => EventView::PromotionFailed { cause: cause@ },
            Event::Disposed => EventView::Disposed,
        }
    }
}

/// How a run ended.
#[derive(Debug, PartialEq, Eq)]
pub struct Report {
    /// The totals of the run, or the error that ended it.
    pub result: Result<RunSummary, RunError>,
    /// The outcome of each file that was completed, in the order of the listing.
    pub outcomes: Vec<DownloadOutcome>,
    /// The staging directory, where it was kept for inspection.
    pub kept_staging: Option<String>,
}

/// A report as plain values.
pub struct ReportView {
    pub result: Result<Tally, RunErrorView>,
    pub outcomes: Seq<OutcomeView>,
    pub kept_staging: Option<Seq<char>>,
}

impl View for Report {
    type V = ReportView;

    open spec fn view(&self) -> ReportView {
        ReportView {
            result: match self.result {
                Ok(summary) => Ok(summary@),
                Err(error) => Err(error@),
            },
            outcomes: outcome_views(self.outcomes@),
            kept_staging: opt_text(self.kept_staging),
        }
    }
}

/// What the run asks the outside to do next.
#[derive(Debug, PartialEq, Eq)]
pub enum Action {
    /// Fetch the index of the dump's versions, with the client for metadata.
    FetchIndex { url: String },
    /// Fetch the manifest of one version, with the client for metadata.
    FetchManifest { url: String },
    /// Create the staging directory.
    CreateStaging { path: String },
    /// Look up the size of the file at `path`.
    Stat { path: String },
    /// Fetch `url` with the client for files and write the body to `to`.
    Download { url: String, to: String },
    /// Move the file at `from` to `to` in one step, replacing what is there.
    Promote { from: String, to: String },
    /// Remove the staging directory and what is in it.
    RemoveStaging { path: String },
    /// The run has ended.
    Finish(Report),
}

/// An action as plain values.
pub enum ActionView {
    FetchIndex { url: Seq<char> },
    FetchManifest { url: Seq<char> },
    CreateStaging { path: Seq<char> },
    Stat { path: Seq<char> },
    Download { url: Seq<char>, to: Seq<char> },
    Promote { from: Seq<char>, to: Seq<char> },
    RemoveStaging { path: Seq<char> },
    Finish(ReportView),
}

impl View for Action {
    type V = ActionView;

    open spec fn view(&self) -> ActionView {
        match self {
            Action::FetchIndex { url } => ActionView::FetchIndex { url: url@ },
            Action::FetchManifest { url } => ActionView::FetchManifest { url: url@ },
            Action::CreateStaging { path } => ActionView::CreateStaging { path: path@ },
            Action::Stat { path } => ActionView::Stat { path: path@ },
            Action::Download { url, to } => ActionView::Download { url: url@, to: to@ },
            Action::Promote { from, to } => ActionView::Promote { from: from@, to: to@ },
            Action::RemoveStaging { path } => ActionView::RemoveStaging { path: path@ },
            Action::Finish(report) => ActionView::Finish(report@),
        }
    }
}

/// The state of a run as plain values.
pub struct PipelineView {
    pub args: ArgsView,
    pub phase: Phase,
    /// The version, once it is resolved. It stays the same for the rest of the run.
    pub version: Option<Seq<char>>,
    /// The listing, once the manifest is read.
    pub files: Seq<FileMetaView>,
    /// The position in the listing of the file that is worked on.
    pub next: nat,
    /// The bytes of the transfer that awaits promotion.
    pub bytes: nat,
    /// The outcomes of the files before `next`.
    pub outcomes: Seq<OutcomeView>,
    pub summary: Tally,
    /// The error that ends the run, once there is one.
    pub failure: Option<RunErrorView>,
}

/// The text of the resolved version; empty before it is resolved.
pub open spec fn version_text(s: PipelineView) -> Seq<char> {
    match s.version {
        Some(v) => v,
        None => Seq::empty(),
    }
}

/// The final path of the file at position `i` of the listing.
pub open spec fn final_path_of(s: PipelineView, i: int) -> Seq<char> {
    final_path_text(s.args.out_dir, s.args.dump, version_text(s), s.args.job, s.files[i].name)
}

/// The staging path of the file at position `i` of the listing.
pub open spec fn staging_path_of(s: PipelineView, i: int) -> Seq<char> {
    staging_path_text(s.args.out_dir, s.files[i].name)
}

/// The staging area of the run, once its directory is created.
pub open spec fn staging_of(s: PipelineView) -> StagingView {
    StagingView { dir: staging_dir_text(s.args.out_dir), keep: s.args.keep }
}

/// The error of kind `kind` with the context of the run; `file` is the relative address
/// of the file concerned, if the error concerns one.
pub open spec fn error_in(s: PipelineView, kind: ErrorKindView, file: Option<Seq<char>>) -> RunErrorView {
    RunErrorView { kind, dump: s.args.dump, version: s.version, job: s.args.job, file }
}

/// The version is resolved to `v`: its manifest is asked for.
pub open spec fn request_manifest(s: PipelineView, v: Seq<char>) -> (PipelineView, ActionView) {
    (
        PipelineView { phase: Phase::AwaitManifest, version: Some(v), ..s },
        ActionView::FetchManifest { url: manifest_url_text(s.args.dump, v) },
    )
}

/// The run ends: with the error that was met, else with its totals.
pub open spec fn finish(s: PipelineView, kept_staging: Option<Seq<char>>) -> (
    PipelineView,
    ActionView,
) {
    (
        PipelineView { phase: Phase::Finished, ..s },
        ActionView::Finish(
            ReportView {
                result: match s.failure {
                    Some(error) => Err(error),
                    None => Ok(s.summary),
                },
                outcomes: s.outcomes,
                kept_staging,
            },
        ),
    )
}

/// The run fails with an error of kind `kind` before it has a staging directory.
pub open spec fn fail_early(s: PipelineView, kind: ErrorKindView) -> (PipelineView, ActionView) {
    finish(PipelineView { failure: Some(error_in(s, kind, None)), ..s }, None)
}

/// The staging directory is given up: it is removed, or kept and reported where the
/// inputs ask for that.
pub open spec fn dispose(s: PipelineView) -> (PipelineView, ActionView) {
    match disposal_of(staging_of(s)) {
        DisposalView::Keep { path } => finish(s, Some(path)),
        DisposalView::Remove { path } => (
            PipelineView { phase: Phase::AwaitDisposal, ..s },
            ActionView::RemoveStaging { path },
        ),
    }
}

/// The transfer of the current file has failed: the run is over, and the staging
/// directory is given up.
pub open spec fn fail_file(s: PipelineView, cause: DownloadFailureView) -> (
    PipelineView,
    ActionView,
) {
    dispose(
        PipelineView {
            failure: Some(
                error_in(
                    s,
                    ErrorKindView::DownloadFailed { cause },
                    Some(s.files[s.next as int].url),
                ),
            ),
            ..s
        },
    )
}

/// The next file of the listing is taken up: its final path is looked at. After the last
/// file the staging directory is given up.
pub open spec fn next_file(s: PipelineView) -> (PipelineView, ActionView) {
    if s.next < s.files.len() {
        (
            PipelineView { phase: Phase::AwaitStat, ..s },
            ActionView::Stat { path: final_path_of(s, s.next as int) },
        )
    } else {
        dispose(s)
    }
}

/// The current file is complete: its outcome is recorded and counted.
pub open spec fn record(s: PipelineView, outcome: OutcomeView) -> PipelineView {
    PipelineView {
        outcomes: s.outcomes.push(outcome),
        summary: tally_add(s.summary, outcome.kind, outcome.bytes),
        next: s.next + 1,
        ..s
    }
}

/// The step of the run: from a state and an event to the next state and the action to
/// perform. `None` where the event is not the one the state waits for.
pub open spec fn step_spec(s: PipelineView, e: EventView) -> Option<(PipelineView, ActionView)> {
    match (s.phase, e) {
        (Phase::Idle, EventView::Start) => match s.args.version_spec {
            Some(v) => Some(request_manifest(s, v)),
            None => Some(
                (
                    PipelineView { phase: Phase::AwaitIndex, ..s },
                    ActionView::FetchIndex { url: versions_url_text(s.args.dump) },
                ),
            ),
        },
        (Phase::AwaitIndex, EventView::Index(reply)) => match resolved_latest(reply) {
            Ok(v) => Some(request_manifest(s, v)),
            Err(kind) => Some(fail_early(s, kind)),
        },
        (Phase::AwaitManifest, EventView::Manifest(reply)) => match listing(
            reply,
            s.args.job,
            s.args.filter,
        ) {
            Ok(files) => Some(
                (
                    PipelineView { phase: Phase::AwaitStaging, files, ..s },
                    ActionView::CreateStaging { path: staging_dir_text(s.args.out_dir) },
                ),
            ),
            Err(kind) => Some(fail_early(s, kind)),
        },
        (Phase::AwaitStaging, EventView::StagingCreated(created)) => if created {
            Some(next_file(s))
        } else {
            Some(fail_early(s, ErrorKindView::StagingCreateFailed))
        },
        (Phase::AwaitStat, EventView::Stat(found)) => match decision(
            s.files[s.next as int],
            found,
            s.args.mirror,
            staging_of(s).dir,
        ) {
            FileDecisionView::AlreadyPresent(outcome) => Some(next_file(record(s, outcome))),
            FileDecisionView::Fetch { url, to } => Some(
                (
                    PipelineView { phase: Phase::AwaitTransfer, ..s },
                    ActionView::Download { url, to },
                ),
            ),
        },
        (Phase::AwaitTransfer, EventView::Transferred { status, bytes }) => if is_success(status) {
            Some(
                (
                    PipelineView { phase: Phase::AwaitPromotion, bytes: bytes as nat, ..s },
                    ActionView::Promote {
                        from: staging_path_of(s, s.next as int),
                        to: final_path_of(s, s.next as int),
                    },
                ),
            )
        } else {
            Some(fail_file(s, DownloadFailureView::Status(status)))
        },
        (Phase::AwaitTransfer, EventView::TransferFailed { cause }) => Some(
            fail_file(s, DownloadFailureView::Transport(cause)),
        ),
        (Phase::AwaitPromotion, EventView::Promoted) => Some(
            next_file(record(s, downloaded_outcome(s.files[s.next as int], s.bytes))),
        ),
        (Phase::AwaitPromotion, EventView::PromotionFailed { cause }) => Some(
            fail_file(s, DownloadFailureView::Promotion(cause)),
        ),
        (Phase::AwaitDisposal, EventView::Disposed) => Some(finish(s, None)),
        _ => None,
    }
}

/// What holds of every state of a run: no name occurs twice in the listing, the file
/// worked on is one of the listing, each file before it has its outcome, the totals count
/// exactly those outcomes, and a run without an error ends only after the last file.
pub open spec fn valid(s: PipelineView) -> bool {
    &&& unique_names(s.files)
    &&& s.next <= s.files.len()
    &&& s.outcomes.len() == s.next
    &&& s.summary == tally_of(s.outcomes)
    &&& forall|i: int|
        0 <= i < s.outcomes.len() ==> (#[trigger] s.outcomes[i]).file == s.files[i].name
    &&& (s.phase == Phase::AwaitStat || s.phase == Phase::AwaitTransfer || s.phase
        == Phase::AwaitPromotion) ==> s.next < s.files.len()
    &&& (s.phase == Phase::Idle || s.phase == Phase::AwaitIndex || s.phase
        == Phase::AwaitManifest) ==> s.next == 0 && s.files.len() == 0 && s.failure is None
    &&& (s.phase == Phase::AwaitStaging || s.phase == Phase::AwaitStat || s.phase
        == Phase::AwaitTransfer || s.phase == Phase::AwaitPromotion) ==> s.failure is None
    &&& (s.phase == Phase::AwaitDisposal || s.phase == Phase::Finished) && s.failure is None
        ==> s.next == s.files.len()
}

/// A step from a valid state leads to a valid state.
pub proof fn lemma_step_valid(s: PipelineView, e: EventView)
    requires
        valid(s),
    ensures
        step_spec(s, e) matches Some((next, _)) ==> valid(next),
{
    match step_spec(s, e) {
        Some((next, _)) => {
            if s.phase == Phase::AwaitManifest {
                match e {
                    EventView::Manifest(reply) => {
                        lemma_listing_unique(reply, s.args.job, s.args.filter);
                    },
                    _ => {},
                }
            }
            if next.outcomes.len() == s.outcomes.len() + 1 {
                assert(next.outcomes.drop_last() =~= s.outcomes);
            }
        },
        None => {},
    }
}

/// The state of a run before its first step.
pub open spec fn initial(args: ArgsView) -> PipelineView {
    PipelineView {
        args,
        phase: Phase::Idle,
        version: None,
        files: Seq::empty(),
        next: 0,
        bytes: 0,
        outcomes: Seq::empty(),
        summary: crate::summary::empty_tally(),
        failure: None,
    }
}

/// The text of an optional version.
pub open spec fn opt_version_text(v: Option<Version>) -> Option<Seq<char>> {
    match v {
        Some(x) => Some(x@),
        None => None,
    }
}

/// The view of an optional error.
pub open spec fn opt_error_view(e: Option<RunError>) -> Option<RunErrorView> {
    match e {
        Some(x) => Some(x@),
        None => None,
    }
}

/// A run: its inputs and how far it has come.
#[derive(Debug)]
pub struct Pipeline {
    args: Args,
    phase: Phase,
    version: Option<Version>,
    files: Vec<FileMeta>,
    next: usize,
    bytes: u64,
    outcomes: Vec<DownloadOutcome>,
    summary: RunSummary,
    failure: Option<RunError>,
    staging: Option<StagingArea>,
}

impl View for Pipeline {
    type V = PipelineView;

    closed spec fn view(&self) -> PipelineView {
        PipelineView {
            args: self.args@,
            phase: self.phase,
            version: opt_version_text(self.version),
            files: file_views(self.files@),
            next: self.next as nat,
            bytes: self.bytes as nat,
            outcomes: outcome_views(self.outcomes@),
            summary: self.summary@,
            failure: opt_error_view(self.failure),
        }
    }
}

fn clone_text(s: &Option<String>) -> (r: Option<String>)
    ensures
        r == *s,
{
    match s {
        Some(t) => Some(t.clone()),
        None => None,
    }
}

fn clone_failure(cause: &DownloadFailure) -> (r: DownloadFailure)
    ensures
        r == *cause,
{
    match cause {
        DownloadFailure::Status(code) => DownloadFailure::Status(*code),
        DownloadFailure::Transport(t) => DownloadFailure::Transport(t.clone()),
        DownloadFailure::Promotion(t) => DownloadFailure::Promotion(t.clone()),
    }
}

fn clone_kind(kind: &ErrorKind) -> (r: ErrorKind)
    ensures
        r == *kind,
{
    match kind {
        ErrorKind::MetadataUnavailable => ErrorKind::MetadataUnavailable,
        ErrorKind::NoVersionsFound => ErrorKind::NoVersionsFound,
        ErrorKind::VersionNotFound => ErrorKind::VersionNotFound,
        ErrorKind::JobNotFound => ErrorKind::JobNotFound,
        ErrorKind::StagingCreateFailed => ErrorKind::StagingCreateFailed,
        ErrorKind::DownloadFailed { cause } => ErrorKind::DownloadFailed {
            cause: clone_failure(cause),
        },
    }
}

fn clone_error(e: &RunError) -> (r: RunError)
    ensures
        r == *e,
{
    RunError {
        kind: clone_kind(&e.kind),
        dump: e.dump.clone(),
        version: clone_text(&e.version),
        job: e.job.clone(),
        file: clone_text(&e.file),
    }
}

fn clone_outcomes(outcomes: &Vec<DownloadOutcome>) -> (r: Vec<DownloadOutcome>)
    ensures
        r@ == outcomes@,
{
    let mut r: Vec<DownloadOutcome> = Vec::new();
    let mut i: usize = 0;
    while i < outcomes.len()
        invariant
            i <= outcomes.len(),
            r@ == outcomes@.subrange(0, i as int),
        decreases outcomes.len() - i,
    {
        r.push(outcomes[i].clone());
        assert(r@ =~= outcomes@.subrange(0, i as int + 1));
        i = i + 1;
    }
    assert(outcomes@.subrange(0, i as int) =~= outcomes@);
    r
}

impl Pipeline {
    #[verifier::type_invariant]
    spec fn well_formed(self) -> bool {
        &&& valid(self@)
        &&& (self.phase == Phase::AwaitStat || self.phase == Phase::AwaitTransfer || self.phase
            == Phase::AwaitPromotion) ==> self.staged()
    }

    spec fn staged(self) -> bool {
        self.staging matches Some(area) && area@ == staging_of(self@)
    }

    /// A run with the inputs `args`, before its first step.
    pub fn new(args: Args) -> (r: Pipeline)
        ensures
            r@ == initial(args@),
            valid(r@),
    {
        let r = Pipeline {
            args,
            phase: Phase::Idle,
            version: None,
            files: Vec::new(),
            next: 0,
            bytes: 0,
            outcomes: Vec::new(),
            summary: RunSummary::new(),
            failure: None,
            staging: None,
        };
        assert(r@.files =~= Seq::empty());
        assert(r@.outcomes =~= Seq::empty());
        r
    }

    /// Where the run stands.
    pub fn phase(&self) -> (r: Phase)
        ensures
            r == self@.phase,
    {
        self.phase
    }

    /// Whether the run has ended.
    pub fn is_finished(&self) -> (r: bool)
        ensures
            r == (self@.phase == Phase::Finished),
    {
        match self.phase {
            Phase::Finished => true,
            _ => false,
        }
    }

    fn error_in(&self, kind: ErrorKind, file: Option<String>) -> (r: RunError)
        ensures
            r@ == error_in(self@, kind@, opt_text(file)),
    {
        let version = match &self.version {
            Some(v) => Some(String::from_str(v.as_str())),
            None => None,
        };
        RunError {
            kind,
            dump: self.args.dump_name.value.clone(),
            version,
            job: self.args.job_name.value.clone(),
            file,
        }
    }

    fn report(&self, kept_staging: Option<String>) -> (r: Action)
        ensures
            r@ == finish(self@, opt_text(kept_staging)).1,
    {
        let result = match &self.failure {
            Some(error) => Err(clone_error(error)),
            None => Ok(self.summary),
        };
        Action::Finish(Report { result, outcomes: clone_outcomes(&self.outcomes), kept_staging })
    }

    fn finish(self, kept_staging: Option<String>) -> (r: (Pipeline, Action))
        requires
            self@.failure is None ==> self@.next == self@.files.len(),
        ensures
            (r.0@, r.1@) == finish(self@, opt_text(kept_staging)),
            valid(r.0@),
    {
        proof {
            use_type_invariant(&self);
        }
        let next = Pipeline { phase: Phase::Finished, ..self };
        let action = next.report(kept_staging);
        (next, action)
    }

    fn fail_early(self, kind: ErrorKind) -> (r: (Pipeline, Action))
        ensures
            (r.0@, r.1@) == fail_early(self@, kind@),
            valid(r.0@),
    {
        proof {
            use_type_invariant(&self);
        }
        let error = self.error_in(kind, None);
        let next = Pipeline { phase: Phase::Finished, failure: Some(error), ..self };
        let action = next.report(None);
        (next, action)
    }

    fn dispose(self) -> (r: (Pipeline, Action))
        requires
            self.staged(),
            self@.failure is None ==> self@.next == self@.files.len(),
        ensures
            (r.0@, r.1@) == dispose(self@),
            valid(r.0@),
    {
        proof {
            use_type_invariant(&self);
        }
        let Pipeline { args, version, files, next, bytes, outcomes, summary, failure, staging, .. } =
            self;
        let idle = Pipeline {
            args,
            phase: Phase::AwaitDisposal,
            version,
            files,
            next,
            bytes,
            outcomes,
            summary,
            failure,
            staging: None,
        };
        match staging {
            Some(area) => match area.dispose() {
                Disposal::Keep { path } => idle.finish(Some(path)),
                Disposal::Remove { path } => (idle, Action::RemoveStaging { path }),
            },
            None => unreached(),
        }
    }

    fn fail_file(self, cause: DownloadFailure) -> (r: (Pipeline, Action))
        requires
            self@.next < self@.files.len(),
            self.staged(),
        ensures
            (r.0@, r.1@) == fail_file(self@, cause@),
            valid(r.0@),
    {
        proof {
            use_type_invariant(&self);
        }
        let file = self.files[self.next].url.clone();
        let error = self.error_in(ErrorKind::DownloadFailed { cause }, Some(file));
        let failed = Pipeline { phase: Phase::AwaitDisposal, failure: Some(error), ..self };
        failed.dispose()
    }

    fn version_str(&self) -> (r: &str)
        ensures
            r@ == version_text(self@),
    {
        match &self.version {
            Some(v) => v.as_str(),
            None => {
                proof {
                    reveal_strlit("");
                }
                let e = "";
                assert(e@ =~= Seq::empty());
                e
            },
        }
    }

    fn final_path_at(&self, i: usize) -> (r: String)
        requires
            i < self@.files.len(),
        ensures
            r@ == final_path_of(self@, i as int),
    {
        final_path(
            self.args.common.out_dir.as_str(),
            self.args.dump_name.value.as_str(),
            self.version_str(),
            self.args.job_name.value.as_str(),
            self.files[i].name.as_str(),
        )
    }

    fn next_file(self) -> (r: (Pipeline, Action))
        requires
            self@.phase == Phase::AwaitStaging,
            self.staged(),
        ensures
            (r.0@, r.1@) == next_file(self@),
            valid(r.0@),
    {
        proof {
            use_type_invariant(&self);
        }
        if self.next < self.files.len() {
            let path = self.final_path_at(self.next);
            let next = Pipeline { phase: Phase::AwaitStat, ..self };
            (next, Action::Stat { path })
        } else {
            self.dispose()
        }
    }

    fn record(self, outcome: DownloadOutcome) -> (r: Pipeline)
        requires
            self@.next < self@.files.len(),
            outcome@.file == self@.files[self@.next as int].name,
            self@.failure is None,
            self.staged(),
        ensures
            r@ == (PipelineView { phase: Phase::AwaitStaging, ..record(self@, outcome@) }),
            valid(r@),
            r.staged(),
    {
        proof {
            use_type_invariant(&self);
            assert forall|i: int| 0 <= i < self@.outcomes.len() implies (
            #[trigger] self@.outcomes[i]).bytes <= u64::MAX by {
                assert(self@.outcomes[i] == self.outcomes@[i]@);
            }
            lemma_tally_bounds(self@.outcomes);
        }
        let ghost before = self@;
        let ghost added = outcome@;
        let Pipeline { args, version, files, next, bytes, outcomes, summary, failure, staging, .. } =
            self;
        let count: usize = files.len();
        assert(next < count);
        let mut summary = summary;
        summary.fold(&outcome);
        let mut outcomes = outcomes;
        outcomes.push(outcome);
        proof {
            assert(outcome_views(outcomes@) =~= before.outcomes.push(added));
            assert(outcome_views(outcomes@).drop_last() =~= before.outcomes);
        }
        Pipeline {
            args,
            phase: Phase::AwaitStaging,
            version,
            files,
            next: next + 1,
            bytes,
            outcomes,
            summary,
            failure,
            staging,
        }
    }

    fn on_start(self) -> (r: (Pipeline, Action))
        requires
            self@.phase == Phase::Idle,
        ensures
            step_spec(self@, EventView::Start) == Some((r.0@, r.1@)),
            valid(r.0@),
    {
        proof {
            use_type_invariant(&self);
        }
        let step = begin_resolve(
            &self.args.version_spec.value,
            self.args.dump_name.value.as_str(),
        );
        match step {
            ResolveStep::Resolved(v) => self.request_manifest(v),
            ResolveStep::FetchIndex { url } => {
                let next = Pipeline { phase: Phase::AwaitIndex, ..self };
                (next, Action::FetchIndex { url })
            },
        }
    }

    fn on_index(self, reply: Option<Vec<VersionEntry>>) -> (r: (Pipeline, Action))
        requires
            self@.phase == Phase::AwaitIndex,
        ensures
            step_spec(self@, Event::Index(reply)@) == Some((r.0@, r.1@)),
            valid(r.0@),
    {
        match resolve_latest(reply.as_ref()) {
            Ok(v) => self.request_manifest(v),
            Err(kind) => self.fail_early(kind),
        }
    }

    fn on_manifest(self, reply: ManifestReply) -> (r: (Pipeline, Action))
        requires
            self@.phase == Phase::AwaitManifest,
        ensures
            step_spec(self@, Event::Manifest(reply)@) == Some((r.0@, r.1@)),
            valid(r.0@),
    {
        proof {
            use_type_invariant(&self);
        }
        let listed = list(
            &reply,
            self.args.job_name.value.as_str(),
            self.args.file_name_regex.value.as_ref(),
        );
        match listed {
            Ok(files) => {
                let path = StagingArea::location(self.args.common.out_dir.as_str());
                let next = Pipeline { phase: Phase::AwaitStaging, files, ..self };
                (next, Action::CreateStaging { path })
            },
            Err(kind) => self.fail_early(kind),
        }
    }

    fn on_staging(self, created: bool) -> (r: (Pipeline, Action))
        requires
            self@.phase == Phase::AwaitStaging,
        ensures
            step_spec(self@, EventView::StagingCreated(created)) == Some((r.0@, r.1@)),
            valid(r.0@),
    {
        proof {
            use_type_invariant(&self);
        }
        let made = StagingArea::create(
            self.args.common.out_dir.as_str(),
            self.args.keep_temp_dir,
            created,
        );
        match made {
            Ok(area) => {
                let staged = Pipeline { staging: Some(area), ..self };
                staged.next_file()
            },
            Err(kind) => self.fail_early(kind),
        }
    }

    fn on_stat(self, found: Option<u64>) -> (r: (Pipeline, Action))
        requires
            self@.phase == Phase::AwaitStat,
        ensures
            step_spec(self@, EventView::Stat(found)) == Some((r.0@, r.1@)),
            valid(r.0@),
    {
        proof {
            use_type_invariant(&self);
        }
        let mirror = match &self.args.mirror_url {
            Some(m) => Some(m.as_str()),
            None => None,
        };
        let decided = match &self.staging {
            Some(area) => decide(&self.files[self.next], found, mirror, area),
            None => unreached(),
        };
        match decided {
            FileDecision::AlreadyPresent(outcome) => self.record(outcome).next_file(),
            FileDecision::Fetch { url, to } => {
                let next = Pipeline { phase: Phase::AwaitTransfer, ..self };
                (next, Action::Download { url, to })
            },
        }
    }

    fn on_transferred(self, status: u16, bytes: u64) -> (r: (Pipeline, Action))
        requires
            self@.phase == Phase::AwaitTransfer,
        ensures
            step_spec(self@, EventView::Transferred { status, bytes }) == Some((r.0@, r.1@)),
            valid(r.0@),
    {
        proof {
            use_type_invariant(&self);
        }
        match check_status(status) {
            Ok(()) => {
                let from = match &self.staging {
                    Some(area) => area.path_for(self.files[self.next].name.as_str()),
                    None => unreached(),
                };
                let to = self.final_path_at(self.next);
                let next = Pipeline { phase: Phase::AwaitPromotion, bytes, ..self };
                (next, Action::Promote { from, to })
            },
            Err(cause) => self.fail_file(cause),
        }
    }

    fn on_promoted(self) -> (r: (Pipeline, Action))
        requires
            self@.phase == Phase::AwaitPromotion,
        ensures
            step_spec(self@, EventView::Promoted) == Some((r.0@, r.1@)),
            valid(r.0@),
    {
        proof {
            use_type_invariant(&self);
        }
        let outcome = downloaded(&self.files[self.next], self.bytes);
        self.record(outcome).next_file()
    }

    fn on_failure(self, cause: DownloadFailure) -> (r: (Pipeline, Action))
        requires
            self@.phase == Phase::AwaitTransfer || self@.phase == Phase::AwaitPromotion,
        ensures
            (r.0@, r.1@) == fail_file(self@, cause@),
            valid(r.0@),
    {
        proof {
            use_type_invariant(&self);
        }
        self.fail_file(cause)
    }

    /// Takes one step: from the event that the outside reports to the action it is to
    /// perform next. An event that the run does not wait for changes nothing and yields
    /// no action.
    pub fn step(self, event: Event) -> (r: (Pipeline, Option<Action>))
        ensures
            valid(r.0@),
            match step_spec(self@, event@) {
                Some((state, action)) => {
                    &&& r.0@ == state
                    &&& r.1 matches Some(a) && a@ == action
                },
                None => r.0@ == self@ && r.1 is None,
            },
    {
        proof {
            use_type_invariant(&self);
        }
        let phase = self.phase;
        match event {
            Event::Start => match phase {
                Phase::Idle => {
                    let (next, action) = self.on_start();
                    (next, Some(action))
                },
                _ => (self, None),
            },
            Event::Index(reply) => match phase {
                Phase::AwaitIndex => {
                    let (next, action) = self.on_index(reply);
                    (next, Some(action))
                },
                _ => (self, None),
            },
            Event::Manifest(reply) => match phase {
                Phase::AwaitManifest => {
                    let (next, action) = self.on_manifest(reply);
                    (next, Some(action))
                },
                _ => (self, None),
            },
            Event::StagingCreated(created) => match phase {
                Phase::AwaitStaging => {
                    let (next, action) = self.on_staging(created);
                    (next, Some(action))
                },
                _ => (self, None),
            },
            Event::Stat(found) => match phase {
                Phase::AwaitStat => {
                    let (next, action) = self.on_stat(found);
                    (next, Some(action))
                },
                _ => (self, None),
            },
            Event::Transferred { status, bytes } => match phase {
                Phase::AwaitTransfer => {
                    let (next, action) = self.on_transferred(status, bytes);
                    (next, Some(action))
                },
                _ => (self, None),
            },
            Event::TransferFailed { cause } => match phase {
                Phase::AwaitTransfer => {
                    let (next, action) = self.on_failure(DownloadFailure::Transport(cause));
                    (next, Some(action))
                },
                _ => (self, None),
            },
            Event::Promoted => match phase {
                Phase::AwaitPromotion => {
                    let (next, action) = self.on_promoted();
                    (next, Some(action))
                },
                _ => (self, None),
            },
            Event::PromotionFailed { cause } => match phase {
                Phase::AwaitPromotion => {
                    let (next, action) = self.on_failure(DownloadFailure::Promotion(cause));
                    (next, Some(action))
                },
                _ => (self, None),
            },
            Event::Disposed => match phase {
                Phase::AwaitDisposal => {
                    let (next, action) = self.finish(None);
                    (next, Some(action))
                },
                _ => (self, None),
            },
        }
    }

    fn request_manifest(self, v: Version) -> (r: (Pipeline, Action))
        requires
            self@.phase == Phase::Idle || self@.phase == Phase::AwaitIndex,
        ensures
            (r.0@, r.1@) == request_manifest(self@, v@),
            valid(r.0@),
    {
        proof {
            use_type_invariant(&self);
        }
        let url = manifest_url(self.args.dump_name.value.as_str(), v.as_str());
        let next = Pipeline { phase: Phase::AwaitManifest, version: Some(v), ..self };
        (next, Action::FetchManifest { url })
    }
}

} // verus!
