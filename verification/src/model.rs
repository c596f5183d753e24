//! A model of the outside, for stating what holds of whole runs.
//!
//! The run itself touches nothing: it asks for actions. What those actions do to the
//! disk is described here, as far as the run depends on it: a transfer writes to the
//! path it is told and nowhere else, a move is all or nothing, a look at a path reports
//! what is there.

use vstd::prelude::*;
use crate::download::is_success;
use crate::layout::{below, source_url_text, versions_url_text};
use crate::pipeline::{
    final_path_of, initial, staging_of, staging_path_of, step_spec, valid, ActionView,
    EventView, Phase, PipelineView,
};
use crate::args::ArgsView;

verus! {

/// What is on disk.
pub struct Disk {
    /// The size of the file at each path that holds one.
    pub files: Map<Seq<char>, u64>,
    /// The directories that exist.
    pub dirs: Set<Seq<char>>,
}

/// The size of the file at `path`, or `None` where there is none.
pub open spec fn size_at(disk: Disk, path: Seq<char>) -> Option<u64> {
    if disk.files.contains_key(path) {
        Some(disk.files[path])
    } else {
        None
    }
}

/// The outside performs `action` on the disk `before`, reports `event` and leaves the
/// disk as `after`.
pub open spec fn performs(before: Disk, action: ActionView, event: EventView, after: Disk) -> bool {
    match action {
        ActionView::FetchIndex { .. } => event is Index && after == before,
        ActionView::FetchManifest { .. } => event is Manifest && after == before,
        ActionView::CreateStaging { path } => {
            &&& event matches EventView::StagingCreated(created)
            &&& after.files == before.files
            &&& after.dirs == if created {
                before.dirs.insert(path)
            } else {
                before.dirs
            }
        },
        ActionView::Stat { path } => event == EventView::Stat(size_at(before, path)) && after
            == before,
        ActionView::Download { url, to } => {
            &&& event is Transferred || event is TransferFailed
            &&& after.dirs == before.dirs
            &&& forall|p: Seq<char>| p != to ==> size_at(after, p) == size_at(before, p)
            &&& event matches EventView::Transferred { status, bytes } ==> is_success(status)
                ==> size_at(after, to) == Some(bytes)
        },
        ActionView::Promote { from, to } => match event {
            EventView::Promoted => {
                &&& before.files.contains_key(from)
                &&& after.dirs == before.dirs
                &&& after.files == before.files.remove(from).insert(to, before.files[from])
            },
            EventView::PromotionFailed { .. } => after == before,
            _ => false,
        },
        ActionView::RemoveStaging { path } => {
            &&& event is Disposed
            &&& after.dirs == before.dirs.remove(path)
            &&& forall|p: Seq<char>|
                size_at(after, p) == if below(p, path) {
                    None
                } else {
                    size_at(before, p)
                }
        },
        ActionView::Finish(_) => false,
    }
}

/// A run together with the outside: the state of the run, the action that the outside
/// has been asked to perform, and the disk.
pub struct World {
    pub state: PipelineView,
    pub pending: Option<ActionView>,
    pub disk: Disk,
}

/// The world at the start of a run with the inputs `args`.
pub open spec fn begins(w: World, args: ArgsView) -> bool {
    w.state == initial(args) && w.pending is None
}

/// One step of the world: the outside performs the pending action and reports `event`,
/// and the run answers with its next action. At the start nothing is pending: the event
/// is the start of the run.
pub open spec fn world_step(w: World, event: EventView, next: World) -> bool {
    &&& match w.pending {
        None => event == EventView::Start && next.disk == w.disk,
        Some(action) => performs(w.disk, action, event, next.disk),
    }
    &&& next.pending matches Some(action) && step_spec(w.state, event) == Some(
        (next.state, action),
    )
}

/// The pending action is the one that the state of the run waits for.
pub open spec fn awaits(s: PipelineView, pending: Option<ActionView>) -> bool {
    match s.phase {
        Phase::Idle => pending is None,
        Phase::AwaitIndex => pending == Some(
            ActionView::FetchIndex { url: versions_url_text(s.args.dump) },
        ),
        Phase::AwaitManifest => pending matches Some(ActionView::FetchManifest { .. }),
        Phase::AwaitStaging => pending == Some(
            ActionView::CreateStaging { path: staging_of(s).dir },
        ),
        Phase::AwaitStat => pending == Some(
            ActionView::Stat { path: final_path_of(s, s.next as int) },
        ),
        Phase::AwaitTransfer => pending == Some(
            ActionView::Download {
                url: source_url_text(s.args.mirror, s.files[s.next as int].url),
                to: staging_path_of(s, s.next as int),
            },
        ),
        Phase::AwaitPromotion => pending == Some(
            ActionView::Promote {
                from: staging_path_of(s, s.next as int),
                to: final_path_of(s, s.next as int),
            },
        ),
        Phase::AwaitDisposal => pending == Some(
            ActionView::RemoveStaging { path: staging_of(s).dir },
        ),
        Phase::Finished => pending matches Some(ActionView::Finish(report)) && report.result == (
        match s.failure {
            Some(error) => Err(error),
            None => Ok(s.summary),
        }) && report.outcomes == s.outcomes,
    }
}

/// The state of the run is valid and the pending action is the one it waits for.
pub open spec fn coherent(w: World) -> bool {
    valid(w.state) && awaits(w.state, w.pending)
}

/// A step of the world leaves it coherent.
pub proof fn lemma_step_coherent(w: World, event: EventView, next: World)
    requires
        coherent(w),
        world_step(w, event, next),
    ensures
        coherent(next),
{
    crate::pipeline::lemma_step_valid(w.state, event);
}

} // verus!
