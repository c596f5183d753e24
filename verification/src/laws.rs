//! What holds of whole runs.
//!
//! Each statement here is about the run as [`crate::pipeline::step_spec`] defines it,
//! together with the outside as [`crate::model`] describes it. A statement about every
//! state of a run is given as an invariant: it holds of the world a run starts in, and a
//! step of the world keeps it.

use vstd::prelude::*;
use crate::args::ArgsView;
use crate::download::{is_complete_copy, is_success};
use crate::error::ErrorKindView;
use crate::layout::{
    below, canonical_text, file_base_text, lemma_final_path_apart, lemma_joined_injective,
    lemma_staging_path_below, plain_name, staging_name,
};
use crate::model::{coherent, size_at, world_step, Disk, World};
use crate::pipeline::{
    final_path_of, staging_of, staging_path_of, step_spec, valid, ActionView, EventView, Phase,
    PipelineView, ReportView,
};
use crate::summary::{lemma_tally_without_downloads, tally_of, Tally};
use crate::text::has_prefix;

verus! {

/// Requests for metadata go to the canonical host whatever mirror is configured. A file
/// is requested from the mirror where one is configured and from the canonical host
/// where none is.
pub proof fn law_mirror_isolation(s: PipelineView, e: EventView)
    ensures
        step_spec(s, e) matches Some((_, ActionView::FetchIndex { url })) ==> has_prefix(
            url,
            canonical_text(),
        ),
        step_spec(s, e) matches Some((_, ActionView::FetchManifest { url })) ==> has_prefix(
            url,
            canonical_text(),
        ),
        step_spec(s, e) matches Some((_, ActionView::Download { url, .. })) ==> has_prefix(
            url,
            file_base_text(s.args.mirror),
        ),
        s.args.mirror is None ==> file_base_text(s.args.mirror) == canonical_text(),
        s.args.mirror matches Some(m) ==> file_base_text(s.args.mirror) == m,
{
    let base = canonical_text();
    match step_spec(s, e) {
        Some((_, ActionView::FetchIndex { url })) => {
            assert(url.subrange(0, base.len() as int) =~= base);
        },
        Some((_, ActionView::FetchManifest { url })) => {
            assert(url.subrange(0, base.len() as int) =~= base);
        },
        Some((_, ActionView::Download { url, .. })) => {
            let from = file_base_text(s.args.mirror);
            assert(url.subrange(0, from.len() as int) =~= from);
        },
        _ => {},
    }
}

/// The report of a run that ended without an error counts every file of the listing
/// once: it holds one outcome for each file, in the listing's order, and its totals are
/// the tally of exactly those outcomes.
pub proof fn law_summary_accuracy(w: World, report: ReportView, totals: Tally)
    requires
        coherent(w),
        w.pending == Some(ActionView::Finish(report)),
        report.result == Ok::<Tally, crate::error::RunErrorView>(totals),
    ensures
        report.outcomes.len() == w.state.files.len(),
        forall|i: int|
            0 <= i < report.outcomes.len() ==> (#[trigger] report.outcomes[i]).file
                == w.state.files[i].name,
        totals == tally_of(report.outcomes),
        totals.download_ok + totals.existing_ok == w.state.files.len(),
{
    assert(w.state.phase == Phase::Finished);
    assert(w.state.failure is None);
    lemma_tally_counts(report.outcomes);
}

/// A tally counts as many outcomes as it was made of.
pub proof fn lemma_tally_counts(outcomes: Seq<crate::summary::OutcomeView>)
    ensures
        tally_of(outcomes).download_ok + tally_of(outcomes).existing_ok == outcomes.len(),
    decreases outcomes.len(),
{
    if outcomes.len() > 0 {
        lemma_tally_counts(outcomes.drop_last());
    }
}

/// The version is resolved once. The index is asked for only by the first step of a run,
/// and only where the latest version is wanted; no step leads back to the start; and a
/// version, once resolved, stays the version of the run.
pub proof fn law_resolves_once(s: PipelineView, e: EventView)
    requires
        valid(s),
    ensures
        step_spec(s, e) matches Some((t, a)) ==> {
            &&& t.phase != Phase::Idle
            &&& t.args == s.args
            &&& a is FetchIndex ==> s.phase == Phase::Idle && s.args.version_spec is None
            &&& s.phase == Phase::Idle ==> (s.args.version_spec matches Some(v) ==> t.version
                == Some(v) && a is FetchManifest)
            &&& s.version is Some && s.phase != Phase::Idle && s.phase != Phase::AwaitIndex
                ==> t.version == s.version
        },
{
}

/// Whether the inputs keep the final paths apart from the staging directory: the dump's
/// name is a plain name, and not the name reserved for the staging directory.
pub open spec fn separate(args: ArgsView) -> bool {
    plain_name(args.dump) && args.dump != staging_name()
}

/// No final path is a staging path, and none lies below the staging directory.
pub proof fn lemma_paths_apart(s: PipelineView, i: int, j: int)
    requires
        separate(s.args),
    ensures
        final_path_of(s, i) != staging_path_of(s, j),
        !below(final_path_of(s, i), staging_of(s).dir),
{
    lemma_final_path_apart(
        s.args.out_dir,
        s.args.dump,
        crate::pipeline::version_text(s),
        s.args.job,
        s.files[i].name,
    );
    lemma_staging_path_below(s.args.out_dir, s.files[j].name);
}

/// Two files of a listing have different final paths.
pub proof fn lemma_final_paths_distinct(s: PipelineView, i: int, j: int)
    requires
        valid(s),
        0 <= i < s.files.len(),
        0 <= j < s.files.len(),
        i != j,
    ensures
        final_path_of(s, i) != final_path_of(s, j),
{
    if final_path_of(s, i) == final_path_of(s, j) {
        lemma_joined_injective(
            crate::layout::job_dir_text(
                s.args.out_dir,
                s.args.dump,
                crate::pipeline::version_text(s),
                s.args.job,
            ),
            s.files[i].name,
            s.files[j].name,
        );
        if i < j {
            assert(s.files[i].name != s.files[j].name);
        } else {
            assert(s.files[j].name != s.files[i].name);
        }
    }
}

/// Whether `path` holds no file, or one of at least `size` bytes.
pub open spec fn whole_or_absent(disk: Disk, path: Seq<char>, size: nat) -> bool {
    size_at(disk, path) matches Some(n) ==> n >= size
}

/// No final path of the listing holds a file that is shorter than the listing says.
pub open spec fn no_partial_copy(s: PipelineView, disk: Disk) -> bool {
    forall|i: int|
        0 <= i < s.files.len() ==> whole_or_absent(
            disk,
            #[trigger] final_path_of(s, i),
            s.files[i].size,
        )
}

/// The file that awaits promotion is the one that was transferred, and it is whole.
pub open spec fn staged_whole(s: PipelineView, disk: Disk) -> bool {
    s.phase == Phase::AwaitPromotion ==> (size_at(disk, staging_path_of(s, s.next as int))
        matches Some(n) && n == s.bytes && n >= s.files[s.next as int].size)
}

/// A transfer that is reported as a success has brought at least the bytes that the
/// listing promises.
pub open spec fn whole_transfer(s: PipelineView, e: EventView) -> bool {
    e matches EventView::Transferred { status, bytes } ==> (s.phase == Phase::AwaitTransfer
        && is_success(status) ==> bytes >= s.files[s.next as int].size)
}

/// No partial visibility. Where no final path holds a shortened copy of a listed file
/// when the listing is read, and successful transfers are whole, none holds one at any
/// later point of the run: a step of the world keeps it so.
pub proof fn law_no_partial_visibility(w: World, e: EventView, next: World)
    requires
        coherent(w),
        world_step(w, e, next),
        separate(w.state.args),
        whole_transfer(w.state, e),
        staged_whole(w.state, w.disk),
        if w.state.phase == Phase::AwaitManifest {
            no_partial_copy(next.state, w.disk)
        } else {
            no_partial_copy(w.state, w.disk)
        },
    ensures
        no_partial_copy(next.state, next.disk),
        staged_whole(next.state, next.disk),
{
    let s = w.state;
    let t = next.state;
    let k = s.next as int;
    match s.phase {
        Phase::Idle | Phase::AwaitIndex | Phase::Finished => {},
        Phase::AwaitManifest => {
            assert(next.disk == w.disk);
            assert forall|i: int| 0 <= i < t.files.len() implies whole_or_absent(
                next.disk,
                #[trigger] final_path_of(t, i),
                t.files[i].size,
            ) by {}
        },
        Phase::AwaitStaging | Phase::AwaitStat => {
            assert forall|i: int| 0 <= i < t.files.len() implies whole_or_absent(
                next.disk,
                #[trigger] final_path_of(t, i),
                t.files[i].size,
            ) by {
                assert(final_path_of(t, i) == final_path_of(s, i));
                assert(size_at(next.disk, final_path_of(s, i)) == size_at(
                    w.disk,
                    final_path_of(s, i),
                ));
            }
        },
        Phase::AwaitTransfer => {
            let to = staging_path_of(s, k);
            assert forall|i: int| 0 <= i < t.files.len() implies whole_or_absent(
                next.disk,
                #[trigger] final_path_of(t, i),
                t.files[i].size,
            ) by {
                assert(final_path_of(t, i) == final_path_of(s, i));
                lemma_paths_apart(s, i, k);
            }
            assert(staging_path_of(t, t.next as int) == to);
        },
        Phase::AwaitPromotion => {
            let from = staging_path_of(s, k);
            let to = final_path_of(s, k);
            assert forall|i: int| 0 <= i < t.files.len() implies whole_or_absent(
                next.disk,
                #[trigger] final_path_of(t, i),
                t.files[i].size,
            ) by {
                assert(final_path_of(t, i) == final_path_of(s, i));
                lemma_paths_apart(s, i, k);
                if i != k {
                    lemma_final_paths_distinct(s, i, k);
                }
            }
        },
        Phase::AwaitDisposal => {
            assert forall|i: int| 0 <= i < t.files.len() implies whole_or_absent(
                next.disk,
                #[trigger] final_path_of(t, i),
                t.files[i].size,
            ) by {
                assert(final_path_of(t, i) == final_path_of(s, i));
            }
        },
    }
}

/// Whether the final path of file `i` of the listing holds a complete copy of it.
pub open spec fn present(disk: Disk, s: PipelineView, i: int) -> bool {
    is_complete_copy(size_at(disk, final_path_of(s, i)), s.files[i].size)
}

/// How many of the first `k` files of the listing have a complete copy at their final
/// path.
pub open spec fn present_count(disk: Disk, s: PipelineView, k: int) -> nat
    decreases k,
{
    if k <= 0 {
        0
    } else {
        present_count(disk, s, k - 1) + if present(disk, s, k - 1) {
            1nat
        } else {
            0nat
        }
    }
}

/// Whether two states of a run have the same inputs, version and listing, and so the
/// same final paths.
pub open spec fn same_target(s: PipelineView, t: PipelineView) -> bool {
    s.args == t.args && s.version == t.version && s.files == t.files
}

proof fn lemma_present_count_same(disk: Disk, s: PipelineView, t: PipelineView, k: int)
    requires
        same_target(s, t),
    ensures
        present_count(disk, s, k) == present_count(disk, t, k),
    decreases k,
{
    if k > 0 {
        lemma_present_count_same(disk, s, t, k - 1);
        assert(final_path_of(s, k - 1) == final_path_of(t, k - 1));
    }
}

/// Where exactly the first `n` of `k` files are present, `n` files are present.
pub proof fn lemma_present_count_prefix(disk: Disk, s: PipelineView, n: int, k: int)
    requires
        0 <= n,
        0 <= k,
        forall|i: int| 0 <= i < k ==> present(disk, s, i) == (i < n),
    ensures
        present_count(disk, s, k) == if k <= n {
            k
        } else {
            n
        },
    decreases k,
{
    if k > 0 {
        lemma_present_count_prefix(disk, s, n, k - 1);
    }
}

/// Whether the phase is one in which the listing has been read, or the run has ended.
pub open spec fn listed(phase: Phase) -> bool {
    phase != Phase::Idle && phase != Phase::AwaitIndex && phase != Phase::AwaitManifest
}

/// How far a run has come, measured against `base`, the disk as it was when the listing
/// was read: the files not yet dealt with are on disk as they were, every file dealt with
/// was counted as already present exactly if it was complete on `base`, and only a file
/// that was not is being fetched.
pub open spec fn rerun_inv(s: PipelineView, disk: Disk, base: Disk) -> bool {
    &&& forall|i: int|
        s.next <= i < s.files.len() ==> size_at(disk, #[trigger] final_path_of(s, i)) == size_at(
            base,
            final_path_of(s, i),
        )
    &&& s.summary.existing_ok == present_count(base, s, s.next as int)
    &&& s.summary.download_ok + s.summary.existing_ok == s.next
    &&& (s.phase == Phase::AwaitTransfer || s.phase == Phase::AwaitPromotion) ==> !present(
        base,
        s,
        s.next as int,
    )
}

/// A run counts as already present exactly the files that were complete at their final
/// paths when it read the listing, and fetches the others: a step of the world keeps
/// [`rerun_inv`].
pub proof fn law_rerun_step(w: World, e: EventView, next: World, base: Disk)
    requires
        coherent(w),
        world_step(w, e, next),
        separate(w.state.args),
        w.state.phase == Phase::AwaitManifest ==> w.disk == base,
        listed(w.state.phase) ==> rerun_inv(w.state, w.disk, base),
    ensures
        listed(next.state.phase) ==> rerun_inv(next.state, next.disk, base),
{
    let s = w.state;
    let t = next.state;
    let k = s.next as int;
    crate::pipeline::lemma_step_valid(s, e);
    match s.phase {
        Phase::Finished => {},
        Phase::Idle | Phase::AwaitIndex | Phase::AwaitManifest => {
            assert(s.outcomes =~= Seq::empty());
            assert(present_count(base, t, 0) == 0);
        },
        Phase::AwaitStaging | Phase::AwaitDisposal => {
            lemma_present_count_same(base, s, t, k);
            assert forall|i: int| t.next <= i < t.files.len() implies size_at(
                next.disk,
                #[trigger] final_path_of(t, i),
            ) == size_at(base, final_path_of(t, i)) by {
                assert(final_path_of(t, i) == final_path_of(s, i));
                lemma_paths_apart(s, i, 0);
            }
        },
        Phase::AwaitStat => {
            lemma_present_count_same(base, s, t, k);
            lemma_present_count_same(base, s, t, k + 1);
            assert(final_path_of(t, k) == final_path_of(s, k));
            assert(size_at(w.disk, final_path_of(s, k)) == size_at(base, final_path_of(s, k)));
            assert forall|i: int| t.next <= i < t.files.len() implies size_at(
                next.disk,
                #[trigger] final_path_of(t, i),
            ) == size_at(base, final_path_of(t, i)) by {
                assert(final_path_of(t, i) == final_path_of(s, i));
            }
        },
        Phase::AwaitTransfer => {
            lemma_present_count_same(base, s, t, k);
            assert(final_path_of(t, k) == final_path_of(s, k));
            assert forall|i: int| t.next <= i < t.files.len() implies size_at(
                next.disk,
                #[trigger] final_path_of(t, i),
            ) == size_at(base, final_path_of(t, i)) by {
                assert(final_path_of(t, i) == final_path_of(s, i));
                lemma_paths_apart(s, i, k);
            }
        },
        Phase::AwaitPromotion => {
            lemma_present_count_same(base, s, t, k);
            lemma_present_count_same(base, s, t, k + 1);
            assert(final_path_of(t, k) == final_path_of(s, k));
            assert forall|i: int| t.next <= i < t.files.len() implies size_at(
                next.disk,
                #[trigger] final_path_of(t, i),
            ) == size_at(base, final_path_of(t, i)) by {
                assert(final_path_of(t, i) == final_path_of(s, i));
                lemma_paths_apart(s, i, k);
                if i != k {
                    lemma_final_paths_distinct(s, i, k);
                }
            }
        },
    }
}

/// Partial-run recovery. Where exactly the first `n` files of the listing were complete
/// at their final paths when the run read the listing, a run that ends without an error
/// reports `n` files as already present and has fetched the others.
pub proof fn law_partial_run_recovery(
    w: World,
    base: Disk,
    report: ReportView,
    totals: Tally,
    n: nat,
)
    requires
        coherent(w),
        rerun_inv(w.state, w.disk, base),
        w.pending == Some(ActionView::Finish(report)),
        report.result == Ok::<Tally, crate::error::RunErrorView>(totals),
        n <= w.state.files.len(),
        forall|i: int| 0 <= i < w.state.files.len() ==> present(base, w.state, i) == (i < n),
    ensures
        totals.existing_ok == n,
        totals.download_ok == w.state.files.len() - n,
{
    lemma_present_count_prefix(base, w.state, n as int, w.state.files.len() as int);
}

/// Idempotence. Where every file of the listing was complete at its final path when the
/// run read the listing, a run that ends without an error reports every file as already
/// present and has fetched not one byte.
pub proof fn law_idempotence(w: World, base: Disk, report: ReportView, totals: Tally)
    requires
        coherent(w),
        rerun_inv(w.state, w.disk, base),
        w.pending == Some(ActionView::Finish(report)),
        report.result == Ok::<Tally, crate::error::RunErrorView>(totals),
        forall|i: int| 0 <= i < w.state.files.len() ==> present(base, w.state, i),
    ensures
        totals.existing_ok == w.state.files.len(),
        totals.download_ok == 0,
        totals.download_len == 0,
{
    lemma_present_count_prefix(
        base,
        w.state,
        w.state.files.len() as int,
        w.state.files.len() as int,
    );
    lemma_tally_without_downloads(w.state.outcomes);
}

/// Where every file of the listing was complete at its final path when the run read the
/// listing, the run never asks for a transfer.
pub proof fn law_rerun_fetches_nothing(w: World, base: Disk)
    requires
        coherent(w),
        listed(w.state.phase),
        rerun_inv(w.state, w.disk, base),
        forall|i: int| 0 <= i < w.state.files.len() ==> present(base, w.state, i),
    ensures
        !(w.pending matches Some(ActionView::Download { .. })),
        !(w.pending matches Some(ActionView::Promote { .. })),
{
}

/// Every file that the run has dealt with is complete at its final path.
pub open spec fn completed_present(s: PipelineView, disk: Disk) -> bool {
    forall|i: int| 0 <= i < s.next ==> #[trigger] present(disk, s, i)
}

/// The file that awaits promotion is the one that was transferred, and it has the size
/// that the listing promises.
pub open spec fn staged_exact(s: PipelineView, disk: Disk) -> bool {
    s.phase == Phase::AwaitPromotion ==> (size_at(disk, staging_path_of(s, s.next as int))
        matches Some(n) && n == s.bytes && n == s.files[s.next as int].size)
}

/// A transfer that is reported as a success has brought exactly the bytes that the
/// listing promises.
pub open spec fn exact_transfer(s: PipelineView, e: EventView) -> bool {
    e matches EventView::Transferred { status, bytes } ==> (s.phase == Phase::AwaitTransfer
        && is_success(status) ==> bytes == s.files[s.next as int].size)
}

/// What a run has completed stays complete. Where successful transfers bring exactly
/// the listed size, every file that the run has dealt with is complete at its final
/// path, at every later point of the run and after it: a step of the world keeps it so.
/// Together with [`law_idempotence`]: a second run over the same listing fetches
/// nothing.
pub proof fn law_completed_files_stay(w: World, e: EventView, next: World)
    requires
        coherent(w),
        world_step(w, e, next),
        separate(w.state.args),
        exact_transfer(w.state, e),
        completed_present(w.state, w.disk),
        staged_exact(w.state, w.disk),
    ensures
        completed_present(next.state, next.disk),
        staged_exact(next.state, next.disk),
{
    let s = w.state;
    let t = next.state;
    let k = s.next as int;
    crate::pipeline::lemma_step_valid(s, e);
    match s.phase {
        Phase::Finished | Phase::Idle | Phase::AwaitIndex | Phase::AwaitManifest => {},
        Phase::AwaitStaging | Phase::AwaitDisposal | Phase::AwaitTransfer => {
            assert forall|i: int| 0 <= i < t.next implies #[trigger] present(next.disk, t, i) by {
                assert(present(w.disk, s, i));
                assert(final_path_of(t, i) == final_path_of(s, i));
                lemma_paths_apart(s, i, k);
            }
            assert(staging_path_of(t, t.next as int) == staging_path_of(s, k));
        },
        Phase::AwaitStat => {
            assert forall|i: int| 0 <= i < t.next implies #[trigger] present(next.disk, t, i) by {
                assert(final_path_of(t, i) == final_path_of(s, i));
                if i < k {
                    assert(present(w.disk, s, i));
                }
            }
        },
        Phase::AwaitPromotion => {
            assert forall|i: int| 0 <= i < t.next implies #[trigger] present(next.disk, t, i) by {
                assert(final_path_of(t, i) == final_path_of(s, i));
                lemma_paths_apart(s, i, k);
                if i < k {
                    assert(present(w.disk, s, i));
                    lemma_final_paths_distinct(s, i, k);
                }
            }
        },
    }
}

/// Whether a run that ended had a staging directory: it ended without an error, or with
/// the failure of a file.
pub open spec fn ran_staged(report: ReportView) -> bool {
    match report.result {
        Ok(_) => true,
        Err(error) => error.kind is DownloadFailed,
    }
}

/// The staging directory exists while files are dealt with. It is waited for to be
/// removed only where it is not to be kept. Once a run that had one has ended, the
/// directory is gone and not reported where it was not to be kept, and is there and
/// reported where it was.
pub open spec fn staging_inv(w: World) -> bool {
    let s = w.state;
    let dir = staging_of(s).dir;
    &&& (s.phase == Phase::AwaitStat || s.phase == Phase::AwaitTransfer || s.phase
        == Phase::AwaitPromotion || s.phase == Phase::AwaitDisposal) ==> w.disk.dirs.contains(
        dir,
    )
    &&& s.phase == Phase::AwaitDisposal ==> !s.args.keep
    &&& w.pending matches Some(ActionView::Finish(report)) ==> (ran_staged(report) ==> if s.args.keep {
        w.disk.dirs.contains(dir) && report.kept_staging == Some(dir)
    } else {
        !w.disk.dirs.contains(dir) && report.kept_staging is None
    })
}

/// At the start of a run everything holds that the steps of the world keep: nothing is
/// listed, nothing is dealt with, nothing is staged.
pub proof fn law_start(w: World, args: ArgsView)
    requires
        crate::model::begins(w, args),
    ensures
        coherent(w),
        staging_inv(w),
        no_partial_copy(w.state, w.disk),
        staged_whole(w.state, w.disk),
        completed_present(w.state, w.disk),
        staged_exact(w.state, w.disk),
        !listed(w.state.phase),
{
}

/// Staging cleanup. After a run that had a staging directory, the directory does not
/// exist where it was not to be kept, and exists and is reported where it was, also
/// where the run was ended by the failure of a file: a step of the world keeps
/// [`staging_inv`].
pub proof fn law_staging_cleanup(w: World, e: EventView, next: World)
    requires
        coherent(w),
        world_step(w, e, next),
        staging_inv(w),
    ensures
        staging_inv(next),
{
    let s = w.state;
    let t = next.state;
    assert(staging_of(t) == staging_of(s));
    match s.phase {
        Phase::AwaitIndex => {
            match e {
                EventView::Index(reply) => {
                    assert(!(crate::metadata::resolved_latest(reply) matches Err(
                        ErrorKindView::DownloadFailed { .. },
                    )));
                },
                _ => {},
            }
        },
        Phase::AwaitManifest => {
            match e {
                EventView::Manifest(reply) => {
                    assert(!(crate::metadata::listing(reply, s.args.job, s.args.filter)
                        matches Err(ErrorKindView::DownloadFailed { .. })));
                },
                _ => {},
            }
        },
        _ => {},
    }
}

} // verus!
