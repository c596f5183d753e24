//! The outcome of one file and the totals of a run.

use vstd::prelude::*;
use vstd::string::*;

verus! {

/// How a file came to be complete at its final path.
#[derive(Clone, Copy, Debug, PartialEq, Eq, Structural)]
pub enum OutcomeKind {
    /// The file was fetched in this run.
    Downloaded,
    /// A complete copy was already at the final path; nothing was fetched.
    AlreadyPresent,
}

/// The outcome of one file.
#[derive(Debug, PartialEq, Eq)]
pub struct DownloadOutcome {
    /// The name of the file.
    pub file: String,
    pub kind: OutcomeKind,
    /// The bytes transferred, or the size of the copy that was found.
    pub bytes: u64,
}

/// An outcome as plain values.
pub struct OutcomeView {
    pub file: Seq<char>,
    pub kind: OutcomeKind,
    pub bytes: nat,
}

impl View for DownloadOutcome {
    type V = OutcomeView;

    open spec fn view(&self) -> OutcomeView {
        OutcomeView { file: self.file@, kind: self.kind, bytes: self.bytes as nat }
    }
}

impl Clone for DownloadOutcome {
    fn clone(&self) -> (r: Self)
        ensures
            r == *self,
    {
        DownloadOutcome { file: self.file.clone(), kind: self.kind, bytes: self.bytes }
    }
}

/// The outcomes of `outcomes` as plain values, in the same order.
pub open spec fn outcome_views(outcomes: Seq<DownloadOutcome>) -> Seq<OutcomeView> {
    outcomes.map_values(|o: DownloadOutcome| o@)
}

/// Counts and byte totals, as unbounded numbers.
pub struct Tally {
    pub download_ok: nat,
    pub download_len: nat,
    pub existing_ok: nat,
    pub existing_len: nat,
}

/// The tally of no outcome at all.
pub open spec fn empty_tally() -> Tally {
    Tally { download_ok: 0, download_len: 0, existing_ok: 0, existing_len: 0 }
}

/// The tally `t` with one more outcome counted.
pub open spec fn tally_add(t: Tally, kind: OutcomeKind, bytes: nat) -> Tally {
    match kind {
        OutcomeKind::Downloaded => Tally {
            download_ok: t.download_ok + 1,
            download_len: t.download_len + bytes,
            ..t
        },
        OutcomeKind::AlreadyPresent => Tally {
            existing_ok: t.existing_ok + 1,
            existing_len: t.existing_len + bytes,
            ..t
        },
    }
}

/// The tally of a sequence of outcomes: each is counted once.
pub open spec fn tally_of(outcomes: Seq<OutcomeView>) -> Tally
    decreases outcomes.len(),
{
    if outcomes.len() == 0 {
        empty_tally()
    } else {
        tally_add(tally_of(outcomes.drop_last()), outcomes.last().kind, outcomes.last().bytes)
    }
}

/// A tally counts as many outcomes as there are, and no byte total exceeds what that
/// many files can hold.
pub proof fn lemma_tally_bounds(outcomes: Seq<OutcomeView>)
    requires
        forall|i: int| 0 <= i < outcomes.len() ==> (#[trigger] outcomes[i]).bytes <= u64::MAX,
    ensures
        tally_of(outcomes).download_ok + tally_of(outcomes).existing_ok == outcomes.len(),
        tally_of(outcomes).download_len <= tally_of(outcomes).download_ok * u64::MAX,
        tally_of(outcomes).existing_len <= tally_of(outcomes).existing_ok * u64::MAX,
    decreases outcomes.len(),
{
    if outcomes.len() > 0 {
        let front = outcomes.drop_last();
        assert forall|i: int| 0 <= i < front.len() implies (#[trigger] front[i]).bytes
            <= u64::MAX by {
            assert(front[i] == outcomes[i]);
        }
        lemma_tally_bounds(front);
        let t = tally_of(front);
        assert((t.download_ok + 1) * u64::MAX == t.download_ok * u64::MAX + u64::MAX)
            by (nonlinear_arith);
        assert((t.existing_ok + 1) * u64::MAX == t.existing_ok * u64::MAX + u64::MAX)
            by (nonlinear_arith);
    }
}

/// Where nothing was fetched, no byte was fetched.
pub proof fn lemma_tally_without_downloads(outcomes: Seq<OutcomeView>)
    ensures
        tally_of(outcomes).download_ok == 0 ==> tally_of(outcomes).download_len == 0,
    decreases outcomes.len(),
{
    if outcomes.len() > 0 {
        lemma_tally_without_downloads(outcomes.drop_last());
    }
}

/// The totals of a run: how many files were fetched and how many were already there, with
/// the bytes of each group.
#[derive(Clone, Copy, Debug, PartialEq, Eq)]
pub struct RunSummary {
    download_ok: u64,
    download_len: u128,
    existing_ok: u64,
    existing_len: u128,
}

impl View for RunSummary {
    type V = Tally;

    closed spec fn view(&self) -> Tally {
        Tally {
            download_ok: self.download_ok as nat,
            download_len: self.download_len as nat,
            existing_ok: self.existing_ok as nat,
            existing_len: self.existing_len as nat,
        }
    }
}

impl RunSummary {
    #[verifier::type_invariant]
    spec fn within_bounds(self) -> bool {
        &&& self.download_len <= self.download_ok * u64::MAX
        &&& self.existing_len <= self.existing_ok * u64::MAX
    }

    /// The summary of a run that has processed no file yet.
    pub fn new() -> (r: RunSummary)
        ensures
            r@ == empty_tally(),
    {
        RunSummary { download_ok: 0, download_len: 0, existing_ok: 0, existing_len: 0 }
    }

    /// The number of files fetched.
    pub fn download_ok(&self) -> (n: u64)
        ensures
            n == self@.download_ok,
    {
        self.download_ok
    }

    /// The bytes fetched.
    pub fn download_len(&self) -> (n: u128)
        ensures
            n == self@.download_len,
    {
        self.download_len
    }

    /// The number of files that were already complete.
    pub fn existing_ok(&self) -> (n: u64)
        ensures
            n == self@.existing_ok,
    {
        self.existing_ok
    }

    /// The bytes of the files that were already complete.
    pub fn existing_len(&self) -> (n: u128)
        ensures
            n == self@.existing_len,
    {
        self.existing_len
    }

    /// Counts one outcome: the counter of its kind grows by one and the byte total of its
    /// kind by the outcome's bytes. The counter must have room for one more.
    pub fn fold(&mut self, outcome: &DownloadOutcome)
        requires
            match outcome.kind {
                OutcomeKind::Downloaded => old(self)@.download_ok < u64::MAX,
                OutcomeKind::AlreadyPresent => old(self)@.existing_ok < u64::MAX,
            },
        ensures
            final(self)@ == tally_add(old(self)@, outcome.kind, outcome.bytes as nat),
    {
        proof {
            use_type_invariant(&*self);
        }
        let ghost m = u64::MAX as int;
        match outcome.kind {
            OutcomeKind::Downloaded => {
                proof {
                    let k = self.download_ok as int;
                    assert((k + 1) * m == k * m + m) by (nonlinear_arith);
                    assert((k + 1) * m <= m * m) by (nonlinear_arith)
                        requires
                            k + 1 <= m,
                            0 <= m,
                    ;
                    assert(m * m < u128::MAX) by (nonlinear_arith)
                        requires
                            m == 0xffff_ffff_ffff_ffff,
                    ;
                }
                *self = RunSummary {
                    download_ok: self.download_ok + 1,
                    download_len: self.download_len + outcome.bytes as u128,
                    existing_ok: self.existing_ok,
                    existing_len: self.existing_len,
                };
            },
            OutcomeKind::AlreadyPresent => {
                proof {
                    let k = self.existing_ok as int;
                    assert((k + 1) * m == k * m + m) by (nonlinear_arith);
                    assert((k + 1) * m <= m * m) by (nonlinear_arith)
                        requires
                            k + 1 <= m,
                            0 <= m,
                    ;
                    assert(m * m < u128::MAX) by (nonlinear_arith)
                        requires
                            m == 0xffff_ffff_ffff_ffff,
                    ;
                }
                *self = RunSummary {
                    download_ok: self.download_ok,
                    download_len: self.download_len,
                    existing_ok: self.existing_ok + 1,
                    existing_len: self.existing_len + outcome.bytes as u128,
                };
            },
        }
    }
}

} // verus!
