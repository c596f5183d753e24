//! What the canonical metadata says: which versions a dump has, and which files a job of
//! one version has. The documents themselves are fetched and decoded by the caller; here
//! it is decided what follows from them.

use vstd::prelude::*;
use vstd::string::*;
use crate::error::{ErrorKind, ErrorKindView};
use crate::files::{
    file_views, filter_files, filter_flags, filter_of, kept, names_unique, unique_names, FileMeta,
    FileMetaView,
};
use crate::filter::UserRegex;
use crate::layout::{versions_url, versions_url_text};
use crate::version::{decimal_value, Version, VersionSpec};

verus! {

/// One version of a dump as the canonical index lists it.
#[derive(Debug, PartialEq, Eq)]
pub struct VersionEntry {
    pub version: Version,
    /// Whether the data of the requested job is complete in this version.
    pub complete: bool,
}

/// An index entry as plain values.
pub struct VersionEntryView {
    pub version: Seq<char>,
    pub complete: bool,
}

impl View for VersionEntry {
    type V = VersionEntryView;

    open spec fn view(&self) -> VersionEntryView {
        VersionEntryView { version: self.version@, complete: self.complete }
    }
}

/// The state of one job in one version, as the canonical index tells it.
#[derive(Debug, PartialEq, Eq)]
pub struct JobStatus {
    pub name: String,
    /// Whether the job's data is complete.
    pub complete: bool,
}

/// A job's state as plain values.
pub struct JobStatusView {
    pub name: Seq<char>,
    pub complete: bool,
}

impl View for JobStatus {
    type V = JobStatusView;

    open spec fn view(&self) -> JobStatusView {
        JobStatusView { name: self.name@, complete: self.complete }
    }
}

/// The jobs of a version as plain values, in the same order.
pub open spec fn status_views(jobs: Seq<JobStatus>) -> Seq<JobStatusView> {
    jobs.map_values(|j: JobStatus| j@)
}

/// Whether the data of `job` is complete in a version with the jobs `jobs`: the job is
/// among them and told to be complete. A job that the version does not have is not.
pub open spec fn job_is_complete(jobs: Seq<JobStatusView>, job: Seq<char>) -> bool {
    exists|i: int| 0 <= i < jobs.len() && (#[trigger] jobs[i]).name == job && jobs[i].complete
}

/// Tests whether the data of `job` is complete in a version with the jobs `jobs`.
pub fn job_complete(jobs: &Vec<JobStatus>, job: &str) -> (r: bool)
    ensures
        r == job_is_complete(status_views(jobs@), job@),
{
    let ghost all = status_views(jobs@);
    let wanted = String::from_str(job);
    let mut k: usize = 0;
    while k < jobs.len()
        invariant
            k <= jobs.len(),
            all == status_views(jobs@),
            wanted@ == job@,
            forall|j: int| 0 <= j < k ==> !((#[trigger] all[j]).name == job@ && all[j].complete),
        decreases jobs.len() - k,
    {
        if jobs[k].complete && jobs[k].name == wanted {
            assert(all[k as int].name == job@ && all[k as int].complete);
            return true;
        }
        k = k + 1;
    }
    false
}

/// The entries of an index as plain values, in the same order.
pub open spec fn entry_views(entries: Seq<VersionEntry>) -> Seq<VersionEntryView> {
    entries.map_values(|e: VersionEntry| e@)
}

/// Entry `i` is complete and no complete entry is more recent.
pub open spec fn is_latest(entries: Seq<VersionEntryView>, i: int) -> bool {
    &&& 0 <= i < entries.len()
    &&& entries[i].complete
    &&& forall|j: int|
        0 <= j < entries.len() && (#[trigger] entries[j]).complete ==> decimal_value(
            entries[j].version,
        ) <= decimal_value(entries[i].version)
}

/// Whether the index has a complete entry at all.
pub open spec fn has_complete(entries: Seq<VersionEntryView>) -> bool {
    exists|i: int| 0 <= i < entries.len() && (#[trigger] entries[i]).complete
}

/// The position of the most recent complete entry: among several of the same date, the
/// first. Meaningful where the index has a complete entry.
pub open spec fn latest_index(entries: Seq<VersionEntryView>) -> int {
    choose|i: int|
        is_latest(entries, i) && forall|j: int|
            0 <= j < i && (#[trigger] entries[j]).complete ==> decimal_value(entries[j].version)
                < decimal_value(entries[i].version)
}

/// What resolving `latest` yields from the reply to the index request: `None` stands for
/// a source that could not be reached or sent malformed data.
pub open spec fn resolved_latest(reply: Option<Seq<VersionEntryView>>) -> Result<
    Seq<char>,
    ErrorKindView,
> {
    match reply {
        None => Err(ErrorKindView::MetadataUnavailable),
        Some(entries) => if has_complete(entries) {
            Ok(entries[latest_index(entries)].version)
        } else {
            Err(ErrorKindView::NoVersionsFound)
        },
    }
}

/// Finds the most recent complete entry of an index.
pub fn latest_entry(entries: &Vec<VersionEntry>) -> (r: Option<usize>)
    ensures
        r is Some <==> has_complete(entry_views(entries@)),
        r matches Some(i) ==> i == latest_index(entry_views(entries@)) && is_latest(
            entry_views(entries@),
            i as int,
        ),
{
    let ghost all = entry_views(entries@);
    let mut best: Option<usize> = None;
    let mut best_number: u32 = 0;
    let mut k: usize = 0;
    while k < entries.len()
        invariant
            k <= entries.len(),
            all == entry_views(entries@),
            best is None ==> forall|j: int| 0 <= j < k ==> !(#[trigger] all[j]).complete,
            best matches Some(b) ==> {
                &&& b < k
                &&& all[b as int].complete
                &&& best_number == decimal_value(all[b as int].version)
                &&& forall|j: int|
                    0 <= j < k && (#[trigger] all[j]).complete ==> decimal_value(all[j].version)
                        <= best_number
                &&& forall|j: int|
                    0 <= j < b && (#[trigger] all[j]).complete ==> decimal_value(all[j].version)
                        < best_number
            },
        decreases entries.len() - k,
    {
        if entries[k].complete {
            let n: u32 = entries[k].version.number();
            assert(n == decimal_value(all[k as int].version));
            let better = match best {
                None => true,
                Some(_) => best_number < n,
            };
            if better {
                best = Some(k);
                best_number = n;
            }
        }
        k = k + 1;
    }
    proof {
        match best {
            Some(b) => {
                assert(all[b as int].complete);
                let c = latest_index(all);
                assert(is_latest(all, b as int));
                assert(is_latest(all, c) && forall|j: int|
                    0 <= j < c && (#[trigger] all[j]).complete ==> decimal_value(all[j].version)
                        < decimal_value(all[c].version));
                if c < b {
                    assert(all[c].complete);
                } else if b < c {
                    assert(all[b as int].complete);
                }
            },
            None => {
                assert(!has_complete(all));
            },
        }
    }
    best
}

/// Resolves `latest` from the reply to the index request: the most recent version whose
/// data is complete. `None` stands for a source that could not be reached or sent
/// malformed data.
pub fn resolve_latest(reply: Option<&Vec<VersionEntry>>) -> (r: Result<Version, ErrorKind>)
    ensures
        match resolved_latest(
            match reply {
                Some(entries) => Some(entry_views(entries@)),
                None => None,
            },
        ) {
            Ok(v) => r matches Ok(x) && x@ == v,
            Err(e) => r matches Err(k) && k@ == e,
        },
{
    match reply {
        None => Err(ErrorKind::MetadataUnavailable),
        Some(entries) => match latest_entry(entries) {
            Some(i) => Ok(entries[i].version.clone()),
            None => Err(ErrorKind::NoVersionsFound),
        },
    }
}

/// How the resolution of a version request begins.
#[derive(Debug, PartialEq, Eq)]
pub enum ResolveStep {
    /// The request names a version: it is the answer, and nothing is fetched.
    Resolved(Version),
    /// The request is for the latest version: the index at `url` has to be fetched, once.
    FetchIndex { url: String },
}

/// Begins the resolution of a version request for `dump`.
pub fn begin_resolve(spec: &VersionSpec, dump: &str) -> (r: ResolveStep)
    ensures
        match spec@ {
            Some(v) => r matches ResolveStep::Resolved(x) && x@ == v,
            None => r matches ResolveStep::FetchIndex { url } && url@ == versions_url_text(dump@),
        },
{
    match spec {
        VersionSpec::Version(v) => ResolveStep::Resolved(v.clone()),
        VersionSpec::Latest => ResolveStep::FetchIndex { url: versions_url(dump) },
    }
}

/// One job of a manifest with the files it has produced.
#[derive(Debug, PartialEq, Eq)]
pub struct JobEntry {
    pub name: String,
    pub files: Vec<FileMeta>,
}

/// A job of a manifest as plain values.
pub struct JobEntryView {
    pub name: Seq<char>,
    pub files: Seq<FileMetaView>,
}

impl View for JobEntry {
    type V = JobEntryView;

    open spec fn view(&self) -> JobEntryView {
        JobEntryView { name: self.name@, files: file_views(self.files@) }
    }
}

/// The jobs of a manifest as plain values, in the same order.
pub open spec fn job_views(jobs: Seq<JobEntry>) -> Seq<JobEntryView> {
    jobs.map_values(|j: JobEntry| j@)
}

/// The reply to the request for the manifest of one version.
#[derive(Debug, PartialEq, Eq)]
pub enum ManifestReply {
    /// The canonical source could not be reached or sent malformed data.
    Unavailable,
    /// The canonical source does not know the version.
    VersionNotFound,
    /// The jobs of the version.
    Jobs(Vec<JobEntry>),
}

/// A manifest reply as plain values.
pub enum ManifestView {
    Unavailable,
    VersionNotFound,
    Jobs(Seq<JobEntryView>),
}

impl View for ManifestReply {
    type V = ManifestView;

    open spec fn view(&self) -> ManifestView {
        match self {
            ManifestReply::Unavailable => ManifestView::Unavailable,
            ManifestReply::VersionNotFound => ManifestView::VersionNotFound,
            ManifestReply::Jobs(jobs) => ManifestView::Jobs(job_views(jobs@)),
        }
    }
}

/// Whether the manifest has a job named `job`.
pub open spec fn has_job(jobs: Seq<JobEntryView>, job: Seq<char>) -> bool {
    exists|i: int| 0 <= i < jobs.len() && (#[trigger] jobs[i]).name == job
}

/// The position of the first job named `job`. Meaningful where the manifest has one.
pub open spec fn job_index(jobs: Seq<JobEntryView>, job: Seq<char>) -> int {
    choose|i: int|
        0 <= i < jobs.len() && (#[trigger] jobs[i]).name == job && forall|j: int|
            0 <= j < i ==> (#[trigger] jobs[j]).name != job
}

/// The listing of a job: what `list` yields from a manifest reply. A manifest that names
/// one file twice in the job is malformed.
pub open spec fn listing(reply: ManifestView, job: Seq<char>, filter: Option<UserRegex>) -> Result<
    Seq<FileMetaView>,
    ErrorKindView,
> {
    match reply {
        ManifestView::Unavailable => Err(ErrorKindView::MetadataUnavailable),
        ManifestView::VersionNotFound => Err(ErrorKindView::VersionNotFound),
        ManifestView::Jobs(jobs) => if !has_job(jobs, job) {
            Err(ErrorKindView::JobNotFound)
        } else {
            let files = jobs[job_index(jobs, job)].files;
            if !unique_names(files) {
                Err(ErrorKindView::MetadataUnavailable)
            } else {
                Ok(kept(files, filter_flags(filter, files)))
            }
        },
    }
}

/// A listing never holds one name twice.
pub proof fn lemma_listing_unique(reply: ManifestView, job: Seq<char>, filter: Option<UserRegex>)
    ensures
        listing(reply, job, filter) matches Ok(files) ==> unique_names(files),
{
    match listing(reply, job, filter) {
        Ok(files) => {
            let jobs = reply->Jobs_0;
            let all = jobs[job_index(jobs, job)].files;
            crate::files::lemma_kept_unique(all, filter_flags(filter, all));
        },
        Err(_) => {},
    }
}

/// Finds the first job of a manifest that is named `job`.
pub fn find_job(jobs: &Vec<JobEntry>, job: &str) -> (r: Option<usize>)
    ensures
        r is Some <==> has_job(job_views(jobs@), job@),
        r matches Some(i) ==> i == job_index(job_views(jobs@), job@) && i < jobs.len()
            && jobs@[i as int].name@ == job@,
{
    let ghost all = job_views(jobs@);
    let wanted = String::from_str(job);
    let mut k: usize = 0;
    while k < jobs.len()
        invariant
            k <= jobs.len(),
            all == job_views(jobs@),
            wanted@ == job@,
            forall|j: int| 0 <= j < k ==> (#[trigger] all[j]).name != job@,
        decreases jobs.len() - k,
    {
        if jobs[k].name == wanted {
            proof {
                assert(all[k as int].name == job@);
                let c = job_index(all, job@);
                assert(0 <= c < all.len() && all[c].name == job@ && forall|j: int|
                    0 <= j < c ==> (#[trigger] all[j]).name != job@);
                if c < k {
                    assert(all[c].name != job@);
                } else if k < c {
                    assert(all[k as int].name != job@);
                }
            }
            return Some(k);
        }
        k = k + 1;
    }
    assert(!has_job(all, job@));
    None
}

/// Lists the files of `job` from the reply to the manifest request, in the manifest's
/// order, keeping those that pass the optional name filter. A filter that matches no file
/// yields an empty listing, which is no error.
pub fn list(reply: &ManifestReply, job: &str, filter: Option<&UserRegex>) -> (r: Result<
    Vec<FileMeta>,
    ErrorKind,
>)
    ensures
        match listing(reply@, job@, filter_of(filter)) {
            Ok(files) => r matches Ok(v) && file_views(v@) == files,
            Err(e) => r matches Err(k) && k@ == e,
        },
        r matches Ok(v) ==> unique_names(file_views(v@)),
{
    match reply {
        ManifestReply::Unavailable => Err(ErrorKind::MetadataUnavailable),
        ManifestReply::VersionNotFound => Err(ErrorKind::VersionNotFound),
        ManifestReply::Jobs(jobs) => match find_job(jobs, job) {
            None => Err(ErrorKind::JobNotFound),
            Some(i) => {
                let files = &jobs[i].files;
                assert(job_views(jobs@)[i as int].files == file_views(files@));
                if !names_unique(files) {
                    Err(ErrorKind::MetadataUnavailable)
                } else {
                    proof {
                        crate::files::lemma_kept_unique(
                            file_views(files@),
                            filter_flags(filter_of(filter), file_views(files@)),
                        );
                    }
                    Ok(filter_files(files, filter))
                }
            },
        },
    }
}

} // verus!
