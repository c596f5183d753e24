//! The files of a job and how a listing is filtered.

use vstd::prelude::*;
use vstd::string::*;
use crate::filter::UserRegex;

verus! {

/// One file of a job as the canonical metadata lists it.
#[derive(Debug, PartialEq, Eq)]
pub struct FileMeta {
    /// The file's name, unique within its job.
    pub name: String,
    /// Where the file is found, relative to the base address of a host.
    pub url: String,
    /// The number of bytes the complete file has.
    pub size: u64,
}

/// A listed file as plain values.
pub struct FileMetaView {
    pub name: Seq<char>,
    pub url: Seq<char>,
    pub size: nat,
}

impl View for FileMeta {
    type V = FileMetaView;

    open spec fn view(&self) -> FileMetaView {
        FileMetaView { name: self.name@, url: self.url@, size: self.size as nat }
    }
}

impl Clone for FileMeta {
    fn clone(&self) -> (r: Self)
        ensures
            r == *self,
    {
        FileMeta { name: self.name.clone(), url: self.url.clone(), size: self.size }
    }
}

/// The listed files of `files` as plain values, in the same order.
pub open spec fn file_views(files: Seq<FileMeta>) -> Seq<FileMetaView> {
    files.map_values(|f: FileMeta| f@)
}

/// No two files of the listing have the same name.
pub open spec fn unique_names(files: Seq<FileMetaView>) -> bool {
    forall|i: int, j: int|
        0 <= i < j < files.len() ==> (#[trigger] files[i]).name != (#[trigger] files[j]).name
}

/// Whether a file named `name` passes the filter: without a filter every file does.
pub open spec fn passes(filter: Option<UserRegex>, name: Seq<char>) -> bool {
    match filter {
        None => true,
        Some(re) => re.matches(name),
    }
}

/// For each file of the listing, whether it passes the filter.
pub open spec fn filter_flags(filter: Option<UserRegex>, files: Seq<FileMetaView>) -> Seq<bool> {
    Seq::new(files.len(), |i: int| passes(filter, files[i].name))
}

/// The files whose flag is set, in their order in `files`. `keep` has one flag per file.
pub open spec fn kept(files: Seq<FileMetaView>, keep: Seq<bool>) -> Seq<FileMetaView>
    decreases files.len(),
{
    if files.len() == 0 || keep.len() != files.len() {
        Seq::empty()
    } else if keep.last() {
        kept(files.drop_last(), keep.drop_last()).push(files.last())
    } else {
        kept(files.drop_last(), keep.drop_last())
    }
}

/// Every kept file is one of the listing.
pub proof fn lemma_kept_within(files: Seq<FileMetaView>, keep: Seq<bool>)
    requires
        keep.len() == files.len(),
    ensures
        kept(files, keep).len() <= files.len(),
        forall|k: int|
            0 <= k < kept(files, keep).len() ==> exists|i: int|
                0 <= i < files.len() && keep[i] && files[i] == #[trigger] kept(files, keep)[k],
    decreases files.len(),
{
    if files.len() > 0 {
        let rest = kept(files.drop_last(), keep.drop_last());
        lemma_kept_within(files.drop_last(), keep.drop_last());
        assert forall|k: int| 0 <= k < kept(files, keep).len() implies exists|i: int|
            0 <= i < files.len() && keep[i] && files[i] == #[trigger] kept(files, keep)[k] by {
            if k < rest.len() {
                let i = choose|i: int|
                    0 <= i < files.drop_last().len() && keep.drop_last()[i]
                        && files.drop_last()[i] == rest[k];
                assert(files[i] == kept(files, keep)[k] && keep[i]);
            } else {
                let i = files.len() - 1;
                assert(files[i] == kept(files, keep)[k] && keep[i]);
            }
        }
    }
}

/// Filtering a listing without repeated names leaves no repeated names.
pub proof fn lemma_kept_unique(files: Seq<FileMetaView>, keep: Seq<bool>)
    requires
        keep.len() == files.len(),
        unique_names(files),
    ensures
        unique_names(kept(files, keep)),
    decreases files.len(),
{
    if files.len() > 0 {
        let front = files.drop_last();
        let rest = kept(front, keep.drop_last());
        assert(unique_names(front)) by {
            assert forall|i: int, j: int| 0 <= i < j < front.len() implies (#[trigger] front[i]).name
                != (#[trigger] front[j]).name by {
                assert(front[i] == files[i] && front[j] == files[j]);
            }
        }
        lemma_kept_unique(front, keep.drop_last());
        lemma_kept_within(front, keep.drop_last());
        let out = kept(files, keep);
        assert forall|i: int, j: int| 0 <= i < j < out.len() implies (#[trigger] out[i]).name != (
        #[trigger] out[j]).name by {
            if j < rest.len() {
                assert(out[i] == rest[i] && out[j] == rest[j]);
            } else {
                let a = choose|a: int|
                    0 <= a < front.len() && keep.drop_last()[a] && front[a] == rest[i];
                assert(files[a] == out[i]);
                assert(files[files.len() - 1] == out[j]);
            }
        }
    }
}

/// Keeps the files of `files` whose flag in `keep` is set, in their order. Where `keep`
/// does not hold one flag per file, nothing is kept.
pub fn retain_flagged(files: &Vec<FileMeta>, keep: &Vec<bool>) -> (r: Vec<FileMeta>)
    ensures
        file_views(r@) == kept(file_views(files@), keep@),
{
    let mut out: Vec<FileMeta> = Vec::new();
    if keep.len() != files.len() {
        assert(file_views(out@) =~= Seq::empty());
        return out;
    }
    let mut i: usize = 0;
    let ghost all = file_views(files@);
    while i < files.len()
        invariant
            i <= files.len(),
            keep.len() == files.len(),
            all == file_views(files@),
            file_views(out@) == kept(all.subrange(0, i as int), keep@.subrange(0, i as int)),
        decreases files.len() - i,
    {
        proof {
            let a = all.subrange(0, i as int + 1);
            let k = keep@.subrange(0, i as int + 1);
            assert(a.drop_last() =~= all.subrange(0, i as int));
            assert(k.drop_last() =~= keep@.subrange(0, i as int));
            assert(a.last() == files@[i as int]@);
            assert(k.last() == keep@[i as int]);
        }
        if keep[i] {
            let ghost before = file_views(out@);
            out.push(files[i].clone());
            assert(file_views(out@) =~= before.push(files@[i as int]@));
        }
        i = i + 1;
    }
    proof {
        assert(all.subrange(0, i as int) =~= all);
        assert(keep@.subrange(0, i as int) =~= keep@);
    }
    out
}

/// The filter behind an optional reference.
pub open spec fn filter_of(filter: Option<&UserRegex>) -> Option<UserRegex> {
    match filter {
        Some(re) => Some(*re),
        None => None,
    }
}

/// Applies the optional name filter to a listing. Without a filter the listing is
/// returned whole; with one, the files whose name it matches stay, in their order.
pub fn filter_files(files: &Vec<FileMeta>, filter: Option<&UserRegex>) -> (r: Vec<FileMeta>)
    ensures
        file_views(r@) == kept(
            file_views(files@),
            filter_flags(filter_of(filter), file_views(files@)),
        ),
{
    let ghost f = filter_of(filter);
    let mut keep: Vec<bool> = Vec::new();
    let mut i: usize = 0;
    while i < files.len()
        invariant
            i <= files.len(),
            keep.len() == i,
            f == filter_of(filter),
            forall|j: int| 0 <= j < i ==> keep@[j] == passes(f, files@[j].name@),
        decreases files.len() - i,
    {
        let flag = match filter {
            Some(re) => re.is_match(files[i].name.as_str()),
            None => true,
        };
        keep.push(flag);
        i = i + 1;
    }
    assert(keep@ =~= filter_flags(f, file_views(files@)));
    retain_flagged(files, &keep)
}

/// Tests whether no two files of a listing have the same name.
pub fn names_unique(files: &Vec<FileMeta>) -> (r: bool)
    ensures
        r == unique_names(file_views(files@)),
{
    let ghost all = file_views(files@);
    let mut j: usize = 0;
    while j < files.len()
        invariant
            j <= files.len(),
            all == file_views(files@),
            forall|a: int, b: int| 0 <= a < b < j ==> (#[trigger] all[a]).name != (#[trigger] all[b]).name,
        decreases files.len() - j,
    {
        let mut i: usize = 0;
        while i < j
            invariant
                i <= j,
                j < files.len(),
                all == file_views(files@),
                forall|a: int| 0 <= a < i ==> (#[trigger] all[a]).name != all[j as int].name,
            decreases j - i,
        {
            if files[i].name == files[j].name {
                assert(all[i as int].name == all[j as int].name);
                return false;
            }
            i = i + 1;
        }
        j = j + 1;
    }
    true
}

} // verus!
