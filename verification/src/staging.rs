//! The staging area: the directory that holds files while they are fetched.
//!
//! A file is written below the staging directory and moved to its final path only when
//! it is complete, so that no partly written file is ever seen at a final path. The
//! directory belongs to one run. Giving it up consumes the area, so it happens once.

use vstd::prelude::*;
use vstd::string::*;
use crate::error::ErrorKind;
use crate::layout::{join_path, joined, staging_dir, staging_dir_text};

verus! {

/// The staging area of a run.
#[derive(Debug, PartialEq, Eq)]
pub struct StagingArea {
    dir: String,
    keep: bool,
}

/// A staging area as plain values.
pub struct StagingView {
    /// The staging directory.
    pub dir: Seq<char>,
    /// Whether the directory is kept when the area is given up.
    pub keep: bool,
}

impl View for StagingArea {
    type V = StagingView;

    closed spec fn view(&self) -> StagingView {
        StagingView { dir: self.dir@, keep: self.keep }
    }
}

/// What is to be done with the staging directory when the area is given up.
#[derive(Debug, PartialEq, Eq)]
pub enum Disposal {
    /// The directory and what is in it are removed.
    Remove { path: String },
    /// The directory is left as it is; its path is reported for inspection.
    Keep { path: String },
}

/// What becomes of a staging area that is given up.
pub enum DisposalView {
    Remove { path: Seq<char> },
    Keep { path: Seq<char> },
}

impl View for Disposal {
    type V = DisposalView;

    open spec fn view(&self) -> DisposalView {
        match self {
            Disposal::Remove { path } => DisposalView::Remove { path: path@ },
            Disposal::Keep { path } => DisposalView::Keep { path: path@ },
        }
    }
}

/// What giving up an area yields: the directory is removed unless it is to be kept.
pub open spec fn disposal_of(area: StagingView) -> DisposalView {
    if area.keep {
        DisposalView::Keep { path: area.dir }
    } else {
        DisposalView::Remove { path: area.dir }
    }
}

impl StagingArea {
    /// The directory that a run below `output_root` stages its files in.
    pub fn location(output_root: &str) -> (r: String)
        ensures
            r@ == staging_dir_text(output_root@),
    {
        staging_dir(output_root)
    }

    /// Takes over the staging directory below `output_root`; `created` says whether the
    /// directory at [`StagingArea::location`] could be created. Without the directory
    /// there is no staging area.
    pub fn create(output_root: &str, keep: bool, created: bool) -> (r: Result<
        StagingArea,
        ErrorKind,
    >)
        ensures
            created ==> (r matches Ok(area) && area@ == (StagingView {
                dir: staging_dir_text(output_root@),
                keep,
            })),
            !created ==> r matches Err(ErrorKind::StagingCreateFailed),
    {
        if created {
            Ok(StagingArea { dir: staging_dir(output_root), keep })
        } else {
            Err(ErrorKind::StagingCreateFailed)
        }
    }

    /// The staging directory.
    pub fn dir(&self) -> (r: &str)
        ensures
            r@ == self@.dir,
    {
        self.dir.as_str()
    }

    /// Whether the directory is kept when the area is given up.
    pub fn is_kept(&self) -> (r: bool)
        ensures
            r == self@.keep,
    {
        self.keep
    }

    /// The path inside the staging directory that the file named `file_name` is written
    /// to while it is fetched.
    pub fn path_for(&self, file_name: &str) -> (r: String)
        ensures
            r@ == joined(self@.dir, file_name@),
    {
        join_path(self.dir.as_str(), file_name)
    }

    /// Gives the area up, at the end of the run or when it is aborted.
    pub fn dispose(self) -> (r: Disposal)
        ensures
            r@ == disposal_of(self@),
    {
        if self.keep {
            Disposal::Keep { path: self.dir }
        } else {
            Disposal::Remove { path: self.dir }
        }
    }
}

} // verus!
