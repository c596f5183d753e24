//! Decision core of a dump downloader.
//!
//! The crate resolves which version of a dump to fetch, lists and filters the files of a
//! job, decides for each file whether it has to be downloaded, and keeps the totals of a
//! run. It performs no input or output itself: a caller executes the actions the crate
//! asks for and hands back what happened.
//!
//! - [`args`]: the inputs of a run.
//! - [`version`], [`metadata`]: versions, the version request and its resolution, and the
//!   listing of a job's files.
//! - [`filter`], [`files`]: the optional file-name filter and what it keeps.
//! - [`layout`]: the addresses that are requested and the paths that are written.
//! - [`staging`], [`download`]: the staging area and the decisions about one file.
//! - [`summary`]: outcomes and totals.
//! - [`pipeline`]: the run as a state machine over all of these.
//! - [`model`], [`laws`]: what holds of whole runs, stated and proved.
//! - [`error`], [`text`]: errors with their context, and helpers on text.

pub mod args;
pub mod download;
pub mod error;
pub mod files;
pub mod filter;
pub mod laws;
pub mod layout;
pub mod metadata;
pub mod model;
pub mod pipeline;
pub mod staging;
pub mod summary;
pub mod text;
pub mod version;
