//! The inputs of a run, as the command line hands them over.

use vstd::prelude::*;
use vstd::string::*;
use crate::error::opt_text;
use crate::filter::UserRegex;
use crate::layout::{http_cache_dir, http_cache_name, joined};
use crate::text::{has_prefix, starts_with, str_eq};
use crate::version::VersionSpec;

verus! {

/// How the client for metadata uses its cache of HTTP responses.
#[derive(Clone, Copy, Debug, PartialEq, Eq, Structural)]
pub enum HttpCacheMode {
    Default,
    NoStore,
    Reload,
    NoCache,
    ForceCache,
    OnlyIfCached,
    IgnoreRules,
}

/// The name of a cache mode, as it is written on the command line.
pub open spec fn cache_mode_name(mode: HttpCacheMode) -> Seq<char> {
    match mode {
        HttpCacheMode::Default => "Default"@,
        HttpCacheMode::NoStore => "NoStore"@,
        HttpCacheMode::Reload => "Reload"@,
        HttpCacheMode::NoCache => "NoCache"@,
        HttpCacheMode::ForceCache => "ForceCache"@,
        HttpCacheMode::OnlyIfCached => "OnlyIfCached"@,
        HttpCacheMode::IgnoreRules => "IgnoreRules"@,
    }
}

impl HttpCacheMode {
    /// The name of the mode.
    pub fn name(&self) -> (r: &'static str)
        ensures
            r@ == cache_mode_name(*self),
    {
        match self {
            HttpCacheMode::Default => "Default",
            HttpCacheMode::NoStore => "NoStore",
            HttpCacheMode::Reload => "Reload",
            HttpCacheMode::NoCache => "NoCache",
            HttpCacheMode::ForceCache => "ForceCache",
            HttpCacheMode::OnlyIfCached => "OnlyIfCached",
            HttpCacheMode::IgnoreRules => "IgnoreRules",
        }
    }

    /// Reads a mode from its name. A text that is the name of no mode yields `None`.
    pub fn from_name(text: &str) -> (r: Option<HttpCacheMode>)
        ensures
            r matches Some(mode) ==> cache_mode_name(mode) == text@,
            r is None ==> forall|mode: HttpCacheMode| cache_mode_name(mode) != text@,
    {
        if str_eq(text, "Default") {
            Some(HttpCacheMode::Default)
        } else if str_eq(text, "NoStore") {
            Some(HttpCacheMode::NoStore)
        } else if str_eq(text, "Reload") {
            Some(HttpCacheMode::Reload)
        } else if str_eq(text, "NoCache") {
            Some(HttpCacheMode::NoCache)
        } else if str_eq(text, "ForceCache") {
            Some(HttpCacheMode::ForceCache)
        } else if str_eq(text, "OnlyIfCached") {
            Some(HttpCacheMode::OnlyIfCached)
        } else if str_eq(text, "IgnoreRules") {
            Some(HttpCacheMode::IgnoreRules)
        } else {
            None
        }
    }
}

/// The inputs every command shares.
#[derive(Debug)]
pub struct CommonArgs {
    /// The directory below which everything is written: the files of the dump in child
    /// directories, the HTTP cache, the staging directory.
    pub out_dir: String,
    /// The cache mode of requests for metadata.
    pub http_cache_mode: HttpCacheMode,
}

/// The name of the dump, such as `enwiki`.
#[derive(Debug)]
pub struct DumpNameArg {
    pub value: String,
}

/// The version to use: one exact version or the latest.
#[derive(Debug)]
pub struct VersionSpecArg {
    pub value: VersionSpec,
}

/// The name of the job, such as `metacurrentdumprecombine`.
#[derive(Debug)]
pub struct JobNameArg {
    pub value: String,
}

/// An optional regular expression that selects the files of a job by name.
#[derive(Debug)]
pub struct FileNameRegexArg {
    pub value: Option<UserRegex>,
}

/// Whether results are printed as JSON rather than as text.
#[derive(Debug)]
pub struct JsonOutputArg {
    pub value: bool,
}

/// The inputs of a download run.
#[derive(Debug)]
pub struct Args {
    pub common: CommonArgs,
    pub dump_name: DumpNameArg,
    pub version_spec: VersionSpecArg,
    pub job_name: JobNameArg,
    pub file_name_regex: FileNameRegexArg,
    /// Whether the staging directory is kept when the run ends.
    pub keep_temp_dir: bool,
    /// The base address of a mirror for the files of the job. Metadata is never taken
    /// from it.
    pub mirror_url: Option<String>,
}

/// The inputs of a download run as plain values.
pub struct ArgsView {
    pub out_dir: Seq<char>,
    pub dump: Seq<char>,
    /// `None` for the latest version, else the version's text.
    pub version_spec: Option<Seq<char>>,
    pub job: Seq<char>,
    pub filter: Option<UserRegex>,
    pub keep: bool,
    pub mirror: Option<Seq<char>>,
}

impl View for Args {
    type V = ArgsView;

    open spec fn view(&self) -> ArgsView {
        ArgsView {
            out_dir: self.common.out_dir@,
            dump: self.dump_name.value@,
            version_spec: self.version_spec.value@,
            job: self.job_name.value@,
            filter: self.file_name_regex.value,
            keep: self.keep_temp_dir,
            mirror: opt_text(self.mirror_url),
        }
    }
}

/// What is wrong with the inputs of a run.
#[derive(Clone, Copy, Debug, PartialEq, Eq, Structural)]
pub enum InvalidArgs {
    /// The dump's name is empty.
    EmptyDumpName,
    /// The job's name is empty.
    EmptyJobName,
    /// The mirror's address begins with neither `http://` nor `https://`.
    UnsupportedMirrorUrl,
}

/// Whether an address is one of the web: it begins with `http://` or `https://`.
pub open spec fn is_web_url(url: Seq<char>) -> bool {
    has_prefix(url, "http://"@) || has_prefix(url, "https://"@)
}

/// The first fault of the inputs, if they have one: names are only required not to be
/// empty, a mirror to be a web address.
pub open spec fn fault_of(args: ArgsView) -> Option<InvalidArgs> {
    if args.dump.len() == 0 {
        Some(InvalidArgs::EmptyDumpName)
    } else if args.job.len() == 0 {
        Some(InvalidArgs::EmptyJobName)
    } else if args.mirror matches Some(m) && !is_web_url(m) {
        Some(InvalidArgs::UnsupportedMirrorUrl)
    } else {
        None
    }
}

impl CommonArgs {
    /// The directory of the HTTP cache: `_http_cache` below the output directory.
    pub fn http_cache_path(&self) -> (r: String)
        ensures
            r@ == joined(self.out_dir@, http_cache_name()),
    {
        http_cache_dir(self.out_dir.as_str())
    }
}

impl Args {
    /// Checks the inputs at the boundary and names the first fault.
    pub fn validate(&self) -> (r: Result<(), InvalidArgs>)
        ensures
            match fault_of(self@) {
                Some(fault) => r == Err::<(), InvalidArgs>(fault),
                None => r is Ok,
            },
    {
        if self.dump_name.value.as_str().unicode_len() == 0 {
            return Err(InvalidArgs::EmptyDumpName);
        }
        if self.job_name.value.as_str().unicode_len() == 0 {
            return Err(InvalidArgs::EmptyJobName);
        }
        match &self.mirror_url {
            Some(m) => {
                if !starts_with(m.as_str(), "http://") && !starts_with(m.as_str(), "https://") {
                    return Err(InvalidArgs::UnsupportedMirrorUrl);
                }
            },
            None => {},
        }
        Ok(())
    }
}

} // verus!
