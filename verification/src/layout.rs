//! Where things are: the addresses that are requested and the paths that are written.
//!
//! Metadata is always asked of the canonical host. Only the files of a job are taken from
//! a mirror, when one is configured.

use vstd::prelude::*;
use vstd::string::*;
use crate::text::{join_text, has_prefix};

verus! {

/// The base address of the canonical host.
pub open spec fn canonical_text() -> Seq<char> {
    "https://dumps.wikimedia.org"@
}

/// The name of the staging directory below the output root.
pub open spec fn staging_name() -> Seq<char> {
    "_temp"@
}

/// The name of the directory of the HTTP cache below the output root.
pub open spec fn http_cache_name() -> Seq<char> {
    "_http_cache"@
}

/// The name of the document that lists the jobs of one version.
pub open spec fn manifest_name() -> Seq<char> {
    "dumpstatus.json"@
}

/// `child` below the directory `base`: the two are joined by one `/`, which is left out
/// where `base` is empty or already ends in one.
pub open spec fn joined(base: Seq<char>, child: Seq<char>) -> Seq<char> {
    if base.len() == 0 {
        child
    } else if base.last() == '/' {
        base + child
    } else {
        base + seq!['/'] + child
    }
}

/// The address of the index of a dump's versions, on the canonical host.
pub open spec fn versions_url_text(dump: Seq<char>) -> Seq<char> {
    canonical_text() + seq!['/'] + dump + seq!['/']
}

/// The address of the manifest of one version of a dump, on the canonical host.
pub open spec fn manifest_url_text(dump: Seq<char>, version: Seq<char>) -> Seq<char> {
    canonical_text() + seq!['/'] + dump + seq!['/'] + version + seq!['/'] + manifest_name()
}

/// The base address that files are fetched from: the mirror where one is configured, the
/// canonical host where none is.
pub open spec fn file_base_text(mirror: Option<Seq<char>>) -> Seq<char> {
    match mirror {
        Some(m) => m,
        None => canonical_text(),
    }
}

/// The address a file is fetched from: its relative address appended to the base.
pub open spec fn source_url_text(mirror: Option<Seq<char>>, rel: Seq<char>) -> Seq<char> {
    file_base_text(mirror) + rel
}

/// The directory that holds the files of one job of one version of a dump.
pub open spec fn job_dir_text(
    out_dir: Seq<char>,
    dump: Seq<char>,
    version: Seq<char>,
    job: Seq<char>,
) -> Seq<char> {
    joined(joined(joined(out_dir, dump), version), job)
}

/// The final path of a file.
pub open spec fn final_path_text(
    out_dir: Seq<char>,
    dump: Seq<char>,
    version: Seq<char>,
    job: Seq<char>,
    name: Seq<char>,
) -> Seq<char> {
    joined(job_dir_text(out_dir, dump, version, job), name)
}

/// The staging directory of a run.
pub open spec fn staging_dir_text(out_dir: Seq<char>) -> Seq<char> {
    joined(out_dir, staging_name())
}

/// The path a file is written to while it is fetched.
pub open spec fn staging_path_text(out_dir: Seq<char>, name: Seq<char>) -> Seq<char> {
    joined(staging_dir_text(out_dir), name)
}

/// Below one directory, different names are different paths.
pub proof fn lemma_joined_injective(base: Seq<char>, a: Seq<char>, b: Seq<char>)
    requires
        joined(base, a) == joined(base, b),
    ensures
        a == b,
{
    let pre = if base.len() == 0 {
        Seq::<char>::empty()
    } else if base.last() == '/' {
        base
    } else {
        base + seq!['/']
    };
    assert(joined(base, a) =~= pre + a);
    assert(joined(base, b) =~= pre + b);
    assert((pre + a).subrange(pre.len() as int, (pre + a).len() as int) =~= a);
    assert((pre + b).subrange(pre.len() as int, (pre + b).len() as int) =~= b);
}

/// Whether `s` can name one entry of a directory: it is not empty and holds no `/`.
pub open spec fn plain_name(s: Seq<char>) -> bool {
    s.len() > 0 && forall|i: int| 0 <= i < s.len() ==> s[i] != '/'
}

/// Whether `path` lies below the directory `dir`.
pub open spec fn below(path: Seq<char>, dir: Seq<char>) -> bool {
    has_prefix(path, dir + seq!['/'])
}

/// What a directory's path contributes to the paths below it.
pub open spec fn stem(base: Seq<char>) -> Seq<char> {
    if base.len() == 0 {
        base
    } else if base.last() == '/' {
        base
    } else {
        base + seq!['/']
    }
}

proof fn lemma_joined_stem(base: Seq<char>, child: Seq<char>)
    ensures
        joined(base, child) == stem(base) + child,
{
    assert(joined(base, child) =~= stem(base) + child);
}

proof fn lemma_prefix_chain(a: Seq<char>, b: Seq<char>, c: Seq<char>)
    requires
        has_prefix(a, b),
        has_prefix(b, c),
    ensures
        has_prefix(a, c),
{
    assert(a.subrange(0, c.len() as int) =~= b.subrange(0, c.len() as int)) by {
        assert forall|i: int| 0 <= i < c.len() implies a[i] == b[i] by {
            assert(a.subrange(0, b.len() as int)[i] == b[i]);
        }
    }
}

proof fn lemma_joined_extends(base: Seq<char>, child: Seq<char>)
    requires
        base.len() > 0,
    ensures
        has_prefix(joined(base, child), base),
        joined(base, child).len() > 0,
{
    assert(joined(base, child).subrange(0, base.len() as int) =~= base);
}

/// A path in the staging directory lies below it.
pub proof fn lemma_staging_path_below(out_dir: Seq<char>, name: Seq<char>)
    ensures
        below(staging_path_text(out_dir, name), staging_dir_text(out_dir)),
{
    reveal_strlit("_temp");
    let dir = staging_dir_text(out_dir);
    lemma_joined_stem(out_dir, staging_name());
    assert(dir.len() > 0 && dir.last() == 'p');
    let path = joined(dir, name);
    assert(path =~= dir + seq!['/'] + name);
    assert(path.subrange(0, (dir + seq!['/']).len() as int) =~= dir + seq!['/']);
}

/// No final path lies below the staging directory, where the dump's name is a plain
/// name other than that of the staging directory.
pub proof fn lemma_final_path_apart(
    out_dir: Seq<char>,
    dump: Seq<char>,
    version: Seq<char>,
    job: Seq<char>,
    name: Seq<char>,
)
    requires
        plain_name(dump),
        dump != staging_name(),
    ensures
        !below(final_path_text(out_dir, dump, version, job, name), staging_dir_text(out_dir)),
{
    reveal_strlit("_temp");
    let pre = stem(out_dir);
    let temp = staging_name();
    let n = dump.len() as int;
    let k = pre.len() as int;
    let b1 = joined(out_dir, dump);
    let b2 = joined(b1, version);
    let b3 = joined(b2, job);
    let path = joined(b3, name);
    lemma_joined_stem(out_dir, dump);
    lemma_joined_stem(out_dir, temp);
    assert(b1.len() == k + n && b1.last() == dump[n - 1]);
    let head = b1 + seq!['/'];
    assert(b2 =~= head + version);
    assert(has_prefix(b2, head)) by {
        assert(b2.subrange(0, head.len() as int) =~= head);
    }
    lemma_joined_extends(b2, job);
    lemma_joined_extends(b3, name);
    lemma_prefix_chain(b3, b2, head);
    lemma_prefix_chain(path, b3, head);
    let fence = staging_dir_text(out_dir) + seq!['/'];
    assert(fence =~= pre + temp + seq!['/']);
    if has_prefix(path, fence) {
        assert forall|i: int| 0 <= i < head.len() implies path[i] == head[i] by {
            assert(path.subrange(0, head.len() as int)[i] == head[i]);
        }
        assert forall|i: int| 0 <= i < fence.len() implies path[i] == fence[i] by {
            assert(path.subrange(0, fence.len() as int)[i] == fence[i]);
        }
        if n < 5 {
            assert(head[k + n] == '/');
            assert(fence[k + n] == temp[n]);
        } else if n > 5 {
            assert(head[k + 5] == dump[5]);
            assert(fence[k + 5] == '/');
        } else {
            assert forall|i: int| 0 <= i < 5 implies dump[i] == temp[i] by {
                assert(head[k + i] == dump[i]);
                assert(fence[k + i] == temp[i]);
            }
            assert(dump =~= temp);
        }
    }
}

/// The base address of the canonical host.
pub fn canonical_base() -> (r: &'static str)
    ensures
        r@ == canonical_text(),
{
    "https://dumps.wikimedia.org"
}

/// Joins a directory and a name below it.
pub fn join_path(base: &str, child: &str) -> (r: String)
    ensures
        r@ == joined(base@, child@),
{
    let n: usize = base.unicode_len();
    if n == 0 {
        return String::from_str(child);
    }
    let mut r = String::from_str(base);
    if base.get_char(n - 1) != '/' {
        proof {
            reveal_strlit("/");
        }
        r.append("/");
        assert("/"@ =~= seq!['/']);
    }
    r.append(child);
    r
}

/// The address of the index of a dump's versions. It lies on the canonical host.
pub fn versions_url(dump: &str) -> (r: String)
    ensures
        r@ == versions_url_text(dump@),
        has_prefix(r@, canonical_text()),
{
    proof {
        reveal_strlit("/");
    }
    let mut r = String::from_str(canonical_base());
    r.append("/");
    r.append(dump);
    r.append("/");
    proof {
        assert("/"@ =~= seq!['/']);
        assert(r@ =~= versions_url_text(dump@));
        assert(r@.subrange(0, canonical_text().len() as int) =~= canonical_text());
    }
    r
}

/// The address of the manifest of one version of a dump. It lies on the canonical host.
pub fn manifest_url(dump: &str, version: &str) -> (r: String)
    ensures
        r@ == manifest_url_text(dump@, version@),
        has_prefix(r@, canonical_text()),
{
    proof {
        reveal_strlit("/");
    }
    let mut r = String::from_str(canonical_base());
    r.append("/");
    r.append(dump);
    r.append("/");
    r.append(version);
    r.append("/");
    r.append("dumpstatus.json");
    proof {
        assert("/"@ =~= seq!['/']);
        assert(r@ =~= manifest_url_text(dump@, version@));
        assert(r@.subrange(0, canonical_text().len() as int) =~= canonical_text());
    }
    r
}

/// The address a file is fetched from: below the mirror where one is configured, below
/// the canonical host where none is.
pub fn source_url(mirror: Option<&str>, rel: &str) -> (r: String)
    ensures
        r@ == source_url_text(
            match mirror {
                Some(m) => Some(m@),
                None => None,
            },
            rel@,
        ),
{
    match mirror {
        Some(m) => join_text(m, rel),
        None => join_text(canonical_base(), rel),
    }
}

/// The final path of a file: `out_dir/dump/version/job/name`.
pub fn final_path(out_dir: &str, dump: &str, version: &str, job: &str, name: &str) -> (r: String)
    ensures
        r@ == final_path_text(out_dir@, dump@, version@, job@, name@),
{
    let a = join_path(out_dir, dump);
    let b = join_path(a.as_str(), version);
    let c = join_path(b.as_str(), job);
    join_path(c.as_str(), name)
}

/// The staging directory of a run that writes below `out_dir`.
pub fn staging_dir(out_dir: &str) -> (r: String)
    ensures
        r@ == staging_dir_text(out_dir@),
{
    join_path(out_dir, "_temp")
}

/// The directory of the HTTP cache of a run that writes below `out_dir`.
pub fn http_cache_dir(out_dir: &str) -> (r: String)
    ensures
        r@ == joined(out_dir@, http_cache_name()),
{
    join_path(out_dir, "_http_cache")
}

} // verus!
