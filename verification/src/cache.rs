//! On-disk cache layout for downloaded datasets.
//!
//! ```text
//! <cache root>/<spec.cache_subdir>/
//!     train.parquet
//!     test.parquet
//!     neighbors.parquet
//!     .complete         # marker written after every required file landed
//! ```
//!
//! Only the marker says that a directory is usable: a download killed part
//! way leaves a directory without it, and the next run fetches again.
//! Paths are handled by their OS bytes, as Unix stores them, so any path
//! the system hands out passes through unchanged; they are joined by the Unix
//! rules of `Path::join`.

use vstd::prelude::*;
use vstd::string::*;
use vstd::utf8::*;

verus! {

/// The byte of the path separator, `/`.
pub const SEPARATOR: u8 = 0x2F;

/// `Path::join` on Unix, over a path's bytes: an absolute `part` replaces
/// `base`; otherwise `part` is appended, with a `/` between them unless
/// `base` is empty or already ends with one.
pub open spec fn path_join(base: Seq<u8>, part: Seq<u8>) -> Seq<u8> {
    if part.len() > 0 && part[0] == SEPARATOR {
        part
    } else if base.len() > 0 && base.last() != SEPARATOR {
        base + seq![SEPARATOR] + part
    } else {
        base + part
    }
}

/// Appends `s` to `out`.
pub fn append_bytes(out: &mut Vec<u8>, s: &[u8])
    ensures
        final(out)@ == old(out)@ + s@,
{
    let mut i: usize = 0;
    while i < s.len()
        invariant
            i <= s@.len(),
            out@ == old(out)@ + s@.take(i as int),
        decreases s@.len() - i,
    {
        out.push(s[i]);
        i = i + 1;
        assert(out@ =~= old(out)@ + s@.take(i as int));
    }
    assert(s@.take(s@.len() as int) =~= s@);
}

/// Joins two paths given by their bytes (see [`path_join`]).
pub fn join_path(base: &[u8], part: &[u8]) -> (p: Vec<u8>)
    ensures
        p@ == path_join(base@, part@),
{
    let mut out: Vec<u8> = Vec::new();
    if part.len() > 0 && part[0] == SEPARATOR {
        append_bytes(&mut out, part);
        assert(out@ =~= part@);
        return out;
    }
    append_bytes(&mut out, base);
    if base.len() > 0 && base[base.len() - 1] != SEPARATOR {
        out.push(SEPARATOR);
    }
    append_bytes(&mut out, part);
    assert(out@ =~= path_join(base@, part@));
    out
}

/// Marker file name written after every required file is in place.
pub const MARKER_FILE: &'static str = ".complete";

/// The cache directory of one dataset: `cache_root / cache_subdir`.
///
/// Does not create the directory; that is the downloader's job.
pub fn cache_dir_for(cache_root: &[u8], cache_subdir: &str) -> (p: Vec<u8>)
    ensures
        p@ == path_join(cache_root@, cache_subdir.spec_bytes()),
{
    join_path(cache_root, cache_subdir.as_bytes())
}

/// The marker file of a dataset's cache directory; the directory is complete
/// when this file exists.
pub fn marker_path(dir: &[u8]) -> (p: Vec<u8>)
    ensures
        p@ == path_join(dir@, MARKER_FILE.spec_bytes()),
{
    join_path(dir, MARKER_FILE.as_bytes())
}

/// The cache root under a user cache directory, or under `./.cache` when
/// there is none: `<base>/vectordb-bench-rs/datasets`.
pub open spec fn cache_root_under(base: Option<Seq<u8>>) -> Seq<u8> {
    let b = match base {
        Some(b) => b,
        None => "./.cache".spec_bytes(),
    };
    path_join(path_join(b, "vectordb-bench-rs".spec_bytes()), "datasets".spec_bytes())
}

/// The bytes of an optional path.
pub open spec fn opt_view(o: Option<Vec<u8>>) -> Option<Seq<u8>> {
    match o {
        Some(p) => Some(p@),
        None => None,
    }
}

/// The cache root under `base` (see [`cache_root_under`]).
pub fn cache_root_from(base: Option<Vec<u8>>) -> (p: Vec<u8>)
    ensures
        p@ == cache_root_under(opt_view(base)),
{
    let with_app = match &base {
        Some(b) => join_path(b.as_slice(), "vectordb-bench-rs".as_bytes()),
        None => join_path("./.cache".as_bytes(), "vectordb-bench-rs".as_bytes()),
    };
    join_path(with_app.as_slice(), "datasets".as_bytes())
}

/// The user's cache directory, by the bytes of its path, if the platform has
/// one.
///
/// Trusted: calls `dirs::cache_dir` (which reads the environment, e.g.
/// `$XDG_CACHE_HOME` or `$HOME/.cache` on Linux) and hands the path out as its
/// OS-encoded bytes (on Unix, the path's own bytes), so no path is altered.
/// Nothing is claimed of the result.
#[verifier::external_body]
fn user_cache_dir() -> (r: Option<Vec<u8>>)
{
    match dirs::cache_dir() {
        Some(p) => Some(p.into_os_string().into_encoded_bytes()),
        None => None,
    }
}

/// The default cache root, e.g. `~/.cache/vectordb-bench-rs/datasets` on
/// Linux; `./.cache/vectordb-bench-rs/datasets` when the platform has no
/// cache directory.
pub fn default_cache_root() -> (p: Vec<u8>)
    ensures
        exists|base: Option<Seq<u8>>| p@ == cache_root_under(base),
{
    let base = user_cache_dir();
    let ghost b = opt_view(base);
    let p = cache_root_from(base);
    assert(p@ == cache_root_under(b));
    p
}

proof fn lemma_ascii_bytes(s: &str)
    requires
        is_ascii_chars(s@),
    ensures
        s.spec_bytes().len() == s@.len(),
        forall|i: int| 0 <= i < s@.len() ==> #[trigger] s.spec_bytes()[i] == s@[i] as u8,
{
    is_ascii_chars_encode_utf8(s@);
}

/// Every cache root, wherever the user's cache directory is, ends in
/// `vectordb-bench-rs/datasets`.
pub proof fn lemma_cache_root_suffix(base: Option<Seq<u8>>)
    ensures
        ({
            let root = cache_root_under(base);
            let suffix = "vectordb-bench-rs/datasets".spec_bytes();
            root.len() >= suffix.len() && root.subrange(root.len() - suffix.len(), root.len() as int) == suffix
        }),
{
    reveal_strlit("vectordb-bench-rs");
    reveal_strlit("datasets");
    reveal_strlit("vectordb-bench-rs/datasets");
    lemma_ascii_bytes("vectordb-bench-rs");
    lemma_ascii_bytes("datasets");
    lemma_ascii_bytes("vectordb-bench-rs/datasets");
    let b = match base {
        Some(b) => b,
        None => "./.cache".spec_bytes(),
    };
    let v = "vectordb-bench-rs".spec_bytes();
    let d = "datasets".spec_bytes();
    let suffix = "vectordb-bench-rs/datasets".spec_bytes();
    assert(v[0] == 0x76u8);
    assert(d[0] == 0x64u8);
    let x = path_join(b, v);
    assert(x.len() >= v.len());
    assert(x.subrange(x.len() - v.len(), x.len() as int) =~= v);
    assert(x.last() == v.last());
    assert(v.last() == 0x73u8);
    let root = path_join(x, d);
    assert(root == x + seq![SEPARATOR] + d);
    assert(suffix =~= v + seq![SEPARATOR] + d);
    assert(root.subrange(root.len() - suffix.len(), root.len() as int) =~= suffix);
}

} // verus!
