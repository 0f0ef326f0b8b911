//! Locating the `strata` binary.
//!
//! Lookup order, in priority:
//!
//! 1. an explicit override path (when given it is used or refused, never
//!    passed over),
//! 2. the `STRATA_BIN` environment variable, when it names an existing file,
//! 3. `strata` on `PATH`,
//! 4. `~/.strata/bin/strata`, where `https://stratadb.org/install.sh` puts it.
//!
//! Reading the environment and asking whether a file exists are the caller's
//! part; the `PATH` search is made here.

use vstd::prelude::*;
use vstd::string::*;
use vstd::utf8::*;

verus! {

/// Errors raised while locating the binary.
#[derive(Debug)]
pub enum LocateError {
    /// No `strata` binary was found in any of the searched locations.
    NotFound,
    /// An override path was provided but does not exist on disk (the path's
    /// bytes).
    OverrideMissing(Vec<u8>),
}

/// The message for [`LocateError::NotFound`]: where to get the binary, and
/// how to point at one.
pub open spec fn not_found_text() -> Seq<char> {
    "could not find a `strata` binary.\nInstall one with:\n  curl -fsSL https://stratadb.org/install.sh | sh\n\u{2026}or set STRATA_BIN to an explicit path."@
}

/// A path's bytes shown as text: the text itself when they are valid UTF-8
/// (what `String::from_utf8_lossy` makes of them).
pub uninterp spec fn lossy_text(bytes: Seq<u8>) -> Seq<char>;

/// Trusted: calls `String::from_utf8_lossy`. std documents that valid UTF-8
/// comes back as the text it encodes; invalid sequences are replaced with
/// U+FFFD, which is left to the name [`lossy_text`].
#[verifier::external_body]
fn show_bytes(bytes: &[u8]) -> (s: String)
    ensures
        s@ == lossy_text(bytes@),
        valid_utf8(bytes@) ==> s@ == decode_utf8(bytes@),
{
    String::from_utf8_lossy(bytes).into_owned()
}

/// The message of a locate error.
pub open spec fn locate_error_text(e: LocateError) -> Seq<char> {
    match e {
        LocateError::NotFound => not_found_text(),
        LocateError::OverrideMissing(p) => "strata_bin override does not exist: "@ + lossy_text(p@),
    }
}

impl LocateError {
    /// The error's message; the path is shown as text (see [`lossy_text`]).
    pub fn to_string(&self) -> (s: String)
        ensures
            s@ == locate_error_text(*self),
            match *self {
                LocateError::OverrideMissing(p) => valid_utf8(p@) ==> s@ == "strata_bin override does not exist: "@
                    + decode_utf8(p@),
                LocateError::NotFound => true,
            },
    {
        match self {
            LocateError::NotFound => String::from_str(
                "could not find a `strata` binary.\nInstall one with:\n  curl -fsSL https://stratadb.org/install.sh | sh\n\u{2026}or set STRATA_BIN to an explicit path.",
            ),
            LocateError::OverrideMissing(p) => {
                let mut s = String::from_str("strata_bin override does not exist: ");
                let shown = show_bytes(p.as_slice());
                s.append(shown.as_str());
                s
            },
        }
    }
}

/// A candidate path, and whether a file exists there.
pub struct PathProbe {
    /// The path's bytes.
    pub path: Vec<u8>,
    /// Whether it exists.
    pub exists: bool,
}

/// Where the lookup ends: a path, or an error.
pub enum LocateOutcome {
    /// The binary is at this path.
    Found(Seq<u8>),
    /// Nothing found.
    NotFound,
    /// The override does not exist.
    OverrideMissing(Seq<u8>),
}

/// The outcome a lookup result stands for.
pub open spec fn outcome_of(r: Result<Vec<u8>, LocateError>) -> LocateOutcome {
    match r {
        Ok(p) => LocateOutcome::Found(p@),
        Err(LocateError::NotFound) => LocateOutcome::NotFound,
        Err(LocateError::OverrideMissing(p)) => LocateOutcome::OverrideMissing(p@),
    }
}

/// The lookup, given the override, the `STRATA_BIN` candidate, the `PATH`
/// search's answer and the install-directory candidate.
pub open spec fn resolve_spec(
    override_path: Option<PathProbe>,
    env_path: Option<PathProbe>,
    on_path: Option<Vec<u8>>,
    home_candidate: Option<PathProbe>,
) -> LocateOutcome {
    match override_path {
        Some(p) => if p.exists {
            LocateOutcome::Found(p.path@)
        } else {
            LocateOutcome::OverrideMissing(p.path@)
        },
        None => if env_path matches Some(e) && e.exists {
            LocateOutcome::Found(env_path->0.path@)
        } else if on_path matches Some(w) {
            LocateOutcome::Found(on_path->0@)
        } else if home_candidate matches Some(h) && h.exists {
            LocateOutcome::Found(home_candidate->0.path@)
        } else {
            LocateOutcome::NotFound
        },
    }
}

/// The lookup over known answers (see [`resolve_spec`]).
pub fn resolve_strata_bin(
    override_path: Option<PathProbe>,
    env_path: Option<PathProbe>,
    on_path: Option<Vec<u8>>,
    home_candidate: Option<PathProbe>,
) -> (r: Result<Vec<u8>, LocateError>)
    ensures
        outcome_of(r) == resolve_spec(override_path, env_path, on_path, home_candidate),
{
    if let Some(p) = override_path {
        return if p.exists {
            Ok(p.path)
        } else {
            Err(LocateError::OverrideMissing(p.path))
        };
    }
    if let Some(e) = env_path {
        if e.exists {
            return Ok(e.path);
        }
    }
    if let Some(w) = on_path {
        return Ok(w);
    }
    if let Some(h) = home_candidate {
        if h.exists {
            return Ok(h.path);
        }
    }
    Err(LocateError::NotFound)
}

/// Trusted: calls `which::which("strata")`, handing the found path out as its
/// OS-encoded bytes (on Unix, the path's own bytes), so no path is altered.
/// The answer depends on `PATH` and on the disk; nothing is claimed of it.
#[verifier::external_body]
fn which_strata() -> (r: Option<Vec<u8>>)
{
    match which::which("strata") {
        Ok(p) => Some(p.into_os_string().into_encoded_bytes()),
        Err(_) => None,
    }
}

/// Finds the `strata` binary. The `PATH` search is made only when neither
/// the override nor `STRATA_BIN` decides.
pub fn locate_strata_bin(
    override_path: Option<PathProbe>,
    env_path: Option<PathProbe>,
    home_candidate: Option<PathProbe>,
) -> (r: Result<Vec<u8>, LocateError>)
    ensures
        exists|on_path: Option<Vec<u8>>| outcome_of(r) == resolve_spec(override_path, env_path, on_path, home_candidate),
{
    let decided = override_path.is_some() || match &env_path {
        Some(e) => e.exists,
        None => false,
    };
    let on_path = if decided { None } else { which_strata() };
    let r = resolve_strata_bin(override_path, env_path, on_path, home_candidate);
    r
}

} // verus!
