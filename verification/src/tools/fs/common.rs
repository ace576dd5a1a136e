//! What the file system tools share: the whitelists, path resolution and
//! the access check that comes before any file is touched.

use crate::tools::error::Error;
use vstd::prelude::*;
use vstd::string::StringExecFns;

verus! {

#[verifier::external_type_specification]
#[verifier::external_body]
pub struct ExGlobSet(globset::GlobSet);

/// The globs a `GlobSet` holds; of them, only how many there are is used.
pub uninterp spec fn glob_set_globs(set: globset::GlobSet) -> Seq<Seq<char>>;

/// `GlobSet::empty`: a set of no globs.
#[verifier::external_body]
fn glob_set_empty() -> (r: globset::GlobSet)
    ensures
        glob_set_globs(r).len() == 0,
{
    globset::GlobSet::empty()
}

/// Whether a `GlobSet` matches a path, as `GlobSet::is_match` decides it.
pub uninterp spec fn glob_set_matches(set: globset::GlobSet, path: Seq<char>) -> bool;

/// `GlobSet::is_match` on a path.  The answer depends on the set and the
/// path alone, and is named `glob_set_matches`; the source returns `false`
/// at once for a set of no globs.  Which paths a glob matches is not stated
/// here, as it depends on the options each glob was built with.
#[verifier::external_body]
fn glob_set_is_match(set: &globset::GlobSet, path: &str) -> (r: bool)
    ensures
        r == glob_set_matches(*set, path@),
        glob_set_globs(*set).len() == 0 ==> !r,
{
    set.is_match(std::path::Path::new(path))
}

/// Whether `input` starts with a tilde that `shellexpand::tilde` replaces:
/// a lone `~`, or `~` followed by `/`.
pub open spec fn tilde_expandable(input: Seq<char>) -> bool {
    input.len() > 0 && input[0] == '~' && (input.len() == 1 || input[1] == '/')
}

/// What `shellexpand::tilde` may make of `input`: `input` itself when it
/// does not start with an expandable tilde; else the home directory, which
/// depends on the environment, followed by the rest of `input`, or `input`
/// unchanged when no home directory is known.
pub open spec fn tilde_outcome(input: Seq<char>, output: Seq<char>) -> bool {
    if tilde_expandable(input) {
        output == input || exists|home: Seq<char>| output == home + input.drop_first()
    } else {
        output == input
    }
}

/// `shellexpand::tilde`, taken as an owned string.  The home directory
/// comes from the environment, so only the shape of the outcome is stated.
#[verifier::external_body]
fn expand_tilde(input: &str) -> (r: String)
    ensures
        tilde_outcome(input@, r@),
{
    shellexpand::tilde(input).into_owned()
}

/// The whitelists of the file system tools: paths that may be read and
/// paths that may be written.
pub struct FsConfig {
    pub read_whitelist: globset::GlobSet,
    pub write_whitelist: globset::GlobSet,
}

impl FsConfig {
    /// Whitelists of no globs: nothing may be listed or written.
    pub fn new() -> (r: FsConfig)
        ensures
            glob_set_globs(r.read_whitelist).len() == 0,
            glob_set_globs(r.write_whitelist).len() == 0,
    {
        FsConfig { read_whitelist: glob_set_empty(), write_whitelist: glob_set_empty() }
    }
}

/// Whether a Unix path is absolute: it starts at the root.
pub open spec fn is_absolute_path(path: Seq<char>) -> bool {
    path.len() > 0 && path[0] == '/'
}

pub struct FsUtils {}

impl FsUtils {
    /// The path with a leading tilde replaced by the home directory, as
    /// `shellexpand::tilde` does it.
    pub fn expand_tilde(path: &str) -> (r: String)
        ensures
            tilde_outcome(path@, r@),
    {
        expand_tilde(path)
    }

    /// Whether a Unix path is absolute, as `Path::is_absolute` decides it.
    pub fn is_absolute(path: &str) -> (r: bool)
        ensures
            r == is_absolute_path(path@),
    {
        if path.is_empty() {
            false
        } else {
            path.get_char(0) == '/'
        }
    }

    /// The absolute form of `path`: the path itself where it is absolute,
    /// else what `canonicalize` makes of it.  The caller's `canonicalize`
    /// resolves a relative path against the working directory, on the file
    /// system, so its outcome is whatever it returns.
    pub fn get_absolute_path<F: FnOnce(String) -> Result<String, Error>>(
        path: String,
        canonicalize: F,
    ) -> (r: Result<String, Error>)
        requires
            !is_absolute_path(path@) ==> call_requires(canonicalize, (path,)),
        ensures
            is_absolute_path(path@) ==> r == Ok::<String, Error>(path),
            !is_absolute_path(path@) ==> call_ensures(canonicalize, (path,), r),
    {
        if Self::is_absolute(path.as_str()) {
            Ok(path)
        } else {
            canonicalize(path)
        }
    }

    /// What a relative path resolves to, given what the file system said of
    /// it: `lookup`, its canonical form or the error finding it; where that
    /// failed because the path does not exist yet, `parent`, the canonical
    /// form of its directory or the error finding it; and `name`, its file
    /// name, where it has one.  A path that exists is its canonical form; a
    /// file about to be created is its directory's canonical form joined
    /// with its name; otherwise the error stands.
    pub fn resolve_absolute(
        lookup: Result<String, Error>,
        parent: Option<Result<String, Error>>,
        name: Option<String>,
    ) -> (r: Result<String, Error>)
        ensures
            lookup is Ok ==> r == lookup,
            lookup is Err && (parent is None || name is None) ==> r == lookup,
            lookup is Err && name is Some && parent is Some && parent->Some_0 is Err ==> r == Err::<
                String,
                Error,
            >(parent->Some_0->Err_0),
            lookup is Err && name is Some && parent is Some && parent->Some_0 is Ok ==> r is Ok
                && r->Ok_0@ == joined_path(parent->Some_0->Ok_0@, name->Some_0@),
    {
        match lookup {
            Ok(p) => Ok(p),
            Err(e) => match (parent, name) {
                (Some(Ok(dir)), Some(n)) => Ok(join_path(dir, n.as_str())),
                (Some(Err(pe)), Some(_)) => Err(pe),
                _ => Err(e),
            },
        }
    }

    /// What the access check answers, given the expanded path, the outcome
    /// of resolving it to an absolute path, and whether the whitelist
    /// matched the absolute path: the resolution's error, else the expanded
    /// path if the whitelist matched, else a whitelist violation.
    pub fn access_outcome(expanded: String, absolute: Result<String, Error>, matched: bool) -> (r: Result<String, Error>)
        ensures
            absolute is Err ==> r == Err::<String, Error>(absolute->Err_0),
            absolute is Ok && matched ==> r == Ok::<String, Error>(expanded),
            absolute is Ok && !matched ==> r matches Err(Error::WhitelistViolation),
    {
        match absolute {
            Err(e) => Err(e),
            Ok(_) => if matched {
                Ok(expanded)
            } else {
                Err(Error::WhitelistViolation)
            },
        }
    }

    /// The check a file system tool makes before touching `path`: expand a
    /// leading tilde, resolve the result to an absolute path, and refuse it
    /// unless the whitelist matches the absolute path.  On success, the
    /// expanded path.  An absolute path with no tilde needs no resolution:
    /// it is accepted exactly when the whitelist matches it.  With a
    /// whitelist of no globs every path is refused.
    pub fn check_access<F: FnOnce(String) -> Result<String, Error>>(
        whitelist: &globset::GlobSet,
        path: &str,
        canonicalize: F,
    ) -> (r: Result<String, Error>)
        requires
            forall|p: String| #![auto] call_requires(canonicalize, (p,)),
        ensures
            exists|expanded: String, absolute: Result<String, Error>|
                #[trigger] access_resolution(path@, expanded, absolute, canonicalize)
                && r == access_answer(*whitelist, expanded, absolute),
            r is Ok ==> tilde_outcome(path@, r->Ok_0@),
            !tilde_expandable(path@) && is_absolute_path(path@) ==> {
                &&& glob_set_matches(*whitelist, path@) ==> r is Ok && r->Ok_0@ == path@
                &&& !glob_set_matches(*whitelist, path@) ==> r matches Err(Error::WhitelistViolation)
            },
            glob_set_globs(*whitelist).len() == 0 ==> r is Err,
    {
        let expanded = expand_tilde(path);
        let absolute = Self::get_absolute_path(expanded.clone(), canonicalize);
        let matched = match &absolute {
            Ok(a) => glob_set_is_match(whitelist, a.as_str()),
            Err(_) => false,
        };
        let r = Self::access_outcome(expanded, absolute, matched);
        assert(access_resolution(path@, expanded, absolute, canonicalize));
        r
    }
}

/// `dir` joined with the file name `name`, as `PathBuf::join` joins them: a
/// slash between the two unless `dir` is empty or already ends with one.
pub open spec fn joined_path(dir: Seq<char>, name: Seq<char>) -> Seq<char> {
    if dir.len() == 0 || dir.last() == '/' {
        dir + name
    } else {
        dir + seq!['/'] + name
    }
}

fn join_path(dir: String, name: &str) -> (r: String)
    ensures
        r@ == joined_path(dir@, name@),
{
    let n = dir.as_str().unicode_len();
    let mut r = dir;
    if n > 0 && r.as_str().get_char(n - 1) != '/' {
        r.append("/");
        proof {
            reveal_strlit("/");
            assert(r@ =~= dir@ + seq!['/']);
        }
    }
    r.append(name);
    r
}

/// How the access check resolves `path`: its tilde expanded to `expanded`,
/// which is its own absolute form where it is absolute, and otherwise
/// resolves to what `canonicalize` returns for it.
pub open spec fn access_resolution<F: FnOnce(String) -> Result<String, Error>>(
    path: Seq<char>,
    expanded: String,
    absolute: Result<String, Error>,
    canonicalize: F,
) -> bool {
    &&& tilde_outcome(path, expanded@)
    &&& is_absolute_path(expanded@) ==> absolute == Ok::<String, Error>(expanded)
    &&& !is_absolute_path(expanded@) ==> call_ensures(canonicalize, (expanded,), absolute)
}

/// What the access check answers, given the expanded path and its
/// resolution: the resolution's error, else the expanded path if the
/// whitelist matches the absolute path, else a whitelist violation.
pub open spec fn access_answer(
    whitelist: globset::GlobSet,
    expanded: String,
    absolute: Result<String, Error>,
) -> Result<String, Error> {
    match absolute {
        Err(e) => Err(e),
        Ok(a) => if glob_set_matches(whitelist, a@) {
            Ok(expanded)
        } else {
            Err(Error::WhitelistViolation)
        },
    }
}

} // verus!
