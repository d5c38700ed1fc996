//! Display form of the working directory: the home directory replaced by
//! `~`, and every directory level but the last shortened to its leading
//! characters when asked for.

use vstd::prelude::*;

verus! {

/// Whether the home directory can serve as a pattern at all: whether
/// regex::Regex::new accepts it. A function of the home string alone.
pub uninterp spec fn home_pattern_ok(home: Seq<char>) -> bool;

/// What the home substitution yields for a home directory and a path: the
/// first match of the home directory, read as a pattern, replaced by `~`.
pub uninterp spec fn home_subst(home: Seq<char>, path: Seq<char>) -> Seq<char>;

/// Relies on regex::Regex::new and regex::Regex::replace: builds a pattern
/// from the home directory and replaces its first match in the path with
/// `~`. Whether compilation succeeds depends on the home directory alone,
/// and the replacement is a function of the two strings alone; nothing
/// comes back when the home directory is not a valid pattern.
#[verifier::external_body]
fn replace_home(cwd: &str, home_dir: &str) -> (r: Option<String>)
    ensures
        (r is Some) == home_pattern_ok(home_dir@),
        r matches Some(s) ==> s@ == home_subst(home_dir@, cwd@),
{
    match regex::Regex::new(home_dir) {
        Ok(re) => Some(re.replace(cwd, "~").into_owned()),
        Err(_) => None,
    }
}

/// What path shortening yields: every `/`-separated level but the last kept
/// only up to its leading characters. The result is a function of the path
/// alone.
pub uninterp spec fn shortened(path: Seq<char>) -> Seq<char>;

/// Relies on tico::tico with no home directory of its own (the home
/// substitution has already been applied): shortens every directory level of
/// the path but the last.
#[verifier::external_body]
fn shorten_path(path: &str) -> (r: String)
    ensures
        r@ == shortened(path@),
{
    tico::tico(path, None)
}

/// The display form of a base path: shortened when asked for, kept whole
/// otherwise.
pub open spec fn displayed(base: Seq<char>, shorten: bool) -> Seq<char> {
    if shorten {
        shortened(base)
    } else {
        base
    }
}

/// The base the display starts from: the home substitution applied when the
/// home directory is a valid pattern, the working directory as it came when
/// it is not.
pub open spec fn substituted_base(home: Seq<char>, cwd: Seq<char>) -> Seq<char> {
    if home_pattern_ok(home) {
        home_subst(home, cwd)
    } else {
        cwd
    }
}

/// The display form of the working directory: the home substitution applied,
/// then shortened when asked for. When the home directory cannot serve as a
/// pattern, the substitution is skipped and the working directory itself is
/// the base.
pub fn format_path(cwd: &str, home_dir: &str, shorten: bool) -> (r: String)
    ensures
        r@ == displayed(substituted_base(home_dir@, cwd@), shorten),
{
    let base = match replace_home(cwd, home_dir) {
        Some(s) => s,
        None => cwd.to_owned(),
    };
    if shorten {
        shorten_path(base.as_str())
    } else {
        base
    }
}

} // verus!
