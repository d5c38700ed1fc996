//! Repository interrogation: locating the repository, resolving the branch
//! shown for HEAD, evaluating working-tree dirtiness, and computing the
//! divergence from the configured upstream.
//!
//! Every read of on-disk repository state goes through a trusted probe; each
//! probe hands back plain values, and a verified function with an exact
//! contract turns those values into the detector's result. Every failure
//! path collapses to a quiet default, never to a panic.

use vstd::prelude::*;
use crate::status::VcsInfo;

verus! {

#[verifier::external_type_specification]
#[verifier::external_body]
pub struct ExRepository(git2::Repository);

/// How HEAD resolved: to a reference with the given shorthand name, to a
/// branch that has no commits yet, or not at all.
pub enum HeadProbe {
    Named(String),
    Unborn,
    Unknown,
}

/// The branch name owed for each way HEAD can resolve: the shorthand itself,
/// the fixed fallback `master` for a repository with no commits yet, and an
/// empty name (branch display suppressed) for every other failure.
pub open spec fn branch_of(h: HeadProbe) -> Seq<char> {
    match h {
        HeadProbe::Named(name) => name@,
        HeadProbe::Unborn => "master"@,
        HeadProbe::Unknown => Seq::empty(),
    }
}

/// Relies on git2::Repository::head, git2::Reference::shorthand and
/// git2::Error::code: resolves the reference HEAD points at and hands back
/// its shorthand name, keeping the unborn-branch error (a repository with no
/// commits yet) apart from every other failure.
#[verifier::external_body]
fn probe_head(repo: &git2::Repository) -> (h: HeadProbe) {
    match repo.head() {
        Ok(head) => match head.shorthand() {
            Ok(name) => HeadProbe::Named(name.to_owned()),
            Err(_) => HeadProbe::Unknown,
        },
        Err(e) => {
            if e.code() == git2::ErrorCode::UnbornBranch {
                HeadProbe::Unborn
            } else {
                HeadProbe::Unknown
            }
        },
    }
}

/// Turn a HEAD probe into the branch name to display, exactly as `branch_of`
/// states.
pub fn branch_from_head(h: HeadProbe) -> (name: String)
    ensures
        name@ == branch_of(h),
{
    match h {
        HeadProbe::Named(name) => name,
        HeadProbe::Unborn => "master".to_owned(),
        HeadProbe::Unknown => String::new(),
    }
}

/// The branch name for the repository's current HEAD. What is owed for each
/// probe outcome is stated by `branch_from_head`; which outcome this
/// repository yields depends on its on-disk state alone.
pub fn branch_name(repo: &git2::Repository) -> (name: String) {
    branch_from_head(probe_head(repo))
}

/// The status bit git2 sets on ignored paths.
pub const STATUS_IGNORED: u32 = 0x4000;

/// A status-walk entry makes the tree dirty when it reports any change at
/// all (a clean entry reports no bits) and is not an ignored path.
pub open spec fn entry_is_dirty(bits: u32) -> bool {
    bits != 0 && bits & STATUS_IGNORED == 0
}

/// A working tree is dirty when at least one entry of its status walk is.
pub open spec fn any_dirty(entries: Seq<u32>) -> bool {
    exists|i: int| 0 <= i < entries.len() && entry_is_dirty(entries[i])
}

/// Relies on git2::Repository::statuses called with
/// git2::StatusOptions::include_untracked(true), git2::StatusEntry::status
/// and git2::Status::bits: walks the working tree (untracked files included)
/// and hands back the raw status bits of every reported path, or nothing
/// when the walk itself fails.
#[verifier::external_body]
fn probe_status_bits(repo: &git2::Repository) -> (r: Option<Vec<u32>>) {
    let mut opts = git2::StatusOptions::new();
    opts.include_untracked(true);
    match repo.statuses(Some(&mut opts)) {
        Ok(statuses) => {
            let mut bits: Vec<u32> = Vec::new();
            for entry in statuses.iter() {
                bits.push(entry.status().bits());
            }
            Some(bits)
        },
        Err(_) => None,
    }
}

/// Decide dirtiness from a status walk, exactly as `any_dirty` states.
pub fn dirty_from_entries(entries: &Vec<u32>) -> (dirty: bool)
    ensures
        dirty == any_dirty(entries@),
{
    let mut i: usize = 0;
    while i < entries.len()
        invariant
            0 <= i <= entries@.len(),
            forall|j: int| 0 <= j < i ==> !entry_is_dirty(entries@[j]),
        decreases entries@.len() - i,
    {
        let bits = entries[i];
        if bits != 0 && bits & STATUS_IGNORED == 0 {
            return true;
        }
        i = i + 1;
    }
    false
}

/// Decide dirtiness from the whole outcome of a status walk: dirty exactly
/// when the walk succeeded and reported a dirty entry. A failed walk (a
/// corrupted repository, say) resolves to not dirty — fail-open toward a
/// quieter prompt.
pub fn dirty_from_walk(walk: Option<Vec<u32>>) -> (dirty: bool)
    ensures
        dirty == (walk matches Some(entries) && any_dirty(entries@)),
{
    match walk {
        Some(entries) => dirty_from_entries(&entries),
        None => false,
    }
}

/// Whether the repository's working tree holds uncommitted or untracked
/// changes, ignored paths never counting. What is owed for every outcome of
/// the status walk, a failed one included, is stated by `dirty_from_walk`.
pub fn is_dirty(repo: &git2::Repository) -> (dirty: bool) {
    dirty_from_walk(probe_status_bits(repo))
}

/// The divergence owed for each probe of the commit graph: strictly positive
/// counts mean ahead of and behind the upstream, in that order, and a probe
/// that found no upstream (or no HEAD commit) means neither.
pub open spec fn divergence_of(counts: Option<(usize, usize)>) -> (bool, bool) {
    match counts {
        Some(c) => (c.0 > 0, c.1 > 0),
        None => (false, false),
    }
}

/// Relies on git2::Repository::revparse_single resolving `HEAD`,
/// git2::Object::id, git2::Repository::revparse_ext resolving `@{u}` (the
/// upstream configured for HEAD's branch) and
/// git2::Repository::graph_ahead_behind: counts the commits each side has
/// that the other lacks, or hands back nothing when HEAD or the upstream
/// cannot be resolved (no upstream configured, detached HEAD, or any other
/// resolution failure).
#[verifier::external_body]
fn probe_ahead_behind(repo: &git2::Repository) -> (r: Option<(usize, usize)>) {
    let head = match repo.revparse_single("HEAD") {
        Ok(obj) => obj.id(),
        Err(_) => return None,
    };
    match repo.revparse_ext("@{u}") {
        Ok((upstream, _)) => repo.graph_ahead_behind(head, upstream.id()).ok(),
        Err(_) => None,
    }
}

/// Decide the (ahead, behind) pair from the counted commits, exactly as
/// `divergence_of` states.
pub fn divergence_from_counts(counts: Option<(usize, usize)>) -> (r: (bool, bool))
    ensures
        r == divergence_of(counts),
{
    match counts {
        Some(c) => (c.0 > 0, c.1 > 0),
        None => (false, false),
    }
}

/// Whether HEAD is ahead of and behind its configured upstream, in that
/// order. What is owed for each count is stated by `divergence_from_counts`;
/// which counts this repository yields depends on its on-disk state alone.
pub fn is_ahead_behind_remote(repo: &git2::Repository) -> (r: (bool, bool)) {
    divergence_from_counts(probe_ahead_behind(repo))
}

/// Relies on git2::Repository::discover: searches the given directory and
/// its ancestors for a repository, handing back nothing when there is none
/// (which is not an error for the prompt).
#[verifier::external_body]
pub(crate) fn discover_repo(path: &str) -> (r: Option<git2::Repository>) {
    match git2::Repository::discover(path) {
        Ok(repo) => Some(repo),
        Err(_) => None,
    }
}

/// All three detectors over one located repository.
pub fn vcs_info(repo: &git2::Repository) -> (v: VcsInfo) {
    let (is_ahead, is_behind) = is_ahead_behind_remote(repo);
    VcsInfo {
        branch: branch_name(repo),
        is_dirty: is_dirty(repo),
        is_behind_remote: is_behind,
        is_ahead_of_remote: is_ahead,
    }
}

} // verus!
