//! Laws of the status line, stated and proved over the same spec functions
//! the executable contracts use.

use vstd::prelude::*;
use crate::repo::{any_dirty, entry_is_dirty, divergence_of};
use crate::status::{PrePrompt, identity_segment, rendered, vcs_segment};

verus! {

/// Rendering is a pure function of the status record: equal records render
/// to equal lines, whatever else happened between the two renderings.
pub proof fn lemma_render_pure(a: PrePrompt, b: PrePrompt)
    requires
        a == b,
    ensures
        rendered(a) == rendered(b),
{
}

/// A record with no branch renders no version-control segment at all: the
/// line is the path and the identity segment, with no stray space or marker,
/// whatever the dirty and divergence flags hold.
pub proof fn lemma_no_branch_no_vcs_segment(p: PrePrompt)
    requires
        p.vcs_branch@.len() == 0,
    ensures
        rendered(p) == p.path@ + identity_segment(p),
        vcs_segment(p) == Seq::<char>::empty(),
{
    assert(rendered(p) =~= p.path@ + identity_segment(p));
}

/// A record with nothing but a path renders as exactly that path.
pub proof fn lemma_path_only(p: PrePrompt)
    requires
        p.vcs_branch@.len() == 0,
        p.user_name@.len() == 0 || p.host@.len() == 0,
    ensures
        rendered(p) == p.path@,
{
    assert(rendered(p) =~= p.path@);
}

/// The fixed order of a full line: path, branch, dirty marker, behind
/// marker, ahead marker, identity.
pub proof fn lemma_render_order(p: PrePrompt)
    requires
        p.vcs_branch@.len() > 0,
        p.vcs_is_dirty,
        p.vcs_is_behind_remote,
        p.vcs_is_ahead_of_remote,
        p.user_name@.len() > 0,
        p.host@.len() > 0,
    ensures
        rendered(p) == p.path@ + " "@ + p.vcs_branch@ + "*"@ + "⭭"@ + "⭫"@ + " "@ + p.user_name@
            + "@"@ + p.host@,
{
    assert(rendered(p) =~= p.path@ + " "@ + p.vcs_branch@ + "*"@ + "⭭"@ + "⭫"@ + " "@
        + p.user_name@ + "@"@ + p.host@);
}

/// One more status-walk entry that is dirty (an untracked, non-ignored path,
/// say) makes the tree dirty.
pub proof fn lemma_dirty_entry_dirties(entries: Seq<u32>, bits: u32)
    requires
        entry_is_dirty(bits),
    ensures
        any_dirty(entries.push(bits)),
{
    assert(entries.push(bits)[entries.len() as int] == bits);
}

/// A walk in which every entry is clean or ignored leaves the tree clean; in
/// particular, taking the one dirty entry back out restores a clean tree.
pub proof fn lemma_clean_walk_not_dirty(entries: Seq<u32>)
    requires
        forall|i: int| 0 <= i < entries.len() ==> !entry_is_dirty(#[trigger] entries[i]),
    ensures
        !any_dirty(entries),
{
}

/// With no upstream to count against, there is no divergence.
pub proof fn lemma_no_upstream_no_divergence()
    ensures
        divergence_of(None::<(usize, usize)>) == (false, false),
{
}

/// Divergence follows the counted commits: behind exactly when the upstream
/// has commits HEAD lacks, ahead exactly when HEAD has commits the upstream
/// lacks, both together when both counts are positive.
pub proof fn lemma_divergence_follows_counts(ahead: usize, behind: usize)
    ensures
        divergence_of(Some((ahead, behind))) == (ahead > 0, behind > 0),
{
}

} // verus!
