//! The aggregate status record and its renderer.
//!
//! A `PrePrompt` is built once per invocation, never mutated afterwards, and
//! rendered to exactly one line: the path always, then a branch segment when
//! a branch name is known (with dirty and divergence markers attached in a
//! fixed order), then `user@host` when a remote identity is known.

use vstd::prelude::*;
use vstd::string::StringExecFns;

verus! {

/// State of the working tree relative to its repository: the branch shown
/// for HEAD (empty when nothing usable could be resolved), whether the tree
/// holds uncommitted or untracked changes, and whether HEAD has diverged
/// from its configured upstream.
pub struct VcsInfo {
    pub branch: String,
    pub is_dirty: bool,
    pub is_behind_remote: bool,
    pub is_ahead_of_remote: bool,
}

/// Identity of a remote session: the effective user, whether that user is
/// root, and the host's own name.
pub struct SshInfo {
    pub user: String,
    pub is_root: bool,
    pub host: String,
}

/// The one-line status record, immutable once aggregated.
pub struct PrePrompt {
    pub path: String,
    pub user_name: String,
    pub host: String,
    pub vcs_branch: String,
    pub vcs_is_dirty: bool,
    pub vcs_is_behind_remote: bool,
    pub vcs_is_ahead_of_remote: bool,
}

/// The version-control segment of the rendered line: nothing when no branch
/// is known; otherwise a space, the branch name, and the dirty, behind and
/// ahead markers in that order, each attached without a space.
pub open spec fn vcs_segment(p: PrePrompt) -> Seq<char> {
    if p.vcs_branch@.len() == 0 {
        Seq::empty()
    } else {
        " "@ + p.vcs_branch@ + (if p.vcs_is_dirty {
            "*"@
        } else {
            Seq::<char>::empty()
        }) + (if p.vcs_is_behind_remote {
            "⭭"@
        } else {
            Seq::<char>::empty()
        }) + (if p.vcs_is_ahead_of_remote {
            "⭫"@
        } else {
            Seq::<char>::empty()
        })
    }
}

/// The identity segment of the rendered line: a space and `user@host` when
/// both are known, nothing otherwise.
pub open spec fn identity_segment(p: PrePrompt) -> Seq<char> {
    if p.user_name@.len() > 0 && p.host@.len() > 0 {
        " "@ + p.user_name@ + "@"@ + p.host@
    } else {
        Seq::empty()
    }
}

/// The whole rendered line: the path, then the version-control segment, then
/// the identity segment.
pub open spec fn rendered(p: PrePrompt) -> Seq<char> {
    p.path@ + vcs_segment(p) + identity_segment(p)
}

impl PrePrompt {
    /// An empty record: the state before anything has been resolved, and the
    /// state kept for every field whose resolution failed.
    pub fn new() -> (p: PrePrompt)
        ensures
            p.path@ == Seq::<char>::empty(),
            p.user_name@ == Seq::<char>::empty(),
            p.host@ == Seq::<char>::empty(),
            p.vcs_branch@ == Seq::<char>::empty(),
            !p.vcs_is_dirty,
            !p.vcs_is_behind_remote,
            !p.vcs_is_ahead_of_remote,
    {
        PrePrompt {
            path: String::new(),
            user_name: String::new(),
            host: String::new(),
            vcs_branch: String::new(),
            vcs_is_dirty: false,
            vcs_is_behind_remote: false,
            vcs_is_ahead_of_remote: false,
        }
    }

    /// Compose a status record from the path and the two optional detection
    /// results; an absent result leaves its fields at their quiet defaults.
    pub fn aggregate(path: String, vcs: Option<VcsInfo>, ssh: Option<SshInfo>) -> (p: PrePrompt)
        ensures
            p.path == path,
            vcs matches Some(v) ==> {
                &&& p.vcs_branch == v.branch
                &&& p.vcs_is_dirty == v.is_dirty
                &&& p.vcs_is_behind_remote == v.is_behind_remote
                &&& p.vcs_is_ahead_of_remote == v.is_ahead_of_remote
            },
            vcs is None ==> {
                &&& p.vcs_branch@ == Seq::<char>::empty()
                &&& !p.vcs_is_dirty
                &&& !p.vcs_is_behind_remote
                &&& !p.vcs_is_ahead_of_remote
            },
            ssh matches Some(s) ==> p.user_name == s.user && p.host == s.host,
            ssh is None ==> p.user_name@ == Seq::<char>::empty() && p.host@ == Seq::<char>::empty(),
    {
        let mut p = PrePrompt::new();
        p.path = path;
        match vcs {
            Some(v) => {
                p.vcs_branch = v.branch;
                p.vcs_is_dirty = v.is_dirty;
                p.vcs_is_behind_remote = v.is_behind_remote;
                p.vcs_is_ahead_of_remote = v.is_ahead_of_remote;
            },
            None => {},
        }
        match ssh {
            Some(s) => {
                p.user_name = s.user;
                p.host = s.host;
            },
            None => {},
        }
        p
    }

    /// Render the record to its one line, exactly as `rendered` states.
    pub fn render(&self) -> (out: String)
        ensures
            out@ == rendered(*self),
    {
        let mut out = String::new();
        out.append(self.path.as_str());
        if !self.vcs_branch.as_str().is_empty() {
            out.append(" ");
            out.append(self.vcs_branch.as_str());
            if self.vcs_is_dirty {
                out.append("*");
            }
            if self.vcs_is_behind_remote {
                out.append("⭭");
            }
            if self.vcs_is_ahead_of_remote {
                out.append("⭫");
            }
        }
        if !self.user_name.as_str().is_empty() && !self.host.as_str().is_empty() {
            out.append(" ");
            out.append(self.user_name.as_str());
            out.append("@");
            out.append(self.host.as_str());
        }
        assert(out@ =~= rendered(*self));
        out
    }
}

} // verus!
