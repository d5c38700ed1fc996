//! The whole pipeline behind one prompt line: format the path, locate the
//! repository, run the three detectors, aggregate, render.
//!
//! The caller supplies what only the environment can give (the working
//! directory, the home directory, the shorten flag, the outcome of the
//! identity reads); everything after that is decided here.

use vstd::prelude::*;
use crate::identity::resolve_identity;
use crate::pathshow::{displayed, format_path, substituted_base};
use crate::repo::{discover_repo, vcs_info};
use crate::status::{PrePrompt, SshInfo, rendered};

verus! {

/// Whether a status record carries the given identity: the identity's fields
/// when one is present, empty fields when none is.
pub open spec fn carries_identity(p: PrePrompt, ssh: Option<SshInfo>) -> bool {
    match ssh {
        Some(s) => p.user_name == s.user && p.host == s.host,
        None => p.user_name@.len() == 0 && p.host@.len() == 0,
    }
}

/// Whether a status record carries the display form of the given working
/// directory: the home substitution applied where the home directory is a
/// valid pattern, the working directory itself where it is not, and the
/// whole shortened when asked for.
pub open spec fn carries_path(p: PrePrompt, cwd: Seq<char>, home: Seq<char>, shorten: bool) -> bool {
    p.path@ == displayed(substituted_base(home, cwd), shorten)
}

/// Build the status record for one invocation: the displayed path, the
/// version-control fields of the repository enclosing the working directory
/// (quiet defaults when there is none), and the given identity. Which
/// version-control fields come out depends on the repository's on-disk state
/// alone; the path and identity fields are pinned here.
pub fn build_status(cwd: &str, home_dir: &str, shorten: bool, ssh: Option<SshInfo>) -> (p:
    PrePrompt)
    ensures
        carries_path(p, cwd@, home_dir@, shorten),
        carries_identity(p, ssh),
{
    let path = format_path(cwd, home_dir, shorten);
    let vcs = match discover_repo(cwd) {
        Some(repo) => Some(vcs_info(&repo)),
        None => None,
    };
    PrePrompt::aggregate(path, vcs, ssh)
}

/// One prompt line: the rendering of a status record that carries the
/// displayed working directory and the given identity.
pub fn precmd_line(cwd: &str, home_dir: &str, shorten: bool, ssh: Option<SshInfo>) -> (line:
    String)
    ensures
        exists|p: PrePrompt|
            line@ == #[trigger] rendered(p) && carries_path(p, cwd@, home_dir@, shorten)
                && carries_identity(p, ssh),
{
    let p = build_status(cwd, home_dir, shorten, ssh);
    p.render()
}

/// Whether a status record carries the identity owed for the environment's
/// raw offerings: the user and host when a remote connection was detected and
/// every read succeeded, empty fields otherwise.
pub open spec fn carries_resolved_identity(
    p: PrePrompt,
    has_ssh_connection: bool,
    user: Option<String>,
    uid: Option<String>,
    host: Option<String>,
) -> bool {
    if has_ssh_connection && user is Some && uid is Some && host is Some {
        p.user_name == user->0 && p.host == host->0
    } else {
        p.user_name@.len() == 0 && p.host@.len() == 0
    }
}

/// One prompt line straight from the environment's raw offerings: the
/// identity rule applied to the four reads, then the pipeline.
pub fn precmd_line_from_env(
    cwd: &str,
    home_dir: &str,
    shorten: bool,
    has_ssh_connection: bool,
    user: Option<String>,
    uid: Option<String>,
    host: Option<String>,
) -> (line: String)
    ensures
        exists|p: PrePrompt|
            line@ == #[trigger] rendered(p) && carries_path(p, cwd@, home_dir@, shorten)
                && carries_resolved_identity(p, has_ssh_connection, user, uid, host),
{
    let ssh = resolve_identity(has_ssh_connection, user, uid, host);
    precmd_line(cwd, home_dir, shorten, ssh)
}

} // verus!
