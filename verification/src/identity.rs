//! Remote-session identity: deciding, from what the environment offered,
//! whether a `user@host` segment is owed and whether the user is root.
//!
//! Reading the environment and the host-identity file is the caller's work;
//! this module only takes the outcome of each read and applies the
//! all-or-nothing rule: a failure of any one read yields no identity at all.

use vstd::prelude::*;
use crate::status::SshInfo;

verus! {

/// Resolve the optional remote identity. An identity exists exactly when a
/// remote connection was detected and the user, the user id and the host
/// name were all readable; the user is root exactly when the user id reads
/// `0`.
pub fn resolve_identity(
    has_ssh_connection: bool,
    user: Option<String>,
    uid: Option<String>,
    host: Option<String>,
) -> (r: Option<SshInfo>)
    ensures
        (r is Some) == (has_ssh_connection && user is Some && uid is Some && host is Some),
        r matches Some(info) ==> {
            &&& info.user == user->0
            &&& info.host == host->0
            &&& info.is_root == (uid->0@ == "0"@)
        },
{
    match (user, uid, host) {
        (Some(user), Some(uid), Some(host)) => {
            if has_ssh_connection {
                let zero: String = "0".to_owned();
                let is_root = uid == zero;
                Some(SshInfo { user, is_root, host })
            } else {
                None
            }
        },
        _ => None,
    }
}

} // verus!
