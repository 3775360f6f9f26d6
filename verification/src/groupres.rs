//! Peer uid to `maknae`-group membership, fail-closed. The account and group
//! database lookups are the caller's; which of them make a member is decided
//! here.
use crate::decimal::{decimal, push_decimal};
use vstd::prelude::*;

verus! {

/// The name of the group whose members may connect.
pub const MAKNAE_GROUP: &'static str = "maknae";

/// A lookup that could not be completed.
#[derive(Debug, Clone, PartialEq, Eq)]
pub enum AuthzError {
    Resolve(String),
}

/// Membership and the peer's account name, which stands whatever the
/// membership answer is.
#[derive(Debug, Clone, PartialEq, Eq)]
pub struct Membership {
    pub in_group: bool,
    pub user: String,
}

/// The peer's account: its name and primary group.
#[derive(Debug, Clone, PartialEq, Eq)]
pub struct UserEntry {
    pub name: String,
    pub gid: u32,
}

/// The `maknae` group: its gid and its explicitly listed members.
#[derive(Debug, Clone, PartialEq, Eq)]
pub struct GroupEntry {
    pub gid: u32,
    pub members: Vec<String>,
}

/// The peer's supplementary groups, where the platform can list them.
#[derive(Debug, Clone, PartialEq, Eq)]
pub enum SupplementaryGroups {
    /// Not asked: the platform has no such lookup, or membership was already
    /// settled.
    NotConsulted,
    /// The lookup failed.
    Failed,
    /// The gids the account belongs to.
    Listed(Vec<u32>),
}

/// The account is listed by name among the group's members.
pub open spec fn explicitly_listed(user: UserEntry, group: GroupEntry) -> bool {
    exists|i: int| 0 <= i < group.members@.len() && #[trigger] group.members@[i]@ == user.name@
}

/// Membership: the group resolved, and the account is listed in it, has it
/// as its primary group, or has it among its listed supplementary groups. An
/// unresolved group or a failed lookup is not membership.
pub open spec fn is_member(user: UserEntry, group: Option<GroupEntry>, supplementary: SupplementaryGroups) -> bool {
    match group {
        None => false,
        Some(g) => {
            ||| explicitly_listed(user, g)
            ||| user.gid == g.gid
            ||| supplementary matches SupplementaryGroups::Listed(gids) && gids@.contains(g.gid)
        },
    }
}

fn listed(user: &UserEntry, group: &GroupEntry) -> (r: bool)
    ensures
        r == explicitly_listed(*user, *group),
{
    let mut i: usize = 0;
    while i < group.members.len()
        invariant
            0 <= i <= group.members@.len(),
            forall|j: int| 0 <= j < i ==> group.members@[j]@ != user.name@,
        decreases group.members@.len() - i,
    {
        if group.members[i] == user.name {
            return true;
        }
        i = i + 1;
    }
    false
}

/// Whether the supplementary groups still have to be listed: the group
/// resolved and neither the member list nor the primary group settled it.
pub fn needs_supplementary(user: &UserEntry, group: Option<&GroupEntry>) -> (r: bool)
    ensures
        r == (group matches Some(g) && !explicitly_listed(*user, *g) && user.gid != g.gid),
{
    match group {
        None => false,
        Some(g) => !listed(user, g) && user.gid != g.gid,
    }
}

/// The membership answer for a resolved account.
pub fn membership(user: &UserEntry, group: Option<&GroupEntry>, supplementary: &SupplementaryGroups) -> (m: Membership)
    ensures
        m.user@ == user.name@,
        m.in_group == is_member(*user, match group {
            Some(g) => Some(*g),
            None => None,
        }, *supplementary),
{
    let in_group = match group {
        None => false,
        Some(g) => {
            if listed(user, g) || user.gid == g.gid {
                true
            } else {
                match supplementary {
                    SupplementaryGroups::Listed(gids) => {
                        let mut found = false;
                        let mut i: usize = 0;
                        while i < gids.len()
                            invariant
                                0 <= i <= gids@.len(),
                                found <==> exists|j: int| 0 <= j < i && gids@[j] == g.gid,
                            decreases gids@.len() - i,
                        {
                            if gids[i] == g.gid {
                                found = true;
                            }
                            i = i + 1;
                        }
                        found
                    },
                    _ => false,
                }
            }
        },
    };
    Membership { in_group, user: user.name.clone() }
}

/// The refusal for a uid that names no account.
pub open spec fn no_user_message(uid: u32) -> Seq<char> {
    "no user for uid "@ + decimal(uid as nat)
}

/// A uid that names no account is an error, never a nameless non-member.
pub fn no_user(uid: u32) -> (e: AuthzError)
    ensures
        e matches AuthzError::Resolve(m) && m@ == no_user_message(uid),
{
    let mut m = String::from_str("no user for uid ");
    push_decimal(&mut m, uid as u64);
    AuthzError::Resolve(m)
}

/// The refusal when the group itself does not resolve.
pub fn no_group() -> (e: AuthzError)
    ensures
        e matches AuthzError::Resolve(m) && m@ == "no `maknae` group"@,
{
    AuthzError::Resolve(String::from_str("no `maknae` group"))
}

} // verus!
