//! Who may change a channel's translation settings, and who may manage the server.
//!
//! A permission is resolved from values alone: the user, the platform's
//! word on the member, the users configured as administrators, and the
//! roles that the registry lists for a permission.

use vstd::prelude::*;
use crate::delivery::is_listed;
use crate::number::{bounded_value, parse_u64};
use crate::text::lowercase;

verus! {

/// What a role can be allowed to do.
#[derive(Clone, Copy, Debug, PartialEq, Eq, Structural)]
pub enum PermissionKind {
    /// Change the translation mode of channels.
    Mode,
    /// Manage every setting.
    Admin,
}

/// What the platform says about the member who issued a command.
#[derive(Clone, Debug)]
pub struct Member {
    /// The member's roles.
    pub roles: Vec<u64>,
    /// Whether the member may manage channels.
    pub manage_channels: bool,
    /// Whether the member administers the server.
    pub administrator: bool,
}

/// The permission that a name stands for, if it names one.
pub open spec fn permission_named(name: Seq<char>) -> Option<PermissionKind> {
    if name == "mode"@ {
        Some(PermissionKind::Mode)
    } else if name == "admin"@ {
        Some(PermissionKind::Admin)
    } else {
        None
    }
}

/// Whether one grant of the registry admits a member with the given roles.
/// A grant is the word `everyone`, which admits anybody, or the identifier
/// of a role in decimal.
pub open spec fn grant_admits(grant: Seq<char>, roles: Option<Seq<u64>>) -> bool {
    ||| grant == "everyone"@
    ||| (roles matches Some(held) && bounded_value(grant, u64::MAX as nat) matches Some(id)
        && held.contains(id as u64))
}

/// Whether one of the grants admits a member with the given roles.
pub open spec fn grants_admit(grants: Seq<Seq<char>>, roles: Option<Seq<u64>>) -> bool {
    exists|i: int| 0 <= i < grants.len() && grant_admits(#[trigger] grants[i], roles)
}

/// Whether the grants that could be read admit a member with the given roles.
pub open spec fn readable_grants_admit(grants: Option<Seq<Seq<char>>>, roles: Option<Seq<u64>>)
    -> bool {
    grants matches Some(g) && grants_admit(g, roles)
}

/// The roles of a member, if the platform knows the member.
pub open spec fn roles_of(member: Option<Member>) -> Option<Seq<u64>> {
    match member {
        Some(m) => Some(m.roles@),
        None => None,
    }
}

/// Whether `user` may change translation settings.
///
/// A configured administrator may, and so may a member who may manage
/// channels, a member admitted by a grant of the permission, and a member
/// admitted by a grant of the administrator's permission. Grants that could
/// not be read admit nobody.
pub open spec fn translation_permitted(
    user: Seq<char>,
    global_admins: Seq<Seq<char>>,
    member: Option<Member>,
    grants: Option<Seq<Seq<char>>>,
    admin_grants: Option<Seq<Seq<char>>>,
) -> bool {
    ||| global_admins.contains(user)
    ||| (member matches Some(m) && m.manage_channels)
    ||| readable_grants_admit(grants, roles_of(member))
    ||| readable_grants_admit(admin_grants, roles_of(member))
}

/// Whether `user` may manage the server's settings.
pub open spec fn admin_permitted(
    user: Seq<char>,
    global_admins: Seq<Seq<char>>,
    member: Option<Member>,
    admin_grants: Option<Seq<Seq<char>>>,
) -> bool {
    ||| global_admins.contains(user)
    ||| (member matches Some(m) && m.administrator)
    ||| readable_grants_admit(admin_grants, roles_of(member))
}

/// The optional list of strings as plain values.
pub open spec fn optional_strings(list: Option<&Vec<String>>) -> Option<Seq<Seq<char>>> {
    match list {
        Some(l) => Some(l.deep_view()),
        None => None,
    }
}

impl PermissionKind {
    /// The name of the permission.
    pub open spec fn name(self) -> Seq<char> {
        match self {
            PermissionKind::Mode => "mode"@,
            PermissionKind::Admin => "admin"@,
        }
    }

    /// What the permission allows, in words.
    pub open spec fn meaning(self) -> Seq<char> {
        match self {
            PermissionKind::Mode => "change translation modes"@,
            PermissionKind::Admin => "manage all Fabrica settings"@,
        }
    }

    /// Reads what a user typed as a permission, in any letter case.
    pub fn parse(input: &str) -> (kind: Option<PermissionKind>)
        ensures
            kind == permission_named(lowercase(input@)),
    {
        let lower = input.to_lowercase();
        if lower.as_str().eq("mode") {
            Some(PermissionKind::Mode)
        } else if lower.as_str().eq("admin") {
            Some(PermissionKind::Admin)
        } else {
            None
        }
    }

    /// The name of the permission.
    pub fn as_str(&self) -> (name: &'static str)
        ensures
            name@ == self.name(),
    {
        match self {
            PermissionKind::Mode => "mode",
            PermissionKind::Admin => "admin",
        }
    }

    /// What the permission allows, in words.
    pub fn describe(&self) -> (text: &'static str)
        ensures
            text@ == self.meaning(),
    {
        match self {
            PermissionKind::Mode => "change translation modes",
            PermissionKind::Admin => "manage all Fabrica settings",
        }
    }
}

/// Whether `role` is one of `roles`.
pub fn holds_role(roles: &Vec<u64>, role: u64) -> (b: bool)
    ensures
        b == roles@.contains(role),
{
    let mut i: usize = 0;
    while i < roles.len()
        invariant
            i <= roles.len(),
            forall|k: int| 0 <= k < i ==> roles@[k] != role,
        decreases roles.len() - i,
    {
        if roles[i] == role {
            return true;
        }
        i += 1;
    }
    false
}

/// Whether one grant admits the member.
pub fn admits(grant: &str, member: Option<&Member>) -> (b: bool)
    ensures
        b == grant_admits(
            grant@,
            match member {
                Some(m) => Some(m.roles@),
                None => None,
            },
        ),
{
    if grant.eq("everyone") {
        return true;
    }
    match member {
        Some(m) => match parse_u64(grant) {
            Some(id) => holds_role(&m.roles, id),
            None => false,
        },
        None => false,
    }
}

/// Whether one of the grants admits the member.
pub fn any_admits(grants: &Vec<String>, member: Option<&Member>) -> (b: bool)
    ensures
        b == grants_admit(
            grants.deep_view(),
            match member {
                Some(m) => Some(m.roles@),
                None => None,
            },
        ),
{
    let ghost roles = match member {
        Some(m) => Some(m.roles@),
        None => None,
    };
    let mut i: usize = 0;
    while i < grants.len()
        invariant
            i <= grants.len(),
            roles == match member {
                Some(m) => Some(m.roles@),
                None => None,
            },
            forall|k: int| 0 <= k < i ==> !grant_admits(#[trigger] grants.deep_view()[k], roles),
        decreases grants.len() - i,
    {
        if admits(grants[i].as_str(), member) {
            assert(grant_admits(grants.deep_view()[i as int], roles));
            return true;
        }
        i += 1;
    }
    false
}

/// Decides whether `user` may change translation settings. `grants` are the
/// roles that the registry lists for the permission and `admin_grants` those
/// it lists for the administrator's permission, each none where the
/// registry could not be read.
pub fn has_translation_permission(
    user: &str,
    global_admins: &Vec<String>,
    member: Option<&Member>,
    grants: Option<&Vec<String>>,
    admin_grants: Option<&Vec<String>>,
) -> (permitted: bool)
    ensures
        permitted == translation_permitted(
            user@,
            global_admins.deep_view(),
            match member {
                Some(m) => Some(*m),
                None => None,
            },
            optional_strings(grants),
            optional_strings(admin_grants),
        ),
{
    if is_listed(global_admins, user) {
        return true;
    }
    match member {
        Some(m) => {
            if m.manage_channels {
                return true;
            }
        },
        None => {},
    }
    match grants {
        Some(g) => {
            if any_admits(g, member) {
                return true;
            }
        },
        None => {},
    }
    match admin_grants {
        Some(g) => any_admits(g, member),
        None => false,
    }
}

/// Decides whether `user` may manage the server's settings.
pub fn has_admin_permission(
    user: &str,
    global_admins: &Vec<String>,
    member: Option<&Member>,
    admin_grants: Option<&Vec<String>>,
) -> (permitted: bool)
    ensures
        permitted == admin_permitted(
            user@,
            global_admins.deep_view(),
            match member {
                Some(m) => Some(*m),
                None => None,
            },
            optional_strings(admin_grants),
        ),
{
    if is_listed(global_admins, user) {
        return true;
    }
    match member {
        Some(m) => {
            if m.administrator {
                return true;
            }
        },
        None => {},
    }
    match admin_grants {
        Some(g) => any_admits(g, member),
        None => false,
    }
}

/// Whether `user` is one of the configured administrators.
pub fn is_global_admin(user: &str, global_admins: &Vec<String>) -> (b: bool)
    ensures
        b == global_admins.deep_view().contains(user@),
{
    is_listed(global_admins, user)
}

} // verus!
