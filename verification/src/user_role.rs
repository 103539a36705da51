//! User-role administration: exposing the predefined role registry and
//! deciding role updates and deletions.  The registry rows and the user's
//! stored roles are handed in as plain values; the store reads and writes
//! around these decisions are the caller's.

use vstd::prelude::*;
use crate::errors::UserErrors;

verus! {

/// One predefined role: its permission mask and what may be done with it.
#[derive(Clone, Copy, Debug, PartialEq, Eq, Structural)]
pub struct RoleInfo {
    pub role_id: u64,
    pub role_name: u64,
    pub permissions: u64,
    /// Whether the role is listed to users at all.
    pub exposed: bool,
    /// Whether users may be moved onto this role.
    pub updatable: bool,
    /// Whether a user holding this role may be deleted.
    pub deletable: bool,
}

/// What the role-listing endpoints return for one role.
#[derive(Clone, Copy, Debug, PartialEq, Eq, Structural)]
pub struct RoleInfoResponse {
    pub role_id: u64,
    pub role_name: u64,
    pub permissions: u64,
}

/// One module of the authorization-info catalogue.
#[derive(Clone, Copy, Debug, PartialEq, Eq, Structural)]
pub struct AuthModule {
    pub module: u64,
    pub description: u64,
    pub exposed: bool,
}

/// One stored user-role row: which role a user holds at a merchant.
#[derive(Clone, Copy, Debug, PartialEq, Eq, Structural)]
pub struct UserRoleRecord {
    pub merchant_id: u64,
    pub role_id: u64,
}

/// The role update to commit: who moves to which role, recorded with the
/// administrator who made the change.
#[derive(Clone, Copy, Debug, PartialEq, Eq, Structural)]
pub struct UserRoleUpdatePlan {
    pub user_id: u64,
    pub merchant_id: u64,
    pub role_id: u64,
    pub modified_by: u64,
}

/// The deletion to commit: the role row always goes; the user record goes
/// too when this was their last role.
#[derive(Clone, Copy, Debug, PartialEq, Eq, Structural)]
pub struct DeleteUserRolePlan {
    pub user_id: u64,
    pub merchant_id: u64,
    pub delete_user: bool,
}

// ---------------------------------------------------------------------------
// Registry lookups
// ---------------------------------------------------------------------------

pub open spec fn roles_unique(s: Seq<RoleInfo>) -> bool {
    forall|i: int, j: int|
        0 <= i < s.len() && 0 <= j < s.len() && i != j ==> s[i].role_id != s[j].role_id
}

pub open spec fn has_role(s: Seq<RoleInfo>, role_id: u64) -> bool {
    exists|i: int| 0 <= i < s.len() && s[i].role_id == role_id
}

pub open spec fn the_role(s: Seq<RoleInfo>, role_id: u64) -> RoleInfo {
    choose|ri: RoleInfo| s.contains(ri) && ri.role_id == role_id
}

pub proof fn lemma_the_role(s: Seq<RoleInfo>, role_id: u64, i: int)
    requires
        roles_unique(s),
        0 <= i < s.len(),
        s[i].role_id == role_id,
    ensures
        has_role(s, role_id),
        the_role(s, role_id) == s[i],
{
    assert(s.contains(s[i]));
    let ri = the_role(s, role_id);
    assert(s.contains(ri) && ri.role_id == role_id);
    let j: int = choose|j: int| 0 <= j < s.len() && s[j] == ri;
    assert(0 <= j < s.len() && s[j] == ri);
    assert(j == i);
}

fn find_role_idx(v: &Vec<RoleInfo>, role_id: u64) -> (r: Option<usize>)
    ensures
        match r {
            Some(i) => i < v@.len() && v@[i as int].role_id == role_id,
            None => !has_role(v@, role_id),
        },
{
    let mut i: usize = 0;
    while i < v.len()
        invariant
            i <= v@.len(),
            forall|j: int| 0 <= j < i ==> v@[j].role_id != role_id,
        decreases v@.len() - i,
    {
        if v[i].role_id == role_id {
            return Some(i);
        }
        i = i + 1;
    }
    None
}

/// A user holds at most one role per merchant.
pub open spec fn user_roles_merchant_unique(s: Seq<UserRoleRecord>) -> bool {
    forall|i: int, j: int|
        0 <= i < s.len() && 0 <= j < s.len() && i != j ==> s[i].merchant_id != s[j].merchant_id
}

pub open spec fn has_user_role(s: Seq<UserRoleRecord>, merchant_id: u64) -> bool {
    exists|i: int| 0 <= i < s.len() && s[i].merchant_id == merchant_id
}

pub open spec fn the_user_role(s: Seq<UserRoleRecord>, merchant_id: u64) -> UserRoleRecord {
    choose|ur: UserRoleRecord| s.contains(ur) && ur.merchant_id == merchant_id
}

pub proof fn lemma_the_user_role(s: Seq<UserRoleRecord>, merchant_id: u64, i: int)
    requires
        user_roles_merchant_unique(s),
        0 <= i < s.len(),
        s[i].merchant_id == merchant_id,
    ensures
        has_user_role(s, merchant_id),
        the_user_role(s, merchant_id) == s[i],
{
    assert(s.contains(s[i]));
    let ur = the_user_role(s, merchant_id);
    assert(s.contains(ur) && ur.merchant_id == merchant_id);
    let j: int = choose|j: int| 0 <= j < s.len() && s[j] == ur;
    assert(0 <= j < s.len() && s[j] == ur);
    assert(j == i);
}

fn find_user_role_idx(v: &Vec<UserRoleRecord>, merchant_id: u64) -> (r: Option<usize>)
    ensures
        match r {
            Some(i) => i < v@.len() && v@[i as int].merchant_id == merchant_id,
            None => !has_user_role(v@, merchant_id),
        },
{
    let mut i: usize = 0;
    while i < v.len()
        invariant
            i <= v@.len(),
            forall|j: int| 0 <= j < i ==> v@[j].merchant_id != merchant_id,
        decreases v@.len() - i,
    {
        if v[i].merchant_id == merchant_id {
            return Some(i);
        }
        i = i + 1;
    }
    None
}

// ---------------------------------------------------------------------------
// The flows
// ---------------------------------------------------------------------------

/// The modules of the authorization catalogue that are exposed to users,
/// in catalogue order.
pub open spec fn spec_exposed_modules(s: Seq<AuthModule>) -> Seq<AuthModule>
    decreases s.len(),
{
    if s.len() == 0 {
        Seq::empty()
    } else {
        let rest = spec_exposed_modules(s.drop_last());
        if s.last().exposed {
            rest.push(s.last())
        } else {
            rest
        }
    }
}

/// Lists the exposed modules of the authorization catalogue.
pub fn get_authorization_info(modules: &Vec<AuthModule>) -> (r: Vec<AuthModule>)
    ensures
        r@ == spec_exposed_modules(modules@),
{
    let mut out: Vec<AuthModule> = Vec::new();
    let mut i: usize = 0;
    while i < modules.len()
        invariant
            i <= modules@.len(),
            out@ == spec_exposed_modules(modules@.take(i as int)),
        decreases modules@.len() - i,
    {
        proof {
            assert(modules@.take(i as int + 1).drop_last() =~= modules@.take(i as int));
            assert(modules@.take(i as int + 1).last() == modules@[i as int]);
        }
        if modules[i].exposed {
            out.push(modules[i]);
        }
        i = i + 1;
    }
    proof {
        assert(modules@.take(modules@.len() as int) =~= modules@);
    }
    out
}

/// The listing of one role.
pub open spec fn spec_role_response(ri: RoleInfo) -> RoleInfoResponse {
    RoleInfoResponse { role_id: ri.role_id, role_name: ri.role_name, permissions: ri.permissions }
}

/// The role listing: one response per exposed role, in registry order.
pub open spec fn spec_role_listing(s: Seq<RoleInfo>) -> Seq<RoleInfoResponse>
    decreases s.len(),
{
    if s.len() == 0 {
        Seq::empty()
    } else {
        let rest = spec_role_listing(s.drop_last());
        if s.last().exposed {
            rest.push(spec_role_response(s.last()))
        } else {
            rest
        }
    }
}

/// Lists the exposed roles of the registry.
pub fn list_roles(registry: &Vec<RoleInfo>) -> (r: Vec<RoleInfoResponse>)
    ensures
        r@ == spec_role_listing(registry@),
{
    let mut out: Vec<RoleInfoResponse> = Vec::new();
    let mut i: usize = 0;
    while i < registry.len()
        invariant
            i <= registry@.len(),
            out@ == spec_role_listing(registry@.take(i as int)),
        decreases registry@.len() - i,
    {
        proof {
            assert(registry@.take(i as int + 1).drop_last() =~= registry@.take(i as int));
            assert(registry@.take(i as int + 1).last() == registry@[i as int]);
        }
        if registry[i].exposed {
            out.push(
                RoleInfoResponse {
                    role_id: registry[i].role_id,
                    role_name: registry[i].role_name,
                    permissions: registry[i].permissions,
                },
            );
        }
        i = i + 1;
    }
    proof {
        assert(registry@.take(registry@.len() as int) =~= registry@);
    }
    out
}

/// One role's listing, by identifier: an unknown or unexposed role is an
/// invalid role id.
pub open spec fn spec_get_role(s: Seq<RoleInfo>, role_id: u64) -> Result<RoleInfoResponse, UserErrors> {
    if has_role(s, role_id) && the_role(s, role_id).exposed {
        Ok(spec_role_response(the_role(s, role_id)))
    } else {
        Err(UserErrors::InvalidRoleId)
    }
}

/// Exec mirror of [`spec_get_role`].
pub fn get_role(registry: &Vec<RoleInfo>, role_id: u64) -> (r: Result<RoleInfoResponse, UserErrors>)
    requires
        roles_unique(registry@),
    ensures
        r == spec_get_role(registry@, role_id),
{
    match find_role_idx(registry, role_id) {
        None => Err(UserErrors::InvalidRoleId),
        Some(i) => {
            proof {
                lemma_the_role(registry@, role_id, i as int);
            }
            if registry[i].exposed {
                Ok(
                    RoleInfoResponse {
                        role_id: registry[i].role_id,
                        role_name: registry[i].role_name,
                        permissions: registry[i].permissions,
                    },
                )
            } else {
                Err(UserErrors::InvalidRoleId)
            }
        },
    }
}

/// The role-update decision: the target role must be a known, updatable
/// role, and an administrator may not change their own role.
pub open spec fn spec_update_user_role(s: Seq<RoleInfo>, token_user_id: u64, token_merchant_id: u64, req_user_id: u64, req_role_id: u64) -> Result<UserRoleUpdatePlan, UserErrors> {
    if !(has_role(s, req_role_id) && the_role(s, req_role_id).updatable) {
        Err(UserErrors::InvalidRoleId)
    } else if token_user_id == req_user_id {
        Err(UserErrors::InvalidRoleOperation)
    } else {
        Ok(
            UserRoleUpdatePlan {
                user_id: req_user_id,
                merchant_id: token_merchant_id,
                role_id: req_role_id,
                modified_by: token_user_id,
            },
        )
    }
}

/// Exec mirror of [`spec_update_user_role`]; committing the returned plan
/// is the caller's store write.
pub fn update_user_role(registry: &Vec<RoleInfo>, token_user_id: u64, token_merchant_id: u64, req_user_id: u64, req_role_id: u64) -> (r: Result<UserRoleUpdatePlan, UserErrors>)
    requires
        roles_unique(registry@),
    ensures
        r == spec_update_user_role(registry@, token_user_id, token_merchant_id, req_user_id, req_role_id),
{
    let ok = match find_role_idx(registry, req_role_id) {
        Some(i) => {
            proof {
                lemma_the_role(registry@, req_role_id, i as int);
            }
            registry[i].updatable
        },
        None => false,
    };
    if !ok {
        Err(UserErrors::InvalidRoleId)
    } else if token_user_id == req_user_id {
        Err(UserErrors::InvalidRoleOperation)
    } else {
        Ok(
            UserRoleUpdatePlan {
                user_id: req_user_id,
                merchant_id: token_merchant_id,
                role_id: req_role_id,
                modified_by: token_user_id,
            },
        )
    }
}

/// The role-deletion decision: a user may not delete themselves, must
/// hold a role at the administrator's merchant, and that role must be
/// deletable; the user record itself goes when this was their last role.
pub open spec fn spec_delete_user_role(s: Seq<RoleInfo>, token_user_id: u64, token_merchant_id: u64, target_user_id: u64, roles: Seq<UserRoleRecord>) -> Result<DeleteUserRolePlan, UserErrors> {
    if target_user_id == token_user_id {
        Err(UserErrors::InvalidDeleteOperation)
    } else if !has_user_role(roles, token_merchant_id) {
        Err(UserErrors::InvalidDeleteOperation)
    } else {
        let ur = the_user_role(roles, token_merchant_id);
        if !(has_role(s, ur.role_id) && the_role(s, ur.role_id).deletable) {
            Err(UserErrors::InvalidDeleteOperation)
        } else {
            Ok(
                DeleteUserRolePlan {
                    user_id: target_user_id,
                    merchant_id: token_merchant_id,
                    delete_user: roles.len() <= 1,
                },
            )
        }
    }
}

/// Exec mirror of [`spec_delete_user_role`]; committing the returned plan
/// (deleting the role row, and the user when it was their last role) is
/// the caller's store write.
pub fn delete_user_role(registry: &Vec<RoleInfo>, token_user_id: u64, token_merchant_id: u64, target_user_id: u64, roles: &Vec<UserRoleRecord>) -> (r: Result<DeleteUserRolePlan, UserErrors>)
    requires
        roles_unique(registry@),
        user_roles_merchant_unique(roles@),
    ensures
        r == spec_delete_user_role(registry@, token_user_id, token_merchant_id, target_user_id, roles@),
{
    if target_user_id == token_user_id {
        return Err(UserErrors::InvalidDeleteOperation);
    }
    let ur = match find_user_role_idx(roles, token_merchant_id) {
        None => {
            return Err(UserErrors::InvalidDeleteOperation);
        },
        Some(i) => {
            proof {
                lemma_the_user_role(roles@, token_merchant_id, i as int);
            }
            roles[i]
        },
    };
    let deletable = match find_role_idx(registry, ur.role_id) {
        Some(i) => {
            proof {
                lemma_the_role(registry@, ur.role_id, i as int);
            }
            registry[i].deletable
        },
        None => false,
    };
    if !deletable {
        Err(UserErrors::InvalidDeleteOperation)
    } else {
        Ok(
            DeleteUserRolePlan {
                user_id: target_user_id,
                merchant_id: token_merchant_id,
                delete_user: roles.len() <= 1,
            },
        )
    }
}

} // verus!
