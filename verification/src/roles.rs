//! Role rules. A user acts only on roles ranked strictly below their own
//! highest role, the built-in roles cannot be edited or deleted, nobody
//! loses `@everyone`, and the hub always keeps an owner.

use vstd::prelude::*;

use crate::text::str_eq;

verus! {

/// Id of the built-in Owner role.
pub const OWNER_ROLE: &'static str = "builtin-owner";

/// Id of the built-in `@everyone` role.
pub const EVERYONE_ROLE: &'static str = "builtin-everyone";

/// A role with its permissions.
#[derive(Clone, Debug)]
pub struct RoleResponse {
    pub id: String,
    pub name: String,
    pub permissions: Vec<String>,
    pub priority: i64,
    pub display_separately: bool,
    pub created_at: i64,
}

/// Create-role request.
#[derive(Clone, Debug)]
pub struct CreateRoleRequest {
    pub name: String,
    pub permissions: Vec<String>,
    pub priority: i64,
    pub display_separately: bool,
}

/// Update-role request; absent fields stay as they are.
#[derive(Clone, Debug)]
pub struct UpdateRoleRequest {
    pub name: Option<String>,
    pub permissions: Option<Vec<String>>,
    pub priority: Option<i64>,
    pub display_separately: Option<bool>,
}

/// Why a role request was refused.
#[derive(Clone, Copy, Debug, PartialEq, Eq, Structural)]
pub enum RoleRejection {
    /// The built-in roles cannot be changed or deleted.
    BuiltinRole,
    /// The user lacks the manage-roles permission.
    Forbidden,
    /// The role ranks at or above the user's own highest role.
    PriorityTooHigh,
    /// No such role.
    NotFound,
    /// `@everyone` cannot be taken from anyone.
    CannotRemoveEveryone,
    /// The last owner cannot lose the Owner role.
    LastOwner,
}

impl RoleRejection {
    /// The HTTP status of the rejection.
    pub fn status(&self) -> (res: u16)
        ensures
            res == match self {
                RoleRejection::NotFound => 404u16,
                _ => 403u16,
            },
    {
        match self {
            RoleRejection::NotFound => 404,
            _ => 403,
        }
    }
}

/// Whether a role id names a built-in role.
pub open spec fn is_builtin_spec(role_id: Seq<char>) -> bool {
    role_id == OWNER_ROLE@ || role_id == EVERYONE_ROLE@
}

/// Refuses the built-in roles.
pub fn require_not_builtin(role_id: &str) -> (res: Result<(), RoleRejection>)
    ensures
        res == if is_builtin_spec(role_id@) { Err(RoleRejection::BuiltinRole) } else { Ok::<(), RoleRejection>(()) },
{
    if str_eq(role_id, OWNER_ROLE) || str_eq(role_id, EVERYONE_ROLE) {
        Err(RoleRejection::BuiltinRole)
    } else {
        Ok(())
    }
}

/// The rank check on an existing role: it must exist and rank strictly
/// below `my_max`, the user's highest role priority.
pub open spec fn existing_role_check(my_max: i64, existing_priority: Option<i64>) -> Result<(), RoleRejection> {
    match existing_priority {
        None => Err(RoleRejection::NotFound),
        Some(p) => if p >= my_max { Err(RoleRejection::PriorityTooHigh) } else { Ok(()) },
    }
}

fn check_existing(my_max: i64, existing_priority: Option<i64>) -> (res: Result<(), RoleRejection>)
    ensures
        res == existing_role_check(my_max, existing_priority),
{
    match existing_priority {
        None => Err(RoleRejection::NotFound),
        Some(p) => if p >= my_max {
            Err(RoleRejection::PriorityTooHigh)
        } else {
            Ok(())
        },
    }
}

/// Creating a role: the permission, and a priority below the user's own.
pub open spec fn create_role_spec(can_manage: bool, my_max: i64, priority: i64) -> Result<(), RoleRejection> {
    if !can_manage {
        Err(RoleRejection::Forbidden)
    } else if priority >= my_max {
        Err(RoleRejection::PriorityTooHigh)
    } else {
        Ok(())
    }
}

/// Checks a role creation.
pub fn check_create_role(can_manage: bool, my_max: i64, priority: i64) -> (res: Result<(), RoleRejection>)
    ensures
        res == create_role_spec(can_manage, my_max, priority),
{
    if !can_manage {
        Err(RoleRejection::Forbidden)
    } else if priority >= my_max {
        Err(RoleRejection::PriorityTooHigh)
    } else {
        Ok(())
    }
}

/// Updating a role: not a built-in one, the permission, an existing role
/// below the user's rank, and a new priority (if any) below it too.
pub open spec fn update_role_spec(role_id: Seq<char>, can_manage: bool, my_max: i64, existing_priority: Option<i64>, new_priority: Option<i64>) -> Result<(), RoleRejection> {
    if is_builtin_spec(role_id) {
        Err(RoleRejection::BuiltinRole)
    } else if !can_manage {
        Err(RoleRejection::Forbidden)
    } else if (existing_role_check(my_max, existing_priority) is Err) {
        existing_role_check(my_max, existing_priority)
    } else if (new_priority matches Some(p) && p >= my_max) {
        Err(RoleRejection::PriorityTooHigh)
    } else {
        Ok(())
    }
}

/// Checks a role update.
pub fn check_update_role(role_id: &str, can_manage: bool, my_max: i64, existing_priority: Option<i64>, new_priority: Option<i64>) -> (res: Result<(), RoleRejection>)
    ensures
        res == update_role_spec(role_id@, can_manage, my_max, existing_priority, new_priority),
{
    if let Err(e) = require_not_builtin(role_id) {
        return Err(e);
    }
    if !can_manage {
        return Err(RoleRejection::Forbidden);
    }
    if let Err(e) = check_existing(my_max, existing_priority) {
        return Err(e);
    }
    match new_priority {
        Some(p) => if p >= my_max {
            Err(RoleRejection::PriorityTooHigh)
        } else {
            Ok(())
        },
        None => Ok(()),
    }
}

/// Deleting a role: not a built-in one, the permission, and an existing
/// role below the user's rank.
pub open spec fn delete_role_spec(role_id: Seq<char>, can_manage: bool, my_max: i64, existing_priority: Option<i64>) -> Result<(), RoleRejection> {
    if is_builtin_spec(role_id) {
        Err(RoleRejection::BuiltinRole)
    } else if !can_manage {
        Err(RoleRejection::Forbidden)
    } else {
        existing_role_check(my_max, existing_priority)
    }
}

/// Checks a role deletion.
pub fn check_delete_role(role_id: &str, can_manage: bool, my_max: i64, existing_priority: Option<i64>) -> (res: Result<(), RoleRejection>)
    ensures
        res == delete_role_spec(role_id@, can_manage, my_max, existing_priority),
{
    if let Err(e) = require_not_builtin(role_id) {
        return Err(e);
    }
    if !can_manage {
        return Err(RoleRejection::Forbidden);
    }
    check_existing(my_max, existing_priority)
}

/// Assigning a role: the permission and an existing role below the
/// user's rank.
pub open spec fn assign_role_spec(can_manage: bool, my_max: i64, existing_priority: Option<i64>) -> Result<(), RoleRejection> {
    if !can_manage {
        Err(RoleRejection::Forbidden)
    } else {
        existing_role_check(my_max, existing_priority)
    }
}

/// Checks a role assignment.
pub fn check_assign_role(can_manage: bool, my_max: i64, existing_priority: Option<i64>) -> (res: Result<(), RoleRejection>)
    ensures
        res == assign_role_spec(can_manage, my_max, existing_priority),
{
    if !can_manage {
        return Err(RoleRejection::Forbidden);
    }
    check_existing(my_max, existing_priority)
}

/// Taking a role from a user: never `@everyone`; the permission, an
/// existing role below the user's rank, and for the Owner role at least
/// two owners before the removal.
pub open spec fn remove_role_spec(role_id: Seq<char>, can_manage: bool, my_max: i64, existing_priority: Option<i64>, owner_count: i64) -> Result<(), RoleRejection> {
    if role_id == EVERYONE_ROLE@ {
        Err(RoleRejection::CannotRemoveEveryone)
    } else if !can_manage {
        Err(RoleRejection::Forbidden)
    } else if (existing_role_check(my_max, existing_priority) is Err) {
        existing_role_check(my_max, existing_priority)
    } else if role_id == OWNER_ROLE@ && owner_count <= 1 {
        Err(RoleRejection::LastOwner)
    } else {
        Ok(())
    }
}

/// Checks taking a role from a user.
pub fn check_remove_role(role_id: &str, can_manage: bool, my_max: i64, existing_priority: Option<i64>, owner_count: i64) -> (res: Result<(), RoleRejection>)
    ensures
        res == remove_role_spec(role_id@, can_manage, my_max, existing_priority, owner_count),
{
    if str_eq(role_id, EVERYONE_ROLE) {
        return Err(RoleRejection::CannotRemoveEveryone);
    }
    if !can_manage {
        return Err(RoleRejection::Forbidden);
    }
    if let Err(e) = check_existing(my_max, existing_priority) {
        return Err(e);
    }
    if str_eq(role_id, OWNER_ROLE) && owner_count <= 1 {
        return Err(RoleRejection::LastOwner);
    }
    Ok(())
}

/// The stored form of a boolean flag.
pub fn stored_flag(flag: bool) -> (res: i64)
    ensures
        res == if flag { 1i64 } else { 0i64 },
{
    if flag {
        1
    } else {
        0
    }
}

/// A role as listed, from its stored row and its permissions; the stored
/// flag reads as set when it is not 0.
pub fn role_response(
    id: String,
    name: String,
    priority: i64,
    display_separately_flag: i64,
    created_at: i64,
    permissions: Vec<String>,
) -> (res: RoleResponse)
    ensures
        res.id == id,
        res.name == name,
        res.priority == priority,
        res.display_separately == (display_separately_flag != 0),
        res.created_at == created_at,
        res.permissions == permissions,
{
    RoleResponse { id, name, permissions, priority, display_separately: display_separately_flag != 0, created_at }
}

/// The rank rule: whatever a user creates, changes, deletes, hands out or
/// takes away ranks strictly below their own highest role.
pub proof fn law_rank_rule(
    role_id: Seq<char>,
    can_manage: bool,
    my_max: i64,
    existing: Option<i64>,
    new_priority: Option<i64>,
    priority: i64,
    owner_count: i64,
)
    ensures
        create_role_spec(can_manage, my_max, priority) is Ok ==> can_manage && priority < my_max,
        update_role_spec(role_id, can_manage, my_max, existing, new_priority) is Ok ==> {
            &&& can_manage
            &&& existing matches Some(p) && p < my_max
            &&& new_priority matches Some(q) ==> q < my_max
        },
        delete_role_spec(role_id, can_manage, my_max, existing) is Ok ==> can_manage && (existing matches Some(p) && p < my_max),
        assign_role_spec(can_manage, my_max, existing) is Ok ==> can_manage && (existing matches Some(p) && p < my_max),
        remove_role_spec(role_id, can_manage, my_max, existing, owner_count) is Ok ==> can_manage && (existing matches Some(p) && p < my_max),
{
}

/// The built-in roles can be neither changed nor deleted, by anyone.
pub proof fn law_builtin_roles_are_fixed(
    role_id: Seq<char>,
    can_manage: bool,
    my_max: i64,
    existing: Option<i64>,
    new_priority: Option<i64>,
)
    requires
        role_id == OWNER_ROLE@ || role_id == EVERYONE_ROLE@,
    ensures
        update_role_spec(role_id, can_manage, my_max, existing, new_priority) == Err::<(), RoleRejection>(RoleRejection::BuiltinRole),
        delete_role_spec(role_id, can_manage, my_max, existing) == Err::<(), RoleRejection>(RoleRejection::BuiltinRole),
{
}

/// Nobody loses `@everyone`, and the hub's last owner keeps the Owner role.
pub proof fn law_everyone_and_last_owner_stay(can_manage: bool, my_max: i64, existing: Option<i64>, owner_count: i64)
    ensures
        remove_role_spec(EVERYONE_ROLE@, can_manage, my_max, existing, owner_count) == Err::<(), RoleRejection>(RoleRejection::CannotRemoveEveryone),
        owner_count <= 1 ==> remove_role_spec(OWNER_ROLE@, can_manage, my_max, existing, owner_count) is Err,
{
    reveal_strlit("builtin-owner");
    reveal_strlit("builtin-everyone");
    assert(OWNER_ROLE@ == "builtin-owner"@);
    assert(EVERYONE_ROLE@ == "builtin-everyone"@);
    assert(OWNER_ROLE@.len() != EVERYONE_ROLE@.len());
}

/// Taking a role away succeeds for a manager who outranks it, unless it is
/// `@everyone` or the hub's last Owner role: the owner count matters for
/// the Owner role alone, and no other removal ever fails as the last owner.
pub proof fn law_removal_allowed(
    role_id: Seq<char>,
    can_manage: bool,
    my_max: i64,
    existing: Option<i64>,
    owner_count: i64,
    other_owner_count: i64,
)
    ensures
        role_id != EVERYONE_ROLE@ && can_manage && (existing matches Some(p) && p < my_max)
            && !(role_id == OWNER_ROLE@ && owner_count <= 1) ==> remove_role_spec(role_id, can_manage, my_max, existing, owner_count) is Ok,
        role_id != OWNER_ROLE@ ==> remove_role_spec(role_id, can_manage, my_max, existing, owner_count)
            == remove_role_spec(role_id, can_manage, my_max, existing, other_owner_count),
        role_id != OWNER_ROLE@ ==> remove_role_spec(role_id, can_manage, my_max, existing, owner_count)
            != Err::<(), RoleRejection>(RoleRejection::LastOwner),
{
}

/// A manager may act on any role ranked below their own highest role:
/// create it, change it (to a rank still below theirs), delete it and hand
/// it out, the built-in roles aside for changes and deletion. Without the
/// permission every such request is refused as forbidden, and a role that
/// does not exist is reported as not found.
pub proof fn law_manager_below_rank_may_act(
    role_id: Seq<char>,
    my_max: i64,
    p: i64,
    new_priority: Option<i64>,
    owner_count: i64,
)
    requires
        p < my_max,
    ensures
        create_role_spec(true, my_max, p) is Ok,
        !is_builtin_spec(role_id) && (new_priority matches Some(q) ==> q < my_max) ==> update_role_spec(role_id, true, my_max, Some(p), new_priority) is Ok,
        !is_builtin_spec(role_id) ==> delete_role_spec(role_id, true, my_max, Some(p)) is Ok,
        assign_role_spec(true, my_max, Some(p)) is Ok,
        create_role_spec(false, my_max, p) == Err::<(), RoleRejection>(RoleRejection::Forbidden),
        !is_builtin_spec(role_id) ==> update_role_spec(role_id, false, my_max, Some(p), new_priority) == Err::<(), RoleRejection>(RoleRejection::Forbidden),
        !is_builtin_spec(role_id) ==> delete_role_spec(role_id, false, my_max, Some(p)) == Err::<(), RoleRejection>(RoleRejection::Forbidden),
        assign_role_spec(false, my_max, Some(p)) == Err::<(), RoleRejection>(RoleRejection::Forbidden),
        role_id != EVERYONE_ROLE@ ==> remove_role_spec(role_id, false, my_max, Some(p), owner_count) == Err::<(), RoleRejection>(RoleRejection::Forbidden),
        assign_role_spec(true, my_max, None) == Err::<(), RoleRejection>(RoleRejection::NotFound),
        role_id != EVERYONE_ROLE@ ==> remove_role_spec(role_id, true, my_max, None, owner_count) == Err::<(), RoleRejection>(RoleRejection::NotFound),
{
}

} // verus!
