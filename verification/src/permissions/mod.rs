//! Permission hierarchy within one server: the server's owner above holders
//! of the Administrator permission, above members.
pub use crate::bot_core::permissions::PermissionLevel;
use crate::bot_core::permissions::permits;
use vstd::prelude::*;

verus! {

/// The level of `user_id` in a server whose owner is `owner_id`: the owner is
/// `Owner`, a holder of the Administrator permission `Admin`, anyone else
/// `Member`.
pub open spec fn server_level_spec(owner_id: u64, user_id: u64, has_administrator: bool) -> PermissionLevel {
    if owner_id == user_id {
        PermissionLevel::Owner
    } else if has_administrator {
        PermissionLevel::Admin
    } else {
        PermissionLevel::Member
    }
}

/// The permission level of `user_id` in a server whose owner is `owner_id`.
pub fn get_permission_level(owner_id: u64, user_id: u64, has_administrator: bool) -> (r:
    PermissionLevel)
    ensures
        r == server_level_spec(owner_id, user_id, has_administrator),
{
    if owner_id == user_id {
        return PermissionLevel::Owner;
    }
    if has_administrator {
        return PermissionLevel::Admin;
    }
    PermissionLevel::Member
}

/// Whether `user_level` is at least `required` (owner > admin > member).
pub fn has_permission(user_level: PermissionLevel, required: PermissionLevel) -> (r: bool)
    ensures
        r == permits(user_level, required),
{
    crate::bot_core::permissions::has_permission(user_level, required)
}

} // verus!
