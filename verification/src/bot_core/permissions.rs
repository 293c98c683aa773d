//! Permission hierarchy: bot owner above server admin above member.
use core::cmp::Ordering;
use vstd::prelude::*;
use vstd::std_specs::cmp::PartialOrdSpecImpl;

verus! {

/// How much a user may do: `Owner` (the bot owner, in every server) is
/// above `Admin` (the server's owner or a user with the Administrator
/// permission), which is above `Member`.
#[derive(Debug, Clone, Copy, PartialEq, Eq, Structural, Ord)]
pub enum PermissionLevel {
    Member,
    Admin,
    Owner,
}

impl PermissionLevel {
    /// The place of a level in the hierarchy: 0 for members, 2 for the owner.
    pub open spec fn rank(self) -> int {
        match self {
            PermissionLevel::Member => 0,
            PermissionLevel::Admin => 1,
            PermissionLevel::Owner => 2,
        }
    }

    /// The place of this level in the hierarchy.
    pub fn rank_of(&self) -> (r: u8)
        ensures
            r as int == self.rank(),
    {
        match self {
            PermissionLevel::Member => 0,
            PermissionLevel::Admin => 1,
            PermissionLevel::Owner => 2,
        }
    }
}

/// How two levels compare in the hierarchy.
pub open spec fn level_order(a: PermissionLevel, b: PermissionLevel) -> Ordering {
    if a.rank() < b.rank() {
        Ordering::Less
    } else if a.rank() == b.rank() {
        Ordering::Equal
    } else {
        Ordering::Greater
    }
}

impl PartialOrd for PermissionLevel {
    fn partial_cmp(&self, other: &Self) -> (r: Option<Ordering>) {
        let a = self.rank_of();
        let b = other.rank_of();
        if a < b {
            Some(Ordering::Less)
        } else if a == b {
            Some(Ordering::Equal)
        } else {
            Some(Ordering::Greater)
        }
    }
}

impl PartialOrdSpecImpl for PermissionLevel {
    open spec fn obeys_partial_cmp_spec() -> bool {
        true
    }

    open spec fn partial_cmp_spec(&self, other: &Self) -> Option<Ordering> {
        Some(level_order(*self, *other))
    }
}

/// Whether a user at `user_level` may do what needs `required`: the user's
/// level is at least the required one.
pub open spec fn permits(user_level: PermissionLevel, required: PermissionLevel) -> bool {
    user_level.rank() >= required.rank()
}

/// The level of `user_id` in a server: the bot owner (`bot_owner_id`) is
/// `Owner` everywhere; the server's owner or a holder of the Administrator
/// permission is `Admin`; everyone else is `Member`.
pub open spec fn permission_level_spec(
    bot_owner_id: Option<u64>,
    guild_owner_id: u64,
    user_id: u64,
    has_administrator: bool,
) -> PermissionLevel {
    if bot_owner_id == Some(user_id) {
        PermissionLevel::Owner
    } else if guild_owner_id == user_id || has_administrator {
        PermissionLevel::Admin
    } else {
        PermissionLevel::Member
    }
}

/// The permission level of `user_id` in a server whose owner is
/// `guild_owner_id`, given the configured bot owner.
pub fn get_permission_level(
    bot_owner_id: Option<u64>,
    guild_owner_id: u64,
    user_id: u64,
    has_administrator: bool,
) -> (r: PermissionLevel)
    ensures
        r == permission_level_spec(bot_owner_id, guild_owner_id, user_id, has_administrator),
{
    let is_bot_owner = match bot_owner_id {
        Some(o) => o == user_id,
        None => false,
    };
    if is_bot_owner {
        return PermissionLevel::Owner;
    }
    if guild_owner_id == user_id || has_administrator {
        return PermissionLevel::Admin;
    }
    PermissionLevel::Member
}

/// Whether `user_level` is at least `required` (owner > admin > member).
pub fn has_permission(user_level: PermissionLevel, required: PermissionLevel) -> (r: bool)
    ensures
        r == permits(user_level, required),
{
    user_level.rank_of() >= required.rank_of()
}

/// How a required level is named to users.
pub open spec fn permission_name(required: PermissionLevel) -> Seq<char> {
    match required {
        PermissionLevel::Owner => "bot owner"@,
        PermissionLevel::Admin => "server admin"@,
        PermissionLevel::Member => "member"@,
    }
}

/// The name of a required level, as shown to users.
pub fn required_permission_message(required: PermissionLevel) -> (r: &'static str)
    ensures
        r@ == permission_name(required),
{
    match required {
        PermissionLevel::Owner => "bot owner",
        PermissionLevel::Admin => "server admin",
        PermissionLevel::Member => "member",
    }
}

/// `has_permission` is a total preorder: every level permits itself, the
/// relation is transitive, and of any two levels one permits the other.
pub proof fn law_permission_order(a: PermissionLevel, b: PermissionLevel, c: PermissionLevel)
    ensures
        permits(a, a),
        permits(a, b) && permits(b, c) ==> permits(a, c),
        permits(a, b) || permits(b, a),
        permits(a, b) && permits(b, a) ==> a == b,
{
}

/// The owner may do everything, and a member only what members may do.
pub proof fn law_owner_top_member_bottom(a: PermissionLevel)
    ensures
        permits(PermissionLevel::Owner, a),
        permits(a, PermissionLevel::Member),
        permits(PermissionLevel::Member, a) <==> a == PermissionLevel::Member,
{
}

/// The bot owner is `Owner` in every server; a server's owner or
/// administrator is at least `Admin`.
pub proof fn law_level_of_owners(
    bot_owner_id: Option<u64>,
    guild_owner_id: u64,
    user_id: u64,
    has_administrator: bool,
)
    ensures
        bot_owner_id == Some(user_id) ==> permission_level_spec(
            bot_owner_id,
            guild_owner_id,
            user_id,
            has_administrator,
        ) == PermissionLevel::Owner,
        guild_owner_id == user_id || has_administrator ==> permits(
            permission_level_spec(bot_owner_id, guild_owner_id, user_id, has_administrator),
            PermissionLevel::Admin,
        ),
{
}

/// A user who is neither the bot owner, nor the server's owner, nor a holder
/// of the Administrator permission is a plain `Member`, whichever bot owner
/// is configured, and so may do nothing that needs `Admin` or `Owner`; and
/// only the bot owner is ever `Owner`.
pub proof fn law_plain_user_is_member(
    bot_owner_id: Option<u64>,
    guild_owner_id: u64,
    user_id: u64,
    has_administrator: bool,
)
    ensures
        bot_owner_id != Some(user_id) && guild_owner_id != user_id && !has_administrator ==> {
            &&& permission_level_spec(bot_owner_id, guild_owner_id, user_id, has_administrator)
                == PermissionLevel::Member
            &&& !permits(
                permission_level_spec(bot_owner_id, guild_owner_id, user_id, has_administrator),
                PermissionLevel::Admin,
            )
        },
        permission_level_spec(bot_owner_id, guild_owner_id, user_id, has_administrator)
            == PermissionLevel::Owner <==> bot_owner_id == Some(user_id),
        bot_owner_id != Some(user_id) && (guild_owner_id == user_id || has_administrator)
            ==> permission_level_spec(bot_owner_id, guild_owner_id, user_id, has_administrator)
            == PermissionLevel::Admin,
{
}

} // verus!
