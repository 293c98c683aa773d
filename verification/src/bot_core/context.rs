//! Shared state of the bot: its configuration and the per-user, per-command
//! cooldowns. Times are nanoseconds on a monotonic clock.
use crate::config::Config;
use crate::keyed::KeyedList;
use crate::text::owned;
use vstd::prelude::*;

verus! {

/// Nanoseconds in a second.
pub const NANOS_PER_SEC: u128 = 1_000_000_000;

/// After this many whole seconds a cooldown entry is forgotten.
pub const FORGET_AFTER_SECS: u128 = 3600;

/// The cooldown table as a map from (user id, command name) to the time of
/// the last successful use.
pub type CooldownMap = Map<(u64, Seq<char>), u128>;

/// The time from `last` to `now`; zero when the clock reads earlier than `last`.
pub open spec fn elapsed_since(last: u128, now: u128) -> u128 {
    if now >= last {
        (now - last) as u128
    } else {
        0
    }
}

/// What `check_cooldown` does: the bot owner has no cooldown; an entry older
/// than an hour (in whole seconds) is dropped and counts as none; otherwise
/// the time since the last use is returned. The result is the new table and
/// the elapsed time, if any.
pub open spec fn check_cooldown_spec(
    admin_user_id: Option<u64>,
    m: CooldownMap,
    user_id: u64,
    command: Seq<char>,
    now: u128,
) -> (CooldownMap, Option<u128>) {
    let k = (user_id, command);
    if admin_user_id == Some(user_id) {
        (m, None)
    } else if m.contains_key(k) {
        let e = elapsed_since(m[k], now);
        if e / NANOS_PER_SEC > FORGET_AFTER_SECS {
            (m.remove(k), None)
        } else {
            (m, Some(e))
        }
    } else {
        (m, None)
    }
}

/// What `get_cooldown_remaining` returns: the time left before `user_id` may
/// use `command` again, when there is any.
pub open spec fn remaining_spec(
    admin_user_id: Option<u64>,
    m: CooldownMap,
    user_id: u64,
    command: Seq<char>,
    cooldown: u128,
    now: u128,
) -> Option<u128> {
    match check_cooldown_spec(admin_user_id, m, user_id, command, now).1 {
        Some(e) => if e < cooldown {
            Some((cooldown - e) as u128)
        } else {
            None
        },
        None => None,
    }
}

/// The configuration and the cooldown table.
pub struct BotContext {
    pub config: Config,
    pub cooldowns: KeyedList<(u64, String), u128>,
}

impl BotContext {
    /// The cooldown table as a map.
    pub open spec fn cooldown_map(&self) -> CooldownMap {
        self.cooldowns.view_map()
    }

    /// A context with no cooldowns.
    pub fn new(config: Config) -> (r: Self)
        ensures
            r.config == config,
            r.cooldown_map() == Map::<(u64, Seq<char>), u128>::empty(),
    {
        BotContext { config, cooldowns: KeyedList::new() }
    }

    /// The time since `user_id` last used `command_name`, if it is still on
    /// record; the bot owner is never on record. An entry older than an hour
    /// is forgotten.
    pub fn check_cooldown(&mut self, user_id: u64, command_name: &str, now: u128) -> (r: Option<u128>)
        ensures
            final(self).config == old(self).config,
            (final(self).cooldown_map(), r) == check_cooldown_spec(
                old(self).config.admin_user_id,
                old(self).cooldown_map(),
                user_id,
                command_name@,
                now,
            ),
    {
        if self.config.is_admin(user_id) {
            return None;
        }
        let key = (user_id, owned(command_name));
        match self.cooldowns.get(&key) {
            Some(last_used) => {
                let elapsed = if now >= last_used {
                    now - last_used
                } else {
                    0
                };
                if elapsed / NANOS_PER_SEC > FORGET_AFTER_SECS {
                    self.cooldowns.remove(&key);
                    None
                } else {
                    Some(elapsed)
                }
            },
            None => None,
        }
    }

    /// Records that `user_id` used `command_name` at `now`.
    pub fn set_cooldown(&mut self, user_id: u64, command_name: &str, now: u128)
        ensures
            final(self).config == old(self).config,
            final(self).cooldown_map() == old(self).cooldown_map().insert(
                (user_id, command_name@),
                now,
            ),
    {
        let key = (user_id, owned(command_name));
        self.cooldowns.insert(key, now);
    }

    /// The time left before `user_id` may use `command_name` again, given its
    /// cooldown; `None` when it may use it now.
    pub fn get_cooldown_remaining(
        &mut self,
        user_id: u64,
        command_name: &str,
        cooldown_duration: u128,
        now: u128,
    ) -> (r: Option<u128>)
        ensures
            final(self).config == old(self).config,
            final(self).cooldown_map() == check_cooldown_spec(
                old(self).config.admin_user_id,
                old(self).cooldown_map(),
                user_id,
                command_name@,
                now,
            ).0,
            r == remaining_spec(
                old(self).config.admin_user_id,
                old(self).cooldown_map(),
                user_id,
                command_name@,
                cooldown_duration,
                now,
            ),
    {
        match self.check_cooldown(user_id, command_name, now) {
            Some(elapsed) => if elapsed < cooldown_duration {
                Some(cooldown_duration - elapsed)
            } else {
                None
            },
            None => None,
        }
    }
}

/// The bot owner is never on cooldown.
pub proof fn law_owner_has_no_cooldown(
    m: CooldownMap,
    user_id: u64,
    command: Seq<char>,
    cooldown: u128,
    now: u128,
)
    ensures
        remaining_spec(Some(user_id), m, user_id, command, cooldown, now) is None,
{
}

/// Right after a use at `t`, another user of the same command at `t2`
/// within the cooldown (and within the hour) must wait exactly the rest of
/// the cooldown.
pub proof fn law_cooldown_after_use(
    admin_user_id: Option<u64>,
    m: CooldownMap,
    user_id: u64,
    command: Seq<char>,
    cooldown: u128,
    t: u128,
    t2: u128,
)
    requires
        admin_user_id != Some(user_id),
        t <= t2,
        t2 - t < cooldown,
        ((t2 - t) as u128) / NANOS_PER_SEC <= FORGET_AFTER_SECS,
    ensures
        remaining_spec(admin_user_id, m.insert((user_id, command), t), user_id, command, cooldown, t2)
            == Some((cooldown - (t2 - t)) as u128),
{
}

/// Once the cooldown has passed since the last use, the command is free again.
pub proof fn law_cooldown_expires(
    admin_user_id: Option<u64>,
    m: CooldownMap,
    user_id: u64,
    command: Seq<char>,
    cooldown: u128,
    t: u128,
    t2: u128,
)
    requires
        t <= t2,
        t2 - t >= cooldown,
    ensures
        remaining_spec(admin_user_id, m.insert((user_id, command), t), user_id, command, cooldown, t2)
            is None,
{
}

/// A use of one command by one user leaves every other pair's cooldown as it
/// was.
pub proof fn law_cooldowns_independent(
    admin_user_id: Option<u64>,
    m: CooldownMap,
    user_id: u64,
    command: Seq<char>,
    other_user: u64,
    other_command: Seq<char>,
    cooldown: u128,
    t: u128,
    now: u128,
)
    requires
        (user_id, command) != (other_user, other_command),
    ensures
        remaining_spec(admin_user_id, m.insert((user_id, command), t), other_user, other_command, cooldown, now)
            == remaining_spec(admin_user_id, m, other_user, other_command, cooldown, now),
{
    assert(m.insert((user_id, command), t).contains_key((other_user, other_command)) == m.contains_key(
        (other_user, other_command),
    ));
}

} // verus!
