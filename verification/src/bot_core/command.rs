//! What the bot knows of a command besides how to run it: its name, prefix,
//! aliases, cooldown, required level, version and subcommands.
use crate::bot_core::permissions::PermissionLevel;
use crate::text::{eq_ignore_ascii_case, eq_ignore_ascii_case_spec};
use vstd::prelude::*;

verus! {

/// A subcommand: its name, a description and the aliases it answers to.
#[derive(Clone, Copy, Debug)]
pub struct SubCommandInfo {
    pub name: &'static str,
    pub description: &'static str,
    pub aliases: &'static [&'static str],
}

/// Everything about a command that help texts show.
#[derive(Clone, Debug)]
pub struct CommandInfo {
    pub name: String,
    pub description: String,
    pub prefix: Option<String>,
    pub aliases: Vec<String>,
    pub cooldown_secs: u64,
    pub required_permission: Option<PermissionLevel>,
    pub version: String,
    pub subcommands: Vec<SubCommandInfo>,
}

/// Gives the list of registered commands.
pub trait CommandLister {
    fn list(&self) -> Vec<CommandInfo>;
}

/// Whether `name_or_alias` names subcommand `s`, by its name or one of its
/// aliases, ignoring ASCII case.
pub open spec fn sub_matches(s: SubCommandInfo, name_or_alias: Seq<char>) -> bool {
    eq_ignore_ascii_case_spec(s.name@, name_or_alias) || exists|j: int|
        0 <= j < s.aliases@.len() && eq_ignore_ascii_case_spec(#[trigger] s.aliases@[j]@, name_or_alias)
}

/// The position of the first subcommand at or after `i` that `name` names.
pub open spec fn first_match_from(subs: Seq<SubCommandInfo>, name: Seq<char>, i: int) -> Option<int>
    decreases subs.len() - i,
{
    if i < 0 || i >= subs.len() {
        None
    } else if sub_matches(subs[i], name) {
        Some(i)
    } else {
        first_match_from(subs, name, i + 1)
    }
}

/// The name of the first subcommand that `name` names, if any.
pub open spec fn resolve_spec(subs: Seq<SubCommandInfo>, name: Seq<char>) -> Option<Seq<char>> {
    match first_match_from(subs, name, 0) {
        Some(i) => Some(subs[i].name@),
        None => None,
    }
}

/// Whether `name` names subcommand `s`.
pub fn sub_matches_exec(s: &SubCommandInfo, name: &str) -> (r: bool)
    ensures
        r == sub_matches(*s, name@),
{
    if eq_ignore_ascii_case(s.name, name) {
        return true;
    }
    let mut j: usize = 0;
    while j < s.aliases.len()
        invariant
            j <= s.aliases@.len(),
            forall|k: int| 0 <= k < j ==> !eq_ignore_ascii_case_spec(#[trigger] s.aliases@[k]@, name@),
        decreases s.aliases@.len() - j,
    {
        if eq_ignore_ascii_case(s.aliases[j], name) {
            return true;
        }
        j = j + 1;
    }
    false
}

/// The name of the subcommand that `name_or_alias` names, by name or alias
/// and ignoring ASCII case; the first one in the list wins.
pub fn resolve_subcommand(subs: &[SubCommandInfo], name_or_alias: &str) -> (r: Option<&'static str>)
    ensures
        match r {
            Some(n) => resolve_spec(subs@, name_or_alias@) == Some(n@),
            None => resolve_spec(subs@, name_or_alias@) is None,
        },
{
    let mut i: usize = 0;
    while i < subs.len()
        invariant
            i <= subs@.len(),
            first_match_from(subs@, name_or_alias@, i as int) == first_match_from(
                subs@,
                name_or_alias@,
                0,
            ),
        decreases subs@.len() - i,
    {
        if sub_matches_exec(&subs[i], name_or_alias) {
            return Some(subs[i].name);
        }
        i = i + 1;
    }
    None
}

/// The position of the first subcommand that `name_or_alias` names, by
/// name or alias and ignoring ASCII case.
pub fn find_subcommand(subs: &[SubCommandInfo], name_or_alias: &str) -> (r: Option<usize>)
    ensures
        match r {
            Some(i) => first_match_from(subs@, name_or_alias@, 0) == Some(i as int) && i < subs@.len(),
            None => first_match_from(subs@, name_or_alias@, 0) is None,
        },
{
    let mut i: usize = 0;
    while i < subs.len()
        invariant
            i <= subs@.len(),
            first_match_from(subs@, name_or_alias@, i as int) == first_match_from(
                subs@,
                name_or_alias@,
                0,
            ),
        decreases subs@.len() - i,
    {
        if sub_matches_exec(&subs[i], name_or_alias) {
            return Some(i);
        }
        i = i + 1;
    }
    None
}

} // verus!
