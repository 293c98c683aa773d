//! The command registry: commands found by name for slash commands, and by
//! prefix name or alias for prefix commands. Commands are identified by a
//! handle that the caller assigns (an index into its own command list).
use crate::keyed::{KeyedList, ListKey};
use crate::text::{lowercase, str_views, to_lowercase};
use vstd::prelude::*;

verus! {

/// `m` with `k` mapped to `v`, unless `k` is already mapped.
pub open spec fn insert_if_absent(m: Map<Seq<char>, usize>, k: Seq<char>, v: usize) -> Map<
    Seq<char>,
    usize,
> {
    if m.contains_key(k) {
        m
    } else {
        m.insert(k, v)
    }
}

/// `m` after the aliases, in order and lowercased, are each mapped to `v`
/// where they are not mapped yet.
pub open spec fn add_aliases(m: Map<Seq<char>, usize>, aliases: Seq<Seq<char>>, v: usize) -> Map<
    Seq<char>,
    usize,
>
    decreases aliases.len(),
{
    if aliases.len() == 0 {
        m
    } else {
        insert_if_absent(add_aliases(m, aliases.drop_last(), v), lowercase(aliases.last()), v)
    }
}

/// The prefix map after registering a command: its prefix (lowercased) is
/// mapped to it, replacing what was there; its name and its aliases
/// (lowercased) only where they are free.
pub open spec fn register_prefix_spec(
    pm: Map<Seq<char>, usize>,
    name: Seq<char>,
    prefix: Option<Seq<char>>,
    aliases: Seq<Seq<char>>,
    v: usize,
) -> Map<Seq<char>, usize> {
    let m1 = match prefix {
        Some(p) => pm.insert(lowercase(p), v),
        None => pm,
    };
    add_aliases(insert_if_absent(m1, lowercase(name), v), aliases, v)
}

/// The commands by lowercased name, and by lowercased prefix name or alias.
pub struct Registry {
    pub commands: KeyedList<String, usize>,
    pub prefix_map: KeyedList<String, usize>,
}

impl Registry {
    /// Commands by lowercased name.
    pub open spec fn command_map(&self) -> Map<Seq<char>, usize> {
        self.commands.view_map()
    }

    /// Commands by lowercased prefix name or alias.
    pub open spec fn prefix_view(&self) -> Map<Seq<char>, usize> {
        self.prefix_map.view_map()
    }

    /// An empty registry.
    pub fn new() -> (r: Self)
        ensures
            r.command_map() == Map::<Seq<char>, usize>::empty(),
            r.prefix_view() == Map::<Seq<char>, usize>::empty(),
    {
        Registry { commands: KeyedList::new(), prefix_map: KeyedList::new() }
    }

    /// Registers the command `command` under its name (lowercased), which
    /// replaces an earlier command of that name; for prefix use, under its
    /// prefix (replacing), and under its name and aliases where they are free.
    pub fn register(&mut self, name: &str, prefix: Option<&str>, aliases: &[&str], command: usize)
        ensures
            final(self).command_map() == old(self).command_map().insert(lowercase(name@), command),
            final(self).prefix_view() == register_prefix_spec(
                old(self).prefix_view(),
                name@,
                match prefix {
                    Some(p) => Some(p@),
                    None => None::<Seq<char>>,
                },
                str_views(aliases@),
                command,
            ),
    {
        let name_l = to_lowercase(name);
        self.commands.insert(name_l.clone(), command);
        if let Some(p) = prefix {
            self.prefix_map.insert(to_lowercase(p), command);
        }
        if !self.prefix_map.contains_key(&name_l) {
            self.prefix_map.insert(name_l, command);
        }
        let ghost m1 = self.prefix_view();
        let ghost cm = self.command_map();
        let mut i: usize = 0;
        while i < aliases.len()
            invariant
                i <= aliases@.len(),
                self.command_map() == cm,
                self.prefix_view() == add_aliases(m1, str_views(aliases@).take(i as int), command),
            decreases aliases@.len() - i,
        {
            let alias_l = to_lowercase(aliases[i]);
            if !self.prefix_map.contains_key(&alias_l) {
                self.prefix_map.insert(alias_l, command);
            }
            i = i + 1;
            assert(str_views(aliases@).take(i as int).drop_last() =~= str_views(aliases@).take(
                (i - 1) as int,
            ));
        }
        assert(str_views(aliases@).take(i as int) =~= str_views(aliases@));
    }

    /// The command registered under `name` (any case), for slash use.
    pub fn get_slash_command(&self, name: &str) -> (r: Option<usize>)
        ensures
            r == (if self.command_map().contains_key(lowercase(name@)) {
                Some(self.command_map()[lowercase(name@)])
            } else {
                None::<usize>
            }),
    {
        self.commands.get(&to_lowercase(name))
    }

    /// The command registered under `name` (any case) as prefix name or
    /// alias, for prefix use.
    pub fn get_prefix_command(&self, name: &str) -> (r: Option<usize>)
        ensures
            r == (if self.prefix_view().contains_key(lowercase(name@)) {
                Some(self.prefix_view()[lowercase(name@)])
            } else {
                None::<usize>
            }),
    {
        self.prefix_map.get(&to_lowercase(name))
    }

    /// Every registered command, once per name, in the order in which the
    /// names were first registered.
    pub fn all_commands(&self) -> (r: Vec<usize>)
        ensures
            r@ == self.commands.value_seq(),
            r@.len() == self.command_map().dom().len(),
            self.commands.key_seq().len() == r@.len(),
            self.commands.key_seq().no_duplicates(),
            self.commands.key_seq().to_set() == self.command_map().dom(),
            forall|i: int|
                0 <= i < r@.len() ==> #[trigger] self.command_map()[self.commands.key_seq()[i]]
                    == r@[i],
    {
        self.commands.values()
    }

    /// Removes every command.
    pub fn refresh(&mut self)
        ensures
            final(self).command_map() == Map::<Seq<char>, usize>::empty(),
            final(self).prefix_view() == Map::<Seq<char>, usize>::empty(),
    {
        self.commands.clear();
        self.prefix_map.clear();
    }
}

impl Default for Registry {
    fn default() -> (r: Self)
        ensures
            r.command_map() == Map::<Seq<char>, usize>::empty(),
            r.prefix_view() == Map::<Seq<char>, usize>::empty(),
    {
        Self::new()
    }
}

/// After a command is registered, its name in any case finds it for slash
/// use, and its prefix in any case finds it for prefix use.
pub proof fn law_register_then_lookup(
    commands: Map<Seq<char>, usize>,
    pm: Map<Seq<char>, usize>,
    name: Seq<char>,
    prefix: Seq<char>,
    aliases: Seq<Seq<char>>,
    v: usize,
    spelled: Seq<char>,
)
    requires
        lowercase(spelled) == lowercase(prefix),
    ensures
        commands.insert(lowercase(name), v)[lowercase(name)] == v,
        register_prefix_spec(pm, name, Some(prefix), aliases, v).contains_key(lowercase(spelled)),
        register_prefix_spec(pm, name, Some(prefix), aliases, v)[lowercase(spelled)] == v,
{
    let m1 = insert_if_absent(pm.insert(lowercase(prefix), v), lowercase(name), v);
    assert(m1[lowercase(prefix)] == v);
    lemma_aliases_keep(m1, aliases, v, lowercase(prefix));
}

/// Aliases only fill free keys: a key already mapped keeps its command.
pub proof fn lemma_aliases_keep(m: Map<Seq<char>, usize>, aliases: Seq<Seq<char>>, v: usize, k: Seq<char>)
    requires
        m.contains_key(k),
    ensures
        add_aliases(m, aliases, v).contains_key(k),
        add_aliases(m, aliases, v)[k] == m[k],
    decreases aliases.len(),
{
    if aliases.len() > 0 {
        lemma_aliases_keep(m, aliases.drop_last(), v, k);
    }
}

/// Registering a command never takes a prefix name or alias away from an
/// earlier command unless it is the new command's own prefix.
pub proof fn law_register_keeps_other_prefixes(
    pm: Map<Seq<char>, usize>,
    name: Seq<char>,
    prefix: Option<Seq<char>>,
    aliases: Seq<Seq<char>>,
    v: usize,
    k: Seq<char>,
)
    requires
        pm.contains_key(k),
        prefix matches Some(p) ==> lowercase(p) != k,
    ensures
        register_prefix_spec(pm, name, prefix, aliases, v).contains_key(k),
        register_prefix_spec(pm, name, prefix, aliases, v)[k] == pm[k],
{
    let m1 = match prefix {
        Some(p) => pm.insert(lowercase(p), v),
        None => pm,
    };
    let m2 = insert_if_absent(m1, lowercase(name), v);
    assert(m2.contains_key(k) && m2[k] == pm[k]);
    lemma_aliases_keep(m2, aliases, v, k);
}

/// What adding aliases does: a key is mapped afterwards exactly when it was
/// before or is a lowercased alias; a key mapped before keeps its command,
/// and every other key maps to `v`.
pub proof fn lemma_aliases_shape(m: Map<Seq<char>, usize>, aliases: Seq<Seq<char>>, v: usize, k: Seq<char>)
    ensures
        add_aliases(m, aliases, v).contains_key(k) <==> (m.contains_key(k) || exists|j: int|
            0 <= j < aliases.len() && lowercase(#[trigger] aliases[j]) == k),
        add_aliases(m, aliases, v).contains_key(k) && !m.contains_key(k) ==> add_aliases(
            m,
            aliases,
            v,
        )[k] == v,
        m.contains_key(k) ==> add_aliases(m, aliases, v)[k] == m[k],
    decreases aliases.len(),
{
    if aliases.len() > 0 {
        let init = aliases.drop_last();
        lemma_aliases_shape(m, init, v, k);
        if exists|j: int| 0 <= j < aliases.len() && lowercase(#[trigger] aliases[j]) == k {
            let j = choose|j: int| 0 <= j < aliases.len() && lowercase(#[trigger] aliases[j]) == k;
            if j < aliases.len() - 1 {
                assert(lowercase(init[j]) == k);
            }
        }
        if exists|j: int| 0 <= j < init.len() && lowercase(#[trigger] init[j]) == k {
            let j = choose|j: int| 0 <= j < init.len() && lowercase(#[trigger] init[j]) == k;
            assert(lowercase(aliases[j]) == k);
        }
    }
}

/// After a command is registered, each of its name and aliases that was
/// free finds it for prefix use, and every key that is none of its prefix,
/// name or aliases finds what it found before (or nothing, as before).
pub proof fn law_register_fills_free_keys(
    pm: Map<Seq<char>, usize>,
    name: Seq<char>,
    prefix: Option<Seq<char>>,
    aliases: Seq<Seq<char>>,
    v: usize,
    k: Seq<char>,
)
    ensures
        !pm.contains_key(k) && (k == lowercase(name) || exists|j: int|
            0 <= j < aliases.len() && lowercase(#[trigger] aliases[j]) == k) ==> {
            &&& register_prefix_spec(pm, name, prefix, aliases, v).contains_key(k)
            &&& register_prefix_spec(pm, name, prefix, aliases, v)[k] == v
        },
        (prefix matches Some(p) ==> lowercase(p) != k) && k != lowercase(name) && (forall|j: int|
            0 <= j < aliases.len() ==> lowercase(#[trigger] aliases[j]) != k) ==> {
            &&& register_prefix_spec(pm, name, prefix, aliases, v).contains_key(k)
                == pm.contains_key(k)
            &&& pm.contains_key(k) ==> register_prefix_spec(pm, name, prefix, aliases, v)[k]
                == pm[k]
        },
{
    let m1 = match prefix {
        Some(p) => pm.insert(lowercase(p), v),
        None => pm,
    };
    let m2 = insert_if_absent(m1, lowercase(name), v);
    lemma_aliases_shape(m2, aliases, v, k);
}

/// The slash table after registering the commands `regs` (name and
/// handle), in order, from an empty registry.
pub open spec fn names_after(regs: Seq<(Seq<char>, usize)>) -> Map<Seq<char>, usize>
    decreases regs.len(),
{
    if regs.len() == 0 {
        Map::empty()
    } else {
        names_after(regs.drop_last()).insert(lowercase(regs.last().0), regs.last().1)
    }
}

/// After registering commands in order from an empty registry, the slash
/// table holds exactly one entry per distinct lowercased name (so
/// `all_commands` lists that many), and each name finds the last command
/// registered under it.
pub proof fn law_one_command_per_name(regs: Seq<(Seq<char>, usize)>, k: Seq<char>)
    ensures
        names_after(regs).dom() == regs.map_values(|r: (Seq<char>, usize)| lowercase(r.0)).to_set(),
        names_after(regs).dom().finite(),
        names_after(regs).contains_key(k) ==> exists|i: int|
            0 <= i < regs.len() && lowercase(#[trigger] regs[i].0) == k && names_after(regs)[k]
                == regs[i].1 && forall|j: int| i < j < regs.len() ==> lowercase(regs[j].0) != k,
    decreases regs.len(),
{
    let f = |r: (Seq<char>, usize)| lowercase(r.0);
    if regs.len() == 0 {
        assert(regs.map_values(f).to_set() =~= Set::<Seq<char>>::empty());
    } else {
        let init = regs.drop_last();
        law_one_command_per_name(init, k);
        assert(regs.map_values(f) =~= init.map_values(f).push(lowercase(regs.last().0)));
        assert(regs.map_values(f).to_set() =~= init.map_values(f).to_set().insert(
            lowercase(regs.last().0),
        )) by {
            assert forall|x: Seq<char>| #[trigger] regs.map_values(f).to_set().contains(x)
                <==> init.map_values(f).to_set().insert(lowercase(regs.last().0)).contains(x) by {
                if regs.map_values(f).contains(x) {
                    let i = choose|i: int| 0 <= i < regs.map_values(f).len() && regs.map_values(f)[i] == x;
                    if i < init.len() {
                        assert(init.map_values(f)[i] == x);
                    }
                }
                if init.map_values(f).contains(x) {
                    let i = choose|i: int| 0 <= i < init.map_values(f).len() && init.map_values(f)[i] == x;
                    assert(regs.map_values(f)[i] == x);
                }
                if x == lowercase(regs.last().0) {
                    assert(regs.map_values(f)[regs.len() - 1] == x);
                }
            }
        }
        assert(names_after(regs).dom() =~= names_after(init).dom().insert(lowercase(regs.last().0)));
        if names_after(regs).contains_key(k) {
            if lowercase(regs.last().0) == k {
                let i = regs.len() - 1;
                assert(lowercase(regs[i].0) == k && names_after(regs)[k] == regs[i].1);
            } else {
                let i = choose|i: int|
                    0 <= i < init.len() && lowercase(#[trigger] init[i].0) == k && names_after(init)[k]
                        == init[i].1 && forall|j: int| i < j < init.len() ==> lowercase(init[j].0) != k;
                assert(regs[i] == init[i]);
                assert forall|j: int| i < j < regs.len() implies lowercase(regs[j].0) != k by {
                    if j < init.len() {
                        assert(regs[j] == init[j]);
                    }
                }
                assert(lowercase(regs[i].0) == k);
            }
        }
    }
}

/// The slash table over a series of registrations grows as `register`
/// states of one: none gives the empty table of `Registry::new`, and one
/// more maps its lowercased name to its handle.
pub proof fn law_names_after_step(regs: Seq<(Seq<char>, usize)>, name: Seq<char>, handle: usize)
    ensures
        names_after(seq![]) == Map::<Seq<char>, usize>::empty(),
        names_after(regs.push((name, handle))) == names_after(regs).insert(lowercase(name), handle),
{
    assert(regs.push((name, handle)).drop_last() =~= regs);
}

/// `handle` is the command last registered in `regs` under the lowercased
/// name `k`.
pub open spec fn last_registered(regs: Seq<(Seq<char>, usize)>, k: Seq<char>, handle: usize) -> bool {
    exists|j: int|
        0 <= j < regs.len() && lowercase(#[trigger] regs[j].0) == k && regs[j].1 == handle && forall|
            l: int,
        |
            j < l < regs.len() ==> lowercase(#[trigger] regs[l].0) != k
}

/// What `all_commands` lists after the commands `regs` (name and handle)
/// were registered in order from an empty registry, whose slash table is
/// then `names_after(regs)`: given its list `listed` and the names `keys`
/// it comes in (as `all_commands` states them), the list has one command
/// per distinct lowercased name, each the last one registered under that
/// name, so it is as long as there are distinct lowercased names; prefixes
/// and aliases add nothing; and when every registration brought a command
/// of its own, no command is listed twice.
pub proof fn law_all_commands_after_registrations(
    regs: Seq<(Seq<char>, usize)>,
    keys: Seq<Seq<char>>,
    listed: Seq<usize>,
)
    requires
        keys.len() == listed.len(),
        keys.no_duplicates(),
        keys.to_set() == names_after(regs).dom(),
        forall|i: int| 0 <= i < listed.len() ==> #[trigger] names_after(regs)[keys[i]] == listed[i],
    ensures
        keys.to_set() == regs.map_values(|r: (Seq<char>, usize)| lowercase(r.0)).to_set(),
        listed.len() == regs.map_values(|r: (Seq<char>, usize)| lowercase(r.0)).to_set().len(),
        forall|i: int| 0 <= i < listed.len() ==> last_registered(regs, #[trigger] keys[i], listed[i]),
        (forall|a: int, b: int| 0 <= a < b < regs.len() ==> regs[a].1 != regs[b].1)
            ==> listed.no_duplicates(),
{
    law_one_command_per_name(regs, seq![]);
    keys.unique_seq_to_set();
    assert forall|i: int| 0 <= i < listed.len() implies last_registered(regs, #[trigger] keys[i], listed[i]) by {
        let k = keys[i];
        assert(keys.to_set().contains(k));
        law_one_command_per_name(regs, k);
        let j = choose|j: int|
            0 <= j < regs.len() && lowercase(#[trigger] regs[j].0) == k && names_after(regs)[k]
                == regs[j].1 && forall|l: int| j < l < regs.len() ==> lowercase(regs[l].0) != k;
        assert(lowercase(regs[j].0) == k && regs[j].1 == listed[i]);
        assert forall|l: int| j < l < regs.len() implies lowercase(#[trigger] regs[l].0) != k by {}
    }
    if forall|a: int, b: int| 0 <= a < b < regs.len() ==> regs[a].1 != regs[b].1 {
        assert forall|a: int, b: int| 0 <= a < listed.len() && 0 <= b < listed.len() && a != b
            implies listed[a] != listed[b] by {
            assert(last_registered(regs, keys[a], listed[a]));
            assert(last_registered(regs, keys[b], listed[b]));
            let ja = choose|j: int|
                0 <= j < regs.len() && lowercase(#[trigger] regs[j].0) == keys[a] && regs[j].1
                    == listed[a] && forall|l: int| j < l < regs.len() ==> lowercase(#[trigger] regs[l].0)
                    != keys[a];
            let jb = choose|j: int|
                0 <= j < regs.len() && lowercase(#[trigger] regs[j].0) == keys[b] && regs[j].1
                    == listed[b] && forall|l: int| j < l < regs.len() ==> lowercase(#[trigger] regs[l].0)
                    != keys[b];
            assert(keys[a] != keys[b]);
            if listed[a] == listed[b] {
                if ja < jb {
                    assert(regs[ja].1 != regs[jb].1);
                } else if jb < ja {
                    assert(regs[jb].1 != regs[ja].1);
                }
            }
        }
    }
}

} // verus!
