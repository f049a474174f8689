//! The configuration model: an immutable mapping from server name to
//! server, constructed once from already-parsed declarative input and
//! read-only afterwards.

pub mod modification;
pub mod server;

pub use modification::Modification;
pub use server::Server;

use modification::ModificationView;
use vstd::prelude::*;

verus! {

/// One configuration entry, as seen by specifications: a server name and
/// the server's modification list.
pub type EntryView = (Seq<char>, Seq<ModificationView>);

/// The mapping described by a sequence of (name, server) entries, a later
/// entry overriding an earlier one with the same name.
pub open spec fn entries_map(s: Seq<EntryView>) -> Map<Seq<char>, Seq<ModificationView>>
    decreases s.len(),
{
    if s.len() == 0 {
        Map::empty()
    } else {
        entries_map(s.drop_last()).insert(s.last().0, s.last().1)
    }
}

/// No two entries bear the same name.
pub open spec fn unique_names(s: Seq<EntryView>) -> bool {
    forall|i: int, j: int| 0 <= i < j < s.len() ==> s[i].0 != s[j].0
}

/// A name is in the mapping exactly when some entry bears it.
pub proof fn lemma_entries_map_contains(s: Seq<EntryView>, name: Seq<char>)
    ensures
        entries_map(s).contains_key(name) <==> exists|i: int| 0 <= i < s.len() && s[i].0 == name,
    decreases s.len(),
{
    if s.len() == 0 {
    } else {
        lemma_entries_map_contains(s.drop_last(), name);
        if s.last().0 == name {
            assert(s[s.len() - 1].0 == name);
        } else if entries_map(s).contains_key(name) {
            let i = choose|i: int|
                0 <= i < s.drop_last().len() && s.drop_last()[i].0 == name;
            assert(s[i].0 == name);
        } else if exists|i: int| 0 <= i < s.len() && s[i].0 == name {
            let i = choose|i: int| 0 <= i < s.len() && s[i].0 == name;
            assert(s.drop_last()[i].0 == name);
        }
    }
}

/// The mapping carries, for each name, the value of the last entry
/// bearing it.
pub proof fn lemma_entries_map_last_match(s: Seq<EntryView>, j: int)
    requires
        0 <= j < s.len(),
        forall|l: int| j < l < s.len() ==> s[l].0 != s[j].0,
    ensures
        entries_map(s).contains_key(s[j].0),
        entries_map(s)[s[j].0] == s[j].1,
    decreases s.len(),
{
    if j == s.len() - 1 {
    } else {
        assert(s.drop_last()[j] == s[j]);
        assert forall|l: int| j < l < s.drop_last().len() implies s.drop_last()[l].0
            != s.drop_last()[j].0 by {
            assert(s.drop_last()[l] == s[l]);
        }
        lemma_entries_map_last_match(s.drop_last(), j);
        assert(s.last().0 != s[j].0);
    }
}

/// Appending an entry inserts its name into the mapping.
proof fn lemma_entries_map_push(s: Seq<EntryView>, e: EntryView)
    ensures
        entries_map(s.push(e)) == entries_map(s).insert(e.0, e.1),
{
    assert(s.push(e).drop_last() =~= s);
    assert(s.push(e).last() == e);
}

/// Overwriting the one entry that bears a name inserts the new value
/// into the mapping.
proof fn lemma_entries_map_update(s: Seq<EntryView>, j: int, e: EntryView)
    requires
        unique_names(s),
        0 <= j < s.len(),
        e.0 == s[j].0,
    ensures
        entries_map(s.update(j, e)) == entries_map(s).insert(e.0, e.1),
    decreases s.len(),
{
    if j == s.len() - 1 {
        assert(s.update(j, e).drop_last() =~= s.drop_last());
        assert(s.update(j, e).last() == e);
        assert(entries_map(s.drop_last()).insert(s.last().0, s.last().1).insert(e.0, e.1)
            =~= entries_map(s.drop_last()).insert(e.0, e.1));
    } else {
        assert(s.update(j, e).drop_last() =~= s.drop_last().update(j, e));
        assert(s.update(j, e).last() == s.last());
        assert forall|i: int, l: int|
            0 <= i < l < s.drop_last().len() implies s.drop_last()[i].0
            != s.drop_last()[l].0 by {
            assert(s.drop_last()[i] == s[i]);
            assert(s.drop_last()[l] == s[l]);
        }
        lemma_entries_map_update(s.drop_last(), j, e);
        assert(s.last().0 != s[j].0);
        assert(entries_map(s.drop_last()).insert(e.0, e.1).insert(s.last().0, s.last().1)
            =~= entries_map(s.drop_last()).insert(s.last().0, s.last().1).insert(e.0, e.1));
    }
}

/// The index of the entry bearing the given name, if any entry does.
fn find_name(entries: &Vec<(String, Server)>, name: &String) -> (r: Option<usize>)
    ensures
        match r {
            Some(j) => j < entries.deep_view().len() && entries.deep_view()[j as int].0 == name@,
            None => forall|l: int|
                0 <= l < entries.deep_view().len() ==> entries.deep_view()[l].0 != name@,
        },
{
    let mut i: usize = 0;
    while i < entries.len()
        invariant
            i <= entries.len(),
            forall|l: int| 0 <= l < i as int ==> entries.deep_view()[l].0 != name@,
        decreases entries.len() - i,
    {
        if entries[i].0 == *name {
            proof {
                assert(entries.deep_view()[i as int].0 == entries@[i as int].0@);
            }
            return Some(i);
        }
        proof {
            assert(entries.deep_view()[i as int].0 == entries@[i as int].0@);
        }
        i = i + 1;
    }
    None
}

/// An immutable set of named servers: a mapping from server name (the
/// unique lookup key) to server. Constructed once from already-parsed
/// declarative input; read-only afterwards. A later entry for an already
/// present name overrides the earlier one — last write wins.
#[derive(Debug)]
pub struct Config {
    servers: Vec<(String, Server)>,
}

impl View for Config {
    type V = Map<Seq<char>, Seq<ModificationView>>;

    closed spec fn view(&self) -> Map<Seq<char>, Seq<ModificationView>> {
        entries_map(self.servers.deep_view())
    }
}

impl Config {
    #[verifier::type_invariant]
    spec fn wf(self) -> bool {
        unique_names(self.servers.deep_view())
    }

    /// A configuration holding the given (name, server) entries; for
    /// entries sharing a name, the last one wins.
    pub fn new(servers: Vec<(String, Server)>) -> (r: Config)
        ensures
            r@ == entries_map(servers.deep_view()),
    {
        let ghost all = servers.deep_view();
        let mut input = servers;
        let mut kept: Vec<(String, Server)> = Vec::new();
        proof {
            assert(kept.deep_view() =~= Seq::<EntryView>::empty());
            assert(all.take(0) =~= Seq::<EntryView>::empty());
            assert(input.deep_view() =~= all.skip(0));
        }
        while input.len() > 0
            invariant
                input.deep_view().len() <= all.len(),
                input.deep_view() == all.skip(all.len() - input.deep_view().len()),
                unique_names(kept.deep_view()),
                entries_map(kept.deep_view()) == entries_map(
                    all.take(all.len() - input.deep_view().len()),
                ),
            decreases input.len(),
        {
            let ghost k = all.len() - input.deep_view().len();
            let ghost pre_input = input@;
            let ghost pre_dv = input.deep_view();
            let entry = input.remove(0);
            proof {
                assert(pre_dv[0] == pre_input[0].deep_view());
                assert(entry.deep_view() == all[k]);
                assert forall|l: int| 0 <= l < input.deep_view().len() implies input.deep_view()[l]
                    == all.skip(k + 1)[l] by {
                    assert(input@[l] == pre_input[l + 1]);
                    assert(pre_dv[l + 1] == pre_input[l + 1].deep_view());
                }
                assert(input.deep_view() =~= all.skip(k + 1));
                assert(all.take(k + 1) =~= all.take(k).push(all[k]));
                lemma_entries_map_push(all.take(k), all[k]);
            }
            let ghost pre = kept.deep_view();
            match find_name(&kept, &entry.0) {
                Some(j) => {
                    proof {
                        lemma_entries_map_update(pre, j as int, entry.deep_view());
                    }
                    kept[j] = entry;
                    proof {
                        assert(kept.deep_view() =~= pre.update(j as int, all[k]));
                    }
                },
                None => {
                    proof {
                        lemma_entries_map_push(pre, entry.deep_view());
                    }
                    kept.push(entry);
                    proof {
                        assert(kept.deep_view() =~= pre.push(all[k]));
                    }
                },
            }
        }
        proof {
            assert(all.take(all.len() as int) =~= all);
        }
        Config { servers: kept }
    }

    /// The full mapping, as (name, server) entries with unique names.
    pub fn servers(&self) -> (r: &Vec<(String, Server)>)
        ensures
            entries_map(r.deep_view()) == self@,
            unique_names(r.deep_view()),
    {
        proof {
            use_type_invariant(&*self);
        }
        &self.servers
    }

    /// The server of the given name, or nothing if the name is absent from
    /// the mapping. Never mutates and never fails otherwise.
    pub fn get(&self, server: &str) -> (r: Option<&Server>)
        ensures
            match r {
                Some(s) => self@.contains_key(server@) && s@ == self@[server@],
                None => !self@.contains_key(server@),
            },
    {
        proof {
            use_type_invariant(&*self);
        }
        let key: String = server.to_owned();
        match find_name(&self.servers, &key) {
            Some(j) => {
                proof {
                    let dv = self.servers.deep_view();
                    assert forall|l: int| (j as int) < l < dv.len() implies dv[l].0
                        != dv[j as int].0 by {}
                    lemma_entries_map_last_match(dv, j as int);
                    assert(self.servers@[j as int].1.deep_view() == dv[j as int].1);
                }
                Some(&self.servers[j].1)
            },
            None => {
                proof {
                    lemma_entries_map_contains(self.servers.deep_view(), server@);
                }
                None
            },
        }
    }
}

} // verus!
