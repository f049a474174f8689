//! A named server and its ordered list of modifications.

use crate::config::modification::Modification;
use crate::config::modification::ModificationView;
use std::collections::HashSet;
use vstd::prelude::*;

verus! {

broadcast use vstd::std_specs::hash::group_hash_axioms;

/// The set of unique modification identifiers in a list, order and
/// duplicates discarded.
pub open spec fn id_set(mods: Seq<ModificationView>) -> Set<u32> {
    Set::new(|id: u32| exists|i: int| 0 <= i < mods.len() && mods[i].id == id)
}

/// A server: an ordered sequence of modifications, as configured.
/// Immutable after construction; the order is the configuration's insertion
/// order and is meaningful only for display.
#[derive(Clone, Debug)]
pub struct Server {
    mods: Vec<Modification>,
}

impl View for Server {
    type V = Seq<ModificationView>;

    closed spec fn view(&self) -> Seq<ModificationView> {
        self.mods.deep_view()
    }
}

impl DeepView for Server {
    type V = Seq<ModificationView>;

    open spec fn deep_view(&self) -> Seq<ModificationView> {
        self.view()
    }
}

impl Server {
    /// A server owning the given list of modifications; duplicates are
    /// retained verbatim, in order.
    pub fn new(mods: Vec<Modification>) -> (r: Self)
        ensures
            r@ == mods.deep_view(),
    {
        Server { mods }
    }

    /// The modifications, in configured order, duplicates retained.
    pub fn mods(&self) -> (r: &Vec<Modification>)
        ensures
            r.deep_view() == self@,
    {
        &self.mods
    }

    /// The set of unique numeric modification identifiers, for membership
    /// tests; order is irrelevant for this derived set.
    pub fn mod_ids(&self) -> (r: HashSet<u32>)
        ensures
            r@ == id_set(self@),
    {
        let mut ids: HashSet<u32> = HashSet::new();
        proof {
            assert(ids@ =~= id_set(self@.take(0)));
        }
        let mut i: usize = 0;
        while i < self.mods.len()
            invariant
                i <= self.mods.len(),
                self@ == self.mods.deep_view(),
                ids@ == id_set(self@.take(i as int)),
            decreases self.mods.len() - i,
        {
            let ghost pre = ids@;
            ids.insert(self.mods[i].id);
            proof {
                assert(self@[i as int].id == self.mods[i as int]@.id);
                assert forall|id: u32| id_set(self@.take(i as int + 1)).contains(id) implies pre
                    .insert(self.mods[i as int]@.id).contains(id) by {
                    let j = choose|j: int|
                        0 <= j < self@.take(i as int + 1).len() && (#[trigger] self@.take(
                            i as int + 1,
                        )[j]).id == id;
                    if j < i as int {
                        assert(self@.take(i as int)[j].id == id);
                    }
                }
                assert forall|id: u32|
                    pre.insert(self.mods[i as int]@.id).contains(id) implies id_set(
                    self@.take(i as int + 1),
                ).contains(id) by {
                    if pre.contains(id) {
                        let j = choose|j: int|
                            0 <= j < self@.take(i as int).len() && (#[trigger] self@.take(
                                i as int,
                            )[j]).id == id;
                        assert(self@.take(i as int + 1)[j].id == id);
                    } else {
                        assert(self@.take(i as int + 1)[i as int].id == id);
                    }
                }
                assert(ids@ =~= id_set(self@.take(i as int + 1)));
            }
            i = i + 1;
        }
        proof {
            assert(self@.take(self.mods@.len() as int) =~= self@);
        }
        ids
    }
}

} // verus!
