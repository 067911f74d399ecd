//! A set of names that can also be listed.

use vstd::hash_set::StringHashSet;
use vstd::prelude::*;

use crate::text;

verus! {

/// A set of names; the names are listed in the order of their first insertion.
pub struct NameSet {
    order: Vec<String>,
    index: StringHashSet,
}

impl View for NameSet {
    type V = Set<Seq<char>>;

    closed spec fn view(&self) -> Set<Seq<char>> {
        self.index@
    }
}

impl NameSet {
    /// The names of the set in the order of their first insertion.
    pub closed spec fn listing(&self) -> Seq<Seq<char>> {
        text::texts(self.order@)
    }

    /// The list holds the names of the set, each of them once.
    pub closed spec fn wf(&self) -> bool {
        &&& text::texts(self.order@).no_duplicates()
        &&& text::texts(self.order@).to_set() == self.index@
    }

    /// The empty set.
    pub fn new() -> (r: NameSet)
        ensures
            r.wf(),
            r@ == Set::<Seq<char>>::empty(),
            r.listing() == Seq::<Seq<char>>::empty(),
    {
        let order: Vec<String> = Vec::new();
        let index = StringHashSet::new();
        proof {
            assert(text::texts(order@) =~= Seq::empty());
            assert(text::texts(order@).to_set() =~= index@);
        }
        NameSet { order, index }
    }

    /// Adds `name`, and tells whether it was new. A new name is listed last.
    pub fn insert(&mut self, name: String) -> (added: bool)
        requires
            old(self).wf(),
        ensures
            final(self).wf(),
            final(self)@ == old(self)@.insert(name@),
            added == !old(self)@.contains(name@),
            final(self).listing() == if added {
                old(self).listing().push(name@)
            } else {
                old(self).listing()
            },
    {
        let ghost before = text::texts(self.order@);
        let ghost old_set = self.index@;
        let added: bool = self.index.insert(name.clone());
        if added {
            self.order.push(name);
            proof {
                let after = text::texts(self.order@);
                assert(after =~= before.push(name@));
                assert(after.to_set() =~= old_set.insert(name@)) by {
                    assert forall|x: Seq<char>| old_set.insert(name@).contains(x) implies after.contains(x) by {
                        if x == name@ {
                            assert(after[before.len() as int] == x);
                        } else {
                            assert(before.to_set().contains(x));
                            let k = choose|k: int| 0 <= k < before.len() && before[k] == x;
                            assert(after[k] == x);
                        }
                    }
                    assert forall|x: Seq<char>| after.contains(x) implies old_set.insert(name@).contains(x) by {
                        let k = choose|k: int| 0 <= k < after.len() && after[k] == x;
                        if k < before.len() {
                            assert(before[k] == x);
                            assert(before.to_set().contains(x));
                        }
                    }
                }
                assert(!before.contains(name@)) by {
                    assert(!before.to_set().contains(name@));
                }
                assert(after.no_duplicates());
            }
        } else {
            assert(old_set.insert(name@) =~= old_set);
        }
        added
    }

    /// Whether `name` is in the set.
    pub fn contains(&self, name: &str) -> (r: bool)
        ensures
            r == self@.contains(name@),
    {
        self.index.contains(name)
    }

    /// Whether the set is empty.
    pub fn is_empty(&self) -> (r: bool)
        ensures
            r == (self@ == Set::<Seq<char>>::empty()),
    {
        let r = self.index.is_empty();
        proof {
            assert(self@.is_empty() ==> self@ =~= Set::<Seq<char>>::empty());
        }
        r
    }

    /// The names, each of them once, in the order of their first insertion.
    pub fn names(&self) -> (r: &Vec<String>)
        requires
            self.wf(),
        ensures
            text::texts(r@) == self.listing(),
            text::texts(r@).no_duplicates(),
            text::texts(r@).to_set() == self@,
    {
        &self.order
    }
}

} // verus!
