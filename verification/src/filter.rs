//! The blocklist: a set of domain names to refuse, compared octet for octet
//! as they were loaded.

use crate::hosts::{listed_names, names_of};
use vstd::hash_set::StringHashSet;
use vstd::prelude::*;

verus! {

/// Set of names that are refused.  Filled once at startup, read-only after.
pub struct Filter {
    names: StringHashSet,
}

impl View for Filter {
    type V = Set<Seq<char>>;

    closed spec fn view(&self) -> Set<Seq<char>> {
        self.names@
    }
}

impl Filter {
    /// A blocklist that refuses nothing.
    pub fn new() -> (filter: Self)
        ensures
            filter@ == Set::<Seq<char>>::empty(),
    {
        Filter { names: StringHashSet::new() }
    }

    /// Whether `name` is refused.  Case and a trailing dot count.
    pub fn contains(&self, name: &String) -> (listed: bool)
        ensures
            listed == self@.contains(name@),
    {
        self.names.contains(name.as_str())
    }

    /// Adds every name that `text` lists in hosts-file form: of each line
    /// that is no comment, the second whitespace-separated token.
    pub fn add_hosts(&mut self, text: &str)
        ensures
            final(self)@ == old(self)@.union(listed_names(text@).to_set()),
    {
        let names = names_of(text);
        let ghost all = names.deep_view();
        let mut i: usize = 0;
        assert(all.take(0).to_set() =~= Set::<Seq<char>>::empty());
        while i < names.len()
            invariant
                i <= names.len(),
                all == names.deep_view(),
                self@ =~= old(self)@.union(all.take(i as int).to_set()),
            decreases names.len() - i,
        {
            self.insert(names[i].clone());
            proof {
                assert(all.take(i + 1) =~= all.take(i as int).push(all[i as int]));
                all.take(i as int).lemma_push_to_set_commute(all[i as int]);
            }
            i = i + 1;
        }
        assert(all.take(names.len() as int) =~= all);
    }

    /// Adds one name.
    pub fn insert(&mut self, name: String)
        ensures
            final(self)@ == old(self)@.insert(name@),
    {
        self.names.insert(name);
    }
}

} // verus!
