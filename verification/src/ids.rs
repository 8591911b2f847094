//! The table each listener keeps of the queries it has in flight: the ID the
//! proxy put on the wire, mapped to what is needed to answer the client.
//!
//! No entry is ever overwritten: an ID is handed out only while it is free.

use std::collections::HashMap;
use vstd::prelude::*;
use vstd::set_lib::lemma_len_subset;

verus! {

broadcast use vstd::std_specs::hash::group_hash_axioms;

/// Number of distinct transaction IDs.
pub const ID_SPACE: usize = 65536;

/// Random draws made for one query before the table is searched in order.
pub const MAX_DRAWS: usize = 64;

/// In-flight queries of one listener scope, keyed by proxy ID.
pub struct IdTable<V> {
    entries: HashMap<u16, V>,
}

impl<V> View for IdTable<V> {
    type V = Map<u16, V>;

    closed spec fn view(&self) -> Map<u16, V> {
        self.entries@
    }
}

/// The IDs below `k`.
pub open spec fn ids_below(k: int) -> Set<u16> {
    Set::new(|id: u16| (id as int) < k)
}

/// There are exactly `k` IDs below `k`.
pub proof fn lemma_ids_below_len(k: int)
    requires
        0 <= k <= 65536,
    ensures
        ids_below(k).finite(),
        ids_below(k).len() == k,
    decreases k,
{
    if k == 0 {
        assert(ids_below(0) =~= Set::<u16>::empty());
    } else {
        lemma_ids_below_len(k - 1);
        assert(ids_below(k) =~= ids_below(k - 1).insert((k - 1) as u16));
    }
}

/// A table never holds more entries than there are IDs.
pub proof fn lemma_at_most_id_space<V>(table: Map<u16, V>)
    requires
        table.dom().finite(),
    ensures
        table.dom().len() <= 65536,
{
    lemma_ids_below_len(65536);
    assert(table.dom().subset_of(ids_below(65536)));
    lemma_len_subset(table.dom(), ids_below(65536));
}

/// Draws one ID from the thread-local generator of the `rand` crate
/// (`rand::random::<u16>()`).  Nothing is claimed of the value.
#[verifier::external_body]
fn random_id() -> (id: u16) {
    rand::random::<u16>()
}

impl<V> IdTable<V> {
    /// An empty table.
    pub fn new() -> (table: Self)
        ensures
            table@ == Map::<u16, V>::empty(),
    {
        IdTable { entries: HashMap::new() }
    }

    /// The domain of a table is finite.
    pub proof fn lemma_finite(&self)
        ensures
            self@.dom().finite(),
    {
    }

    /// Number of queries in flight.
    pub fn len(&self) -> (n: usize)
        ensures
            n == self@.dom().len(),
            n <= 65536,
    {
        proof {
            lemma_at_most_id_space(self@);
        }
        self.entries.len()
    }

    /// Whether every ID is taken.
    pub fn is_full(&self) -> (full: bool)
        ensures
            full == (self@.dom().len() == 65536),
    {
        self.len() >= ID_SPACE
    }

    /// Whether `id` is in flight.
    pub fn contains(&self, id: u16) -> (present: bool)
        ensures
            present == self@.contains_key(id),
    {
        self.entries.contains_key(&id)
    }

    /// What was stored under `id`, if it is in flight.
    pub fn get(&self, id: u16) -> (found: Option<&V>)
        ensures
            match found {
                Some(v) => self@.contains_key(id) && *v == self@[id],
                None => !self@.contains_key(id),
            },
    {
        self.entries.get(&id)
    }

    /// Stores `value` under `candidate` if and only if that ID is free.
    /// A taken ID leaves the table as it was and hands `value` back.
    pub fn claim(&mut self, candidate: u16, value: V) -> (outcome: Result<(), V>)
        ensures
            old(self)@.contains_key(candidate) ==> outcome == Err::<(), V>(value) && final(self)@
                == old(self)@,
            !old(self)@.contains_key(candidate) ==> outcome is Ok && final(self)@ == old(
                self,
            )@.insert(candidate, value),
    {
        if self.entries.contains_key(&candidate) {
            Err(value)
        } else {
            self.entries.insert(candidate, value);
            Ok(())
        }
    }

    /// The lowest free ID, or `None` when every ID is taken.
    pub fn first_free(&self) -> (free: Option<u16>)
        ensures
            match free {
                Some(id) => !self@.contains_key(id) && forall|lower: u16|
                    lower < id ==> self@.contains_key(lower),
                None => self@.dom().len() == 65536,
            },
    {
        let mut k: u32 = 0;
        while k < 65536
            invariant
                k <= 65536,
                forall|lower: u16| (lower as int) < k ==> self@.contains_key(lower),
            decreases 65536 - k,
        {
            let id: u16 = k as u16;
            if !self.entries.contains_key(&id) {
                return Some(id);
            }
            k = k + 1;
        }
        proof {
            lemma_ids_below_len(65536);
            assert(ids_below(65536).subset_of(self@.dom()));
            lemma_len_subset(ids_below(65536), self@.dom());
            lemma_at_most_id_space(self@);
        }
        None
    }

    /// Stores `value` under a fresh ID and returns that ID.
    ///
    /// IDs are drawn at random and redrawn on collision.  After `MAX_DRAWS`
    /// collisions in a row the lowest free ID is taken instead, so the call
    /// always ends; it fails, handing `value` back, only when all 65536 IDs
    /// are in flight.
    pub fn assign(&mut self, value: V) -> (outcome: Result<u16, V>)
        ensures
            old(self)@.dom().len() < 65536 ==> outcome is Ok,
            old(self)@.dom().len() == 65536 ==> outcome == Err::<u16, V>(value),
            match outcome {
                Ok(id) => !old(self)@.contains_key(id) && final(self)@ == old(self)@.insert(
                    id,
                    value,
                ),
                Err(_) => final(self)@ == old(self)@,
            },
    {
        if self.is_full() {
            return Err(value);
        }
        proof {
            lemma_at_most_id_space(self@);
        }
        let mut draws: usize = 0;
        while draws < MAX_DRAWS
            invariant
                draws <= MAX_DRAWS,
                self@ == old(self)@,
                self@.dom().len() < 65536,
            decreases MAX_DRAWS - draws,
        {
            let candidate = random_id();
            if !self.entries.contains_key(&candidate) {
                self.entries.insert(candidate, value);
                return Ok(candidate);
            }
            draws = draws + 1;
        }
        match self.first_free() {
            Some(id) => {
                self.entries.insert(id, value);
                Ok(id)
            },
            None => Err(value),
        }
    }

    /// Takes the entry under `id` out of the table.
    pub fn remove(&mut self, id: u16) -> (taken: Option<V>)
        ensures
            final(self)@ == old(self)@.remove(id),
            match taken {
                Some(v) => old(self)@.contains_key(id) && v == old(self)@[id],
                None => !old(self)@.contains_key(id),
            },
    {
        self.entries.remove(&id)
    }

    /// Forgets every entry.
    pub fn clear(&mut self)
        ensures
            final(self)@ == Map::<u16, V>::empty(),
    {
        self.entries.clear();
    }
}

} // verus!
