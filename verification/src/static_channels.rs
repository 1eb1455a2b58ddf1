//! The static virtual channels of a connection: a map from channel name to
//! MCS channel id, in which a later insertion of a name replaces the id that
//! the name had.
use vstd::prelude::*;

verus! {

/// The map that a list of (name, id) pairs builds when the pairs are
/// inserted from first to last: a later pair of a name wins.
pub open spec fn map_of_pairs(pairs: Seq<(Seq<char>, u16)>) -> Map<Seq<char>, u16>
    decreases pairs.len(),
{
    if pairs.len() == 0 {
        Map::empty()
    } else {
        map_of_pairs(pairs.drop_last()).insert(pairs.last().0, pairs.last().1)
    }
}

/// No name occurs twice in the list.
pub open spec fn names_distinct(pairs: Seq<(Seq<char>, u16)>) -> bool {
    forall|i: int, j: int|
        0 <= i < pairs.len() && 0 <= j < pairs.len() && i != j ==> #[trigger] pairs[i].0
            != #[trigger] pairs[j].0
}

/// The keys of the built map are exactly the names of the list, and the map
/// is finite.
pub proof fn lemma_map_of_pairs_dom(pairs: Seq<(Seq<char>, u16)>)
    ensures
        map_of_pairs(pairs).dom().finite(),
        forall|k: Seq<char>|
            #[trigger] map_of_pairs(pairs).dom().contains(k) <==> exists|i: int|
                0 <= i < pairs.len() && pairs[i].0 == k,
    decreases pairs.len(),
{
    if pairs.len() > 0 {
        let init = pairs.drop_last();
        lemma_map_of_pairs_dom(init);
        assert forall|k: Seq<char>|
            #[trigger] map_of_pairs(pairs).dom().contains(k) implies exists|i: int|
                0 <= i < pairs.len() && pairs[i].0 == k by {
            if k != pairs.last().0 {
                let i = choose|i: int| 0 <= i < init.len() && init[i].0 == k;
                assert(pairs[i] == init[i]);
            }
        }
        assert forall|k: Seq<char>|
            (exists|i: int| 0 <= i < pairs.len() && pairs[i].0 == k) implies #[trigger] map_of_pairs(
            pairs,
        ).dom().contains(k) by {
            let i = choose|i: int| 0 <= i < pairs.len() && pairs[i].0 == k;
            if i < pairs.len() - 1 {
                assert(init[i] == pairs[i]);
            }
        }
    }
}

/// In a list without repeated names, each name maps to its own id, and the
/// map has as many keys as the list has pairs.
pub proof fn lemma_map_of_distinct_pairs(pairs: Seq<(Seq<char>, u16)>)
    requires
        names_distinct(pairs),
    ensures
        map_of_pairs(pairs).dom().len() == pairs.len(),
        forall|i: int|
            0 <= i < pairs.len() ==> #[trigger] map_of_pairs(pairs)[pairs[i].0] == pairs[i].1,
    decreases pairs.len(),
{
    lemma_map_of_pairs_dom(pairs);
    if pairs.len() > 0 {
        let init = pairs.drop_last();
        assert(names_distinct(init)) by {
            assert forall|i: int, j: int|
                0 <= i < init.len() && 0 <= j < init.len() && i != j implies #[trigger] init[i].0
                != #[trigger] init[j].0 by {
                assert(init[i] == pairs[i] && init[j] == pairs[j]);
            }
        }
        lemma_map_of_distinct_pairs(init);
        lemma_map_of_pairs_dom(init);
        let last = pairs.last();
        assert(!map_of_pairs(init).dom().contains(last.0)) by {
            if map_of_pairs(init).dom().contains(last.0) {
                let i = choose|i: int| 0 <= i < init.len() && init[i].0 == last.0;
                assert(pairs[i].0 == pairs[pairs.len() - 1].0);
            }
        }
        assert forall|i: int| 0 <= i < pairs.len() implies #[trigger] map_of_pairs(
            pairs,
        )[pairs[i].0] == pairs[i].1 by {
            if i < pairs.len() - 1 {
                assert(init[i] == pairs[i]);
                assert(pairs[i].0 != pairs[pairs.len() - 1].0);
            }
        }
    }
}

/// A name that no later pair repeats keeps the id of its own pair.
pub proof fn lemma_map_of_pairs_last_occurrence(pairs: Seq<(Seq<char>, u16)>, i: int)
    requires
        0 <= i < pairs.len(),
        forall|j: int| i < j < pairs.len() ==> #[trigger] pairs[j].0 != pairs[i].0,
    ensures
        map_of_pairs(pairs).contains_key(pairs[i].0),
        map_of_pairs(pairs)[pairs[i].0] == pairs[i].1,
    decreases pairs.len(),
{
    if i < pairs.len() - 1 {
        let init = pairs.drop_last();
        assert(pairs[pairs.len() - 1].0 != pairs[i].0);
        assert forall|j: int| i < j < init.len() implies #[trigger] init[j].0 != init[i].0 by {
            assert(init[j] == pairs[j]);
            assert(pairs[j].0 != pairs[i].0);
        }
        lemma_map_of_pairs_last_occurrence(init, i);
        assert(init[i] == pairs[i]);
    }
}

/// Replacing the id of a name that occurs once is inserting into the map.
pub proof fn lemma_map_of_pairs_update(pairs: Seq<(Seq<char>, u16)>, j: int, id: u16)
    requires
        names_distinct(pairs),
        0 <= j < pairs.len(),
    ensures
        map_of_pairs(pairs.update(j, (pairs[j].0, id))) == map_of_pairs(pairs).insert(
            pairs[j].0,
            id,
        ),
    decreases pairs.len(),
{
    let k = pairs[j].0;
    let updated = pairs.update(j, (k, id));
    let init = pairs.drop_last();
    assert(updated.drop_last() =~= if j == pairs.len() - 1 {
        init
    } else {
        init.update(j, (k, id))
    });
    if j == pairs.len() - 1 {
        assert(map_of_pairs(updated) =~= map_of_pairs(pairs).insert(k, id));
    } else {
        assert(names_distinct(init)) by {
            assert forall|a: int, b: int|
                0 <= a < init.len() && 0 <= b < init.len() && a != b implies #[trigger] init[a].0
                != #[trigger] init[b].0 by {
                assert(init[a] == pairs[a] && init[b] == pairs[b]);
            }
        }
        lemma_map_of_pairs_update(init, j, id);
        assert(pairs.last().0 != k);
        assert(map_of_pairs(updated) =~= map_of_pairs(pairs).insert(k, id));
    }
}

/// The static channels of a connection, by name.
pub struct StaticChannels {
    entries: Vec<(String, u16)>,
}

impl StaticChannels {
    /// The (name, id) pairs in the order in which the channels are visited.
    pub closed spec fn pairs(self) -> Seq<(Seq<char>, u16)> {
        self.entries@.map_values(|e: (String, u16)| (e.0@, e.1))
    }

    #[verifier::type_invariant]
    spec fn inv(self) -> bool {
        names_distinct(self.pairs())
    }

    /// Creates a map with no channel.
    pub fn new() -> (r: Self)
        ensures
            r@ == Map::<Seq<char>, u16>::empty(),
    {
        let r = StaticChannels { entries: Vec::new() };
        assert(r.pairs() =~= Seq::<(Seq<char>, u16)>::empty());
        r
    }

    /// The number of channels.
    pub fn len(&self) -> (r: usize)
        ensures
            r == self@.dom().len(),
    {
        proof {
            use_type_invariant(self);
            lemma_map_of_distinct_pairs(self.pairs());
        }
        self.entries.len()
    }

    /// Gives `name` the id `id`, replacing the id that it had.
    pub fn insert(&mut self, name: String, id: u16)
        ensures
            final(self)@ == old(self)@.insert(name@, id),
    {
        proof {
            use_type_invariant(&*self);
        }
        let n = self.entries.len();
        let mut i: usize = 0;
        while i < n
            invariant
                n == self.entries@.len(),
                i <= n,
                names_distinct(self.pairs()),
                self.pairs() == old(self).pairs(),
                forall|j: int| 0 <= j < i ==> self.pairs()[j].0 != name@,
            decreases n - i,
        {
            if self.entries[i].0 == name {
                let ghost before = self.pairs();
                proof {
                    lemma_map_of_pairs_update(before, i as int, id);
                }
                let mut entries: Vec<(String, u16)> = Vec::new();
                std::mem::swap(&mut entries, &mut self.entries);
                entries.set(i, (name, id));
                let ghost after = entries@.map_values(|e: (String, u16)| (e.0@, e.1));
                assert(after =~= before.update(i as int, (before[i as int].0, id)));
                assert(names_distinct(after)) by {
                    assert forall|a: int, b: int|
                        0 <= a < after.len() && 0 <= b < after.len() && a != b implies #[trigger] after[a].0
                        != #[trigger] after[b].0 by {
                        assert(after[a].0 == before[a].0 && after[b].0 == before[b].0);
                    }
                }
                self.entries = entries;
                assert(self.pairs() == after);
                assert(before[i as int].0 == name@);
                return;
            }
            i += 1;
        }
        let ghost before = self.pairs();
        let mut entries: Vec<(String, u16)> = Vec::new();
        std::mem::swap(&mut entries, &mut self.entries);
        entries.push((name, id));
        let ghost after = entries@.map_values(|e: (String, u16)| (e.0@, e.1));
        assert(after.drop_last() =~= before);
        assert(names_distinct(after)) by {
            assert forall|a: int, b: int|
                0 <= a < after.len() && 0 <= b < after.len() && a != b implies #[trigger] after[a].0
                != #[trigger] after[b].0 by {
                if a < n && b < n {
                    assert(after[a] == before[a] && after[b] == before[b]);
                } else if a < n {
                    assert(after[a] == before[a] && after[b].0 == name@);
                } else {
                    assert(after[b] == before[b] && after[a].0 == name@);
                }
            }
        }
        self.entries = entries;
        assert(self.pairs() == after);
        assert(after.last() == (name@, id));
    }

    /// The id of the channel called `name`, if there is one.
    pub fn get(&self, name: &String) -> (r: Option<u16>)
        ensures
            r == (if self@.contains_key(name@) {
                Some(self@[name@])
            } else {
                None
            }),
    {
        proof {
            use_type_invariant(self);
            lemma_map_of_distinct_pairs(self.pairs());
            lemma_map_of_pairs_dom(self.pairs());
        }
        let n = self.entries.len();
        let mut i: usize = 0;
        while i < n
            invariant
                n == self.entries@.len(),
                i <= n,
                forall|j: int| 0 <= j < i ==> self.pairs()[j].0 != name@,
            decreases n - i,
        {
            if self.entries[i].0 == *name {
                assert(self.pairs()[i as int].0 == name@);
                proof {
                    use_type_invariant(self);
                    lemma_map_of_distinct_pairs(self.pairs());
                    lemma_map_of_pairs_dom(self.pairs());
                }
                assert(map_of_pairs(self.pairs())[self.pairs()[i as int].0] == self.pairs()[i as int].1);
                assert(self@.contains_key(name@));
                return Some(self.entries[i].1);
            }
            i += 1;
        }
        None
    }

    /// All channels, each once, in the order in which they are visited.
    pub fn to_vec(&self) -> (r: Vec<(String, u16)>)
        ensures
            r.len() == self@.dom().len(),
            forall|i: int|
                0 <= i < r.len() ==> self@.contains_key(#[trigger] r[i].0@) && self@[r[i].0@]
                    == r[i].1,
            forall|i: int, j: int|
                0 <= i < r.len() && 0 <= j < r.len() && i != j ==> #[trigger] r[i].0@
                    != #[trigger] r[j].0@,
    {
        proof {
            use_type_invariant(self);
            lemma_map_of_distinct_pairs(self.pairs());
            lemma_map_of_pairs_dom(self.pairs());
        }
        let n = self.entries.len();
        let mut r: Vec<(String, u16)> = Vec::new();
        let mut i: usize = 0;
        while i < n
            invariant
                n == self.entries@.len(),
                i <= n,
                r.len() == i,
                forall|j: int| 0 <= j < i ==> #[trigger] r[j].0@ == self.pairs()[j].0 && r[j].1
                    == self.pairs()[j].1,
            decreases n - i,
        {
            let name = self.entries[i].0.clone();
            r.push((name, self.entries[i].1));
            i += 1;
        }
        proof {
            assert forall|a: int| 0 <= a < r.len() implies self@.contains_key(#[trigger] r[a].0@)
                && self@[r[a].0@] == r[a].1 by {
                assert(map_of_pairs(self.pairs())[self.pairs()[a].0] == self.pairs()[a].1);
            }
        }
        r
    }
}

impl View for StaticChannels {
    type V = Map<Seq<char>, u16>;

    closed spec fn view(&self) -> Map<Seq<char>, u16> {
        map_of_pairs(self.pairs())
    }
}

} // verus!
