use vstd::prelude::*;
use vstd::string::*;

verus! {

/// A label pair seen as two character sequences.
pub open spec fn pair_view(pair: (String, String)) -> (Seq<char>, Seq<char>) {
    (pair.0@, pair.1@)
}

/// The label pairs of a vector, seen as character sequences.
pub open spec fn pairs_view(pairs: Seq<(String, String)>) -> Seq<(Seq<char>, Seq<char>)> {
    pairs.map_values(|pair: (String, String)| pair_view(pair))
}

/// The map that inserting `pairs` one after the other into an empty map
/// gives: a later pair wins over an earlier one with the same key.
pub open spec fn map_of(pairs: Seq<(Seq<char>, Seq<char>)>) -> Map<Seq<char>, Seq<char>>
    decreases pairs.len(),
{
    if pairs.len() == 0 {
        Map::empty()
    } else {
        map_of(pairs.drop_last()).insert(pairs.last().0, pairs.last().1)
    }
}

/// No key occurs twice among `pairs`.
pub open spec fn distinct_keys(pairs: Seq<(Seq<char>, Seq<char>)>) -> bool {
    forall|i: int, j: int| 0 <= i < j < pairs.len() ==> #[trigger] pairs[i].0 != #[trigger] pairs[j].0
}

/// In pairs with distinct keys, each pair's value is what the map holds for its key.
pub proof fn lemma_map_of_index(pairs: Seq<(Seq<char>, Seq<char>)>, i: int)
    requires
        distinct_keys(pairs),
        0 <= i < pairs.len(),
    ensures
        map_of(pairs).contains_key(pairs[i].0),
        map_of(pairs)[pairs[i].0] == pairs[i].1,
    decreases pairs.len(),
{
    if i < pairs.len() - 1 {
        let rest = pairs.drop_last();
        assert(rest[i] == pairs[i]);
        assert(pairs[i].0 != pairs[pairs.len() - 1].0);
        lemma_map_of_index(rest, i);
    }
}

/// The map holds, for a key, the value of the last pair that carries it.
pub proof fn lemma_map_of_last_wins(pairs: Seq<(Seq<char>, Seq<char>)>, i: int)
    requires
        0 <= i < pairs.len(),
        forall|j: int| i < j < pairs.len() ==> #[trigger] pairs[j].0 != pairs[i].0,
    ensures
        map_of(pairs).contains_key(pairs[i].0),
        map_of(pairs)[pairs[i].0] == pairs[i].1,
    decreases pairs.len(),
{
    if i < pairs.len() - 1 {
        let rest = pairs.drop_last();
        assert(rest[i] == pairs[i]);
        assert(pairs[pairs.len() - 1].0 != pairs[i].0);
        assert forall|j: int| i < j < rest.len() implies #[trigger] rest[j].0 != rest[i].0 by {
            assert(rest[j] == pairs[j]);
        }
        lemma_map_of_last_wins(rest, i);
    }
}

/// A key that no pair carries is not in the map.
pub proof fn lemma_map_of_absent(pairs: Seq<(Seq<char>, Seq<char>)>, key: Seq<char>)
    requires
        forall|i: int| 0 <= i < pairs.len() ==> #[trigger] pairs[i].0 != key,
    ensures
        !map_of(pairs).contains_key(key),
    decreases pairs.len(),
{
    if pairs.len() > 0 {
        let rest = pairs.drop_last();
        assert forall|i: int| 0 <= i < rest.len() implies #[trigger] rest[i].0 != key by {
            assert(rest[i] == pairs[i]);
        }
        assert(pairs[pairs.len() - 1].0 != key);
        lemma_map_of_absent(rest, key);
    }
}

/// Every key of the map is carried by some pair.
pub proof fn lemma_map_of_dom(pairs: Seq<(Seq<char>, Seq<char>)>, key: Seq<char>)
    requires
        map_of(pairs).contains_key(key),
    ensures
        exists|i: int| 0 <= i < pairs.len() && #[trigger] pairs[i].0 == key,
{
    if !(exists|i: int| 0 <= i < pairs.len() && #[trigger] pairs[i].0 == key) {
        lemma_map_of_absent(pairs, key);
    }
}

/// Replacing the value of one pair, among pairs with distinct keys, is
/// inserting that key with the new value into the map.
pub proof fn lemma_map_of_update(pairs: Seq<(Seq<char>, Seq<char>)>, i: int, value: Seq<char>)
    requires
        distinct_keys(pairs),
        0 <= i < pairs.len(),
    ensures
        map_of(pairs.update(i, (pairs[i].0, value))) == map_of(pairs).insert(pairs[i].0, value),
    decreases pairs.len(),
{
    let key = pairs[i].0;
    let updated = pairs.update(i, (key, value));
    let last = pairs.len() - 1;
    if i == last {
        assert(updated.drop_last() =~= pairs.drop_last());
        assert(map_of(updated) =~= map_of(pairs).insert(key, value));
    } else {
        let rest = pairs.drop_last();
        assert(rest[i] == pairs[i]);
        assert(distinct_keys(rest)) by {
            assert forall|a: int, b: int| 0 <= a < b < rest.len() implies #[trigger] rest[a].0
                != #[trigger] rest[b].0 by {
                assert(rest[a] == pairs[a] && rest[b] == pairs[b]);
            }
        }
        lemma_map_of_update(rest, i, value);
        assert(updated.drop_last() =~= rest.update(i, (key, value)));
        assert(pairs[last].0 != key);
        assert(updated.last() == pairs.last());
        assert(map_of(updated) =~= map_of(pairs).insert(key, value));
    }
}

/// Appending a pair whose key is new keeps the keys distinct.
pub proof fn lemma_distinct_push(pairs: Seq<(Seq<char>, Seq<char>)>, pair: (Seq<char>, Seq<char>))
    requires
        distinct_keys(pairs),
        forall|i: int| 0 <= i < pairs.len() ==> #[trigger] pairs[i].0 != pair.0,
    ensures
        distinct_keys(pairs.push(pair)),
{
    let pushed = pairs.push(pair);
    assert forall|a: int, b: int| 0 <= a < b < pushed.len() implies #[trigger] pushed[a].0
        != #[trigger] pushed[b].0 by {
        assert(pushed[a] == pairs[a]);
        if b < pairs.len() {
            assert(pushed[b] == pairs[b]);
        }
    }
}

/// Changing the value of one pair keeps the keys distinct.
pub proof fn lemma_distinct_update(
    pairs: Seq<(Seq<char>, Seq<char>)>,
    i: int,
    value: Seq<char>,
)
    requires
        distinct_keys(pairs),
        0 <= i < pairs.len(),
    ensures
        distinct_keys(pairs.update(i, (pairs[i].0, value))),
{
    let updated = pairs.update(i, (pairs[i].0, value));
    assert forall|a: int, b: int| 0 <= a < b < updated.len() implies #[trigger] updated[a].0
        != #[trigger] updated[b].0 by {
        assert(updated[a].0 == pairs[a].0);
        assert(updated[b].0 == pairs[b].0);
    }
}

/// The labels of a Kubernetes object: a map from label key to label value.
///
/// It is held as a list of pairs in which no key occurs twice.
#[derive(Debug)]
pub struct Labels {
    entries: Vec<(String, String)>,
}

impl View for Labels {
    type V = Map<Seq<char>, Seq<char>>;

    closed spec fn view(&self) -> Map<Seq<char>, Seq<char>> {
        map_of(pairs_view(self.entries@))
    }
}

impl Labels {
    #[verifier::type_invariant]
    closed spec fn keys_are_distinct(self) -> bool {
        distinct_keys(pairs_view(self.entries@))
    }

    /// No labels.
    pub fn new() -> (labels: Labels)
        ensures
            labels@ == Map::<Seq<char>, Seq<char>>::empty(),
    {
        let labels = Labels { entries: Vec::new() };
        assert(pairs_view(labels.entries@) =~= Seq::<(Seq<char>, Seq<char>)>::empty());
        labels
    }

    /// The value of the label `key`, if there is one.
    pub fn get(&self, key: &str) -> (value: Option<&String>)
        ensures
            match value {
                Some(v) => self@.contains_key(key@) && self@[key@] == v@,
                None => !self@.contains_key(key@),
            },
    {
        proof {
            use_type_invariant(self);
        }
        let wanted = String::from_str(key);
        let ghost views = pairs_view(self.entries@);
        let mut i: usize = 0;
        while i < self.entries.len()
            invariant
                i <= self.entries.len(),
                wanted@ == key@,
                views == pairs_view(self.entries@),
                distinct_keys(views),
                forall|j: int| 0 <= j < i ==> #[trigger] views[j].0 != key@,
            decreases self.entries.len() - i,
        {
            if self.entries[i].0 == wanted {
                proof {
                    assert(views[i as int] == pair_view(self.entries@[i as int]));
                    lemma_map_of_index(views, i as int);
                }
                return Some(&self.entries[i].1);
            }
            assert(views[i as int] == pair_view(self.entries@[i as int]));
            i = i + 1;
        }
        proof {
            lemma_map_of_absent(views, key@);
        }
        None
    }

    /// Set the label `key` to `value`, replacing the value it had.
    pub fn insert(&mut self, key: String, value: String)
        ensures
            final(self)@ == old(self)@.insert(key@, value@),
    {
        proof {
            use_type_invariant(&*self);
        }
        let mut entries: Vec<(String, String)> = Vec::new();
        std::mem::swap(&mut entries, &mut self.entries);
        let ghost before = pairs_view(entries@);
        assert(before == pairs_view(old(self).entries@));
        let mut i: usize = 0;
        while i < entries.len()
            invariant
                i <= entries.len(),
                before == pairs_view(entries@),
                before == pairs_view(old(self).entries@),
                distinct_keys(before),
                forall|j: int| 0 <= j < i ==> #[trigger] before[j].0 != key@,
            decreases entries.len() - i,
        {
            assert(before[i as int] == pair_view(entries@[i as int]));
            if entries[i].0 == key {
                let ghost k = entries@[i as int].0@;
                entries.set(i, (key, value));
                proof {
                    assert(pairs_view(entries@) =~= before.update(i as int, (k, value@)));
                    lemma_map_of_update(before, i as int, value@);
                    lemma_distinct_update(before, i as int, value@);
                }
                self.entries = entries;
                return ;
            }
            i = i + 1;
        }
        let ghost kv = (key@, value@);
        entries.push((key, value));
        proof {
            assert(pairs_view(entries@) =~= before.push(kv));
            assert(map_of(before.push(kv)).insert(kv.0, kv.1) == map_of(before.push(kv)));
            assert(before.push(kv).drop_last() =~= before);
            lemma_distinct_push(before, kv);
        }
        self.entries = entries;
    }

    /// Labels holding `pairs`, inserted in order, so that a later pair wins
    /// over an earlier one with the same key.
    pub fn from_pairs(pairs: Vec<(String, String)>) -> (labels: Labels)
        ensures
            labels@ == map_of(pairs_view(pairs@)),
    {
        let mut labels = Labels::new();
        let ghost all = pairs_view(pairs@);
        let mut i: usize = 0;
        while i < pairs.len()
            invariant
                i <= pairs.len(),
                all == pairs_view(pairs@),
                labels@ == map_of(all.take(i as int)),
            decreases pairs.len() - i,
        {
            let key = pairs[i].0.clone();
            let value = pairs[i].1.clone();
            labels.insert(key, value);
            proof {
                assert(all.take(i + 1).drop_last() =~= all.take(i as int));
                assert(all[i as int] == pair_view(pairs@[i as int]));
            }
            i = i + 1;
        }
        assert(all.take(pairs.len() as int) =~= all);
        labels
    }

    /// The label pairs, each key once.
    pub fn entries(&self) -> (entries: &Vec<(String, String)>)
        ensures
            distinct_keys(pairs_view(entries@)),
            map_of(pairs_view(entries@)) == self@,
    {
        proof {
            use_type_invariant(self);
        }
        &self.entries
    }
}

} // verus!
