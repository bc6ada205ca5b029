//! A string-keyed association list with a `Map` view. The stores of this core
//! (users, sessions, route tables, the per-request scratchpad) all need exact
//! lookup by string key; this list keeps its keys unique, so its view is a
//! finite map from key characters to values.
use vstd::prelude::*;

verus! {

/// Folds an association sequence into a map; a later entry overwrites an
/// earlier one with the same key.
pub open spec fn assoc_view<V>(s: Seq<(String, V)>) -> Map<Seq<char>, V>
    decreases s.len(),
{
    if s.len() == 0 {
        Map::empty()
    } else {
        assoc_view(s.drop_last()).insert(s.last().0@, s.last().1)
    }
}

/// No two entries share a key.
pub open spec fn keys_unique<V>(s: Seq<(String, V)>) -> bool {
    forall|i: int, j: int| 0 <= i < j < s.len() ==> s[i].0@ != s[j].0@
}

/// With unique keys, the folded map holds exactly the listed entries.
pub proof fn lemma_assoc_view<V>(s: Seq<(String, V)>)
    requires
        keys_unique(s),
    ensures
        forall|k: Seq<char>|
            assoc_view(s).contains_key(k) <==> exists|i: int|
                0 <= i < s.len() && #[trigger] s[i].0@ == k,
        forall|i: int|
            0 <= i < s.len() ==> #[trigger] assoc_view(s)[s[i].0@] == s[i].1,
    decreases s.len(),
{
    if s.len() > 0 {
        assert(keys_unique(s.drop_last()));
        lemma_assoc_view(s.drop_last());
        assert forall|k: Seq<char>| assoc_view(s).contains_key(k) implies exists|i: int|
            0 <= i < s.len() && #[trigger] s[i].0@ == k by {
            if k == s.last().0@ {
                assert(s[s.len() - 1].0@ == k);
            } else {
                assert(assoc_view(s.drop_last()).contains_key(k));
                let i = choose|i: int| 0 <= i < s.drop_last().len() && #[trigger] s.drop_last()[i].0@
                    == k;
                assert(s.drop_last()[i] == s[i]);
                assert(s[i].0@ == k);
            }
        }
        assert forall|k: Seq<char>| (exists|i: int| 0 <= i < s.len() && #[trigger] s[i].0@ == k)
            implies assoc_view(s).contains_key(k) by {
            let i = choose|i: int| 0 <= i < s.len() && #[trigger] s[i].0@ == k;
            if i < s.len() - 1 {
                assert(s.drop_last()[i] == s[i]);
                assert(assoc_view(s.drop_last()).contains_key(k));
            }
        }
        assert forall|i: int| 0 <= i < s.len() implies #[trigger] assoc_view(s)[s[i].0@]
            == s[i].1 by {
            if i < s.len() - 1 {
                assert(s.drop_last()[i] == s[i]);
                assert(assoc_view(s.drop_last())[s.drop_last()[i].0@] == s.drop_last()[i].1);
                assert(s[i].0@ != s.last().0@);
            }
        }
    }
}

/// A list of `(key, value)` pairs with unique keys, viewed as a map.
#[derive(Debug)]
pub struct KvList<V> {
    pairs: Vec<(String, V)>,
}

impl<V> KvList<V> {
    /// The keys stay unique; every operation preserves this.
    pub closed spec fn wf(self) -> bool {
        keys_unique(self.pairs@)
    }

    pub closed spec fn view(self) -> Map<Seq<char>, V> {
        assoc_view(self.pairs@)
    }

    /// The listed entries, in insertion order.
    pub closed spec fn entries(self) -> Seq<(String, V)> {
        self.pairs@
    }

    /// Creates an empty store.
    pub fn new() -> (r: KvList<V>)
        ensures
            r.wf(),
            r@ == Map::<Seq<char>, V>::empty(),
            r.entries() == Seq::<(String, V)>::empty(),
    {
        KvList { pairs: Vec::new() }
    }

    /// Finds the position of `key`, if present.
    fn position(&self, key: &String) -> (r: Option<usize>)
        requires
            self.wf(),
        ensures
            match r {
                Some(i) => i < self.pairs@.len() && self.pairs@[i as int].0@ == key@,
                None => forall|i: int|
                    0 <= i < self.pairs@.len() ==> #[trigger] self.pairs@[i].0@ != key@,
            },
    {
        let mut i: usize = 0;
        while i < self.pairs.len()
            invariant
                i <= self.pairs@.len(),
                forall|j: int| 0 <= j < i ==> #[trigger] self.pairs@[j].0@ != key@,
            decreases self.pairs@.len() - i,
        {
            if self.pairs[i].0.eq(key) {
                return Some(i);
            }
            i += 1;
        }
        None
    }

    /// Exact lookup: returns the value stored under `key`, if any.
    pub fn get(&self, key: &String) -> (r: Option<&V>)
        requires
            self.wf(),
        ensures
            match r {
                Some(v) => self@.contains_key(key@) && *v == self@[key@],
                None => !self@.contains_key(key@),
            },
    {
        proof {
            lemma_assoc_view(self.pairs@);
        }
        match self.position(key) {
            Some(i) => Some(&self.pairs[i].1),
            None => None,
        }
    }

    /// Whether `key` is present.
    pub fn contains_key(&self, key: &String) -> (r: bool)
        requires
            self.wf(),
        ensures
            r == self@.contains_key(key@),
    {
        self.get(key).is_some()
    }

    /// Stores `value` under `key`, overwriting any earlier value.
    pub fn set(&mut self, key: String, value: V)
        requires
            old(self).wf(),
        ensures
            final(self).wf(),
            final(self)@ == old(self)@.insert(key@, value),
    {
        proof {
            lemma_assoc_view(self.pairs@);
        }
        match self.position(&key) {
            Some(i) => {
                self.pairs[i] = (key, value);
                proof {
                    lemma_assoc_view(self.pairs@);
                    assert(self.pairs@[i as int].0@ == key@);
                    assert forall|k: Seq<char>| #[trigger] self@.contains_key(k) implies old(
                        self,
                    )@.insert(key@, value).contains_key(k) by {
                        let j = choose|j: int|
                            0 <= j < self.pairs@.len() && #[trigger] self.pairs@[j].0@ == k;
                        if j != i {
                            assert(old(self).pairs@[j].0@ == k);
                        }
                    }
                    assert forall|k: Seq<char>| #[trigger] old(self)@.insert(
                        key@,
                        value,
                    ).contains_key(k) implies self@.contains_key(k) by {
                        if k != key@ {
                            let j = choose|j: int|
                                0 <= j < old(self).pairs@.len() && #[trigger] old(
                                    self,
                                ).pairs@[j].0@ == k;
                            assert(self.pairs@[j].0@ == k);
                        }
                    }
                    assert forall|k: Seq<char>| #[trigger] self@.contains_key(k) implies self@[k]
                        == old(self)@.insert(key@, value)[k] by {
                        if k != key@ {
                            let j = choose|j: int|
                                0 <= j < old(self).pairs@.len() && #[trigger] old(
                                    self,
                                ).pairs@[j].0@ == k;
                            assert(self.pairs@[j].0@ == k && self.pairs@[j].1 == old(
                                self,
                            ).pairs@[j].1);
                        }
                    }
                    assert(self@ =~= old(self)@.insert(key@, value));
                }
            },
            None => {
                let ghost before = self.pairs@;
                self.pairs.push((key, value));
                proof {
                    assert(self.pairs@.drop_last() =~= before);
                }
            },
        }
    }

    /// How many keys are stored.
    pub fn len(&self) -> (r: usize)
        requires
            self.wf(),
        ensures
            r == self.entries().len(),
    {
        self.pairs.len()
    }
}

} // verus!
