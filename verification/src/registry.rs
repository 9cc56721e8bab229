//! A list of values, each under a key of its own.

use vstd::prelude::*;
use vstd::string::StringExecFns;

verus! {

/// Whether no two keys of the list are the same.
pub open spec fn distinct_keys<T>(entries: Seq<(Seq<char>, T)>) -> bool {
    forall|i: int, j: int|
        0 <= i < entries.len() && 0 <= j < entries.len() && i != j ==> (#[trigger] entries[i]).0
            != (#[trigger] entries[j]).0
}

/// Whether some entry has the key.
pub open spec fn listed<T>(entries: Seq<(Seq<char>, T)>, key: Seq<char>) -> bool {
    exists|i: int| 0 <= i < entries.len() && (#[trigger] entries[i]).0 == key
}

/// The place of an entry with the key.
pub open spec fn place_of<T>(entries: Seq<(Seq<char>, T)>, key: Seq<char>) -> int {
    choose|i: int| 0 <= i < entries.len() && (#[trigger] entries[i]).0 == key
}

/// The entries as a map from key to value.
pub open spec fn as_map<T>(entries: Seq<(Seq<char>, T)>) -> Map<Seq<char>, T> {
    Map::new(
        |key: Seq<char>| listed(entries, key),
        |key: Seq<char>| entries[place_of(entries, key)].1,
    )
}

/// In a list without repeated keys, the entry at `i` is the one its key maps to.
pub proof fn lemma_entry_is_mapped<T>(entries: Seq<(Seq<char>, T)>, i: int)
    requires
        distinct_keys(entries),
        0 <= i < entries.len(),
    ensures
        listed(entries, entries[i].0),
        place_of(entries, entries[i].0) == i,
        as_map(entries).contains_key(entries[i].0),
        as_map(entries)[entries[i].0] == entries[i].1,
{
    let key = entries[i].0;
    assert(listed(entries, key));
    let p = place_of(entries, key);
    assert(0 <= p < entries.len() && entries[p].0 == key);
}

/// A list without repeated keys maps exactly as many keys as it has entries.
pub proof fn lemma_map_size<T>(entries: Seq<(Seq<char>, T)>)
    requires
        distinct_keys(entries),
    ensures
        as_map(entries).dom().finite(),
        as_map(entries).dom().len() == entries.len(),
    decreases entries.len(),
{
    if entries.len() == 0 {
        assert(as_map(entries).dom() =~= Set::<Seq<char>>::empty());
    } else {
        let front = entries.drop_last();
        let last = entries.last();
        assert(distinct_keys(front)) by {
            assert forall|i: int, j: int|
                0 <= i < front.len() && 0 <= j < front.len() && i != j implies (
            #[trigger] front[i]).0 != (#[trigger] front[j]).0 by {
                assert(front[i] == entries[i]);
                assert(front[j] == entries[j]);
            }
        }
        lemma_map_size(front);
        assert(!listed(front, last.0)) by {
            if listed(front, last.0) {
                let i = place_of(front, last.0);
                assert(front[i] == entries[i]);
                assert(entries[entries.len() - 1] == last);
            }
        }
        assert(as_map(entries).dom() =~= as_map(front).dom().insert(last.0)) by {
            assert forall|key: Seq<char>| listed(entries, key) <==> (listed(front, key) || key
                == last.0) by {
                if listed(entries, key) {
                    let i = place_of(entries, key);
                    if i < front.len() {
                        assert(front[i].0 == key);
                    }
                }
                if listed(front, key) {
                    let i = place_of(front, key);
                    assert(entries[i].0 == key);
                }
                if key == last.0 {
                    assert(entries[entries.len() - 1].0 == key);
                }
            }
        }
    }
}

/// Replacing the value of an entry changes the map at its key only.
pub proof fn lemma_update_keeps_map<T>(entries: Seq<(Seq<char>, T)>, i: int, value: T)
    requires
        distinct_keys(entries),
        0 <= i < entries.len(),
    ensures
        distinct_keys(entries.update(i, (entries[i].0, value))),
        as_map(entries.update(i, (entries[i].0, value))) == as_map(entries).insert(
            entries[i].0,
            value,
        ),
{
    let key = entries[i].0;
    let after = entries.update(i, (key, value));
    assert forall|p: int, q: int|
        0 <= p < after.len() && 0 <= q < after.len() && p != q implies (#[trigger] after[p]).0 != (
    #[trigger] after[q]).0 by {
        assert(after[p].0 == entries[p].0);
        assert(after[q].0 == entries[q].0);
    }
    assert forall|k: Seq<char>| listed(after, k) <==> listed(entries, k) by {
        if listed(after, k) {
            let p = place_of(after, k);
            assert(entries[p].0 == k);
        }
        if listed(entries, k) {
            let p = place_of(entries, k);
            assert(after[p].0 == k);
        }
    }
    assert(listed(entries, key));
    assert forall|k: Seq<char>| listed(after, k) implies #[trigger] as_map(after)[k] == as_map(
        entries,
    ).insert(key, value)[k] by {
        let p = place_of(after, k);
        lemma_entry_is_mapped(after, p);
        if k != key {
            assert(p != i);
            assert(entries[p].0 == k);
            lemma_entry_is_mapped(entries, p);
        } else {
            assert(after[i].0 == k);
            lemma_entry_is_mapped(after, i);
        }
    }
    assert(as_map(after) =~= as_map(entries).insert(key, value));
}

/// Appending an entry with a new key adds that key to the map.
pub proof fn lemma_push_extends_map<T>(entries: Seq<(Seq<char>, T)>, key: Seq<char>, value: T)
    requires
        distinct_keys(entries),
        !listed(entries, key),
    ensures
        distinct_keys(entries.push((key, value))),
        as_map(entries.push((key, value))) == as_map(entries).insert(key, value),
{
    let after = entries.push((key, value));
    assert forall|p: int, q: int|
        0 <= p < after.len() && 0 <= q < after.len() && p != q implies (#[trigger] after[p]).0 != (
    #[trigger] after[q]).0 by {
        if p < entries.len() {
            assert(after[p] == entries[p]);
        }
        if q < entries.len() {
            assert(after[q] == entries[q]);
        }
    }
    assert forall|k: Seq<char>| listed(after, k) <==> (listed(entries, k) || k == key) by {
        if listed(after, k) {
            let p = place_of(after, k);
            if p < entries.len() {
                assert(entries[p].0 == k);
            }
        }
        if listed(entries, k) {
            let p = place_of(entries, k);
            assert(after[p].0 == k);
        }
        if k == key {
            assert(after[entries.len() as int].0 == k);
        }
    }
    assert forall|k: Seq<char>| listed(after, k) implies #[trigger] as_map(after)[k] == as_map(
        entries,
    ).insert(key, value)[k] by {
        let p = place_of(after, k);
        lemma_entry_is_mapped(after, p);
        if k != key {
            assert(p < entries.len());
            assert(entries[p].0 == k);
            lemma_entry_is_mapped(entries, p);
        } else {
            lemma_entry_is_mapped(after, entries.len() as int);
        }
    }
    assert(as_map(after) =~= as_map(entries).insert(key, value));
}

/// Removing an entry removes its key from the map and nothing else.
pub proof fn lemma_remove_shrinks_map<T>(entries: Seq<(Seq<char>, T)>, i: int)
    requires
        distinct_keys(entries),
        0 <= i < entries.len(),
    ensures
        distinct_keys(entries.remove(i)),
        as_map(entries.remove(i)) == as_map(entries).remove(entries[i].0),
{
    let after = entries.remove(i);
    let gone = entries[i].0;
    assert forall|p: int, q: int|
        0 <= p < after.len() && 0 <= q < after.len() && p != q implies (#[trigger] after[p]).0 != (
    #[trigger] after[q]).0 by {
        let pp = if p < i {
            p
        } else {
            p + 1
        };
        let qq = if q < i {
            q
        } else {
            q + 1
        };
        assert(after[p] == entries[pp]);
        assert(after[q] == entries[qq]);
    }
    assert forall|k: Seq<char>| listed(after, k) <==> (listed(entries, k) && k != gone) by {
        if listed(after, k) {
            let p = place_of(after, k);
            let pp = if p < i {
                p
            } else {
                p + 1
            };
            assert(after[p] == entries[pp]);
            assert(entries[pp].0 == k);
            assert(pp != i);
        }
        if listed(entries, k) && k != gone {
            let p = place_of(entries, k);
            assert(p != i);
            let q = if p < i {
                p
            } else {
                p - 1
            };
            assert(after[q] == entries[p]);
            assert(after[q].0 == k);
        }
    }
    assert forall|k: Seq<char>| listed(after, k) implies #[trigger] as_map(after)[k] == as_map(
        entries,
    ).remove(gone)[k] by {
        let p = place_of(after, k);
        lemma_entry_is_mapped(after, p);
        let pp = if p < i {
            p
        } else {
            p + 1
        };
        assert(after[p] == entries[pp]);
        lemma_entry_is_mapped(entries, pp);
    }
    assert(as_map(after) =~= as_map(entries).remove(gone));
}

/// A key with its value.
pub struct Entry<T> {
    pub key: String,
    pub value: T,
}

/// The keys and values of a vector of entries.
pub open spec fn pairs<T>(items: Seq<Entry<T>>) -> Seq<(Seq<char>, T)> {
    items.map_values(|e: Entry<T>| (e.key@, e.value))
}

/// A list of values under distinct keys. It keeps the order in which the keys
/// first came in, and is read as a map from key to value.
pub struct KeyedList<T> {
    items: Vec<Entry<T>>,
}

impl<T> View for KeyedList<T> {
    type V = Map<Seq<char>, T>;

    closed spec fn view(&self) -> Map<Seq<char>, T> {
        as_map(self.entries())
    }
}

impl<T> KeyedList<T> {
    /// The keys with their values, in the list's order.
    pub closed spec fn entries(&self) -> Seq<(Seq<char>, T)> {
        pairs(self.items@)
    }

    /// No key occurs twice.
    #[verifier::type_invariant]
    pub closed spec fn well_formed(&self) -> bool {
        distinct_keys(self.entries())
    }

    /// What the list's two readings have to do with each other: the map is
    /// the list's entries, none of which share a key.
    pub open spec fn consistent(&self) -> bool {
        &&& distinct_keys(self.entries())
        &&& self@ == as_map(self.entries())
        &&& self@.dom().finite()
        &&& self@.dom().len() == self.entries().len()
    }

    /// An empty list.
    pub fn new() -> (r: Self)
        ensures
            r.entries() == Seq::<(Seq<char>, T)>::empty(),
            r@ == Map::<Seq<char>, T>::empty(),
            r.consistent(),
    {
        let r = KeyedList { items: Vec::new() };
        proof {
            assert(r.entries() =~= Seq::<(Seq<char>, T)>::empty());
            assert(r@ =~= Map::<Seq<char>, T>::empty());
            lemma_map_size(r.entries());
        }
        r
    }

    fn position(&self, key: &String) -> (r: Option<usize>)
        ensures
            match r {
                Some(i) => i < self.entries().len() && self.entries()[i as int].0 == key@,
                None => !listed(self.entries(), key@),
            },
    {
        let n = self.items.len();
        let mut i: usize = 0;
        while i < n
            invariant
                i <= n,
                n == self.items.len(),
                forall|j: int| 0 <= j < i ==> (#[trigger] self.entries()[j]).0 != key@,
            decreases n - i,
        {
            if self.items[i].key == *key {
                return Some(i);
            }
            i = i + 1;
        }
        None
    }

    /// How many entries the list has.
    pub fn len(&self) -> (r: usize)
        ensures
            r == self.entries().len(),
            r == self@.dom().len(),
            self.consistent(),
    {
        proof {
            use_type_invariant(self);
            lemma_map_size(self.entries());
        }
        self.items.len()
    }

    /// The value at place `i` of the list's order, if the list is that long.
    pub fn value_at(&self, i: usize) -> (r: Option<&T>)
        ensures
            match r {
                Some(v) => {
                    &&& i < self.entries().len()
                    &&& *v == self.entries()[i as int].1
                    &&& self@.contains_key(self.entries()[i as int].0)
                    &&& self@[self.entries()[i as int].0] == *v
                },
                None => i >= self.entries().len(),
            },
    {
        if i < self.items.len() {
            proof {
                use_type_invariant(self);
                lemma_entry_is_mapped(self.entries(), i as int);
            }
            Some(&self.items[i].value)
        } else {
            None
        }
    }

    /// Whether there is a value under `key`.
    pub fn contains_key(&self, key: &str) -> (r: bool)
        ensures
            r == self@.contains_key(key@),
            self.consistent(),
    {
        proof {
            use_type_invariant(self);
            lemma_map_size(self.entries());
        }
        let owned = String::from_str(key);
        self.position(&owned).is_some()
    }

    /// The value under `key`.
    pub fn get(&self, key: &str) -> (r: Option<&T>)
        ensures
            match r {
                Some(v) => self@.contains_key(key@) && *v == self@[key@],
                None => !self@.contains_key(key@),
            },
            self.consistent(),
    {
        proof {
            use_type_invariant(self);
            lemma_map_size(self.entries());
        }
        let owned = String::from_str(key);
        match self.position(&owned) {
            Some(i) => {
                proof {
                    use_type_invariant(self);
                    lemma_entry_is_mapped(self.entries(), i as int);
                }
                Some(&self.items[i].value)
            },
            None => None,
        }
    }

    /// Puts `value` under `key` and returns what was there before. A value
    /// under a key already present takes the old one's place; one under a new
    /// key goes to the end of the list.
    pub fn insert(&mut self, key: String, value: T) -> (r: Option<T>)
        ensures
            final(self)@ == old(self)@.insert(key@, value),
            old(self).consistent(),
            final(self).consistent(),
            match r {
                Some(v) => {
                    &&& old(self)@.contains_key(key@)
                    &&& v == old(self)@[key@]
                    &&& final(self).entries() == old(self).entries().update(
                        place_of(old(self).entries(), key@),
                        (key@, value),
                    )
                },
                None => {
                    &&& !old(self)@.contains_key(key@)
                    &&& final(self).entries() == old(self).entries().push((key@, value))
                },
            },
    {
        proof {
            use_type_invariant(&*self);
            lemma_map_size(self.entries());
        }
        let ghost before = self.entries();
        let found = self.position(&key);
        let mut items: Vec<Entry<T>> = Vec::new();
        proof {
            assert(pairs(items@) =~= Seq::<(Seq<char>, T)>::empty());
        }
        std::mem::swap(&mut self.items, &mut items);
        let previous = match found {
            Some(i) => {
                proof {
                    lemma_entry_is_mapped(before, i as int);
                    lemma_update_keeps_map(before, i as int, value);
                }
                items.push(Entry { key, value });
                let replaced = items.swap_remove(i);
                proof {
                    assert(pairs(items@) =~= before.update(i as int, (key@, value)));
                }
                Some(replaced.value)
            },
            None => {
                proof {
                    lemma_push_extends_map(before, key@, value);
                }
                items.push(Entry { key, value });
                proof {
                    assert(pairs(items@) =~= before.push((key@, value)));
                }
                None
            },
        };
        proof {
            lemma_map_size(pairs(items@));
        }
        std::mem::swap(&mut self.items, &mut items);
        previous
    }

    /// Takes the value under `key` out of the list and returns it. The others
    /// keep their order.
    pub fn remove(&mut self, key: &str) -> (r: Option<T>)
        ensures
            final(self)@ == old(self)@.remove(key@),
            old(self).consistent(),
            final(self).consistent(),
            match r {
                Some(v) => {
                    &&& old(self)@.contains_key(key@)
                    &&& v == old(self)@[key@]
                    &&& final(self).entries() == old(self).entries().remove(
                        place_of(old(self).entries(), key@),
                    )
                },
                None => {
                    &&& !old(self)@.contains_key(key@)
                    &&& final(self).entries() == old(self).entries()
                },
            },
    {
        proof {
            use_type_invariant(&*self);
            lemma_map_size(self.entries());
        }
        let ghost before = self.entries();
        let owned = String::from_str(key);
        match self.position(&owned) {
            Some(i) => {
                proof {
                    lemma_entry_is_mapped(before, i as int);
                    lemma_remove_shrinks_map(before, i as int);
                }
                let mut items: Vec<Entry<T>> = Vec::new();
                proof {
                    assert(pairs(items@) =~= Seq::<(Seq<char>, T)>::empty());
                }
                std::mem::swap(&mut self.items, &mut items);
                let taken = items.remove(i);
                proof {
                    assert(pairs(items@) =~= before.remove(i as int));
                    lemma_map_size(pairs(items@));
                }
                std::mem::swap(&mut self.items, &mut items);
                Some(taken.value)
            },
            None => {
                proof {
                    assert(as_map(before).remove(key@) =~= as_map(before));
                }
                None
            },
        }
    }
}

} // verus!
