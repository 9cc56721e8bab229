//! Beacons at known places, and the registry that holds them.

use vstd::prelude::*;
use crate::registry::lemma_entry_is_mapped;
use crate::registry::listed;
use crate::registry::place_of;
use crate::registry::KeyedList;
use crate::scalar::Scalar;

verus! {

/// A beacon with fixed coordinates.
#[derive(Debug)]
pub struct Beacon {
    /// The identity under which clients report the beacon.
    pub id: String,
    /// A friendly name; may be empty.
    pub name: String,
    pub x: Scalar,
    pub y: Scalar,
    pub z: Scalar,
}

/// The mathematical content of a `Beacon`.
pub struct BeaconView {
    pub id: Seq<char>,
    pub name: Seq<char>,
    pub x: Scalar,
    pub y: Scalar,
    pub z: Scalar,
}

impl View for Beacon {
    type V = BeaconView;

    open spec fn view(&self) -> BeaconView {
        BeaconView { id: self.id@, name: self.name@, x: self.x, y: self.y, z: self.z }
    }
}

impl Clone for Beacon {
    fn clone(&self) -> (r: Self)
        ensures
            r@ == self@,
    {
        Beacon { id: self.id.clone(), name: self.name.clone(), x: self.x, y: self.y, z: self.z }
    }
}

impl Beacon {
    pub fn new(id: String, name: String, x: Scalar, y: Scalar, z: Scalar) -> (r: Self)
        ensures
            r@ == (BeaconView { id: id@, name: name@, x, y, z }),
    {
        Beacon { id, name, x, y, z }
    }
}

/// The views of a list's beacons, in its order.
pub open spec fn beacon_views(entries: Seq<(Seq<char>, Beacon)>) -> Seq<BeaconView> {
    entries.map_values(|e: (Seq<char>, Beacon)| e.1@)
}

/// Whether every beacon of the map is the value of its own id.
pub open spec fn keyed_by_id(registry: Map<Seq<char>, BeaconView>) -> bool {
    forall|id: Seq<char>| registry.contains_key(id) ==> (#[trigger] registry[id]).id == id
}

/// Whether every entry of the list has its beacon's id for its key.
pub open spec fn keys_are_ids(entries: Seq<(Seq<char>, Beacon)>) -> bool {
    forall|i: int| 0 <= i < entries.len() ==> (#[trigger] entries[i]).0 == entries[i].1@.id
}

/// In a list whose keys are distinct and are the beacons' ids, every beacon
/// of the map is the value of its own id.
pub proof fn lemma_keyed(entries: Seq<(Seq<char>, Beacon)>)
    requires
        crate::registry::distinct_keys(entries),
        keys_are_ids(entries),
    ensures
        keyed_by_id(crate::registry::as_map(entries).map_values(|b: Beacon| b@)),
{
    let m = crate::registry::as_map(entries).map_values(|b: Beacon| b@);
    assert forall|id: Seq<char>| m.contains_key(id) implies (#[trigger] m[id]).id == id by {
        assert(listed(entries, id));
        let i = place_of(entries, id);
        lemma_entry_is_mapped(entries, i);
    }
}

/// The registry of beacons: at most one beacon under each id.
pub struct BeaconSet {
    list: KeyedList<Beacon>,
}

impl View for BeaconSet {
    type V = Map<Seq<char>, BeaconView>;

    closed spec fn view(&self) -> Map<Seq<char>, BeaconView> {
        self.list@.map_values(|b: Beacon| b@)
    }
}

impl BeaconSet {
    /// The beacons in the order in which the registry lists them.
    pub closed spec fn entries(&self) -> Seq<BeaconView> {
        beacon_views(self.list.entries())
    }

    /// The place in the list of the beacon registered under `id`.
    pub closed spec fn place(&self, id: Seq<char>) -> int {
        place_of(self.list.entries(), id)
    }

    /// Every beacon is registered under its own id.
    #[verifier::type_invariant]
    pub closed spec fn well_formed(&self) -> bool {
        keys_are_ids(self.list.entries())
    }

    /// An empty registry.
    pub fn new() -> (r: Self)
        ensures
            r.entries() == Seq::<BeaconView>::empty(),
            r@ == Map::<Seq<char>, BeaconView>::empty(),
            keyed_by_id(r@),
    {
        let r = BeaconSet { list: KeyedList::new() };
        proof {
            assert(r.entries() =~= Seq::<BeaconView>::empty());
            assert(r@ =~= Map::<Seq<char>, BeaconView>::empty());
        }
        r
    }

    /// How many beacons the registry holds: as many as it lists, and as many
    /// as there are ids.
    pub fn len(&self) -> (r: usize)
        ensures
            r == self.entries().len(),
            r == self@.dom().len(),
            keyed_by_id(self@),
    {
        let r = self.list.len();
        proof {
            use_type_invariant(self);
            lemma_keyed(self.list.entries());
            assert(self@.dom() =~= self.list@.dom());
        }
        r
    }

    /// Whether the registry holds no beacon.
    pub fn is_empty(&self) -> (r: bool)
        ensures
            r == (self.entries().len() == 0),
            r == (self@.dom().len() == 0),
    {
        self.len() == 0
    }

    /// Whether a beacon is registered under `id`.
    pub fn contains(&self, id: &str) -> (r: bool)
        ensures
            r == self@.contains_key(id@),
    {
        self.list.contains_key(id)
    }

    /// The beacon registered under `id`.
    pub fn get(&self, id: &str) -> (r: Option<&Beacon>)
        ensures
            match r {
                Some(b) => self@.contains_key(id@) && b@ == self@[id@] && b@.id == id@,
                None => !self@.contains_key(id@),
            },
            keyed_by_id(self@),
    {
        let r = self.list.get(id);
        proof {
            use_type_invariant(self);
            lemma_keyed(self.list.entries());
        }
        r
    }

    /// Registers `beacon` under its id and returns the beacon that was
    /// registered there before. A beacon under an id already present takes
    /// the old one's place in the list; a new one goes to the end.
    pub fn add_beacon(&mut self, beacon: Beacon) -> (r: Option<Beacon>)
        ensures
            final(self)@ == old(self)@.insert(beacon@.id, beacon@),
            keyed_by_id(final(self)@),
            match r {
                Some(b) => {
                    &&& old(self)@.contains_key(beacon@.id)
                    &&& b@ == old(self)@[beacon@.id]
                    &&& 0 <= old(self).place(beacon@.id) < old(self).entries().len()
                    &&& old(self).entries()[old(self).place(beacon@.id)] == b@
                    &&& final(self).entries() == old(self).entries().update(
                        old(self).place(beacon@.id),
                        beacon@,
                    )
                },
                None => {
                    &&& !old(self)@.contains_key(beacon@.id)
                    &&& final(self).entries() == old(self).entries().push(beacon@)
                },
            },
    {
        proof {
            use_type_invariant(&*self);
        }
        let key = beacon.id.clone();
        let mut list: KeyedList<Beacon> = KeyedList::new();
        std::mem::swap(&mut self.list, &mut list);
        let r = list.insert(key, beacon);
        proof {
            if r is Some {
                assert(listed(old(self).list.entries(), beacon@.id));
            }
            assert(keys_are_ids(list.entries()));
            lemma_keyed(list.entries());
        }
        std::mem::swap(&mut self.list, &mut list);
        proof {
            assert(self@ =~= old(self)@.insert(beacon@.id, beacon@));
            assert(old(self)@.dom() =~= old(self).list@.dom());
            if r is None {
                assert(self.entries() =~= old(self).entries().push(beacon@));
            } else {
                let place = place_of(old(self).list.entries(), beacon@.id);
                assert(listed(old(self).list.entries(), beacon@.id));
                assert(0 <= place < old(self).list.entries().len());
                lemma_entry_is_mapped(old(self).list.entries(), place);
                assert(self.entries() =~= old(self).entries().update(place, beacon@));
            }
        }
        r
    }

    /// Takes the beacon registered under `id` out of the registry and returns
    /// it. The others keep their order.
    pub fn remove_beacon(&mut self, id: &str) -> (r: Option<Beacon>)
        ensures
            final(self)@ == old(self)@.remove(id@),
            keyed_by_id(final(self)@),
            match r {
                Some(b) => {
                    &&& old(self)@.contains_key(id@)
                    &&& b@ == old(self)@[id@]
                    &&& 0 <= old(self).place(id@) < old(self).entries().len()
                    &&& old(self).entries()[old(self).place(id@)] == b@
                    &&& final(self).entries() == old(self).entries().remove(old(self).place(id@))
                },
                None => {
                    &&& !old(self)@.contains_key(id@)
                    &&& final(self).entries() == old(self).entries()
                },
            },
    {
        proof {
            use_type_invariant(&*self);
        }
        let mut list: KeyedList<Beacon> = KeyedList::new();
        std::mem::swap(&mut self.list, &mut list);
        let r = list.remove(id);
        proof {
            if r is Some {
                assert(listed(old(self).list.entries(), id@));
            }
            assert(keys_are_ids(list.entries()));
            lemma_keyed(list.entries());
        }
        std::mem::swap(&mut self.list, &mut list);
        proof {
            assert(self@ =~= old(self)@.remove(id@));
            assert(old(self)@.dom() =~= old(self).list@.dom());
            if r is Some {
                let place = place_of(old(self).list.entries(), id@);
                assert(listed(old(self).list.entries(), id@));
                assert(0 <= place < old(self).list.entries().len());
                lemma_entry_is_mapped(old(self).list.entries(), place);
                assert(self.entries() =~= old(self).entries().remove(place));
            }
        }
        r
    }

    /// Copies of all beacons, in the registry's order: one for each id, each
    /// the beacon registered under its own id.
    pub fn all_cloned(&self) -> (r: Vec<Beacon>)
        ensures
            r@.map_values(|b: Beacon| b@) == self.entries(),
            r@.len() == self@.dom().len(),
            keyed_by_id(self@),
            forall|i: int|
                0 <= i < r@.len() ==> self@.contains_key((#[trigger] r@[i])@.id) && self@[r@[i]@.id]
                    == r@[i]@,
            forall|id: Seq<char>|
                self@.contains_key(id) ==> 0 <= #[trigger] self.place(id) < r@.len() && r@[self.place(
                    id,
                )]@ == self@[id],
    {
        let n = self.list.len();
        let mut out: Vec<Beacon> = Vec::new();
        let mut i: usize = 0;
        while i < n
            invariant
                i <= n,
                n == self.list.entries().len(),
                out@.len() == i,
                forall|j: int| 0 <= j < i ==> (#[trigger] out@[j])@ == self.list.entries()[j].1@,
            decreases n - i,
        {
            match self.list.value_at(i) {
                Some(beacon) => {
                    out.push(beacon.clone());
                },
                None => {},
            }
            i = i + 1;
        }
        proof {
            assert(out@.map_values(|b: Beacon| b@) =~= self.entries());
            assert(self@.dom() =~= self.list@.dom());
            use_type_invariant(self);
            lemma_keyed(self.list.entries());
            assert forall|i: int| 0 <= i < out@.len() implies self@.contains_key(
                (#[trigger] out@[i])@.id,
            ) && self@[out@[i]@.id] == out@[i]@ by {
                lemma_entry_is_mapped(self.list.entries(), i);
                let key = self.list.entries()[i].0;
                assert(self@.contains_key(key) && self@[key] == out@[i]@);
            }
            assert forall|id: Seq<char>| self@.contains_key(id) implies 0 <= #[trigger] self.place(
                id,
            ) < out@.len() && out@[self.place(id)]@ == self@[id] by {
                assert(listed(self.list.entries(), id));
                lemma_entry_is_mapped(self.list.entries(), self.place(id));
            }
        }
        out
    }
}

} // verus!
