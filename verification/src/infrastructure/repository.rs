//! The store of devices, kept in memory.

use vstd::prelude::*;
use vstd::string::StringExecFns;
use crate::domain::beacon::Beacon;
use crate::domain::beacon::BeaconView;
use crate::domain::location::Location;
use crate::domain::location::LocationView;
use crate::error::AppError;
use crate::error::AppErrorView;
use crate::registry::lemma_entry_is_mapped;
use crate::registry::listed;
use crate::registry::place_of;
use crate::registry::KeyedList;
use crate::scalar::Scalar;
use crate::text::concat3;

verus! {

/// The encoding of `100.0`.
pub const C100_BITS: u64 = 0x4059_0000_0000_0000;

/// The encoding of `150.0`.
pub const C150_BITS: u64 = 0x4062_C000_0000_0000;

/// The encoding of `200.0`.
pub const C200_BITS: u64 = 0x4069_0000_0000_0000;

/// The encoding of `300.0`.
pub const C300_BITS: u64 = 0x4072_C000_0000_0000;

/// The encoding of `500.0`.
pub const C500_BITS: u64 = 0x407F_4000_0000_0000;

/// The encoding of `600.0`.
pub const C600_BITS: u64 = 0x4082_C000_0000_0000;

/// The encoding of `800.0`.
pub const C800_BITS: u64 = 0x4089_0000_0000_0000;

/// One of the devices a new store starts with: all share UUID, major, floor,
/// height, power, interval and status.
pub open spec fn stock_device(
    id: Seq<char>,
    minor: i32,
    x: u64,
    y: u64,
    area_id: Seq<char>,
) -> BeaconView {
    BeaconView {
        id,
        uuid: "FDA50693-A4E2-4FB1-AFCF-C6EB07647825"@,
        major: 10000,
        minor,
        location: LocationView {
            x: Scalar { bits: x },
            y: Scalar { bits: y },
            z: Scalar { bits: C150_BITS },
            floor: "1F"@,
            area_id,
        },
        power: -59i32,
        interval: 1000,
        status: "active"@,
    }
}

/// The four devices a new store starts with, in their order.
pub open spec fn spec_stock() -> Seq<BeaconView> {
    seq![
        stock_device("beacon_001"@, 12345, C100_BITS, C200_BITS, "area_001"@),
        stock_device("beacon_002"@, 12346, C500_BITS, C200_BITS, "area_001"@),
        stock_device("beacon_003"@, 12347, C300_BITS, C600_BITS, "area_002"@),
        stock_device("beacon_004"@, 12348, C100_BITS, C800_BITS, "area_002"@),
    ]
}

/// The error for a device that is not in the store.
pub open spec fn missing(id: Seq<char>) -> AppErrorView {
    AppErrorView::NotFound("Beacon with id "@ + id + " not found"@)
}

/// The views of a list's devices, in its order.
pub open spec fn device_views(entries: Seq<(Seq<char>, Beacon)>) -> Seq<BeaconView> {
    entries.map_values(|e: (Seq<char>, Beacon)| e.1@)
}

/// Whether every device of the map is the value of its own id.
pub open spec fn keyed_by_id(store: Map<Seq<char>, BeaconView>) -> bool {
    forall|id: Seq<char>| store.contains_key(id) ==> (#[trigger] store[id]).id == id
}

/// Whether every entry of the list has its device's id for its key.
pub open spec fn keys_are_ids(entries: Seq<(Seq<char>, Beacon)>) -> bool {
    forall|i: int| 0 <= i < entries.len() ==> (#[trigger] entries[i]).0 == entries[i].1@.id
}

/// In a list whose keys are distinct and are the devices' ids, every device
/// of the map is the value of its own id.
pub proof fn lemma_keyed(entries: Seq<(Seq<char>, Beacon)>)
    requires
        crate::registry::distinct_keys(entries),
        keys_are_ids(entries),
    ensures
        keyed_by_id(crate::registry::as_map(entries).map_values(|b: Beacon| b@)),
{
    let m = crate::registry::as_map(entries).map_values(|b: Beacon| b@);
    assert forall|id: Seq<char>| m.contains_key(id) implies (#[trigger] m[id]).id == id by {
        assert(listed(entries, id));
        let i = place_of(entries, id);
        lemma_entry_is_mapped(entries, i);
    }
}

/// The store of devices: at most one under each id.
pub struct BeaconRepository {
    data: KeyedList<Beacon>,
}

impl View for BeaconRepository {
    type V = Map<Seq<char>, BeaconView>;

    closed spec fn view(&self) -> Map<Seq<char>, BeaconView> {
        self.data@.map_values(|b: Beacon| b@)
    }
}

fn stock(id: &str, minor: i32, x: u64, y: u64, area_id: &str) -> (r: Beacon)
    ensures
        r@ == stock_device(id@, minor, x, y, area_id@),
{
    Beacon::new(
        String::from_str(id),
        String::from_str("FDA50693-A4E2-4FB1-AFCF-C6EB07647825"),
        10000,
        minor,
        Location::new(
            Scalar::from_bits(x),
            Scalar::from_bits(y),
            Scalar::from_bits(C150_BITS),
            String::from_str("1F"),
            String::from_str(area_id),
        ),
        -59,
        1000,
        String::from_str("active"),
    )
}

fn not_found(id: &str) -> (r: AppError)
    ensures
        r@ == missing(id@),
{
    AppError::NotFound(concat3("Beacon with id ", id, " not found"))
}

impl BeaconRepository {
    /// The devices in the order in which the store lists them.
    pub closed spec fn entries(&self) -> Seq<BeaconView> {
        device_views(self.data.entries())
    }

    /// The place in the list of the device stored under `id`.
    pub closed spec fn place(&self, id: Seq<char>) -> int {
        place_of(self.data.entries(), id)
    }

    /// Every device is stored under its own id.
    #[verifier::type_invariant]
    pub closed spec fn well_formed(&self) -> bool {
        keys_are_ids(self.data.entries())
    }

    fn settled(&self) -> (r: usize)
        ensures
            keyed_by_id(self@),
            self.data.consistent(),
            r == self.data.entries().len(),
    {
        let r = self.data.len();
        proof {
            use_type_invariant(self);
            lemma_keyed(self.data.entries());
        }
        r
    }

    /// A store with the four stock devices.
    pub fn new() -> (r: Self)
        ensures
            r.entries() == spec_stock(),
            r@.dom().len() == 4,
            keyed_by_id(r@),
            forall|i: int|
                0 <= i < 4 ==> r@.contains_key(#[trigger] spec_stock()[i].id) && r@[spec_stock()[i].id]
                    == spec_stock()[i],
    {
        let mut data: KeyedList<Beacon> = KeyedList::new();
        proof {
            reveal_strlit("beacon_001");
            reveal_strlit("beacon_002");
            reveal_strlit("beacon_003");
            reveal_strlit("beacon_004");
            assert("beacon_001"@[9] == '1');
            assert("beacon_002"@[9] == '2');
            assert("beacon_003"@[9] == '3');
            assert("beacon_004"@[9] == '4');
        }
        let b1 = stock("beacon_001", 12345, C100_BITS, C200_BITS, "area_001");
        data.insert(b1.id.clone(), b1);
        let b2 = stock("beacon_002", 12346, C500_BITS, C200_BITS, "area_001");
        data.insert(b2.id.clone(), b2);
        let b3 = stock("beacon_003", 12347, C300_BITS, C600_BITS, "area_002");
        data.insert(b3.id.clone(), b3);
        let b4 = stock("beacon_004", 12348, C100_BITS, C800_BITS, "area_002");
        data.insert(b4.id.clone(), b4);
        proof {
            assert(keys_are_ids(data.entries()));
            lemma_keyed(data.entries());
        }
        let r = BeaconRepository { data };
        proof {
            assert(r.entries() =~= spec_stock());
            assert(r@.dom() =~= r.data@.dom());
        }
        r
    }

    /// Copies of all devices, in the store's order: one for each id, each the
    /// device stored under its own id.
    pub fn find_all(&self) -> (r: Result<Vec<Beacon>, AppError>)
        ensures
            r matches Ok(all) && {
                &&& all@.map_values(|b: Beacon| b@) == self.entries()
                &&& all@.len() == self@.dom().len()
                &&& forall|i: int|
                    0 <= i < all@.len() ==> self@.contains_key((#[trigger] all@[i])@.id)
                        && self@[all@[i]@.id] == all@[i]@
                &&& forall|id: Seq<char>|
                    self@.contains_key(id) ==> 0 <= #[trigger] self.place(id) < all@.len()
                        && all@[self.place(id)]@ == self@[id]
            },
    {
        let n = self.data.len();
        let mut out: Vec<Beacon> = Vec::new();
        let mut i: usize = 0;
        while i < n
            invariant
                i <= n,
                n == self.data.entries().len(),
                out@.len() == i,
                forall|j: int| 0 <= j < i ==> (#[trigger] out@[j])@ == self.data.entries()[j].1@,
            decreases n - i,
        {
            match self.data.value_at(i) {
                Some(beacon) => {
                    out.push(beacon.clone());
                },
                None => {},
            }
            i = i + 1;
        }
        proof {
            assert(out@.map_values(|b: Beacon| b@) =~= self.entries());
            assert(self@.dom() =~= self.data@.dom());
            use_type_invariant(self);
            assert forall|i: int| 0 <= i < out@.len() implies self@.contains_key(
                (#[trigger] out@[i])@.id,
            ) && self@[out@[i]@.id] == out@[i]@ by {
                lemma_entry_is_mapped(self.data.entries(), i);
                let key = self.data.entries()[i].0;
                assert(self@.contains_key(key) && self@[key] == out@[i]@);
            }
            assert forall|id: Seq<char>| self@.contains_key(id) implies 0 <= #[trigger] self.place(
                id,
            ) < out@.len() && out@[self.place(id)]@ == self@[id] by {
                assert(listed(self.data.entries(), id));
                lemma_entry_is_mapped(self.data.entries(), self.place(id));
            }
        }
        Ok(out)
    }

    /// A copy of the device under `id`, if there is one.
    pub fn find_by_id(&self, id: &str) -> (r: Result<Option<Beacon>, AppError>)
        ensures
            r matches Ok(found) && match found {
                Some(b) => self@.contains_key(id@) && b@ == self@[id@] && b@.id == id@,
                None => !self@.contains_key(id@),
            },
            keyed_by_id(self@),
    {
        let found = self.data.get(id);
        proof {
            use_type_invariant(self);
            lemma_keyed(self.data.entries());
        }
        match found {
            Some(b) => Ok(Some(b.clone())),
            None => Ok(None),
        }
    }

    /// Stores a valid device under its id, in place of any device that was
    /// there, and returns a copy of it. A device that is not valid is turned
    /// away and the store stays as it is.
    pub fn create(&mut self, beacon: Beacon) -> (r: Result<Beacon, AppError>)
        ensures
            match beacon@.fault() {
                Some(e) => r matches Err(f) && f@ == e && final(self)@ == old(self)@,
                None => r matches Ok(b) && b@ == beacon@ && final(self)@ == old(self)@.insert(
                    beacon@.id,
                    beacon@,
                ),
            },
            keyed_by_id(final(self)@),
            beacon@.fault() is Some ==> final(self).entries() == old(self).entries(),
            beacon@.fault() is None ==> final(self).entries() == (if old(self)@.contains_key(
                beacon@.id,
            ) {
                old(self).entries().update(old(self).place(beacon@.id), beacon@)
            } else {
                old(self).entries().push(beacon@)
            }),
    {
        self.settled();
        match beacon.validate() {
            Ok(()) => {},
            Err(e) => {
                return Err(e);
            },
        }
        proof {
            use_type_invariant(&*self);
        }
        let copy = beacon.clone();
        let key = beacon.id.clone();
        let mut data: KeyedList<Beacon> = KeyedList::new();
        std::mem::swap(&mut self.data, &mut data);
        let previous = data.insert(key, beacon);
        proof {
            if previous is Some {
                assert(listed(old(self).data.entries(), beacon@.id));
            }
            assert(keys_are_ids(data.entries()));
            lemma_keyed(data.entries());
        }
        std::mem::swap(&mut self.data, &mut data);
        proof {
            assert(self@ =~= old(self)@.insert(beacon@.id, beacon@));
            assert(old(self)@.dom() =~= old(self).data@.dom());
            if previous is Some {
                assert(self.entries() =~= old(self).entries().update(
                    old(self).place(beacon@.id),
                    beacon@,
                ));
            } else {
                assert(self.entries() =~= old(self).entries().push(beacon@));
            }
        }
        Ok(copy)
    }

    /// Replaces the device stored under the id of `beacon` and returns a copy
    /// of the new one. A device that is not valid, or whose id is not in the
    /// store, is turned away and the store stays as it is.
    pub fn update(&mut self, beacon: Beacon) -> (r: Result<Beacon, AppError>)
        ensures
            match beacon@.fault() {
                Some(e) => r matches Err(f) && f@ == e && final(self)@ == old(self)@,
                None => if old(self)@.contains_key(beacon@.id) {
                    r matches Ok(b) && b@ == beacon@ && final(self)@ == old(self)@.insert(
                        beacon@.id,
                        beacon@,
                    )
                } else {
                    r matches Err(f) && f@ == missing(beacon@.id) && final(self)@ == old(self)@
                },
            },
            final(self)@.dom() == old(self)@.dom(),
            keyed_by_id(final(self)@),
            final(self).entries() == (if beacon@.fault() is None && old(self)@.contains_key(
                beacon@.id,
            ) {
                old(self).entries().update(old(self).place(beacon@.id), beacon@)
            } else {
                old(self).entries()
            }),
    {
        self.settled();
        match beacon.validate() {
            Ok(()) => {},
            Err(e) => {
                return Err(e);
            },
        }
        proof {
            assert(self@.dom() =~= self.data@.dom());
        }
        if !self.data.contains_key(beacon.id.as_str()) {
            return Err(not_found(beacon.id.as_str()));
        }
        proof {
            use_type_invariant(&*self);
        }
        let copy = beacon.clone();
        let key = beacon.id.clone();
        let mut data: KeyedList<Beacon> = KeyedList::new();
        std::mem::swap(&mut self.data, &mut data);
        let previous = data.insert(key, beacon);
        proof {
            assert(listed(old(self).data.entries(), beacon@.id));
            assert(keys_are_ids(data.entries()));
            lemma_keyed(data.entries());
        }
        std::mem::swap(&mut self.data, &mut data);
        proof {
            assert(self@ =~= old(self)@.insert(beacon@.id, beacon@));
            assert(self@.dom() =~= old(self)@.dom());
            assert(self.entries() =~= old(self).entries().update(
                old(self).place(beacon@.id),
                beacon@,
            ));
        }
        Ok(copy)
    }

    /// Takes the device under `id` out of the store. Where there is none the
    /// store stays as it is and the error says so.
    pub fn delete(&mut self, id: &str) -> (r: Result<(), AppError>)
        ensures
            final(self)@ == old(self)@.remove(id@),
            keyed_by_id(final(self)@),
            if old(self)@.contains_key(id@) {
                &&& r is Ok
                &&& final(self).entries() == old(self).entries().remove(old(self).place(id@))
            } else {
                &&& r matches Err(f) && f@ == missing(id@)
                &&& final(self).entries() == old(self).entries()
            },
    {
        proof {
            assert(self@.dom() =~= self.data@.dom());
        }
        proof {
            use_type_invariant(&*self);
        }
        let mut data: KeyedList<Beacon> = KeyedList::new();
        std::mem::swap(&mut self.data, &mut data);
        let taken = data.remove(id);
        proof {
            if taken is Some {
                assert(listed(old(self).data.entries(), id@));
            }
            assert(keys_are_ids(data.entries()));
            lemma_keyed(data.entries());
        }
        std::mem::swap(&mut self.data, &mut data);
        proof {
            assert(self@ =~= old(self)@.remove(id@));
            if taken is Some {
                assert(self.entries() =~= old(self).entries().remove(old(self).place(id@)));
            }
        }
        match taken {
            Some(_) => Ok(()),
            None => Err(not_found(id)),
        }
    }

    /// How many devices the store holds.
    pub fn count(&self) -> (r: Result<usize, AppError>)
        ensures
            r matches Ok(n) && n == self@.dom().len() && n == self.entries().len(),
    {
        let n = self.data.len();
        proof {
            assert(self@.dom() =~= self.data@.dom());
        }
        Ok(n)
    }
}

impl Default for BeaconRepository {
    /// A store with the four stock devices.
    fn default() -> (r: Self)
        ensures
            r.entries() == spec_stock(),
    {
        BeaconRepository::new()
    }
}

} // verus!
