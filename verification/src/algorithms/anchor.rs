//! Joining a request's readings against the registry.

use vstd::prelude::*;
use crate::algorithms::beacon::Beacon;
use crate::algorithms::beacon::BeaconSet;
use crate::algorithms::beacon::BeaconView;
use crate::algorithms::signal::ReadingView;
use crate::algorithms::signal::SignalReadings;
use crate::scalar::Scalar;

verus! {

/// The encoding of `1e-6`, the least distance a reading is taken to mean.
pub const DISTANCE_FLOOR_BITS: u64 = 0x3EB0_C6F7_A0B5_ED8D;

/// A place in space.
#[derive(Clone, Copy, Debug)]
pub struct Point {
    pub x: Scalar,
    pub y: Scalar,
    pub z: Scalar,
}

impl Point {
    /// Whether all three coordinates are finite.
    pub open spec fn finite(self) -> bool {
        self.x.finite() && self.y.finite() && self.z.finite()
    }

    /// Whether all three coordinates are finite.
    pub fn is_finite(&self) -> (r: bool)
        ensures
            r == self.finite(),
    {
        self.x.is_finite() && self.y.is_finite() && self.z.is_finite()
    }
}

/// A registered beacon that a reading named, with the strength reported.
#[derive(Debug)]
pub struct Sighting {
    pub beacon: Beacon,
    pub rssi: i16,
}

/// The mathematical content of a `Sighting`.
pub struct SightingView {
    pub beacon: BeaconView,
    pub rssi: i16,
}

impl View for Sighting {
    type V = SightingView;

    open spec fn view(&self) -> SightingView {
        SightingView { beacon: self.beacon@, rssi: self.rssi }
    }
}

/// The sighting a reading gives: the beacon registered under its id, if any.
pub open spec fn sighting_of(
    registry: Map<Seq<char>, BeaconView>,
    reading: ReadingView,
) -> Option<SightingView> {
    if registry.contains_key(reading.beacon_id) {
        Some(SightingView { beacon: registry[reading.beacon_id], rssi: reading.rssi })
    } else {
        None
    }
}

/// In a registry that holds every beacon under its own id, the sighting of a
/// reading is of the beacon that the reading names, at the strength that the
/// reading reports.
pub proof fn lemma_sighting(registry: Map<Seq<char>, BeaconView>, reading: ReadingView)
    requires
        crate::algorithms::beacon::keyed_by_id(registry),
    ensures
        sighting_of(registry, reading) is Some <==> registry.contains_key(reading.beacon_id),
        sighting_of(registry, reading) matches Some(s) ==> s.beacon.id == reading.beacon_id
            && s.rssi == reading.rssi && s.beacon == registry[reading.beacon_id],
{
}

/// The sightings of a request: one for each reading whose beacon is
/// registered, in the order of the readings. Readings of unknown beacons are
/// dropped.
pub open spec fn spec_bind(
    readings: Seq<ReadingView>,
    registry: Map<Seq<char>, BeaconView>,
) -> Seq<SightingView> {
    readings.filter_map(|r: ReadingView| sighting_of(registry, r))
}

/// The views of a list of sightings.
pub open spec fn sighting_views(sightings: Seq<Sighting>) -> Seq<SightingView> {
    sightings.map_values(|s: Sighting| s@)
}

/// Joins the readings against the registry.
pub fn bind(readings: &SignalReadings, registry: &BeaconSet) -> (r: Vec<Sighting>)
    ensures
        sighting_views(r@) == spec_bind(readings@, registry@),
        r@.len() <= readings@.len(),
{
    let mut out: Vec<Sighting> = Vec::new();
    let n = readings.readings.len();
    let ghost f = |r: ReadingView| sighting_of(registry@, r);
    let mut i: usize = 0;
    proof {
        assert(readings@.take(0) =~= Seq::<ReadingView>::empty());
        assert(sighting_views(out@) =~= readings@.take(0).filter_map(f));
    }
    while i < n
        invariant
            i <= n,
            n == readings.readings.len(),
            n == readings@.len(),
            f == |r: ReadingView| sighting_of(registry@, r),
            sighting_views(out@) == readings@.take(i as int).filter_map(f),
            out@.len() <= i,
        decreases n - i,
    {
        let reading = &readings.readings[i];
        let ghost before = sighting_views(out@);
        proof {
            assert(readings@.take(i + 1).drop_last() =~= readings@.take(i as int));
            assert(readings@.take(i + 1).last() == reading@);
        }
        match registry.get(reading.beacon_id.as_str()) {
            Some(beacon) => {
                out.push(Sighting { beacon: beacon.clone(), rssi: reading.rssi });
                proof {
                    let s = SightingView { beacon: registry@[reading@.beacon_id], rssi: reading.rssi };
                    assert(f(reading@) == Some(s));
                    assert(sighting_views(out@) =~= before + seq![s]);
                }
            },
            None => {
                proof {
                    assert(f(reading@) is None);
                }
            },
        }
        i = i + 1;
    }
    proof {
        assert(readings@.take(n as int) =~= readings@);
    }
    out
}

/// Binding keeps the order of the readings and drops exactly those whose
/// beacon is not registered: with every beacon registered, there is one
/// sighting for each reading.
pub proof fn lemma_bind_all_known(readings: Seq<ReadingView>, registry: Map<Seq<char>, BeaconView>)
    requires
        forall|i: int| 0 <= i < readings.len() ==> registry.contains_key(
            (#[trigger] readings[i]).beacon_id,
        ),
    ensures
        spec_bind(readings, registry).len() == readings.len(),
        forall|i: int|
            0 <= i < readings.len() ==> #[trigger] spec_bind(readings, registry)[i] == (
            SightingView { beacon: registry[readings[i].beacon_id], rssi: readings[i].rssi }),
    decreases readings.len(),
{
    if readings.len() > 0 {
        let front = readings.drop_last();
        assert forall|i: int| 0 <= i < front.len() implies registry.contains_key(
            (#[trigger] front[i]).beacon_id,
        ) by {
            assert(front[i] == readings[i]);
        }
        lemma_bind_all_known(front, registry);
        assert(registry.contains_key(readings[readings.len() - 1].beacon_id));
        assert forall|i: int| 0 <= i < readings.len() implies #[trigger] spec_bind(
            readings,
            registry,
        )[i] == (SightingView { beacon: registry[readings[i].beacon_id], rssi: readings[i].rssi }) by {
            if i < front.len() {
                assert(front[i] == readings[i]);
                assert(spec_bind(readings, registry)[i] == spec_bind(front, registry)[i]);
            }
        }
    }
}

/// There are never more sightings than readings, and none where no reading
/// names a registered beacon.
pub proof fn lemma_bind_len(readings: Seq<ReadingView>, registry: Map<Seq<char>, BeaconView>)
    ensures
        spec_bind(readings, registry).len() <= readings.len(),
        (forall|i: int| 0 <= i < readings.len() ==> !registry.contains_key(
            (#[trigger] readings[i]).beacon_id,
        )) ==> spec_bind(readings, registry).len() == 0,
    decreases readings.len(),
{
    if readings.len() > 0 {
        let front = readings.drop_last();
        lemma_bind_len(front, registry);
        if forall|i: int| 0 <= i < readings.len() ==> !registry.contains_key(
            (#[trigger] readings[i]).beacon_id,
        ) {
            assert forall|i: int| 0 <= i < front.len() implies !registry.contains_key(
                (#[trigger] front[i]).beacon_id,
            ) by {
                assert(front[i] == readings[i]);
            }
            assert(!registry.contains_key(readings[readings.len() - 1].beacon_id));
        }
    }
}

/// One row of a solver's input: where an anchor is, how far away the
/// receiver is taken to be, and how much the row counts.
#[derive(Clone, Copy, Debug)]
pub struct WeightedAnchor {
    pub position: Point,
    pub distance: Scalar,
    pub weight: Scalar,
}

impl WeightedAnchor {
    /// What the solvers ask of a row: a finite position, a finite distance of
    /// at least the floor, and a finite weight above zero.
    pub open spec fn usable(self) -> bool {
        &&& self.position.finite()
        &&& self.distance.finite()
        &&& (Scalar { bits: DISTANCE_FLOOR_BITS }).at_most(self.distance)
        &&& self.weight.finite()
        &&& (Scalar { bits: crate::scalar::ZERO_BITS }).less(self.weight)
    }

    /// Whether the row is usable.
    pub fn is_usable(&self) -> (r: bool)
        ensures
            r == self.usable(),
    {
        self.position.is_finite() && self.distance.is_finite() && Scalar::from_bits(
            DISTANCE_FLOOR_BITS,
        ).le(&self.distance) && self.weight.is_finite() && Scalar::zero().lt(&self.weight)
    }
}

/// Whether every row is usable.
pub open spec fn all_usable(anchors: Seq<WeightedAnchor>) -> bool {
    forall|i: int| 0 <= i < anchors.len() ==> (#[trigger] anchors[i]).usable()
}

/// The distance a raw model output is taken to mean: the output itself where
/// it is a number of at least the floor, and the floor otherwise.
pub open spec fn spec_floor_distance(raw: Scalar) -> Scalar {
    if (Scalar { bits: DISTANCE_FLOOR_BITS }).at_most(raw) {
        raw
    } else {
        Scalar { bits: DISTANCE_FLOOR_BITS }
    }
}

/// The distance a raw model output is taken to mean: never below the floor,
/// never a NaN.
pub fn floor_distance(raw: Scalar) -> (r: Scalar)
    ensures
        r == spec_floor_distance(raw),
        (Scalar { bits: DISTANCE_FLOOR_BITS }).at_most(r),
        !r.nan(),
{
    let floor = Scalar::from_bits(DISTANCE_FLOOR_BITS);
    if floor.le(&raw) {
        raw
    } else {
        floor
    }
}

/// The weight a raw kernel output is accepted as: itself where it is finite
/// and above zero.
pub open spec fn spec_admit_weight(raw: Scalar) -> Option<Scalar> {
    if raw.finite() && (Scalar { bits: crate::scalar::ZERO_BITS }).less(raw) {
        Some(raw)
    } else {
        None
    }
}

/// The weight a raw kernel output is accepted as.
pub fn admit_weight(raw: Scalar) -> (r: Option<Scalar>)
    ensures
        r == spec_admit_weight(raw),
{
    if raw.is_finite() && Scalar::zero().lt(&raw) {
        Some(raw)
    } else {
        None
    }
}

/// The largest distance among the rows, and the floor where there is none.
pub open spec fn spec_reach(anchors: Seq<WeightedAnchor>) -> Scalar
    decreases anchors.len(),
{
    if anchors.len() == 0 {
        Scalar { bits: DISTANCE_FLOOR_BITS }
    } else {
        anchors.last().distance.spec_max(spec_reach(anchors.drop_last()))
    }
}

/// The largest distance among the rows.
pub fn reach(anchors: &Vec<WeightedAnchor>) -> (r: Scalar)
    ensures
        r == spec_reach(anchors@),
{
    let mut best = Scalar::from_bits(DISTANCE_FLOOR_BITS);
    let n = anchors.len();
    let mut i: usize = 0;
    proof {
        assert(anchors@.take(0) =~= Seq::<WeightedAnchor>::empty());
    }
    while i < n
        invariant
            i <= n,
            n == anchors.len(),
            best == spec_reach(anchors@.take(i as int)),
        decreases n - i,
    {
        proof {
            assert(anchors@.take(i + 1).drop_last() =~= anchors@.take(i as int));
        }
        best = anchors[i].distance.max(&best);
        i = i + 1;
    }
    proof {
        assert(anchors@.take(n as int) =~= anchors@);
    }
    best
}

/// Among usable rows the reach is finite, at least the floor, and no row's
/// distance exceeds it.
pub proof fn lemma_reach_bounds(anchors: Seq<WeightedAnchor>)
    requires
        all_usable(anchors),
    ensures
        spec_reach(anchors).finite(),
        (Scalar { bits: DISTANCE_FLOOR_BITS }).at_most(spec_reach(anchors)),
        forall|i: int|
            0 <= i < anchors.len() ==> (#[trigger] anchors[i]).distance.at_most(
                spec_reach(anchors),
            ),
    decreases anchors.len(),
{
    if anchors.len() > 0 {
        let front = anchors.drop_last();
        assert forall|i: int| 0 <= i < front.len() implies (#[trigger] front[i]).usable() by {
            assert(front[i] == anchors[i]);
        }
        lemma_reach_bounds(front);
        let last = anchors[anchors.len() - 1];
        assert(last.usable());
        assert forall|i: int| 0 <= i < anchors.len() implies (
        #[trigger] anchors[i]).distance.at_most(spec_reach(anchors)) by {
            if i < front.len() {
                assert(front[i] == anchors[i]);
                assert(front[i].distance.at_most(spec_reach(front)));
            }
        }
    }
}

} // verus!
