//! The signal strengths a client reports.

use vstd::prelude::*;
use crate::network::request::BeaconSignal;
use crate::network::request::BeaconSignalView;

verus! {

/// One reported strength.
#[derive(Debug)]
pub struct Reading {
    pub beacon_id: String,
    /// In dBm.
    pub rssi: i16,
}

/// The mathematical content of a `Reading`.
pub struct ReadingView {
    pub beacon_id: Seq<char>,
    pub rssi: i16,
}

impl View for Reading {
    type V = ReadingView;

    open spec fn view(&self) -> ReadingView {
        ReadingView { beacon_id: self.beacon_id@, rssi: self.rssi }
    }
}

/// The readings of one request, in the order in which they were reported.
#[derive(Debug)]
pub struct SignalReadings {
    pub readings: Vec<Reading>,
}

impl View for SignalReadings {
    type V = Seq<ReadingView>;

    open spec fn view(&self) -> Seq<ReadingView> {
        self.readings@.map_values(|r: Reading| r@)
    }
}

/// What the positioning reads of a request's signals: beacon and strength.
pub open spec fn readings_of(signals: Seq<BeaconSignalView>) -> Seq<ReadingView> {
    signals.map_values(
        |s: BeaconSignalView| ReadingView { beacon_id: s.beacon_id, rssi: s.rssi },
    )
}

impl SignalReadings {
    /// No readings.
    pub fn new() -> (r: Self)
        ensures
            r@ == Seq::<ReadingView>::empty(),
    {
        let r = SignalReadings { readings: Vec::new() };
        assert(r@ =~= Seq::<ReadingView>::empty());
        r
    }

    /// Appends a reading.
    pub fn add(&mut self, beacon_id: String, rssi: i16)
        ensures
            final(self)@ == old(self)@.push(ReadingView { beacon_id: beacon_id@, rssi }),
    {
        let ghost added = ReadingView { beacon_id: beacon_id@, rssi };
        self.readings.push(Reading { beacon_id, rssi });
        assert(self@ =~= old(self)@.push(added));
    }

    /// How many readings there are.
    pub fn len(&self) -> (r: usize)
        ensures
            r == self@.len(),
    {
        self.readings.len()
    }

    /// Whether there is no reading.
    pub fn is_empty(&self) -> (r: bool)
        ensures
            r == (self@.len() == 0),
    {
        self.readings.len() == 0
    }

    /// The readings of a request's signals, in their order.
    pub fn from_signals(signals: &Vec<BeaconSignal>) -> (r: Self)
        ensures
            r@ == readings_of(signals@.map_values(|s: BeaconSignal| s@)),
    {
        let mut out = SignalReadings::new();
        let n = signals.len();
        let ghost views = signals@.map_values(|s: BeaconSignal| s@);
        let mut i: usize = 0;
        while i < n
            invariant
                i <= n,
                n == signals.len(),
                views == signals@.map_values(|s: BeaconSignal| s@),
                out@ == readings_of(views.take(i as int)),
            decreases n - i,
        {
            let signal = &signals[i];
            out.add(signal.beacon_id.clone(), signal.rssi);
            proof {
                assert(views.take(i + 1) =~= views.take(i as int).push(views[i as int]));
                assert(out@ =~= readings_of(views.take(i + 1)));
            }
            i = i + 1;
        }
        proof {
            assert(views.take(n as int) =~= views);
        }
        out
    }
}

} // verus!
