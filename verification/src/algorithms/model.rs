//! The propagation model that turns a signal strength into a distance.
//!
//! The model's parameters are held here; the formula itself is arithmetic on
//! them and is evaluated by the numeric kernel.

use vstd::prelude::*;
use crate::algorithms::anchor::floor_distance;
use crate::algorithms::anchor::spec_floor_distance;
use crate::algorithms::anchor::DISTANCE_FLOOR_BITS;
use crate::algorithms::kernel::answers_all;
use crate::algorithms::kernel::ask;
use crate::algorithms::kernel::may_answer;
use crate::algorithms::kernel::Asked;
use crate::algorithms::kernel::Query;
use crate::algorithms::kernel::Reply;
use crate::scalar::Scalar;
use crate::text::concat2;

verus! {

/// The unit in which a model gives distances and in which the beacons'
/// coordinates are expected.
#[derive(Clone, Copy, Debug, PartialEq, Eq, Structural)]
pub enum DistanceUnit {
    Centimeter,
    Meter,
}

impl DistanceUnit {
    /// The unit's symbol.
    pub open spec fn symbol(self) -> Seq<char> {
        match self {
            DistanceUnit::Centimeter => "cm"@,
            DistanceUnit::Meter => "m"@,
        }
    }

    /// The unit's symbol.
    pub fn as_str(&self) -> (r: &'static str)
        ensures
            r@ == self.symbol(),
    {
        match self {
            DistanceUnit::Centimeter => "cm",
            DistanceUnit::Meter => "m",
        }
    }
}

/// A propagation model with its parameters.
#[derive(Clone, Copy, Debug)]
pub enum RSSIModel {
    /// `distance = 10 ^ ((reference_rssi - rssi) / (10 * exponent))`, where
    /// `reference_rssi` is the strength at one unit of distance.
    LogDistance { reference_rssi: Scalar, exponent: Scalar, unit: DistanceUnit },
    /// A log model fitted to measurements, `rssi = a + b * log10(distance)`
    /// with the distance in metres: `a` is the strength at one metre, `b` the
    /// slope per decade of distance and `n` the path-loss exponent of the
    /// fit, `b = -10 * n`. Distances come out in `unit`.
    PythonFit { a: Scalar, b: Scalar, n: Scalar, unit: DistanceUnit },
}

impl RSSIModel {
    /// The unit of the distances.
    pub open spec fn spec_unit(self) -> DistanceUnit {
        match self {
            RSSIModel::LogDistance { unit, .. } => unit,
            RSSIModel::PythonFit { unit, .. } => unit,
        }
    }

    /// The name of the model's family.
    pub open spec fn family(self) -> Seq<char> {
        match self {
            RSSIModel::LogDistance { .. } => "log-distance model, distances in "@,
            RSSIModel::PythonFit { .. } => "fitted log-distance model, distances in "@,
        }
    }

    /// The one-line summary: the family and the unit.
    pub open spec fn summary(self) -> Seq<char> {
        self.family() + self.spec_unit().symbol()
    }

    /// The log-distance model.
    pub fn log_distance(reference_rssi: Scalar, exponent: Scalar, unit: DistanceUnit) -> (r: Self)
        ensures
            r == (RSSIModel::LogDistance { reference_rssi, exponent, unit }),
    {
        RSSIModel::LogDistance { reference_rssi, exponent, unit }
    }

    /// The model with three fitted parameters.
    pub fn from_python_fit(a: Scalar, b: Scalar, n: Scalar, unit: DistanceUnit) -> (r: Self)
        ensures
            r == (RSSIModel::PythonFit { a, b, n, unit }),
    {
        RSSIModel::PythonFit { a, b, n, unit }
    }

    /// The unit of the distances.
    pub fn unit(&self) -> (r: DistanceUnit)
        ensures
            r == self.spec_unit(),
    {
        match self {
            RSSIModel::LogDistance { unit, .. } => *unit,
            RSSIModel::PythonFit { unit, .. } => *unit,
        }
    }

    /// A one-line summary for operators.
    pub fn description(&self) -> (r: String)
        ensures
            r@ == self.summary(),
    {
        let family = match self {
            RSSIModel::LogDistance { .. } => "log-distance model, distances in ",
            RSSIModel::PythonFit { .. } => "fitted log-distance model, distances in ",
        };
        concat2(family, self.unit().as_str())
    }
}

/// The distance that a reply to a `Distance` query is taken to mean: the
/// number it holds where that is at least the floor, and the floor otherwise.
pub open spec fn spec_distance(reply: Reply) -> Scalar {
    match reply {
        Reply::Value(raw) => spec_floor_distance(raw),
        _ => Scalar { bits: DISTANCE_FLOOR_BITS },
    }
}

/// The distance that a reply to a `Distance` query is taken to mean: never
/// below the floor, never a NaN.
pub fn distance_from(reply: Reply) -> (r: Scalar)
    ensures
        r == spec_distance(reply),
        (Scalar { bits: DISTANCE_FLOOR_BITS }).at_most(r),
        !r.nan(),
{
    match reply {
        Reply::Value(raw) => floor_distance(raw),
        _ => Scalar::from_bits(DISTANCE_FLOOR_BITS),
    }
}

impl RSSIModel {
    /// The distance for a strength of `rssi` dBm: what the kernel computes
    /// from the model, brought up to the floor. The distance is always a
    /// number of at least the floor.
    pub fn distance_of<K: Fn(Query) -> Reply>(&self, rssi: i16, kernel: &K) -> (r: Scalar)
        requires
            answers_all(kernel),
        ensures
            exists|reply: Reply| #[trigger]
                may_answer(kernel, Asked::Distance { model: *self, rssi }, reply) && r
                    == spec_distance(reply),
            (Scalar { bits: DISTANCE_FLOOR_BITS }).at_most(r),
            !r.nan(),
    {
        let reply = ask(kernel, Query::Distance { model: *self, rssi });
        distance_from(reply)
    }
}

} // verus!
