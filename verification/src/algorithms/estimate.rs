//! The result of a positioning.

use vstd::prelude::*;
use crate::algorithms::anchor::Point;
use crate::algorithms::method::Method;
use crate::algorithms::method::MIN_ANCHORS;
use crate::scalar::Scalar;
use crate::scalar::ZERO_BITS;

verus! {

/// An estimated position with its diagnostics.
#[derive(Clone, Copy, Debug)]
pub struct PositionEstimate {
    pub x: Scalar,
    pub y: Scalar,
    pub z: Scalar,
    /// Between 0 and 1.
    pub confidence: Scalar,
    /// The weighted root-mean-square residual, in the model's unit.
    pub error: Scalar,
    /// The method that was run.
    pub method: Method,
    /// How many anchors the method used.
    pub beacon_count: usize,
}

impl PositionEstimate {
    /// What every estimate that the library hands out satisfies: finite
    /// coordinates, a confidence between 0 and 1, a finite error of at least
    /// 0, and three anchors or more.
    pub open spec fn valid(self) -> bool {
        &&& self.x.finite()
        &&& self.y.finite()
        &&& self.z.finite()
        &&& self.confidence.in_unit_interval()
        &&& self.error.finite()
        &&& (Scalar { bits: ZERO_BITS }).at_most(self.error)
        &&& self.beacon_count >= MIN_ANCHORS
    }

    /// The estimate with the given parts where that is a valid one.
    pub open spec fn spec_checked(
        at: Point,
        confidence: Scalar,
        error: Scalar,
        method: Method,
        beacon_count: usize,
    ) -> Option<PositionEstimate> {
        let e = PositionEstimate {
            x: at.x,
            y: at.y,
            z: at.z,
            confidence,
            error,
            method,
            beacon_count,
        };
        if e.valid() {
            Some(e)
        } else {
            None
        }
    }

    /// Whether the estimate is valid.
    pub fn is_valid(&self) -> (r: bool)
        ensures
            r == self.valid(),
    {
        self.x.is_finite() && self.y.is_finite() && self.z.is_finite()
            && self.confidence.is_in_unit_interval() && self.error.is_finite()
            && Scalar::zero().le(&self.error) && self.beacon_count >= MIN_ANCHORS
    }

    /// The estimate with the given parts where that is a valid one, and
    /// nothing otherwise.
    pub fn checked(
        at: Point,
        confidence: Scalar,
        error: Scalar,
        method: Method,
        beacon_count: usize,
    ) -> (r: Option<PositionEstimate>)
        ensures
            r == Self::spec_checked(at, confidence, error, method, beacon_count),
            r matches Some(e) ==> e.valid(),
    {
        let e = PositionEstimate {
            x: at.x,
            y: at.y,
            z: at.z,
            confidence,
            error,
            method,
            beacon_count,
        };
        if e.is_valid() {
            Some(e)
        } else {
            None
        }
    }
}

/// A valid estimate has a confidence between 0 and 1 and an error of at least
/// 0, and none of its numbers is a NaN or infinite.
pub proof fn lemma_valid_estimate(e: PositionEstimate)
    requires
        e.valid(),
    ensures
        (Scalar { bits: ZERO_BITS }).at_most(e.confidence),
        e.confidence.at_most(Scalar { bits: crate::scalar::ONE_BITS }),
        (Scalar { bits: ZERO_BITS }).at_most(e.error),
        e.confidence.finite(),
        !e.error.nan() && !e.x.nan() && !e.y.nan() && !e.z.nan(),
{
}

} // verus!
