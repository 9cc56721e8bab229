//! What the solvers decide.
//!
//! Each decision is a function from numbers that the kernel computed to what
//! happens next: whether a system counts as singular, whether a height is
//! real, whether a step is taken, whether an estimate may be handed out.

use vstd::prelude::*;
use crate::algorithms::anchor::admit_weight;
use crate::algorithms::anchor::spec_admit_weight;
use crate::algorithms::anchor::Point;
use crate::algorithms::anchor::WeightedAnchor;
use crate::algorithms::anchor::DISTANCE_FLOOR_BITS;
use crate::algorithms::estimate::PositionEstimate;
use crate::algorithms::kernel::LinearFix;
use crate::algorithms::kernel::PlanarFix;
use crate::algorithms::kernel::Proposal;
use crate::algorithms::method::Method;
use crate::algorithms::method::Weighting;
use crate::scalar::Scalar;
use crate::scalar::ONE_BITS;
use crate::scalar::ZERO_BITS;

verus! {

/// The encoding of `1e-6`: below this magnitude the determinant of the basic
/// method's planar system counts as zero.
pub const GEOMETRY_THRESHOLD_BITS: u64 = 0x3EB0_C6F7_A0B5_ED8D;

/// The encoding of `1e-9`: below this magnitude the determinant of the
/// weighted method's normal equations counts as zero.
pub const SYSTEM_THRESHOLD_BITS: u64 = 0x3E11_2E0B_E826_D695;

/// The encoding of `1e-6`: a least-squares step shorter than this ends the
/// iteration.
pub const STEP_TOLERANCE_BITS: u64 = 0x3EB0_C6F7_A0B5_ED8D;

/// The most steps the least-squares iteration proposes.
pub const MAX_ITERATIONS: u32 = 50;

/// The damping the least-squares iteration starts with is `10 ^ -3`.
pub const INITIAL_DAMPING_EXPONENT: i32 = -3;

/// Whether a determinant counts as zero against a threshold: its magnitude is
/// below the threshold, or it is no number at all.
pub open spec fn spec_singular(determinant: Scalar, threshold: Scalar) -> bool {
    determinant.nan() || determinant.spec_abs().less(threshold)
}

/// Whether a determinant counts as zero against a threshold.
pub fn singular(determinant: Scalar, threshold: Scalar) -> (r: bool)
    ensures
        r == spec_singular(determinant, threshold),
{
    determinant.is_nan() || determinant.abs().lt(&threshold)
}

/// The row that a sighting becomes: the beacon's position, the distance
/// measured, and the weight of the method's weighting. There is no row where
/// the position is not finite, the distance is not a finite number of at
/// least the floor, or the weight that the kernel gave is not finite or not
/// above zero.
pub open spec fn spec_row(
    position: Point,
    distance: Scalar,
    weighting: Weighting,
    raw_weight: Scalar,
) -> Option<WeightedAnchor> {
    if !position.finite() || !distance.finite() || !(Scalar { bits: DISTANCE_FLOOR_BITS }).at_most(
        distance,
    ) {
        None
    } else {
        match weighting {
            Weighting::Uniform => Some(
                WeightedAnchor { position, distance, weight: Scalar { bits: ONE_BITS } },
            ),
            Weighting::InverseSquare => match spec_admit_weight(raw_weight) {
                Some(weight) => Some(WeightedAnchor { position, distance, weight }),
                None => None,
            },
        }
    }
}

/// The row that a sighting becomes.
pub fn row(position: Point, distance: Scalar, weighting: Weighting, raw_weight: Scalar) -> (r:
    Option<WeightedAnchor>)
    ensures
        r == spec_row(position, distance, weighting, raw_weight),
        r matches Some(a) ==> a.usable() && a.position == position && a.distance == distance,
{
    if !position.is_finite() || !distance.is_finite() || !Scalar::from_bits(
        DISTANCE_FLOOR_BITS,
    ).le(&distance) {
        None
    } else {
        match weighting {
            Weighting::Uniform => Some(WeightedAnchor { position, distance, weight: Scalar::one() }),
            Weighting::InverseSquare => match admit_weight(raw_weight) {
                Some(weight) => Some(WeightedAnchor { position, distance, weight }),
                None => None,
            },
        }
    }
}

/// What the basic method does with its planar fix.
#[derive(Clone, Copy, Debug)]
pub enum BasicPlan {
    /// The three anchors are too close to a line: no position.
    Degenerate,
    /// The distances do not reach `(x, y)`: the height is taken as 0 and the
    /// confidence is halved.
    Flat { x: Scalar, y: Scalar },
    /// The height is the positive root of `height_squared`.
    Raised { x: Scalar, y: Scalar, height_squared: Scalar },
}

/// What the basic method does with its planar fix.
pub open spec fn spec_basic_plan(fix: PlanarFix) -> BasicPlan {
    if spec_singular(fix.determinant, Scalar { bits: GEOMETRY_THRESHOLD_BITS }) {
        BasicPlan::Degenerate
    } else if fix.height_squared.less(Scalar { bits: ZERO_BITS }) {
        BasicPlan::Flat { x: fix.x, y: fix.y }
    } else {
        BasicPlan::Raised { x: fix.x, y: fix.y, height_squared: fix.height_squared }
    }
}

/// What the basic method does with its planar fix.
pub fn basic_plan(fix: &PlanarFix) -> (r: BasicPlan)
    ensures
        r == spec_basic_plan(*fix),
{
    if singular(fix.determinant, Scalar::from_bits(GEOMETRY_THRESHOLD_BITS)) {
        BasicPlan::Degenerate
    } else if fix.height_squared.lt(&Scalar::zero()) {
        BasicPlan::Flat { x: fix.x, y: fix.y }
    } else {
        BasicPlan::Raised { x: fix.x, y: fix.y, height_squared: fix.height_squared }
    }
}

/// The position the weighted method takes from its linear fix: none where
/// the normal equations are singular.
pub open spec fn spec_weighted_plan(fix: LinearFix) -> Option<Point> {
    if spec_singular(fix.determinant, Scalar { bits: SYSTEM_THRESHOLD_BITS }) {
        None
    } else {
        Some(fix.position)
    }
}

/// The position the weighted method takes from its linear fix.
pub fn weighted_plan(fix: &LinearFix) -> (r: Option<Point>)
    ensures
        r == spec_weighted_plan(*fix),
{
    if singular(fix.determinant, Scalar::from_bits(SYSTEM_THRESHOLD_BITS)) {
        None
    } else {
        Some(fix.position)
    }
}

/// Where the least-squares iteration stands.
#[derive(Clone, Copy, Debug)]
pub struct Descent {
    /// The best position so far.
    pub position: Point,
    /// The cost there.
    pub cost: Scalar,
    /// The damping is `10 ^ damping_exponent`.
    pub damping_exponent: i32,
    /// How many steps were proposed.
    pub iteration: u32,
    /// Whether any step was taken.
    pub improved: bool,
}

impl Descent {
    /// What holds of the iteration at every turn: the position is finite, the
    /// cost is a number, at most `MAX_ITERATIONS` steps were proposed, and
    /// the damping exponent has moved by one for each of them.
    pub open spec fn sound(self) -> bool {
        &&& self.position.finite()
        &&& !self.cost.nan()
        &&& self.iteration < MAX_ITERATIONS
        &&& INITIAL_DAMPING_EXPONENT - self.iteration <= self.damping_exponent
            <= INITIAL_DAMPING_EXPONENT + self.iteration
    }

    /// Whether the state is sound.
    pub fn is_sound(&self) -> (r: bool)
        ensures
            r == self.sound(),
    {
        self.position.is_finite() && !self.cost.is_nan() && self.iteration < MAX_ITERATIONS
            && self.damping_exponent >= -53 && self.damping_exponent <= 47
            && INITIAL_DAMPING_EXPONENT - (self.iteration as i32) <= self.damping_exponent
            && self.damping_exponent <= INITIAL_DAMPING_EXPONENT + (self.iteration as i32)
    }
}

/// How one turn of the least-squares iteration ends.
#[derive(Clone, Copy, Debug)]
pub enum Turn {
    /// Another step is to be proposed from this state.
    Continue(Descent),
    /// The iteration ends at this position.
    Finished(Point),
    /// The iteration ends without a position.
    Diverged,
}

/// Where the iteration starts: at the centroid with the cost there, unless
/// the centroid is not finite or the cost is no number.
pub open spec fn spec_descent_start(centroid: Point, cost: Scalar) -> Option<Descent> {
    if centroid.finite() && !cost.nan() {
        Some(
            Descent {
                position: centroid,
                cost,
                damping_exponent: INITIAL_DAMPING_EXPONENT,
                iteration: 0,
                improved: false,
            },
        )
    } else {
        None
    }
}

/// Where the iteration starts.
pub fn descent_start(centroid: Point, cost: Scalar) -> (r: Option<Descent>)
    ensures
        r == spec_descent_start(centroid, cost),
        r matches Some(s) ==> s.sound(),
{
    if centroid.is_finite() && !cost.is_nan() {
        Some(
            Descent {
                position: centroid,
                cost,
                damping_exponent: INITIAL_DAMPING_EXPONENT,
                iteration: 0,
                improved: false,
            },
        )
    } else {
        None
    }
}

/// Whether a proposal can be judged: its candidate is finite, and its cost
/// and length are numbers.
pub open spec fn spec_judgeable(p: Proposal) -> bool {
    p.candidate.finite() && !p.cost.nan() && !p.length.nan()
}

/// The state after a proposal was judged: a proposal that lowers the cost is
/// taken and the damping divided by 10; any other is rejected and the
/// damping multiplied by 10.
pub open spec fn spec_descent_next(s: Descent, p: Proposal) -> Descent {
    if spec_judgeable(p) && p.cost.less(s.cost) {
        Descent {
            position: p.candidate,
            cost: p.cost,
            damping_exponent: (s.damping_exponent - 1) as i32,
            iteration: (s.iteration + 1) as u32,
            improved: true,
        }
    } else {
        Descent {
            position: s.position,
            cost: s.cost,
            damping_exponent: (s.damping_exponent + 1) as i32,
            iteration: (s.iteration + 1) as u32,
            improved: s.improved,
        }
    }
}

/// How a turn ends. A turn from a state that is not sound, and a first
/// proposal that cannot be judged, end the iteration without a position.
/// Otherwise the proposal is judged; then the iteration ends at the best
/// position if the step was shorter than the tolerance, and after
/// `MAX_ITERATIONS` proposals it ends at the best position if any step was
/// taken and without a position if none was.
pub open spec fn spec_descent_turn(s: Descent, p: Proposal) -> Turn {
    if !s.sound() || (!spec_judgeable(p) && s.iteration == 0) {
        Turn::Diverged
    } else {
        let next = spec_descent_next(s, p);
        if spec_judgeable(p) && p.length.less(Scalar { bits: STEP_TOLERANCE_BITS }) {
            Turn::Finished(next.position)
        } else if next.iteration >= MAX_ITERATIONS {
            if next.improved {
                Turn::Finished(next.position)
            } else {
                Turn::Diverged
            }
        } else {
            Turn::Continue(next)
        }
    }
}

/// How a turn ends.
pub fn descent_turn(s: &Descent, p: &Proposal) -> (r: Turn)
    ensures
        r == spec_descent_turn(*s, *p),
        r matches Turn::Continue(n) ==> n.sound() && n.iteration == s.iteration + 1,
        r matches Turn::Finished(at) ==> at.finite(),
{
    if !s.is_sound() {
        return Turn::Diverged;
    }
    let judgeable = p.candidate.is_finite() && !p.cost.is_nan() && !p.length.is_nan();
    if !judgeable && s.iteration == 0 {
        return Turn::Diverged;
    }
    let next = if judgeable && p.cost.lt(&s.cost) {
        Descent {
            position: p.candidate,
            cost: p.cost,
            damping_exponent: s.damping_exponent - 1,
            iteration: s.iteration + 1,
            improved: true,
        }
    } else {
        Descent {
            position: s.position,
            cost: s.cost,
            damping_exponent: s.damping_exponent + 1,
            iteration: s.iteration + 1,
            improved: s.improved,
        }
    };
    if judgeable && p.length.lt(&Scalar::from_bits(STEP_TOLERANCE_BITS)) {
        Turn::Finished(next.position)
    } else if next.iteration >= MAX_ITERATIONS {
        if next.improved {
            Turn::Finished(next.position)
        } else {
            Turn::Diverged
        }
    } else {
        Turn::Continue(next)
    }
}

/// The confidence of an estimate: the kernel's `1 - error / reach` brought
/// into the unit interval, and, where the basic method had to take the height
/// as 0, the kernel's half of that, brought into the unit interval again.
pub open spec fn spec_confidence(raw: Scalar, halved: Option<Scalar>) -> Scalar {
    match halved {
        Some(h) => h.spec_clamp_unit(),
        None => raw.spec_clamp_unit(),
    }
}

/// The estimate that a solver's position makes with the kernel's residual
/// and confidence: none unless every number of it is finite and in range.
pub open spec fn spec_conclude(
    at: Point,
    error: Scalar,
    raw_confidence: Scalar,
    halved: Option<Scalar>,
    method: Method,
    beacon_count: usize,
) -> Option<PositionEstimate> {
    PositionEstimate::spec_checked(
        at,
        spec_confidence(raw_confidence, halved),
        error,
        method,
        beacon_count,
    )
}

/// The estimate that a solver's position makes with the kernel's residual
/// and confidence.
pub fn conclude(
    at: Point,
    error: Scalar,
    raw_confidence: Scalar,
    halved: Option<Scalar>,
    method: Method,
    beacon_count: usize,
) -> (r: Option<PositionEstimate>)
    ensures
        r == spec_conclude(at, error, raw_confidence, halved, method, beacon_count),
        r matches Some(e) ==> e.valid() && e.method == method && e.beacon_count == beacon_count
            && e.x == at.x && e.y == at.y && e.z == at.z && e.error == error,
{
    let confidence = match halved {
        Some(h) => h.clamp_unit(),
        None => raw_confidence.clamp_unit(),
    };
    PositionEstimate::checked(at, confidence, error, method, beacon_count)
}

/// A turn that continues leaves the iteration sound, one proposal further,
/// with a cost that is no higher than before and a damping exponent that has
/// moved by one: down with a step taken, up with a step rejected. A step is
/// taken exactly when the proposal can be judged and lowers the cost.
pub proof fn lemma_turn(s: Descent, p: Proposal)
    requires
        s.sound(),
    ensures
        spec_descent_turn(s, p) matches Turn::Continue(n) ==> {
            &&& n.sound()
            &&& n.iteration == s.iteration + 1
            &&& n.cost.at_most(s.cost)
            &&& if spec_judgeable(p) && p.cost.less(s.cost) {
                n.position == p.candidate && n.cost == p.cost && n.damping_exponent
                    == s.damping_exponent - 1 && n.improved
            } else {
                n.position == s.position && n.cost == s.cost && n.damping_exponent
                    == s.damping_exponent + 1 && n.improved == s.improved
            }
        },
        spec_descent_turn(s, p) matches Turn::Finished(at) ==> at.finite() && (at == s.position
            || at == p.candidate),
        s.iteration + 1 == MAX_ITERATIONS ==> !(spec_descent_turn(s, p) is Continue),
{
}

} // verus!
