//! The boundary to the numeric kernel.
//!
//! Everything the engine needs computed on measurements, as opposed to
//! compared, is put as a `Query` to a kernel that the caller supplies, and
//! comes back as a `Reply`. The engine assumes nothing of a reply: what it
//! does with one is decided by functions of this library that take the reply
//! as an argument, and holds whatever the kernel answered.

use vstd::prelude::*;
use crate::algorithms::anchor::Point;
use crate::algorithms::anchor::WeightedAnchor;
use crate::algorithms::model::RSSIModel;
use crate::scalar::Scalar;

verus! {

/// What the engine asks of the kernel. With rows `(p_i, d_i, w_i)` of
/// position, distance and weight, and `epsilon = 1e-6`:
#[derive(Debug)]
pub enum Query<'a> {
    /// The distance that `model` gives for a strength of `rssi` dBm, in the
    /// model's unit.
    Distance { model: RSSIModel, rssi: i16 },
    /// The weight of a row at `distance`: `1 / (distance^2 + epsilon)`.
    Weight { distance: Scalar },
    /// The planar fix of the first three rows: subtracting the first row's
    /// sphere equation `|p - p_i|^2 = d_i^2` from the second's and the
    /// third's, heights left out, gives a 2x2 system in `(x, y)`. The reply
    /// holds its determinant, its solution, and what is left for the height,
    /// `d_1^2 - (x - x_1)^2 - (y - y_1)^2`.
    Planar { anchors: &'a Vec<WeightedAnchor> },
    /// The square root of `value`.
    Root { value: Scalar },
    /// The weighted linear fix of all rows: subtracting the sphere equations
    /// in pairs `i < j` gives one linear equation each, `A p = b`, which is
    /// solved by weighted least squares, `(A^T W A) p = A^T W b` with
    /// `W = diag(w_i * w_j)`. The equations are taken about the weighted
    /// centroid and scaled to a trace of 3. Where they determine the position
    /// in every direction the reply holds their determinant and solution.
    /// Where they do not, as with three rows, whose differences span a plane,
    /// they are solved in that plane and the solution is raised from it to
    /// the first row's sphere; the determinant is then that of the system in
    /// the plane, over the square of half its trace.
    Normal { anchors: &'a Vec<WeightedAnchor> },
    /// The weighted centroid of the rows' positions, `sum w_i p_i / sum w_i`.
    Centroid { anchors: &'a Vec<WeightedAnchor> },
    /// The cost `sum w_i * (|at - p_i| - d_i)^2`.
    Cost { anchors: &'a Vec<WeightedAnchor>, at: Point },
    /// One damped Gauss-Newton step from `at`: with residuals
    /// `r_i = |at - p_i| - d_i`, Jacobian rows
    /// `w_i * (at - p_i) / max(|at - p_i|, epsilon)` and damping
    /// `lambda = 10 ^ damping_exponent`, the step solves
    /// `(J^T J + lambda I) step = -J^T r`. The reply holds where the step
    /// leads, the cost there, and the length of the step.
    Refine { anchors: &'a Vec<WeightedAnchor>, at: Point, damping_exponent: i32 },
    /// The weighted root-mean-square residual at `at`,
    /// `sqrt(sum w_i r_i^2 / sum w_i)`.
    Residual { anchors: &'a Vec<WeightedAnchor>, at: Point },
    /// `1 - error / reach`.
    Confidence { error: Scalar, reach: Scalar },
    /// Half of `value`.
    Halve { value: Scalar },
}

/// The solution of the planar system of the basic method.
#[derive(Clone, Copy, Debug)]
pub struct PlanarFix {
    pub determinant: Scalar,
    pub x: Scalar,
    pub y: Scalar,
    /// What is left of the first sphere's squared radius above `(x, y)`.
    pub height_squared: Scalar,
}

/// The solution of the normal equations of the weighted method.
#[derive(Clone, Copy, Debug)]
pub struct LinearFix {
    pub determinant: Scalar,
    pub position: Point,
}

/// One proposed step of the least-squares iteration.
#[derive(Clone, Copy, Debug)]
pub struct Proposal {
    pub candidate: Point,
    /// The cost at `candidate`.
    pub cost: Scalar,
    /// The length of the step.
    pub length: Scalar,
}

/// What the kernel answers.
#[derive(Clone, Copy, Debug)]
pub enum Reply {
    Value(Scalar),
    Position(Point),
    Planar(PlanarFix),
    Solved(LinearFix),
    Step(Proposal),
}

/// A query as a value: the rows themselves in place of a borrow of them.
pub enum Asked {
    Distance { model: RSSIModel, rssi: i16 },
    Weight { distance: Scalar },
    Planar { anchors: Seq<WeightedAnchor> },
    Root { value: Scalar },
    Normal { anchors: Seq<WeightedAnchor> },
    Centroid { anchors: Seq<WeightedAnchor> },
    Cost { anchors: Seq<WeightedAnchor>, at: Point },
    Refine { anchors: Seq<WeightedAnchor>, at: Point, damping_exponent: i32 },
    Residual { anchors: Seq<WeightedAnchor>, at: Point },
    Confidence { error: Scalar, reach: Scalar },
    Halve { value: Scalar },
}

impl<'a> View for Query<'a> {
    type V = Asked;

    open spec fn view(&self) -> Asked {
        match *self {
            Query::Distance { model, rssi } => Asked::Distance { model, rssi },
            Query::Weight { distance } => Asked::Weight { distance },
            Query::Planar { anchors } => Asked::Planar { anchors: anchors@ },
            Query::Root { value } => Asked::Root { value },
            Query::Normal { anchors } => Asked::Normal { anchors: anchors@ },
            Query::Centroid { anchors } => Asked::Centroid { anchors: anchors@ },
            Query::Cost { anchors, at } => Asked::Cost { anchors: anchors@, at },
            Query::Refine { anchors, at, damping_exponent } => Asked::Refine {
                anchors: anchors@,
                at,
                damping_exponent,
            },
            Query::Residual { anchors, at } => Asked::Residual { anchors: anchors@, at },
            Query::Confidence { error, reach } => Asked::Confidence { error, reach },
            Query::Halve { value } => Asked::Halve { value },
        }
    }
}

/// Whether the kernel accepts every query.
pub open spec fn answers_all<K: Fn(Query) -> Reply>(kernel: &K) -> bool {
    forall|q: Query| #[trigger] call_requires(*kernel, (q,))
}

/// Whether `reply` is something the kernel may answer when asked `asked`.
pub open spec fn may_answer<K: Fn(Query) -> Reply>(kernel: &K, asked: Asked, reply: Reply) -> bool {
    exists|q: Query| #[trigger] q.view() == asked && call_ensures(*kernel, (q,), reply)
}

/// Puts `query` to the kernel.
pub fn ask<K: Fn(Query) -> Reply>(kernel: &K, query: Query) -> (r: Reply)
    requires
        answers_all(kernel),
    ensures
        may_answer(kernel, query@, r),
{
    let ghost asked = query@;
    let ghost q = query;
    let r = kernel(query);
    proof {
        assert(q.view() == asked && call_ensures(*kernel, (q,), r));
    }
    r
}

} // verus!
