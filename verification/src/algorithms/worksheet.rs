//! A positioning as a function of what the kernel answered.
//!
//! The course of a positioning is fixed by its input and by the kernel's
//! replies: which queries are put, in which order, and what becomes of the
//! replies. A worksheet holds the replies; the functions here say what the
//! outcome is on a worksheet, and which queries its entries must answer.

use vstd::prelude::*;
use crate::algorithms::anchor::spec_reach;
use crate::algorithms::anchor::Point;
use crate::algorithms::anchor::SightingView;
use crate::algorithms::anchor::WeightedAnchor;
use crate::algorithms::decision::spec_basic_plan;
use crate::algorithms::decision::spec_conclude;
use crate::algorithms::decision::spec_descent_start;
use crate::algorithms::decision::spec_descent_turn;
use crate::algorithms::decision::spec_row;
use crate::algorithms::decision::spec_weighted_plan;
use crate::algorithms::decision::BasicPlan;
use crate::algorithms::decision::Descent;
use crate::algorithms::decision::Turn;
use crate::algorithms::decision::MAX_ITERATIONS;
use crate::algorithms::estimate::PositionEstimate;
use crate::algorithms::kernel::may_answer;
use crate::algorithms::kernel::Asked;
use crate::algorithms::kernel::Query;
use crate::algorithms::kernel::Reply;
use crate::algorithms::method::Method;
use crate::algorithms::method::Weighting;
use crate::algorithms::method::MIN_ANCHORS;
use crate::algorithms::model::spec_distance;
use crate::algorithms::model::RSSIModel;
use crate::scalar::Scalar;
use crate::scalar::ONE_BITS;
use crate::scalar::ZERO_BITS;

verus! {

/// Everything a kernel answered in the course of one positioning. Each entry
/// is the reply to one query; which queries are put, and in which order, is
/// fixed by the input and by the replies before. Entries for queries that
/// were never put mean nothing.
pub struct Worksheet {
    /// To `Distance`, one for each sighting.
    pub distances: Seq<Reply>,
    /// To `Weight`, one for each sighting.
    pub weights: Seq<Reply>,
    /// To `Planar`.
    pub planar: Reply,
    /// To `Root`.
    pub root: Reply,
    /// To `Normal`.
    pub normal: Reply,
    /// To `Centroid`.
    pub centroid: Reply,
    /// To `Cost` at the centroid.
    pub cost: Reply,
    /// To `Refine`, one for each turn of the iteration.
    pub steps: Seq<Reply>,
    /// To `Residual`.
    pub residual: Reply,
    /// To `Confidence`.
    pub confidence: Reply,
    /// To `Halve`.
    pub halved: Reply,
}

/// The beacon's position as a point.
pub open spec fn spec_place(s: SightingView) -> Point {
    Point { x: s.beacon.x, y: s.beacon.y, z: s.beacon.z }
}

/// The row that a sighting becomes with the kernel's replies about it: its
/// distance is what the reply to `Distance` is taken to mean, and under
/// inverse-square weighting there is no row where the reply to `Weight` is
/// not a number.
pub open spec fn spec_measured(
    sighting: SightingView,
    weighting: Weighting,
    distance: Reply,
    weight: Reply,
) -> Option<WeightedAnchor> {
    match weighting {
        Weighting::Uniform => spec_row(
            spec_place(sighting),
            spec_distance(distance),
            weighting,
            Scalar { bits: ONE_BITS },
        ),
        Weighting::InverseSquare => match weight {
            Reply::Value(w) => spec_row(spec_place(sighting), spec_distance(distance), weighting, w),
            _ => None,
        },
    }
}

/// The row of the sighting at `i` on a worksheet.
pub open spec fn spec_measured_at(
    sightings: Seq<SightingView>,
    weighting: Weighting,
    w: Worksheet,
    i: int,
) -> Option<WeightedAnchor> {
    spec_measured(sightings[i], weighting, w.distances[i], w.weights[i])
}

/// Whether every sighting before `i` gives a row.
pub open spec fn measured_before(
    sightings: Seq<SightingView>,
    weighting: Weighting,
    w: Worksheet,
    i: int,
) -> bool {
    forall|j: int| 0 <= j < i ==> (#[trigger] spec_measured_at(sightings, weighting, w, j)) is Some
}

/// The rows of the sightings on a worksheet: one for each sighting, in their
/// order, and none at all unless every sighting gives one.
pub open spec fn spec_measure(
    sightings: Seq<SightingView>,
    weighting: Weighting,
    w: Worksheet,
) -> Option<Seq<WeightedAnchor>> {
    if measured_before(sightings, weighting, w, sightings.len() as int) {
        Some(
            Seq::new(
                sightings.len(),
                |i: int| spec_measured_at(sightings, weighting, w, i).unwrap(),
            ),
        )
    } else {
        None
    }
}

/// Whether the worksheet holds the kernel's replies to the queries that
/// measuring puts: for each sighting as long as all before it gave a row, the
/// model's distance, and under inverse-square weighting the weight at the
/// floored distance.
pub open spec fn measure_asked<K: Fn(Query) -> Reply>(
    kernel: &K,
    sightings: Seq<SightingView>,
    model: RSSIModel,
    weighting: Weighting,
    w: Worksheet,
) -> bool {
    &&& w.distances.len() == sightings.len()
    &&& w.weights.len() == sightings.len()
    &&& forall|i: int|
        0 <= i < sightings.len() && #[trigger] measured_before(sightings, weighting, w, i) ==> {
            &&& may_answer(
                kernel,
                Asked::Distance { model, rssi: sightings[i].rssi },
                w.distances[i],
            )
            &&& weighting == Weighting::InverseSquare ==> may_answer(
                kernel,
                Asked::Weight { distance: spec_distance(w.distances[i]) },
                w.weights[i],
            )
        }
}

/// The estimate at `at` on a worksheet: what `conclude` makes of the
/// residual, the confidence and, where asked for, its half; none where one
/// of them is not a number.
pub open spec fn spec_grade(
    anchors: Seq<WeightedAnchor>,
    at: Point,
    halve: bool,
    method: Method,
    w: Worksheet,
) -> Option<PositionEstimate> {
    match w.residual {
        Reply::Value(error) => match w.confidence {
            Reply::Value(raw) => if halve {
                match w.halved {
                    Reply::Value(h) => spec_conclude(
                        at,
                        error,
                        raw,
                        Some(h),
                        method,
                        anchors.len() as usize,
                    ),
                    _ => None,
                }
            } else {
                spec_conclude(at, error, raw, None, method, anchors.len() as usize)
            },
            _ => None,
        },
        _ => None,
    }
}

/// Whether the worksheet holds the kernel's replies to the queries that
/// grading puts: the residual at `at`; then the confidence of that residual
/// against the rows' reach; then, where asked for, the half of that
/// confidence brought into the unit interval.
pub open spec fn grade_asked<K: Fn(Query) -> Reply>(
    kernel: &K,
    anchors: Seq<WeightedAnchor>,
    at: Point,
    halve: bool,
    w: Worksheet,
) -> bool {
    &&& may_answer(kernel, Asked::Residual { anchors, at }, w.residual)
    &&& w.residual matches Reply::Value(error) ==> {
        &&& may_answer(
            kernel,
            Asked::Confidence { error, reach: spec_reach(anchors) },
            w.confidence,
        )
        &&& halve ==> (w.confidence matches Reply::Value(raw) ==> may_answer(
            kernel,
            Asked::Halve { value: raw.spec_clamp_unit() },
            w.halved,
        ))
    }
}

/// The basic method's estimate on a worksheet: from the planar fix of the
/// first three rows, flat with halved confidence or raised by the root.
pub open spec fn spec_solve_basic(anchors: Seq<WeightedAnchor>, w: Worksheet) -> Option<
    PositionEstimate,
> {
    if anchors.len() < MIN_ANCHORS {
        None
    } else {
        let used = anchors.take(3);
        match w.planar {
            Reply::Planar(fix) => match spec_basic_plan(fix) {
                BasicPlan::Degenerate => None,
                BasicPlan::Flat { x, y } => spec_grade(
                    used,
                    Point { x, y, z: Scalar { bits: ZERO_BITS } },
                    true,
                    Method::Basic,
                    w,
                ),
                BasicPlan::Raised { x, y, height_squared } => match w.root {
                    Reply::Value(z) => spec_grade(used, Point { x, y, z }, false, Method::Basic, w),
                    _ => None,
                },
            },
            _ => None,
        }
    }
}

/// Whether the worksheet holds the kernel's replies to the queries that the
/// basic method puts.
pub open spec fn basic_asked<K: Fn(Query) -> Reply>(
    kernel: &K,
    anchors: Seq<WeightedAnchor>,
    w: Worksheet,
) -> bool {
    anchors.len() >= MIN_ANCHORS ==> {
        let used = anchors.take(3);
        &&& may_answer(kernel, Asked::Planar { anchors: used }, w.planar)
        &&& w.planar matches Reply::Planar(fix) ==> match spec_basic_plan(fix) {
            BasicPlan::Degenerate => true,
            BasicPlan::Flat { x, y } => grade_asked(
                kernel,
                used,
                Point { x, y, z: Scalar { bits: ZERO_BITS } },
                true,
                w,
            ),
            BasicPlan::Raised { x, y, height_squared } => {
                &&& may_answer(kernel, Asked::Root { value: height_squared }, w.root)
                &&& w.root matches Reply::Value(z) ==> grade_asked(
                    kernel,
                    used,
                    Point { x, y, z },
                    false,
                    w,
                )
            },
        }
    }
}

/// The weighted method's estimate on a worksheet.
pub open spec fn spec_solve_weighted(anchors: Seq<WeightedAnchor>, w: Worksheet) -> Option<
    PositionEstimate,
> {
    if anchors.len() < MIN_ANCHORS {
        None
    } else {
        match w.normal {
            Reply::Solved(fix) => match spec_weighted_plan(fix) {
                Some(at) => spec_grade(anchors, at, false, Method::Weighted, w),
                None => None,
            },
            _ => None,
        }
    }
}

/// Whether the worksheet holds the kernel's replies to the queries that the
/// weighted method puts.
pub open spec fn weighted_asked<K: Fn(Query) -> Reply>(
    kernel: &K,
    anchors: Seq<WeightedAnchor>,
    w: Worksheet,
) -> bool {
    anchors.len() >= MIN_ANCHORS ==> {
        &&& may_answer(kernel, Asked::Normal { anchors }, w.normal)
        &&& w.normal matches Reply::Solved(fix) ==> (spec_weighted_plan(fix) matches Some(at)
            ==> grade_asked(kernel, anchors, at, false, w))
    }
}

/// Where the iteration starts on a worksheet.
pub open spec fn spec_descent_begin(w: Worksheet) -> Option<Descent> {
    match w.centroid {
        Reply::Position(c) => match w.cost {
            Reply::Value(cost) => spec_descent_start(c, cost),
            _ => None,
        },
        _ => None,
    }
}

/// How the turn on the reply `step` ends: without a position where the reply
/// is no proposal.
pub open spec fn spec_turn_on(s: Descent, step: Reply) -> Turn {
    match step {
        Reply::Step(p) => spec_descent_turn(s, p),
        _ => Turn::Diverged,
    }
}

/// The state in which turn `i` of the iteration begins, if the iteration
/// gets that far: turn 0 begins at `start`, and each next turn where the one
/// before ended with `Continue`.
pub open spec fn spec_descent_at(start: Descent, steps: Seq<Reply>, i: nat) -> Option<Descent>
    decreases i,
{
    if i == 0 {
        Some(start)
    } else {
        match spec_descent_at(start, steps, (i - 1) as nat) {
            Some(s) => match spec_turn_on(s, steps[i - 1]) {
                Turn::Continue(next) => Some(next),
                _ => None,
            },
            None => None,
        }
    }
}

/// The position at which the iteration ends on a worksheet: where its last
/// turn finishes, if every turn before it continued.
pub open spec fn spec_descend(w: Worksheet) -> Option<Point> {
    match spec_descent_begin(w) {
        Some(start) => if w.steps.len() == 0 {
            None
        } else {
            match spec_descent_at(start, w.steps, (w.steps.len() - 1) as nat) {
                Some(s) => match spec_turn_on(s, w.steps.last()) {
                    Turn::Finished(at) => Some(at),
                    _ => None,
                },
                None => None,
            }
        },
        None => None,
    }
}

/// Whether the worksheet holds the kernel's replies to the queries that the
/// iteration puts: the centroid, the cost there, and one proposal for each
/// turn from the state in which the turn begins; and whether the iteration
/// ends with its last turn and not before.
pub open spec fn descend_asked<K: Fn(Query) -> Reply>(
    kernel: &K,
    anchors: Seq<WeightedAnchor>,
    w: Worksheet,
) -> bool {
    &&& may_answer(kernel, Asked::Centroid { anchors }, w.centroid)
    &&& w.centroid matches Reply::Position(c) ==> may_answer(
        kernel,
        Asked::Cost { anchors, at: c },
        w.cost,
    )
    &&& spec_descent_begin(w) matches Some(start) ==> {
        &&& 1 <= w.steps.len() <= MAX_ITERATIONS
        &&& forall|i: nat|
            i < w.steps.len() ==> (#[trigger] spec_descent_at(start, w.steps, i) matches Some(s)
                && s.sound() && s.iteration == i && may_answer(
                kernel,
                Asked::Refine { anchors, at: s.position, damping_exponent: s.damping_exponent },
                w.steps[i as int],
            ))
        &&& !(spec_turn_on(
            spec_descent_at(start, w.steps, (w.steps.len() - 1) as nat).unwrap(),
            w.steps.last(),
        ) is Continue)
    }
}

/// The least-squares method's estimate on a worksheet.
pub open spec fn spec_solve_least_squares(anchors: Seq<WeightedAnchor>, w: Worksheet) -> Option<
    PositionEstimate,
> {
    if anchors.len() < MIN_ANCHORS {
        None
    } else {
        match spec_descend(w) {
            Some(at) => spec_grade(anchors, at, false, Method::LeastSquares, w),
            None => None,
        }
    }
}

/// Whether the worksheet holds the kernel's replies to the queries that the
/// least-squares method puts.
pub open spec fn least_squares_asked<K: Fn(Query) -> Reply>(
    kernel: &K,
    anchors: Seq<WeightedAnchor>,
    w: Worksheet,
) -> bool {
    anchors.len() >= MIN_ANCHORS ==> {
        &&& descend_asked(kernel, anchors, w)
        &&& spec_descend(w) matches Some(at) ==> grade_asked(kernel, anchors, at, false, w)
    }
}

/// The estimate of `method` on a worksheet.
pub open spec fn spec_solve(method: Method, anchors: Seq<WeightedAnchor>, w: Worksheet) -> Option<
    PositionEstimate,
> {
    match method {
        Method::Basic => spec_solve_basic(anchors, w),
        Method::Weighted => spec_solve_weighted(anchors, w),
        Method::LeastSquares => spec_solve_least_squares(anchors, w),
    }
}

/// Whether the worksheet holds the kernel's replies to the queries that
/// `method` puts.
pub open spec fn solve_asked<K: Fn(Query) -> Reply>(
    kernel: &K,
    method: Method,
    anchors: Seq<WeightedAnchor>,
    w: Worksheet,
) -> bool {
    match method {
        Method::Basic => basic_asked(kernel, anchors, w),
        Method::Weighted => weighted_asked(kernel, anchors, w),
        Method::LeastSquares => least_squares_asked(kernel, anchors, w),
    }
}

/// A worksheet with nothing on it.
pub open spec fn blank() -> Worksheet {
    let nothing = Reply::Value(Scalar { bits: ZERO_BITS });
    Worksheet {
        distances: Seq::empty(),
        weights: Seq::empty(),
        planar: nothing,
        root: nothing,
        normal: nothing,
        centroid: nothing,
        cost: nothing,
        steps: Seq::empty(),
        residual: nothing,
        confidence: nothing,
        halved: nothing,
    }
}

/// Measuring reads the distances and the weights of a worksheet and nothing
/// else.
pub proof fn lemma_measure_reads<K: Fn(Query) -> Reply>(
    kernel: &K,
    sightings: Seq<SightingView>,
    model: RSSIModel,
    weighting: Weighting,
    w: Worksheet,
    v: Worksheet,
)
    requires
        w.distances == v.distances,
        w.weights == v.weights,
    ensures
        spec_measure(sightings, weighting, w) == spec_measure(sightings, weighting, v),
        measure_asked(kernel, sightings, model, weighting, w) == measure_asked(
            kernel,
            sightings,
            model,
            weighting,
            v,
        ),
{
    assert forall|i: int|
        spec_measured_at(sightings, weighting, w, i) == spec_measured_at(
            sightings,
            weighting,
            v,
            i,
        ) by {}
    assert forall|i: int|
        measured_before(sightings, weighting, w, i) == measured_before(
            sightings,
            weighting,
            v,
            i,
        ) by {
        if measured_before(sightings, weighting, w, i) {
            assert forall|j: int| 0 <= j < i implies (#[trigger] spec_measured_at(
                sightings,
                weighting,
                v,
                j,
            )) is Some by {
                assert(spec_measured_at(sightings, weighting, w, j) is Some);
            }
        }
        if measured_before(sightings, weighting, v, i) {
            assert forall|j: int| 0 <= j < i implies (#[trigger] spec_measured_at(
                sightings,
                weighting,
                w,
                j,
            )) is Some by {
                assert(spec_measured_at(sightings, weighting, v, j) is Some);
            }
        }
    }
    if measured_before(sightings, weighting, w, sightings.len() as int) {
        assert(spec_measure(sightings, weighting, w).unwrap() =~= spec_measure(
            sightings,
            weighting,
            v,
        ).unwrap());
    }
}

/// Solving reads every entry of a worksheet but the distances and the
/// weights.
pub proof fn lemma_solve_reads<K: Fn(Query) -> Reply>(
    kernel: &K,
    method: Method,
    anchors: Seq<WeightedAnchor>,
    w: Worksheet,
    v: Worksheet,
)
    requires
        v == (Worksheet { distances: v.distances, weights: v.weights, ..w }),
    ensures
        spec_solve(method, anchors, w) == spec_solve(method, anchors, v),
        solve_asked(kernel, method, anchors, w) == solve_asked(kernel, method, anchors, v),
{
    assert(spec_descent_begin(w) == spec_descent_begin(v));
    assert(spec_descend(w) == spec_descend(v));
    assert(descend_asked(kernel, anchors, w) == descend_asked(kernel, anchors, v));
}

/// The first `n` entries of `seen`, and nothing where `seen` has run out.
pub open spec fn padded(seen: Seq<Reply>, n: nat) -> Seq<Reply> {
    Seq::new(
        n,
        |i: int|
            if i < seen.len() {
                seen[i]
            } else {
                Reply::Value(Scalar { bits: ZERO_BITS })
            },
    )
}

/// A turn begins in the same state whatever replies come after it.
pub proof fn lemma_descent_prefix(start: Descent, steps: Seq<Reply>, more: Reply, i: nat)
    requires
        i <= steps.len(),
    ensures
        spec_descent_at(start, steps.push(more), i) == spec_descent_at(start, steps, i),
    decreases i,
{
    if i > 0 {
        lemma_descent_prefix(start, steps, more, (i - 1) as nat);
        assert(steps.push(more)[i - 1] == steps[i - 1]);
    }
}

/// As far as an iteration gets, it stays sound, has had one proposal for
/// each turn, and its cost has not risen above the cost it started with.
pub proof fn lemma_descent_falls(start: Descent, steps: Seq<Reply>, i: nat)
    requires
        start.sound(),
        start.iteration == 0,
    ensures
        spec_descent_at(start, steps, i) matches Some(s) ==> s.sound() && s.iteration == i
            && s.cost.at_most(start.cost),
        spec_descent_at(start, steps, i) is Some ==> i < MAX_ITERATIONS,
    decreases i,
{
    if i > 0 {
        lemma_descent_falls(start, steps, (i - 1) as nat);
        match spec_descent_at(start, steps, (i - 1) as nat) {
            Some(s) => {
                match steps[i - 1] {
                    Reply::Step(p) => {
                        crate::algorithms::decision::lemma_turn(s, p);
                    },
                    _ => {},
                }
            },
            None => {},
        }
    }
}

} // verus!
