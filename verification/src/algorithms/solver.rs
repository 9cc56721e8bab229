//! The three solvers: each puts its queries to the kernel and lets the
//! decisions of this library make of the replies what they will.

use vstd::prelude::*;
use crate::algorithms::anchor::all_usable;
use crate::algorithms::anchor::reach;
use crate::algorithms::anchor::sighting_views;
use crate::algorithms::anchor::Point;
use crate::algorithms::anchor::Sighting;
use crate::algorithms::anchor::WeightedAnchor;
use crate::algorithms::decision::basic_plan;
use crate::algorithms::decision::conclude;
use crate::algorithms::decision::descent_start;
use crate::algorithms::decision::descent_turn;
use crate::algorithms::decision::row;
use crate::algorithms::decision::weighted_plan;
use crate::algorithms::decision::BasicPlan;
use crate::algorithms::decision::Turn;
use crate::algorithms::decision::MAX_ITERATIONS;
use crate::algorithms::estimate::PositionEstimate;
use crate::algorithms::kernel::answers_all;
use crate::algorithms::kernel::ask;
use crate::algorithms::kernel::may_answer;
use crate::algorithms::kernel::Asked;
use crate::algorithms::kernel::Query;
use crate::algorithms::kernel::Reply;
use crate::algorithms::method::Method;
use crate::algorithms::method::Weighting;
use crate::algorithms::method::MIN_ANCHORS;
use crate::algorithms::model::distance_from;
use crate::algorithms::model::spec_distance;
use crate::algorithms::model::RSSIModel;
use crate::algorithms::worksheet::basic_asked;
use crate::algorithms::worksheet::blank;
use crate::algorithms::worksheet::descend_asked;
use crate::algorithms::worksheet::grade_asked;
use crate::algorithms::worksheet::least_squares_asked;
use crate::algorithms::worksheet::lemma_descent_prefix;
use crate::algorithms::worksheet::measure_asked;
use crate::algorithms::worksheet::measured_before;
use crate::algorithms::worksheet::padded;
use crate::algorithms::worksheet::solve_asked;
use crate::algorithms::worksheet::spec_descend;
use crate::algorithms::worksheet::spec_descent_at;
use crate::algorithms::worksheet::spec_descent_begin;
use crate::algorithms::worksheet::spec_grade;
use crate::algorithms::worksheet::spec_measure;
use crate::algorithms::worksheet::spec_measured;
use crate::algorithms::worksheet::spec_measured_at;
use crate::algorithms::worksheet::spec_solve;
use crate::algorithms::worksheet::spec_solve_basic;
use crate::algorithms::worksheet::spec_solve_least_squares;
use crate::algorithms::worksheet::spec_solve_weighted;
use crate::algorithms::worksheet::spec_turn_on;
use crate::algorithms::worksheet::weighted_asked;
use crate::algorithms::worksheet::Worksheet;
use crate::scalar::Scalar;
use crate::scalar::ZERO_BITS;

verus! {

pub(crate) fn measure_on<K: Fn(Query) -> Reply>(
    sightings: &Vec<Sighting>,
    model: &RSSIModel,
    weighting: Weighting,
    kernel: &K,
) -> (r: (Option<Vec<WeightedAnchor>>, Ghost<Worksheet>))
    requires
        answers_all(kernel),
    ensures
        measure_asked(kernel, sighting_views(sightings@), *model, weighting, r.1@),
        match spec_measure(sighting_views(sightings@), weighting, r.1@) {
            Some(rows) => r.0 matches Some(made) && made@ == rows,
            None => r.0 is None,
        },
        r.0 matches Some(made) ==> all_usable(made@) && made@.len() == sightings@.len(),
{
    let mut rows: Vec<WeightedAnchor> = Vec::new();
    let n = sightings.len();
    let ghost views = sighting_views(sightings@);
    let ghost mut distances: Seq<Reply> = Seq::empty();
    let ghost mut weights: Seq<Reply> = Seq::empty();
    let mut i: usize = 0;
    while i < n
        invariant
            i <= n,
            n == sightings.len(),
            views == sighting_views(sightings@),
            answers_all(kernel),
            rows@.len() == i,
            distances.len() == i,
            weights.len() == i,
            all_usable(rows@),
            forall|j: int|
                0 <= j < i ==> spec_measured(views[j], weighting, distances[j], weights[j])
                    == Some(#[trigger] rows@[j]),
            forall|j: int|
                0 <= j < i ==> may_answer(
                    kernel,
                    Asked::Distance { model: *model, rssi: views[j].rssi },
                    #[trigger] distances[j],
                ),
            forall|j: int|
                0 <= j < i && weighting == Weighting::InverseSquare ==> may_answer(
                    kernel,
                    Asked::Weight { distance: spec_distance(distances[j]) },
                    #[trigger] weights[j],
                ),
        decreases n - i,
    {
        let sighting = &sightings[i];
        let position = Point { x: sighting.beacon.x, y: sighting.beacon.y, z: sighting.beacon.z };
        let distance = ask(kernel, Query::Distance { model: *model, rssi: sighting.rssi });
        let measured = distance_from(distance);
        let ghost mut weight = Reply::Value(Scalar { bits: ZERO_BITS });
        let made = match weighting {
            Weighting::Uniform => row(position, measured, weighting, Scalar::one()),
            Weighting::InverseSquare => {
                let reply = ask(kernel, Query::Weight { distance: measured });
                proof {
                    weight = reply;
                }
                match reply {
                    Reply::Value(raw_weight) => row(position, measured, weighting, raw_weight),
                    _ => None,
                }
            },
        };
        proof {
            distances = distances.push(distance);
            weights = weights.push(weight);
            assert(views[i as int] == sighting@);
            assert(made == spec_measured(views[i as int], weighting, distance, weight));
        }
        match made {
            Some(a) => {
                rows.push(a);
            },
            None => {
                let ghost w = Worksheet {
                    distances: padded(distances, n as nat),
                    weights: padded(weights, n as nat),
                    ..blank()
                };
                proof {
                    assert(spec_measured_at(views, weighting, w, i as int) is None);
                    assert forall|k: int|
                        0 <= k < views.len() && #[trigger] measured_before(
                            views,
                            weighting,
                            w,
                            k,
                        ) implies k <= i by {
                        if k > i {
                            assert(spec_measured_at(views, weighting, w, i as int) is Some);
                        }
                    }
                    assert(!measured_before(views, weighting, w, views.len() as int)) by {
                        if measured_before(views, weighting, w, views.len() as int) {
                            assert(spec_measured_at(views, weighting, w, i as int) is Some);
                        }
                    }
                }
                return (None, Ghost(w));
            },
        }
        i = i + 1;
    }
    let ghost w = Worksheet { distances, weights, ..blank() };
    proof {
        assert forall|j: int| 0 <= j < n implies (#[trigger] spec_measured_at(
            views,
            weighting,
            w,
            j,
        )) is Some by {
            assert(spec_measured(views[j], weighting, distances[j], weights[j]) == Some(rows@[j]));
        }
        assert(measured_before(views, weighting, w, views.len() as int));
        assert(rows@ =~= spec_measure(views, weighting, w).unwrap());
    }
    (Some(rows), Ghost(w))
}

/// Turns sightings into rows: for each, the kernel is asked for the model's
/// distance and, under inverse-square weighting, for the weight at the
/// floored distance. There are rows only if every sighting gives one. The
/// rows are what `spec_measure` makes of the kernel's replies.
pub fn measure<K: Fn(Query) -> Reply>(
    sightings: &Vec<Sighting>,
    model: &RSSIModel,
    weighting: Weighting,
    kernel: &K,
) -> (r: Option<Vec<WeightedAnchor>>)
    requires
        answers_all(kernel),
    ensures
        exists|w: Worksheet| #[trigger]
            measure_asked(kernel, sighting_views(sightings@), *model, weighting, w) && match spec_measure(
                sighting_views(sightings@),
                weighting,
                w,
            ) {
                Some(rows) => r matches Some(made) && made@ == rows,
                None => r is None,
            },
        r matches Some(made) ==> all_usable(made@) && made@.len() == sightings@.len(),
{
    let (r, Ghost(w)) = measure_on(sightings, model, weighting, kernel);
    proof {
        assert(measure_asked(kernel, sighting_views(sightings@), *model, weighting, w));
    }
    r
}

fn grade_on<K: Fn(Query) -> Reply>(
    anchors: &Vec<WeightedAnchor>,
    at: Point,
    halve: bool,
    method: Method,
    kernel: &K,
) -> (r: (Option<PositionEstimate>, Ghost<Worksheet>))
    requires
        answers_all(kernel),
    ensures
        grade_asked(kernel, anchors@, at, halve, r.1@),
        r.0 == spec_grade(anchors@, at, halve, method, r.1@),
        r.0 matches Some(e) ==> {
            &&& e.valid()
            &&& e.method == method
            &&& e.beacon_count == anchors@.len()
            &&& e.x == at.x && e.y == at.y && e.z == at.z
        },
{
    let residual = ask(kernel, Query::Residual { anchors, at });
    let ghost mut w = Worksheet { residual, ..blank() };
    let error = match residual {
        Reply::Value(v) => v,
        _ => {
            return (None, Ghost(w));
        },
    };
    let confidence = ask(kernel, Query::Confidence { error, reach: reach(anchors) });
    proof {
        w = Worksheet { confidence, ..w };
    }
    let raw = match confidence {
        Reply::Value(v) => v,
        _ => {
            return (None, Ghost(w));
        },
    };
    let halved = if halve {
        let reply = ask(kernel, Query::Halve { value: raw.clamp_unit() });
        proof {
            w = Worksheet { halved: reply, ..w };
        }
        match reply {
            Reply::Value(v) => Some(v),
            _ => {
                return (None, Ghost(w));
            },
        }
    } else {
        None
    };
    (conclude(at, error, raw, halved, method, anchors.len()), Ghost(w))
}

/// Finishes a solver's work: asks the kernel for the residual at `at` and
/// for the confidence against the rows' reach, has the confidence halved if
/// asked to, and hands out the estimate if it is valid. The outcome is what
/// `spec_grade` makes of the kernel's replies.
pub fn grade<K: Fn(Query) -> Reply>(
    anchors: &Vec<WeightedAnchor>,
    at: Point,
    halve: bool,
    method: Method,
    kernel: &K,
) -> (r: Option<PositionEstimate>)
    requires
        answers_all(kernel),
    ensures
        exists|w: Worksheet| #[trigger]
            grade_asked(kernel, anchors@, at, halve, w) && r == spec_grade(
                anchors@,
                at,
                halve,
                method,
                w,
            ),
        r matches Some(e) ==> {
            &&& e.valid()
            &&& e.method == method
            &&& e.beacon_count == anchors@.len()
            &&& e.x == at.x && e.y == at.y && e.z == at.z
        },
{
    let (r, Ghost(w)) = grade_on(anchors, at, halve, method, kernel);
    proof {
        assert(grade_asked(kernel, anchors@, at, halve, w));
    }
    r
}

fn solve_basic_on<K: Fn(Query) -> Reply>(anchors: &Vec<WeightedAnchor>, kernel: &K) -> (r: (
    Option<PositionEstimate>,
    Ghost<Worksheet>,
))
    requires
        answers_all(kernel),
    ensures
        basic_asked(kernel, anchors@, r.1@),
        r.0 == spec_solve_basic(anchors@, r.1@),
        r.0 matches Some(e) ==> e.valid() && e.method == Method::Basic && e.beacon_count == 3,
{
    if anchors.len() < MIN_ANCHORS {
        return (None, Ghost(blank()));
    }
    let mut used: Vec<WeightedAnchor> = Vec::new();
    used.push(anchors[0]);
    used.push(anchors[1]);
    used.push(anchors[2]);
    proof {
        assert(used@ =~= anchors@.take(3));
    }
    let planar = ask(kernel, Query::Planar { anchors: &used });
    let fix = match planar {
        Reply::Planar(f) => f,
        _ => {
            return (None, Ghost(Worksheet { planar, ..blank() }));
        },
    };
    match basic_plan(&fix) {
        BasicPlan::Degenerate => (None, Ghost(Worksheet { planar, ..blank() })),
        BasicPlan::Flat { x, y } => {
            let (r, Ghost(g)) = grade_on(
                &used,
                Point { x, y, z: Scalar::zero() },
                true,
                Method::Basic,
                kernel,
            );
            (r, Ghost(Worksheet { planar, ..g }))
        },
        BasicPlan::Raised { x, y, height_squared } => {
            let root = ask(kernel, Query::Root { value: height_squared });
            let z = match root {
                Reply::Value(v) => v,
                _ => {
                    return (None, Ghost(Worksheet { planar, root, ..blank() }));
                },
            };
            let (r, Ghost(g)) = grade_on(&used, Point { x, y, z }, false, Method::Basic, kernel);
            (r, Ghost(Worksheet { planar, root, ..g }))
        },
    }
}

/// The basic method on the first three rows. The outcome is what
/// `spec_solve_basic` makes of the kernel's replies.
pub fn solve_basic<K: Fn(Query) -> Reply>(anchors: &Vec<WeightedAnchor>, kernel: &K) -> (r: Option<
    PositionEstimate,
>)
    requires
        answers_all(kernel),
    ensures
        exists|w: Worksheet| #[trigger]
            basic_asked(kernel, anchors@, w) && r == spec_solve_basic(anchors@, w),
        anchors@.len() < MIN_ANCHORS ==> r is None,
        r matches Some(e) ==> e.valid() && e.method == Method::Basic && e.beacon_count == 3,
{
    let (r, Ghost(w)) = solve_basic_on(anchors, kernel);
    proof {
        assert(basic_asked(kernel, anchors@, w));
    }
    r
}

fn solve_weighted_on<K: Fn(Query) -> Reply>(anchors: &Vec<WeightedAnchor>, kernel: &K) -> (r: (
    Option<PositionEstimate>,
    Ghost<Worksheet>,
))
    requires
        answers_all(kernel),
    ensures
        weighted_asked(kernel, anchors@, r.1@),
        r.0 == spec_solve_weighted(anchors@, r.1@),
        r.0 matches Some(e) ==> e.valid() && e.method == Method::Weighted && e.beacon_count
            == anchors@.len(),
{
    if anchors.len() < MIN_ANCHORS {
        return (None, Ghost(blank()));
    }
    let normal = ask(kernel, Query::Normal { anchors });
    let fix = match normal {
        Reply::Solved(f) => f,
        _ => {
            return (None, Ghost(Worksheet { normal, ..blank() }));
        },
    };
    match weighted_plan(&fix) {
        Some(at) => {
            let (r, Ghost(g)) = grade_on(anchors, at, false, Method::Weighted, kernel);
            (r, Ghost(Worksheet { normal, ..g }))
        },
        None => (None, Ghost(Worksheet { normal, ..blank() })),
    }
}

/// The weighted method on all rows. The outcome is what
/// `spec_solve_weighted` makes of the kernel's replies.
pub fn solve_weighted<K: Fn(Query) -> Reply>(anchors: &Vec<WeightedAnchor>, kernel: &K) -> (r:
    Option<PositionEstimate>)
    requires
        answers_all(kernel),
    ensures
        exists|w: Worksheet| #[trigger]
            weighted_asked(kernel, anchors@, w) && r == spec_solve_weighted(anchors@, w),
        anchors@.len() < MIN_ANCHORS ==> r is None,
        r matches Some(e) ==> e.valid() && e.method == Method::Weighted && e.beacon_count
            == anchors@.len(),
{
    let (r, Ghost(w)) = solve_weighted_on(anchors, kernel);
    proof {
        assert(weighted_asked(kernel, anchors@, w));
    }
    r
}

fn descend_on<K: Fn(Query) -> Reply>(anchors: &Vec<WeightedAnchor>, kernel: &K) -> (r: (
    Option<Point>,
    Ghost<Worksheet>,
))
    requires
        answers_all(kernel),
    ensures
        descend_asked(kernel, anchors@, r.1@),
        r.0 == spec_descend(r.1@),
        r.0 matches Some(at) ==> at.finite(),
{
    let centroid = ask(kernel, Query::Centroid { anchors });
    let c = match centroid {
        Reply::Position(p) => p,
        _ => {
            return (None, Ghost(Worksheet { centroid, ..blank() }));
        },
    };
    let cost = ask(kernel, Query::Cost { anchors, at: c });
    let ghost w0 = Worksheet { centroid, cost, ..blank() };
    let value = match cost {
        Reply::Value(v) => v,
        _ => {
            return (None, Ghost(w0));
        },
    };
    let start = match descent_start(c, value) {
        Some(s) => s,
        None => {
            return (None, Ghost(w0));
        },
    };
    let mut state = start;
    let ghost mut steps: Seq<Reply> = Seq::empty();
    loop
        invariant
            answers_all(kernel),
            state.sound(),
            start.sound(),
            may_answer(kernel, Asked::Centroid { anchors: anchors@ }, w0.centroid),
            w0.centroid matches Reply::Position(p) ==> may_answer(
                kernel,
                Asked::Cost { anchors: anchors@, at: p },
                w0.cost,
            ),
            spec_descent_begin(w0) == Some(start),
            steps.len() == state.iteration,
            spec_descent_at(start, steps, steps.len()) == Some(state),
            forall|i: nat|
                i < steps.len() ==> (#[trigger] spec_descent_at(start, steps, i) matches Some(s)
                    && s.sound() && s.iteration == i && may_answer(
                    kernel,
                    Asked::Refine {
                        anchors: anchors@,
                        at: s.position,
                        damping_exponent: s.damping_exponent,
                    },
                    steps[i as int],
                )),
        decreases MAX_ITERATIONS - state.iteration,
    {
        let reply = ask(
            kernel,
            Query::Refine {
                anchors,
                at: state.position,
                damping_exponent: state.damping_exponent,
            },
        );
        let ghost before = steps;
        proof {
            steps = steps.push(reply);
            assert forall|i: nat| i < steps.len() implies (#[trigger] spec_descent_at(
                start,
                steps,
                i,
            ) matches Some(s) && s.sound() && s.iteration == i && may_answer(
                kernel,
                Asked::Refine {
                    anchors: anchors@,
                    at: s.position,
                    damping_exponent: s.damping_exponent,
                },
                steps[i as int],
            )) by {
                lemma_descent_prefix(start, before, reply, i);
                if i < before.len() {
                    assert(steps[i as int] == before[i as int]);
                }
            }
            lemma_descent_prefix(start, before, reply, before.len());
            assert(steps.last() == reply);
        }
        let turn = match reply {
            Reply::Step(p) => descent_turn(&state, &p),
            _ => Turn::Diverged,
        };
        proof {
            assert(turn == spec_turn_on(state, reply));
        }
        let ghost w = Worksheet { steps, ..w0 };
        match turn {
            Turn::Continue(next) => {
                proof {
                    assert(spec_descent_at(start, steps, steps.len()) == Some(next));
                }
                state = next;
            },
            Turn::Finished(at) => {
                return (Some(at), Ghost(w));
            },
            Turn::Diverged => {
                return (None, Ghost(w));
            },
        }
    }
}

/// The position at which the least-squares iteration on all rows ends: the
/// iteration starts at the kernel's centroid, asks the kernel for one
/// proposal each turn, and ends after at most `MAX_ITERATIONS` turns. The
/// outcome is what `spec_descend` makes of the kernel's replies.
pub fn descend<K: Fn(Query) -> Reply>(anchors: &Vec<WeightedAnchor>, kernel: &K) -> (r: Option<
    Point,
>)
    requires
        answers_all(kernel),
    ensures
        exists|w: Worksheet| #[trigger] descend_asked(kernel, anchors@, w) && r == spec_descend(w),
        r matches Some(at) ==> at.finite(),
{
    let (r, Ghost(w)) = descend_on(anchors, kernel);
    proof {
        assert(descend_asked(kernel, anchors@, w));
    }
    r
}

fn solve_least_squares_on<K: Fn(Query) -> Reply>(
    anchors: &Vec<WeightedAnchor>,
    kernel: &K,
) -> (r: (Option<PositionEstimate>, Ghost<Worksheet>))
    requires
        answers_all(kernel),
    ensures
        least_squares_asked(kernel, anchors@, r.1@),
        r.0 == spec_solve_least_squares(anchors@, r.1@),
        r.0 matches Some(e) ==> e.valid() && e.method == Method::LeastSquares && e.beacon_count
            == anchors@.len(),
{
    if anchors.len() < MIN_ANCHORS {
        return (None, Ghost(blank()));
    }
    let (found, Ghost(d)) = descend_on(anchors, kernel);
    match found {
        Some(at) => {
            let (r, Ghost(g)) = grade_on(anchors, at, false, Method::LeastSquares, kernel);
            let ghost w = Worksheet { centroid: d.centroid, cost: d.cost, steps: d.steps, ..g };
            proof {
                assert(spec_descent_begin(w) == spec_descent_begin(d));
                assert(spec_descend(w) == spec_descend(d));
                assert(descend_asked(kernel, anchors@, w));
            }
            (r, Ghost(w))
        },
        None => (None, Ghost(d)),
    }
}

/// The least-squares method on all rows. The outcome is what
/// `spec_solve_least_squares` makes of the kernel's replies.
pub fn solve_least_squares<K: Fn(Query) -> Reply>(
    anchors: &Vec<WeightedAnchor>,
    kernel: &K,
) -> (r: Option<PositionEstimate>)
    requires
        answers_all(kernel),
    ensures
        exists|w: Worksheet| #[trigger]
            least_squares_asked(kernel, anchors@, w) && r == spec_solve_least_squares(anchors@, w),
        anchors@.len() < MIN_ANCHORS ==> r is None,
        r matches Some(e) ==> e.valid() && e.method == Method::LeastSquares && e.beacon_count
            == anchors@.len(),
{
    let (r, Ghost(w)) = solve_least_squares_on(anchors, kernel);
    proof {
        assert(least_squares_asked(kernel, anchors@, w));
    }
    r
}

pub(crate) fn solve_on<K: Fn(Query) -> Reply>(
    method: Method,
    anchors: &Vec<WeightedAnchor>,
    kernel: &K,
) -> (r: (Option<PositionEstimate>, Ghost<Worksheet>))
    requires
        answers_all(kernel),
    ensures
        solve_asked(kernel, method, anchors@, r.1@),
        r.0 == spec_solve(method, anchors@, r.1@),
        r.0 matches Some(e) ==> e.valid() && e.method == method && e.beacon_count == (if method
            == Method::Basic {
            3
        } else {
            anchors@.len()
        }),
{
    match method {
        Method::Basic => solve_basic_on(anchors, kernel),
        Method::Weighted => solve_weighted_on(anchors, kernel),
        Method::LeastSquares => solve_least_squares_on(anchors, kernel),
    }
}

/// Runs `method` on the rows. The outcome is what `spec_solve` makes of the
/// kernel's replies.
pub fn solve<K: Fn(Query) -> Reply>(method: Method, anchors: &Vec<WeightedAnchor>, kernel: &K) -> (r:
    Option<PositionEstimate>)
    requires
        answers_all(kernel),
    ensures
        exists|w: Worksheet| #[trigger]
            solve_asked(kernel, method, anchors@, w) && r == spec_solve(method, anchors@, w),
        anchors@.len() < MIN_ANCHORS ==> r is None,
        r matches Some(e) ==> e.valid() && e.method == method && e.beacon_count == (if method
            == Method::Basic {
            3
        } else {
            anchors@.len()
        }),
{
    let (r, Ghost(w)) = solve_on(method, anchors, kernel);
    proof {
        assert(solve_asked(kernel, method, anchors@, w));
    }
    r
}

} // verus!
