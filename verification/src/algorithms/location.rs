//! From readings to an estimate: which method runs on which sightings.

use vstd::prelude::*;
use crate::algorithms::anchor::bind;
use crate::algorithms::anchor::sighting_views;
use crate::algorithms::anchor::spec_bind;
use crate::algorithms::anchor::Sighting;
use crate::algorithms::anchor::SightingView;
use crate::algorithms::beacon::BeaconSet;
use crate::algorithms::beacon::BeaconView;
use crate::algorithms::estimate::PositionEstimate;
use crate::algorithms::kernel::answers_all;
use crate::algorithms::kernel::Query;
use crate::algorithms::kernel::Reply;
use crate::algorithms::method::Algorithm;
use crate::algorithms::method::Method;
use crate::algorithms::model::RSSIModel;
use crate::algorithms::signal::ReadingView;
use crate::algorithms::signal::SignalReadings;
use crate::algorithms::solver::measure_on;
use crate::algorithms::solver::solve_on;
use crate::algorithms::worksheet::blank;
use crate::algorithms::worksheet::lemma_measure_reads;
use crate::algorithms::worksheet::lemma_solve_reads;
use crate::algorithms::worksheet::measure_asked;
use crate::algorithms::worksheet::solve_asked;
use crate::algorithms::worksheet::spec_measure;
use crate::algorithms::worksheet::spec_solve;
use crate::algorithms::worksheet::Worksheet;

verus! {

/// What is to be solved: the method, and the sightings it runs on.
#[derive(Debug)]
pub struct Plan {
    pub method: Method,
    pub sightings: Vec<Sighting>,
}

/// The mathematical content of a `Plan`.
pub struct PlanView {
    pub method: Method,
    pub sightings: Seq<SightingView>,
}

impl View for Plan {
    type V = PlanView;

    open spec fn view(&self) -> PlanView {
        PlanView { method: self.method, sightings: sighting_views(self.sightings@) }
    }
}

impl PlanView {
    /// How many anchors the plan's method uses: the basic method the first
    /// three, the others all.
    pub open spec fn anchors_used(self) -> nat {
        if self.method == Method::Basic {
            3
        } else {
            self.sightings.len()
        }
    }
}

/// The plan for a request: the readings are joined against the registry, and
/// the number of sightings decides with the algorithm asked for which method
/// runs. There is no plan with fewer than three sightings.
pub open spec fn spec_plan(
    algorithm: Algorithm,
    readings: Seq<ReadingView>,
    registry: Map<Seq<char>, BeaconView>,
) -> Option<PlanView> {
    let sightings = spec_bind(readings, registry);
    match algorithm.spec_resolve(sightings.len()) {
        Some(method) => Some(PlanView { method, sightings }),
        None => None,
    }
}

/// The outcome of a plan on a worksheet: the plan's method on the rows that
/// measuring gives, and nothing where measuring gives none.
pub open spec fn spec_execute(plan: PlanView, w: Worksheet) -> Option<PositionEstimate> {
    match spec_measure(plan.sightings, plan.method.spec_weighting(), w) {
        Some(rows) => spec_solve(plan.method, rows, w),
        None => None,
    }
}

/// Whether the worksheet holds the kernel's replies to the queries that
/// carrying out the plan puts: those of measuring, and then those of the
/// plan's method on the rows.
pub open spec fn execute_asked<K: Fn(Query) -> Reply>(
    kernel: &K,
    plan: PlanView,
    model: RSSIModel,
    w: Worksheet,
) -> bool {
    &&& measure_asked(kernel, plan.sightings, model, plan.method.spec_weighting(), w)
    &&& spec_measure(plan.sightings, plan.method.spec_weighting(), w) matches Some(rows)
        ==> solve_asked(kernel, plan.method, rows, w)
}

/// The outcome of a request on a worksheet: that of its plan, and nothing
/// where there is no plan.
pub open spec fn spec_run(
    algorithm: Algorithm,
    readings: Seq<ReadingView>,
    registry: Map<Seq<char>, BeaconView>,
    w: Worksheet,
) -> Option<PositionEstimate> {
    match spec_plan(algorithm, readings, registry) {
        Some(p) => spec_execute(p, w),
        None => None,
    }
}

/// Whether the worksheet holds the kernel's replies to the queries that a
/// request puts: those of its plan, and none where there is no plan.
pub open spec fn run_asked<K: Fn(Query) -> Reply>(
    kernel: &K,
    algorithm: Algorithm,
    readings: Seq<ReadingView>,
    registry: Map<Seq<char>, BeaconView>,
    model: RSSIModel,
    w: Worksheet,
) -> bool {
    spec_plan(algorithm, readings, registry) matches Some(p) ==> execute_asked(kernel, p, model, w)
}

/// The positioning algorithms.
pub struct LocationAlgorithm;

impl LocationAlgorithm {
    /// The plan for a request.
    pub fn plan(algorithm: Algorithm, beacons: &BeaconSet, signals: &SignalReadings) -> (r: Option<
        Plan,
    >)
        ensures
            match spec_plan(algorithm, signals@, beacons@) {
                Some(p) => r matches Some(q) && q@ == p,
                None => r is None,
            },
    {
        let sightings = bind(signals, beacons);
        match algorithm.resolve(sightings.len()) {
            Some(method) => Some(Plan { method, sightings }),
            None => None,
        }
    }

    pub(crate) fn execute_on<K: Fn(Query) -> Reply>(
        plan: &Plan,
        model: &RSSIModel,
        kernel: &K,
    ) -> (r: (Option<PositionEstimate>, Ghost<Worksheet>))
        requires
            answers_all(kernel),
        ensures
            execute_asked(kernel, plan@, *model, r.1@),
            r.0 == spec_execute(plan@, r.1@),
            plan@.sightings.len() < 3 ==> r.0 is None,
            r.0 matches Some(e) ==> e.valid() && e.method == plan@.method && e.beacon_count
                == plan@.anchors_used(),
    {
        let (made, Ghost(m)) = measure_on(&plan.sightings, model, plan.method.weighting(), kernel);
        match made {
            Some(rows) => {
                let (r, Ghost(s)) = solve_on(plan.method, &rows, kernel);
                let ghost w = Worksheet { distances: m.distances, weights: m.weights, ..s };
                proof {
                    lemma_measure_reads(
                        kernel,
                        plan@.sightings,
                        *model,
                        plan.method.spec_weighting(),
                        m,
                        w,
                    );
                    lemma_solve_reads(kernel, plan.method, rows@, s, w);
                }
                (r, Ghost(w))
            },
            None => (None, Ghost(m)),
        }
    }

    /// Carries out a plan: measures the sightings with the model and the
    /// method's weighting, and runs the method on the rows. The outcome is
    /// what `spec_execute` makes of the kernel's replies. An estimate that
    /// comes out is valid, names the plan's method and counts the anchors it
    /// used.
    pub fn execute<K: Fn(Query) -> Reply>(plan: &Plan, model: &RSSIModel, kernel: &K) -> (r: Option<
        PositionEstimate,
    >)
        requires
            answers_all(kernel),
        ensures
            exists|w: Worksheet| #[trigger]
                execute_asked(kernel, plan@, *model, w) && r == spec_execute(plan@, w),
            plan@.sightings.len() < 3 ==> r is None,
            r matches Some(e) ==> e.valid() && e.method == plan@.method && e.beacon_count
                == plan@.anchors_used(),
    {
        let (r, Ghost(w)) = Self::execute_on(plan, model, kernel);
        proof {
            assert(execute_asked(kernel, plan@, *model, w));
        }
        r
    }

    pub(crate) fn run_on<K: Fn(Query) -> Reply>(
        algorithm: Algorithm,
        beacons: &BeaconSet,
        signals: &SignalReadings,
        model: &RSSIModel,
        kernel: &K,
    ) -> (r: (Option<PositionEstimate>, Ghost<Worksheet>))
        requires
            answers_all(kernel),
        ensures
            run_asked(kernel, algorithm, signals@, beacons@, *model, r.1@),
            r.0 == spec_run(algorithm, signals@, beacons@, r.1@),
            match spec_plan(algorithm, signals@, beacons@) {
                Some(p) => r.0 matches Some(e) ==> e.valid() && e.method == p.method
                    && e.beacon_count == p.anchors_used(),
                None => r.0 is None,
            },
    {
        match Self::plan(algorithm, beacons, signals) {
            Some(plan) => Self::execute_on(&plan, model, kernel),
            None => (None, Ghost(blank())),
        }
    }

    /// Plans and carries out. The outcome is what `spec_run` makes of the
    /// kernel's replies: nothing where there is no plan, and otherwise a
    /// valid estimate by the plan's method or nothing.
    pub fn run<K: Fn(Query) -> Reply>(
        algorithm: Algorithm,
        beacons: &BeaconSet,
        signals: &SignalReadings,
        model: &RSSIModel,
        kernel: &K,
    ) -> (r: Option<PositionEstimate>)
        requires
            answers_all(kernel),
        ensures
            exists|w: Worksheet| #[trigger]
                run_asked(kernel, algorithm, signals@, beacons@, *model, w) && r == spec_run(
                    algorithm,
                    signals@,
                    beacons@,
                    w,
                ),
            match spec_plan(algorithm, signals@, beacons@) {
                Some(p) => r matches Some(e) ==> e.valid() && e.method == p.method
                    && e.beacon_count == p.anchors_used(),
                None => r is None,
            },
    {
        let (r, Ghost(w)) = Self::run_on(algorithm, beacons, signals, model, kernel);
        proof {
            assert(run_asked(kernel, algorithm, signals@, beacons@, *model, w));
        }
        r
    }

    /// Geometric trilateration on the first three sightings.
    pub fn trilateration_basic<K: Fn(Query) -> Reply>(
        beacons: &BeaconSet,
        signals: &SignalReadings,
        model: &RSSIModel,
        kernel: &K,
    ) -> (r: Option<PositionEstimate>)
        requires
            answers_all(kernel),
        ensures
            exists|w: Worksheet| #[trigger]
                run_asked(kernel, Algorithm::Basic, signals@, beacons@, *model, w) && r == spec_run(
                    Algorithm::Basic,
                    signals@,
                    beacons@,
                    w,
                ),
            spec_bind(signals@, beacons@).len() < 3 ==> r is None,
            r matches Some(e) ==> e.valid() && e.method == Method::Basic && e.beacon_count == 3,
    {
        let (r, Ghost(w)) = Self::run_on(Algorithm::Basic, beacons, signals, model, kernel);
        proof {
            assert(run_asked(kernel, Algorithm::Basic, signals@, beacons@, *model, w));
        }
        r
    }

    /// Weighted linear least squares on all sightings.
    pub fn trilateration_weighted<K: Fn(Query) -> Reply>(
        beacons: &BeaconSet,
        signals: &SignalReadings,
        model: &RSSIModel,
        kernel: &K,
    ) -> (r: Option<PositionEstimate>)
        requires
            answers_all(kernel),
        ensures
            exists|w: Worksheet| #[trigger]
                run_asked(kernel, Algorithm::Weighted, signals@, beacons@, *model, w) && r == spec_run(
                    Algorithm::Weighted,
                    signals@,
                    beacons@,
                    w,
                ),
            spec_bind(signals@, beacons@).len() < 3 ==> r is None,
            r matches Some(e) ==> e.valid() && e.method == Method::Weighted && e.beacon_count
                == spec_bind(signals@, beacons@).len(),
    {
        let (r, Ghost(w)) = Self::run_on(Algorithm::Weighted, beacons, signals, model, kernel);
        proof {
            assert(run_asked(kernel, Algorithm::Weighted, signals@, beacons@, *model, w));
        }
        r
    }

    /// Damped Gauss-Newton on all sightings.
    pub fn trilateration_least_squares<K: Fn(Query) -> Reply>(
        beacons: &BeaconSet,
        signals: &SignalReadings,
        model: &RSSIModel,
        kernel: &K,
    ) -> (r: Option<PositionEstimate>)
        requires
            answers_all(kernel),
        ensures
            exists|w: Worksheet| #[trigger]
                run_asked(kernel, Algorithm::LeastSquares, signals@, beacons@, *model, w) && r == spec_run(
                    Algorithm::LeastSquares,
                    signals@,
                    beacons@,
                    w,
                ),
            spec_bind(signals@, beacons@).len() < 3 ==> r is None,
            r matches Some(e) ==> e.valid() && e.method == Method::LeastSquares && e.beacon_count
                == spec_bind(signals@, beacons@).len(),
    {
        let (r, Ghost(w)) = Self::run_on(Algorithm::LeastSquares, beacons, signals, model, kernel);
        proof {
            assert(run_asked(kernel, Algorithm::LeastSquares, signals@, beacons@, *model, w));
        }
        r
    }

    /// The weighted method on exactly three sightings, least squares on more.
    pub fn trilateration_auto<K: Fn(Query) -> Reply>(
        beacons: &BeaconSet,
        signals: &SignalReadings,
        model: &RSSIModel,
        kernel: &K,
    ) -> (r: Option<PositionEstimate>)
        requires
            answers_all(kernel),
        ensures
            exists|w: Worksheet| #[trigger]
                run_asked(kernel, Algorithm::Auto, signals@, beacons@, *model, w) && r == spec_run(
                    Algorithm::Auto,
                    signals@,
                    beacons@,
                    w,
                ),
            spec_bind(signals@, beacons@).len() < 3 ==> r is None,
            r matches Some(e) ==> e.valid() && e.beacon_count == spec_bind(
                signals@,
                beacons@,
            ).len() && e.method == (if e.beacon_count == 3 {
                Method::Weighted
            } else {
                Method::LeastSquares
            }),
    {
        let (r, Ghost(w)) = Self::run_on(Algorithm::Auto, beacons, signals, model, kernel);
        proof {
            assert(run_asked(kernel, Algorithm::Auto, signals@, beacons@, *model, w));
        }
        r
    }
}

/// With four sightings or more, asking for `Auto` gives the plan that asking
/// for `LeastSquares` gives: the same method on the same sightings.
pub proof fn lemma_auto_plans_least_squares(
    readings: Seq<ReadingView>,
    registry: Map<Seq<char>, BeaconView>,
)
    requires
        spec_bind(readings, registry).len() >= 4,
    ensures
        spec_plan(Algorithm::Auto, readings, registry) == spec_plan(
            Algorithm::LeastSquares,
            readings,
            registry,
        ),
        spec_plan(Algorithm::Auto, readings, registry) is Some,
{
}

/// With exactly three sightings, asking for `Auto` gives the plan that asking
/// for `Weighted` gives: the same method on the same sightings.
pub proof fn lemma_auto_plans_weighted(
    readings: Seq<ReadingView>,
    registry: Map<Seq<char>, BeaconView>,
)
    requires
        spec_bind(readings, registry).len() == 3,
    ensures
        spec_plan(Algorithm::Auto, readings, registry) == spec_plan(
            Algorithm::Weighted,
            readings,
            registry,
        ),
        spec_plan(Algorithm::Auto, readings, registry) is Some,
{
}

/// There is a plan exactly when three readings or more name registered
/// beacons, whatever algorithm is asked for.
pub proof fn lemma_plan_exists(
    algorithm: Algorithm,
    readings: Seq<ReadingView>,
    registry: Map<Seq<char>, BeaconView>,
)
    ensures
        spec_plan(algorithm, readings, registry) is Some <==> spec_bind(readings, registry).len()
            >= 3,
{
}

/// With four sightings or more, `Auto` and `LeastSquares` put the same
/// queries to the kernel and make the same estimate of the same replies.
pub proof fn lemma_auto_runs_least_squares<K: Fn(Query) -> Reply>(
    kernel: &K,
    readings: Seq<ReadingView>,
    registry: Map<Seq<char>, BeaconView>,
    model: RSSIModel,
    w: Worksheet,
)
    requires
        spec_bind(readings, registry).len() >= 4,
    ensures
        spec_run(Algorithm::Auto, readings, registry, w) == spec_run(
            Algorithm::LeastSquares,
            readings,
            registry,
            w,
        ),
        run_asked(kernel, Algorithm::Auto, readings, registry, model, w) == run_asked(
            kernel,
            Algorithm::LeastSquares,
            readings,
            registry,
            model,
            w,
        ),
{
}

/// With exactly three sightings, `Auto` and `Weighted` put the same queries
/// to the kernel and make the same estimate of the same replies.
pub proof fn lemma_auto_runs_weighted<K: Fn(Query) -> Reply>(
    kernel: &K,
    readings: Seq<ReadingView>,
    registry: Map<Seq<char>, BeaconView>,
    model: RSSIModel,
    w: Worksheet,
)
    requires
        spec_bind(readings, registry).len() == 3,
    ensures
        spec_run(Algorithm::Auto, readings, registry, w) == spec_run(
            Algorithm::Weighted,
            readings,
            registry,
            w,
        ),
        run_asked(kernel, Algorithm::Auto, readings, registry, model, w) == run_asked(
            kernel,
            Algorithm::Weighted,
            readings,
            registry,
            model,
            w,
        ),
{
}

/// Whatever the kernel replies, an estimate that comes out is valid: its
/// coordinates and its error are finite, its confidence lies between 0 and 1,
/// its error is at least 0, and it is the work of the plan's method on three
/// anchors or more.
pub proof fn lemma_run_is_valid(
    algorithm: Algorithm,
    readings: Seq<ReadingView>,
    registry: Map<Seq<char>, BeaconView>,
    w: Worksheet,
)
    ensures
        spec_run(algorithm, readings, registry, w) matches Some(e) ==> {
            &&& e.valid()
            &&& spec_plan(algorithm, readings, registry) matches Some(p) && e.method == p.method
            &&& e.beacon_count >= 3
        },
        spec_bind(readings, registry).len() < 3 ==> spec_run(algorithm, readings, registry, w)
            is None,
{
}

} // verus!
