//! The handler: from a request to its answer.

use vstd::prelude::*;
use vstd::string::StringExecFns;
use crate::algorithms::beacon::BeaconSet;
use crate::algorithms::beacon::BeaconView;
use crate::algorithms::estimate::PositionEstimate;
use crate::algorithms::kernel::answers_all;
use crate::algorithms::kernel::Query;
use crate::algorithms::kernel::Reply;
use crate::algorithms::worksheet::blank;
use crate::algorithms::worksheet::Worksheet;
use crate::algorithms::location::run_asked;
use crate::algorithms::location::spec_run;
use crate::algorithms::location::LocationAlgorithm;
use crate::algorithms::method::Algorithm;
use crate::algorithms::model::RSSIModel;
use crate::algorithms::signal::readings_of;
use crate::algorithms::signal::SignalReadings;
use crate::network::request::LocationRequest;
use crate::network::request::LocationRequestView;
use crate::network::request::OptionsError;
use crate::network::request::OptionsErrorView;
use crate::network::request::RequestError;
use crate::network::response::unix_millis;
use crate::network::response::HttpResponse;
use crate::network::response::HttpResponseView;
use crate::network::response::PositioningResult;
use crate::network::response::PositioningResultView;
use crate::network::response::ResponseStatus;
use crate::scalar::Scalar;
use crate::text::decimal;
use crate::text::push_decimal;

verus! {

/// The ways in which a request can fail.
#[derive(Clone, Copy, Debug, PartialEq, Eq, Structural)]
pub enum FailureKind {
    /// An empty id, a strength that is not negative, no readings.
    InvalidInput,
    /// One or two readings.
    TooFewSignals,
    /// An unknown algorithm, a least confidence outside 0 to 1.
    BadOption,
    /// Too few registered beacons among the readings, anchors too close to a
    /// line, an iteration that led nowhere, or a result that is no number.
    NotComputable,
    /// A position whose confidence is below what the request asked for.
    LowConfidence,
}

impl FailureKind {
    /// The status under which a failure of this kind is answered: what is
    /// wrong with the request itself is a bad request, the rest a failed
    /// positioning.
    pub open spec fn status(self) -> ResponseStatus {
        match self {
            FailureKind::InvalidInput => ResponseStatus::BadRequest,
            FailureKind::TooFewSignals => ResponseStatus::BadRequest,
            FailureKind::BadOption => ResponseStatus::BadRequest,
            FailureKind::NotComputable => ResponseStatus::PositioningFailed,
            FailureKind::LowConfidence => ResponseStatus::PositioningFailed,
        }
    }

    /// The status under which a failure of this kind is answered.
    pub fn response_status(&self) -> (r: ResponseStatus)
        ensures
            r == self.status(),
    {
        match self {
            FailureKind::InvalidInput => ResponseStatus::BadRequest,
            FailureKind::TooFewSignals => ResponseStatus::BadRequest,
            FailureKind::BadOption => ResponseStatus::BadRequest,
            FailureKind::NotComputable => ResponseStatus::PositioningFailed,
            FailureKind::LowConfidence => ResponseStatus::PositioningFailed,
        }
    }
}

/// A failure with its reason in words.
#[derive(Debug)]
pub struct Failure {
    pub kind: FailureKind,
    pub reason: String,
    /// The confidence that was reached, where the failure is about it.
    pub confidence: Option<Scalar>,
}

/// The mathematical content of a `Failure`.
pub struct FailureView {
    pub kind: FailureKind,
    pub reason: Seq<char>,
    pub confidence: Option<Scalar>,
}

impl View for Failure {
    type V = FailureView;

    open spec fn view(&self) -> FailureView {
        FailureView { kind: self.kind, reason: self.reason@, confidence: self.confidence }
    }
}

/// The kind of a fault of the request.
pub open spec fn request_fault_kind(e: RequestError) -> FailureKind {
    match e {
        RequestError::TooFewSignals => FailureKind::TooFewSignals,
        _ => FailureKind::InvalidInput,
    }
}

/// The failure that a fault of the request is.
pub open spec fn request_failure(e: RequestError) -> FailureView {
    FailureView { kind: request_fault_kind(e), reason: e.text(), confidence: None }
}

/// The failure that a fault of the options is.
pub open spec fn options_failure(e: OptionsErrorView) -> FailureView {
    FailureView { kind: FailureKind::BadOption, reason: e.text(), confidence: None }
}

/// The failure of a positioning that gave nothing.
pub open spec fn not_computable() -> FailureView {
    FailureView { kind: FailureKind::NotComputable, reason: "无法执行定位计算"@, confidence: None }
}

/// Thousandths written as a percentage with one decimal.
pub open spec fn percent_text(per_mille: nat) -> Seq<char> {
    decimal(per_mille / 10) + "."@ + decimal(per_mille % 10)
}

/// The failure of a positioning whose confidence is below the one required.
pub open spec fn low_confidence(confidence: Scalar, required: Scalar) -> FailureView {
    FailureView {
        kind: FailureKind::LowConfidence,
        reason: "置信度 "@ + percent_text(confidence.spec_per_mille()) + "% 低于要求 "@ + percent_text(
            required.spec_per_mille(),
        ) + "%"@,
        confidence: Some(confidence),
    }
}

/// Whether a request is accepted, and with which algorithm. The request is
/// looked at before its options.
pub open spec fn spec_accept(request: LocationRequestView) -> Result<Algorithm, FailureView> {
    match request.fault() {
        Some(e) => Err(request_failure(e)),
        None => match request.options.fault() {
            Some(e) => Err(options_failure(e)),
            None => match Algorithm::spec_parse(request.options.algorithm) {
                Some(a) => Ok(a),
                None => Err(
                    options_failure(OptionsErrorView::UnknownAlgorithm(request.options.algorithm)),
                ),
            },
        },
    }
}

/// What becomes of a solver's outcome: nothing, or an estimate that is not
/// valid, is a positioning that could not be computed; a valid estimate
/// whose confidence is below the one required is a failure that carries the
/// confidence reached; any other estimate stands.
pub open spec fn spec_judge(required: Scalar, outcome: Option<PositionEstimate>) -> Result<
    PositionEstimate,
    FailureView,
> {
    match outcome {
        None => Err(not_computable()),
        Some(e) => if !e.valid() {
            Err(not_computable())
        } else if e.confidence.less(required) {
            Err(low_confidence(e.confidence, required))
        } else {
            Ok(e)
        },
    }
}

/// The result that an estimate is answered as, stamped with `stamp`.
pub open spec fn result_of(e: PositionEstimate, stamp: u64) -> PositioningResultView {
    PositioningResultView {
        x: e.x,
        y: e.y,
        z: e.z,
        confidence: e.confidence,
        error: e.error,
        algorithm: e.method.label(),
        beacon_count: e.beacon_count,
        timestamp_ms: Some(stamp),
    }
}

/// The time a result is stamped with: the request's own, or the time of the
/// answer where the request carries none.
pub open spec fn stamp_of(request: LocationRequestView, now_ms: u64) -> u64 {
    match request.request_timestamp_ms {
        Some(t) => t,
        None => now_ms,
    }
}

/// The answer to a request with this verdict, given at `now_ms`.
pub open spec fn spec_respond(
    request: LocationRequestView,
    verdict: Result<PositionEstimate, FailureView>,
    now_ms: u64,
) -> HttpResponseView {
    match verdict {
        Ok(e) => HttpResponseView::success(
            request.client_id,
            result_of(e, stamp_of(request, now_ms)),
            now_ms,
        ),
        Err(f) => match f.kind.status() {
            ResponseStatus::PositioningFailed => HttpResponseView::positioning_failed(
                request.client_id,
                f.reason,
                now_ms,
            ),
            _ => HttpResponseView::bad_request(f.reason, now_ms),
        },
    }
}

/// The answer to an accepted request whose solver came back with `outcome`.
pub open spec fn spec_conclude(
    request: LocationRequestView,
    outcome: Option<PositionEstimate>,
    now_ms: u64,
) -> HttpResponseView {
    spec_respond(request, spec_judge(request.options.min_confidence, outcome), now_ms)
}

/// The answer to a request at `now_ms`, given the registry and what the
/// kernel replied: a request that is not accepted is answered with its
/// failure; for an accepted one the readings are joined against the registry,
/// the method is chosen and run, and the outcome is judged against the
/// confidence required.
pub open spec fn spec_handle(
    request: LocationRequestView,
    registry: Map<Seq<char>, BeaconView>,
    w: Worksheet,
    now_ms: u64,
) -> HttpResponseView {
    match spec_accept(request) {
        Err(f) => spec_respond(request, Err(f), now_ms),
        Ok(a) => spec_conclude(
            request,
            spec_run(a, readings_of(request.signals), registry, w),
            now_ms,
        ),
    }
}

/// Whether the worksheet holds the kernel's replies to the queries that
/// serving the request puts: none for a request that is not accepted.
pub open spec fn handle_asked<K: Fn(Query) -> Reply>(
    kernel: &K,
    request: LocationRequestView,
    registry: Map<Seq<char>, BeaconView>,
    model: RSSIModel,
    w: Worksheet,
) -> bool {
    spec_accept(request) matches Ok(a) ==> run_asked(
        kernel,
        a,
        readings_of(request.signals),
        registry,
        model,
        w,
    )
}

fn percent_string(per_mille: u64) -> (r: String)
    ensures
        r@ == percent_text(per_mille as nat),
{
    let mut out = String::new();
    push_decimal(&mut out, per_mille / 10);
    out.append(".");
    push_decimal(&mut out, per_mille % 10);
    proof {
        assert(out@ =~= percent_text(per_mille as nat));
    }
    out
}

/// The positioning service for one registry and one model.
pub struct PositioningHandler {
    beacons: BeaconSet,
    rssi_model: RSSIModel,
}

impl PositioningHandler {
    /// The registry the handler works with.
    pub closed spec fn registry(&self) -> BeaconSet {
        self.beacons
    }

    /// The model the handler works with.
    pub closed spec fn model(&self) -> RSSIModel {
        self.rssi_model
    }

    pub fn new(beacons: BeaconSet, rssi_model: RSSIModel) -> (r: Self)
        ensures
            r.registry() == beacons,
            r.model() == rssi_model,
    {
        PositioningHandler { beacons, rssi_model }
    }

    /// How many beacons are registered.
    pub fn beacon_count(&self) -> (r: usize)
        ensures
            r == self.registry().entries().len(),
            r == self.registry()@.dom().len(),
    {
        self.beacons.len()
    }

    /// The model's one-line summary.
    pub fn rssi_model_description(&self) -> (r: String)
        ensures
            r@ == self.model().summary(),
    {
        self.rssi_model.description()
    }

    /// Replaces the registry.
    pub fn update_beacons(&mut self, beacons: BeaconSet)
        ensures
            final(self).registry() == beacons,
            final(self).model() == old(self).model(),
    {
        self.beacons = beacons;
    }

    /// Replaces the model.
    pub fn update_rssi_model(&mut self, model: RSSIModel)
        ensures
            final(self).model() == model,
            final(self).registry() == old(self).registry(),
    {
        self.rssi_model = model;
    }

    /// Whether a request is accepted, and with which algorithm.
    pub fn accept(request: &LocationRequest) -> (r: Result<Algorithm, Failure>)
        ensures
            match spec_accept(request@) {
                Ok(a) => r == Ok::<Algorithm, Failure>(a),
                Err(f) => r matches Err(g) && g@ == f,
            },
    {
        match request.check() {
            Ok(()) => {},
            Err(e) => {
                let kind = match e {
                    RequestError::TooFewSignals => FailureKind::TooFewSignals,
                    _ => FailureKind::InvalidInput,
                };
                return Err(Failure { kind, reason: e.message(), confidence: None });
            },
        }
        match request.options.check() {
            Ok(()) => {},
            Err(e) => {
                return Err(
                    Failure { kind: FailureKind::BadOption, reason: e.message(), confidence: None },
                );
            },
        }
        match Algorithm::parse(&request.options.algorithm) {
            Some(a) => Ok(a),
            None => {
                let e = OptionsError::UnknownAlgorithm(request.options.algorithm.clone());
                Err(Failure { kind: FailureKind::BadOption, reason: e.message(), confidence: None })
            },
        }
    }

    /// What becomes of a solver's outcome under the confidence required.
    pub fn judge(required: Scalar, outcome: Option<PositionEstimate>) -> (r: Result<
        PositionEstimate,
        Failure,
    >)
        ensures
            match spec_judge(required, outcome) {
                Ok(e) => r == Ok::<PositionEstimate, Failure>(e),
                Err(f) => r matches Err(g) && g@ == f,
            },
            r matches Ok(e) ==> e.valid() && !e.confidence.less(required),
    {
        match outcome {
            None => Err(Self::failed()),
            Some(e) => {
                if !e.is_valid() {
                    Err(Self::failed())
                } else if e.confidence.lt(&required) {
                    let reached = percent_string(e.confidence.per_mille());
                    let wanted = percent_string(required.per_mille());
                    let mut reason = String::from_str("置信度 ");
                    reason.append(reached.as_str());
                    reason.append("% 低于要求 ");
                    reason.append(wanted.as_str());
                    reason.append("%");
                    Err(
                        Failure {
                            kind: FailureKind::LowConfidence,
                            reason,
                            confidence: Some(e.confidence),
                        },
                    )
                } else {
                    Ok(e)
                }
            },
        }
    }

    fn failed() -> (r: Failure)
        ensures
            r@ == not_computable(),
    {
        Failure {
            kind: FailureKind::NotComputable,
            reason: String::from_str("无法执行定位计算"),
            confidence: None,
        }
    }

    /// The answer to a request with this verdict, given at `now_ms`.
    pub fn respond(
        request: LocationRequest,
        verdict: Result<PositionEstimate, Failure>,
        now_ms: u64,
    ) -> (r: HttpResponse)
        ensures
            r@ == spec_respond(
                request@,
                match verdict {
                    Ok(e) => Ok(e),
                    Err(f) => Err(f@),
                },
                now_ms,
            ),
    {
        match verdict {
            Ok(e) => {
                let stamp = match request.request_timestamp_ms {
                    Some(t) => t,
                    None => now_ms,
                };
                let result = PositioningResult::new(
                    e.x,
                    e.y,
                    e.z,
                    e.confidence,
                    e.error,
                    String::from_str(e.method.name()),
                    e.beacon_count,
                ).with_timestamp(stamp);
                HttpResponse::success_at(request.client_id, result, now_ms)
            },
            Err(f) => match f.kind.response_status() {
                ResponseStatus::PositioningFailed => HttpResponse::positioning_failed_at(
                    request.client_id,
                    f.reason,
                    now_ms,
                ),
                _ => HttpResponse::bad_request_at(f.reason, now_ms),
            },
        }
    }

    /// The answer to an accepted request whose solver came back with
    /// `outcome`, given at `now_ms`.
    pub fn conclude(request: LocationRequest, outcome: Option<PositionEstimate>, now_ms: u64) -> (r:
        HttpResponse)
        ensures
            r@ == spec_conclude(request@, outcome, now_ms),
    {
        let verdict = Self::judge(request.options.min_confidence, outcome);
        Self::respond(request, verdict, now_ms)
    }

    /// Serves a request at the time `now_ms`. The answer is what
    /// `spec_handle` makes of the request, the registry and the kernel's
    /// replies.
    pub fn handle_at<K: Fn(Query) -> Reply>(
        &self,
        request: LocationRequest,
        kernel: &K,
        now_ms: u64,
    ) -> (r: HttpResponse)
        requires
            answers_all(kernel),
        ensures
            exists|w: Worksheet| #[trigger]
                handle_asked(kernel, request@, self.registry()@, self.model(), w) && r@
                    == spec_handle(request@, self.registry()@, w, now_ms),
    {
        let algorithm = match Self::accept(&request) {
            Ok(a) => a,
            Err(f) => {
                let ghost before = request@;
                let r = Self::respond(request, Err(f), now_ms);
                proof {
                    let w = blank();
                    assert(handle_asked(kernel, before, self.registry()@, self.model(), w));
                }
                return r;
            },
        };
        let signals = SignalReadings::from_signals(&request.signals);
        let (outcome, Ghost(w)) = LocationAlgorithm::run_on(
            algorithm,
            &self.beacons,
            &signals,
            &self.rssi_model,
            kernel,
        );
        let ghost before = request@;
        let r = Self::conclude(request, outcome, now_ms);
        proof {
            assert(handle_asked(kernel, before, self.registry()@, self.model(), w));
        }
        r
    }

    /// Serves a request now: whatever the clock says, the rest is as
    /// `handle_at` has it.
    pub fn handle_positioning_request<K: Fn(Query) -> Reply>(
        &self,
        request: LocationRequest,
        kernel: &K,
    ) -> (r: HttpResponse)
        requires
            answers_all(kernel),
        ensures
            exists|w: Worksheet| #[trigger]
                handle_asked(kernel, request@, self.registry()@, self.model(), w) && r@
                    == spec_handle(request@, self.registry()@, w, r@.answered_at()),
    {
        let now_ms = unix_millis();
        let r = self.handle_at(request, kernel, now_ms);
        proof {
            let w = choose|w: Worksheet| #[trigger]
                handle_asked(kernel, request@, self.registry()@, self.model(), w) && r@
                    == spec_handle(request@, self.registry()@, w, now_ms);
            lemma_answer_is_stamped(request@, self.registry()@, w, now_ms);
            assert(handle_asked(kernel, request@, self.registry()@, self.model(), w));
        }
        r
    }
}

/// Every answer says when it was given.
pub proof fn lemma_answer_is_stamped(
    request: LocationRequestView,
    registry: Map<Seq<char>, BeaconView>,
    w: Worksheet,
    now_ms: u64,
)
    ensures
        spec_handle(request, registry, w, now_ms).response_timestamp_ms == Some(now_ms),
        spec_handle(request, registry, w, now_ms).answered_at() == now_ms,
{
}

/// The answer is a function of the request, the registry, the kernel's
/// replies and the time: serving the same request twice on the same replies
/// gives the same answer.
pub proof fn lemma_answer_determined(
    first: LocationRequestView,
    second: LocationRequestView,
    registry: Map<Seq<char>, BeaconView>,
    w: Worksheet,
    now_ms: u64,
)
    requires
        first == second,
    ensures
        spec_handle(first, registry, w, now_ms) == spec_handle(second, registry, w, now_ms),
{
}

/// An answer carries a result exactly when it is a success, and the result
/// is then a valid estimate: finite coordinates, a confidence between 0 and 1
/// that is not below the one required, a finite error of at least 0, and
/// three beacons or more. Every other answer to an accepted request is a
/// failed positioning, and every answer to a request that is not accepted a
/// bad request.
pub proof fn lemma_answers(
    request: LocationRequestView,
    registry: Map<Seq<char>, BeaconView>,
    w: Worksheet,
    now_ms: u64,
)
    ensures
        match spec_handle(request, registry, w, now_ms).result {
            Some(p) => {
                &&& spec_handle(request, registry, w, now_ms).code == 200
                &&& spec_accept(request) is Ok
                &&& p.confidence.in_unit_interval()
                &&& !p.confidence.less(request.options.min_confidence)
                &&& (Scalar { bits: crate::scalar::ZERO_BITS }).at_most(p.error)
                &&& p.x.finite() && p.y.finite() && p.z.finite() && p.error.finite()
                &&& p.beacon_count >= 3
            },
            None => if spec_accept(request) is Ok {
                spec_handle(request, registry, w, now_ms).code == 420
            } else {
                spec_handle(request, registry, w, now_ms).code == 400
            },
        },
{
    lemma_success_is_valid(
        request,
        match spec_accept(request) {
            Ok(a) => spec_run(a, readings_of(request.signals), registry, w),
            Err(_) => None,
        },
        now_ms,
    );
}

/// Every success carries a valid estimate: finite coordinates, a confidence
/// between 0 and 1 that is not below the one required, and an error of at
/// least 0. Every other answer carries no result.
pub proof fn lemma_success_is_valid(
    request: LocationRequestView,
    outcome: Option<PositionEstimate>,
    now_ms: u64,
)
    ensures
        match spec_conclude(request, outcome, now_ms).result {
            Some(p) => {
                &&& spec_conclude(request, outcome, now_ms).code == 200
                &&& p.confidence.in_unit_interval()
                &&& !p.confidence.less(request.options.min_confidence)
                &&& (Scalar { bits: crate::scalar::ZERO_BITS }).at_most(p.error)
                &&& p.x.finite() && p.y.finite() && p.z.finite() && p.error.finite()
                &&& p.beacon_count >= 3
                &&& outcome matches Some(e) && p == result_of(e, stamp_of(request, now_ms))
            },
            None => spec_conclude(request, outcome, now_ms).code == 420,
        },
{
}

/// A request is accepted exactly when neither it nor its options have a
/// fault, and then with the algorithm that its options name.
pub proof fn lemma_accepted(request: LocationRequestView)
    ensures
        spec_accept(request) is Ok <==> request.fault() is None && request.options.fault()
            is None,
        spec_accept(request) matches Ok(a) ==> a.label() == request.options.algorithm
            && request.options.min_confidence.in_unit_interval() && request.signals.len() >= 3,
{
    crate::algorithms::method::lemma_parse_label(Algorithm::Auto, request.options.algorithm);
    match spec_accept(request) {
        Ok(a) => {
            crate::algorithms::method::lemma_parse_label(a, request.options.algorithm);
        },
        Err(_) => {},
    }
}

/// A request with fewer than three signals is never accepted: one with none
/// is invalid input, one with one or two has too few signals, unless it fails
/// earlier for want of a client id. Either way the answer is a bad request.
pub proof fn lemma_few_signals_rejected(request: LocationRequestView, now_ms: u64)
    requires
        request.signals.len() < 3,
    ensures
        spec_accept(request) is Err,
        spec_accept(request)->Err_0.kind.status() == ResponseStatus::BadRequest,
        request.client_id.len() > 0 && request.signals.len() > 0 ==> spec_accept(
            request,
        )->Err_0.kind == FailureKind::TooFewSignals,
        spec_respond(request, Err(spec_accept(request)->Err_0), now_ms).code == 400,
{
}

} // verus!
