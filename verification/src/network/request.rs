//! What a client sends.

use vstd::prelude::*;
use vstd::string::StringExecFns;
use crate::scalar::Scalar;
use crate::scalar::ZERO_BITS;
use crate::text::concat2;
use crate::text::concat3;
use crate::text::decimal;
use crate::text::decimal_string;
use crate::text::text_is;

verus! {

/// A JSON value of `serde_json`. The library carries such values through
/// without looking inside.
#[verifier::external_type_specification]
#[verifier::external_body]
pub struct ExJsonValue(serde_json::Value);

/// The fewest signals a request may carry.
pub const MIN_SIGNALS: usize = 3;

/// One beacon as the client heard it.
#[derive(Clone, Debug)]
pub struct BeaconSignal {
    /// The beacon's identity: a MAC address or a UUID.
    pub beacon_id: String,
    pub beacon_name: Option<String>,
    /// Signal strength in dBm; negative.
    pub rssi: i16,
    pub timestamp_ms: Option<u64>,
    /// Whatever else the client attached.
    pub extra: Option<serde_json::Value>,
}

/// What the library reads of a `BeaconSignal`.
pub struct BeaconSignalView {
    pub beacon_id: Seq<char>,
    pub beacon_name: Option<Seq<char>>,
    pub rssi: i16,
    pub timestamp_ms: Option<u64>,
    pub extra: Option<serde_json::Value>,
}

impl View for BeaconSignal {
    type V = BeaconSignalView;

    open spec fn view(&self) -> BeaconSignalView {
        BeaconSignalView {
            beacon_id: self.beacon_id@,
            beacon_name: match self.beacon_name {
                Some(n) => Some(n@),
                None => None,
            },
            rssi: self.rssi,
            timestamp_ms: self.timestamp_ms,
            extra: self.extra,
        }
    }
}

impl BeaconSignal {
    /// A signal with nothing but its beacon and its strength.
    pub fn new(beacon_id: String, rssi: i16) -> (r: Self)
        ensures
            r@ == (BeaconSignalView {
                beacon_id: beacon_id@,
                beacon_name: None,
                rssi,
                timestamp_ms: None,
                extra: None,
            }),
    {
        BeaconSignal { beacon_id, beacon_name: None, rssi, timestamp_ms: None, extra: None }
    }

    /// The same signal, named.
    pub fn with_name(self, name: String) -> (r: Self)
        ensures
            r@ == (BeaconSignalView { beacon_name: Some(name@), ..self@ }),
    {
        let mut r = self;
        r.beacon_name = Some(name);
        r
    }

    /// The same signal, stamped.
    pub fn with_timestamp(self, timestamp_ms: u64) -> (r: Self)
        ensures
            r@ == (BeaconSignalView { timestamp_ms: Some(timestamp_ms), ..self@ }),
    {
        let mut r = self;
        r.timestamp_ms = Some(timestamp_ms);
        r
    }

    /// The same signal, with an attachment.
    pub fn with_extra(self, extra: serde_json::Value) -> (r: Self)
        ensures
            r@ == (BeaconSignalView { extra: Some(extra), ..self@ }),
    {
        let mut r = self;
        r.extra = Some(extra);
        r
    }
}

/// Why a request is turned away before any positioning.
#[derive(Clone, Copy, Debug, PartialEq, Eq, Structural)]
pub enum RequestError {
    /// The client did not name itself.
    EmptyClientId,
    /// The request carries no signal at all.
    NoSignals,
    /// The request carries one or two signals.
    TooFewSignals,
    /// The signal at this index names no beacon.
    EmptyBeaconId(usize),
    /// The signal at this index has a strength of zero or more.
    RssiNotNegative(usize),
}

impl RequestError {
    /// The reason in words.
    pub open spec fn text(self) -> Seq<char> {
        match self {
            RequestError::EmptyClientId => "client_id 不能为空"@,
            RequestError::NoSignals => "signals 不能为空"@,
            RequestError::TooFewSignals => "至少需要 3 个信标信号"@,
            RequestError::EmptyBeaconId(i) => "信号 "@ + decimal(i as nat) + " 的 beacon_id 不能为空"@,
            RequestError::RssiNotNegative(i) => "信号 "@ + decimal(i as nat) + " 的 RSSI 应为负数"@,
        }
    }

    /// The reason in words.
    pub fn message(&self) -> (r: String)
        ensures
            r@ == self.text(),
    {
        match self {
            RequestError::EmptyClientId => String::from_str("client_id 不能为空"),
            RequestError::NoSignals => String::from_str("signals 不能为空"),
            RequestError::TooFewSignals => String::from_str("至少需要 3 个信标信号"),
            RequestError::EmptyBeaconId(i) => {
                let n = decimal_string(*i as u64);
                concat3("信号 ", n.as_str(), " 的 beacon_id 不能为空")
            },
            RequestError::RssiNotNegative(i) => {
                let n = decimal_string(*i as u64);
                concat3("信号 ", n.as_str(), " 的 RSSI 应为负数")
            },
        }
    }
}

/// What is wrong with the signal at `index`, if anything: an empty beacon id
/// comes before a strength that is not negative.
pub open spec fn signal_fault(signal: BeaconSignalView, index: usize) -> Option<RequestError> {
    if signal.beacon_id.len() == 0 {
        Some(RequestError::EmptyBeaconId(index))
    } else if signal.rssi >= 0 {
        Some(RequestError::RssiNotNegative(index))
    } else {
        None
    }
}

/// The fault of the first faulty signal.
pub open spec fn first_fault(signals: Seq<BeaconSignalView>) -> Option<RequestError>
    decreases signals.len(),
{
    if signals.len() == 0 {
        None
    } else {
        match first_fault(signals.drop_last()) {
            Some(e) => Some(e),
            None => signal_fault(signals.last(), (signals.len() - 1) as usize),
        }
    }
}

/// The views of a sequence of signals.
pub open spec fn signal_views(signals: Seq<BeaconSignal>) -> Seq<BeaconSignalView> {
    signals.map_values(|s: BeaconSignal| s@)
}

/// `first_fault` is `None` exactly when no signal is faulty, and otherwise
/// the fault of the faulty signal with the least index.
pub proof fn lemma_first_fault(signals: Seq<BeaconSignalView>)
    requires
        signals.len() <= usize::MAX,
    ensures
        first_fault(signals) is None <==> forall|i: int|
            0 <= i < signals.len() ==> signal_fault(#[trigger] signals[i], i as usize) is None,
        first_fault(signals) is Some ==> exists|i: int|
            0 <= i < signals.len() && first_fault(signals) == signal_fault(
                #[trigger] signals[i],
                i as usize,
            ) && forall|j: int| 0 <= j < i ==> signal_fault(#[trigger] signals[j], j as usize) is None,
    decreases signals.len(),
{
    if signals.len() > 0 {
        let front = signals.drop_last();
        lemma_first_fault(front);
        assert forall|i: int| 0 <= i < front.len() implies front[i] == signals[i] by {}
        let last = signals.len() - 1;
        if first_fault(front) is Some {
            let i = choose|i: int|
                0 <= i < front.len() && first_fault(front) == signal_fault(
                    #[trigger] front[i],
                    i as usize,
                ) && forall|j: int|
                    0 <= j < i ==> signal_fault(#[trigger] front[j], j as usize) is None;
            assert(signals[i] == front[i]);
            assert forall|j: int| 0 <= j < i implies signal_fault(
                #[trigger] signals[j],
                j as usize,
            ) is None by {
                assert(signals[j] == front[j]);
            }
            assert(signal_fault(signals[i], i as usize) is Some);
        } else {
            assert forall|j: int| 0 <= j < last implies signal_fault(
                #[trigger] signals[j],
                j as usize,
            ) is None by {
                assert(signals[j] == front[j]);
            }
            if first_fault(signals) is Some {
                assert(first_fault(signals) == signal_fault(signals[last], last as usize));
            } else {
                assert forall|i: int| 0 <= i < signals.len() implies signal_fault(
                    #[trigger] signals[i],
                    i as usize,
                ) is None by {
                    if i < last {
                        assert(signals[i] == front[i]);
                    }
                }
            }
        }
    }
}

/// Why the options of a request are turned away.
#[derive(Debug)]
pub enum OptionsError {
    /// `min_confidence` is not a number between 0 and 1.
    ConfidenceOutOfRange,
    /// The algorithm named is none of `basic`, `weighted`, `least_squares`, `auto`.
    UnknownAlgorithm(String),
}

/// The mathematical content of an `OptionsError`.
pub enum OptionsErrorView {
    ConfidenceOutOfRange,
    UnknownAlgorithm(Seq<char>),
}

impl View for OptionsError {
    type V = OptionsErrorView;

    open spec fn view(&self) -> OptionsErrorView {
        match self {
            OptionsError::ConfidenceOutOfRange => OptionsErrorView::ConfidenceOutOfRange,
            OptionsError::UnknownAlgorithm(name) => OptionsErrorView::UnknownAlgorithm(name@),
        }
    }
}

impl OptionsErrorView {
    /// The reason in words.
    pub open spec fn text(self) -> Seq<char> {
        match self {
            OptionsErrorView::ConfidenceOutOfRange => "min_confidence 必须在 0.0-1.0 之间"@,
            OptionsErrorView::UnknownAlgorithm(name) => "不支持的算法: "@ + name,
        }
    }
}

impl OptionsError {
    /// The reason in words.
    pub fn message(&self) -> (r: String)
        ensures
            r@ == self@.text(),
    {
        match self {
            OptionsError::ConfidenceOutOfRange => String::from_str(
                "min_confidence 必须在 0.0-1.0 之间",
            ),
            OptionsError::UnknownAlgorithm(name) => concat2("不支持的算法: ", name.as_str()),
        }
    }
}

/// Whether `name` is one of the four algorithm names a request may give.
pub open spec fn known_algorithm(name: Seq<char>) -> bool {
    name == "basic"@ || name == "weighted"@ || name == "least_squares"@ || name == "auto"@
}

/// How a request wants to be served.
#[derive(Clone, Debug)]
pub struct LocationRequestOptions {
    /// `basic`, `weighted`, `least_squares` or `auto`.
    pub algorithm: String,
    /// Accepted and carried; the positioning does not read it.
    pub enable_kalman_filter: bool,
    /// Accepted and carried; the positioning does not read it.
    pub enable_smoothing: bool,
    /// The least confidence the client accepts, between 0 and 1.
    pub min_confidence: Scalar,
    /// Whatever else the client attached.
    pub extra: Option<serde_json::Value>,
}

/// What the library reads of `LocationRequestOptions`.
pub struct LocationRequestOptionsView {
    pub algorithm: Seq<char>,
    pub enable_kalman_filter: bool,
    pub enable_smoothing: bool,
    pub min_confidence: Scalar,
    pub extra: Option<serde_json::Value>,
}

impl View for LocationRequestOptions {
    type V = LocationRequestOptionsView;

    open spec fn view(&self) -> LocationRequestOptionsView {
        LocationRequestOptionsView {
            algorithm: self.algorithm@,
            enable_kalman_filter: self.enable_kalman_filter,
            enable_smoothing: self.enable_smoothing,
            min_confidence: self.min_confidence,
            extra: self.extra,
        }
    }
}

impl LocationRequestOptionsView {
    /// What is wrong with the options, if anything: the confidence is looked
    /// at before the algorithm.
    pub open spec fn fault(self) -> Option<OptionsErrorView> {
        if !self.min_confidence.in_unit_interval() {
            Some(OptionsErrorView::ConfidenceOutOfRange)
        } else if !known_algorithm(self.algorithm) {
            Some(OptionsErrorView::UnknownAlgorithm(self.algorithm))
        } else {
            None
        }
    }

    /// The options a request has when it names none.
    pub open spec fn standard() -> LocationRequestOptionsView {
        LocationRequestOptionsView {
            algorithm: "auto"@,
            enable_kalman_filter: true,
            enable_smoothing: false,
            min_confidence: Scalar { bits: ZERO_BITS },
            extra: None,
        }
    }
}

/// The algorithm of a request that names none.
pub fn default_algorithm() -> (r: String)
    ensures
        r@ == "auto"@,
{
    String::from_str("auto")
}

/// Whether a request that does not say wants the Kalman filter.
pub fn default_enable_filter() -> (r: bool)
    ensures
        r,
{
    true
}

/// Whether a request that does not say wants smoothing.
pub fn default_enable_smoothing() -> (r: bool)
    ensures
        !r,
{
    false
}

/// The least confidence of a request that names none: `0.0`.
pub fn default_min_confidence() -> (r: Scalar)
    ensures
        r.bits == ZERO_BITS,
{
    Scalar::zero()
}

impl Default for LocationRequestOptions {
    /// Every field at the default of its type: no algorithm, both switches
    /// off, a least confidence of `0.0`, nothing attached.
    fn default() -> (r: Self)
        ensures
            r@ == (LocationRequestOptionsView {
                algorithm: Seq::<char>::empty(),
                enable_kalman_filter: false,
                enable_smoothing: false,
                min_confidence: Scalar { bits: ZERO_BITS },
                extra: None,
            }),
    {
        LocationRequestOptions {
            algorithm: String::new(),
            enable_kalman_filter: false,
            enable_smoothing: false,
            min_confidence: Scalar::zero(),
            extra: None,
        }
    }
}

impl LocationRequestOptions {
    /// The options a request has when it names none.
    pub fn standard() -> (r: Self)
        ensures
            r@ == LocationRequestOptionsView::standard(),
    {
        LocationRequestOptions {
            algorithm: default_algorithm(),
            enable_kalman_filter: default_enable_filter(),
            enable_smoothing: default_enable_smoothing(),
            min_confidence: default_min_confidence(),
            extra: None,
        }
    }

    /// What is wrong with the options, if anything.
    pub fn check(&self) -> (r: Result<(), OptionsError>)
        ensures
            match self@.fault() {
                None => r is Ok,
                Some(e) => r matches Err(f) && f@ == e,
            },
    {
        if !self.min_confidence.is_in_unit_interval() {
            return Err(OptionsError::ConfidenceOutOfRange);
        }
        if text_is(&self.algorithm, "basic") || text_is(&self.algorithm, "weighted") || text_is(
            &self.algorithm,
            "least_squares",
        ) || text_is(&self.algorithm, "auto") {
            Ok(())
        } else {
            Err(OptionsError::UnknownAlgorithm(self.algorithm.clone()))
        }
    }

    /// Accepts the options or says in words what is wrong with them.
    pub fn validate(&self) -> (r: Result<(), String>)
        ensures
            match self@.fault() {
                None => r is Ok,
                Some(e) => r matches Err(m) && m@ == e.text(),
            },
    {
        match self.check() {
            Ok(()) => Ok(()),
            Err(e) => Err(e.message()),
        }
    }
}

/// A positioning request.
#[derive(Clone, Debug)]
pub struct LocationRequest {
    pub client_id: String,
    pub device_id: Option<String>,
    /// Every beacon the client heard.
    pub signals: Vec<BeaconSignal>,
    pub request_timestamp_ms: Option<u64>,
    pub options: LocationRequestOptions,
}

/// What the library reads of a `LocationRequest`.
pub struct LocationRequestView {
    pub client_id: Seq<char>,
    pub device_id: Option<Seq<char>>,
    pub signals: Seq<BeaconSignalView>,
    pub request_timestamp_ms: Option<u64>,
    pub options: LocationRequestOptionsView,
}

impl View for LocationRequest {
    type V = LocationRequestView;

    open spec fn view(&self) -> LocationRequestView {
        LocationRequestView {
            client_id: self.client_id@,
            device_id: match self.device_id {
                Some(d) => Some(d@),
                None => None,
            },
            signals: signal_views(self.signals@),
            request_timestamp_ms: self.request_timestamp_ms,
            options: self.options@,
        }
    }
}

impl LocationRequestView {
    /// What is wrong with the request, if anything. The client id is looked at
    /// first, then the number of signals, then the signals in their order.
    pub open spec fn fault(self) -> Option<RequestError> {
        if self.client_id.len() == 0 {
            Some(RequestError::EmptyClientId)
        } else if self.signals.len() == 0 {
            Some(RequestError::NoSignals)
        } else if self.signals.len() < MIN_SIGNALS {
            Some(RequestError::TooFewSignals)
        } else {
            first_fault(self.signals)
        }
    }
}

impl LocationRequest {
    /// A request with the standard options.
    pub fn new(client_id: String, signals: Vec<BeaconSignal>) -> (r: Self)
        ensures
            r@ == (LocationRequestView {
                client_id: client_id@,
                device_id: None,
                signals: signal_views(signals@),
                request_timestamp_ms: None,
                options: LocationRequestOptionsView::standard(),
            }),
    {
        LocationRequest {
            client_id,
            device_id: None,
            signals,
            request_timestamp_ms: None,
            options: LocationRequestOptions::standard(),
        }
    }

    /// What is wrong with the request, if anything.
    pub fn check(&self) -> (r: Result<(), RequestError>)
        ensures
            match self@.fault() {
                None => r is Ok,
                Some(e) => r == Err::<(), RequestError>(e),
            },
    {
        if self.client_id.as_str().is_empty() {
            return Err(RequestError::EmptyClientId);
        }
        if self.signals.len() == 0 {
            return Err(RequestError::NoSignals);
        }
        if self.signals.len() < MIN_SIGNALS {
            return Err(RequestError::TooFewSignals);
        }
        let ghost views = signal_views(self.signals@);
        let n = self.signals.len();
        let mut i: usize = 0;
        while i < n
            invariant
                i <= n,
                n == self.signals.len(),
                n >= MIN_SIGNALS,
                self.client_id@.len() != 0,
                views == signal_views(self.signals@),
                first_fault(views.take(i as int)) is None,
            decreases n - i,
        {
            let signal = &self.signals[i];
            proof {
                assert(views.take(i + 1).drop_last() =~= views.take(i as int));
                assert(views.take(i + 1).last() == signal@);
            }
            if signal.beacon_id.as_str().is_empty() {
                proof {
                    assert(first_fault(views.take(i + 1)) == Some(RequestError::EmptyBeaconId(i)));
                    lemma_first_fault_extends(views, (i + 1) as int);
                }
                return Err(RequestError::EmptyBeaconId(i));
            }
            if signal.rssi >= 0 {
                proof {
                    assert(first_fault(views.take(i + 1)) == Some(
                        RequestError::RssiNotNegative(i),
                    ));
                    lemma_first_fault_extends(views, (i + 1) as int);
                }
                return Err(RequestError::RssiNotNegative(i));
            }
            i = i + 1;
        }
        proof {
            assert(views.take(n as int) =~= views);
        }
        Ok(())
    }

    /// Accepts the request or says in words what is wrong with it.
    pub fn validate(&self) -> (r: Result<(), String>)
        ensures
            match self@.fault() {
                None => r is Ok,
                Some(e) => r matches Err(m) && m@ == e.text(),
            },
    {
        match self.check() {
            Ok(()) => Ok(()),
            Err(e) => Err(e.message()),
        }
    }
}

/// A fault found in a prefix is the fault of the whole sequence.
pub proof fn lemma_first_fault_extends(signals: Seq<BeaconSignalView>, k: int)
    requires
        0 <= k <= signals.len(),
        first_fault(signals.take(k)) is Some,
    ensures
        first_fault(signals) == first_fault(signals.take(k)),
    decreases signals.len() - k,
{
    if k < signals.len() {
        assert(signals.take(k + 1).drop_last() =~= signals.take(k));
        lemma_first_fault_extends(signals, k + 1);
    } else {
        assert(signals.take(k) =~= signals);
    }
}

} // verus!
