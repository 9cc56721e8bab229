//! What the service answers.

use vstd::prelude::*;
use vstd::string::StringExecFns;
use crate::scalar::Scalar;

verus! {

/// The encoding of `0.7`, the confidence a high-quality result must exceed.
pub const HIGH_QUALITY_CONFIDENCE_BITS: u64 = 0x3FE6_6666_6666_6666;

/// The encoding of `100.0`, the error a high-quality result must stay under.
pub const HIGH_QUALITY_ERROR_BITS: u64 = 0x4059_0000_0000_0000;

/// The outcome classes of a request.
#[derive(Clone, Copy, Debug, PartialEq, Eq, Structural)]
pub enum ResponseStatus {
    /// The position was computed.
    Success,
    /// The request was malformed.
    BadRequest,
    /// The request was well-formed but no position could be given.
    PositioningFailed,
    /// The service itself failed.
    ServerError,
}

impl ResponseStatus {
    /// The numeric code of each status.
    pub open spec fn code(self) -> u16 {
        match self {
            ResponseStatus::Success => 200,
            ResponseStatus::BadRequest => 400,
            ResponseStatus::PositioningFailed => 420,
            ResponseStatus::ServerError => 500,
        }
    }

    /// The name of each status on the wire.
    pub open spec fn label(self) -> Seq<char> {
        match self {
            ResponseStatus::Success => "success"@,
            ResponseStatus::BadRequest => "bad_request"@,
            ResponseStatus::PositioningFailed => "positioning_failed"@,
            ResponseStatus::ServerError => "server_error"@,
        }
    }

    /// The human-readable summary that goes with each status.
    pub open spec fn summary(self) -> Seq<char> {
        match self {
            ResponseStatus::Success => "定位成功"@,
            ResponseStatus::BadRequest => "请求格式错误"@,
            ResponseStatus::PositioningFailed => "定位失败"@,
            ResponseStatus::ServerError => "服务器错误"@,
        }
    }

    pub fn as_u16(&self) -> (r: u16)
        ensures
            r == self.code(),
    {
        match self {
            ResponseStatus::Success => 200,
            ResponseStatus::BadRequest => 400,
            ResponseStatus::PositioningFailed => 420,
            ResponseStatus::ServerError => 500,
        }
    }

    pub fn as_str(&self) -> (r: &'static str)
        ensures
            r@ == self.label(),
    {
        match self {
            ResponseStatus::Success => "success",
            ResponseStatus::BadRequest => "bad_request",
            ResponseStatus::PositioningFailed => "positioning_failed",
            ResponseStatus::ServerError => "server_error",
        }
    }

    /// The human-readable summary that goes with the status.
    pub fn message(&self) -> (r: &'static str)
        ensures
            r@ == self.summary(),
    {
        match self {
            ResponseStatus::Success => "定位成功",
            ResponseStatus::BadRequest => "请求格式错误",
            ResponseStatus::PositioningFailed => "定位失败",
            ResponseStatus::ServerError => "服务器错误",
        }
    }
}

/// The codes of distinct statuses differ, and so do their names.
pub proof fn lemma_status_distinct(a: ResponseStatus, b: ResponseStatus)
    requires
        a != b,
    ensures
        a.code() != b.code(),
        a.label() != b.label(),
{
    reveal_strlit("success");
    reveal_strlit("bad_request");
    reveal_strlit("positioning_failed");
    reveal_strlit("server_error");
    assert(a.label().len() != b.label().len());
}

/// The status code for the transport: the response's own code where HTTP can
/// carry it (100 to 999), and 500 otherwise.
pub open spec fn spec_transport_status(code: u16) -> u16 {
    if 100 <= code < 1000 {
        code
    } else {
        500
    }
}

/// The status code for the transport: the response's own code where HTTP can
/// carry it, and 500 otherwise.
pub fn transport_status(code: u16) -> (r: u16)
    ensures
        r == spec_transport_status(code),
        100 <= r < 1000,
{
    if 100 <= code && code < 1000 {
        code
    } else {
        500
    }
}

/// A computed position.
#[derive(Debug)]
pub struct PositioningResult {
    pub x: Scalar,
    pub y: Scalar,
    pub z: Scalar,
    /// Between 0 and 1.
    pub confidence: Scalar,
    /// In the unit of the coordinates.
    pub error: Scalar,
    /// The algorithm that produced the position.
    pub algorithm: String,
    /// How many beacons took part.
    pub beacon_count: usize,
    pub timestamp_ms: Option<u64>,
}

/// The mathematical content of a `PositioningResult`.
pub struct PositioningResultView {
    pub x: Scalar,
    pub y: Scalar,
    pub z: Scalar,
    pub confidence: Scalar,
    pub error: Scalar,
    pub algorithm: Seq<char>,
    pub beacon_count: usize,
    pub timestamp_ms: Option<u64>,
}

impl View for PositioningResult {
    type V = PositioningResultView;

    open spec fn view(&self) -> PositioningResultView {
        PositioningResultView {
            x: self.x,
            y: self.y,
            z: self.z,
            confidence: self.confidence,
            error: self.error,
            algorithm: self.algorithm@,
            beacon_count: self.beacon_count,
            timestamp_ms: self.timestamp_ms,
        }
    }
}

impl PositioningResultView {
    /// Confidence above 0.7 and error under 100.
    pub open spec fn high_quality(self) -> bool {
        (Scalar { bits: HIGH_QUALITY_CONFIDENCE_BITS }).less(self.confidence) && self.error.less(
            Scalar { bits: HIGH_QUALITY_ERROR_BITS },
        )
    }
}

impl Clone for PositioningResult {
    fn clone(&self) -> (r: Self)
        ensures
            r@ == self@,
    {
        PositioningResult {
            x: self.x,
            y: self.y,
            z: self.z,
            confidence: self.confidence,
            error: self.error,
            algorithm: self.algorithm.clone(),
            beacon_count: self.beacon_count,
            timestamp_ms: self.timestamp_ms,
        }
    }
}

impl PositioningResult {
    /// A result without a timestamp.
    pub fn new(
        x: Scalar,
        y: Scalar,
        z: Scalar,
        confidence: Scalar,
        error: Scalar,
        algorithm: String,
        beacon_count: usize,
    ) -> (r: Self)
        ensures
            r@ == (PositioningResultView {
                x,
                y,
                z,
                confidence,
                error,
                algorithm: algorithm@,
                beacon_count,
                timestamp_ms: None,
            }),
    {
        PositioningResult {
            x,
            y,
            z,
            confidence,
            error,
            algorithm,
            beacon_count,
            timestamp_ms: None,
        }
    }

    /// The same result, stamped.
    pub fn with_timestamp(self, timestamp_ms: u64) -> (r: Self)
        ensures
            r@ == (PositioningResultView { timestamp_ms: Some(timestamp_ms), ..self@ }),
    {
        let mut r = self;
        r.timestamp_ms = Some(timestamp_ms);
        r
    }

    /// Whether the confidence is above 0.7 and the error under 100.
    pub fn is_high_quality(&self) -> (r: bool)
        ensures
            r == self@.high_quality(),
    {
        let floor = Scalar::from_bits(HIGH_QUALITY_CONFIDENCE_BITS);
        let ceiling = Scalar::from_bits(HIGH_QUALITY_ERROR_BITS);
        self.confidence.gt(&floor) && self.error.lt(&ceiling)
    }
}

/// The view of an optional string.
pub open spec fn text_view(s: Option<String>) -> Option<Seq<char>> {
    match s {
        Some(t) => Some(t@),
        None => None,
    }
}

/// The view of an optional result.
pub open spec fn result_view(r: Option<PositioningResult>) -> Option<PositioningResultView> {
    match r {
        Some(p) => Some(p@),
        None => None,
    }
}

/// The body of every answer.
#[derive(Debug)]
pub struct HttpResponse {
    /// The status by name.
    pub status: String,
    /// The status by number.
    pub code: u16,
    pub message: String,
    /// The client the answer is for, where the request got far enough to name one.
    pub client_id: Option<String>,
    /// The position; present exactly in a success.
    pub result: Option<PositioningResult>,
    /// What went wrong; present exactly in a failure.
    pub error_details: Option<String>,
    pub response_timestamp_ms: Option<u64>,
}

/// The mathematical content of an `HttpResponse`.
pub struct HttpResponseView {
    pub status: Seq<char>,
    pub code: u16,
    pub message: Seq<char>,
    pub client_id: Option<Seq<char>>,
    pub result: Option<PositioningResultView>,
    pub error_details: Option<Seq<char>>,
    pub response_timestamp_ms: Option<u64>,
}

impl View for HttpResponse {
    type V = HttpResponseView;

    open spec fn view(&self) -> HttpResponseView {
        HttpResponseView {
            status: self.status@,
            code: self.code,
            message: self.message@,
            client_id: text_view(self.client_id),
            result: result_view(self.result),
            error_details: text_view(self.error_details),
            response_timestamp_ms: self.response_timestamp_ms,
        }
    }
}

impl HttpResponseView {
    /// The answer of the given status, with the parts that go with it.
    pub open spec fn build(
        status: ResponseStatus,
        client_id: Option<Seq<char>>,
        result: Option<PositioningResultView>,
        error_details: Option<Seq<char>>,
        now_ms: u64,
    ) -> HttpResponseView {
        HttpResponseView {
            status: status.label(),
            code: status.code(),
            message: status.summary(),
            client_id,
            result,
            error_details,
            response_timestamp_ms: Some(now_ms),
        }
    }

    /// A success for `client_id` carrying `result`, answered at `now_ms`.
    pub open spec fn success(
        client_id: Seq<char>,
        result: PositioningResultView,
        now_ms: u64,
    ) -> HttpResponseView {
        Self::build(ResponseStatus::Success, Some(client_id), Some(result), None, now_ms)
    }

    /// A rejection of a malformed request, answered at `now_ms`.
    pub open spec fn bad_request(error_msg: Seq<char>, now_ms: u64) -> HttpResponseView {
        Self::build(ResponseStatus::BadRequest, None, None, Some(error_msg), now_ms)
    }

    /// A failure to position `client_id`, answered at `now_ms`.
    pub open spec fn positioning_failed(
        client_id: Seq<char>,
        reason: Seq<char>,
        now_ms: u64,
    ) -> HttpResponseView {
        Self::build(ResponseStatus::PositioningFailed, Some(client_id), None, Some(reason), now_ms)
    }

    /// A failure of the service, answered at `now_ms`.
    pub open spec fn server_error(error_msg: Seq<char>, now_ms: u64) -> HttpResponseView {
        Self::build(ResponseStatus::ServerError, None, None, Some(error_msg), now_ms)
    }

    /// The time the answer was given, or 0 where it carries none.
    pub open spec fn answered_at(self) -> u64 {
        match self.response_timestamp_ms {
            Some(t) => t,
            None => 0,
        }
    }
}

/// The system clock: milliseconds since the Unix epoch, as
/// `std::time::SystemTime::now` gives them, and 0 where the clock stands before
/// the epoch. Nothing is claimed of the value.
#[verifier::external_body]
pub(crate) fn unix_millis() -> u64 {
    std::time::SystemTime::now().duration_since(
        std::time::UNIX_EPOCH,
    ).unwrap_or_default().as_millis() as u64
}

impl HttpResponse {
    fn build(
        status: ResponseStatus,
        client_id: Option<String>,
        result: Option<PositioningResult>,
        error_details: Option<String>,
        now_ms: u64,
    ) -> (r: Self)
        ensures
            r@ == HttpResponseView::build(
                status,
                text_view(client_id),
                result_view(result),
                text_view(error_details),
                now_ms,
            ),
    {
        HttpResponse {
            status: String::from_str(status.as_str()),
            code: status.as_u16(),
            message: String::from_str(status.message()),
            client_id,
            result,
            error_details,
            response_timestamp_ms: Some(now_ms),
        }
    }

    /// A success for `client_id` carrying `result`, answered at `now_ms`.
    pub fn success_at(client_id: String, result: PositioningResult, now_ms: u64) -> (r: Self)
        ensures
            r@ == HttpResponseView::success(client_id@, result@, now_ms),
    {
        Self::build(ResponseStatus::Success, Some(client_id), Some(result), None, now_ms)
    }

    /// A rejection of a malformed request, answered at `now_ms`.
    pub fn bad_request_at(error_msg: String, now_ms: u64) -> (r: Self)
        ensures
            r@ == HttpResponseView::bad_request(error_msg@, now_ms),
    {
        Self::build(ResponseStatus::BadRequest, None, None, Some(error_msg), now_ms)
    }

    /// A failure to position `client_id`, answered at `now_ms`.
    pub fn positioning_failed_at(client_id: String, reason: String, now_ms: u64) -> (r: Self)
        ensures
            r@ == HttpResponseView::positioning_failed(client_id@, reason@, now_ms),
    {
        Self::build(
            ResponseStatus::PositioningFailed,
            Some(client_id),
            None,
            Some(reason),
            now_ms,
        )
    }

    /// A failure of the service, answered at `now_ms`.
    pub fn server_error_at(error_msg: String, now_ms: u64) -> (r: Self)
        ensures
            r@ == HttpResponseView::server_error(error_msg@, now_ms),
    {
        Self::build(ResponseStatus::ServerError, None, None, Some(error_msg), now_ms)
    }

    /// A success, answered now: whatever the clock says, the rest is fixed.
    pub fn success(client_id: String, result: PositioningResult) -> (r: Self)
        ensures
            r@ == HttpResponseView::success(client_id@, result@, r@.answered_at()),
    {
        Self::success_at(client_id, result, unix_millis())
    }

    /// A rejection of a malformed request, answered now.
    pub fn bad_request(error_msg: String) -> (r: Self)
        ensures
            r@ == HttpResponseView::bad_request(error_msg@, r@.answered_at()),
    {
        Self::bad_request_at(error_msg, unix_millis())
    }

    /// A failure to position `client_id`, answered now.
    pub fn positioning_failed(client_id: String, reason: String) -> (r: Self)
        ensures
            r@ == HttpResponseView::positioning_failed(client_id@, reason@, r@.answered_at()),
    {
        Self::positioning_failed_at(client_id, reason, unix_millis())
    }

    /// A failure of the service, answered now.
    pub fn server_error(error_msg: String) -> (r: Self)
        ensures
            r@ == HttpResponseView::server_error(error_msg@, r@.answered_at()),
    {
        Self::server_error_at(error_msg, unix_millis())
    }
}

} // verus!
