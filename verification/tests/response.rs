//! Answers.

use blunav::network::response::transport_status;
use blunav::network::{HttpResponse, PositioningResult, ResponseStatus};
use blunav::scalar::Scalar;

fn s(v: f64) -> Scalar {
    Scalar::from_bits(v.to_bits())
}

fn sample() -> PositioningResult {
    PositioningResult::new(
        s(368.0),
        s(339.0),
        s(94.0),
        s(0.85),
        s(20.0),
        "basic".to_string(),
        3,
    )
}

#[test]
fn test_positioning_result() {
    let result = sample();
    assert_eq!(result.x.to_bits(), 368.0f64.to_bits());
    assert_eq!(result.confidence.to_bits(), 0.85f64.to_bits());
    assert!(result.is_high_quality());
}

#[test]
fn test_http_response_success() {
    let response = HttpResponse::success("client1".to_string(), sample());
    assert_eq!(response.code, 200);
    assert_eq!(response.status, "success");
    assert_eq!(response.client_id, Some("client1".to_string()));
    assert!(response.result.is_some());
}

#[test]
fn test_http_response_error() {
    let response = HttpResponse::bad_request("Invalid input".to_string());
    assert_eq!(response.code, 400);
    assert_eq!(response.status, "bad_request");
}

#[test]
fn status_codes_and_names() {
    let all = [
        (ResponseStatus::Success, 200, "success", "定位成功"),
        (ResponseStatus::BadRequest, 400, "bad_request", "请求格式错误"),
        (ResponseStatus::PositioningFailed, 420, "positioning_failed", "定位失败"),
        (ResponseStatus::ServerError, 500, "server_error", "服务器错误"),
    ];
    for (status, code, name, message) in all {
        assert_eq!(status.as_u16(), code);
        assert_eq!(status.as_str(), name);
        assert_eq!(status.message(), message);
    }
}

#[test]
fn result_fields_and_stamp() {
    let result = sample();
    assert_eq!(result.y.to_bits(), 339.0f64.to_bits());
    assert_eq!(result.z.to_bits(), 94.0f64.to_bits());
    assert_eq!(result.error.to_bits(), 20.0f64.to_bits());
    assert_eq!(result.algorithm, "basic");
    assert_eq!(result.beacon_count, 3);
    assert_eq!(result.timestamp_ms, None);
    let stamped = result.clone().with_timestamp(99);
    assert_eq!(stamped.timestamp_ms, Some(99));
    assert_eq!(stamped.algorithm, "basic");
    assert_eq!(stamped.x.to_bits(), 368.0f64.to_bits());
}

#[test]
fn high_quality_needs_both_bounds_strictly() {
    let with = |confidence: f64, error: f64| {
        PositioningResult::new(s(0.0), s(0.0), s(0.0), s(confidence), s(error), String::new(), 3)
            .is_high_quality()
    };
    assert!(with(0.71, 99.9));
    assert!(!with(0.7, 50.0));
    assert!(!with(0.9, 100.0));
    assert!(!with(0.5, 10.0));
    assert!(!with(f64::NAN, 10.0));
    assert!(!with(0.9, f64::NAN));
    assert!(with(0.7000000000000001, -5.0));
}

#[test]
fn every_answer_has_the_parts_of_its_status() {
    let ok = HttpResponse::success_at("c".to_string(), sample(), 5);
    assert_eq!((ok.code, ok.status.as_str(), ok.message.as_str()), (200, "success", "定位成功"));
    assert_eq!(ok.client_id, Some("c".to_string()));
    assert_eq!(ok.error_details, None);
    assert_eq!(ok.response_timestamp_ms, Some(5));
    assert_eq!(ok.result.unwrap().algorithm, "basic");

    let bad = HttpResponse::bad_request_at("why".to_string(), 6);
    assert_eq!((bad.code, bad.status.as_str()), (400, "bad_request"));
    assert_eq!(bad.message, "请求格式错误");
    assert_eq!(bad.client_id, None);
    assert!(bad.result.is_none());
    assert_eq!(bad.error_details, Some("why".to_string()));
    assert_eq!(bad.response_timestamp_ms, Some(6));

    let failed = HttpResponse::positioning_failed_at("c".to_string(), "why".to_string(), 7);
    assert_eq!((failed.code, failed.status.as_str()), (420, "positioning_failed"));
    assert_eq!(failed.message, "定位失败");
    assert_eq!(failed.client_id, Some("c".to_string()));
    assert!(failed.result.is_none());
    assert_eq!(failed.error_details, Some("why".to_string()));

    let broken = HttpResponse::server_error_at("why".to_string(), 8);
    assert_eq!((broken.code, broken.status.as_str()), (500, "server_error"));
    assert_eq!(broken.message, "服务器错误");
    assert_eq!(broken.client_id, None);
    assert_eq!(broken.error_details, Some("why".to_string()));
    assert_eq!(broken.response_timestamp_ms, Some(8));
}

#[test]
fn answers_given_now_carry_a_time() {
    let failed = HttpResponse::positioning_failed("c".to_string(), "why".to_string());
    assert_eq!(failed.code, 420);
    assert!(failed.response_timestamp_ms.is_some());
    let broken = HttpResponse::server_error("why".to_string());
    assert_eq!(broken.code, 500);
    assert!(broken.response_timestamp_ms.unwrap() > 1_600_000_000_000);
}

#[test]
fn transport_status_keeps_what_http_can_carry() {
    assert_eq!(transport_status(200), 200);
    assert_eq!(transport_status(420), 420);
    assert_eq!(transport_status(100), 100);
    assert_eq!(transport_status(999), 999);
    assert_eq!(transport_status(99), 500);
    assert_eq!(transport_status(1000), 500);
    assert_eq!(transport_status(0), 500);
    assert_eq!(transport_status(u16::MAX), 500);
}
