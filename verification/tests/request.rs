//! Requests and what is wrong with them.

use blunav::network::request::{
    default_algorithm, default_enable_filter, default_enable_smoothing, default_min_confidence,
    OptionsError, RequestError,
};
use blunav::network::{BeaconSignal, LocationRequest, LocationRequestOptions};
use blunav::scalar::Scalar;

fn s(v: f64) -> Scalar {
    Scalar::from_bits(v.to_bits())
}

fn three() -> Vec<BeaconSignal> {
    vec![
        BeaconSignal::new("B1".to_string(), -50),
        BeaconSignal::new("B2".to_string(), -60),
        BeaconSignal::new("B3".to_string(), -70),
    ]
}

#[test]
fn test_beacon_signal_creation() {
    let signal = BeaconSignal::new("B1".to_string(), -50);
    assert_eq!(signal.beacon_id, "B1");
    assert_eq!(signal.rssi, -50);
}

#[test]
fn test_location_request_validation() {
    let mut request = LocationRequest::new("client1".to_string(), three());
    assert!(request.validate().is_ok());
    request.signals.pop();
    assert!(request.validate().is_err());
}

#[test]
fn test_location_request_options() {
    let opts = LocationRequestOptions {
        algorithm: "weighted".to_string(),
        enable_kalman_filter: true,
        min_confidence: s(0.8),
        ..Default::default()
    };
    assert!(opts.validate().is_ok());
    let invalid_opts = LocationRequestOptions { min_confidence: s(1.5), ..Default::default() };
    assert!(invalid_opts.validate().is_err());
}

#[test]
fn signal_builders_fill_one_field_each() {
    let signal = BeaconSignal::new("B1".to_string(), -50);
    assert_eq!(signal.beacon_name, None);
    assert_eq!(signal.timestamp_ms, None);
    assert!(signal.extra.is_none());
    let signal = signal
        .with_name("lobby".to_string())
        .with_timestamp(42)
        .with_extra(serde_json::Value::Bool(true));
    assert_eq!(signal.beacon_id, "B1");
    assert_eq!(signal.rssi, -50);
    assert_eq!(signal.beacon_name, Some("lobby".to_string()));
    assert_eq!(signal.timestamp_ms, Some(42));
    assert_eq!(signal.extra, Some(serde_json::Value::Bool(true)));
}

#[test]
fn new_request_has_the_standard_options() {
    let request = LocationRequest::new("client1".to_string(), three());
    assert_eq!(request.client_id, "client1");
    assert_eq!(request.device_id, None);
    assert_eq!(request.signals.len(), 3);
    assert_eq!(request.request_timestamp_ms, None);
    assert_eq!(request.options.algorithm, "auto");
    assert!(request.options.enable_kalman_filter);
    assert!(!request.options.enable_smoothing);
    assert_eq!(request.options.min_confidence.to_bits(), 0.0f64.to_bits());
    assert!(request.options.extra.is_none());
    assert_eq!(default_algorithm(), "auto");
    assert!(default_enable_filter());
    assert!(!default_enable_smoothing());
    assert_eq!(default_min_confidence().to_bits(), 0.0f64.to_bits());
}

#[test]
fn default_options_have_no_algorithm() {
    let opts = LocationRequestOptions::default();
    assert_eq!(opts.algorithm, "");
    assert!(!opts.enable_kalman_filter);
    assert!(!opts.enable_smoothing);
    assert_eq!(opts.min_confidence.to_bits(), 0);
    assert_eq!(opts.validate(), Err("不支持的算法: ".to_string()));
}

#[test]
fn each_request_fault_is_found_in_order() {
    let ok = LocationRequest::new("c".to_string(), three());
    assert_eq!(ok.check(), Ok(()));

    let mut r = LocationRequest::new("".to_string(), vec![]);
    assert_eq!(r.check(), Err(RequestError::EmptyClientId));
    assert_eq!(r.validate(), Err("client_id 不能为空".to_string()));
    r.client_id = "c".to_string();
    assert_eq!(r.check(), Err(RequestError::NoSignals));
    assert_eq!(r.validate(), Err("signals 不能为空".to_string()));
    r.signals.push(BeaconSignal::new("".to_string(), 5));
    assert_eq!(r.check(), Err(RequestError::TooFewSignals));
    r.signals.push(BeaconSignal::new("B2".to_string(), -60));
    assert_eq!(r.validate(), Err("至少需要 3 个信标信号".to_string()));
    r.signals.push(BeaconSignal::new("B3".to_string(), 0));
    assert_eq!(r.check(), Err(RequestError::EmptyBeaconId(0)));
    assert_eq!(r.validate(), Err("信号 0 的 beacon_id 不能为空".to_string()));
    r.signals[0].beacon_id = "B1".to_string();
    assert_eq!(r.check(), Err(RequestError::RssiNotNegative(0)));
    assert_eq!(r.validate(), Err("信号 0 的 RSSI 应为负数".to_string()));
    r.signals[0].rssi = -1;
    assert_eq!(r.check(), Err(RequestError::RssiNotNegative(2)));
    assert_eq!(r.validate(), Err("信号 2 的 RSSI 应为负数".to_string()));
    r.signals[2].rssi = i16::MIN;
    assert_eq!(r.check(), Ok(()));
}

#[test]
fn a_late_fault_names_its_index_in_decimal() {
    let mut signals: Vec<BeaconSignal> =
        (0..120).map(|i| BeaconSignal::new(format!("B{}", i), -40)).collect();
    signals[117].beacon_id = String::new();
    signals[119].rssi = 3;
    let r = LocationRequest::new("c".to_string(), signals);
    assert_eq!(r.check(), Err(RequestError::EmptyBeaconId(117)));
    assert_eq!(r.validate(), Err("信号 117 的 beacon_id 不能为空".to_string()));
    assert_eq!(RequestError::RssiNotNegative(10).message(), "信号 10 的 RSSI 应为负数");
}

#[test]
fn options_faults() {
    let with = |algorithm: &str, confidence: f64| LocationRequestOptions {
        algorithm: algorithm.to_string(),
        min_confidence: s(confidence),
        ..Default::default()
    };
    for name in ["basic", "weighted", "least_squares", "auto"] {
        assert!(with(name, 0.0).check().is_ok());
        assert!(with(name, 1.0).check().is_ok());
        assert!(with(name, -0.0).check().is_ok());
    }
    for bad in [-0.1, 1.0000000000000002, f64::NAN, f64::INFINITY, -1e-300] {
        assert!(matches!(with("auto", bad).check(), Err(OptionsError::ConfidenceOutOfRange)));
        assert_eq!(
            with("fancy", bad).validate(),
            Err("min_confidence 必须在 0.0-1.0 之间".to_string())
        );
    }
    for name in ["fancy", "Basic", "auto ", "", "least-squares"] {
        match with(name, 0.5).check() {
            Err(OptionsError::UnknownAlgorithm(n)) => assert_eq!(n, name),
            other => panic!("{:?}", other),
        }
    }
    assert_eq!(with("fancy", 0.5).validate(), Err("不支持的算法: fancy".to_string()));
}
