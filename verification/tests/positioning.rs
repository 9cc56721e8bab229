//! The positioning service from request to answer, on a floating-point kernel.

use blunav::algorithms::anchor::{Point, WeightedAnchor};
use blunav::algorithms::kernel::{LinearFix, PlanarFix, Proposal, Query, Reply};
use blunav::algorithms::method::{Algorithm, Method};
use blunav::algorithms::{
    Beacon, BeaconSet, DistanceUnit, LocationAlgorithm, RSSIModel, SignalReadings,
};
use blunav::network::handlers::{Failure, FailureKind};
use blunav::network::{BeaconSignal, LocationRequest, PositioningHandler};
use blunav::scalar::Scalar;

const EPSILON: f64 = 1e-6;

fn s(v: f64) -> Scalar {
    Scalar::from_bits(v.to_bits())
}

fn f(v: Scalar) -> f64 {
    f64::from_bits(v.to_bits())
}

type Row = ([f64; 3], f64, f64);

fn rows(anchors: &Vec<WeightedAnchor>) -> Vec<Row> {
    anchors
        .iter()
        .map(|a| {
            (
                [f(a.position.x), f(a.position.y), f(a.position.z)],
                f(a.distance),
                f(a.weight),
            )
        })
        .collect()
}

fn point(p: [f64; 3]) -> Point {
    Point { x: s(p[0]), y: s(p[1]), z: s(p[2]) }
}

fn coords(p: Point) -> [f64; 3] {
    [f(p.x), f(p.y), f(p.z)]
}

fn sub(a: [f64; 3], b: [f64; 3]) -> [f64; 3] {
    [a[0] - b[0], a[1] - b[1], a[2] - b[2]]
}

fn dot(a: [f64; 3], b: [f64; 3]) -> f64 {
    a[0] * b[0] + a[1] * b[1] + a[2] * b[2]
}

fn norm(a: [f64; 3]) -> f64 {
    dot(a, a).sqrt()
}

fn cross(a: [f64; 3], b: [f64; 3]) -> [f64; 3] {
    [a[1] * b[2] - a[2] * b[1], a[2] * b[0] - a[0] * b[2], a[0] * b[1] - a[1] * b[0]]
}

fn det3(m: [[f64; 3]; 3]) -> f64 {
    m[0][0] * (m[1][1] * m[2][2] - m[1][2] * m[2][1])
        - m[0][1] * (m[1][0] * m[2][2] - m[1][2] * m[2][0])
        + m[0][2] * (m[1][0] * m[2][1] - m[1][1] * m[2][0])
}

fn solve3(m: [[f64; 3]; 3], v: [f64; 3]) -> [f64; 3] {
    let d = det3(m);
    let mut out = [0.0; 3];
    for k in 0..3 {
        let mut mk = m;
        for i in 0..3 {
            mk[i][k] = v[i];
        }
        out[k] = det3(mk) / d;
    }
    out
}

fn distance_of(model: &RSSIModel, rssi: i16) -> f64 {
    match model {
        RSSIModel::LogDistance { reference_rssi, exponent, .. } => {
            10f64.powf((f(*reference_rssi) - rssi as f64) / (10.0 * f(*exponent)))
        }
        RSSIModel::PythonFit { a, b, unit, .. } => {
            let metres = 10f64.powf((rssi as f64 - f(*a)) / f(*b));
            match unit {
                DistanceUnit::Centimeter => metres * 100.0,
                DistanceUnit::Meter => metres,
            }
        }
    }
}

fn centroid(rows: &[Row]) -> [f64; 3] {
    let total: f64 = rows.iter().map(|r| r.2).sum();
    let mut c = [0.0; 3];
    for (p, _, w) in rows {
        for k in 0..3 {
            c[k] += w * p[k] / total;
        }
    }
    c
}

fn cost(rows: &[Row], at: [f64; 3]) -> f64 {
    rows.iter().map(|(p, d, w)| w * (norm(sub(at, *p)) - d).powi(2)).sum()
}

fn residual(rows: &[Row], at: [f64; 3]) -> f64 {
    let total: f64 = rows.iter().map(|r| r.2).sum();
    (cost(rows, at) / total).sqrt()
}

fn planar(rows: &[Row]) -> PlanarFix {
    let (p1, d1, _) = rows[0];
    let (p2, d2, _) = rows[1];
    let (p3, d3, _) = rows[2];
    let a11 = 2.0 * (p2[0] - p1[0]);
    let a12 = 2.0 * (p2[1] - p1[1]);
    let a21 = 2.0 * (p3[0] - p1[0]);
    let a22 = 2.0 * (p3[1] - p1[1]);
    let flat = |p: [f64; 3]| p[0] * p[0] + p[1] * p[1];
    let b1 = d1 * d1 - d2 * d2 + flat(p2) - flat(p1);
    let b2 = d1 * d1 - d3 * d3 + flat(p3) - flat(p1);
    let det = a11 * a22 - a12 * a21;
    let x = (b1 * a22 - a12 * b2) / det;
    let y = (a11 * b2 - b1 * a21) / det;
    let h2 = d1 * d1 - (x - p1[0]).powi(2) - (y - p1[1]).powi(2);
    PlanarFix { determinant: s(det), x: s(x), y: s(y), height_squared: s(h2) }
}

fn normal(rows: &[Row]) -> LinearFix {
    let nowhere = LinearFix { determinant: s(0.0), position: point([f64::NAN; 3]) };
    let c = centroid(rows);
    let mut m = [[0.0; 3]; 3];
    let mut rhs = [0.0; 3];
    let mut lines: Vec<[f64; 3]> = Vec::new();
    for i in 0..rows.len() {
        for j in (i + 1)..rows.len() {
            let (pi, di, wi) = rows[i];
            let (pj, dj, wj) = rows[j];
            let a = [2.0 * (pj[0] - pi[0]), 2.0 * (pj[1] - pi[1]), 2.0 * (pj[2] - pi[2])];
            let b = di * di - dj * dj + dot(pj, pj) - dot(pi, pi) - dot(a, c);
            let w = wi * wj;
            lines.push(a);
            for r in 0..3 {
                rhs[r] += w * a[r] * b;
                for k in 0..3 {
                    m[r][k] += w * a[r] * a[k];
                }
            }
        }
    }
    let trace = m[0][0] + m[1][1] + m[2][2];
    if !(trace > 0.0) {
        return nowhere;
    }
    for r in 0..3 {
        rhs[r] = rhs[r] / trace * 3.0;
        for k in 0..3 {
            m[r][k] = m[r][k] / trace * 3.0;
        }
    }
    let full = det3(m);
    if full.abs() >= 1e-9 {
        let d = solve3(m, rhs);
        return LinearFix {
            determinant: s(full),
            position: point([c[0] + d[0], c[1] + d[1], c[2] + d[2]]),
        };
    }
    let mut up = [0.0; 3];
    let mut e1 = [0.0; 3];
    let mut widest = 0.0;
    for a in 0..lines.len() {
        for b in (a + 1)..lines.len() {
            let n = cross(lines[a], lines[b]);
            if norm(n) > widest {
                widest = norm(n);
                up = n;
                e1 = lines[a];
            }
        }
    }
    if widest == 0.0 {
        return nowhere;
    }
    let sign = if up[2] < 0.0 { -1.0 } else { 1.0 };
    let up = [sign * up[0] / widest, sign * up[1] / widest, sign * up[2] / widest];
    let l1 = norm(e1);
    let e1 = [e1[0] / l1, e1[1] / l1, e1[2] / l1];
    let e2 = cross(up, e1);
    let q = |u: [f64; 3], v: [f64; 3]| {
        let mv = [dot(m[0], v), dot(m[1], v), dot(m[2], v)];
        dot(u, mv)
    };
    let (m11, m12, m22) = (q(e1, e1), q(e1, e2), q(e2, e2));
    let (r1, r2) = (dot(e1, rhs), dot(e2, rhs));
    let half = (m11 + m22) / 2.0;
    let det = m11 * m22 - m12 * m12;
    let u = (r1 * m22 - m12 * r2) / det;
    let v = (m11 * r2 - m12 * r1) / det;
    let mut p = [0.0; 3];
    for k in 0..3 {
        p[k] = c[k] + u * e1[k] + v * e2[k];
    }
    let (p0, d0, _) = rows[0];
    let h2 = d0 * d0 - dot(sub(p, p0), sub(p, p0));
    let h = if h2 > 0.0 { h2.sqrt() } else { 0.0 };
    LinearFix {
        determinant: s(det / (half * half)),
        position: point([p[0] + h * up[0], p[1] + h * up[1], p[2] + h * up[2]]),
    }
}

fn refine(rows: &[Row], at: [f64; 3], damping_exponent: i32) -> Proposal {
    let lambda = 10f64.powi(damping_exponent);
    let mut m = [[0.0; 3]; 3];
    let mut g = [0.0; 3];
    for (p, d, w) in rows {
        let diff = sub(at, *p);
        let length = norm(diff);
        let guard = if length > EPSILON { length } else { EPSILON };
        let j = [w * diff[0] / guard, w * diff[1] / guard, w * diff[2] / guard];
        let r = length - d;
        for a in 0..3 {
            g[a] += j[a] * r;
            for b in 0..3 {
                m[a][b] += j[a] * j[b];
            }
        }
    }
    for k in 0..3 {
        m[k][k] += lambda;
    }
    let delta = solve3(m, [-g[0], -g[1], -g[2]]);
    let candidate = [at[0] + delta[0], at[1] + delta[1], at[2] + delta[2]];
    Proposal { candidate: point(candidate), cost: s(cost(rows, candidate)), length: s(norm(delta)) }
}

fn kernel(query: Query) -> Reply {
    match query {
        Query::Distance { model, rssi } => Reply::Value(s(distance_of(&model, rssi))),
        Query::Weight { distance } => Reply::Value(s(1.0 / (f(distance) * f(distance) + EPSILON))),
        Query::Planar { anchors } => Reply::Planar(planar(&rows(anchors))),
        Query::Root { value } => Reply::Value(s(f(value).sqrt())),
        Query::Normal { anchors } => Reply::Solved(normal(&rows(anchors))),
        Query::Centroid { anchors } => Reply::Position(point(centroid(&rows(anchors)))),
        Query::Cost { anchors, at } => Reply::Value(s(cost(&rows(anchors), coords(at)))),
        Query::Refine { anchors, at, damping_exponent } => {
            Reply::Step(refine(&rows(anchors), coords(at), damping_exponent))
        }
        Query::Residual { anchors, at } => Reply::Value(s(residual(&rows(anchors), coords(at)))),
        Query::Confidence { error, reach } => Reply::Value(s(1.0 - f(error) / f(reach))),
        Query::Halve { value } => Reply::Value(s(f(value) * 0.5)),
    }
}

fn create_demo_beacons() -> BeaconSet {
    let mut beacons = BeaconSet::new();
    beacons.add_beacon(Beacon::new(
        "20:A7:16:5E:C5:D6".to_string(),
        "RFstar_C5D6".to_string(),
        s(764.0),
        s(216.0),
        s(63.0),
    ));
    beacons.add_beacon(Beacon::new(
        "20:A7:16:61:0C:F1".to_string(),
        "RFstar_0CF1".to_string(),
        s(0.0),
        s(152.0),
        s(157.0),
    ));
    beacons.add_beacon(Beacon::new(
        "20:A7:16:60:FB:FC".to_string(),
        "RFstar_FBFC".to_string(),
        s(309.0),
        s(748.0),
        s(63.0),
    ));
    beacons
}

fn create_demo_rssi_model() -> RSSIModel {
    RSSIModel::from_python_fit(s(-49.656), s(-43.284), s(4.328), DistanceUnit::Centimeter)
}

fn demo_signals() -> Vec<BeaconSignal> {
    vec![
        BeaconSignal::new("20:A7:16:5E:C5:D6".to_string(), -52),
        BeaconSignal::new("20:A7:16:61:0C:F1".to_string(), -77),
        BeaconSignal::new("20:A7:16:60:FB:FC".to_string(), -86),
    ]
}

fn demo_handler() -> PositioningHandler {
    PositioningHandler::new(create_demo_beacons(), create_demo_rssi_model())
}

fn usable(p: [f64; 3], d: f64) -> WeightedAnchor {
    WeightedAnchor { position: point(p), distance: s(d), weight: s(1.0 / (d * d + EPSILON)) }
}

#[test]
fn test_positioning_handler_creation() {
    let mut beacons = BeaconSet::new();
    beacons.add_beacon(Beacon::new(
        "B1".to_string(),
        "Beacon1".to_string(),
        s(0.0),
        s(0.0),
        s(100.0),
    ));
    let model = RSSIModel::log_distance(s(-50.0), s(-40.0), DistanceUnit::Centimeter);
    let handler = PositioningHandler::new(beacons, model);
    assert_eq!(handler.beacon_count(), 1);
}

#[test]
fn test_positioning_handler_request_validation() {
    let mut beacons = BeaconSet::new();
    beacons.add_beacon(Beacon::new(
        "B1".to_string(),
        "Beacon1".to_string(),
        s(0.0),
        s(0.0),
        s(100.0),
    ));
    let model = RSSIModel::log_distance(s(-50.0), s(-40.0), DistanceUnit::Centimeter);
    let handler = PositioningHandler::new(beacons, model);
    let request = LocationRequest::new(
        "client1".to_string(),
        vec![BeaconSignal::new("B1".to_string(), -50)],
    );
    let response = handler.handle_positioning_request(request, &kernel);
    assert_eq!(response.code, 400);
}

#[test]
fn test_positioning_handler_basic_workflow() {
    let handler = demo_handler();
    let request = LocationRequest::new("device_001".to_string(), demo_signals());
    let response = handler.handle_positioning_request(request, &kernel);
    assert_eq!(response.code, 200);
    assert_eq!(response.status, "success");
    assert!(response.result.is_some());
    let result = response.result.unwrap();
    println!("position: ({:.2}, {:.2}, {:.2})", f(result.x), f(result.y), f(result.z));
    println!("confidence: {:.1}%", f(result.confidence) * 100.0);
    println!("error: {:.2}", f(result.error));
}

#[test]
fn test_positioning_handler_with_options() {
    let handler = demo_handler();
    let mut request = LocationRequest::new("device_002".to_string(), demo_signals());
    request.options.algorithm = "least_squares".to_string();
    request.options.enable_kalman_filter = true;
    request.options.min_confidence = s(0.2);
    let response = handler.handle_positioning_request(request, &kernel);
    assert_eq!(response.code, 200);
    assert!(response.result.is_some());
}

#[test]
fn test_positioning_handler_invalid_request() {
    let handler = demo_handler();
    let request = LocationRequest::new(
        "device_003".to_string(),
        vec![BeaconSignal::new("20:A7:16:5E:C5:D6".to_string(), -52)],
    );
    let response = handler.handle_positioning_request(request, &kernel);
    assert_eq!(response.code, 400);
    assert_eq!(response.status, "bad_request");
    assert!(response.error_details.is_some());
}

#[test]
fn test_positioning_handler_multiple_requests() {
    let handler = demo_handler();
    let requests = vec![
        LocationRequest::new("client_1".to_string(), demo_signals()),
        LocationRequest::new(
            "client_2".to_string(),
            vec![
                BeaconSignal::new("20:A7:16:5E:C5:D6".to_string(), -48),
                BeaconSignal::new("20:A7:16:61:0C:F1".to_string(), -70),
                BeaconSignal::new("20:A7:16:60:FB:FC".to_string(), -80),
            ],
        ),
    ];
    for request in requests {
        let response = handler.handle_positioning_request(request, &kernel);
        assert_eq!(response.code, 200);
        assert!(response.result.is_some());
    }
}

#[test]
fn test_request_with_timestamps() {
    let handler = demo_handler();
    let now: u64 = 1_700_000_000_000;
    let mut request = LocationRequest::new(
        "device_time".to_string(),
        demo_signals().into_iter().map(|signal| signal.with_timestamp(now)).collect(),
    );
    request.request_timestamp_ms = Some(now);
    let response = handler.handle_positioning_request(request, &kernel);
    assert_eq!(response.code, 200);
    assert_eq!(response.result.unwrap().timestamp_ms, Some(now));
}

#[test]
fn test_request_with_beacon_names() {
    let handler = demo_handler();
    let request = LocationRequest::new(
        "device_named".to_string(),
        vec![
            BeaconSignal::new("20:A7:16:5E:C5:D6".to_string(), -52)
                .with_name("RFstar_C5D6".to_string()),
            BeaconSignal::new("20:A7:16:61:0C:F1".to_string(), -77)
                .with_name("RFstar_0CF1".to_string()),
            BeaconSignal::new("20:A7:16:60:FB:FC".to_string(), -86)
                .with_name("RFstar_FBFC".to_string()),
        ],
    );
    let response = handler.handle_positioning_request(request, &kernel);
    assert_eq!(response.code, 200);
    assert!(response.result.is_some());
}

#[test]
fn test_algorithm_selection() {
    let handler = demo_handler();
    let algorithms = vec!["basic", "weighted", "least_squares", "auto"];
    for algo in algorithms {
        let mut request = LocationRequest::new(format!("device_{}", algo), demo_signals());
        request.options.algorithm = algo.to_string();
        let response = handler.handle_positioning_request(request, &kernel);
        assert_eq!(response.code, 200, "Algorithm {} failed", algo);
        assert!(response.result.is_some());
    }
}

#[test]
fn auto_runs_weighted_on_three_beacons() {
    let handler = demo_handler();
    let request = LocationRequest::new("demo".to_string(), demo_signals());
    let response = handler.handle_at(request, &kernel, 7);
    assert_eq!(response.code, 200);
    assert_eq!(response.client_id, Some("demo".to_string()));
    assert_eq!(response.response_timestamp_ms, Some(7));
    let result = response.result.unwrap();
    assert_eq!(result.beacon_count, 3);
    assert_eq!(result.algorithm, "weighted");
    assert_eq!(result.timestamp_ms, Some(7));
    assert!(f(result.x).is_finite() && f(result.y).is_finite() && f(result.z).is_finite());
    assert!(f(result.confidence) > 0.0 && f(result.confidence) <= 1.0);
    assert!(f(result.error) >= 0.0);
}

#[test]
fn least_squares_succeeds_on_three_beacons() {
    let handler = demo_handler();
    let mut request = LocationRequest::new("demo".to_string(), demo_signals());
    request.options.algorithm = "least_squares".to_string();
    let response = handler.handle_at(request, &kernel, 7);
    assert_eq!(response.code, 200);
    let result = response.result.unwrap();
    assert_eq!(result.algorithm, "least_squares");
    assert_eq!(result.beacon_count, 3);
    assert!((f(result.x) - 638.59).abs() < 0.5);
    assert!((f(result.y) - 196.90).abs() < 0.5);
    assert!((f(result.z) - 79.27).abs() < 0.5);
    assert!((f(result.confidence) - 0.9176).abs() < 1e-3);
}

#[test]
fn a_single_reading_has_too_few_signals() {
    let request = LocationRequest::new(
        "demo".to_string(),
        vec![BeaconSignal::new("20:A7:16:5E:C5:D6".to_string(), -52)],
    );
    match PositioningHandler::accept(&request) {
        Err(Failure { kind, .. }) => assert_eq!(kind, FailureKind::TooFewSignals),
        Ok(_) => panic!("a single reading was accepted"),
    }
    let response = demo_handler().handle_at(request, &kernel, 1);
    assert_eq!(response.code, 400);
    assert_eq!(response.error_details, Some("至少需要 3 个信标信号".to_string()));
    assert_eq!(response.client_id, None);
}

#[test]
fn an_unknown_algorithm_is_a_bad_option() {
    let mut request = LocationRequest::new("demo".to_string(), demo_signals());
    request.options.algorithm = "fancy".to_string();
    match PositioningHandler::accept(&request) {
        Err(failure) => {
            assert_eq!(failure.kind, FailureKind::BadOption);
            assert_eq!(failure.reason, "不支持的算法: fancy");
        }
        Ok(_) => panic!("an unknown algorithm was accepted"),
    }
    let response = demo_handler().handle_at(request, &kernel, 1);
    assert_eq!(response.code, 400);
    assert_eq!(response.status, "bad_request");
}

#[test]
fn a_high_demand_fails_with_the_confidence_reached() {
    let handler = demo_handler();
    let mut request = LocationRequest::new("demo".to_string(), demo_signals());
    request.options.min_confidence = s(0.99);
    let response = handler.handle_at(request, &kernel, 1);
    assert_eq!(response.code, 420);
    assert_eq!(response.status, "positioning_failed");
    assert_eq!(response.client_id, Some("demo".to_string()));
    assert!(response.result.is_none());
    assert_eq!(response.error_details, Some("置信度 70.3% 低于要求 99.0%".to_string()));
}

#[test]
fn a_request_without_a_client_is_invalid_input() {
    let request = LocationRequest::new(String::new(), demo_signals());
    match PositioningHandler::accept(&request) {
        Err(failure) => {
            assert_eq!(failure.kind, FailureKind::InvalidInput);
            assert_eq!(failure.reason, "client_id 不能为空");
            assert!(failure.confidence.is_none());
        }
        Ok(_) => panic!("a request without a client was accepted"),
    }
    assert_eq!(FailureKind::InvalidInput.response_status().as_u16(), 400);
    assert_eq!(FailureKind::TooFewSignals.response_status().as_u16(), 400);
    assert_eq!(FailureKind::BadOption.response_status().as_u16(), 400);
    assert_eq!(FailureKind::NotComputable.response_status().as_u16(), 420);
    assert_eq!(FailureKind::LowConfidence.response_status().as_u16(), 420);
    let mut positive = LocationRequest::new("c".to_string(), demo_signals());
    positive.signals[1].rssi = 4;
    let response = demo_handler().handle_at(positive, &kernel, 2);
    assert_eq!(response.code, 400);
    assert_eq!(response.error_details, Some("信号 1 的 RSSI 应为负数".to_string()));
    assert_eq!(PositioningHandler::accept(&LocationRequest::new("c".to_string(), demo_signals())).ok(), Some(Algorithm::Auto));
}

fn cube(scale: f64, shift: [f64; 3]) -> Vec<WeightedAnchor> {
    let target = [0.5, 0.5, 0.5];
    [[0.0, 0.0, 0.0], [1.0, 0.0, 0.0], [0.0, 1.0, 0.0], [0.0, 0.0, 1.0]]
        .iter()
        .map(|p| {
            let d = norm(sub(target, *p)) * 1.05;
            usable(
                [p[0] * scale + shift[0], p[1] * scale + shift[1], p[2] * scale + shift[2]],
                d * scale,
            )
        })
        .collect()
}

#[test]
fn translating_the_anchors_translates_the_result() {
    let shift = [10.0, -20.0, 30.0];
    for method in [Method::Basic, Method::Weighted, Method::LeastSquares] {
        let here = blunav::algorithms::solver::solve(method, &cube(1.0, [0.0; 3]), &kernel).unwrap();
        let there = blunav::algorithms::solver::solve(method, &cube(1.0, shift), &kernel).unwrap();
        assert!((f(there.x) - f(here.x) - shift[0]).abs() < 1e-3, "{method:?}");
        assert!((f(there.y) - f(here.y) - shift[1]).abs() < 1e-3, "{method:?}");
        if method == Method::Basic {
            assert_eq!(f(there.z), f(here.z));
        } else {
            assert!((f(there.z) - f(here.z) - shift[2]).abs() < 1e-3, "{method:?}");
            assert!((f(there.error) - f(here.error)).abs() < 1e-6, "{method:?}");
        }
    }
}

#[test]
fn scaling_anchors_and_distances_scales_the_result() {
    let k = 100.0;
    for method in [Method::Basic, Method::Weighted, Method::LeastSquares] {
        let small = blunav::algorithms::solver::solve(method, &cube(1.0, [0.0; 3]), &kernel).unwrap();
        let large = blunav::algorithms::solver::solve(method, &cube(k, [0.0; 3]), &kernel).unwrap();
        assert!((f(large.x) - k * f(small.x)).abs() < 0.05, "{method:?}");
        assert!((f(large.y) - k * f(small.y)).abs() < 0.05, "{method:?}");
        assert!((f(large.z) - k * f(small.z)).abs() < 0.05, "{method:?}");
        assert!((f(large.error) - k * f(small.error)).abs() < 0.05, "{method:?}");
        assert!((f(large.confidence) - f(small.confidence)).abs() < 1e-3, "{method:?}");
    }
}

#[test]
fn judge_carries_the_confidence_reached() {
    let estimate = blunav::algorithms::PositionEstimate {
        x: s(1.0),
        y: s(2.0),
        z: s(3.0),
        confidence: s(0.5),
        error: s(4.0),
        method: Method::Weighted,
        beacon_count: 3,
    };
    match PositioningHandler::judge(s(0.75), Some(estimate)) {
        Err(failure) => {
            assert_eq!(failure.kind, FailureKind::LowConfidence);
            assert_eq!(failure.confidence.map(f), Some(0.5));
            assert_eq!(failure.reason, "置信度 50.0% 低于要求 75.0%");
        }
        Ok(_) => panic!("a confidence below the demand was let through"),
    }
    assert!(PositioningHandler::judge(s(0.5), Some(estimate)).is_ok());
    match PositioningHandler::judge(s(0.0), None) {
        Err(failure) => assert_eq!(failure.kind, FailureKind::NotComputable),
        Ok(_) => panic!("no outcome was let through"),
    }
    let broken = blunav::algorithms::PositionEstimate { confidence: s(1.5), ..estimate };
    match PositioningHandler::judge(s(0.0), Some(broken)) {
        Err(failure) => assert_eq!(failure.kind, FailureKind::NotComputable),
        Ok(_) => panic!("a confidence above one was let through"),
    }
    let nan = blunav::algorithms::PositionEstimate { x: s(f64::NAN), ..estimate };
    assert!(PositioningHandler::judge(s(0.0), Some(nan)).is_err());
}

#[test]
fn collinear_anchors_defeat_the_linear_methods_but_not_least_squares() {
    let target = [1.0, 1.0, 0.0];
    let anchors: Vec<WeightedAnchor> = [[0.0, 0.0, 0.0], [2.0, 0.0, 0.0], [4.0, 0.0, 0.0]]
        .iter()
        .map(|p| usable(*p, norm(sub(target, *p))))
        .collect();
    assert!(blunav::algorithms::solver::solve(Method::Basic, &anchors, &kernel).is_none());
    assert!(blunav::algorithms::solver::solve(Method::Weighted, &anchors, &kernel).is_none());
    let found = blunav::algorithms::solver::solve(Method::LeastSquares, &anchors, &kernel).unwrap();
    assert!(f(found.x).is_finite() && f(found.y).is_finite() && f(found.z).is_finite());
    assert_eq!(found.method, Method::LeastSquares);
    assert_eq!(found.beacon_count, 3);
}

#[test]
fn distances_that_fall_short_flatten_and_halve_the_basic_result() {
    let anchors = vec![
        usable([0.0, 0.0, 0.0], 1.0),
        usable([10.0, 0.0, 0.0], 1.0),
        usable([0.0, 10.0, 0.0], 1.0),
    ];
    let found = blunav::algorithms::solver::solve(Method::Basic, &anchors, &kernel).unwrap();
    assert_eq!(f(found.z), 0.0);
    assert!((f(found.x) - 5.0).abs() < 1e-9 && (f(found.y) - 5.0).abs() < 1e-9);
    let uniform: Vec<Row> = rows(&anchors).iter().map(|r| (r.0, r.1, r.2)).collect();
    let whole = (1.0 - residual(&uniform, [5.0, 5.0, 0.0]) / 1.0).clamp(0.0, 1.0);
    assert_eq!(f(found.confidence), whole * 0.5);
}

#[test]
fn consistent_distances_raise_the_basic_result() {
    let target = [1.0, 1.0, 2.0];
    let anchors: Vec<WeightedAnchor> = [[0.0, 0.0, 0.0], [4.0, 0.0, 0.0], [0.0, 4.0, 0.0]]
        .iter()
        .map(|p| usable(*p, norm(sub(target, *p))))
        .collect();
    let found = blunav::algorithms::solver::solve(Method::Basic, &anchors, &kernel).unwrap();
    assert!((f(found.x) - 1.0).abs() < 1e-9);
    assert!((f(found.y) - 1.0).abs() < 1e-9);
    assert!((f(found.z) - 2.0).abs() < 1e-9);
    assert!(f(found.confidence) > 0.99);
    assert_eq!(found.beacon_count, 3);
}

#[test]
fn cube_corners_give_the_centre_by_least_squares() {
    let target = [0.5, 0.5, 0.5];
    let anchors: Vec<WeightedAnchor> =
        [[0.0, 0.0, 0.0], [1.0, 0.0, 0.0], [0.0, 1.0, 0.0], [0.0, 0.0, 1.0]]
            .iter()
            .map(|p| usable(*p, norm(sub(target, *p))))
            .collect();
    let found = blunav::algorithms::solver::solve(Method::LeastSquares, &anchors, &kernel).unwrap();
    assert!((f(found.x) - 0.5).abs() < 1e-3);
    assert!((f(found.y) - 0.5).abs() < 1e-3);
    assert!((f(found.z) - 0.5).abs() < 1e-3);
    assert!(f(found.confidence) >= 0.99);
    assert_eq!(found.beacon_count, 4);
    let weighted = blunav::algorithms::solver::solve(Method::Weighted, &anchors, &kernel).unwrap();
    assert!((f(weighted.x) - 0.5).abs() < 1e-3);
    assert!((f(weighted.y) - 0.5).abs() < 1e-3);
    assert!((f(weighted.z) - 0.5).abs() < 1e-3);
}

#[test]
fn auto_is_least_squares_on_four_and_weighted_on_three() {
    let mut beacons = create_demo_beacons();
    beacons.add_beacon(Beacon::new("D".to_string(), "".to_string(), s(400.0), s(400.0), s(300.0)));
    let model = create_demo_rssi_model();
    let mut four = SignalReadings::new();
    four.add("20:A7:16:5E:C5:D6".to_string(), -52);
    four.add("20:A7:16:61:0C:F1".to_string(), -77);
    four.add("unknown".to_string(), -60);
    four.add("20:A7:16:60:FB:FC".to_string(), -86);
    four.add("D".to_string(), -70);
    let auto = LocationAlgorithm::trilateration_auto(&beacons, &four, &model, &kernel).unwrap();
    let direct =
        LocationAlgorithm::trilateration_least_squares(&beacons, &four, &model, &kernel).unwrap();
    assert_eq!(auto.method, Method::LeastSquares);
    assert_eq!(auto.beacon_count, 4);
    assert_eq!(
        (auto.x.to_bits(), auto.y.to_bits(), auto.z.to_bits()),
        (direct.x.to_bits(), direct.y.to_bits(), direct.z.to_bits())
    );
    assert_eq!(auto.confidence.to_bits(), direct.confidence.to_bits());
    let mut three = SignalReadings::new();
    three.add("20:A7:16:5E:C5:D6".to_string(), -52);
    three.add("20:A7:16:61:0C:F1".to_string(), -77);
    three.add("20:A7:16:60:FB:FC".to_string(), -86);
    let auto = LocationAlgorithm::trilateration_auto(&beacons, &three, &model, &kernel).unwrap();
    let direct =
        LocationAlgorithm::trilateration_weighted(&beacons, &three, &model, &kernel).unwrap();
    assert_eq!(auto.method, Method::Weighted);
    assert_eq!(
        (auto.x.to_bits(), auto.y.to_bits(), auto.z.to_bits(), auto.error.to_bits()),
        (direct.x.to_bits(), direct.y.to_bits(), direct.z.to_bits(), direct.error.to_bits())
    );
    let again = LocationAlgorithm::trilateration_auto(&beacons, &three, &model, &kernel).unwrap();
    assert_eq!(auto.x.to_bits(), again.x.to_bits());
    assert_eq!(auto.confidence.to_bits(), again.confidence.to_bits());
}

#[test]
fn unknown_beacons_are_dropped_before_counting() {
    let beacons = create_demo_beacons();
    let model = create_demo_rssi_model();
    let mut readings = SignalReadings::new();
    readings.add("20:A7:16:5E:C5:D6".to_string(), -52);
    readings.add("nobody".to_string(), -60);
    readings.add("20:A7:16:61:0C:F1".to_string(), -77);
    assert!(LocationAlgorithm::plan(Algorithm::Auto, &beacons, &readings).is_none());
    assert!(LocationAlgorithm::run(Algorithm::Basic, &beacons, &readings, &model, &kernel).is_none());
    let request = LocationRequest::new(
        "c".to_string(),
        vec![
            BeaconSignal::new("20:A7:16:5E:C5:D6".to_string(), -52),
            BeaconSignal::new("nobody".to_string(), -60),
            BeaconSignal::new("20:A7:16:61:0C:F1".to_string(), -77),
        ],
    );
    let response = PositioningHandler::new(beacons, model).handle_at(request, &kernel, 3);
    assert_eq!(response.code, 420);
    assert_eq!(response.error_details, Some("无法执行定位计算".to_string()));
    assert_eq!(response.client_id, Some("c".to_string()));
}

#[test]
fn plan_keeps_the_order_of_the_readings() {
    let beacons = create_demo_beacons();
    let mut readings = SignalReadings::new();
    readings.add("20:A7:16:60:FB:FC".to_string(), -86);
    readings.add("20:A7:16:5E:C5:D6".to_string(), -52);
    readings.add("20:A7:16:61:0C:F1".to_string(), -77);
    let plan = LocationAlgorithm::plan(Algorithm::Basic, &beacons, &readings).unwrap();
    assert_eq!(plan.method, Method::Basic);
    let seen: Vec<(String, i16)> =
        plan.sightings.iter().map(|x| (x.beacon.name.clone(), x.rssi)).collect();
    assert_eq!(
        seen,
        vec![
            ("RFstar_FBFC".to_string(), -86),
            ("RFstar_C5D6".to_string(), -52),
            ("RFstar_0CF1".to_string(), -77)
        ]
    );
}

#[test]
fn model_curve_matches_its_calibration_points() {
    let fit = create_demo_rssi_model();
    assert!((distance_of(&fit, -52) - 113.280).abs() < 1e-3);
    assert!((distance_of(&fit, -77) - 428.287).abs() < 1e-3);
    assert!((distance_of(&fit, -86) - 691.295).abs() < 1e-3);
    let log = RSSIModel::log_distance(s(-50.0), s(4.0), DistanceUnit::Meter);
    assert!((distance_of(&log, -70) - 10f64.sqrt()).abs() < 1e-12);
    assert_eq!(distance_of(&log, -50), 1.0);
}

#[test]
fn a_kernel_that_answers_nonsense_gets_no_position() {
    let nonsense = |_q: Query| Reply::Value(s(f64::NAN));
    let handler = demo_handler();
    let request = LocationRequest::new("c".to_string(), demo_signals());
    let response = handler.handle_at(request, &nonsense, 3);
    assert_eq!(response.code, 420);
    let wrong_kind = |_q: Query| Reply::Position(point([0.0, 0.0, 0.0]));
    let request = LocationRequest::new("c".to_string(), demo_signals());
    assert_eq!(handler.handle_at(request, &wrong_kind, 3).code, 420);
}
