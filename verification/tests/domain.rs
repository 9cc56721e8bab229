//! The inventory's devices, locations and store.

use blunav::api::dto::{ApiResponse, BeaconDto, ErrorResponse};
use blunav::api::handlers::{get_all_beacons, health_check, show_all};
use blunav::config::{AppConfig, ServerConfig};
use blunav::domain::{Beacon, Location};
use blunav::error::AppError;
use blunav::infrastructure::{AppState, BeaconRepository};
use blunav::scalar::Scalar;

fn s(v: f64) -> Scalar {
    Scalar::from_bits(v.to_bits())
}

fn create_test_beacon() -> Beacon {
    let loc = Location::new(s(100.0), s(200.0), s(150.0), "1F".to_string(), "area_001".to_string());
    Beacon::new(
        "beacon_001".to_string(),
        "FDA50693-A4E2-4FB1-AFCF-C6EB07647825".to_string(),
        10000,
        12345,
        loc,
        -59,
        1000,
        "active".to_string(),
    )
}

fn validation_message(r: Result<(), AppError>) -> String {
    match r {
        Err(AppError::ValidationError(m)) => m,
        other => panic!("{:?}", other),
    }
}

#[test]
fn test_beacon_creation() {
    let beacon = create_test_beacon();
    assert_eq!(beacon.id, "beacon_001");
    assert!(beacon.is_active());
}

#[test]
fn test_beacon_validation() {
    let beacon = create_test_beacon();
    assert!(beacon.validate().is_ok());
    let loc = Location::new(s(100.0), s(200.0), s(150.0), "1F".to_string(), "area_001".to_string());
    let invalid_beacon = Beacon::new(
        "".to_string(),
        "FDA50693-A4E2-4FB1-AFCF-C6EB07647825".to_string(),
        10000,
        12345,
        loc,
        -59,
        1000,
        "active".to_string(),
    );
    assert!(invalid_beacon.validate().is_err());
}

#[test]
fn test_location_creation() {
    let loc = Location::new(s(100.0), s(200.0), s(150.0), "1F".to_string(), "area_001".to_string());
    assert_eq!(loc.x.to_bits(), 100.0f64.to_bits());
    assert_eq!(loc.y.to_bits(), 200.0f64.to_bits());
    assert_eq!(loc.z.to_bits(), 150.0f64.to_bits());
}

#[test]
fn test_location_validation() {
    let loc = Location::new(s(100.0), s(200.0), s(150.0), "1F".to_string(), "area_001".to_string());
    assert!(loc.validate().is_ok());
    let invalid_loc =
        Location::new(s(100.0), s(200.0), s(150.0), "".to_string(), "area_001".to_string());
    assert!(invalid_loc.validate().is_err());
}

#[test]
fn test_find_all() {
    let repo = BeaconRepository::new();
    let beacons = repo.find_all().unwrap();
    assert_eq!(beacons.len(), 4);
}

#[test]
fn test_find_by_id() {
    let repo = BeaconRepository::new();
    let beacon = repo.find_by_id("beacon_001").unwrap();
    assert!(beacon.is_some());
    assert_eq!(beacon.unwrap().id, "beacon_001");
}

#[test]
fn test_count() {
    let repo = BeaconRepository::new();
    let count = repo.count().unwrap();
    assert_eq!(count, 4);
}

#[test]
fn activity_ignores_the_case_of_letters() {
    let mut beacon = create_test_beacon();
    for status in ["ACTIVE", "Active", "aCtIvE"] {
        beacon.status = status.to_string();
        assert!(beacon.is_active(), "{status}");
    }
    for status in ["inactive", "", "active ", "actıve"] {
        beacon.status = status.to_string();
        assert!(!beacon.is_active(), "{status}");
    }
    assert!(Beacon::reads_active(&"active".to_string()));
    assert!(!Beacon::reads_active(&"ACTIVE".to_string()));
}

#[test]
fn device_faults_come_in_order() {
    let mut b = create_test_beacon();
    b.location.area_id = String::new();
    assert_eq!(validation_message(b.validate()), "Area ID cannot be empty");
    b.location.floor = String::new();
    assert_eq!(validation_message(b.validate()), "Floor cannot be empty");
    b.interval = 0;
    assert_eq!(validation_message(b.validate()), "Interval must be greater than 0");
    b.power = 1;
    assert_eq!(validation_message(b.validate()), "Power must be between -100 and 0 dBm");
    b.power = -101;
    assert_eq!(validation_message(b.validate()), "Power must be between -100 and 0 dBm");
    b.uuid = String::new();
    assert_eq!(validation_message(b.validate()), "UUID cannot be empty");
    b.id = String::new();
    assert_eq!(validation_message(b.validate()), "Beacon ID cannot be empty");
    let mut edge = create_test_beacon();
    edge.power = -100;
    edge.interval = 1;
    assert!(edge.validate().is_ok());
    edge.power = 0;
    assert!(edge.validate().is_ok());
}

#[test]
fn the_store_starts_with_the_stock_devices() {
    let repo = BeaconRepository::new();
    let all = repo.find_all().unwrap();
    let seen: Vec<(String, i32, u64, u64, String)> = all
        .iter()
        .map(|b| {
            (
                b.id.clone(),
                b.minor,
                b.location.x.to_bits(),
                b.location.y.to_bits(),
                b.location.area_id.clone(),
            )
        })
        .collect();
    let want = |id: &str, minor: i32, x: f64, y: f64, area: &str| {
        (id.to_string(), minor, x.to_bits(), y.to_bits(), area.to_string())
    };
    assert_eq!(
        seen,
        vec![
            want("beacon_001", 12345, 100.0, 200.0, "area_001"),
            want("beacon_002", 12346, 500.0, 200.0, "area_001"),
            want("beacon_003", 12347, 300.0, 600.0, "area_002"),
            want("beacon_004", 12348, 100.0, 800.0, "area_002"),
        ]
    );
    for b in &all {
        assert_eq!(b.uuid, "FDA50693-A4E2-4FB1-AFCF-C6EB07647825");
        assert_eq!((b.major, b.power, b.interval), (10000, -59, 1000));
        assert_eq!(b.location.z.to_bits(), 150.0f64.to_bits());
        assert_eq!(b.location.floor, "1F");
        assert!(b.is_active() && b.validate().is_ok());
    }
    assert!(repo.find_by_id("beacon_005").unwrap().is_none());
    assert_eq!(BeaconRepository::default().count().unwrap(), 4);
    assert_eq!(AppState::new().beacon_repository().count().unwrap(), 4);
    assert_eq!(AppState::default().beacon_repository().find_all().unwrap().len(), 4);
}

#[test]
fn create_update_delete() {
    let mut repo = BeaconRepository::new();
    let mut fresh = create_test_beacon();
    fresh.id = "beacon_009".to_string();
    fresh.minor = 9;

    let mut invalid = create_test_beacon();
    invalid.uuid = String::new();
    assert!(matches!(repo.create(invalid), Err(AppError::ValidationError(_))));
    assert_eq!(repo.count().unwrap(), 4);

    match repo.update(fresh.clone()) {
        Err(AppError::NotFound(m)) => assert_eq!(m, "Beacon with id beacon_009 not found"),
        other => panic!("{:?}", other),
    }
    assert_eq!(repo.count().unwrap(), 4);

    assert_eq!(repo.create(fresh.clone()).unwrap().minor, 9);
    assert_eq!(repo.count().unwrap(), 5);
    assert_eq!(repo.find_by_id("beacon_009").unwrap().unwrap().minor, 9);

    fresh.minor = 10;
    assert_eq!(repo.update(fresh.clone()).unwrap().minor, 10);
    assert_eq!(repo.count().unwrap(), 5);
    assert_eq!(repo.find_by_id("beacon_009").unwrap().unwrap().minor, 10);

    let mut again = create_test_beacon();
    again.minor = 77;
    assert!(repo.create(again).is_ok());
    assert_eq!(repo.count().unwrap(), 5);
    let order: Vec<String> = repo.find_all().unwrap().iter().map(|b| b.id.clone()).collect();
    assert_eq!(order, ["beacon_001", "beacon_002", "beacon_003", "beacon_004", "beacon_009"]);
    assert_eq!(repo.find_all().unwrap()[0].minor, 77);

    assert!(repo.delete("beacon_002").is_ok());
    assert_eq!(repo.count().unwrap(), 4);
    assert!(repo.find_by_id("beacon_002").unwrap().is_none());
    match repo.delete("beacon_002") {
        Err(AppError::NotFound(m)) => assert_eq!(m, "Beacon with id beacon_002 not found"),
        other => panic!("{:?}", other),
    }
    let order: Vec<String> = repo.find_all().unwrap().iter().map(|b| b.id.clone()).collect();
    assert_eq!(order, ["beacon_001", "beacon_003", "beacon_004", "beacon_009"]);
}

#[test]
fn errors_have_a_status_a_body_and_a_line() {
    let all = [
        (AppError::BusinessError("m".to_string()), 400, "Business Error: m"),
        (AppError::ValidationError("m".to_string()), 400, "Validation Error: m"),
        (AppError::NotFound("m".to_string()), 404, "Not Found: m"),
        (AppError::DatabaseError("m".to_string()), 500, "Database Error: m"),
        (AppError::InternalError("m".to_string()), 500, "Internal Error: m"),
    ];
    for (error, status, line) in all {
        assert_eq!(error.status_code(), status);
        assert_eq!(error.describe(), line);
        let body = error.into_response();
        assert_eq!(body.status, status);
        assert!(!body.if_success);
        assert_eq!(body.message, "m");
    }
}

#[test]
fn bodies() {
    let ok = ApiResponse::success("done".to_string(), 7u8);
    assert_eq!((ok.status, ok.if_success, ok.message.as_str(), ok.data), (200, true, "done", Some(7)));
    let bad = ErrorResponse::new(404, "gone".to_string());
    assert_eq!((bad.status, bad.if_success, bad.message.as_str()), (404, false, "gone"));
    let health = health_check();
    assert_eq!(health.status, "healthy");
    assert_eq!(health.message, "Server is running");
}

#[test]
fn a_device_is_shown_as_it_is() {
    let beacon = create_test_beacon();
    let by_ref = BeaconDto::from(&beacon);
    assert_eq!(by_ref.id, "beacon_001");
    assert_eq!(by_ref.uuid, "FDA50693-A4E2-4FB1-AFCF-C6EB07647825");
    assert_eq!((by_ref.major, by_ref.minor, by_ref.power, by_ref.interval), (10000, 12345, -59, 1000));
    assert_eq!(by_ref.location.x.to_bits(), 100.0f64.to_bits());
    assert_eq!(by_ref.location.y.to_bits(), 200.0f64.to_bits());
    assert_eq!(by_ref.location.z.to_bits(), 150.0f64.to_bits());
    assert_eq!(by_ref.location.floor, "1F");
    assert_eq!(by_ref.location.area_id, "area_001");
    assert_eq!(by_ref.status, "active");
    let by_value: BeaconDto = beacon.into();
    assert_eq!(by_value.id, by_ref.id);
    assert_eq!(by_value.location.area_id, by_ref.location.area_id);
    assert_eq!(by_value.clone().minor, 12345);
}

#[test]
fn the_listing_shows_the_whole_store_in_order() {
    let repo = BeaconRepository::new();
    let body = get_all_beacons(&repo).unwrap();
    assert_eq!(body.status, 200);
    assert!(body.if_success);
    assert_eq!(body.message, "获取所有beacon设备成功");
    let ids: Vec<String> = body.data.unwrap().iter().map(|d| d.id.clone()).collect();
    assert_eq!(ids, ["beacon_001", "beacon_002", "beacon_003", "beacon_004"]);
    assert!(show_all(&Vec::new()).is_empty());
}

#[test]
fn the_default_configuration_listens_on_the_loopback() {
    let config = AppConfig::new();
    assert_eq!(config.server.host, "127.0.0.1");
    assert_eq!(config.server.port, 3000);
    assert_eq!(config.log_level, "info");
    assert_eq!(config.addr(), "127.0.0.1:3000");
    let other = AppConfig {
        server: ServerConfig { host: "0.0.0.0".to_string(), port: 65535 },
        log_level: "debug".to_string(),
    };
    assert_eq!(other.addr(), "0.0.0.0:65535");
    let zero = AppConfig {
        server: ServerConfig { host: String::new(), port: 0 },
        log_level: String::new(),
    };
    assert_eq!(zero.addr(), ":0");
    assert_eq!(ServerConfig::default().port, 3000);
    assert_eq!(AppConfig::default().addr(), "127.0.0.1:3000");
}
