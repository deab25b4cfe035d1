use foxess_dashboard::backend::{
    health_status, RefreshLog, SnapshotCache, REFRESH_INTERVAL_SECONDS, WEBSITE_REFRESH_SECONDS,
};
use foxess_dashboard::foxess::{foxess_request, request_signature};
use foxess_dashboard::snapshot::EnergySnapshot;

fn snapshot(timestamp: &str, solar_w: i64) -> EnergySnapshot {
    EnergySnapshot {
        timestamp: timestamp.to_string(),
        solar_w,
        home_w: 1300,
        battery_soc_milli: 78000,
        battery_w: -1400,
        grid_import_w: 0,
        grid_export_w: 2900,
    }
}

#[test]
fn cache_starts_waiting() {
    let cache = SnapshotCache::new();
    let s = cache.current();
    assert_eq!(s.timestamp, "Waiting for first FoxESS update");
    assert_eq!(
        (s.solar_w, s.home_w, s.battery_soc_milli, s.battery_w, s.grid_import_w, s.grid_export_w),
        (0, 0, 0, 0, 0, 0)
    );
}

#[test]
fn cache_serves_last_fetched_snapshot() {
    let mut cache = SnapshotCache::new();
    match cache.record(Ok(snapshot("10:00", 4200))) {
        RefreshLog::Updated(line) => assert_eq!(line, "FoxESS updated: 10:00"),
        RefreshLog::Failed(_) => panic!("expected an update"),
    }
    assert_eq!(cache.current().timestamp, "10:00");
    assert_eq!(cache.current().solar_w, 4200);
    match cache.record(Err("network down".to_string())) {
        RefreshLog::Failed(line) => assert_eq!(line, "FoxESS refresh failed: network down"),
        RefreshLog::Updated(_) => panic!("expected a failure"),
    }
    assert_eq!(cache.current().timestamp, "10:00");
    assert_eq!(cache.current().solar_w, 4200);
    cache.record(Ok(snapshot("10:01", 3800)));
    assert_eq!(cache.current().timestamp, "10:01");
    assert_eq!(cache.current().solar_w, 3800);
}

#[test]
fn health_reports_intervals() {
    let h = health_status();
    assert_eq!(h.status, "ok");
    assert_eq!(h.refresh_interval_seconds, 60);
    assert_eq!(h.website_refresh_seconds, 10);
    assert_eq!(REFRESH_INTERVAL_SECONDS, 60);
    assert_eq!(WEBSITE_REFRESH_SECONDS, 10);
}

#[test]
fn signature_is_md5_hex_of_path_key_and_time() {
    let sig = request_signature("/op/v1/device/real/query", "KEY123", "1700000000123");
    assert_eq!(sig, "091668a847a5f06e1ae617bc5fd78369");
    assert_eq!(request_signature("hello world", "", "").len(), 32);
}

#[test]
fn request_carries_signed_headers() {
    let r = foxess_request("KEY123", "H1234567890", 1700000000123);
    assert_eq!(r.inverter_serial, "H1234567890");
    assert_eq!(r.url, "https://www.foxesscloud.com/op/v1/device/real/query");
    let headers: Vec<(&str, &str)> =
        r.headers.iter().map(|(k, v)| (k.as_str(), v.as_str())).collect();
    assert_eq!(
        headers,
        vec![
            ("Token", "KEY123"),
            ("Timestamp", "1700000000123"),
            ("Signature", "091668a847a5f06e1ae617bc5fd78369"),
            ("Lang", "en"),
            ("Content-Type", "application/json"),
            ("Timezone", "Australia/Sydney"),
        ]
    );
}
