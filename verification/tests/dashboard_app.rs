use foxess_dashboard::dashboard::{metric_text, DashboardApp, SeriesKind};
use foxess_dashboard::snapshot::EnergySnapshot;

fn sample(solar_w: i64, home_w: i64) -> EnergySnapshot {
    EnergySnapshot {
        timestamp: "Sample data".to_string(),
        solar_w,
        home_w,
        battery_soc_milli: 78000,
        battery_w: -1400,
        grid_import_w: 0,
        grid_export_w: 2900,
    }
}

fn app() -> DashboardApp {
    DashboardApp {
        current: sample(4200, 1300),
        history: vec![sample(4200, 1300), sample(3800, 1600), sample(5100, 1400), sample(4600, 1800)],
    }
}

#[test]
fn metric_text_has_two_decimals_and_unit() {
    assert_eq!(metric_text(4200, "kW"), "4.20 kW");
    assert_eq!(metric_text(78000, "%"), "78.00 %");
    assert_eq!(metric_text(-1400, "kW"), "-1.40 kW");
    assert_eq!(metric_text(0, "kW"), "0.00 kW");
    assert_eq!(metric_text(1125, "kW"), "1.12 kW");
}

#[test]
fn dashboard_metrics_in_order() {
    let a = app();
    assert_eq!(a.updated_label(), "Updated: Sample data");
    let m: Vec<(String, String)> = a.metrics().into_iter().map(|m| (m.label, m.value)).collect();
    let expected: Vec<(String, String)> = vec![
        ("Solar", "4.20 kW"),
        ("Home", "1.30 kW"),
        ("Battery SoC", "78.00 %"),
        ("Battery power", "-1.40 kW"),
        ("Grid import", "0.00 kW"),
        ("Grid export", "2.90 kW"),
    ]
    .into_iter()
    .map(|(a, b)| (a.to_string(), b.to_string()))
    .collect();
    assert_eq!(m, expected);
}

#[test]
fn dashboard_series_follow_history() {
    let a = app();
    let solar = a.series(SeriesKind::Solar);
    assert_eq!(solar.name, "Solar");
    assert_eq!(solar.values, vec![4200, 3800, 5100, 4600]);
    let home = a.series(SeriesKind::Home);
    assert_eq!(home.name, "Home");
    assert_eq!(home.values, vec![1300, 1600, 1400, 1800]);
    let battery = a.series(SeriesKind::Battery);
    assert_eq!(battery.name, "Battery");
    assert_eq!(battery.values, vec![-1400, -1400, -1400, -1400]);
    let grid = a.series(SeriesKind::GridImport);
    assert_eq!(grid.name, "Grid import");
    assert_eq!(grid.values, vec![0, 0, 0, 0]);
    let empty = DashboardApp { current: sample(0, 0), history: vec![] };
    assert!(empty.series(SeriesKind::Solar).values.is_empty());
}
