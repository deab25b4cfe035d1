use foxess_dashboard::snapshot::EnergySnapshot;
use foxess_dashboard::view::{
    footer_status, flow_path_class, format_power, live_view, AdviceKind, FetchOutcome, MonitorState,
};

fn snapshot(
    solar_w: i64,
    home_w: i64,
    battery_soc_milli: i64,
    battery_w: i64,
    grid_import_w: i64,
    grid_export_w: i64,
) -> EnergySnapshot {
    EnergySnapshot {
        timestamp: "2024-05-01 10:00".to_string(),
        solar_w,
        home_w,
        battery_soc_milli,
        battery_w,
        grid_import_w,
        grid_export_w,
    }
}

#[test]
fn format_power_switches_to_kilowatts_at_one() {
    assert_eq!(format_power(640, ""), "640 W");
    assert_eq!(format_power(999, ""), "999 W");
    assert_eq!(format_power(-300, "in"), "-300 W in");
    assert_eq!(format_power(0, "in"), "0 W in");
    assert_eq!(format_power(1000, ""), "1.00 kW");
    assert_eq!(format_power(1250, "out"), "1.25 kW out");
    assert_eq!(format_power(-1000, ""), "-1.00 kW");
    assert_eq!(format_power(4205, ""), "4.20 kW");
    assert_eq!(format_power(1125, ""), "1.12 kW");
    assert_eq!(format_power(4215, ""), "4.22 kW");
}

#[test]
fn flow_path_class_by_power() {
    assert_eq!(flow_path_class(4200, "solar-flow"), "flow-line solar-flow flow-active flow-fast");
    assert_eq!(flow_path_class(3000, "home-flow"), "flow-line home-flow flow-active");
    assert_eq!(flow_path_class(3001, "grid-export-flow"), "flow-line grid-export-flow flow-active flow-fast");
    assert_eq!(flow_path_class(51, "grid-import-flow"), "flow-line grid-import-flow flow-active");
    assert_eq!(flow_path_class(50, "grid-import-flow"), "flow-line grid-import-flow");
    assert_eq!(flow_path_class(-5000, "battery-charge-flow"), "flow-line battery-charge-flow");
    assert_eq!(
        flow_path_class(100, "battery-discharge-flow"),
        "flow-line battery-discharge-flow flow-active"
    );
    assert_eq!(flow_path_class(5000, "wind-flow"), "flow-line");
}

#[test]
fn exporting_surplus_advises_using_electricity() {
    let v = live_view(&snapshot(4200, 1300, 78000, -1400, 0, 2900));
    assert_eq!(v.advice, AdviceKind::UseElectricity);
    assert_eq!(v.advice.css_class(), "advice advice-use");
    assert_eq!(v.advice_message, "2.90 kW of spare generation is going to the grid.");
    assert_eq!(v.grid_value, "2.90 kW out");
    assert_eq!(v.grid_state, "Exporting");
    assert_eq!(v.grid_node_class, "flow-node flow-grid-node flow-grid-out");
    assert_eq!(v.battery_state, "Discharging");
    assert_eq!(v.battery_percent, "78");
    assert_eq!(v.solar_power, "4.20 kW");
    assert_eq!(v.home_power, "1.30 kW");
    assert_eq!(v.solar_flow_class, "flow-line solar-flow flow-active flow-fast");
    assert_eq!(v.home_flow_class, "flow-line home-flow flow-active");
    assert_eq!(v.grid_flow_class, "flow-line grid-export-flow flow-active");
    assert_eq!(v.battery_flow_class, "flow-line battery-discharge-flow flow-active");
}

#[test]
fn low_battery_advice_comes_before_import() {
    let v = live_view(&snapshot(0, 2000, 24400, 0, 2000, 0));
    assert_eq!(v.advice, AdviceKind::BatteryReserveLow);
    assert_eq!(v.advice.css_class(), "advice advice-avoid");
    assert_eq!(
        v.advice_message,
        "Battery reserve is low at 24%. Keep normal use going, but postpone optional high-power jobs."
    );
    assert_eq!(v.battery_state, "Ready");
    assert_eq!(v.battery_flow_class, "flow-line battery-charge-flow");
    assert_eq!(v.grid_value, "2.00 kW in");
    assert_eq!(v.grid_state, "Importing");
    assert_eq!(v.grid_flow_class, "flow-line grid-import-flow flow-active");
}

#[test]
fn importing_advises_reducing_use() {
    let v = live_view(&snapshot(0, 800, 60000, 3500, 640, 0));
    assert_eq!(v.advice, AdviceKind::ReduceUse);
    assert_eq!(v.advice.css_class(), "advice advice-reduce");
    assert_eq!(v.advice_message, "The home is drawing 640 W from the grid.");
    assert_eq!(v.battery_state, "Charging");
    assert_eq!(v.battery_flow_class, "flow-line battery-charge-flow flow-active flow-fast");
    assert_eq!(v.grid_value, "640 W in");
}

#[test]
fn quiet_system_says_normal_use() {
    let v = live_view(&snapshot(300, 300, 50000, 0, 500, 50));
    assert_eq!(v.advice, AdviceKind::NormalUse);
    assert_eq!(v.advice.css_class(), "advice advice-reduce");
    assert_eq!(v.advice_message, "There is no large spare solar supply right now.");
    assert_eq!(v.grid_value, "500 W in");
    assert_eq!(v.grid_flow_class, "flow-line grid-import-flow flow-active");
    let extreme = live_view(&snapshot(0, 0, 50000, i64::MIN, 0, 0));
    assert_eq!(extreme.battery_flow_class, "flow-line battery-discharge-flow flow-active flow-fast");
}

#[test]
fn monitor_counts_snapshots_and_keeps_last_on_errors() {
    let mut m = MonitorState::new();
    assert!(m.snapshot.is_none());
    assert_eq!(m.refresh_count, 0);
    assert_eq!(
        m.connecting_message(),
        "Waiting for the first cached reading from the local FoxESS backend."
    );
    m.apply(FetchOutcome::Unreachable("connection refused".to_string()));
    assert_eq!(m.connection_error.as_deref(), Some("Backend unavailable: connection refused"));
    assert_eq!(m.connecting_message(), "Backend unavailable: connection refused");
    assert_eq!(m.refresh_count, 0);
    m.apply(FetchOutcome::Received(snapshot(1, 2, 3, 4, 5, 6)));
    assert!(m.connection_error.is_none());
    assert_eq!(m.refresh_count, 1);
    assert_eq!(m.snapshot.as_ref().map(|s| s.solar_w), Some(1));
    m.apply(FetchOutcome::Unreadable("bad json".to_string()));
    assert_eq!(m.connection_error.as_deref(), Some("Could not read backend data: bad json"));
    assert_eq!(m.snapshot.as_ref().map(|s| s.solar_w), Some(1));
    assert_eq!(m.refresh_count, 1);
    m.apply(FetchOutcome::Received(snapshot(7, 2, 3, 4, 5, 6)));
    assert_eq!(m.refresh_count, 2);
    assert_eq!(m.snapshot.as_ref().map(|s| s.solar_w), Some(7));
}

#[test]
fn battery_percent_ties_round_to_even() {
    let low = live_view(&snapshot(0, 0, 24500, 0, 0, 0));
    assert_eq!(low.advice, AdviceKind::BatteryReserveLow);
    assert_eq!(
        low.advice_message,
        "Battery reserve is low at 24%. Keep normal use going, but postpone optional high-power jobs."
    );
    assert_eq!(low.battery_percent, "24");
    let full = live_view(&snapshot(0, 0, 78500, 0, 0, 0));
    assert_eq!(full.battery_percent, "78");
}

#[test]
fn advice_texts_per_kind() {
    assert_eq!(AdviceKind::UseElectricity.heading(), "☀ USE ELECTRICITY");
    assert_eq!(AdviceKind::BatteryReserveLow.heading(), "🔋 BATTERY RESERVE LOW");
    assert_eq!(AdviceKind::ReduceUse.heading(), "⚖ REDUCE ELECTRICITY USE");
    assert_eq!(AdviceKind::NormalUse.heading(), "⚖ NORMAL USE IS FINE");
    assert_eq!(AdviceKind::UseElectricity.examples(), "Good for: dishwasher, laundry, EV charging");
    assert_eq!(
        AdviceKind::BatteryReserveLow.examples(),
        "Consider delaying: clothes dryer, dishwasher, or oven use"
    );
    assert_eq!(
        AdviceKind::ReduceUse.examples(),
        "Consider delaying: clothes dryer, dishwasher, or oven use"
    );
    assert_eq!(
        AdviceKind::NormalUse.examples(),
        "Normal use is fine; save flexible high-power jobs for a solar surplus."
    );
    assert_eq!(MonitorState::connecting_heading(), "Connecting to your energy system…");
}

#[test]
fn footer_shows_time_and_count() {
    assert_eq!(
        footer_status("2024-05-01 10:00", 12),
        "FoxESS data: 2024-05-01 10:00 • Browser check #12"
    );
    assert_eq!(footer_status("", 0), "FoxESS data:  • Browser check #0");
}

#[test]
fn more_power_only_adds_flow_classes() {
    let powers = [i64::MIN, -1, 0, 50, 51, 2999, 3000, 3001, i64::MAX];
    for route in ["solar-flow", "battery-discharge-flow", "grid-export-flow", "other"] {
        for w in powers.windows(2) {
            let low = flow_path_class(w[0], route);
            let high = flow_path_class(w[1], route);
            assert!(high.starts_with(low), "{low} / {high}");
        }
    }
}
