use foxess_dashboard::text::str_eq;
use foxess_dashboard::json::JsonValue;
use foxess_dashboard::snapshot::{
    saturating_add, snapshot_from_payload, telemetry_value, PayloadError,
};

fn text(s: &str) -> JsonValue {
    JsonValue::Str(s.to_string())
}

fn number(s: &str) -> JsonValue {
    JsonValue::Number(s.to_string())
}

fn object(members: Vec<(&str, JsonValue)>) -> JsonValue {
    JsonValue::Object(members.into_iter().map(|(k, v)| (k.to_string(), v)).collect())
}

fn reading(variable: &str, value: JsonValue) -> JsonValue {
    object(vec![("variable", text(variable)), ("unit", text("kW")), ("value", value)])
}

fn sample_data() -> Vec<JsonValue> {
    vec![
        reading("pvPower", number("3.9")),
        reading("generationPower", number("0.3")),
        reading("loadsPower", number("1.3")),
        reading("SoC", number("78")),
        reading("batPower", number("-1.4")),
        reading("gridConsumptionPower", number("0.0")),
        reading("feedinPower", text("2.9")),
    ]
}

fn payload(errno: JsonValue, result: JsonValue) -> JsonValue {
    object(vec![("errno", errno), ("msg", text("success")), ("result", result)])
}

fn device(time: Option<&str>, datas: JsonValue) -> JsonValue {
    let mut members = vec![("deviceSN", text("SN1")), ("datas", datas)];
    if let Some(t) = time {
        members.push(("time", text(t)));
    }
    object(members)
}

#[test]
fn payload_gives_snapshot_of_first_device() {
    let second = device(Some("later"), JsonValue::Array(vec![reading("SoC", number("1"))]));
    let p = payload(
        number("0"),
        JsonValue::Array(vec![
            device(Some("2024-05-01 10:00:00 AEST+1000"), JsonValue::Array(sample_data())),
            second,
        ]),
    );
    let s = snapshot_from_payload(&p).unwrap();
    assert_eq!(s.timestamp, "2024-05-01 10:00:00 AEST+1000");
    assert_eq!(s.solar_w, 4200);
    assert_eq!(s.home_w, 1300);
    assert_eq!(s.battery_soc_milli, 78000);
    assert_eq!(s.battery_w, -1400);
    assert_eq!(s.grid_import_w, 0);
    assert_eq!(s.grid_export_w, 2900);
}

#[test]
fn payload_without_time_reads_unknown_time() {
    let p = payload(number("0"), JsonValue::Array(vec![device(None, JsonValue::Array(vec![]))]));
    let s = snapshot_from_payload(&p).unwrap();
    assert_eq!(s.timestamp, "Unknown time");
    assert_eq!(s.solar_w, 0);
    assert_eq!(s.battery_soc_milli, 0);
}

#[test]
fn payload_with_nonzero_errno_is_rejected() {
    let devices = JsonValue::Array(vec![device(Some("t"), JsonValue::Array(sample_data()))]);
    for errno in [number("40256"), number("0.0"), text("0"), JsonValue::Null, number("-1")] {
        let p = payload(errno, devices_clone(&devices));
        assert_eq!(snapshot_from_payload(&p).err(), Some(PayloadError::Rejected));
    }
    let missing = object(vec![("result", devices)]);
    assert_eq!(snapshot_from_payload(&missing).err(), Some(PayloadError::Rejected));
    assert_eq!(snapshot_from_payload(&JsonValue::Null).err(), Some(PayloadError::Rejected));
}

fn devices_clone(v: &JsonValue) -> JsonValue {
    match v {
        JsonValue::Array(items) => JsonValue::Array(items.iter().map(devices_clone).collect()),
        JsonValue::Object(members) => JsonValue::Object(
            members.iter().map(|(k, v)| (k.clone(), devices_clone(v))).collect(),
        ),
        JsonValue::Number(t) => JsonValue::Number(t.clone()),
        JsonValue::Str(t) => JsonValue::Str(t.clone()),
        JsonValue::Bool(b) => JsonValue::Bool(*b),
        JsonValue::Null => JsonValue::Null,
    }
}

#[test]
fn payload_without_device_is_no_device() {
    let empty = payload(number("0"), JsonValue::Array(vec![]));
    assert_eq!(snapshot_from_payload(&empty).err(), Some(PayloadError::NoDevice));
    let not_array = payload(number("0"), object(vec![]));
    assert_eq!(snapshot_from_payload(&not_array).err(), Some(PayloadError::NoDevice));
    let missing = object(vec![("errno", number("0"))]);
    assert_eq!(snapshot_from_payload(&missing).err(), Some(PayloadError::NoDevice));
}

#[test]
fn payload_without_telemetry_list_is_no_telemetry() {
    let p = payload(number("0"), JsonValue::Array(vec![device(Some("t"), text("none"))]));
    assert_eq!(snapshot_from_payload(&p).err(), Some(PayloadError::NoTelemetry));
}

#[test]
fn telemetry_value_takes_first_match_or_zero() {
    let data = vec![
        reading("SoC", text("not a number")),
        reading("SoC", number("50")),
        reading("batPower", text("1.25")),
        object(vec![("value", number("9"))]),
        reading("loadsPower", JsonValue::Bool(true)),
    ];
    assert_eq!(telemetry_value(&data, "SoC"), 0);
    assert_eq!(telemetry_value(&data, "batPower"), 1250);
    assert_eq!(telemetry_value(&data, "loadsPower"), 0);
    assert_eq!(telemetry_value(&data, "pvPower"), 0);
    assert_eq!(telemetry_value(&data, "soc"), 0);
}

#[test]
fn solar_sums_saturate() {
    assert_eq!(saturating_add(3900, 300), 4200);
    assert_eq!(saturating_add(i64::MAX, 1), i64::MAX);
    assert_eq!(saturating_add(i64::MIN, -1), i64::MIN);
}

#[test]
fn json_get_finds_members() {
    let v = object(vec![("a", number("1")), ("b", text("x"))]);
    assert!(matches!(v.get("a"), Some(JsonValue::Number(t)) if t == "1"));
    assert_eq!(v.get("b").and_then(|x| x.as_str()), Some("x"));
    assert!(v.get("c").is_none());
    assert!(JsonValue::Null.get("a").is_none());
    assert_eq!(v.get("a").and_then(|x| x.as_i64()), Some(1));
    assert!(v.as_array().is_none());
}

#[test]
fn payload_error_messages() {
    assert_eq!(
        PayloadError::Rejected.message("{\"errno\":40256}"),
        "FoxESS rejected the request: {\"errno\":40256}"
    );
    assert_eq!(PayloadError::NoDevice.message(""), "FoxESS returned no device data");
    assert_eq!(PayloadError::NoTelemetry.message(""), "FoxESS returned no telemetry values");
}

#[test]
fn str_eq_compares_characters() {
    assert!(str_eq("SoC", "SoC"));
    assert!(!str_eq("SoC", "soc"));
    assert!(!str_eq("SoC", "SoC "));
    assert!(str_eq("", ""));
    assert!(str_eq("⚡é", "⚡é"));
    assert!(!str_eq("⚡é", "⚡e"));
}

#[test]
fn telemetry_ignores_other_names_and_later_items() {
    let data = vec![
        reading("pvPower", number("1")),
        reading("SoC", number("55.5")),
        reading("pvPower", number("2")),
    ];
    let only = vec![reading("SoC", number("55.5"))];
    assert_eq!(telemetry_value(&data, "SoC"), telemetry_value(&only, "SoC"));
    assert_eq!(telemetry_value(&data, "SoC"), 55500);
    let mut longer = data;
    longer.push(reading("SoC", number("10")));
    assert_eq!(telemetry_value(&longer, "SoC"), 55500);
    assert_eq!(telemetry_value(&longer, "pvPower"), 1000);
}
