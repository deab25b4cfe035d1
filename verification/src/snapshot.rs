//! Energy snapshots, and what the FoxESS cloud's telemetry payload says
//! about the inverter.
use vstd::prelude::*;
use vstd::string::StringExecFns;
use crate::decimal::{milli_of_text, parse_milli};
use crate::json::{JsonValue, json_field, json_first, json_i64, json_items, json_text};

verus! {

/// One reading of the system. Power is in whole watts (positive battery power
/// charges the battery), the battery state of charge in thousandths of a percent.
pub struct EnergySnapshot {
    pub timestamp: String,
    pub solar_w: i64,
    pub home_w: i64,
    pub battery_soc_milli: i64,
    pub battery_w: i64,
    pub grid_import_w: i64,
    pub grid_export_w: i64,
}

pub struct SnapshotView {
    pub timestamp: Seq<char>,
    pub solar_w: i64,
    pub home_w: i64,
    pub battery_soc_milli: i64,
    pub battery_w: i64,
    pub grid_import_w: i64,
    pub grid_export_w: i64,
}

impl View for EnergySnapshot {
    type V = SnapshotView;

    open spec fn view(&self) -> SnapshotView {
        SnapshotView {
            timestamp: self.timestamp@,
            solar_w: self.solar_w,
            home_w: self.home_w,
            battery_soc_milli: self.battery_soc_milli,
            battery_w: self.battery_w,
            grid_import_w: self.grid_import_w,
            grid_export_w: self.grid_export_w,
        }
    }
}

impl Clone for EnergySnapshot {
    fn clone(&self) -> (r: Self)
        ensures
            r@ == self@,
    {
        EnergySnapshot {
            timestamp: self.timestamp.clone(),
            solar_w: self.solar_w,
            home_w: self.home_w,
            battery_soc_milli: self.battery_soc_milli,
            battery_w: self.battery_w,
            grid_import_w: self.grid_import_w,
            grid_export_w: self.grid_export_w,
        }
    }
}

// ---------------------------------------------------------------------------
// Telemetry
// ---------------------------------------------------------------------------

/// The value of a telemetry reading in thousandths of its unit: a number, or
/// text holding a decimal number.
pub open spec fn reading_milli(v: JsonValue) -> Option<i64> {
    match v {
        JsonValue::Number(t) => milli_of_text(t@),
        JsonValue::Str(t) => milli_of_text(t@),
        _ => None,
    }
}

/// The reading of the first item whose `variable` is `name`; 0 when there is
/// no such item or its `value` is not a readable number.
pub open spec fn telemetry_reading(data: Seq<JsonValue>, name: Seq<char>) -> i64
    decreases data.len(),
{
    if data.len() == 0 {
        0
    } else if json_text(json_field(data[0], "variable"@)) == Some(name) {
        match reading_milli(json_field(data[0], "value"@)) {
            Some(v) => v,
            None => 0,
        }
    } else {
        telemetry_reading(data.drop_first(), name)
    }
}

fn reading_of(v: Option<&JsonValue>, Ghost(field): Ghost<JsonValue>) -> (r: Option<i64>)
    requires
        match v {
            Some(x) => *x == field,
            None => field == JsonValue::Null,
        },
    ensures
        r == reading_milli(field),
{
    match v {
        Some(JsonValue::Number(t)) => parse_milli(t.as_str()),
        Some(JsonValue::Str(t)) => parse_milli(t.as_str()),
        _ => None,
    }
}

/// The reading of the telemetry item named `variable_name`, in thousandths of
/// its unit (watts for power); 0 when it is missing or unreadable.
pub fn telemetry_value(data: &Vec<JsonValue>, variable_name: &str) -> (r: i64)
    ensures
        r == telemetry_reading(data@, variable_name@),
{
    let mut i: usize = 0;
    assert(data@.skip(0) =~= data@);
    while i < data.len()
        invariant
            i <= data.len(),
            telemetry_reading(data@, variable_name@) == telemetry_reading(
                data@.skip(i as int),
                variable_name@,
            ),
        decreases data.len() - i,
    {
        let item = &data[i];
        let ghost rest = data@.skip(i as int);
        assert(rest[0] == data@[i as int]);
        assert(rest.drop_first() =~= data@.skip(i + 1));
        let name = match item.get("variable") {
            Some(v) => v.as_str(),
            None => None,
        };
        let matches = match name {
            Some(n) => crate::text::str_eq(n, variable_name),
            None => false,
        };
        if matches {
            let ghost field = json_field(*item, "value"@);
            return match reading_of(item.get("value"), Ghost(field)) {
                Some(v) => v,
                None => 0,
            };
        }
        i += 1;
    }
    0
}

pub open spec fn saturating_sum(a: i64, b: i64) -> i64 {
    if a + b > i64::MAX {
        i64::MAX
    } else if a + b < i64::MIN {
        i64::MIN
    } else {
        (a + b) as i64
    }
}

/// `a + b`, held at the bounds of `i64`.
pub fn saturating_add(a: i64, b: i64) -> (r: i64)
    ensures
        r == saturating_sum(a, b),
{
    let s: i128 = a as i128 + b as i128;
    if s > i64::MAX as i128 {
        i64::MAX
    } else if s < i64::MIN as i128 {
        i64::MIN
    } else {
        s as i64
    }
}

// ---------------------------------------------------------------------------
// The payload
// ---------------------------------------------------------------------------

/// Why a payload holds no snapshot.
#[derive(PartialEq, Eq, Structural, Debug, Clone, Copy)]
pub enum PayloadError {
    /// `errno` is not the integer 0.
    Rejected,
    /// `result` is not an array with an item.
    NoDevice,
    /// The device's `datas` is not an array.
    NoTelemetry,
}

pub open spec fn device_time(device: JsonValue) -> Seq<char> {
    match json_text(json_field(device, "time"@)) {
        Some(t) => t,
        None => "Unknown time"@,
    }
}

/// The snapshot that a device's telemetry list describes. Solar generation
/// is the sum of the panels' power and the inverter's generation power.
pub open spec fn snapshot_from_telemetry(timestamp: Seq<char>, data: Seq<JsonValue>) -> SnapshotView {
    SnapshotView {
        timestamp,
        solar_w: saturating_sum(
            telemetry_reading(data, "pvPower"@),
            telemetry_reading(data, "generationPower"@),
        ),
        home_w: telemetry_reading(data, "loadsPower"@),
        battery_soc_milli: telemetry_reading(data, "SoC"@),
        battery_w: telemetry_reading(data, "batPower"@),
        grid_import_w: telemetry_reading(data, "gridConsumptionPower"@),
        grid_export_w: telemetry_reading(data, "feedinPower"@),
    }
}

/// What a payload of the real-time query says: a snapshot of its first device,
/// or why there is none.
pub open spec fn payload_outcome(payload: JsonValue) -> Result<SnapshotView, PayloadError> {
    if json_i64(json_field(payload, "errno"@)) != Some(0i64) {
        Err(PayloadError::Rejected)
    } else {
        match json_first(json_field(payload, "result"@)) {
            None => Err(PayloadError::NoDevice),
            Some(device) => match json_items(json_field(device, "datas"@)) {
                None => Err(PayloadError::NoTelemetry),
                Some(data) => Ok(snapshot_from_telemetry(device_time(device), data)),
            },
        }
    }
}

/// Reads the snapshot out of the payload of the FoxESS real-time query.
pub fn snapshot_from_payload(payload: &JsonValue) -> (r: Result<EnergySnapshot, PayloadError>)
    ensures
        match r {
            Ok(s) => payload_outcome(*payload) == Ok::<SnapshotView, PayloadError>(s@),
            Err(e) => payload_outcome(*payload) == Err::<SnapshotView, PayloadError>(e),
        },
{
    let errno = match payload.get("errno") {
        Some(v) => v.as_i64(),
        None => None,
    };
    match errno {
        Some(0) => {},
        _ => {
            return Err(PayloadError::Rejected);
        },
    }
    let devices = match payload.get("result") {
        Some(v) => v.as_array(),
        None => None,
    };
    let device = match devices {
        Some(items) => {
            if items.len() == 0 {
                return Err(PayloadError::NoDevice);
            }
            &items[0]
        },
        None => {
            return Err(PayloadError::NoDevice);
        },
    };
    let data = match device.get("datas") {
        Some(v) => v.as_array(),
        None => None,
    };
    let data = match data {
        Some(d) => d,
        None => {
            return Err(PayloadError::NoTelemetry);
        },
    };
    let time_text = match device.get("time") {
        Some(v) => v.as_str(),
        None => None,
    };
    let timestamp = match time_text {
        Some(t) => String::from_str(t),
        None => String::from_str("Unknown time"),
    };
    let pv = telemetry_value(data, "pvPower");
    let generation = telemetry_value(data, "generationPower");
    Ok(
        EnergySnapshot {
            timestamp,
            solar_w: saturating_add(pv, generation),
            home_w: telemetry_value(data, "loadsPower"),
            battery_soc_milli: telemetry_value(data, "SoC"),
            battery_w: telemetry_value(data, "batPower"),
            grid_import_w: telemetry_value(data, "gridConsumptionPower"),
            grid_export_w: telemetry_value(data, "feedinPower"),
        },
    )
}

impl PayloadError {
    /// The message the backend logs for the error; `payload_text` is the
    /// payload written as JSON, quoted when the request was rejected.
    pub fn message(&self, payload_text: &str) -> (m: String)
        ensures
            m@ == match *self {
                PayloadError::Rejected => "FoxESS rejected the request: "@ + payload_text@,
                PayloadError::NoDevice => "FoxESS returned no device data"@,
                PayloadError::NoTelemetry => "FoxESS returned no telemetry values"@,
            },
    {
        match self {
            PayloadError::Rejected => {
                let mut m = String::from_str("FoxESS rejected the request: ");
                m.append(payload_text);
                m
            },
            PayloadError::NoDevice => String::from_str("FoxESS returned no device data"),
            PayloadError::NoTelemetry => String::from_str("FoxESS returned no telemetry values"),
        }
    }
}


// ---------------------------------------------------------------------------
// Laws of the telemetry lookup
// ---------------------------------------------------------------------------

pub open spec fn names_variable(item: JsonValue, name: Seq<char>) -> bool {
    json_text(json_field(item, "variable"@)) == Some(name)
}

/// The items of `data` whose `variable` is `name`, in order.
pub open spec fn matching_items(data: Seq<JsonValue>, name: Seq<char>) -> Seq<JsonValue>
    decreases data.len(),
{
    if data.len() == 0 {
        Seq::empty()
    } else if names_variable(data[0], name) {
        seq![data[0]] + matching_items(data.drop_first(), name)
    } else {
        matching_items(data.drop_first(), name)
    }
}

/// Items for other variables never change a reading: the reading of `name`
/// from `data` is its reading from the items named `name` alone.
pub proof fn lemma_telemetry_only_matching(data: Seq<JsonValue>, name: Seq<char>)
    ensures
        telemetry_reading(data, name) == telemetry_reading(matching_items(data, name), name),
    decreases data.len(),
{
    if data.len() > 0 {
        lemma_telemetry_only_matching(data.drop_first(), name);
        if names_variable(data[0], name) {
            let m = seq![data[0]] + matching_items(data.drop_first(), name);
            assert(m[0] == data[0]);
        }
    }
}

/// Once `data` holds an item named `name`, items added after it never change
/// the reading of `name`.
pub proof fn lemma_telemetry_append(data: Seq<JsonValue>, more: Seq<JsonValue>, name: Seq<char>)
    requires
        exists|i: int| 0 <= i < data.len() && names_variable(#[trigger] data[i], name),
    ensures
        telemetry_reading(data + more, name) == telemetry_reading(data, name),
    decreases data.len(),
{
    let all = data + more;
    assert(all[0] == data[0]);
    if !names_variable(data[0], name) {
        let i = choose|i: int| 0 <= i < data.len() && names_variable(#[trigger] data[i], name);
        let rest = data.drop_first();
        assert(rest[i - 1] == data[i]);
        lemma_telemetry_append(rest, more, name);
        assert(all.drop_first() =~= rest + more);
    }
}

} // verus!
