//! What the library's decisions mean, stated over their inputs: the advice,
//! the states and flow lines of the live page, the snapshot a payload gives,
//! and the dashboard's series. Each law is proved from the definitions that
//! the operations' contracts use.
use vstd::prelude::*;
use crate::dashboard::{metrics_of, series_name, series_reading, SeriesKind};
use crate::backend::waiting_snapshot;
use crate::decimal::{
    all_digits, digit_run, digit_value, digits_value, is_digit, parse_decimal, parts_milli, pow10,
    round_half_up, scaled_magnitude, decimal_milli, milli_of_text, DecimalParts,
};
use crate::foxess::{foxess_headers, md5_digest_of, real_query_path, request_signature_of, signature_text};
use crate::json::{integer_literal_value, member_value};
use vstd::utf8::encode_utf8;
use crate::format::{
    hex_digit, hex_lower, abs, decimal_digits, digit_char, fixed_digits, fixed_text, integer_text, minus_sign,
    round_half_even,
};
use vstd::arithmetic::div_mod::{lemma_fundamental_div_mod, lemma_fundamental_div_mod_converse};
use crate::json::{JsonValue, json_field, json_first, json_i64, json_items, json_text};
use crate::snapshot::{
    payload_outcome, reading_milli, saturating_sum, telemetry_reading, PayloadError, SnapshotView,
};
use crate::view::{
    advice_kind_of, advice_message_of, monitor_initial, monitor_step, FetchOutcome, MonitorState, battery_flow_class_of, battery_state_of, flow_class, grid_flow_class_of,
    grid_node_class_of, grid_state_of, grid_value_of, power_label, AdviceKind,
};

verus! {

// ---------------------------------------------------------------------------
// Advice
// ---------------------------------------------------------------------------

/// The page advises using electricity exactly when more than 500 W go to the
/// grid; otherwise a reserve under 25 % is reported; otherwise reducing use
/// is advised exactly when more than 500 W come from the grid. Solar power,
/// home load and battery power play no part.
pub proof fn law_advice(s: SnapshotView)
    ensures
        (advice_kind_of(s) == AdviceKind::UseElectricity) <==> s.grid_export_w > 500,
        (advice_kind_of(s) == AdviceKind::BatteryReserveLow) <==> (s.grid_export_w <= 500
            && s.battery_soc_milli < 25000),
        (advice_kind_of(s) == AdviceKind::ReduceUse) <==> (s.grid_export_w <= 500
            && s.battery_soc_milli >= 25000 && s.grid_import_w > 500),
        (advice_kind_of(s) == AdviceKind::NormalUse) <==> (s.grid_export_w <= 500
            && s.battery_soc_milli >= 25000 && s.grid_import_w <= 500),
{
}

/// Changing the solar power, the home load or the battery power of a
/// snapshot never changes the advice.
pub proof fn law_advice_ignores_generation_and_load(s: SnapshotView, t: SnapshotView)
    requires
        s.grid_export_w == t.grid_export_w,
        s.grid_import_w == t.grid_import_w,
        s.battery_soc_milli == t.battery_soc_milli,
    ensures
        advice_kind_of(s) == advice_kind_of(t),
{
}

// ---------------------------------------------------------------------------
// Grid and battery on the live page
// ---------------------------------------------------------------------------

/// The grid counts as exporting exactly when more than 50 W go to it: then it
/// shows the export power marked "out", else the import power marked "in".
/// The battery charges above 50 W and discharges below -50 W.
pub proof fn law_grid_and_battery_state(s: SnapshotView)
    ensures
        s.grid_export_w > 50 ==> grid_state_of(s) == "Exporting"@ && grid_value_of(s)
            == power_label(s.grid_export_w as int, "out"@) && grid_node_class_of(s)
            == "flow-node flow-grid-node flow-grid-out"@,
        s.grid_export_w <= 50 ==> grid_state_of(s) == "Importing"@ && grid_value_of(s)
            == power_label(s.grid_import_w as int, "in"@) && grid_node_class_of(s)
            == "flow-node flow-grid-node flow-grid-in"@,
        s.battery_w > 50 ==> battery_state_of(s) == "Charging"@,
        s.battery_w < -50 ==> battery_state_of(s) == "Discharging"@,
        -50 <= s.battery_w <= 50 ==> battery_state_of(s) == "Ready"@,
{
}

// ---------------------------------------------------------------------------
// Flow lines
// ---------------------------------------------------------------------------

pub open spec fn is_named_flow(route: Seq<char>) -> bool {
    ||| route == "solar-flow"@
    ||| route == "home-flow"@
    ||| route == "battery-charge-flow"@
    ||| route == "battery-discharge-flow"@
    ||| route == "grid-import-flow"@
    ||| route == "grid-export-flow"@
}

/// Every one of the six flows is animated the same way: above 3 kW its line
/// is active and fast, above 50 W active, otherwise plain. Anything else
/// gets a bare line.
pub proof fn law_flow_class(p: int, route: Seq<char>)
    ensures
        is_named_flow(route) && p > 3000 ==> flow_class(p, route) == "flow-line "@ + route
            + " flow-active flow-fast"@,
        is_named_flow(route) && 50 < p <= 3000 ==> flow_class(p, route) == "flow-line "@ + route
            + " flow-active"@,
        is_named_flow(route) && p <= 50 ==> flow_class(p, route) == "flow-line "@ + route,
        !is_named_flow(route) ==> flow_class(p, route) == "flow-line"@,
{
    reveal_strlit(" flow-active");
    reveal_strlit(" flow-fast");
    reveal_strlit(" flow-active flow-fast");
    let base = "flow-line "@ + route;
    assert(base + " flow-active"@ + " flow-fast"@ =~= base + " flow-active flow-fast"@);
    assert(base + " flow-active"@ + Seq::<char>::empty() =~= base + " flow-active"@);
    assert(base + Seq::<char>::empty() + Seq::<char>::empty() =~= base);
}

/// The grid line carries the larger of import and export, on the export
/// route when exporting (over 50 W) and on the import route otherwise. The
/// battery line carries the charging power on the charge route, the
/// discharge power on the discharge route, and nothing when idle.
pub proof fn law_live_flow_lines(s: SnapshotView)
    ensures
        grid_flow_class_of(s) == flow_class(
            if s.grid_import_w >= s.grid_export_w {
                s.grid_import_w as int
            } else {
                s.grid_export_w as int
            },
            if s.grid_export_w > 50 {
                "grid-export-flow"@
            } else {
                "grid-import-flow"@
            },
        ),
        s.battery_w > 50 ==> battery_flow_class_of(s) == flow_class(
            s.battery_w as int,
            "battery-charge-flow"@,
        ),
        s.battery_w < -50 ==> battery_flow_class_of(s) == flow_class(
            -(s.battery_w as int),
            "battery-discharge-flow"@,
        ),
        -50 <= s.battery_w <= 50 ==> battery_flow_class_of(s) == flow_class(
            0,
            "battery-charge-flow"@,
        ),
{
}

// ---------------------------------------------------------------------------
// The payload
// ---------------------------------------------------------------------------

/// A telemetry reading is taken from the first item whose `variable` is the
/// name asked for: its `value` read in thousandths, or 0 when that value is
/// no number.
pub proof fn law_telemetry_first(data: Seq<JsonValue>, name: Seq<char>, i: int)
    requires
        0 <= i < data.len(),
        json_text(json_field(data[i], "variable"@)) == Some(name),
        forall|j: int|
            0 <= j < i ==> json_text(json_field(#[trigger] data[j], "variable"@)) != Some(name),
    ensures
        telemetry_reading(data, name) == match reading_milli(json_field(data[i], "value"@)) {
            Some(v) => v,
            None => 0,
        },
    decreases i,
{
    if i > 0 {
        let rest = data.drop_first();
        assert(rest[i - 1] == data[i]);
        assert forall|j: int| 0 <= j < i - 1 implies json_text(
            json_field(#[trigger] rest[j], "variable"@),
        ) != Some(name) by {
            assert(rest[j] == data[j + 1]);
        }
        assert(json_text(json_field(data[0], "variable"@)) != Some(name));
        law_telemetry_first(rest, name, i - 1);
    }
}

/// A name that no item carries reads as 0.
pub proof fn law_telemetry_absent(data: Seq<JsonValue>, name: Seq<char>)
    requires
        forall|j: int|
            0 <= j < data.len() ==> json_text(json_field(#[trigger] data[j], "variable"@)) != Some(
                name,
            ),
    ensures
        telemetry_reading(data, name) == 0,
    decreases data.len(),
{
    if data.len() > 0 {
        let rest = data.drop_first();
        assert forall|j: int| 0 <= j < rest.len() implies json_text(
            json_field(#[trigger] rest[j], "variable"@),
        ) != Some(name) by {
            assert(rest[j] == data[j + 1]);
        }
        assert(json_text(json_field(data[0], "variable"@)) != Some(name));
        law_telemetry_absent(rest, name);
    }
}

/// An accepted payload gives the snapshot of its first device: its time (or
/// "Unknown time"), solar as the sum of `pvPower` and `generationPower`, and
/// home load, state of charge, battery power, grid import and grid export
/// from `loadsPower`, `SoC`, `batPower`, `gridConsumptionPower` and
/// `feedinPower`.
pub proof fn law_payload_accepted(payload: JsonValue, device: JsonValue, data: Seq<JsonValue>)
    requires
        json_i64(json_field(payload, "errno"@)) == Some(0i64),
        json_first(json_field(payload, "result"@)) == Some(device),
        json_items(json_field(device, "datas"@)) == Some(data),
    ensures
        payload_outcome(payload) is Ok,
        ({
            let v = payload_outcome(payload)->Ok_0;
            &&& v.timestamp == match json_text(json_field(device, "time"@)) {
                Some(t) => t,
                None => "Unknown time"@,
            }
            &&& v.solar_w == saturating_sum(
                telemetry_reading(data, "pvPower"@),
                telemetry_reading(data, "generationPower"@),
            )
            &&& v.home_w == telemetry_reading(data, "loadsPower"@)
            &&& v.battery_soc_milli == telemetry_reading(data, "SoC"@)
            &&& v.battery_w == telemetry_reading(data, "batPower"@)
            &&& v.grid_import_w == telemetry_reading(data, "gridConsumptionPower"@)
            &&& v.grid_export_w == telemetry_reading(data, "feedinPower"@)
        }),
{
}

/// A payload is rejected unless its `errno` is the integer 0; an accepted one
/// without a first device has no device, and one whose device has no
/// telemetry list has no telemetry.
pub proof fn law_payload_refused(payload: JsonValue)
    ensures
        json_i64(json_field(payload, "errno"@)) != Some(0i64) ==> payload_outcome(payload) == Err::<
            SnapshotView,
            PayloadError,
        >(PayloadError::Rejected),
        json_i64(json_field(payload, "errno"@)) == Some(0i64) && json_first(
            json_field(payload, "result"@),
        ) is None ==> payload_outcome(payload) == Err::<SnapshotView, PayloadError>(
            PayloadError::NoDevice,
        ),
        forall|device: JsonValue|
            json_i64(json_field(payload, "errno"@)) == Some(0i64) && json_first(
                json_field(payload, "result"@),
            ) == Some(device) && #[trigger] json_items(json_field(device, "datas"@)) is None
                ==> payload_outcome(payload) == Err::<SnapshotView, PayloadError>(
            PayloadError::NoTelemetry,
        ),
{
}

/// Solar generation is the sum of its two readings, held at the bounds of `i64`.
pub proof fn law_saturating_sum(a: i64, b: i64)
    ensures
        i64::MIN <= a + b <= i64::MAX ==> saturating_sum(a, b) == a + b,
        a + b > i64::MAX ==> saturating_sum(a, b) == i64::MAX,
        a + b < i64::MIN ==> saturating_sum(a, b) == i64::MIN,
{
}

// ---------------------------------------------------------------------------
// The desktop dashboard
// ---------------------------------------------------------------------------

/// Each plotted series is one reading of the snapshot, as it is, charging and
/// discharging alike: solar, home load, battery power and grid import.
pub proof fn law_series(s: SnapshotView)
    ensures
        series_reading(SeriesKind::Solar, s) == s.solar_w,
        series_reading(SeriesKind::Home, s) == s.home_w,
        series_reading(SeriesKind::Battery, s) == s.battery_w,
        series_reading(SeriesKind::GridImport, s) == s.grid_import_w,
        series_name(SeriesKind::Solar) == "Solar"@,
        series_name(SeriesKind::Home) == "Home"@,
        series_name(SeriesKind::Battery) == "Battery"@,
        series_name(SeriesKind::GridImport) == "Grid import"@,
{
}

/// A series plots the same quantity that the matching metric shows: the
/// Solar, Home, Battery power and Grid import metrics write, with two
/// decimals, the value of the Solar, Home, Battery and Grid import series.
pub proof fn law_series_match_metrics(s: SnapshotView)
    ensures
        metrics_of(s)[0] == ("Solar"@, fixed_text(series_reading(SeriesKind::Solar, s) as int, 2)
            + " "@ + "kW"@),
        metrics_of(s)[1] == ("Home"@, fixed_text(series_reading(SeriesKind::Home, s) as int, 2)
            + " "@ + "kW"@),
        metrics_of(s)[3] == ("Battery power"@, fixed_text(
            series_reading(SeriesKind::Battery, s) as int,
            2,
        ) + " "@ + "kW"@),
        metrics_of(s)[4] == ("Grid import"@, fixed_text(
            series_reading(SeriesKind::GridImport, s) as int,
            2,
        ) + " "@ + "kW"@),
        metrics_of(s)[2] == ("Battery SoC"@, fixed_text(s.battery_soc_milli as int, 2) + " "@
            + "%"@),
        metrics_of(s)[5] == ("Grid export"@, fixed_text(s.grid_export_w as int, 2) + " "@
            + "kW"@),
        metrics_of(s).len() == 6,
{
}


// ---------------------------------------------------------------------------
// Advice messages and power text
// ---------------------------------------------------------------------------

/// The advice message: the exported power and that it is spare generation;
/// the state of charge in whole percent; the imported power; or that
/// nothing calls for a change.
pub proof fn law_advice_message(s: SnapshotView)
    ensures
        s.grid_export_w > 500 ==> advice_message_of(s) == power_label(s.grid_export_w as int, ""@)
            + " of spare generation is going to the grid."@,
        s.grid_export_w <= 500 && s.battery_soc_milli < 25000 ==> advice_message_of(s)
            == "Battery reserve is low at "@ + fixed_text(s.battery_soc_milli as int, 0)
            + "%. Keep normal use going, but postpone optional high-power jobs."@,
        s.grid_export_w <= 500 && s.battery_soc_milli >= 25000 && s.grid_import_w > 500
            ==> advice_message_of(s) == "The home is drawing "@ + power_label(
            s.grid_import_w as int,
            ""@,
        ) + " from the grid."@,
        s.grid_export_w <= 500 && s.battery_soc_milli >= 25000 && s.grid_import_w <= 500
            ==> advice_message_of(s) == "There is no large spare solar supply right now."@,
{
}

/// Power under 1 kW either way is written in whole watts, from 1 kW on in
/// kilowatts with two decimals; a direction, when there is one, follows
/// after a space.
pub proof fn law_power_label(w: int, direction: Seq<char>)
    ensures
        direction.len() == 0 && -1000 < w < 1000 ==> power_label(w, direction) == integer_text(w)
            + " W"@,
        direction.len() == 0 && (w <= -1000 || w >= 1000) ==> power_label(w, direction)
            == fixed_text(w, 2) + " kW"@,
        direction.len() > 0 ==> power_label(w, direction) == power_label(w, Seq::empty()) + " "@
            + direction,
        power_label(w, ""@) == power_label(w, Seq::empty()),
{
    reveal_strlit("");
}

/// Decimal digits: only digits, denoting the number, with no leading zero.
pub proof fn law_decimal_digits(n: nat)
    ensures
        all_digits(decimal_digits(n)),
        digits_value(decimal_digits(n)) == n,
        decimal_digits(n).len() >= 1,
        decimal_digits(n)[0] == '0' ==> n == 0,
    decreases n,
{
    let t = decimal_digits(n);
    if n < 10 {
        assert(t == seq![digit_char(n)]);
        assert(t.drop_last() =~= Seq::<char>::empty());
        assert(digits_value(Seq::<char>::empty()) == 0);
    } else {
        let h = decimal_digits(n / 10);
        law_decimal_digits(n / 10);
        assert(t == h.push(digit_char(n % 10)));
        assert(t.drop_last() =~= h);
        assert(t[0] == h[0]);
        assert forall|i: int| 0 <= i < t.len() implies is_digit(#[trigger] t[i]) by {
            if i < h.len() {
                assert(t[i] == h[i]);
            }
        }
        assert(digit_value(digit_char(n % 10)) == n % 10);
    }
}

/// Fixed-width digits: exactly `w` digits, denoting `n` modulo `10^w`.
pub proof fn law_fixed_digits(n: nat, w: nat)
    ensures
        all_digits(fixed_digits(n, w)),
        fixed_digits(n, w).len() == w,
        digits_value(fixed_digits(n, w)) == n % pow10(w),
    decreases w,
{
    let t = fixed_digits(n, w);
    if w == 0 {
        assert(n % 1 == 0);
    } else {
        let w1 = (w - 1) as nat;
        let h = fixed_digits(n / 10, w1);
        law_fixed_digits(n / 10, w1);
        assert(t == h.push(digit_char(n % 10)));
        assert(t.drop_last() =~= h);
        assert forall|i: int| 0 <= i < t.len() implies is_digit(#[trigger] t[i]) by {
            if i < h.len() {
                assert(t[i] == h[i]);
            }
        }
        assert(digit_value(digit_char(n % 10)) == n % 10);
        let p = pow10(w1);
        crate::decimal::lemma_pow10_positive(w1);
        assert(pow10(w) == 10 * p);
        lemma_fundamental_div_mod(n as int, 10);
        lemma_fundamental_div_mod((n / 10) as int, p as int);
        let a = (n / 10) as int;
        let b = (n % 10) as int;
        let c = a / (p as int);
        let e = a % (p as int);
        assert(n == 10 * a + b);
        assert(a == p * c + e);
        assert(n == (10 * p) * c + (10 * e + b)) by (nonlinear_arith)
            requires
                n == 10 * a + b,
                a == p * c + e,
        ;
        assert(0 <= 10 * e + b < 10 * p);
        lemma_fundamental_div_mod_converse(n as int, (10 * p) as int, c, 10 * e + b);
        assert(digits_value(t) == digits_value(h) * 10 + n % 10);
    }
}

/// Rounding to the nearest multiple: never more than half a step away, and
/// an exact half goes to the even neighbour.
pub proof fn law_round_half_even(n: nat, d: nat)
    requires
        d > 0,
    ensures
        2 * abs(n - round_half_even(n, d) * d) <= d,
        2 * abs(n - round_half_even(n, d) * d) == d ==> round_half_even(n, d) % 2 == 0,
{
    lemma_fundamental_div_mod(n as int, d as int);
    let q0 = n / d;
    let r = n % d;
    assert(n == d * q0 + r);
    assert(0 <= r < d);
    let q = round_half_even(n, d);
    if 2 * r > d || (2 * r == d && q0 % 2 == 1) {
        assert(q == q0 + 1);
        assert(n - q * d == r - d) by (nonlinear_arith)
            requires
                n == d * q0 + r,
                q == q0 + 1,
        ;
    } else {
        assert(q == q0);
        assert(n - q * d == r) by (nonlinear_arith)
            requires
                n == d * q0 + r,
                q == q0,
        ;
    }
}

/// A value in thousandths written with 0 or 2 decimals: a minus sign for a
/// negative value, then the magnitude rounded half to even to that many
/// decimals (whole part, point, two digits).
pub proof fn law_fixed_text(m: int)
    ensures
        minus_sign(m) == if m < 0 {
            seq!['-']
        } else {
            Seq::<char>::empty()
        },
        fixed_text(m, 0) == minus_sign(m) + decimal_digits(round_half_even(abs(m), 1000)),
        fixed_text(m, 2) == minus_sign(m) + decimal_digits(round_half_even(abs(m), 10) / 100)
            + seq!['.'] + fixed_digits(round_half_even(abs(m), 10), 2),
        integer_text(m) == minus_sign(m) + decimal_digits(abs(m)),
{
    reveal_with_fuel(pow10, 4);
    assert(pow10(3) == 1000);
    assert(pow10(1) == 10);
    assert(pow10(2) == 100);
}

// ---------------------------------------------------------------------------
// The page's state
// ---------------------------------------------------------------------------

/// The page starts with nothing shown, no error and a count of 0.
pub proof fn law_monitor_initial(m: MonitorState)
    ensures
        monitor_initial(m) <==> (m.snapshot is None && m.connection_error is None
            && m.refresh_count == 0),
{
}

/// One outcome: a snapshot is shown and counted and clears the error; an
/// unreadable answer or an unreachable backend keeps the snapshot and the
/// count and shows its error text after the matching prefix.
pub proof fn law_monitor_step(before: MonitorState, outcome: FetchOutcome, after: MonitorState)
    requires
        monitor_step(before, outcome, after),
    ensures
        outcome matches FetchOutcome::Received(s) ==> after.snapshot == Some(s)
            && after.connection_error is None && after.refresh_count == before.refresh_count + 1,
        outcome matches FetchOutcome::Unreadable(e) ==> after.snapshot == before.snapshot
            && after.refresh_count == before.refresh_count && after.connection_error == Some(
            after.connection_error->0,
        ) && after.connection_error->0@ == "Could not read backend data: "@ + e@,
        outcome matches FetchOutcome::Unreachable(e) ==> after.snapshot == before.snapshot
            && after.refresh_count == before.refresh_count && after.connection_error == Some(
            after.connection_error->0,
        ) && after.connection_error->0@ == "Backend unavailable: "@ + e@,
{
}


// ---------------------------------------------------------------------------
// JSON lookups
// ---------------------------------------------------------------------------

/// A member is looked up by exact name: the value of the first member with
/// that name, `Null` when there is none.
pub proof fn law_member_value(entries: Seq<(String, JsonValue)>, key: Seq<char>)
    ensures
        forall|i: int|
            0 <= i < entries.len() && (#[trigger] entries[i]).0@ == key && (forall|j: int|
                0 <= j < i ==> (#[trigger] entries[j]).0@ != key) ==> member_value(entries, key)
                == entries[i].1,
        (forall|j: int| 0 <= j < entries.len() ==> (#[trigger] entries[j]).0@ != key)
            ==> member_value(entries, key) == JsonValue::Null,
    decreases entries.len(),
{
    if entries.len() > 0 {
        let rest = entries.drop_first();
        law_member_value(rest, key);
        assert forall|i: int|
            0 <= i < entries.len() && (#[trigger] entries[i]).0@ == key && (forall|j: int|
                0 <= j < i ==> (#[trigger] entries[j]).0@ != key) implies member_value(entries, key)
            == entries[i].1 by {
            if i > 0 {
                assert(entries[0].0@ != key);
                assert(rest[i - 1] == entries[i]);
                assert forall|j: int| 0 <= j < i - 1 implies (#[trigger] rest[j]).0@ != key by {
                    assert(rest[j] == entries[j + 1]);
                }
            }
        }
        if forall|j: int| 0 <= j < entries.len() ==> (#[trigger] entries[j]).0@ != key {
            assert(entries[0].0@ != key);
            assert forall|j: int| 0 <= j < rest.len() implies (#[trigger] rest[j]).0@ != key by {
                assert(rest[j] == entries[j + 1]);
            }
        }
    }
}

/// Only an object has members; the first item is taken only from a
/// non-empty array.
pub proof fn law_json_shapes(v: JsonValue, key: Seq<char>)
    ensures
        !(v is Object) ==> json_field(v, key) == JsonValue::Null,
        (v is Array && v->Array_0@.len() > 0) ==> json_first(v) == Some(v->Array_0@[0]),
        !(v is Array && v->Array_0@.len() > 0) ==> json_first(v) is None,
        v is Str ==> json_text(v) == Some(v->Str_0@),
        !(v is Str) ==> json_text(v) is None,
        !(v is Number) ==> json_i64(v) is None,
        v is Number ==> json_i64(v) == match integer_literal_value(v->Number_0@) {
            Some(x) => if i64::MIN <= x <= i64::MAX {
                Some(x as i64)
            } else {
                None
            },
            None => None,
        },
{
}

proof fn lemma_digit_run_all(s: Seq<char>, a: int)
    requires
        0 <= a <= s.len(),
    ensures
        (digit_run(s, a) == s.len() - a) <==> all_digits(s.subrange(a, s.len() as int)),
    decreases s.len() - a,
{
    if a < s.len() {
        lemma_digit_run_all(s, a + 1);
        let t = s.subrange(a, s.len() as int);
        let u = s.subrange(a + 1, s.len() as int);
        assert(t[0] == s[a]);
        if all_digits(t) {
            assert(is_digit(t[0]));
            assert forall|i: int| 0 <= i < u.len() implies is_digit(#[trigger] u[i]) by {
                assert(u[i] == t[i + 1]);
            }
        }
        if digit_run(s, a) == s.len() - a {
            assert forall|i: int| 0 <= i < t.len() implies is_digit(#[trigger] t[i]) by {
                if i > 0 {
                    assert(t[i] == u[i - 1]);
                }
            }
        }
        if all_digits(u) && is_digit(s[a]) {
            assert(digit_run(s, a) == 1 + digit_run(s, a + 1));
        }
    }
}

/// An integer literal is at least one digit, after an optional minus sign,
/// and nothing else; its value is that of its digits, negated after a minus.
pub proof fn law_integer_literal(t: Seq<char>)
    ensures
        t.len() > 0 && t[0] == '-' ==> (integer_literal_value(t) is Some <==> (t.len() > 1
            && all_digits(t.subrange(1, t.len() as int)))),
        t.len() > 0 && t[0] == '-' && integer_literal_value(t) is Some ==> integer_literal_value(
            t,
        ) == Some(-(digits_value(t.subrange(1, t.len() as int)) as int)),
        !(t.len() > 0 && t[0] == '-') ==> (integer_literal_value(t) is Some <==> (t.len() > 0
            && all_digits(t))),
        !(t.len() > 0 && t[0] == '-') && integer_literal_value(t) is Some ==> integer_literal_value(
            t,
        ) == Some(digits_value(t) as int),
{
    if t.len() > 0 && t[0] == '-' {
        lemma_digit_run_all(t, 1);
    } else {
        lemma_digit_run_all(t, 0);
        assert(t.subrange(0, t.len() as int) =~= t);
    }
}

// ---------------------------------------------------------------------------
// Reading decimal text
// ---------------------------------------------------------------------------

/// A decimal number is read to the nearest thousandth: exactly when it has
/// no more than three decimals, else never more than half a thousandth off,
/// and an exact half away from zero. The sign is the text's.
pub proof fn law_decimal_nearest(s: Seq<char>)
    requires
        parse_decimal(s) is Some,
    ensures
        ({
            let p = parse_decimal(s)->0;
            let n = digits_value(p.digits) as int;
            let k = p.exponent - p.frac_len + 3;
            let r = parts_milli(p);
            &&& p.negative ==> r <= 0
            &&& !p.negative ==> r >= 0
            &&& k >= 0 ==> abs(r) == n * pow10(k as nat)
            &&& k < 0 ==> 2 * abs(n - abs(r) * pow10((-k) as nat)) <= pow10((-k) as nat)
            &&& k < 0 && 2 * abs(n - abs(r) * pow10((-k) as nat)) == pow10((-k) as nat) ==> abs(r)
                * pow10((-k) as nat) > n
        }),
{
    let p = parse_decimal(s)->0;
    let n = digits_value(p.digits) as int;
    let k = p.exponent - p.frac_len + 3;
    if k < 0 {
        let d = pow10((-k) as nat) as int;
        crate::decimal::lemma_pow10_positive((-k) as nat);
        let q = round_half_up(n as nat, d as nat) as int;
        assert(scaled_magnitude(p.digits, k) == q);
        lemma_fundamental_div_mod(2 * n + d, 2 * d);
        let rem = (2 * n + d) % (2 * d);
        assert(q == (2 * n + d) / (2 * d));
        assert(2 * n + d == 2 * d * q + rem);
        assert(0 <= rem < 2 * d);
        assert(2 * (n - q * d) == rem - d) by (nonlinear_arith)
            requires
                2 * n + d == 2 * d * q + rem,
        ;
    }
}

// ---------------------------------------------------------------------------
// The request
// ---------------------------------------------------------------------------

/// The signed text is the path, the API key and the timestamp, each pair
/// separated by a carriage return and a line feed; the signature is the
/// lower-case hexadecimal MD5 digest of its UTF-8 bytes. The query goes to
/// `/op/v1/device/real/query`.
pub proof fn law_signature(path: Seq<char>, api_key: Seq<char>, timestamp: Seq<char>)
    ensures
        signature_text(path, api_key, timestamp) == path + seq!['\r', '\n'] + api_key + seq![
            '\r',
            '\n',
        ] + timestamp,
        request_signature_of(path, api_key, timestamp) == hex_lower(
            md5_digest_of(encode_utf8(path + seq!['\r', '\n'] + api_key + seq!['\r', '\n'] + timestamp)),
        ),
        real_query_path() == "/op/v1/device/real/query"@,
{
    reveal_strlit("\r\n");
    assert("\r\n"@ =~= seq!['\r', '\n']);
}

/// The headers, in order: the key as `Token`, the time, the signature, the
/// language, the JSON content type and the time zone.
pub proof fn law_headers(api_key: Seq<char>, timestamp: Seq<char>, signature: Seq<char>)
    ensures
        foxess_headers(api_key, timestamp, signature).len() == 6,
        foxess_headers(api_key, timestamp, signature)[0] == ("Token"@, api_key),
        foxess_headers(api_key, timestamp, signature)[1] == ("Timestamp"@, timestamp),
        foxess_headers(api_key, timestamp, signature)[2] == ("Signature"@, signature),
        foxess_headers(api_key, timestamp, signature)[3] == ("Lang"@, "en"@),
        foxess_headers(api_key, timestamp, signature)[4] == ("Content-Type"@, "application/json"@),
        foxess_headers(api_key, timestamp, signature)[5] == ("Timezone"@, "Australia/Sydney"@),
{
}

/// Before the first refresh the backend serves a snapshot that says it is
/// waiting, with every reading 0.
pub proof fn law_waiting_snapshot()
    ensures
        waiting_snapshot().timestamp == "Waiting for first FoxESS update"@,
        waiting_snapshot().solar_w == 0 && waiting_snapshot().home_w == 0
            && waiting_snapshot().battery_soc_milli == 0 && waiting_snapshot().battery_w == 0
            && waiting_snapshot().grid_import_w == 0 && waiting_snapshot().grid_export_w == 0,
{
}


// ---------------------------------------------------------------------------
// Readings, members, hexadecimal
// ---------------------------------------------------------------------------

/// A reading is a number, or text holding one, read in thousandths; it is
/// kept only when it fits an `i64`. Anything else is no reading.
pub proof fn law_reading_milli(v: JsonValue, t: Seq<char>)
    ensures
        milli_of_text(t) == match decimal_milli(t) {
            Some(x) => if i64::MIN <= x <= i64::MAX {
                Some(x as i64)
            } else {
                None
            },
            None => None,
        },
        v is Number ==> reading_milli(v) == milli_of_text(v->Number_0@),
        v is Str ==> reading_milli(v) == milli_of_text(v->Str_0@),
        !(v is Number) && !(v is Str) ==> reading_milli(v) is None,
        abs(-5) == 5 && abs(7) == 7 && (t.len() < 3 ==> abs(t.len() - 3) == 3 - t.len()),
{
}

/// The member `key` of an object is looked up among its members.
pub proof fn law_json_field_object(v: JsonValue, key: Seq<char>)
    requires
        v is Object,
    ensures
        json_field(v, key) == member_value(v->Object_0@, key),
{
}

pub open spec fn lower_hex_value(c: char) -> int {
    if '0' <= c && c <= '9' {
        c as int - '0' as int
    } else if 'a' <= c && c <= 'f' {
        c as int - 'a' as int + 10
    } else {
        -1
    }
}

/// Lower-case hexadecimal: two digits (`0`-`9`, `a`-`f`) per byte, the high
/// half first, so that each pair of digits gives back its byte.
pub proof fn law_hex_lower(bytes: Seq<u8>)
    ensures
        hex_lower(bytes).len() == 2 * bytes.len(),
        forall|i: int|
            0 <= i < bytes.len() ==> lower_hex_value(hex_lower(bytes)[2 * i]) * 16
                + lower_hex_value(hex_lower(bytes)[2 * i + 1]) == #[trigger] bytes[i] as int,
        forall|i: int|
            0 <= i < hex_lower(bytes).len() ==> 0 <= lower_hex_value(#[trigger] hex_lower(bytes)[i]),
    decreases bytes.len(),
{
    if bytes.len() > 0 {
        let init = bytes.drop_last();
        law_hex_lower(init);
        let b = bytes.last();
        let h = hex_lower(init);
        let t = hex_lower(bytes);
        assert(t == h + seq![hex_digit((b / 16) as nat), hex_digit((b % 16) as nat)]);
        let n = init.len() as int;
        assert(lower_hex_value(hex_digit((b / 16) as nat)) == b / 16);
        assert(lower_hex_value(hex_digit((b % 16) as nat)) == b % 16);
        assert(t[2 * n] == hex_digit((b / 16) as nat));
        assert(t[2 * n + 1] == hex_digit((b % 16) as nat));
        assert forall|i: int| 0 <= i < bytes.len() implies lower_hex_value(t[2 * i]) * 16
            + lower_hex_value(t[2 * i + 1]) == #[trigger] bytes[i] as int by {
            if i < n {
                assert(t[2 * i] == h[2 * i]);
                assert(t[2 * i + 1] == h[2 * i + 1]);
                assert(bytes[i] == init[i]);
            }
        }
        assert forall|i: int| 0 <= i < t.len() implies 0 <= lower_hex_value(#[trigger] t[i]) by {
            if i < 2 * n {
                assert(t[i] == h[i]);
            }
        }
    }
}

// ---------------------------------------------------------------------------
// The syntax of decimal numbers
// ---------------------------------------------------------------------------

proof fn lemma_digit_run_exact(s: Seq<char>, a: int, len: int)
    requires
        0 <= a,
        0 <= len,
        a + len <= s.len(),
        all_digits(s.subrange(a, a + len)),
        a + len == s.len() || !is_digit(s[a + len]),
    ensures
        digit_run(s, a) == len,
    decreases len,
{
    if len > 0 {
        assert(s.subrange(a, a + len)[0] == s[a]);
        assert(all_digits(s.subrange(a + 1, a + len))) by {
            assert forall|i: int| 0 <= i < len - 1 implies is_digit(
                #[trigger] s.subrange(a + 1, a + len)[i],
            ) by {
                assert(s.subrange(a + 1, a + len)[i] == s.subrange(a, a + len)[i + 1]);
            }
        }
        lemma_digit_run_exact(s, a + 1, len - 1);
    }
}

pub open spec fn opt_char(present: bool, c: char) -> Seq<char> {
    if present {
        seq![c]
    } else {
        Seq::empty()
    }
}

/// Every decimal number is read as written: an optional minus sign, whole
/// digits, an optional point with fraction digits, and an optional `e`
/// with an optional minus sign and exponent digits give that sign, those
/// digits with that many after the point, and that exponent.
pub proof fn law_decimal_syntax(
    negative: bool,
    whole: Seq<char>,
    point: bool,
    frac: Seq<char>,
    has_exp: bool,
    exp_negative: bool,
    exp: Seq<char>,
)
    requires
        all_digits(whole),
        all_digits(frac),
        all_digits(exp),
        whole.len() + frac.len() > 0,
        !point ==> frac.len() == 0,
        has_exp ==> exp.len() > 0,
        !has_exp ==> !exp_negative && exp.len() == 0,
    ensures
        parse_decimal(
            opt_char(negative, '-') + whole + opt_char(point, '.') + frac + opt_char(has_exp, 'e')
                + opt_char(exp_negative, '-') + exp,
        ) == Some(
            DecimalParts {
                negative,
                digits: whole + frac,
                frac_len: frac.len(),
                exponent: if exp_negative {
                    -(digits_value(exp) as int)
                } else {
                    digits_value(exp) as int
                },
            },
        ),
{
    let sg = opt_char(negative, '-');
    let pt = opt_char(point, '.');
    let em = opt_char(has_exp, 'e');
    let es = opt_char(exp_negative, '-');
    let s = sg + whole + pt + frac + em + es + exp;
    let a = sg.len() as int;
    let i1 = a + whole.len();
    let f0 = i1 + pt.len();
    let i2 = f0 + frac.len();
    let b = i2 + em.len();
    let e0 = b + es.len();
    assert(s.subrange(a, i1) =~= whole);
    assert(s.subrange(f0, i2) =~= frac);
    assert(s.subrange(e0, s.len() as int) =~= exp);
    if whole.len() + frac.len() > 0 && whole.len() > 0 {
        assert(is_digit(whole[0]));
    }
    if negative {
        assert(s[0] == '-');
    } else if whole.len() > 0 {
        assert(s[0] == whole[0]);
    } else {
        assert(point);
        assert(s[0] == '.');
    }
    assert(i1 == s.len() || !is_digit(s[i1])) by {
        if i1 < s.len() {
            if point {
                assert(s[i1] == '.');
            } else if has_exp {
                assert(s[i1] == 'e');
            }
        }
    }
    lemma_digit_run_exact(s, a, whole.len() as int);
    if point {
        assert(s[i1] == '.');
        assert(i2 == s.len() || !is_digit(s[i2])) by {
            if i2 < s.len() {
                assert(s[i2] == 'e');
            }
        }
        lemma_digit_run_exact(s, f0, frac.len() as int);
    } else if i1 < s.len() {
        assert(s[i1] == 'e');
    }
    if has_exp {
        assert(s[i2] == 'e');
        if exp_negative {
            assert(s[b] == '-');
        } else {
            assert(s[b] == exp[0]);
            assert(is_digit(exp[0]));
        }
        lemma_digit_run_exact(s, e0, exp.len() as int);
    } else {
        assert(s.len() == i2);
    }
}

} // verus!
