//! The web page's decisions: how power is written, which energy flows are
//! animated, what the page advises, and how the page follows the backend.
use vstd::prelude::*;
use vstd::string::StringExecFns;
use crate::format::{
    abs, decimal_digits, decimal_string, fixed_text, integer_text, push_fixed, push_integer,
};
use crate::snapshot::{EnergySnapshot, SnapshotView};
use crate::text::str_eq;

verus! {

/// Above this power (0.05 kW) a flow counts as active.
pub const FLOW_ACTIVE_W: i64 = 50;

/// Above this power (3 kW) an active flow is animated fast.
pub const FLOW_FAST_W: i64 = 3000;

/// Above this power (0.5 kW) export is worth using and import worth reducing.
pub const ADVICE_POWER_W: i64 = 500;

/// Below this state of charge (25 %) the battery reserve is low.
pub const LOW_BATTERY_SOC_MILLI: i64 = 25000;

// ---------------------------------------------------------------------------
// Power as text
// ---------------------------------------------------------------------------

/// Power under 1 kW in whole watts (`"640 W"`), else in kilowatts with two
/// decimals (`"1.25 kW"`).
pub open spec fn power_text(w: int) -> Seq<char> {
    if abs(w) < 1000 {
        integer_text(w) + " W"@
    } else {
        fixed_text(w, 2) + " kW"@
    }
}

/// The power text followed by a space and the direction, when there is one.
pub open spec fn power_label(w: int, direction: Seq<char>) -> Seq<char> {
    if direction.len() == 0 {
        power_text(w)
    } else {
        power_text(w) + " "@ + direction
    }
}

/// Writes `power_w` watts for the page, followed by `direction` (such as
/// `"in"` or `"out"`) unless it is empty.
pub fn format_power(power_w: i64, direction: &str) -> (s: String)
    ensures
        s@ == power_label(power_w as int, direction@),
{
    let mut s = String::new();
    if -1000 < power_w && power_w < 1000 {
        push_integer(&mut s, power_w);
        s.append(" W");
    } else {
        push_fixed(&mut s, power_w, 2);
        s.append(" kW");
    }
    if !direction.is_empty() {
        s.append(" ");
        s.append(direction);
    }
    s
}

// ---------------------------------------------------------------------------
// Flow lines
// ---------------------------------------------------------------------------

pub open spec fn is_flow_route(route: Seq<char>) -> bool {
    ||| route == "solar-flow"@
    ||| route == "home-flow"@
    ||| route == "battery-charge-flow"@
    ||| route == "battery-discharge-flow"@
    ||| route == "grid-import-flow"@
    ||| route == "grid-export-flow"@
}

/// The classes of a flow line: the line, its route, `flow-active` above
/// `FLOW_ACTIVE_W` and `flow-fast` above `FLOW_FAST_W`.
pub open spec fn flow_class(power_w: int, route: Seq<char>) -> Seq<char> {
    if is_flow_route(route) {
        "flow-line "@ + route + (if power_w > FLOW_ACTIVE_W {
            " flow-active"@
        } else {
            Seq::empty()
        }) + (if power_w > FLOW_FAST_W {
            " flow-fast"@
        } else {
            Seq::empty()
        })
    } else {
        "flow-line"@
    }
}

/// More power never takes a class away from a flow line: the classes at a
/// lower power are a prefix of those at a higher one, which can only add
/// `flow-active` and then `flow-fast`.
pub proof fn lemma_flow_class_monotone(p1: int, p2: int, route: Seq<char>)
    requires
        p1 <= p2,
    ensures
        flow_class(p1, route).len() <= flow_class(p2, route).len(),
        flow_class(p2, route).subrange(0, flow_class(p1, route).len() as int) == flow_class(
            p1,
            route,
        ),
{
    let a = flow_class(p1, route);
    let b = flow_class(p2, route);
    if is_flow_route(route) {
        let base = "flow-line "@ + route;
        let act: Seq<char> = " flow-active"@;
        let fast: Seq<char> = " flow-fast"@;
        let e = Seq::<char>::empty();
        if p1 > FLOW_FAST_W {
            assert(a == b);
        } else if p1 > FLOW_ACTIVE_W {
            assert(a == base + act + e);
            if p2 > FLOW_FAST_W {
                assert(b == base + act + fast);
            } else {
                assert(a == b);
            }
        } else {
            assert(a == base + e + e);
            if p2 > FLOW_FAST_W {
                assert(b == base + act + fast);
            } else if p2 > FLOW_ACTIVE_W {
                assert(b == base + act + e);
            }
        }
        assert(b.subrange(0, a.len() as int) =~= a);
    } else {
        assert(b.subrange(0, a.len() as int) =~= a);
    }
}

/// The CSS class of the animated line of a flow `route` carrying `power_w`
/// watts: the route's line, active above 50 W and fast above 3 kW; a bare
/// line for a route that is not one of the six flows.
pub fn flow_path_class(power_w: i64, route: &str) -> (c: &'static str)
    ensures
        c@ == flow_class(power_w as int, route@),
{
    proof {
        reveal_strlit("flow-line ");
        reveal_strlit(" flow-active");
        reveal_strlit(" flow-fast");
    }
    if str_eq(route, "solar-flow") {
        proof {
            reveal_strlit("solar-flow");
        }
        if power_w > FLOW_FAST_W {
            proof {
                reveal_strlit("flow-line solar-flow flow-active flow-fast");
            }
            "flow-line solar-flow flow-active flow-fast"
        } else if power_w > FLOW_ACTIVE_W {
            proof {
                reveal_strlit("flow-line solar-flow flow-active");
            }
            "flow-line solar-flow flow-active"
        } else {
            proof {
                reveal_strlit("flow-line solar-flow");
            }
            "flow-line solar-flow"
        }
    } else if str_eq(route, "home-flow") {
        proof {
            reveal_strlit("home-flow");
        }
        if power_w > FLOW_FAST_W {
            proof {
                reveal_strlit("flow-line home-flow flow-active flow-fast");
            }
            "flow-line home-flow flow-active flow-fast"
        } else if power_w > FLOW_ACTIVE_W {
            proof {
                reveal_strlit("flow-line home-flow flow-active");
            }
            "flow-line home-flow flow-active"
        } else {
            proof {
                reveal_strlit("flow-line home-flow");
            }
            "flow-line home-flow"
        }
    } else if str_eq(route, "battery-charge-flow") {
        proof {
            reveal_strlit("battery-charge-flow");
        }
        if power_w > FLOW_FAST_W {
            proof {
                reveal_strlit("flow-line battery-charge-flow flow-active flow-fast");
            }
            "flow-line battery-charge-flow flow-active flow-fast"
        } else if power_w > FLOW_ACTIVE_W {
            proof {
                reveal_strlit("flow-line battery-charge-flow flow-active");
            }
            "flow-line battery-charge-flow flow-active"
        } else {
            proof {
                reveal_strlit("flow-line battery-charge-flow");
            }
            "flow-line battery-charge-flow"
        }
    } else if str_eq(route, "battery-discharge-flow") {
        proof {
            reveal_strlit("battery-discharge-flow");
        }
        if power_w > FLOW_FAST_W {
            proof {
                reveal_strlit("flow-line battery-discharge-flow flow-active flow-fast");
            }
            "flow-line battery-discharge-flow flow-active flow-fast"
        } else if power_w > FLOW_ACTIVE_W {
            proof {
                reveal_strlit("flow-line battery-discharge-flow flow-active");
            }
            "flow-line battery-discharge-flow flow-active"
        } else {
            proof {
                reveal_strlit("flow-line battery-discharge-flow");
            }
            "flow-line battery-discharge-flow"
        }
    } else if str_eq(route, "grid-import-flow") {
        proof {
            reveal_strlit("grid-import-flow");
        }
        if power_w > FLOW_FAST_W {
            proof {
                reveal_strlit("flow-line grid-import-flow flow-active flow-fast");
            }
            "flow-line grid-import-flow flow-active flow-fast"
        } else if power_w > FLOW_ACTIVE_W {
            proof {
                reveal_strlit("flow-line grid-import-flow flow-active");
            }
            "flow-line grid-import-flow flow-active"
        } else {
            proof {
                reveal_strlit("flow-line grid-import-flow");
            }
            "flow-line grid-import-flow"
        }
    } else if str_eq(route, "grid-export-flow") {
        proof {
            reveal_strlit("grid-export-flow");
        }
        if power_w > FLOW_FAST_W {
            proof {
                reveal_strlit("flow-line grid-export-flow flow-active flow-fast");
            }
            "flow-line grid-export-flow flow-active flow-fast"
        } else if power_w > FLOW_ACTIVE_W {
            proof {
                reveal_strlit("flow-line grid-export-flow flow-active");
            }
            "flow-line grid-export-flow flow-active"
        } else {
            proof {
                reveal_strlit("flow-line grid-export-flow");
            }
            "flow-line grid-export-flow"
        }
    } else {
        "flow-line"
    }
}


// ---------------------------------------------------------------------------
// The live page
// ---------------------------------------------------------------------------

/// What the page advises the household to do.
#[derive(PartialEq, Eq, Structural, Debug, Clone, Copy)]
pub enum AdviceKind {
    /// Spare generation is going to the grid.
    UseElectricity,
    /// The battery reserve is low.
    BatteryReserveLow,
    /// The home is drawing power from the grid.
    ReduceUse,
    /// Nothing calls for a change.
    NormalUse,
}

/// Export above `ADVICE_POWER_W` comes first, then a low battery, then import
/// above `ADVICE_POWER_W`.
pub open spec fn advice_kind_of(s: SnapshotView) -> AdviceKind {
    if s.grid_export_w > ADVICE_POWER_W {
        AdviceKind::UseElectricity
    } else if s.battery_soc_milli < LOW_BATTERY_SOC_MILLI {
        AdviceKind::BatteryReserveLow
    } else if s.grid_import_w > ADVICE_POWER_W {
        AdviceKind::ReduceUse
    } else {
        AdviceKind::NormalUse
    }
}

pub open spec fn advice_message_of(s: SnapshotView) -> Seq<char> {
    match advice_kind_of(s) {
        AdviceKind::UseElectricity => power_label(s.grid_export_w as int, ""@)
            + " of spare generation is going to the grid."@,
        AdviceKind::BatteryReserveLow => "Battery reserve is low at "@ + fixed_text(
            s.battery_soc_milli as int,
            0,
        ) + "%. Keep normal use going, but postpone optional high-power jobs."@,
        AdviceKind::ReduceUse => "The home is drawing "@ + power_label(s.grid_import_w as int, ""@)
            + " from the grid."@,
        AdviceKind::NormalUse => "There is no large spare solar supply right now."@,
    }
}

impl AdviceKind {
    /// The CSS classes of the advice panel.
    pub fn css_class(&self) -> (c: &'static str)
        ensures
            c@ == match *self {
                AdviceKind::UseElectricity => "advice advice-use"@,
                AdviceKind::BatteryReserveLow => "advice advice-avoid"@,
                _ => "advice advice-reduce"@,
            },
    {
        match self {
            AdviceKind::UseElectricity => "advice advice-use",
            AdviceKind::BatteryReserveLow => "advice advice-avoid",
            _ => "advice advice-reduce",
        }
    }

    /// The heading of the advice panel.
    pub fn heading(&self) -> (h: &'static str)
        ensures
            h@ == match *self {
                AdviceKind::UseElectricity => "☀ USE ELECTRICITY"@,
                AdviceKind::BatteryReserveLow => "🔋 BATTERY RESERVE LOW"@,
                AdviceKind::ReduceUse => "⚖ REDUCE ELECTRICITY USE"@,
                AdviceKind::NormalUse => "⚖ NORMAL USE IS FINE"@,
            },
    {
        match self {
            AdviceKind::UseElectricity => "☀ USE ELECTRICITY",
            AdviceKind::BatteryReserveLow => "🔋 BATTERY RESERVE LOW",
            AdviceKind::ReduceUse => "⚖ REDUCE ELECTRICITY USE",
            AdviceKind::NormalUse => "⚖ NORMAL USE IS FINE",
        }
    }

    /// The line of examples under the advice.
    pub fn examples(&self) -> (e: &'static str)
        ensures
            e@ == match *self {
                AdviceKind::UseElectricity => "Good for: dishwasher, laundry, EV charging"@,
                AdviceKind::NormalUse =>
                    "Normal use is fine; save flexible high-power jobs for a solar surplus."@,
                _ => "Consider delaying: clothes dryer, dishwasher, or oven use"@,
            },
    {
        match self {
            AdviceKind::UseElectricity => "Good for: dishwasher, laundry, EV charging",
            AdviceKind::NormalUse =>
                "Normal use is fine; save flexible high-power jobs for a solar surplus.",
            _ => "Consider delaying: clothes dryer, dishwasher, or oven use",
        }
    }
}

/// The status line under the live page: the snapshot's time and how many
/// snapshots the page has received.
pub fn footer_status(timestamp: &str, refresh_count: u64) -> (s: String)
    ensures
        s@ == "FoxESS data: "@ + timestamp@ + " • Browser check #"@ + decimal_digits(
            refresh_count as nat,
        ),
{
    let mut s = String::from_str("FoxESS data: ");
    s.append(timestamp);
    s.append(" • Browser check #");
    let count = decimal_string(refresh_count as u128);
    s.append(count.as_str());
    s
}

pub open spec fn exporting(s: SnapshotView) -> bool {
    s.grid_export_w > FLOW_ACTIVE_W
}

/// The grid's power and direction: export when exporting, else import.
pub open spec fn grid_value_of(s: SnapshotView) -> Seq<char> {
    if exporting(s) {
        power_label(s.grid_export_w as int, "out"@)
    } else {
        power_label(s.grid_import_w as int, "in"@)
    }
}

pub open spec fn grid_state_of(s: SnapshotView) -> Seq<char> {
    if exporting(s) {
        "Exporting"@
    } else {
        "Importing"@
    }
}

pub open spec fn grid_node_class_of(s: SnapshotView) -> Seq<char> {
    if exporting(s) {
        "flow-node flow-grid-node flow-grid-out"@
    } else {
        "flow-node flow-grid-node flow-grid-in"@
    }
}

/// Charging above `FLOW_ACTIVE_W`, discharging below its negative.
pub open spec fn battery_state_of(s: SnapshotView) -> Seq<char> {
    if s.battery_w > FLOW_ACTIVE_W {
        "Charging"@
    } else if s.battery_w < -FLOW_ACTIVE_W {
        "Discharging"@
    } else {
        "Ready"@
    }
}

/// The grid line carries the larger of import and export, in the direction
/// of the grid state.
pub open spec fn grid_flow_class_of(s: SnapshotView) -> Seq<char> {
    let power = if s.grid_import_w >= s.grid_export_w {
        s.grid_import_w
    } else {
        s.grid_export_w
    };
    if exporting(s) {
        flow_class(power as int, "grid-export-flow"@)
    } else {
        flow_class(power as int, "grid-import-flow"@)
    }
}

/// The battery line: charging, discharging (by the discharge power), or idle.
pub open spec fn battery_flow_class_of(s: SnapshotView) -> Seq<char> {
    if s.battery_w > FLOW_ACTIVE_W {
        flow_class(s.battery_w as int, "battery-charge-flow"@)
    } else if s.battery_w < -FLOW_ACTIVE_W {
        flow_class(abs(s.battery_w as int) as int, "battery-discharge-flow"@)
    } else {
        flow_class(0, "battery-charge-flow"@)
    }
}

/// Everything the live page shows that depends on the snapshot.
pub struct LiveView {
    pub advice: AdviceKind,
    pub advice_message: String,
    pub grid_value: String,
    pub grid_state: String,
    pub grid_node_class: String,
    pub battery_state: String,
    pub battery_percent: String,
    pub solar_power: String,
    pub home_power: String,
    pub solar_flow_class: String,
    pub home_flow_class: String,
    pub grid_flow_class: String,
    pub battery_flow_class: String,
}

fn advice_message(data: &EnergySnapshot, kind: AdviceKind) -> (m: String)
    requires
        kind == advice_kind_of(data@),
    ensures
        m@ == advice_message_of(data@),
{
    match kind {
        AdviceKind::UseElectricity => {
            let mut m = format_power(data.grid_export_w, "");
            m.append(" of spare generation is going to the grid.");
            m
        },
        AdviceKind::BatteryReserveLow => {
            let mut m = String::from_str("Battery reserve is low at ");
            push_fixed(&mut m, data.battery_soc_milli, 0);
            m.append("%. Keep normal use going, but postpone optional high-power jobs.");
            m
        },
        AdviceKind::ReduceUse => {
            let mut m = String::from_str("The home is drawing ");
            let p = format_power(data.grid_import_w, "");
            m.append(p.as_str());
            m.append(" from the grid.");
            m
        },
        AdviceKind::NormalUse => String::from_str(
            "There is no large spare solar supply right now.",
        ),
    }
}

/// What the live page shows for `data`.
pub fn live_view(data: &EnergySnapshot) -> (v: LiveView)
    ensures
        v.advice == advice_kind_of(data@),
        v.advice_message@ == advice_message_of(data@),
        v.grid_value@ == grid_value_of(data@),
        v.grid_state@ == grid_state_of(data@),
        v.grid_node_class@ == grid_node_class_of(data@),
        v.battery_state@ == battery_state_of(data@),
        v.battery_percent@ == fixed_text(data.battery_soc_milli as int, 0),
        v.solar_power@ == power_label(data.solar_w as int, ""@),
        v.home_power@ == power_label(data.home_w as int, ""@),
        v.solar_flow_class@ == flow_class(data.solar_w as int, "solar-flow"@),
        v.home_flow_class@ == flow_class(data.home_w as int, "home-flow"@),
        v.grid_flow_class@ == grid_flow_class_of(data@),
        v.battery_flow_class@ == battery_flow_class_of(data@),
{
    let export = data.grid_export_w > FLOW_ACTIVE_W;
    let grid_value = if export {
        format_power(data.grid_export_w, "out")
    } else {
        format_power(data.grid_import_w, "in")
    };
    let battery_state = if data.battery_w > FLOW_ACTIVE_W {
        String::from_str("Charging")
    } else if data.battery_w < -FLOW_ACTIVE_W {
        String::from_str("Discharging")
    } else {
        String::from_str("Ready")
    };
    let grid_state = if export {
        String::from_str("Exporting")
    } else {
        String::from_str("Importing")
    };
    let grid_node_class = if export {
        String::from_str("flow-node flow-grid-node flow-grid-out")
    } else {
        String::from_str("flow-node flow-grid-node flow-grid-in")
    };
    let grid_power = if data.grid_import_w >= data.grid_export_w {
        data.grid_import_w
    } else {
        data.grid_export_w
    };
    let grid_flow_class = if export {
        flow_path_class(grid_power, "grid-export-flow")
    } else {
        flow_path_class(grid_power, "grid-import-flow")
    };
    let battery_flow_class = if data.battery_w > FLOW_ACTIVE_W {
        flow_path_class(data.battery_w, "battery-charge-flow")
    } else if data.battery_w < -FLOW_ACTIVE_W {
        let discharge = if data.battery_w == i64::MIN {
            i64::MAX
        } else {
            -data.battery_w
        };
        flow_path_class(discharge, "battery-discharge-flow")
    } else {
        flow_path_class(0, "battery-charge-flow")
    };
    let advice = if data.grid_export_w > ADVICE_POWER_W {
        AdviceKind::UseElectricity
    } else if data.battery_soc_milli < LOW_BATTERY_SOC_MILLI {
        AdviceKind::BatteryReserveLow
    } else if data.grid_import_w > ADVICE_POWER_W {
        AdviceKind::ReduceUse
    } else {
        AdviceKind::NormalUse
    };
    let mut battery_percent = String::new();
    push_fixed(&mut battery_percent, data.battery_soc_milli, 0);
    LiveView {
        advice,
        advice_message: advice_message(data, advice),
        grid_value,
        grid_state,
        grid_node_class,
        battery_state,
        battery_percent,
        solar_power: format_power(data.solar_w, ""),
        home_power: format_power(data.home_w, ""),
        solar_flow_class: String::from_str(flow_path_class(data.solar_w, "solar-flow")),
        home_flow_class: String::from_str(flow_path_class(data.home_w, "home-flow")),
        grid_flow_class: String::from_str(grid_flow_class),
        battery_flow_class: String::from_str(battery_flow_class),
    }
}

// ---------------------------------------------------------------------------
// Following the backend
// ---------------------------------------------------------------------------

/// What one request of the page to the backend came to.
pub enum FetchOutcome {
    /// The backend answered with a snapshot.
    Received(EnergySnapshot),
    /// The backend answered, but its answer could not be read; the error text.
    Unreadable(String),
    /// The backend could not be reached; the error text.
    Unreachable(String),
}

/// The page's state: the last snapshot received, the last connection error
/// since then, and how many snapshots have been received.
pub struct MonitorState {
    pub snapshot: Option<EnergySnapshot>,
    pub connection_error: Option<String>,
    pub refresh_count: u64,
}

/// What one outcome does to the page's state (see `MonitorState::apply`).
pub open spec fn monitor_step(before: MonitorState, outcome: FetchOutcome, after: MonitorState) -> bool {
    match outcome {
        FetchOutcome::Received(s) => {
            &&& after.snapshot == Some(s)
            &&& after.connection_error is None
            &&& after.refresh_count == before.refresh_count + 1
        },
        FetchOutcome::Unreadable(e) => {
            &&& after.snapshot == before.snapshot
            &&& after.connection_error matches Some(m) && m@ == "Could not read backend data: "@ + e@
            &&& after.refresh_count == before.refresh_count
        },
        FetchOutcome::Unreachable(e) => {
            &&& after.snapshot == before.snapshot
            &&& after.connection_error matches Some(m) && m@ == "Backend unavailable: "@ + e@
            &&& after.refresh_count == before.refresh_count
        },
    }
}

/// The page's state before its first request (see `MonitorState::new`).
pub open spec fn monitor_initial(m: MonitorState) -> bool {
    &&& m.snapshot is None
    &&& m.connection_error is None
    &&& m.refresh_count == 0
}

/// How many of the outcomes brought a snapshot.
pub open spec fn received_count(outcomes: Seq<FetchOutcome>) -> nat
    decreases outcomes.len(),
{
    if outcomes.len() == 0 {
        0
    } else {
        received_count(outcomes.drop_last()) + if outcomes.last() is Received {
            1nat
        } else {
            0nat
        }
    }
}

/// The snapshot the latest of the outcomes that brought one brought.
pub open spec fn last_received(outcomes: Seq<FetchOutcome>) -> Option<EnergySnapshot>
    decreases outcomes.len(),
{
    if outcomes.len() == 0 {
        None
    } else {
        match outcomes.last() {
            FetchOutcome::Received(s) => Some(s),
            _ => last_received(outcomes.drop_last()),
        }
    }
}

/// `states` is a run of the page over `outcomes`: it starts in the initial
/// state, and each state is what the next outcome makes of the one before.
pub open spec fn is_monitor_run(outcomes: Seq<FetchOutcome>, states: Seq<MonitorState>) -> bool {
    &&& states.len() == outcomes.len() + 1
    &&& monitor_initial(states[0])
    &&& forall|i: int|
        0 <= i < outcomes.len() ==> monitor_step(states[i], #[trigger] outcomes[i], states[i + 1])
}

proof fn lemma_monitor_prefix(outcomes: Seq<FetchOutcome>, states: Seq<MonitorState>, k: int)
    requires
        is_monitor_run(outcomes, states),
        0 <= k <= outcomes.len(),
    ensures
        states[k].refresh_count == received_count(outcomes.subrange(0, k)),
        states[k].snapshot == last_received(outcomes.subrange(0, k)),
        (states[k].snapshot is None) <==> received_count(outcomes.subrange(0, k)) == 0,
    decreases k,
{
    if k > 0 {
        lemma_monitor_prefix(outcomes, states, k - 1);
        let pre = outcomes.subrange(0, k);
        assert(pre.drop_last() =~= outcomes.subrange(0, k - 1));
        assert(pre.last() == outcomes[k - 1]);
        assert(monitor_step(states[k - 1], outcomes[k - 1], states[k]));
    } else {
        assert(outcomes.subrange(0, 0) =~= Seq::<FetchOutcome>::empty());
    }
}

proof fn lemma_received_count_monotone(outcomes: Seq<FetchOutcome>, i: int, j: int)
    requires
        0 <= i <= j <= outcomes.len(),
    ensures
        received_count(outcomes.subrange(0, i)) <= received_count(outcomes.subrange(0, j)),
    decreases j - i,
{
    if i < j {
        lemma_received_count_monotone(outcomes, i, j - 1);
        assert(outcomes.subrange(0, j).drop_last() =~= outcomes.subrange(0, j - 1));
    }
}

/// Over a whole run of the page: the count is the number of snapshots
/// received; the page shows no snapshot exactly until the first one arrives,
/// and then always the latest one received; and right after a snapshot
/// arrives no connection error is shown.
pub proof fn lemma_monitor_run(outcomes: Seq<FetchOutcome>, states: Seq<MonitorState>)
    requires
        is_monitor_run(outcomes, states),
    ensures
        states.last().refresh_count == received_count(outcomes),
        states.last().snapshot == last_received(outcomes),
        (states.last().snapshot is None) <==> received_count(outcomes) == 0,
        forall|i: int, j: int|
            0 <= i <= j < states.len() && (#[trigger] states[i]).snapshot is Some ==> (
            #[trigger] states[j]).snapshot is Some,
        forall|i: int|
            0 <= i < outcomes.len() && (#[trigger] outcomes[i]) is Received ==> states[i
                + 1].connection_error is None,
{
    let n = outcomes.len() as int;
    lemma_monitor_prefix(outcomes, states, n);
    assert(outcomes.subrange(0, n) =~= outcomes);
    assert forall|i: int, j: int|
        0 <= i <= j < states.len() && (#[trigger] states[i]).snapshot is Some implies (
        #[trigger] states[j]).snapshot is Some by {
        lemma_monitor_prefix(outcomes, states, i);
        lemma_monitor_prefix(outcomes, states, j);
        lemma_received_count_monotone(outcomes, i, j);
    }
    assert forall|i: int|
        0 <= i < outcomes.len() && (#[trigger] outcomes[i]) is Received implies states[i
        + 1].connection_error is None by {
        assert(monitor_step(states[i], outcomes[i], states[i + 1]));
    }
}

impl MonitorState {
    /// Before the first request: nothing received, no error.
    pub fn new() -> (m: Self)
        ensures
            monitor_initial(m),
    {
        MonitorState { snapshot: None, connection_error: None, refresh_count: 0 }
    }

    /// Takes the outcome of one request. A snapshot replaces the shown one,
    /// clears the error and is counted; a failure keeps the shown snapshot
    /// and the count and records the error.
    pub fn apply(&mut self, outcome: FetchOutcome)
        requires
            outcome is Received ==> old(self).refresh_count < u64::MAX,
        ensures
            monitor_step(*old(self), outcome, *final(self)),
    {
        match outcome {
            FetchOutcome::Received(s) => {
                self.snapshot = Some(s);
                self.refresh_count = self.refresh_count + 1;
                self.connection_error = None;
            },
            FetchOutcome::Unreadable(e) => {
                let mut m = String::from_str("Could not read backend data: ");
                m.append(e.as_str());
                self.connection_error = Some(m);
            },
            FetchOutcome::Unreachable(e) => {
                let mut m = String::from_str("Backend unavailable: ");
                m.append(e.as_str());
                self.connection_error = Some(m);
            },
        }
    }

    /// The heading the page shows while it has no snapshot.
    pub fn connecting_heading() -> (h: &'static str)
        ensures
            h@ == "Connecting to your energy system…"@,
    {
        "Connecting to your energy system…"
    }

    /// What the page shows while it has no snapshot: the last connection
    /// error, or that it is waiting for the first reading.
    pub fn connecting_message(&self) -> (m: String)
        ensures
            m@ == match self.connection_error {
                Some(e) => e@,
                None => "Waiting for the first cached reading from the local FoxESS backend."@,
            },
    {
        match &self.connection_error {
            Some(e) => e.clone(),
            None => String::from_str(
                "Waiting for the first cached reading from the local FoxESS backend.",
            ),
        }
    }
}

} // verus!
