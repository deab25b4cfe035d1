//! The desktop dashboard: the current snapshot as labelled metrics, and the
//! history of snapshots as power series to plot.
use vstd::prelude::*;
use vstd::string::StringExecFns;
use crate::format::{fixed_text, push_fixed};
use crate::snapshot::{EnergySnapshot, SnapshotView};

verus! {

/// The dashboard's data: the current snapshot and the readings to plot, oldest first.
pub struct DashboardApp {
    pub current: EnergySnapshot,
    pub history: Vec<EnergySnapshot>,
}

/// A labelled value, such as `("Solar", "4.20 kW")`.
pub struct Metric {
    pub label: String,
    pub value: String,
}

/// One line of the power plot: a name and one value (in watts) per reading.
pub struct PowerSeries {
    pub name: String,
    pub values: Vec<i64>,
}

/// A milli value with two decimals, a space and the unit.
pub open spec fn metric_value_text(value_milli: int, unit: Seq<char>) -> Seq<char> {
    fixed_text(value_milli, 2) + " "@ + unit
}

/// Writes a metric's value: the milli value `value_milli` in its unit with
/// two decimals, then a space and the unit.
pub fn metric_text(value_milli: i64, unit: &str) -> (s: String)
    ensures
        s@ == metric_value_text(value_milli as int, unit@),
{
    let mut s = String::new();
    push_fixed(&mut s, value_milli, 2);
    s.append(" ");
    s.append(unit);
    s
}

/// The six metrics of a snapshot, in the order they are shown.
pub open spec fn metrics_of(s: SnapshotView) -> Seq<(Seq<char>, Seq<char>)> {
    seq![
        ("Solar"@, metric_value_text(s.solar_w as int, "kW"@)),
        ("Home"@, metric_value_text(s.home_w as int, "kW"@)),
        ("Battery SoC"@, metric_value_text(s.battery_soc_milli as int, "%"@)),
        ("Battery power"@, metric_value_text(s.battery_w as int, "kW"@)),
        ("Grid import"@, metric_value_text(s.grid_import_w as int, "kW"@)),
        ("Grid export"@, metric_value_text(s.grid_export_w as int, "kW"@)),
    ]
}

pub open spec fn metrics_view(metrics: Seq<Metric>) -> Seq<(Seq<char>, Seq<char>)> {
    metrics.map_values(|m: Metric| (m.label@, m.value@))
}

/// Which reading of a snapshot a series plots.
#[derive(PartialEq, Eq, Structural, Debug, Clone, Copy)]
pub enum SeriesKind {
    Solar,
    Home,
    Battery,
    GridImport,
}

pub open spec fn series_reading(kind: SeriesKind, s: SnapshotView) -> i64 {
    match kind {
        SeriesKind::Solar => s.solar_w,
        SeriesKind::Home => s.home_w,
        SeriesKind::Battery => s.battery_w,
        SeriesKind::GridImport => s.grid_import_w,
    }
}

pub open spec fn series_name(kind: SeriesKind) -> Seq<char> {
    match kind {
        SeriesKind::Solar => "Solar"@,
        SeriesKind::Home => "Home"@,
        SeriesKind::Battery => "Battery"@,
        SeriesKind::GridImport => "Grid import"@,
    }
}

fn metric(label: &str, value_milli: i64, unit: &str) -> (m: Metric)
    ensures
        m.label@ == label@,
        m.value@ == metric_value_text(value_milli as int, unit@),
{
    Metric { label: String::from_str(label), value: metric_text(value_milli, unit) }
}

impl DashboardApp {
    /// The line under the heading: when the current snapshot was taken.
    pub fn updated_label(&self) -> (s: String)
        ensures
            s@ == "Updated: "@ + self.current.timestamp@,
    {
        let mut s = String::from_str("Updated: ");
        s.append(self.current.timestamp.as_str());
        s
    }

    /// The metrics of the current snapshot.
    pub fn metrics(&self) -> (r: Vec<Metric>)
        ensures
            metrics_view(r@) == metrics_of(self.current@),
    {
        let c = &self.current;
        let mut r: Vec<Metric> = Vec::new();
        r.push(metric("Solar", c.solar_w, "kW"));
        r.push(metric("Home", c.home_w, "kW"));
        r.push(metric("Battery SoC", c.battery_soc_milli, "%"));
        r.push(metric("Battery power", c.battery_w, "kW"));
        r.push(metric("Grid import", c.grid_import_w, "kW"));
        r.push(metric("Grid export", c.grid_export_w, "kW"));
        assert(metrics_view(r@) =~= metrics_of(self.current@));
        r
    }

    /// The series of one reading over the history, oldest first.
    pub fn series(&self, kind: SeriesKind) -> (p: PowerSeries)
        ensures
            p.name@ == series_name(kind),
            p.values@.len() == self.history@.len(),
            forall|i: int|
                0 <= i < self.history@.len() ==> p.values@[i] == series_reading(
                    kind,
                    #[trigger] self.history@[i]@,
                ),
    {
        let name = match kind {
            SeriesKind::Solar => String::from_str("Solar"),
            SeriesKind::Home => String::from_str("Home"),
            SeriesKind::Battery => String::from_str("Battery"),
            SeriesKind::GridImport => String::from_str("Grid import"),
        };
        let mut values: Vec<i64> = Vec::new();
        let mut i: usize = 0;
        while i < self.history.len()
            invariant
                i <= self.history.len(),
                values@.len() == i,
                forall|j: int|
                    0 <= j < i ==> values@[j] == series_reading(kind, #[trigger] self.history@[j]@),
            decreases self.history.len() - i,
        {
            let s = &self.history[i];
            let v = match kind {
                SeriesKind::Solar => s.solar_w,
                SeriesKind::Home => s.home_w,
                SeriesKind::Battery => s.battery_w,
                SeriesKind::GridImport => s.grid_import_w,
            };
            values.push(v);
            i += 1;
        }
        PowerSeries { name, values }
    }
}

} // verus!
