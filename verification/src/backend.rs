//! The backend's state: the cached snapshot that it serves, what each refresh
//! does to it, and the health report.
use vstd::prelude::*;
use vstd::string::StringExecFns;
use crate::snapshot::{EnergySnapshot, SnapshotView};

verus! {

/// How often the backend asks the FoxESS cloud for a new snapshot.
pub const REFRESH_INTERVAL_SECONDS: u64 = 60;

/// How often the web page asks the backend for the cached snapshot.
pub const WEBSITE_REFRESH_SECONDS: u64 = 10;

/// The snapshot served before the first refresh succeeds.
pub open spec fn waiting_snapshot() -> SnapshotView {
    SnapshotView {
        timestamp: "Waiting for first FoxESS update"@,
        solar_w: 0,
        home_w: 0,
        battery_soc_milli: 0,
        battery_w: 0,
        grid_import_w: 0,
        grid_export_w: 0,
    }
}

/// The last snapshot the backend fetched, which it serves to every reader.
pub struct SnapshotCache {
    snapshot: EnergySnapshot,
}

/// The line a refresh logs: an update to standard output, a failure to
/// standard error.
pub enum RefreshLog {
    Updated(String),
    Failed(String),
}

impl View for SnapshotCache {
    type V = SnapshotView;

    closed spec fn view(&self) -> SnapshotView {
        self.snapshot@
    }
}

impl SnapshotCache {
    pub fn new() -> (c: Self)
        ensures
            c@ == waiting_snapshot(),
    {
        SnapshotCache {
            snapshot: EnergySnapshot {
                timestamp: String::from_str("Waiting for first FoxESS update"),
                solar_w: 0,
                home_w: 0,
                battery_soc_milli: 0,
                battery_w: 0,
                grid_import_w: 0,
                grid_export_w: 0,
            },
        }
    }

    /// The snapshot a reader gets: a copy of the cached one.
    pub fn current(&self) -> (s: EnergySnapshot)
        ensures
            s@ == self@,
    {
        self.snapshot.clone()
    }

    /// Takes the outcome of one refresh: a fetched snapshot replaces the
    /// cached one, a failure leaves it as it was. Returns the line to log.
    pub fn record(&mut self, outcome: Result<EnergySnapshot, String>) -> (log: RefreshLog)
        ensures
            match outcome {
                Ok(s) => {
                    &&& final(self)@ == s@
                    &&& log matches RefreshLog::Updated(line) && line@ == "FoxESS updated: "@
                        + s.timestamp@
                },
                Err(e) => {
                    &&& final(self)@ == old(self)@
                    &&& log matches RefreshLog::Failed(line) && line@ == "FoxESS refresh failed: "@
                        + e@
                },
            },
    {
        match outcome {
            Ok(s) => {
                let mut line = String::from_str("FoxESS updated: ");
                line.append(s.timestamp.as_str());
                self.snapshot = s;
                RefreshLog::Updated(line)
            },
            Err(e) => {
                let mut line = String::from_str("FoxESS refresh failed: ");
                line.append(e.as_str());
                RefreshLog::Failed(line)
            },
        }
    }
}

/// What the health endpoint reports.
pub struct HealthStatus {
    pub status: String,
    pub refresh_interval_seconds: u64,
    pub website_refresh_seconds: u64,
}

/// The health report: the backend is up, with the refresh intervals of the
/// backend and of the web page.
pub fn health_status() -> (h: HealthStatus)
    ensures
        h.status@ == "ok"@,
        h.refresh_interval_seconds == REFRESH_INTERVAL_SECONDS,
        h.website_refresh_seconds == WEBSITE_REFRESH_SECONDS,
{
    HealthStatus {
        status: String::from_str("ok"),
        refresh_interval_seconds: REFRESH_INTERVAL_SECONDS,
        website_refresh_seconds: WEBSITE_REFRESH_SECONDS,
    }
}

} // verus!
