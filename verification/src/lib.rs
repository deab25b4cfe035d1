//! Energy monitoring for a FoxESS inverter: the FoxESS cloud request and its
//! signature, the interpretation of the cloud's telemetry payload, the cached
//! snapshot served to the web page, and the decisions the dashboards make from
//! a snapshot. Power is carried in whole watts and the battery state of charge
//! in thousandths of a percent.
pub mod backend;
pub mod dashboard;
pub mod decimal;
pub mod format;
pub mod foxess;
pub mod json;
pub mod laws;
pub mod snapshot;
pub mod text;
pub mod view;

