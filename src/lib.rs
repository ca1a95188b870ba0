//! Certificate-expiry monitoring: exact calendar arithmetic on certificate
//! times, the remaining validity of a probed certificate, and the per-target
//! decisions of a scan (fallback retry, reports, alerts, liveness checks).
pub mod calendar;
pub mod time_text;
pub mod text;
pub mod expiry;
pub mod monitor;
pub mod target;
