//! The Azure commands: what each asks of the service and what it reports.

pub mod common;
pub mod log_analytics;
pub mod output;
pub mod sentinel;
