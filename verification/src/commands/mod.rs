//! The commands that set a run up.

pub mod m365_auth;
