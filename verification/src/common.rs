//! Types shared by the erasers, the identifiers and the call boundary.

pub mod plunger_error;
pub mod probe_info;
pub mod registry;
