//! The words that the library and the host of the probe exchange, and the
//! listing of attached probes.

pub mod link;
pub mod probe_binding;
