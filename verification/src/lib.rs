//! Plans the debug-probe operations that erase, unlock and identify a
//! microcontroller, one request at a time, for a host that owns the probe.

pub mod common;
pub mod eraser;
pub mod flasher;
pub mod identifier;
pub mod probe;
pub mod text;
