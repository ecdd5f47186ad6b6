//! Writing a firmware file to a target with the probe layer's loader.

pub mod generic_flasher;
