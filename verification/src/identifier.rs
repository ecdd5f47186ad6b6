//! Reading a target's identity: its factory-programmed unique id and the
//! size of its flash.

pub mod base_identifier;
pub mod identify_laws;
pub mod identifier_binding;
pub mod identify_run;
pub mod stm32l0_identifier;
