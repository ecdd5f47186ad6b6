//! Whole-chip erase: the generic routine, the protection-regression erase
//! of the STM32L0 family, and the choice between them by target name.

pub mod base_eraser;
pub mod erase_laws;
pub mod erase_run;
pub mod eraser_binding;
pub mod eraser_error;
pub mod generic_eraser;
pub mod stm32l0_eraser;
