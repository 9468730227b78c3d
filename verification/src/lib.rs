//! Peripheral control for a Cortex-M microcontroller: the energy management
//! unit, the flash memory controller, and how interrupt priorities are
//! encoded and routed.

pub mod emu;
pub mod msc;
pub mod nvic;
