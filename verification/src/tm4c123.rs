//! The TM4C123x microcontrollers.

pub mod chip_id;
pub mod sysctl;
pub mod timer;
