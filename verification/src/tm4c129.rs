//! The TM4C129x microcontrollers.

pub mod chip_id;
pub mod sysctl;
