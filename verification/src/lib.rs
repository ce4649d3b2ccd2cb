//! Register-level logic for the TM4C family of microcontrollers.
//!
//! Nothing in this crate touches hardware. Every driver is written as a pure
//! engine: it says which register operation comes next and digests what the
//! hardware answered, so that the sequencing rules can be proved once and
//! then run on any chip of the family, or against a simulated bus.

pub mod bb;
pub mod chip_id;
pub mod i2c;
pub mod sysctl;
pub mod time;
pub mod tm4c123;
pub mod tm4c129;
