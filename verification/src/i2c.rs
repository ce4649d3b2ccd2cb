//! Inter-Integrated Circuit (I2C) bus
//!
//! The master side of the bus, as a blocking driver sees it, cut in two.
//! What is decided stands here: the order of the register accesses of a
//! write, a read and a write followed by a read, the control word that
//! goes with each byte, and what a reading of the status register means
//! for a wait. What is carried out stays with the owner of the registers,
//! who runs a transaction like this:
//!
//! 1. start it, with [`I2c::write`], [`I2c::read`] or [`I2c::write_read`];
//! 2. ask for the next [`Request`]; where the transaction is finished, that
//!    is its result;
//! 3. else carry the operation out, hand the [`Reply`] to [`I2c::advance`],
//!    and go back to 2.
//!
//! A wait is asked for again for as long as the status shows the watched
//! signal set. Nothing here bounds it: a bus that never answers keeps the
//! loop going, and whoever needs a deadline has to bring it.
//!
//! [`plan`] holds the operations of each kind of transaction, [`status`]
//! the judgement of a status reading, [`transfer`] the transaction as it
//! moves on, [`controller`] the peripheral that runs one at a time, and
//! [`proofs`] what is proved of all of them.

pub mod controller;
pub mod plan;
pub mod proofs;
pub mod status;
pub mod transfer;

pub use controller::{I2c, SclPin, SdaPin};
pub use plan::{Command, Op};
pub use status::{BusStatus, Error, Flag, Poll};
pub use transfer::{Reply, Request, Transfer, TransferState};
