//! The master status word and what one look at it decides.

use vstd::prelude::*;

verus! {

/// I2C error
#[derive(Clone, Copy, Debug, PartialEq, Eq, Structural)]
#[non_exhaustive]
pub enum Error {
    /// Bus error
    Bus,
    /// Arbitration loss
    Arbitration,
    /// Missing data ACK
    DataAck,
    /// Missing address ACK
    AdrAck,
}

/// The two "in progress" signals a wait can watch.
#[derive(Clone, Copy, Debug, PartialEq, Eq, Structural)]
pub enum Flag {
    /// The controller is still shifting the current byte.
    Busy,
    /// The bus itself is still occupied by the address phase.
    BusBusy,
}

/// One reading of the master control/status register, field by field.
#[derive(Clone, Copy, Debug, PartialEq, Eq, Structural)]
pub struct BusStatus {
    /// The previous byte transfer is still in flight.
    pub busy: bool,
    /// The bus is occupied.
    pub bus_busy: bool,
    /// The last operation failed; the two acknowledge flags say how.
    pub error: bool,
    /// The address was not acknowledged.
    pub adr_ack: bool,
    /// The data byte was not acknowledged.
    pub dat_ack: bool,
    /// Another master won the bus.
    pub arb_lost: bool,
}

/// What a single status reading means for a wait.
#[derive(Clone, Copy, Debug, PartialEq, Eq, Structural)]
pub enum Poll {
    /// The watched signal has cleared; the transfer may go on.
    Ready,
    /// Still in progress; read the status again.
    Pending,
    /// The transfer is over and has failed.
    Failed(Error),
}

impl BusStatus {
    /// The kind of failure a set error flag stands for: a missing address
    /// acknowledge outranks a missing data acknowledge, and with neither
    /// it is a plain bus error.
    pub open spec fn fault(self) -> Error {
        if self.adr_ack {
            Error::AdrAck
        } else if self.dat_ack {
            Error::DataAck
        } else {
            Error::Bus
        }
    }

    /// The value of the signal that `flag` names.
    pub open spec fn signal(self, flag: Flag) -> bool {
        match flag {
            Flag::Busy => self.busy,
            Flag::BusBusy => self.bus_busy,
        }
    }

    /// What this reading decides for a wait on `flag`. Arbitration loss is
    /// a condition of its own and goes before everything else: it is not
    /// one of the kinds of error, and a reading that shows it fails the
    /// wait with it whatever the error flag says. The error flag is looked
    /// at second, the watched signal last.
    pub open spec fn verdict(self, flag: Flag) -> Poll {
        if self.arb_lost {
            Poll::Failed(Error::Arbitration)
        } else if self.error {
            Poll::Failed(self.fault())
        } else if self.signal(flag) {
            Poll::Pending
        } else {
            Poll::Ready
        }
    }

    /// Names the failure behind a set error flag.
    pub fn classify(&self) -> (e: Error)
        ensures
            e == self.fault(),
            e == Error::AdrAck <==> self.adr_ack,
            e == Error::DataAck <==> !self.adr_ack && self.dat_ack,
            e == Error::Bus <==> !self.adr_ack && !self.dat_ack,
            e != Error::Arbitration,
    {
        if self.adr_ack {
            Error::AdrAck
        } else if self.dat_ack {
            Error::DataAck
        } else {
            Error::Bus
        }
    }

    /// Judges one status reading taken while waiting for `flag` to clear.
    pub fn poll(&self, flag: Flag) -> (p: Poll)
        ensures
            p == self.verdict(flag),
            p == Poll::Ready <==> !self.error && !self.arb_lost && !self.signal(flag),
            p == Poll::Pending <==> !self.error && !self.arb_lost && self.signal(flag),
            p == Poll::Failed(Error::Arbitration) <==> self.arb_lost,
            p == Poll::Failed(Error::AdrAck) <==> !self.arb_lost && self.error && self.adr_ack,
            p == Poll::Failed(Error::DataAck) <==> !self.arb_lost && self.error && !self.adr_ack
                && self.dat_ack,
            p == Poll::Failed(Error::Bus) <==> !self.arb_lost && self.error && !self.adr_ack
                && !self.dat_ack,
    {
        if self.arb_lost {
            return Poll::Failed(Error::Arbitration);
        }
        if self.error {
            return Poll::Failed(self.classify());
        }
        let watched = match flag {
            Flag::Busy => self.busy,
            Flag::BusBusy => self.bus_busy,
        };
        if watched {
            Poll::Pending
        } else {
            Poll::Ready
        }
    }
}

} // verus!
