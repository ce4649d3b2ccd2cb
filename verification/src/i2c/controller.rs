//! The master controller: the peripheral, its two lines, and the
//! transaction it is busy with.

use vstd::prelude::*;
use crate::i2c::plan::{read_ops, setup_ops, write_ops, write_read_ops};
use crate::i2c::transfer::{Reply, Request, Transfer, TransferState};
use crate::sysctl::{Clocks, PowerControl};
use crate::time::Hertz;

verus! {

/// SCL pin: implemented for a line type that can carry the clock of the
/// peripheral `I2C`.
pub trait SclPin<I2C> {

}

/// SDA pin: implemented for a line type that can carry the data of the
/// peripheral `I2C`.
pub trait SdaPin<I2C> {

}

/// The number of periods of twenty bus clocks in one second of the system
/// clock, rounded to the nearest whole number, a half going up.
pub open spec fn periods(sysclk: u32, freq: u32) -> int
    recommends
        freq > 0,
{
    (2 * sysclk as int + 20 * freq as int) / (40 * freq as int)
}

/// The value of the timer period register for a bus clocked at `freq` Hz
/// from a system clock of `sysclk` Hz: one less than the rounded number of
/// periods, cut down to eight bits.
pub open spec fn timer_period(sysclk: u32, freq: u32) -> u8
    recommends
        freq > 0,
{
    ((periods(sysclk, freq) - 1) % 256) as u8
}

/// The rounded number of periods is the whole number nearest to the true
/// quotient of the system clock by twenty times the bus frequency: it lies
/// no more than a half from it. Where the division comes out even it is
/// the quotient itself.
pub proof fn lemma_periods_nearest(sysclk: u32, freq: u32)
    requires
        freq > 0,
    ensures
        2 * sysclk - 20 * freq < 40 * freq * periods(sysclk, freq) <= 2 * sysclk + 20 * freq,
        sysclk as int % (20 * freq as int) == 0 ==> periods(sysclk, freq) == sysclk as int / (20
            * freq as int),
{
    let s = sysclk as int;
    let d = 20 * freq as int;
    let q = periods(sysclk, freq);
    assert(q == (2 * s + d) / (2 * d));
    assert(2 * d * q <= 2 * s + d < 2 * d * q + 2 * d) by (nonlinear_arith)
        requires
            d > 0,
            q == (2 * s + d) / (2 * d),
    ;
    assert(40 * freq * q == 2 * d * q) by (nonlinear_arith)
        requires
            d == 20 * freq as int,
    ;
    if s % d == 0 {
        let e = s / d;
        assert(s == e * d) by (nonlinear_arith)
            requires
                d > 0,
                s % d == 0,
                e == s / d,
        ;
        assert(q == e) by (nonlinear_arith)
            requires
                d > 0,
                s == e * d,
                2 * d * q <= 2 * s + d < 2 * d * q + 2 * d,
        ;
    }
}

/// Computes the timer period register for a bus frequency.
///
/// The number of periods is not checked against the register's range: a
/// bus far too slow for the system clock gives a period that is cut down,
/// and one so fast that the periods round to none gives 255.
pub fn period_for(sysclk: Hertz, freq: Hertz) -> (period: u8)
    requires
        freq.0 > 0,
    ensures
        period == timer_period(sysclk.0, freq.0),
        period as int == ((2 * sysclk.0 as int + 20 * freq.0 as int) / (40 * freq.0 as int) - 1)
            % 256,
{
    let twice: u64 = 2 * (sysclk.0 as u64) + 2 * 10 * (freq.0 as u64);
    let rounded: u64 = twice / (2 * 2 * 10 * (freq.0 as u64));
    if rounded == 0 {
        255
    } else {
        ((rounded - 1) % 256) as u8
    }
}

/// I2C peripheral operating in master mode
pub struct I2c<I2C, PINS> {
    i2c: I2C,
    pins: PINS,
    transfer: Transfer,
}

impl<I2C, PINS> I2c<I2C, PINS> {
    /// The peripheral this controller owns.
    pub closed spec fn peripheral(&self) -> I2C {
        self.i2c
    }

    /// The lines this controller owns.
    pub closed spec fn lines(&self) -> PINS {
        self.pins
    }

    /// The transaction this controller is busy with, or was last.
    pub closed spec fn state(&self) -> TransferState {
        self.transfer@
    }

    /// Releases the I2C peripheral and associated pins
    pub fn free(self) -> (parts: (I2C, PINS))
        ensures
            parts.0 == self.peripheral(),
            parts.1 == self.lines(),
    {
        (self.i2c, self.pins)
    }

    /// The registers to carry the requested operations out on.
    pub fn registers(&self) -> (i2c: &I2C)
        ensures
            *i2c == self.peripheral(),
    {
        &self.i2c
    }

    /// Starts a write of `bytes` to the device at `addr`.
    pub fn write(&mut self, addr: u8, bytes: &[u8])
        ensures
            final(self).state() == TransferState::begin(write_ops(addr, bytes@)),
            bytes@.len() == 0 ==> final(self).state().request() == Request::Finish(Ok(())),
            final(self).peripheral() == old(self).peripheral(),
            final(self).lines() == old(self).lines(),
    {
        self.transfer = Transfer::write(addr, bytes);
    }

    /// Starts a read of `len` bytes from the device at `addr`.
    pub fn read(&mut self, addr: u8, len: usize)
        ensures
            final(self).state() == TransferState::begin(read_ops(addr, len as nat)),
            len == 0 ==> final(self).state().request() == Request::Finish(Ok(())),
            final(self).peripheral() == old(self).peripheral(),
            final(self).lines() == old(self).lines(),
    {
        self.transfer = Transfer::read(addr, len);
    }

    /// Starts a write of `bytes` to the device at `addr` followed by a read
    /// of `len` bytes from it.
    pub fn write_read(&mut self, addr: u8, bytes: &[u8], len: usize)
        ensures
            final(self).state() == TransferState::begin(
                write_read_ops(addr, bytes@, len as nat),
            ),
            final(self).peripheral() == old(self).peripheral(),
            final(self).lines() == old(self).lines(),
    {
        self.transfer = Transfer::write_read(addr, bytes, len);
    }

    /// What to do next for the transaction in hand.
    pub fn request(&self) -> (r: Request)
        ensures
            r == self.state().request(),
    {
        self.transfer.request()
    }

    /// Takes in what came of the operation last asked for.
    pub fn advance(&mut self, reply: Reply)
        ensures
            final(self).state() == old(self).state().advance(reply),
            final(self).peripheral() == old(self).peripheral(),
            final(self).lines() == old(self).lines(),
    {
        self.transfer.advance(reply);
    }

    /// The bytes read by the transaction in hand so far.
    pub fn received(&self) -> (bytes: &[u8])
        ensures
            bytes@ == self.state().received,
    {
        self.transfer.received()
    }
}

impl<I2C, SCL: SclPin<I2C>, SDA: SdaPin<I2C>> I2c<I2C, (SCL, SDA)> {
    /// Configures the I2C peripheral to work in master mode
    ///
    /// The peripheral must have been powered and reset. The controller
    /// comes back with the two register writes pending that enable the
    /// master function and set the bus speed.
    pub fn new(
        i2c: I2C,
        pins: (SCL, SDA),
        freq: Hertz,
        clocks: &Clocks,
        pc: &PowerControl,
    ) -> (bus: Self)
        requires
            freq.0 > 0,
        ensures
            bus.peripheral() == i2c,
            bus.lines() == pins,
            bus.state() == TransferState::begin(
                setup_ops(timer_period(clocks.sysclk.0, freq.0)),
            ),
    {
        let period = period_for(clocks.sysclk, freq);
        I2c { i2c, pins, transfer: Transfer::setup(period) }
    }
}

} // verus!
