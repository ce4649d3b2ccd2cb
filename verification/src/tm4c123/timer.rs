//! Timers
//!
//! A general-purpose timer run as a periodic count down timer over its
//! full width. The functions here say which registers to write, and with
//! what; they leave the writing to the owner of the registers.

use vstd::prelude::*;
use crate::sysctl::{Clocks, PowerControl};
use crate::time::Hertz;

verus! {

/// Hardware timers
pub struct Timer<TIM> {
    tim: TIM,
    clocks: Clocks,
    timeout: Hertz,
}

/// Interrupt events
#[derive(Clone, Copy, Debug, PartialEq, Eq, Structural)]
pub enum Event {
    /// Timer timed out / count down ended
    TimeOut,
}

/// One access to the timer's registers.
#[derive(Clone, Copy, Debug, PartialEq, Eq, Structural)]
pub enum TimerOp {
    /// Write the control register: both halves disabled, and the timer
    /// stalled while the processor is halted by a debugger.
    Halt,
    /// Write the configuration register for the full width of the timer.
    FullWidth,
    /// Write the mode register of timer A for periodic operation.
    Periodic,
    /// Clear the two enable bits of the control register.
    Disable,
    /// Write the value register of timer A.
    Value(u32),
    /// Write the interval load register of timer A.
    Load(u32),
    /// Set the enable bit of timer A in the control register.
    Enable,
    /// Set or clear the time-out bit of the interrupt mask register.
    Mask(bool),
    /// Write the interrupt clear register with the time-out bit set.
    Acknowledge,
    /// Write the control register with both halves disabled.
    Stop,
}

/// The number of system clock ticks in one period of `timeout`.
pub open spec fn ticks(clocks: Clocks, timeout: Hertz) -> u32
    recommends
        timeout.0 > 0,
{
    (clocks.sysclk.0 / timeout.0) as u32
}

/// The register writes that start a count down of one period of
/// `timeout`: stop the timer, load the tick count as value and as reload
/// value, and start it again.
pub open spec fn start_ops(clocks: Clocks, timeout: Hertz) -> Seq<TimerOp> {
    seq![
        TimerOp::Disable,
        TimerOp::Value(ticks(clocks, timeout)),
        TimerOp::Load(ticks(clocks, timeout)),
        TimerOp::Enable,
    ]
}

/// The register writes that set the timer up before its first start.
pub open spec fn setup_ops() -> Seq<TimerOp> {
    seq![TimerOp::Halt, TimerOp::FullWidth, TimerOp::Periodic]
}

impl<TIM> Timer<TIM> {
    /// The peripheral this timer owns.
    pub closed spec fn peripheral(&self) -> TIM {
        self.tim
    }

    /// The clocks the timer counts by.
    pub closed spec fn clocks(&self) -> Clocks {
        self.clocks
    }

    /// The frequency the timer was last started at.
    pub closed spec fn timeout(&self) -> Hertz {
        self.timeout
    }

    /// Configures a TIM peripheral as a periodic count down timer
    ///
    /// The peripheral must have been powered and reset. Comes back with
    /// the register writes that set the timer up and start it.
    pub fn new(tim: TIM, timeout: Hertz, pc: &PowerControl, clocks: Clocks) -> (made: (
        Timer<TIM>,
        Vec<TimerOp>,
    ))
        requires
            timeout.0 > 0,
        ensures
            made.0.peripheral() == tim,
            made.0.clocks() == clocks,
            made.0.timeout() == timeout,
            made.1@ == setup_ops() + start_ops(clocks, timeout),
    {
        let mut timer = Timer { tim, clocks, timeout: Hertz(0) };
        let mut ops: Vec<TimerOp> = Vec::new();
        ops.push(TimerOp::Halt);
        ops.push(TimerOp::FullWidth);
        ops.push(TimerOp::Periodic);
        let mut start = timer.start(timeout);
        ops.append(&mut start);
        (timer, ops)
    }

    /// Starts a new count down
    pub fn start(&mut self, timeout: Hertz) -> (ops: Vec<TimerOp>)
        requires
            timeout.0 > 0,
        ensures
            final(self).timeout() == timeout,
            final(self).peripheral() == old(self).peripheral(),
            final(self).clocks() == old(self).clocks(),
            ops@ == start_ops(old(self).clocks(), timeout),
    {
        self.timeout = timeout;
        let frequency = self.timeout.0;
        let ticks: u32 = self.clocks.sysclk.0 / frequency;
        let mut ops: Vec<TimerOp> = Vec::new();
        ops.push(TimerOp::Disable);
        ops.push(TimerOp::Value(ticks));
        ops.push(TimerOp::Load(ticks));
        ops.push(TimerOp::Enable);
        assert(ops@ =~= start_ops(self.clocks, timeout));
        ops
    }

    /// Judges the raw time-out flag: where the count down has ended, the
    /// flag is to be acknowledged; where it has not, there is nothing to do
    /// but to look again.
    pub fn wait(&mut self, timed_out: bool) -> (op: Option<TimerOp>)
        ensures
            *final(self) == *old(self),
            op == if timed_out {
                Some(TimerOp::Acknowledge)
            } else {
                None
            },
    {
        if timed_out {
            Some(TimerOp::Acknowledge)
        } else {
            None
        }
    }

    /// Starts listening for an `event`
    pub fn listen(&mut self, event: Event) -> (op: TimerOp)
        ensures
            *final(self) == *old(self),
            op == TimerOp::Mask(true),
    {
        match event {
            Event::TimeOut => TimerOp::Mask(true),
        }
    }

    /// Stops listening for an `event`
    pub fn unlisten(&mut self, event: Event) -> (op: TimerOp)
        ensures
            *final(self) == *old(self),
            op == TimerOp::Mask(false),
    {
        match event {
            Event::TimeOut => TimerOp::Mask(false),
        }
    }

    /// The registers to carry the operations out on.
    pub fn registers(&self) -> (tim: &TIM)
        ensures
            *tim == self.peripheral(),
    {
        &self.tim
    }

    /// Releases the TIM peripheral
    pub fn free(self) -> (parts: (TIM, TimerOp))
        ensures
            parts.0 == self.peripheral(),
            parts.1 == TimerOp::Stop,
    {
        (self.tim, TimerOp::Stop)
    }
}

} // verus!
