//! The register operations that make up a transaction, in order.
//!
//! A transaction moves bytes one at a time. What is written to the control
//! register with each byte depends on where the byte stands in its
//! direction: the first one carries START, the last one STOP, and while
//! receiving every byte but the last is acknowledged.

use vstd::prelude::*;
use crate::i2c::status::Flag;

verus! {

/// How many clock cycles a command is given to take hold before the status
/// is first read: it takes the hardware up to eight cycles to raise the
/// busy signals, and a loop that reads them sooner can take the controller
/// for idle.
pub const SETTLE_CYCLES: u32 = 2;

/// A word for the master control register: which of its four bits are set.
#[derive(Clone, Copy, Debug, PartialEq, Eq, Structural)]
pub struct Command {
    /// Generate a START (or repeated START) condition.
    pub start: bool,
    /// Generate a STOP condition after the byte.
    pub stop: bool,
    /// Run the master on the next byte.
    pub run: bool,
    /// Acknowledge the byte that is received.
    pub ack: bool,
}

/// One access to the controller, as the engine asks for it.
#[derive(Clone, Copy, Debug, PartialEq, Eq, Structural)]
pub enum Op {
    /// Write the configuration register with only the master function
    /// enabled.
    Enable,
    /// Write the timer period register. The period field is seven bits
    /// wide and takes the low seven bits of the value.
    Period(u8),
    /// Write the slave address register: the target and the direction. The
    /// address field is seven bits wide and takes the low seven bits of the
    /// value.
    Address { addr: u8, receive: bool },
    /// Write the data register.
    Load(u8),
    /// Let `SETTLE_CYCLES` clock cycles pass.
    Settle,
    /// Wait for a busy signal to clear: read the status register, and
    /// again for as long as the readings show the signal set and no
    /// failure.
    Poll(Flag),
    /// Write the control register.
    Issue(Command),
    /// Read the data register into the next free slot of the buffer.
    Capture,
}

impl Command {
    /// The control word for byte `i` of `n` outgoing bytes. The last byte
    /// carries STOP only where the transaction ends with it.
    pub open spec fn transmit_at(i: int, n: int, stop: bool) -> Command {
        Command { start: i == 0, stop: stop && i == n - 1, run: true, ack: false }
    }

    /// The control word for byte `i` of `n` incoming bytes.
    pub open spec fn receive_at(i: int, n: int) -> Command {
        Command { start: i == 0, stop: i == n - 1, run: true, ack: i < n - 1 }
    }

    /// The control word that sends one byte, by its place in the outgoing
    /// run.
    pub fn transmit(first: bool, last: bool, stop: bool) -> (c: Command)
        ensures
            c == (Command { start: first, stop: stop && last, run: true, ack: false }),
    {
        Command { start: first, stop: stop && last, run: true, ack: false }
    }

    /// The control word that fetches one byte, by its place in the incoming
    /// run.
    pub fn receive(first: bool, last: bool) -> (c: Command)
        ensures
            c == (Command { start: first, stop: last, run: true, ack: !last }),
    {
        Command { start: first, stop: last, run: true, ack: !last }
    }
}

/// The operations that send byte `i`. The first byte is loaded before the
/// bus is known to be free; each later one waits for its predecessor.
pub open spec fn transmit_step(bytes: Seq<u8>, i: int, stop: bool) -> Seq<Op> {
    let command = Command::transmit_at(i, bytes.len() as int, stop);
    if i == 0 {
        seq![Op::Load(bytes[i]), Op::Settle, Op::Poll(Flag::BusBusy), Op::Issue(command)]
    } else {
        seq![Op::Settle, Op::Poll(Flag::Busy), Op::Load(bytes[i]), Op::Issue(command)]
    }
}

/// The operations that send the first `k` bytes.
pub open spec fn transmit_body(bytes: Seq<u8>, k: nat, stop: bool) -> Seq<Op>
    decreases k,
{
    if k == 0 {
        Seq::empty()
    } else {
        transmit_body(bytes, (k - 1) as nat, stop) + transmit_step(bytes, k - 1, stop)
    }
}

/// The outgoing phase: address with the write direction, every byte, and a
/// last wait for the final byte to leave. Nothing at all for no bytes.
pub open spec fn transmit_ops(addr: u8, bytes: Seq<u8>, stop: bool) -> Seq<Op> {
    if bytes.len() == 0 {
        Seq::empty()
    } else {
        seq![Op::Address { addr, receive: false }] + transmit_body(bytes, bytes.len(), stop)
            + seq![Op::Settle, Op::Poll(Flag::Busy)]
    }
}

/// The operations that fetch byte `i` of `n`.
pub open spec fn receive_step(n: int, i: int) -> Seq<Op> {
    seq![Op::Issue(Command::receive_at(i, n)), Op::Settle, Op::Poll(Flag::Busy), Op::Capture]
}

/// The operations that fetch the first `k` of `n` bytes.
pub open spec fn receive_body(n: int, k: nat) -> Seq<Op>
    decreases k,
{
    if k == 0 {
        Seq::empty()
    } else {
        receive_body(n, (k - 1) as nat) + receive_step(n, k - 1)
    }
}

/// What follows the address of an incoming phase: a wait for the bus where
/// the phase opens a transaction, nothing where it continues one.
pub open spec fn receive_lead(fresh: bool) -> Seq<Op> {
    if fresh {
        seq![Op::Settle, Op::Poll(Flag::BusBusy)]
    } else {
        Seq::empty()
    }
}

/// The incoming phase: address with the read direction, then every byte.
/// Nothing at all for no bytes.
pub open spec fn receive_ops(addr: u8, n: nat, fresh: bool) -> Seq<Op> {
    if n == 0 {
        Seq::empty()
    } else {
        seq![Op::Address { addr, receive: true }] + receive_lead(fresh) + receive_body(
            n as int,
            n,
        )
    }
}

/// A write of `bytes` to the device at `addr`.
pub open spec fn write_ops(addr: u8, bytes: Seq<u8>) -> Seq<Op> {
    transmit_ops(addr, bytes, true)
}

/// A read of `n` bytes from the device at `addr`.
pub open spec fn read_ops(addr: u8, n: nat) -> Seq<Op> {
    receive_ops(addr, n, true)
}

/// A write of `bytes` followed by a read of `n` bytes. With both sides
/// present the write gives up its STOP and the read opens with a repeated
/// START, so the bus is never released in between.
pub open spec fn write_read_ops(addr: u8, bytes: Seq<u8>, n: nat) -> Seq<Op> {
    if n == 0 {
        write_ops(addr, bytes)
    } else if bytes.len() == 0 {
        read_ops(addr, n)
    } else {
        transmit_ops(addr, bytes, false) + receive_ops(addr, n, false)
    }
}

/// What construction programs: master mode, then the timer period.
pub open spec fn setup_ops(period: u8) -> Seq<Op> {
    seq![Op::Enable, Op::Period(period)]
}

/// Appends the outgoing phase for `bytes` to `ops`.
pub(crate) fn push_transmit(ops: &mut Vec<Op>, addr: u8, bytes: &[u8], stop: bool)
    ensures
        final(ops)@ == old(ops)@ + transmit_ops(addr, bytes@, stop),
{
    let n = bytes.len();
    if n == 0 {
        return ;
    }
    let ghost before = ops@;
    ops.push(Op::Address { addr, receive: false });
    let mut i: usize = 0;
    while i < n
        invariant
            i <= n,
            n == bytes.len(),
            ops@ == before + seq![Op::Address { addr, receive: false }] + transmit_body(
                bytes@,
                i as nat,
                stop,
            ),
        decreases n - i,
    {
        let command = Command::transmit(i == 0, i + 1 == n, stop);
        if i == 0 {
            ops.push(Op::Load(bytes[i]));
            ops.push(Op::Settle);
            ops.push(Op::Poll(Flag::BusBusy));
            ops.push(Op::Issue(command));
        } else {
            ops.push(Op::Settle);
            ops.push(Op::Poll(Flag::Busy));
            ops.push(Op::Load(bytes[i]));
            ops.push(Op::Issue(command));
        }
        i += 1;
    }
    ops.push(Op::Settle);
    ops.push(Op::Poll(Flag::Busy));
}

/// Appends the incoming phase for `n` bytes to `ops`.
pub(crate) fn push_receive(ops: &mut Vec<Op>, addr: u8, n: usize, fresh: bool)
    ensures
        final(ops)@ == old(ops)@ + receive_ops(addr, n as nat, fresh),
{
    if n == 0 {
        return ;
    }
    let ghost before = ops@;
    ops.push(Op::Address { addr, receive: true });
    if fresh {
        ops.push(Op::Settle);
        ops.push(Op::Poll(Flag::BusBusy));
    }
    let mut i: usize = 0;
    while i < n
        invariant
            i <= n,
            ops@ == before + seq![Op::Address { addr, receive: true }] + receive_lead(fresh)
                + receive_body(n as int, i as nat),
        decreases n - i,
    {
        ops.push(Op::Issue(Command::receive(i == 0, i + 1 == n)));
        ops.push(Op::Settle);
        ops.push(Op::Poll(Flag::Busy));
        ops.push(Op::Capture);
        i += 1;
    }
}

} // verus!

verus! {

/// The words written to the control register over `ops`, in order.
pub open spec fn commands(ops: Seq<Op>) -> Seq<Command>
    decreases ops.len(),
{
    if ops.len() == 0 {
        Seq::empty()
    } else {
        let before = commands(ops.drop_last());
        match ops.last() {
            Op::Issue(command) => before.push(command),
            _ => before,
        }
    }
}

/// How many bytes `ops` reads from the data register.
pub open spec fn captures(ops: Seq<Op>) -> nat
    decreases ops.len(),
{
    if ops.len() == 0 {
        0
    } else {
        let before = captures(ops.drop_last());
        match ops.last() {
            Op::Capture => before + 1,
            _ => before,
        }
    }
}

} // verus!
