//! A transaction in progress.
//!
//! The engine never touches the controller. It hands out one register
//! operation at a time and is told what came of it; whoever owns the
//! registers carries the operation out. A wait is a single operation that
//! is asked for again after every status reading that shows the watched
//! signal still set, so how long a wait lasts is up to the bus alone.

use vstd::prelude::*;
use crate::i2c::plan::{
    push_receive,
    push_transmit,
    read_ops,
    setup_ops,
    write_ops,
    write_read_ops,
    Op,
};
use crate::i2c::status::{BusStatus, Error, Poll};

verus! {

/// What the engine wants next.
#[derive(Clone, Copy, Debug, PartialEq, Eq)]
pub enum Request {
    /// Carry out this register operation and report back. For a wait that
    /// is one reading of the status register.
    Perform(Op),
    /// The transaction is over, with this result.
    Finish(Result<(), Error>),
}

/// What came of the operation last asked for.
#[derive(Clone, Copy, Debug, PartialEq, Eq)]
pub enum Reply {
    /// A register write or the settling delay has been carried out.
    Done,
    /// The status register, just read.
    Status(BusStatus),
    /// The data register, just read.
    Data(u8),
}

/// Whether `reply` is an answer to `op`: a status reading to a poll, a
/// data byte to a capture, a bare acknowledgement to everything else.
pub open spec fn answers(reply: Reply, op: Op) -> bool {
    match op {
        Op::Poll(_) => reply is Status,
        Op::Capture => reply is Data,
        _ => reply is Done,
    }
}

/// The mathematical state of a transfer.
pub struct TransferState {
    /// Every operation of the transaction, in order.
    pub ops: Seq<Op>,
    /// How many of them are behind us.
    pub pos: nat,
    /// The bytes captured so far.
    pub received: Seq<u8>,
    /// The failure that ended the transaction, if one did.
    pub failure: Option<Error>,
}

impl TransferState {
    /// A transaction about to start.
    pub open spec fn begin(ops: Seq<Op>) -> TransferState {
        TransferState { ops, pos: 0, received: Seq::empty(), failure: None }
    }

    /// Over, one way or the other.
    pub open spec fn finished(self) -> bool {
        self.failure is Some || self.pos >= self.ops.len()
    }

    /// The result a finished transaction reports.
    pub open spec fn result(self) -> Result<(), Error> {
        match self.failure {
            Some(e) => Err(e),
            None => Ok(()),
        }
    }

    /// The operation in hand.
    pub open spec fn current(self) -> Op
        recommends
            !self.finished(),
    {
        self.ops[self.pos as int]
    }

    /// What is asked of the register owner in this state.
    pub open spec fn request(self) -> Request {
        if self.finished() {
            Request::Finish(self.result())
        } else {
            Request::Perform(self.current())
        }
    }

    /// The state with the operation in hand behind us.
    pub open spec fn step(self) -> TransferState {
        TransferState { pos: self.pos + 1, ..self }
    }

    /// The state after `reply`. A finished transaction stays as it is, and
    /// so does one that is told something it did not ask for. A status
    /// reading moves a wait on, leaves it in place or fails the
    /// transaction; a data byte is stored; anything else just moves on.
    pub open spec fn advance(self, reply: Reply) -> TransferState {
        if self.finished() || !answers(reply, self.current()) {
            self
        } else {
            match reply {
                Reply::Done => self.step(),
                Reply::Data(byte) => TransferState {
                    received: self.received.push(byte),
                    ..self.step()
                },
                Reply::Status(status) => match status.verdict(self.current()->Poll_0) {
                    Poll::Ready => self.step(),
                    Poll::Pending => self,
                    Poll::Failed(e) => TransferState { failure: Some(e), ..self },
                },
            }
        }
    }

    /// The state after a whole series of replies.
    pub open spec fn run(self, replies: Seq<Reply>) -> TransferState
        decreases replies.len(),
    {
        if replies.len() == 0 {
            self
        } else {
            self.run(replies.drop_last()).advance(replies.last())
        }
    }
}

/// A transaction in progress: its operations, how far it has come, and the
/// bytes it has read.
pub struct Transfer {
    ops: Vec<Op>,
    pos: usize,
    received: Vec<u8>,
    failure: Option<Error>,
}

impl View for Transfer {
    type V = TransferState;

    closed spec fn view(&self) -> TransferState {
        TransferState {
            ops: self.ops@,
            pos: self.pos as nat,
            received: self.received@,
            failure: self.failure,
        }
    }
}

impl Transfer {
    fn begin(ops: Vec<Op>) -> (t: Transfer)
        ensures
            t@ == TransferState::begin(ops@),
    {
        Transfer { ops, pos: 0, received: Vec::new(), failure: None }
    }

    /// The two register writes that put the controller in master mode at
    /// the given timer period.
    pub fn setup(period: u8) -> (t: Transfer)
        ensures
            t@ == TransferState::begin(setup_ops(period)),
    {
        let mut ops: Vec<Op> = Vec::new();
        ops.push(Op::Enable);
        ops.push(Op::Period(period));
        assert(ops@ =~= setup_ops(period));
        Transfer::begin(ops)
    }

    /// Sends `bytes` to the device at `addr`.
    pub fn write(addr: u8, bytes: &[u8]) -> (t: Transfer)
        ensures
            t@ == TransferState::begin(write_ops(addr, bytes@)),
            bytes@.len() == 0 ==> t@.ops.len() == 0 && t@.request() == Request::Finish(Ok(())),
    {
        let mut ops: Vec<Op> = Vec::new();
        push_transmit(&mut ops, addr, bytes, true);
        Transfer::begin(ops)
    }

    /// Reads `len` bytes from the device at `addr`.
    pub fn read(addr: u8, len: usize) -> (t: Transfer)
        ensures
            t@ == TransferState::begin(read_ops(addr, len as nat)),
            len == 0 ==> t@.ops.len() == 0 && t@.request() == Request::Finish(Ok(())),
    {
        let mut ops: Vec<Op> = Vec::new();
        push_receive(&mut ops, addr, len, true);
        Transfer::begin(ops)
    }

    /// Sends `bytes` to the device at `addr` and then reads `len` bytes
    /// from it without letting go of the bus.
    pub fn write_read(addr: u8, bytes: &[u8], len: usize) -> (t: Transfer)
        ensures
            t@ == TransferState::begin(write_read_ops(addr, bytes@, len as nat)),
            bytes@.len() == 0 && len == 0 ==> t@.ops.len() == 0 && t@.request()
                == Request::Finish(Ok(())),
    {
        let mut ops: Vec<Op> = Vec::new();
        if len == 0 {
            push_transmit(&mut ops, addr, bytes, true);
        } else if bytes.len() == 0 {
            push_receive(&mut ops, addr, len, true);
        } else {
            push_transmit(&mut ops, addr, bytes, false);
            push_receive(&mut ops, addr, len, false);
        }
        Transfer::begin(ops)
    }

    /// What to do next.
    pub fn request(&self) -> (r: Request)
        ensures
            r == self@.request(),
    {
        match self.failure {
            Some(e) => Request::Finish(Err(e)),
            None => {
                if self.pos >= self.ops.len() {
                    Request::Finish(Ok(()))
                } else {
                    Request::Perform(self.ops[self.pos])
                }
            },
        }
    }

    /// Takes in what came of the operation last asked for.
    pub fn advance(&mut self, reply: Reply)
        ensures
            final(self)@ == old(self)@.advance(reply),
    {
        if self.failure.is_some() || self.pos >= self.ops.len() {
            return ;
        }
        match (self.ops[self.pos], reply) {
            (Op::Poll(flag), Reply::Status(status)) => {
                match status.poll(flag) {
                    Poll::Ready => {
                        self.pos = self.pos + 1;
                    },
                    Poll::Pending => {},
                    Poll::Failed(e) => {
                        self.failure = Some(e);
                    },
                }
            },
            (Op::Poll(_), _) => {},
            (Op::Capture, Reply::Data(byte)) => {
                self.received.push(byte);
                self.pos = self.pos + 1;
            },
            (Op::Capture, _) => {},
            (_, Reply::Done) => {
                self.pos = self.pos + 1;
            },
            (_, _) => {},
        }
    }

    /// Whether the transaction is over.
    pub fn is_finished(&self) -> (b: bool)
        ensures
            b == self@.finished(),
    {
        self.failure.is_some() || self.pos >= self.ops.len()
    }

    /// The bytes captured so far, oldest first.
    pub fn received(&self) -> (bytes: &[u8])
        ensures
            bytes@ == self@.received,
    {
        self.received.as_slice()
    }
}

} // verus!
