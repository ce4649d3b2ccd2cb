//! What holds of every transaction, proved once.

use vstd::prelude::*;
use crate::i2c::plan::{
    captures,
    commands,
    read_ops,
    receive_body,
    receive_lead,
    receive_ops,
    receive_step,
    transmit_body,
    transmit_ops,
    transmit_step,
    write_ops,
    write_read_ops,
    Command,
    Op,
};
use crate::i2c::status::{BusStatus, Error, Flag, Poll};
use crate::i2c::transfer::{answers, Reply, Request, TransferState};

verus! {

proof fn lemma_commands_push(ops: Seq<Op>, op: Op)
    ensures
        commands(ops.push(op)) == commands(ops) + issued(op),
{
    assert(ops.push(op).drop_last() =~= ops);
    assert(commands(ops).push(op->Issue_0) =~= commands(ops) + seq![op->Issue_0]);
    assert(commands(ops) + Seq::<Command>::empty() =~= commands(ops));
}

proof fn lemma_captures_push(ops: Seq<Op>, op: Op)
    ensures
        captures(ops.push(op)) == captures(ops) + captured(op),
{
    assert(ops.push(op).drop_last() =~= ops);
}

proof fn lemma_commands_concat(a: Seq<Op>, b: Seq<Op>)
    ensures
        commands(a + b) == commands(a) + commands(b),
    decreases b.len(),
{
    if b.len() == 0 {
        assert(a + b =~= a);
        assert(commands(a) + commands(b) =~= commands(a));
    } else {
        lemma_commands_concat(a, b.drop_last());
        lemma_commands_push(a + b.drop_last(), b.last());
        lemma_commands_push(b.drop_last(), b.last());
        assert((a + b.drop_last()).push(b.last()) =~= a + b);
        assert(b.drop_last().push(b.last()) =~= b);
        assert((commands(a) + commands(b.drop_last())) + issued(b.last()) =~= commands(a) + (
        commands(b.drop_last()) + issued(b.last())));
    }
}

proof fn lemma_captures_concat(a: Seq<Op>, b: Seq<Op>)
    ensures
        captures(a + b) == captures(a) + captures(b),
    decreases b.len(),
{
    if b.len() == 0 {
        assert(a + b =~= a);
    } else {
        lemma_captures_concat(a, b.drop_last());
        assert((a + b).drop_last() =~= a + b.drop_last());
        assert((a + b).last() == b.last());
    }
}

/// The control word that one operation writes, if it writes one.
spec fn issued(op: Op) -> Seq<Command> {
    match op {
        Op::Issue(command) => seq![command],
        _ => Seq::empty(),
    }
}

/// The number of bytes that one operation reads.
spec fn captured(op: Op) -> nat {
    if op is Capture {
        1
    } else {
        0
    }
}

/// Whether no operation of `ops` writes the address register.
spec fn addressless(ops: Seq<Op>) -> bool {
    forall|j: int| 0 <= j < ops.len() ==> !(#[trigger] ops[j] is Address)
}

/// Operations that neither write the control register nor read the data
/// register add no command and no capture.
proof fn lemma_silent(ops: Seq<Op>)
    requires
        forall|j: int| 0 <= j < ops.len() ==> !(#[trigger] ops[j] is Issue) && !(ops[j] is Capture),
    ensures
        commands(ops) == Seq::<Command>::empty(),
        captures(ops) == 0,
    decreases ops.len(),
{
    if ops.len() > 0 {
        lemma_silent(ops.drop_last());
    }
}

/// A run of four operations issues what each of them issues, in order, and
/// captures what each of them captures.
proof fn lemma_run_of_four(a: Op, b: Op, c: Op, d: Op)
    ensures
        commands(seq![a, b, c, d]) == issued(a) + issued(b) + issued(c) + issued(d),
        captures(seq![a, b, c, d]) == captured(a) + captured(b) + captured(c) + captured(d),
{
    let e = Seq::<Op>::empty();
    assert(seq![a, b, c, d] =~= e.push(a).push(b).push(c).push(d));
    lemma_commands_push(e, a);
    lemma_commands_push(e.push(a), b);
    lemma_commands_push(e.push(a).push(b), c);
    lemma_commands_push(e.push(a).push(b).push(c), d);
    lemma_captures_push(e, a);
    lemma_captures_push(e.push(a), b);
    lemma_captures_push(e.push(a).push(b), c);
    lemma_captures_push(e.push(a).push(b).push(c), d);
    assert(commands(e) + issued(a) =~= issued(a));
}

/// What holds of a run of operations that is put together block by block,
/// where every block is four operations long, writes the control register
/// once, reads the same number of bytes and leaves the address register
/// alone: the run writes the control register once per block, with the
/// words of the blocks in order, and never the address register.
proof fn lemma_blocks(
    run: spec_fn(nat) -> Seq<Op>,
    block: spec_fn(int) -> Seq<Op>,
    word: spec_fn(int) -> Command,
    reads: nat,
    k: nat,
)
    requires
        run(0) == Seq::<Op>::empty(),
        forall|j: nat| j > 0 ==> #[trigger] run(j) == run((j - 1) as nat) + block(j - 1),
        forall|i: int|
            0 <= i ==> {
                &&& (#[trigger] block(i)).len() == 4
                &&& commands(block(i)) == seq![word(i)]
                &&& captures(block(i)) == reads
                &&& addressless(block(i))
            },
        reads <= 1,
    ensures
        run(k).len() == 4 * k,
        commands(run(k)) == Seq::new(k, |i: int| word(i)),
        captures(run(k)) == k * reads,
        addressless(run(k)),
        k > 0 ==> run(k)[0] == block(0)[0],
    decreases k,
{
    let want = Seq::new(k, |i: int| word(i));
    if k == 0 {
        assert(commands(run(k)) =~= want);
    } else {
        let head = run((k - 1) as nat);
        let tail = block(k - 1);
        lemma_blocks(run, block, word, reads, (k - 1) as nat);
        lemma_commands_concat(head, tail);
        lemma_captures_concat(head, tail);
        assert(run(k) == head + tail);
        assert(commands(head) + commands(tail) =~= want);
        assert(addressless(head + tail)) by {
            assert forall|j: int| 0 <= j < (head + tail).len() implies !(#[trigger] (head
                + tail)[j] is Address) by {
                if j < head.len() {
                    assert((head + tail)[j] == head[j]);
                } else {
                    assert((head + tail)[j] == tail[j - head.len()]);
                }
            }
        }
        if k > 1 {
            assert((head + tail)[0] == head[0]);
        } else {
            assert((head + tail)[0] == tail[0]);
        }
    }
}

proof fn lemma_transmit_body(bytes: Seq<u8>, stop: bool, k: nat)
    ensures
        transmit_body(bytes, k, stop).len() == 4 * k,
        commands(transmit_body(bytes, k, stop)) == Seq::new(
            k,
            |i: int| Command::transmit_at(i, bytes.len() as int, stop),
        ),
        captures(transmit_body(bytes, k, stop)) == 0,
        addressless(transmit_body(bytes, k, stop)),
{
    let run = |j: nat| transmit_body(bytes, j, stop);
    let block = |i: int| transmit_step(bytes, i, stop);
    let word = |i: int| Command::transmit_at(i, bytes.len() as int, stop);
    assert forall|i: int| 0 <= i implies {
        &&& (#[trigger] block(i)).len() == 4
        &&& commands(block(i)) == seq![word(i)]
        &&& captures(block(i)) == 0
        &&& addressless(block(i))
    } by {
        if i == 0 {
            lemma_run_of_four(
                Op::Load(bytes[i]),
                Op::Settle,
                Op::Poll(Flag::BusBusy),
                Op::Issue(word(i)),
            );
        } else {
            lemma_run_of_four(
                Op::Settle,
                Op::Poll(Flag::Busy),
                Op::Load(bytes[i]),
                Op::Issue(word(i)),
            );
        }
        assert(commands(block(i)) =~= seq![word(i)]);
    }
    lemma_blocks(run, block, word, 0, k);
    assert(commands(run(k)) =~= Seq::new(
        k,
        |i: int| Command::transmit_at(i, bytes.len() as int, stop),
    ));
}

proof fn lemma_receive_body(n: int, k: nat)
    ensures
        receive_body(n, k).len() == 4 * k,
        commands(receive_body(n, k)) == Seq::new(k, |i: int| Command::receive_at(i, n)),
        captures(receive_body(n, k)) == k,
        addressless(receive_body(n, k)),
        k > 0 ==> receive_body(n, k)[0] == Op::Issue(Command::receive_at(0, n)),
{
    let run = |j: nat| receive_body(n, j);
    let block = |i: int| receive_step(n, i);
    let word = |i: int| Command::receive_at(i, n);
    assert forall|i: int| 0 <= i implies {
        &&& (#[trigger] block(i)).len() == 4
        &&& commands(block(i)) == seq![word(i)]
        &&& captures(block(i)) == 1
        &&& addressless(block(i))
    } by {
        lemma_run_of_four(Op::Issue(word(i)), Op::Settle, Op::Poll(Flag::Busy), Op::Capture);
        assert(commands(block(i)) =~= seq![word(i)]);
    }
    lemma_blocks(run, block, word, 1, k);
    assert(commands(run(k)) =~= Seq::new(k, |i: int| Command::receive_at(i, n)));
}

/// The outgoing phase writes the control register once per byte, with the
/// word that belongs to the byte's place, and reads no data.
pub proof fn lemma_transmit_commands(addr: u8, bytes: Seq<u8>, stop: bool)
    ensures
        commands(transmit_ops(addr, bytes, stop)) == Seq::new(
            bytes.len(),
            |i: int| Command::transmit_at(i, bytes.len() as int, stop),
        ),
        captures(transmit_ops(addr, bytes, stop)) == 0,
        bytes.len() > 0 ==> transmit_ops(addr, bytes, stop).len() == 4 * bytes.len() + 3,
{
    let want = Seq::new(
        bytes.len(),
        |i: int| Command::transmit_at(i, bytes.len() as int, stop),
    );
    if bytes.len() == 0 {
        assert(commands(transmit_ops(addr, bytes, stop)) =~= want);
    } else {
        let head = seq![Op::Address { addr, receive: false }];
        let body = transmit_body(bytes, bytes.len(), stop);
        let tail = seq![Op::Settle, Op::Poll(Flag::Busy)];
        lemma_transmit_body(bytes, stop, bytes.len());
        lemma_silent(head);
        lemma_silent(tail);
        lemma_commands_concat(head, body);
        lemma_commands_concat(head + body, tail);
        lemma_captures_concat(head, body);
        lemma_captures_concat(head + body, tail);
        assert(commands(head) + commands(body) + commands(tail) =~= want);
    }
}

/// The incoming phase writes the control register once per byte, with the
/// word that belongs to the byte's place, and reads each byte once.
pub proof fn lemma_receive_commands(addr: u8, n: nat, fresh: bool)
    ensures
        commands(receive_ops(addr, n, fresh)) == Seq::new(
            n,
            |i: int| Command::receive_at(i, n as int),
        ),
        captures(receive_ops(addr, n, fresh)) == n,
        n > 0 ==> receive_ops(addr, n, fresh).len() == 4 * n + 1 + receive_lead(fresh).len(),
{
    let want = Seq::new(n, |i: int| Command::receive_at(i, n as int));
    if n == 0 {
        assert(commands(receive_ops(addr, n, fresh)) =~= want);
    } else {
        let head = seq![Op::Address { addr, receive: true }];
        let lead = receive_lead(fresh);
        let body = receive_body(n as int, n);
        lemma_receive_body(n as int, n);
        lemma_silent(head);
        lemma_silent(lead);
        lemma_commands_concat(head, lead);
        lemma_commands_concat(head + lead, body);
        lemma_captures_concat(head, lead);
        lemma_captures_concat(head + lead, body);
        assert(commands(head) + commands(lead) + commands(body) =~= want);
    }
}

proof fn lemma_issued_is_command(ops: Seq<Op>, j: int)
    requires
        0 <= j < ops.len(),
        ops[j] is Issue,
    ensures
        commands(ops).contains(ops[j]->Issue_0),
    decreases ops.len(),
{
    let before = commands(ops.drop_last());
    if j == ops.len() - 1 {
        let command = ops[j]->Issue_0;
        assert(commands(ops) == before.push(command));
        assert(before.push(command)[before.len() as int] == command);
    } else {
        lemma_issued_is_command(ops.drop_last(), j);
        let command = ops[j]->Issue_0;
        let at = choose|at: int| 0 <= at < before.len() && before[at] == command;
        match ops.last() {
            Op::Issue(other) => {
                assert(before.push(other)[at] == command);
            },
            _ => {},
        }
    }
}

/// A transfer of no bytes has no operations at all: it writes nothing, and
/// it is finished with success before anything is asked for.
pub proof fn lemma_no_bytes_no_bus(addr: u8, bytes: Seq<u8>)
    requires
        bytes.len() == 0,
    ensures
        write_ops(addr, bytes) == Seq::<Op>::empty(),
        read_ops(addr, 0) == Seq::<Op>::empty(),
        write_read_ops(addr, bytes, 0) == Seq::<Op>::empty(),
        commands(write_ops(addr, bytes)).len() == 0,
        commands(read_ops(addr, 0)).len() == 0,
        TransferState::begin(write_ops(addr, bytes)).request() == Request::Finish(Ok(())),
        TransferState::begin(read_ops(addr, 0)).request() == Request::Finish(Ok(())),
        TransferState::begin(write_read_ops(addr, bytes, 0)).request() == Request::Finish(Ok(())),
{
}

/// A write of one or more bytes writes the control register exactly once
/// per byte. Only the first word carries START and only the last carries
/// STOP, so for a single byte one word carries both. Every word runs the
/// master, and none acknowledges.
pub proof fn lemma_write_commands(addr: u8, bytes: Seq<u8>)
    requires
        bytes.len() > 0,
    ensures
        commands(write_ops(addr, bytes)).len() == bytes.len(),
        forall|i: int|
            0 <= i < bytes.len() ==> {
                let command = #[trigger] commands(write_ops(addr, bytes))[i];
                &&& command.start <==> i == 0
                &&& command.stop <==> i == bytes.len() - 1
                &&& command.run
                &&& !command.ack
            },
{
    lemma_transmit_commands(addr, bytes, true);
}

/// A read of one or more bytes writes the control register exactly once
/// per byte. Only the first word carries START and only the last carries
/// STOP; every byte but the last is acknowledged, so a read of a single
/// byte never acknowledges.
pub proof fn lemma_read_commands(addr: u8, n: nat)
    requires
        n > 0,
    ensures
        commands(read_ops(addr, n)).len() == n,
        captures(read_ops(addr, n)) == n,
        forall|i: int|
            0 <= i < n ==> {
                let command = #[trigger] commands(read_ops(addr, n))[i];
                &&& command.start <==> i == 0
                &&& command.stop <==> i == n - 1
                &&& command.run
                &&& command.ack <==> i < n - 1
            },
{
    lemma_receive_commands(addr, n, true);
}

/// A write followed by a read, both of one or more bytes, is the outgoing
/// phase and then the incoming one. No control word of the outgoing phase
/// carries STOP. What follows it at once is a second write of the address
/// register, now with the read direction, and then the first control word
/// of the incoming phase, which carries the repeated START. The address
/// register is written at these two places and nowhere else.
pub proof fn lemma_write_read_keeps_bus(addr: u8, bytes: Seq<u8>, n: nat)
    requires
        bytes.len() > 0,
        n > 0,
    ensures
        write_read_ops(addr, bytes, n) == transmit_ops(addr, bytes, false) + receive_ops(
            addr,
            n,
            false,
        ),
        transmit_ops(addr, bytes, false)[0] == (Op::Address { addr, receive: false }),
        forall|j: int|
            0 <= j < transmit_ops(addr, bytes, false).len() ==> (#[trigger] write_read_ops(
                addr,
                bytes,
                n,
            )[j] matches Op::Issue(command) ==> !command.stop),
        write_read_ops(addr, bytes, n)[transmit_ops(addr, bytes, false).len() as int] == (
        Op::Address { addr, receive: true }),
        forall|j: int|
            0 <= j < write_read_ops(addr, bytes, n).len() && (#[trigger] write_read_ops(
                addr,
                bytes,
                n,
            )[j]) is Address ==> j == 0 || j == transmit_ops(addr, bytes, false).len(),
        write_read_ops(addr, bytes, n)[transmit_ops(addr, bytes, false).len() as int + 1] == Op::Issue(
            Command { start: true, stop: n == 1, run: true, ack: n > 1 },
        ),
        commands(write_read_ops(addr, bytes, n)) == Seq::new(
            bytes.len(),
            |i: int| Command::transmit_at(i, bytes.len() as int, false),
        ) + Seq::new(n, |i: int| Command::receive_at(i, n as int)),
        captures(write_read_ops(addr, bytes, n)) == n,
{
    let out = transmit_ops(addr, bytes, false);
    let back = receive_ops(addr, n, false);
    let ops = write_read_ops(addr, bytes, n);
    lemma_transmit_commands(addr, bytes, false);
    lemma_receive_commands(addr, n, false);
    lemma_commands_concat(out, back);
    lemma_captures_concat(out, back);
    lemma_transmit_body(bytes, false, bytes.len());
    lemma_receive_body(n as int, n);
    assert forall|j: int| 0 <= j < out.len() implies (#[trigger] ops[j] matches Op::Issue(
        command,
    ) ==> !command.stop) by {
        if ops[j] is Issue {
            assert(ops[j] == out[j]);
            lemma_issued_is_command(out, j);
        }
    }
    assert(ops[out.len() as int] == back[0]);
    assert(ops[out.len() as int + 1] == back[1]);
    let sent = transmit_body(bytes, bytes.len(), false);
    let fetched = receive_body(n as int, n);
    assert forall|j: int| 0 <= j < ops.len() && (#[trigger] ops[j]) is Address implies j == 0 || j
        == out.len() by {
        if 0 < j < out.len() {
            assert(ops[j] == out[j]);
            if j <= sent.len() {
                assert(out[j] == sent[j - 1]);
            }
        } else if j > out.len() {
            assert(ops[j] == back[j - out.len()]);
            assert(back[j - out.len()] == fetched[j - out.len() - 1]);
        }
    }
}

/// A status reading that shows arbitration loss fails the wait it answers
/// with an arbitration error, whatever the error flag, the acknowledge
/// flags and the busy signals show and wherever in the transaction the
/// wait stands. That is then the result for good, whatever is said to the
/// transaction later.
pub proof fn lemma_arbitration_loss_reported(
    s: TransferState,
    status: BusStatus,
    later: Seq<Reply>,
)
    requires
        !s.finished(),
        s.current() is Poll,
        status.arb_lost,
    ensures
        s.advance(Reply::Status(status)).request() == Request::Finish(Err(Error::Arbitration)),
        s.advance(Reply::Status(status)).run(later).request() == Request::Finish(
            Err(Error::Arbitration),
        ),
{
    lemma_finished_stays(s.advance(Reply::Status(status)), later);
}

/// A status reading with the error flag and the address flag set, and no
/// arbitration loss, fails the wait it answers with a missing address
/// acknowledge, whatever the data flag shows and wherever in the
/// transaction the wait stands. That is then the result for good.
pub proof fn lemma_address_nack_reported(s: TransferState, status: BusStatus, later: Seq<Reply>)
    requires
        !s.finished(),
        s.current() is Poll,
        !status.arb_lost,
        status.error,
        status.adr_ack,
    ensures
        s.advance(Reply::Status(status)).request() == Request::Finish(Err(Error::AdrAck)),
        s.advance(Reply::Status(status)).run(later).request() == Request::Finish(
            Err(Error::AdrAck),
        ),
{
    lemma_finished_stays(s.advance(Reply::Status(status)), later);
}

/// A status reading with the error flag set and the address flag clear,
/// and no arbitration loss, fails the wait it answers: with a missing data
/// acknowledge where the data flag is set, with a bus error where it is
/// not.
pub proof fn lemma_other_faults_reported(s: TransferState, status: BusStatus, later: Seq<Reply>)
    requires
        !s.finished(),
        s.current() is Poll,
        !status.arb_lost,
        status.error,
        !status.adr_ack,
    ensures
        s.advance(Reply::Status(status)).run(later).request() == Request::Finish(
            Err(
                if status.dat_ack {
                    Error::DataAck
                } else {
                    Error::Bus
                },
            ),
        ),
{
    lemma_finished_stays(s.advance(Reply::Status(status)), later);
}

/// Once a transaction is over nothing moves it: no reply changes its state,
/// so it reports the same result for good.
pub proof fn lemma_finished_stays(s: TransferState, replies: Seq<Reply>)
    requires
        s.finished(),
    ensures
        s.run(replies) == s,
    decreases replies.len(),
{
    if replies.len() > 0 {
        lemma_finished_stays(s, replies.drop_last());
    }
}

/// One reply moves a transaction by at most one operation, never back, and
/// never touches the plan. The bytes held always number the captures
/// among the operations done.
pub proof fn lemma_advance_keeps_count(s: TransferState, reply: Reply)
    requires
        s.pos <= s.ops.len(),
        s.received.len() == captures(s.ops.take(s.pos as int)),
    ensures
        s.advance(reply).ops == s.ops,
        s.pos <= s.advance(reply).pos <= s.pos + 1,
        s.advance(reply).pos <= s.ops.len(),
        s.advance(reply).received.len() == captures(s.ops.take(s.advance(reply).pos as int)),
{
    let t = s.advance(reply);
    if t.pos == s.pos + 1 {
        assert(s.ops.take(t.pos as int) =~= s.ops.take(s.pos as int).push(s.current()));
        lemma_captures_push(s.ops.take(s.pos as int), s.current());
    }
}

/// However a transaction is driven, it holds one byte for each capture it
/// has done. One that ends in success has done every operation, so it
/// holds one byte for each capture of its plan.
pub proof fn lemma_success_is_complete(ops: Seq<Op>, replies: Seq<Reply>)
    ensures
        TransferState::begin(ops).run(replies).ops == ops,
        TransferState::begin(ops).run(replies).pos <= ops.len(),
        TransferState::begin(ops).run(replies).received.len() == captures(
            ops.take(TransferState::begin(ops).run(replies).pos as int),
        ),
        TransferState::begin(ops).run(replies).request() == Request::Finish(Ok(()))
            ==> TransferState::begin(ops).run(replies).received.len() == captures(ops),
    decreases replies.len(),
{
    let start = TransferState::begin(ops);
    if replies.len() == 0 {
        assert(ops.take(0) =~= Seq::<Op>::empty());
    } else {
        lemma_success_is_complete(ops, replies.drop_last());
        lemma_advance_keeps_count(start.run(replies.drop_last()), replies.last());
    }
    let end = start.run(replies);
    if end.request() == Request::Finish(Ok(())) {
        assert(ops.take(end.pos as int) =~= ops);
    }
}

/// A read that ends in success has filled the whole buffer, and a write
/// followed by a read likewise; a write holds no bytes.
pub proof fn lemma_read_fills_buffer(addr: u8, bytes: Seq<u8>, n: nat, replies: Seq<Reply>)
    ensures
        TransferState::begin(read_ops(addr, n)).run(replies).request() == Request::Finish(Ok(()))
            ==> TransferState::begin(read_ops(addr, n)).run(replies).received.len() == n,
        TransferState::begin(write_read_ops(addr, bytes, n)).run(replies).request()
            == Request::Finish(Ok(())) ==> TransferState::begin(
            write_read_ops(addr, bytes, n),
        ).run(replies).received.len() == n,
        TransferState::begin(write_ops(addr, bytes)).run(replies).received.len() == 0,
{
    lemma_success_is_complete(read_ops(addr, n), replies);
    lemma_success_is_complete(write_read_ops(addr, bytes, n), replies);
    lemma_success_is_complete(write_ops(addr, bytes), replies);
    lemma_receive_commands(addr, n, true);
    lemma_receive_commands(addr, n, false);
    lemma_transmit_commands(addr, bytes, true);
    lemma_transmit_commands(addr, bytes, false);
    lemma_captures_concat(transmit_ops(addr, bytes, false), receive_ops(addr, n, false));
    lemma_captures_prefix(
        write_ops(addr, bytes),
        TransferState::begin(write_ops(addr, bytes)).run(replies).pos as int,
    );
}

proof fn lemma_captures_prefix(ops: Seq<Op>, k: int)
    requires
        0 <= k <= ops.len(),
    ensures
        captures(ops.take(k)) <= captures(ops),
{
    lemma_captures_concat(ops.take(k), ops.skip(k));
    assert(ops.take(k) + ops.skip(k) =~= ops);
}


/// Whether `replies` are what a bus at rest gives to `ops`, one reply to
/// each operation: every reply answers its operation, and every status
/// reading finds no fault and the watched signal clear.
pub open spec fn unhindered(ops: Seq<Op>, replies: Seq<Reply>) -> bool {
    &&& replies.len() == ops.len()
    &&& forall|i: int|
        0 <= i < ops.len() ==> answers(#[trigger] replies[i], ops[i]) && (replies[i] matches Reply::Status(
            status,
        ) ==> status.verdict(ops[i]->Poll_0) == Poll::Ready)
}

/// On a bus that answers every operation and never shows a fault or a
/// busy signal, a transaction is asked for operation by operation, in
/// order, and ends in success when the last one is done.
pub proof fn lemma_unhindered_succeeds(ops: Seq<Op>, replies: Seq<Reply>, k: int)
    requires
        unhindered(ops, replies),
        0 <= k <= ops.len(),
    ensures
        TransferState::begin(ops).run(replies.take(k)).pos == k,
        TransferState::begin(ops).run(replies.take(k)).failure is None,
        k < ops.len() ==> TransferState::begin(ops).run(replies.take(k)).request()
            == Request::Perform(ops[k]),
        TransferState::begin(ops).run(replies).request() == Request::Finish(Ok(())),
{
    lemma_unhindered_prefix(ops, replies, k);
    lemma_unhindered_prefix(ops, replies, ops.len() as int);
    assert(replies.take(ops.len() as int) =~= replies);
}

proof fn lemma_unhindered_prefix(ops: Seq<Op>, replies: Seq<Reply>, k: int)
    requires
        unhindered(ops, replies),
        0 <= k <= ops.len(),
    ensures
        TransferState::begin(ops).run(replies.take(k)).ops == ops,
        TransferState::begin(ops).run(replies.take(k)).pos == k,
        TransferState::begin(ops).run(replies.take(k)).failure is None,
    decreases k,
{
    if k > 0 {
        lemma_unhindered_prefix(ops, replies, k - 1);
        assert(replies.take(k).drop_last() =~= replies.take(k - 1));
        assert(replies.take(k).last() == replies[k - 1]);
    }
}

/// Whether `reply` is a status reading that fails a wait on `flag` with
/// `error`.
pub open spec fn shows(reply: Reply, flag: Flag, error: Error) -> bool {
    reply matches Reply::Status(status) && status.verdict(flag) == Poll::Failed(error)
}

/// A transaction fails only on a status reading that shows the failure: an
/// error it reports was the verdict on one of the replies.
pub proof fn lemma_failure_was_read(ops: Seq<Op>, replies: Seq<Reply>)
    requires
        TransferState::begin(ops).run(replies).failure is Some,
    ensures
        exists|i: int, flag: Flag|
            0 <= i < replies.len() && #[trigger] shows(
                replies[i],
                flag,
                TransferState::begin(ops).run(replies).failure->Some_0,
            ),
    decreases replies.len(),
{
    let start = TransferState::begin(ops);
    let error = start.run(replies).failure->Some_0;
    if replies.len() > 0 {
        let before = start.run(replies.drop_last());
        if before.failure is Some {
            assert(before.advance(replies.last()) == before);
            lemma_failure_was_read(ops, replies.drop_last());
            let (i, flag) = choose|i: int, flag: Flag|
                0 <= i < replies.drop_last().len() && #[trigger] shows(
                    replies.drop_last()[i],
                    flag,
                    error,
                );
            assert(shows(replies[i], flag, error));
        } else {
            assert(shows(replies[replies.len() - 1], before.current()->Poll_0, error));
        }
    }
}

} // verus!
