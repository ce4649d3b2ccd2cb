//! The controller as a whole: construction, transactions, release.

use tm4c_core::i2c::controller::period_for;
use tm4c_core::i2c::{
    BusStatus, Command, Error, Flag, I2c, Op, Reply, Request, SclPin, SdaPin,
};
use tm4c_core::sysctl::Clocks;
use tm4c_core::time::Hertz;
use tm4c_core::tm4c123::sysctl::Sysctl;

#[derive(Debug, PartialEq)]
struct Port(u8);

#[derive(Debug, PartialEq)]
struct Clock;

#[derive(Debug, PartialEq)]
struct Data;

impl SclPin<Port> for Clock {}

impl SdaPin<Port> for Data {}

const CLEAR: BusStatus = BusStatus {
    busy: false,
    bus_busy: false,
    error: false,
    adr_ack: false,
    dat_ack: false,
    arb_lost: false,
};

fn clocks(sysclk: u32) -> Clocks {
    Clocks { osc: Hertz(16_000_000), sysclk: Hertz(sysclk) }
}

fn bus(sysclk: u32, freq: u32) -> I2c<Port, (Clock, Data)> {
    let sysctl = Sysctl::new();
    I2c::new(Port(2), (Clock, Data), Hertz(freq), &clocks(sysclk), &sysctl.power_control)
}

/// Carries out whatever the controller asks for on a bus that is never
/// busy and hands out `data` byte by byte.
fn run(i2c: &mut I2c<Port, (Clock, Data)>, data: &[u8]) -> (Vec<Op>, Result<(), Error>) {
    let mut log = Vec::new();
    let mut data = data.iter();
    for _ in 0..10_000 {
        match i2c.request() {
            Request::Perform(op) => {
                log.push(op);
                let reply = match op {
                    Op::Poll(_) => Reply::Status(CLEAR),
                    Op::Capture => Reply::Data(*data.next().unwrap()),
                    _ => Reply::Done,
                };
                i2c.advance(reply);
            }
            Request::Finish(result) => return (log, result),
        }
    }
    panic!("the transaction did not finish");
}

#[test]
fn period_for_standard_mode() {
    assert_eq!(period_for(Hertz(80_000_000), Hertz(100_000)), 39);
}

#[test]
fn period_for_fast_mode() {
    assert_eq!(period_for(Hertz(80_000_000), Hertz(400_000)), 9);
    assert_eq!(period_for(Hertz(120_000_000), Hertz(400_000)), 14);
    assert_eq!(period_for(Hertz(16_000_000), Hertz(100_000)), 7);
}

#[test]
fn period_rounds_to_the_nearest() {
    // 3.75 periods fit: that is 4, and one less is written.
    assert_eq!(period_for(Hertz(30_000_000), Hertz(400_000)), 3);
    // 33.3 periods round down, 39.99 up.
    assert_eq!(period_for(Hertz(66_666_666), Hertz(100_000)), 32);
    assert_eq!(period_for(Hertz(3_999_999), Hertz(100_000)), 1);
    assert_eq!(period_for(Hertz(29_999_999), Hertz(400_000)), 3);
}

#[test]
fn period_rounds_a_half_up() {
    assert_eq!(period_for(Hertz(3_000_000), Hertz(100_000)), 1);
    assert_eq!(period_for(Hertz(2_999_999), Hertz(100_000)), 0);
    assert_eq!(period_for(Hertz(50), Hertz(1)), 2);
    assert_eq!(period_for(Hertz(49), Hertz(1)), 1);
}

#[test]
fn period_is_cut_to_eight_bits() {
    // 6000 periods fit: 5999 is 23 * 256 + 111.
    assert_eq!(period_for(Hertz(120_000_000), Hertz(1_000)), 111);
    assert_eq!(period_for(Hertz(120_000_000), Hertz(23_437)), 255);
    assert_eq!(period_for(Hertz(u32::MAX), Hertz(1)), 204);
}

#[test]
fn period_where_the_periods_round_to_none() {
    assert_eq!(period_for(Hertz(1_000), Hertz(400_000)), 255);
    assert_eq!(period_for(Hertz(0), Hertz(1)), 255);
    assert_eq!(period_for(Hertz(999_999), Hertz(100_000)), 255);
    assert_eq!(period_for(Hertz(9), Hertz(1)), 255);
}

#[test]
fn period_where_less_than_one_period_rounds_to_one() {
    assert_eq!(period_for(Hertz(1_000_000), Hertz(100_000)), 0);
    assert_eq!(period_for(Hertz(1_999_999), Hertz(100_000)), 0);
    assert_eq!(period_for(Hertz(10), Hertz(1)), 0);
}

#[test]
fn period_at_the_largest_frequencies() {
    assert_eq!(period_for(Hertz(u32::MAX), Hertz(u32::MAX / 20)), 0);
    assert_eq!(period_for(Hertz(u32::MAX), Hertz(u32::MAX / 20 + 1)), 0);
    assert_eq!(period_for(Hertz(u32::MAX), Hertz(u32::MAX / 10)), 0);
    assert_eq!(period_for(Hertz(u32::MAX), Hertz(u32::MAX / 10 + 1)), 255);
    assert_eq!(period_for(Hertz(u32::MAX), Hertz(u32::MAX)), 255);
}

#[test]
fn new_controller_rounds_the_period() {
    let mut i2c = bus(30_000_000, 400_000);
    let (log, result) = run(&mut i2c, &[]);
    assert_eq!(result, Ok(()));
    assert_eq!(log, vec![Op::Enable, Op::Period(3)]);
}

#[test]
fn new_controller_asks_for_setup() {
    let mut i2c = bus(80_000_000, 100_000);
    let (log, result) = run(&mut i2c, &[]);
    assert_eq!(result, Ok(()));
    assert_eq!(log, vec![Op::Enable, Op::Period(39)]);
    assert_eq!(i2c.request(), Request::Finish(Ok(())));
}

#[test]
fn controller_runs_a_write() {
    let mut i2c = bus(80_000_000, 400_000);
    run(&mut i2c, &[]);
    i2c.write(0x50, &[0xAA]);
    let (log, result) = run(&mut i2c, &[]);
    assert_eq!(result, Ok(()));
    assert_eq!(
        log,
        vec![
            Op::Address { addr: 0x50, receive: false },
            Op::Load(0xAA),
            Op::Settle,
            Op::Poll(Flag::BusBusy),
            Op::Issue(Command { start: true, stop: true, run: true, ack: false }),
            Op::Settle,
            Op::Poll(Flag::Busy),
        ]
    );
}

#[test]
fn controller_runs_a_read() {
    let mut i2c = bus(80_000_000, 400_000);
    run(&mut i2c, &[]);
    i2c.read(0x50, 2);
    let (log, result) = run(&mut i2c, &[0x12, 0x34]);
    assert_eq!(result, Ok(()));
    assert_eq!(log.len(), 11);
    assert_eq!(i2c.received(), &[0x12, 0x34]);
}

#[test]
fn controller_runs_a_write_read() {
    let mut i2c = bus(80_000_000, 400_000);
    run(&mut i2c, &[]);
    i2c.write_read(0x50, &[0x10, 0x20], 3);
    let (log, result) = run(&mut i2c, &[1, 2, 3]);
    assert_eq!(result, Ok(()));
    assert_eq!(log.len(), 24);
    assert_eq!(i2c.received(), &[1, 2, 3]);
}

#[test]
fn new_transaction_replaces_the_old_one() {
    let mut i2c = bus(80_000_000, 400_000);
    i2c.read(0x50, 1);
    i2c.advance(Reply::Done);
    i2c.write(0x51, &[]);
    assert_eq!(i2c.request(), Request::Finish(Ok(())));
    assert!(i2c.received().is_empty());
}

#[test]
fn controller_reports_a_failure() {
    let mut i2c = bus(80_000_000, 400_000);
    i2c.write(0x50, &[1]);
    i2c.advance(Reply::Done);
    i2c.advance(Reply::Done);
    i2c.advance(Reply::Done);
    assert_eq!(i2c.request(), Request::Perform(Op::Poll(Flag::BusBusy)));
    i2c.advance(Reply::Status(BusStatus { arb_lost: true, ..CLEAR }));
    assert_eq!(i2c.request(), Request::Finish(Err(Error::Arbitration)));
}

#[test]
fn free_gives_the_parts_back() {
    let i2c = bus(80_000_000, 100_000);
    assert_eq!(*i2c.registers(), Port(2));
    let (port, pins) = i2c.free();
    assert_eq!(port, Port(2));
    assert_eq!(pins, (Clock, Data));
}
