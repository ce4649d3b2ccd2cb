//! Power domains, chip identification and timers.

use tm4c_core::chip_id::{
    did0_known, ChipId, DeviceClass, Did0, Did1, Error, Package, PartNo, PinCount, Qualification,
    TempRange,
};
use tm4c_core::sysctl::{Clocks, Gate, Group, Line, PowerState, RunMode};
use tm4c_core::time::Hertz;
use tm4c_core::tm4c123::chip_id as blizzard_id;
use tm4c_core::tm4c123::sysctl as blizzard;
use tm4c_core::tm4c123::timer::{Event, Timer, TimerOp};
use tm4c_core::tm4c129::chip_id as snowflake_id;
use tm4c_core::tm4c129::sysctl as snowflake;

fn did0() -> Did0 {
    Did0 { ver: 1, class: 0x05, major: 1, minor: 2 }
}

fn did1() -> Did1 {
    Did1 { ver: 1, part_no: 0xA1, pin_count: 3, temp: 1, package: 1, rohs: true, qual: 2 }
}

#[test]
fn tm4c123_reset_lines() {
    let sysctl = blizzard::Sysctl::new();
    let pc = &sysctl.power_control;
    assert_eq!(blizzard::reset(pc, blizzard::Domain::I2c0), Line { group: Group::I2c, bit: 0 });
    assert_eq!(blizzard::reset(pc, blizzard::Domain::I2c3), Line { group: Group::I2c, bit: 3 });
    assert_eq!(
        blizzard::reset(pc, blizzard::Domain::Watchdog1),
        Line { group: Group::Watchdog, bit: 1 }
    );
    assert_eq!(blizzard::reset(pc, blizzard::Domain::GpioF), Line { group: Group::Gpio, bit: 5 });
    assert_eq!(blizzard::reset(pc, blizzard::Domain::Uart7), Line { group: Group::Uart, bit: 7 });
    assert_eq!(
        blizzard::reset(pc, blizzard::Domain::WideTimer4),
        Line { group: Group::WideTimer, bit: 4 }
    );
    assert_eq!(blizzard::reset(pc, blizzard::Domain::Pwm1), Line { group: Group::Pwm, bit: 1 });
    assert_eq!(blizzard::reset(pc, blizzard::Domain::MicroDma), Line { group: Group::Dma, bit: 0 });
    assert_eq!(
        blizzard::reset(pc, blizzard::Domain::AnalogComparator),
        Line { group: Group::AnalogComparator, bit: 0 }
    );
}

#[test]
fn tm4c129_reset_lines() {
    let sysctl = snowflake::Sysctl::new();
    let pc = &sysctl.power_control;
    assert_eq!(
        snowflake::reset(pc, snowflake::Domain::GpioQ),
        Line { group: Group::Gpio, bit: 14 }
    );
    assert_eq!(snowflake::reset(pc, snowflake::Domain::GpioG), Line { group: Group::Gpio, bit: 6 });
    assert_eq!(snowflake::reset(pc, snowflake::Domain::GpioA), Line { group: Group::Gpio, bit: 0 });
    assert_eq!(snowflake::reset(pc, snowflake::Domain::Emac0), Line { group: Group::Emac, bit: 0 });
    assert_eq!(snowflake::reset(pc, snowflake::Domain::Ephy0), Line { group: Group::Ephy, bit: 0 });
    assert_eq!(snowflake::reset(pc, snowflake::Domain::I2c2), Line { group: Group::I2c, bit: 2 });
    assert_eq!(
        snowflake::reset(pc, snowflake::Domain::Timer5),
        Line { group: Group::Timer, bit: 5 }
    );
}

#[test]
fn tm4c123_lines_are_distinct() {
    let all = [
        blizzard::Domain::Watchdog1, blizzard::Domain::Watchdog0, blizzard::Domain::Timer5,
        blizzard::Domain::Timer4, blizzard::Domain::Timer3, blizzard::Domain::Timer2,
        blizzard::Domain::Timer1, blizzard::Domain::Timer0, blizzard::Domain::GpioF,
        blizzard::Domain::GpioE, blizzard::Domain::GpioD, blizzard::Domain::GpioC,
        blizzard::Domain::GpioB, blizzard::Domain::GpioA, blizzard::Domain::MicroDma,
        blizzard::Domain::Hibernation, blizzard::Domain::Uart7, blizzard::Domain::Uart6,
        blizzard::Domain::Uart5, blizzard::Domain::Uart4, blizzard::Domain::Uart3,
        blizzard::Domain::Uart2, blizzard::Domain::Uart1, blizzard::Domain::Uart0,
        blizzard::Domain::Ssi3, blizzard::Domain::Ssi2, blizzard::Domain::Ssi1,
        blizzard::Domain::Ssi0, blizzard::Domain::I2c3, blizzard::Domain::I2c2,
        blizzard::Domain::I2c1, blizzard::Domain::I2c0, blizzard::Domain::Usb,
        blizzard::Domain::Can, blizzard::Domain::Adc1, blizzard::Domain::Adc0,
        blizzard::Domain::AnalogComparator, blizzard::Domain::Eeprom, blizzard::Domain::WideTimer5,
        blizzard::Domain::WideTimer4, blizzard::Domain::WideTimer3, blizzard::Domain::WideTimer2,
        blizzard::Domain::WideTimer1, blizzard::Domain::WideTimer0, blizzard::Domain::Pwm0,
        blizzard::Domain::Pwm1,
    ];
    for (i, a) in all.iter().enumerate() {
        for (j, b) in all.iter().enumerate() {
            assert_eq!(a.target() == b.target(), i == j);
        }
    }
}

#[test]
fn tm4c129_lines_are_distinct() {
    let all = [
        snowflake::Domain::Watchdog1, snowflake::Domain::Watchdog0, snowflake::Domain::Timer5,
        snowflake::Domain::Timer4, snowflake::Domain::Timer3, snowflake::Domain::Timer2,
        snowflake::Domain::Timer1, snowflake::Domain::Timer0, snowflake::Domain::GpioQ,
        snowflake::Domain::GpioP, snowflake::Domain::GpioN, snowflake::Domain::GpioM,
        snowflake::Domain::GpioL, snowflake::Domain::GpioK, snowflake::Domain::GpioJ,
        snowflake::Domain::GpioH, snowflake::Domain::GpioG, snowflake::Domain::GpioF,
        snowflake::Domain::GpioE, snowflake::Domain::GpioD, snowflake::Domain::GpioC,
        snowflake::Domain::GpioB, snowflake::Domain::GpioA, snowflake::Domain::MicroDma,
        snowflake::Domain::Hibernation, snowflake::Domain::Uart7, snowflake::Domain::Uart6,
        snowflake::Domain::Uart5, snowflake::Domain::Uart4, snowflake::Domain::Uart3,
        snowflake::Domain::Uart2, snowflake::Domain::Uart1, snowflake::Domain::Uart0,
        snowflake::Domain::Ssi3, snowflake::Domain::Ssi2, snowflake::Domain::Ssi1,
        snowflake::Domain::Ssi0, snowflake::Domain::I2c3, snowflake::Domain::I2c2,
        snowflake::Domain::I2c1, snowflake::Domain::I2c0, snowflake::Domain::Usb,
        snowflake::Domain::Can, snowflake::Domain::Adc1, snowflake::Domain::Adc0,
        snowflake::Domain::AnalogComparator, snowflake::Domain::Eeprom, snowflake::Domain::Pwm0,
        snowflake::Domain::Pwm1, snowflake::Domain::Emac0, snowflake::Domain::Ephy0,
    ];
    for (i, a) in all.iter().enumerate() {
        for (j, b) in all.iter().enumerate() {
            assert_eq!(a.target() == b.target(), i == j);
        }
    }
}

#[test]
fn control_power_names_the_gate() {
    let sysctl = blizzard::Sysctl::new();
    let pc = &sysctl.power_control;
    assert_eq!(
        blizzard::control_power(pc, blizzard::Domain::I2c1, RunMode::Run, PowerState::On),
        Gate { mode: RunMode::Run, line: Line { group: Group::I2c, bit: 1 }, on: true }
    );
    assert_eq!(
        blizzard::control_power(pc, blizzard::Domain::Ssi2, RunMode::Sleep, PowerState::Off),
        Gate { mode: RunMode::Sleep, line: Line { group: Group::Ssi, bit: 2 }, on: false }
    );
    assert_eq!(
        blizzard::control_power(pc, blizzard::Domain::Can, RunMode::DeepSleep, PowerState::On),
        Gate { mode: RunMode::DeepSleep, line: Line { group: Group::Can, bit: 0 }, on: true }
    );
    let sysctl = snowflake::Sysctl::new();
    let pc = &sysctl.power_control;
    assert_eq!(
        snowflake::control_power(pc, snowflake::Domain::GpioN, RunMode::Run, PowerState::On),
        Gate { mode: RunMode::Run, line: Line { group: Group::Gpio, bit: 12 }, on: true }
    );
    assert_eq!(
        snowflake::control_power(pc, snowflake::Domain::Adc1, RunMode::DeepSleep, PowerState::Off),
        Gate { mode: RunMode::DeepSleep, line: Line { group: Group::Adc, bit: 1 }, on: false }
    );
}

#[test]
fn tm4c123_chip_is_identified() {
    assert_eq!(
        blizzard_id::get(did0(), did1()),
        Ok(ChipId {
            device_class: DeviceClass::StellarisBlizzard,
            major: 1,
            minor: 2,
            pin_count: PinCount::_64,
            temp_range: TempRange::Industrial,
            package: Package::Lqfp,
            rohs_compliant: true,
            qualification: Qualification::FullyQualified,
            part_no: PartNo::Tm4c123gh6pm,
        })
    );
}

#[test]
fn tm4c123_part_numbers() {
    let part = |code: u8| blizzard_id::get(did0(), Did1 { part_no: code, ..did1() }).unwrap().part_no;
    assert_eq!(part(0x04), PartNo::Lm4f120h5qr);
    assert_eq!(part(0xA1), PartNo::Tm4c123gh6pm);
    assert_eq!(part(0x1F), PartNo::Unknown(0x1F));
    assert_eq!(part(45), PartNo::Unknown(45));
}

#[test]
fn tm4c129_part_numbers() {
    let part =
        |code: u8| snowflake_id::get(did0(), Did1 { part_no: code, ..did1() }).unwrap().part_no;
    assert_eq!(part(0x1F), PartNo::Tm4c1294ncpdt);
    assert_eq!(part(45), PartNo::Tm4c129encpdt);
    assert_eq!(part(0xA1), PartNo::Unknown(0xA1));
    assert_eq!(part(0), PartNo::Unknown(0));
}

#[test]
fn unknown_register_formats_are_refused() {
    assert_eq!(
        blizzard_id::get(Did0 { ver: 0, ..did0() }, did1()),
        Err(Error::UnknownDid0Ver(0))
    );
    assert_eq!(
        blizzard_id::get(did0(), Did1 { ver: 0, ..did1() }),
        Err(Error::UnknownDid1Ver(0))
    );
    assert_eq!(
        snowflake_id::get(Did0 { ver: 7, ..did0() }, Did1 { ver: 9, ..did1() }),
        Err(Error::UnknownDid0Ver(7))
    );
    assert_eq!(
        snowflake_id::get(did0(), Did1 { ver: 15, ..did1() }),
        Err(Error::UnknownDid1Ver(15))
    );
}

#[test]
fn first_register_is_judged_alone() {
    assert_eq!(did0_known(did0()), Ok(()));
    assert_eq!(did0_known(Did0 { ver: 0, ..did0() }), Err(Error::UnknownDid0Ver(0)));
    assert_eq!(did0_known(Did0 { ver: 7, ..did0() }), Err(Error::UnknownDid0Ver(7)));
}

#[test]
fn chip_fields_decode() {
    assert_eq!(DeviceClass::decode(0x05), DeviceClass::StellarisBlizzard);
    assert_eq!(DeviceClass::decode(0x0a), DeviceClass::Snowflake);
    assert_eq!(DeviceClass::decode(0), DeviceClass::Unknown);
    let pins = [
        PinCount::_28,
        PinCount::_48,
        PinCount::_100,
        PinCount::_64,
        PinCount::_144,
        PinCount::_157,
        PinCount::_168,
        PinCount::Unknown,
    ];
    for (code, expected) in pins.iter().enumerate() {
        assert_eq!(PinCount::decode(code as u8), *expected);
    }
    let ranges = [
        TempRange::Commercial,
        TempRange::Industrial,
        TempRange::Extended,
        TempRange::IndustrialOrExtended,
        TempRange::Unknown,
    ];
    for (code, expected) in ranges.iter().enumerate() {
        assert_eq!(TempRange::decode(code as u8), *expected);
    }
    let packages = [Package::Soic, Package::Lqfp, Package::Bga, Package::Unknown];
    for (code, expected) in packages.iter().enumerate() {
        assert_eq!(Package::decode(code as u8), *expected);
    }
    let qualifications = [
        Qualification::EngineeringSample,
        Qualification::PilotProduction,
        Qualification::FullyQualified,
        Qualification::Unknown,
    ];
    for (code, expected) in qualifications.iter().enumerate() {
        assert_eq!(Qualification::decode(code as u8), *expected);
    }
}

#[test]
fn snowflake_chip_is_identified() {
    let id = snowflake_id::get(
        Did0 { ver: 1, class: 0x0a, major: 0, minor: 3 },
        Did1 { ver: 1, part_no: 0x1F, pin_count: 9, temp: 3, package: 2, rohs: false, qual: 1 },
    );
    assert_eq!(
        id,
        Ok(ChipId {
            device_class: DeviceClass::Snowflake,
            major: 0,
            minor: 3,
            pin_count: PinCount::Unknown,
            temp_range: TempRange::IndustrialOrExtended,
            package: Package::Bga,
            rohs_compliant: false,
            qualification: Qualification::PilotProduction,
            part_no: PartNo::Tm4c1294ncpdt,
        })
    );
}

#[test]
fn timer_setup_and_start() {
    let sysctl = blizzard::Sysctl::new();
    let clocks = Clocks { osc: Hertz(16_000_000), sysclk: Hertz(80_000_000) };
    let (timer, ops) = Timer::new("timer0", Hertz(1_000), &sysctl.power_control, clocks);
    assert_eq!(
        ops,
        vec![
            TimerOp::Halt,
            TimerOp::FullWidth,
            TimerOp::Periodic,
            TimerOp::Disable,
            TimerOp::Value(80_000),
            TimerOp::Load(80_000),
            TimerOp::Enable,
        ]
    );
    assert_eq!(*timer.registers(), "timer0");
}

#[test]
fn timer_restart_rounds_down() {
    let sysctl = blizzard::Sysctl::new();
    let clocks = Clocks { osc: Hertz(16_000_000), sysclk: Hertz(80_000_000) };
    let (mut timer, _) = Timer::new((), Hertz(1), &sysctl.power_control, clocks);
    assert_eq!(
        timer.start(Hertz(3)),
        vec![
            TimerOp::Disable,
            TimerOp::Value(26_666_666),
            TimerOp::Load(26_666_666),
            TimerOp::Enable,
        ]
    );
    assert_eq!(timer.start(Hertz(80_000_001))[1], TimerOp::Value(0));
}

#[test]
fn timer_wait_listen_and_free() {
    let sysctl = blizzard::Sysctl::new();
    let clocks = Clocks { osc: Hertz(16_000_000), sysclk: Hertz(16_000_000) };
    let (mut timer, _) = Timer::new(7u8, Hertz(10), &sysctl.power_control, clocks);
    assert_eq!(timer.wait(false), None);
    assert_eq!(timer.wait(true), Some(TimerOp::Acknowledge));
    assert_eq!(timer.listen(Event::TimeOut), TimerOp::Mask(true));
    assert_eq!(timer.unlisten(Event::TimeOut), TimerOp::Mask(false));
    assert_eq!(timer.free(), (7u8, TimerOp::Stop));
}
