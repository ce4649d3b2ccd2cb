//! The clock tree of the TM4C123x.

use tm4c_core::sysctl::{Clocks, CrystalFrequency, Divider};
use tm4c_core::time::Hertz;
use tm4c_core::tm4c123::sysctl::{
    ClockOp, ClockSetup, Oscillator, PllOutputFrequency, RunClock, Source, Sysctl, SystemClock,
};

const CRYSTALS: [(CrystalFrequency, u32); 21] = [
    (CrystalFrequency::_4mhz, 4_000_000),
    (CrystalFrequency::_4_09mhz, 4_090_000),
    (CrystalFrequency::_4_91mhz, 4_910_000),
    (CrystalFrequency::_5mhz, 5_000_000),
    (CrystalFrequency::_5_12mhz, 5_120_000),
    (CrystalFrequency::_6mhz, 6_000_000),
    (CrystalFrequency::_6_14mhz, 6_140_000),
    (CrystalFrequency::_7_37mhz, 7_370_000),
    (CrystalFrequency::_8mhz, 8_000_000),
    (CrystalFrequency::_8_19mhz, 8_190_000),
    (CrystalFrequency::_10mhz, 10_000_000),
    (CrystalFrequency::_12mhz, 12_000_000),
    (CrystalFrequency::_12_2mhz, 12_200_000),
    (CrystalFrequency::_13_5mhz, 13_500_000),
    (CrystalFrequency::_14_3mhz, 14_300_000),
    (CrystalFrequency::_16mhz, 16_000_000),
    (CrystalFrequency::_16_3mhz, 16_300_000),
    (CrystalFrequency::_18mhz, 18_000_000),
    (CrystalFrequency::_20mhz, 20_000_000),
    (CrystalFrequency::_24mhz, 24_000_000),
    (CrystalFrequency::_25mhz, 25_000_000),
];

const DIVIDERS: [Divider; 16] = [
    Divider::_1,
    Divider::_2,
    Divider::_3,
    Divider::_4,
    Divider::_5,
    Divider::_6,
    Divider::_7,
    Divider::_8,
    Divider::_9,
    Divider::_10,
    Divider::_11,
    Divider::_12,
    Divider::_13,
    Divider::_14,
    Divider::_15,
    Divider::_16,
];

fn freeze(oscillator: Oscillator) -> Clocks {
    ClockSetup { oscillator }.freeze()
}

fn program(oscillator: Oscillator) -> Vec<ClockOp> {
    ClockSetup { oscillator }.program()
}

#[test]
fn tm4c123_pll_frequencies_in_hertz() {
    let table = [
        (PllOutputFrequency::_80_00mhz, 80_000_000, 0),
        (PllOutputFrequency::_66_67mhz, 66_670_000, 2),
        (PllOutputFrequency::_50_00mhz, 50_000_000, 3),
        (PllOutputFrequency::_40_00mhz, 40_000_000, 4),
        (PllOutputFrequency::_33_33mhz, 33_330_000, 5),
        (PllOutputFrequency::_28_57mhz, 28_570_000, 6),
        (PllOutputFrequency::_25mhz, 25_000_000, 7),
        (PllOutputFrequency::_22_22mhz, 22_220_000, 8),
        (PllOutputFrequency::_20mhz, 20_000_000, 9),
        (PllOutputFrequency::_18_18mhz, 18_180_000, 10),
        (PllOutputFrequency::_16_67mhz, 16_670_000, 11),
        (PllOutputFrequency::_15_38mhz, 15_380_000, 12),
        (PllOutputFrequency::_14_29mhz, 14_290_000, 13),
        (PllOutputFrequency::_13_33mhz, 13_330_000, 14),
        (PllOutputFrequency::_12_5mhz, 12_500_000, 15),
    ];
    for (freq, hertz, field) in table {
        assert_eq!(Hertz::from(freq), Hertz(hertz));
        assert_eq!(freq.sysdiv(), field);
    }
}

#[test]
fn tm4c123_out_of_reset() {
    let sysctl = Sysctl::new();
    assert_eq!(
        sysctl.clock_setup.oscillator,
        Oscillator::PrecisionInternal(SystemClock::UseOscillator(
            Divider::_1
        ))
    );
    let clocks = sysctl.clock_setup.freeze();
    assert_eq!(clocks, Clocks { osc: Hertz(16_000_000), sysclk: Hertz(16_000_000) });
}

#[test]
fn tm4c123_field_assignment_is_honoured() {
    let mut sysctl = Sysctl::new();
    sysctl.clock_setup.oscillator = Oscillator::Main(
        CrystalFrequency::_16mhz,
        SystemClock::UsePll(PllOutputFrequency::_80_00mhz),
    );
    let clocks = sysctl.clock_setup.freeze();
    assert_eq!(clocks, Clocks { osc: Hertz(16_000_000), sysclk: Hertz(80_000_000) });
}

#[test]
fn tm4c123_main_oscillator_divided() {
    for (crystal, hertz) in CRYSTALS {
        for (i, divider) in DIVIDERS.iter().enumerate() {
            let clocks = freeze(Oscillator::Main(crystal, SystemClock::UseOscillator(*divider)));
            assert_eq!(clocks.osc, Hertz(hertz));
            assert_eq!(clocks.sysclk, Hertz(hertz / (i as u32 + 1)));
        }
    }
}

#[test]
fn tm4c123_pll_gives_the_divided_frequency() {
    let table = [
        (PllOutputFrequency::_80_00mhz, 80_000_000),
        (PllOutputFrequency::_66_67mhz, 66_666_666),
        (PllOutputFrequency::_50_00mhz, 50_000_000),
        (PllOutputFrequency::_40_00mhz, 40_000_000),
        (PllOutputFrequency::_33_33mhz, 33_333_333),
        (PllOutputFrequency::_28_57mhz, 28_571_428),
        (PllOutputFrequency::_25mhz, 25_000_000),
        (PllOutputFrequency::_22_22mhz, 22_222_222),
        (PllOutputFrequency::_20mhz, 20_000_000),
        (PllOutputFrequency::_18_18mhz, 18_181_818),
        (PllOutputFrequency::_16_67mhz, 16_666_666),
        (PllOutputFrequency::_15_38mhz, 15_384_615),
        (PllOutputFrequency::_14_29mhz, 14_285_714),
        (PllOutputFrequency::_13_33mhz, 13_333_333),
        (PllOutputFrequency::_12_5mhz, 12_500_000),
    ];
    for (freq, sysclk) in table {
        let internal = freeze(Oscillator::PrecisionInternal(SystemClock::UsePll(freq)));
        assert_eq!(internal, Clocks { osc: Hertz(16_000_000), sysclk: Hertz(sysclk) });
        let main = freeze(Oscillator::Main(CrystalFrequency::_25mhz, SystemClock::UsePll(freq)));
        assert_eq!(main, Clocks { osc: Hertz(25_000_000), sysclk: Hertz(sysclk) });
    }
}

#[test]
fn tm4c123_slow_oscillators() {
    assert_eq!(
        freeze(Oscillator::PrecisionInternalDiv4(Divider::_4)),
        Clocks { osc: Hertz(4_000_000), sysclk: Hertz(1_000_000) }
    );
    assert_eq!(
        freeze(Oscillator::PrecisionInternalDiv4(Divider::_3)),
        Clocks { osc: Hertz(4_000_000), sysclk: Hertz(1_333_333) }
    );
    assert_eq!(
        freeze(Oscillator::LowFrequencyInternal(Divider::_16)),
        Clocks { osc: Hertz(30_000), sysclk: Hertz(1_875) }
    );
    assert_eq!(
        freeze(Oscillator::LowFrequencyInternal(Divider::_1)),
        Clocks { osc: Hertz(30_000), sysclk: Hertz(30_000) }
    );
}

#[test]
fn tm4c123_program_without_pll() {
    assert_eq!(
        program(Oscillator::Main(
            CrystalFrequency::_8mhz,
            SystemClock::UseOscillator(Divider::_4)
        )),
        vec![ClockOp::Configure(RunClock {
            source: Source::Main,
            crystal: Some(CrystalFrequency::_8mhz),
            main_disabled: false,
            divide: true,
            sysdiv: 3,
        })]
    );
    assert_eq!(
        program(Oscillator::PrecisionInternal(SystemClock::UseOscillator(Divider::_1))),
        vec![ClockOp::Configure(RunClock {
            source: Source::Internal,
            crystal: None,
            main_disabled: true,
            divide: true,
            sysdiv: 0,
        })]
    );
    assert_eq!(
        program(Oscillator::PrecisionInternalDiv4(Divider::_16)),
        vec![ClockOp::Configure(RunClock {
            source: Source::InternalDiv4,
            crystal: None,
            main_disabled: true,
            divide: true,
            sysdiv: 15,
        })]
    );
    assert_eq!(
        program(Oscillator::LowFrequencyInternal(Divider::_2)),
        vec![ClockOp::Configure(RunClock {
            source: Source::LowFrequency,
            crystal: None,
            main_disabled: true,
            divide: true,
            sysdiv: 1,
        })]
    );
}

#[test]
fn tm4c123_program_with_pll() {
    assert_eq!(
        program(Oscillator::Main(
            CrystalFrequency::_16mhz,
            SystemClock::UsePll(PllOutputFrequency::_80_00mhz)
        )),
        vec![
            ClockOp::Configure(RunClock {
                source: Source::Main,
                crystal: Some(CrystalFrequency::_16mhz),
                main_disabled: false,
                divide: false,
                sysdiv: 0,
            }),
            ClockOp::ClearLock,
            ClockOp::PowerPll,
            ClockOp::AwaitLock,
            ClockOp::SelectFullPll,
        ]
    );
    assert_eq!(
        program(Oscillator::PrecisionInternal(SystemClock::UsePll(
            PllOutputFrequency::_50_00mhz
        ))),
        vec![
            ClockOp::Configure(RunClock {
                source: Source::Internal,
                crystal: None,
                main_disabled: true,
                divide: false,
                sysdiv: 0,
            }),
            ClockOp::ClearLock,
            ClockOp::PowerPll,
            ClockOp::AwaitLock,
            ClockOp::SelectPll { sysdiv: 3 },
        ]
    );
}
