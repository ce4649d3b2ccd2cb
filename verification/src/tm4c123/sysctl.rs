//! # System Control
//!
//! The TM4C123x can be clocked from the Main Oscillator or the PLL, through a
//! divider. The Main Oscillator can be either the internal 16 MHz precision
//! oscillator, a 4 MHz derivation of the same, or an external crystal.
//!
//! This module works out what a clock configuration amounts to: the
//! frequencies it gives and the register accesses that bring it about. It
//! also names, for each peripheral, its bit in the power and reset
//! registers.

use vstd::prelude::*;
use vstd::std_specs::convert::FromSpecImpl;
use crate::sysctl::{
    lemma_divided_runs,
    Clocks,
    CrystalFrequency,
    Divider,
    Gate,
    Group,
    Line,
    PowerControl,
    PowerState,
    RunMode,
};
use crate::time::Hertz;

verus! {

/// Constrained SYSCTL peripheral.
pub struct Sysctl {
    /// Power control methods will require `&mut this.power_control` to
    /// prevent them from running concurrently.
    pub power_control: PowerControl,
    /// Clock configuration will consume this and give you `Clocks`.
    pub clock_setup: ClockSetup,
}

/// Used to configure the clock generators.
pub struct ClockSetup {
    /// The system oscillator configuration
    pub oscillator: Oscillator,
}

/// Selects the system oscillator source
#[derive(Clone, Copy, Debug, PartialEq, Eq, Structural)]
pub enum Oscillator {
    /// Use the main oscillator (with the given crystal), into the PLL or a clock divider
    Main(CrystalFrequency, SystemClock),
    /// Use the 16 MHz precision internal oscillator, into the PLL or a clock divider
    PrecisionInternal(SystemClock),
    /// Use the 16 MHz precision internal oscillator, divided down to 4 MHz
    /// and then divided down again by the given value.
    PrecisionInternalDiv4(Divider),
    /// Use the 30 kHz internal oscillator, divided by the given value.
    LowFrequencyInternal(Divider),
}

/// Selects the source for the system clock
#[derive(Clone, Copy, Debug, PartialEq, Eq, Structural)]
pub enum SystemClock {
    /// Clock the system direct from the system oscillator
    UseOscillator(Divider),
    /// Clock the system from the PLL (which is driven by the system
    /// oscillator), divided down from 400MHz to the given frequency.
    UsePll(PllOutputFrequency),
}

/// Selects what to divide the PLL's 400MHz down to.
#[allow(non_camel_case_types)]
#[derive(Clone, Copy, Debug, PartialEq, Eq, Structural)]
pub enum PllOutputFrequency {
    /// 80.00 MHz
    _80_00mhz,
    /// 66.67 MHz
    _66_67mhz,
    /// 50 MHz
    _50_00mhz,
    /// 40 MHz
    _40_00mhz,
    /// 33.33 MHz
    _33_33mhz,
    /// 28.57 MHz
    _28_57mhz,
    /// 25 MHz
    _25mhz,
    /// 22.22 MHz
    _22_22mhz,
    /// 20 MHz
    _20mhz,
    /// 18.18 MHz
    _18_18mhz,
    /// 16.67 MHz
    _16_67mhz,
    /// 15.38 MHz
    _15_38mhz,
    /// 14.29 MHz
    _14_29mhz,
    /// 13.33 MHz
    _13_33mhz,
    /// 12.5 MHz
    _12_5mhz,
}

impl PllOutputFrequency {
    /// The value of the system divider field that selects this frequency:
    /// the 200 MHz half of the PLL output is divided by one more than it.
    /// 80 MHz has no such value, since it takes the full 400 MHz; it goes
    /// by 0.
    pub open spec fn field(self) -> u8 {
        match self {
            PllOutputFrequency::_80_00mhz => 0,
            PllOutputFrequency::_66_67mhz => 2,
            PllOutputFrequency::_50_00mhz => 3,
            PllOutputFrequency::_40_00mhz => 4,
            PllOutputFrequency::_33_33mhz => 5,
            PllOutputFrequency::_28_57mhz => 6,
            PllOutputFrequency::_25mhz => 7,
            PllOutputFrequency::_22_22mhz => 8,
            PllOutputFrequency::_20mhz => 9,
            PllOutputFrequency::_18_18mhz => 10,
            PllOutputFrequency::_16_67mhz => 11,
            PllOutputFrequency::_15_38mhz => 12,
            PllOutputFrequency::_14_29mhz => 13,
            PllOutputFrequency::_13_33mhz => 14,
            PllOutputFrequency::_12_5mhz => 15,
        }
    }

    /// The nominal frequency in Hz, to four digits.
    pub open spec fn hertz(self) -> u32 {
        match self {
            PllOutputFrequency::_80_00mhz => 80_000_000,
            PllOutputFrequency::_66_67mhz => 66_670_000,
            PllOutputFrequency::_50_00mhz => 50_000_000,
            PllOutputFrequency::_40_00mhz => 40_000_000,
            PllOutputFrequency::_33_33mhz => 33_330_000,
            PllOutputFrequency::_28_57mhz => 28_570_000,
            PllOutputFrequency::_25mhz => 25_000_000,
            PllOutputFrequency::_22_22mhz => 22_220_000,
            PllOutputFrequency::_20mhz => 20_000_000,
            PllOutputFrequency::_18_18mhz => 18_180_000,
            PllOutputFrequency::_16_67mhz => 16_670_000,
            PllOutputFrequency::_15_38mhz => 15_380_000,
            PllOutputFrequency::_14_29mhz => 14_290_000,
            PllOutputFrequency::_13_33mhz => 13_330_000,
            PllOutputFrequency::_12_5mhz => 12_500_000,
        }
    }

    /// The frequency in Hz that the divider really gives: 400 MHz by five
    /// for 80 MHz, and 200 MHz by one more than the field for the rest.
    pub open spec fn divided(self) -> nat {
        if self == PllOutputFrequency::_80_00mhz {
            80_000_000
        } else {
            (400_000_000int / (2 * (self.field() + 1))) as nat
        }
    }

    /// The value of the system divider field that selects this frequency.
    pub fn sysdiv(self) -> (field: u8)
        ensures
            field == self.field(),
            field <= 15,
            field != 1,
    {
        match self {
            PllOutputFrequency::_80_00mhz => 0,
            PllOutputFrequency::_66_67mhz => 2,
            PllOutputFrequency::_50_00mhz => 3,
            PllOutputFrequency::_40_00mhz => 4,
            PllOutputFrequency::_33_33mhz => 5,
            PllOutputFrequency::_28_57mhz => 6,
            PllOutputFrequency::_25mhz => 7,
            PllOutputFrequency::_22_22mhz => 8,
            PllOutputFrequency::_20mhz => 9,
            PllOutputFrequency::_18_18mhz => 10,
            PllOutputFrequency::_16_67mhz => 11,
            PllOutputFrequency::_15_38mhz => 12,
            PllOutputFrequency::_14_29mhz => 13,
            PllOutputFrequency::_13_33mhz => 14,
            PllOutputFrequency::_12_5mhz => 15,
        }
    }
}

impl From<PllOutputFrequency> for Hertz {
    fn from(freq: PllOutputFrequency) -> (hertz: Hertz) {
        Hertz(
            match freq {
                PllOutputFrequency::_80_00mhz => 80_000_000,
                PllOutputFrequency::_66_67mhz => 66_670_000,
                PllOutputFrequency::_50_00mhz => 50_000_000,
                PllOutputFrequency::_40_00mhz => 40_000_000,
                PllOutputFrequency::_33_33mhz => 33_330_000,
                PllOutputFrequency::_28_57mhz => 28_570_000,
                PllOutputFrequency::_25mhz => 25_000_000,
                PllOutputFrequency::_22_22mhz => 22_220_000,
                PllOutputFrequency::_20mhz => 20_000_000,
                PllOutputFrequency::_18_18mhz => 18_180_000,
                PllOutputFrequency::_16_67mhz => 16_670_000,
                PllOutputFrequency::_15_38mhz => 15_380_000,
                PllOutputFrequency::_14_29mhz => 14_290_000,
                PllOutputFrequency::_13_33mhz => 13_330_000,
                PllOutputFrequency::_12_5mhz => 12_500_000,
            },
        )
    }
}

impl FromSpecImpl<PllOutputFrequency> for Hertz {
    open spec fn obeys_from_spec() -> bool {
        true
    }

    open spec fn from_spec(freq: PllOutputFrequency) -> Hertz {
        Hertz(freq.hertz())
    }
}

/// The nominal frequency of a PLL setting is what its divider gives, cut
/// down to four digits: it lies within 5 kHz of it.
pub proof fn lemma_pll_nominal(freq: PllOutputFrequency)
    ensures
        freq.divided() - 5_000 < freq.hertz() <= freq.divided() + 5_000,
        12_500_000 <= freq.divided() <= 80_000_000,
{
    match freq {
        PllOutputFrequency::_80_00mhz => {},
        PllOutputFrequency::_66_67mhz => {
            assert(400_000_000int / 6 == 66_666_666);
        },
        PllOutputFrequency::_50_00mhz => {
            assert(400_000_000int / 8 == 50_000_000);
        },
        PllOutputFrequency::_40_00mhz => {
            assert(400_000_000int / 10 == 40_000_000);
        },
        PllOutputFrequency::_33_33mhz => {
            assert(400_000_000int / 12 == 33_333_333);
        },
        PllOutputFrequency::_28_57mhz => {
            assert(400_000_000int / 14 == 28_571_428);
        },
        PllOutputFrequency::_25mhz => {
            assert(400_000_000int / 16 == 25_000_000);
        },
        PllOutputFrequency::_22_22mhz => {
            assert(400_000_000int / 18 == 22_222_222);
        },
        PllOutputFrequency::_20mhz => {
            assert(400_000_000int / 20 == 20_000_000);
        },
        PllOutputFrequency::_18_18mhz => {
            assert(400_000_000int / 22 == 18_181_818);
        },
        PllOutputFrequency::_16_67mhz => {
            assert(400_000_000int / 24 == 16_666_666);
        },
        PllOutputFrequency::_15_38mhz => {
            assert(400_000_000int / 26 == 15_384_615);
        },
        PllOutputFrequency::_14_29mhz => {
            assert(400_000_000int / 28 == 14_285_714);
        },
        PllOutputFrequency::_13_33mhz => {
            assert(400_000_000int / 30 == 13_333_333);
        },
        PllOutputFrequency::_12_5mhz => {
            assert(400_000_000int / 32 == 12_500_000);
        },
    }
}

/// What the oscillator source field can select.
#[derive(Clone, Copy, Debug, PartialEq, Eq, Structural)]
pub enum Source {
    /// The main oscillator
    Main,
    /// The precision internal oscillator
    Internal,
    /// The precision internal oscillator divided by four
    InternalDiv4,
    /// The low-frequency internal oscillator
    LowFrequency,
}

/// The fields of the first write to the run-mode clock configuration
/// register. It always bypasses the PLL.
#[derive(Clone, Copy, Debug, PartialEq, Eq, Structural)]
pub struct RunClock {
    /// The oscillator source.
    pub source: Source,
    /// The crystal value, where the main oscillator is the source.
    pub crystal: Option<CrystalFrequency>,
    /// Whether the main oscillator is disabled.
    pub main_disabled: bool,
    /// Whether the system clock divider is used.
    pub divide: bool,
    /// The system clock divider field: one less than the divisor.
    pub sysdiv: u8,
}

/// One step of bringing a clock configuration about.
#[derive(Clone, Copy, Debug, PartialEq, Eq, Structural)]
pub enum ClockOp {
    /// Write the run-mode clock configuration with the PLL bypassed.
    Configure(RunClock),
    /// Clear the PLL lock status in the masked interrupt register.
    ClearLock,
    /// Write the run-mode clock configuration with the PLL powered.
    PowerPll,
    /// Read the PLL status until it shows lock.
    AwaitLock,
    /// Write the second clock configuration register: 400 MHz by five.
    SelectFullPll,
    /// Change the run-mode clock configuration to the PLL divided by one
    /// more than the field.
    SelectPll { sysdiv: u8 },
}

impl SystemClock {
    /// The PLL setting, where the PLL is used.
    pub open spec fn pll(self) -> Option<PllOutputFrequency> {
        match self {
            SystemClock::UseOscillator(_) => None,
            SystemClock::UsePll(freq) => Some(freq),
        }
    }

    /// Whether the first configuration divides the oscillator, and the
    /// divider field it writes: one less than the divider, and 0 where the
    /// PLL is to take over.
    pub open spec fn first_divider(self) -> (bool, u8) {
        match self {
            SystemClock::UseOscillator(div) => (true, (div.ratio() - 1) as u8),
            SystemClock::UsePll(_) => (false, 0),
        }
    }
}

impl Oscillator {
    /// The frequency of the oscillator in Hz.
    pub open spec fn osc(self) -> nat {
        match self {
            Oscillator::Main(crystal, _) => crystal.hertz() as nat,
            Oscillator::PrecisionInternal(_) => 16_000_000,
            Oscillator::PrecisionInternalDiv4(_) => 4_000_000,
            Oscillator::LowFrequencyInternal(_) => 30_000,
        }
    }

    /// The PLL setting, where the PLL is used.
    pub open spec fn pll(self) -> Option<PllOutputFrequency> {
        match self {
            Oscillator::Main(_, system_clock) => system_clock.pll(),
            Oscillator::PrecisionInternal(system_clock) => system_clock.pll(),
            _ => None,
        }
    }

    /// The divider between oscillator and system clock, where the PLL is
    /// not used.
    pub open spec fn divider(self) -> Divider
        recommends
            self.pll() is None,
    {
        match self {
            Oscillator::Main(_, SystemClock::UseOscillator(div)) => div,
            Oscillator::PrecisionInternal(SystemClock::UseOscillator(div)) => div,
            Oscillator::PrecisionInternalDiv4(div) => div,
            Oscillator::LowFrequencyInternal(div) => div,
            _ => Divider::_1,
        }
    }

    /// The frequency of the system clock in Hz: what the PLL setting
    /// divides to, or else the oscillator divided down.
    pub open spec fn sysclk(self) -> nat {
        match self.pll() {
            Some(freq) => freq.divided(),
            None => self.osc() / (self.divider().ratio() as nat),
        }
    }

    /// The first write to the clock configuration.
    pub open spec fn first(self) -> RunClock {
        match self {
            Oscillator::Main(crystal, system_clock) => RunClock {
                source: Source::Main,
                crystal: Some(crystal),
                main_disabled: false,
                divide: system_clock.first_divider().0,
                sysdiv: system_clock.first_divider().1,
            },
            Oscillator::PrecisionInternal(system_clock) => RunClock {
                source: Source::Internal,
                crystal: None,
                main_disabled: true,
                divide: system_clock.first_divider().0,
                sysdiv: system_clock.first_divider().1,
            },
            Oscillator::PrecisionInternalDiv4(div) => RunClock {
                source: Source::InternalDiv4,
                crystal: None,
                main_disabled: true,
                divide: true,
                sysdiv: (div.ratio() - 1) as u8,
            },
            Oscillator::LowFrequencyInternal(div) => RunClock {
                source: Source::LowFrequency,
                crystal: None,
                main_disabled: true,
                divide: true,
                sysdiv: (div.ratio() - 1) as u8,
            },
        }
    }

    /// Every register access that brings the configuration about: the
    /// first write, and for the PLL the four steps that start it and
    /// switch over to it.
    pub open spec fn program(self) -> Seq<ClockOp> {
        match self.pll() {
            None => seq![ClockOp::Configure(self.first())],
            Some(freq) => seq![
                ClockOp::Configure(self.first()),
                ClockOp::ClearLock,
                ClockOp::PowerPll,
                ClockOp::AwaitLock,
                if freq == PllOutputFrequency::_80_00mhz {
                    ClockOp::SelectFullPll
                } else {
                    ClockOp::SelectPll { sysdiv: freq.field() }
                },
            ],
        }
    }
}

impl Sysctl {
    /// The system control peripheral as it comes out of reset: clocked
    /// by the precision internal oscillator, undivided.
    pub fn new() -> (sysctl: Sysctl)
        ensures
            sysctl.clock_setup.oscillator == Oscillator::PrecisionInternal(
                SystemClock::UseOscillator(Divider::_1),
            ),
    {
        Sysctl {
            power_control: PowerControl::new(),
            clock_setup: ClockSetup {
                oscillator: Oscillator::PrecisionInternal(SystemClock::UseOscillator(Divider::_1)),
            },
        }
    }
}

fn divider_fields(system_clock: SystemClock) -> (fields: (bool, u8))
    ensures
        fields == system_clock.first_divider(),
{
    match system_clock {
        SystemClock::UseOscillator(div) => (true, (div.value() - 1) as u8),
        SystemClock::UsePll(_) => (false, 0),
    }
}

impl ClockSetup {
    /// The register accesses that put the configuration into effect, in
    /// the order in which they are to be made.
    pub fn program(&self) -> (ops: Vec<ClockOp>)
        ensures
            ops@ == self.oscillator.program(),
    {
        let mut ops: Vec<ClockOp> = Vec::new();
        let mut pll: Option<PllOutputFrequency> = None;
        let first = match self.oscillator {
            Oscillator::Main(crystal, system_clock) => {
                let (divide, sysdiv) = divider_fields(system_clock);
                if let SystemClock::UsePll(freq) = system_clock {
                    pll = Some(freq);
                }
                RunClock {
                    source: Source::Main,
                    crystal: Some(crystal),
                    main_disabled: false,
                    divide,
                    sysdiv,
                }
            },
            Oscillator::PrecisionInternal(system_clock) => {
                let (divide, sysdiv) = divider_fields(system_clock);
                if let SystemClock::UsePll(freq) = system_clock {
                    pll = Some(freq);
                }
                RunClock {
                    source: Source::Internal,
                    crystal: None,
                    main_disabled: true,
                    divide,
                    sysdiv,
                }
            },
            Oscillator::PrecisionInternalDiv4(div) => RunClock {
                source: Source::InternalDiv4,
                crystal: None,
                main_disabled: true,
                divide: true,
                sysdiv: (div.value() - 1) as u8,
            },
            Oscillator::LowFrequencyInternal(div) => RunClock {
                source: Source::LowFrequency,
                crystal: None,
                main_disabled: true,
                divide: true,
                sysdiv: (div.value() - 1) as u8,
            },
        };
        ops.push(ClockOp::Configure(first));
        if let Some(freq) = pll {
            ops.push(ClockOp::ClearLock);
            ops.push(ClockOp::PowerPll);
            ops.push(ClockOp::AwaitLock);
            match freq {
                PllOutputFrequency::_80_00mhz => {
                    ops.push(ClockOp::SelectFullPll);
                },
                _ => {
                    ops.push(ClockOp::SelectPll { sysdiv: freq.sysdiv() });
                },
            }
        }
        assert(ops@ =~= self.oscillator.program());
        ops
    }

    /// Fix the clock configuration and produce a record of the configuration
    /// so that other modules can calibrate themselves (e.g. the UARTs).
    pub fn freeze(self) -> (clocks: Clocks)
        ensures
            clocks.osc.0 == self.oscillator.osc(),
            clocks.sysclk.0 == self.oscillator.sysclk(),
            0 < clocks.sysclk.0 <= 80_000_000,
    {
        let osc: u32;
        let mut sysclk: u32;
        proof {
            lemma_divided_runs(self.oscillator.osc(), self.oscillator.divider());
            if let Some(freq) = self.oscillator.pll() {
                lemma_pll_nominal(freq);
            }
        }
        match self.oscillator {
            Oscillator::Main(crystal_frequency, system_clock) => {
                osc = Hertz::from(crystal_frequency).0;
                if let SystemClock::UseOscillator(div) = system_clock {
                    sysclk = osc / div.value();
                } else {
                    sysclk = osc;
                }
            },
            Oscillator::PrecisionInternal(system_clock) => {
                osc = 16_000_000;
                if let SystemClock::UseOscillator(div) = system_clock {
                    sysclk = osc / div.value();
                } else {
                    sysclk = osc;
                }
            },
            Oscillator::PrecisionInternalDiv4(div) => {
                osc = 4_000_000;
                sysclk = osc / div.value();
            },
            Oscillator::LowFrequencyInternal(div) => {
                osc = 30_000;
                sysclk = osc / div.value();
            },
        }
        match self.oscillator {
            Oscillator::PrecisionInternal(SystemClock::UsePll(freq)) | Oscillator::Main(
                _,
                SystemClock::UsePll(freq),
            ) => {
                match freq {
                    PllOutputFrequency::_80_00mhz => {
                        sysclk = 400_000_000u32 / 5;
                    },
                    _ => {
                        let field: u32 = freq.sysdiv() as u32;
                        sysclk = 400_000_000u32 / (2 * (field + 1));
                    },
                }
            },
            _ => {},
        }
        Clocks { osc: Hertz(osc), sysclk: Hertz(sysclk) }
    }
}

} // verus!

verus! {

/// List of peripherals that can be enabled or disabled
#[derive(Clone, Copy, Debug, PartialEq, Eq, Structural)]
pub enum Domain {
    /// Watchdog 1
    Watchdog1,
    /// Watchdog 0
    Watchdog0,
    /// 32/16-bit Timer 5
    Timer5,
    /// 32/16-bit Timer 4
    Timer4,
    /// 32/16-bit Timer 3
    Timer3,
    /// 32/16-bit Timer 2
    Timer2,
    /// 32/16-bit Timer 1
    Timer1,
    /// 32/16-bit Timer 0
    Timer0,
    /// GPIO F
    GpioF,
    /// GPIO E
    GpioE,
    /// GPIO D
    GpioD,
    /// GPIO C
    GpioC,
    /// GPIO B
    GpioB,
    /// GPIO A
    GpioA,
    /// Micro DMA
    MicroDma,
    /// Hibernation
    Hibernation,
    /// UART 7
    Uart7,
    /// UART 6
    Uart6,
    /// UART 5
    Uart5,
    /// UART 4
    Uart4,
    /// UART 3
    Uart3,
    /// UART 2
    Uart2,
    /// UART 1
    Uart1,
    /// UART 0
    Uart0,
    /// SSI 3
    Ssi3,
    /// SSI 2
    Ssi2,
    /// SSI 1
    Ssi1,
    /// SSI 0
    Ssi0,
    /// I2C 3
    I2c3,
    /// I2C 2
    I2c2,
    /// I2C 1
    I2c1,
    /// I2C 0
    I2c0,
    /// USB
    Usb,
    /// CAN
    Can,
    /// ADC 1
    Adc1,
    /// ADC 0
    Adc0,
    /// Analog Comparator
    AnalogComparator,
    /// EEPROM
    Eeprom,
    /// 64/32-bit Timer 5
    WideTimer5,
    /// 64/32-bit Timer 4
    WideTimer4,
    /// 64/32-bit Timer 3
    WideTimer3,
    /// 64/32-bit Timer 2
    WideTimer2,
    /// 64/32-bit Timer 1
    WideTimer1,
    /// 64/32-bit Timer 0
    WideTimer0,
    /// PWM0
    Pwm0,
    /// PWM1
    Pwm1,
}

impl Domain {
    /// The class of peripheral the domain belongs to.
    pub open spec fn group(self) -> Group {
        match self {
            Domain::Watchdog1 | Domain::Watchdog0 => Group::Watchdog,
            Domain::Timer5 | Domain::Timer4 | Domain::Timer3 | Domain::Timer2
            | Domain::Timer1 | Domain::Timer0 => Group::Timer,
            Domain::GpioF | Domain::GpioE | Domain::GpioD | Domain::GpioC
            | Domain::GpioB | Domain::GpioA => Group::Gpio,
            Domain::MicroDma => Group::Dma,
            Domain::Hibernation => Group::Hibernation,
            Domain::Uart7 | Domain::Uart6 | Domain::Uart5 | Domain::Uart4
            | Domain::Uart3 | Domain::Uart2 | Domain::Uart1 | Domain::Uart0 => Group::Uart,
            Domain::Ssi3 | Domain::Ssi2 | Domain::Ssi1 | Domain::Ssi0 => Group::Ssi,
            Domain::I2c3 | Domain::I2c2 | Domain::I2c1 | Domain::I2c0 => Group::I2c,
            Domain::Usb => Group::Usb,
            Domain::Can => Group::Can,
            Domain::Adc1 | Domain::Adc0 => Group::Adc,
            Domain::AnalogComparator => Group::AnalogComparator,
            Domain::Eeprom => Group::Eeprom,
            Domain::WideTimer5 | Domain::WideTimer4 | Domain::WideTimer3
            | Domain::WideTimer2 | Domain::WideTimer1 | Domain::WideTimer0 => Group::WideTimer,
            Domain::Pwm0 | Domain::Pwm1 => Group::Pwm,
        }
    }

    /// The number of the instance within its class.
    pub open spec fn index(self) -> u8 {
        match self {
            Domain::Watchdog0 | Domain::Timer0 | Domain::GpioA | Domain::MicroDma
            | Domain::Hibernation | Domain::Uart0 | Domain::Ssi0 | Domain::I2c0
            | Domain::Usb | Domain::Can | Domain::Adc0 | Domain::AnalogComparator
            | Domain::Eeprom | Domain::WideTimer0 | Domain::Pwm0 => 0,
            Domain::Watchdog1 | Domain::Timer1 | Domain::GpioB | Domain::Uart1
            | Domain::Ssi1 | Domain::I2c1 | Domain::Adc1 | Domain::WideTimer1
            | Domain::Pwm1 => 1,
            Domain::Timer2 | Domain::GpioC | Domain::Uart2 | Domain::Ssi2 | Domain::I2c2
            | Domain::WideTimer2 => 2,
            Domain::Timer3 | Domain::GpioD | Domain::Uart3 | Domain::Ssi3 | Domain::I2c3
            | Domain::WideTimer3 => 3,
            Domain::Timer4 | Domain::GpioE | Domain::Uart4 | Domain::WideTimer4 => 4,
            Domain::Timer5 | Domain::GpioF | Domain::Uart5 | Domain::WideTimer5 => 5,
            Domain::Uart6 => 6,
            Domain::Uart7 => 7,
        }
    }

    /// The bit that stands for the domain in the registers of its class.
    pub open spec fn line(self) -> Line {
        Line { group: self.group(), bit: self.index() }
    }

    /// Looks up the bit that stands for the domain.
    pub fn target(self) -> (line: Line)
        ensures
            line == self.line(),
            line.bit < 8,
    {
        match self {
            Domain::Watchdog1 => Line { group: Group::Watchdog, bit: 1 },
            Domain::Watchdog0 => Line { group: Group::Watchdog, bit: 0 },
            Domain::Timer5 => Line { group: Group::Timer, bit: 5 },
            Domain::Timer4 => Line { group: Group::Timer, bit: 4 },
            Domain::Timer3 => Line { group: Group::Timer, bit: 3 },
            Domain::Timer2 => Line { group: Group::Timer, bit: 2 },
            Domain::Timer1 => Line { group: Group::Timer, bit: 1 },
            Domain::Timer0 => Line { group: Group::Timer, bit: 0 },
            Domain::GpioF => Line { group: Group::Gpio, bit: 5 },
            Domain::GpioE => Line { group: Group::Gpio, bit: 4 },
            Domain::GpioD => Line { group: Group::Gpio, bit: 3 },
            Domain::GpioC => Line { group: Group::Gpio, bit: 2 },
            Domain::GpioB => Line { group: Group::Gpio, bit: 1 },
            Domain::GpioA => Line { group: Group::Gpio, bit: 0 },
            Domain::MicroDma => Line { group: Group::Dma, bit: 0 },
            Domain::Hibernation => Line { group: Group::Hibernation, bit: 0 },
            Domain::Uart7 => Line { group: Group::Uart, bit: 7 },
            Domain::Uart6 => Line { group: Group::Uart, bit: 6 },
            Domain::Uart5 => Line { group: Group::Uart, bit: 5 },
            Domain::Uart4 => Line { group: Group::Uart, bit: 4 },
            Domain::Uart3 => Line { group: Group::Uart, bit: 3 },
            Domain::Uart2 => Line { group: Group::Uart, bit: 2 },
            Domain::Uart1 => Line { group: Group::Uart, bit: 1 },
            Domain::Uart0 => Line { group: Group::Uart, bit: 0 },
            Domain::Ssi3 => Line { group: Group::Ssi, bit: 3 },
            Domain::Ssi2 => Line { group: Group::Ssi, bit: 2 },
            Domain::Ssi1 => Line { group: Group::Ssi, bit: 1 },
            Domain::Ssi0 => Line { group: Group::Ssi, bit: 0 },
            Domain::I2c3 => Line { group: Group::I2c, bit: 3 },
            Domain::I2c2 => Line { group: Group::I2c, bit: 2 },
            Domain::I2c1 => Line { group: Group::I2c, bit: 1 },
            Domain::I2c0 => Line { group: Group::I2c, bit: 0 },
            Domain::Usb => Line { group: Group::Usb, bit: 0 },
            Domain::Can => Line { group: Group::Can, bit: 0 },
            Domain::Adc1 => Line { group: Group::Adc, bit: 1 },
            Domain::Adc0 => Line { group: Group::Adc, bit: 0 },
            Domain::AnalogComparator => Line { group: Group::AnalogComparator, bit: 0 },
            Domain::Eeprom => Line { group: Group::Eeprom, bit: 0 },
            Domain::WideTimer5 => Line { group: Group::WideTimer, bit: 5 },
            Domain::WideTimer4 => Line { group: Group::WideTimer, bit: 4 },
            Domain::WideTimer3 => Line { group: Group::WideTimer, bit: 3 },
            Domain::WideTimer2 => Line { group: Group::WideTimer, bit: 2 },
            Domain::WideTimer1 => Line { group: Group::WideTimer, bit: 1 },
            Domain::WideTimer0 => Line { group: Group::WideTimer, bit: 0 },
            Domain::Pwm0 => Line { group: Group::Pwm, bit: 0 },
            Domain::Pwm1 => Line { group: Group::Pwm, bit: 1 },
        }
    }
}

/// No two domains share a bit: a reset or a clock gate meant for one
/// peripheral never reaches another.
pub proof fn lemma_lines_distinct(a: Domain, b: Domain)
    ensures
        a.line() == b.line() ==> a == b,
{
}

/// Reset a peripheral
///
/// Names the bit to pulse in the software reset register of the domain's
/// class: set it, clear it, and then wait until the same bit of the
/// peripheral ready register reads as set.
pub fn reset(_lock: &PowerControl, pd: Domain) -> (line: Line)
    ensures
        line == pd.line(),
{
    pd.target()
}

/// Activate or De-Activate clocks and power to the given peripheral in the
/// given run mode.
///
/// We take a reference to PowerControl as a permission check.
///
/// Names the clock gate to set. Once a clock has been enabled, three system
/// clocks must pass before any register of the module is accessed.
pub fn control_power(
    _lock: &PowerControl,
    pd: Domain,
    run_mode: RunMode,
    state: PowerState,
) -> (gate: Gate)
    ensures
        gate == (Gate { mode: run_mode, line: pd.line(), on: state == PowerState::On }),
{
    let on = match state {
        PowerState::On => true,
        PowerState::Off => false,
    };
    match run_mode {
        RunMode::Run => control_run_power(pd, on),
        RunMode::Sleep => control_sleep_power(pd, on),
        RunMode::DeepSleep => control_deep_sleep_power(pd, on),
    }
}

fn control_run_power(pd: Domain, on: bool) -> (gate: Gate)
    ensures
        gate == (Gate { mode: RunMode::Run, line: pd.line(), on }),
{
    Gate { mode: RunMode::Run, line: pd.target(), on }
}

fn control_sleep_power(pd: Domain, on: bool) -> (gate: Gate)
    ensures
        gate == (Gate { mode: RunMode::Sleep, line: pd.line(), on }),
{
    Gate { mode: RunMode::Sleep, line: pd.target(), on }
}

fn control_deep_sleep_power(pd: Domain, on: bool) -> (gate: Gate)
    ensures
        gate == (Gate { mode: RunMode::DeepSleep, line: pd.line(), on }),
{
    Gate { mode: RunMode::DeepSleep, line: pd.target(), on }
}

} // verus!
