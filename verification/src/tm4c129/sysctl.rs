//! # System Control
//!
//! The TM4C129x can be clocked from the Main Oscillator or the PLL, through a
//! divider. The Main Oscillator can be either the internal 16 MHz precision
//! oscillator or an external crystal.
//!
//! This module works out what a clock configuration amounts to: the
//! frequencies it gives and the register accesses that bring it about,
//! with the memory timing that the new system clock calls for. It also
//! names, for each peripheral, its bit in the power and reset registers.

use vstd::prelude::*;
use vstd::std_specs::convert::FromSpecImpl;
use crate::sysctl::{
    lemma_divided_runs,
    Clocks,
    CrystalFrequency,
    Divider,
    Gate,
    Group,
    Line,
    PowerControl,
    PowerState,
    RunMode,
};
use crate::time::Hertz;

verus! {

/// Constrained SYSCTL peripheral.
pub struct Sysctl {
    /// Power control methods will require `&mut this.power_control` to
    /// prevent them from running concurrently.
    pub power_control: PowerControl,
    /// Clock configuration will consume this and give you `Clocks`.
    pub clock_setup: ClockSetup,
}

/// Used to configure the clock generators.
pub struct ClockSetup {
    /// The system oscillator configuration
    pub oscillator: Oscillator,
}

/// Selects the system oscillator source
#[derive(Clone, Copy, Debug, PartialEq, Eq, Structural)]
pub enum Oscillator {
    /// Use the main oscillator (with the given crystal), into the PLL or a
    /// clock divider
    Main(CrystalFrequency, SystemClock),
    /// Use the 16 MHz precision internal oscillator, into the PLL or a clock
    /// divider
    PrecisionInternal(SystemClock),
    /// Use the 33 kHz internal oscillator, divided by the given value.
    LowFrequencyInternal(Divider),
}

/// Selects the source for the system clock
#[derive(Clone, Copy, Debug, PartialEq, Eq, Structural)]
pub enum SystemClock {
    /// Clock the system direct from the system oscillator
    UseOscillator(Divider),
    /// Clock the system from the PLL (which is driven by the system
    /// oscillator), divided down from 480MHz to the given frequency.
    UsePll(PllOutputFrequency),
}

/// Selects what to divide the PLL's 480MHz down to.
#[allow(non_camel_case_types)]
#[derive(Clone, Copy, Debug, PartialEq, Eq, Structural)]
pub enum PllOutputFrequency {
    /// 120 MHz
    _120mhz,
    /// 60 MHz
    _60mhz,
    /// 48 MHz
    _48mhz,
    /// 30 MHz
    _30mhz,
    /// 24 MHz
    _24mhz,
    /// 12 MHz
    _12mhz,
    /// 6 MHz
    _6mhz,
}

impl PllOutputFrequency {
    /// The frequency in Hz.
    pub open spec fn hertz(self) -> u32 {
        match self {
            PllOutputFrequency::_120mhz => 120_000_000,
            PllOutputFrequency::_60mhz => 60_000_000,
            PllOutputFrequency::_48mhz => 48_000_000,
            PllOutputFrequency::_30mhz => 30_000_000,
            PllOutputFrequency::_24mhz => 24_000_000,
            PllOutputFrequency::_12mhz => 12_000_000,
            PllOutputFrequency::_6mhz => 6_000_000,
        }
    }
}

impl From<PllOutputFrequency> for Hertz {
    fn from(freq: PllOutputFrequency) -> (hertz: Hertz) {
        Hertz(
            match freq {
                PllOutputFrequency::_120mhz => 120_000_000,
                PllOutputFrequency::_60mhz => 60_000_000,
                PllOutputFrequency::_48mhz => 48_000_000,
                PllOutputFrequency::_30mhz => 30_000_000,
                PllOutputFrequency::_24mhz => 24_000_000,
                PllOutputFrequency::_12mhz => 12_000_000,
                PllOutputFrequency::_6mhz => 6_000_000,
            },
        )
    }
}

impl FromSpecImpl<PllOutputFrequency> for Hertz {
    open spec fn obeys_from_spec() -> bool {
        true
    }

    open spec fn from_spec(freq: PllOutputFrequency) -> Hertz {
        Hertz(freq.hertz())
    }
}

/// Every PLL setting divides the 480 MHz of the PLL evenly, by no more
/// than 80.
pub proof fn lemma_pll_divides(freq: PllOutputFrequency)
    ensures
        480_000_000int % (freq.hertz() as int) == 0,
        4 <= 480_000_000int / (freq.hertz() as int) <= 80,
{
}

/// What the PLL can be fed from.
#[derive(Clone, Copy, Debug, PartialEq, Eq, Structural)]
pub enum PllSource {
    /// The precision internal oscillator
    Piosc,
    /// The main oscillator
    Mosc,
}

/// The timing of flash and EEPROM accesses. The same three values go to
/// the fields for either memory.
#[derive(Clone, Copy, Debug, PartialEq, Eq, Structural)]
pub struct MemTiming {
    /// The bank clock high time
    pub bcht: u8,
    /// Whether the bank clock edge is the rising one
    pub bce: bool,
    /// The number of wait states
    pub ws: u8,
}

/// One step of bringing a clock configuration about.
#[derive(Clone, Copy, Debug, PartialEq, Eq, Structural)]
pub enum ClockOp {
    /// Write the run and sleep clock configuration with the oscillator
    /// divider alone.
    DivideOscillator { osysdiv: u16 },
    /// Write the run and sleep clock configuration with the PLL source
    /// alone.
    SelectPllSource(PllSource),
    /// Write the first PLL frequency register.
    PllFrequency0 { power: bool, mfrac: u16, mint: u16 },
    /// Write the second PLL frequency register.
    PllFrequency1 { q: u8, n: u8 },
    /// Write the run and sleep clock configuration with the new frequency
    /// bit alone.
    NewFrequency,
    /// Write the memory timing register.
    WriteMemoryTiming(MemTiming),
    /// Change the timing fields of the memory timing register.
    ModifyMemoryTiming(MemTiming),
    /// Read the PLL status until it shows lock.
    AwaitPllLock,
    /// Write the run and sleep clock configuration: use the PLL with this
    /// divider field, and update the memory timing.
    UsePll { psysdiv: u16 },
    /// Write the main oscillator control: high range, crystal connected,
    /// powered.
    PowerMainOscillator,
    /// Read the raw interrupt status until the main oscillator has powered
    /// up.
    AwaitMainOscillator,
    /// Write the run and sleep clock configuration: the main oscillator by
    /// this divider field, and update the memory timing.
    UseMainOscillator { osysdiv: u16 },
    /// Set the power bit of the first PLL frequency register.
    PowerPll,
}

/// The memory timing for a system clock that comes from the PLL, from the
/// band the frequency falls in. The bands end at 16, 40, 60, 80, 100 and
/// 120 MHz, each end included.
pub open spec fn pll_timing(sysclk: u32) -> MemTiming
    recommends
        sysclk <= 120_000_000,
{
    if sysclk <= 16_000_000 {
        MemTiming { bcht: 0, bce: true, ws: 0 }
    } else if sysclk <= 40_000_000 {
        MemTiming { bcht: 2, bce: false, ws: 1 }
    } else if sysclk <= 60_000_000 {
        MemTiming { bcht: 3, bce: false, ws: 2 }
    } else if sysclk <= 80_000_000 {
        MemTiming { bcht: 4, bce: false, ws: 3 }
    } else if sysclk <= 100_000_000 {
        MemTiming { bcht: 5, bce: false, ws: 4 }
    } else {
        MemTiming { bcht: 6, bce: false, ws: 5 }
    }
}

/// The memory timing for a system clock that comes from the main
/// oscillator. Here the lower band ends just below 16 MHz.
pub open spec fn oscillator_timing(sysclk: u32) -> MemTiming
    recommends
        sysclk < 40_000_000,
{
    if sysclk < 16_000_000 {
        MemTiming { bcht: 0, bce: true, ws: 0 }
    } else {
        MemTiming { bcht: 2, bce: false, ws: 1 }
    }
}

/// The divider field that brings the 480 MHz of the PLL down to `sysclk`.
pub open spec fn pll_divider(sysclk: u32) -> u16
    recommends
        sysclk > 0,
{
    (480_000_000int / (sysclk as int) - 1) as u16
}

impl Oscillator {
    /// The frequency of the oscillator in Hz.
    pub open spec fn osc(self) -> nat {
        match self {
            Oscillator::Main(crystal, _) => crystal.hertz() as nat,
            Oscillator::PrecisionInternal(_) => 16_000_000,
            Oscillator::LowFrequencyInternal(_) => 33_000,
        }
    }

    /// Whether the clock tree can be built: the low frequency oscillator
    /// cannot be made the source.
    pub open spec fn supported(self) -> bool {
        !(self is LowFrequencyInternal)
    }

    /// The frequency of the system clock in Hz: the PLL setting, or else
    /// the oscillator divided down.
    pub open spec fn sysclk(self) -> nat
        recommends
            self.supported(),
    {
        match self {
            Oscillator::Main(_, SystemClock::UsePll(freq)) => freq.hertz() as nat,
            Oscillator::PrecisionInternal(SystemClock::UsePll(freq)) => freq.hertz() as nat,
            Oscillator::Main(crystal, SystemClock::UseOscillator(div)) => crystal.hertz() as nat
                / (div.ratio() as nat),
            Oscillator::PrecisionInternal(SystemClock::UseOscillator(div)) => 16_000_000nat
                / (div.ratio() as nat),
            Oscillator::LowFrequencyInternal(div) => 33_000nat / (div.ratio() as nat),
        }
    }

    /// Every register access that brings the configuration about.
    pub open spec fn program(self) -> Seq<ClockOp>
        recommends
            self.supported(),
    {
        match self {
            Oscillator::PrecisionInternal(SystemClock::UseOscillator(div)) => seq![
                ClockOp::DivideOscillator { osysdiv: (div.ratio() - 1) as u16 },
            ],
            Oscillator::PrecisionInternal(SystemClock::UsePll(freq)) => seq![
                ClockOp::SelectPllSource(PllSource::Piosc),
                ClockOp::PllFrequency0 { power: true, mfrac: 0, mint: 30 },
                ClockOp::PllFrequency1 { q: 0, n: 0 },
                ClockOp::NewFrequency,
                ClockOp::WriteMemoryTiming(pll_timing(freq.hertz())),
                ClockOp::AwaitPllLock,
                ClockOp::UsePll { psysdiv: pll_divider(freq.hertz()) },
            ],
            Oscillator::Main(crystal, SystemClock::UseOscillator(div)) => seq![
                ClockOp::PowerMainOscillator,
                ClockOp::ModifyMemoryTiming(
                    oscillator_timing((crystal.hertz() / div.ratio()) as u32),
                ),
                ClockOp::AwaitMainOscillator,
                ClockOp::UseMainOscillator { osysdiv: (div.ratio() - 1) as u16 },
            ],
            Oscillator::Main(_, SystemClock::UsePll(freq)) => seq![
                ClockOp::PowerMainOscillator,
                ClockOp::AwaitMainOscillator,
                ClockOp::SelectPllSource(PllSource::Mosc),
                ClockOp::PllFrequency1 { q: 0, n: 4 },
                ClockOp::PllFrequency0 { power: false, mfrac: 0, mint: 96 },
                ClockOp::PowerPll,
                ClockOp::AwaitPllLock,
                ClockOp::WriteMemoryTiming(pll_timing(freq.hertz())),
                ClockOp::UsePll { psysdiv: pll_divider(freq.hertz()) },
            ],
            Oscillator::LowFrequencyInternal(_) => Seq::empty(),
        }
    }
}

impl Sysctl {
    /// The system control peripheral as it comes out of reset: clocked
    /// by the precision internal oscillator, undivided.
    pub fn new() -> (sysctl: Sysctl)
        ensures
            sysctl.clock_setup.oscillator == Oscillator::PrecisionInternal(
                SystemClock::UseOscillator(Divider::_1),
            ),
    {
        Sysctl {
            power_control: PowerControl::new(),
            clock_setup: ClockSetup {
                oscillator: Oscillator::PrecisionInternal(SystemClock::UseOscillator(Divider::_1)),
            },
        }
    }
}

/// Picks the memory timing for a system clock that comes from the PLL.
fn memory_timing(sysclk: u32) -> (timing: MemTiming)
    requires
        sysclk <= 120_000_000,
    ensures
        timing == pll_timing(sysclk),
{
    let (bcht, bce, ws): (u8, bool, u8) = if sysclk <= 16_000_000 {
        (0, true, 0)
    } else if sysclk <= 40_000_000 {
        (2, false, 1)
    } else if sysclk <= 60_000_000 {
        (3, false, 2)
    } else if sysclk <= 80_000_000 {
        (4, false, 3)
    } else if sysclk <= 100_000_000 {
        (5, false, 4)
    } else {
        (6, false, 5)
    };
    MemTiming { bcht, bce, ws }
}

impl ClockSetup {
    /// The register accesses that put the configuration into effect, in
    /// the order in which they are to be made.
    pub fn program(&self) -> (ops: Vec<ClockOp>)
        requires
            self.oscillator.supported(),
        ensures
            ops@ == self.oscillator.program(),
    {
        let mut ops: Vec<ClockOp> = Vec::new();
        match self.oscillator {
            Oscillator::PrecisionInternal(SystemClock::UseOscillator(div)) => {
                ops.push(ClockOp::DivideOscillator { osysdiv: (div.value() - 1) as u16 });
            },
            Oscillator::PrecisionInternal(SystemClock::UsePll(output_frequency)) => {
                let sysclk = Hertz::from(output_frequency);
                proof {
                    lemma_pll_divides(output_frequency);
                }
                ops.push(ClockOp::SelectPllSource(PllSource::Piosc));
                ops.push(ClockOp::PllFrequency0 { power: true, mfrac: 0, mint: 30 });
                ops.push(ClockOp::PllFrequency1 { q: 0, n: 0 });
                ops.push(ClockOp::NewFrequency);
                ops.push(ClockOp::WriteMemoryTiming(memory_timing(sysclk.0)));
                ops.push(ClockOp::AwaitPllLock);
                ops.push(ClockOp::UsePll { psysdiv: (480_000_000 / sysclk.0 - 1) as u16 });
            },
            Oscillator::Main(crystal_frequency, SystemClock::UseOscillator(div)) => {
                let osc = Hertz::from(crystal_frequency);
                let sysclk: u32 = osc.0 / div.value();
                let (bcht, bce, ws): (u8, bool, u8) = if sysclk < 16_000_000 {
                    (0, true, 0)
                } else {
                    (2, false, 1)
                };
                ops.push(ClockOp::PowerMainOscillator);
                ops.push(ClockOp::ModifyMemoryTiming(MemTiming { bcht, bce, ws }));
                ops.push(ClockOp::AwaitMainOscillator);
                ops.push(ClockOp::UseMainOscillator { osysdiv: (div.value() - 1) as u16 });
            },
            Oscillator::Main(_, SystemClock::UsePll(output_frequency)) => {
                let sysclk = Hertz::from(output_frequency);
                proof {
                    lemma_pll_divides(output_frequency);
                }
                ops.push(ClockOp::PowerMainOscillator);
                ops.push(ClockOp::AwaitMainOscillator);
                ops.push(ClockOp::SelectPllSource(PllSource::Mosc));
                ops.push(ClockOp::PllFrequency1 { q: 0, n: 4 });
                ops.push(ClockOp::PllFrequency0 { power: false, mfrac: 0, mint: 96 });
                ops.push(ClockOp::PowerPll);
                ops.push(ClockOp::AwaitPllLock);
                ops.push(ClockOp::WriteMemoryTiming(memory_timing(sysclk.0)));
                ops.push(ClockOp::UsePll { psysdiv: (480_000_000 / sysclk.0 - 1) as u16 });
            },
            Oscillator::LowFrequencyInternal(_) => {},
        }
        assert(ops@ =~= self.oscillator.program());
        ops
    }

    /// Fix the clock configuration and produce a record of the configuration
    /// so that other modules can calibrate themselves (e.g. the UARTs).
    pub fn freeze(self) -> (clocks: Clocks)
        requires
            self.oscillator.supported(),
        ensures
            clocks.osc.0 == self.oscillator.osc(),
            clocks.sysclk.0 == self.oscillator.sysclk(),
            0 < clocks.sysclk.0 <= 120_000_000,
    {
        let osc: Hertz;
        let sysclk: Hertz;
        match self.oscillator {
            Oscillator::PrecisionInternal(SystemClock::UseOscillator(div)) => {
                proof {
                    lemma_divided_runs(16_000_000, div);
                }
                osc = Hertz(16_000_000);
                sysclk = Hertz(osc.0 / div.value());
            },
            Oscillator::PrecisionInternal(SystemClock::UsePll(output_frequency)) => {
                osc = Hertz(16_000_000);
                sysclk = Hertz::from(output_frequency);
            },
            Oscillator::Main(crystal_frequency, SystemClock::UseOscillator(div)) => {
                proof {
                    lemma_divided_runs(crystal_frequency.hertz() as nat, div);
                }
                osc = Hertz::from(crystal_frequency);
                sysclk = Hertz(osc.0 / div.value());
            },
            Oscillator::Main(crystal_frequency, SystemClock::UsePll(output_frequency)) => {
                osc = Hertz::from(crystal_frequency);
                sysclk = Hertz::from(output_frequency);
            },
            Oscillator::LowFrequencyInternal(_) => {
                osc = Hertz(33_000);
                sysclk = Hertz(33_000);
            },
        }
        Clocks { osc, sysclk }
    }
}

} // verus!

verus! {

/// List of peripherals that can be enabled or disabled
#[derive(Clone, Copy, Debug, PartialEq, Eq, Structural)]
pub enum Domain {
    /// Watchdog 1
    Watchdog1,
    /// Watchdog 0
    Watchdog0,
    /// 32/16-bit Timer 5
    Timer5,
    /// 32/16-bit Timer 4
    Timer4,
    /// 32/16-bit Timer 3
    Timer3,
    /// 32/16-bit Timer 2
    Timer2,
    /// 32/16-bit Timer 1
    Timer1,
    /// 32/16-bit Timer 0
    Timer0,
    /// Gpio Q
    GpioQ,
    /// Gpio P
    GpioP,
    /// Gpio N
    GpioN,
    /// Gpio M
    GpioM,
    /// Gpio L
    GpioL,
    /// Gpio K
    GpioK,
    /// Gpio J
    GpioJ,
    /// Gpio H
    GpioH,
    /// Gpio G
    GpioG,
    /// Gpio F
    GpioF,
    /// GPIO E
    GpioE,
    /// GPIO D
    GpioD,
    /// GPIO C
    GpioC,
    /// GPIO B
    GpioB,
    /// GPIO A
    GpioA,
    /// Micro DMA
    MicroDma,
    /// Hibernation
    Hibernation,
    /// UART 7
    Uart7,
    /// UART 6
    Uart6,
    /// UART 5
    Uart5,
    /// UART 4
    Uart4,
    /// UART 3
    Uart3,
    /// UART 2
    Uart2,
    /// UART 1
    Uart1,
    /// UART 0
    Uart0,
    /// SSI 3
    Ssi3,
    /// SSI 2
    Ssi2,
    /// SSI 1
    Ssi1,
    /// SSI 0
    Ssi0,
    /// I2C 3
    I2c3,
    /// I2C 2
    I2c2,
    /// I2C 1
    I2c1,
    /// I2C 0
    I2c0,
    /// USB
    Usb,
    /// CAN
    Can,
    /// ADC 1
    Adc1,
    /// ADC 0
    Adc0,
    /// Analog Comparator
    AnalogComparator,
    /// EEPROM
    Eeprom,
    /// PWM0
    Pwm0,
    /// PWM1
    Pwm1,
    /// EMAC0
    Emac0,
    /// EPHY0
    Ephy0,
}

impl Domain {
    /// The class of peripheral the domain belongs to.
    pub open spec fn group(self) -> Group {
        match self {
            Domain::Watchdog1 | Domain::Watchdog0 => Group::Watchdog,
            Domain::Timer5 | Domain::Timer4 | Domain::Timer3 | Domain::Timer2
            | Domain::Timer1 | Domain::Timer0 => Group::Timer,
            Domain::GpioQ | Domain::GpioP | Domain::GpioN | Domain::GpioM
            | Domain::GpioL | Domain::GpioK | Domain::GpioJ | Domain::GpioH
            | Domain::GpioG | Domain::GpioF | Domain::GpioE | Domain::GpioD
            | Domain::GpioC | Domain::GpioB | Domain::GpioA => Group::Gpio,
            Domain::MicroDma => Group::Dma,
            Domain::Hibernation => Group::Hibernation,
            Domain::Uart7 | Domain::Uart6 | Domain::Uart5 | Domain::Uart4
            | Domain::Uart3 | Domain::Uart2 | Domain::Uart1 | Domain::Uart0 => Group::Uart,
            Domain::Ssi3 | Domain::Ssi2 | Domain::Ssi1 | Domain::Ssi0 => Group::Ssi,
            Domain::I2c3 | Domain::I2c2 | Domain::I2c1 | Domain::I2c0 => Group::I2c,
            Domain::Usb => Group::Usb,
            Domain::Can => Group::Can,
            Domain::Adc1 | Domain::Adc0 => Group::Adc,
            Domain::AnalogComparator => Group::AnalogComparator,
            Domain::Eeprom => Group::Eeprom,
            Domain::Pwm0 | Domain::Pwm1 => Group::Pwm,
            Domain::Emac0 => Group::Emac,
            Domain::Ephy0 => Group::Ephy,
        }
    }

    /// The number of the instance within its class.
    pub open spec fn index(self) -> u8 {
        match self {
            Domain::Watchdog0 | Domain::Timer0 | Domain::GpioA | Domain::MicroDma
            | Domain::Hibernation | Domain::Uart0 | Domain::Ssi0 | Domain::I2c0
            | Domain::Usb | Domain::Can | Domain::Adc0 | Domain::AnalogComparator
            | Domain::Eeprom | Domain::Pwm0 | Domain::Emac0 | Domain::Ephy0 => 0,
            Domain::Watchdog1 | Domain::Timer1 | Domain::GpioB | Domain::Uart1
            | Domain::Ssi1 | Domain::I2c1 | Domain::Adc1 | Domain::Pwm1 => 1,
            Domain::Timer2 | Domain::GpioC | Domain::Uart2 | Domain::Ssi2 | Domain::I2c2 => 2,
            Domain::Timer3 | Domain::GpioD | Domain::Uart3 | Domain::Ssi3 | Domain::I2c3 => 3,
            Domain::Timer4 | Domain::GpioE | Domain::Uart4 => 4,
            Domain::Timer5 | Domain::GpioF | Domain::Uart5 => 5,
            Domain::GpioG | Domain::Uart6 => 6,
            Domain::GpioH | Domain::Uart7 => 7,
            Domain::GpioJ => 8,
            Domain::GpioK => 9,
            Domain::GpioL => 10,
            Domain::GpioM => 11,
            Domain::GpioN => 12,
            Domain::GpioP => 13,
            Domain::GpioQ => 14,
        }
    }

    /// The bit that stands for the domain in the registers of its class.
    pub open spec fn line(self) -> Line {
        Line { group: self.group(), bit: self.index() }
    }

    /// Looks up the bit that stands for the domain.
    pub fn target(self) -> (line: Line)
        ensures
            line == self.line(),
            line.bit < 15,
    {
        match self {
            Domain::Watchdog1 => Line { group: Group::Watchdog, bit: 1 },
            Domain::Watchdog0 => Line { group: Group::Watchdog, bit: 0 },
            Domain::Timer5 => Line { group: Group::Timer, bit: 5 },
            Domain::Timer4 => Line { group: Group::Timer, bit: 4 },
            Domain::Timer3 => Line { group: Group::Timer, bit: 3 },
            Domain::Timer2 => Line { group: Group::Timer, bit: 2 },
            Domain::Timer1 => Line { group: Group::Timer, bit: 1 },
            Domain::Timer0 => Line { group: Group::Timer, bit: 0 },
            Domain::GpioQ => Line { group: Group::Gpio, bit: 14 },
            Domain::GpioP => Line { group: Group::Gpio, bit: 13 },
            Domain::GpioN => Line { group: Group::Gpio, bit: 12 },
            Domain::GpioM => Line { group: Group::Gpio, bit: 11 },
            Domain::GpioL => Line { group: Group::Gpio, bit: 10 },
            Domain::GpioK => Line { group: Group::Gpio, bit: 9 },
            Domain::GpioJ => Line { group: Group::Gpio, bit: 8 },
            Domain::GpioH => Line { group: Group::Gpio, bit: 7 },
            Domain::GpioG => Line { group: Group::Gpio, bit: 6 },
            Domain::GpioF => Line { group: Group::Gpio, bit: 5 },
            Domain::GpioE => Line { group: Group::Gpio, bit: 4 },
            Domain::GpioD => Line { group: Group::Gpio, bit: 3 },
            Domain::GpioC => Line { group: Group::Gpio, bit: 2 },
            Domain::GpioB => Line { group: Group::Gpio, bit: 1 },
            Domain::GpioA => Line { group: Group::Gpio, bit: 0 },
            Domain::MicroDma => Line { group: Group::Dma, bit: 0 },
            Domain::Hibernation => Line { group: Group::Hibernation, bit: 0 },
            Domain::Uart7 => Line { group: Group::Uart, bit: 7 },
            Domain::Uart6 => Line { group: Group::Uart, bit: 6 },
            Domain::Uart5 => Line { group: Group::Uart, bit: 5 },
            Domain::Uart4 => Line { group: Group::Uart, bit: 4 },
            Domain::Uart3 => Line { group: Group::Uart, bit: 3 },
            Domain::Uart2 => Line { group: Group::Uart, bit: 2 },
            Domain::Uart1 => Line { group: Group::Uart, bit: 1 },
            Domain::Uart0 => Line { group: Group::Uart, bit: 0 },
            Domain::Ssi3 => Line { group: Group::Ssi, bit: 3 },
            Domain::Ssi2 => Line { group: Group::Ssi, bit: 2 },
            Domain::Ssi1 => Line { group: Group::Ssi, bit: 1 },
            Domain::Ssi0 => Line { group: Group::Ssi, bit: 0 },
            Domain::I2c3 => Line { group: Group::I2c, bit: 3 },
            Domain::I2c2 => Line { group: Group::I2c, bit: 2 },
            Domain::I2c1 => Line { group: Group::I2c, bit: 1 },
            Domain::I2c0 => Line { group: Group::I2c, bit: 0 },
            Domain::Usb => Line { group: Group::Usb, bit: 0 },
            Domain::Can => Line { group: Group::Can, bit: 0 },
            Domain::Adc1 => Line { group: Group::Adc, bit: 1 },
            Domain::Adc0 => Line { group: Group::Adc, bit: 0 },
            Domain::AnalogComparator => Line { group: Group::AnalogComparator, bit: 0 },
            Domain::Eeprom => Line { group: Group::Eeprom, bit: 0 },
            Domain::Pwm0 => Line { group: Group::Pwm, bit: 0 },
            Domain::Pwm1 => Line { group: Group::Pwm, bit: 1 },
            Domain::Emac0 => Line { group: Group::Emac, bit: 0 },
            Domain::Ephy0 => Line { group: Group::Ephy, bit: 0 },
        }
    }
}

/// No two domains share a bit: a reset or a clock gate meant for one
/// peripheral never reaches another.
pub proof fn lemma_lines_distinct(a: Domain, b: Domain)
    ensures
        a.line() == b.line() ==> a == b,
{
}

/// Reset a peripheral
///
/// Names the bit to pulse in the software reset register of the domain's
/// class: set it, clear it, and then wait until the same bit of the
/// peripheral ready register reads as set.
pub fn reset(_lock: &PowerControl, pd: Domain) -> (line: Line)
    ensures
        line == pd.line(),
{
    pd.target()
}

/// Activate or De-Activate clocks and power to the given peripheral in the
/// given run mode.
///
/// We take a reference to PowerControl as a permission check.
///
/// Names the clock gate to set. Once a clock has been enabled, three system
/// clocks must pass before any register of the module is accessed.
pub fn control_power(
    _lock: &PowerControl,
    pd: Domain,
    run_mode: RunMode,
    state: PowerState,
) -> (gate: Gate)
    ensures
        gate == (Gate { mode: run_mode, line: pd.line(), on: state == PowerState::On }),
{
    let on = match state {
        PowerState::On => true,
        PowerState::Off => false,
    };
    match run_mode {
        RunMode::Run => control_run_power(pd, on),
        RunMode::Sleep => control_sleep_power(pd, on),
        RunMode::DeepSleep => control_deep_sleep_power(pd, on),
    }
}

fn control_run_power(pd: Domain, on: bool) -> (gate: Gate)
    ensures
        gate == (Gate { mode: RunMode::Run, line: pd.line(), on }),
{
    Gate { mode: RunMode::Run, line: pd.target(), on }
}

fn control_sleep_power(pd: Domain, on: bool) -> (gate: Gate)
    ensures
        gate == (Gate { mode: RunMode::Sleep, line: pd.line(), on }),
{
    Gate { mode: RunMode::Sleep, line: pd.target(), on }
}

fn control_deep_sleep_power(pd: Domain, on: bool) -> (gate: Gate)
    ensures
        gate == (Gate { mode: RunMode::DeepSleep, line: pd.line(), on }),
{
    Gate { mode: RunMode::DeepSleep, line: pd.target(), on }
}

} // verus!
