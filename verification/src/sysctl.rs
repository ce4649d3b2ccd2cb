//! # System Control
//!
//! The SYSCTL peripheral controls clocks and power. This is what the clock
//! and power logic of every chip of the family shares: the frequencies a
//! frozen clock tree ends up with, the crystals and dividers it can be
//! built from, and the way a peripheral's clock gate and reset line are
//! named.

use vstd::prelude::*;
use vstd::std_specs::convert::FromSpecImpl;
use crate::time::Hertz;

verus! {

/// Frozen clock frequencies
///
/// The existence of this value indicates that the clock configuration can
/// no longer be changed.
#[derive(Clone, Copy, Debug, PartialEq, Eq, Structural)]
pub struct Clocks {
    /// System oscillator clock speed
    pub osc: Hertz,
    /// System clock speed
    pub sysclk: Hertz,
}

/// Used to gate access to the run-time power control features of the chip.
pub struct PowerControl {
    _0: (),
}

impl PowerControl {
    pub(crate) fn new() -> PowerControl {
        PowerControl { _0: () }
    }
}

/// Determines in which mode the power of a peripheral is switched.
#[derive(Clone, Copy, Debug, PartialEq, Eq, Structural)]
pub enum RunMode {
    /// Run mode
    Run,
    /// Sleep mode (the core is asleep, peripherals may run)
    Sleep,
    /// Deep-sleep mode
    DeepSleep,
}

/// Whether a peripheral is to be clocked.
#[derive(Clone, Copy, Debug, PartialEq, Eq, Structural)]
pub enum PowerState {
    /// Turn the peripheral clocks off
    Off,
    /// Turn the peripheral clocks on
    On,
}

/// The classes of peripheral. Each class has one register per power and
/// reset function, with one bit for each of its instances.
#[derive(Clone, Copy, Debug, PartialEq, Eq, Structural)]
pub enum Group {
    /// Watchdog timers
    Watchdog,
    /// 16/32-bit general-purpose timers
    Timer,
    /// GPIO ports
    Gpio,
    /// Micro direct memory access
    Dma,
    /// Hibernation module
    Hibernation,
    /// UARTs
    Uart,
    /// Synchronous serial interfaces
    Ssi,
    /// I2C modules
    I2c,
    /// USB
    Usb,
    /// CAN controllers
    Can,
    /// Analog-to-digital converters
    Adc,
    /// Analog comparators
    AnalogComparator,
    /// EEPROM
    Eeprom,
    /// 32/64-bit wide general-purpose timers
    WideTimer,
    /// Pulse width modulators
    Pwm,
    /// Ethernet MAC
    Emac,
    /// Ethernet PHY
    Ephy,
}

/// One peripheral instance as the system control registers see it: a bit
/// position in the registers of its class.
#[derive(Clone, Copy, Debug, PartialEq, Eq, Structural)]
pub struct Line {
    /// The class, which picks the register.
    pub group: Group,
    /// The instance, which picks the bit.
    pub bit: u8,
}

/// A clock gate to set: the bit of `line` in the clock gating register of
/// `mode` goes to `on`.
#[derive(Clone, Copy, Debug, PartialEq, Eq, Structural)]
pub struct Gate {
    /// Which of the three gating registers of the class.
    pub mode: RunMode,
    /// Which bit of it.
    pub line: Line,
    /// The value to give the bit.
    pub on: bool,
}

/// Selects which crystal is fitted to the XOSC pins.
#[allow(non_camel_case_types)]
#[derive(Clone, Copy, Debug, PartialEq, Eq, Structural)]
pub enum CrystalFrequency {
    /// 4 MHz
    _4mhz,
    /// 4.096 MHz
    _4_09mhz,
    /// 4.9152 MHz
    _4_91mhz,
    /// 5 MHz
    _5mhz,
    /// 5.12 MHz
    _5_12mhz,
    /// 6 MHz
    _6mhz,
    /// 6.144 MHz
    _6_14mhz,
    /// 7.3728 MHz
    _7_37mhz,
    /// 8 MHz
    _8mhz,
    /// 8.192 MHz
    _8_19mhz,
    /// 10 MHz
    _10mhz,
    /// 12 MHz
    _12mhz,
    /// 12.288 MHz
    _12_2mhz,
    /// 13.56 MHz
    _13_5mhz,
    /// 14.31818 MHz
    _14_3mhz,
    /// 16 MHz
    _16mhz,
    /// 16.384 MHz
    _16_3mhz,
    /// 18.0 MHz (USB)
    _18mhz,
    /// 20.0 MHz (USB)
    _20mhz,
    /// 24.0 MHz (USB)
    _24mhz,
    /// 25.0 MHz (USB)
    _25mhz,
}

impl CrystalFrequency {
    /// The frequency in Hz that the clock tree is computed with. Crystals
    /// off the 10 kHz grid count with their first three digits.
    pub open spec fn hertz(self) -> u32 {
        match self {
            CrystalFrequency::_4mhz => 4_000_000,
            CrystalFrequency::_4_09mhz => 4_090_000,
            CrystalFrequency::_4_91mhz => 4_910_000,
            CrystalFrequency::_5mhz => 5_000_000,
            CrystalFrequency::_5_12mhz => 5_120_000,
            CrystalFrequency::_6mhz => 6_000_000,
            CrystalFrequency::_6_14mhz => 6_140_000,
            CrystalFrequency::_7_37mhz => 7_370_000,
            CrystalFrequency::_8mhz => 8_000_000,
            CrystalFrequency::_8_19mhz => 8_190_000,
            CrystalFrequency::_10mhz => 10_000_000,
            CrystalFrequency::_12mhz => 12_000_000,
            CrystalFrequency::_12_2mhz => 12_200_000,
            CrystalFrequency::_13_5mhz => 13_500_000,
            CrystalFrequency::_14_3mhz => 14_300_000,
            CrystalFrequency::_16mhz => 16_000_000,
            CrystalFrequency::_16_3mhz => 16_300_000,
            CrystalFrequency::_18mhz => 18_000_000,
            CrystalFrequency::_20mhz => 20_000_000,
            CrystalFrequency::_24mhz => 24_000_000,
            CrystalFrequency::_25mhz => 25_000_000,
        }
    }
}

impl From<CrystalFrequency> for Hertz {
    fn from(freq: CrystalFrequency) -> (hertz: Hertz) {
        Hertz(
            match freq {
                CrystalFrequency::_4mhz => 4_000_000,
                CrystalFrequency::_4_09mhz => 4_090_000,
                CrystalFrequency::_4_91mhz => 4_910_000,
                CrystalFrequency::_5mhz => 5_000_000,
                CrystalFrequency::_5_12mhz => 5_120_000,
                CrystalFrequency::_6mhz => 6_000_000,
                CrystalFrequency::_6_14mhz => 6_140_000,
                CrystalFrequency::_7_37mhz => 7_370_000,
                CrystalFrequency::_8mhz => 8_000_000,
                CrystalFrequency::_8_19mhz => 8_190_000,
                CrystalFrequency::_10mhz => 10_000_000,
                CrystalFrequency::_12mhz => 12_000_000,
                CrystalFrequency::_12_2mhz => 12_200_000,
                CrystalFrequency::_13_5mhz => 13_500_000,
                CrystalFrequency::_14_3mhz => 14_300_000,
                CrystalFrequency::_16mhz => 16_000_000,
                CrystalFrequency::_16_3mhz => 16_300_000,
                CrystalFrequency::_18mhz => 18_000_000,
                CrystalFrequency::_20mhz => 20_000_000,
                CrystalFrequency::_24mhz => 24_000_000,
                CrystalFrequency::_25mhz => 25_000_000,
            },
        )
    }
}

impl FromSpecImpl<CrystalFrequency> for Hertz {
    open spec fn obeys_from_spec() -> bool {
        true
    }

    open spec fn from_spec(freq: CrystalFrequency) -> Hertz {
        Hertz(freq.hertz())
    }
}

/// Every crystal lies between 4 MHz and 25 MHz.
pub proof fn lemma_crystal_range(freq: CrystalFrequency)
    ensures
        4_000_000 <= freq.hertz() <= 25_000_000,
{
}

/// Selects how much to divide the system oscillator down.
#[allow(non_camel_case_types)]
#[derive(Clone, Copy, Debug, PartialEq, Eq, Structural)]
pub enum Divider {
    /// Divide by 1
    _1,
    /// Divide by 2
    _2,
    /// Divide by 3
    _3,
    /// Divide by 4
    _4,
    /// Divide by 5
    _5,
    /// Divide by 6
    _6,
    /// Divide by 7
    _7,
    /// Divide by 8
    _8,
    /// Divide by 9
    _9,
    /// Divide by 10
    _10,
    /// Divide by 11
    _11,
    /// Divide by 12
    _12,
    /// Divide by 13
    _13,
    /// Divide by 14
    _14,
    /// Divide by 15
    _15,
    /// Divide by 16
    _16,
}

impl Divider {
    /// The number divided by.
    pub open spec fn ratio(self) -> u32 {
        match self {
            Divider::_1 => 1,
            Divider::_2 => 2,
            Divider::_3 => 3,
            Divider::_4 => 4,
            Divider::_5 => 5,
            Divider::_6 => 6,
            Divider::_7 => 7,
            Divider::_8 => 8,
            Divider::_9 => 9,
            Divider::_10 => 10,
            Divider::_11 => 11,
            Divider::_12 => 12,
            Divider::_13 => 13,
            Divider::_14 => 14,
            Divider::_15 => 15,
            Divider::_16 => 16,
        }
    }

    /// The number divided by, from 1 to 16.
    pub fn value(self) -> (ratio: u32)
        ensures
            ratio == self.ratio(),
            1 <= ratio <= 16,
    {
        match self {
            Divider::_1 => 1,
            Divider::_2 => 2,
            Divider::_3 => 3,
            Divider::_4 => 4,
            Divider::_5 => 5,
            Divider::_6 => 6,
            Divider::_7 => 7,
            Divider::_8 => 8,
            Divider::_9 => 9,
            Divider::_10 => 10,
            Divider::_11 => 11,
            Divider::_12 => 12,
            Divider::_13 => 13,
            Divider::_14 => 14,
            Divider::_15 => 15,
            Divider::_16 => 16,
        }
    }
}

/// An oscillator divided by a divider still runs, and no faster than the
/// oscillator.
pub proof fn lemma_divided_runs(osc: nat, div: Divider)
    requires
        osc >= 16,
    ensures
        0 < osc / (div.ratio() as nat) <= osc,
{
    let d = div.ratio() as nat;
    assert(0 < osc / d <= osc) by (nonlinear_arith)
        requires
            1 <= d <= 16,
            osc >= 16,
    ;
}

} // verus!
