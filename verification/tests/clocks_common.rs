//! Crystals and dividers.

use tm4c_core::sysctl::{CrystalFrequency, Divider};
use tm4c_core::time::Hertz;

const CRYSTALS: [(CrystalFrequency, u32); 21] = [
    (CrystalFrequency::_4mhz, 4_000_000),
    (CrystalFrequency::_4_09mhz, 4_090_000),
    (CrystalFrequency::_4_91mhz, 4_910_000),
    (CrystalFrequency::_5mhz, 5_000_000),
    (CrystalFrequency::_5_12mhz, 5_120_000),
    (CrystalFrequency::_6mhz, 6_000_000),
    (CrystalFrequency::_6_14mhz, 6_140_000),
    (CrystalFrequency::_7_37mhz, 7_370_000),
    (CrystalFrequency::_8mhz, 8_000_000),
    (CrystalFrequency::_8_19mhz, 8_190_000),
    (CrystalFrequency::_10mhz, 10_000_000),
    (CrystalFrequency::_12mhz, 12_000_000),
    (CrystalFrequency::_12_2mhz, 12_200_000),
    (CrystalFrequency::_13_5mhz, 13_500_000),
    (CrystalFrequency::_14_3mhz, 14_300_000),
    (CrystalFrequency::_16mhz, 16_000_000),
    (CrystalFrequency::_16_3mhz, 16_300_000),
    (CrystalFrequency::_18mhz, 18_000_000),
    (CrystalFrequency::_20mhz, 20_000_000),
    (CrystalFrequency::_24mhz, 24_000_000),
    (CrystalFrequency::_25mhz, 25_000_000),
];

const DIVIDERS: [Divider; 16] = [
    Divider::_1,
    Divider::_2,
    Divider::_3,
    Divider::_4,
    Divider::_5,
    Divider::_6,
    Divider::_7,
    Divider::_8,
    Divider::_9,
    Divider::_10,
    Divider::_11,
    Divider::_12,
    Divider::_13,
    Divider::_14,
    Divider::_15,
    Divider::_16,
];

#[test]
fn crystal_frequencies_in_hertz() {
    for (crystal, hertz) in CRYSTALS {
        assert_eq!(Hertz::from(crystal), Hertz(hertz));
        let converted: Hertz = crystal.into();
        assert_eq!(converted.0, hertz);
    }
}

#[test]
fn divider_values() {
    for (i, divider) in DIVIDERS.iter().enumerate() {
        assert_eq!(divider.value(), i as u32 + 1);
    }
}
