//! Identifying the physical chip from its two device identification
//! registers.

use vstd::prelude::*;

verus! {

/// Possible errors we can get back when parsing the device identification
/// registers.
#[derive(Clone, Copy, Debug, PartialEq, Eq, Structural)]
pub enum Error {
    /// Unknown value in DID0
    UnknownDid0Ver(u8),
    /// Unknown value in DID1
    UnknownDid1Ver(u8),
}

/// What sort of device is this?
#[derive(Clone, Copy, Debug, PartialEq, Eq, Structural)]
pub enum DeviceClass {
    /// It's a Stellaris LM4F or a TM4C123 (they have the same value)
    StellarisBlizzard,
    /// It's a "Tiva Snowflake" aka TM4C129
    Snowflake,
    /// I don't know what chip this is
    Unknown,
}

/// How many pins on this chip's package?
#[allow(non_camel_case_types)]
#[derive(Clone, Copy, Debug, PartialEq, Eq, Structural)]
pub enum PinCount {
    /// It's a 28 pin package
    _28,
    /// It's a 48 pin package
    _48,
    /// It's a 100 pin package
    _100,
    /// It's a 64 pin package
    _64,
    /// It's a 144 pin package
    _144,
    /// It's a 157 pin package
    _157,
    /// It's a 168 pin package
    _168,
    /// I don't know what chip this is
    Unknown,
}

/// What temperature range does this chip support?
#[derive(Clone, Copy, Debug, PartialEq, Eq, Structural)]
pub enum TempRange {
    /// It's Commercial temperature range (0 C - +70 C)
    Commercial,
    /// It's Industrial temperature range (-40 C - +85 C)
    Industrial,
    /// It's Extended temperature range (-40 C - +105 C)
    Extended,
    /// It's either Extended or Industrial depending on the exact part
    /// number
    IndustrialOrExtended,
    /// I don't know what temperature range this is
    Unknown,
}

/// What package is this chip in?
#[derive(Clone, Copy, Debug, PartialEq, Eq, Structural)]
pub enum Package {
    /// It's a SOIC package
    Soic,
    /// It's a LQFP package
    Lqfp,
    /// It's a BGA package
    Bga,
    /// I don't know what package this is
    Unknown,
}

/// Is this an experimental chip or a production part?
#[derive(Clone, Copy, Debug, PartialEq, Eq, Structural)]
pub enum Qualification {
    /// It's an Engineering Sample chip
    EngineeringSample,
    /// It's a Pilot Production chip
    PilotProduction,
    /// It's a Fully Qualified chip
    FullyQualified,
    /// I don't know what qualification this is
    Unknown,
}

/// These values come from the part number field of DID1.
#[derive(Clone, Copy, Debug, PartialEq, Eq, Structural)]
pub enum PartNo {
    /// TM4C123GH6PM
    Tm4c123gh6pm,
    /// LM4F120H5QR
    Lm4f120h5qr,
    /// TM4C1294NCPDT
    Tm4c1294ncpdt,
    /// TM4C129ENCPDT
    Tm4c129encpdt,
    /// An unknown chip - please file a bug
    Unknown(u8),
}

/// Contains the attributes of the chip we're running on.
#[derive(Clone, Copy, Debug, PartialEq, Eq, Structural)]
pub struct ChipId {
    /// The device class
    pub device_class: DeviceClass,
    /// The major revision
    pub major: u8,
    /// The minor revision
    pub minor: u8,
    /// The chip's pin count
    pub pin_count: PinCount,
    /// The chip's temperature range
    pub temp_range: TempRange,
    /// The chip's package
    pub package: Package,
    /// True if the chip is RoHS compliant
    pub rohs_compliant: bool,
    /// The chip's qualification
    pub qualification: Qualification,
    /// The chip's part number
    pub part_no: PartNo,
}

/// The fields of the first device identification register.
#[derive(Clone, Copy, Debug, PartialEq, Eq, Structural)]
pub struct Did0 {
    /// The format of the register
    pub ver: u8,
    /// The device class
    pub class: u8,
    /// The major revision
    pub major: u8,
    /// The minor revision
    pub minor: u8,
}

/// The fields of the second device identification register.
#[derive(Clone, Copy, Debug, PartialEq, Eq, Structural)]
pub struct Did1 {
    /// The format of the register
    pub ver: u8,
    /// The part number
    pub part_no: u8,
    /// The package pin count
    pub pin_count: u8,
    /// The temperature range
    pub temp: u8,
    /// The package type
    pub package: u8,
    /// RoHS compliance
    pub rohs: bool,
    /// The qualification status
    pub qual: u8,
}

impl DeviceClass {
    /// The class a class field stands for.
    pub open spec fn of(code: u8) -> DeviceClass {
        if code == 0x05 {
            DeviceClass::StellarisBlizzard
        } else if code == 0x0a {
            DeviceClass::Snowflake
        } else {
            DeviceClass::Unknown
        }
    }

    /// Reads a class field.
    pub fn decode(code: u8) -> (class: DeviceClass)
        ensures
            class == DeviceClass::of(code),
    {
        match code {
            0x05 => DeviceClass::StellarisBlizzard,
            0x0a => DeviceClass::Snowflake,
            _ => DeviceClass::Unknown,
        }
    }
}

impl PinCount {
    /// The pin count a pin count field stands for.
    pub open spec fn of(code: u8) -> PinCount {
        if code == 0 {
            PinCount::_28
        } else if code == 1 {
            PinCount::_48
        } else if code == 2 {
            PinCount::_100
        } else if code == 3 {
            PinCount::_64
        } else if code == 4 {
            PinCount::_144
        } else if code == 5 {
            PinCount::_157
        } else if code == 6 {
            PinCount::_168
        } else {
            PinCount::Unknown
        }
    }

    /// Reads a pin count field.
    pub fn decode(code: u8) -> (pins: PinCount)
        ensures
            pins == PinCount::of(code),
    {
        match code {
            0 => PinCount::_28,
            1 => PinCount::_48,
            2 => PinCount::_100,
            3 => PinCount::_64,
            4 => PinCount::_144,
            5 => PinCount::_157,
            6 => PinCount::_168,
            _ => PinCount::Unknown,
        }
    }
}

impl TempRange {
    /// The temperature range a temperature field stands for.
    pub open spec fn of(code: u8) -> TempRange {
        if code == 0 {
            TempRange::Commercial
        } else if code == 1 {
            TempRange::Industrial
        } else if code == 2 {
            TempRange::Extended
        } else if code == 3 {
            TempRange::IndustrialOrExtended
        } else {
            TempRange::Unknown
        }
    }

    /// Reads a temperature field.
    pub fn decode(code: u8) -> (range: TempRange)
        ensures
            range == TempRange::of(code),
    {
        match code {
            0 => TempRange::Commercial,
            1 => TempRange::Industrial,
            2 => TempRange::Extended,
            3 => TempRange::IndustrialOrExtended,
            _ => TempRange::Unknown,
        }
    }
}

impl Package {
    /// The package a package field stands for.
    pub open spec fn of(code: u8) -> Package {
        if code == 0 {
            Package::Soic
        } else if code == 1 {
            Package::Lqfp
        } else if code == 2 {
            Package::Bga
        } else {
            Package::Unknown
        }
    }

    /// Reads a package field.
    pub fn decode(code: u8) -> (package: Package)
        ensures
            package == Package::of(code),
    {
        match code {
            0 => Package::Soic,
            1 => Package::Lqfp,
            2 => Package::Bga,
            _ => Package::Unknown,
        }
    }
}

impl Qualification {
    /// The qualification a qualification field stands for.
    pub open spec fn of(code: u8) -> Qualification {
        if code == 0 {
            Qualification::EngineeringSample
        } else if code == 1 {
            Qualification::PilotProduction
        } else if code == 2 {
            Qualification::FullyQualified
        } else {
            Qualification::Unknown
        }
    }

    /// Reads a qualification field.
    pub fn decode(code: u8) -> (qualification: Qualification)
        ensures
            qualification == Qualification::of(code),
    {
        match code {
            0 => Qualification::EngineeringSample,
            1 => Qualification::PilotProduction,
            2 => Qualification::FullyQualified,
            _ => Qualification::Unknown,
        }
    }
}

/// What the two registers say of the chip, given the part its part number
/// field names. Both registers must be in the format numbered 1; the first
/// is looked at first.
pub open spec fn identified(did0: Did0, did1: Did1, part_no: PartNo) -> Result<ChipId, Error> {
    if did0.ver != 1 {
        Err(Error::UnknownDid0Ver(did0.ver))
    } else if did1.ver != 1 {
        Err(Error::UnknownDid1Ver(did1.ver))
    } else {
        Ok(
            ChipId {
                device_class: DeviceClass::of(did0.class),
                major: did0.major,
                minor: did0.minor,
                pin_count: PinCount::of(did1.pin_count),
                temp_range: TempRange::of(did1.temp),
                package: Package::of(did1.package),
                rohs_compliant: did1.rohs,
                qualification: Qualification::of(did1.qual),
                part_no,
            },
        )
    }
}

/// Judges the format of the first register on its own, so that the second
/// need not be read where the first is already refused.
pub fn did0_known(did0: Did0) -> (known: Result<(), Error>)
    ensures
        known == if did0.ver != 1 {
            Err::<(), Error>(Error::UnknownDid0Ver(did0.ver))
        } else {
            Ok::<(), Error>(())
        },
        known is Ok <==> did0.ver == 1,
{
    if did0.ver != 0x01 {
        Err(Error::UnknownDid0Ver(did0.ver))
    } else {
        Ok(())
    }
}

/// Reads everything but the part number out of the two registers.
pub fn identify(did0: Did0, did1: Did1, part_no: PartNo) -> (id: Result<ChipId, Error>)
    ensures
        id == identified(did0, did1, part_no),
        id is Ok <==> did0.ver == 1 && did1.ver == 1,
        id == Err::<ChipId, Error>(Error::UnknownDid0Ver(did0.ver)) <==> did0.ver != 1,
        id == Err::<ChipId, Error>(Error::UnknownDid1Ver(did1.ver)) <==> did0.ver == 1 && did1.ver
            != 1,
{
    if let Err(unknown) = did0_known(did0) {
        return Err(unknown);
    }
    let device_class = DeviceClass::decode(did0.class);
    let major = did0.major;
    let minor = did0.minor;
    if did1.ver != 0x01 {
        // Stellaris LM3F (0x00) is not supported
        return Err(Error::UnknownDid1Ver(did1.ver));
    }
    let pin_count = PinCount::decode(did1.pin_count);
    let temp_range = TempRange::decode(did1.temp);
    let package = Package::decode(did1.package);
    let rohs_compliant = did1.rohs;
    let qualification = Qualification::decode(did1.qual);
    Ok(
        ChipId {
            device_class,
            major,
            minor,
            pin_count,
            temp_range,
            package,
            rohs_compliant,
            qualification,
            part_no,
        },
    )
}

} // verus!
