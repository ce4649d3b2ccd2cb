//! This module is all about identifying the physical chip we're running on.

use vstd::prelude::*;
use crate::chip_id::{identified, identify, ChipId, Did0, Did1, Error, PartNo};

verus! {

/// The part a part number field of this family stands for.
pub open spec fn part(code: u8) -> PartNo {
    if code == 0x04 {
        PartNo::Lm4f120h5qr
    } else if code == 0xA1 {
        PartNo::Tm4c123gh6pm
    } else {
        PartNo::Unknown(code)
    }
}

/// Read DID0 and DID1 to discover what sort of
/// TM4C123/LM4F120 this is.
pub fn get(did0: Did0, did1: Did1) -> (id: Result<ChipId, Error>)
    ensures
        id == identified(did0, did1, part(did1.part_no)),
        id is Ok <==> did0.ver == 1 && did1.ver == 1,
        id == Err::<ChipId, Error>(Error::UnknownDid0Ver(did0.ver)) <==> did0.ver != 1,
        id == Err::<ChipId, Error>(Error::UnknownDid1Ver(did1.ver)) <==> did0.ver == 1 && did1.ver
            != 1,
{
    let part_no = match did1.part_no {
        0x04 => PartNo::Lm4f120h5qr,
        0xA1 => PartNo::Tm4c123gh6pm,
        e => PartNo::Unknown(e),
    };
    identify(did0, did1, part_no)
}

} // verus!
