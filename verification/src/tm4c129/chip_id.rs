//! This module is all about identifying the physical chip we're running on.

use vstd::prelude::*;
use crate::chip_id::{identified, identify, ChipId, Did0, Did1, Error, PartNo};

verus! {

/// The part a part number field of this family stands for.
pub open spec fn part(code: u8) -> PartNo {
    if code == 0x1F {
        PartNo::Tm4c1294ncpdt
    } else if code == 45 {
        PartNo::Tm4c129encpdt
    } else {
        PartNo::Unknown(code)
    }
}

/// Read DID0 and DID1 to discover what sort of
/// TM4C129 this is.
pub fn get(did0: Did0, did1: Did1) -> (id: Result<ChipId, Error>)
    ensures
        id == identified(did0, did1, part(did1.part_no)),
        id is Ok <==> did0.ver == 1 && did1.ver == 1,
        id == Err::<ChipId, Error>(Error::UnknownDid0Ver(did0.ver)) <==> did0.ver != 1,
        id == Err::<ChipId, Error>(Error::UnknownDid1Ver(did1.ver)) <==> did0.ver == 1 && did1.ver
            != 1,
{
    let part_no = match did1.part_no {
        0x1F => PartNo::Tm4c1294ncpdt,
        45 => PartNo::Tm4c129encpdt,
        e => PartNo::Unknown(e),
    };
    identify(did0, did1, part_no)
}

} // verus!
