//! Time units

use vstd::prelude::*;

verus! {

/// Hertz
#[derive(Clone, Copy, Debug, PartialEq, Eq, Structural)]
pub struct Hertz(pub u32);

} // verus!
