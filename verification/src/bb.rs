//! Code to handle bit-banding.
//!
//! Bit-banding is where the processor maps every bit of the first megabyte
//! of a memory region to a 32-bit word of its own in an alias region, so
//! that a single bit can be written without reading the word it lives in.

use vstd::prelude::*;

verus! {

/// The size of a memory region: the top four address bits name the region.
pub const REGION: u32 = 0x1000_0000;

/// How much of each region is aliased, from its start.
pub const BANDED: u32 = 0x0010_0000;

/// The offset of the alias area within its region.
pub const ALIAS: u32 = 0x0200_0000;

/// The address of the word that stands for bit `bit` of the word at
/// `address`: within the alias area of the same region, every byte of the
/// banded area takes 32 bytes, and every bit four.
pub open spec fn alias_of(address: u32, bit: u8) -> int {
    (address as int / (REGION as int)) * (REGION as int) + (ALIAS as int) + (address as int % (
    REGION as int)) * 32 + (bit as int) * 4
}

/// Whether `address` is that of a word in the banded area of its region.
pub open spec fn banded(address: u32) -> bool {
    address % 4 == 0 && (address as int) % (REGION as int) < (BANDED as int)
}

/// Computes the address of the alias word for one bit of a word in a
/// banded area.
pub fn alias(address: u32, bit: u8) -> (word: u32)
    requires
        banded(address),
        bit < 32,
    ensures
        word == alias_of(address, bit),
        word % 4 == 0,
        word / REGION == address / REGION,
        ALIAS <= word % REGION < 2 * ALIAS,
{
    let prefix: u32 = address / REGION * REGION;
    let byte_offset: u32 = address % REGION;
    let bit_word_offset: u32 = byte_offset * 32 + (bit as u32) * 4;
    bit_word_offset + prefix + ALIAS
}

/// Finds the alias word for one bit of a word, where there is one.
pub fn try_alias(address: u32, bit: u8) -> (word: Option<u32>)
    ensures
        word is Some <==> banded(address) && bit < 32,
        word is Some ==> word->Some_0 == alias_of(address, bit),
{
    if address % 4 == 0 && address % REGION < BANDED && bit < 32 {
        Some(alias(address, bit))
    } else {
        None
    }
}

} // verus!
