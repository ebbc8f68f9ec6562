//! Chip selection: four select lines route the shared bus to one of sixteen
//! chip addresses, of which the six output chips and the six input chips
//! use twelve.

use vstd::prelude::*;
use crate::io::types::{IoBank, IoType};

verus! {

/// Number of select lines.
pub const SELECT_LINES: u8 = 4;

/// The chip address of a bank's chip: output chips count down from 13 for
/// bank 1 to 8 for bank 6, input chips from 5 for bank 1 to 0 for bank 6.
pub open spec fn spec_chip_address(direction: IoType, bank: IoBank) -> u8 {
    match direction {
        IoType::DigitalOut => (14 - bank.ordinal()) as u8,
        IoType::DigitalIn => (6 - bank.ordinal()) as u8,
    }
}

/// The chip address of a bank's chip.
#[verifier::when_used_as_spec(spec_chip_address)]
pub fn chip_address(direction: IoType, bank: IoBank) -> (chip: u8)
    ensures
        chip == spec_chip_address(direction, bank),
        chip < 16,
{
    match direction {
        IoType::DigitalIn => match bank {
            IoBank::Bank1 => 5,
            IoBank::Bank2 => 4,
            IoBank::Bank3 => 3,
            IoBank::Bank4 => 2,
            IoBank::Bank5 => 1,
            IoBank::Bank6 => 0,
        },
        IoType::DigitalOut => match bank {
            IoBank::Bank1 => 13,
            IoBank::Bank2 => 12,
            IoBank::Bank3 => 11,
            IoBank::Bank4 => 10,
            IoBank::Bank5 => 9,
            IoBank::Bank6 => 8,
        },
    }
}

/// Whether select line `line` is high when chip `chip` is addressed: the
/// line carries bit `line` of the address.
pub open spec fn spec_select_level(chip: u8, line: u8) -> bool {
    (chip >> line) & 1 == 1
}

/// Whether select line `line` is high when chip `chip` is addressed.
#[verifier::when_used_as_spec(spec_select_level)]
pub fn select_level(chip: u8, line: u8) -> (high: bool)
    requires
        line < 8,
    ensures
        high == spec_select_level(chip, line),
{
    assert((chip & (1u8 << line) != 0) == ((chip >> line) & 1 == 1)) by (bit_vector)
        requires
            line < 8,
    ;
    chip & (1u8 << line) != 0
}

/// Output chips lie at addresses 8 to 13 and input chips at 0 to 5, so that
/// the highest select line tells the direction, and no two chips share an
/// address.
pub proof fn lemma_chip_address_distinct(d1: IoType, b1: IoBank, d2: IoType, b2: IoBank)
    ensures
        d1 == IoType::DigitalOut ==> 8 <= chip_address(d1, b1) <= 13,
        d1 == IoType::DigitalIn ==> chip_address(d1, b1) <= 5,
        chip_address(d1, b1) == chip_address(d2, b2) ==> d1 == d2 && b1 == b2,
{
}

/// The four select lines together spell the chip address.
pub proof fn lemma_select_levels_spell_address(chip: u8)
    requires
        chip < 16,
    ensures
        chip == (if select_level(chip, 0) { 1int } else { 0 })
            + (if select_level(chip, 1) { 2int } else { 0 })
            + (if select_level(chip, 2) { 4int } else { 0 })
            + (if select_level(chip, 3) { 8int } else { 0 }),
{
    assert(chip < 16 ==> chip == (if (chip >> 0u8) & 1 == 1 { 1u8 } else { 0 })
        + (if (chip >> 1u8) & 1 == 1 { 2u8 } else { 0 })
        + (if (chip >> 2u8) & 1 == 1 { 4u8 } else { 0 })
        + (if (chip >> 3u8) & 1 == 1 { 8u8 } else { 0 })) by (bit_vector);
}

} // verus!
