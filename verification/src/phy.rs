//! Registers of the Ethernet transceiver, as far as the card reads them.

use vstd::prelude::*;

verus! {

/// Address of the basic control register.
pub const PHY_REG_BCR: u8 = 0x00;

/// Address of the basic status register.
pub const PHY_REG_BSR: u8 = 0x01;

/// Control bit: restart auto-negotiation.
pub const PHY_REG_BCR_ANRST: u16 = 0x0200;

/// Control bit: auto-negotiation enabled.
pub const PHY_REG_BCR_AN: u16 = 0x1000;

/// Control bit: 100 Mbit/s.
pub const PHY_REG_BCR_100M: u16 = 0x2000;

/// Control bit: reset under way.
pub const PHY_REG_BCR_RESET: u16 = 0x8000;

/// Status bit: link is up.
pub const PHY_REG_BSR_UP: u16 = 0x0004;

/// Status bit: auto-negotiation done.
pub const PHY_REG_BSR_ANDONE: u16 = 0x0020;

/// Status bit: the other side does 100 Mbit/s full duplex.
pub const PHY_REG_BSR_100BASE_TX_FD: u16 = 0x4000;

/// What the control register is set to at start: auto-negotiation enabled
/// and restarted, at 100 Mbit/s.
pub const PHY_INIT_BCR: u16 = 0x3200;

/// Whether the status `bsr` reports a link: auto-negotiation is done, the
/// link is up and the other side does 100 Mbit/s full duplex.
pub open spec fn spec_link_up(bsr: u16) -> bool {
    bsr & 0x0020 != 0 && bsr & 0x0004 != 0 && bsr & 0x4000 != 0
}

/// Whether the status `bsr` reports a link.
#[verifier::when_used_as_spec(spec_link_up)]
pub fn link_up(bsr: u16) -> (up: bool)
    ensures
        up == spec_link_up(bsr),
{
    if bsr & PHY_REG_BSR_ANDONE == 0 {
        return false;
    }
    if bsr & PHY_REG_BSR_UP == 0 {
        return false;
    }
    if bsr & PHY_REG_BSR_100BASE_TX_FD == 0 {
        return false;
    }
    true
}

/// Whether the control value `bcr` says that the reset is still under way.
pub open spec fn spec_in_reset(bcr: u16) -> bool {
    bcr & 0x8000 == 0x8000
}

/// Whether the control value `bcr` says that the reset is still under way.
#[verifier::when_used_as_spec(spec_in_reset)]
pub fn in_reset(bcr: u16) -> (resetting: bool)
    ensures
        resetting == spec_in_reset(bcr),
{
    bcr & PHY_REG_BCR_RESET == PHY_REG_BCR_RESET
}

/// A link is reported exactly where the three bits of the status are all
/// set, and the start value of the control register is its three bits.
pub proof fn lemma_link_bits(bsr: u16)
    ensures
        spec_link_up(bsr) <==> bsr & 0x4024 == 0x4024,
        PHY_INIT_BCR == PHY_REG_BCR_AN | PHY_REG_BCR_ANRST | PHY_REG_BCR_100M,
        !spec_in_reset(PHY_INIT_BCR),
{
    assert((bsr & 0x0020 != 0 && bsr & 0x0004 != 0 && bsr & 0x4000 != 0) <==> bsr & 0x4024
        == 0x4024) by (bit_vector);
    assert(0x3200u16 == 0x1000u16 | 0x0200u16 | 0x2000u16) by (bit_vector);
    assert(0x3200u16 & 0x8000u16 != 0x8000u16) by (bit_vector);
}

} // verus!
