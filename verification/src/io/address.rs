//! Logical channel numbers and where they lead: channels 1 to 48 lie in six
//! banks of eight, one after the other.

use vstd::prelude::*;
use crate::io::types::IoBank;

verus! {

/// Number of channels of one direction.
pub const CHANNELS: u8 = 48;

/// Number of channels of a bank.
pub const BANK_WIDTH: u8 = 8;

/// Whether `logical` numbers a channel.
pub open spec fn is_logical(logical: int) -> bool {
    1 <= logical <= 48
}

/// The number of the bank that holds channel `logical`.
pub open spec fn bank_number(logical: int) -> int {
    (logical - 1) / 8 + 1
}

/// The place of channel `logical` in its bank, counted from 1.
pub open spec fn local_port(logical: int) -> int {
    (logical - 1) % 8 + 1
}

/// The channel at place `local` of bank `bank`.
pub open spec fn logical_address(bank: int, local: int) -> int {
    (bank - 1) * 8 + local
}

/// The bank that holds channel `logical`.
pub open spec fn bank_of(logical: int) -> IoBank {
    IoBank::numbered(bank_number(logical))
}

/// Splits a channel number into its bank and its place in the bank, counted
/// from 1. A number that names no channel gives `None`.
pub fn locate(logical: u8) -> (place: Option<(IoBank, u8)>)
    ensures
        place is Some <==> is_logical(logical as int),
        place matches Some((bank, local)) ==> bank == bank_of(logical as int) && bank.ordinal()
            == bank_number(logical as int) && local == local_port(logical as int),
{
    if logical < 1 || logical > CHANNELS {
        return None;
    }
    let index: u8 = logical - 1;
    match IoBank::from_ordinal(index / BANK_WIDTH + 1) {
        Some(bank) => Some((bank, index % BANK_WIDTH + 1)),
        None => None,
    }
}

/// A channel number leads to a bank 1 to 6 and a place 1 to 8, and these two
/// lead back to the channel number.
pub proof fn lemma_locate_round_trip(logical: int)
    requires
        is_logical(logical),
    ensures
        1 <= bank_number(logical) <= 6,
        1 <= local_port(logical) <= 8,
        logical_address(bank_number(logical), local_port(logical)) == logical,
{
}

/// Every place of every bank is a channel, and no two places are the same
/// channel.
pub proof fn lemma_address_round_trip(bank: int, local: int)
    requires
        1 <= bank <= 6,
        1 <= local <= 8,
    ensures
        is_logical(logical_address(bank, local)),
        bank_number(logical_address(bank, local)) == bank,
        local_port(logical_address(bank, local)) == local,
{
}

} // verus!
