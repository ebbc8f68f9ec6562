//! What the diagnostic lines of a bank mean.
//!
//! On the output side the port expander reads two supply sense lines, two
//! temperature lines that are low when active, and one status line for each
//! output. On the input side the frame of the input chip carries a
//! temperature flag and a supply flag.

use vstd::prelude::*;
use crate::io::types::{IoLevel, IoState, IoSupply, IoTemp};

verus! {

/// Offset from an output's place in its bank to the port that enables it.
pub const ENABLE_PIN_OFFSET: u8 = 3;

/// Offset from an output's place in its bank to the port of its status.
pub const STATE_PIN_OFFSET: u8 = 11;

/// Port of the 24 V sense line.
pub const SUPPLY_24V_PORT: u8 = 20;

/// Port of the 12 V sense line.
pub const SUPPLY_12V_PORT: u8 = 21;

/// Port of the line that is low when the bank is hot.
pub const HOT_PORT: u8 = 22;

/// Port of the line that is low when the bank is warm.
pub const WARM_PORT: u8 = 23;

/// Offset from an input's place in its bank to its bit in the frame.
pub const INPUT_PIN_OFFSET: u8 = 1;

/// Temperature of an output bank by its two lines: hot where the hot line
/// is low, whatever the warm line says; warm where only the warm line is
/// low.
pub open spec fn output_temp(hot_line: IoLevel, warm_line: IoLevel) -> IoTemp {
    if hot_line == IoLevel::Low {
        IoTemp::Hot
    } else if warm_line == IoLevel::Low {
        IoTemp::Warm
    } else {
        IoTemp::Normal
    }
}

/// Supply of an output bank by its two sense lines: 24 V where the 24 V
/// line is high, 12 V where only the 12 V line is high.
pub open spec fn output_supply(line_24v: IoLevel, line_12v: IoLevel) -> IoSupply {
    if line_24v == IoLevel::High {
        IoSupply::Volts24
    } else if line_12v == IoLevel::High {
        IoSupply::Volts12
    } else {
        IoSupply::Unpowered
    }
}

/// State of an output by its status line.
pub open spec fn spec_output_state(status: IoLevel) -> IoState {
    if status == IoLevel::High {
        IoState::Normal
    } else {
        IoState::OpenOrFault
    }
}

/// State of an output by its status line: normal where the line is high.
#[verifier::when_used_as_spec(spec_output_state)]
pub fn output_state(status: IoLevel) -> (state: IoState)
    ensures
        state == spec_output_state(status),
{
    match status {
        IoLevel::High => IoState::Normal,
        _ => IoState::OpenOrFault,
    }
}

/// Level of an input by its bit in the frame.
pub open spec fn spec_input_level(bit: bool) -> IoLevel {
    if bit {
        IoLevel::High
    } else {
        IoLevel::Low
    }
}

/// Level of an input by its bit in the frame: high where the bit is set.
#[verifier::when_used_as_spec(spec_input_level)]
pub fn input_level(bit: bool) -> (level: IoLevel)
    ensures
        level == spec_input_level(bit),
{
    if bit {
        IoLevel::High
    } else {
        IoLevel::Low
    }
}

/// Temperature of an input bank by its flag in the frame.
pub open spec fn spec_input_temp(flag: bool) -> IoTemp {
    if flag {
        IoTemp::Normal
    } else {
        IoTemp::Hot
    }
}

/// Temperature of an input bank by its flag in the frame: hot where the
/// flag is clear.
#[verifier::when_used_as_spec(spec_input_temp)]
pub fn input_temp(flag: bool) -> (temp: IoTemp)
    ensures
        temp == spec_input_temp(flag),
{
    if flag {
        IoTemp::Normal
    } else {
        IoTemp::Hot
    }
}

/// Supply of an input bank by its flag in the frame.
pub open spec fn spec_input_supply(flag: bool) -> IoSupply {
    if flag {
        IoSupply::Powered
    } else {
        IoSupply::Unpowered
    }
}

/// Supply of an input bank by its flag in the frame: powered where the
/// flag is set.
#[verifier::when_used_as_spec(spec_input_supply)]
pub fn input_supply(flag: bool) -> (supply: IoSupply)
    ensures
        supply == spec_input_supply(flag),
{
    if flag {
        IoSupply::Powered
    } else {
        IoSupply::Unpowered
    }
}

/// An output bank reports 24 V, 12 V or no supply, and an input bank that
/// it is powered or not; an input bank is hot or normal, never warm; and
/// an output bank whose hot line is low is hot whatever its warm line says.
pub proof fn lemma_diagnostic_ranges(first: IoLevel, second: IoLevel, flag: bool)
    ensures
        output_supply(first, second) != IoSupply::Powered,
        spec_input_supply(flag) == IoSupply::Powered || spec_input_supply(flag)
            == IoSupply::Unpowered,
        spec_input_temp(flag) != IoTemp::Warm,
        output_temp(IoLevel::Low, second) == IoTemp::Hot,
{
}

} // verus!
