//! Value types of the digital channels.

use vstd::prelude::*;

verus! {

/// What a digital I/O operation can fail with.
///
/// `SPI` is the error of the bus transport, `HAL` the error of a pin.
#[derive(Debug, Copy, Clone, PartialEq, Eq)]
pub enum IoError<SPI, HAL> {
    /// The input chip's frame failed its header or parity check.
    DiParity,
    /// The addressed chip did not answer.
    NotPresent,
    /// Illegal digital input number.
    IllegalInput,
    /// Illegal digital output number.
    IllegalOutput,
    /// The chip cannot express the requested level.
    UnsupportedLevel,
    /// Error of the bus transport.
    Spi(SPI),
    /// Error of a pin.
    Hal(HAL),
}

/// One of the six groups of eight channels.
#[derive(Debug, Clone, Copy, PartialEq, Eq, Structural)]
pub enum IoBank {
    Bank1,
    Bank2,
    Bank3,
    Bank4,
    Bank5,
    Bank6,
}

impl IoBank {
    /// The bank's number, 1 to 6.
    pub open spec fn spec_ordinal(self) -> u8 {
        match self {
            IoBank::Bank1 => 1,
            IoBank::Bank2 => 2,
            IoBank::Bank3 => 3,
            IoBank::Bank4 => 4,
            IoBank::Bank5 => 5,
            IoBank::Bank6 => 6,
        }
    }

    /// The bank's number, 1 to 6.
    #[verifier::when_used_as_spec(spec_ordinal)]
    pub fn ordinal(self) -> (n: u8)
        ensures
            n == self.spec_ordinal(),
            1 <= n <= 6,
    {
        match self {
            IoBank::Bank1 => 1,
            IoBank::Bank2 => 2,
            IoBank::Bank3 => 3,
            IoBank::Bank4 => 4,
            IoBank::Bank5 => 5,
            IoBank::Bank6 => 6,
        }
    }

    /// The bank with the number `n`; a number below 1 stands for bank 1,
    /// one above 6 for bank 6.
    pub open spec fn numbered(n: int) -> IoBank {
        if n <= 1 {
            IoBank::Bank1
        } else if n == 2 {
            IoBank::Bank2
        } else if n == 3 {
            IoBank::Bank3
        } else if n == 4 {
            IoBank::Bank4
        } else if n == 5 {
            IoBank::Bank5
        } else {
            IoBank::Bank6
        }
    }

    /// The bank with the given number, if the number is one of 1 to 6.
    pub fn from_ordinal(n: u8) -> (bank: Option<IoBank>)
        ensures
            bank is Some <==> 1 <= n <= 6,
            bank matches Some(b) ==> b.ordinal() == n && b == IoBank::numbered(n as int),
    {
        match n {
            1 => Some(IoBank::Bank1),
            2 => Some(IoBank::Bank2),
            3 => Some(IoBank::Bank3),
            4 => Some(IoBank::Bank4),
            5 => Some(IoBank::Bank5),
            6 => Some(IoBank::Bank6),
            _ => None,
        }
    }

    /// A bank is known by its number.
    pub proof fn lemma_ordinal_injective(a: IoBank, b: IoBank)
        requires
            a.ordinal() == b.ordinal(),
        ensures
            a == b,
    {
    }
}

/// The side of a bank.
#[derive(Debug, Clone, Copy, PartialEq, Eq, Structural)]
pub enum IoType {
    DigitalIn,
    DigitalOut,
}

/// Sensed temperature state of a bank.
#[derive(Debug, Clone, Copy, PartialEq, Eq, Structural)]
pub enum IoTemp {
    Normal,
    Warm,
    Hot,
}

/// Sensed supply rail of a bank.
#[derive(Debug, Clone, Copy, PartialEq, Eq, Structural)]
pub enum IoSupply {
    Volts24,
    Volts12,
    Powered,
    Unpowered,
}

/// Diagnostic read-back of an output.
#[derive(Debug, Clone, Copy, PartialEq, Eq, Structural)]
pub enum IoState {
    Normal,
    OpenOrFault,
}

/// Electrical state of a line.
#[derive(Debug, Clone, Copy, PartialEq, Eq, Structural)]
pub enum IoLevel {
    High,
    Low,
    HiZ,
}

impl IoLevel {
    /// The level with `High` and `Low` exchanged; `HiZ` stays.
    pub open spec fn toggled(self) -> IoLevel {
        match self {
            IoLevel::High => IoLevel::Low,
            IoLevel::Low => IoLevel::High,
            IoLevel::HiZ => IoLevel::HiZ,
        }
    }

    /// Exchanges `High` and `Low`, and leaves `HiZ` as it is.
    pub fn toggle(self) -> (r: IoLevel)
        ensures
            r == self.toggled(),
    {
        match self {
            IoLevel::High => IoLevel::Low,
            IoLevel::Low => IoLevel::High,
            IoLevel::HiZ => IoLevel::HiZ,
        }
    }

    /// Toggling twice gives the level back, and `HiZ` is the one level
    /// that toggling does not change.
    pub proof fn lemma_toggle_involution(level: IoLevel)
        ensures
            level.toggled().toggled() == level,
            level.toggled() == level <==> level == IoLevel::HiZ,
    {
    }
}

} // verus!
