//! The plans of the driver's operations: what each asks of the board, in
//! order, and what it makes of the answers.

use vstd::prelude::*;
use crate::io::bus::{stopped_by, Event, Line, Request, SpiMode};
use crate::io::bus::unit_outcome;
use crate::io::max7301::{
    spec_config_read_frame, spec_config_write_frame, spec_is_port, spec_level_data, spec_level_of,
    spec_nop_frame, spec_read_frame, spec_wakeup_frame, spec_with_config_bits, spec_write_frame,
};
use crate::io::selector::{spec_chip_address, spec_select_level};
use crate::io::types::{IoBank, IoError, IoLevel, IoType};

verus! {

/// Microseconds that a line is given to settle.
pub const SETTLE_US: u32 = 2;

/// Bus mode of the port expanders.
pub open spec fn expander_mode() -> SpiMode {
    SpiMode::Mode0
}

/// Bus mode of the input chips.
pub open spec fn input_mode() -> SpiMode {
    SpiMode::Mode2
}

/// Addressing chip `chip`: each select line is driven to its bit of the
/// address, from line 0 to line 3.
pub open spec fn select_chip_plan(chip: u8) -> Seq<Request> {
    Seq::new(
        4,
        |bit: int|
            Request::Drive {
                line: Line::spec_select(bit as u8),
                high: spec_select_level(chip, bit as u8),
            },
    )
}

/// Routing the bus to the chip of a bank: the chip is addressed, then the
/// lines settle.
pub open spec fn select_plan(direction: IoType, bank: IoBank) -> Seq<Request> {
    select_chip_plan(spec_chip_address(direction, bank)).push(Request::Delay { us: 2 })
}

/// One exchange: the mode is set, chip select goes low, the bytes are
/// exchanged, chip select goes high, with a settling time after each of the
/// three.
pub open spec fn frame_plan(mode: SpiMode, sent: [u8; 2]) -> Seq<Request> {
    seq![
        Request::Mode { mode },
        Request::Drive { line: Line::Ncs, high: false },
        Request::Delay { us: 2 },
        Request::Exchange { sent },
        Request::Delay { us: 2 },
        Request::Drive { line: Line::Ncs, high: true },
        Request::Delay { us: 2 },
    ]
}

/// Number of requests of one exchange.
pub open spec fn frame_len() -> int {
    7
}

/// The bytes received in a run of one exchange.
pub open spec fn frame_reply<SPI, HAL>(run: Seq<Event<SPI, HAL>>) -> [u8; 2] {
    run[3].data()
}

/// What one exchange returns after `run`: the error that stopped it, or
/// else the bytes received.
pub open spec fn frame_outcome<SPI, HAL>(run: Seq<Event<SPI, HAL>>) -> Result<
    [u8; 2],
    IoError<SPI, HAL>,
> {
    match stopped_by(run) {
        Some(e) => Err(e),
        None => Ok(frame_reply(run)),
    }
}

/// Writing `level` to port `port` of a port expander: one exchange, where
/// the port is one and the chip can express the level.
pub open spec fn write_port_plan(port: u8, level: IoLevel) -> Seq<Request> {
    if spec_is_port(port) && spec_level_data(level) is Some {
        frame_plan(expander_mode(), spec_write_frame(port, spec_level_data(level).unwrap()))
    } else {
        Seq::empty()
    }
}

/// What writing a port returns after `run`.
pub open spec fn write_port_outcome<SPI, HAL>(
    port: u8,
    level: IoLevel,
    run: Seq<Event<SPI, HAL>>,
) -> Result<(), IoError<SPI, HAL>> {
    if !spec_is_port(port) {
        Err(IoError::IllegalOutput)
    } else if spec_level_data(level) is None {
        Err(IoError::UnsupportedLevel)
    } else {
        unit_outcome(run)
    }
}

/// Reading a register of a port expander: one exchange that asks for it,
/// and an empty one that fetches the answer.
pub open spec fn fetch_plan(ask: [u8; 2]) -> Seq<Request> {
    frame_plan(expander_mode(), ask) + frame_plan(expander_mode(), spec_nop_frame())
}

/// The register value in a run that read a register: the second byte
/// received in the second exchange.
pub open spec fn fetched<SPI, HAL>(run: Seq<Event<SPI, HAL>>) -> u8 {
    run[10].data()[1]
}

/// Reading port `port` of a port expander, where the port is one.
pub open spec fn read_port_plan(port: u8) -> Seq<Request> {
    if spec_is_port(port) {
        fetch_plan(spec_read_frame(port))
    } else {
        Seq::empty()
    }
}

/// What reading a port returns after `run`.
pub open spec fn read_port_outcome<SPI, HAL>(port: u8, run: Seq<Event<SPI, HAL>>) -> Result<
    IoLevel,
    IoError<SPI, HAL>,
> {
    if !spec_is_port(port) {
        Err(IoError::IllegalOutput)
    } else {
        match stopped_by(run) {
            Some(e) => Err(e),
            None => Ok(spec_level_of(fetched(run))),
        }
    }
}

/// Setting the mode bits of port `port`: the configuration register is
/// read, and written back with the bits of the port replaced. What is
/// written depends on what was read, so the plan depends on the run.
pub open spec fn config_bits_plan<SPI, HAL>(
    port: u8,
    bits: u8,
    run: Seq<Event<SPI, HAL>>,
) -> Seq<Request> {
    if spec_is_port(port) {
        fetch_plan(spec_config_read_frame(port)) + frame_plan(
            expander_mode(),
            spec_config_write_frame(port, spec_with_config_bits(fetched(run), port, bits)),
        )
    } else {
        Seq::empty()
    }
}

/// What an operation on a port that hands nothing back returns after
/// `run`.
pub open spec fn port_outcome<SPI, HAL>(port: u8, run: Seq<Event<SPI, HAL>>) -> Result<
    (),
    IoError<SPI, HAL>,
> {
    if !spec_is_port(port) {
        Err(IoError::IllegalOutput)
    } else {
        unit_outcome(run)
    }
}

/// The mode bits of an input, with or without pull-up.
pub open spec fn input_mode_bits(en_pullup: bool) -> u8 {
    if en_pullup {
        0x03
    } else {
        0x02
    }
}

/// Making port `port` an input.
pub open spec fn configure_input_plan<SPI, HAL>(
    port: u8,
    en_pullup: bool,
    run: Seq<Event<SPI, HAL>>,
) -> Seq<Request> {
    config_bits_plan(port, input_mode_bits(en_pullup), run)
}

/// Making port `port` an output at `level`: the level is written first,
/// then the mode bits.
pub open spec fn configure_output_plan<SPI, HAL>(
    port: u8,
    level: IoLevel,
    run: Seq<Event<SPI, HAL>>,
) -> Seq<Request> {
    if spec_is_port(port) && spec_level_data(level) is Some {
        write_port_plan(port, level) + config_bits_plan(port, 0x01, run.skip(frame_len()))
    } else {
        Seq::empty()
    }
}

/// Waking a port expander.
pub open spec fn wakeup_plan(en_irq: bool) -> Seq<Request> {
    frame_plan(expander_mode(), spec_wakeup_frame(en_irq))
}

} // verus!
