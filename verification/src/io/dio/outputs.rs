//! Setting the digital outputs and reading the diagnostics of the output
//! side.

use vstd::prelude::*;
use crate::io::address::{bank_of, is_logical, local_port, locate};
use crate::io::bus::{
    follows, lemma_unstopped_is_whole, stopped_by, DelayUs, Event, OutputPin, Request, TkrtSpi,
};
use crate::io::dio::Dio;
use crate::io::max7301::spec_level_of;
use crate::io::plan::{fetched, read_port_plan, select_plan, write_port_outcome, write_port_plan};
use crate::io::sense::{
    output_state, output_supply, output_temp, spec_output_state, ENABLE_PIN_OFFSET, HOT_PORT,
    STATE_PIN_OFFSET, SUPPLY_12V_PORT, SUPPLY_24V_PORT, WARM_PORT,
};
use crate::io::types::{IoBank, IoError, IoLevel, IoState, IoSupply, IoTemp, IoType};

verus! {

/// Setting output `output` of `bank`: the bus is routed to the port
/// expander of the bank; the port that enables the output is written where
/// the bank has such an output.
pub open spec fn set_do_plan(bank: IoBank, output: u8, level: IoLevel) -> Seq<Request> {
    if output <= 8 {
        select_plan(IoType::DigitalOut, bank) + write_port_plan((output + 3) as u8, level)
    } else {
        select_plan(IoType::DigitalOut, bank)
    }
}

/// What setting output `output` of a bank returns after `run`.
pub open spec fn set_do_outcome<SPI, HAL>(
    output: u8,
    level: IoLevel,
    run: Seq<Event<SPI, HAL>>,
) -> Result<(), IoError<SPI, HAL>> {
    match stopped_by(run) {
        Some(e) => Err(e),
        None => if output <= 8 {
            write_port_outcome((output + 3) as u8, level, run)
        } else {
            Err(IoError::IllegalOutput)
        },
    }
}

/// Setting output channel `output`: nothing where there is no such channel.
pub open spec fn set_do_by_num_plan(output: u8, level: IoLevel) -> Seq<Request> {
    if is_logical(output as int) {
        set_do_plan(bank_of(output as int), local_port(output as int) as u8, level)
    } else {
        Seq::empty()
    }
}

/// What setting output channel `output` returns after `run`.
pub open spec fn set_do_by_num_outcome<SPI, HAL>(
    output: u8,
    level: IoLevel,
    run: Seq<Event<SPI, HAL>>,
) -> Result<(), IoError<SPI, HAL>> {
    if is_logical(output as int) {
        set_do_outcome(local_port(output as int) as u8, level, run)
    } else {
        Err(IoError::IllegalOutput)
    }
}

/// The level read first in a run that routes the bus and then reads ports.
pub open spec fn first_level<SPI, HAL>(run: Seq<Event<SPI, HAL>>) -> IoLevel {
    spec_level_of(fetched(run.skip(5)))
}

/// The level read second in a run that routes the bus and then reads
/// ports.
pub open spec fn second_level<SPI, HAL>(run: Seq<Event<SPI, HAL>>) -> IoLevel {
    spec_level_of(fetched(run.skip(19)))
}

/// Reading the temperature of the output side of `bank`: the bus is routed
/// to the port expander of the bank and the hot line is read; the warm line
/// is read where the hot line is not low.
pub open spec fn get_do_temp_plan<SPI, HAL>(bank: IoBank, run: Seq<Event<SPI, HAL>>) -> Seq<
    Request,
> {
    if first_level(run) == IoLevel::Low {
        select_plan(IoType::DigitalOut, bank) + read_port_plan(22)
    } else {
        select_plan(IoType::DigitalOut, bank) + read_port_plan(22) + read_port_plan(23)
    }
}

/// What reading the temperature of an output bank returns after `run`.
pub open spec fn get_do_temp_outcome<SPI, HAL>(run: Seq<Event<SPI, HAL>>) -> Result<
    IoTemp,
    IoError<SPI, HAL>,
> {
    match stopped_by(run) {
        Some(e) => Err(e),
        None => Ok(output_temp(first_level(run), second_level(run))),
    }
}

/// Reading the supply of the output side of `bank`: the bus is routed to
/// the port expander of the bank and the 24 V line is read; the 12 V line
/// is read where the 24 V line is not high.
pub open spec fn get_do_supply_plan<SPI, HAL>(bank: IoBank, run: Seq<Event<SPI, HAL>>) -> Seq<
    Request,
> {
    if first_level(run) == IoLevel::High {
        select_plan(IoType::DigitalOut, bank) + read_port_plan(20)
    } else {
        select_plan(IoType::DigitalOut, bank) + read_port_plan(20) + read_port_plan(21)
    }
}

/// What reading the supply of an output bank returns after `run`.
pub open spec fn get_do_supply_outcome<SPI, HAL>(run: Seq<Event<SPI, HAL>>) -> Result<
    IoSupply,
    IoError<SPI, HAL>,
> {
    match stopped_by(run) {
        Some(e) => Err(e),
        None => Ok(output_supply(first_level(run), second_level(run))),
    }
}

/// Reading the state of output `output` of `bank`: the supply of the bank
/// is read; where the bank is powered the bus is routed to its port
/// expander again, and the status port of the output is read where the
/// bank has such an output.
pub open spec fn get_do_state_plan<SPI, HAL>(
    bank: IoBank,
    output: u8,
    run: Seq<Event<SPI, HAL>>,
) -> Seq<Request> {
    let sensing = get_do_supply_plan(bank, run);
    if output_supply(first_level(run), second_level(run)) == IoSupply::Unpowered {
        sensing
    } else if output <= 8 {
        sensing + select_plan(IoType::DigitalOut, bank) + read_port_plan((output + 11) as u8)
    } else {
        sensing + select_plan(IoType::DigitalOut, bank)
    }
}

/// What reading the state of output `output` of `bank` returns after `run`:
/// of a bank without supply nothing is known.
pub open spec fn get_do_state_outcome<SPI, HAL>(
    bank: IoBank,
    output: u8,
    run: Seq<Event<SPI, HAL>>,
) -> Result<IoState, IoError<SPI, HAL>> {
    match stopped_by(run) {
        Some(e) => Err(e),
        None => if output_supply(first_level(run), second_level(run)) == IoSupply::Unpowered {
            Err(IoError::IllegalOutput)
        } else if output <= 8 {
            Ok(
                spec_output_state(
                    spec_level_of(
                        fetched(run.skip(get_do_supply_plan(bank, run).len() as int + 5)),
                    ),
                ),
            )
        } else {
            Err(IoError::IllegalOutput)
        },
    }
}

/// Reading the state of output channel `output`: nothing where there is no
/// such channel.
pub open spec fn get_do_state_by_num_plan<SPI, HAL>(
    output: u8,
    run: Seq<Event<SPI, HAL>>,
) -> Seq<Request> {
    if is_logical(output as int) {
        get_do_state_plan(bank_of(output as int), local_port(output as int) as u8, run)
    } else {
        Seq::empty()
    }
}

/// What reading the state of output channel `output` returns after `run`.
pub open spec fn get_do_state_by_num_outcome<SPI, HAL>(
    output: u8,
    run: Seq<Event<SPI, HAL>>,
) -> Result<IoState, IoError<SPI, HAL>> {
    if is_logical(output as int) {
        get_do_state_outcome(bank_of(output as int), local_port(output as int) as u8, run)
    } else {
        Err(IoError::IllegalOutput)
    }
}

/// What was read of the supply stays what it was when the run goes on.
proof fn lemma_supply_sensed<SPI, HAL>(
    bank: IoBank,
    sensed: Seq<Event<SPI, HAL>>,
    run: Seq<Event<SPI, HAL>>,
)
    requires
        follows(sensed, get_do_supply_plan(bank, sensed)),
        stopped_by(sensed) is None,
        sensed.is_prefix_of(run),
    ensures
        sensed.len() == get_do_supply_plan(bank, sensed).len(),
        get_do_supply_plan(bank, run) == get_do_supply_plan(bank, sensed),
        output_supply(first_level(run), second_level(run)) == output_supply(
            first_level(sensed),
            second_level(sensed),
        ),
{
    lemma_unstopped_is_whole(sensed, get_do_supply_plan(bank, sensed));
    assert(sensed.len() >= 19);
    assert(run.skip(5)[10] == run[15]);
    assert(sensed.skip(5)[10] == sensed[15]);
    assert(sensed[15] == run[15]);
    if first_level(sensed) != IoLevel::High {
        assert(sensed.len() == 33);
        assert(run.skip(19)[10] == run[29]);
        assert(sensed.skip(19)[10] == sensed[29]);
        assert(sensed[29] == run[29]);
    }
}

impl<SPI, NCS, SEL0, SEL1, SEL2, SEL3, LD, DELAY, SPIE, CSE> Dio<
    SPI,
    NCS,
    SEL0,
    SEL1,
    SEL2,
    SEL3,
    LD,
    DELAY,
> where
    SPI: TkrtSpi<Error = SPIE>,
    NCS: OutputPin<Error = CSE>,
    SEL0: OutputPin<Error = CSE>,
    SEL1: OutputPin<Error = CSE>,
    SEL2: OutputPin<Error = CSE>,
    SEL3: OutputPin<Error = CSE>,
    LD: OutputPin<Error = CSE>,
    DELAY: DelayUs,
 {
    /// Sets output `output`, one of 1 to 8, of `bank` to `level`.
    ///
    /// The bus is routed to the port expander of the bank first. Then a
    /// place outside 1 to 8 is refused with `IllegalOutput` and `Low` with
    /// `UnsupportedLevel`, and else the port that enables the output is
    /// written.
    pub fn set_do_by_bank(&mut self, bank: IoBank, output: u8, level: IoLevel) -> (res: Result<
        (),
        IoError<SPIE, CSE>,
    >)
        ensures
            final(self).carried_out(*old(self), set_do_plan(bank, output, level)),
            res == set_do_outcome(output, level, final(self).since(*old(self))),
    {
        let ghost before = *self;
        let ghost selecting = select_plan(IoType::DigitalOut, bank);
        match self.select_io_bank(IoType::DigitalOut, bank) {
            Ok(()) => {},
            Err(e) => {
                proof {
                    self.lemma_stop(before, selecting, set_do_plan(bank, output, level));
                }
                return Err(e);
            },
        }
        if output > 8 {
            return Err(IoError::IllegalOutput);
        }
        let ghost middle = *self;
        let res = self.max7301_write_single_port(output + ENABLE_PIN_OFFSET, level);
        proof {
            self.lemma_then(
                before,
                middle,
                selecting,
                write_port_plan((output + 3) as u8, level),
            );
        }
        res
    }

    /// Sets output channel `output`, one of 1 to 48, to `level`.
    ///
    /// A number that names no channel is refused with `IllegalOutput`, and
    /// nothing is asked of the board.
    pub fn set_do_by_num(&mut self, output: u8, level: IoLevel) -> (res: Result<
        (),
        IoError<SPIE, CSE>,
    >)
        ensures
            final(self).carried_out(*old(self), set_do_by_num_plan(output, level)),
            res == set_do_by_num_outcome(output, level, final(self).since(*old(self))),
            !is_logical(output as int) ==> res == Err::<(), IoError<SPIE, CSE>>(
                IoError::IllegalOutput,
            ) && final(self).trace() == old(self).trace(),
    {
        proof {
            self.lemma_since_self();
        }
        match locate(output) {
            Some((bank, local)) => self.set_do_by_bank(bank, local, level),
            None => Err(IoError::IllegalOutput),
        }
    }

    /// Reads the temperature of the output side of `bank`: hot where the
    /// hot line is low, warm where only the warm line is low.
    pub fn get_do_temp(&mut self, bank: IoBank) -> (res: Result<IoTemp, IoError<SPIE, CSE>>)
        ensures
            final(self).carried_out(
                *old(self),
                get_do_temp_plan(bank, final(self).since(*old(self))),
            ),
            res == get_do_temp_outcome(final(self).since(*old(self))),
    {
        let ghost before = *self;
        let ghost selecting = select_plan(IoType::DigitalOut, bank);
        match self.select_io_bank(IoType::DigitalOut, bank) {
            Ok(()) => {},
            Err(e) => {
                proof {
                    self.lemma_stop(
                        before,
                        selecting,
                        get_do_temp_plan(bank, self.since(before)),
                    );
                }
                return Err(e);
            },
        }
        let ghost selected = *self;
        let hot_line = self.max7301_read_single_port(HOT_PORT);
        proof {
            self.lemma_then(before, selected, selecting, read_port_plan(22));
            assert(self.since(before).skip(5) =~= self.since(selected));
        }
        match hot_line {
            Ok(IoLevel::Low) => {
                return Ok(IoTemp::Hot);
            },
            Ok(_) => {},
            Err(e) => {
                proof {
                    self.lemma_stop(
                        before,
                        selecting + read_port_plan(22),
                        get_do_temp_plan(bank, self.since(before)),
                    );
                }
                return Err(e);
            },
        }
        let ghost first_read = *self;
        let warm_line = self.max7301_read_single_port(WARM_PORT);
        proof {
            self.lemma_then(
                before,
                first_read,
                selecting + read_port_plan(22),
                read_port_plan(23),
            );
            assert(self.since(before).skip(19) =~= self.since(first_read));
            assert(self.since(before)[15] == first_read.since(before)[15]);
        }
        match warm_line {
            Ok(IoLevel::Low) => Ok(IoTemp::Warm),
            Ok(_) => Ok(IoTemp::Normal),
            Err(e) => Err(e),
        }
    }

    /// Reads the supply of the output side of `bank`: 24 V where the 24 V
    /// line is high, 12 V where only the 12 V line is high, else none.
    pub fn get_do_supply(&mut self, bank: IoBank) -> (res: Result<IoSupply, IoError<SPIE, CSE>>)
        ensures
            final(self).carried_out(
                *old(self),
                get_do_supply_plan(bank, final(self).since(*old(self))),
            ),
            res == get_do_supply_outcome(final(self).since(*old(self))),
    {
        let ghost before = *self;
        let ghost selecting = select_plan(IoType::DigitalOut, bank);
        match self.select_io_bank(IoType::DigitalOut, bank) {
            Ok(()) => {},
            Err(e) => {
                proof {
                    self.lemma_stop(
                        before,
                        selecting,
                        get_do_supply_plan(bank, self.since(before)),
                    );
                }
                return Err(e);
            },
        }
        let ghost selected = *self;
        let line_24v = self.max7301_read_single_port(SUPPLY_24V_PORT);
        proof {
            self.lemma_then(before, selected, selecting, read_port_plan(20));
            assert(self.since(before).skip(5) =~= self.since(selected));
        }
        match line_24v {
            Ok(IoLevel::High) => {
                return Ok(IoSupply::Volts24);
            },
            Ok(_) => {},
            Err(e) => {
                proof {
                    self.lemma_stop(
                        before,
                        selecting + read_port_plan(20),
                        get_do_supply_plan(bank, self.since(before)),
                    );
                }
                return Err(e);
            },
        }
        let ghost first_read = *self;
        let line_12v = self.max7301_read_single_port(SUPPLY_12V_PORT);
        proof {
            self.lemma_then(
                before,
                first_read,
                selecting + read_port_plan(20),
                read_port_plan(21),
            );
            assert(self.since(before).skip(19) =~= self.since(first_read));
            assert(self.since(before)[15] == first_read.since(before)[15]);
        }
        match line_12v {
            Ok(IoLevel::High) => Ok(IoSupply::Volts12),
            Ok(_) => Ok(IoSupply::Unpowered),
            Err(e) => Err(e),
        }
    }

    /// Reads the state of output `output`, one of 1 to 8, of `bank`:
    /// normal where its status line is high.
    ///
    /// The supply of the bank is read first, and a bank without supply is
    /// refused with `IllegalOutput`: nothing is known of its outputs. Then
    /// the bus is routed to the port expander of the bank again, a place
    /// above 8 is refused with `IllegalOutput`, and else the status port is
    /// read.
    pub fn get_do_state_by_bank(&mut self, bank: IoBank, output: u8) -> (res: Result<
        IoState,
        IoError<SPIE, CSE>,
    >)
        ensures
            final(self).carried_out(
                *old(self),
                get_do_state_plan(bank, output, final(self).since(*old(self))),
            ),
            res == get_do_state_outcome(bank, output, final(self).since(*old(self))),
    {
        let ghost before = *self;
        let supply = match self.get_do_supply(bank) {
            Ok(supply) => supply,
            Err(e) => {
                proof {
                    let run = self.since(before);
                    assert(get_do_supply_plan(bank, run).is_prefix_of(
                        get_do_state_plan(bank, output, run),
                    ));
                    self.lemma_stop(
                        before,
                        get_do_supply_plan(bank, run),
                        get_do_state_plan(bank, output, run),
                    );
                }
                return Err(e);
            },
        };
        if supply == IoSupply::Unpowered {
            return Err(IoError::IllegalOutput);
        }
        let ghost sensed = *self;
        let ghost sensing = get_do_supply_plan(bank, sensed.since(before));
        let ghost selecting = select_plan(IoType::DigitalOut, bank);
        let selected = self.select_io_bank(IoType::DigitalOut, bank);
        proof {
            self.lemma_then(before, sensed, sensing, selecting);
            lemma_supply_sensed(bank, sensed.since(before), self.since(before));
        }
        match selected {
            Ok(()) => {},
            Err(e) => {
                proof {
                    let run = self.since(before);
                    assert((sensing + selecting).is_prefix_of(
                        get_do_state_plan(bank, output, run),
                    ));
                    self.lemma_stop(
                        before,
                        sensing + selecting,
                        get_do_state_plan(bank, output, run),
                    );
                }
                return Err(e);
            },
        }
        if output > 8 {
            return Err(IoError::IllegalOutput);
        }
        let ghost routed = *self;
        let status = self.max7301_read_single_port(output + STATE_PIN_OFFSET);
        proof {
            self.lemma_then(
                before,
                routed,
                sensing + selecting,
                read_port_plan((output + 11) as u8),
            );
            self.lemma_since(before, sensed);
            lemma_supply_sensed(bank, sensed.since(before), self.since(before));
            assert(self.since(before).skip(sensing.len() as int + 5) =~= self.since(routed));
        }
        match status {
            Ok(level) => Ok(output_state(level)),
            Err(e) => Err(e),
        }
    }

    /// Reads the state of output channel `output`, one of 1 to 48.
    ///
    /// A number that names no channel is refused with `IllegalOutput`, and
    /// nothing is asked of the board.
    pub fn get_do_state_by_num(&mut self, output: u8) -> (res: Result<
        IoState,
        IoError<SPIE, CSE>,
    >)
        ensures
            final(self).carried_out(
                *old(self),
                get_do_state_by_num_plan(output, final(self).since(*old(self))),
            ),
            res == get_do_state_by_num_outcome(output, final(self).since(*old(self))),
            !is_logical(output as int) ==> res == Err::<IoState, IoError<SPIE, CSE>>(
                IoError::IllegalOutput,
            ) && final(self).trace() == old(self).trace(),
    {
        proof {
            self.lemma_since_self();
        }
        match locate(output) {
            Some((bank, local)) => self.get_do_state_by_bank(bank, local),
            None => Err(IoError::IllegalOutput),
        }
    }
}

} // verus!
