//! Reading the digital inputs and the diagnostics of the input side.

use vstd::prelude::*;
use crate::io::address::{bank_of, is_logical, local_port, locate};
use crate::io::bus::{
    lemma_arrived, stopped_by, unit_outcome, DelayUs, Event, Line, OutputPin, Request, TkrtSpi,
};
use crate::io::dio::Dio;
use crate::io::plan::{frame_plan, input_mode, select_plan, SETTLE_US};
use crate::io::selector::spec_chip_address;
use crate::io::sense::{
    input_level, input_supply, input_temp, spec_input_level, spec_input_supply, spec_input_temp,
    INPUT_PIN_OFFSET,
};
use crate::io::sn65hvs881::{
    decode_bit, request_frame, spec_decode_bit, spec_frame_ok, spec_frame_word,
    spec_request_frame, SUPPLY_BIT, THERMAL_BIT,
};
use crate::io::types::{IoBank, IoError, IoLevel, IoSupply, IoTemp, IoType};

verus! {

/// Latching the inputs into the input chip: the load line goes low for a
/// settling time and high again.
pub open spec fn load_plan() -> Seq<Request> {
    seq![
        Request::Drive { line: Line::Ld, high: false },
        Request::Delay { us: 2 },
        Request::Drive { line: Line::Ld, high: true },
    ]
}

/// Reading the frame of the input chip: the inputs are latched, then one
/// exchange fetches the frame.
pub open spec fn read_bit_plan() -> Seq<Request> {
    load_plan() + frame_plan(input_mode(), spec_request_frame())
}

/// What a frame says of bit `index`, as a result: a frame that is not sound
/// is a parity error.
pub open spec fn bit_of_frame<SPI, HAL>(frame: [u8; 2], index: u8) -> Result<
    bool,
    IoError<SPI, HAL>,
> {
    match spec_decode_bit(frame, index) {
        Some(bit) => Ok(bit),
        None => Err(IoError::DiParity),
    }
}

/// What reading bit `index` of the input chip returns after `run`: the
/// error that stopped the run, or else what the frame received says.
pub open spec fn read_bit_outcome<SPI, HAL>(index: u8, run: Seq<Event<SPI, HAL>>) -> Result<
    bool,
    IoError<SPI, HAL>,
> {
    match stopped_by(run) {
        Some(e) => Err(e),
        None => bit_of_frame(run[6].data(), index),
    }
}

/// Reading the frame of the input chip of `bank`: the bus is routed to the
/// chip, then the frame is read.
pub open spec fn bank_bit_plan(bank: IoBank) -> Seq<Request> {
    select_plan(IoType::DigitalIn, bank) + read_bit_plan()
}

/// What reading bit `index` of the input chip of a bank returns after
/// `run`.
pub open spec fn bank_bit_outcome<SPI, HAL>(index: u8, run: Seq<Event<SPI, HAL>>) -> Result<
    bool,
    IoError<SPI, HAL>,
> {
    match stopped_by(run) {
        Some(e) => Err(e),
        None => bit_of_frame(run[11].data(), index),
    }
}

/// Reading input `input` of `bank`: the bus is routed to the input chip of
/// the bank; the frame is read where the bank has such an input.
pub open spec fn get_di_plan(bank: IoBank, input: u8) -> Seq<Request> {
    if 1 <= input <= 8 {
        bank_bit_plan(bank)
    } else {
        select_plan(IoType::DigitalIn, bank)
    }
}

/// What reading input `input` of a bank returns after `run`.
pub open spec fn get_di_outcome<SPI, HAL>(input: u8, run: Seq<Event<SPI, HAL>>) -> Result<
    IoLevel,
    IoError<SPI, HAL>,
> {
    match stopped_by(run) {
        Some(e) => Err(e),
        None => if 1 <= input <= 8 {
            match bit_of_frame::<SPI, HAL>(run[11].data(), (input - 1) as u8) {
                Ok(bit) => Ok(spec_input_level(bit)),
                Err(e) => Err(e),
            }
        } else {
            Err(IoError::IllegalInput)
        },
    }
}

/// Reading input channel `input`: nothing where there is no such channel.
pub open spec fn get_di_by_num_plan(input: u8) -> Seq<Request> {
    if is_logical(input as int) {
        get_di_plan(bank_of(input as int), local_port(input as int) as u8)
    } else {
        Seq::empty()
    }
}

/// What reading input channel `input` returns after `run`.
pub open spec fn get_di_by_num_outcome<SPI, HAL>(input: u8, run: Seq<Event<SPI, HAL>>) -> Result<
    IoLevel,
    IoError<SPI, HAL>,
> {
    if is_logical(input as int) {
        get_di_outcome(local_port(input as int) as u8, run)
    } else {
        Err(IoError::IllegalInput)
    }
}

/// What reading the temperature of an input bank returns after `run`.
pub open spec fn get_di_temp_outcome<SPI, HAL>(run: Seq<Event<SPI, HAL>>) -> Result<
    IoTemp,
    IoError<SPI, HAL>,
> {
    match bank_bit_outcome(8, run) {
        Ok(flag) => Ok(spec_input_temp(flag)),
        Err(e) => Err(e),
    }
}

/// What reading the supply of an input bank returns after `run`.
pub open spec fn get_di_supply_outcome<SPI, HAL>(run: Seq<Event<SPI, HAL>>) -> Result<
    IoSupply,
    IoError<SPI, HAL>,
> {
    match bank_bit_outcome(9, run) {
        Ok(flag) => Ok(spec_input_supply(flag)),
        Err(e) => Err(e),
    }
}

/// Whether select line 3 is low when request `at` of `plan` is made, by
/// what the plan itself did: it drove the line low before, and has not
/// driven it since.
pub open spec fn select_3_low_at(plan: Seq<Request>, at: int) -> bool {
    exists|low: int|
        0 <= low < at && #[trigger] plan[low] == (Request::Drive { line: Line::Sel3, high: false })
            && forall|between: int|
            low < between < at ==> !(#[trigger] plan[between] matches Request::Drive {
                line: Line::Sel3,
                ..
            })
}

/// Whether `plan` leaves the port expanders alone: each of its exchanges
/// comes while select line 3 is low. The port expanders lie at the chip
/// addresses 8 to 13, where select line 3 is high, so that such an
/// exchange reaches none of them.
pub open spec fn spares_outputs(plan: Seq<Request>) -> bool {
    forall|at: int|
        0 <= at < plan.len() && #[trigger] plan[at] is Exchange ==> select_3_low_at(plan, at)
}

/// Reading the inputs leaves the outputs alone, whatever the frame holds
/// and whether it is sound or not: a reading routes the bus to an input
/// chip before its one exchange, which is the request for the frame in
/// the bus mode of the input chips.
pub proof fn lemma_reading_inputs_spares_outputs(bank: IoBank, input: u8)
    ensures
        spares_outputs(bank_bit_plan(bank)),
        spares_outputs(get_di_plan(bank, input)),
        spares_outputs(get_di_by_num_plan(input)),
        forall|at: int|
            0 <= at < bank_bit_plan(bank).len() && #[trigger] bank_bit_plan(bank)[at] is Exchange
                ==> at == 11 && bank_bit_plan(bank)[at] == (Request::Exchange {
                sent: spec_request_frame(),
            }) && bank_bit_plan(bank)[8] == (Request::Mode { mode: input_mode() }),
{
    lemma_bank_bit_plan(bank);
    lemma_bank_bit_plan(bank_of(input as int));
}

/// A reading that met no error of a pin or of the bus, and fetched a frame
/// whose header or parity does not fit, is a parity error, whatever was
/// asked of the frame.
pub proof fn lemma_unsound_frame_is_parity_error<SPI, HAL>(input: u8, run: Seq<Event<SPI, HAL>>)
    requires
        stopped_by(run) is None,
        !spec_frame_ok(spec_frame_word(run[11].data())),
    ensures
        1 <= input <= 8 ==> get_di_outcome(input, run) == Err::<IoLevel, IoError<SPI, HAL>>(
            IoError::DiParity,
        ),
        is_logical(input as int) ==> get_di_by_num_outcome(input, run) == Err::<
            IoLevel,
            IoError<SPI, HAL>,
        >(IoError::DiParity),
        get_di_temp_outcome(run) == Err::<IoTemp, IoError<SPI, HAL>>(IoError::DiParity),
        get_di_supply_outcome(run) == Err::<IoSupply, IoError<SPI, HAL>>(IoError::DiParity),
{
}

/// The requests of a reading, one by one.
proof fn lemma_bank_bit_plan(bank: IoBank)
    ensures
        spares_outputs(bank_bit_plan(bank)),
        spares_outputs(select_plan(IoType::DigitalIn, bank)),
        forall|at: int|
            0 <= at < bank_bit_plan(bank).len() && #[trigger] bank_bit_plan(bank)[at] is Exchange
                ==> at == 11 && bank_bit_plan(bank)[at] == (Request::Exchange {
                sent: spec_request_frame(),
            }) && bank_bit_plan(bank)[8] == (Request::Mode { mode: input_mode() }),
{
    let plan = bank_bit_plan(bank);
    let chip = spec_chip_address(IoType::DigitalIn, bank);
    assert(chip <= 5 ==> (chip >> 3u8) & 1 != 1) by (bit_vector);
    assert(plan.len() == 15);
    assert(plan[3] == (Request::Drive { line: Line::Sel3, high: false }));
    assert(plan[4] == (Request::Delay { us: 2 }));
    assert(plan[5] == (Request::Drive { line: Line::Ld, high: false }));
    assert(plan[6] == (Request::Delay { us: 2 }));
    assert(plan[7] == (Request::Drive { line: Line::Ld, high: true }));
    assert(plan[8] == (Request::Mode { mode: input_mode() }));
    assert(plan[9] == (Request::Drive { line: Line::Ncs, high: false }));
    assert(plan[10] == (Request::Delay { us: 2 }));
    assert(plan[11] == (Request::Exchange { sent: spec_request_frame() }));
    assert(plan[12] == (Request::Delay { us: 2 }));
    assert(plan[13] == (Request::Drive { line: Line::Ncs, high: true }));
    assert(plan[14] == (Request::Delay { us: 2 }));
    assert(plan[0] is Drive && plan[1] is Drive && plan[2] is Drive);
    assert(select_3_low_at(plan, 11));
    let selecting = select_plan(IoType::DigitalIn, bank);
    assert(selecting.len() == 5);
    assert forall|at: int| 0 <= at < selecting.len() implies !(#[trigger] selecting[at]
        is Exchange) by {
        assert(selecting[at] == plan[at]);
    }
}

impl<SPI, NCS, SEL0, SEL1, SEL2, SEL3, LD, DELAY, SPIE, CSE> Dio<
    SPI,
    NCS,
    SEL0,
    SEL1,
    SEL2,
    SEL3,
    LD,
    DELAY,
> where
    SPI: TkrtSpi<Error = SPIE>,
    NCS: OutputPin<Error = CSE>,
    SEL0: OutputPin<Error = CSE>,
    SEL1: OutputPin<Error = CSE>,
    SEL2: OutputPin<Error = CSE>,
    SEL3: OutputPin<Error = CSE>,
    LD: OutputPin<Error = CSE>,
    DELAY: DelayUs,
 {
    /// Latches the inputs into the input chip.
    pub(crate) fn sn65hvs881_load(&mut self) -> (res: Result<(), IoError<SPIE, CSE>>)
        ensures
            final(self).carried_out(*old(self), load_plan()),
            res == unit_outcome(final(self).since(*old(self))),
    {
        let ghost before = *self;
        let ghost plan = load_plan();
        proof {
            self.lemma_since_self();
        }
        match self.drive(Line::Ld, false, Ghost(before), Ghost(plan)) {
            Ok(()) => {},
            Err(e) => {
                return Err(e);
            },
        }
        self.pause(SETTLE_US, Ghost(before), Ghost(plan));
        match self.drive(Line::Ld, true, Ghost(before), Ghost(plan)) {
            Ok(()) => {},
            Err(e) => {
                return Err(e);
            },
        }
        proof {
            lemma_arrived(self.since(before), plan);
        }
        Ok(())
    }

    /// Reads bit `port_no` of the input chip that the bus is routed to: one
    /// of the inputs 0 to 7, the temperature flag 8 or the supply flag 9.
    ///
    /// The inputs are latched and the frame is fetched. The first error of a
    /// pin or of the bus is returned; a frame whose header or parity does
    /// not fit gives `DiParity`, and no bit.
    pub fn sn65hvs881_read_single_bit(&mut self, port_no: u8) -> (res: Result<
        bool,
        IoError<SPIE, CSE>,
    >)
        requires
            port_no <= 9,
        ensures
            final(self).carried_out(*old(self), read_bit_plan()),
            res == read_bit_outcome(port_no, final(self).since(*old(self))),
    {
        let ghost before = *self;
        let ghost fetching = frame_plan(input_mode(), request_frame());
        match self.sn65hvs881_load() {
            Ok(()) => {},
            Err(e) => {
                proof {
                    self.lemma_stop(before, load_plan(), read_bit_plan());
                }
                return Err(e);
            },
        }
        let ghost middle = *self;
        let received = self.sn65hvs881_transfer(request_frame());
        proof {
            self.lemma_then(before, middle, load_plan(), fetching);
        }
        match received {
            Ok(frame) => match decode_bit(frame, port_no) {
                Some(bit) => Ok(bit),
                None => Err(IoError::DiParity),
            },
            Err(e) => Err(e),
        }
    }

    /// Reads bit `index` of the input chip of `bank`.
    pub(crate) fn read_bank_bit(&mut self, bank: IoBank, index: u8) -> (res: Result<
        bool,
        IoError<SPIE, CSE>,
    >)
        requires
            index <= 9,
        ensures
            final(self).carried_out(*old(self), bank_bit_plan(bank)),
            res == bank_bit_outcome(index, final(self).since(*old(self))),
    {
        let ghost before = *self;
        let ghost selecting = select_plan(IoType::DigitalIn, bank);
        match self.select_io_bank(IoType::DigitalIn, bank) {
            Ok(()) => {},
            Err(e) => {
                proof {
                    self.lemma_stop(before, selecting, bank_bit_plan(bank));
                }
                return Err(e);
            },
        }
        let ghost middle = *self;
        let bit = self.sn65hvs881_read_single_bit(index);
        proof {
            self.lemma_then(before, middle, selecting, read_bit_plan());
        }
        bit
    }

    /// Reads input `input`, one of 1 to 8, of `bank`.
    ///
    /// The bus is routed to the input chip of the bank first. Then a place
    /// outside 1 to 8 is refused with `IllegalInput`, and else the frame of
    /// the chip is read: the input is `High` where its bit is set.
    pub fn get_di_by_bank(&mut self, bank: IoBank, input: u8) -> (res: Result<
        IoLevel,
        IoError<SPIE, CSE>,
    >)
        ensures
            final(self).carried_out(*old(self), get_di_plan(bank, input)),
            res == get_di_outcome(input, final(self).since(*old(self))),
    {
        let ghost before = *self;
        let ghost selecting = select_plan(IoType::DigitalIn, bank);
        match self.select_io_bank(IoType::DigitalIn, bank) {
            Ok(()) => {},
            Err(e) => {
                proof {
                    self.lemma_stop(before, selecting, get_di_plan(bank, input));
                }
                return Err(e);
            },
        }
        if input > 8 || input < 1 {
            return Err(IoError::IllegalInput);
        }
        let ghost middle = *self;
        let bit = self.sn65hvs881_read_single_bit(input - INPUT_PIN_OFFSET);
        proof {
            self.lemma_then(before, middle, selecting, read_bit_plan());
        }
        match bit {
            Ok(level) => Ok(input_level(level)),
            Err(e) => Err(e),
        }
    }

    /// Reads input channel `input`, one of 1 to 48.
    ///
    /// A number that names no channel is refused with `IllegalInput`, and
    /// nothing is asked of the board.
    pub fn get_di_by_num(&mut self, input: u8) -> (res: Result<IoLevel, IoError<SPIE, CSE>>)
        ensures
            final(self).carried_out(*old(self), get_di_by_num_plan(input)),
            res == get_di_by_num_outcome(input, final(self).since(*old(self))),
            !is_logical(input as int) ==> res == Err::<IoLevel, IoError<SPIE, CSE>>(
                IoError::IllegalInput,
            ) && final(self).trace() == old(self).trace(),
    {
        proof {
            self.lemma_since_self();
        }
        match locate(input) {
            Some((bank, local)) => self.get_di_by_bank(bank, local),
            None => Err(IoError::IllegalInput),
        }
    }

    /// Reads the temperature flag of the input chip of `bank`: the bank is
    /// hot where the flag is clear.
    pub fn get_di_temp(&mut self, bank: IoBank) -> (res: Result<IoTemp, IoError<SPIE, CSE>>)
        ensures
            final(self).carried_out(*old(self), bank_bit_plan(bank)),
            res == get_di_temp_outcome(final(self).since(*old(self))),
    {
        match self.read_bank_bit(bank, THERMAL_BIT) {
            Ok(level) => Ok(input_temp(level)),
            Err(e) => Err(e),
        }
    }

    /// Reads the supply flag of the input chip of `bank`: the bank is
    /// powered where the flag is set.
    pub fn get_di_supply(&mut self, bank: IoBank) -> (res: Result<IoSupply, IoError<SPIE, CSE>>)
        ensures
            final(self).carried_out(*old(self), bank_bit_plan(bank)),
            res == get_di_supply_outcome(final(self).since(*old(self))),
    {
        match self.read_bank_bit(bank, SUPPLY_BIT) {
            Ok(level) => Ok(input_supply(level)),
            Err(e) => Err(e),
        }
    }
}

} // verus!
