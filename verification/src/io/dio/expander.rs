//! The driver's operations on the port expander that the bus is routed to.

use vstd::prelude::*;
use crate::io::bus::{stopped_by, unit_outcome, DelayUs, OutputPin, TkrtSpi};
use crate::io::dio::Dio;
use crate::io::max7301::{
    config_read_frame, config_write_frame, is_port, level_data, level_of, nop_frame, read_frame,
    wakeup_frame, with_config_bits, write_frame, MODE_INPUT, MODE_INPUT_PULLUP, MODE_OUTPUT,
};
use crate::io::plan::{
    config_bits_plan, configure_input_plan, configure_output_plan, expander_mode, fetch_plan,
    fetched, frame_plan, port_outcome, read_port_outcome, read_port_plan, wakeup_plan,
    write_port_outcome, write_port_plan,
};
use crate::io::types::{IoError, IoLevel};

verus! {

impl<SPI, NCS, SEL0, SEL1, SEL2, SEL3, LD, DELAY, SPIE, CSE> Dio<
    SPI,
    NCS,
    SEL0,
    SEL1,
    SEL2,
    SEL3,
    LD,
    DELAY,
> where
    SPI: TkrtSpi<Error = SPIE>,
    NCS: OutputPin<Error = CSE>,
    SEL0: OutputPin<Error = CSE>,
    SEL1: OutputPin<Error = CSE>,
    SEL2: OutputPin<Error = CSE>,
    SEL3: OutputPin<Error = CSE>,
    LD: OutputPin<Error = CSE>,
    DELAY: DelayUs,
 {
    /// Sets port `port` of the port expander to `level`.
    ///
    /// A port outside 4 to 31 is refused with `IllegalOutput`, and `Low`
    /// with `UnsupportedLevel`, before anything is asked of the board.
    /// Else one frame is exchanged, and the first error of a pin or of the
    /// bus is returned.
    pub fn max7301_write_single_port(&mut self, port_no: u8, level: IoLevel) -> (res: Result<
        (),
        IoError<SPIE, CSE>,
    >)
        ensures
            final(self).carried_out(*old(self), write_port_plan(port_no, level)),
            res == write_port_outcome(port_no, level, final(self).since(*old(self))),
    {
        proof {
            self.lemma_since_self();
        }
        if !is_port(port_no) {
            return Err(IoError::IllegalOutput);
        }
        let data = match level_data(level) {
            Some(data) => data,
            None => {
                return Err(IoError::UnsupportedLevel);
            },
        };
        match self.max7301_transfer(write_frame(port_no, data)) {
            Ok(_) => Ok(()),
            Err(e) => Err(e),
        }
    }

    /// Reads the register at the address in `ask`: one exchange asks for
    /// it, an empty one fetches it.
    pub(crate) fn max7301_fetch(&mut self, ask: [u8; 2]) -> (res: Result<u8, IoError<SPIE, CSE>>)
        ensures
            final(self).carried_out(*old(self), fetch_plan(ask)),
            res == match stopped_by(final(self).since(*old(self))) {
                Some(e) => Err::<u8, IoError<SPIE, CSE>>(e),
                None => Ok::<u8, IoError<SPIE, CSE>>(fetched(final(self).since(*old(self)))),
            },
    {
        let ghost before = *self;
        let ghost asking = frame_plan(expander_mode(), ask);
        let ghost fetching = frame_plan(expander_mode(), nop_frame());
        match self.max7301_transfer(ask) {
            Ok(_) => {},
            Err(e) => {
                proof {
                    self.lemma_stop(before, asking, asking + fetching);
                }
                return Err(e);
            },
        }
        let ghost middle = *self;
        let fetched = self.max7301_transfer(nop_frame());
        proof {
            self.lemma_then(before, middle, asking, fetching);
        }
        match fetched {
            Ok(received) => Ok(received[1]),
            Err(e) => Err(e),
        }
    }

    /// Reads the level at port `port` of the port expander: `High` where
    /// the register is not zero, else `Low`.
    ///
    /// A port outside 4 to 31 is refused with `IllegalOutput` before
    /// anything is asked of the board.
    pub fn max7301_read_single_port(&mut self, port_no: u8) -> (res: Result<
        IoLevel,
        IoError<SPIE, CSE>,
    >)
        ensures
            final(self).carried_out(*old(self), read_port_plan(port_no)),
            res == read_port_outcome(port_no, final(self).since(*old(self))),
    {
        proof {
            self.lemma_since_self();
        }
        if !is_port(port_no) {
            return Err(IoError::IllegalOutput);
        }
        match self.max7301_fetch(read_frame(port_no)) {
            Ok(value) => Ok(level_of(value)),
            Err(e) => Err(e),
        }
    }

    /// Sets the mode bits of port `port` to the low two bits of `cfg_bits`
    /// and leaves those of the three ports that share its configuration
    /// register: the register is read, changed and written back.
    ///
    /// A port outside 4 to 31 is refused with `IllegalOutput` before
    /// anything is asked of the board.
    pub fn max7301_write_port_config_bits(&mut self, port_no: u8, cfg_bits: u8) -> (res: Result<
        (),
        IoError<SPIE, CSE>,
    >)
        ensures
            final(self).carried_out(
                *old(self),
                config_bits_plan(port_no, cfg_bits, final(self).since(*old(self))),
            ),
            res == port_outcome(port_no, final(self).since(*old(self))),
    {
        let ghost before = *self;
        proof {
            self.lemma_since_self();
        }
        if !is_port(port_no) {
            return Err(IoError::IllegalOutput);
        }
        let ghost reading = fetch_plan(config_read_frame(port_no));
        let config_reg = match self.max7301_fetch(config_read_frame(port_no)) {
            Ok(value) => value,
            Err(e) => {
                proof {
                    self.lemma_stop(
                        before,
                        reading,
                        config_bits_plan(port_no, cfg_bits, self.since(before)),
                    );
                }
                return Err(e);
            },
        };
        let ghost middle = *self;
        let changed = with_config_bits(config_reg, port_no, cfg_bits);
        let ghost writing = frame_plan(expander_mode(), config_write_frame(port_no, changed));
        let written = self.max7301_transfer(config_write_frame(port_no, changed));
        proof {
            self.lemma_then(before, middle, reading, writing);
            assert(self.since(before)[10] == middle.since(before)[10]);
        }
        match written {
            Ok(_) => Ok(()),
            Err(e) => Err(e),
        }
    }

    /// Makes port `port` a push-pull output at `level`: writes the level,
    /// then the mode bits.
    pub fn max7301_configure_output(&mut self, port_no: u8, level: IoLevel) -> (res: Result<
        (),
        IoError<SPIE, CSE>,
    >)
        ensures
            final(self).carried_out(
                *old(self),
                configure_output_plan(port_no, level, final(self).since(*old(self))),
            ),
            res == write_port_outcome(port_no, level, final(self).since(*old(self))),
    {
        let ghost before = *self;
        proof {
            self.lemma_since_self();
        }
        if !is_port(port_no) {
            return Err(IoError::IllegalOutput);
        }
        match self.max7301_write_single_port(port_no, level) {
            Ok(()) => {},
            Err(e) => {
                proof {
                    if level_data(level) is Some {
                        self.lemma_stop(
                            before,
                            write_port_plan(port_no, level),
                            configure_output_plan(port_no, level, self.since(before)),
                        );
                    }
                }
                return Err(e);
            },
        }
        let ghost middle = *self;
        let res = self.max7301_write_port_config_bits(port_no, MODE_OUTPUT);
        proof {
            self.lemma_then(
                before,
                middle,
                write_port_plan(port_no, level),
                config_bits_plan(port_no, MODE_OUTPUT, self.since(middle)),
            );
            assert(self.since(before).skip(7) =~= self.since(middle));
        }
        res
    }

    /// Makes port `port` an input, with or without pull-up.
    pub fn max7301_configure_input(&mut self, port_no: u8, en_pullup: bool) -> (res: Result<
        (),
        IoError<SPIE, CSE>,
    >)
        ensures
            final(self).carried_out(
                *old(self),
                configure_input_plan(port_no, en_pullup, final(self).since(*old(self))),
            ),
            res == port_outcome(port_no, final(self).since(*old(self))),
    {
        proof {
            self.lemma_since_self();
        }
        if !is_port(port_no) {
            return Err(IoError::IllegalOutput);
        }
        let cfg_bits = if en_pullup {
            MODE_INPUT_PULLUP
        } else {
            MODE_INPUT
        };
        self.max7301_write_port_config_bits(port_no, cfg_bits)
    }

    /// Wakes the port expander from its low-power state, with interrupts
    /// where `en_irq` says so.
    pub fn max7301_wakeup(&mut self, en_irq: bool) -> (res: Result<(), IoError<SPIE, CSE>>)
        ensures
            final(self).carried_out(*old(self), wakeup_plan(en_irq)),
            res == unit_outcome(final(self).since(*old(self))),
    {
        match self.max7301_transfer(wakeup_frame(en_irq)) {
            Ok(_) => Ok(()),
            Err(e) => Err(e),
        }
    }
}

} // verus!
