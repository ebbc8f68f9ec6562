//! The driver of the digital inputs and outputs.
//!
//! The driver keeps a record of what it asks of the board: each request to a
//! pin, to the bus or to the delay source is entered with its answer, in the
//! function that makes it and nowhere else. The contracts of the operations
//! speak of what was entered since the operation began.

use vstd::prelude::*;
use crate::io::bus::{
    follows, lemma_arrived, lemma_follows_append, lemma_follows_bounded, lemma_follows_cut,
    lemma_follows_longer, lemma_nothing_asked, lemma_on_track_longer, lemma_record,
    lemma_recorded_since, lemma_unstopped_is_whole, on_track, recorded_since, stopped_by,
    unit_outcome, DelayUs, Event, Line, OutputPin, Reply, Request, SpiMode, TkrtSpi,
};
use crate::io::plan::{
    expander_mode, frame_outcome, frame_plan, input_mode, select_chip_plan, select_plan, SETTLE_US,
};
use crate::io::selector::{chip_address, select_level, SELECT_LINES};
use crate::io::types::{IoBank, IoError, IoType};

pub mod expander;
pub mod init;
pub mod inputs;
pub mod outputs;

verus! {

/// The driver of the 48 digital outputs and 48 digital inputs. It holds the
/// four select lines, the bus transport, the chip select line, the load line
/// and a delay source, and keeps no state of the chips.
pub struct Dio<SPI: TkrtSpi, NCS: OutputPin, SEL0, SEL1, SEL2, SEL3, LD, DELAY> {
    sel0: SEL0,
    sel1: SEL1,
    sel2: SEL2,
    sel3: SEL3,
    spi: SPI,
    ncs: NCS,
    ld: LD,
    delay: DELAY,
    log: Ghost<Seq<Event<SPI::Error, NCS::Error>>>,
}

impl<SPI, NCS, SEL0, SEL1, SEL2, SEL3, LD, DELAY, SPIE, CSE> Dio<
    SPI,
    NCS,
    SEL0,
    SEL1,
    SEL2,
    SEL3,
    LD,
    DELAY,
> where
    SPI: TkrtSpi<Error = SPIE>,
    NCS: OutputPin<Error = CSE>,
    SEL0: OutputPin<Error = CSE>,
    SEL1: OutputPin<Error = CSE>,
    SEL2: OutputPin<Error = CSE>,
    SEL3: OutputPin<Error = CSE>,
    LD: OutputPin<Error = CSE>,
    DELAY: DelayUs,
 {
    /// Everything that the driver has asked of the board, with the answers,
    /// in order.
    pub closed spec fn trace(&self) -> Seq<Event<SPIE, CSE>> {
        self.log@
    }

    /// Whether the driver has gone on from where `before` was.
    pub open spec fn extends(&self, before: Self) -> bool {
        before.trace().is_prefix_of(self.trace())
    }

    /// What the driver has asked of the board since it was `before`.
    pub open spec fn since(&self, before: Self) -> Seq<Event<SPIE, CSE>> {
        recorded_since(self.trace(), before.trace())
    }

    /// Whether the driver, since it was `before`, has made the first
    /// requests of `plan` and met no error.
    pub open spec fn on_track(&self, before: Self, plan: Seq<Request>) -> bool {
        self.extends(before) && on_track(self.since(before), plan)
    }

    /// Whether the driver, since it was `before`, has carried out `plan`.
    pub open spec fn carried_out(&self, before: Self, plan: Seq<Request>) -> bool {
        self.extends(before) && follows(self.since(before), plan)
    }

    /// A driver of the given lines, transport and delay source. It has asked
    /// nothing of them yet.
    pub fn new(
        sel0: SEL0,
        sel1: SEL1,
        sel2: SEL2,
        sel3: SEL3,
        spi: SPI,
        ncs: NCS,
        ld: LD,
        delay: DELAY,
    ) -> (dio: Self)
        ensures
            dio.trace() == Seq::<Event<SPIE, CSE>>::empty(),
    {
        Dio { sel0, sel1, sel2, sel3, spi, ncs, ld, delay, log: Ghost(Seq::empty()) }
    }

    /// The driver goes on from itself, with nothing asked since: every
    /// plan is still to do, and the plan of nothing is done.
    pub proof fn lemma_since_self(&self)
        ensures
            self.extends(*self),
            self.since(*self) == Seq::<Event<SPIE, CSE>>::empty(),
            self.carried_out(*self, Seq::<Request>::empty()),
            forall|plan: Seq<Request>| #[trigger] self.on_track(*self, plan),
    {
        assert(self.since(*self) =~= Seq::<Event<SPIE, CSE>>::empty());
        assert forall|plan: Seq<Request>| #[trigger] self.on_track(*self, plan) by {
            lemma_nothing_asked(self.since(*self), plan);
        }
        lemma_nothing_asked(self.since(*self), Seq::<Request>::empty());
    }

    /// What was asked since `start` is what was asked from `start` to
    /// `middle` and then from `middle` on.
    pub proof fn lemma_since(&self, start: Self, middle: Self)
        requires
            middle.extends(start),
            self.extends(middle),
        ensures
            self.extends(start),
            self.since(start) == middle.since(start) + self.since(middle),
    {
        lemma_recorded_since(start.trace(), middle.trace(), self.trace());
    }

    /// One plan after another, the first carried out without error.
    pub proof fn lemma_then(
        &self,
        before: Self,
        middle: Self,
        first_plan: Seq<Request>,
        second_plan: Seq<Request>,
    )
        requires
            middle.carried_out(before, first_plan),
            stopped_by(middle.since(before)) is None,
            self.carried_out(middle, second_plan),
        ensures
            self.carried_out(before, first_plan + second_plan),
            self.since(before) == middle.since(before) + self.since(middle),
            middle.since(before).len() == first_plan.len(),
            stopped_by(self.since(before)) == stopped_by(self.since(middle)),
            stopped_by(self.since(middle)) is None ==> self.since(middle).len()
                == second_plan.len(),
            self.since(middle).len() <= second_plan.len(),
    {
        lemma_follows_bounded(self.since(middle), second_plan);
        self.lemma_since(before, middle);
        lemma_unstopped_is_whole(middle.since(before), first_plan);
        if stopped_by(self.since(middle)) is None {
            lemma_unstopped_is_whole(self.since(middle), second_plan);
        }
        lemma_follows_append(
            middle.since(before),
            first_plan,
            self.since(middle),
            second_plan,
        );
    }

    /// A plan that stopped has carried out any plan that begins with it.
    pub proof fn lemma_stop(&self, before: Self, plan: Seq<Request>, longer: Seq<Request>)
        requires
            self.carried_out(before, plan),
            stopped_by(self.since(before)) is Some,
            plan.is_prefix_of(longer),
        ensures
            self.carried_out(before, longer),
    {
        lemma_follows_longer(self.since(before), plan, longer);
    }

    /// A plan that stopped: nothing of what was planned after it is
    /// done.
    pub proof fn lemma_cut(&self, before: Self, plan: Seq<Request>, rest: Seq<Request>)
        requires
            self.carried_out(before, plan),
            stopped_by(self.since(before)) is Some,
        ensures
            self.carried_out(before, plan + rest),
    {
        lemma_follows_cut(self.since(before), plan, rest);
    }

    /// Drives `line` high or low, as the next request of `plan`.
    pub(crate) fn drive(
        &mut self,
        line: Line,
        high: bool,
        Ghost(before): Ghost<Self>,
        Ghost(plan): Ghost<Seq<Request>>,
    ) -> (res: Result<(), IoError<SPIE, CSE>>)
        requires
            old(self).on_track(before, plan),
            old(self).since(before).len() < plan.len(),
            plan[old(self).since(before).len() as int] == (Request::Drive { line, high }),
        ensures
            final(self).since(before).drop_last() == old(self).since(before),
            final(self).since(before).len() == old(self).since(before).len() + 1,
            match res {
                Ok(()) => final(self).on_track(before, plan),
                Err(e) => final(self).carried_out(before, plan) && stopped_by(
                    final(self).since(before),
                ) == Some(e),
            },
    {
        let outcome = match line {
            Line::Sel0 => if high {
                self.sel0.set_high()
            } else {
                self.sel0.set_low()
            },
            Line::Sel1 => if high {
                self.sel1.set_high()
            } else {
                self.sel1.set_low()
            },
            Line::Sel2 => if high {
                self.sel2.set_high()
            } else {
                self.sel2.set_low()
            },
            Line::Sel3 => if high {
                self.sel3.set_high()
            } else {
                self.sel3.set_low()
            },
            Line::Ncs => if high {
                self.ncs.set_high()
            } else {
                self.ncs.set_low()
            },
            Line::Ld => if high {
                self.ld.set_high()
            } else {
                self.ld.set_low()
            },
        };
        match outcome {
            Ok(()) => {
                proof {
                    let event = Event { request: Request::Drive { line, high }, reply: Reply::Done };
                    lemma_record(before.trace(), self.log@, plan, event);
                    self.log@ = self.log@.push(event);
                }
                Ok(())
            },
            Err(e) => {
                proof {
                    let event = Event {
                        request: Request::Drive { line, high },
                        reply: Reply::PinFault(e),
                    };
                    lemma_record(before.trace(), self.log@, plan, event);
                    self.log@ = self.log@.push(event);
                }
                Err(IoError::Hal(e))
            },
        }
    }

    /// Waits `us` microseconds, as the next request of `plan`.
    pub(crate) fn pause(
        &mut self,
        us: u32,
        Ghost(before): Ghost<Self>,
        Ghost(plan): Ghost<Seq<Request>>,
    )
        requires
            old(self).on_track(before, plan),
            old(self).since(before).len() < plan.len(),
            plan[old(self).since(before).len() as int] == (Request::Delay { us }),
        ensures
            final(self).since(before).drop_last() == old(self).since(before),
            final(self).since(before).len() == old(self).since(before).len() + 1,
            final(self).on_track(before, plan),
    {
        self.delay.delay_us(us);
        proof {
            let event = Event { request: Request::Delay { us }, reply: Reply::Done };
            lemma_record(before.trace(), self.log@, plan, event);
            self.log@ = self.log@.push(event);
        }
    }

    /// Sets the bus mode, as the next request of `plan`.
    pub(crate) fn set_spi_mode(
        &mut self,
        mode: SpiMode,
        Ghost(before): Ghost<Self>,
        Ghost(plan): Ghost<Seq<Request>>,
    )
        requires
            old(self).on_track(before, plan),
            old(self).since(before).len() < plan.len(),
            plan[old(self).since(before).len() as int] == (Request::Mode { mode }),
        ensures
            final(self).since(before).drop_last() == old(self).since(before),
            final(self).since(before).len() == old(self).since(before).len() + 1,
            final(self).on_track(before, plan),
    {
        self.spi.set_spi_mode(mode);
        proof {
            let event = Event { request: Request::Mode { mode }, reply: Reply::Done };
            lemma_record(before.trace(), self.log@, plan, event);
            self.log@ = self.log@.push(event);
        }
    }

    /// Exchanges `sent` for two bytes over the bus, as the next request of
    /// `plan`.
    pub(crate) fn exchange(
        &mut self,
        sent: [u8; 2],
        Ghost(before): Ghost<Self>,
        Ghost(plan): Ghost<Seq<Request>>,
    ) -> (res: Result<[u8; 2], IoError<SPIE, CSE>>)
        requires
            old(self).on_track(before, plan),
            old(self).since(before).len() < plan.len(),
            plan[old(self).since(before).len() as int] == (Request::Exchange { sent }),
        ensures
            final(self).since(before).drop_last() == old(self).since(before),
            final(self).since(before).len() == old(self).since(before).len() + 1,
            match res {
                Ok(received) => final(self).on_track(before, plan) && final(self).since(
                    before,
                ).last().data() == received,
                Err(e) => final(self).carried_out(before, plan) && stopped_by(
                    final(self).since(before),
                ) == Some(e),
            },
    {
        match self.spi.transfer(sent) {
            Ok(received) => {
                proof {
                    let event = Event {
                        request: Request::Exchange { sent },
                        reply: Reply::Data(received),
                    };
                    lemma_record(before.trace(), self.log@, plan, event);
                    self.log@ = self.log@.push(event);
                }
                Ok(received)
            },
            Err(e) => {
                proof {
                    let event = Event {
                        request: Request::Exchange { sent },
                        reply: Reply::BusFault(e),
                    };
                    lemma_record(before.trace(), self.log@, plan, event);
                    self.log@ = self.log@.push(event);
                }
                Err(IoError::Spi(e))
            },
        }
    }

    /// Addresses chip `chip`: drives each select line to its bit of the
    /// address, line 0 first, and stops at the first line that fails.
    pub(crate) fn select_chip(&mut self, chip: u8) -> (res: Result<(), IoError<SPIE, CSE>>)
        ensures
            final(self).carried_out(*old(self), select_chip_plan(chip)),
            res == unit_outcome(final(self).since(*old(self))),
    {
        let ghost before = *self;
        let ghost plan = select_chip_plan(chip);
        proof {
            self.lemma_since_self();
        }
        let mut bit: u8 = 0;
        while bit < SELECT_LINES
            invariant
                bit <= 4,
                self.on_track(before, plan),
                self.since(before).len() == bit,
                plan == select_chip_plan(chip),
                before == *old(self),
            decreases 4 - bit,
        {
            let high = select_level(chip, bit);
            match self.drive(Line::select(bit), high, Ghost(before), Ghost(plan)) {
                Ok(()) => {},
                Err(e) => {
                    return Err(e);
                },
            }
            bit = bit + 1;
        }
        proof {
            lemma_arrived(self.since(before), plan);
        }
        Ok(())
    }

    /// Routes the bus to the chip of `bank` on the side `direction`, and
    /// lets the lines settle.
    pub(crate) fn select_io_bank(&mut self, direction: IoType, bank: IoBank) -> (res: Result<
        (),
        IoError<SPIE, CSE>,
    >)
        ensures
            final(self).carried_out(*old(self), select_plan(direction, bank)),
            res == unit_outcome(final(self).since(*old(self))),
    {
        let ghost before = *self;
        let ghost plan = select_plan(direction, bank);
        let chip = chip_address(direction, bank);
        assert(select_chip_plan(chip).is_prefix_of(plan));
        match self.select_chip(chip) {
            Ok(()) => {},
            Err(e) => {
                proof {
                    lemma_follows_longer(self.since(before), select_chip_plan(chip), plan);
                }
                return Err(e);
            },
        }
        proof {
            lemma_unstopped_is_whole(self.since(before), select_chip_plan(chip));
            lemma_on_track_longer(self.since(before), select_chip_plan(chip), plan);
        }
        self.pause(SETTLE_US, Ghost(before), Ghost(plan));
        proof {
            lemma_arrived(self.since(before), plan);
        }
        Ok(())
    }

    /// One exchange with the chip that the bus is routed to, in bus mode
    /// `mode`: chip select goes low around the exchange, with settling times
    /// between. Stops at the first request that fails; chip select then
    /// stays as it is.
    pub(crate) fn framed_transfer(&mut self, mode: SpiMode, sent: [u8; 2]) -> (res: Result<
        [u8; 2],
        IoError<SPIE, CSE>,
    >)
        ensures
            final(self).carried_out(*old(self), frame_plan(mode, sent)),
            res == frame_outcome(final(self).since(*old(self))),
    {
        let ghost before = *self;
        let ghost plan = frame_plan(mode, sent);
        proof {
            self.lemma_since_self();
        }
        self.set_spi_mode(mode, Ghost(before), Ghost(plan));
        match self.drive(Line::Ncs, false, Ghost(before), Ghost(plan)) {
            Ok(()) => {},
            Err(e) => {
                return Err(e);
            },
        }
        self.pause(SETTLE_US, Ghost(before), Ghost(plan));
        let received = match self.exchange(sent, Ghost(before), Ghost(plan)) {
            Ok(received) => received,
            Err(e) => {
                return Err(e);
            },
        };
        self.pause(SETTLE_US, Ghost(before), Ghost(plan));
        match self.drive(Line::Ncs, true, Ghost(before), Ghost(plan)) {
            Ok(()) => {},
            Err(e) => {
                return Err(e);
            },
        }
        self.pause(SETTLE_US, Ghost(before), Ghost(plan));
        proof {
            lemma_arrived(self.since(before), plan);
        }
        Ok(received)
    }

    /// One exchange with a port expander.
    pub(crate) fn max7301_transfer(&mut self, sent: [u8; 2]) -> (res: Result<
        [u8; 2],
        IoError<SPIE, CSE>,
    >)
        ensures
            final(self).carried_out(*old(self), frame_plan(expander_mode(), sent)),
            res == frame_outcome(final(self).since(*old(self))),
    {
        self.framed_transfer(SpiMode::Mode0, sent)
    }

    /// One exchange with an input chip.
    pub(crate) fn sn65hvs881_transfer(&mut self, sent: [u8; 2]) -> (res: Result<
        [u8; 2],
        IoError<SPIE, CSE>,
    >)
        ensures
            final(self).carried_out(*old(self), frame_plan(input_mode(), sent)),
            res == frame_outcome(final(self).since(*old(self))),
    {
        self.framed_transfer(SpiMode::Mode2, sent)
    }
}

} // verus!
