//! The board as the driver sees it: the capabilities that the driver is
//! given, and the record of what it asked of them.
//!
//! The capabilities promise nothing: a pin may refuse, an exchange may fail,
//! the bytes that come back may be anything. What the driver promises is
//! stated over the record. Each operation has a plan, the requests that it
//! makes in order, and carries the plan out until the first request that
//! fails.

use vstd::prelude::*;
use crate::io::types::IoError;

verus! {

/// Clock polarity and phase of the bus.
#[derive(Debug, Clone, Copy, PartialEq, Eq, Structural)]
pub enum SpiMode {
    /// Clock idle low, data captured on the first transition.
    Mode0,
    /// Clock idle low, data captured on the second transition.
    Mode1,
    /// Clock idle high, data captured on the first transition.
    Mode2,
    /// Clock idle high, data captured on the second transition.
    Mode3,
}

impl SpiMode {
    /// Whether the clock idles high.
    pub open spec fn spec_idle_high(self) -> bool {
        self == SpiMode::Mode2 || self == SpiMode::Mode3
    }

    /// Whether the clock idles high.
    #[verifier::when_used_as_spec(spec_idle_high)]
    pub fn idle_high(self) -> (high: bool)
        ensures
            high == self.spec_idle_high(),
    {
        match self {
            SpiMode::Mode0 | SpiMode::Mode1 => false,
            SpiMode::Mode2 | SpiMode::Mode3 => true,
        }
    }

    /// Whether data is captured on the second clock transition.
    pub open spec fn spec_capture_on_second(self) -> bool {
        self == SpiMode::Mode1 || self == SpiMode::Mode3
    }

    /// Whether data is captured on the second clock transition.
    #[verifier::when_used_as_spec(spec_capture_on_second)]
    pub fn capture_on_second(self) -> (second: bool)
        ensures
            second == self.spec_capture_on_second(),
    {
        match self {
            SpiMode::Mode0 | SpiMode::Mode2 => false,
            SpiMode::Mode1 | SpiMode::Mode3 => true,
        }
    }
}

/// The bus transport: exchanges two bytes with the chip that the bus is
/// routed to, in the mode last set.
pub trait TkrtSpi {
    /// What an exchange can fail with.
    type Error;

    /// Sets clock polarity and phase for the exchanges that follow.
    fn set_spi_mode(&mut self, mode: SpiMode);

    /// Sends `words` and returns the two bytes received meanwhile.
    fn transfer(&mut self, words: [u8; 2]) -> Result<[u8; 2], Self::Error>;
}

/// A line that can be driven high or low.
pub trait OutputPin {
    /// What driving the line can fail with.
    type Error;

    /// Drives the line low.
    fn set_low(&mut self) -> Result<(), Self::Error>;

    /// Drives the line high.
    fn set_high(&mut self) -> Result<(), Self::Error>;
}

/// A source of blocking delays.
pub trait DelayUs {
    /// Returns after `us` microseconds.
    fn delay_us(&mut self, us: u32);
}

/// The lines that the driver drives.
#[derive(Debug, Clone, Copy, PartialEq, Eq, Structural)]
pub enum Line {
    /// Select line 0, the lowest bit of the chip address.
    Sel0,
    /// Select line 1.
    Sel1,
    /// Select line 2.
    Sel2,
    /// Select line 3, the highest bit of the chip address.
    Sel3,
    /// Chip select of the bus, active low.
    Ncs,
    /// Load line of the input chips, active low.
    Ld,
}

impl Line {
    /// The select line that carries bit `bit` of the chip address.
    pub open spec fn spec_select(bit: u8) -> Line {
        if bit == 0 {
            Line::Sel0
        } else if bit == 1 {
            Line::Sel1
        } else if bit == 2 {
            Line::Sel2
        } else {
            Line::Sel3
        }
    }

    /// The select line that carries bit `bit` of the chip address.
    #[verifier::when_used_as_spec(spec_select)]
    pub fn select(bit: u8) -> (line: Line)
        requires
            bit < 4,
        ensures
            line == Line::spec_select(bit),
    {
        if bit == 0 {
            Line::Sel0
        } else if bit == 1 {
            Line::Sel1
        } else if bit == 2 {
            Line::Sel2
        } else {
            Line::Sel3
        }
    }
}

/// What the driver asks of the board.
pub enum Request {
    /// Drive a line high or low.
    Drive { line: Line, high: bool },
    /// Wait.
    Delay { us: u32 },
    /// Set the bus mode.
    Mode { mode: SpiMode },
    /// Exchange two bytes over the bus.
    Exchange { sent: [u8; 2] },
}

/// What the board answers.
pub enum Reply<SPI, HAL> {
    /// Done, with nothing to report.
    Done,
    /// The bytes received in an exchange.
    Data([u8; 2]),
    /// The exchange failed.
    BusFault(SPI),
    /// The line could not be driven.
    PinFault(HAL),
}

/// A request and its answer.
pub struct Event<SPI, HAL> {
    pub request: Request,
    pub reply: Reply<SPI, HAL>,
}

impl<SPI, HAL> Event<SPI, HAL> {
    /// Whether the answer is one that the request can get.
    pub open spec fn sound(self) -> bool {
        match self.request {
            Request::Drive { .. } => self.reply is Done || self.reply is PinFault,
            Request::Delay { .. } => self.reply is Done,
            Request::Mode { .. } => self.reply is Done,
            Request::Exchange { .. } => self.reply is Data || self.reply is BusFault,
        }
    }

    /// The error that the answer reports, if it reports one.
    pub open spec fn fault(self) -> Option<IoError<SPI, HAL>> {
        match self.reply {
            Reply::BusFault(e) => Some(IoError::Spi(e)),
            Reply::PinFault(e) => Some(IoError::Hal(e)),
            _ => None,
        }
    }

    /// The bytes received, where the answer holds any.
    pub open spec fn data(self) -> [u8; 2] {
        match self.reply {
            Reply::Data(bytes) => bytes,
            _ => [0u8, 0u8],
        }
    }
}

/// The error that stopped `run`: the one that its last answer reports.
pub open spec fn stopped_by<SPI, HAL>(run: Seq<Event<SPI, HAL>>) -> Option<IoError<SPI, HAL>> {
    if run.len() > 0 {
        run.last().fault()
    } else {
        None
    }
}

/// Whether `run` is a beginning of `plan` in which nothing failed.
#[verifier::opaque]
pub open spec fn on_track<SPI, HAL>(run: Seq<Event<SPI, HAL>>, plan: Seq<Request>) -> bool {
    &&& run.len() <= plan.len()
    &&& forall|i: int|
        0 <= i < run.len() ==> (#[trigger] run[i]).request == plan[i] && run[i].sound()
            && run[i].fault() is None
}

/// Whether `run` carries out `plan`: it makes the requests of the plan in
/// order, from the first on, and ends with the first request that failed,
/// or else with the last request of the plan.
#[verifier::opaque]
pub open spec fn follows<SPI, HAL>(run: Seq<Event<SPI, HAL>>, plan: Seq<Request>) -> bool {
    &&& run.len() <= plan.len()
    &&& forall|i: int|
        0 <= i < run.len() ==> (#[trigger] run[i]).request == plan[i] && run[i].sound()
    &&& forall|i: int| 0 <= i < run.len() - 1 ==> (#[trigger] run[i]).fault() is None
    &&& run.len() < plan.len() ==> stopped_by(run) is Some
}

/// What an operation that hands nothing back returns after `run`: the error
/// that stopped it, or else nothing.
pub open spec fn unit_outcome<SPI, HAL>(run: Seq<Event<SPI, HAL>>) -> Result<
    (),
    IoError<SPI, HAL>,
> {
    match stopped_by(run) {
        Some(e) => Err(e),
        None => Ok(()),
    }
}

/// Where nothing was asked, every plan is still to do, and the plan of
/// nothing is done.
pub proof fn lemma_nothing_asked<SPI, HAL>(run: Seq<Event<SPI, HAL>>, plan: Seq<Request>)
    requires
        run.len() == 0,
    ensures
        on_track(run, plan),
        follows(run, Seq::<Request>::empty()),
        stopped_by(run) is None,
{
    reveal(on_track);
    reveal(follows);
}

/// A run makes no more requests than its plan holds.
pub proof fn lemma_follows_bounded<SPI, HAL>(run: Seq<Event<SPI, HAL>>, plan: Seq<Request>)
    requires
        follows(run, plan),
    ensures
        run.len() <= plan.len(),
{
    reveal(follows);
}

/// A run that is on track and then gets a sound answer without error is
/// still on track.
pub proof fn lemma_step<SPI, HAL>(
    run: Seq<Event<SPI, HAL>>,
    plan: Seq<Request>,
    event: Event<SPI, HAL>,
)
    requires
        on_track(run, plan),
        run.len() < plan.len(),
        event.request == plan[run.len() as int],
        event.sound(),
    ensures
        event.fault() is None ==> on_track(run.push(event), plan),
        event.fault() is Some ==> follows(run.push(event), plan) && stopped_by(run.push(event))
            == event.fault(),
{
    reveal(on_track);
    reveal(follows);
    let next = run.push(event);
    assert forall|i: int| 0 <= i < next.len() implies (#[trigger] next[i]).request == plan[i]
        && next[i].sound() by {
        if i < run.len() {
            assert(next[i] == run[i]);
        }
    }
    assert forall|i: int| 0 <= i < next.len() - 1 implies (#[trigger] next[i]).fault() is None by {
        assert(next[i] == run[i]);
    }
    if event.fault() is None {
        assert forall|i: int| 0 <= i < next.len() implies (#[trigger] next[i]).fault() is None by {
            if i < run.len() {
                assert(next[i] == run[i]);
            }
        }
    }
}

/// A run that is on track through the whole plan has carried it out.
pub proof fn lemma_arrived<SPI, HAL>(run: Seq<Event<SPI, HAL>>, plan: Seq<Request>)
    requires
        on_track(run, plan),
        run.len() == plan.len(),
    ensures
        follows(run, plan),
        stopped_by(run) is None,
{
    reveal(on_track);
    reveal(follows);
}

/// A run that carried out its plan without error has made every request of
/// the plan.
pub proof fn lemma_unstopped_is_whole<SPI, HAL>(run: Seq<Event<SPI, HAL>>, plan: Seq<Request>)
    requires
        follows(run, plan),
        stopped_by(run) is None,
    ensures
        run.len() == plan.len(),
        on_track(run, plan),
{
    reveal(on_track);
    reveal(follows);
    assert forall|i: int| 0 <= i < run.len() implies (#[trigger] run[i]).fault() is None by {
        if i == run.len() - 1 {
            assert(run[i] == run.last());
        }
    }
}

/// One plan after another: where the first was carried out without error,
/// the run of the first followed by the run of the second carries out both.
pub proof fn lemma_follows_append<SPI, HAL>(
    first: Seq<Event<SPI, HAL>>,
    first_plan: Seq<Request>,
    second: Seq<Event<SPI, HAL>>,
    second_plan: Seq<Request>,
)
    requires
        follows(first, first_plan),
        stopped_by(first) is None,
        follows(second, second_plan),
    ensures
        follows(first + second, first_plan + second_plan),
        stopped_by(first + second) == stopped_by(second),
{
    reveal(on_track);
    reveal(follows);
    lemma_unstopped_is_whole(first, first_plan);
    let run = first + second;
    let plan = first_plan + second_plan;
    assert forall|i: int| 0 <= i < run.len() implies (#[trigger] run[i]).request == plan[i]
        && run[i].sound() by {
        if i < first.len() {
            assert(run[i] == first[i]);
        } else {
            assert(run[i] == second[i - first.len()]);
        }
    }
    assert forall|i: int| 0 <= i < run.len() - 1 implies (#[trigger] run[i]).fault() is None by {
        if i < first.len() {
            assert(run[i] == first[i]);
        } else {
            assert(run[i] == second[i - first.len()]);
        }
    }
    if second.len() > 0 {
        assert(run.last() == second.last());
    } else {
        assert(run =~= first);
    }
}

/// A plan that stopped: nothing of what was planned after it is done.
pub proof fn lemma_follows_cut<SPI, HAL>(
    run: Seq<Event<SPI, HAL>>,
    plan: Seq<Request>,
    rest: Seq<Request>,
)
    requires
        follows(run, plan),
        stopped_by(run) is Some,
    ensures
        follows(run, plan + rest),
{
    reveal(on_track);
    reveal(follows);
    assert forall|i: int| 0 <= i < run.len() implies (#[trigger] run[i]).request == (plan
        + rest)[i] by {
        assert(run[i].request == plan[i]);
    }
}

/// What was recorded after `before`, where `before` is a beginning of
/// `trace`.
pub open spec fn recorded_since<SPI, HAL>(
    trace: Seq<Event<SPI, HAL>>,
    before: Seq<Event<SPI, HAL>>,
) -> Seq<Event<SPI, HAL>> {
    trace.skip(before.len() as int)
}

/// What was recorded since an earlier moment is what was recorded up to a
/// moment between, followed by what was recorded since then.
pub proof fn lemma_recorded_since<SPI, HAL>(
    start: Seq<Event<SPI, HAL>>,
    middle: Seq<Event<SPI, HAL>>,
    end: Seq<Event<SPI, HAL>>,
)
    requires
        start.is_prefix_of(middle),
        middle.is_prefix_of(end),
    ensures
        start.is_prefix_of(end),
        recorded_since(end, start) == recorded_since(middle, start) + recorded_since(end, middle),
{
    assert(start.is_prefix_of(end)) by {
        assert forall|i: int| 0 <= i < start.len() implies start[i] == end[i] by {
            assert(start[i] == middle[i]);
            assert(middle[i] == end[i]);
        }
    }
    assert(recorded_since(end, start) =~= recorded_since(middle, start) + recorded_since(
        end,
        middle,
    ));
}

/// A run on track in a plan is on track in any plan that begins with it.
pub proof fn lemma_on_track_longer<SPI, HAL>(
    run: Seq<Event<SPI, HAL>>,
    plan: Seq<Request>,
    longer: Seq<Request>,
)
    requires
        on_track(run, plan),
        plan.is_prefix_of(longer),
    ensures
        on_track(run, longer),
{
    reveal(on_track);
    reveal(follows);
    assert forall|i: int| 0 <= i < run.len() implies (#[trigger] run[i]).request == longer[i] by {
        assert(run[i].request == plan[i]);
        assert(plan[i] == longer[i]);
    }
}

/// A run that carried out a plan and was stopped has carried out any plan
/// that begins with it.
pub proof fn lemma_follows_longer<SPI, HAL>(
    run: Seq<Event<SPI, HAL>>,
    plan: Seq<Request>,
    longer: Seq<Request>,
)
    requires
        follows(run, plan),
        stopped_by(run) is Some,
        plan.is_prefix_of(longer),
    ensures
        follows(run, longer),
{
    reveal(on_track);
    reveal(follows);
    assert forall|i: int| 0 <= i < run.len() implies (#[trigger] run[i]).request == longer[i] by {
        assert(run[i].request == plan[i]);
        assert(plan[i] == longer[i]);
    }
}

/// Recording one more answer: what it does to a plan under way.
pub proof fn lemma_record<SPI, HAL>(
    start: Seq<Event<SPI, HAL>>,
    trace: Seq<Event<SPI, HAL>>,
    plan: Seq<Request>,
    event: Event<SPI, HAL>,
)
    requires
        start.is_prefix_of(trace),
        on_track(recorded_since(trace, start), plan),
        recorded_since(trace, start).len() < plan.len(),
        event.request == plan[recorded_since(trace, start).len() as int],
        event.sound(),
    ensures
        start.is_prefix_of(trace.push(event)),
        recorded_since(trace.push(event), start) == recorded_since(trace, start).push(event),
        recorded_since(trace.push(event), start).drop_last() == recorded_since(trace, start),
        event.fault() is None ==> on_track(recorded_since(trace.push(event), start), plan),
        event.fault() is Some ==> follows(recorded_since(trace.push(event), start), plan)
            && stopped_by(recorded_since(trace.push(event), start)) == event.fault(),
{
    assert(recorded_since(trace.push(event), start) =~= recorded_since(trace, start).push(event));
    assert(recorded_since(trace, start).push(event).drop_last() =~= recorded_since(trace, start));
    lemma_step(recorded_since(trace, start), plan, event);
}

} // verus!
