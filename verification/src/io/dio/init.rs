//! Bringing the output side of the six banks into service.
//!
//! On each port expander the ports 4 to 11 enable the eight outputs, the
//! ports 12 to 19 read their status, 20 and 21 sense the supply and 22 and 23
//! the temperature. The input chips need no configuration.

use vstd::prelude::*;
use crate::io::bus::{stopped_by, unit_outcome, DelayUs, Event, OutputPin, Request, TkrtSpi};
use crate::io::dio::Dio;
use crate::io::plan::{
    config_bits_plan, configure_input_plan, configure_output_plan, select_plan, wakeup_plan,
};
use crate::io::sense::{HOT_PORT, SUPPLY_12V_PORT, SUPPLY_24V_PORT, WARM_PORT};
use crate::io::types::{IoBank, IoError, IoLevel, IoType};

verus! {

/// Number of banks.
pub const BANKS: u8 = 6;

/// Number of outputs of a bank.
pub const OUTPUTS: u8 = 8;

/// The lowest of the ports that enable the outputs.
pub const ENABLE_BASE: u8 = 4;

/// The lowest of the ports that read the status of the outputs.
pub const STATUS_BASE: u8 = 12;

/// Whether `a` and `b` begin with the same `count` events.
pub open spec fn same_upto<T>(a: Seq<T>, b: Seq<T>, count: int) -> bool {
    &&& count <= a.len()
    &&& count <= b.len()
    &&& forall|i: int| 0 <= i < count ==> a[i] == b[i]
}

/// Configuring output `index`, counted from 0: its enable port becomes an
/// output at high impedance, and its status port an input with pull-up.
pub open spec fn channel_plan<SPI, HAL>(index: int, run: Seq<Event<SPI, HAL>>) -> Seq<Request> {
    configure_output_plan((4 + index) as u8, IoLevel::HiZ, run) + configure_input_plan(
        (12 + index) as u8,
        true,
        run.skip(28),
    )
}

/// Configuring the first `count` outputs of a bank, one after the other.
pub open spec fn channels_plan<SPI, HAL>(count: nat, run: Seq<Event<SPI, HAL>>) -> Seq<Request>
    decreases count,
{
    if count == 0 {
        Seq::empty()
    } else {
        channels_plan((count - 1) as nat, run) + channel_plan(
            count - 1,
            run.skip(49 * (count - 1)),
        )
    }
}

/// Configuring the sense lines of a bank: the two supply lines become
/// inputs without pull-up, the two temperature lines inputs with pull-up.
pub open spec fn senses_plan<SPI, HAL>(run: Seq<Event<SPI, HAL>>) -> Seq<Request> {
    configure_input_plan(20, false, run) + configure_input_plan(21, false, run.skip(21))
        + configure_input_plan(22, true, run.skip(42)) + configure_input_plan(
        23,
        true,
        run.skip(63),
    )
}

/// Bringing `bank` into service: the bus is routed to its port expander,
/// the eight outputs and the sense lines are configured, and the chip is
/// woken without interrupts.
pub open spec fn bank_init_plan<SPI, HAL>(bank: IoBank, run: Seq<Event<SPI, HAL>>) -> Seq<
    Request,
> {
    select_plan(IoType::DigitalOut, bank) + channels_plan(8, run.skip(5)) + senses_plan(
        run.skip(397),
    ) + wakeup_plan(false)
}

/// Bringing the banks 1 to `count` into service, one after the other.
pub open spec fn banks_init_plan<SPI, HAL>(count: nat, run: Seq<Event<SPI, HAL>>) -> Seq<Request>
    decreases count,
{
    if count == 0 {
        Seq::empty()
    } else {
        banks_init_plan((count - 1) as nat, run) + bank_init_plan(
            IoBank::numbered(count as int),
            run.skip(488 * (count - 1)),
        )
    }
}

/// Bringing all six banks into service.
pub open spec fn init_plan<SPI, HAL>(run: Seq<Event<SPI, HAL>>) -> Seq<Request> {
    banks_init_plan(6, run)
}

proof fn lemma_same_upto_skip<T>(a: Seq<T>, b: Seq<T>, count: int, skipped: int)
    requires
        same_upto(a, b, count),
        0 <= skipped <= count,
    ensures
        same_upto(a.skip(skipped), b.skip(skipped), count - skipped),
{
    assert forall|i: int| 0 <= i < count - skipped implies a.skip(skipped)[i] == b.skip(
        skipped,
    )[i] by {
        assert(a[i + skipped] == b[i + skipped]);
    }
}

proof fn lemma_same_upto_prefix<T>(whole: Seq<T>, begin: Seq<T>, count: int)
    requires
        begin.is_prefix_of(whole),
        0 <= count <= begin.len(),
    ensures
        same_upto(whole, begin, count),
{
}

proof fn lemma_part_stable<T>(run: Seq<T>, at: int, part: Seq<T>)
    requires
        0 <= at,
        at + part.len() <= run.len(),
        run.subrange(at, at + part.len()) == part,
    ensures
        same_upto(run.skip(at), part, part.len() as int),
{
    assert forall|i: int| 0 <= i < part.len() implies run.skip(at)[i] == part[i] by {
        assert(run.subrange(at, at + part.len())[i] == run[at + i]);
    }
}

proof fn lemma_channels_len<SPI, HAL>(count: nat, run: Seq<Event<SPI, HAL>>)
    requires
        count <= 8,
    ensures
        channels_plan(count, run).len() == 49 * count,
    decreases count,
{
    if count > 0 {
        lemma_channels_len((count - 1) as nat, run);
    }
}

proof fn lemma_bank_len<SPI, HAL>(bank: IoBank, run: Seq<Event<SPI, HAL>>)
    ensures
        bank_init_plan(bank, run).len() == 488,
{
    lemma_channels_len(8, run.skip(5));
}

proof fn lemma_banks_len<SPI, HAL>(count: nat, run: Seq<Event<SPI, HAL>>)
    ensures
        banks_init_plan(count, run).len() == 488 * count,
    decreases count,
{
    if count > 0 {
        lemma_banks_len((count - 1) as nat, run);
        lemma_bank_len(IoBank::numbered(count as int), run.skip(488 * (count - 1)));
    }
}

proof fn lemma_config_bits_stable<SPI, HAL>(
    port: u8,
    bits: u8,
    a: Seq<Event<SPI, HAL>>,
    b: Seq<Event<SPI, HAL>>,
)
    requires
        same_upto(a, b, 21),
    ensures
        config_bits_plan(port, bits, a) == config_bits_plan(port, bits, b),
        configure_input_plan(port, bits == 3, a) == configure_input_plan(port, bits == 3, b),
{
    assert(a[10] == b[10]);
}

proof fn lemma_configure_output_stable<SPI, HAL>(
    port: u8,
    level: IoLevel,
    a: Seq<Event<SPI, HAL>>,
    b: Seq<Event<SPI, HAL>>,
)
    requires
        same_upto(a, b, 28),
    ensures
        configure_output_plan(port, level, a) == configure_output_plan(port, level, b),
{
    lemma_same_upto_skip(a, b, 28, 7);
    lemma_config_bits_stable(port, 0x01, a.skip(7), b.skip(7));
}

proof fn lemma_channel_stable<SPI, HAL>(
    index: int,
    a: Seq<Event<SPI, HAL>>,
    b: Seq<Event<SPI, HAL>>,
)
    requires
        same_upto(a, b, 49),
    ensures
        channel_plan(index, a) == channel_plan(index, b),
{
    lemma_configure_output_stable((4 + index) as u8, IoLevel::HiZ, a, b);
    lemma_same_upto_skip(a, b, 49, 28);
    lemma_config_bits_stable((12 + index) as u8, 0x03, a.skip(28), b.skip(28));
}

proof fn lemma_channels_stable<SPI, HAL>(
    count: nat,
    a: Seq<Event<SPI, HAL>>,
    b: Seq<Event<SPI, HAL>>,
)
    requires
        same_upto(a, b, 49 * (count as int)),
    ensures
        channels_plan(count, a) == channels_plan(count, b),
    decreases count,
{
    if count > 0 {
        lemma_channels_stable((count - 1) as nat, a, b);
        lemma_same_upto_skip(a, b, 49 * (count as int), 49 * (count - 1));
        lemma_channel_stable(count - 1, a.skip(49 * (count - 1)), b.skip(49 * (count - 1)));
    }
}

proof fn lemma_senses_stable<SPI, HAL>(a: Seq<Event<SPI, HAL>>, b: Seq<Event<SPI, HAL>>)
    requires
        same_upto(a, b, 84),
    ensures
        senses_plan(a) == senses_plan(b),
{
    lemma_config_bits_stable(20, 0x02, a, b);
    lemma_same_upto_skip(a, b, 84, 21);
    lemma_config_bits_stable(21, 0x02, a.skip(21), b.skip(21));
    lemma_same_upto_skip(a, b, 84, 42);
    lemma_config_bits_stable(22, 0x03, a.skip(42), b.skip(42));
    lemma_same_upto_skip(a, b, 84, 63);
    lemma_config_bits_stable(23, 0x03, a.skip(63), b.skip(63));
}

proof fn lemma_bank_stable<SPI, HAL>(
    bank: IoBank,
    a: Seq<Event<SPI, HAL>>,
    b: Seq<Event<SPI, HAL>>,
)
    requires
        same_upto(a, b, 488),
    ensures
        bank_init_plan(bank, a) == bank_init_plan(bank, b),
{
    lemma_same_upto_skip(a, b, 488, 5);
    lemma_channels_stable(8, a.skip(5), b.skip(5));
    lemma_same_upto_skip(a, b, 488, 397);
    lemma_senses_stable(a.skip(397), b.skip(397));
}

proof fn lemma_banks_stable<SPI, HAL>(
    count: nat,
    a: Seq<Event<SPI, HAL>>,
    b: Seq<Event<SPI, HAL>>,
)
    requires
        same_upto(a, b, 488 * (count as int)),
    ensures
        banks_init_plan(count, a) == banks_init_plan(count, b),
    decreases count,
{
    if count > 0 {
        lemma_banks_stable((count - 1) as nat, a, b);
        lemma_same_upto_skip(a, b, 488 * (count as int), 488 * (count - 1));
        lemma_bank_stable(
            IoBank::numbered(count as int),
            a.skip(488 * (count - 1)),
            b.skip(488 * (count - 1)),
        );
    }
}

/// The plan of an output over a run in two parts.
proof fn lemma_channel_parts<SPI, HAL>(
    index: int,
    a: Seq<Event<SPI, HAL>>,
    b: Seq<Event<SPI, HAL>>,
)
    requires
        a.len() == 28,
    ensures
        channel_plan(index, a + b) == configure_output_plan((4 + index) as u8, IoLevel::HiZ, a)
            + configure_input_plan((12 + index) as u8, true, b),
{
    let run = a + b;
    lemma_same_upto_prefix(run, a, 28);
    lemma_configure_output_stable((4 + index) as u8, IoLevel::HiZ, run, a);
    assert(run.skip(28) =~= b);
}

/// The plan of one more output, over the run of the outputs before and the
/// run of this one.
proof fn lemma_channels_next<SPI, HAL>(
    count: nat,
    first: Seq<Event<SPI, HAL>>,
    second: Seq<Event<SPI, HAL>>,
)
    requires
        first.len() == 49 * count,
    ensures
        channels_plan(count + 1, first + second) == channels_plan(count, first) + channel_plan(
            count as int,
            second,
        ),
{
    let run = first + second;
    lemma_same_upto_prefix(run, first, 49 * (count as int));
    lemma_channels_stable(count, run, first);
    assert(run.skip(49 * (count as int)) =~= second);
}

/// The plan of one more bank, over the run of the banks before and the run
/// of this one.
proof fn lemma_banks_next<SPI, HAL>(
    count: nat,
    first: Seq<Event<SPI, HAL>>,
    second: Seq<Event<SPI, HAL>>,
)
    requires
        first.len() == 488 * count,
    ensures
        banks_init_plan(count + 1, first + second) == banks_init_plan(count, first)
            + bank_init_plan(IoBank::numbered((count + 1) as int), second),
{
    let run = first + second;
    lemma_same_upto_prefix(run, first, 488 * (count as int));
    lemma_banks_stable(count, run, first);
    assert(run.skip(488 * (count as int)) =~= second);
}

/// The plan of the sense lines over a run that has configured the first.
proof fn lemma_senses_second<SPI, HAL>(a: Seq<Event<SPI, HAL>>, b: Seq<Event<SPI, HAL>>)
    requires
        a.len() == 21,
    ensures
        senses_plan(a + b) == configure_input_plan(20, false, a) + configure_input_plan(
            21,
            false,
            b,
        ) + configure_input_plan(22, true, (a + b).skip(42)) + configure_input_plan(
            23,
            true,
            (a + b).skip(63),
        ),
{
    let run = a + b;
    lemma_same_upto_prefix(run, a, 21);
    lemma_config_bits_stable(20, 0x02, run, a);
    assert(run.skip(21) =~= b);
}

/// The plan of the sense lines over a run that has configured the first
/// two.
proof fn lemma_senses_third<SPI, HAL>(
    a: Seq<Event<SPI, HAL>>,
    b: Seq<Event<SPI, HAL>>,
    c: Seq<Event<SPI, HAL>>,
)
    requires
        a.len() == 21,
        b.len() == 21,
    ensures
        senses_plan(a + b + c) == configure_input_plan(20, false, a) + configure_input_plan(
            21,
            false,
            b,
        ) + configure_input_plan(22, true, c) + configure_input_plan(
            23,
            true,
            (a + b + c).skip(63),
        ),
{
    let run = a + b + c;
    assert(a.is_prefix_of(run));
    lemma_same_upto_prefix(run, a, 21);
    lemma_config_bits_stable(20, 0x02, run, a);
    assert(run.subrange(21, 42) =~= b);
    lemma_part_stable(run, 21, b);
    lemma_config_bits_stable(21, 0x02, run.skip(21), b);
    assert(run.skip(42) =~= c);
}

/// The plan of the sense lines over a run that has configured the first
/// three.
proof fn lemma_senses_fourth<SPI, HAL>(
    a: Seq<Event<SPI, HAL>>,
    b: Seq<Event<SPI, HAL>>,
    c: Seq<Event<SPI, HAL>>,
    d: Seq<Event<SPI, HAL>>,
)
    requires
        a.len() == 21,
        b.len() == 21,
        c.len() == 21,
    ensures
        senses_plan(a + b + c + d) == configure_input_plan(20, false, a) + configure_input_plan(
            21,
            false,
            b,
        ) + configure_input_plan(22, true, c) + configure_input_plan(23, true, d),
{
    let run = a + b + c + d;
    assert(a.is_prefix_of(run));
    lemma_same_upto_prefix(run, a, 21);
    lemma_config_bits_stable(20, 0x02, run, a);
    assert(run.subrange(21, 42) =~= b);
    lemma_part_stable(run, 21, b);
    lemma_config_bits_stable(21, 0x02, run.skip(21), b);
    assert(run.subrange(42, 63) =~= c);
    lemma_part_stable(run, 42, c);
    lemma_config_bits_stable(22, 0x03, run.skip(42), c);
    assert(run.skip(63) =~= d);
}

/// The plan of a bank over a run that has routed the bus.
proof fn lemma_bank_second<SPI, HAL>(
    bank: IoBank,
    a: Seq<Event<SPI, HAL>>,
    b: Seq<Event<SPI, HAL>>,
)
    requires
        a.len() == 5,
    ensures
        bank_init_plan(bank, a + b) == select_plan(IoType::DigitalOut, bank) + channels_plan(8, b)
            + senses_plan((a + b).skip(397)) + wakeup_plan(false),
{
    assert((a + b).skip(5) =~= b);
}

/// The plan of a bank over a run that has configured the outputs.
proof fn lemma_bank_third<SPI, HAL>(
    bank: IoBank,
    a: Seq<Event<SPI, HAL>>,
    b: Seq<Event<SPI, HAL>>,
    c: Seq<Event<SPI, HAL>>,
)
    requires
        a.len() == 5,
        b.len() == 392,
    ensures
        bank_init_plan(bank, a + b + c) == select_plan(IoType::DigitalOut, bank) + channels_plan(
            8,
            b,
        ) + senses_plan(c) + wakeup_plan(false),
{
    let run = a + b + c;
    assert(run.subrange(5, 397) =~= b);
    lemma_part_stable(run, 5, b);
    lemma_channels_stable(8, run.skip(5), b);
    assert(run.skip(397) =~= c);
}

/// The plan of a bank over a run that has configured the outputs and the
/// sense lines.
proof fn lemma_bank_fourth<SPI, HAL>(
    bank: IoBank,
    a: Seq<Event<SPI, HAL>>,
    b: Seq<Event<SPI, HAL>>,
    c: Seq<Event<SPI, HAL>>,
    d: Seq<Event<SPI, HAL>>,
)
    requires
        a.len() == 5,
        b.len() == 392,
        c.len() == 84,
    ensures
        bank_init_plan(bank, a + b + c + d) == select_plan(IoType::DigitalOut, bank)
            + channels_plan(8, b) + senses_plan(c) + wakeup_plan(false),
{
    let run = a + b + c + d;
    assert(run.subrange(5, 397) =~= b);
    lemma_part_stable(run, 5, b);
    lemma_channels_stable(8, run.skip(5), b);
    assert(run.subrange(397, 481) =~= c);
    lemma_part_stable(run, 397, c);
    lemma_senses_stable(run.skip(397), c);
}

proof fn lemma_channels_begin<SPI, HAL>(count: nat, more: nat, run: Seq<Event<SPI, HAL>>)
    requires
        count <= more,
    ensures
        channels_plan(count, run).is_prefix_of(channels_plan(more, run)),
    decreases more,
{
    if count < more {
        lemma_channels_begin(count, (more - 1) as nat, run);
    }
}

proof fn lemma_banks_begin<SPI, HAL>(count: nat, more: nat, run: Seq<Event<SPI, HAL>>)
    requires
        count <= more,
    ensures
        banks_init_plan(count, run).is_prefix_of(banks_init_plan(more, run)),
    decreases more,
{
    if count < more {
        lemma_banks_begin(count, (more - 1) as nat, run);
    }
}

impl<SPI, NCS, SEL0, SEL1, SEL2, SEL3, LD, DELAY, SPIE, CSE> Dio<
    SPI,
    NCS,
    SEL0,
    SEL1,
    SEL2,
    SEL3,
    LD,
    DELAY,
> where
    SPI: TkrtSpi<Error = SPIE>,
    NCS: OutputPin<Error = CSE>,
    SEL0: OutputPin<Error = CSE>,
    SEL1: OutputPin<Error = CSE>,
    SEL2: OutputPin<Error = CSE>,
    SEL3: OutputPin<Error = CSE>,
    LD: OutputPin<Error = CSE>,
    DELAY: DelayUs,
 {
    /// Configures output `index`, counted from 0, of the port expander that
    /// the bus is routed to.
    pub(crate) fn init_channel(&mut self, index: u8) -> (res: Result<(), IoError<SPIE, CSE>>)
        requires
            index < 8,
        ensures
            final(self).carried_out(
                *old(self),
                channel_plan(index as int, final(self).since(*old(self))),
            ),
            res == unit_outcome(final(self).since(*old(self))),
    {
        let ghost before = *self;
        match self.max7301_configure_output(ENABLE_BASE + index, IoLevel::HiZ) {
            Ok(()) => {},
            Err(e) => {
                proof {
                    let run = self.since(before);
                    self.lemma_cut(
                        before,
                        configure_output_plan((4 + index) as u8, IoLevel::HiZ, run),
                        configure_input_plan((12 + index) as u8, true, run.skip(28)),
                    );
                }
                return Err(e);
            },
        }
        let ghost middle = *self;
        let ghost a = middle.since(before);
        let res = self.max7301_configure_input(STATUS_BASE + index, true);
        proof {
            let b = self.since(middle);
            self.lemma_then(
                before,
                middle,
                configure_output_plan((4 + index) as u8, IoLevel::HiZ, a),
                configure_input_plan((12 + index) as u8, true, b),
            );
            lemma_channel_parts(index as int, a, b);
        }
        res
    }

    /// Configures the eight outputs of the port expander that the bus is
    /// routed to, from the first to the last.
    pub(crate) fn init_channels(&mut self) -> (res: Result<(), IoError<SPIE, CSE>>)
        ensures
            final(self).carried_out(*old(self), channels_plan(8, final(self).since(*old(self)))),
            res == unit_outcome(final(self).since(*old(self))),
    {
        let ghost before = *self;
        proof {
            self.lemma_since_self();
        }
        let mut index: u8 = 0;
        while index < OUTPUTS
            invariant
                index <= 8,
                before == *old(self),
                self.carried_out(before, channels_plan(index as nat, self.since(before))),
                stopped_by(self.since(before)) is None,
            decreases 8 - index,
        {
            let ghost started = *self;
            let ghost first = started.since(before);
            let res = self.init_channel(index);
            proof {
                let second = self.since(started);
                self.lemma_then(
                    before,
                    started,
                    channels_plan(index as nat, first),
                    channel_plan(index as int, second),
                );
                lemma_channels_len(index as nat, first);
                lemma_channels_next(index as nat, first, second);
            }
            match res {
                Ok(()) => {},
                Err(e) => {
                    proof {
                        let run = self.since(before);
                        lemma_channels_begin((index + 1) as nat, 8, run);
                        self.lemma_stop(
                            before,
                            channels_plan((index + 1) as nat, run),
                            channels_plan(8, run),
                        );
                    }
                    return Err(e);
                },
            }
            index = index + 1;
        }
        Ok(())
    }

    /// Configures the supply and temperature sense lines of the port
    /// expander that the bus is routed to.
    pub(crate) fn init_senses(&mut self) -> (res: Result<(), IoError<SPIE, CSE>>)
        ensures
            final(self).carried_out(*old(self), senses_plan(final(self).since(*old(self)))),
            res == unit_outcome(final(self).since(*old(self))),
    {
        let ghost before = *self;
        match self.max7301_configure_input(SUPPLY_24V_PORT, false) {
            Ok(()) => {},
            Err(e) => {
                proof {
                    let run = self.since(before);
                    let plan_a = configure_input_plan(20, false, run);
                    let plan_b = configure_input_plan(21, false, run.skip(21));
                    let plan_c = configure_input_plan(22, true, run.skip(42));
                    let plan_d = configure_input_plan(23, true, run.skip(63));
                    self.lemma_cut(before, plan_a, plan_b);
                    self.lemma_cut(before, plan_a + plan_b, plan_c);
                    self.lemma_cut(before, plan_a + plan_b + plan_c, plan_d);
                }
                return Err(e);
            },
        }
        let ghost first = *self;
        let ghost a = first.since(before);
        let ghost plan_a = configure_input_plan(20, false, a);
        let res = self.max7301_configure_input(SUPPLY_12V_PORT, false);
        let ghost second = *self;
        let ghost b = second.since(first);
        let ghost plan_b = configure_input_plan(21, false, b);
        proof {
            self.lemma_then(before, first, plan_a, plan_b);
            lemma_senses_second(a, b);
        }
        match res {
            Ok(()) => {},
            Err(e) => {
                proof {
                    let run = self.since(before);
                    let plan_c = configure_input_plan(22, true, run.skip(42));
                    let plan_d = configure_input_plan(23, true, run.skip(63));
                    self.lemma_cut(before, plan_a + plan_b, plan_c);
                    self.lemma_cut(before, plan_a + plan_b + plan_c, plan_d);
                }
                return Err(e);
            },
        }
        let res = self.max7301_configure_input(HOT_PORT, true);
        let ghost third = *self;
        let ghost c = third.since(second);
        let ghost plan_c = configure_input_plan(22, true, c);
        proof {
            self.lemma_then(before, second, plan_a + plan_b, plan_c);
            lemma_senses_third(a, b, c);
        }
        match res {
            Ok(()) => {},
            Err(e) => {
                proof {
                    let run = self.since(before);
                    let plan_d = configure_input_plan(23, true, run.skip(63));
                    self.lemma_cut(before, plan_a + plan_b + plan_c, plan_d);
                }
                return Err(e);
            },
        }
        let res = self.max7301_configure_input(WARM_PORT, true);
        proof {
            let d = self.since(third);
            self.lemma_then(
                before,
                third,
                plan_a + plan_b + plan_c,
                configure_input_plan(23, true, d),
            );
            lemma_senses_fourth(a, b, c, d);
        }
        res
    }

    /// Brings the output side of `bank` into service.
    pub(crate) fn init_bank(&mut self, bank: IoBank) -> (res: Result<(), IoError<SPIE, CSE>>)
        ensures
            final(self).carried_out(
                *old(self),
                bank_init_plan(bank, final(self).since(*old(self))),
            ),
            res == unit_outcome(final(self).since(*old(self))),
    {
        let ghost before = *self;
        let ghost selecting = select_plan(IoType::DigitalOut, bank);
        let ghost waking = wakeup_plan(false);
        match self.select_io_bank(IoType::DigitalOut, bank) {
            Ok(()) => {},
            Err(e) => {
                proof {
                    let run = self.since(before);
                    let channels = channels_plan(8, run.skip(5));
                    let senses = senses_plan(run.skip(397));
                    self.lemma_cut(before, selecting, channels);
                    self.lemma_cut(before, selecting + channels, senses);
                    self.lemma_cut(before, selecting + channels + senses, waking);
                }
                return Err(e);
            },
        }
        let ghost selected = *self;
        let ghost a = selected.since(before);
        let res = self.init_channels();
        let ghost configured = *self;
        let ghost b = configured.since(selected);
        let ghost channels = channels_plan(8, b);
        proof {
            self.lemma_then(before, selected, selecting, channels);
            lemma_bank_second(bank, a, b);
        }
        match res {
            Ok(()) => {},
            Err(e) => {
                proof {
                    let senses = senses_plan(self.since(before).skip(397));
                    self.lemma_cut(before, selecting + channels, senses);
                    self.lemma_cut(before, selecting + channels + senses, waking);
                }
                return Err(e);
            },
        }
        let res = self.init_senses();
        let ghost sensed = *self;
        let ghost c = sensed.since(configured);
        let ghost senses = senses_plan(c);
        proof {
            self.lemma_then(before, configured, selecting + channels, senses);
            lemma_channels_len(8, b);
            lemma_bank_third(bank, a, b, c);
        }
        match res {
            Ok(()) => {},
            Err(e) => {
                proof {
                    self.lemma_cut(before, selecting + channels + senses, waking);
                }
                return Err(e);
            },
        }
        let res = self.max7301_wakeup(false);
        proof {
            let d = self.since(sensed);
            self.lemma_then(before, sensed, selecting + channels + senses, waking);
            lemma_bank_fourth(bank, a, b, c, d);
        }
        res
    }

    /// Brings the output side of all six banks into service, bank 1 first.
    ///
    /// On each bank the bus is routed to the port expander; the ports 4 to
    /// 11, which enable the outputs, become outputs at high impedance and
    /// the ports 12 to 19, which read their status, inputs with pull-up,
    /// output by output; the supply sense ports 20 and 21 become inputs
    /// without pull-up and the temperature ports 22 and 23 inputs with
    /// pull-up; then the chip is woken without interrupts. The first error
    /// of a pin or of the bus ends the work and is returned; what was
    /// configured until then stays.
    pub fn init(&mut self) -> (res: Result<(), IoError<SPIE, CSE>>)
        ensures
            final(self).carried_out(*old(self), init_plan(final(self).since(*old(self)))),
            res == unit_outcome(final(self).since(*old(self))),
    {
        let ghost before = *self;
        proof {
            self.lemma_since_self();
        }
        let mut done: u8 = 0;
        while done < BANKS
            invariant
                done <= 6,
                before == *old(self),
                self.carried_out(before, banks_init_plan(done as nat, self.since(before))),
                stopped_by(self.since(before)) is None,
            decreases 6 - done,
        {
            let bank = match IoBank::from_ordinal(done + 1) {
                Some(bank) => bank,
                None => {
                    return Ok(());
                },
            };
            let ghost started = *self;
            let ghost first = started.since(before);
            let res = self.init_bank(bank);
            proof {
                let second = self.since(started);
                self.lemma_then(
                    before,
                    started,
                    banks_init_plan(done as nat, first),
                    bank_init_plan(bank, second),
                );
                lemma_banks_len(done as nat, first);
                lemma_banks_next(done as nat, first, second);
            }
            match res {
                Ok(()) => {},
                Err(e) => {
                    proof {
                        let run = self.since(before);
                        lemma_banks_begin((done + 1) as nat, 6, run);
                        self.lemma_stop(
                            before,
                            banks_init_plan((done + 1) as nat, run),
                            banks_init_plan(6, run),
                        );
                    }
                    return Err(e);
                },
            }
            done = done + 1;
        }
        Ok(())
    }
}

} // verus!
