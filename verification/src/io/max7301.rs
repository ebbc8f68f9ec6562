//! Register protocol of the port expander on the output side of a bank.
//!
//! The chip has 28 ports at register addresses 4 to 31. Every command is a
//! frame of two bytes: a register address, with the top bit set to read, and
//! a data byte. A port's mode is a field of two bits; four ports share one
//! configuration register.

use vstd::prelude::*;
use crate::io::types::IoLevel;

verus! {

/// The lowest port.
pub const PORT_MIN: u8 = 4;

/// The highest port.
pub const PORT_MAX: u8 = 31;

/// Mode bits of a push-pull output.
pub const MODE_OUTPUT: u8 = 0x01;

/// Mode bits of an input without pull-up.
pub const MODE_INPUT: u8 = 0x02;

/// Mode bits of an input with pull-up.
pub const MODE_INPUT_PULLUP: u8 = 0x03;

/// Whether `port` is a port of the chip.
pub open spec fn spec_is_port(port: u8) -> bool {
    4 <= port <= 31
}

/// Whether `port` is a port of the chip.
#[verifier::when_used_as_spec(spec_is_port)]
pub fn is_port(port: u8) -> (ok: bool)
    ensures
        ok == spec_is_port(port),
{
    PORT_MIN <= port && port <= PORT_MAX
}

/// The data byte that sets a port to `level`: 1 for high, 0 for high
/// impedance. The chip has no byte for an actively driven low.
pub open spec fn spec_level_data(level: IoLevel) -> Option<u8> {
    match level {
        IoLevel::High => Some(1u8),
        IoLevel::HiZ => Some(0u8),
        IoLevel::Low => None,
    }
}

/// The data byte that sets a port to `level`, if the chip has one.
#[verifier::when_used_as_spec(spec_level_data)]
pub fn level_data(level: IoLevel) -> (data: Option<u8>)
    ensures
        data == spec_level_data(level),
{
    match level {
        IoLevel::High => Some(1u8),
        IoLevel::HiZ => Some(0u8),
        IoLevel::Low => None,
    }
}

/// The level that a port's register value stands for: high unless zero.
pub open spec fn spec_level_of(value: u8) -> IoLevel {
    if value != 0 {
        IoLevel::High
    } else {
        IoLevel::Low
    }
}

/// The level that a port's register value stands for.
#[verifier::when_used_as_spec(spec_level_of)]
pub fn level_of(value: u8) -> (level: IoLevel)
    ensures
        level == spec_level_of(value),
{
    if value != 0 {
        IoLevel::High
    } else {
        IoLevel::Low
    }
}

/// The frame that writes `data` to the register of port `port`.
pub open spec fn spec_write_frame(port: u8, data: u8) -> [u8; 2] {
    [(0x20 + port) as u8, data]
}

/// The frame that writes `data` to the register of port `port`.
#[verifier::when_used_as_spec(spec_write_frame)]
pub fn write_frame(port: u8, data: u8) -> (frame: [u8; 2])
    requires
        is_port(port),
    ensures
        frame == spec_write_frame(port, data),
{
    [0x20 + port, data]
}

/// The frame that asks for the register of port `port`.
pub open spec fn spec_read_frame(port: u8) -> [u8; 2] {
    [(0xA0 + port) as u8, 0u8]
}

/// The frame that asks for the register of port `port`.
#[verifier::when_used_as_spec(spec_read_frame)]
pub fn read_frame(port: u8) -> (frame: [u8; 2])
    requires
        is_port(port),
    ensures
        frame == spec_read_frame(port),
{
    [0xA0 + port, 0u8]
}

/// The frame that does nothing; the chip answers it with the register that
/// the frame before asked for.
pub open spec fn spec_nop_frame() -> [u8; 2] {
    [0u8, 0u8]
}

/// The frame that does nothing.
#[verifier::when_used_as_spec(spec_nop_frame)]
pub fn nop_frame() -> (frame: [u8; 2])
    ensures
        frame == spec_nop_frame(),
{
    [0u8, 0u8]
}

/// The frame that asks for the configuration register of `port` and its
/// three neighbours.
pub open spec fn spec_config_read_frame(port: u8) -> [u8; 2] {
    [(0x88 + port / 4) as u8, 0u8]
}

/// The frame that asks for the configuration register of `port`.
#[verifier::when_used_as_spec(spec_config_read_frame)]
pub fn config_read_frame(port: u8) -> (frame: [u8; 2])
    ensures
        frame == spec_config_read_frame(port),
{
    [0x88 + port / 4, 0u8]
}

/// The frame that writes `value` to the configuration register of `port`
/// and its three neighbours.
pub open spec fn spec_config_write_frame(port: u8, value: u8) -> [u8; 2] {
    [(0x08 + port / 4) as u8, value]
}

/// The frame that writes `value` to the configuration register of `port`.
#[verifier::when_used_as_spec(spec_config_write_frame)]
pub fn config_write_frame(port: u8, value: u8) -> (frame: [u8; 2])
    ensures
        frame == spec_config_write_frame(port, value),
{
    [0x08 + port / 4, value]
}

/// The frame that wakes the chip: the chip's own configuration register,
/// with bit 0 for normal operation and bit 7 for interrupts.
pub open spec fn spec_wakeup_frame(en_irq: bool) -> [u8; 2] {
    [0x04u8, if en_irq { 0x81u8 } else { 0x01u8 }]
}

/// The frame that wakes the chip.
#[verifier::when_used_as_spec(spec_wakeup_frame)]
pub fn wakeup_frame(en_irq: bool) -> (frame: [u8; 2])
    ensures
        frame == spec_wakeup_frame(en_irq),
{
    if en_irq {
        assert(0x01u8 | 0x80u8 == 0x81u8) by (bit_vector);
        [0x04u8, 0x01u8 | 0x80u8]
    } else {
        [0x04u8, 0x01u8]
    }
}

/// Where the mode bits of `port` begin in its configuration register.
pub open spec fn config_shift(port: u8) -> u8 {
    ((port & 0x03) * 2) as u8
}

/// The mode bits of `port` in the value `register` of its configuration
/// register.
pub open spec fn spec_config_field(register: u8, port: u8) -> u8 {
    (register >> config_shift(port)) & 0x03
}

/// The mode bits of `port` in the value `register` of its configuration
/// register.
#[verifier::when_used_as_spec(spec_config_field)]
pub fn config_field(register: u8, port: u8) -> (bits: u8)
    ensures
        bits == spec_config_field(register, port),
        bits <= 3,
{
    assert(port & 0x03 <= 3) by (bit_vector);
    let shift: u8 = (port & 0x03) * 2;
    assert((register >> shift) & 0x03 <= 3) by (bit_vector);
    (register >> shift) & 0x03
}

/// The value `register` of a configuration register with the mode bits of
/// `port` replaced by the low two bits of `bits`.
pub open spec fn spec_with_config_bits(register: u8, port: u8, bits: u8) -> u8 {
    (register & !(0x03u8 << config_shift(port))) | ((bits & 0x03) << config_shift(port))
}

/// The value `register` of a configuration register with the mode bits of
/// `port` replaced by the low two bits of `bits`.
#[verifier::when_used_as_spec(spec_with_config_bits)]
pub fn with_config_bits(register: u8, port: u8, bits: u8) -> (value: u8)
    ensures
        value == spec_with_config_bits(register, port, bits),
{
    assert(port & 0x03 <= 3) by (bit_vector);
    let shift: u8 = (port & 0x03) * 2;
    let kept: u8 = register & !(0x03u8 << shift);
    kept | ((bits & 0x03) << shift)
}

/// Writing a port's mode bits and reading them back gives the bits written,
/// and the mode bits of the three ports that share the register stay as
/// they were.
pub proof fn lemma_config_bits_packing(register: u8, port: u8, bits: u8, other: u8)
    requires
        is_port(port),
        is_port(other),
        bits <= 3,
    ensures
        config_field(with_config_bits(register, port, bits), port) == bits,
        other / 4 == port / 4 && other != port ==> config_field(
            with_config_bits(register, port, bits),
            other,
        ) == config_field(register, other),
{
    assert(bits <= 3 ==> ((((register & !(0x03u8 << (((port & 0x03) * 2) as u8))) | ((bits & 0x03)
        << (((port & 0x03) * 2) as u8))) >> (((port & 0x03) * 2) as u8)) & 0x03) == bits)
        by (bit_vector);
    assert(other / 4 == port / 4 && other != port ==> ((((register & !(0x03u8 << (((port & 0x03)
        * 2) as u8))) | ((bits & 0x03) << (((port & 0x03) * 2) as u8))) >> (((other & 0x03)
        * 2) as u8)) & 0x03) == ((register >> (((other & 0x03) * 2) as u8)) & 0x03))
        by (bit_vector);
}

/// A configuration register is its four fields: two values with the same
/// mode bits at every place are the same value.
pub proof fn lemma_config_fields_determine_register(a: u8, b: u8)
    requires
        forall|slot: u8| slot < 4 ==> config_field(a, slot) == config_field(b, slot),
    ensures
        a == b,
{
    assert(config_field(a, 0) == config_field(b, 0));
    assert(config_field(a, 1) == config_field(b, 1));
    assert(config_field(a, 2) == config_field(b, 2));
    assert(config_field(a, 3) == config_field(b, 3));
    assert(((a >> (((0u8 & 0x03) * 2) as u8)) & 0x03) == ((b >> (((0u8 & 0x03) * 2) as u8)) & 0x03)
        && ((a >> (((1u8 & 0x03) * 2) as u8)) & 0x03) == ((b >> (((1u8 & 0x03) * 2) as u8))
        & 0x03) && ((a >> (((2u8 & 0x03) * 2) as u8)) & 0x03) == ((b >> (((2u8 & 0x03)
        * 2) as u8)) & 0x03) && ((a >> (((3u8 & 0x03) * 2) as u8)) & 0x03) == ((b >> (((3u8
        & 0x03) * 2) as u8)) & 0x03) ==> a == b) by (bit_vector);
}

/// On the chip's ports the register addresses are the same whether the
/// command bits are added or set: a port's address has no bit in common
/// with them.
pub proof fn lemma_frame_addresses(port: u8)
    requires
        is_port(port),
    ensures
        spec_write_frame(port, 0)[0] == 0x20u8 | port,
        spec_read_frame(port)[0] == 0xA0u8 | port,
        spec_config_write_frame(port, 0)[0] == 0x08u8 | (port >> 2),
        spec_config_read_frame(port)[0] == 0x80u8 | 0x08u8 | (port >> 2),
        0x09 <= spec_config_write_frame(port, 0)[0] <= 0x0F,
{
    assert(4 <= port <= 31 ==> (0x20 + port) as u8 == 0x20u8 | port) by (bit_vector);
    assert(4 <= port <= 31 ==> (0xA0 + port) as u8 == 0xA0u8 | port) by (bit_vector);
    assert(4 <= port <= 31 ==> (0x08 + port / 4) as u8 == 0x08u8 | (port >> 2)) by (bit_vector);
    assert(4 <= port <= 31 ==> (0x88 + port / 4) as u8 == 0x80u8 | 0x08u8 | (port >> 2))
        by (bit_vector);
}

} // verus!
