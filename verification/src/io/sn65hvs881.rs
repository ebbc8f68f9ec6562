//! Frame of the serial input chip on the input side of a bank.
//!
//! The chip answers one request with two bytes. The second byte arrives with
//! its bits in reverse order; mirrored and set above the first it gives a
//! word of 16 bits: eight inputs in bits 0 to 7, the temperature flag in
//! bit 8, the supply flag in bit 9, a parity bit in bit 10 and a fixed header
//! in bits 11 to 15.

use vstd::prelude::*;

verus! {

/// Mask of the header bits.
pub const HEADER_MASK: u16 = 0xF800;

/// What the header bits must hold.
pub const HEADER: u16 = 0x5000;

/// Number of bits that the parity bit guards: the inputs and the two flags.
pub const GUARDED_BITS: u8 = 10;

/// Place of the parity bit.
pub const PARITY_BIT: u8 = 10;

/// Place of the temperature flag; the flag is clear when the bank is hot.
pub const THERMAL_BIT: u8 = 8;

/// Place of the supply flag; the flag is set when the bank is powered.
pub const SUPPLY_BIT: u8 = 9;

/// The request that the chip answers with its frame.
pub open spec fn spec_request_frame() -> [u8; 2] {
    [0x50u8, 0x00u8]
}

/// The request that the chip answers with its frame.
#[verifier::when_used_as_spec(spec_request_frame)]
pub fn request_frame() -> (frame: [u8; 2])
    ensures
        frame == spec_request_frame(),
{
    [0x50u8, 0x00u8]
}

/// Bit `index` of a byte.
pub open spec fn byte_bit(byte: u8, index: u8) -> bool {
    (byte >> index) & 1 == 1
}

/// Bit `index` of a word.
pub open spec fn spec_word_bit(word: u16, index: u8) -> bool {
    (word >> index) & 1 == 1
}

/// Bit `index` of a word.
#[verifier::when_used_as_spec(spec_word_bit)]
pub fn word_bit(word: u16, index: u8) -> (set: bool)
    requires
        index < 16,
    ensures
        set == spec_word_bit(word, index),
{
    assert((word & (1u16 << index) != 0) == ((word >> index) & 1 == 1)) by (bit_vector)
        requires
            index < 16,
    ;
    word & (1u16 << index) != 0
}

/// The byte with the bits of `byte` in reverse order.
pub open spec fn spec_reverse_bits(byte: u8) -> u8 {
    ((byte & 0x01) << 7) | ((byte & 0x02) << 5) | ((byte & 0x04) << 3) | ((byte & 0x08) << 1) | ((
    byte & 0x10) >> 1) | ((byte & 0x20) >> 3) | ((byte & 0x40) >> 5) | ((byte & 0x80) >> 7)
}

/// The byte with the bits of `byte` in reverse order: bit 0 becomes bit 7,
/// bit 1 becomes bit 6, and so on.
#[verifier::when_used_as_spec(spec_reverse_bits)]
pub fn reverse_bits(byte: u8) -> (mirrored: u8)
    ensures
        mirrored == spec_reverse_bits(byte),
{
    let halves: u8 = (byte >> 4) | (byte << 4);
    let pairs: u8 = ((halves & 0xCC) >> 2) | ((halves & 0x33) << 2);
    let mirrored: u8 = ((pairs & 0xAA) >> 1) | ((pairs & 0x55) << 1);
    assert(mirrored == spec_reverse_bits(byte)) by (bit_vector)
        requires
            halves == (byte >> 4) | (byte << 4),
            pairs == ((halves & 0xCC) >> 2) | ((halves & 0x33) << 2),
            mirrored == ((pairs & 0xAA) >> 1) | ((pairs & 0x55) << 1),
    ;
    mirrored
}

/// Each bit of the mirrored byte is the bit of `byte` at the mirrored place.
pub proof fn lemma_reverse_bits(byte: u8, index: u8)
    requires
        index < 8,
    ensures
        byte_bit(reverse_bits(byte), index) == byte_bit(byte, (7 - index) as u8),
        reverse_bits(reverse_bits(byte)) == byte,
{
    assert(index < 8 ==> (spec_reverse_bits(byte) >> index) & 1 == (byte >> ((7 - index) as u8))
        & 1) by (bit_vector);
    assert(spec_reverse_bits(spec_reverse_bits(byte)) == byte) by (bit_vector);
}

/// The word of a frame: the second byte mirrored, above the first byte.
pub open spec fn spec_frame_word(reply: [u8; 2]) -> u16 {
    ((spec_reverse_bits(reply[1]) as u16) << 8) | (reply[0] as u16)
}

/// The word of a frame: the second byte mirrored, above the first byte.
#[verifier::when_used_as_spec(spec_frame_word)]
pub fn frame_word(reply: [u8; 2]) -> (word: u16)
    ensures
        word == spec_frame_word(reply),
{
    ((reverse_bits(reply[1]) as u16) << 8) | (reply[0] as u16)
}

/// The low byte of the word is the first byte of the frame, and the high
/// byte is the second byte of the frame read backwards.
pub proof fn lemma_frame_word_bits(reply: [u8; 2], index: u8)
    requires
        index < 8,
    ensures
        spec_word_bit(frame_word(reply), index) == byte_bit(reply[0], index),
        spec_word_bit(frame_word(reply), (8 + index) as u8) == byte_bit(
            reply[1],
            (7 - index) as u8,
        ),
{
    let low = reply[0];
    let high = reply[1];
    assert(index < 8 ==> (((((spec_reverse_bits(high) as u16) << 8) | (low as u16)) >> index) & 1
        == 1) == ((low >> index) & 1 == 1)) by (bit_vector);
    assert(index < 8 ==> (((((spec_reverse_bits(high) as u16) << 8) | (low as u16)) >> ((8
        + index) as u8)) & 1 == 1) == ((high >> ((7 - index) as u8)) & 1 == 1)) by (bit_vector);
}

/// How many of the bits 0 to `count - 1` of `word` are set.
pub open spec fn ones_below(word: u16, count: u8) -> nat
    decreases count,
{
    if count == 0 {
        0
    } else {
        ones_below(word, (count - 1) as u8) + if spec_word_bit(word, (count - 1) as u8) {
            1nat
        } else {
            0nat
        }
    }
}

/// How many of the bits 0 to `count - 1` of `word` are set.
pub fn count_ones_below(word: u16, count: u8) -> (ones: u8)
    requires
        count <= 16,
    ensures
        ones == ones_below(word, count),
        ones <= count,
{
    let mut ones: u8 = 0;
    let mut index: u8 = 0;
    while index < count
        invariant
            index <= count <= 16,
            ones == ones_below(word, index),
            ones <= index,
        decreases count - index,
    {
        if word_bit(word, index) {
            ones = ones + 1;
        }
        index = index + 1;
    }
    ones
}

/// Whether the header bits of `word` hold the header.
pub open spec fn header_ok(word: u16) -> bool {
    word & 0xF800 == 0x5000
}

/// Whether the parity bit of `word` fits the bits that it guards: together
/// with the parity bit, an odd number of them is set.
pub open spec fn parity_ok(word: u16) -> bool {
    ones_below(word, 10) % 2 != (if spec_word_bit(word, 10) {
        1nat
    } else {
        0nat
    })
}

/// Whether `word` is the word of a sound frame.
pub open spec fn spec_frame_ok(word: u16) -> bool {
    header_ok(word) && parity_ok(word)
}

/// Whether `word` is the word of a sound frame: the header is looked at
/// first, then the parity.
#[verifier::when_used_as_spec(spec_frame_ok)]
pub fn frame_ok(word: u16) -> (ok: bool)
    ensures
        ok == spec_frame_ok(word),
{
    let parity: u8 = if word_bit(word, PARITY_BIT) {
        1
    } else {
        0
    };
    if (word & HEADER_MASK) != HEADER {
        return false;
    }
    if count_ones_below(word, GUARDED_BITS) % 2 == parity {
        return false;
    }
    true
}

/// What a frame says of bit `index`: `None` where the frame is not sound,
/// else whether the bit is set.
pub open spec fn spec_decode_bit(reply: [u8; 2], index: u8) -> Option<bool> {
    if spec_frame_ok(spec_frame_word(reply)) {
        Some(spec_word_bit(spec_frame_word(reply), index))
    } else {
        None
    }
}

/// What a frame says of bit `index`, one of the eight inputs 0 to 7 or of
/// the two flags 8 and 9: `None` where the frame is not sound, else whether
/// the bit is set.
#[verifier::when_used_as_spec(spec_decode_bit)]
pub fn decode_bit(reply: [u8; 2], index: u8) -> (bit: Option<bool>)
    requires
        index <= 9,
    ensures
        bit == spec_decode_bit(reply, index),
{
    let word = frame_word(reply);
    if !frame_ok(word) {
        return None;
    }
    Some(word_bit(word, index))
}

/// A sound frame is decoded into the bit asked for; a frame whose header
/// does not fit is refused whatever its parity bit says, and so is one whose
/// header fits and whose parity does not.
pub proof fn lemma_decode_bit(reply: [u8; 2], index: u8)
    ensures
        header_ok(frame_word(reply)) && parity_ok(frame_word(reply)) ==> decode_bit(reply, index)
            == Some(spec_word_bit(frame_word(reply), index)),
        !header_ok(frame_word(reply)) ==> decode_bit(reply, index) is None,
        !parity_ok(frame_word(reply)) ==> decode_bit(reply, index) is None,
{
}

/// The header lies in the low five bits of the second byte of the frame,
/// which must read 0x0A.
pub proof fn lemma_header_in_second_byte(reply: [u8; 2])
    ensures
        header_ok(frame_word(reply)) <==> reply[1] & 0x1F == 0x0A,
{
    let low = reply[0];
    let high = reply[1];
    assert(((((spec_reverse_bits(high) as u16) << 8) | (low as u16)) & 0xF800 == 0x5000) == (high
        & 0x1F == 0x0A)) by (bit_vector);
}

/// How the count of set bits changes when bit `index` of `word` is flipped.
proof fn lemma_flip_changes_count(word: u16, index: u8, count: u8)
    requires
        index < 16,
        count <= 16,
    ensures
        ones_below(word ^ (1u16 << index), count) as int == ones_below(word, count) + (if index
            < count {
            if spec_word_bit(word, index) {
                -1int
            } else {
                1int
            }
        } else {
            0int
        }),
    decreases count,
{
    if count > 0 {
        let below = (count - 1) as u8;
        lemma_flip_changes_count(word, index, below);
        assert(((((word ^ (1u16 << index)) >> below) & 1) == 1) == (if below == index {
            !((word >> below) & 1 == 1)
        } else {
            (word >> below) & 1 == 1
        })) by (bit_vector)
            requires
                index < 16,
                below < 16,
        ;
    }
}

/// A sound frame with any one of its 16 bits flipped is not sound: a flip
/// among the inputs, the flags and the parity bit breaks the parity, and a
/// flip in the header breaks the header.
pub proof fn lemma_single_flip_detected(word: u16, index: u8)
    requires
        spec_frame_ok(word),
        index < 16,
    ensures
        !spec_frame_ok(word ^ (1u16 << index)),
{
    let flipped = word ^ (1u16 << index);
    lemma_flip_changes_count(word, index, 10);
    if index < 11 {
        assert(((flipped >> 10u8) & 1 == 1) == (if index == 10 {
            !((word >> 10u8) & 1 == 1)
        } else {
            (word >> 10u8) & 1 == 1
        })) by (bit_vector)
            requires
                index < 11,
                flipped == word ^ (1u16 << index),
        ;
    } else {
        assert(flipped & 0xF800 != 0x5000) by (bit_vector)
            requires
                11 <= index < 16,
                word & 0xF800 == 0x5000,
                flipped == word ^ (1u16 << index),
        ;
    }
}

} // verus!
