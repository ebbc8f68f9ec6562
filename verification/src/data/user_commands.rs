//! The commands of the user that wait to be applied.

use vstd::prelude::*;
use crate::commands::UserCommand;

verus! {

/// Number of commands that can wait; the oldest gives way to a new one.
pub const COMMANDS_BUFFER_SIZE: usize = 32;

/// `ConstGenericRingBuffer` of the ring buffer crate: a ring buffer of a
/// fixed capacity. Nothing of its inside is known here.
#[verifier::external_type_specification]
#[verifier::external_body]
#[verifier::reject_recursive_types(T)]
pub struct ExConstGenericRingBuffer<T, const CAP: usize>(ringbuffer::ConstGenericRingBuffer<T, CAP>);

/// The commands that a ring buffer holds, oldest first.
pub uninterp spec fn ring_contents(
    ring: ringbuffer::ConstGenericRingBuffer<UserCommand, COMMANDS_BUFFER_SIZE>,
) -> Seq<UserCommand>;

/// `Default::default` of `ringbuffer::ConstGenericRingBuffer`, which is its
/// `new`: a buffer with read and write position at zero, which holds
/// nothing. The contract claims that the new buffer holds no command.
#[verifier::external_body]
fn new_ring() -> (ring: ringbuffer::ConstGenericRingBuffer<UserCommand, COMMANDS_BUFFER_SIZE>)
    ensures
        ring_contents(ring) == Seq::<UserCommand>::empty(),
{
    ringbuffer::ConstGenericRingBuffer::default()
}

/// The commands of the user that wait to be applied.
pub struct UserCommands {
    commands: ringbuffer::ConstGenericRingBuffer<UserCommand, COMMANDS_BUFFER_SIZE>,
}

impl View for UserCommands {
    type V = Seq<UserCommand>;

    /// The commands that wait, oldest first.
    closed spec fn view(&self) -> Seq<UserCommand> {
        ring_contents(self.commands)
    }
}

impl Default for UserCommands {
    /// No command waits.
    fn default() -> (commands: Self)
        ensures
            commands@ == Seq::<UserCommand>::empty(),
    {
        UserCommands { commands: new_ring() }
    }
}

} // verus!
