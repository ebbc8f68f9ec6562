//! Reading and driving a digital output in the state of the card.

use vstd::prelude::*;
use crate::board::{DigitalOutput, IoCustomError};
use crate::commands::{ButtonCommand, SwitchCommand};
use crate::io::types::IoLevel;
use crate::status::Wingman2HardwareStatus;

verus! {

/// The level that an output takes where the value to write is an error.
pub open spec fn spec_level_on_error(output: DigitalOutput) -> IoLevel {
    if output.value_on_error {
        IoLevel::High
    } else {
        IoLevel::Low
    }
}

/// The level that an output takes where the value to write is an error:
/// high or low, as the output is wired for.
pub fn level_on_error(output: &DigitalOutput) -> (level: IoLevel)
    ensures
        level == spec_level_on_error(*output),
{
    if output.value_on_error {
        IoLevel::High
    } else {
        IoLevel::Low
    }
}

/// The level that writing `value` sets.
pub open spec fn level_written(output: DigitalOutput, value: Result<IoLevel, IoCustomError>)
    -> IoLevel {
    match value {
        Ok(level) => level,
        Err(_) => spec_level_on_error(output),
    }
}

/// The state after output `output` was toggled: where a level is known of
/// it, that level toggled; else the state as it is.
pub open spec fn toggled(
    status: Wingman2HardwareStatus,
    output: DigitalOutput,
) -> Wingman2HardwareStatus {
    match status.output_level(output) {
        Some(level) => status.with_output_level(output, level.toggled()),
        None => status,
    }
}

/// The state after a switch command was applied to output `output`.
pub open spec fn switched(
    status: Wingman2HardwareStatus,
    output: DigitalOutput,
    command: SwitchCommand,
) -> Wingman2HardwareStatus {
    match command {
        SwitchCommand::On => status.with_output_level(output, IoLevel::High),
        SwitchCommand::Off => status.with_output_level(output, IoLevel::Low),
        SwitchCommand::Toggle => toggled(status, output),
    }
}

/// The state after a button command was applied to output `output`.
pub open spec fn pressed(
    status: Wingman2HardwareStatus,
    output: DigitalOutput,
    command: ButtonCommand,
) -> Wingman2HardwareStatus {
    match command {
        ButtonCommand::On => status.with_output_level(output, IoLevel::High),
        ButtonCommand::Off => status.with_output_level(output, IoLevel::Low),
    }
}

/// What can be asked of an output channel.
pub trait DigitalOutputImpl {
    /// The level known of the channel.
    fn read(&self, hardware_status: &Wingman2HardwareStatus) -> Option<IoLevel>;

    /// Sets the level of the channel to `value`, or to the level that the
    /// channel takes on error.
    fn write(
        &self,
        hardware_status: &mut Wingman2HardwareStatus,
        value: Result<IoLevel, IoCustomError>,
    );

    /// Toggles the level of the channel, where one is known.
    fn toggle(&self, hardware_status: &mut Wingman2HardwareStatus);
}

impl DigitalOutputImpl for DigitalOutput {
    fn read(&self, hardware_status: &Wingman2HardwareStatus) -> (level: Option<IoLevel>)
        ensures
            level == hardware_status.output_level(*self),
    {
        hardware_status.get_digital_output(self)
    }

    fn write(
        &self,
        hardware_status: &mut Wingman2HardwareStatus,
        value: Result<IoLevel, IoCustomError>,
    )
        ensures
            *final(hardware_status) == old(hardware_status).with_output_level(
                *self,
                level_written(*self, value),
            ),
    {
        match value {
            Ok(level) => hardware_status.set_digital_output(self, level),
            Err(_) => hardware_status.set_digital_output(self, level_on_error(self)),
        }
    }

    fn toggle(&self, hardware_status: &mut Wingman2HardwareStatus)
        ensures
            *final(hardware_status) == toggled(*old(hardware_status), *self),
    {
        match self.read(hardware_status) {
            Some(level) => {
                self.write(hardware_status, Ok(level.toggle()));
            },
            None => {},
        }
    }
}

/// A command that can be applied to a channel.
pub trait ApplyCommand<C> {
    /// Applies `command` to the channel.
    fn apply(&self, hardware_status: &mut Wingman2HardwareStatus, command: C);
}

impl ApplyCommand<SwitchCommand> for DigitalOutput {
    fn apply(&self, hardware_status: &mut Wingman2HardwareStatus, command: SwitchCommand)
        ensures
            *final(hardware_status) == switched(*old(hardware_status), *self, command),
    {
        match command {
            SwitchCommand::On => self.write(hardware_status, Ok(IoLevel::High)),
            SwitchCommand::Off => self.write(hardware_status, Ok(IoLevel::Low)),
            SwitchCommand::Toggle => self.toggle(hardware_status),
        }
    }
}

impl ApplyCommand<ButtonCommand> for DigitalOutput {
    fn apply(&self, hardware_status: &mut Wingman2HardwareStatus, command: ButtonCommand)
        ensures
            *final(hardware_status) == pressed(*old(hardware_status), *self, command),
    {
        match command {
            ButtonCommand::On => self.write(hardware_status, Ok(IoLevel::High)),
            ButtonCommand::Off => self.write(hardware_status, Ok(IoLevel::Low)),
        }
    }
}

/// Toggling an output twice gives back its level, and every other level.
pub proof fn lemma_toggle_twice(status: Wingman2HardwareStatus, output: DigitalOutput)
    ensures
        toggled(toggled(status, output), output).output_level(output) == status.output_level(
            output,
        ),
{
    broadcast use vstd::array::group_array_axioms;

    match status.output_level(output) {
        Some(level) => {
            IoLevel::lemma_toggle_involution(level);
        },
        None => {},
    }
}

} // verus!
