//! The lights of the vessel. They do not act yet.

use vstd::prelude::*;
use crate::board::{BoardMap, DigitalOutput};
use crate::commands::{SwitchCommand, UserCommand};
use crate::controller::ControllerLogic;
use crate::data::user_commands::UserCommands;
use crate::status::Wingman2HardwareStatus;

verus! {

/// One of the lights.
#[derive(Clone, Copy, PartialEq, Eq, Structural)]
pub enum Light {
    Navigation,
    Anchor,
    Courtesy,
    Underwater,
    Ambient,
}

impl Light {
    /// What `user_command` asks of this light: nothing yet, whatever the
    /// command.
    pub fn command_extractor(&self, user_command: &UserCommand) -> (command: Option<SwitchCommand>)
        ensures
            command is None,
    {
        None
    }

    /// The output that this light is wired to on `board_map`: none yet,
    /// whatever the board.
    pub fn digital_output(&self, board_map: &BoardMap) -> (output: Option<DigitalOutput>)
        ensures
            output is None,
    {
        None
    }

    /// Forces the light on or off. It does not act yet.
    pub fn force(
        &self,
        hardware_status: &mut Wingman2HardwareStatus,
        switch_command: &SwitchCommand,
    )
        ensures
            *final(hardware_status) == *old(hardware_status),
    {
    }

    /// What is done besides when a command is applied to the light:
    /// nothing yet.
    pub fn on_apply_hook(
        &self,
        hardware_status: &mut Wingman2HardwareStatus,
        switch_command: &SwitchCommand,
    )
        ensures
            *final(hardware_status) == *old(hardware_status),
    {
    }
}

impl ControllerLogic for Light {
    fn initialize(&mut self, hardware_status: &mut Wingman2HardwareStatus)
        ensures
            *final(hardware_status) == *old(hardware_status),
    {
    }

    fn apply_user_commands(
        &mut self,
        user_commands: &mut UserCommands,
        hardware_status: &mut Wingman2HardwareStatus,
    )
        ensures
            *final(user_commands) == *old(user_commands),
            *final(hardware_status) == *old(hardware_status),
    {
    }

    fn update(&mut self, hardware_status: &mut Wingman2HardwareStatus)
        ensures
            *final(hardware_status) == *old(hardware_status),
    {
    }
}

/// The lights of the vessel. They do not act yet.
#[derive(Clone)]
pub struct Lights {}

impl Default for Lights {
    fn default() -> (logic: Self)
        ensures
            logic == (Lights {  }),
    {
        Lights {  }
    }
}

impl ControllerLogic for Lights {
    fn initialize(&mut self, hardware_status: &mut Wingman2HardwareStatus)
        ensures
            *final(hardware_status) == *old(hardware_status),
    {
    }

    fn apply_user_commands(
        &mut self,
        user_commands: &mut UserCommands,
        hardware_status: &mut Wingman2HardwareStatus,
    )
        ensures
            *final(user_commands) == *old(user_commands),
            *final(hardware_status) == *old(hardware_status),
    {
    }

    fn update(&mut self, hardware_status: &mut Wingman2HardwareStatus)
        ensures
            *final(hardware_status) == *old(hardware_status),
    {
    }
}

} // verus!
