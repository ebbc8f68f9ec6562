//! The pumps of the vessel. They do not act yet.

use vstd::prelude::*;
use crate::controller::ControllerLogic;
use crate::data::user_commands::UserCommands;
use crate::status::Wingman2HardwareStatus;

verus! {

/// The pumps of the vessel. They do not act yet.
#[derive(Clone)]
pub struct Pumps {}

impl Default for Pumps {
    fn default() -> (logic: Self)
        ensures
            logic == (Pumps {  }),
    {
        Pumps {  }
    }
}

impl ControllerLogic for Pumps {
    fn initialize(&mut self, hardware_status: &mut Wingman2HardwareStatus)
        ensures
            *final(hardware_status) == *old(hardware_status),
    {
    }

    fn apply_user_commands(
        &mut self,
        user_commands: &mut UserCommands,
        hardware_status: &mut Wingman2HardwareStatus,
    )
        ensures
            *final(user_commands) == *old(user_commands),
            *final(hardware_status) == *old(hardware_status),
    {
    }

    fn update(&mut self, hardware_status: &mut Wingman2HardwareStatus)
        ensures
            *final(hardware_status) == *old(hardware_status),
    {
    }
}

} // verus!
