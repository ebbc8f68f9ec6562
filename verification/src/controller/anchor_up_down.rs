//! The anchor winch, up and down. It does not act yet.

use vstd::prelude::*;
use crate::controller::ControllerLogic;
use crate::data::user_commands::UserCommands;
use crate::status::Wingman2HardwareStatus;

verus! {

/// The anchor winch, up and down. It does not act yet.
#[derive(Clone)]
pub struct AnchorUpDown {}

impl Default for AnchorUpDown {
    fn default() -> (logic: Self)
        ensures
            logic == (AnchorUpDown {  }),
    {
        AnchorUpDown {  }
    }
}

impl ControllerLogic for AnchorUpDown {
    fn initialize(&mut self, hardware_status: &mut Wingman2HardwareStatus)
        ensures
            *final(hardware_status) == *old(hardware_status),
    {
    }

    fn apply_user_commands(
        &mut self,
        user_commands: &mut UserCommands,
        hardware_status: &mut Wingman2HardwareStatus,
    )
        ensures
            *final(user_commands) == *old(user_commands),
            *final(hardware_status) == *old(hardware_status),
    {
    }

    fn update(&mut self, hardware_status: &mut Wingman2HardwareStatus)
        ensures
            *final(hardware_status) == *old(hardware_status),
    {
    }
}

} // verus!
