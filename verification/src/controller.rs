//! The control logic of the vessel: what the commands of the user do to the
//! outputs of the card.

pub mod anchor_up_down;
pub mod lights;
pub mod pumps;

use vstd::prelude::*;
use crate::board::FirmwareReporting;
use crate::controller::anchor_up_down::AnchorUpDown;
use crate::controller::lights::Lights;
use crate::controller::pumps::Pumps;
use crate::data::user_commands::UserCommands;
use crate::status::Wingman2HardwareStatus;

verus! {

/// A part of the control logic. The control loop initializes each part
/// once, and then at every step hands it the commands of the user and lets
/// it update the state of the card.
pub trait ControllerLogic {
    /// Brings the part and the state of the card to their start.
    fn initialize(&mut self, hardware_status: &mut Wingman2HardwareStatus);

    /// Applies the commands of the user that concern the part.
    fn apply_user_commands(
        &mut self,
        user_commands: &mut UserCommands,
        hardware_status: &mut Wingman2HardwareStatus,
    );

    /// Lets the part update the state of the card.
    fn update(&mut self, hardware_status: &mut Wingman2HardwareStatus);

    /// Lets the part add to what the firmware reports. A part that has
    /// nothing to report leaves the report as it is.
    fn update_reporting(&self, firmware_reporting: &mut FirmwareReporting) {
    }
}

/// The control logic of the firmware as a whole. It has no part yet, and
/// changes nothing.
#[derive(Clone)]
pub struct FirmwareLogic {}

impl Default for FirmwareLogic {
    fn default() -> (logic: Self)
        ensures
            logic == (FirmwareLogic {  }),
    {
        FirmwareLogic {  }
    }
}

impl ControllerLogic for FirmwareLogic {
    fn initialize(&mut self, hardware_status: &mut Wingman2HardwareStatus)
        ensures
            *final(hardware_status) == *old(hardware_status),
    {
    }

    fn apply_user_commands(
        &mut self,
        user_commands: &mut UserCommands,
        hardware_status: &mut Wingman2HardwareStatus,
    )
        ensures
            *final(user_commands) == *old(user_commands),
            *final(hardware_status) == *old(hardware_status),
    {
    }

    fn update(&mut self, hardware_status: &mut Wingman2HardwareStatus)
        ensures
            *final(hardware_status) == *old(hardware_status),
    {
    }
}

/// The buttons and switches of the vessel: anchor, lights and pumps. None
/// of them acts yet, and the state of the card stays as it is.
#[derive(Clone)]
pub struct ButtonsAndSwitches {
    anchor_up_down: AnchorUpDown,
    lights: Lights,
    pumps: Pumps,
}

impl Default for ButtonsAndSwitches {
    fn default() -> (logic: Self) {
        ButtonsAndSwitches {
            anchor_up_down: AnchorUpDown {  },
            lights: Lights {  },
            pumps: Pumps {  },
        }
    }
}

impl ControllerLogic for ButtonsAndSwitches {
    fn initialize(&mut self, hardware_status: &mut Wingman2HardwareStatus)
        ensures
            *final(hardware_status) == *old(hardware_status),
    {
    }

    fn apply_user_commands(
        &mut self,
        user_commands: &mut UserCommands,
        hardware_status: &mut Wingman2HardwareStatus,
    )
        ensures
            *final(user_commands) == *old(user_commands),
            *final(hardware_status) == *old(hardware_status),
    {
    }

    fn update(&mut self, hardware_status: &mut Wingman2HardwareStatus)
        ensures
            *final(hardware_status) == *old(hardware_status),
    {
    }
}

} // verus!
