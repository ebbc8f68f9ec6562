//! Reading a digital input from the state of the card.

use vstd::prelude::*;
use crate::board::DigitalInput;
use crate::io::types::IoLevel;
use crate::status::Wingman2HardwareStatus;

verus! {

/// What can be asked of an input channel.
pub trait DigitalInputImpl {
    /// The level known of the channel.
    fn read(&self, hardware_status: &Wingman2HardwareStatus) -> Option<IoLevel>;
}

impl DigitalInputImpl for DigitalInput {
    fn read(&self, hardware_status: &Wingman2HardwareStatus) -> (level: Option<IoLevel>)
        ensures
            level == hardware_status.input_level(*self),
    {
        hardware_status.get_digital_input(self)
    }
}

} // verus!
