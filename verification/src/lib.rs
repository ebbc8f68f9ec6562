//! Control logic of a vessel I/O card: the driver of its 48 digital outputs
//! and 48 digital inputs, the value types of its channels, the commands of
//! the user and what the card decides about its clock and its network.

pub mod board;
pub mod clock;
pub mod command_order;
pub mod commands;
pub mod controller;
pub mod data;
pub mod io;
pub mod net;
pub mod phy;
pub mod status;
pub mod timestamp;

pub use crate::board::{
    AnalogInput, AnalogOutput, BoardDeviceData, BoardMap, Configuration, DigitalInput,
    DigitalOutput, FirmwareReporting, IOAddress, IoCustomError, PulseWidthModulation,
    ServerReporting, Wingman2IOCardStatus,
};
pub use crate::commands::{
    ButtonCommand, Command, DeviceIdentifier, DevicePosition, SwitchCommand, UserCommand,
};
pub use crate::controller::{ControllerLogic, FirmwareLogic};
pub use crate::io::types::{IoBank, IoError, IoLevel, IoState, IoSupply, IoTemp, IoType};
pub use crate::status::{HardwareDigital, Wingman2HardwareStatus, Wingman3HardwareStatus};
pub use crate::timestamp::Timestamp;
