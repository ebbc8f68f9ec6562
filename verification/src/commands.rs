//! Commands of the user to the vessel.

use vstd::prelude::*;
use crate::timestamp::Timestamp;

verus! {

/// Milliseconds after which a command counts no more.
pub const EVICTION_DELAY_MS: u64 = 500;

/// A command that is sent once.
#[derive(Debug, Copy, Clone, PartialEq, Eq, Structural)]
pub enum SwitchCommand {
    On,
    Off,
    Toggle,
}

/// A command that has to be sent again and again; without it the button
/// counts as off.
#[derive(Debug, Copy, Clone, PartialEq, Eq, Structural)]
pub enum ButtonCommand {
    On,
    Off,
}

/// Number of a device, counted from 1: front to back, left to right.
pub type DevicePosition = usize;

/// Which of several devices of a kind is meant.
#[derive(Debug, Copy, Clone, PartialEq, Eq, Structural)]
pub enum DeviceIdentifier {
    All,
    Device(DevicePosition),
}

impl DeviceIdentifier {
    /// The device at `index`, where indices count from 0 and positions
    /// from 1.
    pub fn from_index(index: usize) -> (device: Self)
        requires
            index < usize::MAX,
        ensures
            device == DeviceIdentifier::Device((index + 1) as usize),
    {
        DeviceIdentifier::Device(index + 1)
    }
}

impl From<usize> for DeviceIdentifier {
    /// The device at position `identifier`.
    fn from(identifier: usize) -> (device: Self) {
        DeviceIdentifier::Device(identifier)
    }
}

impl vstd::std_specs::convert::FromSpecImpl<usize> for DeviceIdentifier {
    open spec fn obeys_from_spec() -> bool {
        true
    }

    open spec fn from_spec(identifier: usize) -> DeviceIdentifier {
        DeviceIdentifier::Device(identifier)
    }
}

/// What the user can ask for.
#[derive(Debug, Copy, Clone, PartialEq, Eq, Structural)]
pub enum Command {
    AmbientLight(SwitchCommand),
    AnchorDown(SwitchCommand),
    AnchorLight(SwitchCommand),
    AnchorUp(SwitchCommand),
    BilgePump(DeviceIdentifier, SwitchCommand),
    BlackWaterPump(ButtonCommand),
    CourtesyLight(SwitchCommand),
    EngineBatteryOn(DeviceIdentifier),
    EngineIgnition(DeviceIdentifier, SwitchCommand),
    EngineRoomLight(DeviceIdentifier, SwitchCommand),
    EngineStart(DeviceIdentifier, ButtonCommand),
    FoilDeploy(DeviceIdentifier, ButtonCommand),
    FoilDown(DeviceIdentifier, ButtonCommand),
    FoilIn(DeviceIdentifier, ButtonCommand),
    FoilOut(DeviceIdentifier, ButtonCommand),
    FoilRetract(DeviceIdentifier, ButtonCommand),
    FoilUp(DeviceIdentifier, ButtonCommand),
    HydraulicDcPumpOn(DeviceIdentifier, ButtonCommand),
    NavigationLight(SwitchCommand),
    RudderDeploy(DeviceIdentifier, ButtonCommand),
    RudderDown(DeviceIdentifier, ButtonCommand),
    RudderPark(DeviceIdentifier, ButtonCommand),
    RudderRetract(DeviceIdentifier, ButtonCommand),
    RudderTiltIn(DeviceIdentifier, ButtonCommand),
    RudderTiltOut(DeviceIdentifier, ButtonCommand),
    RudderUp(DeviceIdentifier, ButtonCommand),
    UnderwaterLight(SwitchCommand),
}

/// A command and when it was received, if it was stamped.
#[derive(Debug, Copy, Clone, PartialEq)]
pub struct UserCommand {
    pub command: Command,
    pub timestamp: Option<Timestamp>,
}

impl UserCommand {
    /// Whether a command stamped `timestamp`, or not stamped, counts no
    /// more at `now`: one without stamp never counts, and one with a stamp
    /// counts for less than the eviction delay.
    pub open spec fn expired(timestamp: Option<Timestamp>, now: Timestamp) -> bool {
        match timestamp {
            Some(stamp) => stamp@ + 500 <= now@,
            None => true,
        }
    }

    /// The command `command`, stamped or not.
    pub fn new(command: Command, timestamp: Option<Timestamp>) -> (user_command: Self)
        ensures
            user_command.command == command,
            user_command.timestamp == timestamp,
    {
        Self { command, timestamp }
    }

    /// Stamps the command.
    pub fn set_timestamp(&mut self, timestamp: Timestamp)
        ensures
            final(self).timestamp == Some(timestamp),
            final(self).command == old(self).command,
    {
        self.timestamp = Some(timestamp);
    }

    /// Whether the command counts no more at `now`.
    pub fn is_expired(&self, now: Timestamp) -> (expired: bool)
        ensures
            expired == Self::expired(self.timestamp, now),
    {
        match self.timestamp {
            Some(timestamp) => match timestamp.millis().checked_add(EVICTION_DELAY_MS) {
                Some(end) => end <= now.millis(),
                None => {
                    proof {
                        Timestamp::lemma_view(now, now);
                    }
                    false
                },
            },
            None => true,
        }
    }

    /// Whether the command still counts at `now`.
    pub fn is_valid(&self, now: Timestamp) -> (valid: bool)
        ensures
            valid == !Self::expired(self.timestamp, now),
    {
        !self.is_expired(now)
    }

    /// A command that counts at some moment has counted at every moment
    /// before, and one that counts no more never counts again.
    pub proof fn lemma_expiry_is_final(
        timestamp: Option<Timestamp>,
        earlier: Timestamp,
        later: Timestamp,
    )
        requires
            earlier@ <= later@,
        ensures
            Self::expired(timestamp, earlier) ==> Self::expired(timestamp, later),
    {
    }
}

} // verus!
