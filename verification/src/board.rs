//! The channels of the card and what is wired to them.

use vstd::prelude::*;

verus! {

/// A digital input channel.
#[derive(Copy, Clone, Debug, PartialEq, Eq, PartialOrd, Ord, Hash)]
pub struct DigitalInput {
    pub address: usize,
}

/// A digital output channel.
#[derive(Copy, Clone, Debug, PartialEq, Eq, PartialOrd, Ord, Hash)]
pub struct DigitalOutput {
    pub address: usize,
    pub value_on_error: bool,
    pub bank_voltage: u8,
}

/// An analog input channel.
#[derive(Copy, Clone, Debug, PartialEq, Eq, PartialOrd, Ord, Hash)]
pub struct AnalogInput {
    pub address: usize,
}

/// An analog output channel.
#[derive(Copy, Clone, Debug, PartialEq, Eq, PartialOrd, Ord, Hash)]
pub struct AnalogOutput {
    pub address: usize,
}

/// A pulse width modulation channel.
#[derive(Copy, Clone, Debug, PartialEq, Eq, PartialOrd, Ord, Hash)]
pub struct PulseWidthModulation {
    pub address: usize,
    pub bank_voltage: u8,
}

/// A channel of any kind.
#[derive(Copy, Clone, Debug, PartialEq, Eq, PartialOrd, Ord, Hash)]
pub enum IOAddress {
    DigitalInputAddress(DigitalInput),
    DigitalOutputAddress(DigitalOutput),
    AnalogInputAddress(AnalogInput),
    AnalogOutputAddress(AnalogOutput),
    PulseWidthModulationAddress(PulseWidthModulation),
}

/// What the control logic can find wrong with a channel.
#[derive(Eq, PartialEq, Debug, Copy, Clone)]
pub enum IoCustomError {
    NoSensor(IOAddress),
    OutOfRange,
    SensorTripped,
}

/// What is wired to which channel on a vessel.
pub struct BoardMap {
    pub digital_input_count: usize,
    pub digital_output_count: usize,
    pub analog_input_count: usize,
    pub analog_output_count: usize,
    pub pulse_wave_modulation_count: usize,
    pub anchor_up: Option<DigitalOutput>,
    pub anchor_down: Option<DigitalOutput>,
    pub anchor_light: Option<DigitalOutput>,
    pub navigation_light: Option<DigitalOutput>,
    pub courtesy_light: Option<DigitalOutput>,
    pub ambient_light: Option<DigitalOutput>,
    pub underwater_light: Option<DigitalOutput>,
    pub bilge_pumps: [Option<DigitalOutput>; 3],
    pub black_water_pump: Option<DigitalOutput>,
    pub engine_room_lights: [Option<DigitalOutput>; 2],
    pub engine_battery_port: Option<DigitalInput>,
    pub engine_battery_stbd: Option<DigitalInput>,
    pub bilge_pumps_running: [Option<DigitalInput>; 3],
    pub fresh_water_level: Option<AnalogInput>,
    pub black_water_level: Option<AnalogInput>,
}

/// A device with the topic that it reports under and its position among
/// the devices of its kind.
#[derive(Clone, Debug)]
pub struct BoardDeviceData<T> {
    pub topic_name: &'static str,
    pub position: Option<usize>,
    pub device: T,
}

impl<T> BoardDeviceData<T> {
    /// The device `device` with its topic and position.
    pub fn new(topic_name: &'static str, position: Option<usize>, device: T) -> (data: Self)
        ensures
            data.topic_name == topic_name,
            data.position == position,
            data.device == device,
    {
        Self { topic_name, position, device }
    }
}

/// What the firmware reports.
#[derive(Clone, Debug)]
pub struct FirmwareReporting {}

impl Default for FirmwareReporting {
    fn default() -> (reporting: Self)
        ensures
            reporting == (FirmwareReporting {  }),
    {
        FirmwareReporting {  }
    }
}

/// What the control server reports.
#[derive(Clone, Debug)]
pub struct ServerReporting {}

impl Default for ServerReporting {
    fn default() -> (reporting: Self)
        ensures
            reporting == (ServerReporting {  }),
    {
        ServerReporting {  }
    }
}

/// The vessel that the card is configured for.
#[derive(Eq, PartialEq, Debug, Clone, Copy, Structural)]
#[non_exhaustive]
pub enum Configuration {
    Unconfigured,
    Prototype0,
    Prototype2,
    Spirit101,
    Spirit102,
    Spirit103,
    Spirit104,
    UnitTest,
}

impl Configuration {
    /// The number of the configuration.
    pub open spec fn spec_number(self) -> u16 {
        match self {
            Configuration::Unconfigured => 0,
            Configuration::Prototype0 => 1,
            Configuration::Prototype2 => 2,
            Configuration::Spirit101 => 101,
            Configuration::Spirit102 => 102,
            Configuration::Spirit103 => 103,
            Configuration::Spirit104 => 104,
            Configuration::UnitTest => 9999,
        }
    }

    /// The number of the configuration.
    #[verifier::when_used_as_spec(spec_number)]
    pub fn number(self) -> (number: u16)
        ensures
            number == self.spec_number(),
    {
        match self {
            Configuration::Unconfigured => 0,
            Configuration::Prototype0 => 1,
            Configuration::Prototype2 => 2,
            Configuration::Spirit101 => 101,
            Configuration::Spirit102 => 102,
            Configuration::Spirit103 => 103,
            Configuration::Spirit104 => 104,
            Configuration::UnitTest => 9999,
        }
    }
}

impl Default for Configuration {
    /// A card is not configured until it is told its vessel.
    fn default() -> (configuration: Self)
        ensures
            configuration == Configuration::Unconfigured,
    {
        Configuration::Unconfigured
    }
}

/// State of the card as the control server sees it.
#[derive(Debug, Clone)]
pub struct Wingman2IOCardStatus {
    pub is_connected_to_control_server: bool,
    pub control_server_qos: u8,
    pub control_server_received_messages: u64,
    tick: u64,
    total_uptime_ms: i64,
    pub configuration: Configuration,
}

/// What a card status holds.
pub struct CardStatusView {
    pub is_connected_to_control_server: bool,
    pub control_server_qos: u8,
    pub control_server_received_messages: u64,
    pub tick: u64,
    pub total_uptime_ms: i64,
    pub configuration: Configuration,
}

impl View for Wingman2IOCardStatus {
    type V = CardStatusView;

    closed spec fn view(&self) -> CardStatusView {
        CardStatusView {
            is_connected_to_control_server: self.is_connected_to_control_server,
            control_server_qos: self.control_server_qos,
            control_server_received_messages: self.control_server_received_messages,
            tick: self.tick,
            total_uptime_ms: self.total_uptime_ms,
            configuration: self.configuration,
        }
    }
}

impl Wingman2IOCardStatus {
    /// The state of a card that has just started: not connected, not
    /// configured, and every count at zero.
    pub fn default() -> (status: Self)
        ensures
            status@ == (CardStatusView {
                is_connected_to_control_server: false,
                control_server_qos: 0,
                control_server_received_messages: 0,
                tick: 0,
                total_uptime_ms: 0,
                configuration: Configuration::Unconfigured,
            }),
    {
        Self {
            tick: 0,
            is_connected_to_control_server: false,
            control_server_qos: 0,
            control_server_received_messages: 0,
            total_uptime_ms: 0,
            configuration: Configuration::Unconfigured,
        }
    }
}

} // verus!
