//! What the card knows of its digital channels.

use vstd::prelude::*;
use crate::board::{Configuration, DigitalInput, DigitalOutput};
use crate::io::types::{IoLevel, IoState, IoSupply, IoTemp};
use crate::timestamp::Timestamp;

verus! {

/// Number of digital channels of one direction.
pub const DIGITAL_CHANNELS: usize = 48;

/// What is known of one digital channel; `None` where nothing is known.
#[derive(Clone, Copy, Debug)]
pub struct HardwareDigital {
    pub state: Option<IoState>,
    pub level: Option<IoLevel>,
    pub supply: Option<IoSupply>,
    pub temp: Option<IoTemp>,
}

impl HardwareDigital {
    /// The channel of which nothing is known.
    pub open spec fn unknown() -> HardwareDigital {
        HardwareDigital { state: None, level: None, supply: None, temp: None }
    }
}

impl Default for HardwareDigital {
    /// The channel of which nothing is known.
    fn default() -> (digital: Self)
        ensures
            digital == HardwareDigital::unknown(),
    {
        HardwareDigital { state: None, level: None, supply: None, temp: None }
    }
}

/// The place of the channel with address `address` among the 48 channels
/// of its direction: addresses count from 1.
pub open spec fn spec_channel_index(address: usize) -> Option<usize> {
    if 1 <= address <= 48 {
        Some((address - 1) as usize)
    } else {
        None
    }
}

/// The place of the channel with address `address` among the 48 channels
/// of its direction, if there is such a channel.
#[verifier::when_used_as_spec(spec_channel_index)]
pub fn channel_index(address: usize) -> (index: Option<usize>)
    ensures
        index == spec_channel_index(address),
{
    if 1 <= address && address <= DIGITAL_CHANNELS {
        Some(address - 1)
    } else {
        None
    }
}

/// State of the card's channels at one step of the control loop.
pub struct Wingman2HardwareStatus {
    pub step: u64,
    pub now: Timestamp,
    pub configuration: Configuration,
    pub digital_inputs: [HardwareDigital; 48],
    pub digital_outputs: [HardwareDigital; 48],
}

impl Wingman2HardwareStatus {
    /// The level known of input `input`.
    pub open spec fn input_level(self, input: DigitalInput) -> Option<IoLevel> {
        match spec_channel_index(input.address) {
            Some(index) => self.digital_inputs[index as int].level,
            None => None,
        }
    }

    /// The level known of output `output`.
    pub open spec fn output_level(self, output: DigitalOutput) -> Option<IoLevel> {
        match spec_channel_index(output.address) {
            Some(index) => self.digital_outputs[index as int].level,
            None => None,
        }
    }

    /// The state with the level of output `output` set to `level`, where
    /// there is such an output, and all else as it is.
    pub open spec fn with_output_level(self, output: DigitalOutput, level: IoLevel) -> Self {
        match spec_channel_index(output.address) {
            Some(index) => Wingman2HardwareStatus {
                step: self.step,
                now: self.now,
                configuration: self.configuration,
                digital_inputs: self.digital_inputs,
                digital_outputs: vstd::array::spec_array_update(
                    self.digital_outputs,
                    index as int,
                    HardwareDigital {
                        state: self.digital_outputs[index as int].state,
                        level: Some(level),
                        supply: self.digital_outputs[index as int].supply,
                        temp: self.digital_outputs[index as int].temp,
                    },
                ),
            },
            None => self,
        }
    }

    /// The state at the start: step 0 at time 0, and nothing known of any
    /// channel.
    pub fn new(configuration: Configuration) -> (status: Self)
        ensures
            status.step == 0,
            status.now@ == 0,
            status.configuration == configuration,
            forall|i: int| 0 <= i < 48 ==> status.digital_inputs[i] == HardwareDigital::unknown(),
            forall|i: int| 0 <= i < 48 ==> status.digital_outputs[i] == HardwareDigital::unknown(),
    {
        let unknown = HardwareDigital { state: None, level: None, supply: None, temp: None };
        Self {
            step: 0,
            now: Timestamp::new(0),
            configuration,
            digital_inputs: [unknown;48],
            digital_outputs: [unknown;48],
        }
    }

    /// Goes on to the next step of the control loop, at time `now`.
    pub fn advance(&mut self, now: Timestamp)
        requires
            old(self).step < u64::MAX,
        ensures
            final(self).step == old(self).step + 1,
            final(self).now == now,
            final(self).configuration == old(self).configuration,
            final(self).digital_inputs == old(self).digital_inputs,
            final(self).digital_outputs == old(self).digital_outputs,
    {
        self.step = self.step + 1;
        self.now = now;
    }

    /// The level known of input `input`; `None` where none is known or
    /// there is no such input.
    pub fn get_digital_input(&self, input: &DigitalInput) -> (level: Option<IoLevel>)
        ensures
            level == self.input_level(*input),
    {
        match channel_index(input.address) {
            Some(index) => self.digital_inputs[index].level,
            None => None,
        }
    }

    /// The level known of output `output`; `None` where none is known or
    /// there is no such output.
    pub fn get_digital_output(&self, output: &DigitalOutput) -> (level: Option<IoLevel>)
        ensures
            level == self.output_level(*output),
    {
        match channel_index(output.address) {
            Some(index) => self.digital_outputs[index].level,
            None => None,
        }
    }

    /// Sets the level of output `output` to `level`. Where there is no such
    /// output, nothing changes.
    pub fn set_digital_output(&mut self, output: &DigitalOutput, level: IoLevel)
        ensures
            *final(self) == old(self).with_output_level(*output, level),
    {
        match channel_index(output.address) {
            Some(index) => {
                let mut digital = self.digital_outputs[index];
                digital.level = Some(level);
                self.digital_outputs[index] = digital;
            },
            None => {},
        }
    }

    /// Setting the level of an output makes that level known of it, and
    /// leaves what is known of the other outputs and of the inputs.
    pub proof fn lemma_set_then_get(
        self,
        output: DigitalOutput,
        level: IoLevel,
        other: DigitalOutput,
        input: DigitalInput,
    )
        ensures
            spec_channel_index(output.address) is Some ==> self.with_output_level(
                output,
                level,
            ).output_level(output) == Some(level),
            spec_channel_index(other.address) != spec_channel_index(output.address)
                ==> self.with_output_level(output, level).output_level(other) == self.output_level(
                other,
            ),
            self.with_output_level(output, level).input_level(input) == self.input_level(input),
    {
        broadcast use vstd::array::group_array_axioms;

    }
}

/// State of the card's channels as the tasks of the card share it.
pub struct Wingman3HardwareStatus {
    pub step: u64,
    pub now: Timestamp,
    pub configuration: Configuration,
    pub digital_inputs: [HardwareDigital; 48],
    pub digital_outputs: [HardwareDigital; 48],
}

impl Wingman3HardwareStatus {
    /// The state at the start: step 0 at time 0, and nothing known of any
    /// channel.
    pub fn new(configuration: Configuration) -> (status: Self)
        ensures
            status.step == 0,
            status.now@ == 0,
            status.configuration == configuration,
            forall|i: int| 0 <= i < 48 ==> status.digital_inputs[i] == HardwareDigital::unknown(),
            forall|i: int| 0 <= i < 48 ==> status.digital_outputs[i] == HardwareDigital::unknown(),
    {
        let unknown = HardwareDigital { state: None, level: None, supply: None, temp: None };
        Self {
            step: 0,
            now: Timestamp::new(0),
            configuration,
            digital_inputs: [unknown;48],
            digital_outputs: [unknown;48],
        }
    }
}

impl Default for Wingman2HardwareStatus {
    /// The state at the start of a card that is not configured.
    fn default() -> (status: Self)
        ensures
            status.step == 0,
            status.now@ == 0,
            status.configuration == Configuration::Unconfigured,
            forall|i: int| 0 <= i < 48 ==> status.digital_inputs[i] == HardwareDigital::unknown(),
            forall|i: int| 0 <= i < 48 ==> status.digital_outputs[i] == HardwareDigital::unknown(),
    {
        Wingman2HardwareStatus::new(Configuration::Unconfigured)
    }
}

} // verus!
