//! Digital inputs and outputs.

pub mod address;
pub mod bus;
pub mod digital_input_impl;
pub mod digital_output_impl;
pub mod dio;
pub mod max7301;
pub mod plan;
pub mod selector;
pub mod sense;
pub mod sn65hvs881;
pub mod types;
