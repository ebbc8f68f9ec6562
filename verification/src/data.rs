//! Data that the tasks of the card share.

pub mod user_commands;
