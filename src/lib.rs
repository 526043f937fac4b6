//! Command translation for a multi-channel analog output board: the
//! parameter map that requests and commands travel in, the channel table,
//! the choice of the output value, the composed write command with its
//! chained transmit disable, and the steps of an update.

pub mod channel;
pub mod command;
pub mod error;
pub mod params;
pub mod update;
pub mod value;

pub use channel::dac_channel_code;
pub use command::{compose_command, tx_disable, Command, FollowUp};
pub use error::UpdateError;
pub use params::{ParamMap, ParamValue};
pub use update::{
    calibration_topic, Reply, Stage, UpdateAction, UpdateEvent, UpdateRequest, UpdateSession,
};
pub use value::{value_source, ValueSource, VoltageInput};
