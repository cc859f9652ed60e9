//! Reports of the station to its operator.

pub mod codec;
pub mod events;
