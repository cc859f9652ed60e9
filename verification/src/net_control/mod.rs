//! Remote control of the station.

pub mod codec;
pub mod commands;
pub mod worker;
