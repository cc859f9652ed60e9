//! Physical layer of the mobile station.

pub mod components;
pub mod laws;
pub mod phy_ms;
