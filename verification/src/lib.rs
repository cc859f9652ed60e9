//! Mobile-station entities of a TETRA stack, with their behaviour stated in
//! contracts and proved.

pub mod bits;
pub mod config;
pub mod management;
pub mod mle;
pub mod mm;
pub mod net_control;
pub mod net_telemetry;
pub mod phy;
pub mod sap;
pub mod tdma;
pub mod tnmm;
pub mod umac;
pub mod view_laws;
