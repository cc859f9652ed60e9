//! Mobility management.

pub mod laws;
pub mod mm_ms;
pub mod pdu;
pub mod registration_laws;
