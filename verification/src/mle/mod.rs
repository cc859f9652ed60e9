//! Mobile link entity.

pub mod broadcast_laws;
pub mod components;
pub mod laws;
pub mod mle_bs_ms;
pub mod mle_ms;
pub mod network_time;
pub mod pdu;
pub mod selection_laws;
