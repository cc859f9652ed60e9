//! Upper MAC of the mobile station (ETSI TS 100 392-2 cl. 21 / 23).

pub mod laws;
pub mod mac_block;
pub mod ms_random_access;
pub mod receive;
pub mod receive_laws;
pub mod transfer_laws;
pub mod umac_ms;
pub mod uplink;
