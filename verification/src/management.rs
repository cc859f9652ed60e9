//! Management of the station by its operator. Not part of the TETRA standard.

use vstd::prelude::*;

use crate::tnmm::ServiceStatus;

verus! {

/// What the operator asks of the station. `handle` relates the answer.
#[derive(Clone, Debug, PartialEq, Eq)]
pub enum ManagementCommand {
    GetState { handle: u32 },
    GetInterfaceVersion { handle: u32 },
    GetConfig { handle: u32 },
    SetConfig { handle: u32, toml: String },
    ApplyConfig { handle: u32 },
    ActivateScanlist { handle: u32, name: String, active: bool },
    SetCellSelectionMode { handle: u32, manual: bool },
    StartCellScan { handle: u32 },
    StopCellScan { handle: u32 },
    CampOnCell { handle: u32, carrier_hz: u32, register: bool },
}

/// Registration as the operator sees it.
#[derive(Clone, Copy, Debug, PartialEq, Eq, Structural)]
pub enum RegistrationState {
    Idle,
    Registering,
    Registered,
    Detaching,
}

/// State of the station.
#[derive(Clone, Debug, PartialEq, Eq)]
pub struct MsRuntimeState {
    pub registration_state: RegistrationState,
    pub service_status: ServiceStatus,
    pub own_issi: u32,
    pub home_mcc: u16,
    pub home_mnc: u16,
    pub serving_la: u16,
    /// Receive level, in thousandths of a decibel below full scale.
    pub rssi_mdbfs: Option<i32>,
    pub colour_code: u8,
    pub attached_groups: Vec<u32>,
    pub active_scanlists: Vec<String>,
    pub restart_required: bool,
    pub selection_mode_manual: bool,
}

/// The answer to a management command.
#[derive(Clone, Debug, PartialEq, Eq)]
pub enum ManagementResponse {
    State { handle: u32, state: Box<MsRuntimeState> },
    InterfaceVersion { handle: u32, version: String },
    Config { handle: u32, toml: String },
    Ack { handle: u32, accepted: bool, restart_required: bool, message: String },
}

} // verus!
