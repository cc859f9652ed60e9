//! TNMM-SAP: the values and primitives that mobility management and the user
//! application exchange (ETSI TS 100 392-2 cl. 15.3).
//!
//! Optional and conditional parameters are `Option`s.

use vstd::prelude::*;

verus! {

/// Cell load (cl. 15.3.4).
#[derive(Clone, Copy, Debug, PartialEq, Eq, Structural)]
pub enum CellLoad {
    CellLoadUnknown,
    LowCellLoadForCa,
    MediumCellLoadForCa,
    HighCellLoadForCa,
    CellLoadInformationIsNotAvailableForCa,
    LowTchLoadDa,
    Reserved,
    HighTchLoadDa,
    CellLoadInformationIsNotAvailableForTchInDa,
    LowPdchLoadDa,
    HighPdchLoadDa,
    CellLoadInformationIsNotAvailableForPdchInDa,
    LowCchSdsLoadDa,
    HighCchSdsLoadDa,
    CellLoadInformationIsNotAvailableForCchSdsInDa,
}

/// Cell type (cl. 15.3.4).
#[derive(Clone, Copy, Debug, PartialEq, Eq, Structural)]
pub enum CellType {
    CaCell,
    DaCell,
}

/// Class of usage (cl. 15.3.4).
#[derive(Clone, Copy, Debug, PartialEq, Eq, Structural)]
pub enum ClassOfUsage {
    ClassOfUsage1,
    ClassOfUsage2,
    ClassOfUsage3,
    ClassOfUsage4,
    ClassOfUsage5,
    ClassOfUsage6,
    ClassOfUsage7,
    ClassOfUsage8,
}

/// Disable status (cl. 15.3.4).
#[derive(Clone, Copy, Debug, PartialEq, Eq, Structural)]
pub enum DisableStatus {
    Enabled,
    TemporaryDisabled,
    PermanentlyDisabled,
}

/// Dual watch (cl. 15.3.4).
#[derive(Clone, Copy, Debug, PartialEq, Eq, Structural)]
pub enum DualWatch {
    StartingDualWatchMode,
    ModifyOrResumeDualWatchMode,
    DualWatchModeAccepted,
    DualWatchModeRejected,
    DualWatchModeNotSupported,
    TerminatingDualWatchMode,
    TerminatingDualWatchModeResponse,
    DualWatchEnergyEconomyGroupChangedBySwmi,
    DualWatchModeTerminatedBySwmi,
}

/// Direct mode (cl. 15.3.4).
#[derive(Clone, Copy, Debug, PartialEq, Eq, Structural)]
pub enum DirectMode {
    StartOfDirectModeOperation,
}

/// Energy economy mode (cl. 15.3.4).
#[derive(Clone, Copy, Debug, PartialEq, Eq, Structural)]
pub enum EnergyEconomyMode {
    StayAlive,
    EnergyEconomyMode1,
    EnergyEconomyMode2,
    EnergyEconomyMode3,
    EnergyEconomyMode4,
    EnergyEconomyMode5,
    EnergyEconomyMode6,
    EnergyEconomyMode7,
}

/// Energy economy mode status (cl. 15.3.4).
#[derive(Clone, Copy, Debug, PartialEq, Eq, Structural)]
pub enum EnergyEconomyModeStatus {
    Accepted,
    Rejected,
}

/// Group identity attach detach type identifier (cl. 15.3.4).
#[derive(Clone, Copy, Debug, PartialEq, Eq, Structural)]
pub enum GroupIdentityAttachDetachTypeIdentifier {
    Attachment,
    Detachment,
}

/// Group identity lifetime (cl. 15.3.4).
#[derive(Clone, Copy, Debug, PartialEq, Eq, Structural)]
pub enum GroupIdentityLifetime {
    PermanentAttachmentNotNeeded,
    AttachmentNeededForNextItsiAttach,
    AttachmentNotAllowedAfterNextItsiAttach,
    AttachmentNeededForNextLocationUpdate,
}

/// Group identity detachment (cl. 15.3.4).
#[derive(Clone, Copy, Debug, PartialEq, Eq, Structural)]
pub enum GroupIdentityDetachment {
    PermanentlyDetached,
    Temporary1Detached,
    Temporary2Detached,
    UnknownGroupIdentity,
}

/// Group identity detachment request (cl. 15.3.4).
#[derive(Clone, Copy, Debug, PartialEq, Eq, Structural)]
pub enum GroupIdentityDetachmentRequest {
    UserInitiatedDetachment,
}

/// Group identity report (cl. 15.3.4).
#[derive(Clone, Copy, Debug, PartialEq, Eq, Structural)]
pub enum GroupIdentityReport {
    ReportRequested,
    ReportNotRequested,
}

/// Group identity attach detach mode (cl. 15.3.4).
#[derive(Clone, Copy, Debug, PartialEq, Eq, Structural)]
pub enum GroupIdentityAttachDetachMode {
    Amendment,
    DetachTheCurrentlyActiveGroupIdentities,
}

/// Registration reject cause (cl. 15.3.4).
#[derive(Clone, Copy, Debug, PartialEq, Eq, Structural)]
pub enum RegistrationRejectCause {
    ItsiUnknown,
    IllegalMs,
    LaNotAllowed,
    LaUnknown,
    NetworkFailure,
    Congestion,
    ForwardRegistrationFailure,
    ServiceNotSubscribed,
    MandatoryElementError,
    MessageConsistencyError,
    RoamingNotSupported,
    MigrationNotSupported,
    NoCipherKsg,
    IdentifiedCipherKsgNotSupported,
    RequestedCipherKeyTypeNotAvailable,
    IdentifiedCipherKeyNotAvailable,
    CipheringRequired,
    AuthenticationFailure,
}

/// Registration status (cl. 15.3.4).
#[derive(Clone, Copy, Debug, PartialEq, Eq, Structural)]
pub enum RegistrationStatus {
    Success,
    Failure,
    LaRegistrationExpired,
    NoPreferredCellFound,
    NoPermittedCellTypes,
}

/// Registration type (cl. 15.3.4).
#[derive(Clone, Copy, Debug, PartialEq, Eq, Structural)]
pub enum RegistrationType {
    PeriodicRegistration,
    RegistrationToIndicatedCell,
}

/// Service status (cl. 15.3.4).
#[derive(Clone, Copy, Debug, PartialEq, Eq, Structural)]
pub enum ServiceStatus {
    InService,
    InGracefulServiceDegradationMode,
    InServiceWaitingForRegistration,
    OutOfService,
    MmBusy,
    MmIdle,
}

/// Transfer result (cl. 15.3.4).
#[derive(Clone, Copy, Debug, PartialEq, Eq, Structural)]
pub enum TransferResult {
    TransferSuccessfulDone,
    TransferFail,
}

/// One group that is attached or detached (table 15.8). The lifetime and the class
/// of usage belong to an attachment, the reason to a detachment.
#[derive(Clone, Debug, PartialEq, Eq, Structural)]
pub struct GroupIdentity {
    /// The group identity with its network: country and network code above the low
    /// 24 bits.
    pub gtsi: u64,
    pub group_identity_attach_detach_type_identifier: GroupIdentityAttachDetachTypeIdentifier,
    pub group_identity_lifetime: Option<GroupIdentityLifetime>,
    pub class_of_usage: Option<ClassOfUsage>,
    pub group_identity_detachment_reason: Option<GroupIdentityDetachment>,
}

/// One group to be attached or detached (table 15.9). The class of usage belongs to
/// an attachment, the request to a detachment.
#[derive(Clone, Debug, PartialEq, Eq, Structural)]
pub struct GroupIdentityRequest {
    pub gtsi: u64,
    pub group_identity_attach_detach_type_identifier: GroupIdentityAttachDetachTypeIdentifier,
    pub class_of_usage: Option<ClassOfUsage>,
    pub group_identity_detachment_request: Option<GroupIdentityDetachmentRequest>,
}

/// TNMM-REGISTRATION indication (table 15.5): a registration has been carried out,
/// or has expired.
#[derive(Clone, Debug, PartialEq, Eq)]
pub struct TnmmRegistrationIndication {
    pub registration_status: RegistrationStatus,
    pub registration_reject_cause: Option<RegistrationRejectCause>,
    pub cell_type_where_registered: CellType,
    pub la_where_registered: u16,
    pub mcc_where_registered: u16,
    pub mnc_where_registered: u16,
    pub swmis_required_cell_types: Option<Vec<CellType>>,
    pub energy_economy_mode: Option<EnergyEconomyMode>,
    pub energy_economy_mode_status: Option<EnergyEconomyModeStatus>,
    pub group_identities: Option<Vec<GroupIdentity>>,
    pub group_identity_attach_detach_mode: Option<GroupIdentityAttachDetachMode>,
}

/// TNMM-REGISTRATION confirm (table 15.5): the station is ready for use.
#[derive(Clone, Debug, PartialEq, Eq)]
pub struct TnmmRegistrationConfirm {
    pub registration_status: RegistrationStatus,
    pub registration_reject_cause: Option<RegistrationRejectCause>,
    pub cell_type_where_registered: CellType,
    pub la_where_registered: u16,
    pub mcc_where_registered: u16,
    pub mnc_where_registered: u16,
    pub energy_economy_mode: Option<EnergyEconomyMode>,
    pub energy_economy_mode_status: Option<EnergyEconomyModeStatus>,
    pub group_identities: Option<Vec<GroupIdentity>>,
    pub group_identity_attach_detach_mode: Option<GroupIdentityAttachDetachMode>,
}

/// TNMM-ATTACH DETACH GROUP IDENTITY indication (table 15.1).
#[derive(Clone, Debug, PartialEq, Eq)]
pub struct TnmmAttachDetachGroupIdentityIndication {
    pub group_identities: Vec<GroupIdentity>,
}

/// TNMM-ATTACH DETACH GROUP IDENTITY confirm (table 15.1).
#[derive(Clone, Debug, PartialEq, Eq)]
pub struct TnmmAttachDetachGroupIdentityConfirm {
    pub group_identity_attach_detach_mode: GroupIdentityAttachDetachMode,
    pub group_identity_report: Option<GroupIdentityReport>,
    pub group_identities: Vec<GroupIdentity>,
}

/// TNMM-REPORT indication (table 15.4): whether the detach was transmitted.
#[derive(Clone, Copy, Debug, PartialEq, Eq, Structural)]
pub struct TnmmReportIndication {
    pub transfer_result: TransferResult,
}

/// TNMM-SERVICE indication (table 15.6).
#[derive(Clone, Copy, Debug, PartialEq, Eq, Structural)]
pub struct TnmmServiceIndication {
    pub service_status: ServiceStatus,
    pub disable_status: DisableStatus,
}

/// TNMM-STATUS indication (table 15.7).
#[derive(Clone, Copy, Debug, PartialEq, Eq, Structural)]
pub struct TnmmStatusIndication {
    pub service_status: ServiceStatus,
    pub disable_status: DisableStatus,
    pub dual_watch: Option<DualWatch>,
    pub energy_economy_mode: Option<EnergyEconomyMode>,
    pub cell_load: Option<CellLoad>,
}

/// TNMM-STATUS confirm (table 15.7).
#[derive(Clone, Copy, Debug, PartialEq, Eq, Structural)]
pub struct TnmmStatusConfirm {
    pub dual_watch: Option<DualWatch>,
    pub energy_economy_mode: Option<EnergyEconomyMode>,
}

/// TNMM-ENERGY SAVING indication (table 15.3).
#[derive(Clone, Copy, Debug, PartialEq, Eq, Structural)]
pub struct TnmmEnergySavingIndication {
    pub energy_economy_mode: Option<EnergyEconomyMode>,
    pub energy_economy_mode_status: Option<EnergyEconomyModeStatus>,
}

/// TNMM-ENERGY SAVING confirm (table 15.3).
#[derive(Clone, Copy, Debug, PartialEq, Eq, Structural)]
pub struct TnmmEnergySavingConfirm {
    pub energy_economy_mode: EnergyEconomyMode,
    pub energy_economy_mode_status: EnergyEconomyModeStatus,
}

/// TNMM-REGISTRATION request (table 15.5).
#[derive(Clone, Debug, PartialEq, Eq)]
pub struct TnmmRegistrationRequest {
    pub registration_type: RegistrationType,
    pub required_cell_type_list: Option<Vec<CellType>>,
    pub preferred_cell_type_list: Option<Vec<CellType>>,
    pub preferred_la_list: Option<Vec<u16>>,
    pub preferred_mcc_list: Option<Vec<u16>>,
    pub preferred_mnc_list: Option<Vec<u16>>,
    pub issi: u32,
    pub mcc_of_issi: u16,
    pub mnc_of_issi: u16,
    pub energy_economy_mode: Option<EnergyEconomyMode>,
    pub group_identity_request: Option<Vec<GroupIdentityRequest>>,
    pub group_identity_attach_detach_mode: Option<GroupIdentityAttachDetachMode>,
}

/// TNMM-DEREGISTRATION request (table 15.2). Without parameters, every identity is
/// detached.
#[derive(Clone, Copy, Debug, PartialEq, Eq, Structural)]
pub struct TnmmDeregistrationRequest {
    pub issi: Option<u32>,
    pub mcc: Option<u16>,
    pub mnc: Option<u16>,
}

/// TNMM-ATTACH DETACH GROUP IDENTITY request (table 15.1).
#[derive(Clone, Debug, PartialEq, Eq)]
pub struct TnmmAttachDetachGroupIdentityRequest {
    pub group_identity_attach_detach_mode: GroupIdentityAttachDetachMode,
    pub group_identity_request: Vec<GroupIdentityRequest>,
    pub group_identity_report: Option<GroupIdentityReport>,
}

/// TNMM-STATUS request (table 15.7).
#[derive(Clone, Copy, Debug, PartialEq, Eq, Structural)]
pub struct TnmmStatusRequest {
    pub direct_mode: Option<DirectMode>,
    pub dual_watch: Option<DualWatch>,
    pub energy_economy_mode: Option<EnergyEconomyMode>,
}

/// TNMM-ENERGY SAVING request (table 15.3).
#[derive(Clone, Copy, Debug, PartialEq, Eq, Structural)]
pub struct TnmmEnergySavingRequest {
    pub energy_economy_mode: EnergyEconomyMode,
}

} // verus!
