//! Events that entities report.

use vstd::prelude::*;

use crate::tnmm::{
    TnmmAttachDetachGroupIdentityConfirm, TnmmAttachDetachGroupIdentityIndication,
    TnmmEnergySavingConfirm, TnmmEnergySavingIndication, TnmmRegistrationConfirm,
    TnmmRegistrationIndication, TnmmReportIndication, TnmmServiceIndication, TnmmStatusConfirm,
    TnmmStatusIndication,
};

verus! {

/// An event for the operator. `P` is the parameter set of a call control (TNCC)
/// or short data (TNSDS) primitive.
#[derive(Clone, Debug, PartialEq, Eq)]
pub enum TelemetryEvent<P> {
    MsRegistration { issi: u32 },
    /// Also ends the attachment to every group.
    MsDeregistration { issi: u32 },
    MsGroupAttach { issi: u32, gssis: Vec<u32> },
    MsGroupDetach { issi: u32, gssis: Vec<u32> },
    TnmmRegistrationIndication(Box<TnmmRegistrationIndication>),
    TnmmRegistrationConfirm(Box<TnmmRegistrationConfirm>),
    TnmmAttachDetachGroupIdentityIndication(TnmmAttachDetachGroupIdentityIndication),
    TnmmAttachDetachGroupIdentityConfirm(TnmmAttachDetachGroupIdentityConfirm),
    TnmmReportIndication(TnmmReportIndication),
    TnmmServiceIndication(TnmmServiceIndication),
    TnmmStatusIndication(TnmmStatusIndication),
    TnmmStatusConfirm(TnmmStatusConfirm),
    TnmmEnergySavingIndication(TnmmEnergySavingIndication),
    TnmmEnergySavingConfirm(TnmmEnergySavingConfirm),
    TnccAlertIndication { call_identifier: u16, indication: P },
    TnccCompleteIndication { call_identifier: u16, indication: P },
    TnccCompleteConfirm { call_identifier: u16, confirm: P },
    TnccNotifyIndication { call_identifier: u16, indication: P },
    TnccProceedIndication { call_identifier: u16, indication: P },
    TnccReleaseIndication { call_identifier: u16, indication: P },
    TnccReleaseConfirm { call_identifier: u16, confirm: P },
    TnccSetupIndication { call_identifier: u16, indication: Box<P> },
    TnccSetupConfirm { call_identifier: u16, confirm: Box<P> },
    TnccTxIndication { call_identifier: u16, indication: P },
    TnccTxConfirm { call_identifier: u16, confirm: P },
    TnsdsUnitdataIndication(P),
    TnsdsStatusIndication(P),
    TnsdsMessageIndication(P),
    TnsdsReportIndication(P),
    /// One downlink speech block, one bit per byte.
    MsSpeechFrame {
        call_identifier: u16,
        timeslot: u8,
        sequence: u32,
        transmitting_party_ssi: Option<u32>,
        frame_bits: u16,
        bad_frame: bool,
        data: Vec<u8>,
    },
    /// One cell found by a survey; the level is in thousandths of a decibel below
    /// full scale.
    MsScanResult {
        carrier_hz: u32,
        mcc: u16,
        mnc: u16,
        location_area: Option<u16>,
        colour_code: Option<u8>,
        rssi_mdbfs: Option<i32>,
        registration_required: Option<bool>,
        late_entry_supported: bool,
    },
    /// A survey has ended.
    MsScanComplete { found: u32, scanned: u32 },
}

} // verus!
