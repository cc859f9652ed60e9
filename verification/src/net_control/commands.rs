//! Commands that reach the station from outside, and their responses.

use vstd::prelude::*;

use crate::management::{ManagementCommand, ManagementResponse};
use crate::tnmm::{
    TnmmAttachDetachGroupIdentityRequest, TnmmDeregistrationRequest, TnmmEnergySavingRequest,
    TnmmRegistrationRequest, TnmmStatusRequest,
};

verus! {

/// A command for the stack. `P` is the parameter set of a call control (TNCC) or
/// short data (TNSDS) request, which only the entity that serves it reads;
/// `handle` relates the response.
#[derive(Clone, Debug, PartialEq, Eq)]
pub enum ControlCommand<P> {
    /// Send a short data message for local delivery.
    SendSds {
        handle: u32,
        source_ssi: u32,
        dest_ssi: u32,
        dest_is_group: bool,
        len_bits: u16,
        payload: Vec<u8>,
    },
    CommandA { handle: u32, parameter: u32 },
    TestCmdB { handle: u32, source_ssi: u32, is_group: bool, payload: Vec<u8> },
    TnmmRegistration { handle: u32, request: Box<TnmmRegistrationRequest> },
    TnmmDeregistration { handle: u32, request: TnmmDeregistrationRequest },
    TnmmAttachDetachGroupIdentity { handle: u32, request: TnmmAttachDetachGroupIdentityRequest },
    TnmmStatus { handle: u32, request: TnmmStatusRequest },
    TnmmEnergySaving { handle: u32, request: TnmmEnergySavingRequest },
    TnccSetup { handle: u32, request: Box<P> },
    TnccSetupResponse { handle: u32, call_identifier: u16, response: P },
    TnccComplete { handle: u32, call_identifier: u16, request: P },
    TnccTx { handle: u32, call_identifier: u16, request: P },
    TnccDtmf { handle: u32, call_identifier: u16, request: P },
    TnccRelease { handle: u32, call_identifier: u16, request: P },
    /// One uplink speech block, one bit per byte.
    MsUplinkSpeech { call_identifier: u16, frame_bits: u16, data: Vec<u8> },
    TnsdsUnitdata { handle: u32, request: P },
    TnsdsStatus { handle: u32, request: P },
    TnsdsSendMessage { handle: u32, request: P },
    TnsdsSendReport { handle: u32, request: P },
    TnsdsCancel { handle: u32, request: P },
    Management(ManagementCommand),
}

/// The response to a command. An acknowledgement says whether the entity acts on
/// the request; its outcome is reported separately.
#[derive(Clone, Debug, PartialEq, Eq)]
pub enum ControlResponse {
    CommandAResponse { handle: u32, result: u32 },
    SendSdsResponse { handle: u32, success: bool },
    TnmmAck { handle: u32, accepted: bool, detail: Option<String> },
    TnccAck { handle: u32, accepted: bool, detail: Option<String> },
    TnsdsAck { handle: u32, accepted: bool, detail: Option<String> },
    Management(ManagementResponse),
}

} // verus!
