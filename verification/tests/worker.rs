//! The control worker, and the errors of the codecs.

use tetra_entities::management::ManagementCommand;
use tetra_entities::net_control::codec::{ControlCodecBitcode, ControlCodecJson, NetworkError};
use tetra_entities::net_control::commands::{ControlCommand, ControlResponse};
use tetra_entities::net_control::worker::{
    ConnectReport, ControlWorker, CycleStart, RECONNECT_DELAY_MS,
};
use tetra_entities::net_telemetry::codec::{TelemetryCodecBitcode, TelemetryCodecJson};
use tetra_entities::sap::TetraEntity;
use tetra_entities::tnmm::{
    EnergyEconomyMode, RegistrationType, TnmmDeregistrationRequest, TnmmEnergySavingRequest,
    TnmmRegistrationRequest, TnmmStatusRequest,
};

/// The parameters of a call control or short data request, which are not read.
#[derive(Clone, Debug, PartialEq)]
struct Params {
    called_party_ssi: u32,
}

type Command = ControlCommand<Params>;

fn route(c: &Command) -> TetraEntity {
    ControlWorker::route_control_command(c)
}

#[test]
fn test_route_command_a_to_mm() {
    let target = route(&ControlCommand::CommandA { handle: 1, parameter: 1 });
    assert_eq!(target, TetraEntity::Mm);
}

#[test]
fn test_route_command_b_to_cmce() {
    let target = route(&ControlCommand::TestCmdB {
        handle: 2,
        source_ssi: 12345,
        is_group: false,
        payload: vec![],
    });
    assert_eq!(target, TetraEntity::Cmce);
}

#[test]
fn test_route_tnmm_requests_to_mm() {
    let reg = ControlCommand::TnmmRegistration {
        handle: 1,
        request: Box::new(TnmmRegistrationRequest {
            registration_type: RegistrationType::RegistrationToIndicatedCell,
            required_cell_type_list: None,
            preferred_cell_type_list: None,
            preferred_la_list: None,
            preferred_mcc_list: None,
            preferred_mnc_list: None,
            issi: 1,
            mcc_of_issi: 1,
            mnc_of_issi: 1,
            energy_economy_mode: None,
            group_identity_request: None,
            group_identity_attach_detach_mode: None,
        }),
    };
    assert_eq!(route(&reg), TetraEntity::Mm);

    let dereg = ControlCommand::TnmmDeregistration {
        handle: 2,
        request: TnmmDeregistrationRequest { issi: None, mcc: None, mnc: None },
    };
    assert_eq!(route(&dereg), TetraEntity::Mm);

    let status = ControlCommand::TnmmStatus {
        handle: 3,
        request: TnmmStatusRequest {
            direct_mode: None,
            dual_watch: None,
            energy_economy_mode: None,
        },
    };
    assert_eq!(route(&status), TetraEntity::Mm);

    let energy = ControlCommand::TnmmEnergySaving {
        handle: 4,
        request: TnmmEnergySavingRequest { energy_economy_mode: EnergyEconomyMode::StayAlive },
    };
    assert_eq!(route(&energy), TetraEntity::Mm);
}

#[test]
fn test_route_tncc_requests_to_cmce() {
    let setup = ControlCommand::TnccSetup {
        handle: 1,
        request: Box::new(Params { called_party_ssi: 91 }),
    };
    assert_eq!(route(&setup), TetraEntity::Cmce);
}

#[test]
fn test_route_management_to_mm() {
    let cmd = ControlCommand::Management(ManagementCommand::GetState { handle: 9 });
    assert_eq!(route(&cmd), TetraEntity::Mm);
}

/// A transport that is up, with commands to be taken and responses sent.
struct MockTransport {
    inbound: Vec<Command>,
    sent: Vec<ControlResponse>,
}

/// A command reaches its entity, and the response goes back.
#[test]
fn test_worker_dispatches_command_and_collects_response() {
    let mut transport = MockTransport {
        inbound: vec![ControlCommand::CommandA { handle: 1, parameter: 99 }],
        sent: vec![],
    };
    let mut to_mm: Vec<Command> = vec![];
    let mut from_mm: Vec<ControlResponse> = vec![];

    let mut worker = ControlWorker::new(vec![TetraEntity::Mm]);
    assert_eq!(worker.connect_attempted(0, true), ConnectReport::Connected);
    assert_eq!(worker.begin_cycle(), CycleStart::Poll);
    for cmd in transport.inbound.drain(..) {
        if worker.dispatch_command(&cmd) == Some(TetraEntity::Mm) {
            to_mm.push(cmd);
        }
    }

    let received = to_mm.pop().expect("Mm should receive CommandA");
    assert!(matches!(received, ControlCommand::CommandA { handle: 1, parameter: 99 }));
    from_mm.push(ControlResponse::CommandAResponse { handle: 1, result: 99 });

    for response in from_mm.drain(..) {
        if worker.may_send() {
            transport.sent.push(response);
        }
    }
    assert_eq!(transport.sent.len(), 1);
    assert!(matches!(
        transport.sent[0],
        ControlResponse::CommandAResponse { handle: 1, result: 99 }
    ));
}

/// A command for an entity that cannot be reached is dropped.
#[test]
fn test_worker_drops_command_without_dispatcher() {
    let mut worker = ControlWorker::new(vec![]);
    worker.connect_attempted(0, true);
    let cmd: Command = ControlCommand::CommandA { handle: 1, parameter: 1 };
    assert_eq!(worker.dispatch_command(&cmd), None);
}

#[test]
fn an_entity_gets_only_its_own_commands() {
    let worker = ControlWorker::new(vec![TetraEntity::Cmce]);
    let a: Command = ControlCommand::CommandA { handle: 1, parameter: 1 };
    let speech: Command =
        ControlCommand::MsUplinkSpeech { call_identifier: 1, frame_bits: 274, data: vec![] };
    assert_eq!(worker.dispatch_command(&a), None);
    assert_eq!(worker.dispatch_command(&speech), Some(TetraEntity::Cmce));
}

#[test]
fn one_warning_per_outage() {
    let mut w = ControlWorker::new(vec![]);
    assert_eq!(w.connect_attempted(0, false), ConnectReport::FirstFailure);
    assert_eq!(w.connect_attempted(1000, false), ConnectReport::StillDown);
    assert_eq!(w.connect_attempted(2000, true), ConnectReport::Connected);
    assert_eq!(w.connect_attempted(3000, false), ConnectReport::FirstFailure);
}

#[test]
fn attempts_keep_their_distance() {
    let mut w = ControlWorker::new(vec![]);
    assert_eq!(w.begin_cycle(), CycleStart::Wait);
    assert!(w.end_cycle(false, 5).reconnect, "never tried before");
    w.connect_attempted(5, false);
    assert!(!w.end_cycle(false, 5 + RECONNECT_DELAY_MS - 1).reconnect);
    assert!(w.end_cycle(false, 5 + RECONNECT_DELAY_MS).reconnect);
    w.connect_attempted(2000, true);
    let end = w.end_cycle(true, 9000);
    assert!(!end.disconnected && !end.reconnect);
}

#[test]
fn a_lost_transport_is_noticed_once() {
    let mut w = ControlWorker::new(vec![]);
    w.connect_attempted(0, true);
    let end = w.end_cycle(false, 10);
    assert!(end.disconnected && !end.reconnect);
    let end = w.end_cycle(false, RECONNECT_DELAY_MS);
    assert!(!end.disconnected && end.reconnect);
    // A failed send ends the connection as well.
    w.connect_attempted(2000, true);
    w.send_failed();
    assert!(!w.may_send());
}

#[test]
fn errors_name_what_does_not_decode() {
    let text = |s: &str| NetworkError::SerializationError(s.to_string());
    assert_eq!(ControlCodecJson.command_error("eof"), text("command decode: eof"));
    assert_eq!(ControlCodecJson.response_error("eof"), text("command response decode: eof"));
    assert_eq!(ControlCodecBitcode.command_error(""), text("command decode: "));
    assert_eq!(ControlCodecBitcode.response_error("x"), text("command response decode: x"));
    assert_eq!(TelemetryCodecJson.event_error("eof"), text("telemetry decode: eof"));
    assert_eq!(TelemetryCodecBitcode.event_error("eof"), text("telemetry decode: eof"));
}
