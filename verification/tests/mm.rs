//! Mobility management of a mobile station.

use tetra_entities::bits::BitBuffer;
use tetra_entities::config::{MsConfig, StackConfig};
use tetra_entities::mm::mm_ms::{
    GroupOutcome, MmMs, RegState, RejectAction, DETACH_DRAIN_SLOTS, GROUP_CLASS_OF_USAGE,
    MAX_REGISTRATION_ATTEMPTS, N351_MAX_SYSTEM_REJECTIONS, T351_TIMEOUT_SLOTS,
};
use tetra_entities::mm::pdu::{
    mm_pdu_type, DLocationUpdateAccept, DLocationUpdateReject, GroupIdentityAttachment,
    GroupIdentityDownlink, GroupIdentityLocationAccept, LocationUpdateType, MmDownlinkPdu,
    MmPduTypeDl, MmQueue, MmUplinkPdu, RejectCause,
};
use tetra_entities::sap::{
    Layer2Service, LmmMleActivateConf, Sap, SapMsg, SapMsgInner, StackMode, TetraAddress,
    TetraEntity,
};

const MS_ISSI: u32 = 1000001;

fn config(groups: &[u32]) -> StackConfig {
    StackConfig {
        stack_mode: StackMode::Ms,
        mcc: 901,
        mnc: 9999,
        allowed_networks: vec![],
        scan_candidates: vec![],
        ms: Some(MsConfig {
            issi: MS_ISSI,
            subscriber_class: 1,
            attach_groups: groups.to_vec(),
        }),
    }
}

fn ms_mm() -> MmMs {
    MmMs::new(config(&[]))
}

fn ms_mm_with_groups(groups: &[u32]) -> MmMs {
    MmMs::new(config(groups))
}

fn activate_conf(registration_required: bool) -> LmmMleActivateConf {
    LmmMleActivateConf {
        registration_required,
        mcc: 901,
        mnc: 9999,
        la: 1,
        system_wide_services: true,
        cell_type: 0,
    }
}

/// Deliver a downlink PDU as the mobile link entity forwards it.
fn deliver_dl(mm: &mut MmMs, queue: &mut MmQueue, pdu_type: &str, pdu: MmDownlinkPdu) {
    let msg = SapMsg {
        sap: Sap::LmmSap,
        src: TetraEntity::Mle,
        dest: TetraEntity::Mm,
        msg: SapMsgInner::LmmMleUnitdataInd {
            sdu: BitBuffer::from_bits(pdu_type.chars().map(|c| c == '1').collect()),
            handle: 0,
            received_address: TetraAddress::issi(MS_ISSI),
        },
    };
    mm.rx_prim(queue, &msg, &pdu);
}

fn accept() -> DLocationUpdateAccept {
    DLocationUpdateAccept {
        location_update_accept_type: LocationUpdateType::ItsiAttach,
        ssi: Some(MS_ISSI as u64),
        group_identity_location_accept: None,
    }
}

fn deliver_accept(mm: &mut MmMs, q: &mut MmQueue) {
    deliver_dl(mm, q, "0101", MmDownlinkPdu::Accept(accept()));
}

fn deliver_reject(mm: &mut MmMs, q: &mut MmQueue, cause: RejectCause) {
    deliver_dl(
        mm,
        q,
        "0111",
        MmDownlinkPdu::Reject(DLocationUpdateReject {
            location_update_type: LocationUpdateType::ItsiAttach,
            reject_cause: Some(cause),
        }),
    );
}

#[test]
fn test_registration_demand_on_activate_conf() {
    let mut mm = ms_mm();
    let mut q = MmQueue::new();

    mm.rx_activate_conf(&mut q, &activate_conf(true));
    assert_eq!(mm.reg_state, RegState::Registering);
    assert_eq!(mm.attempts, 1);

    let msg = q.pop_front().expect("a demand must be emitted");
    assert!(q.pop_front().is_none(), "exactly one message emitted");
    assert_eq!(msg.sap, Sap::LmmSap);
    assert_eq!(msg.dest, TetraEntity::Mle);
    assert_eq!(msg.msg.address.ssi, MS_ISSI);

    let MmUplinkPdu::ULocationUpdateDemand(pdu) = msg.msg.sdu else {
        panic!("expected a demand");
    };
    assert_eq!(pdu.location_update_type, LocationUpdateType::ItsiAttach);
    assert!(!pdu.request_to_append_la);
    assert!(!pdu.cipher_control);
    assert!(pdu.ciphering_parameters.is_none());
    assert!(pdu.class_of_ms.is_none());
    assert!(pdu.group_identity_location_demand.is_none());
}

#[test]
fn test_registration_demand_carries_group_attachment() {
    let mut mm = ms_mm_with_groups(&[91, 220]);
    let mut q = MmQueue::new();

    mm.rx_activate_conf(&mut q, &activate_conf(true));

    let msg = q.pop_front().expect("a demand must be emitted");
    let MmUplinkPdu::ULocationUpdateDemand(pdu) = msg.msg.sdu else {
        panic!("expected a demand");
    };
    let gild = pdu
        .group_identity_location_demand
        .expect("group identity location demand present");
    assert_eq!(gild.group_identity_attach_detach_mode, 1);
    let ul = gild.group_identity_uplink.expect("group entries present");
    assert_eq!(ul.len(), 2);
    let gssis: Vec<u32> = ul.iter().filter_map(|g| g.gssi).collect();
    assert_eq!(gssis, vec![91, 220]);
    assert!(ul.iter().all(|g| g.class_of_usage == Some(GROUP_CLASS_OF_USAGE)));
    assert!(ul.iter().all(|g| g.group_identity_detachment_uplink.is_none()));
}

#[test]
fn test_no_registration_when_not_required() {
    let mut mm = ms_mm();
    let mut q = MmQueue::new();
    mm.rx_activate_conf(&mut q, &activate_conf(false));
    assert_eq!(mm.reg_state, RegState::Idle);
    assert!(q.pop_front().is_none(), "no demand when registration not required");
}

#[test]
fn test_registration_accept_completes() {
    let mut mm = ms_mm();
    let mut q = MmQueue::new();
    mm.rx_activate_conf(&mut q, &activate_conf(true));
    let _ = q.pop_front();

    deliver_accept(&mut mm, &mut q);
    assert_eq!(mm.reg_state, RegState::Registered);

    for _ in 0..=T351_TIMEOUT_SLOTS {
        mm.tick_start(&mut q);
    }
    assert!(q.pop_front().is_none(), "registered MS must not retransmit");
}

#[test]
fn test_registration_retransmits_on_timeout() {
    let mut mm = ms_mm();
    let mut q = MmQueue::new();
    mm.rx_activate_conf(&mut q, &activate_conf(true));
    let _ = q.pop_front();
    assert_eq!(mm.attempts, 1);

    for _ in 0..=T351_TIMEOUT_SLOTS {
        mm.tick_start(&mut q);
    }
    let msg = q.pop_front().expect("demand retransmitted after timeout");
    assert!(matches!(msg.msg.sdu, MmUplinkPdu::ULocationUpdateDemand(_)));
    assert_eq!(mm.attempts, 2);
}

#[test]
fn test_reject_recoverable_cause_retries() {
    let mut mm = ms_mm();
    let mut q = MmQueue::new();
    mm.rx_activate_conf(&mut q, &activate_conf(true));
    let _ = q.pop_front();
    assert_eq!(mm.attempts, 1);

    deliver_reject(&mut mm, &mut q, RejectCause::Congestion);
    // The demand is sent again with the next tick.
    assert_eq!(mm.reg_state, RegState::Registering);
    mm.tick_start(&mut q);
    let msg = q.pop_front().expect("demand resent after recoverable reject");
    assert!(matches!(msg.msg.sdu, MmUplinkPdu::ULocationUpdateDemand(_)));
    assert_eq!(mm.attempts, 2);
}

#[test]
fn test_reject_la_cause_abandons() {
    let mut mm = ms_mm();
    let mut q = MmQueue::new();
    mm.rx_activate_conf(&mut q, &activate_conf(true));
    let _ = q.pop_front();

    deliver_reject(&mut mm, &mut q, RejectCause::LaNotAllowed);
    assert_eq!(mm.reg_state, RegState::Idle);
    assert!(!mm.left_system);
    mm.tick_start(&mut q);
    assert!(q.pop_front().is_none());
}

#[test]
fn test_reject_system_rejection_leaves_after_n351() {
    let mut mm = ms_mm();
    let mut q = MmQueue::new();
    for i in 1..=N351_MAX_SYSTEM_REJECTIONS {
        mm.rx_activate_conf(&mut q, &activate_conf(true));
        let _ = q.pop_front();
        deliver_reject(&mut mm, &mut q, RejectCause::IllegalMs);
        assert_eq!(mm.system_rejection_count, i);
    }
    assert!(mm.left_system, "MS must leave the system after N351 system rejections");
    mm.rx_activate_conf(&mut q, &activate_conf(true));
    assert_eq!(mm.reg_state, RegState::Idle);
    assert!(q.pop_front().is_none(), "no registration after leaving the system");
}

#[test]
fn test_accept_resets_system_rejection_count() {
    let mut mm = ms_mm();
    let mut q = MmQueue::new();
    mm.rx_activate_conf(&mut q, &activate_conf(true));
    let _ = q.pop_front();
    deliver_reject(&mut mm, &mut q, RejectCause::IllegalMs);
    assert_eq!(mm.system_rejection_count, 1);

    mm.rx_activate_conf(&mut q, &activate_conf(true));
    let _ = q.pop_front();
    deliver_accept(&mut mm, &mut q);
    assert_eq!(mm.reg_state, RegState::Registered);
    assert_eq!(mm.system_rejection_count, 0);
}

#[test]
fn test_detach_on_shutdown_when_registered() {
    let mut mm = ms_mm();
    let mut q = MmQueue::new();

    mm.rx_activate_conf(&mut q, &activate_conf(true));
    let _ = q.pop_front();
    deliver_accept(&mut mm, &mut q);
    assert_eq!(mm.reg_state, RegState::Registered);

    assert!(mm.begin_deregistration(&mut q), "detach must be initiated when registered");
    assert_eq!(mm.reg_state, RegState::Detaching);
    assert!(mm.deregistration_pending());

    let msg = q.pop_front().expect("a U-ITSI DETACH must be emitted");
    assert!(q.pop_front().is_none(), "exactly one message emitted");
    assert_eq!(msg.sap, Sap::LmmSap);
    assert_eq!(msg.dest, TetraEntity::Mle);
    assert_eq!(msg.msg.address.ssi, MS_ISSI);
    assert_eq!(msg.msg.layer2service, Layer2Service::Acknowledged);

    let MmUplinkPdu::UItsiDetach(pdu) = msg.msg.sdu else {
        panic!("expected a detach");
    };
    assert!(pdu.address_extension.is_none());
    assert!(pdu.proprietary.is_none());
}

#[test]
fn test_detach_drain_bounded() {
    let mut mm = ms_mm();
    let mut q = MmQueue::new();
    mm.rx_activate_conf(&mut q, &activate_conf(true));
    let _ = q.pop_front();
    deliver_accept(&mut mm, &mut q);
    assert!(mm.begin_deregistration(&mut q));
    let _ = q.pop_front();

    for _ in 0..DETACH_DRAIN_SLOTS {
        assert!(mm.deregistration_pending(), "still draining");
        mm.tick_start(&mut q);
    }
    assert!(!mm.deregistration_pending(), "drain complete");
    assert!(q.pop_front().is_none(), "detach drain emits nothing further");
}

#[test]
fn test_no_detach_when_not_registered() {
    let mut mm = ms_mm();
    let mut q = MmQueue::new();
    assert!(!mm.begin_deregistration(&mut q), "no detach when idle");
    assert_eq!(mm.reg_state, RegState::Idle);
    assert!(!mm.deregistration_pending());
    assert!(q.pop_front().is_none(), "no PDU emitted when not registered");
}

// ---------------------------------------------------------------------------

#[test]
fn an_unanswered_registration_is_given_up() {
    let mut mm = ms_mm();
    let mut q = MmQueue::new();
    mm.rx_activate_conf(&mut q, &activate_conf(true));
    let slots = MAX_REGISTRATION_ATTEMPTS as u32 * (T351_TIMEOUT_SLOTS + 1);
    for _ in 0..slots {
        mm.tick_start(&mut q);
    }
    assert_eq!(mm.reg_state, RegState::Idle);
    assert_eq!(q.entries.len(), MAX_REGISTRATION_ATTEMPTS as usize);
    for _ in 0..slots {
        mm.tick_start(&mut q);
    }
    assert_eq!(q.entries.len(), MAX_REGISTRATION_ATTEMPTS as usize);
}

#[test]
fn detaching_is_terminal() {
    let mut mm = ms_mm();
    let mut q = MmQueue::new();
    mm.rx_activate_conf(&mut q, &activate_conf(true));
    deliver_accept(&mut mm, &mut q);
    mm.begin_deregistration(&mut q);
    let n = q.entries.len();
    deliver_accept(&mut mm, &mut q);
    deliver_reject(&mut mm, &mut q, RejectCause::Congestion);
    mm.rx_activate_conf(&mut q, &activate_conf(true));
    assert_eq!(mm.reg_state, RegState::Detaching);
    assert_eq!(q.entries.len(), n);
}

#[test]
fn a_stray_rejection_is_ignored() {
    let mut mm = ms_mm();
    let mut q = MmQueue::new();
    deliver_reject(&mut mm, &mut q, RejectCause::IllegalMs);
    assert_eq!((mm.reg_state, mm.system_rejection_count), (RegState::Idle, 0));
}

#[test]
fn a_reserved_cause_abandons() {
    let mut mm = ms_mm();
    let mut q = MmQueue::new();
    mm.rx_activate_conf(&mut q, &activate_conf(true));
    mm.rx_d_location_update_reject(&DLocationUpdateReject {
        location_update_type: LocationUpdateType::ItsiAttach,
        reject_cause: None,
    });
    assert_eq!(mm.reg_state, RegState::Idle);
}

#[test]
fn actions_per_cause() {
    let f = MmMs::analyse_reject_cause;
    for c in [
        RejectCause::Congestion,
        RejectCause::NetworkFailure,
        RejectCause::MandatoryElementError,
        RejectCause::MessageConsistencyError,
    ] {
        assert_eq!(f(c), RejectAction::Retry);
    }
    for c in [
        RejectCause::ItsiAtsiUnknown,
        RejectCause::IllegalMs,
        RejectCause::MigrationNotSupported,
    ] {
        assert_eq!(f(c), RejectAction::SystemRejection);
    }
    for c in [
        RejectCause::LaNotAllowed,
        RejectCause::LaUnknown,
        RejectCause::ServiceNotSubscribed,
        RejectCause::RoamingNotSupported,
        RejectCause::Security,
    ] {
        assert_eq!(f(c), RejectAction::Abandon);
    }
}

#[test]
fn retries_are_bounded() {
    let mut mm = ms_mm();
    let mut q = MmQueue::new();
    mm.rx_activate_conf(&mut q, &activate_conf(true));
    for _ in 1..MAX_REGISTRATION_ATTEMPTS {
        deliver_reject(&mut mm, &mut q, RejectCause::NetworkFailure);
        mm.tick_start(&mut q);
    }
    assert_eq!(mm.attempts, MAX_REGISTRATION_ATTEMPTS);
    deliver_reject(&mut mm, &mut q, RejectCause::NetworkFailure);
    mm.tick_start(&mut q);
    assert_eq!(mm.reg_state, RegState::Idle);
    assert_eq!(q.entries.len(), MAX_REGISTRATION_ATTEMPTS as usize);
}

fn group(gssi: Option<u32>, attached: bool) -> GroupIdentityDownlink {
    GroupIdentityDownlink {
        group_identity_attachment: if attached {
            Some(GroupIdentityAttachment {
                group_identity_attachment_lifetime: 0,
                class_of_usage: 4,
            })
        } else {
            None
        },
        gssi,
    }
}

#[test]
fn the_group_attachment_is_reported() {
    let mut mm = ms_mm_with_groups(&[91]);
    let mut q = MmQueue::new();
    mm.rx_activate_conf(&mut q, &activate_conf(true));
    let mut pdu = accept();
    pdu.group_identity_location_accept = Some(GroupIdentityLocationAccept {
        group_identity_accept_reject: 0,
        group_identity_downlink: Some(vec![
            group(Some(91), true),
            group(Some(92), false),
            group(None, true),
            group(Some(93), true),
        ]),
    });
    let outcome = mm.rx_d_location_update_accept(&pdu);
    let Some(GroupOutcome::Reported { accept_reject, attached }) = outcome else {
        panic!("the network reported")
    };
    assert_eq!(accept_reject, 0);
    assert_eq!(attached, vec![91, 93]);
    // A second accept changes nothing.
    assert!(mm.rx_d_location_update_accept(&pdu).is_none());
    assert!(matches!(mm.group_outcome(&accept()), GroupOutcome::AssumedFailed));
    assert!(matches!(ms_mm().group_outcome(&accept()), GroupOutcome::NotRequested));
}

#[test]
fn types_of_downlink_pdus() {
    let f = |s: &str| mm_pdu_type(&BitBuffer::from_bits(s.chars().map(|c| c == '1').collect()));
    assert_eq!(f("0101"), Some(MmPduTypeDl::DLocationUpdateAccept));
    assert_eq!(f("01110"), Some(MmPduTypeDl::DLocationUpdateReject));
    assert_eq!(f("1111"), Some(MmPduTypeDl::MmPduFunctionNotSupported));
    assert_eq!(f("1000"), None);
    assert_eq!(f("010"), None);
}

#[test]
fn a_type_that_does_not_fit_is_ignored() {
    let mut mm = ms_mm();
    let mut q = MmQueue::new();
    mm.rx_activate_conf(&mut q, &activate_conf(true));
    deliver_dl(&mut mm, &mut q, "0101", MmDownlinkPdu::Other);
    deliver_dl(&mut mm, &mut q, "1100", MmDownlinkPdu::Accept(accept()));
    assert_eq!(mm.reg_state, RegState::Registering);
}

#[test]
fn a_new_configuration_counts_for_the_next_demand() {
    let mut mm = ms_mm();
    let mut q = MmQueue::new();
    mm.set_config(config(&[5]));
    mm.rx_activate_conf(&mut q, &activate_conf(true));
    let MmUplinkPdu::ULocationUpdateDemand(pdu) = q.pop_front().unwrap().msg.sdu else {
        panic!()
    };
    assert!(pdu.group_identity_location_demand.is_some());
    assert_eq!(mm.own_issi(), MS_ISSI);
}

#[test]
fn a_configuration_without_a_section_is_taken_while_registering() {
    let mut mm = ms_mm();
    let mut q = MmQueue::new();
    mm.rx_activate_conf(&mut q, &activate_conf(true));
    assert_eq!(q.entries.len(), 1);
    assert!(!mm.demand_is_due());
    let mut without = config(&[]);
    without.ms = None;
    mm.set_config(without);
    for _ in 0..T351_TIMEOUT_SLOTS {
        mm.tick_start(&mut q);
    }
    assert_eq!((mm.reg_state, mm.attempts, q.entries.len()), (RegState::Registering, 1, 1));
    assert!(mm.demand_is_due());
    mm.set_config(config(&[5]));
    mm.tick_start(&mut q);
    assert_eq!((mm.attempts, q.entries.len()), (2, 2));
    assert!(!mm.demand_is_due());
}

#[test]
fn a_second_rejection_before_the_next_demand_is_ignored() {
    let mut mm = ms_mm();
    let mut q = MmQueue::new();
    mm.rx_activate_conf(&mut q, &activate_conf(true));
    deliver_reject(&mut mm, &mut q, RejectCause::Congestion);
    deliver_reject(&mut mm, &mut q, RejectCause::IllegalMs);
    assert_eq!((mm.reg_state, mm.system_rejection_count), (RegState::Registering, 0));
    mm.tick_start(&mut q);
    assert_eq!(mm.attempts, 2);
}
