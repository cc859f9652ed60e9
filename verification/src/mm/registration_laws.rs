//! What registration promises for each primitive, field by field.

use vstd::prelude::*;

use crate::bits::law_bits_value;
use crate::mm::mm_ms::{
    attached_by, attached_of, demand_msg, detach_msg, outcome_fits, reject_action, GroupOutcome,
    MmMs, DETACH_DRAIN_SLOTS, MAX_REGISTRATION_ATTEMPTS, N351_MAX_SYSTEM_REJECTIONS,
    T351_TIMEOUT_SLOTS,
};
use crate::mm::pdu::{
    leading_mm_type, GroupIdentityDownlink, GroupIdentityLocationAccept,
    MmDownlinkPdu, MmMsgView, MmPduTypeDl, MmUplinkPdu, RejectCause,
};
use crate::sap::{LmmMleActivateConf, MsgView, SapMsgInner};

verus! {

// ---------------------------------------------------------------------------
// The PDUs sent
// ---------------------------------------------------------------------------

/// Whether a request goes to the mobile link entity for the individual address
/// `issi`, acknowledged and with no other wish.
pub open spec fn sent_from(m: MmMsgView, issi: u32) -> bool {
    &&& m.sap is LmmSap && m.src is Mm && m.dest is Mle
    &&& m.msg.address.ssi == issi
    &&& m.msg.address.ssi_type is Issi
    &&& !m.msg.address.encrypted
    &&& m.msg.layer2service is Acknowledged
    &&& m.msg.handle == 0
    &&& m.msg.pdu_priority is None && !m.msg.is_emergency && m.msg.tx_reporter is None
    &&& !m.msg.stealing_permission && !m.msg.stealing_repeats_flag
    &&& !m.msg.encryption_flag && !m.msg.is_null_pdu
}

/// A demand is an ITSI attach for the own address without any optional element but
/// the configured groups: these are attached in place of all others, in order,
/// each as a group of class of usage 4; without groups the element is absent.
pub proof fn law_demand_attaches_the_station(issi: u32, groups: Seq<u32>)
    ensures
        sent_from(demand_msg(issi, groups), issi),
        demand_msg(issi, groups).msg.sdu matches MmUplinkPdu::ULocationUpdateDemand(d) && {
            &&& d.location_update_type is ItsiAttach
            &&& !d.request_to_append_la && !d.cipher_control
            &&& d.ciphering_parameters is None && d.class_of_ms is None
            &&& d.energy_saving_mode is None && d.la_information is None
            &&& d.ssi is None && d.address_extension is None
            &&& d.group_report_response is None && d.authentication_uplink is None
            &&& d.extended_capabilities is None && d.proprietary is None
            &&& d.group_identity_location_demand is Some <==> groups.len() > 0
            &&& d.group_identity_location_demand matches Some(g) ==> {
                &&& g.group_identity_attach_detach_mode == 1
                &&& g.group_identity_uplink matches Some(l)
                &&& l.len() == groups.len()
                &&& forall|i: int|
                    0 <= i < groups.len() ==> {
                        &&& (#[trigger] l[i]).gssi == Some(groups[i])
                        &&& l[i].class_of_usage == Some(4u8)
                        &&& l[i].group_identity_detachment_uplink is None
                        &&& l[i].address_extension is None && l[i].vgssi is None
                    }
            }
        },
{
}

/// A detach is sent for the own address, without optional elements.
pub proof fn law_detach_names_the_station(issi: u32)
    ensures
        sent_from(detach_msg(issi), issi),
        detach_msg(issi).msg.sdu matches MmUplinkPdu::UItsiDetach(d) && d.address_extension is None
            && d.proprietary is None,
{
}

// ---------------------------------------------------------------------------
// Tables
// ---------------------------------------------------------------------------

/// Congestion, a failure of the network and the two coding errors allow another
/// try; an unknown identity, an illegal station and unsupported migration count
/// against the system; every other cause ends the attempt.
pub proof fn law_causes_have_their_action(c: RejectCause)
    ensures
        reject_action(c) is Retry <==> c is Congestion || c is NetworkFailure || c
            is MandatoryElementError || c is MessageConsistencyError,
        reject_action(c) is SystemRejection <==> c is ItsiAtsiUnknown || c is IllegalMs || c
            is MigrationNotSupported,
        reject_action(c) is Abandon <==> c is LaNotAllowed || c is LaUnknown || c
            is ForwardRegistrationFailure || c is ServiceNotSubscribed || c is RoamingNotSupported
            || c is UseCaCellNotPermitted || c is UseDaCellNotPermitted || c is Security,
{
}

/// The number that the first four bits denote.
pub open spec fn four_bits(s: Seq<bool>) -> int {
    8 * (if s[0] {
        1int
    } else {
        0int
    }) + 4 * (if s[1] {
        1int
    } else {
        0int
    }) + 2 * (if s[2] {
        1int
    } else {
        0int
    }) + (if s[3] {
        1int
    } else {
        0int
    })
}

/// The first four bits of a downlink PDU tell its type; 8, 13 and 14 are reserved.
pub proof fn law_mm_pdu_types(s: Seq<bool>)
    ensures
        s.len() < 4 ==> leading_mm_type(s) is None,
        s.len() >= 4 ==> {
            let t = leading_mm_type(s);
            let v = four_bits(s);
            &&& (t == Some(MmPduTypeDl::DOtar)) == (v == 0)
            &&& (t == Some(MmPduTypeDl::DAuthentication)) == (v == 1)
            &&& (t == Some(MmPduTypeDl::DCkChangeDemand)) == (v == 2)
            &&& (t == Some(MmPduTypeDl::DDisable)) == (v == 3)
            &&& (t == Some(MmPduTypeDl::DEnable)) == (v == 4)
            &&& (t == Some(MmPduTypeDl::DLocationUpdateAccept)) == (v == 5)
            &&& (t == Some(MmPduTypeDl::DLocationUpdateCommand)) == (v == 6)
            &&& (t == Some(MmPduTypeDl::DLocationUpdateReject)) == (v == 7)
            &&& (t == Some(MmPduTypeDl::DLocationUpdateProceeding)) == (v == 9)
            &&& (t == Some(MmPduTypeDl::DAttachDetachGroupIdentity)) == (v == 10)
            &&& (t == Some(MmPduTypeDl::DAttachDetachGroupIdentityAcknowledgement)) == (v == 11)
            &&& (t == Some(MmPduTypeDl::DMmStatus)) == (v == 12)
            &&& (t == Some(MmPduTypeDl::MmPduFunctionNotSupported)) == (v == 15)
            &&& (t is None) == (v == 8 || v == 13 || v == 14)
        },
{
    if s.len() >= 4 {
        let e = Seq::<bool>::empty();
        assert(s.take(4) == e.push(s[0]).push(s[1]).push(s[2]).push(s[3]));
        law_bits_value(e, s[0]);
        law_bits_value(e.push(s[0]), s[1]);
        law_bits_value(e.push(s[0]).push(s[1]), s[2]);
        law_bits_value(e.push(s[0]).push(s[1]).push(s[2]), s[3]);
    }
}

/// The limits of registration: the timer runs for 706 slots, a demand is sent five
/// times at most, the fourth system rejection is the last, and a detach drains for
/// 144 slots.
pub proof fn law_registration_limits()
    ensures
        T351_TIMEOUT_SLOTS == 706,
        MAX_REGISTRATION_ATTEMPTS == 5,
        N351_MAX_SYSTEM_REJECTIONS == 4,
        DETACH_DRAIN_SLOTS == 144,
{
}

/// A group that the network reports is attached where the report says how and names
/// the group; the attached groups come in the order of the report.
pub proof fn law_attached_groups_are_reported(
    list: Seq<GroupIdentityDownlink>,
    g: GroupIdentityDownlink,
)
    ensures
        attached_of(Seq::empty()).len() == 0,
        g.group_identity_attachment is Some && g.gssi is Some ==> attached_of(list.push(g))
            == attached_of(list).push(g.gssi->0),
        g.group_identity_attachment is None || g.gssi is None ==> attached_of(list.push(g))
            == attached_of(list),
{
    reveal(Seq::filter);
    assert(list.push(g).drop_last() == list);
    let keep = |x: GroupIdentityDownlink| x.group_identity_attachment is Some && x.gssi is Some;
    let name = |x: GroupIdentityDownlink| x.gssi->0;
    if keep(g) {
        assert(list.filter(keep).push(g).map_values(name) == list.filter(keep).map_values(
            name,
        ).push(name(g)));
    }
}

/// An accept without a list of groups attaches none; one with a list attaches those
/// that the list reports.
pub proof fn law_accept_reports_groups(accept: GroupIdentityLocationAccept)
    ensures
        accept.group_identity_downlink is None ==> attached_by(accept).len() == 0,
        accept.group_identity_downlink matches Some(l) ==> attached_by(accept) == attached_of(l@),
{
}

/// A report of the network is handed on with its mark and the groups that it
/// attaches. Without a report, the attachment has failed where groups were asked
/// for, and was not requested where none were. There is one such outcome, but for
/// how its list is held.
pub proof fn law_group_outcome(
    outcome: GroupOutcome,
    reported: Option<GroupIdentityLocationAccept>,
    groups: Seq<u32>,
)
    requires
        outcome_fits(outcome, reported, groups),
    ensures
        outcome is Reported <==> reported is Some,
        outcome is AssumedFailed <==> reported is None && groups.len() > 0,
        outcome is NotRequested <==> reported is None && groups.len() == 0,
        outcome matches GroupOutcome::Reported { accept_reject, attached } ==> {
            &&& accept_reject == reported->0.group_identity_accept_reject
            &&& reported->0.group_identity_downlink is None ==> attached@.len() == 0
            &&& reported->0.group_identity_downlink matches Some(l) ==> attached@ == attached_of(l@)
        },
{
}

// ---------------------------------------------------------------------------
// The procedure
// ---------------------------------------------------------------------------

/// A demand is sent once, for the own identity and the configured groups; the timer
/// starts at 706 slots, the attempt counts, and nothing else changes.
pub proof fn law_demand_starts_the_timer(v: MmMs)
    requires
        v.config.ms is Some,
        v.attempts < 255,
    ensures
        ({
            let (w, out) = v.after_demand();
            let ms = v.config.ms->0;
            &&& out.len() == 1
            &&& out[0] == demand_msg(ms.issi, ms.attach_groups@)
            &&& w.reg_state is Registering
            &&& w.t351_countdown == 706
            &&& w.attempts == v.attempts + 1
            &&& w == (MmMs {
                reg_state: w.reg_state,
                t351_countdown: w.t351_countdown,
                attempts: w.attempts,
                ..v
            })
        }),
{
}

/// A selected cell starts a registration, with the first demand, exactly where it
/// requires one and the station is neither registered, detaching nor out of the
/// system; otherwise nothing happens.
pub proof fn law_cell_starts_registration(v: MmMs, conf: LmmMleActivateConf)
    ensures
        ({
            let (w, out) = v.after_activate(conf);
            let starts = conf.registration_required && !v.left_system && v.reg_state
                !is Registered && v.reg_state !is Detaching;
            &&& v.starts_registration(conf) == starts
            &&& starts ==> (w, out) == (MmMs { attempts: 0, ..v }).after_demand() && w.attempts
                == 1
            &&& !starts ==> w == v && out.len() == 0
        }),
{
}

/// An accept registers a station that is not registered yet and not detaching: the
/// timer stops and the rejections are forgotten. Any other station it leaves alone.
pub proof fn law_accept_registers(v: MmMs)
    ensures
        ({
            let w = v.after_accept();
            let late = v.reg_state is Registered || v.reg_state is Detaching;
            &&& late ==> w == v
            &&& !late ==> {
                &&& w.reg_state is Registered
                &&& w.t351_countdown == 0
                &&& w.system_rejection_count == 0
                &&& w == (MmMs {
                    reg_state: w.reg_state,
                    t351_countdown: 0,
                    system_rejection_count: 0,
                    ..v
                })
            }
        }),
{
}

/// A rejection counts only while the timer runs, and stops it. A cause that allows
/// another try leaves the registration open while fewer than five demands were
/// sent; every other one, and an unknown cause, ends it. A system rejection is
/// counted, and the fourth makes the station leave.
pub proof fn law_reject_ends_or_retries(v: MmMs, cause: Option<RejectCause>)
    requires
        v.system_rejection_count < 255,
    ensures
        ({
            let w = v.after_reject(cause);
            let counts = v.reg_state is Registering && v.t351_countdown > 0;
            let retry = cause matches Some(c) && reject_action(c) is Retry;
            let system = cause matches Some(c) && reject_action(c) is SystemRejection;
            &&& !counts ==> w == v
            &&& counts ==> {
                &&& w.t351_countdown == 0
                &&& w.reg_state is Registering <==> retry && v.attempts < 5
                &&& !(retry && v.attempts < 5) ==> w.reg_state is Idle
                &&& w.system_rejection_count == v.system_rejection_count + if system {
                    1int
                } else {
                    0int
                }
                &&& w.left_system <==> v.left_system || (system && w.system_rejection_count >= 4)
                &&& w == (MmMs {
                    reg_state: w.reg_state,
                    t351_countdown: 0,
                    system_rejection_count: w.system_rejection_count,
                    left_system: w.left_system,
                    ..v
                })
            }
        }),
{
}

/// A downlink PDU acts by its type: an accept that decodes accepts, a reject that
/// decodes rejects with its cause, and nothing else acts.
pub proof fn law_pdu_acts_by_its_type(v: MmMs, sdu: Seq<bool>, pdu: MmDownlinkPdu)
    ensures
        ({
            let w = v.after_pdu(sdu, pdu);
            let accept = sdu.len() >= 4 && four_bits(sdu) == 5 && pdu is Accept;
            let reject = sdu.len() >= 4 && four_bits(sdu) == 7 && pdu is Reject;
            &&& accept ==> w == v.after_accept()
            &&& reject ==> (pdu matches MmDownlinkPdu::Reject(r) && w == v.after_reject(
                r.reject_cause,
            ))
            &&& !accept && !reject ==> w == v
        }),
{
    law_mm_pdu_types(sdu);
}

/// One slot: a drain and a running timer run down by one; an expired timer sends
/// the demand again while fewer than five were sent, and gives up then. A station
/// that neither registers nor detaches does nothing.
pub proof fn law_slot_drives_registration(v: MmMs)
    ensures
        ({
            let (w, out) = v.after_tick();
            let due = v.reg_state is Registering && v.t351_countdown == 0 && v.attempts < 5;
            &&& v.demand_due() == due
            &&& due ==> (w, out) == v.after_demand()
            &&& !due ==> out.len() == 0
            &&& v.reg_state is Idle || v.reg_state is Registered ==> w == v
            &&& v.reg_state is Detaching ==> w == (MmMs { detach_countdown: w.detach_countdown, ..v
            }) && w.detach_countdown == (if v.detach_countdown == 0 {
                0
            } else {
                v.detach_countdown - 1
            })
            &&& v.reg_state is Registering && v.t351_countdown > 0 ==> w == (MmMs {
                t351_countdown: w.t351_countdown,
                ..v
            }) && w.t351_countdown == v.t351_countdown - 1
            &&& v.reg_state is Registering && v.t351_countdown == 0 && v.attempts >= 5 ==> w
                .reg_state is Idle && w == (MmMs { reg_state: w.reg_state, ..v })
        }),
{
}

/// A registered station detaches at shutdown, once, and drains for 144 slots; any
/// other does nothing.
pub proof fn law_shutdown_detaches(v: MmMs)
    ensures
        ({
            let (w, out) = v.after_begin_deregistration();
            &&& v.reg_state !is Registered ==> w == v && out.len() == 0
            &&& v.reg_state is Registered ==> {
                &&& w.reg_state is Detaching
                &&& w.detach_countdown == 144
                &&& w == (MmMs {
                    reg_state: w.reg_state,
                    detach_countdown: w.detach_countdown,
                    ..v
                })
                &&& out.len() == 1
                &&& v.config.ms matches Some(ms) ==> out[0] == detach_msg(ms.issi)
            }
        }),
{
}

/// A detach is on its way from the shutdown on, for 144 slots and no longer, and
/// only for a station that was registered.
pub proof fn law_detach_is_pending_while_it_drains(v: MmMs)
    ensures
        v.reg_state is Registered ==> v.after_begin_deregistration().0.detach_pending(),
        v.reg_state !is Detaching ==> !v.detach_pending(),
        v.detach_pending() ==> (v.after_tick().0.detach_pending() <==> v.detach_countdown > 1),
        v.reg_state is Detaching && v.detach_countdown == 0 ==> !v.detach_pending(),
{
}

/// Each primitive has its own effect: an indication by its PDU, silently, and the
/// confirmation of a cell by starting a registration.
pub proof fn law_primitives_drive_registration(v: MmMs, m: MsgView, pdu: MmDownlinkPdu)
    ensures
        m.msg matches SapMsgInner::LmmMleUnitdataInd { sdu, handle, received_address } ==> {
            let (w, out) = v.after_prim(m, pdu);
            w == v.after_pdu(sdu, pdu) && out.len() == 0
        },
        m.msg matches SapMsgInner::LmmMleActivateConf(conf) ==> v.after_prim(m, pdu)
            == v.after_activate(conf),
{
}

/// Mobility management takes every downlink PDU, and every confirmation of a cell
/// but one that starts a registration without an identity to register, at its own
/// access point, and nothing else.
pub proof fn law_primitives_that_are_taken(v: MmMs, m: MsgView)
    ensures
        v.takes(m) <==> m.sap is LmmSap && (m.msg is LmmMleUnitdataInd || (m.msg matches
            SapMsgInner::LmmMleActivateConf(conf) && (v.starts_registration(conf) ==> v.config.ms
            is Some))),
{
}

} // verus!
