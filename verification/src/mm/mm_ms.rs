//! Mobility management of the mobile station: registration by ITSI attach, and
//! de-registration at shutdown (ETSI TS 100 392-2 cl. 16.4, cl. 16.6).

use vstd::prelude::*;

use crate::bits::BitBuffer;
use crate::config::StackConfig;
use crate::mm::pdu::{
    leading_mm_type, mm_pdu_type, DLocationUpdateAccept, DLocationUpdateReject,
    GroupIdentityDownlink, GroupIdentityLocationAccept, GroupIdentityLocationDemand,
    GroupIdentityUplink, Groups, LocationUpdateType, MmDownlinkPdu, MmMsg, MmMsgView, MmPduTypeDl,
    MmQueue, MmUplinkPdu, RejectCause, UItsiDetach, ULocationUpdateDemand,
};
use crate::sap::{
    issi_address, Layer2Service, LmmMleActivateConf, LmmMleUnitdataReq, Msg, MsgView, Sap,
    SapMsgInner, TetraAddress, TetraEntity,
};

verus! {

/// Timer T351, the registration response time (cl. 16.11.1.1): 10 s in downlink
/// timeslots.
pub const T351_TIMEOUT_SLOTS: u32 = 706;

/// Demands that are sent for one registration attempt before it is given up.
pub const MAX_REGISTRATION_ATTEMPTS: u8 = 5;

/// N351, the maximum system rejection count (cl. 16.11.2.1).
pub const N351_MAX_SYSTEM_REJECTIONS: u8 = 4;

/// Downlink timeslots that the stack keeps running after a U-ITSI DETACH.
pub const DETACH_DRAIN_SLOTS: u32 = 144;

/// Class of usage of each group that is attached at registration.
pub const GROUP_CLASS_OF_USAGE: u8 = 4;

/// Registration state.
#[derive(Clone, Copy, Debug, PartialEq, Eq, Structural)]
pub enum RegState {
    /// Not registered, and no attempt under way.
    Idle,
    /// A demand has been sent; the response is awaited.
    Registering,
    /// The registration was accepted.
    Registered,
    /// A detach has been sent at shutdown. Terminal.
    Detaching,
}

/// What a rejection calls for (cl. 16.4.1.1).
#[derive(Clone, Copy, Debug, PartialEq, Eq, Structural)]
pub enum RejectAction {
    /// The registration may be tried again.
    Retry,
    /// The cell is to be given up.
    Abandon,
    /// A system rejection, counted against N351.
    SystemRejection,
}

/// What became of the group attachment that a registration asked for.
#[derive(Debug)]
pub enum GroupOutcome {
    /// The network reported on it; these groups are attached.
    Reported { accept_reject: u8, attached: Vec<u32> },
    /// The network reported nothing though groups are configured: the attachment
    /// is taken to have failed.
    AssumedFailed,
    /// No groups are configured, and none were reported.
    NotRequested,
}

/// Mobility management of a mobile station.
#[derive(Debug)]
pub struct MmMs {
    pub config: StackConfig,
    pub reg_state: RegState,
    /// Timer T351, in downlink slots.
    pub t351_countdown: u32,
    /// Demands sent for the current attempt.
    pub attempts: u8,
    /// System rejections since the last successful registration.
    pub system_rejection_count: u8,
    /// The station has left the system for good.
    pub left_system: bool,
    /// Downlink slots left of the drain after a detach.
    pub detach_countdown: u32,
}

// ---------------------------------------------------------------------------
// The PDUs sent
// ---------------------------------------------------------------------------

/// A group as the demand attaches it.
pub open spec fn attachment(gssi: u32) -> GroupIdentityUplink {
    GroupIdentityUplink {
        class_of_usage: Some(GROUP_CLASS_OF_USAGE),
        group_identity_detachment_uplink: None,
        gssi: Some(gssi),
        address_extension: None,
        vgssi: None,
    }
}

/// The element that attaches the configured groups in place of all others;
/// absent without groups.
pub open spec fn group_demand(groups: Seq<u32>) -> Option<
    GroupIdentityLocationDemand<Seq<GroupIdentityUplink>>,
> {
    if groups.len() == 0 {
        None
    } else {
        Some(
            GroupIdentityLocationDemand {
                group_identity_attach_detach_mode: 1,
                group_identity_uplink: Some(groups.map_values(|g: u32| attachment(g))),
            },
        )
    }
}

/// A request of mobility management for the station's own address.
pub open spec fn mm_msg(issi: u32, pdu: MmUplinkPdu<Seq<GroupIdentityUplink>>) -> MmMsgView {
    MmMsg {
        sap: Sap::LmmSap,
        src: TetraEntity::Mm,
        dest: TetraEntity::Mle,
        msg: LmmMleUnitdataReq {
            sdu: pdu,
            handle: 0,
            address: issi_address(issi),
            layer2service: Layer2Service::Acknowledged,
            pdu_priority: None,
            is_emergency: false,
            tx_reporter: None,
            stealing_permission: false,
            stealing_repeats_flag: false,
            encryption_flag: false,
            is_null_pdu: false,
        },
    }
}

/// The demand for an ITSI attach, with no other optional element than the groups.
pub open spec fn demand_msg(issi: u32, groups: Seq<u32>) -> MmMsgView {
    mm_msg(
        issi,
        MmUplinkPdu::ULocationUpdateDemand(
            ULocationUpdateDemand {
                location_update_type: LocationUpdateType::ItsiAttach,
                request_to_append_la: false,
                cipher_control: false,
                ciphering_parameters: None,
                class_of_ms: None,
                energy_saving_mode: None,
                la_information: None,
                ssi: None,
                address_extension: None,
                group_identity_location_demand: group_demand(groups),
                group_report_response: None,
                authentication_uplink: None,
                extended_capabilities: None,
                proprietary: None,
            },
        ),
    )
}

/// The detach, without optional elements.
pub open spec fn detach_msg(issi: u32) -> MmMsgView {
    mm_msg(
        issi,
        MmUplinkPdu::UItsiDetach(UItsiDetach { address_extension: None, proprietary: None }),
    )
}

// ---------------------------------------------------------------------------
// The procedure, as transitions
// ---------------------------------------------------------------------------

/// The action for each reject cause.
pub open spec fn reject_action(cause: RejectCause) -> RejectAction {
    match cause {
        RejectCause::Congestion
        | RejectCause::NetworkFailure
        | RejectCause::MandatoryElementError
        | RejectCause::MessageConsistencyError => RejectAction::Retry,
        RejectCause::ItsiAtsiUnknown
        | RejectCause::IllegalMs
        | RejectCause::MigrationNotSupported => RejectAction::SystemRejection,
        _ => RejectAction::Abandon,
    }
}

/// The groups that the network reports as attached, in order.
pub open spec fn attached_of(groups: Seq<GroupIdentityDownlink>) -> Seq<u32> {
    groups.filter(
        |g: GroupIdentityDownlink| g.group_identity_attachment is Some && g.gssi is Some,
    ).map_values(|g: GroupIdentityDownlink| g.gssi->0)
}

/// The groups that an accept reports as attached.
pub open spec fn attached_by(accept: GroupIdentityLocationAccept) -> Seq<u32> {
    match accept.group_identity_downlink {
        Some(l) => attached_of(l@),
        None => Seq::empty(),
    }
}

/// Whether an outcome is that of a group attachment, given what the network
/// reported and the groups that were asked for.
pub open spec fn outcome_fits(
    outcome: GroupOutcome,
    reported: Option<GroupIdentityLocationAccept>,
    groups: Seq<u32>,
) -> bool {
    match reported {
        Some(accept) => {
            &&& outcome matches GroupOutcome::Reported { accept_reject, attached }
            &&& accept_reject == accept.group_identity_accept_reject
            &&& attached@ == attached_by(accept)
        },
        None => if groups.len() > 0 {
            outcome is AssumedFailed
        } else {
            outcome is NotRequested
        },
    }
}

impl MmMs {
    /// Timers and counts stay within their limits; a timer runs, and an attempt
    /// is counted, only while a response is awaited, which a station that has
    /// left the system never does.
    pub open spec fn wf(self) -> bool {
        &&& self.t351_countdown <= T351_TIMEOUT_SLOTS
        &&& self.attempts <= MAX_REGISTRATION_ATTEMPTS
        &&& self.detach_countdown <= DETACH_DRAIN_SLOTS
        &&& self.system_rejection_count >= N351_MAX_SYSTEM_REJECTIONS ==> self.left_system
        &&& self.t351_countdown > 0 ==> self.reg_state is Registering
        &&& self.reg_state is Registering ==> {
            &&& self.attempts >= 1
            &&& !self.left_system
        }
    }

    /// Whether the next slot sends a demand again: the timer has expired, and the
    /// limit is not reached.
    pub open spec fn demand_due(self) -> bool {
        &&& self.reg_state is Registering
        &&& self.t351_countdown == 0
        &&& self.attempts < MAX_REGISTRATION_ATTEMPTS
    }

    /// A demand is sent: the timer starts and the attempt counts.
    pub open spec fn after_demand(self) -> (MmMs, Seq<MmMsgView>) {
        (
            MmMs {
                reg_state: RegState::Registering,
                t351_countdown: T351_TIMEOUT_SLOTS,
                attempts: (self.attempts + 1) as u8,
                ..self
            },
            seq![demand_msg(self.config.own_issi()->0, self.config.groups())],
        )
    }

    /// Whether the confirmation of a cell starts a registration.
    pub open spec fn starts_registration(self, conf: LmmMleActivateConf) -> bool {
        &&& !self.left_system
        &&& conf.registration_required
        &&& self.reg_state is Idle || self.reg_state is Registering
    }

    /// A cell has been selected: the registration starts anew where one is
    /// called for.
    pub open spec fn after_activate(self, conf: LmmMleActivateConf) -> (MmMs, Seq<MmMsgView>) {
        if self.starts_registration(conf) {
            MmMs { attempts: 0, ..self }.after_demand()
        } else {
            (self, Seq::empty())
        }
    }

    /// The registration was accepted.
    pub open spec fn after_accept(self) -> MmMs {
        if self.reg_state is Registered || self.reg_state is Detaching {
            self
        } else {
            MmMs {
                reg_state: RegState::Registered,
                t351_countdown: 0,
                system_rejection_count: 0,
                ..self
            }
        }
    }

    /// The registration was rejected; only a rejection that comes while timer T351
    /// runs counts. A new try is made at the next slot.
    pub open spec fn after_reject(self, cause: Option<RejectCause>) -> MmMs {
        if self.reg_state !is Registering || self.t351_countdown == 0 {
            self
        } else {
            let v = MmMs { t351_countdown: 0, ..self };
            let action = match cause {
                Some(c) => reject_action(c),
                None => RejectAction::Abandon,
            };
            match action {
                RejectAction::Retry => if self.attempts < MAX_REGISTRATION_ATTEMPTS {
                    v
                } else {
                    MmMs { reg_state: RegState::Idle, ..v }
                },
                RejectAction::Abandon => MmMs { reg_state: RegState::Idle, ..v },
                RejectAction::SystemRejection => {
                    let n = if self.system_rejection_count < u8::MAX {
                        (self.system_rejection_count + 1) as u8
                    } else {
                        u8::MAX
                    };
                    MmMs {
                        reg_state: RegState::Idle,
                        system_rejection_count: n,
                        left_system: self.left_system || n >= N351_MAX_SYSTEM_REJECTIONS,
                        ..v
                    }
                },
            }
        }
    }

    /// A downlink PDU: its type tells the procedure, its content the outcome.
    pub open spec fn after_pdu(self, sdu: Seq<bool>, pdu: MmDownlinkPdu) -> MmMs {
        match (leading_mm_type(sdu), pdu) {
            (
                Some(MmPduTypeDl::DLocationUpdateAccept),
                MmDownlinkPdu::Accept(_),
            ) => self.after_accept(),
            (
                Some(MmPduTypeDl::DLocationUpdateReject),
                MmDownlinkPdu::Reject(r),
            ) => self.after_reject(r.reject_cause),
            _ => self,
        }
    }

    /// One downlink slot: the drain or the timer runs down; an expired timer
    /// sends the demand again, or gives the attempt up.
    pub open spec fn after_tick(self) -> (MmMs, Seq<MmMsgView>) {
        if self.reg_state is Detaching {
            (
                MmMs {
                    detach_countdown: if self.detach_countdown > 0 {
                        (self.detach_countdown - 1) as u32
                    } else {
                        0
                    },
                    ..self
                },
                Seq::empty(),
            )
        } else if self.reg_state !is Registering {
            (self, Seq::empty())
        } else if self.t351_countdown > 0 {
            (
                MmMs { t351_countdown: (self.t351_countdown - 1) as u32, ..self },
                Seq::empty(),
            )
        } else if self.attempts >= MAX_REGISTRATION_ATTEMPTS {
            (MmMs { reg_state: RegState::Idle, ..self }, Seq::empty())
        } else {
            self.after_demand()
        }
    }

    /// Shutdown: a registered station detaches.
    pub open spec fn after_begin_deregistration(self) -> (MmMs, Seq<MmMsgView>) {
        if self.reg_state is Registered {
            (
                MmMs {
                    reg_state: RegState::Detaching,
                    detach_countdown: DETACH_DRAIN_SLOTS,
                    ..self
                },
                seq![detach_msg(self.config.own_issi()->0)],
            )
        } else {
            (self, Seq::empty())
        }
    }

    /// Whether the detach may still be on its way.
    pub open spec fn detach_pending(self) -> bool {
        self.reg_state is Detaching && self.detach_countdown > 0
    }

    /// The primitives that the entity takes.
    pub open spec fn takes(self, m: MsgView) -> bool {
        &&& m.sap is LmmSap
        &&& match m.msg {
            SapMsgInner::LmmMleUnitdataInd { .. } => true,
            SapMsgInner::LmmMleActivateConf(conf) => self.starts_registration(conf)
                ==> self.config.ms is Some,
            _ => false,
        }
    }

    /// The effect of a primitive; `pdu` is what the SDU of an indication decodes
    /// to.
    pub open spec fn after_prim(self, m: MsgView, pdu: MmDownlinkPdu) -> (MmMs, Seq<MmMsgView>) {
        match m.msg {
            SapMsgInner::LmmMleUnitdataInd { sdu, .. } => (self.after_pdu(sdu, pdu), Seq::empty()),
            SapMsgInner::LmmMleActivateConf(conf) => self.after_activate(conf),
            _ => (self, Seq::empty()),
        }
    }
}

impl MmMs {
    /// A station that is not registered.
    pub fn new(config: StackConfig) -> (r: MmMs)
        ensures
            r.wf(),
            r == (MmMs {
                config,
                reg_state: RegState::Idle,
                t351_countdown: 0,
                attempts: 0,
                system_rejection_count: 0,
                left_system: false,
                detach_countdown: 0,
            }),
    {
        MmMs {
            config,
            reg_state: RegState::Idle,
            t351_countdown: 0,
            attempts: 0,
            system_rejection_count: 0,
            left_system: false,
            detach_countdown: 0,
        }
    }

    /// Replace the configuration.
    pub fn set_config(&mut self, config: StackConfig)
        requires
            old(self).wf(),
        ensures
            final(self).wf(),
            *final(self) == (MmMs { config, ..*old(self) }),
    {
        self.config = config;
    }

    /// Own individual identity.
    pub fn own_issi(&self) -> (r: u32)
        requires
            self.config.ms is Some,
        ensures
            Some(r) == self.config.own_issi(),
    {
        match &self.config.ms {
            Some(ms) => ms.issi,
            None => 0,
        }
    }

    /// The element that attaches the configured groups.
    pub fn build_group_identity_location_demand(&self) -> (r: Option<
        GroupIdentityLocationDemand<Groups>,
    >)
        ensures
            crate::mm::pdu::opt_demand(r) == group_demand(self.config.groups()),
    {
        let groups: &Vec<u32> = match &self.config.ms {
            Some(ms) => &ms.attach_groups,
            None => {
                return None;
            },
        };
        if groups.len() == 0 {
            return None;
        }
        let mut list: Vec<GroupIdentityUplink> = Vec::new();
        let mut i: usize = 0;
        while i < groups.len()
            invariant
                i <= groups@.len(),
                list@ == groups@.take(i as int).map_values(|g: u32| attachment(g)),
            decreases groups@.len() - i,
        {
            list.push(
                GroupIdentityUplink {
                    class_of_usage: Some(GROUP_CLASS_OF_USAGE),
                    group_identity_detachment_uplink: None,
                    gssi: Some(groups[i]),
                    address_extension: None,
                    vgssi: None,
                },
            );
            i = i + 1;
        }
        assert(groups@.take(i as int) == groups@);
        Some(
            GroupIdentityLocationDemand {
                group_identity_attach_detach_mode: 1,
                group_identity_uplink: Some(list),
            },
        )
    }

    /// Whether the next slot sends a demand again.
    pub fn demand_is_due(&self) -> (r: bool)
        ensures
            r == self.demand_due(),
    {
        self.reg_state == RegState::Registering && self.t351_countdown == 0 && self.attempts
            < MAX_REGISTRATION_ATTEMPTS
    }

    /// Send the demand for an ITSI attach.
    pub fn send_location_update_demand(&mut self, queue: &mut MmQueue)
        requires
            old(self).config.ms is Some,
            old(self).attempts < u8::MAX,
        ensures
            *final(self) == old(self).after_demand().0,
            final(queue)@ == old(queue)@ + old(self).after_demand().1,
    {
        let issi: u32 = self.own_issi();
        let demand = self.build_group_identity_location_demand();
        queue.push_back(
            MmMsg {
                sap: Sap::LmmSap,
                src: TetraEntity::Mm,
                dest: TetraEntity::Mle,
                msg: LmmMleUnitdataReq {
                    sdu: MmUplinkPdu::ULocationUpdateDemand(
                        ULocationUpdateDemand {
                            location_update_type: LocationUpdateType::ItsiAttach,
                            request_to_append_la: false,
                            cipher_control: false,
                            ciphering_parameters: None,
                            class_of_ms: None,
                            energy_saving_mode: None,
                            la_information: None,
                            ssi: None,
                            address_extension: None,
                            group_identity_location_demand: demand,
                            group_report_response: None,
                            authentication_uplink: None,
                            extended_capabilities: None,
                            proprietary: None,
                        },
                    ),
                    handle: 0,
                    address: TetraAddress::issi(issi),
                    layer2service: Layer2Service::Acknowledged,
                    pdu_priority: None,
                    is_emergency: false,
                    tx_reporter: None,
                    stealing_permission: false,
                    stealing_repeats_flag: false,
                    encryption_flag: false,
                    is_null_pdu: false,
                },
            },
        );
        self.reg_state = RegState::Registering;
        self.t351_countdown = T351_TIMEOUT_SLOTS;
        self.attempts = self.attempts + 1;
    }

    /// Send the detach.
    pub fn send_itsi_detach(&self, queue: &mut MmQueue)
        requires
            self.config.ms is Some,
        ensures
            final(queue)@ == old(queue)@.push(detach_msg(self.config.own_issi()->0)),
    {
        let issi: u32 = self.own_issi();
        queue.push_back(
            MmMsg {
                sap: Sap::LmmSap,
                src: TetraEntity::Mm,
                dest: TetraEntity::Mle,
                msg: LmmMleUnitdataReq {
                    sdu: MmUplinkPdu::UItsiDetach(
                        UItsiDetach { address_extension: None, proprietary: None },
                    ),
                    handle: 0,
                    address: TetraAddress::issi(issi),
                    layer2service: Layer2Service::Acknowledged,
                    pdu_priority: None,
                    is_emergency: false,
                    tx_reporter: None,
                    stealing_permission: false,
                    stealing_repeats_flag: false,
                    encryption_flag: false,
                    is_null_pdu: false,
                },
            },
        );
    }

    /// Take the confirmation of a selected cell.
    pub fn rx_activate_conf(&mut self, queue: &mut MmQueue, conf: &LmmMleActivateConf)
        requires
            old(self).wf(),
            old(self).starts_registration(*conf) ==> old(self).config.ms is Some,
        ensures
            final(self).wf(),
            *final(self) == old(self).after_activate(*conf).0,
            final(queue)@ == old(queue)@ + old(self).after_activate(*conf).1,
    {
        if self.left_system {
            return ;
        }
        if !conf.registration_required {
            return ;
        }
        if self.reg_state == RegState::Registered {
            return ;
        }
        if self.reg_state == RegState::Detaching {
            return ;
        }
        self.attempts = 0;
        self.send_location_update_demand(queue);
    }

    /// The groups that an accept reports as attached.
    pub fn attached_groups(accept: &GroupIdentityLocationAccept) -> (r: Vec<u32>)
        ensures
            r@ == attached_by(*accept),
    {
        let mut attached: Vec<u32> = Vec::new();
        if let Some(list) = &accept.group_identity_downlink {
            let ghost keep = |g: GroupIdentityDownlink|
                g.group_identity_attachment is Some && g.gssi is Some;
            let mut i: usize = 0;
            assert(list@.take(0).filter(keep).map_values(|g: GroupIdentityDownlink| g.gssi->0)
                == Seq::<u32>::empty()) by {
                reveal(Seq::filter);
            }
            while i < list.len()
                invariant
                    i <= list@.len(),
                    keep == (|g: GroupIdentityDownlink|
                        g.group_identity_attachment is Some && g.gssi is Some),
                    attached@ == list@.take(i as int).filter(keep).map_values(
                        |g: GroupIdentityDownlink| g.gssi->0,
                    ),
                decreases list@.len() - i,
            {
                let g: GroupIdentityDownlink = list[i];
                proof {
                    let t = list@.take(i as int + 1);
                    assert(t.drop_last() == list@.take(i as int));
                    reveal(Seq::filter);
                }
                if g.group_identity_attachment.is_some() {
                    if let Some(gssi) = g.gssi {
                        attached.push(gssi);
                    }
                }
                i = i + 1;
                assert(attached@ == list@.take(i as int).filter(keep).map_values(
                    |g: GroupIdentityDownlink| g.gssi->0,
                ));
            }
            assert(list@.take(i as int) == list@);
        }
        attached
    }

    /// What became of the group attachment that was asked for.
    pub fn group_outcome(&self, pdu: &DLocationUpdateAccept) -> (r: GroupOutcome)
        ensures
            outcome_fits(r, pdu.group_identity_location_accept, self.config.groups()),
    {
        match &pdu.group_identity_location_accept {
            Some(accept) => GroupOutcome::Reported {
                accept_reject: accept.group_identity_accept_reject,
                attached: Self::attached_groups(accept),
            },
            None => {
                let configured: bool = match &self.config.ms {
                    Some(ms) => ms.attach_groups.len() > 0,
                    None => false,
                };
                if configured {
                    GroupOutcome::AssumedFailed
                } else {
                    GroupOutcome::NotRequested
                }
            },
        }
    }

    /// Take a D-LOCATION UPDATE ACCEPT; the outcome of the group attachment is
    /// returned where the accept completes the registration.
    pub fn rx_d_location_update_accept(&mut self, pdu: &DLocationUpdateAccept) -> (r: Option<
        GroupOutcome,
    >)
        requires
            old(self).wf(),
        ensures
            final(self).wf(),
            *final(self) == old(self).after_accept(),
            r is Some <==> !(old(self).reg_state is Registered || old(self).reg_state is Detaching),
            r matches Some(outcome) ==> outcome_fits(
                outcome,
                pdu.group_identity_location_accept,
                old(self).config.groups(),
            ),
    {
        if self.reg_state == RegState::Registered || self.reg_state == RegState::Detaching {
            return None;
        }
        let outcome = self.group_outcome(pdu);
        self.reg_state = RegState::Registered;
        self.t351_countdown = 0;
        self.system_rejection_count = 0;
        Some(outcome)
    }

    /// The action that a reject cause calls for.
    pub fn analyse_reject_cause(cause: RejectCause) -> (r: RejectAction)
        ensures
            r == reject_action(cause),
    {
        match cause {
            RejectCause::Congestion => RejectAction::Retry,
            RejectCause::NetworkFailure => RejectAction::Retry,
            RejectCause::MandatoryElementError => RejectAction::Retry,
            RejectCause::MessageConsistencyError => RejectAction::Retry,
            RejectCause::ItsiAtsiUnknown => RejectAction::SystemRejection,
            RejectCause::IllegalMs => RejectAction::SystemRejection,
            RejectCause::MigrationNotSupported => RejectAction::SystemRejection,
            _ => RejectAction::Abandon,
        }
    }

    /// Take a D-LOCATION UPDATE REJECT.
    pub fn rx_d_location_update_reject(&mut self, pdu: &DLocationUpdateReject)
        requires
            old(self).wf(),
        ensures
            final(self).wf(),
            *final(self) == old(self).after_reject(pdu.reject_cause),
    {
        if self.reg_state != RegState::Registering || self.t351_countdown == 0 {
            return ;
        }
        self.t351_countdown = 0;
        let action = match pdu.reject_cause {
            Some(cause) => Self::analyse_reject_cause(cause),
            None => RejectAction::Abandon,
        };
        match action {
            RejectAction::Retry => {
                if self.attempts >= MAX_REGISTRATION_ATTEMPTS {
                    self.reg_state = RegState::Idle;
                }
            },
            RejectAction::Abandon => {
                self.reg_state = RegState::Idle;
            },
            RejectAction::SystemRejection => {
                if self.system_rejection_count < u8::MAX {
                    self.system_rejection_count = self.system_rejection_count + 1;
                }
                if self.system_rejection_count >= N351_MAX_SYSTEM_REJECTIONS {
                    self.left_system = true;
                }
                self.reg_state = RegState::Idle;
            },
        }
    }

    /// Take a downlink PDU, with what it decodes to.
    pub fn rx_lmm_mle_unitdata_ind(&mut self, sdu: &BitBuffer, pdu: &MmDownlinkPdu)
        requires
            old(self).wf(),
        ensures
            final(self).wf(),
            *final(self) == old(self).after_pdu(sdu@, *pdu),
    {
        match mm_pdu_type(sdu) {
            Some(MmPduTypeDl::DLocationUpdateAccept) => {
                if let MmDownlinkPdu::Accept(p) = pdu {
                    let _ = self.rx_d_location_update_accept(p);
                }
            },
            Some(MmPduTypeDl::DLocationUpdateReject) => {
                if let MmDownlinkPdu::Reject(p) = pdu {
                    self.rx_d_location_update_reject(p);
                }
            },
            _ => {},
        }
    }

    /// Advance by one downlink slot.
    pub fn tick_start(&mut self, queue: &mut MmQueue)
        requires
            old(self).wf(),
            old(self).demand_due() ==> old(self).config.ms is Some,
        ensures
            final(self).wf(),
            *final(self) == old(self).after_tick().0,
            final(queue)@ == old(queue)@ + old(self).after_tick().1,
    {
        if self.reg_state == RegState::Detaching {
            if self.detach_countdown > 0 {
                self.detach_countdown = self.detach_countdown - 1;
            }
            return ;
        }
        if self.reg_state != RegState::Registering {
            return ;
        }
        if self.demand_is_due() {
            self.send_location_update_demand(queue);
        } else if self.t351_countdown > 0 {
            self.t351_countdown = self.t351_countdown - 1;
        } else {
            self.reg_state = RegState::Idle;
        }
    }

    /// Take a primitive of the mobile link entity; `pdu` is what the SDU of an
    /// indication decodes to.
    pub fn rx_prim(&mut self, queue: &mut MmQueue, message: &Msg, pdu: &MmDownlinkPdu)
        requires
            old(self).wf(),
            old(self).takes(message@),
        ensures
            final(self).wf(),
            *final(self) == old(self).after_prim(message@, *pdu).0,
            final(queue)@ == old(queue)@ + old(self).after_prim(message@, *pdu).1,
    {
        match &message.msg {
            SapMsgInner::LmmMleUnitdataInd { sdu, .. } => {
                self.rx_lmm_mle_unitdata_ind(sdu, pdu);
            },
            SapMsgInner::LmmMleActivateConf(conf) => {
                self.rx_activate_conf(queue, conf);
            },
            _ => {},
        }
    }

    /// Begin the de-registration at shutdown; whether a detach was sent.
    pub fn begin_deregistration(&mut self, queue: &mut MmQueue) -> (r: bool)
        requires
            old(self).wf(),
            old(self).reg_state is Registered ==> old(self).config.ms is Some,
        ensures
            final(self).wf(),
            r == (old(self).reg_state is Registered),
            *final(self) == old(self).after_begin_deregistration().0,
            final(queue)@ == old(queue)@ + old(self).after_begin_deregistration().1,
    {
        if self.reg_state != RegState::Registered {
            return false;
        }
        self.send_itsi_detach(queue);
        self.reg_state = RegState::Detaching;
        self.detach_countdown = DETACH_DRAIN_SLOTS;
        true
    }

    /// Whether the detach may still be on its way.
    pub fn deregistration_pending(&self) -> (r: bool)
        ensures
            r == self.detach_pending(),
    {
        self.reg_state == RegState::Detaching && self.detach_countdown > 0
    }
}

} // verus!
