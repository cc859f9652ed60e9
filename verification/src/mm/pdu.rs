//! Mobility management PDUs, as far as registration reads or fills them.

use vstd::prelude::*;

use crate::bits::{bits_value, BitBuffer};
use crate::sap::{LmmMleUnitdataReq, Sap, TetraEntity};

verus! {

/// Location update types (cl. 16.10.35) that registration uses.
#[derive(Clone, Copy, Debug, PartialEq, Eq, Structural)]
pub enum LocationUpdateType {
    RoamingLocationUpdating,
    MigratingLocationUpdating,
    PeriodicLocationUpdating,
    ItsiAttach,
    ServiceRestorationRoamingLocationUpdating,
    ServiceRestorationMigratingLocationUpdating,
    DemandLocationUpdating,
    DisabledMsUpdating,
}

/// One group of an uplink attachment or detachment (cl. 16.10.27).
#[derive(Clone, Copy, Debug, PartialEq, Eq, Structural)]
pub struct GroupIdentityUplink {
    pub class_of_usage: Option<u8>,
    pub group_identity_detachment_uplink: Option<u8>,
    pub gssi: Option<u32>,
    pub address_extension: Option<u64>,
    pub vgssi: Option<u32>,
}

/// Group identity location demand (cl. 16.10.24).
#[derive(Debug)]
pub struct GroupIdentityLocationDemand<L> {
    pub group_identity_attach_detach_mode: u8,
    pub group_identity_uplink: Option<L>,
}

/// U-LOCATION UPDATE DEMAND (cl. 16.9.3.4).
#[derive(Debug)]
pub struct ULocationUpdateDemand<L> {
    pub location_update_type: LocationUpdateType,
    pub request_to_append_la: bool,
    pub cipher_control: bool,
    pub ciphering_parameters: Option<u64>,
    pub class_of_ms: Option<u64>,
    pub energy_saving_mode: Option<u64>,
    pub la_information: Option<u64>,
    pub ssi: Option<u64>,
    pub address_extension: Option<u64>,
    pub group_identity_location_demand: Option<GroupIdentityLocationDemand<L>>,
    pub group_report_response: Option<u64>,
    pub authentication_uplink: Option<u64>,
    pub extended_capabilities: Option<u64>,
    pub proprietary: Option<u64>,
}

/// U-ITSI DETACH (cl. 16.9.3.3).
#[derive(Clone, Copy, Debug, PartialEq, Eq, Structural)]
pub struct UItsiDetach {
    pub address_extension: Option<u64>,
    pub proprietary: Option<u64>,
}

/// The PDUs that mobility management sends.
#[derive(Debug)]
pub enum MmUplinkPdu<L> {
    ULocationUpdateDemand(ULocationUpdateDemand<L>),
    UItsiDetach(UItsiDetach),
}

/// A request of mobility management on its way to the mobile link entity, with
/// the PDU not encoded yet.
#[derive(Debug)]
pub struct MmMsg<L> {
    pub sap: Sap,
    pub src: TetraEntity,
    pub dest: TetraEntity,
    pub msg: LmmMleUnitdataReq<MmUplinkPdu<L>>,
}

/// A list of groups as it runs.
pub type Groups = Vec<GroupIdentityUplink>;

/// A request as contracts speak of it.
pub type MmMsgView = MmMsg<Seq<GroupIdentityUplink>>;

impl View for GroupIdentityLocationDemand<Groups> {
    type V = GroupIdentityLocationDemand<Seq<GroupIdentityUplink>>;

    open spec fn view(&self) -> GroupIdentityLocationDemand<Seq<GroupIdentityUplink>> {
        GroupIdentityLocationDemand {
            group_identity_attach_detach_mode: self.group_identity_attach_detach_mode,
            group_identity_uplink: match self.group_identity_uplink {
                Some(l) => Some(l@),
                None => None,
            },
        }
    }
}

/// The view of an optional group identity location demand.
pub open spec fn opt_demand(d: Option<GroupIdentityLocationDemand<Groups>>) -> Option<
    GroupIdentityLocationDemand<Seq<GroupIdentityUplink>>,
> {
    match d {
        Some(d) => Some(d@),
        None => None,
    }
}

impl View for ULocationUpdateDemand<Groups> {
    type V = ULocationUpdateDemand<Seq<GroupIdentityUplink>>;

    open spec fn view(&self) -> ULocationUpdateDemand<Seq<GroupIdentityUplink>> {
        ULocationUpdateDemand {
            location_update_type: self.location_update_type,
            request_to_append_la: self.request_to_append_la,
            cipher_control: self.cipher_control,
            ciphering_parameters: self.ciphering_parameters,
            class_of_ms: self.class_of_ms,
            energy_saving_mode: self.energy_saving_mode,
            la_information: self.la_information,
            ssi: self.ssi,
            address_extension: self.address_extension,
            group_identity_location_demand: opt_demand(self.group_identity_location_demand),
            group_report_response: self.group_report_response,
            authentication_uplink: self.authentication_uplink,
            extended_capabilities: self.extended_capabilities,
            proprietary: self.proprietary,
        }
    }
}

impl View for MmUplinkPdu<Groups> {
    type V = MmUplinkPdu<Seq<GroupIdentityUplink>>;

    open spec fn view(&self) -> MmUplinkPdu<Seq<GroupIdentityUplink>> {
        match *self {
            MmUplinkPdu::ULocationUpdateDemand(d) => MmUplinkPdu::ULocationUpdateDemand(d@),
            MmUplinkPdu::UItsiDetach(d) => MmUplinkPdu::UItsiDetach(d),
        }
    }
}

impl View for LmmMleUnitdataReq<MmUplinkPdu<Groups>> {
    type V = LmmMleUnitdataReq<MmUplinkPdu<Seq<GroupIdentityUplink>>>;

    open spec fn view(&self) -> LmmMleUnitdataReq<MmUplinkPdu<Seq<GroupIdentityUplink>>> {
        LmmMleUnitdataReq {
            sdu: self.sdu@,
            handle: self.handle,
            address: self.address,
            layer2service: self.layer2service,
            pdu_priority: self.pdu_priority,
            is_emergency: self.is_emergency,
            tx_reporter: self.tx_reporter,
            stealing_permission: self.stealing_permission,
            stealing_repeats_flag: self.stealing_repeats_flag,
            encryption_flag: self.encryption_flag,
            is_null_pdu: self.is_null_pdu,
        }
    }
}

impl View for MmMsg<Groups> {
    type V = MmMsgView;

    open spec fn view(&self) -> MmMsgView {
        MmMsg { sap: self.sap, src: self.src, dest: self.dest, msg: self.msg@ }
    }
}

/// The requests that mobility management has emitted, in order.
#[derive(Debug)]
pub struct MmQueue {
    pub entries: Vec<MmMsg<Groups>>,
}

impl View for MmQueue {
    type V = Seq<MmMsgView>;

    open spec fn view(&self) -> Seq<MmMsgView> {
        self.entries@.map_values(|e: MmMsg<Groups>| e@)
    }
}

impl MmQueue {
    /// An empty queue.
    pub fn new() -> (r: MmQueue)
        ensures
            r@ == Seq::<MmMsgView>::empty(),
    {
        MmQueue { entries: Vec::new() }
    }

    /// Queue a request.
    pub fn push_back(&mut self, msg: MmMsg<Groups>)
        ensures
            final(self)@ == old(self)@.push(msg@),
    {
        self.entries.push(msg);
    }

    /// Take the request that was queued first.
    pub fn pop_front(&mut self) -> (r: Option<MmMsg<Groups>>)
        ensures
            match r {
                Some(m) => {
                    &&& old(self)@.len() > 0
                    &&& m@ == old(self)@[0]
                    &&& final(self)@ == old(self)@.skip(1)
                },
                None => old(self)@.len() == 0 && final(self)@ == old(self)@,
            },
    {
        if self.entries.len() == 0 {
            None
        } else {
            Some(self.entries.remove(0))
        }
    }
}

// ---------------------------------------------------------------------------
// Downlink
// ---------------------------------------------------------------------------

/// Types of downlink PDUs (cl. 16.10.39).
#[derive(Clone, Copy, Debug, PartialEq, Eq, Structural)]
pub enum MmPduTypeDl {
    DOtar,
    DAuthentication,
    DCkChangeDemand,
    DDisable,
    DEnable,
    DLocationUpdateAccept,
    DLocationUpdateCommand,
    DLocationUpdateReject,
    DLocationUpdateProceeding,
    DAttachDetachGroupIdentity,
    DAttachDetachGroupIdentityAcknowledgement,
    DMmStatus,
    MmPduFunctionNotSupported,
}

/// The downlink PDU type with a 4-bit value, if there is one.
pub open spec fn mm_pdu_type_of(v: nat) -> Option<MmPduTypeDl> {
    if v == 0 {
        Some(MmPduTypeDl::DOtar)
    } else if v == 1 {
        Some(MmPduTypeDl::DAuthentication)
    } else if v == 2 {
        Some(MmPduTypeDl::DCkChangeDemand)
    } else if v == 3 {
        Some(MmPduTypeDl::DDisable)
    } else if v == 4 {
        Some(MmPduTypeDl::DEnable)
    } else if v == 5 {
        Some(MmPduTypeDl::DLocationUpdateAccept)
    } else if v == 6 {
        Some(MmPduTypeDl::DLocationUpdateCommand)
    } else if v == 7 {
        Some(MmPduTypeDl::DLocationUpdateReject)
    } else if v == 9 {
        Some(MmPduTypeDl::DLocationUpdateProceeding)
    } else if v == 10 {
        Some(MmPduTypeDl::DAttachDetachGroupIdentity)
    } else if v == 11 {
        Some(MmPduTypeDl::DAttachDetachGroupIdentityAcknowledgement)
    } else if v == 12 {
        Some(MmPduTypeDl::DMmStatus)
    } else if v == 15 {
        Some(MmPduTypeDl::MmPduFunctionNotSupported)
    } else {
        None
    }
}

/// The type of a downlink PDU; none where it is too short or the type is
/// reserved.
pub open spec fn leading_mm_type(sdu: Seq<bool>) -> Option<MmPduTypeDl> {
    if sdu.len() < 4 {
        None
    } else {
        mm_pdu_type_of(bits_value(sdu.take(4)))
    }
}

/// The type of a downlink PDU.
pub fn mm_pdu_type(sdu: &BitBuffer) -> (r: Option<MmPduTypeDl>)
    ensures
        r == leading_mm_type(sdu@),
{
    match sdu.peek_bits(0, 4) {
        None => None,
        Some(v) => {
            assert(sdu@.subrange(0, 4) == sdu@.take(4));
            match v {
                0 => Some(MmPduTypeDl::DOtar),
                1 => Some(MmPduTypeDl::DAuthentication),
                2 => Some(MmPduTypeDl::DCkChangeDemand),
                3 => Some(MmPduTypeDl::DDisable),
                4 => Some(MmPduTypeDl::DEnable),
                5 => Some(MmPduTypeDl::DLocationUpdateAccept),
                6 => Some(MmPduTypeDl::DLocationUpdateCommand),
                7 => Some(MmPduTypeDl::DLocationUpdateReject),
                9 => Some(MmPduTypeDl::DLocationUpdateProceeding),
                10 => Some(MmPduTypeDl::DAttachDetachGroupIdentity),
                11 => Some(MmPduTypeDl::DAttachDetachGroupIdentityAcknowledgement),
                12 => Some(MmPduTypeDl::DMmStatus),
                15 => Some(MmPduTypeDl::MmPduFunctionNotSupported),
                _ => None,
            }
        },
    }
}

/// How a group is attached (cl. 16.10.19).
#[derive(Clone, Copy, Debug, PartialEq, Eq, Structural)]
pub struct GroupIdentityAttachment {
    pub group_identity_attachment_lifetime: u8,
    pub class_of_usage: u8,
}

/// One group of a downlink attachment or detachment (cl. 16.10.22).
#[derive(Clone, Copy, Debug, PartialEq, Eq, Structural)]
pub struct GroupIdentityDownlink {
    pub group_identity_attachment: Option<GroupIdentityAttachment>,
    pub gssi: Option<u32>,
}

/// Group identity location accept (cl. 16.10.23).
#[derive(Debug)]
pub struct GroupIdentityLocationAccept {
    pub group_identity_accept_reject: u8,
    pub group_identity_downlink: Option<Vec<GroupIdentityDownlink>>,
}

/// D-LOCATION UPDATE ACCEPT (cl. 16.9.2.7).
#[derive(Debug)]
pub struct DLocationUpdateAccept {
    pub location_update_accept_type: LocationUpdateType,
    pub ssi: Option<u64>,
    pub group_identity_location_accept: Option<GroupIdentityLocationAccept>,
}

/// Reject causes (cl. 16.10.42) of a registration.
#[derive(Clone, Copy, Debug, PartialEq, Eq, Structural)]
pub enum RejectCause {
    ItsiAtsiUnknown,
    IllegalMs,
    LaNotAllowed,
    LaUnknown,
    NetworkFailure,
    Congestion,
    ForwardRegistrationFailure,
    ServiceNotSubscribed,
    MandatoryElementError,
    MessageConsistencyError,
    RoamingNotSupported,
    MigrationNotSupported,
    UseCaCellNotPermitted,
    UseDaCellNotPermitted,
    /// A security or ciphering cause.
    Security,
}

/// D-LOCATION UPDATE REJECT (cl. 16.9.2.9). The cause is `None` where its value
/// is reserved.
#[derive(Clone, Copy, Debug, PartialEq, Eq, Structural)]
pub struct DLocationUpdateReject {
    pub location_update_type: LocationUpdateType,
    pub reject_cause: Option<RejectCause>,
}

/// What a downlink PDU decodes to, as far as it is acted upon.
#[derive(Debug)]
pub enum MmDownlinkPdu {
    Accept(DLocationUpdateAccept),
    Reject(DLocationUpdateReject),
    /// A PDU of another type, or one that does not decode.
    Other,
}

} // verus!
