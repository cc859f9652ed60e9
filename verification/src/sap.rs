//! Service access points: the primitives that the entities exchange, and the
//! queue they put them in.
//!
//! A primitive is generic over how it holds bit strings (`B`), identity lists
//! (`L`) and speech bytes (`D`), so that a message and its mathematical view
//! share one definition: [`Msg`] is what runs, [`MsgView`] is what contracts
//! speak of.

use vstd::prelude::*;

use crate::bits::BitBuffer;
use crate::tdma::TdmaTime;
use crate::umac::mac_block::MacBlock;

verus! {

/// Service access points of the stack.
#[derive(Clone, Copy, Debug, PartialEq, Eq, Structural)]
pub enum Sap {
    TpSap,
    TpcSap,
    TmvSap,
    TmaSap,
    TmdSap,
    TlmbSap,
    TlmcSap,
    TlaSap,
    TlpdSap,
    LmmSap,
    LcmcSap,
}

/// Entities of the stack.
#[derive(Clone, Copy, Debug, PartialEq, Eq, Hash, Structural)]
pub enum TetraEntity {
    Phy,
    Lmac,
    Umac,
    Llc,
    Mle,
    Mm,
    Cmce,
    Sndcp,
}

/// Kind of a short subscriber identity.
#[derive(Clone, Copy, Debug, PartialEq, Eq, Structural)]
pub enum SsiType {
    Ssi,
    Issi,
    Gssi,
}

/// A 24-bit subscriber address.
#[derive(Clone, Copy, Debug, PartialEq, Eq, Structural)]
pub struct TetraAddress {
    pub ssi: u32,
    pub ssi_type: SsiType,
    /// Whether the identity is sent encrypted.
    pub encrypted: bool,
}

/// The individual address with the given identity, sent in clear.
pub open spec fn issi_address(ssi: u32) -> TetraAddress {
    TetraAddress { ssi, ssi_type: SsiType::Issi, encrypted: false }
}

impl TetraAddress {
    /// The individual address with the given identity, sent in clear.
    pub fn issi(ssi: u32) -> (r: TetraAddress)
        ensures
            r == issi_address(ssi),
    {
        TetraAddress { ssi, ssi_type: SsiType::Issi, encrypted: false }
    }
}

/// Operating mode of the stack.
#[derive(Clone, Copy, Debug, PartialEq, Eq, Structural)]
pub enum StackMode {
    Bs,
    Ms,
    Mon,
}

/// Logical channels of the TMV-SAP.
#[derive(Clone, Copy, Debug, PartialEq, Eq, Structural)]
pub enum LogicalChannel {
    Aach,
    Bsch,
    Bnch,
    SchF,
    SchHd,
    SchHu,
    Stch,
    TchS,
    Clch,
}

/// Physical channel of an uplink burst.
#[derive(Clone, Copy, Debug, PartialEq, Eq, Structural)]
pub enum PhysicalChannel {
    /// Control physical channel.
    Cp,
    /// Traffic physical channel.
    Tp,
}

/// Which half-slot a block occupies.
#[derive(Clone, Copy, Debug, PartialEq, Eq, Structural)]
pub enum PhyBlockNum {
    Undefined,
    Block1,
    Block2,
    Both,
}

/// Training sequences of the physical layer.
#[derive(Clone, Copy, Debug, PartialEq, Eq, Structural)]
pub enum TrainingSequence {
    NotFound,
    NormalTrainSeq1,
    NormalTrainSeq2,
    NormalTrainSeq3,
    ExtendedTrainSeq,
    SyncTrainSeq,
}

/// Burst kinds of the physical layer.
#[derive(Clone, Copy, Debug, PartialEq, Eq, Structural)]
pub enum BurstType {
    /// Synchronization downlink burst.
    SDB,
    /// Normal downlink burst.
    NDB,
    /// Normal uplink burst.
    NUB,
    /// Control uplink burst.
    CUB,
}

/// Block kinds inside a downlink burst.
#[derive(Clone, Copy, Debug, PartialEq, Eq, Structural)]
pub enum PhyBlockType {
    /// Broadcast block.
    BBK,
    /// Synchronization block.
    SB1,
    /// Second block of a synchronization burst.
    SB2,
    /// Block of a normal burst.
    NDB,
}

/// Link service that carries a layer 3 PDU.
#[derive(Clone, Copy, Debug, PartialEq, Eq, Structural)]
pub enum Layer2Service {
    Acknowledged,
    Unacknowledged,
}

/// Handle of a transmit receipt that the link layer shares with the MAC.
#[derive(Clone, Copy, Debug, PartialEq, Eq, Structural)]
pub struct TxReporter {
    pub id: u64,
}

/// What became of the transfer behind a receipt.
#[derive(Clone, Copy, Debug, PartialEq, Eq, Structural)]
pub enum TxOutcome {
    Transmitted,
    Discarded,
}

/// A receipt to be marked with its outcome.
#[derive(Clone, Copy, Debug, PartialEq, Eq, Structural)]
pub struct ReceiptMark {
    pub receipt: TxReporter,
    pub outcome: TxOutcome,
}

/// Uplink transmit priority of a message on its way to its entity.
#[derive(Clone, Copy, Debug, PartialEq, Eq, Structural)]
pub enum MessagePrio {
    Normal,
    Immediate,
}

// ---------------------------------------------------------------------------
// Primitives
// ---------------------------------------------------------------------------

/// TMV-CONFIGURE request: each member that is present is applied.
#[derive(Clone, Copy, Debug, PartialEq, Eq, Structural)]
pub struct TmvConfigureReq {
    pub time: Option<TdmaTime>,
    pub scrambling_code: Option<u32>,
    pub is_traffic: Option<bool>,
    pub blk2_stolen: Option<bool>,
}

/// A TMV-CONFIGURE request that changes nothing.
pub open spec fn configure_nothing() -> TmvConfigureReq {
    TmvConfigureReq { time: None, scrambling_code: None, is_traffic: None, blk2_stolen: None }
}

/// One MAC block to be channel-coded.
#[derive(Debug)]
pub struct TmvUnitdataReq<B> {
    pub mac_block: MacBlock<B>,
    pub logical_channel: LogicalChannel,
    pub scrambling_code: u32,
}

/// TMV-UNITDATA request: what to transmit in one uplink slot.
#[derive(Debug)]
pub struct TmvUnitdataReqSlot<B> {
    pub ts: TdmaTime,
    pub ul_phy_chan: PhysicalChannel,
    pub blk1: Option<TmvUnitdataReq<B>>,
    pub blk2: Option<TmvUnitdataReq<B>>,
    pub bbk: Option<TmvUnitdataReq<B>>,
    /// The network reserved exactly this slot; the burst may not be moved.
    pub reserved_access: bool,
}

/// TMA-UNITDATA indication: a TM-SDU for the link layer.
#[derive(Debug)]
pub struct TmaUnitdataInd<B> {
    pub pdu: Option<B>,
    pub main_address: TetraAddress,
    pub scrambling_code: u32,
    pub endpoint_id: u32,
    pub air_interface_encryption: u8,
    pub new_endpoint_id: Option<u32>,
    pub css_endpoint_id: Option<u32>,
    pub chan_change_response_req: bool,
    pub chan_change_handle: Option<u32>,
    pub chan_info: Option<u32>,
}

/// TMA-UNITDATA request: a TM-SDU to transmit.
#[derive(Debug)]
pub struct TmaUnitdataReq<B> {
    pub pdu: B,
    pub main_address: TetraAddress,
    pub link_id: u32,
    pub endpoint_id: u32,
    pub pdu_priority: Option<u8>,
    pub is_emergency: bool,
    pub stealing_permission: bool,
    pub tx_reporter: Option<TxReporter>,
}

/// Identities of the station, as the MAC is told them.
#[derive(Debug)]
pub struct TlmcValidAddress<L> {
    pub mcc: u16,
    pub mnc: u16,
    /// `None`: leave the individual identity as it is.
    pub individual_ssi: Option<u32>,
    /// `None`: leave the groups as they are.
    pub group_ssis: Option<L>,
}

/// TL-DATA or TL-UNITDATA indication on the basic link.
#[derive(Debug)]
pub struct TlaTlDataIndBl<B> {
    pub main_address: TetraAddress,
    pub link_id: u32,
    pub endpoint_id: u32,
    pub tl_sdu: Option<B>,
}

/// TL-DATA request on the basic link.
#[derive(Debug)]
pub struct TlaTlDataReqBl<B> {
    pub main_address: TetraAddress,
    pub link_id: u32,
    pub endpoint_id: u32,
    pub tl_sdu: B,
    pub pdu_priority: Option<u8>,
    pub is_emergency: bool,
    pub stealing_permission: bool,
    pub chan_alloc: Option<u32>,
    pub tx_reporter: Option<TxReporter>,
    pub subscriber_class: u32,
    pub fcs_flag: bool,
    pub air_interface_encryption: Option<u32>,
    pub stealing_repeats_flag: Option<bool>,
    pub data_class_info: Option<u32>,
    pub req_handle: u32,
    pub graceful_degradation: Option<u32>,
}

/// TL-UNITDATA request on the basic link.
#[derive(Debug)]
pub struct TlaTlUnitdataReqBl<B> {
    pub main_address: TetraAddress,
    pub link_id: u32,
    pub endpoint_id: u32,
    pub tl_sdu: B,
    pub scrambling_code: u32,
    pub pdu_prio: u32,
    pub stealing_permission: bool,
    pub subscriber_class: u32,
    pub fcs_flag: bool,
    pub air_interface_encryption: u32,
    pub data_prio: u32,
    pub packet_data_flag: bool,
    pub n_tlsdu_repeats: Option<u32>,
    pub scheduled_data_status: u32,
    pub max_schedule_interval: Option<u32>,
    pub data_class_info: Option<u32>,
    pub req_handle: u32,
}

/// MLE-UNITDATA request from mobility management.
#[derive(Debug)]
pub struct LmmMleUnitdataReq<B> {
    pub sdu: B,
    pub handle: u32,
    pub address: TetraAddress,
    pub layer2service: Layer2Service,
    pub pdu_priority: Option<u8>,
    pub is_emergency: bool,
    pub tx_reporter: Option<TxReporter>,
    pub stealing_permission: bool,
    pub stealing_repeats_flag: bool,
    pub encryption_flag: bool,
    pub is_null_pdu: bool,
}

/// MLE-UNITDATA request from the circuit mode control entity.
#[derive(Debug)]
pub struct LcmcMleUnitdataReq<B> {
    pub sdu: B,
    pub handle: u32,
    pub main_address: TetraAddress,
    pub link_id: u32,
    pub endpoint_id: u32,
    pub stealing_permission: bool,
    /// Channel allocation request, passed through by its handle.
    pub chan_alloc: Option<u32>,
    pub tx_reporter: Option<TxReporter>,
}

/// MLE-UNITDATA indication to the circuit mode control or the packet data
/// entity.
#[derive(Debug)]
pub struct MleUnitdataInd<B> {
    pub sdu: B,
    pub handle: u32,
    pub received_tetra_address: TetraAddress,
    pub endpoint_id: u32,
    pub link_id: u32,
    pub chan_change_resp_req: bool,
    pub chan_change_handle: Option<u32>,
}

/// MLE-ACTIVATE confirmation: a cell has been selected.
#[derive(Clone, Copy, Debug, PartialEq, Eq, Structural)]
pub struct LmmMleActivateConf {
    pub registration_required: bool,
    pub mcc: u16,
    pub mnc: u16,
    pub la: u16,
    pub system_wide_services: bool,
    pub cell_type: u8,
}

/// One cell found by an operator survey.
#[derive(Clone, Copy, Debug, PartialEq, Eq, Structural)]
pub struct LmmMleScanResultInd {
    pub carrier_hz: u32,
    pub mcc: u16,
    pub mnc: u16,
    pub location_area: Option<u16>,
    pub colour_code: Option<u8>,
    pub rssi_mdbfs: Option<i32>,
    pub registration_required: Option<bool>,
    pub late_entry_supported: bool,
}

/// TP-UNITDATA request: a channel-coded uplink block.
#[derive(Debug)]
pub struct TpUnitdataReqSlot<B> {
    pub train_type: TrainingSequence,
    pub burst_type: BurstType,
    pub blk1: Option<B>,
    pub time: Option<TdmaTime>,
    pub reserved_access: bool,
}

/// The primitives. Levels are in thousandths of a decibel below full scale.
#[derive(Debug)]
pub enum SapMsgInner<B, L, D> {
    TpUnitdataInd {
        train_type: TrainingSequence,
        burst_type: BurstType,
        block_type: PhyBlockType,
        block_num: PhyBlockNum,
        block: B,
    },
    TpUnitdataReq(TpUnitdataReqSlot<B>),
    TpcTuneReq { carrier_hz: u32 },
    TpcTxTuneReq { carrier_hz: u32 },
    TmvConfigureReq(TmvConfigureReq),
    TmvUnitdataReq(TmvUnitdataReqSlot<B>),
    TmvTuneReq { carrier_hz: u32 },
    TmvTxTuneReq { carrier_hz: u32 },
    TmaUnitdataInd(TmaUnitdataInd<B>),
    TmaUnitdataReq(TmaUnitdataReq<B>),
    TmdCircuitDataInd { ts: u8, data: D },
    TmdCircuitDataReq { ts: u8, data: D },
    TlmbSyncInd { endpoint_id: u32, tl_sdu: B },
    TlmbSysinfoInd { endpoint_id: u32, tl_sdu: B, mac_broadcast_info: Option<u32> },
    TlmbMonitorInd { downlink_available: bool, rssi_mdbfs: Option<i32> },
    TlmbScanDwellInd { rssi_mdbfs: Option<i32> },
    TlmcConfigureReq { valid_addresses: Option<TlmcValidAddress<L>> },
    TlmcTuneReq { carrier_hz: u32 },
    TlmcUPlaneConfigureReq { switch_u_plane: bool, tx_grant: bool },
    TlaTlDataIndBl(TlaTlDataIndBl<B>),
    TlaTlUnitdataIndBl(TlaTlDataIndBl<B>),
    TlaTlDataReqBl(TlaTlDataReqBl<B>),
    TlaTlUnitdataReqBl(TlaTlUnitdataReqBl<B>),
    LmmMleUnitdataInd { sdu: B, handle: u32, received_address: TetraAddress },
    LmmMleUnitdataReq(LmmMleUnitdataReq<B>),
    LmmMleActivateConf(LmmMleActivateConf),
    LmmMleBreakInd,
    LmmMleReopenInd,
    LmmMleRssiInd { rssi_mdbfs: Option<i32> },
    LmmMleScanResultInd(LmmMleScanResultInd),
    LmmMleScanCompleteInd { found: u32, scanned: u32 },
    LmmMleIdentitiesReq { issi: u32, attached_gssis: L, detached_gssis: L },
    LmmMleSelectionModeReq { manual: bool },
    LmmMleScanReq { start: bool },
    LmmMleCampReq { carrier_hz: u32, register: bool },
    LcmcMleUnitdataInd(MleUnitdataInd<B>),
    LcmcMleUnitdataReq(LcmcMleUnitdataReq<B>),
    LcmcMleBreakInd { permitted_services: u8 },
    LcmcMleReopenInd,
    LcmcMleConfigureReq { switch_u_plane: bool, tx_grant: bool },
    LtpdMleUnitdataInd(MleUnitdataInd<B>),
}

/// A primitive on its way from one entity to another.
#[derive(Debug)]
pub struct SapMsg<B, L, D> {
    pub sap: Sap,
    pub src: TetraEntity,
    pub dest: TetraEntity,
    pub msg: SapMsgInner<B, L, D>,
}

/// A message as it runs.
pub type Msg = SapMsg<BitBuffer, Vec<u32>, Vec<u8>>;

/// The content of a message as it runs.
pub type MsgInner = SapMsgInner<BitBuffer, Vec<u32>, Vec<u8>>;

/// A message as contracts speak of it.
pub type MsgView = SapMsg<Seq<bool>, Seq<u32>, Seq<u8>>;

/// The content of a message as contracts speak of it.
pub type MsgInnerView = SapMsgInner<Seq<bool>, Seq<u32>, Seq<u8>>;

impl View for TmvUnitdataReq<BitBuffer> {
    type V = TmvUnitdataReq<Seq<bool>>;

    open spec fn view(&self) -> TmvUnitdataReq<Seq<bool>> {
        TmvUnitdataReq {
            mac_block: self.mac_block@,
            logical_channel: self.logical_channel,
            scrambling_code: self.scrambling_code,
        }
    }
}

/// The view of an optional block.
pub open spec fn opt_blk(b: Option<TmvUnitdataReq<BitBuffer>>) -> Option<TmvUnitdataReq<Seq<bool>>> {
    match b {
        Some(x) => Some(x@),
        None => None,
    }
}

/// The view of an optional bit string.
pub open spec fn opt_bits(b: Option<BitBuffer>) -> Option<Seq<bool>> {
    match b {
        Some(x) => Some(x@),
        None => None,
    }
}

/// The view of an optional list of identities.
pub open spec fn opt_list(b: Option<Vec<u32>>) -> Option<Seq<u32>> {
    match b {
        Some(x) => Some(x@),
        None => None,
    }
}

impl View for TmvUnitdataReqSlot<BitBuffer> {
    type V = TmvUnitdataReqSlot<Seq<bool>>;

    open spec fn view(&self) -> TmvUnitdataReqSlot<Seq<bool>> {
        TmvUnitdataReqSlot {
            ts: self.ts,
            ul_phy_chan: self.ul_phy_chan,
            blk1: opt_blk(self.blk1),
            blk2: opt_blk(self.blk2),
            bbk: opt_blk(self.bbk),
            reserved_access: self.reserved_access,
        }
    }
}

impl View for TmaUnitdataInd<BitBuffer> {
    type V = TmaUnitdataInd<Seq<bool>>;

    open spec fn view(&self) -> TmaUnitdataInd<Seq<bool>> {
        TmaUnitdataInd {
            pdu: opt_bits(self.pdu),
            main_address: self.main_address,
            scrambling_code: self.scrambling_code,
            endpoint_id: self.endpoint_id,
            air_interface_encryption: self.air_interface_encryption,
            new_endpoint_id: self.new_endpoint_id,
            css_endpoint_id: self.css_endpoint_id,
            chan_change_response_req: self.chan_change_response_req,
            chan_change_handle: self.chan_change_handle,
            chan_info: self.chan_info,
        }
    }
}

impl View for TmaUnitdataReq<BitBuffer> {
    type V = TmaUnitdataReq<Seq<bool>>;

    open spec fn view(&self) -> TmaUnitdataReq<Seq<bool>> {
        TmaUnitdataReq {
            pdu: self.pdu@,
            main_address: self.main_address,
            link_id: self.link_id,
            endpoint_id: self.endpoint_id,
            pdu_priority: self.pdu_priority,
            is_emergency: self.is_emergency,
            stealing_permission: self.stealing_permission,
            tx_reporter: self.tx_reporter,
        }
    }
}

impl View for TlmcValidAddress<Vec<u32>> {
    type V = TlmcValidAddress<Seq<u32>>;

    open spec fn view(&self) -> TlmcValidAddress<Seq<u32>> {
        TlmcValidAddress {
            mcc: self.mcc,
            mnc: self.mnc,
            individual_ssi: self.individual_ssi,
            group_ssis: opt_list(self.group_ssis),
        }
    }
}

/// The view of optional identities.
pub open spec fn opt_addresses(b: Option<TlmcValidAddress<Vec<u32>>>) -> Option<
    TlmcValidAddress<Seq<u32>>,
> {
    match b {
        Some(x) => Some(x@),
        None => None,
    }
}

impl View for TlaTlDataIndBl<BitBuffer> {
    type V = TlaTlDataIndBl<Seq<bool>>;

    open spec fn view(&self) -> TlaTlDataIndBl<Seq<bool>> {
        TlaTlDataIndBl {
            main_address: self.main_address,
            link_id: self.link_id,
            endpoint_id: self.endpoint_id,
            tl_sdu: opt_bits(self.tl_sdu),
        }
    }
}

impl View for TlaTlDataReqBl<BitBuffer> {
    type V = TlaTlDataReqBl<Seq<bool>>;

    open spec fn view(&self) -> TlaTlDataReqBl<Seq<bool>> {
        TlaTlDataReqBl {
            main_address: self.main_address,
            link_id: self.link_id,
            endpoint_id: self.endpoint_id,
            tl_sdu: self.tl_sdu@,
            pdu_priority: self.pdu_priority,
            is_emergency: self.is_emergency,
            stealing_permission: self.stealing_permission,
            chan_alloc: self.chan_alloc,
            tx_reporter: self.tx_reporter,
            subscriber_class: self.subscriber_class,
            fcs_flag: self.fcs_flag,
            air_interface_encryption: self.air_interface_encryption,
            stealing_repeats_flag: self.stealing_repeats_flag,
            data_class_info: self.data_class_info,
            req_handle: self.req_handle,
            graceful_degradation: self.graceful_degradation,
        }
    }
}

impl View for TlaTlUnitdataReqBl<BitBuffer> {
    type V = TlaTlUnitdataReqBl<Seq<bool>>;

    open spec fn view(&self) -> TlaTlUnitdataReqBl<Seq<bool>> {
        TlaTlUnitdataReqBl {
            main_address: self.main_address,
            link_id: self.link_id,
            endpoint_id: self.endpoint_id,
            tl_sdu: self.tl_sdu@,
            scrambling_code: self.scrambling_code,
            pdu_prio: self.pdu_prio,
            stealing_permission: self.stealing_permission,
            subscriber_class: self.subscriber_class,
            fcs_flag: self.fcs_flag,
            air_interface_encryption: self.air_interface_encryption,
            data_prio: self.data_prio,
            packet_data_flag: self.packet_data_flag,
            n_tlsdu_repeats: self.n_tlsdu_repeats,
            scheduled_data_status: self.scheduled_data_status,
            max_schedule_interval: self.max_schedule_interval,
            data_class_info: self.data_class_info,
            req_handle: self.req_handle,
        }
    }
}

impl View for LmmMleUnitdataReq<BitBuffer> {
    type V = LmmMleUnitdataReq<Seq<bool>>;

    open spec fn view(&self) -> LmmMleUnitdataReq<Seq<bool>> {
        LmmMleUnitdataReq {
            sdu: self.sdu@,
            handle: self.handle,
            address: self.address,
            layer2service: self.layer2service,
            pdu_priority: self.pdu_priority,
            is_emergency: self.is_emergency,
            tx_reporter: self.tx_reporter,
            stealing_permission: self.stealing_permission,
            stealing_repeats_flag: self.stealing_repeats_flag,
            encryption_flag: self.encryption_flag,
            is_null_pdu: self.is_null_pdu,
        }
    }
}

impl View for LcmcMleUnitdataReq<BitBuffer> {
    type V = LcmcMleUnitdataReq<Seq<bool>>;

    open spec fn view(&self) -> LcmcMleUnitdataReq<Seq<bool>> {
        LcmcMleUnitdataReq {
            sdu: self.sdu@,
            handle: self.handle,
            main_address: self.main_address,
            link_id: self.link_id,
            endpoint_id: self.endpoint_id,
            stealing_permission: self.stealing_permission,
            chan_alloc: self.chan_alloc,
            tx_reporter: self.tx_reporter,
        }
    }
}

impl View for MleUnitdataInd<BitBuffer> {
    type V = MleUnitdataInd<Seq<bool>>;

    open spec fn view(&self) -> MleUnitdataInd<Seq<bool>> {
        MleUnitdataInd {
            sdu: self.sdu@,
            handle: self.handle,
            received_tetra_address: self.received_tetra_address,
            endpoint_id: self.endpoint_id,
            link_id: self.link_id,
            chan_change_resp_req: self.chan_change_resp_req,
            chan_change_handle: self.chan_change_handle,
        }
    }
}

impl View for TpUnitdataReqSlot<BitBuffer> {
    type V = TpUnitdataReqSlot<Seq<bool>>;

    open spec fn view(&self) -> TpUnitdataReqSlot<Seq<bool>> {
        TpUnitdataReqSlot {
            train_type: self.train_type,
            burst_type: self.burst_type,
            blk1: opt_bits(self.blk1),
            time: self.time,
            reserved_access: self.reserved_access,
        }
    }
}

impl View for SapMsgInner<BitBuffer, Vec<u32>, Vec<u8>> {
    type V = MsgInnerView;

    open spec fn view(&self) -> MsgInnerView {
        match *self {
            SapMsgInner::TpUnitdataInd {
                train_type,
                burst_type,
                block_type,
                block_num,
                block,
            } => SapMsgInner::TpUnitdataInd {
                train_type,
                burst_type,
                block_type,
                block_num,
                block: block@,
            },
            SapMsgInner::TpUnitdataReq(x) => SapMsgInner::TpUnitdataReq(x@),
            SapMsgInner::TpcTuneReq { carrier_hz } => SapMsgInner::TpcTuneReq { carrier_hz },
            SapMsgInner::TpcTxTuneReq { carrier_hz } => SapMsgInner::TpcTxTuneReq { carrier_hz },
            SapMsgInner::TmvConfigureReq(x) => SapMsgInner::TmvConfigureReq(x),
            SapMsgInner::TmvUnitdataReq(x) => SapMsgInner::TmvUnitdataReq(x@),
            SapMsgInner::TmvTuneReq { carrier_hz } => SapMsgInner::TmvTuneReq { carrier_hz },
            SapMsgInner::TmvTxTuneReq { carrier_hz } => SapMsgInner::TmvTxTuneReq { carrier_hz },
            SapMsgInner::TmaUnitdataInd(x) => SapMsgInner::TmaUnitdataInd(x@),
            SapMsgInner::TmaUnitdataReq(x) => SapMsgInner::TmaUnitdataReq(x@),
            SapMsgInner::TmdCircuitDataInd { ts, data } => SapMsgInner::TmdCircuitDataInd {
                ts,
                data: data@,
            },
            SapMsgInner::TmdCircuitDataReq { ts, data } => SapMsgInner::TmdCircuitDataReq {
                ts,
                data: data@,
            },
            SapMsgInner::TlmbSyncInd { endpoint_id, tl_sdu } => SapMsgInner::TlmbSyncInd {
                endpoint_id,
                tl_sdu: tl_sdu@,
            },
            SapMsgInner::TlmbSysinfoInd {
                endpoint_id,
                tl_sdu,
                mac_broadcast_info,
            } => SapMsgInner::TlmbSysinfoInd { endpoint_id, tl_sdu: tl_sdu@, mac_broadcast_info },
            SapMsgInner::TlmbMonitorInd {
                downlink_available,
                rssi_mdbfs,
            } => SapMsgInner::TlmbMonitorInd { downlink_available, rssi_mdbfs },
            SapMsgInner::TlmbScanDwellInd { rssi_mdbfs } => SapMsgInner::TlmbScanDwellInd {
                rssi_mdbfs,
            },
            SapMsgInner::TlmcConfigureReq { valid_addresses } => SapMsgInner::TlmcConfigureReq {
                valid_addresses: opt_addresses(valid_addresses),
            },
            SapMsgInner::TlmcTuneReq { carrier_hz } => SapMsgInner::TlmcTuneReq { carrier_hz },
            SapMsgInner::TlmcUPlaneConfigureReq {
                switch_u_plane,
                tx_grant,
            } => SapMsgInner::TlmcUPlaneConfigureReq { switch_u_plane, tx_grant },
            SapMsgInner::TlaTlDataIndBl(x) => SapMsgInner::TlaTlDataIndBl(x@),
            SapMsgInner::TlaTlUnitdataIndBl(x) => SapMsgInner::TlaTlUnitdataIndBl(x@),
            SapMsgInner::TlaTlDataReqBl(x) => SapMsgInner::TlaTlDataReqBl(x@),
            SapMsgInner::TlaTlUnitdataReqBl(x) => SapMsgInner::TlaTlUnitdataReqBl(x@),
            SapMsgInner::LmmMleUnitdataInd {
                sdu,
                handle,
                received_address,
            } => SapMsgInner::LmmMleUnitdataInd { sdu: sdu@, handle, received_address },
            SapMsgInner::LmmMleUnitdataReq(x) => SapMsgInner::LmmMleUnitdataReq(x@),
            SapMsgInner::LmmMleActivateConf(x) => SapMsgInner::LmmMleActivateConf(x),
            SapMsgInner::LmmMleBreakInd => SapMsgInner::LmmMleBreakInd,
            SapMsgInner::LmmMleReopenInd => SapMsgInner::LmmMleReopenInd,
            SapMsgInner::LmmMleRssiInd { rssi_mdbfs } => SapMsgInner::LmmMleRssiInd { rssi_mdbfs },
            SapMsgInner::LmmMleScanResultInd(x) => SapMsgInner::LmmMleScanResultInd(x),
            SapMsgInner::LmmMleScanCompleteInd {
                found,
                scanned,
            } => SapMsgInner::LmmMleScanCompleteInd { found, scanned },
            SapMsgInner::LmmMleIdentitiesReq {
                issi,
                attached_gssis,
                detached_gssis,
            } => SapMsgInner::LmmMleIdentitiesReq {
                issi,
                attached_gssis: attached_gssis@,
                detached_gssis: detached_gssis@,
            },
            SapMsgInner::LmmMleSelectionModeReq { manual } => SapMsgInner::LmmMleSelectionModeReq {
                manual,
            },
            SapMsgInner::LmmMleScanReq { start } => SapMsgInner::LmmMleScanReq { start },
            SapMsgInner::LmmMleCampReq { carrier_hz, register } => SapMsgInner::LmmMleCampReq {
                carrier_hz,
                register,
            },
            SapMsgInner::LcmcMleUnitdataInd(x) => SapMsgInner::LcmcMleUnitdataInd(x@),
            SapMsgInner::LcmcMleUnitdataReq(x) => SapMsgInner::LcmcMleUnitdataReq(x@),
            SapMsgInner::LcmcMleBreakInd { permitted_services } => SapMsgInner::LcmcMleBreakInd {
                permitted_services,
            },
            SapMsgInner::LcmcMleReopenInd => SapMsgInner::LcmcMleReopenInd,
            SapMsgInner::LcmcMleConfigureReq {
                switch_u_plane,
                tx_grant,
            } => SapMsgInner::LcmcMleConfigureReq { switch_u_plane, tx_grant },
            SapMsgInner::LtpdMleUnitdataInd(x) => SapMsgInner::LtpdMleUnitdataInd(x@),
        }
    }
}

impl View for SapMsg<BitBuffer, Vec<u32>, Vec<u8>> {
    type V = MsgView;

    open spec fn view(&self) -> MsgView {
        SapMsg { sap: self.sap, src: self.src, dest: self.dest, msg: self.msg@ }
    }
}

// ---------------------------------------------------------------------------
// The queue
// ---------------------------------------------------------------------------

/// A queued message and how soon it is to be delivered.
#[derive(Debug)]
pub struct QueueEntry {
    pub prio: MessagePrio,
    pub msg: Msg,
}

impl View for QueueEntry {
    type V = (MessagePrio, MsgView);

    open spec fn view(&self) -> (MessagePrio, MsgView) {
        (self.prio, self.msg@)
    }
}

/// The messages that entities have emitted, in the order of emission.
#[derive(Debug)]
pub struct MessageQueue {
    pub entries: Vec<QueueEntry>,
}

impl View for MessageQueue {
    type V = Seq<(MessagePrio, MsgView)>;

    open spec fn view(&self) -> Seq<(MessagePrio, MsgView)> {
        self.entries@.map_values(|e: QueueEntry| e@)
    }
}

/// A message queued for delivery in its turn.
pub open spec fn normal(m: MsgView) -> (MessagePrio, MsgView) {
    (MessagePrio::Normal, m)
}

/// A message queued for delivery at once.
pub open spec fn immediate(m: MsgView) -> (MessagePrio, MsgView) {
    (MessagePrio::Immediate, m)
}

impl MessageQueue {
    /// An empty queue.
    pub fn new() -> (r: MessageQueue)
        ensures
            r@ == Seq::<(MessagePrio, MsgView)>::empty(),
    {
        MessageQueue { entries: Vec::new() }
    }

    /// Queue a message for delivery in its turn.
    pub fn push_back(&mut self, msg: Msg)
        ensures
            final(self)@ == old(self)@.push(normal(msg@)),
    {
        self.entries.push(QueueEntry { prio: MessagePrio::Normal, msg });
    }

    /// Queue a message with a priority of its own.
    pub fn push_prio(&mut self, msg: Msg, prio: MessagePrio)
        ensures
            final(self)@ == old(self)@.push((prio, msg@)),
    {
        self.entries.push(QueueEntry { prio, msg });
    }

    /// Take the message that was queued first.
    pub fn pop_front(&mut self) -> (r: Option<Msg>)
        ensures
            match r {
                Some(m) => {
                    &&& old(self)@.len() > 0
                    &&& m@ == old(self)@[0].1
                    &&& final(self)@ == old(self)@.skip(1)
                },
                None => old(self)@.len() == 0 && final(self)@ == old(self)@,
            },
    {
        if self.entries.len() == 0 {
            None
        } else {
            let e = self.entries.remove(0);
            Some(e.msg)
        }
    }

    /// Number of queued messages.
    pub fn len(&self) -> (r: usize)
        ensures
            r == self@.len(),
    {
        self.entries.len()
    }
}

/// A message is queued for its turn or for at once; a configuration that sets
/// nothing sets nothing; the individual address of an identity is that identity,
/// in clear.
pub proof fn law_sap_values(m: MsgView, ssi: u32)
    ensures
        normal(m).0 is Normal && normal(m).1 == m,
        immediate(m).0 is Immediate && immediate(m).1 == m,
        configure_nothing().time is None && configure_nothing().scrambling_code is None,
        configure_nothing().is_traffic is None && configure_nothing().blk2_stolen is None,
        issi_address(ssi).ssi == ssi,
        issi_address(ssi).ssi_type is Issi,
        !issi_address(ssi).encrypted,
{
}

} // verus!
