//! Physical layer of the mobile station: driven by reception, it follows the
//! downlink, hands bursts to the lower MAC, watches the link, and sends an uplink
//! burst in the slot it was granted.

use vstd::prelude::*;

use crate::bits::BitBuffer;
use crate::sap::{
    normal, BurstType, MessageQueue, Msg, MsgInner, MsgView, PhyBlockNum, PhyBlockType, Sap, SapMsg,
    SapMsgInner, TetraEntity, TpUnitdataReqSlot, TrainingSequence,
};
use crate::tdma::TdmaTime;
use crate::umac::uplink::{nothing, Emitted};

verus! {

/// Slots without a burst after which the downlink has failed.
pub const DOWNLINK_FAILURE_SLOTS: u32 = 50;

/// Slots between two reports of the receive level.
pub const RSSI_REPORT_SLOTS: u32 = 18;

/// Cycles without a slot after which the dwell on a carrier has elapsed.
pub const SCAN_DWELL_CYCLES: u32 = 200;

/// Slots by which the uplink follows the downlink (cl. 9.3.9).
pub const UPLINK_TIMESLOT_OFFSET: i32 = 2;

/// Bits of a downlink slot.
pub const TIMESLOT_TYPE4_BITS: usize = 510;

/// Blocks of a synchronization burst (cl. 9.4.4.2.6).
pub const SB_BLK1_OFFSET: usize = 94;

pub const SB_BLK1_BITS: usize = 120;

pub const SB_BBK_OFFSET: usize = 252;

pub const SB_BBK_BITS: usize = 30;

pub const SB_BLK2_OFFSET: usize = 282;

pub const SB_BLK2_BITS: usize = 216;

/// Blocks of a normal downlink burst (cl. 9.4.4.2.5).
pub const NDB_BLK1_OFFSET: usize = 14;

pub const NDB_BLK2_OFFSET: usize = 282;

pub const NDB_BLK_BITS: usize = 216;

pub const NDB_BBK1_OFFSET: usize = 230;

pub const NDB_BBK1_BITS: usize = 14;

pub const NDB_BBK2_OFFSET: usize = 266;

pub const NDB_BBK2_BITS: usize = 16;

/// Bits of each half of a normal uplink burst (cl. 9.4.4.2.4).
pub const NUB_BLK_BITS: usize = 216;

/// Bits of each half of a control uplink burst (cl. 9.4.4.2.1).
pub const CUB_BLK_BITS: usize = 84;

/// One slot as the demodulator delivers it.
#[derive(Debug)]
pub struct RxSlotBits {
    pub time: TdmaTime,
    pub train_type: TrainingSequence,
    pub bits: BitBuffer,
}

/// An uplink burst that waits for its slot.
#[derive(Debug)]
pub struct PendingTx<B> {
    pub time: TdmaTime,
    pub burst: B,
}

/// The payload of an uplink burst, ready to be laid around its training sequence.
#[derive(Debug)]
pub enum UplinkBlocks<B> {
    /// Normal uplink burst.
    Normal { train_type: TrainingSequence, blk1: B, blk2: B },
    /// Control uplink burst.
    Control { blk: B },
}

/// What the device is asked to do for a primitive.
#[derive(Debug)]
pub enum PhyAction<B> {
    Nothing,
    /// Tune the receiver.
    TuneRx { carrier_hz: u32 },
    /// Tune the transmitter.
    TuneTx { carrier_hz: u32 },
    /// Assemble an uplink burst and queue it for its slot.
    BuildBurst { time: TdmaTime, blocks: UplinkBlocks<B> },
}

impl View for UplinkBlocks<BitBuffer> {
    type V = UplinkBlocks<Seq<bool>>;

    open spec fn view(&self) -> UplinkBlocks<Seq<bool>> {
        match *self {
            UplinkBlocks::Normal { train_type, blk1, blk2 } => UplinkBlocks::Normal {
                train_type,
                blk1: blk1@,
                blk2: blk2@,
            },
            UplinkBlocks::Control { blk } => UplinkBlocks::Control { blk: blk@ },
        }
    }
}

impl View for PhyAction<BitBuffer> {
    type V = PhyAction<Seq<bool>>;

    open spec fn view(&self) -> PhyAction<Seq<bool>> {
        match *self {
            PhyAction::Nothing => PhyAction::Nothing,
            PhyAction::TuneRx { carrier_hz } => PhyAction::TuneRx { carrier_hz },
            PhyAction::TuneTx { carrier_hz } => PhyAction::TuneTx { carrier_hz },
            PhyAction::BuildBurst { time, blocks } => PhyAction::BuildBurst {
                time,
                blocks: blocks@,
            },
        }
    }
}

// ---------------------------------------------------------------------------
// Downlink bursts
// ---------------------------------------------------------------------------

/// A block for the lower MAC.
pub open spec fn rx_block(
    train_type: TrainingSequence,
    burst_type: BurstType,
    block_type: PhyBlockType,
    block_num: PhyBlockNum,
    block: Seq<bool>,
) -> MsgView {
    SapMsg {
        sap: Sap::TpSap,
        src: TetraEntity::Phy,
        dest: TetraEntity::Lmac,
        msg: SapMsgInner::TpUnitdataInd { train_type, burst_type, block_type, block_num, block },
    }
}

/// The broadcast block of a normal downlink burst: both sides of the training
/// sequence.
pub open spec fn ndb_bbk(bits: Seq<bool>) -> Seq<bool> {
    bits.subrange(230, 244) + bits.subrange(266, 282)
}

/// The blocks of a burst, the broadcast block first.
pub open spec fn burst_blocks(train: TrainingSequence, bits: Seq<bool>) -> Emitted {
    match train {
        TrainingSequence::SyncTrainSeq => seq![
            normal(
                rx_block(
                    train,
                    BurstType::SDB,
                    PhyBlockType::BBK,
                    PhyBlockNum::Undefined,
                    bits.subrange(252, 282),
                ),
            ),
            normal(
                rx_block(
                    train,
                    BurstType::SDB,
                    PhyBlockType::SB1,
                    PhyBlockNum::Block1,
                    bits.subrange(94, 214),
                ),
            ),
            normal(
                rx_block(
                    train,
                    BurstType::SDB,
                    PhyBlockType::SB2,
                    PhyBlockNum::Block2,
                    bits.subrange(282, 498),
                ),
            ),
        ],
        TrainingSequence::NormalTrainSeq1 => seq![
            normal(
                rx_block(
                    train,
                    BurstType::NDB,
                    PhyBlockType::BBK,
                    PhyBlockNum::Undefined,
                    ndb_bbk(bits),
                ),
            ),
            normal(
                rx_block(
                    train,
                    BurstType::NDB,
                    PhyBlockType::NDB,
                    PhyBlockNum::Both,
                    bits.subrange(14, 230) + bits.subrange(282, 498),
                ),
            ),
        ],
        TrainingSequence::NormalTrainSeq2 => seq![
            normal(
                rx_block(
                    train,
                    BurstType::NDB,
                    PhyBlockType::BBK,
                    PhyBlockNum::Undefined,
                    ndb_bbk(bits),
                ),
            ),
            normal(
                rx_block(
                    train,
                    BurstType::NDB,
                    PhyBlockType::NDB,
                    PhyBlockNum::Block1,
                    bits.subrange(14, 230),
                ),
            ),
            normal(
                rx_block(
                    train,
                    BurstType::NDB,
                    PhyBlockType::NDB,
                    PhyBlockNum::Block2,
                    bits.subrange(282, 498),
                ),
            ),
        ],
        _ => nothing(),
    }
}

/// Whether a training sequence comes with the bits of a full slot.
pub open spec fn has_blocks(train: TrainingSequence) -> bool {
    train is SyncTrainSeq || train is NormalTrainSeq1 || train is NormalTrainSeq2
}

/// The blocks of all slots of a cycle.
pub open spec fn cycle_blocks(rx: Seq<Option<RxSlotBits>>) -> Emitted
    decreases rx.len(),
{
    if rx.len() == 0 {
        nothing()
    } else {
        cycle_blocks(rx.drop_last()) + match rx.last() {
            Some(s) => burst_blocks(s.train_type, s.bits@),
            None => nothing(),
        }
    }
}

/// The time of the last slot of a cycle.
pub open spec fn cycle_time(rx: Seq<Option<RxSlotBits>>) -> Option<TdmaTime>
    decreases rx.len(),
{
    if rx.len() == 0 {
        None
    } else {
        match rx.last() {
            Some(s) => Some(s.time),
            None => cycle_time(rx.drop_last()),
        }
    }
}

/// Whether any slot of a cycle carries a burst.
pub open spec fn cycle_has_burst(rx: Seq<Option<RxSlotBits>>) -> bool {
    exists|i: int|
        0 <= i < rx.len() && (#[trigger] rx[i] matches Some(s) && s.train_type !is NotFound)
}

/// Every slot with a known training sequence has the bits of a full slot.
pub open spec fn slots_are_full(rx: Seq<Option<RxSlotBits>>) -> bool {
    forall|i: int|
        0 <= i < rx.len() ==> (#[trigger] rx[i] matches Some(s) ==> has_blocks(s.train_type)
            ==> s.bits@.len() == TIMESLOT_TYPE4_BITS)
}

/// The state of the downlink for the mobile link entity.
pub open spec fn monitor_ind(downlink_available: bool, rssi_mdbfs: Option<i32>) -> Emitted {
    seq![
        normal(
            SapMsg {
                sap: Sap::TlmbSap,
                src: TetraEntity::Phy,
                dest: TetraEntity::Mle,
                msg: SapMsgInner::TlmbMonitorInd { downlink_available, rssi_mdbfs },
            },
        ),
    ]
}

/// The dwell on the tuned carrier has elapsed.
pub open spec fn scan_dwell_ind(rssi_mdbfs: Option<i32>) -> Emitted {
    seq![
        normal(
            SapMsg {
                sap: Sap::TlmbSap,
                src: TetraEntity::Phy,
                dest: TetraEntity::Mle,
                msg: SapMsgInner::TlmbScanDwellInd { rssi_mdbfs },
            },
        ),
    ]
}

fn mle_msg(m: MsgInner) -> (r: Msg)
    ensures
        r@ == (SapMsg {
            sap: Sap::TlmbSap,
            src: TetraEntity::Phy,
            dest: TetraEntity::Mle,
            msg: m@,
        }),
{
    SapMsg { sap: Sap::TlmbSap, src: TetraEntity::Phy, dest: TetraEntity::Mle, msg: m }
}

fn send_rxblock_to_lmac(
    queue: &mut MessageQueue,
    train_type: TrainingSequence,
    burst_type: BurstType,
    block_type: PhyBlockType,
    block_num: PhyBlockNum,
    block: BitBuffer,
)
    ensures
        final(queue)@ == old(queue)@.push(
            normal(rx_block(train_type, burst_type, block_type, block_num, block@)),
        ),
{
    queue.push_back(
        SapMsg {
            sap: Sap::TpSap,
            src: TetraEntity::Phy,
            dest: TetraEntity::Lmac,
            msg: SapMsgInner::TpUnitdataInd { train_type, burst_type, block_type, block_num, block },
        },
    );
}

/// The broadcast block of a normal downlink burst.
pub fn extract_ndb_bbk(bits: &BitBuffer) -> (r: BitBuffer)
    requires
        bits@.len() == TIMESLOT_TYPE4_BITS,
    ensures
        r@ == ndb_bbk(bits@),
{
    let mut bbk = bits.slice(NDB_BBK1_OFFSET, NDB_BBK1_OFFSET + NDB_BBK1_BITS);
    bbk.append(&bits.slice(NDB_BBK2_OFFSET, NDB_BBK2_OFFSET + NDB_BBK2_BITS));
    bbk
}

/// Hand the blocks of a burst to the lower MAC; a burst with an unexpected
/// training sequence is dropped.
pub fn split_dl_slot_and_send_to_lmac(
    queue: &mut MessageQueue,
    train: TrainingSequence,
    bits: &BitBuffer,
)
    requires
        has_blocks(train) ==> bits@.len() == TIMESLOT_TYPE4_BITS,
    ensures
        final(queue)@ == old(queue)@ + burst_blocks(train, bits@),
{
    match train {
        TrainingSequence::SyncTrainSeq => {
            send_rxblock_to_lmac(
                queue,
                train,
                BurstType::SDB,
                PhyBlockType::BBK,
                PhyBlockNum::Undefined,
                bits.slice(SB_BBK_OFFSET, SB_BBK_OFFSET + SB_BBK_BITS),
            );
            send_rxblock_to_lmac(
                queue,
                train,
                BurstType::SDB,
                PhyBlockType::SB1,
                PhyBlockNum::Block1,
                bits.slice(SB_BLK1_OFFSET, SB_BLK1_OFFSET + SB_BLK1_BITS),
            );
            send_rxblock_to_lmac(
                queue,
                train,
                BurstType::SDB,
                PhyBlockType::SB2,
                PhyBlockNum::Block2,
                bits.slice(SB_BLK2_OFFSET, SB_BLK2_OFFSET + SB_BLK2_BITS),
            );
        },
        TrainingSequence::NormalTrainSeq1 => {
            send_rxblock_to_lmac(
                queue,
                train,
                BurstType::NDB,
                PhyBlockType::BBK,
                PhyBlockNum::Undefined,
                extract_ndb_bbk(bits),
            );
            let mut blk = bits.slice(NDB_BLK1_OFFSET, NDB_BLK1_OFFSET + NDB_BLK_BITS);
            blk.append(&bits.slice(NDB_BLK2_OFFSET, NDB_BLK2_OFFSET + NDB_BLK_BITS));
            send_rxblock_to_lmac(
                queue,
                train,
                BurstType::NDB,
                PhyBlockType::NDB,
                PhyBlockNum::Both,
                blk,
            );
        },
        TrainingSequence::NormalTrainSeq2 => {
            send_rxblock_to_lmac(
                queue,
                train,
                BurstType::NDB,
                PhyBlockType::BBK,
                PhyBlockNum::Undefined,
                extract_ndb_bbk(bits),
            );
            send_rxblock_to_lmac(
                queue,
                train,
                BurstType::NDB,
                PhyBlockType::NDB,
                PhyBlockNum::Block1,
                bits.slice(NDB_BLK1_OFFSET, NDB_BLK1_OFFSET + NDB_BLK_BITS),
            );
            send_rxblock_to_lmac(
                queue,
                train,
                BurstType::NDB,
                PhyBlockType::NDB,
                PhyBlockNum::Block2,
                bits.slice(NDB_BLK2_OFFSET, NDB_BLK2_OFFSET + NDB_BLK_BITS),
            );
        },
        _ => {},
    }
}

// ---------------------------------------------------------------------------
// Uplink bursts
// ---------------------------------------------------------------------------

/// Whether a transmit request carries the block that its burst needs.
pub open spec fn request_is_full(prim: TpUnitdataReqSlot<Seq<bool>>) -> bool {
    match (prim.burst_type, prim.blk1) {
        (BurstType::NUB, Some(b)) => b.len() >= 432,
        (BurstType::CUB, Some(b)) => b.len() >= 168,
        _ => false,
    }
}

/// The payload of a requested burst.
pub open spec fn uplink_blocks(prim: TpUnitdataReqSlot<Seq<bool>>) -> UplinkBlocks<Seq<bool>> {
    let b = prim.blk1->0;
    if prim.burst_type is NUB {
        UplinkBlocks::Normal {
            train_type: prim.train_type,
            blk1: b.subrange(0, 216),
            blk2: b.subrange(216, 432),
        }
    } else {
        UplinkBlocks::Control { blk: b.subrange(0, 168) }
    }
}

/// The payload of a requested burst.
pub fn build_uplink_blocks(prim: &TpUnitdataReqSlot<BitBuffer>) -> (r: UplinkBlocks<BitBuffer>)
    requires
        request_is_full(prim@),
    ensures
        r@ == uplink_blocks(prim@),
{
    match &prim.blk1 {
        Some(type5) => {
            if prim.burst_type == BurstType::NUB {
                UplinkBlocks::Normal {
                    train_type: prim.train_type,
                    blk1: type5.slice(0, NUB_BLK_BITS),
                    blk2: type5.slice(NUB_BLK_BITS, 2 * NUB_BLK_BITS),
                }
            } else {
                UplinkBlocks::Control { blk: type5.slice(0, 2 * CUB_BLK_BITS) }
            }
        },
        None => UplinkBlocks::Control { blk: BitBuffer::new() },
    }
}

// ---------------------------------------------------------------------------
// The entity
// ---------------------------------------------------------------------------

/// Physical layer of a mobile station, without its device.
#[derive(Debug)]
pub struct PhyMs {
    /// Downlink time, from the last slot.
    pub dltime: TdmaTime,
    /// Whether the downlink is followed.
    pub synced: bool,
    pub slots_without_burst: u32,
    pub slots_since_rssi_report: u32,
    pub unsynced_cycles: u32,
    /// Uplink burst that waits for its slot.
    pub pending_tx: Option<PendingTx<Vec<u8>>>,
    /// Whether the antenna is switched to the transmitter.
    pub tx_path_active: bool,
    /// Whether the transmitter has been tuned to the uplink carrier.
    pub tx_frequency_set: bool,
}

/// The physical layer as contracts speak of it.
#[verifier::ext_equal]
pub struct PhyView {
    pub dltime: TdmaTime,
    pub synced: bool,
    pub slots_without_burst: u32,
    pub slots_since_rssi_report: u32,
    pub unsynced_cycles: u32,
    pub pending_tx: Option<PendingTx<Seq<u8>>>,
    pub tx_path_active: bool,
    pub tx_frequency_set: bool,
}

impl View for PhyMs {
    type V = PhyView;

    open spec fn view(&self) -> PhyView {
        PhyView {
            dltime: self.dltime,
            synced: self.synced,
            slots_without_burst: self.slots_without_burst,
            slots_since_rssi_report: self.slots_since_rssi_report,
            unsynced_cycles: self.unsynced_cycles,
            pending_tx: match self.pending_tx {
                Some(p) => Some(PendingTx { time: p.time, burst: p.burst@ }),
                None => None,
            },
            tx_path_active: self.tx_path_active,
            tx_frequency_set: self.tx_frequency_set,
        }
    }
}

/// What the end of a cycle asks of the device and of the stack.
#[derive(Clone, Copy, Debug, PartialEq, Eq, Structural)]
pub struct CycleEnd {
    /// The recovered downlink time, which drives the stack.
    pub recovered: Option<TdmaTime>,
    /// Switch the antenna back to the receiver.
    pub switch_to_rx: bool,
}

impl PhyView {
    /// Counters stay below their limits, and a burst waits only for a tuned
    /// transmitter.
    pub open spec fn wf(self) -> bool {
        &&& self.slots_without_burst <= DOWNLINK_FAILURE_SLOTS
        &&& self.synced ==> self.slots_without_burst < DOWNLINK_FAILURE_SLOTS
        &&& self.slots_since_rssi_report < RSSI_REPORT_SLOTS
        &&& self.unsynced_cycles < SCAN_DWELL_CYCLES
        &&& self.pending_tx is Some ==> self.tx_frequency_set
    }

    /// The slot of an uplink burst that is requested now.
    pub open spec fn granted(self) -> TdmaTime {
        self.dltime.plus(UPLINK_TIMESLOT_OFFSET as int)
    }

    /// The receiver is tuned to another carrier: reception starts anew.
    pub open spec fn after_tune(self) -> PhyView {
        PhyView {
            synced: false,
            slots_without_burst: 0,
            slots_since_rssi_report: 0,
            unsynced_cycles: 0,
            ..self
        }
    }

    /// The primitives that the entity takes.
    pub open spec fn takes(self, m: MsgView) -> bool {
        match m.sap {
            Sap::TpSap => m.msg matches SapMsgInner::TpUnitdataReq(prim) && (self.tx_frequency_set
                ==> request_is_full(prim)),
            Sap::TpcSap => true,
            _ => false,
        }
    }

    /// The effect of a primitive. An uplink burst is refused until the
    /// transmitter has been tuned.
    pub open spec fn after_prim(self, m: MsgView) -> (PhyView, PhyAction<Seq<bool>>) {
        match m.sap {
            Sap::TpSap => match m.msg {
                SapMsgInner::TpUnitdataReq(prim) if self.tx_frequency_set => (
                    self,
                    PhyAction::BuildBurst { time: self.granted(), blocks: uplink_blocks(prim) },
                ),
                _ => (self, PhyAction::Nothing),
            },
            _ => match m.msg {
                SapMsgInner::TpcTuneReq { carrier_hz } => (
                    self.after_tune(),
                    PhyAction::TuneRx { carrier_hz },
                ),
                SapMsgInner::TpcTxTuneReq { carrier_hz } => (
                    PhyView { tx_frequency_set: true, ..self },
                    PhyAction::TuneTx { carrier_hz },
                ),
                _ => (self, PhyAction::Nothing),
            },
        }
    }

    /// A cycle begins: the antenna goes to the transmitter when a burst waits.
    pub open spec fn after_begin(self) -> (PhyView, bool) {
        if self.pending_tx is Some && !self.tx_path_active {
            (PhyView { tx_path_active: true, ..self }, true)
        } else {
            (self, false)
        }
    }

    /// The slots of a cycle with a recovered time: the link is watched.
    pub open spec fn after_slot(self, time: TdmaTime, has_burst: bool, rssi: Option<i32>) -> (
        PhyView,
        Emitted,
    ) {
        let v = PhyView { dltime: time, ..self };
        if has_burst {
            let v = PhyView { slots_without_burst: 0, ..v };
            if !self.synced {
                (
                    PhyView { synced: true, slots_since_rssi_report: 0, unsynced_cycles: 0, ..v },
                    monitor_ind(true, rssi),
                )
            } else if self.slots_since_rssi_report + 1 >= RSSI_REPORT_SLOTS {
                (PhyView { slots_since_rssi_report: 0, ..v }, monitor_ind(true, rssi))
            } else {
                (
                    PhyView {
                        slots_since_rssi_report: (self.slots_since_rssi_report + 1) as u32,
                        ..v
                    },
                    nothing(),
                )
            }
        } else if self.synced {
            let n = (self.slots_without_burst + 1) as u32;
            let v = PhyView { slots_without_burst: n, ..v };
            if n >= DOWNLINK_FAILURE_SLOTS {
                (PhyView { synced: false, ..v }, monitor_ind(false, rssi))
            } else {
                (v, nothing())
            }
        } else {
            (v, nothing())
        }
    }

    /// Whether the waiting burst has been produced: generation has passed its
    /// slot.
    pub open spec fn burst_is_sent(self, air_time: Option<TdmaTime>) -> bool {
        match (self.pending_tx, air_time) {
            (Some(p), Some(now)) => now.slot_number() > p.time.slot_number(),
            (None, _) => true,
            (Some(_), None) => false,
        }
    }

    /// The burst is retired once it has been produced, and the antenna goes back
    /// to the receiver.
    pub open spec fn after_retire(self, air_time: Option<TdmaTime>) -> (PhyView, bool) {
        if self.tx_path_active && self.burst_is_sent(air_time) {
            (PhyView { pending_tx: None, tx_path_active: false, ..self }, true)
        } else {
            (self, false)
        }
    }

    /// A cycle without a slot: without a downlink, the dwell runs.
    pub open spec fn after_no_slot(self, rssi: Option<i32>) -> (PhyView, Emitted) {
        if self.synced {
            (self, nothing())
        } else if self.unsynced_cycles + 1 >= SCAN_DWELL_CYCLES {
            (PhyView { unsynced_cycles: 0, ..self }, scan_dwell_ind(rssi))
        } else {
            (
                PhyView { unsynced_cycles: (self.unsynced_cycles + 1) as u32, ..self },
                nothing(),
            )
        }
    }

    /// A cycle ends with the slots that the device delivered.
    pub open spec fn after_cycle(
        self,
        rx: Seq<Option<RxSlotBits>>,
        rssi: Option<i32>,
        air_time: Option<TdmaTime>,
    ) -> (PhyView, Emitted, CycleEnd) {
        match cycle_time(rx) {
            Some(time) => {
                let (v, watch) = self.after_slot(time, cycle_has_burst(rx), rssi);
                let (w, back) = v.after_retire(air_time);
                (
                    w,
                    cycle_blocks(rx) + watch,
                    CycleEnd { recovered: Some(time), switch_to_rx: back },
                )
            },
            None => {
                let (v, dwell) = self.after_no_slot(rssi);
                (v, cycle_blocks(rx) + dwell, CycleEnd { recovered: None, switch_to_rx: false })
            },
        }
    }
}

impl PhyMs {
    /// A physical layer that follows no downlink.
    pub fn new() -> (r: PhyMs)
        ensures
            r@.wf(),
            r@ == (PhyView {
                dltime: TdmaTime { t: 1, f: 1, m: 1, h: 0 },
                synced: false,
                slots_without_burst: 0,
                slots_since_rssi_report: 0,
                unsynced_cycles: 0,
                pending_tx: None,
                tx_path_active: false,
                tx_frequency_set: false,
            }),
    {
        PhyMs {
            dltime: TdmaTime::default(),
            synced: false,
            slots_without_burst: 0,
            slots_since_rssi_report: 0,
            unsynced_cycles: 0,
            pending_tx: None,
            tx_path_active: false,
            tx_frequency_set: false,
        }
    }

    /// The slot of an uplink burst that is requested now, in the time basis of
    /// the received downlink.
    pub fn local_uplink_time(&self) -> (r: TdmaTime)
        ensures
            r == self@.granted(),
    {
        self.dltime.add_timeslots(UPLINK_TIMESLOT_OFFSET)
    }

    /// Take a primitive; what the device is to do is returned.
    pub fn rx_prim(&mut self, message: &Msg) -> (r: PhyAction<BitBuffer>)
        requires
            old(self)@.wf(),
            old(self)@.takes(message@),
        ensures
            final(self)@.wf(),
            final(self)@ == old(self)@.after_prim(message@).0,
            r@ == old(self)@.after_prim(message@).1,
    {
        match message.sap {
            Sap::TpSap => {
                if !self.tx_frequency_set {
                    return PhyAction::Nothing;
                }
                match &message.msg {
                    SapMsgInner::TpUnitdataReq(prim) => PhyAction::BuildBurst {
                        time: self.local_uplink_time(),
                        blocks: build_uplink_blocks(prim),
                    },
                    _ => PhyAction::Nothing,
                }
            },
            _ => match &message.msg {
                SapMsgInner::TpcTuneReq { carrier_hz } => {
                    self.synced = false;
                    self.slots_without_burst = 0;
                    self.slots_since_rssi_report = 0;
                    self.unsynced_cycles = 0;
                    PhyAction::TuneRx { carrier_hz: *carrier_hz }
                },
                SapMsgInner::TpcTxTuneReq { carrier_hz } => {
                    self.tx_frequency_set = true;
                    PhyAction::TuneTx { carrier_hz: *carrier_hz }
                },
                _ => PhyAction::Nothing,
            },
        }
    }

    /// Queue an assembled burst for its slot; it takes the place of one that was
    /// not sent yet.
    pub fn queue_burst(&mut self, time: TdmaTime, burst: Vec<u8>)
        requires
            old(self)@.wf(),
            old(self)@.tx_frequency_set,
        ensures
            final(self)@.wf(),
            final(self)@ == (PhyView {
                pending_tx: Some(PendingTx { time, burst: burst@ }),
                ..old(self)@
            }),
    {
        self.pending_tx = Some(PendingTx { time, burst });
    }

    /// Begin a cycle: whether the antenna is to be switched to the transmitter.
    /// The burst to present to the device is the pending one.
    pub fn begin_cycle(&mut self) -> (r: bool)
        requires
            old(self)@.wf(),
        ensures
            final(self)@.wf(),
            final(self)@ == old(self)@.after_begin().0,
            r == old(self)@.after_begin().1,
    {
        if self.pending_tx.is_some() && !self.tx_path_active {
            self.tx_path_active = true;
            true
        } else {
            false
        }
    }

    fn emit_monitor_ind(queue: &mut MessageQueue, downlink_available: bool, rssi_mdbfs: Option<i32>)
        ensures
            final(queue)@ == old(queue)@ + monitor_ind(downlink_available, rssi_mdbfs),
    {
        queue.push_back(mle_msg(SapMsgInner::TlmbMonitorInd { downlink_available, rssi_mdbfs }));
    }

    fn emit_scan_dwell_ind(queue: &mut MessageQueue, rssi_mdbfs: Option<i32>)
        ensures
            final(queue)@ == old(queue)@ + scan_dwell_ind(rssi_mdbfs),
    {
        queue.push_back(mle_msg(SapMsgInner::TlmbScanDwellInd { rssi_mdbfs }));
    }

    /// Watch the link over a cycle that recovered a time.
    pub fn watch_slot(
        &mut self,
        queue: &mut MessageQueue,
        time: TdmaTime,
        has_burst: bool,
        rssi_mdbfs: Option<i32>,
    )
        requires
            old(self)@.wf(),
        ensures
            final(self)@.wf(),
            final(self)@ == old(self)@.after_slot(time, has_burst, rssi_mdbfs).0,
            final(queue)@ == old(queue)@ + old(self)@.after_slot(time, has_burst, rssi_mdbfs).1,
    {
        self.dltime = time;
        if has_burst {
            self.slots_without_burst = 0;
            if !self.synced {
                self.synced = true;
                self.slots_since_rssi_report = 0;
                self.unsynced_cycles = 0;
                Self::emit_monitor_ind(queue, true, rssi_mdbfs);
            } else {
                self.slots_since_rssi_report = self.slots_since_rssi_report + 1;
                if self.slots_since_rssi_report >= RSSI_REPORT_SLOTS {
                    self.slots_since_rssi_report = 0;
                    Self::emit_monitor_ind(queue, true, rssi_mdbfs);
                }
            }
        } else if self.synced {
            self.slots_without_burst = self.slots_without_burst + 1;
            if self.slots_without_burst >= DOWNLINK_FAILURE_SLOTS {
                self.synced = false;
                Self::emit_monitor_ind(queue, false, rssi_mdbfs);
            }
        }
    }

    /// Retire a burst that has been produced; whether the antenna is to be
    /// switched back to the receiver.
    pub fn retire_burst(&mut self, air_time: Option<TdmaTime>) -> (r: bool)
        requires
            old(self)@.wf(),
        ensures
            final(self)@.wf(),
            final(self)@ == old(self)@.after_retire(air_time).0,
            r == old(self)@.after_retire(air_time).1,
    {
        if !self.tx_path_active {
            return false;
        }
        let sent: bool = match (&self.pending_tx, air_time) {
            (Some(p), Some(now)) => now.diff(p.time) > 0,
            (None, _) => true,
            (Some(_), None) => false,
        };
        if sent {
            self.pending_tx = None;
            self.tx_path_active = false;
        }
        sent
    }

    /// End a cycle with the slots that the device delivered, its receive level,
    /// and the slot that it generates now.
    pub fn drive_rx(
        &mut self,
        queue: &mut MessageQueue,
        rx: &Vec<Option<RxSlotBits>>,
        rssi_mdbfs: Option<i32>,
        air_time: Option<TdmaTime>,
    ) -> (r: CycleEnd)
        requires
            old(self)@.wf(),
            slots_are_full(rx@),
        ensures
            final(self)@.wf(),
            final(self)@ == old(self)@.after_cycle(rx@, rssi_mdbfs, air_time).0,
            final(queue)@ == old(queue)@ + old(self)@.after_cycle(rx@, rssi_mdbfs, air_time).1,
            r == old(self)@.after_cycle(rx@, rssi_mdbfs, air_time).2,
    {
        let ghost q0 = queue@;
        let mut recovered: Option<TdmaTime> = None;
        let mut has_burst: bool = false;
        let mut i: usize = 0;
        assert(rx@.take(0) == Seq::<Option<RxSlotBits>>::empty());
        assert(q0 + cycle_blocks(rx@.take(0)) == q0);
        while i < rx.len()
            invariant
                i <= rx@.len(),
                slots_are_full(rx@),
                recovered == cycle_time(rx@.take(i as int)),
                has_burst == cycle_has_burst(rx@.take(i as int)),
                queue@ == q0 + cycle_blocks(rx@.take(i as int)),
            decreases rx@.len() - i,
        {
            let ghost t = rx@.take(i as int);
            let ghost u = rx@.take(i as int + 1);
            assert(u.drop_last() == t && u.last() == rx@[i as int]);
            assert(forall|j: int| 0 <= j < i ==> u[j] == t[j]);
            if let Some(slot) = &rx[i] {
                recovered = Some(slot.time);
                let found: bool = slot.train_type != TrainingSequence::NotFound;
                if found {
                    has_burst = true;
                    split_dl_slot_and_send_to_lmac(queue, slot.train_type, &slot.bits);
                }
                proof {
                    let more = burst_blocks(slot.train_type, slot.bits@);
                    assert(q0 + (cycle_blocks(t) + more) == (q0 + cycle_blocks(t)) + more);
                    if found {
                        assert(u[i as int] matches Some(s) && s.train_type !is NotFound);
                    }
                }
            }
            proof {
                if cycle_has_burst(t) {
                    let j = choose|j: int|
                        0 <= j < t.len() && (#[trigger] t[j] matches Some(s) && s.train_type
                            !is NotFound);
                    assert(u[j] matches Some(s) && s.train_type !is NotFound);
                }
                if cycle_has_burst(u) && !cycle_has_burst(t) {
                    let j = choose|j: int|
                        0 <= j < u.len() && (#[trigger] u[j] matches Some(s) && s.train_type
                            !is NotFound);
                    if j < i {
                        assert(t[j] matches Some(s) && s.train_type !is NotFound);
                    }
                }
            }
            i = i + 1;
        }
        assert(rx@.take(i as int) == rx@);
        match recovered {
            Some(time) => {
                self.watch_slot(queue, time, has_burst, rssi_mdbfs);
                let back: bool = self.retire_burst(air_time);
                CycleEnd { recovered, switch_to_rx: back }
            },
            None => {
                if !self.synced {
                    self.unsynced_cycles = self.unsynced_cycles + 1;
                    if self.unsynced_cycles >= SCAN_DWELL_CYCLES {
                        self.unsynced_cycles = 0;
                        Self::emit_scan_dwell_ind(queue, rssi_mdbfs);
                    }
                }
                CycleEnd { recovered, switch_to_rx: false }
            },
        }
    }
}

} // verus!
