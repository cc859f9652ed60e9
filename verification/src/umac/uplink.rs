//! Uplink side of the mobile station's upper MAC: taking TM-SDUs from the link
//! layer, completing fragmented transfers on granted capacity, and keying the
//! traffic channel (ETSI TS 100 392-2 cl. 23).

use std::collections::VecDeque;

use vstd::prelude::*;

use crate::bits::{bytes_bits, first_bits, zeros, BitBuffer};
use crate::sap::{
    normal, LogicalChannel, MessagePrio, MessageQueue, Msg, MsgInnerView, MsgView, PhysicalChannel,
    Sap, SapMsg, SapMsgInner, TetraEntity, TmaUnitdataReq, TmvUnitdataReq, TmvUnitdataReqSlot,
    TxOutcome, TxReporter,
};
use crate::tdma::{lemma_at_slot, lemma_slot_number_identifies, TdmaTime};
use crate::umac::mac_block::{
    access_block, end_hu_block, end_ul_block, frag_blocks, frag_end_kind, frag_sizing_fits,
    frag_start_block, frag_start_fits, octets_for, stch_block, FragEndKind, MacBlock, MacHeader,
    FRAG_START_SDU_BITS, MAC_ACCESS_HEADER_BITS, MAC_DATA_HEADER_BITS, MAX_END_HU_SDU_BITS,
    MAX_END_UL_SDU_BITS, SCH_HU_TYPE1_BITS, STCH_TYPE1_BITS,
};
use crate::umac::ms_random_access::{AccessCode, RandomAccessParams};
use crate::umac::umac_ms::{
    opt_pending, PendingStolenSignalling, PendingUplink, QueuedUplink, ReservedTxPlan, ReservedView, UmacMs,
    UmacView, UplinkFragment, MAX_UPLINK_QUEUE, TCH_S_TYPE1_BITS,
};

verus! {

/// Capacity that a basic slot grant allocates (cl. 21.5.6).
#[derive(Clone, Copy, Debug, PartialEq, Eq, Structural)]
pub enum BasicSlotgrantCapAlloc {
    FirstSubslotGranted,
    Grant1Slot,
    Grant2Slots,
    Grant3Slots,
    Grant4Slots,
    Grant5Slots,
    Grant6Slots,
    Grant8Slots,
    Grant10Slots,
    Grant13Slots,
    Grant17Slots,
    Grant24Slots,
    Grant34Slots,
    Grant51Slots,
    Grant68Slots,
    SecondSubslotGranted,
}

/// Whole slots that an allocation grants; a subslot counts as none.
pub open spec fn granted_slots(c: BasicSlotgrantCapAlloc) -> int {
    match c {
        BasicSlotgrantCapAlloc::FirstSubslotGranted => 0,
        BasicSlotgrantCapAlloc::Grant1Slot => 1,
        BasicSlotgrantCapAlloc::Grant2Slots => 2,
        BasicSlotgrantCapAlloc::Grant3Slots => 3,
        BasicSlotgrantCapAlloc::Grant4Slots => 4,
        BasicSlotgrantCapAlloc::Grant5Slots => 5,
        BasicSlotgrantCapAlloc::Grant6Slots => 6,
        BasicSlotgrantCapAlloc::Grant8Slots => 8,
        BasicSlotgrantCapAlloc::Grant10Slots => 10,
        BasicSlotgrantCapAlloc::Grant13Slots => 13,
        BasicSlotgrantCapAlloc::Grant17Slots => 17,
        BasicSlotgrantCapAlloc::Grant24Slots => 24,
        BasicSlotgrantCapAlloc::Grant34Slots => 34,
        BasicSlotgrantCapAlloc::Grant51Slots => 51,
        BasicSlotgrantCapAlloc::Grant68Slots => 68,
        BasicSlotgrantCapAlloc::SecondSubslotGranted => 0,
    }
}

impl BasicSlotgrantCapAlloc {
    /// Whole slots that the allocation grants; a subslot counts as none.
    pub fn slot_count(self) -> (r: usize)
        ensures
            r == granted_slots(self),
    {
        match self {
            BasicSlotgrantCapAlloc::FirstSubslotGranted => 0,
            BasicSlotgrantCapAlloc::Grant1Slot => 1,
            BasicSlotgrantCapAlloc::Grant2Slots => 2,
            BasicSlotgrantCapAlloc::Grant3Slots => 3,
            BasicSlotgrantCapAlloc::Grant4Slots => 4,
            BasicSlotgrantCapAlloc::Grant5Slots => 5,
            BasicSlotgrantCapAlloc::Grant6Slots => 6,
            BasicSlotgrantCapAlloc::Grant8Slots => 8,
            BasicSlotgrantCapAlloc::Grant10Slots => 10,
            BasicSlotgrantCapAlloc::Grant13Slots => 13,
            BasicSlotgrantCapAlloc::Grant17Slots => 17,
            BasicSlotgrantCapAlloc::Grant24Slots => 24,
            BasicSlotgrantCapAlloc::Grant34Slots => 34,
            BasicSlotgrantCapAlloc::Grant51Slots => 51,
            BasicSlotgrantCapAlloc::Grant68Slots => 68,
            BasicSlotgrantCapAlloc::SecondSubslotGranted => 0,
        }
    }
}

/// When the granted capacity starts (cl. 23.5.2.2).
#[derive(Clone, Copy, Debug, PartialEq, Eq, Structural)]
pub enum BasicSlotgrantGrantingDelay {
    CapAllocAtNextOpportunity,
    /// Any later start, by its raw value.
    Later(u8),
}

/// Basic slot granting element (cl. 21.5.6).
#[derive(Clone, Copy, Debug, PartialEq, Eq, Structural)]
pub struct BasicSlotgrant {
    pub capacity_allocation: BasicSlotgrantCapAlloc,
    pub granting_delay: BasicSlotgrantGrantingDelay,
}

/// The grant behind an optional reference.
pub open spec fn opt_grant(g: Option<&BasicSlotgrant>) -> Option<BasicSlotgrant> {
    match g {
        Some(g) => Some(*g),
        None => None,
    }
}

/// Messages in the order of emission.
pub type Emitted = Seq<(MessagePrio, MsgView)>;

/// Nothing emitted.
pub open spec fn nothing() -> Emitted {
    Seq::empty()
}

/// A message of the upper MAC to the lower MAC.
pub open spec fn to_lmac(m: MsgInnerView) -> MsgView {
    SapMsg { sap: Sap::TmvSap, src: TetraEntity::Umac, dest: TetraEntity::Lmac, msg: m }
}

/// The request to send `block` as the only block of a control burst in `ts`.
pub open spec fn control_burst(
    ts: TdmaTime,
    block: MacBlock<Seq<bool>>,
    logical_channel: LogicalChannel,
    scrambling_code: u32,
    reserved_access: bool,
) -> MsgView {
    to_lmac(
        SapMsgInner::TmvUnitdataReq(
            TmvUnitdataReqSlot {
                ts,
                ul_phy_chan: PhysicalChannel::Cp,
                blk1: Some(TmvUnitdataReq { mac_block: block, logical_channel, scrambling_code }),
                blk2: None,
                bbk: None,
                reserved_access,
            },
        ),
    )
}

/// The request to send a traffic burst in `ts`.
pub open spec fn traffic_burst(
    ts: TdmaTime,
    blk1: TmvUnitdataReq<Seq<bool>>,
    blk2: Option<TmvUnitdataReq<Seq<bool>>>,
) -> MsgView {
    to_lmac(
        SapMsgInner::TmvUnitdataReq(
            TmvUnitdataReqSlot {
                ts,
                ul_phy_chan: PhysicalChannel::Tp,
                blk1: Some(blk1),
                blk2,
                bbk: None,
                reserved_access: false,
            },
        ),
    )
}

// ---------------------------------------------------------------------------
// Reserved slots
// ---------------------------------------------------------------------------

/// How far the walk over reserved slots is from leaving the linearization
/// channel behind.
pub open spec fn clch_measure(a: TdmaTime) -> int {
    if !a.mandatory_clch() {
        0
    } else if a.wf() {
        1
    } else {
        2
    }
}

proof fn lemma_clch_measure(a: TdmaTime)
    ensures
        a.plus(4).wf(),
        a.mandatory_clch() ==> clch_measure(a.plus(4)) < clch_measure(a),
{
    lemma_at_slot(a.slot_number() + 4);
    if a.wf() {
        lemma_slot_number_identifies(a);
        lemma_slot_number_identifies(a.plus(4));
    }
}

/// The first `n` slots from `cand` on that lie a whole number of frames behind
/// it and do not carry the mandatory linearization channel.
pub open spec fn reserved_slots(cand: TdmaTime, n: nat) -> Seq<TdmaTime>
    decreases n, clch_measure(cand),
    via reserved_slots_decreases
{
    if n == 0 {
        Seq::empty()
    } else if cand.mandatory_clch() {
        reserved_slots(cand.plus(4), n)
    } else {
        seq![cand] + reserved_slots(cand.plus(4), (n - 1) as nat)
    }
}

#[via_fn]
proof fn reserved_slots_decreases(cand: TdmaTime, n: nat) {
    lemma_clch_measure(cand);
}

/// As many slots as asked for, none of which carries the mandatory
/// linearization channel, and all with the timeslot number of the first.
pub proof fn law_reserved_slots(cand: TdmaTime, n: nat)
    requires
        cand.wf(),
    ensures
        reserved_slots(cand, n).len() == n,
        forall|i: int|
            0 <= i < n ==> {
                let s = #[trigger] reserved_slots(cand, n)[i];
                s.wf() && !s.mandatory_clch() && s.t == cand.t
            },
    decreases n, clch_measure(cand),
{
    lemma_clch_measure(cand);
    crate::tdma::lemma_next_frame_keeps_timeslot(cand);
    if n > 0 {
        if cand.mandatory_clch() {
            law_reserved_slots(cand.plus(4), n);
        } else {
            law_reserved_slots(cand.plus(4), (n - 1) as nat);
            let rest = reserved_slots(cand.plus(4), (n - 1) as nat);
            assert forall|i: int| 0 <= i < n implies {
                let s = #[trigger] reserved_slots(cand, n)[i];
                s.wf() && !s.mandatory_clch() && s.t == cand.t
            } by {
                if i > 0 {
                    assert(reserved_slots(cand, n)[i] == rest[i - 1]);
                }
            }
        }
    }
}

impl UmacMs {
    /// The reserved uplink slots of a transfer that starts at `first`.
    pub fn reserved_slot_sequence(first: TdmaTime, total_slots: usize) -> (r: VecDeque<TdmaTime>)
        ensures
            r@ == reserved_slots(first, total_slots as nat),
            r@.len() == total_slots,
    {
        let mut slots: VecDeque<TdmaTime> = VecDeque::new();
        let mut cand: TdmaTime = first;
        while slots.len() < total_slots
            invariant
                slots@.len() <= total_slots,
                slots@ + reserved_slots(cand, (total_slots - slots@.len()) as nat)
                    == reserved_slots(first, total_slots as nat),
            decreases total_slots - slots@.len(), clch_measure(cand),
        {
            proof {
                lemma_clch_measure(cand);
            }
            let ghost before = slots@;
            let ghost left = (total_slots - slots@.len()) as nat;
            if !cand.is_mandatory_clch() {
                slots.push_back(cand);
                proof {
                    let rest = reserved_slots(cand.plus(4), (left - 1) as nat);
                    assert(before + (seq![cand] + rest) == before.push(cand) + rest);
                }
            }
            cand = cand.add_timeslots(4);
        }
        assert(slots@ + Seq::<TdmaTime>::empty() == slots@);
        slots
    }
}

// ---------------------------------------------------------------------------
// Completing fragmented transfers
// ---------------------------------------------------------------------------

impl UmacView {
    /// One downlink slot of a multi-slot transfer: its front block goes out when
    /// the uplink slot paired with the current downlink slot is the front
    /// reserved slot; a reserved slot that has passed ends the transfer.
    pub open spec fn after_reserved(self) -> (UmacView, Emitted) {
        match self.reserved_tx {
            None => (self, nothing()),
            Some(plan) => {
                let ended = UmacView { reserved_tx: None, ..self };
                if plan.slots.len() == 0 {
                    (ended, nothing())
                } else {
                    let late = self.dltime.plus(2).slot_number() - plan.slots[0].slot_number();
                    let burst = control_burst(
                        plan.slots[0],
                        plan.blocks[0],
                        LogicalChannel::SchF,
                        plan.scrambling_code,
                        true,
                    );
                    if late < 0 {
                        (self, nothing())
                    } else if late > 0 {
                        (ended.marked(plan.tx_reporter, TxOutcome::Discarded), nothing())
                    } else if plan.blocks.len() == 1 {
                        (
                            ended.marked(plan.tx_reporter, TxOutcome::Transmitted),
                            seq![normal(burst)],
                        )
                    } else {
                        (
                            UmacView {
                                reserved_tx: Some(
                                    ReservedView {
                                        blocks: plan.blocks.skip(1),
                                        slots: plan.slots.skip(1),
                                        ..plan
                                    },
                                ),
                                ..self
                            },
                            seq![normal(burst)],
                        )
                    }
                }
            },
        }
    }

    /// The remainder can be completed on what was granted: at the next
    /// opportunity, with the capacity that was asked for, and it fits.
    pub open spec fn grant_completes(
        frag: UplinkFragment<Seq<bool>>,
        grant: Option<BasicSlotgrant>,
    ) -> bool {
        &&& grant matches Some(g) && {
            &&& g.granting_delay is CapAllocAtNextOpportunity
            &&& match frag.end_kind {
                FragEndKind::MacEndHu => {
                    &&& g.capacity_allocation is FirstSubslotGranted
                    &&& frag.remainder.len() <= MAX_END_HU_SDU_BITS
                },
                FragEndKind::MacEndUl => {
                    &&& g.capacity_allocation is Grant1Slot
                    &&& frag.remainder.len() <= MAX_END_UL_SDU_BITS
                },
                FragEndKind::MacFragUl { total_slots } => {
                    &&& granted_slots(g.capacity_allocation) >= total_slots
                    &&& frag_sizing_fits(frag.remainder.len() as int, total_slots as int)
                },
            }
        }
    }

    /// The remainder of a fragmented transfer meets the grant that answers its
    /// capacity request: it is sent in the paired uplink slot, or scheduled over
    /// the reserved slots, or dropped with its receipt discarded.
    pub open spec fn after_grant(self, grant: Option<BasicSlotgrant>) -> (UmacView, Emitted) {
        match self.pending_fragment {
            None => (self, nothing()),
            Some(frag) => {
                let taken = UmacView { pending_fragment: None, ..self };
                let ul = self.dltime.plus(2);
                if !UmacView::grant_completes(frag, grant) {
                    (taken.marked(frag.tx_reporter, TxOutcome::Discarded), nothing())
                } else {
                    match frag.end_kind {
                        FragEndKind::MacEndHu => (
                            taken.marked(frag.tx_reporter, TxOutcome::Transmitted),
                            seq![
                                normal(
                                    control_burst(
                                        ul,
                                        end_hu_block(frag.remainder),
                                        LogicalChannel::SchHu,
                                        frag.scrambling_code,
                                        true,
                                    ),
                                ),
                            ],
                        ),
                        FragEndKind::MacEndUl => (
                            taken.marked(frag.tx_reporter, TxOutcome::Transmitted),
                            seq![
                                normal(
                                    control_burst(
                                        ul,
                                        end_ul_block(frag.remainder),
                                        LogicalChannel::SchF,
                                        frag.scrambling_code,
                                        true,
                                    ),
                                ),
                            ],
                        ),
                        FragEndKind::MacFragUl { total_slots } => UmacView {
                            reserved_tx: Some(
                                ReservedView {
                                    blocks: frag_blocks(frag.remainder, total_slots as int),
                                    slots: reserved_slots(ul, total_slots as nat),
                                    scrambling_code: frag.scrambling_code,
                                    tx_reporter: frag.tx_reporter,
                                },
                            ),
                            ..taken
                        }.after_reserved(),
                    }
                }
            },
        }
    }
}

/// The request to send `block` as the only block of a control burst.
fn build_control_burst(
    ts: TdmaTime,
    block: MacBlock<BitBuffer>,
    logical_channel: LogicalChannel,
    scrambling_code: u32,
    reserved_access: bool,
) -> (r: Msg)
    ensures
        r@ == control_burst(ts, block@, logical_channel, scrambling_code, reserved_access),
{
    SapMsg {
        sap: Sap::TmvSap,
        src: TetraEntity::Umac,
        dest: TetraEntity::Lmac,
        msg: SapMsgInner::TmvUnitdataReq(
            TmvUnitdataReqSlot {
                ts,
                ul_phy_chan: PhysicalChannel::Cp,
                blk1: Some(TmvUnitdataReq { mac_block: block, logical_channel, scrambling_code }),
                blk2: None,
                bbk: None,
                reserved_access,
            },
        ),
    }
}

/// The blocks as a double-ended queue, in the same order.
fn into_deque(blocks: Vec<MacBlock<BitBuffer>>) -> (r: VecDeque<MacBlock<BitBuffer>>)
    ensures
        r@.map_values(|b: MacBlock<BitBuffer>| b@) == blocks@.map_values(
            |b: MacBlock<BitBuffer>| b@,
        ),
{
    let ghost f = |b: MacBlock<BitBuffer>| b@;
    let mut r: VecDeque<MacBlock<BitBuffer>> = VecDeque::new();
    let mut i: usize = 0;
    while i < blocks.len()
        invariant
            i <= blocks@.len(),
            f == (|b: MacBlock<BitBuffer>| b@),
            r@.map_values(f) == blocks@.take(i as int).map_values(f),
        decreases blocks@.len() - i,
    {
        let ghost before = r@;
        let b = blocks[i].duplicate();
        r.push_back(b);
        proof {
            assert(r@.map_values(f) == before.map_values(f).push(f(b)));
            assert(blocks@.take(i + 1).map_values(f) == blocks@.take(i as int).map_values(f).push(
                f(blocks@[i as int]),
            ));
        }
        i = i + 1;
    }
    assert(blocks@.take(i as int) == blocks@);
    r
}

impl UmacMs {
    /// Drive the multi-slot transfer under way, if there is one, by one downlink
    /// slot.
    pub fn drive_reserved_tx(&mut self, queue: &mut MessageQueue)
        requires
            old(self)@.wf(),
        ensures
            final(self)@.wf(),
            final(self)@ == old(self)@.after_reserved().0,
            final(queue)@ == old(queue)@ + old(self)@.after_reserved().1,
    {
        let ghost v = self@;
        let mut plan = match self.reserved_tx.take() {
            Some(plan) => plan,
            None => {
                return ;
            },
        };
        let ghost pv = plan@;
        let ul = self.dltime.add_timeslots(2);
        if plan.slots.len() == 0 {
            return ;
        }
        let slot: TdmaTime = plan.slots[0];
        let delta: i32 = ul.diff(slot);
        if delta < 0 {
            self.reserved_tx = Some(plan);
            return ;
        }
        if delta > 0 {
            self.mark(plan.tx_reporter, TxOutcome::Discarded);
            return ;
        }
        let block = match plan.blocks.pop_front() {
            Some(block) => block,
            None => {
                return ;
            },
        };
        let _ = plan.slots.pop_front();
        proof {
            assert(plan@.blocks == pv.blocks.skip(1));
            assert(plan@.slots == pv.slots.skip(1));
            assert(block@ == pv.blocks[0]);
        }
        queue.push_back(
            build_control_burst(slot, block, LogicalChannel::SchF, plan.scrambling_code, true),
        );
        if plan.blocks.len() == 0 {
            self.mark(plan.tx_reporter, TxOutcome::Transmitted);
        } else {
            self.reserved_tx = Some(plan);
        }
    }

    /// Complete the fragmented transfer on the capacity that `grant` gives.
    pub fn emit_fragment_end(&mut self, queue: &mut MessageQueue, grant: Option<&BasicSlotgrant>)
        requires
            old(self)@.wf(),
        ensures
            final(self)@.wf(),
            final(self)@ == old(self)@.after_grant(opt_grant(grant)).0,
            final(queue)@ == old(queue)@ + old(self)@.after_grant(opt_grant(grant)).1,
    {
        let frag = match self.pending_fragment.take() {
            Some(frag) => frag,
            None => {
                return ;
            },
        };
        let grant = match grant {
            Some(grant) => grant,
            None => {
                self.mark(frag.tx_reporter, TxOutcome::Discarded);
                return ;
            },
        };
        match grant.granting_delay {
            BasicSlotgrantGrantingDelay::CapAllocAtNextOpportunity => {},
            BasicSlotgrantGrantingDelay::Later(_) => {
                self.mark(frag.tx_reporter, TxOutcome::Discarded);
                return ;
            },
        }
        let ul = self.dltime.add_timeslots(2);
        if let FragEndKind::MacFragUl { total_slots } = frag.end_kind {
            if grant.capacity_allocation.slot_count() < total_slots {
                self.mark(frag.tx_reporter, TxOutcome::Discarded);
                return ;
            }
            let blocks = match UmacMs::build_ul_frag_blocks(&frag.remainder, total_slots) {
                Some(blocks) => blocks,
                None => {
                    self.mark(frag.tx_reporter, TxOutcome::Discarded);
                    return ;
                },
            };
            let slots = UmacMs::reserved_slot_sequence(ul, total_slots);
            self.reserved_tx = Some(
                ReservedTxPlan {
                    blocks: into_deque(blocks),
                    slots,
                    scrambling_code: frag.scrambling_code,
                    tx_reporter: frag.tx_reporter,
                },
            );
            self.drive_reserved_tx(queue);
            return ;
        }
        let built = match (frag.end_kind, grant.capacity_allocation) {
            (FragEndKind::MacEndHu, BasicSlotgrantCapAlloc::FirstSubslotGranted) => {
                match UmacMs::build_mac_end_hu_block(&frag.remainder) {
                    Some(block) => Some((block, LogicalChannel::SchHu)),
                    None => None,
                }
            },
            (FragEndKind::MacEndUl, BasicSlotgrantCapAlloc::Grant1Slot) => {
                match UmacMs::build_mac_end_ul_block(&frag.remainder) {
                    Some(block) => Some((block, LogicalChannel::SchF)),
                    None => None,
                }
            },
            _ => None,
        };
        match built {
            Some((block, logical_channel)) => {
                queue.push_back(
                    build_control_burst(ul, block, logical_channel, frag.scrambling_code, true),
                );
                self.mark(frag.tx_reporter, TxOutcome::Transmitted);
            },
            None => {
                self.mark(frag.tx_reporter, TxOutcome::Discarded);
            },
        }
    }
}

// ---------------------------------------------------------------------------
// Taking transfers from the link layer
// ---------------------------------------------------------------------------

/// What the random access procedure decides for one downlink slot
/// (cl. 23.5.1.4).
#[derive(Clone, Copy, Debug, PartialEq, Eq, Structural)]
pub enum RaAction {
    /// Transmit in this uplink slot and subslot.
    Transmit { ul_time: TdmaTime, subslot: Subslot },
    /// The attempt was abandoned (cl. 23.5.1.4.9).
    Failed,
    /// The network acknowledged the request (cl. 23.5.1.4.8).
    Succeeded,
}

/// Half of an uplink slot.
#[derive(Clone, Copy, Debug, PartialEq, Eq, Structural)]
pub enum Subslot {
    First,
    Second,
}

/// What to ask of the random access procedure for one downlink slot.
#[derive(Clone, Copy, Debug, PartialEq, Eq, Structural)]
pub enum RaStep {
    /// Nothing to do.
    Wait,
    /// Start an attempt, then let it look at the slot.
    Initiate {
        time: TdmaTime,
        code: AccessCode,
        params: RandomAccessParams,
        pdu_prio: u8,
        is_emergency: bool,
    },
    /// Let the attempt under way look at the slot.
    Poll { time: TdmaTime, params: RandomAccessParams },
}

/// The receipt on an optional block.
pub open spec fn pending_receipt(p: Option<PendingUplink<Seq<bool>>>) -> Option<TxReporter> {
    match p {
        Some(p) => p.tx_reporter,
        None => None,
    }
}

/// The receipt on an optional remainder.
pub open spec fn fragment_receipt(p: Option<UplinkFragment<Seq<bool>>>) -> Option<TxReporter> {
    match p {
        Some(p) => p.tx_reporter,
        None => None,
    }
}

impl UmacView {
    /// Whether a transfer occupies the one place that the MAC has for it.
    pub open spec fn in_flight(self, ra_active: bool) -> bool {
        ||| self.pending_uplink is Some
        ||| self.pending_fragment is Some
        ||| ra_active
        ||| self.reserved_tx is Some
    }

    /// The oldest waiting transfer moves up when nothing is in flight.
    pub open spec fn after_promote(self, ra_active: bool) -> UmacView {
        if self.in_flight(ra_active) || self.uplink_queue.len() == 0 {
            self
        } else {
            UmacView {
                pending_uplink: Some(self.uplink_queue[0].pending),
                pending_fragment: self.uplink_queue[0].fragment,
                uplink_queue: self.uplink_queue.skip(1),
                ..self
            }
        }
    }

    /// A full queue makes room: the oldest transfer goes, its receipts
    /// discarded.
    pub open spec fn after_make_room(self) -> UmacView {
        if self.uplink_queue.len() >= MAX_UPLINK_QUEUE {
            let dropped = self.uplink_queue[0];
            UmacView { uplink_queue: self.uplink_queue.skip(1), ..self }.marked(
                dropped.pending.tx_reporter,
                TxOutcome::Discarded,
            ).marked(fragment_receipt(dropped.fragment), TxOutcome::Discarded)
        } else {
            self
        }
    }

    /// A new transfer takes the place in flight, or waits behind the others.
    pub open spec fn after_transfer(self, t: QueuedUplink<Seq<bool>>, ra_active: bool) -> UmacView {
        if self.in_flight(ra_active) {
            let v = self.after_make_room();
            UmacView { uplink_queue: v.uplink_queue.push(t), ..v }
        } else {
            UmacView { pending_uplink: Some(t.pending), pending_fragment: t.fragment, ..self }
        }
    }

    /// The signalling can steal a half-slot: stealing is permitted, a traffic
    /// channel is assigned, and the SDU fits.
    pub open spec fn steals(self, prim: TmaUnitdataReq<Seq<bool>>) -> bool {
        &&& prim.stealing_permission
        &&& self.assigned_traffic_slots.contains(true)
        &&& 8 * octets_for(MAC_DATA_HEADER_BITS + prim.pdu.len()) <= STCH_TYPE1_BITS
    }

    /// The transfer that carries a TM-SDU by random access: in one MAC-ACCESS
    /// where it fits, otherwise as a first fragment and a remainder.
    pub open spec fn transfer_for(
        self,
        prim: TmaUnitdataReq<Seq<bool>>,
        issi: u32,
        scrambling_code: u32,
    ) -> QueuedUplink<Seq<bool>> {
        let fits = MAC_ACCESS_HEADER_BITS + prim.pdu.len() <= SCH_HU_TYPE1_BITS;
        QueuedUplink {
            pending: PendingUplink {
                mac_block: if fits {
                    access_block(issi, prim.pdu)
                } else {
                    frag_start_block(issi, prim.pdu)
                },
                logical_channel: LogicalChannel::SchHu,
                scrambling_code,
                tx_reporter: if fits {
                    prim.tx_reporter
                } else {
                    None
                },
                pdu_priority: prim.pdu_priority,
                is_emergency: prim.is_emergency,
            },
            fragment: if fits {
                None
            } else {
                Some(
                    UplinkFragment {
                        remainder: prim.pdu.skip(FRAG_START_SDU_BITS as int),
                        scrambling_code,
                        end_kind: frag_end_kind(prim.pdu.len() - FRAG_START_SDU_BITS),
                        tx_reporter: prim.tx_reporter,
                    },
                )
            },
        }
    }

    /// A TM-SDU from the link layer: stolen into the traffic channel, sent by
    /// random access, or dropped where the station is not camped or the SDU
    /// needs more slots than may be reserved.
    pub open spec fn after_tma(self, prim: TmaUnitdataReq<Seq<bool>>, ra_active: bool) -> UmacView {
        match (self.scrambling_code, self.configured_issi) {
            (Some(code), Some(issi)) => if self.steals(prim) {
                UmacView {
                    pending_stolen_signalling: self.pending_stolen_signalling.push(
                        PendingStolenSignalling {
                            mac_block: stch_block(issi, prim.pdu),
                            scrambling_code: code,
                            tx_reporter: prim.tx_reporter,
                        },
                    ),
                    ..self
                }
            } else if MAC_ACCESS_HEADER_BITS + prim.pdu.len() <= SCH_HU_TYPE1_BITS
                || frag_start_fits(prim.pdu.len() as int) {
                self.after_transfer(self.transfer_for(prim, issi, code), ra_active)
            } else {
                self
            },
            _ => self,
        }
    }

    /// The network has acknowledged the random access: a fragmented transfer
    /// goes on with the grant, any other is done.
    pub open spec fn after_acknowledged(self, grant: Option<BasicSlotgrant>) -> (
        UmacView,
        Emitted,
    ) {
        let v = UmacView { pending_uplink: None, ..self };
        if self.pending_fragment is Some {
            v.after_grant(grant)
        } else {
            (v.marked(pending_receipt(self.pending_uplink), TxOutcome::Transmitted), nothing())
        }
    }

    /// The random access was refused or abandoned: the transfer goes, its
    /// receipts discarded.
    pub open spec fn after_abandoned(self) -> UmacView {
        UmacView { pending_uplink: None, pending_fragment: None, ..self }.marked(
            pending_receipt(self.pending_uplink),
            TxOutcome::Discarded,
        ).marked(fragment_receipt(self.pending_fragment), TxOutcome::Discarded)
    }

    /// What to ask of the random access procedure for one downlink slot, with
    /// the default access code.
    pub open spec fn random_access_step(self, ra_active: bool) -> RaStep {
        match (self.access_params.in_force(AccessCode::A), self.pending_uplink) {
            (Some(params), Some(pu)) => if ra_active {
                RaStep::Poll { time: self.dltime, params }
            } else {
                RaStep::Initiate {
                    time: self.dltime,
                    code: AccessCode::A,
                    params,
                    pdu_prio: match pu.pdu_priority {
                        Some(p) => p,
                        None => params.min_pdu_prio,
                    },
                    is_emergency: pu.is_emergency,
                }
            },
            (Some(params), None) => if ra_active {
                RaStep::Poll { time: self.dltime, params }
            } else {
                RaStep::Wait
            },
            (None, _) => RaStep::Wait,
        }
    }

    /// One downlink slot with an ACCESS-ASSIGN: the oldest waiting transfer moves up
    /// into an idle MAC, and what to ask of the random access procedure follows.
    pub open spec fn after_access_slot(self, ra_active: bool) -> (UmacView, RaStep) {
        let v = self.after_promote(ra_active);
        (v, v.random_access_step(ra_active))
    }

    /// What the random access procedure decided for a slot: an opportunity sends the
    /// waiting block, a failure gives the transfer up.
    pub open spec fn after_decision(self, action: Option<RaAction>) -> (UmacView, Emitted) {
        match action {
            Some(RaAction::Transmit { ul_time, .. }) => (self, self.access_burst(ul_time)),
            Some(RaAction::Failed) => (self.after_abandoned(), nothing()),
            _ => (self, nothing()),
        }
    }

    /// The burst that the random access procedure asks for; the block is kept
    /// for a retry.
    pub open spec fn access_burst(self, ul_time: TdmaTime) -> Emitted {
        match self.pending_uplink {
            Some(p) => seq![
                normal(
                    control_burst(
                        ul_time,
                        p.mac_block,
                        p.logical_channel,
                        p.scrambling_code,
                        false,
                    ),
                ),
            ],
            None => nothing(),
        }
    }
}

impl UmacMs {
    /// Whether the network has assigned a traffic slot to the station.
    pub fn has_assigned_traffic_slot(&self) -> (r: bool)
        ensures
            r == self@.assigned_traffic_slots.contains(true),
    {
        let s = &self.assigned_traffic_slots;
        let r: bool = s[0] || s[1] || s[2] || s[3];
        proof {
            let v = self@.assigned_traffic_slots;
            assert(v.len() == 4);
            if r {
                assert(v[0] == true || v[1] == true || v[2] == true || v[3] == true);
            }
        }
        r
    }

    /// Whether a transfer occupies the one place that the MAC has for it.
    /// `ra_active` tells whether a random access attempt is under way.
    pub fn uplink_in_flight(&self, ra_active: bool) -> (r: bool)
        ensures
            r == self@.in_flight(ra_active),
    {
        self.pending_uplink.is_some() || self.pending_fragment.is_some() || ra_active
            || self.reserved_tx.is_some()
    }

    /// Let the oldest waiting transfer move up when nothing is in flight.
    pub fn promote_next_uplink(&mut self, ra_active: bool)
        ensures
            final(self)@ == old(self)@.after_promote(ra_active),
    {
        if self.uplink_in_flight(ra_active) {
            return ;
        }
        if let Some(next) = self.uplink_queue.pop_front() {
            self.pending_fragment = next.fragment;
            self.pending_uplink = Some(next.pending);
            assert(self@.uplink_queue == old(self)@.uplink_queue.skip(1));
        }
    }

    /// Take the block that awaits transmission, if there is one.
    pub fn take_pending_uplink(&mut self) -> (r: Option<PendingUplink<BitBuffer>>)
        ensures
            opt_pending(r) == old(self)@.pending_uplink,
            final(self)@ == (UmacView { pending_uplink: None, ..old(self)@ }),
    {
        self.pending_uplink.take()
    }

    /// Discard the receipts of a waiting transfer that is dropped.
    fn discard_queued_uplink(&mut self, dropped: &QueuedUplink<BitBuffer>)
        ensures
            final(self)@ == old(self)@.marked(
                dropped@.pending.tx_reporter,
                TxOutcome::Discarded,
            ).marked(fragment_receipt(dropped@.fragment), TxOutcome::Discarded),
    {
        self.mark(dropped.pending.tx_reporter, TxOutcome::Discarded);
        if let Some(fragment) = &dropped.fragment {
            self.mark(fragment.tx_reporter, TxOutcome::Discarded);
        }
    }

    /// Put a new transfer in flight, or behind the others.
    fn start_transfer(&mut self, t: QueuedUplink<BitBuffer>, ra_active: bool)
        ensures
            final(self)@ == old(self)@.after_transfer(t@, ra_active),
    {
        if self.uplink_in_flight(ra_active) {
            if self.uplink_queue.len() >= MAX_UPLINK_QUEUE {
                let ghost v = self@;
                if let Some(dropped) = self.uplink_queue.pop_front() {
                    assert(dropped@ == v.uplink_queue[0]);
                    assert(self@.uplink_queue == v.uplink_queue.skip(1));
                    self.discard_queued_uplink(&dropped);
                }
            }
            let ghost w = self@;
            self.uplink_queue.push_back(t);
            assert(self@.uplink_queue == w.uplink_queue.push(t@));
        } else {
            self.pending_fragment = t.fragment;
            self.pending_uplink = Some(t.pending);
        }
    }

    /// Take a TM-SDU from the link layer. `ra_active` tells whether a random
    /// access attempt is under way.
    pub fn rx_tma_prim(&mut self, prim: TmaUnitdataReq<BitBuffer>, ra_active: bool)
        requires
            old(self)@.scrambling_code is Some ==> old(self)@.configured_issi is Some,
        ensures
            final(self)@ == old(self)@.after_tma(prim@, ra_active),
    {
        let scrambling_code: u32 = match self.scrambling_code {
            Some(code) => code,
            None => {
                return ;
            },
        };
        let issi: u32 = match self.configured_issi {
            Some(issi) => issi,
            None => {
                return ;
            },
        };
        if prim.stealing_permission && self.has_assigned_traffic_slot() {
            if let Some(mac_block) = UmacMs::build_stch_mac_data_block(issi, &prim.pdu) {
                let ghost v = self@;
                let steal = PendingStolenSignalling {
                    mac_block,
                    scrambling_code,
                    tx_reporter: prim.tx_reporter,
                };
                self.pending_stolen_signalling.push_back(steal);
                assert(self@.pending_stolen_signalling == v.pending_stolen_signalling.push(steal@));
                return ;
            }
        }
        let transfer = match UmacMs::build_mac_access_block(issi, &prim.pdu) {
            Some(mac_block) => QueuedUplink {
                pending: PendingUplink {
                    mac_block,
                    logical_channel: LogicalChannel::SchHu,
                    scrambling_code,
                    tx_reporter: prim.tx_reporter,
                    pdu_priority: prim.pdu_priority,
                    is_emergency: prim.is_emergency,
                },
                fragment: None,
            },
            None => match UmacMs::build_mac_access_frag_start(issi, &prim.pdu) {
                Some((mac_block, remainder, end_kind)) => QueuedUplink {
                    pending: PendingUplink {
                        mac_block,
                        logical_channel: LogicalChannel::SchHu,
                        scrambling_code,
                        tx_reporter: None,
                        pdu_priority: prim.pdu_priority,
                        is_emergency: prim.is_emergency,
                    },
                    fragment: Some(
                        UplinkFragment {
                            remainder,
                            scrambling_code,
                            end_kind,
                            tx_reporter: prim.tx_reporter,
                        },
                    ),
                },
                None => {
                    return ;
                },
            },
        };
        self.start_transfer(transfer, ra_active);
    }

    /// Decide, for one downlink slot with an ACCESS-ASSIGN, what to ask of the
    /// random access procedure. `ra_active` tells whether an attempt is under
    /// way.
    pub fn drive_random_access(&mut self, ra_active: bool) -> (r: RaStep)
        ensures
            final(self)@ == old(self)@.after_access_slot(ra_active).0,
            r == old(self)@.after_access_slot(ra_active).1,
    {
        self.promote_next_uplink(ra_active);
        let params: RandomAccessParams = match self.access_params.params_for(AccessCode::A) {
            Some(p) => *p,
            None => {
                return RaStep::Wait;
            },
        };
        if ra_active {
            return RaStep::Poll { time: self.dltime, params };
        }
        match &self.pending_uplink {
            None => RaStep::Wait,
            Some(pu) => {
                let pdu_prio: u8 = match pu.pdu_priority {
                    Some(p) => p,
                    None => params.min_pdu_prio,
                };
                RaStep::Initiate {
                    time: self.dltime,
                    code: AccessCode::A,
                    params,
                    pdu_prio,
                    is_emergency: pu.is_emergency,
                }
            },
        }
    }

    /// Give up the transfer in flight, with its receipts discarded.
    fn abandon_transfer(&mut self)
        ensures
            final(self)@ == old(self)@.after_abandoned(),
    {
        let pending: Option<TxReporter> = match self.pending_uplink.take() {
            Some(p) => p.tx_reporter,
            None => None,
        };
        self.mark(pending, TxOutcome::Discarded);
        let fragment: Option<TxReporter> = match self.pending_fragment.take() {
            Some(p) => p.tx_reporter,
            None => None,
        };
        self.mark(fragment, TxOutcome::Discarded);
    }

    /// The random access procedure refused to start an attempt: the transfer that
    /// awaited it is given up, and the link layer is told by its receipt.
    pub fn random_access_refused(&mut self)
        ensures
            final(self)@ == old(self)@.after_abandoned(),
    {
        self.abandon_transfer();
    }

    /// Act on what the random access procedure decided for a slot.
    pub fn random_access_decided(&mut self, queue: &mut MessageQueue, action: Option<RaAction>)
        ensures
            final(self)@ == old(self)@.after_decision(action).0,
            final(queue)@ == old(queue)@ + old(self)@.after_decision(action).1,
    {
        match action {
            Some(RaAction::Transmit { ul_time, .. }) => {
                self.emit_uplink(queue, ul_time);
            },
            Some(RaAction::Failed) => {
                self.abandon_transfer();
            },
            _ => {},
        }
    }

    /// Send the block that contends for random access; it is kept for a retry.
    pub fn emit_uplink(&self, queue: &mut MessageQueue, ul_time: TdmaTime)
        ensures
            final(queue)@ == old(queue)@ + self@.access_burst(ul_time),
    {
        if let Some(pending) = &self.pending_uplink {
            queue.push_back(
                build_control_burst(
                    ul_time,
                    pending.mac_block.duplicate(),
                    pending.logical_channel,
                    pending.scrambling_code,
                    false,
                ),
            );
        }
    }

    /// The network has acknowledged the random access; `grant` is the slot grant
    /// that came with it.
    pub fn random_access_acknowledged(
        &mut self,
        queue: &mut MessageQueue,
        grant: Option<&BasicSlotgrant>,
    )
        requires
            old(self)@.wf(),
        ensures
            final(self)@.wf(),
            final(self)@ == old(self)@.after_acknowledged(opt_grant(grant)).0,
            final(queue)@ == old(queue)@ + old(self)@.after_acknowledged(opt_grant(grant)).1,
    {
        let completed = self.pending_uplink.take();
        if self.pending_fragment.is_some() {
            self.emit_fragment_end(queue, grant);
        } else if let Some(pending) = completed {
            self.mark(pending.tx_reporter, TxOutcome::Transmitted);
        }
    }
}

// ---------------------------------------------------------------------------
// Traffic channel
// ---------------------------------------------------------------------------

impl UmacView {
    /// Whether a traffic burst is due in the uplink slot paired with the current
    /// downlink slot: not in the control frame, in an assigned slot, while
    /// camped, and with speech to send or signalling to steal for.
    pub open spec fn traffic_due(self) -> bool {
        let ul = self.dltime.plus(2);
        &&& ul.f != 18
        &&& self.assigned_traffic_slots[ul.t - 1]
        &&& self.uplink_tx_granted || self.pending_stolen_signalling.len() > 0
        &&& self.scrambling_code is Some
    }

    /// The speech bits of the burst: the oldest buffered frame while the station
    /// is the talker, silence otherwise.
    pub open spec fn speech(self) -> Seq<bool> {
        if self.uplink_tx_granted && self.uplink_audio.len() > 0 && self.uplink_audio[0].len() > 0 {
            first_bits(bytes_bits(self.uplink_audio[0]), TCH_S_TYPE1_BITS as int)
        } else {
            zeros(TCH_S_TYPE1_BITS as int)
        }
    }

    /// One slot of the traffic channel: where a burst is due, one speech frame of
    /// the talker leaves the buffer, and the oldest waiting signalling, if any,
    /// steals the first half of the slot.
    pub open spec fn after_traffic(self) -> (UmacView, Emitted) {
        if !self.traffic_due() {
            (self, nothing())
        } else {
            let ul = self.dltime.plus(2);
            let speech = TmvUnitdataReq {
                mac_block: MacBlock { header: MacHeader::Traffic, body: self.speech() },
                logical_channel: LogicalChannel::TchS,
                scrambling_code: self.scrambling_code->0,
            };
            let v = UmacView {
                uplink_audio: if self.uplink_tx_granted && self.uplink_audio.len() > 0 {
                    self.uplink_audio.skip(1)
                } else {
                    self.uplink_audio
                },
                ..self
            };
            if self.pending_stolen_signalling.len() == 0 {
                (v, seq![normal(traffic_burst(ul, speech, None))])
            } else {
                let steal = self.pending_stolen_signalling[0];
                let stch = TmvUnitdataReq {
                    mac_block: steal.mac_block,
                    logical_channel: LogicalChannel::Stch,
                    scrambling_code: steal.scrambling_code,
                };
                (
                    UmacView {
                        pending_stolen_signalling: self.pending_stolen_signalling.skip(1),
                        ..v
                    }.marked(steal.tx_reporter, TxOutcome::Transmitted),
                    seq![normal(traffic_burst(ul, stch, Some(speech)))],
                )
            }
        }
    }
}

/// The first speech frame's worth of bits of packed bytes.
fn speech_bits(frame: &Vec<u8>) -> (r: BitBuffer)
    ensures
        r@ == first_bits(bytes_bits(frame@), TCH_S_TYPE1_BITS as int),
{
    let n: usize = if frame.len() >= 35 {
        TCH_S_TYPE1_BITS
    } else {
        8 * frame.len()
    };
    let mut r = BitBuffer::new();
    let mut i: usize = 0;
    while i < n
        invariant
            n <= 8 * frame@.len(),
            n <= TCH_S_TYPE1_BITS,
            i <= n,
            r@ == bytes_bits(frame@).take(i as int),
        decreases n - i,
    {
        let shift: u8 = (7 - i % 8) as u8;
        r.bits.push((frame[i / 8] >> shift) & 1 == 1);
        i = i + 1;
    }
    assert(bytes_bits(frame@).len() == 8 * frame@.len());
    assert(n == 8 * frame@.len() ==> bytes_bits(frame@).take(n as int) == bytes_bits(frame@));
    r
}

impl UmacMs {
    /// Send the traffic burst of the uplink slot paired with the current
    /// downlink slot, where one is due.
    pub fn drive_uplink_traffic(&mut self, queue: &mut MessageQueue)
        ensures
            final(self)@ == old(self)@.after_traffic().0,
            final(queue)@ == old(queue)@ + old(self)@.after_traffic().1,
    {
        let ghost v = self@;
        let ul = self.dltime.add_timeslots(2);
        if ul.f == 18 {
            return ;
        }
        let idx: usize = ul.t as usize - 1;
        if !self.assigned_traffic_slots[idx] {
            return ;
        }
        let has_steal: bool = self.pending_stolen_signalling.len() > 0;
        if !self.uplink_tx_granted && !has_steal {
            return ;
        }
        let scrambling_code: u32 = match self.scrambling_code {
            Some(code) => code,
            None => {
                return ;
            },
        };
        let granted: bool = self.uplink_tx_granted;
        let mut body = BitBuffer::new();
        let next: Option<Vec<u8>> = if granted {
            self.uplink_audio.pop_front()
        } else {
            None
        };
        match next {
            Some(frame) => {
                assert(frame@ == v.uplink_audio[0]);
                assert(self@.uplink_audio == v.uplink_audio.skip(1));
                if frame.len() > 0 {
                    body = speech_bits(&frame);
                } else {
                    body.append_zeros(TCH_S_TYPE1_BITS);
                }
            },
            None => {
                body.append_zeros(TCH_S_TYPE1_BITS);
            },
        }
        assert(body@ == v.speech());
        let speech = TmvUnitdataReq {
            mac_block: MacBlock { header: MacHeader::Traffic, body },
            logical_channel: LogicalChannel::TchS,
            scrambling_code,
        };
        let ghost w = self@;
        let (blk1, blk2) = match self.pending_stolen_signalling.pop_front() {
            Some(steal) => {
                assert(steal@ == w.pending_stolen_signalling[0]);
                assert(self@.pending_stolen_signalling == w.pending_stolen_signalling.skip(1));
                self.mark(steal.tx_reporter, TxOutcome::Transmitted);
                (
                    TmvUnitdataReq {
                        mac_block: steal.mac_block,
                        logical_channel: LogicalChannel::Stch,
                        scrambling_code: steal.scrambling_code,
                    },
                    Some(speech),
                )
            },
            None => (speech, None),
        };
        queue.push_back(
            SapMsg {
                sap: Sap::TmvSap,
                src: TetraEntity::Umac,
                dest: TetraEntity::Lmac,
                msg: SapMsgInner::TmvUnitdataReq(
                    TmvUnitdataReqSlot {
                        ts: ul,
                        ul_phy_chan: PhysicalChannel::Tp,
                        blk1: Some(blk1),
                        blk2,
                        bbk: None,
                        reserved_access: false,
                    },
                ),
            },
        );
    }
}

} // verus!
