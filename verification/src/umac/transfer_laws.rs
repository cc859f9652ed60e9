//! What the uplink side of the upper MAC promises for each transfer, bit by bit
//! and field by field.

use vstd::prelude::*;

use crate::sap::{
    LogicalChannel, MessagePrio, MsgView, ReceiptMark, SapMsgInner, TmaUnitdataReq, TmvUnitdataReq,
    TmvUnitdataReqSlot, TxOutcome, TxReporter,
};
use crate::tdma::{lemma_at_slot, lemma_next_frame_keeps_timeslot, TdmaTime};
use crate::umac::mac_block::{
    frag_blocks, frag_sizing_fits, frag_start_fits, requested_slots, slots_requirement,
    ul_frag_slots, FragEndKind, MacBlock, MacHeader, ReservationRequirement, FRAG_START_SDU_BITS,
    MAC_ACCESS_FRAG_HEADER_BITS, MAC_ACCESS_HEADER_BITS, MAC_DATA_HEADER_BITS,
    MAC_END_HU_HEADER_BITS, MAC_END_UL_HEADER_BITS, MAC_FRAG_UL_HEADER_BITS, MAX_END_HU_SDU_BITS,
    MAX_END_UL_SDU_BITS, MAX_FRAG_UL_SDU_BITS, MAX_UL_FRAG_SLOTS, SCH_F_TYPE1_BITS,
    SCH_HU_TYPE1_BITS, STCH_TYPE1_BITS,
};
use crate::umac::ms_random_access::AccessCode;
use crate::umac::umac_ms::{
    PendingUplink, UmacView, UplinkFragment, MAX_UPLINK_QUEUE, TCH_S_TYPE1_BITS,
    UPLINK_AUDIO_MAX_FRAMES,
};
use crate::umac::uplink::{
    granted_slots, law_reserved_slots, opt_grant, reserved_slots, BasicSlotgrant,
    BasicSlotgrantCapAlloc, Emitted, RaAction, RaStep,
};

verus! {

// ---------------------------------------------------------------------------
// Reading what was emitted
// ---------------------------------------------------------------------------

/// The slot request inside a message of the upper MAC to the lower MAC that is
/// delivered in its turn.
pub open spec fn slot_request(e: (MessagePrio, MsgView)) -> Option<TmvUnitdataReqSlot<Seq<bool>>> {
    if e.0 is Normal && e.1.sap is TmvSap && e.1.src is Umac && e.1.dest is Lmac {
        match e.1.msg {
            SapMsgInner::TmvUnitdataReq(s) => Some(s),
            _ => None,
        }
    } else {
        None
    }
}

/// Whether exactly one control burst is emitted: `block`, alone in the slot `ts`.
pub open spec fn one_control_burst(
    out: Emitted,
    ts: TdmaTime,
    channel: LogicalChannel,
    scrambling_code: u32,
    reserved: bool,
) -> bool {
    &&& out.len() == 1
    &&& slot_request(out[0]) matches Some(s)
    &&& s.ts == ts
    &&& s.ul_phy_chan is Cp
    &&& s.blk2 is None && s.bbk is None
    &&& s.reserved_access == reserved
    &&& s.blk1 matches Some(b)
    &&& b.logical_channel == channel
    &&& b.scrambling_code == scrambling_code
}

/// The MAC block of a burst.
pub open spec fn first_block(out: Emitted) -> MacBlock<Seq<bool>> {
    slot_request(out[0])->0.blk1->0.mac_block
}

/// The marks that settle a receipt: one, or none without a receipt.
pub open spec fn settled(receipt: Option<TxReporter>, outcome: TxOutcome) -> Seq<ReceiptMark> {
    match receipt {
        Some(receipt) => seq![ReceiptMark { receipt, outcome }],
        None => Seq::empty(),
    }
}

/// Whether `body` is `sdu`, then a one where a fill bit is announced, then zeros,
/// `n` bits in all.
pub open spec fn padded(body: Seq<bool>, sdu: Seq<bool>, filled: bool, n: int) -> bool {
    &&& body.len() == n
    &&& forall|i: int| 0 <= i < sdu.len() ==> #[trigger] body[i] == sdu[i]
    &&& filled ==> sdu.len() < n && body[sdu.len() as int]
    &&& forall|i: int|
        sdu.len() <= i < n && (filled ==> i > sdu.len()) ==> !(#[trigger] body[i])
}

// ---------------------------------------------------------------------------
// Taking a TM-SDU
// ---------------------------------------------------------------------------

/// Whether something occupies the MAC's one place for a transfer.
pub open spec fn busy(v: UmacView, ra_active: bool) -> bool {
    v.pending_uplink is Some || v.pending_fragment is Some || v.reserved_tx is Some || ra_active
}

/// Whether a TM-SDU is to steal a half-slot of the traffic channel: it may, one of
/// the four timeslots is assigned, and it has at most 83 bits.
pub open spec fn goes_stolen(v: UmacView, prim: TmaUnitdataReq<Seq<bool>>) -> bool {
    &&& prim.stealing_permission
    &&& prim.pdu.len() <= 83
    &&& exists|i: int|
        0 <= i < v.assigned_traffic_slots.len() && #[trigger] v.assigned_traffic_slots[i]
}

/// The transfer that a TM-SDU became: the one in flight, or the last that waits.
pub open spec fn newest(v: UmacView, ra_active: bool, w: UmacView) -> (
    PendingUplink<Seq<bool>>,
    Option<UplinkFragment<Seq<bool>>>,
) {
    if busy(v, ra_active) {
        (w.uplink_queue.last().pending, w.uplink_queue.last().fragment)
    } else {
        (w.pending_uplink->0, w.pending_fragment)
    }
}

proof fn lemma_goes_stolen(v: UmacView, prim: TmaUnitdataReq<Seq<bool>>)
    ensures
        v.steals(prim) == goes_stolen(v, prim),
{
    if v.assigned_traffic_slots.contains(true) {
        let i = choose|i: int|
            0 <= i < v.assigned_traffic_slots.len() && v.assigned_traffic_slots[i] == true;
        assert(v.assigned_traffic_slots[i]);
    }
    if exists|i: int|
        0 <= i < v.assigned_traffic_slots.len() && #[trigger] v.assigned_traffic_slots[i] {
        let i = choose|i: int|
            0 <= i < v.assigned_traffic_slots.len() && #[trigger] v.assigned_traffic_slots[i];
        assert(v.assigned_traffic_slots[i] == true);
    }
}

/// A TM-SDU that is sent by random access keeps the priority and the emergency
/// mark of its request, on SCH/HU under the cell's scrambling code, whether it is
/// sent whole or in fragments, at once or after others.
pub proof fn law_transfer_keeps_priority_and_emergency(
    v: UmacView,
    prim: TmaUnitdataReq<Seq<bool>>,
    ra_active: bool,
)
    requires
        v.scrambling_code is Some,
        v.configured_issi is Some,
        !goes_stolen(v, prim),
        prim.pdu.len() <= 1630,
    ensures
        ({
            let w = v.after_tma(prim, ra_active);
            let (p, _) = newest(v, ra_active, w);
            &&& busy(v, ra_active) ==> w.uplink_queue.len() > 0
            &&& !busy(v, ra_active) ==> w.pending_uplink is Some
            &&& p.pdu_priority == prim.pdu_priority
            &&& p.is_emergency == prim.is_emergency
            &&& p.logical_channel is SchHu
            &&& Some(p.scrambling_code) == v.scrambling_code
        }),
{
    lemma_goes_stolen(v, prim);
}

/// The attempt of a TM-SDU that finds the MAC idle starts with the priority of
/// its request, or the least that the code admits where it has none, and with
/// its emergency mark: an emergency stays one until the access gate.
pub proof fn law_attempt_carries_the_request(v: UmacView, prim: TmaUnitdataReq<Seq<bool>>)
    requires
        v.scrambling_code is Some,
        v.configured_issi is Some,
        !goes_stolen(v, prim),
        prim.pdu.len() <= 1630,
        !busy(v, false),
        v.access_params.defined_a is Some || v.access_params.sysinfo_default_a is Some,
    ensures
        ({
            let params = if v.access_params.defined_a is Some {
                v.access_params.defined_a->0
            } else {
                v.access_params.sysinfo_default_a->0
            };
            let w = v.after_tma(prim, false).after_promote(false);
            w.random_access_step(false) == (RaStep::Initiate {
                time: v.dltime,
                code: AccessCode::A,
                params,
                pdu_prio: if prim.pdu_priority is Some {
                    prim.pdu_priority->0
                } else {
                    params.min_pdu_prio
                },
                is_emergency: prim.is_emergency,
            })
        }),
{
    lemma_goes_stolen(v, prim);
}

/// What the random access procedure is asked: to go on while an attempt is under
/// way, to start one with the priority and the emergency mark of the block that
/// waits, and nothing without parameters for code A or without a block.
pub proof fn law_step_follows_the_waiting_block(v: UmacView, ra_active: bool)
    ensures
        ({
            let known = v.access_params.defined_a is Some || v.access_params.sysinfo_default_a
                is Some;
            let params = if v.access_params.defined_a is Some {
                v.access_params.defined_a->0
            } else {
                v.access_params.sysinfo_default_a->0
            };
            let step = v.random_access_step(ra_active);
            &&& (step is Wait) == (!known || (!ra_active && v.pending_uplink is None))
            &&& known && ra_active ==> step == (RaStep::Poll { time: v.dltime, params })
            &&& known && !ra_active && v.pending_uplink is Some ==> {
                &&& step matches RaStep::Initiate {
                    time,
                    code,
                    params: p,
                    pdu_prio,
                    is_emergency,
                }
                &&& time == v.dltime && code is A && p == params
                &&& is_emergency == v.pending_uplink->0.is_emergency
                &&& match v.pending_uplink->0.pdu_priority {
                    Some(n) => pdu_prio == n,
                    None => pdu_prio == params.min_pdu_prio,
                }
            }
        }),
{
}

/// A TM-SDU of at most 62 bits goes whole: a MAC-ACCESS under the own identity
/// that states no length and asks for nothing, the TM-SDU bit by bit, a one and
/// zeros up to the end of the burst. The transfer holds the receipt.
pub proof fn law_short_sdu_goes_whole(
    v: UmacView,
    prim: TmaUnitdataReq<Seq<bool>>,
    ra_active: bool,
)
    requires
        v.scrambling_code is Some,
        v.configured_issi is Some,
        !goes_stolen(v, prim),
        prim.pdu.len() <= 62,
    ensures
        ({
            let (p, f) = newest(v, ra_active, v.after_tma(prim, ra_active));
            &&& f is None
            &&& p.tx_reporter == prim.tx_reporter
            &&& p.mac_block.header matches MacHeader::Access(h)
            &&& Some(h.issi) == v.configured_issi
            &&& !h.encrypted
            &&& h.fill_bits == (prim.pdu.len() < 62)
            &&& h.length_ind is None && h.frag_flag is None && h.reservation_req is None
            &&& padded(p.mac_block.body, prim.pdu, prim.pdu.len() < 62, 62)
        }),
{
    lemma_goes_stolen(v, prim);
}

/// The slots that a reservation requirement asks for; a subslot counts as none.
pub open spec fn slots_asked(r: ReservationRequirement) -> int {
    match r {
        ReservationRequirement::Req1Subslot => 0,
        ReservationRequirement::Req1Slot => 1,
        ReservationRequirement::Req2Slots => 2,
        ReservationRequirement::Req3Slots => 3,
        ReservationRequirement::Req4Slots => 4,
        ReservationRequirement::Req5Slots => 5,
        ReservationRequirement::Req6Slots => 6,
    }
}

/// A longer TM-SDU, up to 1630 bits, goes in fragments: the MAC-ACCESS carries its
/// first 56 bits and asks for exactly the capacity that the rest needs (a subslot
/// up to 81 bits, a slot up to 254, else the fewest slots of 264 bits but the
/// last, which holds 254); the rest waits with the receipt.
pub proof fn law_long_sdu_goes_in_fragments(
    v: UmacView,
    prim: TmaUnitdataReq<Seq<bool>>,
    ra_active: bool,
)
    requires
        v.scrambling_code is Some,
        v.configured_issi is Some,
        !goes_stolen(v, prim),
        62 < prim.pdu.len() <= 1630,
    ensures
        ({
            let (p, f) = newest(v, ra_active, v.after_tma(prim, ra_active));
            let rest = prim.pdu.len() - 56;
            &&& p.tx_reporter is None
            &&& p.mac_block.header matches MacHeader::Access(h)
            &&& Some(h.issi) == v.configured_issi
            &&& !h.encrypted && !h.fill_bits
            &&& h.length_ind is None
            &&& h.frag_flag == Some(true)
            &&& h.reservation_req matches Some(asked)
            &&& p.mac_block.body.len() == 56
            &&& forall|i: int| 0 <= i < 56 ==> #[trigger] p.mac_block.body[i] == prim.pdu[i]
            &&& f matches Some(r)
            &&& r.tx_reporter == prim.tx_reporter
            &&& Some(r.scrambling_code) == v.scrambling_code
            &&& r.remainder.len() == rest
            &&& forall|i: int| 0 <= i < rest ==> #[trigger] r.remainder[i] == prim.pdu[56 + i]
            &&& (r.end_kind is MacEndHu) == (rest <= 81)
            &&& (r.end_kind is MacEndUl) == (81 < rest <= 254)
            &&& rest <= 81 ==> asked is Req1Subslot
            &&& 81 < rest <= 254 ==> asked is Req1Slot
            &&& rest > 254 ==> {
                &&& r.end_kind matches FragEndKind::MacFragUl { total_slots }
                &&& slots_asked(asked) == total_slots
                &&& 264 * (total_slots - 2) + 254 < rest <= 264 * (total_slots - 1) + 254
            }
        }),
{
    lemma_goes_stolen(v, prim);
}

/// A TM-SDU that steals waits behind the signalling that waits already, as a
/// MAC-DATA under the own identity that states its length in whole octets;
/// nothing else changes.
pub proof fn law_stolen_signalling_waits_in_turn(
    v: UmacView,
    prim: TmaUnitdataReq<Seq<bool>>,
    ra_active: bool,
)
    requires
        v.scrambling_code is Some,
        v.configured_issi is Some,
        goes_stolen(v, prim),
    ensures
        ({
            let w = v.after_tma(prim, ra_active);
            let s = w.pending_stolen_signalling.last();
            let bits = 37 + prim.pdu.len();
            &&& w == (UmacView { pending_stolen_signalling: w.pending_stolen_signalling, ..v })
            &&& w.pending_stolen_signalling.len() == v.pending_stolen_signalling.len() + 1
            &&& forall|i: int|
                0 <= i < v.pending_stolen_signalling.len()
                    ==> #[trigger] w.pending_stolen_signalling[i] == v.pending_stolen_signalling[i]
            &&& s.tx_reporter == prim.tx_reporter
            &&& Some(s.scrambling_code) == v.scrambling_code
            &&& s.mac_block.header matches MacHeader::Data(h)
            &&& Some(h.issi) == v.configured_issi
            &&& !h.encrypted
            &&& h.fill_bits == (bits % 8 != 0)
            &&& h.length_ind matches Some(n) && bits <= 8 * n < bits + 8
            &&& h.frag_flag is None && h.reservation_req is None
            &&& padded(s.mac_block.body, prim.pdu, bits % 8 != 0, 87)
        }),
{
    lemma_goes_stolen(v, prim);
}

/// A TM-SDU is dropped, and nothing changes, where the cell or the own identity
/// is not known, or where it neither steals nor fits 1630 bits.
pub proof fn law_unsendable_sdu_is_dropped(
    v: UmacView,
    prim: TmaUnitdataReq<Seq<bool>>,
    ra_active: bool,
)
    requires
        v.scrambling_code is None || v.configured_issi is None || (!goes_stolen(v, prim)
            && prim.pdu.len() > 1630),
    ensures
        v.after_tma(prim, ra_active) == v,
{
    lemma_goes_stolen(v, prim);
}

/// A transfer that finds the MAC idle takes its place and touches nothing else.
/// One that finds it busy waits last; the others keep their order, and only
/// where sixteen wait already does the oldest go, its receipts discarded.
pub proof fn law_transfer_takes_its_turn(
    v: UmacView,
    prim: TmaUnitdataReq<Seq<bool>>,
    ra_active: bool,
)
    requires
        v.scrambling_code is Some,
        v.configured_issi is Some,
        !goes_stolen(v, prim),
        prim.pdu.len() <= 1630,
    ensures
        ({
            let w = v.after_tma(prim, ra_active);
            &&& !busy(v, ra_active) ==> w == (UmacView {
                pending_uplink: w.pending_uplink,
                pending_fragment: w.pending_fragment,
                ..v
            })
            &&& busy(v, ra_active) ==> w == (UmacView {
                uplink_queue: w.uplink_queue,
                receipt_marks: w.receipt_marks,
                ..v
            })
            &&& busy(v, ra_active) && v.uplink_queue.len() < 16 ==> {
                &&& w.receipt_marks == v.receipt_marks
                &&& w.uplink_queue.len() == v.uplink_queue.len() + 1
                &&& forall|i: int|
                    0 <= i < v.uplink_queue.len() ==> #[trigger] w.uplink_queue[i]
                        == v.uplink_queue[i]
            }
            &&& busy(v, ra_active) && v.uplink_queue.len() >= 16 ==> {
                let gone = v.uplink_queue[0];
                &&& w.receipt_marks == v.receipt_marks + settled(
                    gone.pending.tx_reporter,
                    TxOutcome::Discarded,
                ) + (match gone.fragment {
                    Some(f) => settled(f.tx_reporter, TxOutcome::Discarded),
                    None => Seq::empty(),
                })
                &&& w.uplink_queue.len() == v.uplink_queue.len()
                &&& forall|i: int|
                    0 <= i < v.uplink_queue.len() - 1 ==> #[trigger] w.uplink_queue[i]
                        == v.uplink_queue[i + 1]
            }
        }),
{
    lemma_goes_stolen(v, prim);
}

/// The oldest waiting transfer, and no other, moves up, whole and unchanged, and
/// only into an idle MAC.
pub proof fn law_oldest_transfer_moves_up(v: UmacView, ra_active: bool)
    ensures
        ({
            let w = v.after_promote(ra_active);
            &&& busy(v, ra_active) || v.uplink_queue.len() == 0 ==> w == v
            &&& !busy(v, ra_active) && v.uplink_queue.len() > 0 ==> {
                &&& w.pending_uplink == Some(v.uplink_queue[0].pending)
                &&& w.pending_fragment == v.uplink_queue[0].fragment
                &&& w.uplink_queue.len() == v.uplink_queue.len() - 1
                &&& forall|i: int|
                    0 <= i < w.uplink_queue.len() ==> #[trigger] w.uplink_queue[i]
                        == v.uplink_queue[i + 1]
                &&& w == (UmacView {
                    pending_uplink: w.pending_uplink,
                    pending_fragment: w.pending_fragment,
                    uplink_queue: w.uplink_queue,
                    ..v
                })
            }
        }),
{
}

// ---------------------------------------------------------------------------
// Random access
// ---------------------------------------------------------------------------

/// A transfer that waits is started with its own priority and its own emergency
/// mark, once the MAC is idle and the parameters of code A are known.
pub proof fn law_waiting_transfer_starts_as_requested(v: UmacView)
    requires
        !busy(v, false),
        v.uplink_queue.len() > 0,
        v.access_params.defined_a is Some || v.access_params.sysinfo_default_a is Some,
    ensures
        ({
            let p = v.uplink_queue[0].pending;
            let (w, step) = v.after_access_slot(false);
            &&& w.pending_uplink == Some(p)
            &&& step matches RaStep::Initiate { time, code, params, pdu_prio, is_emergency }
            &&& time == v.dltime && code is A
            &&& is_emergency == p.is_emergency
            &&& p.pdu_priority is Some ==> pdu_prio == p.pdu_priority->0
            &&& p.pdu_priority is None ==> pdu_prio == params.min_pdu_prio
        }),
{
}

/// An access slot moves the oldest waiting transfer up and then asks for the step
/// of the block that waits; it changes nothing else.
pub proof fn law_access_slot_promotes_first(v: UmacView, ra_active: bool)
    ensures
        v.after_access_slot(ra_active).0 == v.after_promote(ra_active),
        v.after_access_slot(ra_active).1 == v.after_promote(ra_active).random_access_step(
            ra_active,
        ),
{
}

/// The decision of the procedure: to transmit sends the waiting block and keeps
/// everything for a retry; to fail gives the transfer up and sends nothing; an
/// acknowledgement, and no decision, do nothing here.
pub proof fn law_decision_is_carried_out(v: UmacView, action: Option<RaAction>)
    ensures
        ({
            let (w, out) = v.after_decision(action);
            &&& action matches Some(RaAction::Transmit { ul_time, subslot }) ==> w == v && out
                == v.access_burst(ul_time)
            &&& action == Some(RaAction::Failed) ==> w == v.after_abandoned() && out.len() == 0
            &&& action is None || action == Some(RaAction::Succeeded) ==> w == v && out.len() == 0
        }),
{
}

/// A slot grant that comes with an acknowledgement is the one that is acted upon.
pub proof fn law_grant_is_taken_as_it_is(g: BasicSlotgrant)
    ensures
        opt_grant(Some(&g)) == Some(g),
        opt_grant(None) is None,
{
}

/// Each opportunity that the procedure takes sends the waiting block, as it is,
/// in the slot that was chosen, as contention and not as a reserved slot.
pub proof fn law_opportunity_sends_the_waiting_block(v: UmacView, ul_time: TdmaTime)
    ensures
        v.pending_uplink matches Some(p) ==> {
            let out = v.access_burst(ul_time);
            &&& one_control_burst(out, ul_time, p.logical_channel, p.scrambling_code, false)
            &&& first_block(out) == p.mac_block
        },
        v.pending_uplink is None ==> v.access_burst(ul_time).len() == 0,
{
}

/// A transfer that is given up leaves both of its receipts discarded, and
/// touches nothing else.
pub proof fn law_abandoned_transfer_is_discarded(v: UmacView)
    ensures
        ({
            let w = v.after_abandoned();
            &&& w == (UmacView {
                pending_uplink: None,
                pending_fragment: None,
                receipt_marks: w.receipt_marks,
                ..v
            })
            &&& w.receipt_marks == v.receipt_marks + (match v.pending_uplink {
                Some(p) => settled(p.tx_reporter, TxOutcome::Discarded),
                None => Seq::empty(),
            }) + (match v.pending_fragment {
                Some(f) => settled(f.tx_reporter, TxOutcome::Discarded),
                None => Seq::empty(),
            })
        }),
{
}

/// The whole slots of a grant, by its name.
pub open spec fn slots_granted(c: BasicSlotgrantCapAlloc) -> int {
    if c is Grant1Slot {
        1
    } else if c is Grant2Slots {
        2
    } else if c is Grant3Slots {
        3
    } else if c is Grant4Slots {
        4
    } else if c is Grant5Slots {
        5
    } else if c is Grant6Slots {
        6
    } else if c is Grant8Slots {
        8
    } else if c is Grant10Slots {
        10
    } else if c is Grant13Slots {
        13
    } else if c is Grant17Slots {
        17
    } else if c is Grant24Slots {
        24
    } else if c is Grant34Slots {
        34
    } else if c is Grant51Slots {
        51
    } else if c is Grant68Slots {
        68
    } else {
        0
    }
}

/// Whether the rest of a transfer can be sent on a grant: one at the next
/// opportunity, of the kind that the rest waits for, and large enough.
pub open spec fn grant_serves(
    f: UplinkFragment<Seq<bool>>,
    grant: Option<BasicSlotgrant>,
) -> bool {
    &&& grant matches Some(g)
    &&& g.granting_delay is CapAllocAtNextOpportunity
    &&& f.end_kind is MacEndHu ==> g.capacity_allocation is FirstSubslotGranted
        && f.remainder.len() <= 81
    &&& f.end_kind is MacEndUl ==> g.capacity_allocation is Grant1Slot && f.remainder.len() <= 254
    &&& f.end_kind matches FragEndKind::MacFragUl { total_slots } ==> {
        &&& total_slots >= 1
        &&& total_slots <= slots_granted(g.capacity_allocation)
        &&& f.remainder.len() <= 264 * (total_slots - 1) + 254
        &&& total_slots == 1 ==> f.remainder.len() > 0
        &&& total_slots > 1 ==> f.remainder.len() > 264 * (total_slots - 2) + 254
    }
}

/// An acknowledged transfer that was sent whole is done: its receipt is marked
/// transmitted, nothing is sent, and nothing else changes.
pub proof fn law_acknowledgement_completes_a_whole_transfer(
    v: UmacView,
    grant: Option<BasicSlotgrant>,
)
    requires
        v.pending_fragment is None,
    ensures
        ({
            let (w, out) = v.after_acknowledged(grant);
            &&& out.len() == 0
            &&& w == (UmacView { pending_uplink: None, receipt_marks: w.receipt_marks, ..v })
            &&& w.receipt_marks == v.receipt_marks + (match v.pending_uplink {
                Some(p) => settled(p.tx_reporter, TxOutcome::Transmitted),
                None => Seq::empty(),
            })
        }),
{
}

/// A grant that does not serve the rest of a transfer ends it: nothing is sent,
/// and the receipt is discarded.
pub proof fn law_unfit_grant_ends_the_transfer(
    v: UmacView,
    grant: Option<BasicSlotgrant>,
)
    requires
        v.pending_fragment is Some,
        !grant_serves(v.pending_fragment->0, grant),
    ensures
        ({
            let (w, out) = v.after_acknowledged(grant);
            &&& out.len() == 0
            &&& w == (UmacView {
                pending_uplink: None,
                pending_fragment: None,
                receipt_marks: w.receipt_marks,
                ..v
            })
            &&& w.receipt_marks == v.receipt_marks + settled(
                v.pending_fragment->0.tx_reporter,
                TxOutcome::Discarded,
            )
        }),
{
}

/// A granted subslot or slot carries the whole rest of the transfer two slots
/// after the grant, in a MAC-END that states its length in whole octets, in a
/// reserved access; the receipt is marked transmitted.
pub proof fn law_single_grant_sends_the_rest(
    v: UmacView,
    grant: Option<BasicSlotgrant>,
)
    requires
        v.pending_fragment is Some,
        v.pending_fragment->0.end_kind !is MacFragUl,
        grant_serves(v.pending_fragment->0, grant),
    ensures
        ({
            let f = v.pending_fragment->0;
            let (w, out) = v.after_acknowledged(grant);
            let hu = f.end_kind is MacEndHu;
            let bits = f.remainder.len() + if hu {
                7int
            } else {
                10int
            };
            let channel = if hu {
                LogicalChannel::SchHu
            } else {
                LogicalChannel::SchF
            };
            &&& one_control_burst(out, v.dltime.plus(2), channel, f.scrambling_code, true)
            &&& hu ==> {
                &&& first_block(out).header matches MacHeader::EndHu(h)
                &&& h.fill_bits == (bits % 8 != 0)
                &&& h.length_ind matches Some(n) && bits <= 8 * n < bits + 8
                &&& h.reservation_req is None
                &&& padded(first_block(out).body, f.remainder, bits % 8 != 0, 85)
            }
            &&& !hu ==> {
                &&& first_block(out).header matches MacHeader::EndUl(h)
                &&& h.fill_bits == (bits % 8 != 0)
                &&& h.length_ind matches Some(n) && bits <= 8 * n < bits + 8
                &&& h.reservation_req is None
                &&& padded(first_block(out).body, f.remainder, bits % 8 != 0, 258)
            }
            &&& w == (UmacView {
                pending_uplink: None,
                pending_fragment: None,
                receipt_marks: w.receipt_marks,
                ..v
            })
            &&& w.receipt_marks == v.receipt_marks + settled(
                f.tx_reporter,
                TxOutcome::Transmitted,
            )
        }),
{
}

// ---------------------------------------------------------------------------
// Multi-slot transfers
// ---------------------------------------------------------------------------

/// Whether a slot is lost to the mandatory linearization channel: the one
/// timeslot of frame 18 that moves with the multiframe.
pub open spec fn linearization(a: TdmaTime) -> bool {
    a.f == 18 && (a.t + a.m + 1) % 4 == 0 && 1 <= a.t <= 4
}

proof fn lemma_linearization(a: TdmaTime)
    ensures
        linearization(a) == a.mandatory_clch(),
{
}

/// The reserved slots of a transfer leave no usable slot out: the first is the
/// candidate itself, each other one lies a frame behind the one before, and one
/// frame more is skipped exactly where the slot is lost to linearization.
pub proof fn law_reserved_slots_leave_no_gap(cand: TdmaTime, n: nat, i: int)
    requires
        cand.wf(),
        0 <= i < n,
    ensures
        ({
            let s = reserved_slots(cand, n);
            let from = if i == 0 {
                cand
            } else {
                s[i - 1].plus(4)
            };
            &&& s.len() == n
            &&& s[i] == (if linearization(from) {
                from.plus(4)
            } else {
                from
            })
        }),
    decreases n, (if cand.mandatory_clch() {
        1int
    } else {
        0int
    }),
{
    lemma_linearization(cand);
    lemma_next_frame_keeps_timeslot(cand);
    lemma_at_slot(cand.slot_number() + 4);
    law_reserved_slots(cand, n);
    let next = cand.plus(4);
    if cand.mandatory_clch() {
        assert(!next.mandatory_clch());
        assert(reserved_slots(cand, n) == reserved_slots(next, n));
        law_reserved_slots_leave_no_gap(next, n, i);
        lemma_linearization(next);
    } else if i > 0 {
        let rest = reserved_slots(next, (n - 1) as nat);
        assert(reserved_slots(cand, n) == seq![cand] + rest);
        law_reserved_slots(next, (n - 1) as nat);
        law_reserved_slots_leave_no_gap(next, (n - 1) as nat, i - 1);
        assert(reserved_slots(cand, n)[i] == rest[i - 1]);
        if i > 1 {
            assert(reserved_slots(cand, n)[i - 1] == rest[i - 2]);
        } else {
            assert(reserved_slots(cand, n)[0] == cand);
        }
    }
}

/// One downlink slot of a multi-slot transfer: before its next reserved slot it
/// waits; in it, the next block goes out there, and the transfer is done with its
/// last block; after it, the transfer is discarded.
pub proof fn law_reserved_slot_sends_its_block(v: UmacView)
    requires
        v.reserved_tx matches Some(plan) && plan.slots.len() > 0 && plan.blocks.len()
            == plan.slots.len(),
    ensures
        ({
            let plan = v.reserved_tx->0;
            let (w, out) = v.after_reserved();
            let now = v.dltime.plus(2).slot_number();
            let slot = plan.slots[0].slot_number();
            &&& now < slot ==> w == v && out.len() == 0
            &&& now > slot ==> {
                &&& out.len() == 0
                &&& w == (UmacView { reserved_tx: None, receipt_marks: w.receipt_marks, ..v })
                &&& w.receipt_marks == v.receipt_marks + settled(
                    plan.tx_reporter,
                    TxOutcome::Discarded,
                )
            }
            &&& now == slot ==> {
                &&& one_control_burst(
                    out,
                    plan.slots[0],
                    LogicalChannel::SchF,
                    plan.scrambling_code,
                    true,
                )
                &&& first_block(out) == plan.blocks[0]
                &&& plan.blocks.len() == 1 ==> {
                    &&& w == (UmacView { reserved_tx: None, receipt_marks: w.receipt_marks, ..v })
                    &&& w.receipt_marks == v.receipt_marks + settled(
                        plan.tx_reporter,
                        TxOutcome::Transmitted,
                    )
                }
                &&& plan.blocks.len() > 1 ==> {
                    &&& w == (UmacView { reserved_tx: w.reserved_tx, ..v })
                    &&& w.reserved_tx matches Some(rest)
                    &&& rest.scrambling_code == plan.scrambling_code
                    &&& rest.tx_reporter == plan.tx_reporter
                    &&& rest.blocks.len() == plan.blocks.len() - 1
                    &&& rest.slots.len() == plan.slots.len() - 1
                    &&& forall|i: int|
                        0 <= i < rest.blocks.len() ==> #[trigger] rest.blocks[i] == plan.blocks[i
                            + 1]
                    &&& forall|i: int|
                        0 <= i < rest.slots.len() ==> #[trigger] rest.slots[i] == plan.slots[i + 1]
                }
            }
        }),
{
}

/// Without a multi-slot transfer, a downlink slot sends nothing for one.
pub proof fn law_no_reserved_slot_without_a_transfer(v: UmacView)
    requires
        v.reserved_tx is None,
    ensures
        v.after_reserved().0 == v,
        v.after_reserved().1.len() == 0,
{
}

/// The blocks of a multi-slot transfer, sent already or planned.
pub open spec fn blocks_of(w: UmacView, out: Emitted) -> Seq<MacBlock<Seq<bool>>> {
    (if out.len() == 1 {
        seq![first_block(out)]
    } else {
        Seq::empty()
    }) + (match w.reserved_tx {
        Some(plan) => plan.blocks,
        None => Seq::empty(),
    })
}

/// Where the piece of the rest in block `i` of a multi-slot transfer ends: at a
/// multiple of 264 bits, but so that the end block is left at least one bit.
pub open spec fn piece_end(len: int, i: int) -> int {
    if 264 * (i + 1) < len {
        264 * (i + 1)
    } else {
        len - 1
    }
}

/// The pieces of a rest that needs `n` slots follow each other in order and
/// without a gap: MAC-FRAGs of up to 264 bits, then the MAC-END with what is
/// left, each padded to the end of its slot.
pub proof fn law_pieces_leave_no_gap(rest: Seq<bool>, n: int)
    requires
        n >= 2,
        264 * (n - 2) + 254 < rest.len() <= 264 * (n - 1) + 254,
    ensures
        frag_blocks(rest, n).len() == n,
        forall|i: int|
            0 <= i < n - 1 ==> {
                let b = #[trigger] frag_blocks(rest, n)[i];
                let piece = rest.subrange(264 * i, piece_end(rest.len() as int, i));
                &&& b.header matches MacHeader::FragUl(h)
                &&& h.fill_bits == (piece.len() < 264)
                &&& padded(b.body, piece, piece.len() < 264, 264)
            },
        ({
            let b = frag_blocks(rest, n)[n - 1];
            let piece = rest.subrange(piece_end(rest.len() as int, n - 2), rest.len() as int);
            let bits = 10 + piece.len();
            &&& b.header matches MacHeader::EndUl(h)
            &&& h.fill_bits == (bits % 8 != 0)
            &&& h.length_ind matches Some(o) && bits <= 8 * o < bits + 8
            &&& h.reservation_req is None
            &&& padded(b.body, piece, bits % 8 != 0, 258)
        }),
{
    let len = rest.len() as int;
    assert forall|i: int| 0 <= i < n - 1 implies {
        let b = #[trigger] frag_blocks(rest, n)[i];
        let piece = rest.subrange(264 * i, piece_end(len, i));
        &&& b.header matches MacHeader::FragUl(h)
        &&& h.fill_bits == (piece.len() < 264)
        &&& padded(b.body, piece, piece.len() < 264, 264)
    } by {
        let piece = rest.subrange(264 * i, piece_end(len, i));
        assert(264 * i <= piece_end(len, i) <= len);
        assert(piece.len() <= 264);
    }
}

/// A grant of several slots carries the rest of the transfer over the reserved
/// slots, piece by piece, under the scrambling code of the transfer. The first
/// piece goes out at once where the slot two behind is usable, and the receipt
/// stays with the plan until the last one.
pub proof fn law_multi_slot_grant_sends_the_rest(v: UmacView, grant: Option<BasicSlotgrant>)
    requires
        v.pending_fragment is Some,
        v.pending_fragment->0.end_kind is MacFragUl,
        v.pending_fragment->0.end_kind->total_slots >= 2,
        grant_serves(v.pending_fragment->0, grant),
        v.dltime.wf(),
        v.dltime.slot_number() + 6 < 283_115_520,
    ensures
        ({
            let f = v.pending_fragment->0;
            let n = f.end_kind->total_slots;
            let (w, out) = v.after_acknowledged(grant);
            let first = v.dltime.plus(2);
            &&& blocks_of(w, out) == frag_blocks(f.remainder, n as int)
            &&& linearization(first) ==> out.len() == 0
            &&& !linearization(first) ==> one_control_burst(
                out,
                first,
                LogicalChannel::SchF,
                f.scrambling_code,
                true,
            )
            &&& w.reserved_tx matches Some(plan)
            &&& plan.scrambling_code == f.scrambling_code
            &&& plan.tx_reporter == f.tx_reporter
            &&& plan.slots == (if linearization(first) {
                reserved_slots(first, n as nat)
            } else {
                reserved_slots(first, n as nat).skip(1)
            })
            &&& w == (UmacView {
                pending_uplink: None,
                pending_fragment: None,
                reserved_tx: w.reserved_tx,
                ..v
            })
        }),
{
    let f = v.pending_fragment->0;
    let n = f.end_kind->total_slots;
    let first = v.dltime.plus(2);
    lemma_linearization(first);
    lemma_at_slot(v.dltime.slot_number() + 2);
    law_reserved_slots(first, n as nat);
    law_reserved_slots_leave_no_gap(first, n as nat, 0);
    let all = frag_blocks(f.remainder, n as int);
    let (w, out) = v.after_acknowledged(grant);
    assert(first.slot_number() == v.dltime.slot_number() + 2) by {
        vstd::arithmetic::div_mod::lemma_small_mod(
            (v.dltime.slot_number() + 2) as nat,
            283_115_520,
        );
    }
    if linearization(first) {
        lemma_at_slot(first.slot_number() + 4);
        vstd::arithmetic::div_mod::lemma_small_mod(
            (first.slot_number() + 4) as nat,
            283_115_520,
        );
        assert(first.plus(4).slot_number() == first.slot_number() + 4);
        assert(blocks_of(w, out) == all);
    } else {
        assert(blocks_of(w, out) == all);
    }
}

// ---------------------------------------------------------------------------
// Traffic channel
// ---------------------------------------------------------------------------

/// Whether the station keys the traffic channel two slots behind the downlink
/// slot: the slot is assigned and not in the control frame, the cell is known,
/// and there is the right to talk or something to signal.
pub open spec fn keys_traffic(v: UmacView) -> bool {
    let ul = v.dltime.plus(2);
    &&& ul.f != 18
    &&& v.assigned_traffic_slots[ul.t - 1]
    &&& v.scrambling_code is Some
    &&& v.uplink_tx_granted || v.pending_stolen_signalling.len() > 0
}

/// The slot request of a traffic burst.
pub open spec fn traffic_request(v: UmacView) -> TmvUnitdataReqSlot<Seq<bool>> {
    slot_request(v.after_traffic().1[0])->0
}

/// The block of a traffic burst that carries speech: the second where the first
/// is stolen.
pub open spec fn speech_block(v: UmacView) -> TmvUnitdataReq<Seq<bool>> {
    if v.pending_stolen_signalling.len() > 0 {
        traffic_request(v).blk2->0
    } else {
        traffic_request(v).blk1->0
    }
}

/// Exactly one burst is sent in a slot that the station keys, on the traffic
/// channel and not as a reserved access, with speech in its only block or, where
/// signalling waits, in its second; nothing is sent in any other slot.
pub proof fn law_traffic_burst_fills_its_slot(v: UmacView)
    ensures
        keys_traffic(v) ==> {
            let out = v.after_traffic().1;
            &&& out.len() == 1
            &&& slot_request(out[0]) matches Some(s)
            &&& s.ts == v.dltime.plus(2)
            &&& s.ul_phy_chan is Tp
            &&& s.bbk is None && !s.reserved_access
            &&& s.blk1 is Some
            &&& s.blk2 is Some <==> v.pending_stolen_signalling.len() > 0
            &&& speech_block(v).mac_block.header is Traffic
            &&& speech_block(v).logical_channel is TchS
            &&& Some(speech_block(v).scrambling_code) == v.scrambling_code
        },
        !keys_traffic(v) ==> v.after_traffic().0 == v && v.after_traffic().1.len() == 0,
{
}

/// While the station is the talker, the speech of a burst is the frame that
/// leaves the buffer: its first 274 bits, or all of a shorter one, each byte with
/// its most significant bit first, whether or not signalling steals the slot.
pub proof fn law_talker_sends_its_oldest_frame(v: UmacView)
    requires
        keys_traffic(v),
        v.uplink_tx_granted,
        v.uplink_audio.len() > 0,
        v.uplink_audio[0].len() > 0,
    ensures
        ({
            let frame = v.uplink_audio[0];
            let body = speech_block(v).mac_block.body;
            let w = v.after_traffic().0;
            &&& body.len() == (if 8 * frame.len() < 274 {
                8 * frame.len() as int
            } else {
                274
            })
            &&& forall|i: int|
                0 <= i < body.len() ==> #[trigger] body[i] == ((frame[i / 8] >> ((7 - i % 8) as u8))
                    & 1 == 1)
            &&& w.uplink_audio.len() == v.uplink_audio.len() - 1
            &&& forall|i: int|
                0 <= i < w.uplink_audio.len() ==> #[trigger] w.uplink_audio[i] == v.uplink_audio[i
                    + 1]
        }),
{
}

/// A burst without a frame to send carries silence, 274 zeros: a listener's, and
/// a talker's with an empty buffer or an empty frame. A listener's buffer is left
/// alone.
pub proof fn law_no_frame_means_silence(v: UmacView)
    requires
        keys_traffic(v),
        !v.uplink_tx_granted || v.uplink_audio.len() == 0 || v.uplink_audio[0].len() == 0,
    ensures
        speech_block(v).mac_block.body.len() == 274,
        forall|i: int| 0 <= i < 274 ==> !(#[trigger] speech_block(v).mac_block.body[i]),
        !v.uplink_tx_granted ==> v.after_traffic().0.uplink_audio == v.uplink_audio,
{
}

/// Signalling steals the first half of the next burst: the oldest, unchanged and
/// under its own scrambling code; it leaves the queue with its receipt marked
/// transmitted. Besides the speech buffer nothing else changes.
pub proof fn law_oldest_signalling_steals_the_slot(v: UmacView)
    requires
        keys_traffic(v),
    ensures
        ({
            let w = v.after_traffic().0;
            &&& w == (UmacView {
                uplink_audio: w.uplink_audio,
                pending_stolen_signalling: w.pending_stolen_signalling,
                receipt_marks: w.receipt_marks,
                ..v
            })
            &&& v.pending_stolen_signalling.len() == 0 ==> {
                &&& w.pending_stolen_signalling.len() == 0
                &&& w.receipt_marks == v.receipt_marks
            }
            &&& v.pending_stolen_signalling.len() > 0 ==> {
                let s = v.pending_stolen_signalling[0];
                &&& traffic_request(v).blk1 matches Some(b)
                &&& b.mac_block == s.mac_block
                &&& b.logical_channel is Stch
                &&& b.scrambling_code == s.scrambling_code
                &&& w.receipt_marks == v.receipt_marks + settled(
                    s.tx_reporter,
                    TxOutcome::Transmitted,
                )
                &&& w.pending_stolen_signalling.len() == v.pending_stolen_signalling.len() - 1
                &&& forall|i: int|
                    0 <= i < w.pending_stolen_signalling.len()
                        ==> #[trigger] w.pending_stolen_signalling[i]
                        == v.pending_stolen_signalling[i + 1]
            }
        }),
{
}

/// Speech to transmit is buffered last, unchanged; only where four frames wait
/// already does the oldest go.
pub proof fn law_speech_is_buffered_last(v: UmacView, data: Seq<u8>)
    ensures
        ({
            let w = v.after_speech(data);
            let gone = if v.uplink_audio.len() >= 4 {
                1int
            } else {
                0int
            };
            &&& w == (UmacView { uplink_audio: w.uplink_audio, ..v })
            &&& w.uplink_audio.len() == v.uplink_audio.len() - gone + 1
            &&& w.uplink_audio.last() == data
            &&& forall|i: int|
                0 <= i < v.uplink_audio.len() - gone ==> #[trigger] w.uplink_audio[i]
                    == v.uplink_audio[i + gone]
        }),
{
}

/// The right to talk is held with the grant and the user plane together; without
/// either, buffered speech is thrown away. Nothing else changes.
pub proof fn law_right_to_talk(v: UmacView, switch_u_plane: bool, tx_grant: bool)
    ensures
        ({
            let w = v.after_u_plane(switch_u_plane, tx_grant);
            &&& w.uplink_tx_granted == (switch_u_plane && tx_grant)
            &&& switch_u_plane && tx_grant ==> w.uplink_audio == v.uplink_audio
            &&& !(switch_u_plane && tx_grant) ==> w.uplink_audio.len() == 0
            &&& w == (UmacView {
                uplink_tx_granted: w.uplink_tx_granted,
                uplink_audio: w.uplink_audio,
                ..v
            })
        }),
{
}

/// A downlink slot advances the clock by one, and drives the multi-slot transfer
/// and then the traffic channel at the new time; what they send goes out in this
/// order.
pub proof fn law_slot_drives_transfer_and_traffic(v: UmacView)
    ensures
        ({
            let (w, out) = v.after_tick();
            let (a, reserved) = UmacView { dltime: v.dltime.plus(1), ..v }.after_reserved();
            let (b, traffic) = a.after_traffic();
            &&& w == b
            &&& w.dltime == v.dltime.plus(1)
            &&& out.len() == reserved.len() + traffic.len()
            &&& forall|i: int| 0 <= i < reserved.len() ==> #[trigger] out[i] == reserved[i]
            &&& forall|i: int|
                0 <= i < traffic.len() ==> out[reserved.len() + i] == #[trigger] traffic[i]
        }),
{
}

// ---------------------------------------------------------------------------
// Sizes
// ---------------------------------------------------------------------------

/// The burst of random access has 92 bits, a full slot 268 and a stolen half-slot
/// 124; from these and the lengths of the headers follows what each block holds.
pub proof fn law_block_sizes()
    ensures
        SCH_HU_TYPE1_BITS == 92 && SCH_F_TYPE1_BITS == 268 && STCH_TYPE1_BITS == 124,
        MAC_ACCESS_HEADER_BITS == 30 && MAC_ACCESS_FRAG_HEADER_BITS == 36,
        MAC_END_HU_HEADER_BITS == 7 && MAC_END_UL_HEADER_BITS == 10,
        MAC_FRAG_UL_HEADER_BITS == 4 && MAC_DATA_HEADER_BITS == 37,
        FRAG_START_SDU_BITS == SCH_HU_TYPE1_BITS - MAC_ACCESS_FRAG_HEADER_BITS,
        MAX_FRAG_UL_SDU_BITS == SCH_F_TYPE1_BITS - MAC_FRAG_UL_HEADER_BITS,
        MAX_END_HU_SDU_BITS == 88 - MAC_END_HU_HEADER_BITS,
        MAX_END_UL_SDU_BITS == 264 - MAC_END_UL_HEADER_BITS,
        MAX_UL_FRAG_SLOTS == 6 && MAX_UPLINK_QUEUE == 16 && UPLINK_AUDIO_MAX_FRAMES == 4,
        TCH_S_TYPE1_BITS == 274,
{
}

/// A header has the length of its kind; a MAC-ACCESS is longer by its six bits of
/// optional fields where it states a length or a fragment. A block is as long as
/// its header and its bits together.
pub proof fn law_header_lengths(b: MacBlock<Seq<bool>>)
    ensures
        b.total_bits() == b.body.len() + (match b.header {
            MacHeader::Traffic => 0int,
            MacHeader::Access(a) => if a.length_ind is Some || a.frag_flag is Some {
                36
            } else {
                30
            },
            MacHeader::EndHu(_) => 7,
            MacHeader::EndUl(_) => 10,
            MacHeader::FragUl(_) => 4,
            MacHeader::Data(_) => 37,
        }),
        b.header.announces_fill() == (match b.header {
            MacHeader::Traffic => false,
            MacHeader::Access(a) => a.fill_bits,
            MacHeader::EndHu(a) => a.fill_bits,
            MacHeader::EndUl(a) => a.fill_bits,
            MacHeader::FragUl(a) => a.fill_bits,
            MacHeader::Data(a) => a.fill_bits,
        }),
{
}

/// A grant and a requirement count the slots that their names say.
pub proof fn law_slots_are_as_named(
    c: BasicSlotgrantCapAlloc,
    r: ReservationRequirement,
    n: int,
)
    ensures
        granted_slots(c) == slots_granted(c),
        requested_slots(r) == slots_asked(r),
        1 <= n <= 6 ==> slots_asked(slots_requirement(n)) == n && slots_requirement(n)
            !is Req1Subslot,
{
}

/// The number of slots for a rest is the least that holds it: 264 bits in each but
/// the last, which holds 254. At most six may be reserved.
pub proof fn law_fewest_slots_hold_the_rest(len: int, n: int)
    requires
        len > 254,
    ensures
        ({
            let k = ul_frag_slots(len);
            264 * (k - 2) + 254 < len <= 264 * (k - 1) + 254
        }),
        frag_sizing_fits(len, n) <==> n >= 2 && 264 * (n - 2) + 254 < len <= 264 * (n - 1) + 254,
        frag_start_fits(len + 56) <==> len <= 1574,
{
}

} // verus!
