//! What holds of the mobile station's upper MAC as a whole.

use vstd::multiset::Multiset;
use vstd::prelude::*;

use crate::sap::{
    normal, LogicalChannel, ReceiptMark, SapMsgInner, TlmcValidAddress, TmaUnitdataReq, TxOutcome,
    TxReporter,
};
use crate::tdma::{lemma_at_slot, lemma_slot_number_identifies, TdmaTime, SLOT_COUNT_SPAN};
use crate::umac::mac_block::{frag_start_fits, MAC_ACCESS_HEADER_BITS, SCH_HU_TYPE1_BITS};
use crate::umac::receive::{scrambling_code_of, ChanAllocElement, MacResource};
use crate::umac::umac_ms::{
    PendingStolenSignalling, QueuedUplink, ReservedView, UmacView, BROADCAST_SSI, MAX_UPLINK_QUEUE,
    UPLINK_AUDIO_MAX_FRAMES,
};
use crate::umac::uplink::{
    control_burst, fragment_receipt, nothing, pending_receipt, reserved_slots, to_lmac,
    BasicSlotgrant, Emitted,
};

verus! {

// ---------------------------------------------------------------------------
// Receipts
// ---------------------------------------------------------------------------

/// One receipt, or none.
pub open spec fn one(r: Option<TxReporter>) -> Multiset<TxReporter> {
    match r {
        Some(r) => Multiset::singleton(r),
        None => Multiset::empty(),
    }
}

/// The receipts of a waiting transfer.
pub open spec fn transfer_receipts(t: QueuedUplink<Seq<bool>>) -> Multiset<TxReporter> {
    one(t.pending.tx_reporter).add(one(fragment_receipt(t.fragment)))
}

/// The receipts of the waiting transfers.
pub open spec fn queued_receipts(q: Seq<QueuedUplink<Seq<bool>>>) -> Multiset<TxReporter>
    decreases q.len(),
{
    if q.len() == 0 {
        Multiset::empty()
    } else {
        queued_receipts(q.drop_last()).add(transfer_receipts(q.last()))
    }
}

/// The receipts of the signalling that waits to steal a half-slot.
pub open spec fn stolen_receipts(q: Seq<PendingStolenSignalling<Seq<bool>>>) -> Multiset<TxReporter>
    decreases q.len(),
{
    if q.len() == 0 {
        Multiset::empty()
    } else {
        stolen_receipts(q.drop_last()).add(one(q.last().tx_reporter))
    }
}

/// The receipts that are settled.
pub open spec fn settled_receipts(q: Seq<ReceiptMark>) -> Multiset<TxReporter>
    decreases q.len(),
{
    if q.len() == 0 {
        Multiset::empty()
    } else {
        settled_receipts(q.drop_last()).insert(q.last().receipt)
    }
}

impl UmacView {
    /// The receipts that the MAC holds for transfers not settled yet.
    pub open spec fn held_receipts(self) -> Multiset<TxReporter> {
        one(pending_receipt(self.pending_uplink)).add(
            one(fragment_receipt(self.pending_fragment)),
        ).add(queued_receipts(self.uplink_queue)).add(
            one(
                match self.reserved_tx {
                    Some(p) => p.tx_reporter,
                    None => None,
                },
            ),
        ).add(stolen_receipts(self.pending_stolen_signalling))
    }

    /// All receipts that the MAC was given: held or settled.
    pub open spec fn all_receipts(self) -> Multiset<TxReporter> {
        self.held_receipts().add(settled_receipts(self.receipt_marks))
    }
}

proof fn lemma_queued_skip(q: Seq<QueuedUplink<Seq<bool>>>)
    requires
        q.len() > 0,
    ensures
        queued_receipts(q) =~= transfer_receipts(q[0]).add(queued_receipts(q.skip(1))),
    decreases q.len(),
{
    reveal_with_fuel(queued_receipts, 2);
    if q.len() == 1 {
        assert(q.drop_last().len() == 0);
        assert(q.skip(1).len() == 0);
    } else {
        lemma_queued_skip(q.drop_last());
        assert(q.drop_last().skip(1) == q.skip(1).drop_last());
    }
}

proof fn lemma_stolen_skip(q: Seq<PendingStolenSignalling<Seq<bool>>>)
    requires
        q.len() > 0,
    ensures
        stolen_receipts(q) =~= one(q[0].tx_reporter).add(stolen_receipts(q.skip(1))),
    decreases q.len(),
{
    reveal_with_fuel(stolen_receipts, 2);
    if q.len() == 1 {
        assert(q.drop_last().len() == 0);
        assert(q.skip(1).len() == 0);
    } else {
        lemma_stolen_skip(q.drop_last());
        assert(q.drop_last().skip(1) == q.skip(1).drop_last());
    }
}

proof fn lemma_marked(v: UmacView, r: Option<TxReporter>, outcome: TxOutcome)
    ensures
        v.marked(r, outcome).held_receipts() == v.held_receipts(),
        settled_receipts(v.marked(r, outcome).receipt_marks) =~= settled_receipts(
            v.receipt_marks,
        ).add(one(r)),
{
    if let Some(receipt) = r {
        let m = ReceiptMark { receipt, outcome };
        assert(v.receipt_marks.push(m).drop_last() == v.receipt_marks);
    }
}

/// Driving a multi-slot transfer loses no receipt and invents none.
pub proof fn law_reserved_keeps_receipts(v: UmacView)
    requires
        v.orderly(),
    ensures
        v.after_reserved().0.all_receipts() =~= v.all_receipts(),
{
    if let Some(plan) = v.reserved_tx {
        let ended = UmacView { reserved_tx: None, ..v };
        lemma_marked(ended, plan.tx_reporter, TxOutcome::Discarded);
        lemma_marked(ended, plan.tx_reporter, TxOutcome::Transmitted);
    }
}

/// Answering a capacity request loses no receipt and invents none.
pub proof fn law_grant_keeps_receipts(v: UmacView, grant: Option<BasicSlotgrant>)
    requires
        v.orderly(),
        v.pending_uplink is None,
    ensures
        v.after_grant(grant).0.all_receipts() =~= v.all_receipts(),
{
    if let Some(frag) = v.pending_fragment {
        let taken = UmacView { pending_fragment: None, ..v };
        lemma_marked(taken, frag.tx_reporter, TxOutcome::Discarded);
        lemma_marked(taken, frag.tx_reporter, TxOutcome::Transmitted);
        if UmacView::grant_completes(frag, grant) {
            if let crate::umac::mac_block::FragEndKind::MacFragUl { total_slots } = frag.end_kind {
                let plan = ReservedView {
                    blocks: crate::umac::mac_block::frag_blocks(
                        frag.remainder,
                        total_slots as int,
                    ),
                    slots: reserved_slots(v.dltime.plus(2), total_slots as nat),
                    scrambling_code: frag.scrambling_code,
                    tx_reporter: frag.tx_reporter,
                };
                lemma_at_slot(v.dltime.slot_number() + 2);
                crate::umac::uplink::law_reserved_slots(v.dltime.plus(2), total_slots as nat);
                law_reserved_keeps_receipts(UmacView { reserved_tx: Some(plan), ..taken });
            }
        }
    }
}

/// The acknowledgement of a random access loses no receipt and invents none.
pub proof fn law_acknowledgement_keeps_receipts(v: UmacView, grant: Option<BasicSlotgrant>)
    requires
        v.orderly(),
    ensures
        v.after_acknowledged(grant).0.all_receipts() =~= v.all_receipts(),
{
    let w = UmacView { pending_uplink: None, ..v };
    if v.pending_fragment is Some {
        law_grant_keeps_receipts(w, grant);
    } else {
        lemma_marked(w, pending_receipt(v.pending_uplink), TxOutcome::Transmitted);
    }
}

/// A random access that is refused or abandoned settles the receipts of its
/// transfer, and leaves nothing of it in flight.
pub proof fn law_abandoning_settles_receipts(v: UmacView)
    ensures
        v.after_abandoned().all_receipts() =~= v.all_receipts(),
        v.after_abandoned().pending_uplink is None,
        v.after_abandoned().pending_fragment is None,
{
    let w = UmacView { pending_uplink: None, pending_fragment: None, ..v };
    let x = w.marked(pending_receipt(v.pending_uplink), TxOutcome::Discarded);
    lemma_marked(w, pending_receipt(v.pending_uplink), TxOutcome::Discarded);
    lemma_marked(x, fragment_receipt(v.pending_fragment), TxOutcome::Discarded);
}

/// Moving the oldest waiting transfer up keeps every receipt.
pub proof fn law_promotion_keeps_receipts(v: UmacView, ra_active: bool)
    ensures
        v.after_promote(ra_active).all_receipts() =~= v.all_receipts(),
{
    if !v.in_flight(ra_active) && v.uplink_queue.len() > 0 {
        lemma_queued_skip(v.uplink_queue);
    }
}

/// Keying the traffic channel loses no receipt and invents none.
pub proof fn law_traffic_keeps_receipts(v: UmacView)
    ensures
        v.after_traffic().0.all_receipts() =~= v.all_receipts(),
{
    if v.traffic_due() && v.pending_stolen_signalling.len() > 0 {
        lemma_stolen_skip(v.pending_stolen_signalling);
        let w = UmacView {
            uplink_audio: if v.uplink_tx_granted && v.uplink_audio.len() > 0 {
                v.uplink_audio.skip(1)
            } else {
                v.uplink_audio
            },
            pending_stolen_signalling: v.pending_stolen_signalling.skip(1),
            ..v
        };
        lemma_marked(w, v.pending_stolen_signalling[0].tx_reporter, TxOutcome::Transmitted);
    }
}

/// Whether a TM-SDU from the link layer is taken for transmission.
pub open spec fn taken_for_transmission(v: UmacView, prim: TmaUnitdataReq<Seq<bool>>) -> bool {
    &&& v.scrambling_code is Some && v.configured_issi is Some
    &&& v.steals(prim) || MAC_ACCESS_HEADER_BITS + prim.pdu.len() <= SCH_HU_TYPE1_BITS
        || frag_start_fits(prim.pdu.len() as int)
}

/// Making room in the queue settles the receipts of what is dropped.
proof fn lemma_make_room(v: UmacView)
    ensures
        v.after_make_room().all_receipts() =~= v.all_receipts(),
{
    if v.uplink_queue.len() >= MAX_UPLINK_QUEUE {
        let d = v.uplink_queue[0];
        let x = UmacView { uplink_queue: v.uplink_queue.skip(1), ..v };
        lemma_queued_skip(v.uplink_queue);
        lemma_marked(x, d.pending.tx_reporter, TxOutcome::Discarded);
        lemma_marked(
            x.marked(d.pending.tx_reporter, TxOutcome::Discarded),
            fragment_receipt(d.fragment),
            TxOutcome::Discarded,
        );
    }
}

/// Waiting behind the others adds a transfer's receipts.
proof fn lemma_queued_push(v: UmacView, t: QueuedUplink<Seq<bool>>)
    ensures
        (UmacView { uplink_queue: v.uplink_queue.push(t), ..v }).all_receipts()
            =~= v.all_receipts().add(transfer_receipts(t)),
{
    assert(v.uplink_queue.push(t).drop_last() == v.uplink_queue);
}

/// Taking the place in flight adds a transfer's receipts.
proof fn lemma_in_flight(v: UmacView, t: QueuedUplink<Seq<bool>>)
    requires
        v.pending_uplink is None,
        v.pending_fragment is None,
    ensures
        (UmacView {
            pending_uplink: Some(t.pending),
            pending_fragment: t.fragment,
            ..v
        }).all_receipts() =~= v.all_receipts().add(transfer_receipts(t)),
{
}

/// Signalling that is to steal a half-slot adds its receipt.
proof fn lemma_stolen_push(v: UmacView, s: PendingStolenSignalling<Seq<bool>>)
    ensures
        (UmacView {
            pending_stolen_signalling: v.pending_stolen_signalling.push(s),
            ..v
        }).all_receipts() =~= v.all_receipts().add(one(s.tx_reporter)),
{
    assert(v.pending_stolen_signalling.push(s).drop_last() == v.pending_stolen_signalling);
}

/// Taking a TM-SDU adds its receipt and loses no other, also where the queue
/// overflows; a TM-SDU that is not taken changes nothing.
pub proof fn law_transfer_adds_its_receipt(
    v: UmacView,
    prim: TmaUnitdataReq<Seq<bool>>,
    ra_active: bool,
)
    ensures
        taken_for_transmission(v, prim) ==> v.after_tma(prim, ra_active).all_receipts()
            =~= v.all_receipts().add(one(prim.tx_reporter)),
        !taken_for_transmission(v, prim) ==> v.after_tma(prim, ra_active) == v,
{
    if taken_for_transmission(v, prim) {
        let (code, issi) = (v.scrambling_code->0, v.configured_issi->0);
        if v.steals(prim) {
            lemma_stolen_push(
                v,
                PendingStolenSignalling {
                    mac_block: crate::umac::mac_block::stch_block(issi, prim.pdu),
                    scrambling_code: code,
                    tx_reporter: prim.tx_reporter,
                },
            );
        } else {
            let t = v.transfer_for(prim, issi, code);
            assert(transfer_receipts(t) =~= one(prim.tx_reporter));
            if v.in_flight(ra_active) {
                lemma_make_room(v);
                lemma_queued_push(v.after_make_room(), t);
            } else {
                lemma_in_flight(v, t);
            }
        }
    }
}

// ---------------------------------------------------------------------------
// One transfer at a time
// ---------------------------------------------------------------------------

impl UmacView {
    /// The MAC works on one transfer: a first fragment carries no receipt of its
    /// own, and a multi-slot transfer under way has blocks left and nothing
    /// contends beside it.
    pub open spec fn orderly(self) -> bool {
        &&& self.wf()
        &&& self.pending_fragment is Some ==> pending_receipt(self.pending_uplink) is None
        &&& forall|i: int|
            0 <= i < self.uplink_queue.len() && (#[trigger] self.uplink_queue[i]).fragment is Some
                ==> self.uplink_queue[i].pending.tx_reporter is None
        &&& self.reserved_tx matches Some(plan) ==> {
            &&& plan.slots.len() > 0
            &&& self.pending_uplink is None
            &&& self.pending_fragment is None
        }
    }
}

/// Taking a TM-SDU, starting a waiting transfer, and each way in which a random
/// access ends (refused, abandoned or acknowledged) keep the MAC orderly.
pub proof fn law_random_access_keeps_order(
    v: UmacView,
    prim: TmaUnitdataReq<Seq<bool>>,
    grant: Option<BasicSlotgrant>,
    ra_active: bool,
)
    requires
        v.orderly(),
    ensures
        v.after_tma(prim, ra_active).orderly(),
        v.after_promote(ra_active).orderly(),
        v.after_abandoned().orderly(),
        v.after_acknowledged(grant).0.orderly(),
{
    lemma_transfer_orderly(v, prim, ra_active);
    let w = UmacView { pending_uplink: None, ..v };
    if let Some(frag) = v.pending_fragment {
        if UmacView::grant_completes(frag, grant) {
            if let crate::umac::mac_block::FragEndKind::MacFragUl { total_slots } = frag.end_kind {
                let plan = ReservedView {
                    blocks: crate::umac::mac_block::frag_blocks(
                        frag.remainder,
                        total_slots as int,
                    ),
                    slots: reserved_slots(v.dltime.plus(2), total_slots as nat),
                    scrambling_code: frag.scrambling_code,
                    tx_reporter: frag.tx_reporter,
                };
                lemma_at_slot(v.dltime.slot_number() + 2);
                crate::umac::uplink::law_reserved_slots(v.dltime.plus(2), total_slots as nat);
                let x = UmacView { pending_fragment: None, reserved_tx: Some(plan), ..w };
                assert(x.orderly());
                law_clock_keeps_order(x);
            }
        }
    }
}

proof fn lemma_transfer_orderly(v: UmacView, prim: TmaUnitdataReq<Seq<bool>>, ra_active: bool)
    requires
        v.orderly(),
    ensures
        v.after_tma(prim, ra_active).orderly(),
{
    let r = v.after_tma(prim, ra_active);
    let w = v.after_make_room();
    assert forall|i: int|
        0 <= i < w.uplink_queue.len() && (#[trigger] w.uplink_queue[i]).fragment
            is Some implies w.uplink_queue[i].pending.tx_reporter is None by {
        if v.uplink_queue.len() >= MAX_UPLINK_QUEUE {
            assert(w.uplink_queue[i] == v.uplink_queue[i + 1]);
        }
    }
    assert forall|i: int|
        0 <= i < r.uplink_queue.len() && (#[trigger] r.uplink_queue[i]).fragment
            is Some implies r.uplink_queue[i].pending.tx_reporter is None by {
        if r.uplink_queue.len() == w.uplink_queue.len() + 1 && i < w.uplink_queue.len() {
            assert(r.uplink_queue[i] == w.uplink_queue[i] || r.uplink_queue[i]
                == v.uplink_queue[i]);
        }
    }
}

/// The running clock, with the multi-slot transfer and the traffic channel that
/// it drives, keeps the MAC orderly.
pub proof fn law_clock_keeps_order(v: UmacView)
    requires
        v.orderly(),
    ensures
        v.after_reserved().0.orderly(),
        v.after_traffic().0.orderly(),
        v.after_tick().0.orderly(),
{
}

/// A TM-SDU that arrives while a transfer is in flight never touches that
/// transfer.
pub proof fn law_transfer_in_flight_is_kept(
    v: UmacView,
    prim: TmaUnitdataReq<Seq<bool>>,
    ra_active: bool,
)
    requires
        v.in_flight(ra_active),
    ensures
        v.after_tma(prim, ra_active).pending_uplink == v.pending_uplink,
        v.after_tma(prim, ra_active).pending_fragment == v.pending_fragment,
        v.after_tma(prim, ra_active).reserved_tx == v.reserved_tx,
{
}

/// The waiting transfers and the buffered speech stay within their bounds.
pub proof fn law_buffers_stay_bounded(
    v: UmacView,
    prim: TmaUnitdataReq<Seq<bool>>,
    data: Seq<u8>,
    ra_active: bool,
)
    requires
        v.uplink_queue.len() <= MAX_UPLINK_QUEUE,
        v.uplink_audio.len() <= UPLINK_AUDIO_MAX_FRAMES,
    ensures
        v.after_tma(prim, ra_active).uplink_queue.len() <= MAX_UPLINK_QUEUE,
        v.after_promote(ra_active).uplink_queue.len() <= MAX_UPLINK_QUEUE,
        v.after_tma(prim, ra_active).uplink_audio.len() <= UPLINK_AUDIO_MAX_FRAMES,
        v.after_speech(data).uplink_audio.len() <= UPLINK_AUDIO_MAX_FRAMES,
        v.after_traffic().0.uplink_audio.len() <= UPLINK_AUDIO_MAX_FRAMES,
{
}

/// Waiting transfers are started in the order in which they came: what arrives
/// while others wait is started after all of them.
pub proof fn law_transfers_are_fifo(
    v: UmacView,
    prim: TmaUnitdataReq<Seq<bool>>,
    ra_active: bool,
)
    requires
        v.in_flight(ra_active),
        v.uplink_queue.len() < MAX_UPLINK_QUEUE,
        taken_for_transmission(v, prim),
        !v.steals(prim),
    ensures
        v.after_tma(prim, ra_active).uplink_queue == v.uplink_queue.push(
            v.transfer_for(prim, v.configured_issi->0, v.scrambling_code->0),
        ),
{
}

// ---------------------------------------------------------------------------
// Multi-slot transfers
// ---------------------------------------------------------------------------

/// The reserved slots of a transfer lie in ascending order, none before the
/// first candidate, as long as the hyperframe counter does not wrap.
pub proof fn law_reserved_slots_ascend(cand: TdmaTime, n: nat)
    requires
        cand.wf(),
        cand.slot_number() + 8 * n + 8 < SLOT_COUNT_SPAN,
    ensures
        reserved_slots(cand, n).len() == n,
        forall|i: int|
            0 <= i < n ==> cand.slot_number() <= (#[trigger] reserved_slots(
                cand,
                n,
            )[i]).slot_number(),
        forall|i: int, j: int|
            0 <= i < j < n ==> (#[trigger] reserved_slots(cand, n)[i]).slot_number() < (
            #[trigger] reserved_slots(cand, n)[j]).slot_number(),
    decreases n,
{
    if n > 0 {
        lemma_slot_number_identifies(cand);
        lemma_at_slot(cand.slot_number() + 4);
        let next = cand.plus(4);
        assert(next.slot_number() == cand.slot_number() + 4) by {
            vstd::arithmetic::div_mod::lemma_small_mod(
                (cand.slot_number() + 4) as nat,
                SLOT_COUNT_SPAN as nat,
            );
        }
        crate::tdma::lemma_next_frame_keeps_timeslot(cand);
        let first = if cand.mandatory_clch() {
            next
        } else {
            cand
        };
        assert(!first.mandatory_clch());
        lemma_slot_number_identifies(first);
        lemma_at_slot(first.slot_number() + 4);
        assert(first.plus(4).slot_number() == first.slot_number() + 4) by {
            vstd::arithmetic::div_mod::lemma_small_mod(
                (first.slot_number() + 4) as nat,
                SLOT_COUNT_SPAN as nat,
            );
        }
        let rest = reserved_slots(first.plus(4), (n - 1) as nat);
        law_reserved_slots_ascend(first.plus(4), (n - 1) as nat);
        assert(reserved_slots(first, n) == seq![first] + rest);
        assert(reserved_slots(cand, n) == seq![first] + rest);
        let all = reserved_slots(cand, n);
        assert forall|i: int| 0 <= i < n implies cand.slot_number() <= (
        #[trigger] all[i]).slot_number() by {
            if i > 0 {
                assert(all[i] == rest[i - 1]);
            }
        }
        assert forall|i: int, j: int| 0 <= i < j < n implies (#[trigger] all[i]).slot_number() < (
        #[trigger] all[j]).slot_number() by {
            assert(all[j] == rest[j - 1]);
            if i > 0 {
                assert(all[i] == rest[i - 1]);
            }
        }
    }
}

/// `n` downlink slots of a multi-slot transfer.
pub open spec fn reserved_run(v: UmacView, n: nat) -> (UmacView, Emitted)
    decreases n,
{
    if n == 0 {
        (v, nothing())
    } else {
        let (w, first) = UmacView { dltime: v.dltime.plus(1), ..v }.after_reserved();
        let (x, rest) = reserved_run(w, (n - 1) as nat);
        (x, first + rest)
    }
}

/// The bursts of a multi-slot transfer: each block in its own reserved slot.
pub open spec fn plan_bursts(plan: ReservedView) -> Emitted {
    Seq::new(
        plan.blocks.len(),
        |i: int|
            normal(
                control_burst(
                    plan.slots[i],
                    plan.blocks[i],
                    LogicalChannel::SchF,
                    plan.scrambling_code,
                    true,
                ),
            ),
    )
}

/// While the downlink clock runs on, a multi-slot transfer sends each of its
/// blocks exactly once, in order, in its reserved slot, and its receipt is
/// marked transmitted with the last one.
#[verifier::rlimit(40)]
pub proof fn law_reserved_run_sends_all(v: UmacView, n: nat)
    requires
        v.dltime.wf(),
        v.dltime.slot_number() + 2 + n < SLOT_COUNT_SPAN,
        v.reserved_tx matches Some(plan) && {
            &&& plan.blocks.len() == plan.slots.len()
            &&& plan.blocks.len() > 0
            &&& v.dltime.slot_number() + 2 < plan.slots[0].slot_number()
            &&& forall|i: int, j: int|
                0 <= i < j < plan.slots.len() ==> (#[trigger] plan.slots[i]).slot_number() < (
                #[trigger] plan.slots[j]).slot_number()
            &&& plan.slots.last().slot_number() == v.dltime.slot_number() + 2 + n
        },
    ensures
        reserved_run(v, n).1 == plan_bursts(v.reserved_tx->0),
        reserved_run(v, n).0 == (UmacView {
            dltime: v.dltime.plus(n as int),
            reserved_tx: None,
            ..v
        }).marked(v.reserved_tx->0.tx_reporter, TxOutcome::Transmitted),
    decreases n,
{
    let plan = v.reserved_tx->0;
    let s = v.dltime.slot_number();
    lemma_slot_number_identifies(v.dltime);
    if plan.slots.len() > 1 {
        assert(plan.slots[0].slot_number() < plan.slots[plan.slots.len() - 1].slot_number());
    }
    assert(n > 0);
    lemma_at_slot(s + 1);
    vstd::arithmetic::div_mod::lemma_small_mod((s + 1) as nat, SLOT_COUNT_SPAN as nat);
    let next = v.dltime.plus(1);
    assert(next.wf() && next.slot_number() == s + 1);
    lemma_at_slot(s + 3);
    vstd::arithmetic::div_mod::lemma_small_mod((s + 3) as nat, SLOT_COUNT_SPAN as nat);
    assert(next.plus(2).slot_number() == s + 3);
    crate::tdma::lemma_plus_plus(v.dltime, 1, n - 1);
    let u = UmacView { dltime: next, ..v };
    let (w, first) = u.after_reserved();
    let bursts = plan_bursts(plan);
    if plan.slots[0].slot_number() > s + 3 {
        law_reserved_run_sends_all(w, (n - 1) as nat);
        assert(nothing() + bursts == bursts);
    } else if plan.blocks.len() == 1 {
        assert(n == 1);
        lemma_slot_number_identifies(next);
        assert(reserved_run(w, 0).1 == nothing());
        assert(first + nothing() == bursts);
    } else {
        let rest = w.reserved_tx->0;
        assert(rest.slots == plan.slots.skip(1) && rest.blocks == plan.blocks.skip(1));
        assert(plan.slots[0].slot_number() < plan.slots[1].slot_number());
        assert(rest.slots[0] == plan.slots[1]);
        assert(rest.slots.last() == plan.slots.last());
        assert forall|i: int, j: int| 0 <= i < j < rest.slots.len() implies (
        #[trigger] rest.slots[i]).slot_number() < (#[trigger] rest.slots[j]).slot_number() by {
            assert(rest.slots[i] == plan.slots[i + 1] && rest.slots[j] == plan.slots[j + 1]);
        }
        law_reserved_run_sends_all(w, (n - 1) as nat);
        assert(first + plan_bursts(rest) == bursts);
    }
}

/// A reserved slot that the clock has passed ends the transfer: nothing is sent
/// and the receipt is discarded.
pub proof fn law_missed_slot_ends_transfer(v: UmacView)
    requires
        v.reserved_tx matches Some(plan) && plan.slots.len() > 0 && v.dltime.plus(2).slot_number()
            > plan.slots[0].slot_number(),
    ensures
        v.after_reserved().1 == nothing(),
        v.after_reserved().0.reserved_tx is None,
        v.after_reserved().0 == (UmacView { reserved_tx: None, ..v }).marked(
            v.reserved_tx->0.tx_reporter,
            TxOutcome::Discarded,
        ),
{
}

// ---------------------------------------------------------------------------
// Receive filter
// ---------------------------------------------------------------------------

/// The broadcast identity is accepted in every state, and every identity is
/// accepted outside MS mode.
pub proof fn law_filter_admits_broadcast_and_monitor(v: UmacView, ssi: u32)
    ensures
        v.accepts(BROADCAST_SSI),
        v.stack_mode !is Ms ==> v.accepts(ssi),
{
}

/// In MS mode exactly the own identity, the attached groups and the broadcast
/// identity are accepted.
pub proof fn law_filter_is_exact(v: UmacView, ssi: u32)
    requires
        v.stack_mode is Ms,
        v.configured_issi is Some,
    ensures
        v.accepts(ssi) <==> ssi == BROADCAST_SSI || v.valid_individual_ssi == Some(ssi)
            || v.valid_group_ssis.contains(ssi),
{
}

/// A configuration without identities keeps the filter as it is; one with
/// identities replaces the groups and the own identity.
pub proof fn law_configuration_and_filter(v: UmacView, a: TlmcValidAddress<Seq<u32>>, ssi: u32)
    ensures
        a.individual_ssi is None && a.group_ssis is None ==> v.after_identities(a).0.accepts(ssi)
            == v.accepts(ssi),
        a.individual_ssi is Some && a.group_ssis is Some && v.stack_mode is Ms
            && v.configured_issi is Some ==> (v.after_identities(a).0.accepts(ssi) <==> ssi
            == BROADCAST_SSI || ssi == a.individual_ssi->0 || a.group_ssis->0.contains(ssi)),
{
    if let Some(g) = a.group_ssis {
        assert(g.to_set().contains(ssi) <==> g.contains(ssi));
    }
}

/// For codes in their ranges the scrambling code is the three codes side by
/// side, followed by two ones; different cells have different scrambling codes.
pub proof fn law_scrambling_code(mcc: u16, mnc: u16, cc: u8, mcc2: u16, mnc2: u16, cc2: u8)
    requires
        mcc < 1024 && mnc < 16384 && cc < 64,
        mcc2 < 1024 && mnc2 < 16384 && cc2 < 64,
    ensures
        scrambling_code_of(mcc, mnc, cc) == 4 * (cc + 64 * mnc + 1048576 * mcc) + 3,
        scrambling_code_of(mcc, mnc, cc) == scrambling_code_of(mcc2, mnc2, cc2) ==> mcc == mcc2
            && mnc == mnc2 && cc == cc2,
{
    assert(((((cc as u32) | ((mnc as u32) << 6) | ((mcc as u32) << 20)) << 2) | 3) as u32 == 4 * (cc
        + 64 * mnc + 1048576 * mcc) + 3) by (bit_vector)
        requires
            mcc < 1024 && mnc < 16384 && cc < 64,
    ;
    assert(((((cc2 as u32) | ((mnc2 as u32) << 6) | ((mcc2 as u32) << 20)) << 2) | 3) as u32 == 4
        * (cc2 + 64 * mnc2 + 1048576 * mcc2) + 3) by (bit_vector)
        requires
            mcc2 < 1024 && mnc2 < 16384 && cc2 < 64,
    ;
}

// ---------------------------------------------------------------------------
// Traffic and tuning
// ---------------------------------------------------------------------------

/// Nothing is sent on the traffic channel in the control frame, in a slot that
/// is not assigned, before camping, or by a listener with nothing to signal.
pub proof fn law_traffic_stays_silent(v: UmacView)
    requires
        v.dltime.plus(2).f == 18 || !v.assigned_traffic_slots[v.dltime.plus(2).t - 1]
            || v.scrambling_code is None || (!v.uplink_tx_granted
            && v.pending_stolen_signalling.len() == 0),
    ensures
        v.after_traffic() == (v, nothing()),
{
}

/// Exactly one frame of the talker leaves the speech buffer per traffic burst, the
/// oldest one; a listener's burst takes none.
pub proof fn law_one_frame_per_granted_slot(v: UmacView)
    requires
        v.traffic_due(),
    ensures
        v.uplink_tx_granted && v.uplink_audio.len() > 0 ==> v.after_traffic().0.uplink_audio
            == v.uplink_audio.skip(1),
        !v.uplink_tx_granted ==> v.after_traffic().0.uplink_audio == v.uplink_audio,
{
}

/// After the grant is withdrawn, no speech that was buffered before is ever
/// sent: the buffer is empty.
pub proof fn law_degrant_flushes_speech(v: UmacView, switch_u_plane: bool, tx_grant: bool)
    requires
        !(switch_u_plane && tx_grant),
    ensures
        !v.after_u_plane(switch_u_plane, tx_grant).uplink_tx_granted,
        v.after_u_plane(switch_u_plane, tx_grant).uplink_audio.len() == 0,
{
}

/// The transmitter is retuned once per change of the derived uplink carrier.
pub proof fn law_retune_once(v: UmacView, ul: Option<u32>)
    ensures
        v.after_uplink(ul).0.after_uplink(ul) == (v.after_uplink(ul).0, nothing()),
        v.stack_mode is Ms && ul is Some && v.derived_ul_freq != ul ==> v.after_uplink(ul).1
            == seq![normal(to_lmac(SapMsgInner::TmvTxTuneReq { carrier_hz: ul->0 }))],
{
}

/// An allocation for another carrier, another cell or the uplink alone leaves
/// the assigned slots as they are; an additional one never takes a slot away.
pub proof fn law_allocation_never_strays(v: UmacView, ca: ChanAllocElement, ts: int)
    requires
        0 <= ts < 4,
        v.assigned_traffic_slots.len() == 4,
    ensures
        ca.cell_change_flag || ca.extended || v.serving_carrier_num != Some(ca.carrier_num)
            || ca.ul_dl_assigned is Ul ==> v.after_allocation(ca) == v,
        ca.alloc_type is Additional && v.assigned_traffic_slots[ts] ==> v.after_allocation(
            ca,
        ).assigned_traffic_slots[ts],
{
}

/// A MAC-RESOURCE for another station changes nothing but what its
/// acknowledgement of a random access changes.
pub proof fn law_foreign_resource_changes_nothing(v: UmacView, pdu: MacResource)
    requires
        v.stack_mode is Ms,
        v.configured_issi is Some,
        pdu.addr matches Some(a) && a.ssi != BROADCAST_SSI && v.valid_individual_ssi != Some(a.ssi)
            && !v.valid_group_ssis.contains(a.ssi),
    ensures
        !v.takes_resource(pdu),
{
}

} // verus!
