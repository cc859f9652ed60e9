//! What holds of the physical layer as a whole.

use vstd::prelude::*;

use crate::phy::phy_ms::{
    burst_blocks, cycle_blocks, cycle_has_burst, cycle_time, monitor_ind, request_is_full,
    scan_dwell_ind, uplink_blocks, PhyAction, PhyView, RxSlotBits, UplinkBlocks,
    DOWNLINK_FAILURE_SLOTS, RSSI_REPORT_SLOTS, SCAN_DWELL_CYCLES,
};
use crate::sap::{
    BurstType, MsgView, PhyBlockNum, PhyBlockType, SapMsgInner, TpUnitdataReqSlot,
    TrainingSequence,
};
use crate::tdma::TdmaTime;
use crate::umac::uplink::{nothing, Emitted};

verus! {

// ---------------------------------------------------------------------------
// The link
// ---------------------------------------------------------------------------

/// `n` slots pass, all with a burst or all without, from time `t` on.
pub open spec fn slots(v: PhyView, t: TdmaTime, burst: bool, rssi: Option<i32>, n: nat) -> PhyView
    decreases n,
{
    if n == 0 {
        v
    } else {
        slots(v, t, burst, rssi, (n - 1) as nat).after_slot(
            t.plus(n as int),
            burst,
            rssi,
        ).0
    }
}

/// What is reported while `n` slots pass.
pub open spec fn reported(v: PhyView, t: TdmaTime, burst: bool, rssi: Option<i32>, n: nat) -> Emitted
    decreases n,
{
    if n == 0 {
        nothing()
    } else {
        reported(v, t, burst, rssi, (n - 1) as nat) + slots(
            v,
            t,
            burst,
            rssi,
            (n - 1) as nat,
        ).after_slot(t.plus(n as int), burst, rssi).1
    }
}

/// A failure is declared when as many slots in a row as the limit carry no
/// burst, not before, and once: further slots without a burst report nothing.
pub proof fn law_failure_is_declared_once(v: PhyView, t: TdmaTime, rssi: Option<i32>, n: nat)
    requires
        v.wf(),
        v.synced,
        v.slots_without_burst == 0,
    ensures
        n < DOWNLINK_FAILURE_SLOTS ==> {
            &&& slots(v, t, false, rssi, n).synced
            &&& slots(v, t, false, rssi, n).slots_without_burst == n
            &&& reported(v, t, false, rssi, n) == nothing()
        },
        n >= DOWNLINK_FAILURE_SLOTS ==> {
            &&& !slots(v, t, false, rssi, n).synced
            &&& reported(v, t, false, rssi, n) == monitor_ind(false, rssi)
        },
        slots(v, t, false, rssi, n).wf(),
    decreases n,
{
    if n > 0 {
        law_failure_is_declared_once(v, t, rssi, (n - 1) as nat);
    }
}

/// A burst ends a failure: the downlink is reported available at once, and only
/// then.
pub proof fn law_burst_restores_the_link(v: PhyView, t: TdmaTime, rssi: Option<i32>)
    requires
        v.wf(),
        !v.synced,
    ensures
        v.after_slot(t, true, rssi).0.synced,
        v.after_slot(t, true, rssi).1 == monitor_ind(true, rssi),
        v.after_slot(t, false, rssi).1 == nothing(),
        !v.after_slot(t, false, rssi).0.synced,
{
}

/// A single slot with a burst forgets all slots without one before it.
pub proof fn law_burst_resets_the_count(v: PhyView, t: TdmaTime, rssi: Option<i32>)
    ensures
        v.after_slot(t, true, rssi).0.slots_without_burst == 0,
{
}

/// While the downlink is followed, the receive level is reported once per
/// interval.
pub proof fn law_level_is_reported_per_interval(v: PhyView, t: TdmaTime, rssi: Option<i32>, n: nat)
    requires
        v.wf(),
        v.synced,
        v.slots_since_rssi_report == 0,
        n <= RSSI_REPORT_SLOTS,
    ensures
        n < RSSI_REPORT_SLOTS ==> {
            &&& slots(v, t, true, rssi, n).slots_since_rssi_report == n
            &&& reported(v, t, true, rssi, n) == nothing()
        },
        n == RSSI_REPORT_SLOTS ==> {
            &&& slots(v, t, true, rssi, n).slots_since_rssi_report == 0
            &&& reported(v, t, true, rssi, n) == monitor_ind(true, rssi)
        },
        slots(v, t, true, rssi, n).synced,
    decreases n,
{
    if n > 0 {
        law_level_is_reported_per_interval(v, t, rssi, (n - 1) as nat);
    }
}

/// `n` cycles pass without a slot.
pub open spec fn empty_cycles(v: PhyView, rssi: Option<i32>, n: nat) -> PhyView
    decreases n,
{
    if n == 0 {
        v
    } else {
        empty_cycles(v, rssi, (n - 1) as nat).after_no_slot(rssi).0
    }
}

/// What is reported while `n` cycles pass without a slot.
pub open spec fn dwells_reported(v: PhyView, rssi: Option<i32>, n: nat) -> Emitted
    decreases n,
{
    if n == 0 {
        nothing()
    } else {
        dwells_reported(v, rssi, (n - 1) as nat) + empty_cycles(
            v,
            rssi,
            (n - 1) as nat,
        ).after_no_slot(rssi).1
    }
}

/// On an empty carrier the dwell elapses after its number of cycles, and the next
/// one begins; while the downlink is followed, no dwell runs.
pub proof fn law_dwell_elapses(v: PhyView, rssi: Option<i32>, n: nat)
    requires
        v.wf(),
        v.unsynced_cycles == 0,
        n <= SCAN_DWELL_CYCLES,
    ensures
        v.synced ==> empty_cycles(v, rssi, n) == v && dwells_reported(v, rssi, n) == nothing(),
        !v.synced && n < SCAN_DWELL_CYCLES ==> {
            &&& empty_cycles(v, rssi, n) == (PhyView { unsynced_cycles: n as u32, ..v })
            &&& dwells_reported(v, rssi, n) == nothing()
        },
        !v.synced && n == SCAN_DWELL_CYCLES ==> {
            &&& empty_cycles(v, rssi, n) == v
            &&& dwells_reported(v, rssi, n) == scan_dwell_ind(rssi)
        },
    decreases n,
{
    if n > 0 {
        law_dwell_elapses(v, rssi, (n - 1) as nat);
    }
}

// ---------------------------------------------------------------------------
// Transmission
// ---------------------------------------------------------------------------

/// No burst is assembled before the transmitter has been tuned, and only a tuning
/// request tunes it.
pub proof fn law_no_burst_before_tuning(v: PhyView, m: MsgView)
    requires
        v.wf(),
        v.takes(m),
    ensures
        !v.tx_frequency_set ==> v.after_prim(m).1 !is BuildBurst,
        v.after_prim(m).0.tx_frequency_set == (v.tx_frequency_set || v.after_prim(m).1 is TuneTx),
        v.after_prim(m).1 is TuneTx ==> m.msg is TpcTxTuneReq,
{
}

/// A burst is scheduled exactly two slots after the received downlink slot,
/// whatever slot the device generates and whether the slot was reserved.
pub proof fn law_burst_is_scheduled_at_its_grant(v: PhyView, m: MsgView)
    requires
        v.takes(m),
    ensures
        v.after_prim(m).1 matches PhyAction::BuildBurst { time, .. } ==> time == v.dltime.plus(2),
{
}

/// Whether the antenna stands where the burst needs it: at the transmitter only
/// while a burst waits.
pub open spec fn antenna_follows_burst(v: PhyView) -> bool {
    v.tx_path_active ==> v.pending_tx is Some
}

/// The antenna goes to the transmitter with a waiting burst and comes back with
/// its end: the two switches alternate.
pub proof fn law_antenna_alternates(
    v: PhyView,
    rx: Seq<Option<RxSlotBits>>,
    rssi: Option<i32>,
    air_time: Option<TdmaTime>,
)
    requires
        v.wf(),
        antenna_follows_burst(v),
    ensures
        ({
            let (w, out) = v.after_begin();
            let (x, _, end) = w.after_cycle(rx, rssi, air_time);
            &&& out == (!v.tx_path_active && v.pending_tx is Some)
            &&& w.tx_path_active == (v.tx_path_active || out)
            &&& end.switch_to_rx == (w.tx_path_active && !x.tx_path_active)
            &&& antenna_follows_burst(w)
            &&& antenna_follows_burst(x)
        }),
{
}

/// A waiting burst is kept until generation has passed its slot, and gone after.
pub proof fn law_burst_is_kept_until_sent(
    v: PhyView,
    rx: Seq<Option<RxSlotBits>>,
    rssi: Option<i32>,
    now: TdmaTime,
)
    requires
        v.wf(),
        v.tx_path_active,
        v.pending_tx is Some,
        cycle_time(rx) is Some,
    ensures
        now.slot_number() <= v.pending_tx->0.time.slot_number() ==> v.after_cycle(
            rx,
            rssi,
            Some(now),
        ).0.pending_tx == v.pending_tx,
        now.slot_number() > v.pending_tx->0.time.slot_number() ==> v.after_cycle(
            rx,
            rssi,
            Some(now),
        ).0.pending_tx is None,
        v.after_cycle(rx, rssi, None).0.pending_tx == v.pending_tx,
{
}

/// Without a burst nothing is switched and nothing is presented.
pub proof fn law_idle_transmitter_stays_idle(v: PhyView)
    requires
        v.pending_tx is None,
        !v.tx_path_active,
    ensures
        v.after_begin() == (v, false),
        forall|t: Option<TdmaTime>| #[trigger] v.after_retire(t) == (v, false),
{
}

/// A retune starts reception anew and keeps what is to be transmitted.
pub proof fn law_retune_starts_anew(v: PhyView)
    ensures
        !v.after_tune().synced,
        v.after_tune().unsynced_cycles == 0,
        v.after_tune().slots_without_burst == 0,
        v.after_tune().pending_tx == v.pending_tx,
        v.after_tune().tx_frequency_set == v.tx_frequency_set,
{
}

// ---------------------------------------------------------------------------
// Bursts
// ---------------------------------------------------------------------------

/// The number of bits of a message's block.
pub open spec fn block_len(m: MsgView) -> nat {
    match m.msg {
        SapMsgInner::TpUnitdataInd { block, .. } => block.len(),
        _ => 0,
    }
}

/// The broadcast block comes first and has its 30 bits, whatever the burst; the
/// other blocks together have the bits that the burst carries.
pub proof fn law_broadcast_block_comes_first(train: TrainingSequence, bits: Seq<bool>)
    requires
        bits.len() == 510,
        train is SyncTrainSeq || train is NormalTrainSeq1 || train is NormalTrainSeq2,
    ensures
        burst_blocks(train, bits).len() >= 2,
        burst_blocks(train, bits)[0].1.msg matches SapMsgInner::TpUnitdataInd { block_type, .. }
            && block_type is BBK,
        block_len(burst_blocks(train, bits)[0].1) == 30,
        train is SyncTrainSeq ==> block_len(burst_blocks(train, bits)[1].1) == 120 && block_len(
            burst_blocks(train, bits)[2].1,
        ) == 216,
        train is NormalTrainSeq1 ==> block_len(burst_blocks(train, bits)[1].1) == 432,
        train is NormalTrainSeq2 ==> block_len(burst_blocks(train, bits)[1].1) == 216 && block_len(
            burst_blocks(train, bits)[2].1,
        ) == 216,
{
}

/// A cycle whose slots carry no burst hands nothing to the lower MAC.
pub proof fn law_silent_cycle_hands_nothing_on(rx: Seq<Option<RxSlotBits>>)
    requires
        !cycle_has_burst(rx),
    ensures
        cycle_blocks(rx) == nothing(),
    decreases rx.len(),
{
    if rx.len() > 0 {
        let t = rx.drop_last();
        assert(!cycle_has_burst(t)) by {
            if cycle_has_burst(t) {
                let j = choose|j: int|
                    0 <= j < t.len() && (#[trigger] t[j] matches Some(s) && s.train_type
                        !is NotFound);
                assert(rx[j] matches Some(s) && s.train_type !is NotFound);
            }
        }
        law_silent_cycle_hands_nothing_on(t);
        assert(rx[rx.len() - 1] == rx.last());
    }
}

// ---------------------------------------------------------------------------
// Bit by bit
// ---------------------------------------------------------------------------

/// The bits of an uplink payload in the order in which they go on the air.
pub open spec fn on_air(b: UplinkBlocks<Seq<bool>>) -> Seq<bool> {
    match b {
        UplinkBlocks::Normal { blk1, blk2, .. } => blk1 + blk2,
        UplinkBlocks::Control { blk } => blk,
    }
}

/// An uplink burst carries the bits of its request in their order: the first 432 in
/// two halves of 216 for a normal burst, with the training sequence that was asked
/// for, and the first 168 for a control burst.
pub proof fn law_uplink_bits_keep_their_order(prim: TpUnitdataReqSlot<Seq<bool>>, i: int)
    requires
        prim.blk1 is Some,
        prim.burst_type is NUB && prim.blk1->0.len() >= 432 || prim.burst_type is CUB
            && prim.blk1->0.len() >= 168,
    ensures
        request_is_full(prim),
        prim.burst_type is NUB ==> {
            &&& uplink_blocks(prim) matches UplinkBlocks::Normal { train_type, blk1, blk2 }
            &&& train_type == prim.train_type
            &&& blk1.len() == 216 && blk2.len() == 216
        },
        prim.burst_type is CUB ==> uplink_blocks(prim) is Control && on_air(
            uplink_blocks(prim),
        ).len() == 168,
        0 <= i < on_air(uplink_blocks(prim)).len() ==> on_air(uplink_blocks(prim))[i]
            == prim.blk1->0[i],
{
}

/// A request without the bits of its burst, or for a downlink burst, is none that
/// can be sent.
pub proof fn law_short_request_is_refused(prim: TpUnitdataReqSlot<Seq<bool>>)
    requires
        prim.blk1 is None || prim.burst_type is SDB || prim.burst_type is NDB || (prim.burst_type
            is NUB && prim.blk1->0.len() < 432) || (prim.burst_type is CUB && prim.blk1->0.len()
            < 168),
    ensures
        !request_is_full(prim),
{
}

/// Whether message `k` of a burst is a block for the lower MAC of the stated kind,
/// number and length.
pub open spec fn is_block(
    out: Emitted,
    k: int,
    train: TrainingSequence,
    burst: BurstType,
    kind: PhyBlockType,
    num: PhyBlockNum,
    len: int,
) -> bool {
    &&& out[k].0 is Normal
    &&& out[k].1.sap is TpSap && out[k].1.src is Phy && out[k].1.dest is Lmac
    &&& out[k].1.msg matches SapMsgInner::TpUnitdataInd {
        train_type,
        burst_type,
        block_type,
        block_num,
        block,
    }
    &&& train_type == train && burst_type == burst && block_type == kind && block_num == num
    &&& block.len() == len
}

/// Bit `i` of the block in message `k`.
pub open spec fn block_bit(out: Emitted, k: int, i: int) -> bool {
    out[k].1.msg->block[i]
}

/// A synchronization burst: the broadcast block is bits 252 to 281 of the slot, the
/// synchronization block bits 94 to 213, the second block bits 282 to 497.
pub proof fn law_synchronization_burst(bits: Seq<bool>, i: int)
    requires
        bits.len() == 510,
    ensures
        ({
            let train = TrainingSequence::SyncTrainSeq;
            let out = burst_blocks(train, bits);
            &&& out.len() == 3
            &&& is_block(
                out,
                0,
                train,
                BurstType::SDB,
                PhyBlockType::BBK,
                PhyBlockNum::Undefined,
                30,
            )
            &&& is_block(
                out,
                1,
                train,
                BurstType::SDB,
                PhyBlockType::SB1,
                PhyBlockNum::Block1,
                120,
            )
            &&& is_block(
                out,
                2,
                train,
                BurstType::SDB,
                PhyBlockType::SB2,
                PhyBlockNum::Block2,
                216,
            )
            &&& 0 <= i < 30 ==> block_bit(out, 0, i) == bits[252 + i]
            &&& 0 <= i < 120 ==> block_bit(out, 1, i) == bits[94 + i]
            &&& 0 <= i < 216 ==> block_bit(out, 2, i) == bits[282 + i]
        }),
{
}

/// A normal burst: the broadcast block is bits 230 to 243 and 266 to 281 of the
/// slot, around the training sequence; the payload is bits 14 to 229 and 282 to
/// 497, as one block with the first training sequence and as two with the second.
pub proof fn law_normal_burst(train: TrainingSequence, bits: Seq<bool>, i: int)
    requires
        bits.len() == 510,
        train is NormalTrainSeq1 || train is NormalTrainSeq2,
    ensures
        ({
            let out = burst_blocks(train, bits);
            let ndb = BurstType::NDB;
            &&& is_block(out, 0, train, ndb, PhyBlockType::BBK, PhyBlockNum::Undefined, 30)
            &&& 0 <= i < 14 ==> block_bit(out, 0, i) == bits[230 + i]
            &&& 14 <= i < 30 ==> block_bit(out, 0, i) == bits[252 + i]
            &&& train is NormalTrainSeq1 ==> {
                &&& out.len() == 2
                &&& is_block(out, 1, train, ndb, PhyBlockType::NDB, PhyBlockNum::Both, 432)
                &&& 0 <= i < 216 ==> block_bit(out, 1, i) == bits[14 + i]
                &&& 216 <= i < 432 ==> block_bit(out, 1, i) == bits[66 + i]
            }
            &&& train is NormalTrainSeq2 ==> {
                &&& out.len() == 3
                &&& is_block(out, 1, train, ndb, PhyBlockType::NDB, PhyBlockNum::Block1, 216)
                &&& is_block(out, 2, train, ndb, PhyBlockType::NDB, PhyBlockNum::Block2, 216)
                &&& 0 <= i < 216 ==> block_bit(out, 1, i) == bits[14 + i] && block_bit(out, 2, i)
                    == bits[282 + i]
            }
        }),
{
}

/// A burst with any other training sequence, or none, hands nothing on.
pub proof fn law_other_bursts_hand_nothing_on(train: TrainingSequence, bits: Seq<bool>)
    requires
        train is NotFound || train is NormalTrainSeq3 || train is ExtendedTrainSeq,
    ensures
        burst_blocks(train, bits).len() == 0,
{
}

/// The slots of a cycle are handed on in their order; the last one that came has
/// the time of the cycle; the cycle has a burst where one of them has.
pub proof fn law_cycle_hands_on_each_slot(rx: Seq<Option<RxSlotBits>>, slot: Option<RxSlotBits>)
    ensures
        cycle_blocks(Seq::empty()).len() == 0,
        cycle_time(Seq::empty()) is None,
        !cycle_has_burst(Seq::empty()),
        slot is None ==> {
            &&& cycle_blocks(rx.push(slot)) == cycle_blocks(rx)
            &&& cycle_time(rx.push(slot)) == cycle_time(rx)
            &&& cycle_has_burst(rx.push(slot)) == cycle_has_burst(rx)
        },
        slot matches Some(s) ==> {
            &&& cycle_blocks(rx.push(slot)) == cycle_blocks(rx) + burst_blocks(
                s.train_type,
                s.bits@,
            )
            &&& cycle_time(rx.push(slot)) == Some(s.time)
            &&& cycle_has_burst(rx.push(slot)) == (cycle_has_burst(rx) || s.train_type !is NotFound)
        },
{
    let all = rx.push(slot);
    assert(all.drop_last() == rx && all.last() == slot);
    assert(cycle_blocks(rx) + nothing() == cycle_blocks(rx));
    if cycle_has_burst(rx) {
        let j = choose|j: int|
            0 <= j < rx.len() && (#[trigger] rx[j] matches Some(s) && s.train_type !is NotFound);
        assert(all[j] matches Some(s) && s.train_type !is NotFound);
    }
    if cycle_has_burst(all) {
        let j = choose|j: int|
            0 <= j < all.len() && (#[trigger] all[j] matches Some(s) && s.train_type !is NotFound);
        if j < rx.len() {
            assert(rx[j] matches Some(s) && s.train_type !is NotFound);
        }
    }
    if let Some(s) = slot {
        assert(all[rx.len() as int] == slot);
    }
}

/// Whether exactly one message goes to the mobile link entity: the state of the
/// downlink and the receive level.
pub open spec fn one_monitor_report(out: Emitted, available: bool, rssi: Option<i32>) -> bool {
    &&& out.len() == 1
    &&& out[0].0 is Normal
    &&& out[0].1.sap is TlmbSap && out[0].1.src is Phy && out[0].1.dest is Mle
    &&& out[0].1.msg matches SapMsgInner::TlmbMonitorInd { downlink_available, rssi_mdbfs }
    &&& downlink_available == available && rssi_mdbfs == rssi
}

/// Watching one slot. With a burst, the link is up: reported at once where it was
/// down, and every eighteenth slot where it was up. Without one, the link fails at
/// the fiftieth slot in a row, and is reported down then. The time of the slot is
/// always taken over; what is to be transmitted is left alone.
pub proof fn law_slot_is_watched(v: PhyView, time: TdmaTime, has_burst: bool, rssi: Option<i32>)
    requires
        v.slots_without_burst <= 50,
        v.synced ==> v.slots_without_burst < 50,
        v.slots_since_rssi_report < 18,
    ensures
        ({
            let (w, out) = v.after_slot(time, has_burst, rssi);
            let fails = !has_burst && v.synced && v.slots_without_burst == 49;
            let comes = has_burst && !v.synced;
            let level = has_burst && v.synced && v.slots_since_rssi_report == 17;
            &&& w.dltime == time
            &&& w == (PhyView {
                dltime: w.dltime,
                synced: w.synced,
                slots_without_burst: w.slots_without_burst,
                slots_since_rssi_report: w.slots_since_rssi_report,
                unsynced_cycles: w.unsynced_cycles,
                ..v
            })
            &&& w.synced == (has_burst || (v.synced && !fails))
            &&& has_burst ==> w.slots_without_burst == 0
            &&& !has_burst ==> w.slots_without_burst == v.slots_without_burst + if v.synced {
                1int
            } else {
                0int
            }
            &&& w.slots_since_rssi_report == (if comes || level {
                0int
            } else if has_burst {
                v.slots_since_rssi_report + 1
            } else {
                v.slots_since_rssi_report as int
            })
            &&& w.unsynced_cycles == (if comes {
                0
            } else {
                v.unsynced_cycles
            })
            &&& comes || level ==> one_monitor_report(out, true, rssi)
            &&& fails ==> one_monitor_report(out, false, rssi)
            &&& !comes && !level && !fails ==> out.len() == 0
        }),
{
}

/// A cycle without a slot counts only while the link is down; at the two hundredth
/// the dwell has elapsed, and its level is reported.
pub proof fn law_empty_cycle_is_counted(v: PhyView, rssi: Option<i32>)
    requires
        v.unsynced_cycles < 200,
    ensures
        ({
            let (w, out) = v.after_no_slot(rssi);
            let elapsed = !v.synced && v.unsynced_cycles == 199;
            &&& w == (PhyView { unsynced_cycles: w.unsynced_cycles, ..v })
            &&& w.unsynced_cycles == (if v.synced {
                v.unsynced_cycles as int
            } else if elapsed {
                0
            } else {
                v.unsynced_cycles + 1
            })
            &&& !elapsed ==> out.len() == 0
            &&& elapsed ==> {
                &&& out.len() == 1
                &&& out[0].0 is Normal
                &&& out[0].1.sap is TlmbSap && out[0].1.src is Phy && out[0].1.dest is Mle
                &&& out[0].1.msg matches SapMsgInner::TlmbScanDwellInd { rssi_mdbfs } && rssi_mdbfs
                    == rssi
            }
        }),
{
}

/// What a primitive asks of the device. A burst request is answered, once the
/// transmitter is tuned, with its payload in the slot two behind the last received
/// one; a retune of the receiver starts reception anew, one of the transmitter
/// allows bursts, each with the carrier that was asked for.
pub proof fn law_primitives_reach_the_device(v: PhyView, m: MsgView)
    requires
        v.takes(m),
    ensures
        ({
            let (w, action) = v.after_prim(m);
            &&& m.sap is TpSap ==> w == v
            &&& m.sap is TpSap && !v.tx_frequency_set ==> action is Nothing
            &&& m.sap is TpSap && v.tx_frequency_set ==> {
                &&& m.msg matches SapMsgInner::TpUnitdataReq(prim)
                &&& action matches PhyAction::BuildBurst { time, blocks }
                &&& time == v.dltime.plus(2)
                &&& blocks == uplink_blocks(prim)
            }
            &&& m.sap is TpcSap ==> match m.msg {
                SapMsgInner::TpcTuneReq { carrier_hz } => {
                    &&& action matches PhyAction::TuneRx { carrier_hz: c } && c == carrier_hz
                    &&& !w.synced
                    &&& w.slots_without_burst == 0 && w.slots_since_rssi_report == 0
                        && w.unsynced_cycles == 0
                    &&& w.dltime == v.dltime && w.pending_tx == v.pending_tx
                    &&& w.tx_path_active == v.tx_path_active && w.tx_frequency_set
                        == v.tx_frequency_set
                },
                SapMsgInner::TpcTxTuneReq { carrier_hz } => {
                    &&& action matches PhyAction::TuneTx { carrier_hz: c } && c == carrier_hz
                    &&& w == (PhyView { tx_frequency_set: true, ..v })
                },
                _ => w == v && action is Nothing,
            }
        }),
{
}

/// The antenna goes to the transmitter for a burst that waits, once; it goes back,
/// and the burst is gone, when the device generates a later slot than the burst's,
/// or when there is no burst left. Nothing else changes.
pub proof fn law_antenna_serves_the_burst(v: PhyView, air_time: Option<TdmaTime>)
    ensures
        ({
            let (w, out) = v.after_begin();
            &&& out == (v.pending_tx is Some && !v.tx_path_active)
            &&& w == (PhyView { tx_path_active: v.tx_path_active || out, ..v })
        }),
        ({
            let (w, back) = v.after_retire(air_time);
            let done = match v.pending_tx {
                Some(p) => air_time matches Some(now) && now.slot_number() > p.time.slot_number(),
                None => true,
            };
            &&& back == (v.tx_path_active && done)
            &&& back ==> w == (PhyView { pending_tx: None, tx_path_active: false, ..v })
            &&& !back ==> w == v
        }),
{
}

/// A cycle hands on the blocks of its slots and then what watching them reports.
/// Where it has a time, that time is recovered, the link is watched and the burst
/// retired; where it has none, only the dwell runs.
pub proof fn law_cycle_watches_the_link(
    v: PhyView,
    rx: Seq<Option<RxSlotBits>>,
    rssi: Option<i32>,
    air_time: Option<TdmaTime>,
)
    ensures
        ({
            let (w, out, end) = v.after_cycle(rx, rssi, air_time);
            match cycle_time(rx) {
                Some(time) => {
                    let (a, watch) = v.after_slot(time, cycle_has_burst(rx), rssi);
                    &&& out == cycle_blocks(rx) + watch
                    &&& w == a.after_retire(air_time).0
                    &&& end.switch_to_rx == a.after_retire(air_time).1
                    &&& end.recovered == Some(time)
                },
                None => {
                    let (a, dwell) = v.after_no_slot(rssi);
                    &&& out == cycle_blocks(rx) + dwell
                    &&& w == a
                    &&& !end.switch_to_rx
                    &&& end.recovered is None
                },
            }
        }),
{
}

/// The physical layer takes a burst request, which has to carry its bits once the
/// transmitter is tuned, and any control request, each at its own access point, and
/// nothing else.
pub proof fn law_primitives_that_are_taken(v: PhyView, m: MsgView)
    ensures
        v.takes(m) <==> m.sap is TpcSap || (m.sap is TpSap && (m.msg matches
            SapMsgInner::TpUnitdataReq(prim) && (v.tx_frequency_set ==> (prim.blk1 matches Some(b)
            && (prim.burst_type is NUB && b.len() >= 432 || prim.burst_type is CUB && b.len()
            >= 168))))),
{
}

} // verus!
