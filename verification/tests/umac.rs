//! The upper MAC of a mobile station.

use std::collections::VecDeque;

use tetra_entities::bits::BitBuffer;
use tetra_entities::config::{MsConfig, StackConfig};
use tetra_entities::sap::{
    LogicalChannel, MessageQueue, Msg, PhysicalChannel, ReceiptMark, Sap, SapMsg, SapMsgInner,
    SsiType, StackMode, TetraAddress, TetraEntity, TlmcValidAddress, TmaUnitdataReq,
    TmvUnitdataReqSlot, TxOutcome, TxReporter,
};
use tetra_entities::tdma::TdmaTime;
use tetra_entities::umac::mac_block::{
    FragEndKind, MacBlock, MacHeader, MAX_UL_FRAG_SLOTS, SCH_F_TYPE1_BITS, SCH_HU_TYPE1_BITS,
};
use tetra_entities::umac::ms_random_access::{
    interpret_access_assign, AccessAssign, AccessAssignDlUsage, AccessAssignUlUsage, AccessCode,
    AccessField, SysinfoDefaultDefForAccessCodeA,
};
use tetra_entities::umac::receive::{
    ChanAllocElement, ChanAllocType, MacSysinfo, UlDlAssignment,
};
use tetra_entities::umac::umac_ms::{
    PendingUplink, ReservedTxPlan, UmacMs, UplinkFragment, BROADCAST_SSI, MAX_UPLINK_QUEUE,
    UPLINK_AUDIO_MAX_FRAMES,
};
use tetra_entities::umac::uplink::{
    BasicSlotgrant, BasicSlotgrantCapAlloc, BasicSlotgrantGrantingDelay, RaAction, RaStep, Subslot,
};

fn bits(s: &str) -> BitBuffer {
    BitBuffer::from_bits(s.chars().map(|c| c == '1').collect())
}

fn ones(n: usize) -> BitBuffer {
    BitBuffer::from_bits(vec![true; n])
}

fn umac_cfg(mode: StackMode, issi: u32, groups: &[u32]) -> UmacMs {
    let ms = match mode {
        StackMode::Ms => {
            Some(MsConfig { issi, subscriber_class: 1, attach_groups: groups.to_vec() })
        }
        _ => None,
    };
    UmacMs::new(&StackConfig {
        stack_mode: mode,
        mcc: 901,
        mnc: 9999,
        allowed_networks: vec![],
        scan_candidates: vec![],
        ms,
    })
}

fn ms_umac() -> UmacMs {
    umac_cfg(StackMode::Ms, 1000001, &[])
}

fn marked(umac: &UmacMs, receipt: TxReporter, outcome: TxOutcome) -> bool {
    umac.receipt_marks.contains(&ReceiptMark { receipt, outcome })
}

fn is_transmitted(umac: &UmacMs, r: TxReporter) -> bool {
    marked(umac, r, TxOutcome::Transmitted)
}

fn is_discarded(umac: &UmacMs, r: TxReporter) -> bool {
    marked(umac, r, TxOutcome::Discarded)
}

/// What a random access procedure does with an attempt: it admits a request of
/// sufficient priority, and transmits where the slot is an opportunity.
struct RandomAccess {
    active: bool,
}

impl RandomAccess {
    fn initiate(&mut self, min_pdu_prio: u8, pdu_prio: u8, is_emergency: bool) -> bool {
        if pdu_prio < min_pdu_prio && !is_emergency {
            return false;
        }
        self.active = true;
        true
    }

    fn poll(&self, time: TdmaTime, aa: &AccessAssign) -> Option<RaAction> {
        let s = interpret_access_assign(aa, true);
        let ul_time = time.add_timeslots(2);
        if s.subslot1.is_opportunity_for(AccessCode::A) {
            Some(RaAction::Transmit { ul_time, subslot: Subslot::First })
        } else if s.subslot2.is_opportunity_for(AccessCode::A) {
            Some(RaAction::Transmit { ul_time, subslot: Subslot::Second })
        } else {
            None
        }
    }

    fn drive(&mut self, umac: &mut UmacMs, q: &mut MessageQueue, aa: &AccessAssign) {
        let time = match umac.drive_random_access(self.active) {
            RaStep::Wait => return,
            RaStep::Initiate { time, params, pdu_prio, is_emergency, .. } => {
                if !self.initiate(params.min_pdu_prio, pdu_prio, is_emergency) {
                    umac.random_access_refused();
                    return;
                }
                time
            }
            RaStep::Poll { time, .. } => time,
        };
        umac.random_access_decided(q, self.poll(time, aa));
    }
}

fn ongoing_a_assign() -> AccessAssign {
    AccessAssign {
        dl_usage: AccessAssignDlUsage::CommonControl,
        ul_usage: AccessAssignUlUsage::CommonOnly,
        f1_af1: None,
        f2_af2: None,
        f2_af: Some(AccessField { access_code: 0, base_frame_len: 0b0010 }),
    }
}

fn reserved_assign() -> AccessAssign {
    AccessAssign {
        dl_usage: AccessAssignDlUsage::CommonControl,
        ul_usage: AccessAssignUlUsage::AssignedOnly,
        f1_af1: None,
        f2_af2: None,
        f2_af: None,
    }
}

fn umac_with_queued_priority(
    min_pdu_prio: u8,
    pdu_priority: Option<u8>,
    is_emergency: bool,
) -> UmacMs {
    let mut umac = ms_umac();
    umac.dltime = TdmaTime { t: 1, f: 1, m: 1, h: 0 };
    umac.scrambling_code = Some(0x1234_5678);
    umac.access_params.update_sysinfo_default_a(&SysinfoDefaultDefForAccessCodeA {
        imm: 15,
        wt: 6,
        nu: 4,
        fl_factor: false,
        ts_ptr: 0,
        min_pdu_prio,
    });
    let sdu = bits("0110100100011110001011010010");
    let mac_block = UmacMs::build_mac_access_block(umac.own_issi(), &sdu).expect("SDU fits");
    umac.pending_uplink = Some(PendingUplink {
        mac_block,
        logical_channel: LogicalChannel::SchHu,
        scrambling_code: 0x1234_5678,
        tx_reporter: None,
        pdu_priority,
        is_emergency,
    });
    umac
}

/// An upper MAC with a queued uplink block and an attempt under way.
fn umac_with_active_attempt() -> (UmacMs, RandomAccess) {
    let mut ra = RandomAccess { active: false };
    assert!(ra.initiate(0, 0, false), "initiate succeeds");
    (umac_with_queued_priority(0, None, false), ra)
}

/// A queued uplink of too low a priority does not start an attempt and is
/// dropped.
#[test]
fn test_below_min_priority_uplink_rejected() {
    let mut umac = umac_with_queued_priority(5, Some(3), false);
    let mut q = MessageQueue::new();
    let mut ra = RandomAccess { active: false };

    ra.drive(&mut umac, &mut q, &ongoing_a_assign());

    assert!(!ra.active, "gate must reject below-min priority");
    assert!(umac.pending_uplink.is_none(), "rejected uplink is dropped");
    assert!(q.pop_front().is_none(), "no uplink emitted");
}

/// An emergency uplink bypasses the priority gate.
#[test]
fn test_emergency_uplink_bypasses_priority_gate() {
    let mut umac = umac_with_queued_priority(5, Some(3), true);
    let mut q = MessageQueue::new();
    let mut ra = RandomAccess { active: false };

    ra.drive(&mut umac, &mut q, &ongoing_a_assign());

    assert!(ra.active, "emergency access on code A is not held to the minimum");
    assert!(umac.pending_uplink.is_some(), "block retained for transmission");
}

/// On an access opportunity the queued MAC-ACCESS goes out two timeslots later.
#[test]
fn test_random_access_emits_uplink_on_opportunity() {
    let (mut umac, mut ra) = umac_with_active_attempt();
    let mut q = MessageQueue::new();

    ra.drive(&mut umac, &mut q, &ongoing_a_assign());

    let msg = q.pop_front().expect("an uplink block should be emitted");
    assert!(q.pop_front().is_none(), "exactly one message emitted");
    assert_eq!(msg.dest, TetraEntity::Lmac);

    let SapMsgInner::TmvUnitdataReq(slot) = msg.msg else {
        panic!("expected TmvUnitdataReq");
    };
    assert_eq!(slot.ts, umac.dltime.add_timeslots(2), "uplink is DL + 2 timeslots");
    let blk = slot.blk1.expect("blk1 carries the MAC-ACCESS");
    assert_eq!(blk.logical_channel, LogicalChannel::SchHu);
    assert_eq!(blk.scrambling_code, 0x1234_5678);
    assert_eq!(blk.mac_block.get_len(), SCH_HU_TYPE1_BITS, "92-bit SCH/HU type-1 block");
}

/// A reserved slot is no opportunity.
#[test]
fn test_reserved_slot_emits_nothing() {
    let (mut umac, mut ra) = umac_with_active_attempt();
    let mut q = MessageQueue::new();

    ra.drive(&mut umac, &mut q, &reserved_assign());

    assert!(q.pop_front().is_none(), "no uplink on a reserved slot");
    assert!(ra.active, "attempt still pending");
    assert!(umac.pending_uplink.is_some(), "queued block retained");
}

/// Without an attempt an opportunity is ignored.
#[test]
fn test_no_attempt_ignores_opportunity() {
    let mut umac = ms_umac();
    umac.dltime = TdmaTime { t: 1, f: 1, m: 1, h: 0 };
    let mut q = MessageQueue::new();
    let mut ra = RandomAccess { active: false };

    ra.drive(&mut umac, &mut q, &ongoing_a_assign());

    assert!(q.pop_front().is_none(), "idle state machine emits nothing");
}

fn next_opportunity(capacity_allocation: BasicSlotgrantCapAlloc) -> BasicSlotgrant {
    BasicSlotgrant {
        capacity_allocation,
        granting_delay: BasicSlotgrantGrantingDelay::CapAllocAtNextOpportunity,
    }
}

fn fragment(
    remainder: usize,
    scrambling_code: u32,
    end_kind: FragEndKind,
    receipt: TxReporter,
) -> Option<UplinkFragment<BitBuffer>> {
    Some(UplinkFragment {
        remainder: ones(remainder),
        scrambling_code,
        end_kind,
        tx_reporter: Some(receipt),
    })
}

#[test]
fn test_grant_emits_mac_end_hu() {
    let mut umac = ms_umac();
    umac.dltime = TdmaTime { t: 1, f: 1, m: 1, h: 0 };
    let reporter = TxReporter { id: 1 };
    umac.pending_fragment = fragment(40, 0xABCD_1234, FragEndKind::MacEndHu, reporter);
    let mut q = MessageQueue::new();

    let grant = next_opportunity(BasicSlotgrantCapAlloc::FirstSubslotGranted);
    umac.emit_fragment_end(&mut q, Some(&grant));

    let msg = q.pop_front().expect("MAC-END-HU should be emitted");
    assert!(q.pop_front().is_none(), "exactly one message emitted");
    assert_eq!(msg.dest, TetraEntity::Lmac);
    let SapMsgInner::TmvUnitdataReq(slot) = msg.msg else {
        panic!("expected TmvUnitdataReq");
    };
    assert_eq!(slot.ts, umac.dltime.add_timeslots(2), "MAC-END-HU at DL + 2 timeslots");
    assert!(slot.reserved_access, "MAC-END-HU is a reserved-access burst");
    let blk = slot.blk1.expect("blk1 carries the MAC-END-HU");
    assert_eq!(blk.logical_channel, LogicalChannel::SchHu);
    assert_eq!(blk.scrambling_code, 0xABCD_1234);
    assert_eq!(blk.mac_block.get_len(), SCH_HU_TYPE1_BITS, "92-bit SCH/HU type-1 block");
    assert!(umac.pending_fragment.is_none(), "fragment consumed");
    assert!(is_transmitted(&umac, reporter), "MAC-END-HU emission marks the receipt transmitted");
}

#[test]
fn test_grant_emits_mac_end_ul_full_slot() {
    let mut umac = ms_umac();
    umac.dltime = TdmaTime { t: 1, f: 1, m: 1, h: 0 };
    let reporter = TxReporter { id: 1 };
    umac.pending_fragment = fragment(160, 0x0BAD_F00D, FragEndKind::MacEndUl, reporter);
    let mut q = MessageQueue::new();

    let grant = next_opportunity(BasicSlotgrantCapAlloc::Grant1Slot);
    umac.emit_fragment_end(&mut q, Some(&grant));

    let msg = q.pop_front().expect("MAC-END-UL should be emitted");
    assert!(q.pop_front().is_none(), "exactly one message emitted");
    assert_eq!(msg.dest, TetraEntity::Lmac);
    let SapMsgInner::TmvUnitdataReq(slot) = msg.msg else {
        panic!("expected TmvUnitdataReq");
    };
    assert_eq!(slot.ts, umac.dltime.add_timeslots(2), "MAC-END-UL at DL + 2 timeslots");
    assert!(slot.reserved_access, "MAC-END-UL is a reserved-access burst");
    let blk = slot.blk1.expect("blk1 carries the MAC-END-UL");
    assert_eq!(blk.logical_channel, LogicalChannel::SchF, "full-slot end uses SCH/F");
    assert_eq!(blk.scrambling_code, 0x0BAD_F00D);
    assert_eq!(blk.mac_block.get_len(), SCH_F_TYPE1_BITS, "268-bit SCH/F type-1 block");
    assert!(umac.pending_fragment.is_none(), "fragment consumed");
    assert!(is_transmitted(&umac, reporter), "MAC-END-UL emission marks the receipt transmitted");
}

#[test]
fn test_mismatched_grant_drops_fragment() {
    let mut umac = ms_umac();
    umac.dltime = TdmaTime { t: 1, f: 1, m: 1, h: 0 };
    let reporter = TxReporter { id: 1 };
    umac.pending_fragment = fragment(160, 0, FragEndKind::MacEndUl, reporter);
    let mut q = MessageQueue::new();

    let grant = next_opportunity(BasicSlotgrantCapAlloc::FirstSubslotGranted);
    umac.emit_fragment_end(&mut q, Some(&grant));

    assert!(q.pop_front().is_none(), "no uplink on a mismatched grant");
    assert!(umac.pending_fragment.is_none(), "fragment consumed even on mismatch");
    assert!(is_discarded(&umac, reporter), "mismatched-grant drop marks the receipt discarded");
}

#[test]
fn test_no_grant_drops_fragment() {
    let mut umac = ms_umac();
    let reporter = TxReporter { id: 1 };
    umac.pending_fragment = fragment(40, 0, FragEndKind::MacEndHu, reporter);
    let mut q = MessageQueue::new();

    umac.emit_fragment_end(&mut q, None);

    assert!(q.pop_front().is_none(), "no uplink without a grant");
    assert!(umac.pending_fragment.is_none(), "fragment consumed even without a grant");
    assert!(is_discarded(&umac, reporter), "no-grant drop marks the receipt discarded");
}

#[test]
fn test_multislot_grant_schedules_and_drives() {
    let mut umac = ms_umac();
    umac.dltime = TdmaTime { t: 1, f: 1, m: 1, h: 0 };
    let reporter = TxReporter { id: 1 };
    // One MAC-FRAG-UL (264 SDU bits) and a MAC-END-UL (136).
    umac.pending_fragment =
        fragment(400, 0xFEED_BEEF, FragEndKind::MacFragUl { total_slots: 2 }, reporter);
    let mut q = MessageQueue::new();

    let grant = next_opportunity(BasicSlotgrantCapAlloc::Grant2Slots);
    let slot0 = umac.dltime.add_timeslots(2);
    umac.emit_fragment_end(&mut q, Some(&grant));

    let msg = q.pop_front().expect("first MAC-FRAG-UL emitted");
    assert!(q.pop_front().is_none(), "only one block per slot");
    let SapMsgInner::TmvUnitdataReq(slot) = msg.msg else {
        panic!("expected TmvUnitdataReq");
    };
    assert_eq!(slot.ts, slot0, "first block at DL + 2 timeslots");
    assert!(slot.reserved_access, "reserved-access burst");
    let blk0 = slot.blk1.expect("blk1").mac_block;
    assert_eq!(blk0.get_len(), SCH_F_TYPE1_BITS, "full-slot SCH/F block");
    let MacHeader::FragUl(frag_pdu) = blk0.header else {
        panic!("MAC-FRAG-UL decodes");
    };
    assert!(!frag_pdu.fill_bits, "continuation fills the slot, no fill bits");
    assert!(umac.pending_fragment.is_none(), "fragment consumed");
    assert!(umac.reserved_tx.is_some(), "plan still holds the MAC-END-UL");
    assert!(!is_transmitted(&umac, reporter), "receipt not marked until the last block");

    let mut emitted_end = None;
    for _ in 0..4 {
        umac.tick_start(&mut q);
        if let Some(m) = q.pop_front() {
            emitted_end = Some(m);
        }
        assert!(q.pop_front().is_none(), "at most one block per tick");
    }
    let msg = emitted_end.expect("MAC-END-UL emitted on its reserved slot");
    let SapMsgInner::TmvUnitdataReq(slot) = msg.msg else {
        panic!("expected TmvUnitdataReq");
    };
    assert_eq!(slot.ts, slot0.add_timeslots(4), "second block one TDMA frame later");
    assert!(slot.reserved_access);
    let blk1 = slot.blk1.expect("blk1").mac_block;
    assert_eq!(blk1.get_len(), SCH_F_TYPE1_BITS);
    let MacHeader::EndUl(end_pdu) = blk1.header else {
        panic!("MAC-END-UL decodes");
    };
    assert!(end_pdu.length_ind.is_some(), "terminating PDU carries the length");
    assert!(umac.reserved_tx.is_none(), "plan complete");
    assert!(is_transmitted(&umac, reporter), "last block marks the receipt transmitted");
}

#[test]
fn test_multislot_grant_too_small_drops() {
    let mut umac = ms_umac();
    umac.dltime = TdmaTime { t: 1, f: 1, m: 1, h: 0 };
    let reporter = TxReporter { id: 1 };
    umac.pending_fragment = fragment(700, 0, FragEndKind::MacFragUl { total_slots: 3 }, reporter);
    let mut q = MessageQueue::new();

    let grant = next_opportunity(BasicSlotgrantCapAlloc::Grant2Slots);
    umac.emit_fragment_end(&mut q, Some(&grant));

    assert!(q.pop_front().is_none(), "no uplink on an undersized grant");
    assert!(umac.pending_fragment.is_none(), "fragment consumed");
    assert!(umac.reserved_tx.is_none(), "no plan installed");
    assert!(is_discarded(&umac, reporter), "undersized grant marks the receipt discarded");
}

#[test]
fn test_reserved_slot_sequence_skips_clch() {
    let first = TdmaTime { t: 2, f: 15, m: 1, h: 0 };
    assert!(TdmaTime { t: 2, f: 18, m: 1, h: 0 }.is_mandatory_clch());
    let slots = UmacMs::reserved_slot_sequence(first, 4);
    assert_eq!(slots.len(), 4);
    let fs: Vec<u8> = slots.iter().map(|s| s.f).collect();
    assert_eq!(fs, vec![15, 16, 17, 1], "CLCH frame 18 skipped");
    assert!(slots.iter().all(|s| !s.is_mandatory_clch()), "no reserved slot is CLCH");
}

#[test]
fn test_compute_ul_frag_slots() {
    let end = UmacMs::max_end_ul_sdu_bits(); // 254
    let frag = UmacMs::max_frag_ul_sdu_bits(); // 264
    assert_eq!(UmacMs::compute_ul_frag_slots(end + 1), Some(2), "just over one slot => 2 slots");
    assert_eq!(UmacMs::compute_ul_frag_slots(end + frag), Some(2));
    assert_eq!(UmacMs::compute_ul_frag_slots(end + frag + 1), Some(3));
    let too_big = end + frag * MAX_UL_FRAG_SLOTS;
    assert_eq!(UmacMs::compute_ul_frag_slots(too_big), None);
}

#[test]
fn test_missed_reserved_slot_abandons() {
    let mut umac = ms_umac();
    umac.dltime = TdmaTime { t: 1, f: 5, m: 1, h: 0 };
    let reporter = TxReporter { id: 1 };
    // The front reserved slot is already two timeslots past.
    let mut blocks = VecDeque::new();
    blocks.push_back(MacBlock {
        header: MacHeader::Traffic,
        body: BitBuffer::from_bits(vec![false; SCH_F_TYPE1_BITS]),
    });
    let mut slots = VecDeque::new();
    slots.push_back(umac.dltime);
    umac.reserved_tx =
        Some(ReservedTxPlan { blocks, slots, scrambling_code: 0, tx_reporter: Some(reporter) });
    let mut q = MessageQueue::new();

    umac.drive_reserved_tx(&mut q);

    assert!(q.pop_front().is_none(), "missed slot emits nothing");
    assert!(umac.reserved_tx.is_none(), "plan abandoned");
    assert!(is_discarded(&umac, reporter), "missed slot marks the receipt discarded");
}

fn tma_uplink_req(reporter: TxReporter, sdu: &str) -> TmaUnitdataReq<BitBuffer> {
    TmaUnitdataReq {
        pdu: bits(sdu),
        main_address: TetraAddress::issi(1000001),
        link_id: 0,
        endpoint_id: 0,
        pdu_priority: None,
        is_emergency: false,
        stealing_permission: false,
        tx_reporter: Some(reporter),
    }
}

/// A second uplink handed down while the first is in flight waits behind it.
#[test]
fn test_second_uplink_is_queued_not_clobbered() {
    let mut umac = ms_umac();
    umac.scrambling_code = Some(0x1234_5678);
    let r1 = TxReporter { id: 1 };
    let r2 = TxReporter { id: 2 };

    umac.rx_tma_prim(tma_uplink_req(r1, "0110100100011110001011010010"), false);
    assert!(umac.pending_uplink.is_some(), "first transfer is active");
    assert!(umac.uplink_queue.is_empty(), "nothing queued yet");

    umac.rx_tma_prim(tma_uplink_req(r2, "1001011011100001110100101101"), false);
    assert_eq!(umac.uplink_queue.len(), 1, "second transfer is queued");
    assert!(umac.pending_uplink.is_some(), "first transfer still active");
    assert!(umac.receipt_marks.is_empty(), "neither receipt touched");

    let active = umac.pending_uplink.as_ref().unwrap().tx_reporter;
    assert_eq!(active, Some(r1), "active slot holds the first transfer");

    umac.pending_uplink = None;
    umac.promote_next_uplink(false);
    assert!(umac.uplink_queue.is_empty(), "queue drained");
    let promoted = umac.pending_uplink.as_ref().expect("second transfer promoted").tx_reporter;
    assert_eq!(promoted, Some(r2), "promoted slot holds the second transfer");
}

#[test]
fn test_uplink_queue_overflow_discards_oldest() {
    let mut umac = ms_umac();
    umac.scrambling_code = Some(0x1234_5678);

    // Occupy the active slot so that every later transfer queues.
    umac.rx_tma_prim(tma_uplink_req(TxReporter { id: 100 }, "0110100100011110"), false);

    let oldest = TxReporter { id: 1 };
    umac.rx_tma_prim(tma_uplink_req(oldest, "0110100100011110"), false);
    for i in 1..MAX_UPLINK_QUEUE {
        let r = TxReporter { id: 100 + i as u64 };
        umac.rx_tma_prim(tma_uplink_req(r, "0110100100011110"), false);
    }
    assert_eq!(umac.uplink_queue.len(), MAX_UPLINK_QUEUE, "queue at capacity");
    assert!(!is_discarded(&umac, oldest), "oldest still queued");

    umac.rx_tma_prim(tma_uplink_req(TxReporter { id: 200 }, "0110100100011110"), false);
    assert_eq!(umac.uplink_queue.len(), MAX_UPLINK_QUEUE, "queue stays capped");
    assert!(is_discarded(&umac, oldest), "evicted transfer's receipt marked discarded");
}

fn ssi_addr(ssi: u32) -> TetraAddress {
    TetraAddress { ssi, ssi_type: SsiType::Ssi, encrypted: false }
}

#[test]
fn test_ms_accepts_own_issi() {
    let umac = umac_cfg(StackMode::Ms, 1000001, &[]);
    assert!(umac.accept_downlink_address(&ssi_addr(1000001)));
}

#[test]
fn test_ms_drops_foreign_issi() {
    let umac = umac_cfg(StackMode::Ms, 1000001, &[]);
    assert!(!umac.accept_downlink_address(&ssi_addr(2200699)));
}

#[test]
fn test_ms_accepts_attached_group_only() {
    let umac = umac_cfg(StackMode::Ms, 1000001, &[91, 100]);
    assert!(umac.accept_downlink_address(&ssi_addr(91)));
    assert!(umac.accept_downlink_address(&ssi_addr(100)));
    assert!(!umac.accept_downlink_address(&ssi_addr(92)));
}

#[test]
fn test_ms_accepts_broadcast() {
    let umac = umac_cfg(StackMode::Ms, 1000001, &[]);
    assert!(umac.accept_downlink_address(&ssi_addr(BROADCAST_SSI)));
}

#[test]
fn test_monitor_accepts_everything() {
    let umac = umac_cfg(StackMode::Mon, 0, &[]);
    assert!(umac.accept_downlink_address(&ssi_addr(2200699)));
    assert!(umac.accept_downlink_address(&ssi_addr(1)));
    assert!(umac.accept_downlink_address(&ssi_addr(BROADCAST_SSI)));
}

#[test]
fn test_tlmc_configure_updates_runtime_filter() {
    let mut umac = umac_cfg(StackMode::Ms, 1000001, &[91]);
    assert!(umac.accept_downlink_address(&ssi_addr(91)));
    assert!(!umac.accept_downlink_address(&ssi_addr(220)));

    let mut q = MessageQueue::new();
    umac.rx_tlmc_configure_req(
        &mut q,
        Some(TlmcValidAddress {
            mcc: 901,
            mnc: 9999,
            individual_ssi: Some(1000001),
            group_ssis: Some(vec![220]),
        }),
    );

    assert!(umac.accept_downlink_address(&ssi_addr(1000001)), "own ISSI still accepted");
    assert!(umac.accept_downlink_address(&ssi_addr(220)), "newly attached group accepted");
    assert!(!umac.accept_downlink_address(&ssi_addr(91)), "detached group now rejected");
}

#[test]
fn test_tlmc_configure_scrambling_only_preserves_filter() {
    let mut umac = umac_cfg(StackMode::Ms, 1000001, &[91]);
    let mut q = MessageQueue::new();
    umac.rx_tlmc_configure_req(
        &mut q,
        Some(TlmcValidAddress { mcc: 901, mnc: 9999, individual_ssi: None, group_ssis: None }),
    );
    assert!(umac.accept_downlink_address(&ssi_addr(91)), "group filter preserved");
    assert!(umac.accept_downlink_address(&ssi_addr(1000001)), "own ISSI preserved");
}

#[test]
fn test_tlmc_tune_forwarded_to_lmac() {
    let mut umac = umac_cfg(StackMode::Ms, 1000001, &[]);
    let mut q = MessageQueue::new();
    let msg = SapMsg {
        sap: Sap::TlmcSap,
        src: TetraEntity::Mle,
        dest: TetraEntity::Umac,
        msg: SapMsgInner::TlmcTuneReq { carrier_hz: 396_000_000 },
    };
    umac.rx_tlmc_prim(&mut q, msg);

    let out = q.pop_front().expect("a TMV-TUNE must be emitted");
    assert_eq!(out.sap, Sap::TmvSap);
    assert_eq!(out.dest, TetraEntity::Lmac);
    let SapMsgInner::TmvTuneReq { carrier_hz } = out.msg else {
        panic!("expected TmvTuneReq");
    };
    assert_eq!(carrier_hz, 396_000_000);
}

fn sysinfo_rf(band: u8, carrier: u16, duplex_idx: u8, reverse: bool) -> MacSysinfo {
    MacSysinfo {
        main_carrier: carrier,
        freq_band: band,
        freq_offset_index: 0,
        duplex_spacing: duplex_idx,
        reverse_operation: reverse,
        hyperframe_number: None,
        default_access_code: None,
    }
}

/// The programmed duplex table: index 7 is a 9.4 MHz split.
fn duplex_spacing(pdu: &MacSysinfo) -> Option<u32> {
    if pdu.duplex_spacing == 7 {
        Some(9_400_000)
    } else {
        None
    }
}

fn tx_tunes(q: &MessageQueue) -> Vec<u32> {
    q.entries
        .iter()
        .filter_map(|e| match &e.msg.msg {
            SapMsgInner::TmvTxTuneReq { carrier_hz } => {
                assert_eq!(e.msg.dest, TetraEntity::Lmac);
                assert_eq!(e.msg.sap, Sap::TmvSap);
                Some(*carrier_hz)
            }
            _ => None,
        })
        .collect()
}

#[test]
fn test_uplink_derived_from_sysinfo() {
    let mut umac = ms_umac();
    let mut q = MessageQueue::new();
    let pdu = sysinfo_rf(4, 1593, 7, false);

    umac.maybe_retune_uplink(&mut q, &pdu, Some(0), duplex_spacing(&pdu));

    assert_eq!(tx_tunes(&q), vec![430_425_000], "derived uplink carrier");
    assert_eq!(umac.derived_ul_freq, Some(430_425_000));
}

#[test]
fn test_uplink_derivation_deduplicated() {
    let mut umac = ms_umac();
    let pdu = sysinfo_rf(4, 1593, 7, false);
    let mut q1 = MessageQueue::new();
    umac.maybe_retune_uplink(&mut q1, &pdu, Some(0), duplex_spacing(&pdu));
    assert!(!tx_tunes(&q1).is_empty());

    let mut q2 = MessageQueue::new();
    umac.maybe_retune_uplink(&mut q2, &pdu, Some(0), duplex_spacing(&pdu));
    assert!(tx_tunes(&q2).is_empty(), "unchanged uplink must not retune again");
}

#[test]
fn test_uplink_derivation_rejects_bad_sysinfo() {
    let mut umac = ms_umac();
    let mut q = MessageQueue::new();
    let pdu = sysinfo_rf(15, 4095, 7, false);
    umac.maybe_retune_uplink(&mut q, &pdu, Some(0), duplex_spacing(&pdu));
    assert!(tx_tunes(&q).is_empty());
    assert_eq!(umac.derived_ul_freq, None, "no uplink derived from bad params");
}

fn chan_alloc(
    alloc_type: ChanAllocType,
    ts: [bool; 4],
    carrier_num: u16,
    ul_dl: UlDlAssignment,
) -> ChanAllocElement {
    ChanAllocElement {
        alloc_type,
        ts_assigned: ts,
        ul_dl_assigned: ul_dl,
        cell_change_flag: false,
        carrier_num,
        extended: false,
    }
}

fn tmd_speech(ts: u8, data: Vec<u8>) -> Msg {
    SapMsg {
        sap: Sap::TmdSap,
        src: TetraEntity::Lmac,
        dest: TetraEntity::Umac,
        msg: SapMsgInner::TmdCircuitDataInd { ts, data },
    }
}

fn relayed_speech(q: &MessageQueue) -> Vec<(u8, Vec<u8>)> {
    q.entries
        .iter()
        .filter_map(|e| match &e.msg.msg {
            SapMsgInner::TmdCircuitDataInd { ts, data } if e.msg.dest == TetraEntity::Cmce => {
                Some((*ts, data.clone()))
            }
            _ => None,
        })
        .collect()
}

#[test]
fn test_channel_allocation_same_carrier_follows_assigned_slot() {
    let mut umac = ms_umac();
    umac.serving_carrier_num = Some(1593);

    umac.act_on_channel_allocation(&chan_alloc(
        ChanAllocType::Replace,
        [false, false, true, false],
        1593,
        UlDlAssignment::Both,
    ));
    assert_eq!(umac.assigned_traffic_slots, [false, false, true, false], "follows assigned TS3");

    let mut q = MessageQueue::new();
    umac.rx_tmd_prim(&mut q, tmd_speech(3, vec![1, 2, 3]));
    umac.rx_tmd_prim(&mut q, tmd_speech(1, vec![9, 9, 9]));
    let relayed = relayed_speech(&q);
    assert_eq!(relayed.len(), 1, "only assigned-slot (TS3) speech relayed");
    assert_eq!(relayed[0].0, 3, "assigned timeslot tag preserved");
    assert_eq!(relayed[0].1, vec![1, 2, 3], "speech payload preserved");
}

#[test]
fn test_channel_allocation_cross_carrier_deferred() {
    let mut umac = ms_umac();
    umac.serving_carrier_num = Some(1593);

    umac.act_on_channel_allocation(&chan_alloc(
        ChanAllocType::Replace,
        [false, false, true, false],
        1600,
        UlDlAssignment::Both,
    ));
    assert_eq!(umac.assigned_traffic_slots, [false; 4], "cross-carrier allocation not followed");

    let mut q = MessageQueue::new();
    umac.rx_tmd_prim(&mut q, tmd_speech(3, vec![1, 2, 3]));
    assert!(
        q.entries.iter().all(|e| !matches!(e.msg.msg, SapMsgInner::TmdCircuitDataInd { .. })),
        "no speech relayed for a cross-carrier (unfollowed) allocation"
    );
}

#[test]
fn test_channel_allocation_additional_and_ul_only() {
    let mut umac = ms_umac();
    umac.serving_carrier_num = Some(1593);

    umac.act_on_channel_allocation(&chan_alloc(
        ChanAllocType::Replace,
        [false, false, true, false],
        1593,
        UlDlAssignment::Both,
    ));
    umac.act_on_channel_allocation(&chan_alloc(
        ChanAllocType::Additional,
        [false, true, false, false],
        1593,
        UlDlAssignment::Dl,
    ));
    assert_eq!(
        umac.assigned_traffic_slots,
        [false, true, true, false],
        "Additional adds TS2 to TS3"
    );

    umac.act_on_channel_allocation(&chan_alloc(
        ChanAllocType::Replace,
        [true, false, false, false],
        1593,
        UlDlAssignment::Ul,
    ));
    assert_eq!(
        umac.assigned_traffic_slots,
        [false, true, true, false],
        "uplink-only allocation does not change DL slots"
    );
}

/// The first uplink burst to the lower MAC whose first block is on `channel`.
fn take_burst(
    q: &mut MessageQueue,
    channel: LogicalChannel,
) -> Option<TmvUnitdataReqSlot<BitBuffer>> {
    while let Some(m) = q.pop_front() {
        if let (TetraEntity::Lmac, SapMsgInner::TmvUnitdataReq(slot)) = (m.dest, m.msg) {
            if slot.blk1.as_ref().map(|b| b.logical_channel) == Some(channel) {
                return Some(slot);
            }
        }
    }
    None
}

fn extract_uplink_tchs(q: &mut MessageQueue) -> Option<TmvUnitdataReqSlot<BitBuffer>> {
    take_burst(q, LogicalChannel::TchS)
}

fn extract_stolen_burst(q: &mut MessageQueue) -> Option<TmvUnitdataReqSlot<BitBuffer>> {
    take_burst(q, LogicalChannel::Stch)
}

fn uplane_cfg(switch_u_plane: bool, tx_grant: bool) -> Msg {
    SapMsg {
        sap: Sap::TlmcSap,
        src: TetraEntity::Mle,
        dest: TetraEntity::Umac,
        msg: SapMsgInner::TlmcUPlaneConfigureReq { switch_u_plane, tx_grant },
    }
}

fn tmd_source(data: Vec<u8>) -> Msg {
    SapMsg {
        sap: Sap::TmdSap,
        src: TetraEntity::Cmce,
        dest: TetraEntity::Umac,
        msg: SapMsgInner::TmdCircuitDataReq { ts: 0, data },
    }
}

#[test]
fn test_ms_uplink_traffic_emitted_on_granted_assigned_slot() {
    let mut umac = ms_umac();
    umac.scrambling_code = Some(0x1234_5678);
    umac.assigned_traffic_slots = [false, false, true, false];
    umac.uplink_tx_granted = true;
    umac.dltime = TdmaTime::default();

    let mut q = MessageQueue::new();
    umac.drive_uplink_traffic(&mut q);

    let slot = extract_uplink_tchs(&mut q).expect("a TCH/S uplink burst must be emitted");
    assert_eq!(slot.ts.t, 3, "emitted on the assigned uplink slot (dltime + 2)");
    assert_eq!(slot.ts.f, 1);
    assert_eq!(slot.ul_phy_chan, PhysicalChannel::Tp, "traffic physical channel");
    assert!(!slot.reserved_access, "continuous traffic is clock-driven, not reserved-access");
    assert!(slot.blk2.is_none(), "single full-slot traffic block");
    assert!(slot.bbk.is_none(), "no BBK/AACH on the uplink");
    let blk1 = slot.blk1.expect("blk1 present");
    assert_eq!(blk1.logical_channel, LogicalChannel::TchS);
    assert_eq!(blk1.scrambling_code, 0x1234_5678, "serving-cell scrambling code");
    assert_eq!(blk1.mac_block.get_len(), 274, "one 274-bit TCH/S type-1 frame");
}

#[test]
fn test_ms_uplink_traffic_suppressed_when_not_granted() {
    let mut umac = ms_umac();
    umac.scrambling_code = Some(0x1234_5678);
    umac.assigned_traffic_slots = [false, false, true, false];
    umac.uplink_tx_granted = false;
    umac.dltime = TdmaTime::default();

    let mut q = MessageQueue::new();
    umac.drive_uplink_traffic(&mut q);
    assert!(extract_uplink_tchs(&mut q).is_none(), "no traffic emitted without a transmit grant");
}

#[test]
fn test_ms_uplink_traffic_suppressed_on_unassigned_slot() {
    let mut umac = ms_umac();
    umac.scrambling_code = Some(0x1234_5678);
    umac.assigned_traffic_slots = [true, false, false, false];
    umac.uplink_tx_granted = true;
    umac.dltime = TdmaTime::default();

    let mut q = MessageQueue::new();
    umac.drive_uplink_traffic(&mut q);
    assert!(extract_uplink_tchs(&mut q).is_none(), "no traffic emitted on an unassigned slot");
}

#[test]
fn test_ms_uplink_traffic_suppressed_on_frame_18() {
    let mut umac = ms_umac();
    umac.scrambling_code = Some(0x1234_5678);
    umac.assigned_traffic_slots = [false, false, true, false];
    umac.uplink_tx_granted = true;
    umac.dltime = TdmaTime { t: 1, f: 18, m: 1, h: 0 };

    let mut q = MessageQueue::new();
    umac.drive_uplink_traffic(&mut q);
    assert!(extract_uplink_tchs(&mut q).is_none(), "no traffic on the control frame (18)");
}

#[test]
fn test_ms_uplink_traffic_suppressed_without_scrambling_code() {
    let mut umac = ms_umac();
    umac.scrambling_code = None;
    umac.assigned_traffic_slots = [false, false, true, false];
    umac.uplink_tx_granted = true;
    umac.dltime = TdmaTime::default();

    let mut q = MessageQueue::new();
    umac.drive_uplink_traffic(&mut q);
    assert!(extract_uplink_tchs(&mut q).is_none(), "no traffic emitted before camping");
}

#[test]
fn test_ms_uplane_configure_seam_sets_and_flushes_grant() {
    let mut umac = ms_umac();
    let mut q = MessageQueue::new();

    umac.uplink_audio.push_back(vec![0u8; 35]);
    umac.rx_tlmc_prim(&mut q, uplane_cfg(true, true));
    assert!(umac.uplink_tx_granted, "grant armed when tx_grant && switch_u_plane");

    umac.rx_tlmc_prim(&mut q, uplane_cfg(true, false));
    assert!(!umac.uplink_tx_granted, "not the talker when tx_grant is false");
    assert!(umac.uplink_audio.is_empty(), "de-grant flushes buffered uplink audio");
}

#[test]
fn test_ms_uplink_audio_buffer_bounded() {
    let mut umac = ms_umac();
    let mut q = MessageQueue::new();
    for i in 0..(UPLINK_AUDIO_MAX_FRAMES + 3) {
        umac.rx_tmd_prim(&mut q, tmd_source(vec![i as u8; 35]));
    }
    assert_eq!(
        umac.uplink_audio.len(),
        UPLINK_AUDIO_MAX_FRAMES,
        "buffer capped, oldest frames dropped"
    );
}

#[test]
fn test_ms_uplink_emits_buffered_source_frame() {
    let mut umac = ms_umac();
    umac.scrambling_code = Some(0x1234_5678);
    umac.assigned_traffic_slots = [false, false, true, false];
    umac.uplink_tx_granted = true;
    umac.dltime = TdmaTime::default();

    let mut q = MessageQueue::new();
    umac.rx_tmd_prim(&mut q, tmd_source(vec![0xFF; 35]));
    umac.drive_uplink_traffic(&mut q);

    let slot = extract_uplink_tchs(&mut q).expect("a TCH/S uplink burst must be emitted");
    let mac_block = slot.blk1.expect("blk1 present").mac_block;
    assert_eq!(mac_block.get_len(), 274);
    assert!(
        mac_block.body.bits.contains(&true),
        "emitted the buffered (non-silence) source frame, not synthesised silence"
    );
    assert!(umac.uplink_audio.is_empty(), "buffered frame consumed on emit");
}

fn tma_stealing_req(
    stealing: bool,
    link_id: u32,
    reporter: Option<TxReporter>,
) -> TmaUnitdataReq<BitBuffer> {
    TmaUnitdataReq {
        pdu: ones(24),
        main_address: TetraAddress::issi(1000001),
        link_id,
        endpoint_id: 0,
        pdu_priority: None,
        is_emergency: false,
        stealing_permission: stealing,
        tx_reporter: reporter,
    }
}

#[test]
fn test_ms_stealing_request_queues_on_assigned_tch() {
    let mut umac = ms_umac();
    umac.scrambling_code = Some(0x1234_5678);
    umac.assigned_traffic_slots = [false, false, true, false];

    let q = MessageQueue::new();
    umac.rx_tma_prim(tma_stealing_req(true, 2, None), false);

    assert_eq!(umac.pending_stolen_signalling.len(), 1, "floor PDU queued for stealing");
    assert!(umac.pending_uplink.is_none(), "no MCCH random-access transfer started");
    assert_eq!(q.len(), 0, "nothing emitted from rx_tma_prim itself");
}

#[test]
fn test_ms_stealing_emits_stolen_burst_when_talker() {
    let mut umac = ms_umac();
    umac.scrambling_code = Some(0x1234_5678);
    umac.assigned_traffic_slots = [false, false, true, false];
    umac.uplink_tx_granted = true;
    umac.dltime = TdmaTime::default();

    let mut q = MessageQueue::new();
    umac.rx_tma_prim(tma_stealing_req(true, 2, None), false);
    umac.drive_uplink_traffic(&mut q);

    let slot = extract_stolen_burst(&mut q).expect("a stolen STCH burst must be emitted");
    assert_eq!(slot.ts.t, 3, "stolen on the assigned uplink slot");
    assert_eq!(slot.ul_phy_chan, PhysicalChannel::Tp, "traffic physical channel");
    let blk1 = slot.blk1.expect("blk1 (STCH) present");
    assert_eq!(blk1.logical_channel, LogicalChannel::Stch);
    assert_eq!(blk1.mac_block.get_len(), 124, "STCH type-1 half-slot block");
    assert_eq!(blk1.scrambling_code, 0x1234_5678);
    let blk2 = slot.blk2.expect("blk2 (TCH/S speech half) present");
    assert_eq!(blk2.logical_channel, LogicalChannel::TchS);
    assert_eq!(blk2.mac_block.get_len(), 274, "TCH/S speech type-1 frame");
    assert!(umac.pending_stolen_signalling.is_empty(), "queued block consumed");
}

#[test]
fn test_ms_stealing_emits_stolen_burst_when_listening() {
    let mut umac = ms_umac();
    umac.scrambling_code = Some(0x1234_5678);
    umac.assigned_traffic_slots = [false, false, true, false];
    umac.uplink_tx_granted = false;
    umac.dltime = TdmaTime::default();

    let mut q = MessageQueue::new();
    umac.rx_tma_prim(tma_stealing_req(true, 2, None), false);
    umac.drive_uplink_traffic(&mut q);

    let slot =
        extract_stolen_burst(&mut q).expect("a stolen STCH burst must be emitted while listening");
    let blk1 = slot.blk1.expect("blk1 (STCH) present");
    assert_eq!(blk1.logical_channel, LogicalChannel::Stch);
    let blk2 = slot.blk2.expect("blk2 (silence speech half) present");
    assert_eq!(blk2.logical_channel, LogicalChannel::TchS);
    assert_eq!(blk2.mac_block.get_len(), 274, "silence TCH/S frame fills the speech half");
}

#[test]
fn test_ms_stealing_marks_tx_reporter_on_emit() {
    let mut umac = ms_umac();
    umac.scrambling_code = Some(0x1234_5678);
    umac.assigned_traffic_slots = [false, false, true, false];
    umac.uplink_tx_granted = true;
    umac.dltime = TdmaTime::default();

    let reporter = TxReporter { id: 1 };
    let mut q = MessageQueue::new();
    umac.rx_tma_prim(tma_stealing_req(true, 2, Some(reporter)), false);
    assert!(!is_transmitted(&umac, reporter), "not yet transmitted while queued");

    umac.drive_uplink_traffic(&mut q);
    assert!(is_transmitted(&umac, reporter), "receipt marked transmitted on emit");
}

#[test]
fn test_ms_stealing_falls_back_to_mcch_without_tch() {
    let mut umac = ms_umac();
    umac.scrambling_code = Some(0x1234_5678);
    umac.assigned_traffic_slots = [false; 4];

    umac.rx_tma_prim(tma_stealing_req(true, 2, None), false);

    assert!(umac.pending_stolen_signalling.is_empty(), "nothing to steal without a TCH");
    let pending = umac.pending_uplink.as_ref().expect("MCCH random-access transfer started");
    assert_eq!(
        pending.logical_channel,
        LogicalChannel::SchHu,
        "carried on SCH/HU (MCCH access)"
    );
}
