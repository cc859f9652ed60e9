//! MAC blocks, the receive path and the properties of the upper MAC.

use tetra_entities::bits::BitBuffer;
use tetra_entities::config::{MsConfig, StackConfig};
use tetra_entities::sap::{
    LogicalChannel, MessagePrio, MessageQueue, PhyBlockNum, ReceiptMark, Sap, SapMsg, SapMsgInner,
    SsiType, StackMode, TetraAddress, TetraEntity, TlmcValidAddress, TmaUnitdataReq, TxOutcome,
    TxReporter,
};
use tetra_entities::tdma::TdmaTime;
use tetra_entities::umac::mac_block::{
    FragEndKind, MacBlock, MacHeader, ReservationRequirement, SCH_F_TYPE1_BITS, SCH_HU_TYPE1_BITS,
    STCH_TYPE1_BITS,
};
use tetra_entities::umac::ms_random_access::{
    AccessAssign, AccessAssignDlUsage, AccessAssignUlUsage, AccessCode, AccessDefine,
    SysinfoDefaultDefForAccessCodeA,
};
use tetra_entities::umac::receive::{
    AachPdu, BroadcastType, ChanAllocElement, ChanAllocType, MacResource, MacSync, MacSysinfo,
    SchPdu, TmvHandler, UlDlAssignment,
};
use tetra_entities::umac::umac_ms::UmacMs;
use tetra_entities::umac::uplink::{
    BasicSlotgrant, BasicSlotgrantCapAlloc, BasicSlotgrantGrantingDelay, RaAction, RaStep, Subslot,
};

fn bits(s: &str) -> BitBuffer {
    BitBuffer::from_bits(s.chars().map(|c| c == '1').collect())
}

fn text(b: &BitBuffer) -> String {
    b.bits.iter().map(|x| if *x { '1' } else { '0' }).collect()
}

/// A bit string whose bits follow no short period.
fn pattern(n: usize) -> BitBuffer {
    BitBuffer::from_bits((0..n).map(|i| (i * i + i / 7) % 3 == 0).collect())
}

fn ms_umac() -> UmacMs {
    let mut u = UmacMs::new(&StackConfig {
        stack_mode: StackMode::Ms,
        mcc: 901,
        mnc: 9999,
        allowed_networks: vec![],
        scan_candidates: vec![],
        ms: Some(MsConfig { issi: 1000001, subscriber_class: 1, attach_groups: vec![91] }),
    });
    u.scrambling_code = Some(7);
    u
}

fn transfer(id: u64, sdu: BitBuffer) -> TmaUnitdataReq<BitBuffer> {
    TmaUnitdataReq {
        pdu: sdu,
        main_address: TetraAddress::issi(1000001),
        link_id: 0,
        endpoint_id: 0,
        pdu_priority: Some(4),
        is_emergency: false,
        stealing_permission: false,
        tx_reporter: Some(TxReporter { id }),
    }
}

fn mark(id: u64, outcome: TxOutcome) -> ReceiptMark {
    ReceiptMark { receipt: TxReporter { id }, outcome }
}

/// What a receiver takes out of a block: the bits up to the stated length,
/// without the fill bits that the header announces.
fn tm_sdu(b: &MacBlock<BitBuffer>) -> Vec<bool> {
    let (octets, fill) = match b.header {
        MacHeader::Traffic => (None, false),
        MacHeader::Access(h) => (h.length_ind, h.fill_bits),
        MacHeader::EndHu(h) => (h.length_ind, h.fill_bits),
        MacHeader::EndUl(h) => (h.length_ind, h.fill_bits),
        MacHeader::FragUl(h) => (None, h.fill_bits),
        MacHeader::Data(h) => (h.length_ind, h.fill_bits),
    };
    let mut v = b.body.bits.clone();
    if let Some(n) = octets {
        v.truncate(8 * n as usize - b.header.len_bits());
    }
    if fill {
        while v.pop() == Some(false) {}
    }
    v
}

#[test]
fn access_block_holds_its_sdu() {
    let b = UmacMs::build_mac_access_block(5, &bits("0110")).unwrap();
    let MacHeader::Access(h) = b.header else { panic!("MAC-ACCESS") };
    assert_eq!(h.issi, 5);
    assert!(h.fill_bits && !h.encrypted);
    assert_eq!(h.length_ind, None);
    assert_eq!(text(&b.body), format!("01101{}", "0".repeat(57)));
    assert_eq!(b.get_len(), SCH_HU_TYPE1_BITS);
    for n in 0..=62 {
        let b = UmacMs::build_mac_access_block(5, &pattern(n)).unwrap();
        assert_eq!(b.get_len(), SCH_HU_TYPE1_BITS);
        assert_eq!(tm_sdu(&b), pattern(n).bits);
    }
    assert!(UmacMs::build_mac_access_block(5, &pattern(63)).is_none());
}

#[test]
fn stolen_block_holds_its_sdu() {
    let b = UmacMs::build_stch_mac_data_block(9, &bits("111")).unwrap();
    let MacHeader::Data(h) = b.header else { panic!("MAC-DATA") };
    assert_eq!(h.length_ind, Some(5), "37 + 3 bits are five octets");
    assert!(!h.fill_bits);
    for n in 0..=83 {
        let b = UmacMs::build_stch_mac_data_block(9, &pattern(n)).unwrap();
        assert_eq!(b.get_len(), STCH_TYPE1_BITS);
        assert_eq!(tm_sdu(&b), pattern(n).bits);
    }
    assert!(UmacMs::build_stch_mac_data_block(9, &pattern(84)).is_none());
}

#[test]
fn end_blocks_hold_their_remainder() {
    assert_eq!(UmacMs::max_end_hu_sdu_bits(), 81);
    assert_eq!(UmacMs::max_end_ul_sdu_bits(), 254);
    assert_eq!(UmacMs::max_frag_ul_sdu_bits(), 264);
    let b = UmacMs::build_mac_end_hu_block(&pattern(40)).unwrap();
    let MacHeader::EndHu(h) = b.header else { panic!("MAC-END-HU") };
    assert_eq!(h.length_ind, Some(6), "47 bits are six octets");
    assert!(h.fill_bits);
    for n in 0..=81 {
        let b = UmacMs::build_mac_end_hu_block(&pattern(n)).unwrap();
        assert_eq!(b.get_len(), SCH_HU_TYPE1_BITS);
        assert_eq!(tm_sdu(&b), pattern(n).bits);
    }
    assert!(UmacMs::build_mac_end_hu_block(&pattern(82)).is_none());
    for n in [0, 1, 100, 160, 253, 254] {
        let b = UmacMs::build_mac_end_ul_block(&pattern(n)).unwrap();
        assert_eq!(b.get_len(), SCH_F_TYPE1_BITS);
        assert_eq!(tm_sdu(&b), pattern(n).bits);
    }
    assert!(UmacMs::build_mac_end_ul_block(&pattern(255)).is_none());
}

/// Put together what a fragmented transfer sends.
fn reassemble(sdu: &BitBuffer) -> Option<Vec<bool>> {
    let (start, remainder, kind) = UmacMs::build_mac_access_frag_start(5, sdu)?;
    assert_eq!(start.get_len(), SCH_HU_TYPE1_BITS);
    let mut out = tm_sdu(&start);
    match kind {
        FragEndKind::MacEndHu => {
            out.extend(tm_sdu(&UmacMs::build_mac_end_hu_block(&remainder)?));
        }
        FragEndKind::MacEndUl => {
            out.extend(tm_sdu(&UmacMs::build_mac_end_ul_block(&remainder)?));
        }
        FragEndKind::MacFragUl { total_slots } => {
            for b in UmacMs::build_ul_frag_blocks(&remainder, total_slots)?.iter() {
                assert_eq!(b.get_len(), SCH_F_TYPE1_BITS);
                out.extend(tm_sdu(b));
            }
        }
    }
    Some(out)
}

#[test]
fn fragmented_transfers_reassemble() {
    for n in 57..=1630 {
        assert_eq!(reassemble(&pattern(n)), Some(pattern(n).bits), "{} bits", n);
    }
    // No longer than the first fragment, or more than six slots.
    assert!(UmacMs::build_mac_access_frag_start(5, &pattern(56)).is_none());
    assert!(UmacMs::build_mac_access_frag_start(5, &pattern(1631)).is_none());
}

#[test]
fn the_end_block_is_never_empty() {
    // Two slots for what is just over one end block: a short continuation with
    // fill bits, and the last bit in the end block.
    for n in 255..=264 {
        assert_eq!(UmacMs::compute_ul_frag_slots(n), Some(2));
        let blocks = UmacMs::build_ul_frag_blocks(&pattern(n), 2).unwrap();
        assert_eq!(blocks.len(), 2);
        let MacHeader::FragUl(h) = blocks[0].header else { panic!("MAC-FRAG-UL") };
        assert!(h.fill_bits);
        assert_eq!(blocks[0].get_len(), SCH_F_TYPE1_BITS);
        assert_eq!(tm_sdu(&blocks[0]), pattern(n).bits[..n - 1]);
        assert_eq!(tm_sdu(&blocks[1]), pattern(n).bits[n - 1..]);
    }
    let blocks = UmacMs::build_ul_frag_blocks(&pattern(255), 2).unwrap();
    assert!(text(&blocks[0].body).ends_with("1000000000"));
    // One bit more, and the continuation is full.
    let blocks = UmacMs::build_ul_frag_blocks(&pattern(265), 2).unwrap();
    let MacHeader::FragUl(h) = blocks[0].header else { panic!("MAC-FRAG-UL") };
    assert!(!h.fill_bits);
    assert_eq!(blocks[0].body.bits, pattern(265).bits[..264]);
}

#[test]
fn only_the_computed_count_is_taken() {
    for n in 255..=1574 {
        let total = UmacMs::compute_ul_frag_slots(n).unwrap();
        for t in 0..=7 {
            let blocks = UmacMs::build_ul_frag_blocks(&pattern(n), t);
            assert_eq!(blocks.map(|b| b.len()), if t == total { Some(t) } else { None });
        }
    }
    assert!(UmacMs::compute_ul_frag_slots(1575).is_none());
    assert!(UmacMs::build_ul_frag_blocks(&pattern(0), 1).is_none());
    assert_eq!(UmacMs::build_ul_frag_blocks(&pattern(1), 1).unwrap().len(), 1);
}

#[test]
fn a_refused_transfer_is_discarded_and_the_next_one_starts() {
    let mut u = ms_umac();
    u.rx_tma_prim(transfer(1, pattern(100)), false);
    u.rx_tma_prim(transfer(2, pattern(20)), false);
    assert!(u.pending_fragment.is_some());
    u.random_access_refused();
    assert_eq!(u.receipt_marks, vec![mark(1, TxOutcome::Discarded)]);
    assert!(u.pending_uplink.is_none() && u.pending_fragment.is_none());
    u.promote_next_uplink(false);
    assert_eq!(u.pending_uplink.unwrap().tx_reporter, Some(TxReporter { id: 2 }));
}

#[test]
fn the_first_fragment_asks_for_what_the_rest_needs() {
    let req = |n: usize| {
        let (b, _, kind) = UmacMs::build_mac_access_frag_start(5, &pattern(n)).unwrap();
        let MacHeader::Access(h) = b.header else { panic!("MAC-ACCESS") };
        assert_eq!(h.frag_flag, Some(true));
        (h.reservation_req.unwrap(), kind)
    };
    assert_eq!(req(137), (ReservationRequirement::Req1Subslot, FragEndKind::MacEndHu));
    assert_eq!(req(138), (ReservationRequirement::Req1Slot, FragEndKind::MacEndUl));
    assert_eq!(
        req(400),
        (ReservationRequirement::Req2Slots, FragEndKind::MacFragUl { total_slots: 2 })
    );
    assert_eq!(
        req(1630),
        (ReservationRequirement::Req6Slots, FragEndKind::MacFragUl { total_slots: 6 })
    );
    for n in 1..=6 {
        let all = [
            ReservationRequirement::Req1Slot,
            ReservationRequirement::Req2Slots,
            ReservationRequirement::Req3Slots,
            ReservationRequirement::Req4Slots,
            ReservationRequirement::Req5Slots,
            ReservationRequirement::Req6Slots,
        ];
        assert_eq!(ReservationRequirement::from_req_slotcount(n), all[n - 1]);
    }
}

#[test]
fn slots_per_capacity_allocation() {
    assert_eq!(BasicSlotgrantCapAlloc::FirstSubslotGranted.slot_count(), 0);
    assert_eq!(BasicSlotgrantCapAlloc::Grant6Slots.slot_count(), 6);
    assert_eq!(BasicSlotgrantCapAlloc::Grant13Slots.slot_count(), 13);
    assert_eq!(BasicSlotgrantCapAlloc::Grant51Slots.slot_count(), 51);
}

#[test]
fn reserved_slots_ascend_and_keep_their_timeslot() {
    let first = TdmaTime { t: 3, f: 17, m: 60, h: 4 };
    let slots = UmacMs::reserved_slot_sequence(first, 6);
    for i in 0..slots.len() {
        assert_eq!(slots[i].t, 3);
        assert!(!slots[i].is_mandatory_clch());
        if i > 0 {
            assert!(slots[i].diff(slots[i - 1]) > 0);
        }
    }
    assert_eq!(slots.len(), 6);
    assert_eq!(UmacMs::reserved_slot_sequence(first, 0).len(), 0);
}

#[test]
fn transfers_start_in_order_of_arrival() {
    let mut u = ms_umac();
    for id in 1..=4 {
        u.rx_tma_prim(transfer(id, pattern(20)), false);
    }
    let mut started = vec![];
    while let Some(p) = u.take_pending_uplink() {
        started.push(p.tx_reporter.unwrap().id);
        u.promote_next_uplink(false);
    }
    assert_eq!(started, vec![1, 2, 3, 4]);
}

#[test]
fn nothing_moves_up_while_an_attempt_runs() {
    let mut u = ms_umac();
    u.rx_tma_prim(transfer(1, pattern(20)), true);
    assert!(u.pending_uplink.is_none());
    assert_eq!(u.uplink_queue.len(), 1);
    u.promote_next_uplink(true);
    assert_eq!(u.uplink_queue.len(), 1);
    u.promote_next_uplink(false);
    assert!(u.pending_uplink.is_some() && u.uplink_queue.is_empty());
    assert!(u.uplink_in_flight(false));
}

#[test]
fn a_transfer_before_camping_is_dropped() {
    let mut u = ms_umac();
    u.scrambling_code = None;
    u.rx_tma_prim(transfer(1, pattern(20)), false);
    assert!(u.pending_uplink.is_none() && u.uplink_queue.is_empty());
    assert!(u.receipt_marks.is_empty());
}

#[test]
fn a_long_transfer_is_fragmented() {
    let mut u = ms_umac();
    u.rx_tma_prim(transfer(1, pattern(400)), false);
    let p = u.pending_uplink.as_ref().unwrap();
    assert_eq!(p.tx_reporter, None, "the receipt goes with the remainder");
    let f = u.pending_fragment.as_ref().unwrap();
    assert_eq!(f.remainder.len(), 344);
    assert_eq!(f.tx_reporter, Some(TxReporter { id: 1 }));
    assert_eq!(f.end_kind, FragEndKind::MacFragUl { total_slots: 2 });
}

#[test]
fn failure_discards_and_acknowledgement_settles() {
    let mut q = MessageQueue::new();
    let mut u = ms_umac();
    u.rx_tma_prim(transfer(1, pattern(20)), false);
    u.random_access_decided(&mut q, Some(RaAction::Failed));
    assert_eq!(u.receipt_marks, vec![mark(1, TxOutcome::Discarded)]);
    assert!(u.pending_uplink.is_none());

    let mut u = ms_umac();
    u.rx_tma_prim(transfer(2, pattern(20)), false);
    u.random_access_acknowledged(&mut q, None);
    assert_eq!(u.receipt_marks, vec![mark(2, TxOutcome::Transmitted)]);
    assert_eq!(q.len(), 0);

    // A fragmented transfer whose capacity is granted goes on.
    let mut u = ms_umac();
    u.rx_tma_prim(transfer(3, pattern(100)), false);
    let grant = BasicSlotgrant {
        capacity_allocation: BasicSlotgrantCapAlloc::FirstSubslotGranted,
        granting_delay: BasicSlotgrantGrantingDelay::CapAllocAtNextOpportunity,
    };
    u.random_access_acknowledged(&mut q, Some(&grant));
    assert_eq!(u.receipt_marks, vec![mark(3, TxOutcome::Transmitted)]);
    assert_eq!(q.len(), 1);
}

#[test]
fn an_attempt_needs_access_parameters() {
    let mut u = ms_umac();
    u.rx_tma_prim(transfer(1, pattern(20)), false);
    assert_eq!(u.drive_random_access(false), RaStep::Wait);
    u.rx_broadcast_access_define(&AccessDefine {
        common_or_assigned_control: false,
        access_code: 0,
        imm: 15,
        wt: 6,
        nu: 3,
        frame_len_factor: false,
        ts_pointer: 0,
        min_pdu_prio: 2,
        subscriber_class: None,
        gssi: None,
    });
    let RaStep::Initiate { code, pdu_prio, params, is_emergency, .. } = u.drive_random_access(false)
    else {
        panic!("an attempt is started")
    };
    assert_eq!(code, AccessCode::A);
    assert_eq!((pdu_prio, params.min_pdu_prio, is_emergency), (4, 2, false));
    // Without a stated priority the least that is admitted counts.
    u.pending_uplink.as_mut().unwrap().pdu_priority = None;
    let RaStep::Initiate { pdu_prio, .. } = u.drive_random_access(false) else { panic!() };
    assert_eq!(pdu_prio, 2);
    assert!(matches!(u.drive_random_access(true), RaStep::Poll { .. }));
}

#[test]
fn an_access_burst_may_be_moved() {
    let mut u = ms_umac();
    let mut q = MessageQueue::new();
    u.rx_tma_prim(transfer(1, pattern(20)), false);
    let ul_time = TdmaTime { t: 3, f: 1, m: 1, h: 0 };
    u.random_access_decided(
        &mut q,
        Some(RaAction::Transmit { ul_time, subslot: Subslot::Second }),
    );
    let SapMsgInner::TmvUnitdataReq(slot) = q.pop_front().unwrap().msg else { panic!() };
    assert!(!slot.reserved_access);
    assert!(u.pending_uplink.is_some(), "kept until it is acknowledged");
    u.random_access_decided(&mut q, None);
    u.random_access_decided(&mut q, Some(RaAction::Succeeded));
    assert_eq!(q.len(), 0);
}

#[test]
fn blocks_go_to_their_handlers() {
    let h = UmacMs::rx_tmv_unitdata_ind;
    assert_eq!(h(LogicalChannel::Aach, PhyBlockNum::Both), TmvHandler::Aach);
    assert_eq!(h(LogicalChannel::Bsch, PhyBlockNum::Block1), TmvHandler::Bsch);
    assert_eq!(h(LogicalChannel::SchF, PhyBlockNum::Both), TmvHandler::Sch);
    assert_eq!(h(LogicalChannel::Bnch, PhyBlockNum::Block2), TmvHandler::Sch);
}

#[test]
fn pdu_kinds_of_a_signalling_block() {
    let f = |s: &str, c| UmacMs::rx_tmv_sch(&bits(s), c);
    assert_eq!(f("000", LogicalChannel::SchF), Some(SchPdu::MacResource));
    assert_eq!(f("010", LogicalChannel::SchF), Some(SchPdu::MacFrag));
    assert_eq!(f("011", LogicalChannel::SchF), Some(SchPdu::MacEnd));
    assert_eq!(f("100", LogicalChannel::SchF), Some(SchPdu::Broadcast));
    assert_eq!(f("110", LogicalChannel::SchF), Some(SchPdu::Supplementary));
    assert_eq!(f("110", LogicalChannel::Stch), Some(SchPdu::USignal));
    assert_eq!(f("11", LogicalChannel::Stch), None);
    assert!(UmacMs::sch_goes_on(Some(40), 16));
    assert!(!UmacMs::sch_goes_on(Some(40), 15));
    assert!(!UmacMs::sch_goes_on(Some(0), 100));
    assert!(!UmacMs::sch_goes_on(None, 100));
    assert_eq!(UmacMs::rx_broadcast(&bits("1000")), Some(BroadcastType::Sysinfo));
    assert_eq!(UmacMs::rx_broadcast(&bits("1001")), Some(BroadcastType::AccessDefine));
    assert_eq!(UmacMs::rx_broadcast(&bits("1010")), None);
    assert_eq!(UmacMs::rx_broadcast(&bits("1011")), None);
}

fn sysinfo() -> MacSysinfo {
    MacSysinfo {
        main_carrier: 1593,
        freq_band: 4,
        freq_offset_index: 0,
        duplex_spacing: 7,
        reverse_operation: false,
        hyperframe_number: Some(12),
        default_access_code: Some(SysinfoDefaultDefForAccessCodeA {
            imm: 15,
            wt: 6,
            nu: 4,
            fl_factor: false,
            ts_ptr: 0,
            min_pdu_prio: 0,
        }),
    }
}

#[test]
fn sysinfo_is_adopted() {
    let mut u = ms_umac();
    let mut q = MessageQueue::new();
    u.rx_broadcast_sysinfo(&mut q, &sysinfo(), Some(6250), Some(9_400_000), bits("101"));
    assert_eq!(u.serving_carrier_num, Some(1593));
    assert_eq!(u.derived_ul_freq, Some(430_431_250));
    assert_eq!(u.access_params.params_for(AccessCode::A).unwrap().nu, 4);
    assert_eq!(q.len(), 3);
    let SapMsgInner::TmvTxTuneReq { carrier_hz } = q.pop_front().unwrap().msg else { panic!() };
    assert_eq!(carrier_hz, 430_431_250);
    let SapMsgInner::TmvConfigureReq(c) = q.pop_front().unwrap().msg else { panic!() };
    assert_eq!(c.time, Some(TdmaTime { t: 1, f: 1, m: 1, h: 12 }));
    let SapMsgInner::TlmbSysinfoInd { tl_sdu, .. } = q.pop_front().unwrap().msg else { panic!() };
    assert_eq!(text(&tl_sdu), "101");
    // The same again: neither the carrier nor the hyperframe has changed.
    u.dltime.h = 12;
    u.rx_broadcast_sysinfo(&mut q, &sysinfo(), Some(6250), Some(9_400_000), bits("101"));
    assert_eq!(q.len(), 1);
}

#[test]
fn uplink_carrier_of_a_cell() {
    let d = UmacMs::derive_uplink;
    assert_eq!(d(&sysinfo(), Some(-6250), Some(10_000_000)), Some(429_818_750));
    let mut reverse = sysinfo();
    reverse.reverse_operation = true;
    assert_eq!(d(&reverse, Some(0), Some(9_400_000)), Some(449_225_000));
    assert_eq!(d(&sysinfo(), None, Some(9_400_000)), None);
    assert_eq!(d(&sysinfo(), Some(0), None), None);
    assert_eq!(d(&sysinfo(), Some(0), Some(500_000_000)), None);
    let mut out = sysinfo();
    out.main_carrier = 4000;
    assert_eq!(d(&out, Some(0), Some(9_400_000)), None);
    let mut out = sysinfo();
    out.freq_band = 9;
    assert_eq!(d(&out, Some(0), Some(9_400_000)), None);
}

#[test]
fn sync_sets_the_clock_and_the_network_the_scrambling() {
    let mut u = ms_umac();
    u.scrambling_code = None;
    let mut q = MessageQueue::new();
    let time = TdmaTime { t: 2, f: 5, m: 9, h: 0 };
    u.rx_tmv_bsch(&mut q, &MacSync { colour_code: 1, time }, bits("0"));
    assert_eq!((u.cc, u.dltime), (Some(1), time));
    assert_eq!(q.len(), 2);
    u.rx_tlmc_configure_req(
        &mut q,
        Some(TlmcValidAddress { mcc: 901, mnc: 9999, individual_ssi: None, group_ssis: None }),
    );
    let expected = (((901u32 << 20) | (9999 << 6) | 1) << 2) | 3;
    assert_eq!(u.scrambling_code, Some(expected));
    let SapMsgInner::TmvConfigureReq(c) = &q.entries[2].msg.msg else { panic!() };
    assert_eq!(c.scrambling_code, Some(expected));
}

#[test]
fn access_assignment_tells_of_traffic_at_once() {
    let u = ms_umac();
    let mut q = MessageQueue::new();
    let aa = AccessAssign {
        dl_usage: AccessAssignDlUsage::Traffic(4),
        ul_usage: AccessAssignUlUsage::Traffic(4),
        f1_af1: None,
        f2_af2: None,
        f2_af: None,
    };
    assert_eq!(u.rx_tmv_aach(&mut q, &AachPdu::Assign(aa)), Some(aa));
    assert_eq!(u.rx_tmv_aach(&mut q, &AachPdu::Frame18), None);
    let traffic: Vec<_> = q
        .entries
        .iter()
        .map(|e| match &e.msg.msg {
            SapMsgInner::TmvConfigureReq(c) => (e.prio, c.is_traffic),
            _ => panic!("TMV-CONFIGURE"),
        })
        .collect();
    assert_eq!(
        traffic,
        vec![(MessagePrio::Immediate, Some(true)), (MessagePrio::Immediate, Some(false))]
    );
}

fn resource(length_ind: u8, ssi: u32) -> MacResource {
    MacResource {
        fill_bits: false,
        encryption_mode: 0,
        random_access_flag: false,
        length_ind,
        addr: Some(TetraAddress { ssi, ssi_type: SsiType::Ssi, encrypted: false }),
        slot_granting_element: None,
        chan_alloc_element: None,
    }
}

#[test]
fn a_resource_for_this_station_goes_up() {
    let mut u = ms_umac();
    let mut q = MessageQueue::new();
    let block = pattern(124);
    let r = u.rx_mac_resource(&mut q, &block, &resource(8, 91), 43, 2, 77, false);
    assert_eq!(r.advance, Some(64));
    assert!(r.first_fragment.is_none());
    let m = q.pop_front().unwrap();
    assert_eq!((m.sap, m.dest), (Sap::TmaSap, TetraEntity::Llc));
    let SapMsgInner::TmaUnitdataInd(ind) = m.msg else { panic!() };
    assert_eq!(ind.pdu.unwrap().bits, block.bits[43..62].to_vec());
    assert_eq!((ind.scrambling_code, ind.main_address.ssi), (77, 91));
}

#[test]
fn a_resource_for_another_station_is_skipped() {
    let mut u = ms_umac();
    let mut q = MessageQueue::new();
    let r = u.rx_mac_resource(&mut q, &pattern(124), &resource(8, 92), 43, 0, 77, false);
    assert_eq!(r.advance, Some(64));
    let mut encrypted = resource(8, 91);
    encrypted.encryption_mode = 1;
    u.rx_mac_resource(&mut q, &pattern(124), &encrypted, 43, 0, 77, false);
    assert_eq!(q.len(), 0);
    // A null PDU ends the block.
    let mut null = resource(2, 91);
    null.addr = None;
    let r = u.rx_mac_resource(&mut q, &pattern(124), &null, 16, 0, 77, false);
    assert_eq!(r.advance, None);
}

#[test]
fn a_fragmented_resource_goes_to_the_defragmenter() {
    let mut u = ms_umac();
    let mut q = MessageQueue::new();
    let block = pattern(124);
    let r = u.rx_mac_resource(&mut q, &block, &resource(0b111111, 91), 43, 0, 77, false);
    let (addr, part) = r.first_fragment.unwrap();
    assert_eq!(addr.ssi, 91);
    assert_eq!(part.bits, block.bits[43..].to_vec());
    assert_eq!(q.len(), 0);
    // The second half-slot is stolen as well.
    u.rx_mac_resource(&mut q, &block, &resource(0b111110, 91), 43, 0, 77, false);
    let SapMsgInner::TmvConfigureReq(c) = &q.entries[0].msg.msg else { panic!() };
    assert_eq!((q.entries[0].prio, c.blk2_stolen), (MessagePrio::Immediate, Some(true)));
    assert_eq!(q.len(), 2);
}

#[test]
fn an_allocation_comes_with_a_resource() {
    let mut u = ms_umac();
    u.serving_carrier_num = Some(1593);
    let mut q = MessageQueue::new();
    let mut pdu = resource(8, 1000001);
    pdu.chan_alloc_element = Some(ChanAllocElement {
        alloc_type: ChanAllocType::QuitAndGo,
        ts_assigned: [false, true, false, false],
        ul_dl_assigned: UlDlAssignment::Both,
        cell_change_flag: false,
        carrier_num: 1593,
        extended: false,
    });
    u.rx_mac_resource(&mut q, &pattern(124), &pdu, 43, 0, 77, false);
    assert!(u.has_assigned_traffic_slot());
    assert_eq!(u.assigned_traffic_slots, [false, true, false, false]);
    // One for another cell is not followed.
    let mut pdu2 = pdu;
    pdu2.chan_alloc_element.as_mut().unwrap().cell_change_flag = true;
    pdu2.chan_alloc_element.as_mut().unwrap().ts_assigned = [true; 4];
    u.rx_mac_resource(&mut q, &pattern(124), &pdu2, 43, 0, 77, false);
    assert_eq!(u.assigned_traffic_slots, [false, true, false, false]);
}

#[test]
fn an_acknowledged_resource_settles_the_transfer() {
    let mut u = ms_umac();
    let mut q = MessageQueue::new();
    u.rx_tma_prim(transfer(1, pattern(20)), false);
    assert!(u.addressed_to_self(&resource(8, 1000001).addr));
    assert!(!u.addressed_to_self(&resource(8, 91).addr));
    u.rx_mac_resource(&mut q, &pattern(124), &resource(8, 1000001), 43, 0, 77, true);
    assert_eq!(u.receipt_marks, vec![mark(1, TxOutcome::Transmitted)]);
}

#[test]
fn lengths_of_a_resource() {
    let f = UmacMs::mac_resource_len;
    assert_eq!(f(0, 43, 124), 43, "no length: the header alone");
    assert_eq!(f(8, 43, 124), 64);
    assert_eq!(f(20, 43, 124), 124, "cut at the end of the block");
    assert_eq!(f(0b111110, 43, 124), 124);
    assert_eq!(f(0b111111, 43, 268), 268);
}

#[test]
fn fragments_and_ends() {
    let block = pattern(124);
    assert_eq!(
        UmacMs::rx_mac_frag(&block, 4, 3, false).unwrap().bits,
        block.bits[4..121].to_vec()
    );
    assert!(UmacMs::rx_mac_frag(&block, 4, 3, true).is_none());
    assert_eq!(UmacMs::mac_end_part(&block, 5, 10, 1).bits, block.bits[10..39].to_vec());

    let u = ms_umac();
    let mut q = MessageQueue::new();
    let to = |ssi| TetraAddress { ssi, ssi_type: SsiType::Ssi, encrypted: false };
    assert_eq!(u.rx_mac_end(&mut q, None, 5, 7), None);
    assert_eq!(u.rx_mac_end(&mut q, Some((pattern(9), to(92))), 5, 7), Some(40));
    assert_eq!(q.len(), 0);
    assert_eq!(u.rx_mac_end(&mut q, Some((pattern(9), to(91))), 5, 7), Some(40));
    let SapMsgInner::TmaUnitdataInd(ind) = q.pop_front().unwrap().msg else { panic!() };
    assert_eq!(ind.pdu.unwrap().bits, pattern(9).bits);
}

#[test]
fn fill_bits_count_only_where_marked() {
    assert_eq!(UmacMs::num_fill_bits(true, || 5), 5);
    assert_eq!(UmacMs::num_fill_bits(false, || panic!("not counted")), 0);
}

#[test]
fn frame_18_has_its_own_access_assignment() {
    let mut u = ms_umac();
    for f in 1..=18 {
        u.dltime.f = f;
        assert_eq!(u.aach_is_frame18(), f == 18);
    }
}

#[test]
fn primitives_reach_their_handlers() {
    let mut u = ms_umac();
    let mut q = MessageQueue::new();
    let to_umac = |sap, src, msg| SapMsg { sap, src, dest: TetraEntity::Umac, msg };
    u.rx_prim(
        &mut q,
        to_umac(
            Sap::TmaSap,
            TetraEntity::Llc,
            SapMsgInner::TmaUnitdataReq(transfer(1, pattern(20))),
        ),
        false,
    );
    assert!(u.pending_uplink.is_some());
    u.rx_prim(
        &mut q,
        to_umac(
            Sap::TlmcSap,
            TetraEntity::Mle,
            SapMsgInner::TlmcUPlaneConfigureReq { switch_u_plane: true, tx_grant: true },
        ),
        false,
    );
    assert!(u.uplink_tx_granted);
    u.rx_prim(
        &mut q,
        to_umac(
            Sap::TmdSap,
            TetraEntity::Cmce,
            SapMsgInner::TmdCircuitDataReq { ts: 0, data: vec![1; 35] },
        ),
        false,
    );
    assert_eq!(u.uplink_audio.len(), 1);
    assert_eq!(q.len(), 0);
}

#[test]
fn speech_is_sent_bit_by_bit_and_silence_is_zero() {
    let mut u = ms_umac();
    u.assigned_traffic_slots = [false, false, true, false];
    u.uplink_tx_granted = true;
    let mut q = MessageQueue::new();
    let mut frame = vec![0u8; 35];
    frame[0] = 0b1010_0001;
    frame[34] = 0xFF;
    u.uplink_audio.push_back(frame);
    u.drive_uplink_traffic(&mut q);
    u.drive_uplink_traffic(&mut q);
    let body = |q: &mut MessageQueue| {
        let SapMsgInner::TmvUnitdataReq(slot) = q.pop_front().unwrap().msg else { panic!() };
        text(&slot.blk1.unwrap().mac_block.body)
    };
    let spoken = body(&mut q);
    assert!(spoken.starts_with("10100001"));
    assert!(spoken.ends_with("011"), "the last two of 274 bits are set");
    assert_eq!(body(&mut q), "0".repeat(274));
}

#[test]
fn degrant_flushes_and_oldest_speech_goes_first() {
    let mut u = ms_umac();
    let mut q = MessageQueue::new();
    for i in 0..6u8 {
        u.rx_tmd_prim(
            &mut q,
            SapMsg {
                sap: Sap::TmdSap,
                src: TetraEntity::Cmce,
                dest: TetraEntity::Umac,
                msg: SapMsgInner::TmdCircuitDataReq { ts: 0, data: vec![i; 35] },
            },
        );
    }
    assert_eq!(u.uplink_audio.iter().map(|f| f[0]).collect::<Vec<_>>(), vec![2, 3, 4, 5]);
    u.rx_tlmc_u_plane_configure_req(false, true);
    assert!(u.uplink_audio.is_empty() && !u.uplink_tx_granted);
}

#[test]
fn a_listener_keeps_its_speech_frames() {
    let mut u = ms_umac();
    let mut q = MessageQueue::new();
    u.assigned_traffic_slots = [false, false, true, false];
    u.uplink_audio.push_back(vec![0xff; 35]);
    let mut req = transfer(1, pattern(20));
    req.stealing_permission = true;
    u.rx_tma_prim(req, false);
    u.drive_uplink_traffic(&mut q);
    assert_eq!(q.len(), 1);
    assert_eq!(u.uplink_audio.len(), 1);
    u.uplink_tx_granted = true;
    u.drive_uplink_traffic(&mut q);
    assert_eq!(u.uplink_audio.len(), 0);
}

#[test]
fn a_tick_advances_the_clock_by_one_slot() {
    let mut u = ms_umac();
    let mut q = MessageQueue::new();
    u.dltime = TdmaTime { t: 4, f: 18, m: 60, h: 7 };
    u.tick_start(&mut q);
    assert_eq!(u.dltime, TdmaTime { t: 1, f: 1, m: 1, h: 8 });
    assert_eq!(q.len(), 0);
}

#[test]
fn slot_arithmetic() {
    let t = TdmaTime { t: 3, f: 18, m: 60, h: 65535 };
    assert_eq!(t.add_timeslots(2), TdmaTime { t: 1, f: 1, m: 1, h: 0 });
    assert_eq!(TdmaTime::default().add_timeslots(-1), TdmaTime { t: 4, f: 18, m: 60, h: 65535 });
    for n in [0, 1, 71, 72, 4319, 4320, 100_000] {
        let later = TdmaTime::default().add_timeslots(n);
        assert_eq!(later.to_int(), n);
        assert_eq!(later.diff(TdmaTime::default()), n);
        assert_eq!(TdmaTime::from_int(n as i64), later);
    }
}

#[test]
fn bit_strings() {
    let mut b = bits("101");
    b.append(&bits("01"));
    b.append_zeros(2);
    b.append_fill(3);
    assert_eq!(text(&b), "1010100100");
    assert_eq!(text(&b.slice(2, 5)), "101");
    assert_eq!(b.peek_bits(0, 3), Some(5));
    assert_eq!(b.peek_bits(8, 3), None);
    assert_eq!(BitBuffer::new().len(), 0);
}
