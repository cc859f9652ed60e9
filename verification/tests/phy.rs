//! The physical layer of a mobile station, driven with a device of its own.

use tetra_entities::bits::BitBuffer;
use tetra_entities::phy::phy_ms::{
    build_uplink_blocks, extract_ndb_bbk, split_dl_slot_and_send_to_lmac, PhyAction, PhyMs,
    RxSlotBits, UplinkBlocks, CUB_BLK_BITS, DOWNLINK_FAILURE_SLOTS, NUB_BLK_BITS,
    RSSI_REPORT_SLOTS, SCAN_DWELL_CYCLES,
};
use tetra_entities::sap::{
    BurstType, MessageQueue, Msg, PhyBlockNum, PhyBlockType, Sap, SapMsg, SapMsgInner, TetraEntity,
    TpUnitdataReqSlot, TrainingSequence,
};
use tetra_entities::tdma::TdmaTime;

/// Bits of an assembled control uplink burst.
const CUB_BURST_BITS: usize = 206;

#[derive(Clone, Copy, Debug, PartialEq)]
enum RfPath {
    Tx,
    Rx,
}

/// A device that records what it is asked to do.
#[derive(Default)]
struct MockRxTx {
    tx_calls: Vec<Option<(TdmaTime, Vec<u8>)>>,
    rf_path: Vec<RfPath>,
    next_time: TdmaTime,
    next_air_time: Option<TdmaTime>,
    rx_burst: bool,
    dl_rssi: Option<f32>,
    rx_retunes: Vec<f64>,
    tx_retunes: Vec<f64>,
    no_demod: bool,
}

impl MockRxTx {
    fn rxtx_timeslot(&mut self, tx: Option<(TdmaTime, Vec<u8>)>) -> Vec<Option<RxSlotBits>> {
        self.tx_calls.push(tx);
        if self.no_demod {
            return vec![];
        }
        let train_type = if self.rx_burst {
            TrainingSequence::ExtendedTrainSeq
        } else {
            TrainingSequence::NotFound
        };
        vec![Some(RxSlotBits { time: self.next_time, train_type, bits: BitBuffer::new() })]
    }

    fn set_rx_frequency(&mut self, carrier_hz: f64) {
        self.rx_retunes.push(carrier_hz);
    }

    fn set_tx_frequency(&mut self, carrier_hz: f64) {
        self.tx_retunes.push(carrier_hz);
    }
}

/// The physical layer and its device.
struct Station {
    phy: PhyMs,
    dev: MockRxTx,
}

impl Station {
    fn new() -> Station {
        Station { phy: PhyMs::new(), dev: MockRxTx::default() }
    }

    fn rx_prim(&mut self, msg: Msg) {
        match self.phy.rx_prim(&msg) {
            PhyAction::Nothing => {}
            PhyAction::TuneRx { carrier_hz } => self.dev.set_rx_frequency(carrier_hz as f64),
            PhyAction::TuneTx { carrier_hz } => self.dev.set_tx_frequency(carrier_hz as f64),
            PhyAction::BuildBurst { time, blocks } => {
                let UplinkBlocks::Control { blk } = blocks else { panic!("control burst") };
                assert_eq!(blk.len(), 2 * CUB_BLK_BITS);
                self.phy.queue_burst(time, vec![0; CUB_BURST_BITS]);
            }
        }
    }

    fn drive_rx(&mut self, queue: &mut MessageQueue) {
        if self.phy.begin_cycle() {
            self.dev.rf_path.push(RfPath::Tx);
        }
        let tx = self.phy.pending_tx.as_ref().map(|p| (p.time, p.burst.clone()));
        let rx = self.dev.rxtx_timeslot(tx);
        let rssi = self.dev.dl_rssi.map(|x| (x * 1000.0).round() as i32);
        let end = self.phy.drive_rx(queue, &rx, rssi, self.dev.next_air_time);
        if end.switch_to_rx {
            self.dev.rf_path.push(RfPath::Rx);
        }
    }
}

fn tune(msg_hz: u32) -> Msg {
    SapMsg {
        sap: Sap::TpcSap,
        src: TetraEntity::Lmac,
        dest: TetraEntity::Phy,
        msg: SapMsgInner::TpcTuneReq { carrier_hz: msg_hz },
    }
}

fn tune_tx(msg_hz: u32) -> Msg {
    SapMsg {
        sap: Sap::TpcSap,
        src: TetraEntity::Lmac,
        dest: TetraEntity::Phy,
        msg: SapMsgInner::TpcTxTuneReq { carrier_hz: msg_hz },
    }
}

fn cub_uplink_req(time: TdmaTime, reserved: bool) -> Msg {
    SapMsg {
        sap: Sap::TpSap,
        src: TetraEntity::Lmac,
        dest: TetraEntity::Phy,
        msg: SapMsgInner::TpUnitdataReq(TpUnitdataReqSlot {
            train_type: TrainingSequence::ExtendedTrainSeq,
            burst_type: BurstType::CUB,
            blk1: Some(BitBuffer::from_bits(vec![false; CUB_BLK_BITS * 2])),
            time: Some(time),
            reserved_access: reserved,
        }),
    }
}

/// Each requested carrier reaches the device, in order.
#[test]
fn test_set_rx_frequency_reaches_device() {
    let mut s = Station::new();
    s.rx_prim(tune(430_425_000));
    s.rx_prim(tune(390_000_000));
    assert_eq!(s.dev.rx_retunes, vec![430_425_000.0, 390_000_000.0]);
}

#[test]
fn test_tpc_tune_retunes_device() {
    let mut s = Station::new();
    s.rx_prim(tune(396_000_000));
    assert_eq!(
        s.dev.rx_retunes.last().copied(),
        Some(396_000_000.0),
        "PhyMs must retune the device to the requested carrier"
    );
}

#[test]
fn test_tpc_tx_tune_retunes_device() {
    let mut s = Station::new();
    assert!(!s.phy.tx_frequency_set, "TX carrier not established at boot");

    s.rx_prim(tune_tx(430_425_000));

    assert_eq!(
        s.dev.tx_retunes.last().copied(),
        Some(430_425_000.0),
        "PhyMs must retune the transmitter to the derived uplink carrier"
    );
    assert!(s.phy.tx_frequency_set, "TX carrier marked established after retune");
}

#[test]
fn test_uplink_dropped_before_tx_tuned() {
    let base = TdmaTime::default();
    let ul_time = base.add_timeslots(2);
    let mut s = Station::new();

    s.rx_prim(cub_uplink_req(ul_time, false));
    assert!(s.phy.pending_tx.is_none(), "burst dropped before TX carrier derived");

    s.phy.tx_frequency_set = true;
    s.rx_prim(cub_uplink_req(ul_time, false));
    assert!(s.phy.pending_tx.is_some(), "burst queued once TX carrier established");
}

#[test]
fn test_no_burst_transmits_nothing() {
    let mut s = Station::new();
    let mut queue = MessageQueue::new();

    s.drive_rx(&mut queue);

    assert_eq!(s.dev.tx_calls, vec![None], "empty TX slot when nothing pending");
    assert!(s.dev.rf_path.is_empty(), "no antenna switch without a burst");
}

#[test]
fn test_pending_burst_scheduled_then_retired() {
    let base = TdmaTime::default();
    let ul_time = base.add_timeslots(2);

    let mut s = Station::new();
    let mut queue = MessageQueue::new();
    s.phy.tx_frequency_set = true;

    s.rx_prim(cub_uplink_req(ul_time, false));
    assert!(s.phy.pending_tx.is_some(), "burst queued by rx_prim");
    assert_eq!(
        s.phy.pending_tx.as_ref().unwrap().time.to_int(),
        ul_time.to_int(),
        "scheduled at the exact granted slot dltime+2"
    );

    s.dev.next_time = base.add_timeslots(1);
    s.dev.next_air_time = Some(base.add_timeslots(1));
    s.drive_rx(&mut queue);
    let call0 = s.dev.tx_calls[0].as_ref().expect("burst presented on first drive");
    assert_eq!(call0.0.to_int(), ul_time.to_int(), "scheduled at the granted slot time");
    assert_eq!(call0.1.len(), CUB_BURST_BITS, "control uplink burst bits");
    assert_eq!(s.dev.rf_path, vec![RfPath::Tx]);
    assert!(s.phy.pending_tx.is_some(), "kept pending until frontier passes");

    s.dev.next_time = ul_time.add_timeslots(1);
    s.dev.next_air_time = Some(ul_time.add_timeslots(1));
    s.drive_rx(&mut queue);
    assert!(s.dev.tx_calls[1].is_some(), "burst presented while still pending");
    assert!(s.phy.pending_tx.is_none(), "burst retired after frontier passed");
    assert_eq!(s.dev.rf_path, vec![RfPath::Tx, RfPath::Rx]);

    s.dev.next_time = ul_time.add_timeslots(2);
    s.dev.next_air_time = Some(ul_time.add_timeslots(2));
    s.drive_rx(&mut queue);
    assert!(s.dev.tx_calls[2].is_none(), "TX idle once burst is gone");
    assert_eq!(s.dev.rf_path, vec![RfPath::Tx, RfPath::Rx], "no extra switches");
}

#[test]
fn test_burst_scheduled_at_exact_grant_regardless_of_frontier() {
    let base = TdmaTime::default();
    let granted = base.add_timeslots(2);

    for reserved in [false, true] {
        let mut s = Station::new();
        s.phy.tx_frequency_set = true;

        s.dev.next_air_time = Some(base.add_timeslots(10));
        s.rx_prim(cub_uplink_req(granted, reserved));

        let pending = s
            .phy
            .pending_tx
            .as_ref()
            .expect("burst queued at exact grant regardless of frontier");
        assert_eq!(
            pending.time.to_int(),
            granted.to_int(),
            "burst (reserved={reserved}) scheduled at exactly dltime+2"
        );
    }
}

fn monitor_inds(queue: &MessageQueue) -> Vec<bool> {
    queue
        .entries
        .iter()
        .filter_map(|e| match &e.msg.msg {
            SapMsgInner::TlmbMonitorInd { downlink_available, .. } => {
                assert_eq!(e.msg.dest, TetraEntity::Mle, "monitor indication addressed to MLE");
                Some(*downlink_available)
            }
            _ => None,
        })
        .collect()
}

#[test]
fn test_downlink_sync_emits_available_once() {
    let mut s = Station::new();
    s.dev.rx_burst = true;
    let mut queue = MessageQueue::new();

    for _ in 0..5 {
        s.drive_rx(&mut queue);
    }

    assert!(s.phy.synced, "synchronized after a decodable burst");
    assert_eq!(monitor_inds(&queue), vec![true], "exactly one available indication");
}

#[test]
fn test_rssi_refreshed_periodically_while_camped() {
    let mut s = Station::new();
    s.dev.rx_burst = true;
    s.dev.dl_rssi = Some(-6.0);
    let mut queue = MessageQueue::new();

    for _ in 0..(RSSI_REPORT_SLOTS + 1) {
        s.drive_rx(&mut queue);
    }

    let rssis: Vec<Option<i32>> = queue
        .entries
        .iter()
        .filter_map(|e| match &e.msg.msg {
            SapMsgInner::TlmbMonitorInd { downlink_available, rssi_mdbfs } => {
                assert!(*downlink_available, "camped indications report available");
                Some(*rssi_mdbfs)
            }
            _ => None,
        })
        .collect();

    assert_eq!(
        rssis,
        vec![Some(-6_000), Some(-6_000)],
        "one sync + one periodic RSSI refresh, both carrying the current level"
    );
}

#[test]
fn test_downlink_failure_declared_after_threshold() {
    let mut s = Station::new();
    let mut queue = MessageQueue::new();

    s.dev.rx_burst = true;
    s.drive_rx(&mut queue);
    assert!(s.phy.synced);

    s.dev.rx_burst = false;
    for _ in 0..(DOWNLINK_FAILURE_SLOTS - 1) {
        s.drive_rx(&mut queue);
    }
    assert!(s.phy.synced, "still in service below the failure threshold");
    assert_eq!(monitor_inds(&queue), vec![true], "no failure indication yet");

    s.drive_rx(&mut queue);
    assert!(!s.phy.synced, "downlink failure declared at the threshold");
    assert_eq!(monitor_inds(&queue), vec![true, false]);

    for _ in 0..10 {
        s.drive_rx(&mut queue);
    }
    assert_eq!(monitor_inds(&queue), vec![true, false], "failure declared only once");
}

#[test]
fn test_downlink_recovery_emits_available() {
    let mut s = Station::new();
    let mut queue = MessageQueue::new();

    s.dev.rx_burst = true;
    s.drive_rx(&mut queue);

    s.dev.rx_burst = false;
    for _ in 0..DOWNLINK_FAILURE_SLOTS {
        s.drive_rx(&mut queue);
    }
    assert!(!s.phy.synced);
    assert_eq!(monitor_inds(&queue), vec![true, false]);

    s.dev.rx_burst = true;
    s.drive_rx(&mut queue);
    assert!(s.phy.synced, "re-synchronized on burst return");
    assert_eq!(monitor_inds(&queue), vec![true, false, true], "recovery indication emitted");
}

fn scan_dwells(queue: &MessageQueue) -> Vec<Option<i32>> {
    queue
        .entries
        .iter()
        .filter_map(|e| match &e.msg.msg {
            SapMsgInner::TlmbScanDwellInd { rssi_mdbfs } => {
                assert_eq!(e.msg.dest, TetraEntity::Mle, "scan-dwell addressed to MLE");
                Some(*rssi_mdbfs)
            }
            _ => None,
        })
        .collect()
}

#[test]
fn test_unsynced_dwell_emits_scan_dwell_ind() {
    let mut s = Station::new();
    s.dev.no_demod = true;
    s.dev.dl_rssi = Some(-97.0);
    let mut queue = MessageQueue::new();

    for _ in 0..(SCAN_DWELL_CYCLES - 1) {
        s.drive_rx(&mut queue);
    }
    assert_eq!(scan_dwells(&queue).len(), 0, "no heartbeat below the dwell window");

    s.drive_rx(&mut queue);
    let dwells = scan_dwells(&queue);
    assert_eq!(dwells.len(), 1, "one heartbeat at the dwell window");
    assert_eq!(dwells[0], Some(-97_000), "heartbeat carries the current downlink level");

    for _ in 0..SCAN_DWELL_CYCLES {
        s.drive_rx(&mut queue);
    }
    assert_eq!(scan_dwells(&queue).len(), 2, "re-armed for the next candidate");
}

#[test]
fn test_no_scan_dwell_while_synced() {
    let mut s = Station::new();
    let mut queue = MessageQueue::new();

    s.dev.rx_burst = true;
    s.drive_rx(&mut queue);
    assert!(s.phy.synced);

    s.dev.no_demod = true;
    for _ in 0..(SCAN_DWELL_CYCLES * 2) {
        s.drive_rx(&mut queue);
    }
    assert_eq!(scan_dwells(&queue).len(), 0, "no scan-dwell heartbeat while synced");
}

#[test]
fn test_tpc_tune_resets_sync() {
    let mut s = Station::new();
    let mut queue = MessageQueue::new();

    s.dev.rx_burst = true;
    s.drive_rx(&mut queue);
    assert!(s.phy.synced, "synced before retune");

    s.rx_prim(tune(396_000_000));

    assert!(!s.phy.synced, "retune drops synchronization");
    assert_eq!(s.phy.unsynced_cycles, 0, "dwell counter reset on retune");
    assert_eq!(s.phy.slots_without_burst, 0, "failure counter reset on retune");
}

// ---------------------------------------------------------------------------

fn slot_bits() -> BitBuffer {
    BitBuffer::from_bits((0..510).map(|i| (i * i + i / 5) % 7 < 3).collect())
}

/// Block types, numbers and contents handed to the lower MAC.
fn blocks(queue: &MessageQueue) -> Vec<(BurstType, PhyBlockType, PhyBlockNum, Vec<bool>)> {
    queue
        .entries
        .iter()
        .map(|e| match &e.msg.msg {
            SapMsgInner::TpUnitdataInd { burst_type, block_type, block_num, block, .. } => {
                (*burst_type, *block_type, *block_num, block.bits.clone())
            }
            _ => panic!("TP-UNITDATA"),
        })
        .collect()
}

#[test]
fn a_synchronization_burst_has_three_blocks() {
    let mut queue = MessageQueue::new();
    let b = slot_bits();
    split_dl_slot_and_send_to_lmac(&mut queue, TrainingSequence::SyncTrainSeq, &b);
    let v = blocks(&queue);
    assert_eq!(v.len(), 3);
    assert!(v.iter().all(|x| x.0 == BurstType::SDB));
    assert_eq!((v[0].1, &v[0].3[..]), (PhyBlockType::BBK, &b.bits[252..282]));
    assert_eq!((v[1].1, &v[1].3[..]), (PhyBlockType::SB1, &b.bits[94..214]));
    assert_eq!((v[2].1, &v[2].3[..]), (PhyBlockType::SB2, &b.bits[282..498]));
}

#[test]
fn a_normal_burst_is_whole_or_in_halves() {
    let b = slot_bits();
    let mut bbk = b.bits[230..244].to_vec();
    bbk.extend_from_slice(&b.bits[266..282]);
    assert_eq!(extract_ndb_bbk(&b).bits, bbk);

    let mut queue = MessageQueue::new();
    split_dl_slot_and_send_to_lmac(&mut queue, TrainingSequence::NormalTrainSeq1, &b);
    let v = blocks(&queue);
    assert_eq!(v.len(), 2);
    assert_eq!(v[0].3, bbk);
    assert_eq!(v[1].2, PhyBlockNum::Both);
    let mut both = b.bits[14..230].to_vec();
    both.extend_from_slice(&b.bits[282..498]);
    assert_eq!(v[1].3, both);

    let mut queue = MessageQueue::new();
    split_dl_slot_and_send_to_lmac(&mut queue, TrainingSequence::NormalTrainSeq2, &b);
    let v = blocks(&queue);
    assert_eq!(v.len(), 3);
    assert_eq!((v[1].2, &v[1].3[..]), (PhyBlockNum::Block1, &b.bits[14..230]));
    assert_eq!((v[2].2, &v[2].3[..]), (PhyBlockNum::Block2, &b.bits[282..498]));
}

#[test]
fn an_unexpected_training_sequence_is_dropped() {
    let mut queue = MessageQueue::new();
    for t in [TrainingSequence::ExtendedTrainSeq, TrainingSequence::NormalTrainSeq3] {
        split_dl_slot_and_send_to_lmac(&mut queue, t, &slot_bits());
    }
    assert_eq!(queue.len(), 0);
}

#[test]
fn a_normal_uplink_burst_is_cut_in_two() {
    let b = slot_bits();
    let r = build_uplink_blocks(&TpUnitdataReqSlot {
        train_type: TrainingSequence::NormalTrainSeq2,
        burst_type: BurstType::NUB,
        blk1: Some(b.slice(0, 2 * NUB_BLK_BITS)),
        time: None,
        reserved_access: false,
    });
    let UplinkBlocks::Normal { train_type, blk1, blk2 } = r else { panic!("normal burst") };
    assert_eq!(train_type, TrainingSequence::NormalTrainSeq2);
    assert_eq!(blk1.bits, b.bits[0..216].to_vec());
    assert_eq!(blk2.bits, b.bits[216..432].to_vec());
}

#[test]
fn a_burst_waits_while_the_air_time_is_unknown() {
    let mut s = Station::new();
    let mut queue = MessageQueue::new();
    s.rx_prim(tune_tx(430_425_000));
    s.rx_prim(cub_uplink_req(TdmaTime::default().add_timeslots(2), true));
    for _ in 0..3 {
        s.drive_rx(&mut queue);
    }
    assert!(s.phy.pending_tx.is_some());
    assert_eq!(s.dev.rf_path, vec![RfPath::Tx]);
    // In its slot it is still on air.
    s.dev.next_air_time = Some(TdmaTime::default().add_timeslots(2));
    s.drive_rx(&mut queue);
    assert!(s.phy.pending_tx.is_some());
}

#[test]
fn a_burst_restarts_the_failure_count() {
    let mut s = Station::new();
    let mut queue = MessageQueue::new();
    s.dev.rx_burst = true;
    s.drive_rx(&mut queue);
    for _ in 0..3 {
        s.dev.rx_burst = false;
        for _ in 0..(DOWNLINK_FAILURE_SLOTS - 1) {
            s.drive_rx(&mut queue);
        }
        s.dev.rx_burst = true;
        s.drive_rx(&mut queue);
    }
    assert!(s.phy.synced);
    assert_eq!(monitor_inds(&queue).iter().filter(|a| !**a).count(), 0);
}
