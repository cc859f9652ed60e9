//! The mobile link entity of a mobile station.

use tetra_entities::bits::BitBuffer;
use tetra_entities::config::{MsConfig, StackConfig};
use tetra_entities::mle::mle_ms::{
    MleBroadcast, MleMs, ServingCell, SURVEY_SYSINFO_SYNC_LIMIT,
};
use tetra_entities::mle::pdu::{
    mle_pdu_type, split_discriminator, with_discriminator, DMleSync, DMleSysinfo,
    MlePduTypeDl, MleProtocolDiscriminator,
};
use tetra_entities::sap::{
    Layer2Service, LcmcMleUnitdataReq, LmmMleScanResultInd, LmmMleUnitdataReq, MessageQueue, Msg,
    MsgInner, Sap, SapMsg, SapMsgInner, StackMode, TetraAddress, TetraEntity, TlaTlDataIndBl,
    TxReporter,
};

/// Two candidate carriers of the scan configuration.
const SCAN_F0: u32 = 390_000_000;
const SCAN_F1: u32 = 396_000_000;

fn config(scan_candidates: Vec<u32>) -> StackConfig {
    StackConfig {
        stack_mode: StackMode::Ms,
        mcc: 901,
        mnc: 9999,
        allowed_networks: vec![],
        scan_candidates,
        ms: Some(MsConfig { issi: 1000001, subscriber_class: 1, attach_groups: vec![] }),
    }
}

fn ms_mle() -> MleMs {
    MleMs::new(config(vec![]))
}

fn ms_mle_scan() -> MleMs {
    MleMs::new(config(vec![SCAN_F0, SCAN_F1]))
}

/// Camped on a cell that has been confirmed.
fn camp(mle: &mut MleMs) {
    mle.serving_cell = Some(ServingCell {
        mcc: 901,
        mnc: 9999,
        neighbor_cell_broadcast: 0,
        cell_load_ca: 0,
        late_entry_supported: false,
        location_area: Some(1),
        subscriber_class: None,
        registration_required: Some(true),
        system_wide_services: Some(true),
    });
    mle.activate_confirmed = true;
}

fn count(queue: &MessageQueue, f: fn(&MsgInner) -> bool) -> usize {
    queue.entries.iter().filter(|e| f(&e.msg.msg)).count()
}

fn dests(queue: &MessageQueue, f: fn(&MsgInner) -> bool) -> Vec<TetraEntity> {
    queue.entries.iter().filter(|e| f(&e.msg.msg)).map(|e| e.msg.dest).collect()
}

fn is_activate(m: &MsgInner) -> bool {
    matches!(m, SapMsgInner::LmmMleActivateConf(_))
}

fn is_configure(m: &MsgInner) -> bool {
    matches!(m, SapMsgInner::TlmcConfigureReq { .. })
}

#[test]
fn test_downlink_failure_declares_out_of_service_and_breaks() {
    let mut mle = ms_mle();
    camp(&mut mle);
    let mut queue = MessageQueue::new();

    mle.rx_tlmb_monitor_ind(&mut queue, false);

    assert!(mle.out_of_service, "declared out of service");
    assert!(mle.serving_cell.is_none(), "serving cell cleared");
    assert!(!mle.activate_confirmed, "activate confirmation re-armed");

    let breaks = dests(&queue, |m| matches!(m, SapMsgInner::LcmcMleBreakInd { .. }));
    assert_eq!(breaks.len(), 1, "exactly one MLE-BREAK");
    assert_eq!(breaks[0], TetraEntity::Cmce, "MLE-BREAK addressed to CMCE");

    let mm_breaks = dests(&queue, |m| matches!(m, SapMsgInner::LmmMleBreakInd));
    assert_eq!(mm_breaks.len(), 1, "exactly one LMM MLE-BREAK");
    assert_eq!(mm_breaks[0], TetraEntity::Mm, "LMM MLE-BREAK addressed to MM");
}

#[test]
fn test_repeated_failure_is_idempotent() {
    let mut mle = ms_mle();
    camp(&mut mle);
    let mut queue = MessageQueue::new();

    mle.rx_tlmb_monitor_ind(&mut queue, false);
    mle.rx_tlmb_monitor_ind(&mut queue, false);

    let breaks = count(&queue, |m| matches!(m, SapMsgInner::LcmcMleBreakInd { .. }));
    assert_eq!(breaks, 1, "MLE-BREAK emitted only once");
}

#[test]
fn test_recovery_emits_reopen() {
    let mut mle = ms_mle();
    camp(&mut mle);
    let mut queue = MessageQueue::new();

    mle.rx_tlmb_monitor_ind(&mut queue, false);
    mle.rx_tlmb_monitor_ind(&mut queue, true);

    assert!(!mle.out_of_service, "back in service after recovery");
    let reopens = dests(&queue, |m| matches!(m, SapMsgInner::LcmcMleReopenInd));
    assert_eq!(reopens.len(), 1, "exactly one MLE-REOPEN");
    assert_eq!(reopens[0], TetraEntity::Cmce, "MLE-REOPEN addressed to CMCE");

    let mm_reopens = dests(&queue, |m| matches!(m, SapMsgInner::LmmMleReopenInd));
    assert_eq!(mm_reopens.len(), 1, "exactly one LMM MLE-REOPEN");
    assert_eq!(mm_reopens[0], TetraEntity::Mm, "LMM MLE-REOPEN addressed to MM");
}

fn from_phy(msg: MsgInner) -> Msg {
    SapMsg { sap: Sap::TlmbSap, src: TetraEntity::Phy, dest: TetraEntity::Mle, msg }
}

#[test]
fn test_serving_cell_rssi_cached_and_cleared() {
    let mut mle = ms_mle();
    camp(&mut mle);
    let mut queue = MessageQueue::new();

    let monitor = |downlink_available, rssi_mdbfs| {
        from_phy(SapMsgInner::TlmbMonitorInd { downlink_available, rssi_mdbfs })
    };

    mle.rx_tlmb_prim(&mut queue, monitor(true, Some(-12_500)), MleBroadcast::Undecodable);
    assert_eq!(mle.serving_cell_rssi_mdbfs, Some(-12_500), "level cached from refresh");

    mle.rx_tlmb_prim(&mut queue, monitor(false, None), MleBroadcast::Undecodable);
    assert_eq!(mle.serving_cell_rssi_mdbfs, None, "cleared on out of service");
}

#[test]
fn test_available_while_in_service_is_noop() {
    let mut mle = ms_mle();
    camp(&mut mle);
    let mut queue = MessageQueue::new();

    mle.rx_tlmb_monitor_ind(&mut queue, true);

    assert!(!mle.out_of_service);
    assert!(mle.serving_cell.is_some(), "serving cell untouched");
    assert_eq!(
        count(&queue, |m| matches!(m, SapMsgInner::LcmcMleReopenInd)),
        0,
        "no reopen when never broken"
    );
}

fn from_mm(msg: MsgInner) -> Msg {
    SapMsg { sap: Sap::LmmSap, src: TetraEntity::Mm, dest: TetraEntity::Mle, msg }
}

#[test]
fn test_mle_identities_configures_mac_filter() {
    let mut mle = ms_mle();
    let mut queue = MessageQueue::new();

    mle.rx_lmm_prim(
        &mut queue,
        from_mm(SapMsgInner::LmmMleIdentitiesReq {
            issi: 1000001,
            attached_gssis: vec![91, 220],
            detached_gssis: vec![],
        }),
    );

    let out = queue.pop_front().expect("a TL-CONFIGURE must be emitted");
    assert_eq!(out.sap, Sap::TlmcSap);
    assert_eq!(out.dest, TetraEntity::Umac);
    let SapMsgInner::TlmcConfigureReq { valid_addresses } = out.msg else {
        panic!("expected TlmcConfigureReq");
    };
    let va = valid_addresses.expect("valid addresses set");
    assert_eq!(va.individual_ssi, Some(1000001));
    assert_eq!(va.group_ssis, Some(vec![91, 220]));
    assert_eq!(va.mcc, 901);
    assert_eq!(va.mnc, 9999);
}

/// Hand a D-MLE-SYNC to the entity.
fn sync(mle: &mut MleMs, queue: &mut MessageQueue, mcc: u16, mnc: u16) {
    let pdu = DMleSync {
        mcc,
        mnc,
        neighbor_cell_broadcast: 0,
        cell_load_ca: 0,
        late_entry_supported: false,
    };
    let msg = from_phy(SapMsgInner::TlmbSyncInd { endpoint_id: 0, tl_sdu: BitBuffer::new() });
    mle.rx_tlmb_prim(queue, msg, MleBroadcast::Sync(pdu));
}

/// Hand a D-MLE-SYSINFO to the entity.
fn sysinfo(mle: &mut MleMs, queue: &mut MessageQueue, location_area: u16, subscriber_class: u16) {
    let pdu = DMleSysinfo {
        location_area,
        subscriber_class,
        registration: true,
        system_wide_services: true,
    };
    let msg = from_phy(SapMsgInner::TlmbSysinfoInd {
        endpoint_id: 0,
        tl_sdu: BitBuffer::new(),
        mac_broadcast_info: None,
    });
    mle.rx_tlmb_prim(queue, msg, MleBroadcast::Sysinfo(pdu));
}

/// Hand the elapsing of a dwell to the entity.
fn dwell(mle: &mut MleMs, queue: &mut MessageQueue) {
    let msg = from_phy(SapMsgInner::TlmbScanDwellInd { rssi_mdbfs: Some(-95_000) });
    mle.rx_tlmb_prim(queue, msg, MleBroadcast::Undecodable);
}

#[test]
fn test_allowed_home_network_selected() {
    let mut mle = ms_mle();
    let mut queue = MessageQueue::new();

    sync(&mut mle, &mut queue, 901, 9999);

    assert!(mle.serving_cell.is_some(), "home cell selected");
    assert_eq!(count(&queue, is_configure), 1, "MAC configured for the selected cell");
}

#[test]
fn test_disallowed_network_not_selected() {
    let mut mle = ms_mle();
    let mut queue = MessageQueue::new();

    sync(&mut mle, &mut queue, 238, 6);

    assert!(mle.serving_cell.is_none(), "foreign cell not selected");
    assert_eq!(count(&queue, is_configure), 0, "MAC not configured for a disallowed network");
}

#[test]
fn test_subscriber_class_permitted_confirms() {
    let mut mle = ms_mle();
    let mut queue = MessageQueue::new();
    sync(&mut mle, &mut queue, 901, 9999);

    sysinfo(&mut mle, &mut queue, 1, 0b1);

    assert!(mle.activate_confirmed, "cell confirmed");
    assert_eq!(count(&queue, is_activate), 1, "LMM-ACTIVATE confirmation sent to MM");
}

#[test]
fn test_subscriber_class_not_permitted_not_confirmed() {
    let mut mle = ms_mle();
    let mut queue = MessageQueue::new();
    sync(&mut mle, &mut queue, 901, 9999);

    sysinfo(&mut mle, &mut queue, 1, 0b110);

    assert!(!mle.activate_confirmed, "cell not confirmed for a barred class");
    assert_eq!(count(&queue, is_activate), 0, "no confirmation for a barred subscriber class");
}

#[test]
fn test_request_tune_emits_tlmc_tune_req() {
    let mle = ms_mle();
    let mut queue = MessageQueue::new();

    mle.request_tune(&mut queue, 396_000_000);

    let out = queue.pop_front().expect("a TLMC-TUNE must be emitted");
    assert_eq!(out.sap, Sap::TlmcSap);
    assert_eq!(out.src, TetraEntity::Mle);
    assert_eq!(out.dest, TetraEntity::Umac);
    let SapMsgInner::TlmcTuneReq { carrier_hz } = out.msg else {
        panic!("expected TlmcTuneReq");
    };
    assert_eq!(carrier_hz, 396_000_000);
}

/// The carrier of the first tune request in the queue.
fn tuned_carrier(queue: &MessageQueue) -> Option<u32> {
    queue.entries.iter().find_map(|e| match &e.msg.msg {
        SapMsgInner::TlmcTuneReq { carrier_hz } => Some(*carrier_hz),
        _ => None,
    })
}

#[test]
fn test_scan_starts_on_first_dwell() {
    let mut mle = ms_mle_scan();
    let mut queue = MessageQueue::new();

    dwell(&mut mle, &mut queue);

    assert!(mle.scanning, "scan started");
    assert_eq!(tuned_carrier(&queue), Some(SCAN_F0), "tuned to first candidate");
}

#[test]
fn test_scan_advances_and_wraps_on_dwell() {
    let mut mle = ms_mle_scan();
    let mut queue = MessageQueue::new();

    dwell(&mut mle, &mut queue);
    queue = MessageQueue::new();
    dwell(&mut mle, &mut queue);
    assert_eq!(tuned_carrier(&queue), Some(SCAN_F1), "advanced to second candidate");
    queue = MessageQueue::new();
    dwell(&mut mle, &mut queue);
    assert_eq!(tuned_carrier(&queue), Some(SCAN_F0), "wrapped back to first candidate");
}

#[test]
fn test_scan_advances_on_disallowed_network() {
    let mut mle = ms_mle_scan();
    let mut queue = MessageQueue::new();

    dwell(&mut mle, &mut queue);
    queue = MessageQueue::new();

    sync(&mut mle, &mut queue, 238, 6);

    assert!(mle.serving_cell.is_none(), "foreign cell not adopted");
    assert!(mle.scanning, "still scanning");
    assert_eq!(tuned_carrier(&queue), Some(SCAN_F1), "advanced past the disallowed cell");
}

#[test]
fn test_scan_advances_on_barred_class() {
    let mut mle = ms_mle_scan();
    let mut queue = MessageQueue::new();

    dwell(&mut mle, &mut queue);
    queue = MessageQueue::new();

    sync(&mut mle, &mut queue, 901, 9999);
    assert!(mle.serving_cell.is_some(), "home cell adopted pending SYSINFO");
    queue = MessageQueue::new();

    sysinfo(&mut mle, &mut queue, 1, 0b110);

    assert!(mle.serving_cell.is_none(), "unsuitable cell dropped");
    assert!(mle.scanning, "still scanning");
    assert!(!mle.activate_confirmed, "not confirmed");
    assert_eq!(tuned_carrier(&queue), Some(SCAN_F1), "advanced past the barred cell");
}

#[test]
fn test_scan_camps_on_suitable_cell_and_stops() {
    let mut mle = ms_mle_scan();
    let mut queue = MessageQueue::new();

    dwell(&mut mle, &mut queue);
    sync(&mut mle, &mut queue, 901, 9999);
    sysinfo(&mut mle, &mut queue, 1, 0b1);

    assert!(mle.activate_confirmed, "cell confirmed");
    assert!(!mle.scanning, "scan stopped after camping");
    assert_eq!(count(&queue, is_activate), 1, "LMM-ACTIVATE confirmation sent to MM");

    queue = MessageQueue::new();
    dwell(&mut mle, &mut queue);
    assert_eq!(tuned_carrier(&queue), None, "no retune while camped");
}

#[test]
fn test_no_scan_when_not_programmed() {
    let mut mle = ms_mle();
    let mut queue = MessageQueue::new();

    dwell(&mut mle, &mut queue);

    assert!(!mle.scanning, "scanning not enabled without a scan codeplug");
    assert_eq!(tuned_carrier(&queue), None, "no retune when not scanning");
}

fn scan_req(start: bool) -> Msg {
    from_mm(SapMsgInner::LmmMleScanReq { start })
}

fn selection_mode_req(manual: bool) -> Msg {
    from_mm(SapMsgInner::LmmMleSelectionModeReq { manual })
}

fn camp_req(carrier_hz: u32, register: bool) -> Msg {
    from_mm(SapMsgInner::LmmMleCampReq { carrier_hz, register })
}

fn scan_results(queue: &MessageQueue) -> Vec<LmmMleScanResultInd> {
    queue
        .entries
        .iter()
        .filter_map(|e| match &e.msg.msg {
            SapMsgInner::LmmMleScanResultInd(r) => Some(*r),
            _ => None,
        })
        .collect()
}

/// Cells found and carriers scanned, from the completion of a survey.
fn scan_complete(queue: &MessageQueue) -> Option<(u32, u32)> {
    queue.entries.iter().find_map(|e| match &e.msg.msg {
        SapMsgInner::LmmMleScanCompleteInd { found, scanned } => Some((*found, *scanned)),
        _ => None,
    })
}

#[test]
fn test_survey_starts_and_tunes_first_candidate() {
    let mut mle = ms_mle_scan();
    let mut queue = MessageQueue::new();

    mle.rx_lmm_prim(&mut queue, scan_req(true));

    assert!(mle.survey, "survey mode entered");
    assert!(!mle.scanning, "automatic scan not running during a survey");
    assert!(mle.serving_cell.is_none(), "no cell camped at survey start");
    assert_eq!(tuned_carrier(&queue), Some(SCAN_F0), "tuned to first candidate");
}

#[test]
fn test_survey_reports_each_cell_and_completes() {
    let mut mle = ms_mle_scan();
    let mut queue = MessageQueue::new();

    mle.rx_lmm_prim(&mut queue, scan_req(true));
    queue = MessageQueue::new();

    sync(&mut mle, &mut queue, 901, 9999);
    assert!(mle.serving_cell.is_none(), "survey never adopts a serving cell");
    sysinfo(&mut mle, &mut queue, 1, 0b1);
    assert_eq!(tuned_carrier(&queue), Some(SCAN_F1), "advanced to second candidate");

    sync(&mut mle, &mut queue, 238, 6);
    sysinfo(&mut mle, &mut queue, 2, 0b1);

    let results = scan_results(&queue);
    assert_eq!(results.len(), 2, "one result per found cell");
    assert_eq!(results[0].carrier_hz, SCAN_F0);
    assert_eq!(results[0].mcc, 901);
    assert_eq!(results[0].mnc, 9999);
    assert_eq!(results[0].location_area, Some(1));
    assert_eq!(results[0].registration_required, Some(true));
    assert_eq!(results[1].carrier_hz, SCAN_F1);
    assert_eq!(results[1].mcc, 238);
    assert_eq!(results[1].location_area, Some(2));

    let (found, scanned) = scan_complete(&queue).expect("survey completion emitted");
    assert_eq!(found, 2);
    assert_eq!(scanned, 2);
    assert!(!mle.survey, "survey finished after the last candidate");
    assert!(mle.serving_cell.is_none(), "never camped during survey");
    assert!(!mle.activate_confirmed, "never confirmed/registered during survey");
    assert_eq!(count(&queue, is_activate), 0, "survey emits no LMM-ACTIVATE (no registration)");
}

#[test]
fn test_survey_empty_carrier_advances_on_dwell() {
    let mut mle = ms_mle_scan();
    let mut queue = MessageQueue::new();

    mle.rx_lmm_prim(&mut queue, scan_req(true));
    queue = MessageQueue::new();

    dwell(&mut mle, &mut queue);
    assert!(scan_results(&queue).is_empty(), "empty carrier yields no result");
    assert_eq!(tuned_carrier(&queue), Some(SCAN_F1), "advanced past the empty carrier");

    queue = MessageQueue::new();
    dwell(&mut mle, &mut queue);
    let (found, scanned) = scan_complete(&queue).expect("survey completion emitted");
    assert_eq!(found, 0);
    assert_eq!(scanned, 2);
    assert!(!mle.survey, "survey finished");
}

#[test]
fn test_survey_reports_sync_only_cell_after_bound() {
    let mut mle = ms_mle_scan();
    let mut queue = MessageQueue::new();

    mle.rx_lmm_prim(&mut queue, scan_req(true));
    queue = MessageQueue::new();

    for _ in 0..SURVEY_SYSINFO_SYNC_LIMIT + 1 {
        sync(&mut mle, &mut queue, 901, 9999);
    }

    let results = scan_results(&queue);
    assert_eq!(results.len(), 1, "SYNC-only cell reported once");
    assert_eq!(results[0].mcc, 901);
    assert_eq!(results[0].location_area, None, "LA unknown without SYSINFO");
    assert_eq!(results[0].registration_required, None, "reg flag unknown without SYSINFO");
    assert_eq!(tuned_carrier(&queue), Some(SCAN_F1), "advanced after the bound");
}

#[test]
fn test_survey_reports_disallowed_network_cell() {
    let mut mle = ms_mle_scan();
    let mut queue = MessageQueue::new();

    mle.rx_lmm_prim(&mut queue, scan_req(true));
    queue = MessageQueue::new();

    sync(&mut mle, &mut queue, 238, 6);
    sysinfo(&mut mle, &mut queue, 7, 0b1);

    let results = scan_results(&queue);
    assert_eq!(results.len(), 1, "disallowed cell still reported by the survey");
    assert_eq!(results[0].mcc, 238);
    assert_eq!(results[0].mnc, 6);
    assert!(mle.serving_cell.is_none(), "survey never adopts the foreign cell");
}

#[test]
fn test_survey_cancel_reports_completion() {
    let mut mle = ms_mle_scan();
    let mut queue = MessageQueue::new();

    mle.rx_lmm_prim(&mut queue, scan_req(true));
    queue = MessageQueue::new();

    mle.rx_lmm_prim(&mut queue, scan_req(false));

    assert!(!mle.survey, "survey cancelled");
    assert!(scan_complete(&queue).is_some(), "cancellation reports a completion");
}

#[test]
fn test_manual_mode_suppresses_auto_camp() {
    let mut mle = ms_mle_scan();
    let mut queue = MessageQueue::new();

    mle.rx_lmm_prim(&mut queue, selection_mode_req(true));
    assert!(mle.selection_mode_manual, "manual mode set");
    queue = MessageQueue::new();

    sync(&mut mle, &mut queue, 901, 9999);
    assert!(mle.serving_cell.is_none(), "manual mode does not auto-camp");
    assert!(!mle.activate_confirmed, "no registration in manual mode without a camp");
}

#[test]
fn test_camp_request_adopts_and_confirms() {
    let mut mle = ms_mle_scan();
    let mut queue = MessageQueue::new();

    mle.rx_lmm_prim(&mut queue, selection_mode_req(true));
    queue = MessageQueue::new();

    mle.rx_lmm_prim(&mut queue, camp_req(SCAN_F1, true));
    assert!(mle.camp_armed, "camp armed");
    assert!(mle.camp_force_register, "force-register recorded");
    assert_eq!(tuned_carrier(&queue), Some(SCAN_F1), "tuned to the chosen carrier");
    queue = MessageQueue::new();

    sync(&mut mle, &mut queue, 901, 9999);
    assert!(mle.serving_cell.is_some(), "camped cell adopted");
    sysinfo(&mut mle, &mut queue, 1, 0b1);

    assert!(mle.activate_confirmed, "cell confirmed to MM");
    assert!(!mle.camp_armed, "camp disarmed after honouring it");
    assert_eq!(count(&queue, is_activate), 1, "LMM-ACTIVATE confirmation sent to MM");
}

#[test]
fn test_camp_request_rejects_unknown_carrier() {
    let mut mle = ms_mle_scan();
    let mut queue = MessageQueue::new();

    mle.rx_lmm_prim(&mut queue, camp_req(123_000_000, true));

    assert!(!mle.camp_armed, "camp not armed for an unknown carrier");
    assert_eq!(tuned_carrier(&queue), None, "no retune for an unknown carrier");
}

// ---------------------------------------------------------------------------

#[test]
fn a_listed_network_is_allowed_too() {
    let mut cfg = config(vec![]);
    cfg.allowed_networks = vec![(238, 6), (1, 1)];
    let mut mle = MleMs::new(cfg);
    assert!(mle.network_allowed(901, 9999));
    assert!(mle.network_allowed(1, 1));
    assert!(!mle.network_allowed(1, 2));
    let mut queue = MessageQueue::new();
    sync(&mut mle, &mut queue, 238, 6);
    assert_eq!(mle.serving_cell.unwrap().mcc, 238);
}

#[test]
fn every_class_has_its_bit() {
    for class in 1..=16u16 {
        let mut cfg = config(vec![]);
        cfg.ms.as_mut().unwrap().subscriber_class = class;
        let mle = MleMs::new(cfg);
        assert!(mle.subscriber_class_permitted(1 << (class - 1)));
        assert!(!mle.subscriber_class_permitted(!(1 << (class - 1))));
    }
    for class in [0, 17] {
        let mut cfg = config(vec![]);
        cfg.ms.as_mut().unwrap().subscriber_class = class;
        assert!(MleMs::new(cfg).subscriber_class_permitted(0));
    }
    let mut cfg = config(vec![]);
    cfg.ms = None;
    assert!(MleMs::new(cfg).subscriber_class_permitted(0));
}

#[test]
fn a_cell_is_confirmed_once() {
    let mut mle = ms_mle();
    let mut queue = MessageQueue::new();
    sync(&mut mle, &mut queue, 901, 9999);
    sysinfo(&mut mle, &mut queue, 1, 0b1);
    sync(&mut mle, &mut queue, 901, 9999);
    sysinfo(&mut mle, &mut queue, 1, 0b1);
    assert_eq!(count(&queue, is_activate), 1);
    assert_eq!(mle.serving_cell.unwrap().location_area, Some(1));
    let conf = queue
        .entries
        .iter()
        .find_map(|e| match &e.msg.msg {
            SapMsgInner::LmmMleActivateConf(c) => Some(*c),
            _ => None,
        })
        .unwrap();
    assert_eq!((conf.mcc, conf.mnc, conf.la, conf.registration_required), (901, 9999, 1, true));
}

#[test]
fn a_level_is_reported_when_it_changes() {
    let mut mle = ms_mle();
    let mut queue = MessageQueue::new();
    for rssi_mdbfs in [Some(-6_000), Some(-6_000), None] {
        let msg =
            from_phy(SapMsgInner::TlmbMonitorInd { downlink_available: true, rssi_mdbfs });
        mle.rx_tlmb_prim(&mut queue, msg, MleBroadcast::Undecodable);
    }
    assert_eq!(count(&queue, |m| matches!(m, SapMsgInner::LmmMleRssiInd { .. })), 1);
    assert_eq!(mle.serving_cell_rssi_mdbfs, Some(-6_000));
}

#[test]
fn manual_mode_does_not_scan() {
    let mut mle = ms_mle_scan();
    let mut queue = MessageQueue::new();
    mle.rx_lmm_mle_selection_mode_req(true);
    dwell(&mut mle, &mut queue);
    assert!(!mle.scanning);
    assert_eq!(tuned_carrier(&queue), None);
}

#[test]
fn a_survey_without_candidates_is_complete() {
    let mut mle = ms_mle();
    camp(&mut mle);
    let mut queue = MessageQueue::new();
    mle.rx_lmm_mle_scan_req(&mut queue, true);
    assert!(!mle.survey);
    assert!(mle.serving_cell.is_some() && mle.activate_confirmed, "the camp goes on");
    assert_eq!(scan_complete(&queue), Some((0, 0)));
    // Stopping without a survey is silent.
    let mut queue = MessageQueue::new();
    mle.cancel_survey(&mut queue);
    assert_eq!(queue.len(), 0);
}

#[test]
fn a_pending_cell_is_reported_when_the_dwell_ends() {
    let mut mle = ms_mle_scan();
    let mut queue = MessageQueue::new();
    mle.rx_lmm_mle_scan_req(&mut queue, true);
    sync(&mut mle, &mut queue, 901, 9999);
    dwell(&mut mle, &mut queue);
    let results = scan_results(&queue);
    assert_eq!(results.len(), 1);
    assert_eq!(results[0].location_area, None);
    mle.rx_lmm_mle_scan_req(&mut queue, false);
    assert_eq!(scan_complete(&queue), Some((1, 1)));
}

#[test]
fn an_undecodable_broadcast_is_ignored() {
    let mut mle = ms_mle();
    let mut queue = MessageQueue::new();
    let msg = from_phy(SapMsgInner::TlmbSyncInd { endpoint_id: 0, tl_sdu: BitBuffer::new() });
    mle.rx_prim(&mut queue, msg, MleBroadcast::Undecodable);
    assert!(mle.serving_cell.is_none());
    assert_eq!(queue.len(), 0);
}

fn tl_sdu(s: &str) -> BitBuffer {
    BitBuffer::from_bits(s.chars().map(|c| c == '1').collect())
}

fn data_ind(s: &str) -> TlaTlDataIndBl<BitBuffer> {
    TlaTlDataIndBl {
        main_address: TetraAddress::issi(1000001),
        link_id: 4,
        endpoint_id: 2,
        tl_sdu: Some(tl_sdu(s)),
    }
}

#[test]
fn pdus_reach_the_entity_that_they_name() {
    let mle = ms_mle();
    let mut queue = MessageQueue::new();
    mle.rx_tla_data_ind_bl(&mut queue, data_ind("0011101"));
    mle.rx_tla_unitdata_ind_bl(&mut queue, data_ind("0100110"));
    mle.rx_tla_data_ind_bl(&mut queue, data_ind("1001111"));
    assert_eq!(queue.len(), 3);
    let m = queue.pop_front().unwrap();
    assert_eq!(m.dest, TetraEntity::Mm);
    let SapMsgInner::LmmMleUnitdataInd { sdu, .. } = m.msg else { panic!("MM") };
    assert_eq!(sdu.bits, tl_sdu("1101").bits);
    let m = queue.pop_front().unwrap();
    assert_eq!(m.dest, TetraEntity::Cmce);
    let SapMsgInner::LcmcMleUnitdataInd(ind) = m.msg else { panic!("CMCE") };
    assert_eq!(ind.sdu.bits, tl_sdu("0110").bits);
    assert_eq!((ind.link_id, ind.endpoint_id), (4, 2));
    // Packet data is handed over on the same access point.
    let m = queue.pop_front().unwrap();
    assert_eq!((m.sap, m.dest), (Sap::LcmcSap, TetraEntity::Cmce));
    let SapMsgInner::LtpdMleUnitdataInd(ind) = m.msg else { panic!("packet data") };
    assert_eq!(ind.sdu.bits, tl_sdu("1111").bits);
    // No discriminator, an unknown one, the MLE's own, and the management's.
    for s in ["00", "0001", "1110", "101000", "110000"] {
        mle.rx_tla_data_ind_bl(&mut queue, data_ind(s));
        assert_eq!(queue.len(), 0, "{}", s);
    }
}

#[test]
fn requests_go_down_behind_their_discriminator() {
    let mut mle = ms_mle();
    let mut queue = MessageQueue::new();
    mle.rx_lmm_prim(
        &mut queue,
        from_mm(SapMsgInner::LmmMleUnitdataReq(LmmMleUnitdataReq {
            sdu: tl_sdu("1101"),
            handle: 0,
            address: TetraAddress::issi(1000001),
            layer2service: Layer2Service::Acknowledged,
            pdu_priority: Some(3),
            is_emergency: false,
            tx_reporter: Some(TxReporter { id: 8 }),
            stealing_permission: false,
            stealing_repeats_flag: false,
            encryption_flag: false,
            is_null_pdu: false,
        })),
    );
    let SapMsgInner::TlaTlDataReqBl(req) = queue.pop_front().unwrap().msg else { panic!() };
    assert_eq!(req.tl_sdu.bits, tl_sdu("0011101").bits);
    assert_eq!(req.pdu_priority, Some(3));
    assert_eq!(req.tx_reporter, Some(TxReporter { id: 8 }));

    mle.rx_lcmc_prim(
        &mut queue,
        SapMsg {
            sap: Sap::LcmcSap,
            src: TetraEntity::Cmce,
            dest: TetraEntity::Mle,
            msg: SapMsgInner::LcmcMleUnitdataReq(LcmcMleUnitdataReq {
                sdu: tl_sdu("0110"),
                handle: 0,
                main_address: TetraAddress::issi(1000001),
                link_id: 3,
                endpoint_id: 1,
                stealing_permission: true,
                chan_alloc: None,
                tx_reporter: None,
            }),
        },
    );
    let SapMsgInner::TlaTlDataReqBl(req) = queue.pop_front().unwrap().msg else { panic!() };
    assert_eq!(req.tl_sdu.bits, tl_sdu("0100110").bits);
    assert!(req.stealing_permission);
    assert_eq!((req.link_id, req.endpoint_id, req.pdu_priority), (3, 1, None));
}

#[test]
fn the_u_plane_configuration_is_passed_down() {
    let mut mle = ms_mle();
    let mut queue = MessageQueue::new();
    mle.rx_prim(
        &mut queue,
        SapMsg {
            sap: Sap::LcmcSap,
            src: TetraEntity::Cmce,
            dest: TetraEntity::Mle,
            msg: SapMsgInner::LcmcMleConfigureReq { switch_u_plane: true, tx_grant: false },
        },
        MleBroadcast::Undecodable,
    );
    let m = queue.pop_front().unwrap();
    assert_eq!(m.dest, TetraEntity::Umac);
    assert!(matches!(
        m.msg,
        SapMsgInner::TlmcUPlaneConfigureReq { switch_u_plane: true, tx_grant: false }
    ));
}

#[test]
fn discriminators_round_trip() {
    let all = [
        (MleProtocolDiscriminator::Mm, 1),
        (MleProtocolDiscriminator::Cmce, 2),
        (MleProtocolDiscriminator::Sndcp, 4),
        (MleProtocolDiscriminator::Mle, 5),
        (MleProtocolDiscriminator::TetraManagementEntity, 6),
    ];
    for (d, v) in all {
        assert_eq!(d.into_raw(), v);
        assert_eq!(MleProtocolDiscriminator::from_raw(v), Some(d));
        let (e, rest) = split_discriminator(&with_discriminator(d, &tl_sdu("10"))).unwrap();
        assert_eq!(e, d);
        assert_eq!(rest.bits, tl_sdu("10").bits);
    }
    assert_eq!(MleProtocolDiscriminator::from_raw(0), None);
    assert_eq!(MleProtocolDiscriminator::from_raw(3), None);
    assert!(split_discriminator(&tl_sdu("111")).is_none());
    assert_eq!(mle_pdu_type(&tl_sdu("010")), Some(MlePduTypeDl::DNwrkBroadcast));
    assert_eq!(mle_pdu_type(&tl_sdu("111")), Some(MlePduTypeDl::ExtPdu));
    assert_eq!(mle_pdu_type(&tl_sdu("01")), None);
}

#[test]
fn there_is_no_level_while_out_of_service() {
    let mut mle = ms_mle();
    camp(&mut mle);
    let mut queue = MessageQueue::new();
    let monitor = |downlink_available, rssi_mdbfs| {
        from_phy(SapMsgInner::TlmbMonitorInd { downlink_available, rssi_mdbfs })
    };
    mle.rx_tlmb_prim(&mut queue, monitor(false, Some(-90_000)), MleBroadcast::Undecodable);
    assert_eq!(mle.serving_cell_rssi_mdbfs, None);
    let sent = queue.entries.len();
    mle.rx_tlmb_prim(&mut queue, monitor(false, Some(-80_000)), MleBroadcast::Undecodable);
    assert_eq!(mle.serving_cell_rssi_mdbfs, None);
    assert_eq!(queue.entries.len(), sent);
    mle.rx_tlmb_prim(&mut queue, monitor(true, Some(-70_000)), MleBroadcast::Undecodable);
    assert_eq!(mle.serving_cell_rssi_mdbfs, Some(-70_000));
    assert!(!mle.out_of_service);
}

#[test]
fn without_candidates_every_camp_request_is_rejected() {
    let mut mle = ms_mle();
    camp(&mut mle);
    let mut queue = MessageQueue::new();
    mle.rx_lmm_mle_camp_req(&mut queue, SCAN_F0, true);
    assert!(!mle.camp_armed && !mle.camp_force_register);
    assert!(mle.serving_cell.is_some());
    assert_eq!(queue.entries.len(), 0);
}
