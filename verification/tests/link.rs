//! Handle routing, the network time and the mobile link entity of a base station.

use tetra_entities::bits::BitBuffer;
use tetra_entities::config::StackConfig;
use tetra_entities::mle::components::mle_router::{MleConnState, MleRouter};
use tetra_entities::mle::mle_bs_ms::{Mle, StampedQueue};
use tetra_entities::mle::network_time::{encode_tetra_network_time, LocalTime};
use tetra_entities::sap::{
    Layer2Service, LcmcMleUnitdataReq, LmmMleUnitdataReq, Msg, MsgInner, Sap, SapMsg, SapMsgInner,
    SsiType, StackMode, TetraAddress, TetraEntity, TlaTlDataIndBl,
};
use tetra_entities::tdma::TdmaTime;

fn encoded(unix_seconds: i64, offset_seconds: i32) -> u64 {
    encode_tetra_network_time(LocalTime { unix_seconds, offset_seconds })
}

#[test]
fn network_time_of_known_instants() {
    // 2024-02-29 12:34:56 UTC, an hour ahead.
    assert_eq!(encoded(1_709_210_096, 3600), 0x273c_b808_c7ff);
    // The last second of 2023 UTC is in 2024 an hour ahead.
    assert_eq!(encoded(1_704_067_199, 3600), 0xf099_bf08_c7ff);
    // The last second of a leap year.
    assert_eq!(encoded(1_735_689_599, 0), 0xf142_7f00_c7ff);
    // 2062-06-01 01:02:03 UTC, nine and a half hours behind.
    assert_eq!(encoded(2_916_349_323, -34_200), 0x6390_85cd_f7ff);
}

#[test]
fn network_time_out_of_range() {
    // 2000-01-01 00:00:00 UTC lies in 1999 an hour behind.
    assert_eq!(encoded(946_684_800, -3600), 0x89_ffff);
    // 2063.
    assert_eq!(encoded(2_947_881_600, 20_700), 0x6389_402f_ffff);
    // Before 1970.
    assert_eq!(encoded(-2, 0), 0xf099_bf01_ffff);
}

#[test]
fn network_time_offsets() {
    // 14 hours are the most; a quarter more, or a minute, is no valid offset.
    assert_eq!(encoded(1_767_225_601, 50_400), 0x70_d7ff);
    assert_eq!(encoded(1_767_225_601, 51_300), 0x7e_d7ff);
    assert_eq!(encoded(1_767_225_601, 60), 0x7e_d7ff);
}

#[test]
fn utc_time_does_not_depend_on_local_time() {
    for offset in [-43_200, -3600, 0, 900, 43_200] {
        assert_eq!(encoded(1_709_210_096, offset) >> 24, 0x27_3cb8);
    }
    assert!(encoded(1_709_210_098, 0) >> 24 > encoded(1_709_210_096, 0) >> 24);
}

fn now() -> TdmaTime {
    TdmaTime::default()
}

#[test]
fn handles_are_counted_from_one() {
    let mut r = MleRouter::new();
    let a = TetraAddress::issi(5);
    assert_eq!(r.create_handle(a, 1, 2, now()), 1);
    assert_eq!(r.create_handle(a, 1, 2, now()), 2);
    // Nothing is recorded behind them.
    assert_eq!(r.use_handle(1, now()), (TetraAddress::issi(0), 0, 0));
    assert_eq!(r.delete_handle(1), None);
}

#[test]
fn a_known_handle_leads_to_its_link() {
    let mut r = MleRouter::new();
    let state = MleConnState {
        handle: 7,
        addr: TetraAddress::issi(5),
        link_id: 1,
        endpoint_id: 2,
        ts_created: now(),
        ts_last_used: now(),
    };
    r.states.insert(7, state);
    let later = now().add_timeslots(40);
    assert_eq!(r.use_handle(7, later), (TetraAddress::issi(5), 1, 2));
    assert_eq!(r.states[&7].ts_last_used, later);
    assert_eq!(r.states[&7].ts_created, now());
    assert_eq!(r.delete_handle(7).map(|s| s.addr.ssi), Some(5));
    assert_eq!(r.use_handle(7, later), (TetraAddress::issi(0), 0, 0));
    assert_eq!(r.create_handle(TetraAddress::issi(5), 1, 2, now()), 1);
}

fn mle(stack_mode: StackMode) -> Mle {
    Mle::new(StackConfig {
        stack_mode,
        mcc: 901,
        mnc: 9999,
        allowed_networks: vec![],
        scan_candidates: vec![],
        ms: None,
    })
}

fn bits(s: &str) -> BitBuffer {
    BitBuffer::from_bits(s.chars().map(|c| c == '1').collect())
}

fn to_mle(sap: Sap, src: TetraEntity, msg: MsgInner) -> Msg {
    SapMsg { sap, src, dest: TetraEntity::Mle, msg }
}

fn data_ind(s: &str) -> Msg {
    to_mle(
        Sap::TlaSap,
        TetraEntity::Llc,
        SapMsgInner::TlaTlDataIndBl(TlaTlDataIndBl {
            main_address: TetraAddress::issi(77),
            link_id: 4,
            endpoint_id: 2,
            tl_sdu: Some(bits(s)),
        }),
    )
}

#[test]
fn indications_get_a_handle_each() {
    let mut m = mle(StackMode::Bs);
    let mut q = StampedQueue::new();
    let ts = now().add_timeslots(9);
    m.rx_prim(&mut q, ts, data_ind("0011101"));
    m.rx_prim(&mut q, ts, data_ind("0100110"));
    m.rx_prim(&mut q, ts, data_ind("1001"));
    m.rx_prim(&mut q, ts, data_ind("101000"));
    assert_eq!(q.entries.len(), 3);
    assert!(q.entries.iter().all(|e| e.dltime == ts));
    let SapMsgInner::LmmMleUnitdataInd { handle, sdu, .. } = &q.entries[0].msg.msg else {
        panic!("MM")
    };
    assert_eq!((*handle, &sdu.bits), (1, &bits("1101").bits));
    let SapMsgInner::LcmcMleUnitdataInd(ind) = &q.entries[1].msg.msg else { panic!("CMCE") };
    assert_eq!((ind.handle, ind.link_id), (2, 4));
    assert!(matches!(q.entries[2].msg.msg, SapMsgInner::LtpdMleUnitdataInd(_)));
    assert_eq!(m.router.next_handle, 3);
}

#[test]
fn requests_go_out_on_the_link_of_their_handle() {
    let mut m = mle(StackMode::Bs);
    let mut q = StampedQueue::new();
    m.router.states.insert(
        5,
        MleConnState {
            handle: 5,
            addr: TetraAddress::issi(77),
            link_id: 4,
            endpoint_id: 2,
            ts_created: now(),
            ts_last_used: now(),
        },
    );
    m.rx_prim(
        &mut q,
        now(),
        to_mle(
            Sap::LmmSap,
            TetraEntity::Mm,
            SapMsgInner::LmmMleUnitdataReq(LmmMleUnitdataReq {
                sdu: bits("1101"),
                handle: 5,
                address: TetraAddress::issi(77),
                layer2service: Layer2Service::Acknowledged,
                pdu_priority: Some(1),
                is_emergency: false,
                tx_reporter: None,
                stealing_permission: false,
                stealing_repeats_flag: false,
                encryption_flag: false,
                is_null_pdu: false,
            }),
        ),
    );
    m.rx_prim(
        &mut q,
        now(),
        to_mle(
            Sap::LcmcSap,
            TetraEntity::Cmce,
            SapMsgInner::LcmcMleUnitdataReq(LcmcMleUnitdataReq {
                sdu: bits("0110"),
                handle: 5,
                main_address: TetraAddress::issi(77),
                link_id: 4,
                endpoint_id: 2,
                stealing_permission: true,
                chan_alloc: Some(9),
                tx_reporter: None,
            }),
        ),
    );
    let SapMsgInner::TlaTlDataReqBl(req) = &q.entries[0].msg.msg else { panic!() };
    assert_eq!((req.link_id, req.endpoint_id), (4, 2));
    assert_eq!(req.tl_sdu.bits, bits("0011101").bits);
    let SapMsgInner::TlaTlDataReqBl(req) = &q.entries[1].msg.msg else { panic!() };
    assert_eq!(req.tl_sdu.bits, bits("0100110").bits);
    assert_eq!((req.stealing_permission, req.chan_alloc), (true, Some(9)));
}

#[test]
fn broadcasts_change_nothing_at_a_base_station() {
    let mut m = mle(StackMode::Bs);
    let mut q = StampedQueue::new();
    let sdu = || bits("1");
    m.rx_prim(
        &mut q,
        now(),
        to_mle(
            Sap::TlmbSap,
            TetraEntity::Umac,
            SapMsgInner::TlmbSyncInd { endpoint_id: 0, tl_sdu: sdu() },
        ),
    );
    m.rx_prim(
        &mut q,
        now(),
        to_mle(
            Sap::TlmbSap,
            TetraEntity::Umac,
            SapMsgInner::TlmbSysinfoInd { endpoint_id: 0, tl_sdu: sdu(), mac_broadcast_info: None },
        ),
    );
    assert!(q.entries.is_empty());
}

#[test]
fn the_network_time_is_broadcast_once_per_multiframe() {
    let m = mle(StackMode::Bs);
    let t = LocalTime { unix_seconds: 1_709_210_096, offset_seconds: 3600 };
    let mut due = 0;
    for n in 0..72 {
        if let Some(pdu) = m.tick_start(now().add_timeslots(n), 0b110, t) {
            due += 1;
            assert_eq!(n, 0);
            assert_eq!(pdu.tetra_network_time, Some(0x273c_b808_c7ff));
            assert_eq!(pdu.cell_load_ca, 0b10);
            assert_eq!(pdu.number_of_ca_neighbour_cells, Some(0));
            assert_eq!(pdu.neighbour_cell_information_for_ca, None);
        }
    }
    assert_eq!(due, 1);
    assert!(mle(StackMode::Ms).tick_start(now(), 0, t).is_none());
}

#[test]
fn the_broadcast_reaches_everyone() {
    let m = mle(StackMode::Bs);
    let mut q = StampedQueue::new();
    m.send_network_time_broadcast(&mut q, now(), None);
    m.send_network_time_broadcast(&mut q, now().add_timeslots(1), Some(bits("010")));
    mle(StackMode::Ms).send_network_time_broadcast(&mut q, now(), Some(bits("010")));
    assert!(q.entries.is_empty());
    m.send_network_time_broadcast(&mut q, now(), Some(bits("010")));
    let SapMsgInner::TlaTlUnitdataReqBl(req) = &q.entries[0].msg.msg else { panic!() };
    assert_eq!(
        req.main_address,
        TetraAddress { ssi: 0xff_ffff, ssi_type: SsiType::Gssi, encrypted: false }
    );
    assert_eq!(req.tl_sdu.bits, bits("101010").bits);
}
