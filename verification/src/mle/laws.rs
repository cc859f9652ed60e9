//! What holds of cell selection and routing as a whole.

use vstd::prelude::*;

use crate::mle::mle_ms::{
    cmce_request, mm_request, routed, rssi_ind, to_cmce, to_mm, tune, MleBroadcast, MleView,
    SURVEY_SYSINFO_SYNC_LIMIT,
};
use crate::mle::pdu::{
    discriminator_bits, law_discriminator_round_trip, DMleSync, DMleSysinfo,
    MleProtocolDiscriminator,
};
use crate::sap::{
    normal, LcmcMleUnitdataReq, LmmMleUnitdataReq, MessagePrio, MleUnitdataInd, MsgView,
    SapMsgInner, TetraAddress, TlaTlDataIndBl,
};
use crate::umac::uplink::{nothing, Emitted};

verus! {

// ---------------------------------------------------------------------------
// Invariants
// ---------------------------------------------------------------------------

/// Whatever the station camps on is an allowed network, and is confirmed only
/// while it camps on it.
pub open spec fn camps_lawfully(v: MleView) -> bool {
    &&& v.serving_cell matches Some(c) ==> v.config.allows_network(c.mcc, c.mnc)
    &&& v.activate_confirmed ==> v.serving_cell is Some
    &&& v.survey ==> v.serving_cell is None
}

/// What every step of cell selection keeps.
pub open spec fn keeps(v: MleView, w: MleView) -> bool {
    &&& v.wf() ==> w.wf()
    &&& camps_lawfully(v) ==> camps_lawfully(w)
    &&& w.config == v.config
}

proof fn lemma_scan_keeps(v: MleView)
    requires
        v.wf(),
    ensures
        keeps(v, v.after_start_scan().0),
        keeps(v, v.after_advance_scan().0),
{
}

proof fn lemma_survey_keeps(v: MleView)
    requires
        v.wf(),
    ensures
        keeps(v, v.after_start_survey().0),
        keeps(v, v.after_cancel_survey().0),
        v.survey ==> keeps(v, v.after_survey_finalize().0),
        v.survey ==> keeps(v, v.after_survey_dwell().0),
{
}

proof fn lemma_sync_keeps(v: MleView, pdu: DMleSync)
    requires
        v.wf(),
    ensures
        keeps(v, v.after_sync(pdu).0),
{
    lemma_scan_keeps(v);
    if v.survey {
        let n = if v.survey_sync_repeats < u8::MAX {
            (v.survey_sync_repeats + 1) as u8
        } else {
            u8::MAX
        };
        lemma_survey_keeps(MleView { survey_sync_repeats: n, ..v });
    }
}

proof fn lemma_sysinfo_keeps(v: MleView, pdu: DMleSysinfo)
    requires
        v.wf(),
    ensures
        keeps(v, v.after_sysinfo(pdu).0),
{
    if v.survey {
        if let Some(cell) = v.survey_pending {
            lemma_survey_keeps(
                MleView {
                    survey_pending: Some(
                        crate::mle::mle_ms::FoundCell {
                            location_area: Some(pdu.location_area),
                            registration_required: Some(pdu.registration),
                            ..cell
                        },
                    ),
                    ..v
                },
            );
        }
    }
}

proof fn lemma_dwell_keeps(v: MleView)
    requires
        v.wf(),
    ensures
        keeps(v, v.after_dwell().0),
{
    lemma_scan_keeps(v);
    lemma_survey_keeps(v);
}

/// No primitive makes the station camp on a network that is not allowed, none
/// moves the positions of scan and survey out of their lists, and none changes
/// the configuration.
pub proof fn law_camps_on_allowed_networks_only(v: MleView, m: MsgView, pdu: MleBroadcast)
    requires
        v.wf(),
        camps_lawfully(v),
        v.takes(m, pdu),
    ensures
        camps_lawfully(v.after_prim(m, pdu).0),
        v.after_prim(m, pdu).0.wf(),
        v.after_prim(m, pdu).0.config == v.config,
{
    match m.msg {
        SapMsgInner::TlmbSyncInd { .. } => {
            if let MleBroadcast::Sync(p) = pdu {
                lemma_sync_keeps(v, p);
            }
        },
        SapMsgInner::TlmbSysinfoInd { .. } => {
            if let MleBroadcast::Sysinfo(p) = pdu {
                lemma_sysinfo_keeps(v, p);
            }
        },
        SapMsgInner::TlmbScanDwellInd { .. } => {
            lemma_dwell_keeps(v);
        },
        SapMsgInner::LmmMleScanReq { .. } => {
            lemma_survey_keeps(v);
        },
        _ => {},
    }
}

// ---------------------------------------------------------------------------
// Surveys
// ---------------------------------------------------------------------------

/// Whether a message is one that a survey may emit: a retune, a found cell, or
/// its completion.
pub open spec fn is_survey_report(e: (MessagePrio, MsgView)) -> bool {
    e.1.msg is TlmcTuneReq || e.1.msg is LmmMleScanResultInd || e.1.msg is LmmMleScanCompleteInd
}

/// A survey only receives: while it runs, no broadcast and no elapsed dwell makes
/// the station adopt or confirm a cell, and all that is emitted are retunes and
/// reports.
pub proof fn law_survey_only_receives(v: MleView, sync: DMleSync, sysinfo: DMleSysinfo)
    requires
        v.wf(),
        v.survey,
        v.serving_cell is None,
        !v.activate_confirmed,
    ensures
        forall|r: (MleView, Emitted)|
            (r == v.after_sync(sync) || r == v.after_sysinfo(sysinfo) || r == v.after_dwell()) ==> {
                &&& (#[trigger] r.0).serving_cell is None
                &&& !r.0.activate_confirmed
                &&& !r.0.scanning || v.scanning
                &&& forall|i: int| 0 <= i < r.1.len() ==> is_survey_report(#[trigger] r.1[i])
            },
{
}

/// `n` dwells elapse without a cell being seen.
pub open spec fn dwells(v: MleView, n: nat) -> MleView
    decreases n,
{
    if n == 0 {
        v
    } else {
        dwells(v, (n - 1) as nat).after_dwell().0
    }
}

/// A survey visits each candidate once, in order: after `n` silent dwells it
/// stands on candidate `n`, and after as many as there are candidates it has
/// ended.
pub proof fn law_survey_visits_each_candidate_once(v: MleView, n: nat)
    requires
        v.wf(),
        v.config.scan_candidates@.len() > 0,
        n <= v.config.scan_candidates@.len(),
    ensures
        ({
            let cands = v.config.scan_candidates@;
            let w = dwells(v.after_start_survey().0, n);
            &&& w.survey_index == n
            &&& w.survey_candidates == cands
            &&& w.survey == (n < cands.len())
            &&& w.survey_found == 0
            &&& w.survey_pending is None
            &&& w.wf()
        }),
    decreases n,
{
    if n > 0 {
        law_survey_visits_each_candidate_once(v, (n - 1) as nat);
    }
}

/// Without candidates a survey is an empty completion: scan and camp go on, and
/// the receiver is not retuned.
pub proof fn law_survey_without_candidates(v: MleView)
    requires
        v.config.scan_candidates@.len() == 0,
    ensures
        ({
            let (w, out) = v.after_start_survey();
            &&& !w.survey
            &&& w.serving_cell == v.serving_cell
            &&& w.activate_confirmed == v.activate_confirmed
            &&& w.scanning == v.scanning
            &&& out == seq![
                normal(to_mm(SapMsgInner::LmmMleScanCompleteInd { found: 0, scanned: 0 })),
            ]
        }),
{
}

/// What a survey finds on one carrier: a cell that is seen by its SYNC and then
/// its SYSINFO is reported with both, on the carrier it was found on, whatever
/// its network; then the survey moves on.
pub proof fn law_survey_reports_what_it_sees(v: MleView, sync: DMleSync, sysinfo: DMleSysinfo)
    requires
        v.wf(),
        v.survey,
        v.survey_pending is None,
    ensures
        ({
            let w = v.after_sync(sync).0;
            let (x, out) = w.after_sysinfo(sysinfo);
            &&& v.after_sync(sync).1 == nothing()
            &&& x.survey_index == v.survey_index + 1
            &&& x.survey_found == v.survey_found + 1
            &&& out.len() == 2
            &&& out[0].1.msg matches SapMsgInner::LmmMleScanResultInd(r) && {
                &&& r.carrier_hz == v.survey_candidates[v.survey_index as int]
                &&& r.mcc == sync.mcc && r.mnc == sync.mnc
                &&& r.location_area == Some(sysinfo.location_area)
                &&& r.registration_required == Some(sysinfo.registration)
                &&& r.late_entry_supported == sync.late_entry_supported
                &&& r.rssi_mdbfs == v.serving_cell_rssi_mdbfs
            }
        }),
{
}

/// `n` SYNCs of one cell are seen.
pub open spec fn syncs(v: MleView, pdu: DMleSync, n: nat) -> MleView
    decreases n,
{
    if n == 0 {
        v
    } else {
        syncs(v, pdu, (n - 1) as nat).after_sync(pdu).0
    }
}

/// A survey waits for a SYSINFO for a bounded number of SYNCs: at one more SYNC
/// than the limit, the cell is reported without it and the survey moves on, and
/// not before.
pub proof fn law_survey_waits_boundedly(v: MleView, pdu: DMleSync, n: nat)
    requires
        v.wf(),
        v.survey,
        v.survey_pending is None,
        1 <= n <= SURVEY_SYSINFO_SYNC_LIMIT + 1,
    ensures
        n <= SURVEY_SYSINFO_SYNC_LIMIT ==> {
            let w = syncs(v, pdu, n);
            &&& w.survey
            &&& w.survey_index == v.survey_index
            &&& w.survey_candidates == v.survey_candidates
            &&& w.survey_found == v.survey_found
            &&& w.survey_sync_repeats == n - 1
            &&& w.survey_pending matches Some(c) && c.mcc == pdu.mcc && c.mnc == pdu.mnc
                && c.location_area is None && c.registration_required is None
        },
        n == SURVEY_SYSINFO_SYNC_LIMIT + 1 ==> {
            let w = syncs(v, pdu, n);
            &&& w.survey_index == v.survey_index + 1
            &&& w.survey_found == v.survey_found + 1
            &&& w.survey_pending is None
        },
    decreases n,
{
    reveal_with_fuel(syncs, 2);
    if n > 1 {
        law_survey_waits_boundedly(v, pdu, (n - 1) as nat);
    }
}

/// A completion never counts more found cells than visited carriers, nor more
/// carriers than there are candidates.
pub proof fn law_completion_counts(v: MleView)
    requires
        v.wf(),
        v.survey,
    ensures
        v.after_cancel_survey().0.survey == false,
        v.after_cancel_survey().1 == v.survey_complete(v.survey_index as u32),
        v.survey_found <= v.survey_index < v.survey_candidates.len(),
        !v.after_survey_finalize().0.survey ==> v.after_survey_finalize().0.survey_found
            <= v.survey_candidates.len(),
{
}

// ---------------------------------------------------------------------------
// Scans
// ---------------------------------------------------------------------------

/// A scan moves on `n` times.
pub open spec fn advances(v: MleView, n: nat) -> MleView
    decreases n,
{
    if n == 0 {
        v
    } else {
        advances(v, (n - 1) as nat).after_advance_scan().0
    }
}

/// A scan goes through the candidates in order and begins anew after the last.
pub proof fn law_scan_wraps(v: MleView, n: nat)
    requires
        v.wf(),
        v.scanning,
    ensures
        advances(v, n).scanning,
        advances(v, n).scan_candidates == v.scan_candidates,
        advances(v, n).scan_index as int == (v.scan_index + n) % v.scan_candidates.len() as int,
    decreases n,
{
    let len = v.scan_candidates.len() as int;
    if n == 0 {
        vstd::arithmetic::div_mod::lemma_small_mod(v.scan_index as nat, len as nat);
    } else {
        law_scan_wraps(v, (n - 1) as nat);
        let k = v.scan_index + n - 1;
        vstd::arithmetic::div_mod::lemma_fundamental_div_mod(k, len);
        let q = k / len;
        let r = k % len;
        assert(len * q == q * len && len * (q + 1) == (q + 1) * len) by (nonlinear_arith);
        if r + 1 < len {
            vstd::arithmetic::div_mod::lemma_fundamental_div_mod_converse(k + 1, len, q, r + 1);
        } else {
            assert(len * q + len == len * (q + 1)) by (nonlinear_arith);
            vstd::arithmetic::div_mod::lemma_fundamental_div_mod_converse(k + 1, len, q + 1, 0);
        }
    }
}

/// A carrier is left behind for each reason there is: silence, a network that is
/// not allowed, and a cell that bars the subscriber class.
pub proof fn law_scan_leaves_unsuitable_cells(v: MleView, sync: DMleSync, sysinfo: DMleSysinfo)
    requires
        v.wf(),
        v.scanning,
        !v.survey,
        !v.selection_mode_manual,
        v.serving_cell is None,
        !v.activate_confirmed,
    ensures
        v.after_dwell() == v.after_advance_scan(),
        !v.config.allows_network(sync.mcc, sync.mnc) ==> v.after_sync(sync)
            == v.after_advance_scan(),
        v.config.allows_network(sync.mcc, sync.mnc) && !v.class_permitted(
            sysinfo.subscriber_class,
        ) ==> {
            let w = v.after_sync(sync).0;
            &&& w.after_sysinfo(sysinfo).0.serving_cell is None
            &&& w.after_sysinfo(sysinfo).1 == v.after_advance_scan().1
        },
{
}

/// A station that camps does not scan: an elapsed dwell then changes nothing.
pub proof fn law_no_scan_while_camped(v: MleView)
    requires
        !v.survey,
        v.serving_cell is Some,
    ensures
        v.after_dwell() == (v, nothing()),
{
}

// ---------------------------------------------------------------------------
// Camping
// ---------------------------------------------------------------------------

/// A suitable cell is camped on and confirmed: its SYNC tells the MAC the
/// network, and its SYSINFO confirms the cell to mobility management, ends the
/// scan and disarms the camp.
pub proof fn law_suitable_cell_is_confirmed(v: MleView, sync: DMleSync, sysinfo: DMleSysinfo)
    requires
        !v.survey,
        v.newly_selected(sync),
        v.selection_mode_manual ==> v.camp_armed,
        v.config.allows_network(sync.mcc, sync.mnc),
        v.class_permitted(sysinfo.subscriber_class),
    ensures
        ({
            let w = v.after_sync(sync).0;
            let (x, out) = w.after_sysinfo(sysinfo);
            &&& x.serving_cell matches Some(c) && c.mcc == sync.mcc && c.mnc == sync.mnc
                && c.location_area == Some(sysinfo.location_area)
            &&& x.activate_confirmed
            &&& !x.scanning
            &&& !x.camp_armed
            &&& out.len() == 1
            &&& out[0].1.msg matches SapMsgInner::LmmMleActivateConf(conf) && conf.mcc == sync.mcc
                && conf.mnc == sync.mnc && conf.la == sysinfo.location_area
                && conf.registration_required == sysinfo.registration
                && conf.system_wide_services == sysinfo.system_wide_services
        }),
{
}

/// A cell is confirmed once: a repeated SYNC or SYSINFO of a confirmed cell emits
/// nothing.
pub proof fn law_cell_is_confirmed_once(v: MleView, sync: DMleSync, sysinfo: DMleSysinfo)
    requires
        !v.survey,
        v.serving_cell is Some,
        v.class_permitted(sysinfo.subscriber_class),
    ensures
        v.after_sysinfo(sysinfo).0.after_sysinfo(sysinfo).1 == nothing(),
        v.after_sysinfo(sysinfo).0.after_sysinfo(sysinfo).0 == v.after_sysinfo(sysinfo).0,
        !v.newly_selected(sync) ==> v.after_sync(sync).1 == nothing() && v.after_sync(
            sync,
        ).0.activate_confirmed == v.activate_confirmed,
{
}

/// A change of the location area, or of the system wide services, is confirmed
/// again.
pub proof fn law_change_is_confirmed_again(v: MleView, old_info: DMleSysinfo, new_info: DMleSysinfo)
    requires
        !v.survey,
        v.serving_cell is Some,
        v.class_permitted(old_info.subscriber_class),
        v.class_permitted(new_info.subscriber_class),
        old_info.location_area != new_info.location_area || old_info.system_wide_services
            != new_info.system_wide_services,
    ensures
        v.after_sysinfo(old_info).0.after_sysinfo(new_info).1.len() == 1,
        v.after_sysinfo(old_info).0.after_sysinfo(new_info).1[0].1.msg is LmmMleActivateConf,
{
}

/// In manual mode the station camps on no new cell unless the operator armed a
/// camp.
pub proof fn law_manual_mode_waits_for_the_operator(v: MleView, sync: DMleSync)
    requires
        v.selection_mode_manual,
        !v.camp_armed,
        !v.survey,
        v.newly_selected(sync),
    ensures
        v.after_sync(sync) == (v, nothing()),
        v.serving_cell is None ==> v.after_dwell() == (v, nothing()),
{
}

/// A camp request tunes to the carrier and arms the camp when the carrier is a
/// programmed candidate, and does nothing otherwise.
pub proof fn law_camp_needs_a_candidate(v: MleView, carrier_hz: u32, register: bool)
    ensures
        v.config.scan_candidates@.contains(carrier_hz) ==> {
            let (w, out) = v.after_camp(carrier_hz, register);
            w.camp_armed && w.camp_force_register == register && out == tune(carrier_hz)
        },
        !v.config.scan_candidates@.contains(carrier_hz) ==> v.after_camp(carrier_hz, register) == (
            v,
            nothing(),
        ),
{
}

// ---------------------------------------------------------------------------
// Link failure
// ---------------------------------------------------------------------------

/// A repeated indication of the same state of the downlink changes nothing.
pub proof fn law_monitoring_is_idempotent(v: MleView, available: bool)
    ensures
        v.after_monitor(available).0.after_monitor(available) == (
            v.after_monitor(available).0,
            nothing(),
        ),
{
}

/// A failure is followed by a recovery with one break and one reopening, each to
/// both the circuit mode control entity and mobility management; afterwards the
/// station is in service without a cell.
pub proof fn law_break_is_followed_by_reopening(v: MleView)
    requires
        !v.out_of_service,
        v.serving_cell_rssi_mdbfs is None,
    ensures
        v.after_monitor(false).1 == seq![
            normal(to_cmce(SapMsgInner::LcmcMleBreakInd { permitted_services: 0 })),
            normal(to_mm(SapMsgInner::LmmMleBreakInd)),
        ],
        v.after_monitor(false).0.after_monitor(true).1 == seq![
            normal(to_cmce(SapMsgInner::LcmcMleReopenInd)),
            normal(to_mm(SapMsgInner::LmmMleReopenInd)),
        ],
        !v.after_monitor(false).0.after_monitor(true).0.out_of_service,
        v.after_monitor(false).0.after_monitor(true).0.serving_cell is None,
        !v.after_monitor(false).0.after_monitor(true).0.activate_confirmed,
{
}

/// While out of service there is no level, whatever the indications say, and an
/// indication that the failure goes on changes nothing.
pub proof fn law_no_level_while_out_of_service(
    v: MleView,
    available: bool,
    rssi_mdbfs: Option<i32>,
)
    requires
        v.wf(),
    ensures
        ({
            let w = v.after_monitor_ind(available, rssi_mdbfs).0;
            w.out_of_service ==> w.serving_cell_rssi_mdbfs is None
        }),
        v.out_of_service ==> v.after_monitor_ind(false, rssi_mdbfs) == (v, nothing()),
{
}

/// After a failure there is no level, and mobility management has been told so if
/// it knew one.
pub proof fn law_failure_clears_the_level(v: MleView)
    requires
        !v.out_of_service,
    ensures
        v.after_monitor(false).0.serving_cell_rssi_mdbfs is None,
        v.serving_cell_rssi_mdbfs is Some ==> v.after_monitor(false).1.len() == 3
            && v.after_monitor(false).1[2] == rssi_ind(None)[0],
{
}

// ---------------------------------------------------------------------------
// Routing
// ---------------------------------------------------------------------------

/// What one side sends for mobility management, the other side's entity delivers
/// to mobility management, bit for bit.
pub proof fn law_mm_pdu_reaches_mm(
    req: LmmMleUnitdataReq<Seq<bool>>,
    main_address: TetraAddress,
    link_id: u32,
    endpoint_id: u32,
    handle: u32,
)
    ensures
        mm_request(req).msg matches SapMsgInner::TlaTlDataReqBl(sent) && routed(
            TlaTlDataIndBl { main_address, link_id, endpoint_id, tl_sdu: Some(sent.tl_sdu) },
            handle,
        ) == Some(
            to_mm(
                SapMsgInner::LmmMleUnitdataInd {
                    sdu: req.sdu,
                    handle,
                    received_address: main_address,
                },
            ),
        ),
{
    law_discriminator_round_trip(MleProtocolDiscriminator::Mm, req.sdu);
}

/// What one side sends for the circuit mode control entity, the other side's
/// entity delivers to it, bit for bit.
pub proof fn law_cmce_pdu_reaches_cmce(
    req: LcmcMleUnitdataReq<Seq<bool>>,
    main_address: TetraAddress,
    link_id: u32,
    endpoint_id: u32,
    handle: u32,
)
    ensures
        cmce_request(req).msg matches SapMsgInner::TlaTlDataReqBl(sent) && routed(
            TlaTlDataIndBl { main_address, link_id, endpoint_id, tl_sdu: Some(sent.tl_sdu) },
            handle,
        ) == Some(
            to_cmce(
                SapMsgInner::LcmcMleUnitdataInd(
                    MleUnitdataInd {
                        sdu: req.sdu,
                        handle,
                        received_tetra_address: main_address,
                        endpoint_id,
                        link_id,
                        chan_change_resp_req: false,
                        chan_change_handle: None,
                    },
                ),
            ),
        ),
{
    law_discriminator_round_trip(MleProtocolDiscriminator::Cmce, req.sdu);
}

/// A TL-SDU without a valid discriminator, or for the mobile link entity itself,
/// reaches nobody.
pub proof fn law_other_pdus_reach_nobody(prim: TlaTlDataIndBl<Seq<bool>>, handle: u32)
    requires
        prim.tl_sdu is Some,
        prim.tl_sdu->0.len() < 3 || prim.tl_sdu->0.take(3) == discriminator_bits(
            MleProtocolDiscriminator::Mle,
        ),
    ensures
        routed(prim, handle) is None,
{
    let s = prim.tl_sdu->0;
    if s.len() >= 3 {
        law_discriminator_round_trip(MleProtocolDiscriminator::Mle, s.skip(3));
        assert(s == discriminator_bits(MleProtocolDiscriminator::Mle) + s.skip(3));
    }
}

} // verus!
