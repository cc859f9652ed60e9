//! What the mobile link entity of a station promises for each primitive, field by
//! field.

use vstd::prelude::*;

use crate::bits::law_bits_value;
use crate::config::StackConfig;
use crate::mle::mle_ms::{
    cmce_request, emitted_opt, mm_request, routed, FoundCell, MleBroadcast, MleView, ServingCell,
};
use crate::mle::pdu::{
    discriminator_bits, leading_discriminator, mle_pdu_type_of, DMleSync, DMleSysinfo,
    MleProtocolDiscriminator,
};
use crate::sap::{
    LcmcMleUnitdataReq, LmmMleUnitdataReq, MessagePrio, MsgInnerView, MsgView, SapMsgInner,
    TlaTlDataIndBl, TlaTlDataReqBl,
};
use crate::umac::uplink::Emitted;

verus! {

// ---------------------------------------------------------------------------
// Reading what was emitted
// ---------------------------------------------------------------------------

/// What is said to the upper MAC.
pub open spec fn said_to_umac(e: (MessagePrio, MsgView)) -> Option<MsgInnerView> {
    if e.0 is Normal && e.1.sap is TlmcSap && e.1.src is Mle && e.1.dest is Umac {
        Some(e.1.msg)
    } else {
        None
    }
}

/// What is said to mobility management.
pub open spec fn said_to_mm(e: (MessagePrio, MsgView)) -> Option<MsgInnerView> {
    if e.0 is Normal && e.1.sap is LmmSap && e.1.src is Mle && e.1.dest is Mm {
        Some(e.1.msg)
    } else {
        None
    }
}

/// What is said to the circuit mode control entity.
pub open spec fn said_to_cmce(e: (MessagePrio, MsgView)) -> Option<MsgInnerView> {
    if e.0 is Normal && e.1.sap is LcmcSap && e.1.src is Mle && e.1.dest is Cmce {
        Some(e.1.msg)
    } else {
        None
    }
}

/// The data request inside a message to the link layer.
pub open spec fn link_request(m: MsgView) -> Option<TlaTlDataReqBl<Seq<bool>>> {
    if m.sap is TlaSap && m.src is Mle && m.dest is Llc {
        match m.msg {
            SapMsgInner::TlaTlDataReqBl(r) => Some(r),
            _ => None,
        }
    } else {
        None
    }
}

/// Whether message `k` asks for the receiver to be tuned to a carrier.
pub open spec fn tunes_to(out: Emitted, k: int, carrier: u32) -> bool {
    said_to_umac(out[k]) matches Some(SapMsgInner::TlmcTuneReq { carrier_hz }) && carrier_hz
        == carrier
}

/// Whether message `k` tells mobility management that a survey has ended.
pub open spec fn completes(out: Emitted, k: int, found: int, scanned: int) -> bool {
    said_to_mm(out[k]) matches Some(SapMsgInner::LmmMleScanCompleteInd { found: f, scanned: s }) && f
        == found && s == scanned
}

/// Whether a station may use a network: its home network, or one on its list.
pub open spec fn may_use(c: StackConfig, mcc: u16, mnc: u16) -> bool {
    ||| c.mcc == mcc && c.mnc == mnc
    ||| exists|i: int|
        0 <= i < c.allowed_networks@.len() && #[trigger] c.allowed_networks@[i] == (mcc, mnc)
}

/// Whether a SYNC is of the cell that is served already.
pub open spec fn serves(v: MleView, pdu: DMleSync) -> bool {
    v.serving_cell matches Some(c) && c.mcc == pdu.mcc && c.mnc == pdu.mnc
}

// ---------------------------------------------------------------------------
// Configuration
// ---------------------------------------------------------------------------

/// A network is allowed where both of its codes are those of the home network or
/// of one entry of the list.
pub proof fn law_allowed_networks(c: StackConfig, mcc: u16, mnc: u16)
    ensures
        c.allows_network(mcc, mnc) == may_use(c, mcc, mnc),
{
    if c.allowed_networks@.contains((mcc, mnc)) {
        let i = choose|i: int|
            0 <= i < c.allowed_networks@.len() && c.allowed_networks@[i] == (mcc, mnc);
        assert(c.allowed_networks@[i] == (mcc, mnc));
    }
}

/// The own identity and the groups are those of the mobile-station section; without
/// the section there are none.
pub proof fn law_configured_identities(c: StackConfig)
    ensures
        c.ms is None ==> c.own_issi() is None && c.groups().len() == 0,
        c.ms matches Some(ms) ==> c.own_issi() == Some(ms.issi) && c.groups()
            == ms.attach_groups@,
{
}

/// A class from 1 to 16 is admitted by the bit of its own in the cell's bitmap,
/// class 1 by the least significant one; a station without such a class is
/// admitted everywhere.
pub proof fn law_admitted_classes(v: MleView, cell_bitmap: u16)
    ensures
        v.config.ms is None ==> v.class_permitted(cell_bitmap),
        v.config.ms matches Some(ms) ==> {
            let c = ms.subscriber_class;
            &&& c == 0 || c > 16 ==> v.class_permitted(cell_bitmap)
            &&& 1 <= c <= 16 ==> v.class_permitted(cell_bitmap) == ((cell_bitmap >> ((c - 1)
                as u16)) & 1 == 1)
        },
        v.config.ms matches Some(ms) && ms.subscriber_class == 1 ==> v.class_permitted(cell_bitmap)
            == (cell_bitmap % 2 == 1),
        v.config.ms matches Some(ms) && ms.subscriber_class == 16 ==> v.class_permitted(cell_bitmap)
            == (cell_bitmap >= 0x8000),
{
    assert((cell_bitmap >> 0u16) & 1 == 1 <==> cell_bitmap % 2 == 1) by (bit_vector);
    assert((cell_bitmap >> 15u16) & 1 == 1 <==> cell_bitmap >= 0x8000) by (bit_vector);
}

// ---------------------------------------------------------------------------
// SYNC
// ---------------------------------------------------------------------------

/// A SYNC of another cell that may be used, and in manual mode was asked for, is
/// adopted: the serving cell has the codes and the fields of the SYNC and nothing of
/// a SYSINFO yet, it is not confirmed, and the upper MAC is told exactly these
/// codes, with no identity, and nothing more.
pub proof fn law_sync_adopts_the_cell(v: MleView, pdu: DMleSync)
    requires
        !v.survey,
        !serves(v, pdu),
        v.selection_mode_manual ==> v.camp_armed,
        may_use(v.config, pdu.mcc, pdu.mnc),
    ensures
        ({
            let (w, out) = v.after_sync(pdu);
            &&& w == (MleView { serving_cell: w.serving_cell, activate_confirmed: false, ..v })
            &&& w.serving_cell matches Some(c)
            &&& c.mcc == pdu.mcc && c.mnc == pdu.mnc
            &&& c.neighbor_cell_broadcast == pdu.neighbor_cell_broadcast
            &&& c.cell_load_ca == pdu.cell_load_ca
            &&& c.late_entry_supported == pdu.late_entry_supported
            &&& c.location_area is None && c.subscriber_class is None
            &&& c.registration_required is None && c.system_wide_services is None
            &&& out.len() == 1
            &&& said_to_umac(out[0]) matches Some(
                SapMsgInner::TlmcConfigureReq { valid_addresses: Some(a) },
            )
            &&& a.mcc == pdu.mcc && a.mnc == pdu.mnc
            &&& a.mcc == c.mcc && a.mnc == c.mnc
            &&& a.individual_ssi is None && a.group_ssis is None
        }),
{
    law_allowed_networks(v.config, pdu.mcc, pdu.mnc);
}

/// A SYNC of the serving cell refreshes what a SYNC says of it, keeps what its
/// SYSINFO said, and tells nobody.
pub proof fn law_sync_refreshes_the_serving_cell(v: MleView, pdu: DMleSync)
    requires
        !v.survey,
        serves(v, pdu),
    ensures
        ({
            let (w, out) = v.after_sync(pdu);
            let b = v.serving_cell->0;
            &&& out.len() == 0
            &&& w == (MleView { serving_cell: w.serving_cell, ..v })
            &&& w.serving_cell matches Some(c)
            &&& c.mcc == b.mcc && c.mnc == b.mnc
            &&& c.neighbor_cell_broadcast == pdu.neighbor_cell_broadcast
            &&& c.cell_load_ca == pdu.cell_load_ca
            &&& c.late_entry_supported == pdu.late_entry_supported
            &&& c.location_area == b.location_area
            &&& c.subscriber_class == b.subscriber_class
            &&& c.registration_required == b.registration_required
            &&& c.system_wide_services == b.system_wide_services
        }),
{
}

/// A SYNC of another cell is left alone in manual mode without a camp request; one
/// of a network that may not be used moves a scan on, and is left alone otherwise.
pub proof fn law_sync_of_an_unusable_cell(v: MleView, pdu: DMleSync)
    requires
        !v.survey,
        !serves(v, pdu),
    ensures
        v.selection_mode_manual && !v.camp_armed ==> v.after_sync(pdu).0 == v && v.after_sync(
            pdu,
        ).1.len() == 0,
        (v.selection_mode_manual ==> v.camp_armed) && !may_use(v.config, pdu.mcc, pdu.mnc)
            ==> v.after_sync(pdu) == v.after_advance_scan(),
{
    law_allowed_networks(v.config, pdu.mcc, pdu.mnc);
}

// ---------------------------------------------------------------------------
// SYSINFO
// ---------------------------------------------------------------------------

/// What a SYSINFO says is noted of the serving cell, whatever else follows, and
/// what its SYNC said is kept.
pub open spec fn noted(b: ServingCell, pdu: DMleSysinfo, c: ServingCell) -> bool {
    &&& c.mcc == b.mcc && c.mnc == b.mnc
    &&& c.neighbor_cell_broadcast == b.neighbor_cell_broadcast
    &&& c.cell_load_ca == b.cell_load_ca
    &&& c.late_entry_supported == b.late_entry_supported
    &&& c.location_area == Some(pdu.location_area)
    &&& c.subscriber_class == Some(pdu.subscriber_class)
    &&& c.registration_required == Some(pdu.registration)
    &&& c.system_wide_services == Some(pdu.system_wide_services)
}

/// A SYSINFO brings something new where the cell was not confirmed yet, or where
/// its location area or its system wide services are not those known.
pub open spec fn brings_news(v: MleView, pdu: DMleSysinfo) -> bool {
    ||| !v.activate_confirmed
    ||| v.serving_cell->0.location_area != Some(pdu.location_area)
    ||| v.serving_cell->0.system_wide_services != Some(pdu.system_wide_services)
}

/// A SYSINFO of a serving cell that admits the station and brings something new
/// confirms the cell to mobility management, once, with the codes of the cell and
/// what the SYSINFO says; scan and camp are over. One that brings nothing new is
/// only noted.
pub proof fn law_sysinfo_confirms_the_cell(v: MleView, pdu: DMleSysinfo)
    requires
        !v.survey,
        v.serving_cell is Some,
        v.class_permitted(pdu.subscriber_class) || !brings_news(v, pdu),
    ensures
        ({
            let (w, out) = v.after_sysinfo(pdu);
            let b = v.serving_cell->0;
            &&& w.serving_cell matches Some(c)
            &&& noted(b, pdu, c)
            &&& !brings_news(v, pdu) ==> {
                &&& out.len() == 0
                &&& w == (MleView { serving_cell: w.serving_cell, ..v })
            }
            &&& brings_news(v, pdu) ==> {
                &&& w == (MleView {
                    serving_cell: w.serving_cell,
                    activate_confirmed: true,
                    scanning: false,
                    camp_armed: false,
                    ..v
                })
                &&& out.len() == 1
                &&& said_to_mm(out[0]) matches Some(SapMsgInner::LmmMleActivateConf(conf))
                &&& conf.registration_required == pdu.registration
                &&& conf.mcc == b.mcc && conf.mnc == b.mnc
                &&& conf.la == pdu.location_area
                &&& conf.system_wide_services == pdu.system_wide_services
                &&& conf.cell_type == 0
            }
        }),
{
}

/// A SYSINFO that bars the station's class confirms nothing: a scan gives the cell
/// up and moves on; without a scan the cell is kept, and only noted.
pub proof fn law_sysinfo_of_a_barred_cell(v: MleView, pdu: DMleSysinfo)
    requires
        !v.survey,
        v.serving_cell is Some,
        !v.class_permitted(pdu.subscriber_class),
        brings_news(v, pdu),
    ensures
        ({
            let (w, out) = v.after_sysinfo(pdu);
            &&& v.scanning ==> (w, out) == (MleView {
                serving_cell: None,
                activate_confirmed: false,
                ..v
            }).after_advance_scan()
            &&& !v.scanning ==> {
                &&& out.len() == 0
                &&& w == (MleView { serving_cell: w.serving_cell, ..v })
                &&& w.serving_cell matches Some(c) && noted(v.serving_cell->0, pdu, c)
            }
        }),
{
}

/// A SYSINFO without a serving cell, outside a survey, is ignored.
pub proof fn law_sysinfo_needs_a_cell(v: MleView, pdu: DMleSysinfo)
    requires
        !v.survey,
        v.serving_cell is None,
    ensures
        v.after_sysinfo(pdu).0 == v,
        v.after_sysinfo(pdu).1.len() == 0,
{
}

// ---------------------------------------------------------------------------
// Scans
// ---------------------------------------------------------------------------

/// A scan starts on the first of the configured candidates and tunes to it; it does
/// not start anew while one is under way, nor without candidates.
pub proof fn law_scan_starts_at_the_first(v: MleView)
    ensures
        ({
            let (w, out) = v.after_start_scan();
            let cands = v.config.scan_candidates@;
            let starts = !v.scanning && cands.len() > 0;
            &&& starts ==> {
                &&& w == (MleView { scan_candidates: cands, scan_index: 0, scanning: true, ..v })
                &&& out.len() == 1 && tunes_to(out, 0, cands[0])
            }
            &&& !starts ==> w == v && out.len() == 0
        }),
{
}

/// A scan moves from each candidate to the one behind it, and from the last to the
/// first, and tunes to it; without a scan nothing moves.
pub proof fn law_scan_moves_on(v: MleView)
    requires
        v.in_place(),
    ensures
        ({
            let (w, out) = v.after_advance_scan();
            &&& !v.scanning ==> w == v && out.len() == 0
            &&& v.scanning ==> {
                &&& w == (MleView { scan_index: w.scan_index, ..v })
                &&& w.scan_index == (if v.scan_index == v.scan_candidates.len() - 1 {
                    0
                } else {
                    v.scan_index + 1
                })
                &&& out.len() == 1
                &&& tunes_to(out, 0, v.scan_candidates[w.scan_index as int])
            }
        }),
{
}

/// An elapsed dwell moves a survey on; a station without a cell, in automatic mode,
/// moves its scan on or starts one; any other station stays.
pub proof fn law_dwell_moves_on(v: MleView)
    ensures
        !v.survey && (v.serving_cell is Some || v.selection_mode_manual) ==> v.after_dwell().0 == v
            && v.after_dwell().1.len() == 0,
        !v.survey && v.serving_cell is None && !v.selection_mode_manual && v.scanning
            ==> v.after_dwell() == v.after_advance_scan(),
        !v.survey && v.serving_cell is None && !v.selection_mode_manual && !v.scanning
            ==> v.after_dwell() == v.after_start_scan(),
        v.survey && v.survey_pending is Some ==> v.after_dwell() == v.after_survey_finalize(),
        v.survey && v.survey_pending is None ==> v.after_dwell() == v.after_survey_advance(),
{
}

// ---------------------------------------------------------------------------
// Surveys
// ---------------------------------------------------------------------------

/// A survey starts with nothing found, on the first configured candidate, and gives
/// up scan and cell; without candidates it is complete at once, with nothing found
/// and nothing scanned, and scan and cell are kept.
pub proof fn law_survey_starts_anew(v: MleView)
    ensures
        ({
            let (w, out) = v.after_start_survey();
            let cands = v.config.scan_candidates@;
            &&& w.survey == (cands.len() > 0)
            &&& w.survey_candidates == cands
            &&& w.survey_index == 0 && w.survey_found == 0 && w.survey_sync_repeats == 0
            &&& w.survey_pending is None
            &&& out.len() == 1
            &&& cands.len() == 0 ==> completes(out, 0, 0, 0)
            &&& cands.len() > 0 ==> tunes_to(out, 0, cands[0])
            &&& cands.len() > 0 ==> !w.scanning && w.serving_cell is None && !w.activate_confirmed
            &&& w == (MleView {
                survey: w.survey,
                survey_candidates: w.survey_candidates,
                survey_index: w.survey_index,
                survey_found: w.survey_found,
                survey_sync_repeats: w.survey_sync_repeats,
                survey_pending: w.survey_pending,
                scanning: v.scanning && cands.len() == 0,
                serving_cell: if cands.len() == 0 {
                    v.serving_cell
                } else {
                    None
                },
                activate_confirmed: v.activate_confirmed && cands.len() == 0,
                ..v
            })
        }),
{
}

/// A cancelled survey tells what it found and how many carriers it has left behind,
/// and is over; without a survey there is nothing to cancel.
pub proof fn law_survey_is_cancelled(v: MleView)
    requires
        v.wf(),
    ensures
        ({
            let (w, out) = v.after_cancel_survey();
            &&& !v.survey ==> w == v && out.len() == 0
            &&& v.survey ==> {
                &&& w == (MleView {
                    survey: false,
                    survey_pending: None,
                    survey_sync_repeats: 0,
                    ..v
                })
                &&& out.len() == 1
                &&& completes(out, 0, v.survey_found as int, v.survey_index as int)
            }
        }),
{
}

/// A survey moves to the carrier behind the tuned one and tunes to it; behind the
/// last one it is over, with all carriers scanned.
pub proof fn law_survey_moves_on(v: MleView)
    requires
        v.wf(),
        v.survey,
    ensures
        ({
            let (w, out) = v.after_survey_advance();
            let n = v.survey_candidates.len();
            &&& w.survey_index == v.survey_index + 1
            &&& w.survey_found == v.survey_found
            &&& w.survey == (v.survey_index + 1 < n)
            &&& out.len() == 1
            &&& w.survey ==> {
                &&& tunes_to(out, 0, v.survey_candidates[v.survey_index + 1])
                &&& w == (MleView { survey_index: w.survey_index, ..v })
            }
            &&& !w.survey ==> {
                &&& completes(out, 0, v.survey_found as int, n as int)
                &&& w == (MleView {
                    survey_index: w.survey_index,
                    survey: false,
                    survey_pending: None,
                    ..v
                })
            }
        }),
{
}

/// A survey that is done with a carrier reports the cell it noted there, once, with
/// the receive level of the moment, counts it, and moves on; with no cell noted it
/// only moves on.
pub proof fn law_survey_reports_and_moves_on(v: MleView)
    requires
        v.wf(),
        v.survey,
    ensures
        ({
            let (w, out) = v.after_survey_finalize();
            let (x, moved) = MleView {
                survey_pending: None,
                survey_sync_repeats: 0,
                survey_found: w.survey_found,
                ..v
            }.after_survey_advance();
            &&& w == x
            &&& v.survey_pending is None ==> w.survey_found == v.survey_found && out == moved
            &&& v.survey_pending matches Some(cell) ==> {
                &&& w.survey_found == v.survey_found + 1
                &&& out.len() == 1 + moved.len()
                &&& forall|i: int| 0 <= i < moved.len() ==> out[1 + i] == #[trigger] moved[i]
                &&& said_to_mm(out[0]) matches Some(SapMsgInner::LmmMleScanResultInd(r))
                &&& r.carrier_hz == cell.carrier_hz
                &&& r.mcc == cell.mcc && r.mnc == cell.mnc
                &&& r.location_area == cell.location_area
                &&& r.colour_code == cell.colour_code
                &&& r.rssi_mdbfs == v.serving_cell_rssi_mdbfs
                &&& r.registration_required == cell.registration_required
                &&& r.late_entry_supported == cell.late_entry_supported
            }
        }),
{
}

/// During a survey, the SYNC of a cell not noted yet is noted with the tuned
/// carrier and nothing of a SYSINFO; a repeated one is counted, and at the fourth
/// the survey waits no longer.
pub proof fn law_survey_notes_a_sync(v: MleView, pdu: DMleSync)
    requires
        v.wf(),
        v.survey,
        v.survey_sync_repeats < 255,
    ensures
        ({
            let (w, out) = v.after_sync(pdu);
            let again = v.survey_pending matches Some(c) && c.mcc == pdu.mcc && c.mnc == pdu.mnc;
            let counted = MleView { survey_sync_repeats: (v.survey_sync_repeats + 1) as u8, ..v };
            &&& !again ==> {
                &&& out.len() == 0
                &&& w == (MleView {
                    survey_pending: w.survey_pending,
                    survey_sync_repeats: 0,
                    ..v
                })
                &&& w.survey_pending matches Some(c)
                &&& c.carrier_hz == v.survey_candidates[v.survey_index as int]
                &&& c.mcc == pdu.mcc && c.mnc == pdu.mnc
                &&& c.late_entry_supported == pdu.late_entry_supported
                &&& c.rssi_mdbfs == v.serving_cell_rssi_mdbfs
                &&& c.location_area is None && c.colour_code is None
                    && c.registration_required is None
            }
            &&& again && v.survey_sync_repeats < 3 ==> w == counted && out.len() == 0
            &&& again && v.survey_sync_repeats >= 3 ==> (w, out)
                == counted.after_survey_finalize()
        }),
{
}

/// During a survey, a SYSINFO completes the noted cell with its location area and
/// whether registration is required, and the survey is done with the carrier;
/// without a noted cell it is ignored.
pub proof fn law_survey_takes_a_sysinfo(v: MleView, pdu: DMleSysinfo)
    requires
        v.wf(),
        v.survey,
    ensures
        v.survey_pending is None ==> v.after_sysinfo(pdu).0 == v && v.after_sysinfo(pdu).1.len()
            == 0,
        v.survey_pending matches Some(cell) ==> v.after_sysinfo(pdu) == (MleView {
            survey_pending: Some(
                FoundCell {
                    location_area: Some(pdu.location_area),
                    registration_required: Some(pdu.registration),
                    ..cell
                },
            ),
            ..v
        }).after_survey_finalize(),
{
}

// ---------------------------------------------------------------------------
// The link
// ---------------------------------------------------------------------------

/// A receive level is taken over and told to mobility management where it is a new
/// one, and changes nothing else; no level and the known one change nothing.
pub proof fn law_level_is_told(v: MleView, level: Option<i32>)
    ensures
        ({
            let (w, out) = v.after_rssi(level);
            let new = level is Some && level != v.serving_cell_rssi_mdbfs;
            &&& !new ==> w == v && out.len() == 0
            &&& new ==> {
                &&& w == (MleView { serving_cell_rssi_mdbfs: level, ..v })
                &&& out.len() == 1
                &&& said_to_mm(out[0]) matches Some(SapMsgInner::LmmMleRssiInd { rssi_mdbfs })
                    && rssi_mdbfs == level
            }
        }),
{
}

/// A failed downlink breaks the link, to the circuit mode control entity with no
/// service left and then to mobility management, and gives cell and level up; a
/// known level is told to be gone. A downlink that comes back reopens the link to
/// both. Anything else is no change.
pub proof fn law_link_breaks_and_reopens(v: MleView, available: bool)
    ensures
        ({
            let (w, out) = v.after_monitor(available);
            let fails = !available && !v.out_of_service;
            let comes = available && v.out_of_service;
            let told = if v.serving_cell_rssi_mdbfs is Some {
                1int
            } else {
                0int
            };
            &&& !fails && !comes ==> w == v && out.len() == 0
            &&& fails ==> {
                &&& w == (MleView {
                    out_of_service: true,
                    serving_cell: None,
                    activate_confirmed: false,
                    serving_cell_rssi_mdbfs: None,
                    ..v
                })
                &&& out.len() == 2 + told
                &&& said_to_cmce(out[0]) matches Some(
                    SapMsgInner::LcmcMleBreakInd { permitted_services },
                ) && permitted_services == 0
                &&& said_to_mm(out[1]) matches Some(SapMsgInner::LmmMleBreakInd)
                &&& told == 1 ==> (said_to_mm(out[2]) matches Some(
                    SapMsgInner::LmmMleRssiInd { rssi_mdbfs },
                ) && rssi_mdbfs is None)
            }
            &&& comes ==> {
                &&& w == (MleView { out_of_service: false, ..v })
                &&& out.len() == 2
                &&& said_to_cmce(out[0]) matches Some(SapMsgInner::LcmcMleReopenInd)
                &&& said_to_mm(out[1]) matches Some(SapMsgInner::LmmMleReopenInd)
            }
        }),
{
}

/// A monitoring indication brings its level first and the state of the link then;
/// while the failure goes on, its level is not taken.
pub proof fn law_monitoring_brings_level_and_state(
    v: MleView,
    available: bool,
    level: Option<i32>,
)
    ensures
        v.out_of_service && !available ==> v.after_monitor_ind(available, level).0 == v
            && v.after_monitor_ind(available, level).1.len() == 0,
        !v.out_of_service || available ==> {
            let (a, first) = v.after_rssi(level);
            let (b, second) = a.after_monitor(available);
            v.after_monitor_ind(available, level) == (b, first + second)
        },
{
}

// ---------------------------------------------------------------------------
// The operator
// ---------------------------------------------------------------------------

/// A change of the selection mode takes a camp request back, and ends a scan where
/// the mode becomes manual; the mode that is set already changes nothing.
pub proof fn law_mode_is_set(v: MleView, manual: bool)
    ensures
        ({
            let w = v.after_selection_mode(manual);
            &&& w.selection_mode_manual == manual
            &&& v.selection_mode_manual == manual ==> w == v
            &&& v.selection_mode_manual != manual ==> w == (MleView {
                selection_mode_manual: manual,
                camp_armed: false,
                camp_force_register: false,
                scanning: !manual && v.scanning,
                ..v
            })
        }),
{
}

/// A camp request for a configured candidate ends survey and scan, gives the cell
/// up, arms the camp with the operator's wish to register, and tunes to the
/// carrier; for any other carrier it is refused.
pub proof fn law_camp_request(v: MleView, carrier: u32, register: bool)
    ensures
        ({
            let (w, out) = v.after_camp(carrier, register);
            let known = exists|i: int|
                0 <= i < v.config.scan_candidates@.len() && #[trigger] v.config.scan_candidates@[i]
                    == carrier;
            &&& !known ==> w == v && out.len() == 0
            &&& known ==> {
                &&& w == (MleView {
                    survey: false,
                    survey_pending: None,
                    scanning: false,
                    serving_cell: None,
                    activate_confirmed: false,
                    camp_armed: true,
                    camp_force_register: register,
                    ..v
                })
                &&& out.len() == 1
                &&& tunes_to(out, 0, carrier)
            }
        }),
{
    let c = v.config.scan_candidates@;
    if c.contains(carrier) {
        let i = choose|i: int| 0 <= i < c.len() && c[i] == carrier;
        assert(c[i] == carrier);
    }
}

// ---------------------------------------------------------------------------
// Routing
// ---------------------------------------------------------------------------

/// The discriminator is the first three bits of a TL-SDU: 001 for mobility
/// management, 010 for circuit mode control, 100 for packet data, 101 for the link
/// entity itself, 110 for management; 000, 011 and 111 are none.
pub proof fn law_discriminators(s: Seq<bool>)
    ensures
        s.len() < 3 ==> leading_discriminator(s) is None,
        s.len() >= 3 ==> {
            let d = leading_discriminator(s);
            let (a, b, c) = (s[0], s[1], s[2]);
            &&& (d == Some(MleProtocolDiscriminator::Mm)) == (!a && !b && c)
            &&& (d == Some(MleProtocolDiscriminator::Cmce)) == (!a && b && !c)
            &&& (d == Some(MleProtocolDiscriminator::Sndcp)) == (a && !b && !c)
            &&& (d == Some(MleProtocolDiscriminator::Mle)) == (a && !b && c)
            &&& (d == Some(MleProtocolDiscriminator::TetraManagementEntity)) == (a && b && !c)
            &&& (d is None) == (a == b && b == c || !a && b && c)
        },
        discriminator_bits(MleProtocolDiscriminator::Mm) == seq![false, false, true],
        discriminator_bits(MleProtocolDiscriminator::Cmce) == seq![false, true, false],
        discriminator_bits(MleProtocolDiscriminator::Mle) == seq![true, false, true],
{
    if s.len() >= 3 {
        lemma_three_bits(s);
    }
}

/// The number that the first three bits denote.
proof fn lemma_three_bits(s: Seq<bool>)
    requires
        s.len() >= 3,
    ensures
        crate::bits::bits_value(s.take(3)) == 4 * (if s[0] {
            1int
        } else {
            0int
        }) + 2 * (if s[1] {
            1int
        } else {
            0int
        }) + (if s[2] {
            1int
        } else {
            0int
        }),
{
    let e = Seq::<bool>::empty();
    assert(s.take(3) == e.push(s[0]).push(s[1]).push(s[2]));
    law_bits_value(e, s[0]);
    law_bits_value(e.push(s[0]), s[1]);
    law_bits_value(e.push(s[0]).push(s[1]), s[2]);
}

/// The downlink PDU types of the link entity are numbered in the order of the
/// standard.
pub proof fn law_mle_pdu_types(v: nat)
    requires
        v < 8,
    ensures
        (mle_pdu_type_of(v) is DNewCell) == (v == 0),
        (mle_pdu_type_of(v) is DPrepareFail) == (v == 1),
        (mle_pdu_type_of(v) is DNwrkBroadcast) == (v == 2),
        (mle_pdu_type_of(v) is DNwrkBroadcastExt) == (v == 3),
        (mle_pdu_type_of(v) is DRestoreAck) == (v == 4),
        (mle_pdu_type_of(v) is DRestoreFail) == (v == 5),
        (mle_pdu_type_of(v) is DChannelResponse) == (v == 6),
        (mle_pdu_type_of(v) is ExtPdu) == (v == 7),
{
}

/// An indication of the link layer goes to the entity of its discriminator, once,
/// with the bits behind the discriminator, the address, the link and the endpoint
/// that it came with, and the handle; packet data carries no handle. Any other
/// discriminator goes nowhere.
pub proof fn law_indication_is_routed(prim: TlaTlDataIndBl<Seq<bool>>, handle: u32)
    requires
        prim.tl_sdu is Some,
        prim.tl_sdu->0.len() >= 3,
    ensures
        ({
            let s = prim.tl_sdu->0;
            let out = emitted_opt(routed(prim, handle));
            let mm = !s[0] && !s[1] && s[2];
            let cmce = !s[0] && s[1] && !s[2];
            let sndcp = s[0] && !s[1] && !s[2];
            &&& !mm && !cmce && !sndcp ==> out.len() == 0
            &&& mm || cmce || sndcp ==> out.len() == 1
            &&& mm ==> {
                &&& said_to_mm(out[0]) matches Some(
                    SapMsgInner::LmmMleUnitdataInd { sdu, handle: h, received_address },
                )
                &&& sdu.len() == s.len() - 3
                &&& forall|i: int| 0 <= i < sdu.len() ==> #[trigger] sdu[i] == s[3 + i]
                &&& h == handle && received_address == prim.main_address
            }
            &&& cmce ==> {
                &&& said_to_cmce(out[0]) matches Some(SapMsgInner::LcmcMleUnitdataInd(i))
                &&& i.sdu.len() == s.len() - 3
                &&& forall|k: int| 0 <= k < i.sdu.len() ==> #[trigger] i.sdu[k] == s[3 + k]
                &&& i.handle == handle && i.received_tetra_address == prim.main_address
                &&& i.endpoint_id == prim.endpoint_id && i.link_id == prim.link_id
                &&& !i.chan_change_resp_req && i.chan_change_handle is None
            }
            &&& sndcp ==> {
                &&& said_to_cmce(out[0]) matches Some(SapMsgInner::LtpdMleUnitdataInd(i))
                &&& i.sdu.len() == s.len() - 3
                &&& forall|k: int| 0 <= k < i.sdu.len() ==> #[trigger] i.sdu[k] == s[3 + k]
                &&& i.handle == 0 && i.received_tetra_address == prim.main_address
                &&& i.endpoint_id == prim.endpoint_id && i.link_id == prim.link_id
                &&& !i.chan_change_resp_req && i.chan_change_handle is None
            }
        }),
{
    law_discriminators(prim.tl_sdu->0);
}

/// Whether a request to the link layer leaves what no entity sets as it is.
pub open spec fn plain(r: TlaTlDataReqBl<Seq<bool>>) -> bool {
    &&& r.subscriber_class == 0 && !r.fcs_flag && r.req_handle == 0
    &&& r.air_interface_encryption is None && r.stealing_repeats_flag is None
    &&& r.data_class_info is None && r.graceful_degradation is None
}

/// Whether a TL-SDU is three bits and then `sdu`.
pub open spec fn prefixed(tl_sdu: Seq<bool>, a: bool, b: bool, c: bool, sdu: Seq<bool>) -> bool {
    &&& tl_sdu.len() == sdu.len() + 3
    &&& tl_sdu[0] == a && tl_sdu[1] == b && tl_sdu[2] == c
    &&& forall|i: int| 0 <= i < sdu.len() ==> tl_sdu[3 + i] == #[trigger] sdu[i]
}

/// A PDU of mobility management goes out behind its discriminator, to the address,
/// with the priority, the emergency mark and the receipt of its request, on link and
/// endpoint zero and without stealing.
pub proof fn law_mm_pdu_goes_out(prim: LmmMleUnitdataReq<Seq<bool>>)
    ensures
        link_request(mm_request(prim)) matches Some(r) && {
            &&& prefixed(r.tl_sdu, false, false, true, prim.sdu)
            &&& r.main_address == prim.address
            &&& r.link_id == 0 && r.endpoint_id == 0
            &&& r.pdu_priority == prim.pdu_priority
            &&& r.is_emergency == prim.is_emergency
            &&& r.tx_reporter == prim.tx_reporter
            &&& !r.stealing_permission && r.chan_alloc is None
            &&& plain(r)
        },
{
}

/// A PDU of the circuit mode control entity goes out behind its discriminator, to
/// the address and on the link and endpoint of its request, with its permission to
/// steal, its channel allocation and its receipt, and without a priority.
pub proof fn law_cmce_pdu_goes_out(prim: LcmcMleUnitdataReq<Seq<bool>>)
    ensures
        link_request(cmce_request(prim)) matches Some(r) && {
            &&& prefixed(r.tl_sdu, false, true, false, prim.sdu)
            &&& r.main_address == prim.main_address
            &&& r.link_id == prim.link_id && r.endpoint_id == prim.endpoint_id
            &&& r.pdu_priority is None && !r.is_emergency
            &&& r.tx_reporter == prim.tx_reporter
            &&& r.stealing_permission == prim.stealing_permission
            &&& r.chan_alloc == prim.chan_alloc
            &&& plain(r)
        },
{
}

// ---------------------------------------------------------------------------
// Primitives
// ---------------------------------------------------------------------------

/// The identities of the station go to the upper MAC unchanged, with the codes of
/// the home network; so does the user plane, with its two marks. Neither changes
/// anything here.
pub proof fn law_configuration_is_passed_down(v: MleView, m: MsgView, pdu: MleBroadcast)
    ensures
        m.msg matches SapMsgInner::LmmMleIdentitiesReq { issi, attached_gssis, detached_gssis } ==> {
            let (w, out) = v.after_prim(m, pdu);
            &&& w == v
            &&& out.len() == 1
            &&& said_to_umac(out[0]) matches Some(
                SapMsgInner::TlmcConfigureReq { valid_addresses: Some(a) },
            )
            &&& a.mcc == v.config.mcc && a.mnc == v.config.mnc
            &&& a.individual_ssi == Some(issi)
            &&& a.group_ssis == Some(attached_gssis)
        },
        m.msg matches SapMsgInner::LcmcMleConfigureReq { switch_u_plane, tx_grant } ==> {
            let (w, out) = v.after_prim(m, pdu);
            &&& w == v
            &&& out.len() == 1
            &&& said_to_umac(out[0]) matches Some(
                SapMsgInner::TlmcUPlaneConfigureReq { switch_u_plane: s, tx_grant: t },
            ) && s == switch_u_plane && t == tx_grant
        },
{
}

/// Each primitive has its own effect, and data requests and indications change
/// nothing here.
pub proof fn law_primitives_have_their_effect(v: MleView, m: MsgView, pdu: MleBroadcast)
    ensures
        m.msg matches SapMsgInner::TlaTlDataIndBl(prim) ==> v.after_prim(m, pdu) == (
            v,
            emitted_opt(routed(prim, 0)),
        ),
        m.msg matches SapMsgInner::TlaTlUnitdataIndBl(prim) ==> v.after_prim(m, pdu) == (
            v,
            emitted_opt(routed(prim, 0)),
        ),
        m.msg is TlmbSyncInd || m.msg is TlmbSysinfoInd ==> v.after_prim(m, pdu) == (match pdu {
            MleBroadcast::Sync(p) => v.after_sync(p),
            MleBroadcast::Sysinfo(p) => v.after_sysinfo(p),
            MleBroadcast::Undecodable => (v, Seq::empty()),
        }),
        m.msg matches SapMsgInner::TlmbMonitorInd { downlink_available, rssi_mdbfs }
            ==> v.after_prim(m, pdu) == v.after_monitor_ind(downlink_available, rssi_mdbfs),
        m.msg is TlmbScanDwellInd ==> v.after_prim(m, pdu) == v.after_dwell(),
        m.msg matches SapMsgInner::LmmMleSelectionModeReq { manual } ==> v.after_prim(m, pdu).0
            == v.after_selection_mode(manual) && v.after_prim(m, pdu).1.len() == 0,
        m.msg matches SapMsgInner::LmmMleScanReq { start } ==> v.after_prim(m, pdu) == (if start {
            v.after_start_survey()
        } else {
            v.after_cancel_survey()
        }),
        m.msg matches SapMsgInner::LmmMleCampReq { carrier_hz, register } ==> v.after_prim(m, pdu)
            == v.after_camp(carrier_hz, register),
        m.msg matches SapMsgInner::LmmMleUnitdataReq(prim) ==> {
            let (w, out) = v.after_prim(m, pdu);
            w == v && out.len() == 1 && out[0].0 is Normal && out[0].1 == mm_request(prim)
        },
        m.msg matches SapMsgInner::LcmcMleUnitdataReq(prim) ==> {
            let (w, out) = v.after_prim(m, pdu);
            w == v && out.len() == 1 && out[0].0 is Normal && out[0].1 == cmce_request(prim)
        },
{
}

/// The link entity takes data indications with a TL-SDU, the broadcasts and
/// indications from below, the requests of mobility management and those of the
/// circuit mode control entity, each at its own access point, and nothing else.
pub proof fn law_primitives_that_are_taken(v: MleView, m: MsgView, pdu: MleBroadcast)
    ensures
        v.takes(m, pdu) <==> {
            ||| m.sap is TlaSap && (m.msg matches SapMsgInner::TlaTlDataIndBl(p) && p.tl_sdu
                is Some)
            ||| m.sap is TlaSap && (m.msg matches SapMsgInner::TlaTlUnitdataIndBl(p) && p.tl_sdu
                is Some)
            ||| m.sap is TlmbSap && m.msg is TlmbSyncInd && pdu !is Sysinfo
            ||| m.sap is TlmbSap && m.msg is TlmbSysinfoInd && pdu !is Sync
            ||| m.sap is TlmbSap && (m.msg is TlmbMonitorInd || m.msg is TlmbScanDwellInd)
            ||| m.sap is LmmSap && (m.msg is LmmMleUnitdataReq || m.msg is LmmMleIdentitiesReq)
            ||| m.sap is LmmSap && (m.msg is LmmMleSelectionModeReq || m.msg is LmmMleScanReq)
            ||| m.sap is LmmSap && m.msg is LmmMleCampReq
            ||| m.sap is LcmcSap && (m.msg is LcmcMleUnitdataReq || m.msg is LcmcMleConfigureReq)
        },
{
}

} // verus!
