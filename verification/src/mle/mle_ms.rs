//! Mobile link entity of the mobile station: routing between the link layer and
//! the layer 3 entities, cell selection, scanning and operator surveys
//! (ETSI TS 100 392-2 cl. 17.3, cl. 18.3.4).
//!
//! Levels are in thousandths of a decibel below full scale.

use vstd::prelude::*;

use crate::config::{copy_list, StackConfig};
use crate::mle::pdu::{
    discriminator_bits, leading_discriminator, split_discriminator, with_discriminator,
    DMleSync, DMleSysinfo, MleProtocolDiscriminator,
};
use crate::bits::BitBuffer;
use crate::sap::{
    normal, LcmcMleUnitdataReq, LmmMleActivateConf, LmmMleScanResultInd, LmmMleUnitdataReq,
    MessageQueue, MleUnitdataInd, Msg, MsgInner, MsgInnerView, MsgView, Sap, SapMsg, SapMsgInner,
    TetraEntity, TlaTlDataIndBl, TlaTlDataReqBl, TlmcValidAddress,
};
use crate::umac::uplink::{nothing, Emitted};

verus! {

/// SYNC PDUs of one cell that a survey sees before it stops waiting for the
/// cell's SYSINFO.
pub const SURVEY_SYSINFO_SYNC_LIMIT: u8 = 4;

/// The cell that the station is camped on (cl. 18.3.4), from its SYNC and, once
/// received, its SYSINFO.
#[derive(Clone, Copy, Debug, PartialEq, Eq, Structural)]
pub struct ServingCell {
    pub mcc: u16,
    pub mnc: u16,
    pub neighbor_cell_broadcast: u8,
    pub cell_load_ca: u8,
    pub late_entry_supported: bool,
    pub location_area: Option<u16>,
    pub subscriber_class: Option<u16>,
    pub registration_required: Option<bool>,
    pub system_wide_services: Option<bool>,
}

/// A cell found by an operator survey; the station never camps on it.
#[derive(Clone, Copy, Debug, PartialEq, Eq, Structural)]
pub struct FoundCell {
    pub carrier_hz: u32,
    pub mcc: u16,
    pub mnc: u16,
    pub location_area: Option<u16>,
    pub colour_code: Option<u8>,
    pub rssi_mdbfs: Option<i32>,
    pub registration_required: Option<bool>,
    pub late_entry_supported: bool,
}

/// Mobile link entity of a mobile station.
#[derive(Debug)]
pub struct MleMs {
    pub config: StackConfig,
    pub serving_cell: Option<ServingCell>,
    /// Whether the serving cell has been confirmed to mobility management.
    pub activate_confirmed: bool,
    /// Whether the downlink of the serving cell has failed.
    pub out_of_service: bool,
    pub serving_cell_rssi_mdbfs: Option<i32>,
    /// Whether cell selection steps over the candidate carriers.
    pub scanning: bool,
    pub scan_candidates: Vec<u32>,
    pub scan_index: usize,
    /// Whether the operator drives cell selection.
    pub selection_mode_manual: bool,
    /// Whether the operator has asked to camp on the next suitable cell.
    pub camp_armed: bool,
    pub camp_force_register: bool,
    /// Whether a receive-only survey is under way.
    pub survey: bool,
    pub survey_candidates: Vec<u32>,
    pub survey_index: usize,
    pub survey_pending: Option<FoundCell>,
    pub survey_sync_repeats: u8,
    pub survey_found: u32,
}

/// The mobile link entity as contracts speak of it.
#[verifier::ext_equal]
pub struct MleView {
    pub config: StackConfig,
    pub serving_cell: Option<ServingCell>,
    pub activate_confirmed: bool,
    pub out_of_service: bool,
    pub serving_cell_rssi_mdbfs: Option<i32>,
    pub scanning: bool,
    pub scan_candidates: Seq<u32>,
    pub scan_index: usize,
    pub selection_mode_manual: bool,
    pub camp_armed: bool,
    pub camp_force_register: bool,
    pub survey: bool,
    pub survey_candidates: Seq<u32>,
    pub survey_index: usize,
    pub survey_pending: Option<FoundCell>,
    pub survey_sync_repeats: u8,
    pub survey_found: u32,
}

impl View for MleMs {
    type V = MleView;

    open spec fn view(&self) -> MleView {
        MleView {
            config: self.config,
            serving_cell: self.serving_cell,
            activate_confirmed: self.activate_confirmed,
            out_of_service: self.out_of_service,
            serving_cell_rssi_mdbfs: self.serving_cell_rssi_mdbfs,
            scanning: self.scanning,
            scan_candidates: self.scan_candidates@,
            scan_index: self.scan_index,
            selection_mode_manual: self.selection_mode_manual,
            camp_armed: self.camp_armed,
            camp_force_register: self.camp_force_register,
            survey: self.survey,
            survey_candidates: self.survey_candidates@,
            survey_index: self.survey_index,
            survey_pending: self.survey_pending,
            survey_sync_repeats: self.survey_sync_repeats,
            survey_found: self.survey_found,
        }
    }
}

// ---------------------------------------------------------------------------
// Messages
// ---------------------------------------------------------------------------

/// A message of the MLE to the upper MAC.
pub open spec fn to_umac(m: MsgInnerView) -> MsgView {
    SapMsg { sap: Sap::TlmcSap, src: TetraEntity::Mle, dest: TetraEntity::Umac, msg: m }
}

/// A message of the MLE to mobility management.
pub open spec fn to_mm(m: MsgInnerView) -> MsgView {
    SapMsg { sap: Sap::LmmSap, src: TetraEntity::Mle, dest: TetraEntity::Mm, msg: m }
}

/// A message of the MLE to the circuit mode control entity.
pub open spec fn to_cmce(m: MsgInnerView) -> MsgView {
    SapMsg { sap: Sap::LcmcSap, src: TetraEntity::Mle, dest: TetraEntity::Cmce, msg: m }
}

/// A message of the MLE to the link layer.
pub open spec fn to_llc(m: MsgInnerView) -> MsgView {
    SapMsg { sap: Sap::TlaSap, src: TetraEntity::Mle, dest: TetraEntity::Llc, msg: m }
}

/// The request to tune the receiver to a carrier.
pub open spec fn tune(carrier_hz: u32) -> Emitted {
    seq![normal(to_umac(SapMsgInner::TlmcTuneReq { carrier_hz }))]
}

/// The receive level for mobility management.
pub open spec fn rssi_ind(rssi_mdbfs: Option<i32>) -> Emitted {
    seq![normal(to_mm(SapMsgInner::LmmMleRssiInd { rssi_mdbfs }))]
}

/// What an indication of the link layer becomes: its SDU, without the
/// discriminator, goes to the entity that the discriminator names.
pub open spec fn routed(prim: TlaTlDataIndBl<Seq<bool>>, handle: u32) -> Option<MsgView> {
    let sdu = prim.tl_sdu->0.skip(3);
    let ind = MleUnitdataInd {
        sdu,
        handle,
        received_tetra_address: prim.main_address,
        endpoint_id: prim.endpoint_id,
        link_id: prim.link_id,
        chan_change_resp_req: false,
        chan_change_handle: None,
    };
    match leading_discriminator(prim.tl_sdu->0) {
        Some(MleProtocolDiscriminator::Mm) => Some(
            to_mm(
                SapMsgInner::LmmMleUnitdataInd {
                    sdu,
                    handle,
                    received_address: prim.main_address,
                },
            ),
        ),
        Some(MleProtocolDiscriminator::Cmce) => Some(to_cmce(SapMsgInner::LcmcMleUnitdataInd(ind))),
        Some(MleProtocolDiscriminator::Sndcp) => Some(
            to_cmce(SapMsgInner::LtpdMleUnitdataInd(MleUnitdataInd { handle: 0, ..ind })),
        ),
        _ => None,
    }
}

/// The message, if there is one, as something emitted.
pub open spec fn emitted_opt(m: Option<MsgView>) -> Emitted {
    match m {
        Some(m) => seq![normal(m)],
        None => nothing(),
    }
}

/// The request of mobility management to the link layer.
pub open spec fn mm_request(prim: LmmMleUnitdataReq<Seq<bool>>) -> MsgView {
    to_llc(
        SapMsgInner::TlaTlDataReqBl(
            TlaTlDataReqBl {
                main_address: prim.address,
                link_id: 0,
                endpoint_id: 0,
                tl_sdu: discriminator_bits(MleProtocolDiscriminator::Mm) + prim.sdu,
                pdu_priority: prim.pdu_priority,
                is_emergency: prim.is_emergency,
                stealing_permission: false,
                chan_alloc: None,
                tx_reporter: prim.tx_reporter,
                subscriber_class: 0,
                fcs_flag: false,
                air_interface_encryption: None,
                stealing_repeats_flag: None,
                data_class_info: None,
                req_handle: 0,
                graceful_degradation: None,
            },
        ),
    )
}

/// The request of the circuit mode control entity to the link layer.
pub open spec fn cmce_request(prim: LcmcMleUnitdataReq<Seq<bool>>) -> MsgView {
    to_llc(
        SapMsgInner::TlaTlDataReqBl(
            TlaTlDataReqBl {
                main_address: prim.main_address,
                link_id: prim.link_id,
                endpoint_id: prim.endpoint_id,
                tl_sdu: discriminator_bits(MleProtocolDiscriminator::Cmce) + prim.sdu,
                pdu_priority: None,
                is_emergency: false,
                stealing_permission: prim.stealing_permission,
                chan_alloc: prim.chan_alloc,
                tx_reporter: prim.tx_reporter,
                subscriber_class: 0,
                fcs_flag: false,
                air_interface_encryption: None,
                stealing_repeats_flag: None,
                data_class_info: None,
                req_handle: 0,
                graceful_degradation: None,
            },
        ),
    )
}

/// Own identities for the MAC's receive filter.
pub open spec fn identities_req(a: TlmcValidAddress<Seq<u32>>) -> MsgView {
    to_umac(SapMsgInner::TlmcConfigureReq { valid_addresses: Some(a) })
}

// ---------------------------------------------------------------------------
// Cell selection, as transitions
// ---------------------------------------------------------------------------

impl MleView {
    /// The positions of scan and survey lie inside their candidate lists, a
    /// survey has found at most one cell per carrier that it has left, and there
    /// is no level while out of service.
    pub open spec fn wf(self) -> bool {
        &&& self.in_place()
        &&& self.out_of_service ==> self.serving_cell_rssi_mdbfs is None
    }

    /// What [`MleView::wf`] says of scan and survey.
    pub open spec fn in_place(self) -> bool {
        &&& self.config.scan_candidates@.len() <= u32::MAX
        &&& self.scan_candidates.len() <= u32::MAX
        &&& self.scanning ==> self.scan_index < self.scan_candidates.len()
        &&& self.survey ==> {
            &&& self.survey_index < self.survey_candidates.len()
            &&& self.survey_found <= self.survey_index
        }
        &&& self.survey_candidates.len() <= u32::MAX
        &&& self.survey_index <= self.survey_candidates.len()
    }

    /// A scan starts at the first candidate, where there is one and no scan is
    /// under way.
    pub open spec fn after_start_scan(self) -> (MleView, Emitted) {
        let cands = self.config.scan_candidates@;
        if self.scanning || cands.len() == 0 {
            (self, nothing())
        } else {
            (
                MleView { scan_candidates: cands, scan_index: 0, scanning: true, ..self },
                tune(cands[0]),
            )
        }
    }

    /// A scan moves to the next candidate; after the last comes the first.
    pub open spec fn after_advance_scan(self) -> (MleView, Emitted) {
        if !self.scanning || self.scan_candidates.len() == 0 {
            (self, nothing())
        } else {
            let i = if self.scan_index + 1 < self.scan_candidates.len() {
                self.scan_index + 1
            } else {
                0
            };
            (MleView { scan_index: i as usize, ..self }, tune(self.scan_candidates[i]))
        }
    }

    /// The message that ends a survey.
    pub open spec fn survey_complete(self, scanned: u32) -> Emitted {
        seq![
            normal(
                to_mm(
                    SapMsgInner::LmmMleScanCompleteInd { found: self.survey_found, scanned },
                ),
            ),
        ]
    }

    /// A survey starts: any scan and any camp end, and the receiver goes to the
    /// first candidate. Without candidates it is complete at once, and scan and
    /// camp go on.
    pub open spec fn after_start_survey(self) -> (MleView, Emitted) {
        let cands = self.config.scan_candidates@;
        let v = MleView {
            survey_pending: None,
            survey_sync_repeats: 0,
            survey_found: 0,
            survey_index: 0,
            survey_candidates: cands,
            survey: cands.len() > 0,
            ..self
        };
        if cands.len() == 0 {
            (v, v.survey_complete(0))
        } else {
            (
                MleView {
                    scanning: false,
                    serving_cell: None,
                    activate_confirmed: false,
                    ..v
                },
                tune(cands[0]),
            )
        }
    }

    /// A survey is cancelled; it reports the carriers that it has left behind.
    pub open spec fn after_cancel_survey(self) -> (MleView, Emitted) {
        if !self.survey {
            (self, nothing())
        } else {
            let v = MleView {
                survey: false,
                survey_pending: None,
                survey_sync_repeats: 0,
                ..self
            };
            (v, v.survey_complete(self.survey_index as u32))
        }
    }

    /// A survey moves to the next candidate, or is complete after the last.
    pub open spec fn after_survey_advance(self) -> (MleView, Emitted) {
        let i = self.survey_index + 1;
        let n = self.survey_candidates.len();
        if i >= n {
            let v = MleView {
                survey_index: i as usize,
                survey: false,
                survey_pending: None,
                ..self
            };
            (v, v.survey_complete(n as u32))
        } else {
            (
                MleView { survey_index: i as usize, ..self },
                tune(self.survey_candidates[i]),
            )
        }
    }

    /// The report of a found cell, with the receive level at the time.
    pub open spec fn scan_result(self, cell: FoundCell) -> Emitted {
        seq![
            normal(
                to_mm(
                    SapMsgInner::LmmMleScanResultInd(
                        LmmMleScanResultInd {
                            carrier_hz: cell.carrier_hz,
                            mcc: cell.mcc,
                            mnc: cell.mnc,
                            location_area: cell.location_area,
                            colour_code: cell.colour_code,
                            rssi_mdbfs: self.serving_cell_rssi_mdbfs,
                            registration_required: cell.registration_required,
                            late_entry_supported: cell.late_entry_supported,
                        },
                    ),
                ),
            ),
        ]
    }

    /// A survey is done with the tuned carrier: the cell found on it, if any, is
    /// reported, and the survey moves on.
    pub open spec fn after_survey_finalize(self) -> (MleView, Emitted) {
        match self.survey_pending {
            Some(cell) => {
                let (v, moved) = MleView {
                    survey_pending: None,
                    survey_sync_repeats: 0,
                    survey_found: (self.survey_found + 1) as u32,
                    ..self
                }.after_survey_advance();
                (v, self.scan_result(cell) + moved)
            },
            None => MleView { survey_sync_repeats: 0, ..self }.after_survey_advance(),
        }
    }

    /// The dwell on the tuned survey carrier has elapsed.
    pub open spec fn after_survey_dwell(self) -> (MleView, Emitted) {
        if self.survey_pending is Some {
            self.after_survey_finalize()
        } else {
            self.after_survey_advance()
        }
    }

    /// The dwell on the tuned carrier has elapsed without a downlink: a survey
    /// moves on; otherwise, without a serving cell and in automatic mode, the
    /// scan moves on or starts.
    pub open spec fn after_dwell(self) -> (MleView, Emitted) {
        if self.survey {
            self.after_survey_dwell()
        } else if self.serving_cell is Some || self.selection_mode_manual {
            (self, nothing())
        } else if self.scanning {
            self.after_advance_scan()
        } else {
            self.after_start_scan()
        }
    }

    /// The receive level changes: mobility management is told.
    pub open spec fn after_rssi(self, rssi_mdbfs: Option<i32>) -> (MleView, Emitted) {
        if rssi_mdbfs is Some && self.serving_cell_rssi_mdbfs != rssi_mdbfs {
            (MleView { serving_cell_rssi_mdbfs: rssi_mdbfs, ..self }, rssi_ind(rssi_mdbfs))
        } else {
            (self, nothing())
        }
    }

    /// The downlink of the serving cell fails, or comes back; anything else is
    /// no change. A failure breaks the link to the layers above and gives the
    /// cell up; a recovery reopens it.
    pub open spec fn after_monitor(self, downlink_available: bool) -> (MleView, Emitted) {
        if !downlink_available && !self.out_of_service {
            (
                MleView {
                    out_of_service: true,
                    serving_cell: None,
                    activate_confirmed: false,
                    serving_cell_rssi_mdbfs: None,
                    ..self
                },
                seq![
                    normal(to_cmce(SapMsgInner::LcmcMleBreakInd { permitted_services: 0 })),
                    normal(to_mm(SapMsgInner::LmmMleBreakInd)),
                ] + if self.serving_cell_rssi_mdbfs is Some {
                    rssi_ind(None)
                } else {
                    nothing()
                },
            )
        } else if downlink_available && self.out_of_service {
            (
                MleView { out_of_service: false, ..self },
                seq![
                    normal(to_cmce(SapMsgInner::LcmcMleReopenInd)),
                    normal(to_mm(SapMsgInner::LmmMleReopenInd)),
                ],
            )
        } else {
            (self, nothing())
        }
    }

    /// Whether the cell admits the station's subscriber class; a station without
    /// a class is admitted everywhere.
    pub open spec fn class_permitted(self, cell_bitmap: u16) -> bool {
        match self.config.ms {
            Some(ms) => if 1 <= ms.subscriber_class <= 16 {
                (cell_bitmap >> ((ms.subscriber_class - 1) as u16)) & 1 == 1
            } else {
                true
            },
            None => true,
        }
    }

    /// Whether a SYNC is of another cell than the serving one.
    pub open spec fn newly_selected(self, pdu: DMleSync) -> bool {
        match self.serving_cell {
            Some(c) => c.mcc != pdu.mcc || c.mnc != pdu.mnc,
            None => true,
        }
    }

    /// A SYNC during a survey: a new cell is noted; a repeated one is reported
    /// without its SYSINFO once it has been seen often enough.
    pub open spec fn after_survey_sync(self, pdu: DMleSync) -> (MleView, Emitted) {
        let same = self.survey_pending matches Some(c) && c.mcc == pdu.mcc && c.mnc == pdu.mnc;
        if same {
            let n = if self.survey_sync_repeats < u8::MAX {
                (self.survey_sync_repeats + 1) as u8
            } else {
                u8::MAX
            };
            let v = MleView { survey_sync_repeats: n, ..self };
            if n >= SURVEY_SYSINFO_SYNC_LIMIT {
                v.after_survey_finalize()
            } else {
                (v, nothing())
            }
        } else {
            (
                MleView {
                    survey_sync_repeats: 0,
                    survey_pending: Some(
                        FoundCell {
                            carrier_hz: self.survey_candidates[self.survey_index as int],
                            mcc: pdu.mcc,
                            mnc: pdu.mnc,
                            location_area: None,
                            colour_code: None,
                            rssi_mdbfs: self.serving_cell_rssi_mdbfs,
                            registration_required: None,
                            late_entry_supported: pdu.late_entry_supported,
                        },
                    ),
                    ..self
                },
                nothing(),
            )
        }
    }

    /// The serving cell after its SYNC; what its SYSINFO said is kept for the
    /// same cell.
    pub open spec fn adopted(self, pdu: DMleSync) -> ServingCell {
        let fresh = ServingCell {
            mcc: pdu.mcc,
            mnc: pdu.mnc,
            neighbor_cell_broadcast: pdu.neighbor_cell_broadcast,
            cell_load_ca: pdu.cell_load_ca,
            late_entry_supported: pdu.late_entry_supported,
            location_area: None,
            subscriber_class: None,
            registration_required: None,
            system_wide_services: None,
        };
        if self.newly_selected(pdu) {
            fresh
        } else {
            let c = self.serving_cell->0;
            ServingCell {
                location_area: c.location_area,
                subscriber_class: c.subscriber_class,
                registration_required: c.registration_required,
                system_wide_services: c.system_wide_services,
                ..fresh
            }
        }
    }

    /// A SYNC (cl. 18.3.4.6): outside a survey, a new cell is selected when its
    /// network is allowed and, in manual mode, a camp is armed; the MAC is then
    /// told the network. A disallowed cell moves a scan on.
    pub open spec fn after_sync(self, pdu: DMleSync) -> (MleView, Emitted) {
        let newly = self.newly_selected(pdu);
        if self.survey {
            self.after_survey_sync(pdu)
        } else if self.selection_mode_manual && newly && !self.camp_armed {
            (self, nothing())
        } else if newly && !self.config.allows_network(pdu.mcc, pdu.mnc) {
            self.after_advance_scan()
        } else {
            (
                MleView {
                    serving_cell: Some(self.adopted(pdu)),
                    activate_confirmed: self.activate_confirmed && !newly,
                    ..self
                },
                if newly {
                    seq![
                        normal(
                            identities_req(
                                TlmcValidAddress {
                                    mcc: pdu.mcc,
                                    mnc: pdu.mnc,
                                    individual_ssi: None,
                                    group_ssis: None,
                                },
                            ),
                        ),
                    ]
                } else {
                    nothing()
                },
            )
        }
    }

    /// A SYSINFO: a survey completes the pending cell with it. Otherwise the
    /// serving cell adopts it, and is confirmed to mobility management when it
    /// has not been yet or its location area or its system wide services change,
    /// provided that it admits the station's subscriber class; a cell that does
    /// not is given up by a scan.
    pub open spec fn after_sysinfo(self, pdu: DMleSysinfo) -> (MleView, Emitted) {
        if self.survey {
            match self.survey_pending {
                Some(cell) => MleView {
                    survey_pending: Some(
                        FoundCell {
                            location_area: Some(pdu.location_area),
                            registration_required: Some(pdu.registration),
                            ..cell
                        },
                    ),
                    ..self
                }.after_survey_finalize(),
                None => (self, nothing()),
            }
        } else {
            match self.serving_cell {
                None => (self, nothing()),
                Some(cell) => {
                    let changed = cell.location_area != Some(pdu.location_area)
                        || cell.system_wide_services != Some(pdu.system_wide_services);
                    let v = MleView {
                        serving_cell: Some(
                            ServingCell {
                                location_area: Some(pdu.location_area),
                                subscriber_class: Some(pdu.subscriber_class),
                                registration_required: Some(pdu.registration),
                                system_wide_services: Some(pdu.system_wide_services),
                                ..cell
                            },
                        ),
                        ..self
                    };
                    if self.activate_confirmed && !changed {
                        (v, nothing())
                    } else if !self.class_permitted(pdu.subscriber_class) {
                        if self.scanning {
                            MleView {
                                serving_cell: None,
                                activate_confirmed: false,
                                ..v
                            }.after_advance_scan()
                        } else {
                            (v, nothing())
                        }
                    } else {
                        (
                            MleView {
                                activate_confirmed: true,
                                scanning: false,
                                camp_armed: false,
                                ..v
                            },
                            seq![
                                normal(
                                    to_mm(
                                        SapMsgInner::LmmMleActivateConf(
                                            LmmMleActivateConf {
                                                registration_required: pdu.registration,
                                                mcc: cell.mcc,
                                                mnc: cell.mnc,
                                                la: pdu.location_area,
                                                system_wide_services: pdu.system_wide_services,
                                                cell_type: 0,
                                            },
                                        ),
                                    ),
                                ),
                            ],
                        )
                    }
                },
            }
        }
    }

    /// The operator sets the selection mode; a change disarms a camp, and manual
    /// mode ends a scan.
    pub open spec fn after_selection_mode(self, manual: bool) -> MleView {
        if self.selection_mode_manual == manual {
            self
        } else {
            MleView {
                selection_mode_manual: manual,
                camp_armed: false,
                camp_force_register: false,
                scanning: self.scanning && !manual,
                ..self
            }
        }
    }

    /// The operator asks to camp on a carrier: where the carrier is among the
    /// programmed candidates, survey, scan and camp end, and the next suitable
    /// cell will be adopted; otherwise the request is rejected.
    pub open spec fn after_camp(self, carrier_hz: u32, register: bool) -> (MleView, Emitted) {
        let cands = self.config.scan_candidates@;
        if !cands.contains(carrier_hz) {
            (self, nothing())
        } else {
            (
                MleView {
                    survey: false,
                    survey_pending: None,
                    scanning: false,
                    serving_cell: None,
                    activate_confirmed: false,
                    camp_armed: true,
                    camp_force_register: register,
                    ..self
                },
                tune(carrier_hz),
            )
        }
    }
}

// ---------------------------------------------------------------------------
// Building messages
// ---------------------------------------------------------------------------

fn umac_msg(m: MsgInner) -> (r: Msg)
    ensures
        r@ == to_umac(m@),
{
    SapMsg { sap: Sap::TlmcSap, src: TetraEntity::Mle, dest: TetraEntity::Umac, msg: m }
}

fn mm_msg(m: MsgInner) -> (r: Msg)
    ensures
        r@ == to_mm(m@),
{
    SapMsg { sap: Sap::LmmSap, src: TetraEntity::Mle, dest: TetraEntity::Mm, msg: m }
}

fn cmce_msg(m: MsgInner) -> (r: Msg)
    ensures
        r@ == to_cmce(m@),
{
    SapMsg { sap: Sap::LcmcSap, src: TetraEntity::Mle, dest: TetraEntity::Cmce, msg: m }
}

pub(crate) fn llc_msg(m: MsgInner) -> (r: Msg)
    ensures
        r@ == to_llc(m@),
{
    SapMsg { sap: Sap::TlaSap, src: TetraEntity::Mle, dest: TetraEntity::Llc, msg: m }
}

/// What an indication of the link layer becomes.
pub(crate) fn route(prim: TlaTlDataIndBl<BitBuffer>, handle: u32) -> (r: Option<Msg>)
    requires
        prim.tl_sdu is Some,
    ensures
        (match r {
            Some(m) => Some(m@),
            None => None,
        }) == routed(prim@, handle),
{
    let sdu = match prim.tl_sdu {
        Some(sdu) => sdu,
        None => {
            return None;
        },
    };
    match split_discriminator(&sdu) {
        Some((MleProtocolDiscriminator::Mm, rest)) => Some(
            mm_msg(
                SapMsgInner::LmmMleUnitdataInd {
                    sdu: rest,
                    handle,
                    received_address: prim.main_address,
                },
            ),
        ),
        Some((MleProtocolDiscriminator::Cmce, rest)) => Some(
            cmce_msg(
                SapMsgInner::LcmcMleUnitdataInd(
                    MleUnitdataInd {
                        sdu: rest,
                        handle,
                        received_tetra_address: prim.main_address,
                        endpoint_id: prim.endpoint_id,
                        link_id: prim.link_id,
                        chan_change_resp_req: false,
                        chan_change_handle: None,
                    },
                ),
            ),
        ),
        Some((MleProtocolDiscriminator::Sndcp, rest)) => Some(
            cmce_msg(
                SapMsgInner::LtpdMleUnitdataInd(
                    MleUnitdataInd {
                        sdu: rest,
                        handle: 0,
                        received_tetra_address: prim.main_address,
                        endpoint_id: prim.endpoint_id,
                        link_id: prim.link_id,
                        chan_change_resp_req: false,
                        chan_change_handle: None,
                    },
                ),
            ),
        ),
        _ => None,
    }
}

/// Whether a list holds a number.
fn list_contains(v: &Vec<u32>, x: u32) -> (r: bool)
    ensures
        r == v@.contains(x),
{
    let mut i: usize = 0;
    while i < v.len()
        invariant
            i <= v@.len(),
            forall|j: int| 0 <= j < i ==> v@[j] != x,
        decreases v@.len() - i,
    {
        if v[i] == x {
            return true;
        }
        i = i + 1;
    }
    false
}

impl MleMs {
    /// A mobile link entity without a serving cell, in automatic mode.
    pub fn new(config: StackConfig) -> (r: MleMs)
        requires
            config.scan_candidates@.len() <= u32::MAX,
        ensures
            r@.wf(),
            r@ == (MleView {
                config,
                serving_cell: None,
                activate_confirmed: false,
                out_of_service: false,
                serving_cell_rssi_mdbfs: None,
                scanning: false,
                scan_candidates: Seq::empty(),
                scan_index: 0,
                selection_mode_manual: false,
                camp_armed: false,
                camp_force_register: false,
                survey: false,
                survey_candidates: Seq::empty(),
                survey_index: 0,
                survey_pending: None,
                survey_sync_repeats: 0,
                survey_found: 0,
            }),
    {
        MleMs {
            config,
            serving_cell: None,
            activate_confirmed: false,
            out_of_service: false,
            serving_cell_rssi_mdbfs: None,
            scanning: false,
            scan_candidates: Vec::new(),
            scan_index: 0,
            selection_mode_manual: false,
            camp_armed: false,
            camp_force_register: false,
            survey: false,
            survey_candidates: Vec::new(),
            survey_index: 0,
            survey_pending: None,
            survey_sync_repeats: 0,
            survey_found: 0,
        }
    }

    /// Route a TL-DATA indication to the entity that its discriminator names.
    pub fn rx_tla_data_ind_bl(&self, queue: &mut MessageQueue, prim: TlaTlDataIndBl<BitBuffer>)
        requires
            prim.tl_sdu is Some,
        ensures
            final(queue)@ == old(queue)@ + emitted_opt(routed(prim@, 0)),
    {
        if let Some(msg) = route(prim, 0) {
            queue.push_back(msg);
        }
    }

    /// Route a TL-UNITDATA indication to the entity that its discriminator
    /// names.
    pub fn rx_tla_unitdata_ind_bl(&self, queue: &mut MessageQueue, prim: TlaTlDataIndBl<BitBuffer>)
        requires
            prim.tl_sdu is Some,
        ensures
            final(queue)@ == old(queue)@ + emitted_opt(routed(prim@, 0)),
    {
        if let Some(msg) = route(prim, 0) {
            queue.push_back(msg);
        }
    }

    /// Whether the network may be used.
    pub fn network_allowed(&self, mcc: u16, mnc: u16) -> (r: bool)
        ensures
            r == self.config.allows_network(mcc, mnc),
    {
        self.config.is_network_allowed(mcc, mnc)
    }

    /// Whether a cell with this class bitmap admits the station.
    pub fn subscriber_class_permitted(&self, cell_bitmap: u16) -> (r: bool)
        ensures
            r == self@.class_permitted(cell_bitmap),
    {
        match &self.config.ms {
            Some(ms) => {
                if ms.subscriber_class >= 1 && ms.subscriber_class <= 16 {
                    let shift: u16 = ms.subscriber_class - 1;
                    (cell_bitmap >> shift) & 1 == 1
                } else {
                    true
                }
            },
            None => true,
        }
    }

    /// Ask for the receiver to be tuned to a carrier.
    pub fn request_tune(&self, queue: &mut MessageQueue, carrier_hz: u32)
        ensures
            final(queue)@ == old(queue)@ + tune(carrier_hz),
    {
        queue.push_back(umac_msg(SapMsgInner::TlmcTuneReq { carrier_hz }));
    }

    /// Start a scan over the candidates, unless one is under way.
    pub fn start_scan(&mut self, queue: &mut MessageQueue)
        requires
            old(self)@.wf(),
        ensures
            final(self)@.wf(),
            final(self)@ == old(self)@.after_start_scan().0,
            final(queue)@ == old(queue)@ + old(self)@.after_start_scan().1,
    {
        if self.scanning || self.config.scan_candidates.len() == 0 {
            return ;
        }
        self.scan_candidates = copy_list(&self.config.scan_candidates);
        self.scan_index = 0;
        self.scanning = true;
        let first: u32 = self.scan_candidates[0];
        self.request_tune(queue, first);
    }

    /// Move a scan to the next candidate.
    pub fn advance_scan(&mut self, queue: &mut MessageQueue)
        requires
            old(self)@.wf(),
        ensures
            final(self)@.wf(),
            final(self)@ == old(self)@.after_advance_scan().0,
            final(queue)@ == old(queue)@ + old(self)@.after_advance_scan().1,
    {
        if !self.scanning || self.scan_candidates.len() == 0 {
            return ;
        }
        self.scan_index = if self.scan_index + 1 < self.scan_candidates.len() {
            self.scan_index + 1
        } else {
            0
        };
        let next: u32 = self.scan_candidates[self.scan_index];
        self.request_tune(queue, next);
    }

    /// Report the end of a survey.
    fn emit_scan_complete(&self, queue: &mut MessageQueue, scanned: u32)
        ensures
            final(queue)@ == old(queue)@ + self@.survey_complete(scanned),
    {
        queue.push_back(
            mm_msg(SapMsgInner::LmmMleScanCompleteInd { found: self.survey_found, scanned }),
        );
    }

    /// Report a found cell.
    fn emit_scan_result(&self, queue: &mut MessageQueue, cell: &FoundCell)
        ensures
            final(queue)@ == old(queue)@ + self@.scan_result(*cell),
    {
        queue.push_back(
            mm_msg(
                SapMsgInner::LmmMleScanResultInd(
                    LmmMleScanResultInd {
                        carrier_hz: cell.carrier_hz,
                        mcc: cell.mcc,
                        mnc: cell.mnc,
                        location_area: cell.location_area,
                        colour_code: cell.colour_code,
                        rssi_mdbfs: self.serving_cell_rssi_mdbfs,
                        registration_required: cell.registration_required,
                        late_entry_supported: cell.late_entry_supported,
                    },
                ),
            ),
        );
    }

    /// Start a receive-only survey over the candidates.
    pub fn start_survey(&mut self, queue: &mut MessageQueue)
        requires
            old(self)@.wf(),
        ensures
            final(self)@.wf(),
            final(self)@ == old(self)@.after_start_survey().0,
            final(queue)@ == old(queue)@ + old(self)@.after_start_survey().1,
    {
        self.survey_pending = None;
        self.survey_sync_repeats = 0;
        self.survey_found = 0;
        self.survey_index = 0;
        self.survey_candidates = copy_list(&self.config.scan_candidates);
        if self.survey_candidates.len() == 0 {
            self.survey = false;
            self.emit_scan_complete(queue, 0);
            return ;
        }
        self.scanning = false;
        self.serving_cell = None;
        self.activate_confirmed = false;
        self.survey = true;
        let first: u32 = self.survey_candidates[0];
        self.request_tune(queue, first);
    }

    /// Cancel a survey, if one is under way.
    pub fn cancel_survey(&mut self, queue: &mut MessageQueue)
        requires
            old(self)@.wf(),
        ensures
            final(self)@.wf(),
            final(self)@ == old(self)@.after_cancel_survey().0,
            final(queue)@ == old(queue)@ + old(self)@.after_cancel_survey().1,
    {
        if !self.survey {
            return ;
        }
        let scanned: u32 = self.survey_index as u32;
        self.survey = false;
        self.survey_pending = None;
        self.survey_sync_repeats = 0;
        self.emit_scan_complete(queue, scanned);
    }

    /// Move a survey to the next candidate, or end it after the last.
    fn survey_advance(&mut self, queue: &mut MessageQueue)
        requires
            old(self)@.survey_index < old(self)@.survey_candidates.len(),
            old(self)@.survey_candidates.len() <= u32::MAX,
        ensures
            final(self)@ == old(self)@.after_survey_advance().0,
            final(queue)@ == old(queue)@ + old(self)@.after_survey_advance().1,
    {
        self.survey_index = self.survey_index + 1;
        if self.survey_index >= self.survey_candidates.len() {
            let scanned: u32 = self.survey_candidates.len() as u32;
            self.survey = false;
            self.survey_pending = None;
            self.emit_scan_complete(queue, scanned);
            return ;
        }
        let next: u32 = self.survey_candidates[self.survey_index];
        self.request_tune(queue, next);
    }

    /// Report the cell found on the tuned survey carrier, if any, and move on.
    pub fn survey_finalize_pending(&mut self, queue: &mut MessageQueue)
        requires
            old(self)@.wf(),
            old(self)@.survey,
        ensures
            final(self)@.wf(),
            final(self)@ == old(self)@.after_survey_finalize().0,
            final(queue)@ == old(queue)@ + old(self)@.after_survey_finalize().1,
    {
        let ghost q0 = queue@;
        if let Some(cell) = self.survey_pending {
            self.survey_pending = None;
            self.survey_found = self.survey_found + 1;
            self.emit_scan_result(queue, &cell);
        }
        self.survey_sync_repeats = 0;
        let ghost q1 = queue@;
        self.survey_advance(queue);
        proof {
            if let Some(cell) = old(self)@.survey_pending {
                let moved = queue@.skip(q1.len() as int);
                assert(queue@ == q1 + moved);
                assert(q1 == q0 + old(self)@.scan_result(cell));
                assert(queue@ == q0 + (old(self)@.scan_result(cell) + moved));
            }
        }
    }

    /// The dwell on the tuned survey carrier has elapsed.
    pub fn survey_on_dwell(&mut self, queue: &mut MessageQueue)
        requires
            old(self)@.wf(),
            old(self)@.survey,
        ensures
            final(self)@.wf(),
            final(self)@ == old(self)@.after_survey_dwell().0,
            final(queue)@ == old(queue)@ + old(self)@.after_survey_dwell().1,
    {
        if self.survey_pending.is_some() {
            self.survey_finalize_pending(queue);
        } else {
            self.survey_advance(queue);
        }
    }

    /// The dwell on the tuned carrier has elapsed without a downlink.
    pub fn rx_tlmb_scan_dwell_ind(&mut self, queue: &mut MessageQueue)
        requires
            old(self)@.wf(),
        ensures
            final(self)@.wf(),
            final(self)@ == old(self)@.after_dwell().0,
            final(queue)@ == old(queue)@ + old(self)@.after_dwell().1,
    {
        if self.survey {
            self.survey_on_dwell(queue);
            return ;
        }
        if self.serving_cell.is_some() || self.selection_mode_manual {
            return ;
        }
        if self.scanning {
            self.advance_scan(queue);
        } else {
            self.start_scan(queue);
        }
    }

    /// Tell mobility management the receive level.
    fn emit_rssi_to_mm(&self, queue: &mut MessageQueue)
        ensures
            final(queue)@ == old(queue)@ + rssi_ind(self@.serving_cell_rssi_mdbfs),
    {
        queue.push_back(
            mm_msg(SapMsgInner::LmmMleRssiInd { rssi_mdbfs: self.serving_cell_rssi_mdbfs }),
        );
    }

    /// Take a new receive level.
    fn update_rssi(&mut self, queue: &mut MessageQueue, rssi_mdbfs: Option<i32>)
        ensures
            final(self)@ == old(self)@.after_rssi(rssi_mdbfs).0,
            final(queue)@ == old(queue)@ + old(self)@.after_rssi(rssi_mdbfs).1,
    {
        if rssi_mdbfs.is_some() && self.serving_cell_rssi_mdbfs != rssi_mdbfs {
            self.serving_cell_rssi_mdbfs = rssi_mdbfs;
            self.emit_rssi_to_mm(queue);
        }
    }

    /// The downlink has failed: break the link to the layers above and give the
    /// cell up.
    fn declare_link_failure(&mut self, queue: &mut MessageQueue)
        requires
            !old(self)@.out_of_service,
        ensures
            final(self)@ == old(self)@.after_monitor(false).0,
            final(queue)@ == old(queue)@ + old(self)@.after_monitor(false).1,
    {
        self.out_of_service = true;
        queue.push_back(cmce_msg(SapMsgInner::LcmcMleBreakInd { permitted_services: 0 }));
        queue.push_back(mm_msg(SapMsgInner::LmmMleBreakInd));
        self.serving_cell = None;
        self.activate_confirmed = false;
        if self.serving_cell_rssi_mdbfs.is_some() {
            self.serving_cell_rssi_mdbfs = None;
            self.emit_rssi_to_mm(queue);
        }
    }

    /// The downlink has come back: reopen the link to the layers above.
    fn declare_link_recovery(&mut self, queue: &mut MessageQueue)
        requires
            old(self)@.out_of_service,
        ensures
            final(self)@ == old(self)@.after_monitor(true).0,
            final(queue)@ == old(queue)@ + old(self)@.after_monitor(true).1,
    {
        self.out_of_service = false;
        queue.push_back(cmce_msg(SapMsgInner::LcmcMleReopenInd));
        queue.push_back(mm_msg(SapMsgInner::LmmMleReopenInd));
    }

    /// Take the state of the serving cell's downlink.
    pub fn rx_tlmb_monitor_ind(&mut self, queue: &mut MessageQueue, downlink_available: bool)
        requires
            old(self)@.in_place(),
        ensures
            final(self)@.in_place(),
            old(self)@.wf() || downlink_available ==> final(self)@.wf(),
            final(self)@ == old(self)@.after_monitor(downlink_available).0,
            final(queue)@ == old(queue)@ + old(self)@.after_monitor(downlink_available).1,
    {
        if !downlink_available && !self.out_of_service {
            self.declare_link_failure(queue);
        } else if downlink_available && self.out_of_service {
            self.declare_link_recovery(queue);
        }
    }

    /// Confirm the serving cell to mobility management.
    fn send_mle_activate_conf(&mut self, queue: &mut MessageQueue, conf: LmmMleActivateConf)
        ensures
            final(self)@ == (MleView { camp_armed: false, ..old(self)@ }),
            final(queue)@ == old(queue)@.push(
                normal(to_mm(SapMsgInner::LmmMleActivateConf(conf))),
            ),
    {
        queue.push_back(mm_msg(SapMsgInner::LmmMleActivateConf(conf)));
        self.camp_armed = false;
    }

    /// Take a SYSINFO.
    pub fn rx_tlmb_tl_sysinfo_ind(&mut self, queue: &mut MessageQueue, pdu: &DMleSysinfo)
        requires
            old(self)@.wf(),
        ensures
            final(self)@.wf(),
            final(self)@ == old(self)@.after_sysinfo(*pdu).0,
            final(queue)@ == old(queue)@ + old(self)@.after_sysinfo(*pdu).1,
    {
        if self.survey {
            if let Some(mut cell) = self.survey_pending {
                cell.location_area = Some(pdu.location_area);
                cell.registration_required = Some(pdu.registration);
                self.survey_pending = Some(cell);
                self.survey_finalize_pending(queue);
            }
            return ;
        }
        let mut cell = match self.serving_cell {
            Some(cell) => cell,
            None => {
                return ;
            },
        };
        let changed: bool = cell.location_area != Some(pdu.location_area)
            || cell.system_wide_services != Some(pdu.system_wide_services);
        cell.location_area = Some(pdu.location_area);
        cell.subscriber_class = Some(pdu.subscriber_class);
        cell.registration_required = Some(pdu.registration);
        cell.system_wide_services = Some(pdu.system_wide_services);
        self.serving_cell = Some(cell);
        if self.activate_confirmed && !changed {
            return ;
        }
        if !self.subscriber_class_permitted(pdu.subscriber_class) {
            if self.scanning {
                self.serving_cell = None;
                self.activate_confirmed = false;
                self.advance_scan(queue);
            }
            return ;
        }
        self.activate_confirmed = true;
        self.scanning = false;
        self.send_mle_activate_conf(
            queue,
            LmmMleActivateConf {
                registration_required: pdu.registration,
                mcc: cell.mcc,
                mnc: cell.mnc,
                la: pdu.location_area,
                system_wide_services: pdu.system_wide_services,
                cell_type: 0,
            },
        );
    }

    /// Take a SYNC.
    pub fn rx_tlmb_tl_sync_ind(&mut self, queue: &mut MessageQueue, pdu: &DMleSync)
        requires
            old(self)@.wf(),
        ensures
            final(self)@.wf(),
            final(self)@ == old(self)@.after_sync(*pdu).0,
            final(queue)@ == old(queue)@ + old(self)@.after_sync(*pdu).1,
    {
        let newly: bool = match &self.serving_cell {
            Some(c) => c.mcc != pdu.mcc || c.mnc != pdu.mnc,
            None => true,
        };
        if self.survey {
            let same: bool = match &self.survey_pending {
                Some(c) => c.mcc == pdu.mcc && c.mnc == pdu.mnc,
                None => false,
            };
            if same {
                if self.survey_sync_repeats < u8::MAX {
                    self.survey_sync_repeats = self.survey_sync_repeats + 1;
                }
                if self.survey_sync_repeats >= SURVEY_SYSINFO_SYNC_LIMIT {
                    self.survey_finalize_pending(queue);
                }
            } else {
                let carrier_hz: u32 = self.survey_candidates[self.survey_index];
                self.survey_sync_repeats = 0;
                self.survey_pending = Some(
                    FoundCell {
                        carrier_hz,
                        mcc: pdu.mcc,
                        mnc: pdu.mnc,
                        location_area: None,
                        colour_code: None,
                        rssi_mdbfs: self.serving_cell_rssi_mdbfs,
                        registration_required: None,
                        late_entry_supported: pdu.late_entry_supported,
                    },
                );
            }
            return ;
        }
        if self.selection_mode_manual && newly && !self.camp_armed {
            return ;
        }
        if newly && !self.network_allowed(pdu.mcc, pdu.mnc) {
            self.advance_scan(queue);
            return ;
        }
        let (location_area, subscriber_class, registration_required, system_wide_services) =
            match self.serving_cell {
            Some(c) => if newly {
                (None, None, None, None)
            } else {
                (
                    c.location_area,
                    c.subscriber_class,
                    c.registration_required,
                    c.system_wide_services,
                )
            },
            None => (None, None, None, None),
        };
        self.serving_cell = Some(
            ServingCell {
                mcc: pdu.mcc,
                mnc: pdu.mnc,
                neighbor_cell_broadcast: pdu.neighbor_cell_broadcast,
                cell_load_ca: pdu.cell_load_ca,
                late_entry_supported: pdu.late_entry_supported,
                location_area,
                subscriber_class,
                registration_required,
                system_wide_services,
            },
        );
        if !newly {
            return ;
        }
        self.activate_confirmed = false;
        queue.push_back(
            umac_msg(
                SapMsgInner::TlmcConfigureReq {
                    valid_addresses: Some(
                        TlmcValidAddress {
                            mcc: pdu.mcc,
                            mnc: pdu.mnc,
                            individual_ssi: None,
                            group_ssis: None,
                        },
                    ),
                },
            ),
        );
    }
}

// ---------------------------------------------------------------------------
// Requests from above
// ---------------------------------------------------------------------------

impl MleMs {
    /// Set whether the operator drives cell selection.
    pub fn rx_lmm_mle_selection_mode_req(&mut self, manual: bool)
        requires
            old(self)@.wf(),
        ensures
            final(self)@.wf(),
            final(self)@ == old(self)@.after_selection_mode(manual),
    {
        if self.selection_mode_manual == manual {
            return ;
        }
        self.selection_mode_manual = manual;
        self.camp_armed = false;
        self.camp_force_register = false;
        if manual {
            self.scanning = false;
        }
    }

    /// Start or cancel a survey.
    pub fn rx_lmm_mle_scan_req(&mut self, queue: &mut MessageQueue, start: bool)
        requires
            old(self)@.wf(),
        ensures
            final(self)@.wf(),
            final(self)@ == old(self)@.after_scan_req(start).0,
            final(queue)@ == old(queue)@ + old(self)@.after_scan_req(start).1,
    {
        if start {
            self.start_survey(queue);
        } else {
            self.cancel_survey(queue);
        }
    }

    /// Camp on the next suitable cell of a carrier.
    pub fn rx_lmm_mle_camp_req(&mut self, queue: &mut MessageQueue, carrier_hz: u32, register: bool)
        requires
            old(self)@.wf(),
        ensures
            final(self)@.wf(),
            final(self)@ == old(self)@.after_camp(carrier_hz, register).0,
            final(queue)@ == old(queue)@ + old(self)@.after_camp(carrier_hz, register).1,
    {
        if !list_contains(&self.config.scan_candidates, carrier_hz) {
            return ;
        }
        self.survey = false;
        self.survey_pending = None;
        self.scanning = false;
        self.serving_cell = None;
        self.activate_confirmed = false;
        self.camp_armed = true;
        self.camp_force_register = register;
        self.request_tune(queue, carrier_hz);
    }

    /// Hand the station's identities to the MAC's receive filter.
    pub fn rx_lmm_mle_identities_req(
        &self,
        queue: &mut MessageQueue,
        issi: u32,
        attached_gssis: Vec<u32>,
    )
        ensures
            final(queue)@ == old(queue)@ + self@.identities(issi, attached_gssis@),
    {
        queue.push_back(
            umac_msg(
                SapMsgInner::TlmcConfigureReq {
                    valid_addresses: Some(
                        TlmcValidAddress {
                            mcc: self.config.mcc,
                            mnc: self.config.mnc,
                            individual_ssi: Some(issi),
                            group_ssis: Some(attached_gssis),
                        },
                    ),
                },
            ),
        );
    }

    /// Send a PDU of mobility management.
    pub fn rx_lmm_mle_unitdata_req(
        &self,
        queue: &mut MessageQueue,
        prim: LmmMleUnitdataReq<BitBuffer>,
    )
        ensures
            final(queue)@ == old(queue)@.push(normal(mm_request(prim@))),
    {
        queue.push_back(
            llc_msg(
                SapMsgInner::TlaTlDataReqBl(
                    TlaTlDataReqBl {
                        main_address: prim.address,
                        link_id: 0,
                        endpoint_id: 0,
                        tl_sdu: with_discriminator(MleProtocolDiscriminator::Mm, &prim.sdu),
                        pdu_priority: prim.pdu_priority,
                        is_emergency: prim.is_emergency,
                        stealing_permission: false,
                        chan_alloc: None,
                        tx_reporter: prim.tx_reporter,
                        subscriber_class: 0,
                        fcs_flag: false,
                        air_interface_encryption: None,
                        stealing_repeats_flag: None,
                        data_class_info: None,
                        req_handle: 0,
                        graceful_degradation: None,
                    },
                ),
            ),
        );
    }

    /// Send a PDU of the circuit mode control entity.
    pub fn rx_lcmc_mle_unitdata_req(
        &self,
        queue: &mut MessageQueue,
        prim: LcmcMleUnitdataReq<BitBuffer>,
    )
        ensures
            final(queue)@ == old(queue)@.push(normal(cmce_request(prim@))),
    {
        queue.push_back(
            llc_msg(
                SapMsgInner::TlaTlDataReqBl(
                    TlaTlDataReqBl {
                        main_address: prim.main_address,
                        link_id: prim.link_id,
                        endpoint_id: prim.endpoint_id,
                        tl_sdu: with_discriminator(MleProtocolDiscriminator::Cmce, &prim.sdu),
                        pdu_priority: None,
                        is_emergency: false,
                        stealing_permission: prim.stealing_permission,
                        chan_alloc: prim.chan_alloc,
                        tx_reporter: prim.tx_reporter,
                        subscriber_class: 0,
                        fcs_flag: false,
                        air_interface_encryption: None,
                        stealing_repeats_flag: None,
                        data_class_info: None,
                        req_handle: 0,
                        graceful_degradation: None,
                    },
                ),
            ),
        );
    }
}

// ---------------------------------------------------------------------------
// Primitives
// ---------------------------------------------------------------------------

/// What the TL-SDU of a broadcast indication decodes to; an undecodable one is
/// ignored.
#[derive(Clone, Copy, Debug, PartialEq, Eq, Structural)]
pub enum MleBroadcast {
    Sync(DMleSync),
    Sysinfo(DMleSysinfo),
    Undecodable,
}

impl MleView {
    /// A survey starts or is cancelled.
    pub open spec fn after_scan_req(self, start: bool) -> (MleView, Emitted) {
        if start {
            self.after_start_survey()
        } else {
            self.after_cancel_survey()
        }
    }

    /// The station's identities, as the MAC is told them; the network is the
    /// home network.
    pub open spec fn identities(self, issi: u32, groups: Seq<u32>) -> Emitted {
        seq![
            normal(
                identities_req(
                    TlmcValidAddress {
                        mcc: self.config.mcc,
                        mnc: self.config.mnc,
                        individual_ssi: Some(issi),
                        group_ssis: Some(groups),
                    },
                ),
            ),
        ]
    }

    /// The primitives that the entity takes, by access point. A broadcast comes
    /// with its decoded PDU.
    pub open spec fn takes(self, m: MsgView, pdu: MleBroadcast) -> bool {
        match m.sap {
            Sap::TlaSap => match m.msg {
                SapMsgInner::TlaTlDataIndBl(prim) => prim.tl_sdu is Some,
                SapMsgInner::TlaTlUnitdataIndBl(prim) => prim.tl_sdu is Some,
                _ => false,
            },
            Sap::TlmbSap => match m.msg {
                SapMsgInner::TlmbSyncInd { .. } => pdu !is Sysinfo,
                SapMsgInner::TlmbSysinfoInd { .. } => pdu !is Sync,
                SapMsgInner::TlmbMonitorInd { .. } => true,
                SapMsgInner::TlmbScanDwellInd { .. } => true,
                _ => false,
            },
            Sap::LmmSap => {
                ||| m.msg is LmmMleUnitdataReq
                ||| m.msg is LmmMleIdentitiesReq
                ||| m.msg is LmmMleSelectionModeReq
                ||| m.msg is LmmMleScanReq
                ||| m.msg is LmmMleCampReq
            },
            Sap::LcmcSap => m.msg is LcmcMleUnitdataReq || m.msg is LcmcMleConfigureReq,
            _ => false,
        }
    }

    /// The effect of a decoded broadcast.
    pub open spec fn after_broadcast(self, pdu: MleBroadcast) -> (MleView, Emitted) {
        match pdu {
            MleBroadcast::Sync(p) => self.after_sync(p),
            MleBroadcast::Sysinfo(p) => self.after_sysinfo(p),
            MleBroadcast::Undecodable => (self, nothing()),
        }
    }

    /// The effect of a monitoring indication: the level first, then the link. A
    /// failure that goes on brings no level.
    pub open spec fn after_monitor_ind(
        self,
        downlink_available: bool,
        rssi_mdbfs: Option<i32>,
    ) -> (MleView, Emitted) {
        let (v, level) = if downlink_available || !self.out_of_service {
            self.after_rssi(rssi_mdbfs)
        } else {
            (self, nothing())
        };
        let (w, link) = v.after_monitor(downlink_available);
        (w, level + link)
    }

    /// The effect of a primitive.
    pub open spec fn after_prim(self, m: MsgView, pdu: MleBroadcast) -> (MleView, Emitted) {
        match m.msg {
            SapMsgInner::TlaTlDataIndBl(prim) => (self, emitted_opt(routed(prim, 0))),
            SapMsgInner::TlaTlUnitdataIndBl(prim) => (self, emitted_opt(routed(prim, 0))),
            SapMsgInner::TlmbSyncInd { .. } => self.after_broadcast(pdu),
            SapMsgInner::TlmbSysinfoInd { .. } => self.after_broadcast(pdu),
            SapMsgInner::TlmbMonitorInd {
                downlink_available,
                rssi_mdbfs,
            } => self.after_monitor_ind(downlink_available, rssi_mdbfs),
            SapMsgInner::TlmbScanDwellInd { .. } => self.after_dwell(),
            SapMsgInner::LmmMleUnitdataReq(prim) => (self, seq![normal(mm_request(prim))]),
            SapMsgInner::LmmMleIdentitiesReq {
                issi,
                attached_gssis,
                ..
            } => (self, self.identities(issi, attached_gssis)),
            SapMsgInner::LmmMleSelectionModeReq { manual } => (
                self.after_selection_mode(manual),
                nothing(),
            ),
            SapMsgInner::LmmMleScanReq { start } => self.after_scan_req(start),
            SapMsgInner::LmmMleCampReq { carrier_hz, register } => self.after_camp(
                carrier_hz,
                register,
            ),
            SapMsgInner::LcmcMleUnitdataReq(prim) => (self, seq![normal(cmce_request(prim))]),
            SapMsgInner::LcmcMleConfigureReq { switch_u_plane, tx_grant } => (
                self,
                seq![
                    normal(to_umac(SapMsgInner::TlmcUPlaneConfigureReq { switch_u_plane, tx_grant })),
                ],
            ),
            _ => (self, nothing()),
        }
    }
}

impl MleMs {
    /// Take a primitive of the link layer.
    pub fn rx_tla_prim(&self, queue: &mut MessageQueue, message: Msg)
        requires
            message@.sap is TlaSap,
            self@.takes(message@, MleBroadcast::Undecodable),
        ensures
            final(queue)@ == old(queue)@ + self@.after_prim(
                message@,
                MleBroadcast::Undecodable,
            ).1,
    {
        match message.msg {
            SapMsgInner::TlaTlDataIndBl(prim) => {
                self.rx_tla_data_ind_bl(queue, prim);
            },
            SapMsgInner::TlaTlUnitdataIndBl(prim) => {
                self.rx_tla_unitdata_ind_bl(queue, prim);
            },
            _ => {},
        }
    }

    /// Take a broadcast indication of the MAC, with what its TL-SDU decodes to.
    pub fn rx_tlmb_prim(&mut self, queue: &mut MessageQueue, message: Msg, pdu: MleBroadcast)
        requires
            old(self)@.wf(),
            message@.sap is TlmbSap,
            old(self)@.takes(message@, pdu),
        ensures
            final(self)@.wf(),
            final(self)@ == old(self)@.after_prim(message@, pdu).0,
            final(queue)@ == old(queue)@ + old(self)@.after_prim(message@, pdu).1,
    {
        match message.msg {
            SapMsgInner::TlmbSysinfoInd { .. } => {
                if let MleBroadcast::Sysinfo(p) = pdu {
                    self.rx_tlmb_tl_sysinfo_ind(queue, &p);
                }
            },
            SapMsgInner::TlmbSyncInd { .. } => {
                if let MleBroadcast::Sync(p) = pdu {
                    self.rx_tlmb_tl_sync_ind(queue, &p);
                }
            },
            SapMsgInner::TlmbMonitorInd { downlink_available, rssi_mdbfs } => {
                if downlink_available || !self.out_of_service {
                    self.update_rssi(queue, rssi_mdbfs);
                }
                self.rx_tlmb_monitor_ind(queue, downlink_available);
            },
            SapMsgInner::TlmbScanDwellInd { .. } => {
                self.rx_tlmb_scan_dwell_ind(queue);
            },
            _ => {},
        }
    }

    /// Take a primitive of mobility management.
    pub fn rx_lmm_prim(&mut self, queue: &mut MessageQueue, message: Msg)
        requires
            old(self)@.wf(),
            message@.sap is LmmSap,
            old(self)@.takes(message@, MleBroadcast::Undecodable),
        ensures
            final(self)@.wf(),
            final(self)@ == old(self)@.after_prim(message@, MleBroadcast::Undecodable).0,
            final(queue)@ == old(queue)@ + old(self)@.after_prim(
                message@,
                MleBroadcast::Undecodable,
            ).1,
    {
        match message.msg {
            SapMsgInner::LmmMleUnitdataReq(prim) => {
                self.rx_lmm_mle_unitdata_req(queue, prim);
            },
            SapMsgInner::LmmMleIdentitiesReq { issi, attached_gssis, .. } => {
                self.rx_lmm_mle_identities_req(queue, issi, attached_gssis);
            },
            SapMsgInner::LmmMleSelectionModeReq { manual } => {
                self.rx_lmm_mle_selection_mode_req(manual);
            },
            SapMsgInner::LmmMleScanReq { start } => {
                self.rx_lmm_mle_scan_req(queue, start);
            },
            SapMsgInner::LmmMleCampReq { carrier_hz, register } => {
                self.rx_lmm_mle_camp_req(queue, carrier_hz, register);
            },
            _ => {},
        }
    }

    /// Take a primitive of the circuit mode control entity.
    pub fn rx_lcmc_prim(&self, queue: &mut MessageQueue, message: Msg)
        requires
            message@.sap is LcmcSap,
            self@.takes(message@, MleBroadcast::Undecodable),
        ensures
            final(queue)@ == old(queue)@ + self@.after_prim(
                message@,
                MleBroadcast::Undecodable,
            ).1,
    {
        match message.msg {
            SapMsgInner::LcmcMleUnitdataReq(prim) => {
                self.rx_lcmc_mle_unitdata_req(queue, prim);
            },
            SapMsgInner::LcmcMleConfigureReq { switch_u_plane, tx_grant } => {
                queue.push_back(
                    umac_msg(SapMsgInner::TlmcUPlaneConfigureReq { switch_u_plane, tx_grant }),
                );
            },
            _ => {},
        }
    }

    /// Take a primitive from a neighbour; `pdu` is what the TL-SDU of a broadcast
    /// decodes to.
    pub fn rx_prim(&mut self, queue: &mut MessageQueue, message: Msg, pdu: MleBroadcast)
        requires
            old(self)@.wf(),
            old(self)@.takes(message@, pdu),
        ensures
            final(self)@.wf(),
            final(self)@ == old(self)@.after_prim(message@, pdu).0,
            final(queue)@ == old(queue)@ + old(self)@.after_prim(message@, pdu).1,
    {
        match message.sap {
            Sap::TlaSap => {
                self.rx_tla_prim(queue, message);
            },
            Sap::TlmbSap => {
                self.rx_tlmb_prim(queue, message, pdu);
            },
            Sap::LmmSap => {
                self.rx_lmm_prim(queue, message);
            },
            Sap::LcmcSap => {
                self.rx_lcmc_prim(queue, message);
            },
            _ => {},
        }
    }
}

} // verus!
