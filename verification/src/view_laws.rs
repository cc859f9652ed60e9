//! What contracts see of the library's values: each view holds what the value
//! holds, under the same name.

use vstd::prelude::*;

use crate::bits::BitBuffer;
use crate::mle::components::mle_router::MleRouter;
use crate::mle::mle_bs_ms::{Mle, StampedMsg, StampedQueue};
use crate::mle::mle_ms::MleMs;
use crate::mm::pdu::{
    GroupIdentityLocationDemand, Groups, MmMsg, MmQueue, MmUplinkPdu, ULocationUpdateDemand,
};
use crate::phy::phy_ms::{PhyAction, PhyMs, UplinkBlocks};
use crate::sap::{
    LcmcMleUnitdataReq, LmmMleUnitdataReq, MessageQueue, MleUnitdataInd, MsgInnerView,
    QueueEntry, SapMsg, SapMsgInner, TlaTlDataIndBl, TlaTlDataReqBl, TlaTlUnitdataReqBl,
    TlmcValidAddress, TmaUnitdataInd, TmaUnitdataReq, TmvUnitdataReq, TmvUnitdataReqSlot,
    TpUnitdataReqSlot,
};
use crate::umac::mac_block::MacBlock;
use crate::umac::receive::ResourceOutcome;
use crate::umac::umac_ms::{
    PendingStolenSignalling, PendingUplink, QueuedUplink, ReservedTxPlan, UmacMs,
    UplinkFragment,
};

verus! {

/// What contracts see of a [`BitBuffer`] is its bits in their order.
pub proof fn law_view_of_bit_buffer(x: BitBuffer)
    ensures
        x@ == x.bits@,
{
}

/// What contracts see of a [`MacBlock`] is what it holds, field by field.
pub proof fn law_view_of_mac_block(x: MacBlock<BitBuffer>)
    ensures
        x@.header == x.header,
        x@.body == x.body@,
{
}

/// What contracts see of a [`TmvUnitdataReq`] is what it holds, field by field.
pub proof fn law_view_of_tmv_unitdata_req(x: TmvUnitdataReq<BitBuffer>)
    ensures
        x@.mac_block == x.mac_block@,
        x@.logical_channel == x.logical_channel,
        x@.scrambling_code == x.scrambling_code,
{
}

/// What contracts see of a [`TmvUnitdataReqSlot`] is what it holds, field by field.
pub proof fn law_view_of_tmv_unitdata_req_slot(x: TmvUnitdataReqSlot<BitBuffer>)
    ensures
        x@.ts == x.ts,
        x@.ul_phy_chan == x.ul_phy_chan,
        x@.blk1 is Some <==> x.blk1 is Some,
        x.blk1 matches Some(p) ==> x@.blk1 == Some(p@),
        x@.blk2 is Some <==> x.blk2 is Some,
        x.blk2 matches Some(p) ==> x@.blk2 == Some(p@),
        x@.bbk is Some <==> x.bbk is Some,
        x.bbk matches Some(p) ==> x@.bbk == Some(p@),
        x@.reserved_access == x.reserved_access,
{
}

/// What contracts see of a [`TmaUnitdataInd`] is what it holds, field by field.
pub proof fn law_view_of_tma_unitdata_ind(x: TmaUnitdataInd<BitBuffer>)
    ensures
        x@.pdu is Some <==> x.pdu is Some,
        x.pdu matches Some(p) ==> x@.pdu == Some(p@),
        x@.main_address == x.main_address,
        x@.scrambling_code == x.scrambling_code,
        x@.endpoint_id == x.endpoint_id,
        x@.air_interface_encryption == x.air_interface_encryption,
        x@.new_endpoint_id == x.new_endpoint_id,
        x@.css_endpoint_id == x.css_endpoint_id,
        x@.chan_change_response_req == x.chan_change_response_req,
        x@.chan_change_handle == x.chan_change_handle,
        x@.chan_info == x.chan_info,
{
}

/// What contracts see of a [`TmaUnitdataReq`] is what it holds, field by field.
pub proof fn law_view_of_tma_unitdata_req(x: TmaUnitdataReq<BitBuffer>)
    ensures
        x@.pdu == x.pdu@,
        x@.main_address == x.main_address,
        x@.link_id == x.link_id,
        x@.endpoint_id == x.endpoint_id,
        x@.pdu_priority == x.pdu_priority,
        x@.is_emergency == x.is_emergency,
        x@.stealing_permission == x.stealing_permission,
        x@.tx_reporter == x.tx_reporter,
{
}

/// What contracts see of a [`TlmcValidAddress`] is what it holds, field by field.
pub proof fn law_view_of_tlmc_valid_address(x: TlmcValidAddress<Vec<u32>>)
    ensures
        x@.mcc == x.mcc,
        x@.mnc == x.mnc,
        x@.individual_ssi == x.individual_ssi,
        x@.group_ssis is Some <==> x.group_ssis is Some,
        x.group_ssis matches Some(p) ==> x@.group_ssis == Some(p@),
{
}

/// What contracts see of a [`TlaTlDataIndBl`] is what it holds, field by field.
pub proof fn law_view_of_tla_tl_data_ind_bl(x: TlaTlDataIndBl<BitBuffer>)
    ensures
        x@.main_address == x.main_address,
        x@.link_id == x.link_id,
        x@.endpoint_id == x.endpoint_id,
        x@.tl_sdu is Some <==> x.tl_sdu is Some,
        x.tl_sdu matches Some(p) ==> x@.tl_sdu == Some(p@),
{
}

/// What contracts see of a [`TlaTlDataReqBl`] is what it holds, field by field.
pub proof fn law_view_of_tla_tl_data_req_bl(x: TlaTlDataReqBl<BitBuffer>)
    ensures
        x@.main_address == x.main_address,
        x@.link_id == x.link_id,
        x@.endpoint_id == x.endpoint_id,
        x@.tl_sdu == x.tl_sdu@,
        x@.pdu_priority == x.pdu_priority,
        x@.is_emergency == x.is_emergency,
        x@.stealing_permission == x.stealing_permission,
        x@.chan_alloc == x.chan_alloc,
        x@.tx_reporter == x.tx_reporter,
        x@.subscriber_class == x.subscriber_class,
        x@.fcs_flag == x.fcs_flag,
        x@.air_interface_encryption == x.air_interface_encryption,
        x@.stealing_repeats_flag == x.stealing_repeats_flag,
        x@.data_class_info == x.data_class_info,
        x@.req_handle == x.req_handle,
        x@.graceful_degradation == x.graceful_degradation,
{
}

/// What contracts see of a [`TlaTlUnitdataReqBl`] is what it holds, field by field.
pub proof fn law_view_of_tla_tl_unitdata_req_bl(x: TlaTlUnitdataReqBl<BitBuffer>)
    ensures
        x@.main_address == x.main_address,
        x@.link_id == x.link_id,
        x@.endpoint_id == x.endpoint_id,
        x@.tl_sdu == x.tl_sdu@,
        x@.scrambling_code == x.scrambling_code,
        x@.pdu_prio == x.pdu_prio,
        x@.stealing_permission == x.stealing_permission,
        x@.subscriber_class == x.subscriber_class,
        x@.fcs_flag == x.fcs_flag,
        x@.air_interface_encryption == x.air_interface_encryption,
        x@.data_prio == x.data_prio,
        x@.packet_data_flag == x.packet_data_flag,
        x@.n_tlsdu_repeats == x.n_tlsdu_repeats,
        x@.scheduled_data_status == x.scheduled_data_status,
        x@.max_schedule_interval == x.max_schedule_interval,
        x@.data_class_info == x.data_class_info,
        x@.req_handle == x.req_handle,
{
}

/// What contracts see of a [`LmmMleUnitdataReq`] is what it holds, field by field.
pub proof fn law_view_of_lmm_mle_unitdata_req(x: LmmMleUnitdataReq<BitBuffer>)
    ensures
        x@.sdu == x.sdu@,
        x@.handle == x.handle,
        x@.address == x.address,
        x@.layer2service == x.layer2service,
        x@.pdu_priority == x.pdu_priority,
        x@.is_emergency == x.is_emergency,
        x@.tx_reporter == x.tx_reporter,
        x@.stealing_permission == x.stealing_permission,
        x@.stealing_repeats_flag == x.stealing_repeats_flag,
        x@.encryption_flag == x.encryption_flag,
        x@.is_null_pdu == x.is_null_pdu,
{
}

/// What contracts see of a [`LcmcMleUnitdataReq`] is what it holds, field by field.
pub proof fn law_view_of_lcmc_mle_unitdata_req(x: LcmcMleUnitdataReq<BitBuffer>)
    ensures
        x@.sdu == x.sdu@,
        x@.handle == x.handle,
        x@.main_address == x.main_address,
        x@.link_id == x.link_id,
        x@.endpoint_id == x.endpoint_id,
        x@.stealing_permission == x.stealing_permission,
        x@.chan_alloc == x.chan_alloc,
        x@.tx_reporter == x.tx_reporter,
{
}

/// What contracts see of a [`MleUnitdataInd`] is what it holds, field by field.
pub proof fn law_view_of_mle_unitdata_ind(x: MleUnitdataInd<BitBuffer>)
    ensures
        x@.sdu == x.sdu@,
        x@.handle == x.handle,
        x@.received_tetra_address == x.received_tetra_address,
        x@.endpoint_id == x.endpoint_id,
        x@.link_id == x.link_id,
        x@.chan_change_resp_req == x.chan_change_resp_req,
        x@.chan_change_handle == x.chan_change_handle,
{
}

/// What contracts see of a [`TpUnitdataReqSlot`] is what it holds, field by field.
pub proof fn law_view_of_tp_unitdata_req_slot(x: TpUnitdataReqSlot<BitBuffer>)
    ensures
        x@.train_type == x.train_type,
        x@.burst_type == x.burst_type,
        x@.blk1 is Some <==> x.blk1 is Some,
        x.blk1 matches Some(p) ==> x@.blk1 == Some(p@),
        x@.time == x.time,
        x@.reserved_access == x.reserved_access,
{
}

/// What contracts see of a [`SapMsgInner`] is its variant and what that holds.
pub proof fn law_view_of_sap_msg_inner(x: SapMsgInner<BitBuffer, Vec<u32>, Vec<u8>>)
    ensures
        x matches SapMsgInner::TpUnitdataInd {
            train_type,
            burst_type,
            block_type,
            block_num,
            block,
        } ==> x@ == (MsgInnerView::TpUnitdataInd {
            train_type,
            burst_type,
            block_type,
            block_num,
            block: block@,
        }),
        x matches SapMsgInner::TpUnitdataReq(p) ==> x@ == MsgInnerView::TpUnitdataReq(p@),
        x matches SapMsgInner::TpcTuneReq { carrier_hz } ==> x@ == (MsgInnerView::TpcTuneReq {
            carrier_hz,
        }),
        x matches SapMsgInner::TpcTxTuneReq { carrier_hz } ==> x@ == (MsgInnerView::TpcTxTuneReq {
            carrier_hz,
        }),
        x matches SapMsgInner::TmvConfigureReq(p)
            ==> (x@ matches SapMsgInner::TmvConfigureReq(q) && q == p),
        x matches SapMsgInner::TmvUnitdataReq(p) ==> x@ == MsgInnerView::TmvUnitdataReq(p@),
        x matches SapMsgInner::TmvTuneReq { carrier_hz } ==> x@ == (MsgInnerView::TmvTuneReq {
            carrier_hz,
        }),
        x matches SapMsgInner::TmvTxTuneReq { carrier_hz } ==> x@ == (MsgInnerView::TmvTxTuneReq {
            carrier_hz,
        }),
        x matches SapMsgInner::TmaUnitdataInd(p) ==> x@ == MsgInnerView::TmaUnitdataInd(p@),
        x matches SapMsgInner::TmaUnitdataReq(p) ==> x@ == MsgInnerView::TmaUnitdataReq(p@),
        x matches SapMsgInner::TmdCircuitDataInd {
            ts,
            data,
        } ==> x@ == (MsgInnerView::TmdCircuitDataInd {
            ts,
            data: data@,
        }),
        x matches SapMsgInner::TmdCircuitDataReq {
            ts,
            data,
        } ==> x@ == (MsgInnerView::TmdCircuitDataReq {
            ts,
            data: data@,
        }),
        x matches SapMsgInner::TlmbSyncInd {
            endpoint_id,
            tl_sdu,
        } ==> x@ == (MsgInnerView::TlmbSyncInd {
            endpoint_id,
            tl_sdu: tl_sdu@,
        }),
        x matches SapMsgInner::TlmbSysinfoInd {
            endpoint_id,
            tl_sdu,
            mac_broadcast_info,
        } ==> x@ == (MsgInnerView::TlmbSysinfoInd {
            endpoint_id,
            tl_sdu: tl_sdu@,
            mac_broadcast_info,
        }),
        x matches SapMsgInner::TlmbMonitorInd {
            downlink_available,
            rssi_mdbfs,
        } ==> x@ == (MsgInnerView::TlmbMonitorInd {
            downlink_available,
            rssi_mdbfs,
        }),
        x matches SapMsgInner::TlmbScanDwellInd {
            rssi_mdbfs,
        } ==> x@ == (MsgInnerView::TlmbScanDwellInd {
            rssi_mdbfs,
        }),
        x matches SapMsgInner::TlmcConfigureReq { valid_addresses: None }
            ==> (x@ matches SapMsgInner::TlmcConfigureReq { valid_addresses }
            && valid_addresses is None),
        x matches SapMsgInner::TlmcConfigureReq { valid_addresses: Some(a) }
            ==> (x@ matches SapMsgInner::TlmcConfigureReq { valid_addresses }
            && valid_addresses == Some(a@)),
        x matches SapMsgInner::TlmcTuneReq { carrier_hz } ==> x@ == (MsgInnerView::TlmcTuneReq {
            carrier_hz,
        }),
        x matches SapMsgInner::TlmcUPlaneConfigureReq {
            switch_u_plane,
            tx_grant,
        } ==> x@ == (MsgInnerView::TlmcUPlaneConfigureReq {
            switch_u_plane,
            tx_grant,
        }),
        x matches SapMsgInner::TlaTlDataIndBl(p) ==> x@ == MsgInnerView::TlaTlDataIndBl(p@),
        x matches SapMsgInner::TlaTlUnitdataIndBl(p) ==> x@ == MsgInnerView::TlaTlUnitdataIndBl(p@),
        x matches SapMsgInner::TlaTlDataReqBl(p) ==> x@ == MsgInnerView::TlaTlDataReqBl(p@),
        x matches SapMsgInner::TlaTlUnitdataReqBl(p) ==> x@ == MsgInnerView::TlaTlUnitdataReqBl(p@),
        x matches SapMsgInner::LmmMleUnitdataInd {
            sdu,
            handle,
            received_address,
        } ==> x@ == (MsgInnerView::LmmMleUnitdataInd {
            sdu: sdu@,
            handle,
            received_address,
        }),
        x matches SapMsgInner::LmmMleUnitdataReq(p) ==> x@ == MsgInnerView::LmmMleUnitdataReq(p@),
        x matches SapMsgInner::LmmMleActivateConf(p)
            ==> (x@ matches SapMsgInner::LmmMleActivateConf(q) && q == p),
        x is LmmMleBreakInd ==> x@ is LmmMleBreakInd,
        x is LmmMleReopenInd ==> x@ is LmmMleReopenInd,
        x matches SapMsgInner::LmmMleRssiInd { rssi_mdbfs } ==> x@ == (MsgInnerView::LmmMleRssiInd {
            rssi_mdbfs,
        }),
        x matches SapMsgInner::LmmMleScanResultInd(p)
            ==> (x@ matches SapMsgInner::LmmMleScanResultInd(q) && q == p),
        x matches SapMsgInner::LmmMleScanCompleteInd {
            found,
            scanned,
        } ==> x@ == (MsgInnerView::LmmMleScanCompleteInd {
            found,
            scanned,
        }),
        x matches SapMsgInner::LmmMleIdentitiesReq {
            issi,
            attached_gssis,
            detached_gssis,
        } ==> x@ == (MsgInnerView::LmmMleIdentitiesReq {
            issi,
            attached_gssis: attached_gssis@,
            detached_gssis: detached_gssis@,
        }),
        x matches SapMsgInner::LmmMleSelectionModeReq {
            manual,
        } ==> x@ == (MsgInnerView::LmmMleSelectionModeReq {
            manual,
        }),
        x matches SapMsgInner::LmmMleScanReq { start } ==> x@ == (MsgInnerView::LmmMleScanReq {
            start,
        }),
        x matches SapMsgInner::LmmMleCampReq {
            carrier_hz,
            register,
        } ==> x@ == (MsgInnerView::LmmMleCampReq {
            carrier_hz,
            register,
        }),
        x matches SapMsgInner::LcmcMleUnitdataInd(p) ==> x@ == MsgInnerView::LcmcMleUnitdataInd(p@),
        x matches SapMsgInner::LcmcMleUnitdataReq(p) ==> x@ == MsgInnerView::LcmcMleUnitdataReq(p@),
        x matches SapMsgInner::LcmcMleBreakInd {
            permitted_services,
        } ==> x@ == (MsgInnerView::LcmcMleBreakInd {
            permitted_services,
        }),
        x is LcmcMleReopenInd ==> x@ is LcmcMleReopenInd,
        x matches SapMsgInner::LcmcMleConfigureReq {
            switch_u_plane,
            tx_grant,
        } ==> x@ == (MsgInnerView::LcmcMleConfigureReq {
            switch_u_plane,
            tx_grant,
        }),
        x matches SapMsgInner::LtpdMleUnitdataInd(p) ==> x@ == MsgInnerView::LtpdMleUnitdataInd(p@),
{
}

/// What contracts see of a [`SapMsg`] is what it holds, field by field.
pub proof fn law_view_of_sap_msg(x: SapMsg<BitBuffer, Vec<u32>, Vec<u8>>)
    ensures
        x@.sap == x.sap,
        x@.src == x.src,
        x@.dest == x.dest,
        x@.msg == x.msg@,
{
}

/// What contracts see of a [`QueueEntry`] is what it holds, field by field.
pub proof fn law_view_of_queue_entry(x: QueueEntry)
    ensures
        x@.0 == x.prio,
        x@.1 == x.msg@,
{
}

/// What contracts see of a [`MessageQueue`] is its entries in their order.
pub proof fn law_view_of_message_queue(x: MessageQueue)
    ensures
        x@.len() == x.entries@.len(),
        forall|i: int| 0 <= i < x@.len() ==> #[trigger] x@[i] == x.entries@[i]@,
{
}

/// What contracts see of a [`PendingUplink`] is what it holds, field by field.
pub proof fn law_view_of_pending_uplink(x: PendingUplink<BitBuffer>)
    ensures
        x@.mac_block == x.mac_block@,
        x@.logical_channel == x.logical_channel,
        x@.scrambling_code == x.scrambling_code,
        x@.tx_reporter == x.tx_reporter,
        x@.pdu_priority == x.pdu_priority,
        x@.is_emergency == x.is_emergency,
{
}

/// What contracts see of a [`UplinkFragment`] is what it holds, field by field.
pub proof fn law_view_of_uplink_fragment(x: UplinkFragment<BitBuffer>)
    ensures
        x@.remainder == x.remainder@,
        x@.scrambling_code == x.scrambling_code,
        x@.end_kind == x.end_kind,
        x@.tx_reporter == x.tx_reporter,
{
}

/// What contracts see of a [`ReservedTxPlan`] is what it holds, field by field.
pub proof fn law_view_of_reserved_tx_plan(x: ReservedTxPlan)
    ensures
        x@.blocks.len() == x.blocks@.len(),
        forall|i: int| 0 <= i < x@.blocks.len() ==> #[trigger] x@.blocks[i] == x.blocks@[i]@,
        x@.slots == x.slots@,
        x@.scrambling_code == x.scrambling_code,
        x@.tx_reporter == x.tx_reporter,
{
}

/// What contracts see of a [`QueuedUplink`] is what it holds, field by field.
pub proof fn law_view_of_queued_uplink(x: QueuedUplink<BitBuffer>)
    ensures
        x@.pending == x.pending@,
        x@.fragment is Some <==> x.fragment is Some,
        x.fragment matches Some(p) ==> x@.fragment == Some(p@),
{
}

/// What contracts see of a [`PendingStolenSignalling`] is what it holds, field by field.
pub proof fn law_view_of_pending_stolen_signalling(x: PendingStolenSignalling<BitBuffer>)
    ensures
        x@.mac_block == x.mac_block@,
        x@.scrambling_code == x.scrambling_code,
        x@.tx_reporter == x.tx_reporter,
{
}

/// What contracts see of a [`UmacMs`] is what it holds, field by field.
pub proof fn law_view_of_umac_ms(x: UmacMs)
    ensures
        x@.dltime == x.dltime,
        x@.stack_mode == x.stack_mode,
        x@.configured_issi == x.configured_issi,
        x@.mcc == x.mcc,
        x@.mnc == x.mnc,
        x@.cc == x.cc,
        x@.scrambling_code == x.scrambling_code,
        x@.pending_uplink is Some <==> x.pending_uplink is Some,
        x.pending_uplink matches Some(p) ==> x@.pending_uplink == Some(p@),
        x@.uplink_queue.len() == x.uplink_queue@.len(),
        forall|i: int| 0 <= i < x@.uplink_queue.len()
            ==> #[trigger] x@.uplink_queue[i] == x.uplink_queue@[i]@,
        x@.access_params == x.access_params,
        x@.pending_fragment is Some <==> x.pending_fragment is Some,
        x.pending_fragment matches Some(p) ==> x@.pending_fragment == Some(p@),
        x@.reserved_tx is Some <==> x.reserved_tx is Some,
        x.reserved_tx matches Some(p) ==> x@.reserved_tx == Some(p@),
        x@.valid_individual_ssi == x.valid_individual_ssi,
        x@.valid_group_ssis == x.valid_group_ssis@,
        x@.derived_ul_freq == x.derived_ul_freq,
        x@.serving_carrier_num == x.serving_carrier_num,
        x@.assigned_traffic_slots == x.assigned_traffic_slots@,
        x@.uplink_tx_granted == x.uplink_tx_granted,
        x@.uplink_audio.len() == x.uplink_audio@.len(),
        forall|i: int| 0 <= i < x@.uplink_audio.len()
            ==> #[trigger] x@.uplink_audio[i] == x.uplink_audio@[i]@,
        x@.pending_stolen_signalling.len() == x.pending_stolen_signalling@.len(),
        forall|i: int| 0 <= i < x@.pending_stolen_signalling.len()
            ==> #[trigger] x@.pending_stolen_signalling[i] == x.pending_stolen_signalling@[i]@,
        x@.receipt_marks == x.receipt_marks@,
{
}

/// What contracts see of a [`ResourceOutcome`] is what it holds, field by field.
pub proof fn law_view_of_resource_outcome(x: ResourceOutcome<BitBuffer>)
    ensures
        x@.advance == x.advance,
        x@.first_fragment is Some <==> x.first_fragment is Some,
        x.first_fragment matches Some((addr, part)) ==> x@.first_fragment == Some((addr, part@)),
{
}

/// What contracts see of a [`MleRouter`] is what it holds, field by field.
pub proof fn law_view_of_mle_router(x: MleRouter)
    ensures
        x@.states == x.states@,
        x@.next_handle == x.next_handle,
{
}

/// What contracts see of a [`MleMs`] is what it holds, field by field.
pub proof fn law_view_of_mle_ms(x: MleMs)
    ensures
        x@.config == x.config,
        x@.serving_cell == x.serving_cell,
        x@.activate_confirmed == x.activate_confirmed,
        x@.out_of_service == x.out_of_service,
        x@.serving_cell_rssi_mdbfs == x.serving_cell_rssi_mdbfs,
        x@.scanning == x.scanning,
        x@.scan_candidates == x.scan_candidates@,
        x@.scan_index == x.scan_index,
        x@.selection_mode_manual == x.selection_mode_manual,
        x@.camp_armed == x.camp_armed,
        x@.camp_force_register == x.camp_force_register,
        x@.survey == x.survey,
        x@.survey_candidates == x.survey_candidates@,
        x@.survey_index == x.survey_index,
        x@.survey_pending == x.survey_pending,
        x@.survey_sync_repeats == x.survey_sync_repeats,
        x@.survey_found == x.survey_found,
{
}

/// What contracts see of a [`StampedMsg`] is what it holds, field by field.
pub proof fn law_view_of_stamped_msg(x: StampedMsg)
    ensures
        x@.0 == x.dltime,
        x@.1 == x.msg@,
{
}

/// What contracts see of a [`StampedQueue`] is its entries in their order.
pub proof fn law_view_of_stamped_queue(x: StampedQueue)
    ensures
        x@.len() == x.entries@.len(),
        forall|i: int| 0 <= i < x@.len() ==> #[trigger] x@[i] == x.entries@[i]@,
{
}

/// What contracts see of a [`Mle`] is what it holds, field by field.
pub proof fn law_view_of_mle(x: Mle)
    ensures
        x@.config == x.config,
        x@.router == x.router@,
{
}

/// What contracts see of a [`GroupIdentityLocationDemand`] is what it holds, field by field.
pub proof fn law_view_of_group_identity_location_demand(x: GroupIdentityLocationDemand<Groups>)
    ensures
        x@.group_identity_attach_detach_mode == x.group_identity_attach_detach_mode,
        x@.group_identity_uplink is Some <==> x.group_identity_uplink is Some,
        x.group_identity_uplink matches Some(p) ==> x@.group_identity_uplink == Some(p@),
{
}

/// What contracts see of a [`ULocationUpdateDemand`] is what it holds, field by field.
pub proof fn law_view_of_u_location_update_demand(x: ULocationUpdateDemand<Groups>)
    ensures
        x@.location_update_type == x.location_update_type,
        x@.request_to_append_la == x.request_to_append_la,
        x@.cipher_control == x.cipher_control,
        x@.ciphering_parameters == x.ciphering_parameters,
        x@.class_of_ms == x.class_of_ms,
        x@.energy_saving_mode == x.energy_saving_mode,
        x@.la_information == x.la_information,
        x@.ssi == x.ssi,
        x@.address_extension == x.address_extension,
        x@.group_identity_location_demand is Some <==> x.group_identity_location_demand is Some,
        x.group_identity_location_demand matches Some(p)
            ==> x@.group_identity_location_demand == Some(p@),
        x@.group_report_response == x.group_report_response,
        x@.authentication_uplink == x.authentication_uplink,
        x@.extended_capabilities == x.extended_capabilities,
        x@.proprietary == x.proprietary,
{
}

/// What contracts see of a [`MmUplinkPdu`] is its variant and what that holds.
pub proof fn law_view_of_mm_uplink_pdu(x: MmUplinkPdu<Groups>)
    ensures
        x matches MmUplinkPdu::ULocationUpdateDemand(d)
            ==> x@ == MmUplinkPdu::ULocationUpdateDemand(d@),
        x matches MmUplinkPdu::UItsiDetach(d)
            ==> (x@ matches MmUplinkPdu::UItsiDetach(q) && q == d),
{
}

/// What contracts see of a request of mobility management is what it holds, field
/// by field.
pub proof fn law_view_of_mm_request(x: LmmMleUnitdataReq<MmUplinkPdu<Groups>>)
    ensures
        x@.sdu == x.sdu@,
        x@.handle == x.handle,
        x@.address == x.address,
        x@.layer2service == x.layer2service,
        x@.pdu_priority == x.pdu_priority,
        x@.is_emergency == x.is_emergency,
        x@.tx_reporter == x.tx_reporter,
        x@.stealing_permission == x.stealing_permission,
        x@.stealing_repeats_flag == x.stealing_repeats_flag,
        x@.encryption_flag == x.encryption_flag,
        x@.is_null_pdu == x.is_null_pdu,
{
}

/// What contracts see of a [`MmMsg`] is what it holds, field by field.
pub proof fn law_view_of_mm_msg(x: MmMsg<Groups>)
    ensures
        x@.sap == x.sap,
        x@.src == x.src,
        x@.dest == x.dest,
        x@.msg == x.msg@,
{
}

/// What contracts see of a [`MmQueue`] is its entries in their order.
pub proof fn law_view_of_mm_queue(x: MmQueue)
    ensures
        x@.len() == x.entries@.len(),
        forall|i: int| 0 <= i < x@.len() ==> #[trigger] x@[i] == x.entries@[i]@,
{
}

/// What contracts see of a [`UplinkBlocks`] is its variant and what that holds.
pub proof fn law_view_of_uplink_blocks(x: UplinkBlocks<BitBuffer>)
    ensures
        x matches UplinkBlocks::Normal { train_type, blk1, blk2 } ==> x@ == (UplinkBlocks::Normal {
            train_type,
            blk1: blk1@,
            blk2: blk2@,
        }),
        x matches UplinkBlocks::Control { blk } ==> x@ == (UplinkBlocks::Control { blk: blk@ }),
{
}

/// What contracts see of a [`PhyAction`] is its variant and what that holds.
pub proof fn law_view_of_phy_action(x: PhyAction<BitBuffer>)
    ensures
        x is Nothing ==> x@ is Nothing,
        x matches PhyAction::TuneRx {
            carrier_hz,
        } ==> x@ == (PhyAction::<Seq<bool>>::TuneRx { carrier_hz }),
        x matches PhyAction::TuneTx {
            carrier_hz,
        } ==> x@ == (PhyAction::<Seq<bool>>::TuneTx { carrier_hz }),
        x matches PhyAction::BuildBurst {
            time,
            blocks,
        } ==> x@ == (PhyAction::<Seq<bool>>::BuildBurst { time, blocks: blocks@ }),
{
}

/// What contracts see of a [`PhyMs`] is what it holds, field by field.
pub proof fn law_view_of_phy_ms(x: PhyMs)
    ensures
        x@.dltime == x.dltime,
        x@.synced == x.synced,
        x@.slots_without_burst == x.slots_without_burst,
        x@.slots_since_rssi_report == x.slots_since_rssi_report,
        x@.unsynced_cycles == x.unsynced_cycles,
        x@.pending_tx is Some <==> x.pending_tx is Some,
        x.pending_tx matches Some(p)
            ==> x@.pending_tx->0.time == p.time && x@.pending_tx->0.burst == p.burst@,
        x@.tx_path_active == x.tx_path_active,
        x@.tx_frequency_set == x.tx_frequency_set,
{
}

} // verus!
