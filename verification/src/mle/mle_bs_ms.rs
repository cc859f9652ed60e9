//! Mobile link entity with handle routing, for either side of the air
//! interface. Its messages carry the downlink time they belong to.

use vstd::prelude::*;

use crate::bits::BitBuffer;
use crate::config::StackConfig;
use crate::mle::components::mle_router::{MleRouter, RouterView};
use crate::mle::mle_ms::{cmce_request, llc_msg, route, routed, to_llc};
use crate::mle::network_time::{encode_tetra_network_time, network_time, LocalTime};
use crate::mle::pdu::{
    discriminator_bits, leading_discriminator, split_discriminator, with_discriminator,
    MleProtocolDiscriminator,
};
use crate::sap::{
    opt_bits, LcmcMleUnitdataReq, LmmMleUnitdataReq, Msg, MsgView, Sap, SapMsgInner, SsiType,
    StackMode, TetraAddress, TlaTlDataIndBl, TlaTlDataReqBl, TlaTlUnitdataReqBl,
};
use crate::tdma::TdmaTime;

verus! {

/// A message with the downlink time that it belongs to.
#[derive(Debug)]
pub struct StampedMsg {
    pub dltime: TdmaTime,
    pub msg: Msg,
}

impl View for StampedMsg {
    type V = (TdmaTime, MsgView);

    open spec fn view(&self) -> (TdmaTime, MsgView) {
        (self.dltime, self.msg@)
    }
}

/// Stamped messages, in the order of emission.
#[derive(Debug)]
pub struct StampedQueue {
    pub entries: Vec<StampedMsg>,
}

impl View for StampedQueue {
    type V = Seq<(TdmaTime, MsgView)>;

    open spec fn view(&self) -> Seq<(TdmaTime, MsgView)> {
        self.entries@.map_values(|e: StampedMsg| e@)
    }
}

impl StampedQueue {
    /// An empty queue.
    pub fn new() -> (r: StampedQueue)
        ensures
            r@ == Seq::<(TdmaTime, MsgView)>::empty(),
    {
        StampedQueue { entries: Vec::new() }
    }

    /// Queue a message.
    pub fn push_back(&mut self, dltime: TdmaTime, msg: Msg)
        ensures
            final(self)@ == old(self)@.push((dltime, msg@)),
    {
        self.entries.push(StampedMsg { dltime, msg });
    }
}

/// D-NWRK-BROADCAST (cl. 18.4.1.4.1), as the entity fills it.
#[derive(Clone, Copy, Debug, PartialEq, Eq, Structural)]
pub struct DNwrkBroadcast {
    pub cell_re_select_parameters: u16,
    pub cell_load_ca: u8,
    pub tetra_network_time: Option<u64>,
    pub number_of_ca_neighbour_cells: Option<u8>,
    pub neighbour_cell_information_for_ca: Option<u32>,
}

/// The address that reaches every station of the cell.
pub open spec fn everyone() -> TetraAddress {
    TetraAddress { ssi: 0xff_ffff, ssi_type: SsiType::Gssi, encrypted: false }
}

/// The broadcast of an encoded MLE PDU to the whole cell.
pub open spec fn broadcast_request(pdu: Seq<bool>) -> MsgView {
    to_llc(
        SapMsgInner::TlaTlUnitdataReqBl(
            TlaTlUnitdataReqBl {
                main_address: everyone(),
                link_id: 0,
                endpoint_id: 0,
                tl_sdu: discriminator_bits(MleProtocolDiscriminator::Mle) + pdu,
                scrambling_code: 0,
                pdu_prio: 0,
                stealing_permission: false,
                subscriber_class: 0,
                fcs_flag: false,
                air_interface_encryption: 0,
                data_prio: 0,
                packet_data_flag: false,
                n_tlsdu_repeats: None,
                scheduled_data_status: 0,
                max_schedule_interval: None,
                data_class_info: None,
                req_handle: 0,
            },
        ),
    )
}

/// Mobile link entity.
#[derive(Debug)]
pub struct Mle {
    pub config: StackConfig,
    pub router: MleRouter,
}

/// The mobile link entity as contracts speak of it.
#[verifier::ext_equal]
pub struct MleBsView {
    pub config: StackConfig,
    pub router: RouterView,
}

impl View for Mle {
    type V = MleBsView;

    open spec fn view(&self) -> MleBsView {
        MleBsView { config: self.config, router: self.router@ }
    }
}

impl MleBsView {
    /// Whether the discriminator names an entity that is reached by a handle.
    pub open spec fn needs_handle(sdu: Seq<bool>) -> bool {
        leading_discriminator(sdu) == Some(MleProtocolDiscriminator::Mm) || leading_discriminator(
            sdu,
        ) == Some(MleProtocolDiscriminator::Cmce)
    }

    /// An indication of the link layer: it goes to the entity that its
    /// discriminator names, with a fresh handle where that entity answers by one.
    pub open spec fn after_ind(self, prim: TlaTlDataIndBl<Seq<bool>>) -> (
        MleBsView,
        Option<MsgView>,
    ) {
        (
            if Self::needs_handle(prim.tl_sdu->0) {
                MleBsView { router: self.router.after_create(), ..self }
            } else {
                self
            },
            routed(prim, self.router.next_handle),
        )
    }

    /// The request that answers mobility management: on the link behind its
    /// handle.
    pub open spec fn mm_request(self, prim: LmmMleUnitdataReq<Seq<bool>>) -> MsgView {
        let (_, link_id, endpoint_id) = self.router.route(prim.handle);
        to_llc(
            SapMsgInner::TlaTlDataReqBl(
                TlaTlDataReqBl {
                    main_address: prim.address,
                    link_id,
                    endpoint_id,
                    tl_sdu: discriminator_bits(MleProtocolDiscriminator::Mm) + prim.sdu,
                    pdu_priority: None,
                    is_emergency: false,
                    stealing_permission: false,
                    chan_alloc: None,
                    tx_reporter: None,
                    subscriber_class: 0,
                    fcs_flag: false,
                    air_interface_encryption: None,
                    stealing_repeats_flag: None,
                    data_class_info: None,
                    req_handle: 0,
                    graceful_degradation: None,
                },
            ),
        )
    }

    /// The request that answers the circuit mode control entity.
    pub open spec fn cmce_request(self, prim: LcmcMleUnitdataReq<Seq<bool>>) -> MsgView {
        cmce_request(LcmcMleUnitdataReq { tx_reporter: None, ..prim })
    }

    /// The primitives that the entity takes, by access point. The address of a
    /// request, or its link and endpoint, must be the one behind its handle.
    pub open spec fn takes(self, m: MsgView) -> bool {
        match m.sap {
            Sap::TlaSap => match m.msg {
                SapMsgInner::TlaTlDataIndBl(prim) => {
                    &&& prim.tl_sdu is Some
                    &&& Self::needs_handle(prim.tl_sdu->0) ==> self.router.next_handle < u32::MAX
                },
                SapMsgInner::TlaTlUnitdataIndBl(prim) => {
                    &&& prim.tl_sdu is Some
                    &&& Self::needs_handle(prim.tl_sdu->0) ==> self.router.next_handle < u32::MAX
                    &&& leading_discriminator(prim.tl_sdu->0) != Some(MleProtocolDiscriminator::Mle)
                },
                _ => false,
            },
            Sap::TlmbSap => m.msg is TlmbSysinfoInd || m.msg is TlmbSyncInd,
            Sap::LmmSap => m.msg matches SapMsgInner::LmmMleUnitdataReq(prim)
                && self.router.route(prim.handle).0.ssi == prim.address.ssi,
            Sap::LcmcSap => m.msg matches SapMsgInner::LcmcMleUnitdataReq(prim)
                && self.router.route(prim.handle).1 == prim.link_id && self.router.route(
                prim.handle,
            ).2 == prim.endpoint_id,
            _ => false,
        }
    }

    /// The effect of a primitive with a downlink time.
    pub open spec fn after_prim(self, m: MsgView, dltime: TdmaTime) -> (MleBsView, Option<MsgView>) {
        match m.msg {
            SapMsgInner::TlaTlDataIndBl(prim) => self.after_ind(prim),
            SapMsgInner::TlaTlUnitdataIndBl(prim) => self.after_ind(prim),
            SapMsgInner::LmmMleUnitdataReq(prim) => (
                MleBsView { router: self.router.after_use(prim.handle, dltime), ..self },
                Some(self.mm_request(prim)),
            ),
            SapMsgInner::LcmcMleUnitdataReq(prim) => (
                MleBsView { router: self.router.after_use(prim.handle, dltime), ..self },
                Some(self.cmce_request(prim)),
            ),
            _ => (self, None),
        }
    }

    /// Whether the network time is broadcast in a slot: by a base station, once
    /// per multiframe.
    pub open spec fn broadcast_due(self, ts: TdmaTime) -> bool {
        self.config.stack_mode is Bs && ts.f == 1 && ts.t == 1
    }

    /// The broadcast that carries the network time.
    pub open spec fn time_pdu(self, cell_load_ca: u8, now: LocalTime) -> DNwrkBroadcast {
        DNwrkBroadcast {
            cell_re_select_parameters: 0,
            cell_load_ca: (cell_load_ca % 4) as u8,
            tetra_network_time: Some(network_time(now) as u64),
            number_of_ca_neighbour_cells: Some(0),
            neighbour_cell_information_for_ca: None,
        }
    }

    /// The network time broadcast of a slot, in the slots that have one.
    pub open spec fn time_broadcast(
        self,
        ts: TdmaTime,
        cell_load_ca: u8,
        now: LocalTime,
    ) -> Option<DNwrkBroadcast> {
        if self.broadcast_due(ts) {
            Some(self.time_pdu(cell_load_ca, now))
        } else {
            None
        }
    }

    /// What is sent for an encoded broadcast, in the slots that have one.
    pub open spec fn broadcast_out(self, ts: TdmaTime, encoded: Option<Seq<bool>>) -> Seq<
        (TdmaTime, MsgView),
    > {
        match encoded {
            Some(pdu) if self.broadcast_due(ts) => stamped(ts, Some(broadcast_request(pdu))),
            _ => stamped(ts, None),
        }
    }
}

/// The message, if there is one, stamped with its downlink time.
pub open spec fn stamped(dltime: TdmaTime, m: Option<MsgView>) -> Seq<(TdmaTime, MsgView)> {
    match m {
        Some(m) => seq![(dltime, m)],
        None => Seq::empty(),
    }
}

impl Mle {
    /// A mobile link entity without handles.
    pub fn new(config: StackConfig) -> (r: Mle)
        ensures
            r@ == (MleBsView {
                config,
                router: RouterView { states: Map::empty(), next_handle: 1 },
            }),
    {
        Mle { config, router: MleRouter::new() }
    }

    /// Route an indication of the link layer.
    fn rx_tla_ind(
        &mut self,
        queue: &mut StampedQueue,
        dltime: TdmaTime,
        prim: TlaTlDataIndBl<BitBuffer>,
    )
        requires
            prim.tl_sdu is Some,
            MleBsView::needs_handle(prim@.tl_sdu->0) ==> old(self)@.router.next_handle < u32::MAX,
        ensures
            final(self)@ == old(self)@.after_ind(prim@).0,
            final(queue)@ == old(queue)@ + stamped(dltime, old(self)@.after_ind(prim@).1),
    {
        let mut handle: u32 = self.router.next_handle;
        if let Some(sdu) = &prim.tl_sdu {
            match split_discriminator(sdu) {
                Some((MleProtocolDiscriminator::Mm, _)) => {
                    handle = self.router.create_handle(
                        prim.main_address,
                        prim.link_id,
                        prim.endpoint_id,
                        dltime,
                    );
                },
                Some((MleProtocolDiscriminator::Cmce, _)) => {
                    handle = self.router.create_handle(
                        prim.main_address,
                        prim.link_id,
                        prim.endpoint_id,
                        dltime,
                    );
                },
                _ => {},
            }
        }
        if let Some(msg) = route(prim, handle) {
            queue.push_back(dltime, msg);
        }
    }

    /// Route a TL-DATA indication. An MLE PDU is not acted upon.
    pub fn rx_tla_data_ind_bl(
        &mut self,
        queue: &mut StampedQueue,
        dltime: TdmaTime,
        prim: TlaTlDataIndBl<BitBuffer>,
    )
        requires
            prim.tl_sdu is Some,
            MleBsView::needs_handle(prim@.tl_sdu->0) ==> old(self)@.router.next_handle < u32::MAX,
        ensures
            final(self)@ == old(self)@.after_ind(prim@).0,
            final(queue)@ == old(queue)@ + stamped(dltime, old(self)@.after_ind(prim@).1),
    {
        self.rx_tla_ind(queue, dltime, prim);
    }

    /// Route a TL-UNITDATA indication, which carries no MLE PDU.
    pub fn rx_tla_unitdata_ind_bl(
        &mut self,
        queue: &mut StampedQueue,
        dltime: TdmaTime,
        prim: TlaTlDataIndBl<BitBuffer>,
    )
        requires
            prim.tl_sdu is Some,
            MleBsView::needs_handle(prim@.tl_sdu->0) ==> old(self)@.router.next_handle < u32::MAX,
            leading_discriminator(prim@.tl_sdu->0) != Some(MleProtocolDiscriminator::Mle),
        ensures
            final(self)@ == old(self)@.after_ind(prim@).0,
            final(queue)@ == old(queue)@ + stamped(dltime, old(self)@.after_ind(prim@).1),
    {
        self.rx_tla_ind(queue, dltime, prim);
    }

    /// Take a SYSINFO broadcast; nothing follows from it.
    pub fn rx_tlmb_tl_sysinfo_ind(&self, queue: &mut StampedQueue)
        ensures
            final(queue)@ == old(queue)@,
    {
    }

    /// Take a SYNC broadcast; nothing follows from it.
    pub fn rx_tlmb_tl_sync_ind(&self, queue: &mut StampedQueue)
        ensures
            final(queue)@ == old(queue)@,
    {
    }

    /// Send a PDU of mobility management on the link behind its handle.
    pub fn rx_lmm_mle_unitdata_req(
        &mut self,
        queue: &mut StampedQueue,
        dltime: TdmaTime,
        prim: LmmMleUnitdataReq<BitBuffer>,
    )
        requires
            old(self)@.router.route(prim.handle).0.ssi == prim.address.ssi,
        ensures
            final(self)@ == (MleBsView {
                router: old(self)@.router.after_use(prim.handle, dltime),
                ..old(self)@
            }),
            final(queue)@ == old(queue)@.push((dltime, old(self)@.mm_request(prim@))),
    {
        let (_, link_id, endpoint_id) = self.router.use_handle(prim.handle, dltime);
        queue.push_back(
            dltime,
            llc_msg(
                SapMsgInner::TlaTlDataReqBl(
                    TlaTlDataReqBl {
                        main_address: prim.address,
                        link_id,
                        endpoint_id,
                        tl_sdu: with_discriminator(MleProtocolDiscriminator::Mm, &prim.sdu),
                        pdu_priority: None,
                        is_emergency: false,
                        stealing_permission: false,
                        chan_alloc: None,
                        tx_reporter: None,
                        subscriber_class: 0,
                        fcs_flag: false,
                        air_interface_encryption: None,
                        stealing_repeats_flag: None,
                        data_class_info: None,
                        req_handle: 0,
                        graceful_degradation: None,
                    },
                ),
            ),
        );
    }

    /// Send a PDU of the circuit mode control entity.
    pub fn rx_lcmc_mle_unitdata_req(
        &mut self,
        queue: &mut StampedQueue,
        dltime: TdmaTime,
        prim: LcmcMleUnitdataReq<BitBuffer>,
    )
        requires
            old(self)@.router.route(prim.handle).1 == prim.link_id,
            old(self)@.router.route(prim.handle).2 == prim.endpoint_id,
        ensures
            final(self)@ == (MleBsView {
                router: old(self)@.router.after_use(prim.handle, dltime),
                ..old(self)@
            }),
            final(queue)@ == old(queue)@.push((dltime, old(self)@.cmce_request(prim@))),
    {
        let _ = self.router.use_handle(prim.handle, dltime);
        queue.push_back(
            dltime,
            llc_msg(
                SapMsgInner::TlaTlDataReqBl(
                    TlaTlDataReqBl {
                        main_address: prim.main_address,
                        link_id: prim.link_id,
                        endpoint_id: prim.endpoint_id,
                        tl_sdu: with_discriminator(MleProtocolDiscriminator::Cmce, &prim.sdu),
                        pdu_priority: None,
                        is_emergency: false,
                        stealing_permission: prim.stealing_permission,
                        chan_alloc: prim.chan_alloc,
                        tx_reporter: None,
                        subscriber_class: 0,
                        fcs_flag: false,
                        air_interface_encryption: None,
                        stealing_repeats_flag: None,
                        data_class_info: None,
                        req_handle: 0,
                        graceful_degradation: None,
                    },
                ),
            ),
        );
    }

    /// Take a primitive from a neighbour.
    pub fn rx_prim(&mut self, queue: &mut StampedQueue, dltime: TdmaTime, message: Msg)
        requires
            old(self)@.takes(message@),
        ensures
            final(self)@ == old(self)@.after_prim(message@, dltime).0,
            final(queue)@ == old(queue)@ + stamped(
                dltime,
                old(self)@.after_prim(message@, dltime).1,
            ),
    {
        match message.msg {
            SapMsgInner::TlaTlDataIndBl(prim) => {
                self.rx_tla_data_ind_bl(queue, dltime, prim);
            },
            SapMsgInner::TlaTlUnitdataIndBl(prim) => {
                self.rx_tla_unitdata_ind_bl(queue, dltime, prim);
            },
            SapMsgInner::TlmbSysinfoInd { .. } => {
                self.rx_tlmb_tl_sysinfo_ind(queue);
            },
            SapMsgInner::TlmbSyncInd { .. } => {
                self.rx_tlmb_tl_sync_ind(queue);
            },
            SapMsgInner::LmmMleUnitdataReq(prim) => {
                self.rx_lmm_mle_unitdata_req(queue, dltime, prim);
            },
            SapMsgInner::LcmcMleUnitdataReq(prim) => {
                self.rx_lcmc_mle_unitdata_req(queue, dltime, prim);
            },
            _ => {},
        }
    }

    /// The network time broadcast of a slot, in the slots that have one.
    pub fn tick_start(&self, ts: TdmaTime, cell_load_ca: u8, now: LocalTime) -> (r: Option<
        DNwrkBroadcast,
    >)
        requires
            now.wf(),
        ensures
            r == self@.time_broadcast(ts, cell_load_ca, now),
    {
        if self.config.stack_mode != StackMode::Bs {
            return None;
        }
        if ts.f != 1 || ts.t != 1 {
            return None;
        }
        let load: u8 = cell_load_ca & 0x3;
        assert(cell_load_ca & 0x3 == cell_load_ca % 4) by (bit_vector);
        Some(
            DNwrkBroadcast {
                cell_re_select_parameters: 0,
                cell_load_ca: load,
                tetra_network_time: Some(encode_tetra_network_time(now)),
                number_of_ca_neighbour_cells: Some(0),
                neighbour_cell_information_for_ca: None,
            },
        )
    }

    /// Send the encoded network time broadcast to the whole cell; `None` where it
    /// could not be encoded.
    pub fn send_network_time_broadcast(
        &self,
        queue: &mut StampedQueue,
        ts: TdmaTime,
        encoded: Option<BitBuffer>,
    )
        ensures
            final(queue)@ == old(queue)@ + self@.broadcast_out(ts, opt_bits(encoded)),
    {
        if self.config.stack_mode != StackMode::Bs {
            return ;
        }
        if ts.f != 1 || ts.t != 1 {
            return ;
        }
        if let Some(pdu) = encoded {
            queue.push_back(
                ts,
                llc_msg(
                    SapMsgInner::TlaTlUnitdataReqBl(
                        TlaTlUnitdataReqBl {
                            main_address: TetraAddress {
                                ssi: 0xff_ffff,
                                ssi_type: SsiType::Gssi,
                                encrypted: false,
                            },
                            link_id: 0,
                            endpoint_id: 0,
                            tl_sdu: with_discriminator(MleProtocolDiscriminator::Mle, &pdu),
                            scrambling_code: 0,
                            pdu_prio: 0,
                            stealing_permission: false,
                            subscriber_class: 0,
                            fcs_flag: false,
                            air_interface_encryption: 0,
                            data_prio: 0,
                            packet_data_flag: false,
                            n_tlsdu_repeats: None,
                            scheduled_data_status: 0,
                            max_schedule_interval: None,
                            data_class_info: None,
                            req_handle: 0,
                        },
                    ),
                ),
            );
        }
    }
}

} // verus!
