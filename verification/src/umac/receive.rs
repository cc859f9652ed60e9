//! Downlink side of the mobile station's upper MAC: broadcast information,
//! the receive filter, MAC-RESOURCE and the fragments behind it, and the
//! configuration that the layers above hand down (ETSI TS 100 392-2 cl. 21 / 23).
//!
//! Decoding a PDU's header and counting its fill bits is done before these
//! functions are called; they are given the decoded header, its length, and the
//! number of fill bits.

use vstd::prelude::*;

use crate::bits::{bits_value, BitBuffer};
use crate::sap::{
    configure_nothing, immediate, normal, opt_bits, LogicalChannel, MessagePrio, MessageQueue, Msg,
    MsgInner, MsgView, PhyBlockNum, Sap, SapMsg, SapMsgInner, StackMode, TetraAddress, TetraEntity,
    TlmcValidAddress, TmaUnitdataInd, TmvConfigureReq,
};
use crate::tdma::TdmaTime;
use crate::umac::ms_random_access::{AccessAssign, AccessDefine, SysinfoDefaultDefForAccessCodeA};
use crate::umac::umac_ms::{
    collect_groups, UmacMs, UmacView, BROADCAST_SSI, UPLINK_AUDIO_MAX_FRAMES,
};
use crate::umac::uplink::{nothing, to_lmac, BasicSlotgrant, Emitted};

verus! {

/// Which handler a received block goes to.
#[derive(Clone, Copy, Debug, PartialEq, Eq, Structural)]
pub enum TmvHandler {
    Aach,
    Bsch,
    /// Signalling: SCH/F, SCH/HD, BNCH or STCH.
    Sch,
}

/// The next MAC PDU of a signalling block.
#[derive(Clone, Copy, Debug, PartialEq, Eq, Structural)]
pub enum SchPdu {
    MacResource,
    MacFrag,
    MacEnd,
    Broadcast,
    /// MAC-U-SIGNAL, on the stealing channel.
    USignal,
    Supplementary,
}

/// Broadcast PDUs that a mobile station reads.
#[derive(Clone, Copy, Debug, PartialEq, Eq, Structural)]
pub enum BroadcastType {
    Sysinfo,
    AccessDefine,
}

/// SYSINFO PDU (cl. 21.4.4.1), as far as the MAC reads it.
#[derive(Clone, Copy, Debug, PartialEq, Eq, Structural)]
pub struct MacSysinfo {
    pub main_carrier: u16,
    pub freq_band: u8,
    pub freq_offset_index: u8,
    pub duplex_spacing: u8,
    pub reverse_operation: bool,
    pub hyperframe_number: Option<u16>,
    pub default_access_code: Option<SysinfoDefaultDefForAccessCodeA>,
}

/// SYNC PDU (cl. 21.4.4.2), as far as the MAC reads it.
#[derive(Clone, Copy, Debug, PartialEq, Eq, Structural)]
pub struct MacSync {
    pub colour_code: u8,
    pub time: TdmaTime,
}

/// What the access assignment channel of a slot carries: the ACCESS-ASSIGN, or
/// the form of it that frame 18 has and that designates no access opportunity.
#[derive(Clone, Copy, Debug, PartialEq, Eq, Structural)]
pub enum AachPdu {
    Assign(AccessAssign),
    Frame18,
}

/// How a channel allocation relates to the channels already assigned
/// (cl. 21.5.2).
#[derive(Clone, Copy, Debug, PartialEq, Eq, Structural)]
pub enum ChanAllocType {
    Replace,
    Additional,
    QuitAndGo,
    ReplaceWithCarrierSignalling,
}

/// Directions that a channel allocation covers.
#[derive(Clone, Copy, Debug, PartialEq, Eq, Structural)]
pub enum UlDlAssignment {
    Augmented,
    Dl,
    Ul,
    Both,
}

/// Channel allocation element (cl. 21.5.2), as far as the MAC reads it.
#[derive(Clone, Copy, Debug)]
pub struct ChanAllocElement {
    pub alloc_type: ChanAllocType,
    pub ts_assigned: [bool; 4],
    pub ul_dl_assigned: UlDlAssignment,
    pub cell_change_flag: bool,
    pub carrier_num: u16,
    /// Whether extended carrier numbering is present.
    pub extended: bool,
}

/// MAC-RESOURCE header (cl. 21.4.3.1), as far as the MAC reads it.
#[derive(Clone, Copy, Debug)]
pub struct MacResource {
    pub fill_bits: bool,
    pub encryption_mode: u8,
    pub random_access_flag: bool,
    pub length_ind: u8,
    pub addr: Option<TetraAddress>,
    pub slot_granting_element: Option<BasicSlotgrant>,
    pub chan_alloc_element: Option<ChanAllocElement>,
}

/// What is left to do after a MAC-RESOURCE.
#[derive(Debug)]
pub struct ResourceOutcome<B> {
    /// How many bits to move on by for the next MAC PDU of the block; `None`
    /// ends the block.
    pub advance: Option<usize>,
    /// The first fragment of a fragmented TM-SDU, for the defragmenter.
    pub first_fragment: Option<(TetraAddress, B)>,
}

impl View for ResourceOutcome<BitBuffer> {
    type V = ResourceOutcome<Seq<bool>>;

    open spec fn view(&self) -> ResourceOutcome<Seq<bool>> {
        ResourceOutcome {
            advance: self.advance,
            first_fragment: match self.first_fragment {
                Some((addr, part)) => Some((addr, part@)),
                None => None,
            },
        }
    }
}

// ---------------------------------------------------------------------------
// Sorting received blocks
// ---------------------------------------------------------------------------

/// The block kind that a logical channel comes in.
pub open spec fn block_num_fits(lchan: LogicalChannel, num: PhyBlockNum) -> bool {
    match lchan {
        LogicalChannel::Aach => true,
        LogicalChannel::Bsch => true,
        LogicalChannel::SchF => num is Both,
        LogicalChannel::Bnch => num is Block1 || num is Block2,
        LogicalChannel::Stch => num is Block1 || num is Block2,
        LogicalChannel::SchHd => num is Block1 || num is Block2,
        _ => false,
    }
}

/// The MAC PDU that a signalling block starts with: the first two bits tell the
/// kind, the third a fragment from its end (Table 21.38).
pub open spec fn sch_pdu(block: Seq<bool>, lchan: LogicalChannel) -> SchPdu {
    if !block[0] && !block[1] {
        SchPdu::MacResource
    } else if !block[0] {
        if block[2] {
            SchPdu::MacEnd
        } else {
            SchPdu::MacFrag
        }
    } else if !block[1] {
        SchPdu::Broadcast
    } else if lchan is Stch {
        SchPdu::USignal
    } else {
        SchPdu::Supplementary
    }
}

/// The MAC PDU that a signalling block starts with, where enough bits are left to
/// tell.
pub open spec fn next_pdu(block: Seq<bool>, lchan: LogicalChannel) -> Option<SchPdu> {
    if block.len() < 3 {
        None
    } else {
        Some(sch_pdu(block, lchan))
    }
}

/// Bits that the shortest MAC PDU takes; fewer are not read as a further PDU.
pub const NULL_PDU_BITS: usize = 16;

/// The handler for a block received on `lchan`.
pub open spec fn handler_of(lchan: LogicalChannel) -> TmvHandler {
    match lchan {
        LogicalChannel::Aach => TmvHandler::Aach,
        LogicalChannel::Bsch => TmvHandler::Bsch,
        _ => TmvHandler::Sch,
    }
}

/// Whether a signalling block goes on after a PDU that moved the reading position
/// by `advance`, with `left` bits behind it.
pub open spec fn block_goes_on(advance: Option<usize>, left: int) -> bool {
    advance matches Some(n) && n > 0 && left >= NULL_PDU_BITS
}

/// The broadcast PDU that a block starts with, where a mobile station reads it.
pub open spec fn broadcast_type(block: Seq<bool>) -> Option<BroadcastType> {
    if bits_value(block.subrange(2, 4)) == 0 {
        Some(BroadcastType::Sysinfo)
    } else if bits_value(block.subrange(2, 4)) == 1 {
        Some(BroadcastType::AccessDefine)
    } else {
        None
    }
}

impl UmacMs {
    /// The handler for a block received on `lchan`.
    pub fn rx_tmv_unitdata_ind(lchan: LogicalChannel, block_num: PhyBlockNum) -> (r: TmvHandler)
        requires
            block_num_fits(lchan, block_num),
        ensures
            r == handler_of(lchan),
    {
        match lchan {
            LogicalChannel::Aach => TmvHandler::Aach,
            LogicalChannel::Bsch => TmvHandler::Bsch,
            _ => TmvHandler::Sch,
        }
    }

    /// The next MAC PDU of a signalling block, whose unread part is `block`, or
    /// `None` where too few bits are left to tell.
    pub fn rx_tmv_sch(block: &BitBuffer, lchan: LogicalChannel) -> (r: Option<SchPdu>)
        ensures
            r == next_pdu(block@, lchan),
    {
        if block.len() < 3 {
            return None;
        }
        let b = &block.bits;
        Some(
            if !b[0] && !b[1] {
                SchPdu::MacResource
            } else if !b[0] {
                if b[2] {
                    SchPdu::MacEnd
                } else {
                    SchPdu::MacFrag
                }
            } else if !b[1] {
                SchPdu::Broadcast
            } else {
                match lchan {
                    LogicalChannel::Stch => SchPdu::USignal,
                    _ => SchPdu::Supplementary,
                }
            },
        )
    }

    /// Whether a signalling block goes on after a PDU that moved the reading
    /// position by `advance`, with `left` bits behind it.
    pub fn sch_goes_on(advance: Option<usize>, left: usize) -> (r: bool)
        ensures
            r == block_goes_on(advance, left as int),
    {
        match advance {
            Some(n) => n > 0 && left >= NULL_PDU_BITS,
            None => false,
        }
    }

    /// The broadcast PDU that `block` starts with, or `None` for one that a
    /// mobile station does not read.
    pub fn rx_broadcast(block: &BitBuffer) -> (r: Option<BroadcastType>)
        requires
            block@.len() >= 4,
        ensures
            r == broadcast_type(block@),
    {
        match block.peek_bits(2, 2) {
            Some(0) => Some(BroadcastType::Sysinfo),
            Some(1) => Some(BroadcastType::AccessDefine),
            _ => None,
        }
    }
}

// ---------------------------------------------------------------------------
// Broadcast information
// ---------------------------------------------------------------------------

/// The uplink carrier of a cell, in Hz: the downlink carrier is 100 MHz per band
/// plus 25 kHz per carrier number plus the offset, and the uplink lies the
/// duplex spacing below it, or above it in reverse operation. `None` for a band
/// or carrier out of range, an offset or spacing that is not defined, or a
/// result that is no carrier.
pub open spec fn uplink_carrier(
    pdu: MacSysinfo,
    freq_offset_hz: Option<i32>,
    duplex_spacing_hz: Option<u32>,
) -> Option<u32> {
    if pdu.freq_band > 8 || pdu.main_carrier >= 4000 || freq_offset_hz is None
        || duplex_spacing_hz is None {
        None
    } else {
        let dl = 100_000_000 * pdu.freq_band + 25_000 * pdu.main_carrier + freq_offset_hz->0;
        let ul = if pdu.reverse_operation {
            dl + duplex_spacing_hz->0
        } else {
            dl - duplex_spacing_hz->0
        };
        if 0 <= ul <= u32::MAX {
            Some(ul as u32)
        } else {
            None
        }
    }
}

impl UmacView {
    /// A newly derived uplink carrier is adopted and the transmitter retuned.
    pub open spec fn after_uplink(self, ul: Option<u32>) -> (UmacView, Emitted) {
        if self.stack_mode !is Ms || ul is None || self.derived_ul_freq == ul {
            (self, nothing())
        } else {
            (
                UmacView { derived_ul_freq: ul, ..self },
                seq![normal(to_lmac(SapMsgInner::TmvTxTuneReq { carrier_hz: ul->0 }))],
            )
        }
    }

    /// SYSINFO: the default access parameters and the main carrier are adopted,
    /// the uplink is derived, a new hyperframe number goes to the lower MAC, and
    /// the rest of the PDU to the MLE.
    pub open spec fn after_sysinfo(
        self,
        pdu: MacSysinfo,
        ul: Option<u32>,
        rest: Seq<bool>,
    ) -> (UmacView, Emitted) {
        let v = UmacView {
            access_params: match pdu.default_access_code {
                Some(def) => self.access_params.with_default_a(def),
                None => self.access_params,
            },
            serving_carrier_num: Some(pdu.main_carrier),
            ..self
        };
        let (w, tune) = v.after_uplink(ul);
        let time = match pdu.hyperframe_number {
            Some(h) => if h != self.dltime.h {
                seq![
                    normal(
                        to_lmac(
                            SapMsgInner::TmvConfigureReq(
                                TmvConfigureReq {
                                    time: Some(TdmaTime { h, ..self.dltime }),
                                    ..configure_nothing()
                                },
                            ),
                        ),
                    ),
                ]
            } else {
                nothing()
            },
            None => nothing(),
        };
        let ind = to_mle(
            SapMsgInner::TlmbSysinfoInd { endpoint_id: 0, tl_sdu: rest, mac_broadcast_info: None },
        );
        (w, (tune + time).push(normal(ind)))
    }

    /// Whether the downlink is in the control frame.
    pub open spec fn in_frame18(self) -> bool {
        self.dltime.f == 18
    }

    /// ACCESS-DEFINE: the parameters of the code that it names are adopted, unless
    /// it is for an assigned control channel.
    pub open spec fn after_access_define(self, pdu: AccessDefine) -> UmacView {
        if pdu.common_or_assigned_control {
            self
        } else {
            UmacView { access_params: self.access_params.with_access_define(pdu), ..self }
        }
    }

    /// SYNC: the colour code and the downlink time are adopted; the lower MAC is
    /// told the time, and the rest of the PDU goes to the MLE.
    pub open spec fn after_sync(self, pdu: MacSync, rest: Seq<bool>) -> (UmacView, Emitted) {
        (
            UmacView { cc: Some(pdu.colour_code), dltime: pdu.time, ..self },
            seq![
                normal(
                    to_lmac(
                        SapMsgInner::TmvConfigureReq(
                            TmvConfigureReq { time: Some(pdu.time), ..configure_nothing() },
                        ),
                    ),
                ),
                normal(to_mle(SapMsgInner::TlmbSyncInd { endpoint_id: 0, tl_sdu: rest })),
            ],
        )
    }
}

/// The ACCESS-ASSIGN that an access assignment channel carries, if there is one.
pub open spec fn aach_assign(pdu: AachPdu) -> Option<AccessAssign> {
    match pdu {
        AachPdu::Assign(aa) => Some(aa),
        AachPdu::Frame18 => None,
    }
}

/// What the lower MAC is told, at once, for an access assignment: whether the slot
/// carries traffic.
pub open spec fn aach_config(pdu: AachPdu) -> (MessagePrio, MsgView) {
    immediate(
        to_lmac(
            SapMsgInner::TmvConfigureReq(
                TmvConfigureReq {
                    is_traffic: Some(
                        match pdu {
                            AachPdu::Assign(aa) => aa.dl_usage is Traffic,
                            AachPdu::Frame18 => false,
                        },
                    ),
                    ..configure_nothing()
                },
            ),
        ),
    )
}

/// A message of the upper MAC to the MLE on the broadcast SAP.
pub open spec fn to_mle(m: crate::sap::MsgInnerView) -> MsgView {
    SapMsg { sap: Sap::TlmbSap, src: TetraEntity::Umac, dest: TetraEntity::Mle, msg: m }
}

/// A message of the upper MAC to the lower MAC.
fn lmac_msg(m: MsgInner) -> (r: Msg)
    ensures
        r@ == to_lmac(m@),
{
    SapMsg { sap: Sap::TmvSap, src: TetraEntity::Umac, dest: TetraEntity::Lmac, msg: m }
}

/// A message of the upper MAC to the MLE on the broadcast SAP.
fn mle_msg(m: MsgInner) -> (r: Msg)
    ensures
        r@ == to_mle(m@),
{
    SapMsg { sap: Sap::TlmbSap, src: TetraEntity::Umac, dest: TetraEntity::Mle, msg: m }
}

/// A configuration request of the lower MAC.
fn configure(
    time: Option<TdmaTime>,
    scrambling_code: Option<u32>,
    is_traffic: Option<bool>,
    blk2_stolen: Option<bool>,
) -> (r: Msg)
    ensures
        r@ == to_lmac(
            SapMsgInner::TmvConfigureReq(
                TmvConfigureReq { time, scrambling_code, is_traffic, blk2_stolen },
            ),
        ),
{
    lmac_msg(
        SapMsgInner::TmvConfigureReq(
            TmvConfigureReq { time, scrambling_code, is_traffic, blk2_stolen },
        ),
    )
}

impl UmacMs {
    /// Adopt an ACCESS-DEFINE; one for an assigned control channel is ignored.
    pub fn rx_broadcast_access_define(&mut self, pdu: &AccessDefine)
        ensures
            final(self)@ == old(self)@.after_access_define(*pdu),
    {
        if pdu.common_or_assigned_control {
            return ;
        }
        self.access_params.update_access_define(pdu);
    }

    /// The uplink carrier that a SYSINFO implies. `freq_offset_hz` and
    /// `duplex_spacing_hz` are what the frequency tables give for its offset
    /// index and its duplex spacing index.
    pub fn derive_uplink(
        pdu: &MacSysinfo,
        freq_offset_hz: Option<i32>,
        duplex_spacing_hz: Option<u32>,
    ) -> (r: Option<u32>)
        ensures
            r == uplink_carrier(*pdu, freq_offset_hz, duplex_spacing_hz),
    {
        if pdu.freq_band > 8 || pdu.main_carrier >= 4000 {
            return None;
        }
        match (freq_offset_hz, duplex_spacing_hz) {
            (Some(offset), Some(spacing)) => {
                let dl: i64 = 100_000_000 * (pdu.freq_band as i64) + 25_000 * (
                pdu.main_carrier as i64) + offset as i64;
                let ul: i64 = if pdu.reverse_operation {
                    dl + spacing as i64
                } else {
                    dl - spacing as i64
                };
                if 0 <= ul && ul <= 0xFFFF_FFFF {
                    Some(ul as u32)
                } else {
                    None
                }
            },
            _ => None,
        }
    }

    /// Retune the transmitter when a SYSINFO implies another uplink carrier than
    /// the last one did.
    pub fn maybe_retune_uplink(
        &mut self,
        queue: &mut MessageQueue,
        pdu: &MacSysinfo,
        freq_offset_hz: Option<i32>,
        duplex_spacing_hz: Option<u32>,
    )
        ensures
            ({
                let ul = uplink_carrier(*pdu, freq_offset_hz, duplex_spacing_hz);
                &&& final(self)@ == old(self)@.after_uplink(ul).0
                &&& final(queue)@ == old(queue)@ + old(self)@.after_uplink(ul).1
            }),
    {
        match self.stack_mode {
            StackMode::Ms => {},
            _ => {
                return ;
            },
        }
        let ul: u32 = match UmacMs::derive_uplink(pdu, freq_offset_hz, duplex_spacing_hz) {
            Some(ul) => ul,
            None => {
                return ;
            },
        };
        if self.derived_ul_freq == Some(ul) {
            return ;
        }
        self.derived_ul_freq = Some(ul);
        queue.push_back(lmac_msg(SapMsgInner::TmvTxTuneReq { carrier_hz: ul }));
    }

    /// Adopt a SYSINFO. `rest` is what follows the MAC part of the PDU.
    pub fn rx_broadcast_sysinfo(
        &mut self,
        queue: &mut MessageQueue,
        pdu: &MacSysinfo,
        freq_offset_hz: Option<i32>,
        duplex_spacing_hz: Option<u32>,
        rest: BitBuffer,
    )
        ensures
            ({
                let ul = uplink_carrier(*pdu, freq_offset_hz, duplex_spacing_hz);
                &&& final(self)@ == old(self)@.after_sysinfo(*pdu, ul, rest@).0
                &&& final(queue)@ == old(queue)@ + old(self)@.after_sysinfo(*pdu, ul, rest@).1
            }),
    {
        if let Some(def) = &pdu.default_access_code {
            self.access_params.update_sysinfo_default_a(def);
        }
        self.serving_carrier_num = Some(pdu.main_carrier);
        self.maybe_retune_uplink(queue, pdu, freq_offset_hz, duplex_spacing_hz);
        if let Some(h) = pdu.hyperframe_number {
            if h != self.dltime.h {
                let t = TdmaTime { t: self.dltime.t, f: self.dltime.f, m: self.dltime.m, h };
                queue.push_back(configure(Some(t), None, None, None));
            }
        }
        queue.push_back(
            mle_msg(
                SapMsgInner::TlmbSysinfoInd {
                    endpoint_id: 0,
                    tl_sdu: rest,
                    mac_broadcast_info: None,
                },
            ),
        );
    }

    /// Adopt a SYNC. `rest` is what follows the MAC part of the PDU.
    pub fn rx_tmv_bsch(&mut self, queue: &mut MessageQueue, pdu: &MacSync, rest: BitBuffer)
        ensures
            final(self)@ == old(self)@.after_sync(*pdu, rest@).0,
            final(queue)@ == old(queue)@ + old(self)@.after_sync(*pdu, rest@).1,
    {
        self.cc = Some(pdu.colour_code);
        self.dltime = pdu.time;
        queue.push_back(configure(Some(pdu.time), None, None, None));
        queue.push_back(mle_msg(SapMsgInner::TlmbSyncInd { endpoint_id: 0, tl_sdu: rest }));
    }

    /// Whether the AACH of the slot carries the ACCESS-ASSIGN of frame 18, which
    /// has a form of its own.
    pub fn aach_is_frame18(&self) -> (r: bool)
        ensures
            r == self@.in_frame18(),
    {
        self.dltime.f == 18
    }

    /// Read the access assignment of a slot: the lower MAC is told at once
    /// whether the slot carries traffic, and the ACCESS-ASSIGN, if there is one,
    /// is handed back for the random access procedure.
    pub fn rx_tmv_aach(&self, queue: &mut MessageQueue, pdu: &AachPdu) -> (r: Option<AccessAssign>)
        ensures
            r == aach_assign(*pdu),
            final(queue)@ == old(queue)@.push(aach_config(*pdu)),
    {
        let (is_traffic, assign) = match pdu {
            AachPdu::Assign(aa) => (aa.dl_usage.is_traffic(), Some(*aa)),
            AachPdu::Frame18 => (false, None),
        };
        queue.push_prio(configure(None, None, Some(is_traffic), None), MessagePrio::Immediate);
        assign
    }
}

// ---------------------------------------------------------------------------
// Receive filter and configuration
// ---------------------------------------------------------------------------

/// The scrambling code of a cell (cl. 23.2.2 / 8.2.5): country code, network
/// code and colour code, followed by two ones.
pub open spec fn scrambling_code_of(mcc: u16, mnc: u16, cc: u8) -> u32 {
    ((((cc as u32) | ((mnc as u32) << 6) | ((mcc as u32) << 20)) << 2) | 3) as u32
}

impl UmacView {
    /// Whether a PDU addressed to `ssi` is for this station. Any mode but MS
    /// observes all traffic.
    pub open spec fn accepts(self, ssi: u32) -> bool {
        ||| self.stack_mode !is Ms
        ||| ssi == BROADCAST_SSI
        ||| self.configured_issi is None
        ||| self.valid_individual_ssi == Some(ssi)
        ||| self.valid_group_ssis.contains(ssi)
    }

    /// The scrambling code is derived and installed once network and colour
    /// code are known.
    pub open spec fn after_scrambling(self) -> (UmacView, Emitted) {
        match (self.mcc, self.mnc, self.cc) {
            (Some(mcc), Some(mnc), Some(cc)) => {
                let code = Some(scrambling_code_of(mcc, mnc, cc));
                (
                    UmacView { scrambling_code: code, ..self },
                    seq![
                        normal(
                            to_lmac(
                                SapMsgInner::TmvConfigureReq(
                                    TmvConfigureReq {
                                        scrambling_code: code,
                                        ..configure_nothing()
                                    },
                                ),
                            ),
                        ),
                    ],
                )
            },
            _ => (self, nothing()),
        }
    }

    /// Identities from the MLE: the network is adopted, the filter is changed as
    /// far as identities are given, and the scrambling code is renewed.
    pub open spec fn after_identities(self, a: TlmcValidAddress<Seq<u32>>) -> (UmacView, Emitted) {
        UmacView {
            mcc: Some(a.mcc),
            mnc: Some(a.mnc),
            valid_individual_ssi: if a.individual_ssi is Some {
                a.individual_ssi
            } else {
                self.valid_individual_ssi
            },
            valid_group_ssis: match a.group_ssis {
                Some(g) => g.to_set(),
                None => self.valid_group_ssis,
            },
            ..self
        }.after_scrambling()
    }

    /// The transmit grant: the station may talk while it holds the grant and the
    /// user plane is on; otherwise buffered speech is flushed.
    pub open spec fn after_u_plane(self, switch_u_plane: bool, tx_grant: bool) -> UmacView {
        UmacView {
            uplink_tx_granted: tx_grant && switch_u_plane,
            uplink_audio: if tx_grant && switch_u_plane {
                self.uplink_audio
            } else {
                Seq::empty()
            },
            ..self
        }
    }

    /// A channel allocation is followed when it stays on the serving carrier of
    /// this cell and covers the downlink: the assigned slots are replaced, or
    /// added to.
    pub open spec fn after_allocation(self, ca: ChanAllocElement) -> UmacView {
        if ca.extended || ca.cell_change_flag || self.serving_carrier_num != Some(ca.carrier_num)
            || !(ca.ul_dl_assigned is Dl || ca.ul_dl_assigned is Both) {
            self
        } else {
            UmacView {
                assigned_traffic_slots: if ca.alloc_type is Additional {
                    Seq::new(4, |i: int| self.assigned_traffic_slots[i] || ca.ts_assigned@[i])
                } else {
                    ca.ts_assigned@
                },
                ..self
            }
        }
    }
}

impl UmacMs {
    /// Whether a PDU addressed to `addr` is for this station.
    pub fn accept_downlink_address(&self, addr: &TetraAddress) -> (r: bool)
        ensures
            r == self@.accepts(addr.ssi),
    {
        broadcast use vstd::std_specs::btree::group_btree_axioms;

        match self.stack_mode {
            StackMode::Ms => {},
            _ => {
                return true;
            },
        }
        if addr.ssi == BROADCAST_SSI || self.configured_issi.is_none() {
            return true;
        }
        self.valid_individual_ssi == Some(addr.ssi) || self.valid_group_ssis.contains(&addr.ssi)
    }

    /// Derive the scrambling code and hand it to the lower MAC, once network and
    /// colour code are known.
    pub fn update_scrambing_and_submit_to_lmac(&mut self, queue: &mut MessageQueue)
        ensures
            final(self)@ == old(self)@.after_scrambling().0,
            final(queue)@ == old(queue)@ + old(self)@.after_scrambling().1,
    {
        if let (Some(mcc), Some(mnc), Some(cc)) = (self.mcc, self.mnc, self.cc) {
            let code: u32 = (((cc as u32) | ((mnc as u32) << 6) | ((mcc as u32) << 20)) << 2) | 3;
            self.scrambling_code = Some(code);
            queue.push_back(configure(None, Some(code), None, None));
        }
    }

    /// Take the identities that the MLE hands down, if there are any.
    pub fn rx_tlmc_configure_req(
        &mut self,
        queue: &mut MessageQueue,
        valid_addresses: Option<TlmcValidAddress<Vec<u32>>>,
    )
        ensures
            match valid_addresses {
                Some(a) => {
                    &&& final(self)@ == old(self)@.after_identities(a@).0
                    &&& final(queue)@ == old(queue)@ + old(self)@.after_identities(a@).1
                },
                None => final(self)@ == old(self)@ && final(queue)@ == old(queue)@,
            },
    {
        if let Some(a) = valid_addresses {
            self.mcc = Some(a.mcc);
            self.mnc = Some(a.mnc);
            if let Some(ssi) = a.individual_ssi {
                self.valid_individual_ssi = Some(ssi);
            }
            if let Some(groups) = &a.group_ssis {
                self.valid_group_ssis = collect_groups(groups);
            }
            self.update_scrambing_and_submit_to_lmac(queue);
        }
    }

    /// Pass a retune of the downlink on to the lower MAC.
    pub fn rx_tlmc_tune_req(&self, queue: &mut MessageQueue, carrier_hz: u32)
        ensures
            final(queue)@ == old(queue)@.push(
                normal(to_lmac(SapMsgInner::TmvTuneReq { carrier_hz })),
            ),
    {
        queue.push_back(lmac_msg(SapMsgInner::TmvTuneReq { carrier_hz }));
    }

    /// Take the transmit grant that the circuit mode control entity hands down.
    pub fn rx_tlmc_u_plane_configure_req(&mut self, switch_u_plane: bool, tx_grant: bool)
        ensures
            final(self)@ == old(self)@.after_u_plane(switch_u_plane, tx_grant),
    {
        let granted: bool = tx_grant && switch_u_plane;
        self.uplink_tx_granted = granted;
        if !granted {
            self.uplink_audio.clear();
        }
    }

    /// Follow a channel allocation, where it can be followed.
    pub fn act_on_channel_allocation(&mut self, ca: &ChanAllocElement)
        ensures
            final(self)@ == old(self)@.after_allocation(*ca),
    {
        if ca.extended || ca.cell_change_flag {
            return ;
        }
        match self.serving_carrier_num {
            Some(serving) => {
                if ca.carrier_num != serving {
                    return ;
                }
            },
            None => {
                return ;
            },
        }
        match ca.ul_dl_assigned {
            UlDlAssignment::Dl => {},
            UlDlAssignment::Both => {},
            _ => {
                return ;
            },
        }
        match ca.alloc_type {
            ChanAllocType::Additional => {
                let s = self.assigned_traffic_slots;
                self.assigned_traffic_slots = [
                    s[0] || ca.ts_assigned[0],
                    s[1] || ca.ts_assigned[1],
                    s[2] || ca.ts_assigned[2],
                    s[3] || ca.ts_assigned[3],
                ];
                assert(self.assigned_traffic_slots@ =~= Seq::new(
                    4,
                    |i: int| old(self).assigned_traffic_slots@[i] || ca.ts_assigned@[i],
                ));
            },
            _ => {
                self.assigned_traffic_slots = ca.ts_assigned;
            },
        }
    }
}

// ---------------------------------------------------------------------------
// MAC-RESOURCE and fragments
// ---------------------------------------------------------------------------

/// Length indication of a MAC PDU whose second half-slot is stolen too.
pub const LENGTH_SECOND_HALF_STOLEN: u8 = 0b111110;

/// Length indication of the start of a fragmented TM-SDU.
pub const LENGTH_START_FRAG: u8 = 0b111111;

/// The length indications that a MAC-RESOURCE may have (Table 21.55).
pub open spec fn length_ind_defined(n: u8) -> bool {
    n < 0b111010 || n == LENGTH_SECOND_HALF_STOLEN || n == LENGTH_START_FRAG
}

/// Bits that a MAC-RESOURCE takes of its block, fill bits included: its header
/// for a null PDU, the stated octets, or all of the block; never more than the
/// block holds.
pub open spec fn resource_len(length_ind: u8, header_len: int, block_len: int) -> int {
    let stated = if length_ind == 0 {
        header_len
    } else if length_ind < 0b111010 {
        8 * length_ind
    } else {
        block_len
    };
    if stated > block_len {
        block_len
    } else {
        stated
    }
}

/// A TM-SDU for the link layer.
pub open spec fn tma_ind(
    sdu: Seq<bool>,
    main_address: TetraAddress,
    scrambling_code: u32,
    encryption: u8,
) -> MsgView {
    SapMsg {
        sap: Sap::TmaSap,
        src: TetraEntity::Umac,
        dest: TetraEntity::Llc,
        msg: SapMsgInner::TmaUnitdataInd(
            TmaUnitdataInd {
                pdu: Some(sdu),
                main_address,
                scrambling_code,
                endpoint_id: 0,
                air_interface_encryption: encryption,
                new_endpoint_id: None,
                css_endpoint_id: None,
                chan_change_response_req: false,
                chan_change_handle: None,
                chan_info: None,
            },
        ),
    }
}

/// The bits of a block behind the header, up to `end`.
pub open spec fn payload(block: Seq<bool>, header_len: int, end: int) -> Seq<bool> {
    block.subrange(header_len, end)
}

/// The part of a MAC-FRAG that goes to the defragmenter: what follows its header up
/// to its fill bits, and nothing where the transfer is encrypted.
pub open spec fn fragment_part(
    block: Seq<bool>,
    header_len: int,
    num_fill_bits: int,
    encrypted: bool,
) -> Option<Seq<bool>> {
    if encrypted {
        None
    } else {
        Some(payload(block, header_len, block.len() - num_fill_bits))
    }
}

/// The part of a MAC-END that goes to the defragmenter: what follows its header up
/// to its fill bits, within the octets that it states.
pub open spec fn end_part(
    block: Seq<bool>,
    length_ind: u8,
    header_len: int,
    num_fill_bits: int,
) -> Seq<bool> {
    payload(block, header_len, 8 * length_ind - num_fill_bits)
}

/// The second half-slot is signalling too, to be applied at once.
pub open spec fn second_half_stolen() -> (MessagePrio, MsgView) {
    immediate(
        to_lmac(
            SapMsgInner::TmvConfigureReq(
                TmvConfigureReq { blk2_stolen: Some(true), ..configure_nothing() },
            ),
        ),
    )
}

impl UmacView {
    /// The acknowledgement of a random access that comes with a MAC-RESOURCE.
    pub open spec fn after_resource_ack(self, pdu: MacResource, acknowledged: bool) -> (
        UmacView,
        Emitted,
    ) {
        if acknowledged {
            self.after_acknowledged(pdu.slot_granting_element)
        } else {
            (self, nothing())
        }
    }

    /// Whether an address is the station's own identity.
    pub open spec fn is_self(self, addr: Option<TetraAddress>) -> bool {
        addr matches Some(a) && Some(a.ssi) == self.configured_issi
    }

    /// A MAC-RESOURCE whose TM-SDU is read here: it has an address, is not
    /// encrypted, and is for this station.
    pub open spec fn takes_resource(self, pdu: MacResource) -> bool {
        &&& pdu.addr is Some
        &&& pdu.encryption_mode == 0
        &&& self.accepts(pdu.addr->0.ssi)
    }

    /// A channel allocation that comes with a MAC-RESOURCE.
    pub open spec fn after_resource_allocation(self, pdu: MacResource) -> UmacView {
        match pdu.chan_alloc_element {
            Some(ca) => self.after_allocation(ca),
            None => self,
        }
    }

    /// What goes up, and to the lower MAC, for a MAC-RESOURCE for this station
    /// that does not start a fragmented TM-SDU.
    pub open spec fn resource_delivery(
        pdu: MacResource,
        sdu: Seq<bool>,
        scrambling_code: u32,
    ) -> Emitted {
        let stolen = if pdu.length_ind == LENGTH_SECOND_HALF_STOLEN {
            seq![second_half_stolen()]
        } else {
            nothing()
        };
        let up = if pdu.length_ind != 0 && sdu.len() > 0 {
            seq![
                normal(tma_ind(sdu, pdu.addr->0, scrambling_code, pdu.encryption_mode)),
            ]
        } else {
            nothing()
        };
        stolen + up
    }

    /// A MAC-RESOURCE: what it acknowledges comes first; then, where its TM-SDU is
    /// read here, its channel allocation is followed and the TM-SDU goes up, or to
    /// the defragmenter where it is a first fragment.
    pub open spec fn after_resource(
        self,
        pdu: MacResource,
        block: Seq<bool>,
        header_len: int,
        num_fill_bits: int,
        scrambling_code: u32,
        acknowledged: bool,
    ) -> (UmacView, Emitted, ResourceOutcome<Seq<bool>>) {
        let (v, answered) = self.after_resource_ack(pdu, acknowledged);
        let len = resource_len(pdu.length_ind, header_len, block.len() as int);
        let sdu = payload(block, header_len, len - num_fill_bits);
        if !v.takes_resource(pdu) {
            let advance = if pdu.addr is Some && pdu.encryption_mode == 0 {
                Some(len as usize)
            } else {
                None
            };
            (v, answered, ResourceOutcome { advance, first_fragment: None })
        } else if pdu.length_ind == LENGTH_START_FRAG {
            (
                v.after_resource_allocation(pdu),
                answered,
                ResourceOutcome {
                    advance: Some(len as usize),
                    first_fragment: Some((pdu.addr->0, sdu)),
                },
            )
        } else {
            (
                v.after_resource_allocation(pdu),
                answered + UmacView::resource_delivery(pdu, sdu, scrambling_code),
                ResourceOutcome { advance: Some(len as usize), first_fragment: None },
            )
        }
    }

    /// What goes up for a TM-SDU that a MAC-END has completed.
    pub open spec fn end_delivery(
        self,
        sdu: Seq<bool>,
        addr: TetraAddress,
        scrambling_code: u32,
    ) -> Emitted {
        if self.accepts(addr.ssi) {
            seq![normal(tma_ind(sdu, addr, scrambling_code, 0))]
        } else {
            nothing()
        }
    }
}

impl UmacMs {
    /// Own identity.
    pub fn own_issi(&self) -> (r: u32)
        requires
            self@.configured_issi is Some,
        ensures
            Some(r) == self@.configured_issi,
    {
        match self.configured_issi {
            Some(issi) => issi,
            None => 0,
        }
    }

    /// Whether a MAC-RESOURCE is addressed to the station's own identity.
    pub fn addressed_to_self(&self, addr: &Option<TetraAddress>) -> (r: bool)
        requires
            addr is Some ==> self@.configured_issi is Some,
        ensures
            r == self@.is_self(*addr),
    {
        match addr {
            Some(a) => a.ssi == self.own_issi(),
            None => false,
        }
    }

    /// Bits that a MAC-RESOURCE takes of its block, fill bits included.
    pub fn mac_resource_len(length_ind: u8, header_len: usize, block_len: usize) -> (r: usize)
        requires
            length_ind_defined(length_ind),
        ensures
            r == resource_len(length_ind, header_len as int, block_len as int),
    {
        let stated: usize = if length_ind == 0 {
            header_len
        } else if length_ind < 0b111010 {
            8 * (length_ind as usize)
        } else {
            block_len
        };
        if stated > block_len {
            block_len
        } else {
            stated
        }
    }

    /// Tell the lower MAC, at once, that the second half-slot is signalling too.
    pub fn signal_lmac_second_half_stolen(&self, queue: &mut MessageQueue)
        ensures
            final(queue)@ == old(queue)@.push(second_half_stolen()),
    {
        queue.push_prio(configure(None, None, None, Some(true)), MessagePrio::Immediate);
    }

    /// Take a MAC-RESOURCE. `block` is the unread part of the block, which
    /// starts with the PDU; `header_len` is the length of its header and
    /// `num_fill_bits` the number of fill bits at its end. `acknowledged` tells
    /// whether the random access procedure took it for the answer to its
    /// request.
    pub fn rx_mac_resource(
        &mut self,
        queue: &mut MessageQueue,
        block: &BitBuffer,
        pdu: &MacResource,
        header_len: usize,
        num_fill_bits: usize,
        scrambling_code: u32,
        acknowledged: bool,
    ) -> (r: ResourceOutcome<BitBuffer>)
        requires
            old(self)@.wf(),
            length_ind_defined(pdu.length_ind),
            old(self)@.takes_resource(*pdu) && pdu.length_ind != 0 ==> header_len + num_fill_bits
                <= resource_len(pdu.length_ind, header_len as int, block@.len() as int),
        ensures
            final(self)@.wf(),
            ({
                let (v, out, outcome) = old(self)@.after_resource(
                    *pdu,
                    block@,
                    header_len as int,
                    num_fill_bits as int,
                    scrambling_code,
                    acknowledged,
                );
                &&& final(self)@ == v
                &&& final(queue)@ == old(queue)@ + out
                &&& r@ == outcome
            }),
    {
        if acknowledged {
            self.random_access_acknowledged(queue, pdu.slot_granting_element.as_ref());
        }
        let len: usize = UmacMs::mac_resource_len(pdu.length_ind, header_len, block.len());
        let addr: TetraAddress = match pdu.addr {
            Some(addr) => addr,
            None => {
                return ResourceOutcome { advance: None, first_fragment: None };
            },
        };
        if pdu.encryption_mode > 0 {
            return ResourceOutcome { advance: None, first_fragment: None };
        }
        if !self.accept_downlink_address(&addr) {
            return ResourceOutcome { advance: Some(len), first_fragment: None };
        }
        if let Some(ca) = &pdu.chan_alloc_element {
            self.act_on_channel_allocation(ca);
        }
        if pdu.length_ind == 0 {
            return ResourceOutcome { advance: Some(len), first_fragment: None };
        }
        let sdu = block.slice(header_len, len - num_fill_bits);
        if pdu.length_ind == LENGTH_START_FRAG {
            return ResourceOutcome { advance: Some(len), first_fragment: Some((addr, sdu)) };
        }
        let ghost q1 = queue@;
        if pdu.length_ind == LENGTH_SECOND_HALF_STOLEN {
            self.signal_lmac_second_half_stolen(queue);
        }
        if sdu.len() > 0 {
            queue.push_back(
                SapMsg {
                    sap: Sap::TmaSap,
                    src: TetraEntity::Umac,
                    dest: TetraEntity::Llc,
                    msg: SapMsgInner::TmaUnitdataInd(
                        TmaUnitdataInd {
                            pdu: Some(sdu),
                            main_address: addr,
                            scrambling_code,
                            endpoint_id: 0,
                            air_interface_encryption: pdu.encryption_mode,
                            new_endpoint_id: None,
                            css_endpoint_id: None,
                            chan_change_response_req: false,
                            chan_change_handle: None,
                            chan_info: None,
                        },
                    ),
                },
            );
        }
        proof {
            let s = block@.subrange(header_len as int, len - num_fill_bits);
            assert(queue@ == q1 + UmacView::resource_delivery(*pdu, s, scrambling_code));
        }
        ResourceOutcome { advance: Some(len), first_fragment: None }
    }

    /// The number of fill bits at the end of a PDU: what `count` finds where the
    /// header marks that there are any, and none otherwise, in which case they
    /// are not counted.
    pub fn num_fill_bits<F: FnOnce() -> usize>(fill_bits: bool, count: F) -> (r: usize)
        requires
            fill_bits ==> call_requires(count, ()),
        ensures
            !fill_bits ==> r == 0,
            fill_bits ==> call_ensures(count, (), r),
    {
        if fill_bits {
            count()
        } else {
            0
        }
    }

    /// The part of a MAC-FRAG that goes to the defragmenter, which fills the
    /// rest of the block; `None` for a transfer that is encrypted.
    pub fn rx_mac_frag(
        block: &BitBuffer,
        header_len: usize,
        num_fill_bits: usize,
        encrypted: bool,
    ) -> (r: Option<BitBuffer>)
        requires
            header_len + num_fill_bits <= block@.len(),
        ensures
            opt_bits(r) == fragment_part(
                block@,
                header_len as int,
                num_fill_bits as int,
                encrypted,
            ),
    {
        if encrypted {
            return None;
        }
        Some(block.slice(header_len, block.len() - num_fill_bits))
    }

    /// The part of a MAC-END that goes to the defragmenter.
    pub fn mac_end_part(
        block: &BitBuffer,
        length_ind: u8,
        header_len: usize,
        num_fill_bits: usize,
    ) -> (r: BitBuffer)
        requires
            length_ind != 0,
            8 * length_ind <= block@.len(),
            header_len + num_fill_bits <= 8 * length_ind,
        ensures
            r@ == end_part(block@, length_ind, header_len as int, num_fill_bits as int),
    {
        block.slice(header_len, 8 * (length_ind as usize) - num_fill_bits)
    }

    /// Deliver a TM-SDU that a MAC-END has completed. `defragged` is the TM-SDU
    /// and its address, or `None` where the defragmenter could not put it
    /// together. The result tells how many bits to move on by for the next MAC
    /// PDU of the block; `None` ends the block.
    pub fn rx_mac_end(
        &self,
        queue: &mut MessageQueue,
        defragged: Option<(BitBuffer, TetraAddress)>,
        length_ind: u8,
        scrambling_code: u32,
    ) -> (r: Option<usize>)
        ensures
            match defragged {
                None => r is None && final(queue)@ == old(queue)@,
                Some((sdu, addr)) => {
                    &&& r == Some((8 * length_ind) as usize)
                    &&& final(queue)@ == old(queue)@ + self@.end_delivery(
                        sdu@,
                        addr,
                        scrambling_code,
                    )
                },
            },
    {
        let (sdu, addr) = match defragged {
            Some(d) => d,
            None => {
                return None;
            },
        };
        let advance: usize = 8 * (length_ind as usize);
        if self.accept_downlink_address(&addr) {
            queue.push_back(
                SapMsg {
                    sap: Sap::TmaSap,
                    src: TetraEntity::Umac,
                    dest: TetraEntity::Llc,
                    msg: SapMsgInner::TmaUnitdataInd(
                        TmaUnitdataInd {
                            pdu: Some(sdu),
                            main_address: addr,
                            scrambling_code,
                            endpoint_id: 0,
                            air_interface_encryption: 0,
                            new_endpoint_id: None,
                            css_endpoint_id: None,
                            chan_change_response_req: false,
                            chan_change_handle: None,
                            chan_info: None,
                        },
                    ),
                },
            );
        }
        Some(advance)
    }
}

// ---------------------------------------------------------------------------
// Primitives and the clock
// ---------------------------------------------------------------------------

impl UmacView {
    /// Whether speech received in timeslot `ts` is for this station.
    pub open spec fn traffic_slot(self, ts: u8) -> bool {
        1 <= ts <= 4 && self.assigned_traffic_slots[ts - 1]
    }

    /// A speech frame to transmit is buffered; a full buffer drops its oldest.
    pub open spec fn after_speech(self, data: Seq<u8>) -> UmacView {
        UmacView {
            uplink_audio: (if self.uplink_audio.len() >= UPLINK_AUDIO_MAX_FRAMES {
                self.uplink_audio.skip(1)
            } else {
                self.uplink_audio
            }).push(data),
            ..self
        }
    }

    /// The primitives that the upper MAC takes from its neighbours, besides
    /// received blocks.
    pub open spec fn takes(self, m: MsgView) -> bool {
        match m.sap {
            Sap::TmaSap => {
                &&& m.msg is TmaUnitdataReq
                &&& self.scrambling_code is Some ==> self.configured_issi is Some
            },
            Sap::TlmcSap => m.msg is TlmcConfigureReq || m.msg is TlmcTuneReq || m.msg
                is TlmcUPlaneConfigureReq,
            Sap::TmdSap => m.msg is TmdCircuitDataInd || m.msg is TmdCircuitDataReq,
            _ => false,
        }
    }

    /// The effect of a primitive.
    pub open spec fn after_prim(self, m: MsgView, ra_active: bool) -> (UmacView, Emitted) {
        match m.msg {
            SapMsgInner::TmaUnitdataReq(prim) => (self.after_tma(prim, ra_active), nothing()),
            SapMsgInner::TlmcConfigureReq { valid_addresses: Some(a) } => self.after_identities(a),
            SapMsgInner::TlmcTuneReq { carrier_hz } => (
                self,
                seq![normal(to_lmac(SapMsgInner::TmvTuneReq { carrier_hz }))],
            ),
            SapMsgInner::TlmcUPlaneConfigureReq {
                switch_u_plane,
                tx_grant,
            } => (self.after_u_plane(switch_u_plane, tx_grant), nothing()),
            SapMsgInner::TmdCircuitDataInd { ts, data } => (
                self,
                if self.traffic_slot(ts) {
                    seq![
                        normal(
                            SapMsg {
                                sap: Sap::TmdSap,
                                src: TetraEntity::Umac,
                                dest: TetraEntity::Cmce,
                                msg: SapMsgInner::TmdCircuitDataInd { ts, data },
                            },
                        ),
                    ]
                } else {
                    nothing()
                },
            ),
            SapMsgInner::TmdCircuitDataReq { ts, data } => (self.after_speech(data), nothing()),
            _ => (self, nothing()),
        }
    }

    /// One downlink slot: the clock advances, the multi-slot transfer is driven,
    /// then the traffic channel.
    pub open spec fn after_tick(self) -> (UmacView, Emitted) {
        let (v, reserved) = UmacView { dltime: self.dltime.plus(1), ..self }.after_reserved();
        let (w, traffic) = v.after_traffic();
        (w, reserved + traffic)
    }
}

impl UmacMs {
    /// Take a primitive of the traffic SAP: received speech is relayed from the
    /// assigned timeslots only, speech to transmit is buffered.
    pub fn rx_tmd_prim(&mut self, queue: &mut MessageQueue, message: Msg)
        requires
            message@.sap is TmdSap,
            old(self)@.takes(message@),
        ensures
            final(self)@ == old(self)@.after_prim(message@, false).0,
            final(queue)@ == old(queue)@ + old(self)@.after_prim(message@, false).1,
    {
        match message.msg {
            SapMsgInner::TmdCircuitDataInd { ts, data } => {
                if ts >= 1 && ts <= 4 && self.assigned_traffic_slots[ts as usize - 1] {
                    queue.push_back(
                        SapMsg {
                            sap: Sap::TmdSap,
                            src: TetraEntity::Umac,
                            dest: TetraEntity::Cmce,
                            msg: SapMsgInner::TmdCircuitDataInd { ts, data },
                        },
                    );
                }
            },
            SapMsgInner::TmdCircuitDataReq { ts, data } => {
                let ghost v = self@;
                if self.uplink_audio.len() >= UPLINK_AUDIO_MAX_FRAMES {
                    let _ = self.uplink_audio.pop_front();
                    assert(self@.uplink_audio == v.uplink_audio.skip(1));
                }
                let ghost w = self@;
                self.uplink_audio.push_back(data);
                assert(self@.uplink_audio == w.uplink_audio.push(data@));
            },
            _ => {},
        }
    }

    /// Take a primitive of the layer management SAP.
    pub fn rx_tlmc_prim(&mut self, queue: &mut MessageQueue, message: Msg)
        requires
            message@.sap is TlmcSap,
            old(self)@.takes(message@),
        ensures
            final(self)@ == old(self)@.after_prim(message@, false).0,
            final(queue)@ == old(queue)@ + old(self)@.after_prim(message@, false).1,
    {
        match message.msg {
            SapMsgInner::TlmcConfigureReq { valid_addresses } => {
                self.rx_tlmc_configure_req(queue, valid_addresses);
            },
            SapMsgInner::TlmcTuneReq { carrier_hz } => {
                self.rx_tlmc_tune_req(queue, carrier_hz);
            },
            SapMsgInner::TlmcUPlaneConfigureReq { switch_u_plane, tx_grant } => {
                self.rx_tlmc_u_plane_configure_req(switch_u_plane, tx_grant);
            },
            _ => {},
        }
    }

    /// Take a primitive from a neighbour. `ra_active` tells whether a random
    /// access attempt is under way.
    pub fn rx_prim(&mut self, queue: &mut MessageQueue, message: Msg, ra_active: bool)
        requires
            old(self)@.takes(message@),
        ensures
            final(self)@ == old(self)@.after_prim(message@, ra_active).0,
            final(queue)@ == old(queue)@ + old(self)@.after_prim(message@, ra_active).1,
    {
        match message.sap {
            Sap::TmaSap => {
                if let SapMsgInner::TmaUnitdataReq(prim) = message.msg {
                    self.rx_tma_prim(prim, ra_active);
                }
            },
            Sap::TlmcSap => {
                self.rx_tlmc_prim(queue, message);
            },
            Sap::TmdSap => {
                self.rx_tmd_prim(queue, message);
            },
            _ => {},
        }
    }

    /// Advance the downlink clock by one slot and send what is due.
    pub fn tick_start(&mut self, queue: &mut MessageQueue)
        requires
            old(self)@.wf(),
        ensures
            final(self)@.wf(),
            final(self)@ == old(self)@.after_tick().0,
            final(queue)@ == old(queue)@ + old(self)@.after_tick().1,
    {
        self.dltime = self.dltime.add_timeslots(1);
        self.drive_reserved_tx(queue);
        self.drive_uplink_traffic(queue);
    }
}

} // verus!
