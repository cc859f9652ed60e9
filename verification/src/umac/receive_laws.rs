//! What the downlink side of the upper MAC promises for each PDU and each
//! configuration, field by field.

use vstd::prelude::*;

use crate::bits::law_bits_value;
use crate::sap::{
    LogicalChannel, MessagePrio, MsgInnerView, MsgView, PhyBlockNum, SapMsgInner, TetraAddress,
    TlmcValidAddress,
};
use crate::tdma::TdmaTime;
use crate::umac::laws::law_scrambling_code;
use crate::umac::ms_random_access::AccessDefine;
use crate::umac::receive::{
    aach_assign, aach_config, block_goes_on, block_num_fits, broadcast_type, end_part,
    fragment_part, handler_of, length_ind_defined, next_pdu, payload, resource_len, sch_pdu,
    uplink_carrier, AachPdu, BroadcastType, ChanAllocElement, MacResource, MacSync, MacSysinfo,
};
use crate::umac::umac_ms::UmacView;

verus! {

// ---------------------------------------------------------------------------
// Reading what was emitted
// ---------------------------------------------------------------------------

/// What a message of the upper MAC to the lower MAC says.
pub open spec fn for_lower_mac(m: MsgView) -> Option<MsgInnerView> {
    if m.sap is TmvSap && m.src is Umac && m.dest is Lmac {
        Some(m.msg)
    } else {
        None
    }
}

/// What a broadcast of the upper MAC to the mobile link entity says.
pub open spec fn for_link_entity(m: MsgView) -> Option<MsgInnerView> {
    if m.sap is TlmbSap && m.src is Umac && m.dest is Mle {
        Some(m.msg)
    } else {
        None
    }
}

/// Whether a message configures the lower MAC as stated, and in nothing else.
pub open spec fn configures(
    e: (MessagePrio, MsgView),
    at_once: bool,
    time: Option<TdmaTime>,
    scrambling_code: Option<u32>,
    is_traffic: Option<bool>,
    blk2_stolen: Option<bool>,
) -> bool {
    &&& (e.0 is Immediate) == at_once
    &&& for_lower_mac(e.1) matches Some(SapMsgInner::TmvConfigureReq(c))
    &&& c.time == time
    &&& c.scrambling_code == scrambling_code
    &&& c.is_traffic == is_traffic
    &&& c.blk2_stolen == blk2_stolen
}

/// Whether a message hands a TM-SDU to the link layer, as stated and with nothing
/// else set.
pub open spec fn delivers(
    e: (MessagePrio, MsgView),
    sdu: Seq<bool>,
    addr: TetraAddress,
    scrambling_code: u32,
) -> bool {
    &&& e.0 is Normal
    &&& e.1.sap is TmaSap && e.1.src is Umac && e.1.dest is Llc
    &&& e.1.msg matches SapMsgInner::TmaUnitdataInd(i)
    &&& i.pdu == Some(sdu)
    &&& i.main_address == addr
    &&& i.scrambling_code == scrambling_code
    &&& i.endpoint_id == 0
    &&& i.air_interface_encryption == 0
    &&& i.new_endpoint_id is None && i.css_endpoint_id is None
    &&& !i.chan_change_response_req
    &&& i.chan_change_handle is None && i.chan_info is None
}

// ---------------------------------------------------------------------------
// Sorting received blocks
// ---------------------------------------------------------------------------

/// The access assignment, the synchronization channel and signalling each have a
/// handler of their own. A full slot comes whole, a half-slot by its half, and
/// traffic and uplink channels not at all.
pub proof fn law_each_channel_has_its_handler(lchan: LogicalChannel, num: PhyBlockNum)
    ensures
        (handler_of(lchan) is Aach) == (lchan is Aach),
        (handler_of(lchan) is Bsch) == (lchan is Bsch),
        (handler_of(lchan) is Sch) == (lchan !is Aach && lchan !is Bsch),
        lchan is Aach || lchan is Bsch ==> block_num_fits(lchan, num),
        lchan is SchF ==> block_num_fits(lchan, num) == (num is Both),
        lchan is SchHd || lchan is Bnch || lchan is Stch ==> block_num_fits(lchan, num) == (num
            is Block1 || num is Block2),
        lchan is TchS || lchan is SchHu || lchan is Clch ==> !block_num_fits(lchan, num),
{
}

/// The first two bits of a signalling block tell its PDU: 00 a MAC-RESOURCE, 01 a
/// fragment or, with a third bit set, its end, 10 a broadcast, 11 a user signal on
/// the stealing channel and a supplementary PDU elsewhere.
pub proof fn law_first_bits_tell_the_pdu(block: Seq<bool>, lchan: LogicalChannel)
    requires
        block.len() >= 3,
    ensures
        (sch_pdu(block, lchan) is MacResource) == (!block[0] && !block[1]),
        (sch_pdu(block, lchan) is MacFrag) == (!block[0] && block[1] && !block[2]),
        (sch_pdu(block, lchan) is MacEnd) == (!block[0] && block[1] && block[2]),
        (sch_pdu(block, lchan) is Broadcast) == (block[0] && !block[1]),
        (sch_pdu(block, lchan) is USignal) == (block[0] && block[1] && lchan is Stch),
        (sch_pdu(block, lchan) is Supplementary) == (block[0] && block[1] && lchan !is Stch),
{
}

/// A signalling block tells its PDU as soon as three bits are left, and not before.
pub proof fn law_three_bits_tell_the_pdu(block: Seq<bool>, lchan: LogicalChannel)
    ensures
        next_pdu(block, lchan) is Some <==> block.len() >= 3,
        next_pdu(block, lchan) matches Some(p) ==> p == sch_pdu(block, lchan),
{
}

/// The two bits behind the type of a broadcast tell SYSINFO (00) and ACCESS-DEFINE
/// (01); the others are not read.
pub proof fn law_broadcast_bits_tell_the_pdu(block: Seq<bool>)
    requires
        block.len() >= 4,
    ensures
        (broadcast_type(block) == Some(BroadcastType::Sysinfo)) == (!block[2] && !block[3]),
        (broadcast_type(block) == Some(BroadcastType::AccessDefine)) == (!block[2] && block[3]),
        (broadcast_type(block) is None) == block[2],
{
    let s = block.subrange(2, 4);
    assert(s == Seq::<bool>::empty().push(block[2]).push(block[3]));
    law_bits_value(Seq::<bool>::empty(), block[2]);
    law_bits_value(Seq::<bool>::empty().push(block[2]), block[3]);
}

/// A block goes on behind a PDU that moved the reading position, while the
/// sixteen bits of the shortest PDU are left.
pub proof fn law_block_goes_on_while_a_pdu_fits(advance: Option<usize>, left: int)
    ensures
        advance is None ==> !block_goes_on(advance, left),
        advance == Some(0usize) ==> !block_goes_on(advance, left),
        left < 16 ==> !block_goes_on(advance, left),
        advance is Some && advance->0 != 0 && left >= 16 ==> block_goes_on(advance, left),
{
}

// ---------------------------------------------------------------------------
// Broadcast information
// ---------------------------------------------------------------------------

/// The uplink carrier lies the duplex spacing below the downlink carrier, or above
/// it in reverse operation; the downlink carrier is 100 MHz per band plus 25 kHz
/// per carrier plus the offset. There is none exactly where the band or the
/// carrier is out of range, a table entry is missing, or no 32-bit frequency
/// comes out.
pub proof fn law_uplink_lies_the_spacing_away(
    pdu: MacSysinfo,
    offset: Option<i32>,
    spacing: Option<u32>,
)
    ensures
        ({
            let r = uplink_carrier(pdu, offset, spacing);
            let defined = pdu.freq_band <= 8 && pdu.main_carrier <= 3999 && offset is Some
                && spacing is Some;
            let dl = pdu.freq_band * 100_000_000 + pdu.main_carrier * 25_000 + offset->0;
            &&& r matches Some(ul) ==> {
                &&& defined
                &&& pdu.reverse_operation ==> ul - dl == spacing->0
                &&& !pdu.reverse_operation ==> dl - ul == spacing->0
            }
            &&& r is None && defined ==> {
                &&& pdu.reverse_operation ==> !(0 <= dl + spacing->0 < 0x1_0000_0000)
                &&& !pdu.reverse_operation ==> !(0 <= dl - spacing->0 < 0x1_0000_0000)
            }
        }),
{
}

/// Only a mobile station is retuned, only where a carrier is derived, and only
/// where it differs from the last: then exactly that carrier is asked for.
pub proof fn law_retune_follows_the_derived_carrier(v: UmacView, ul: Option<u32>)
    ensures
        ({
            let (w, out) = v.after_uplink(ul);
            let moves = v.stack_mode is Ms && ul is Some && ul != v.derived_ul_freq;
            &&& w == (UmacView { derived_ul_freq: w.derived_ul_freq, ..v })
            &&& moves ==> {
                &&& w.derived_ul_freq == ul
                &&& out.len() == 1
                &&& out[0].0 is Normal
                &&& for_lower_mac(out[0].1) matches Some(SapMsgInner::TmvTxTuneReq { carrier_hz })
                    && Some(carrier_hz) == ul
            }
            &&& !moves ==> w.derived_ul_freq == v.derived_ul_freq && out.len() == 0
        }),
{
}

/// A SYSINFO sets the main carrier and, where it defines access code A, its
/// default parameters; every other field but the derived carrier is kept. The
/// retune comes first, then a new hyperframe number with the rest of the time
/// kept, and last what is left of the PDU for the mobile link entity.
pub proof fn law_sysinfo_is_adopted(
    v: UmacView,
    pdu: MacSysinfo,
    ul: Option<u32>,
    rest: Seq<bool>,
)
    ensures
        ({
            let (w, out) = v.after_sysinfo(pdu, ul, rest);
            let tunes = v.stack_mode is Ms && ul is Some && ul != v.derived_ul_freq;
            let times = pdu.hyperframe_number is Some && pdu.hyperframe_number->0 != v.dltime.h;
            let a = if tunes {
                1int
            } else {
                0int
            };
            let b = if times {
                1int
            } else {
                0int
            };
            &&& w == (UmacView {
                access_params: w.access_params,
                serving_carrier_num: Some(pdu.main_carrier),
                derived_ul_freq: if tunes {
                    ul
                } else {
                    v.derived_ul_freq
                },
                ..v
            })
            &&& w.access_params.defined_a == v.access_params.defined_a
            &&& w.access_params.defined_b == v.access_params.defined_b
            &&& w.access_params.defined_c == v.access_params.defined_c
            &&& w.access_params.defined_d == v.access_params.defined_d
            &&& match pdu.default_access_code {
                None => w.access_params.sysinfo_default_a == v.access_params.sysinfo_default_a,
                Some(d) => {
                    &&& w.access_params.sysinfo_default_a matches Some(p)
                    &&& p.imm == d.imm && p.wt == d.wt && p.nu == d.nu
                    &&& p.fl_factor == d.fl_factor && p.ts_ptr == d.ts_ptr
                    &&& p.min_pdu_prio == d.min_pdu_prio
                    &&& p.subscriber_class is None && p.gssi is None
                },
            }
            &&& out.len() == a + b + 1
            &&& tunes ==> out[0].0 is Normal && (for_lower_mac(out[0].1) matches Some(
                SapMsgInner::TmvTxTuneReq { carrier_hz },
            ) && Some(carrier_hz) == ul)
            &&& times ==> configures(
                out[a],
                false,
                Some(
                    TdmaTime {
                        t: v.dltime.t,
                        f: v.dltime.f,
                        m: v.dltime.m,
                        h: pdu.hyperframe_number->0,
                    },
                ),
                None,
                None,
                None,
            )
            &&& out[a + b].0 is Normal
            &&& for_link_entity(out[a + b].1) matches Some(
                SapMsgInner::TlmbSysinfoInd { endpoint_id, tl_sdu, mac_broadcast_info },
            ) && endpoint_id == 0 && tl_sdu == rest && mac_broadcast_info is None
        }),
{
}

/// A SYNC sets the colour code and the time, and nothing else; the lower MAC is
/// told the time, and the mobile link entity what is left of the PDU.
pub proof fn law_sync_is_adopted(v: UmacView, pdu: MacSync, rest: Seq<bool>)
    ensures
        ({
            let (w, out) = v.after_sync(pdu, rest);
            &&& w.cc == Some(pdu.colour_code)
            &&& w.dltime == pdu.time
            &&& w == (UmacView { cc: w.cc, dltime: w.dltime, ..v })
            &&& out.len() == 2
            &&& configures(out[0], false, Some(pdu.time), None, None, None)
            &&& out[1].0 is Normal
            &&& for_link_entity(out[1].1) matches Some(
                SapMsgInner::TlmbSyncInd { endpoint_id, tl_sdu },
            ) && endpoint_id == 0 && tl_sdu == rest
        }),
{
}

/// An ACCESS-DEFINE changes the access parameters alone, and not even those where
/// it is for an assigned control channel.
pub proof fn law_access_define_is_adopted(v: UmacView, pdu: AccessDefine)
    ensures
        ({
            let w = v.after_access_define(pdu);
            &&& w == (UmacView { access_params: w.access_params, ..v })
            &&& pdu.common_or_assigned_control ==> w.access_params == v.access_params
            &&& !pdu.common_or_assigned_control ==> w.access_params
                == v.access_params.with_access_define(pdu)
        }),
{
}

/// The lower MAC is told at once whether a slot carries traffic; the control
/// frame never does. The ACCESS-ASSIGN itself is handed on unchanged.
pub proof fn law_access_assignment_is_passed_on(pdu: AachPdu)
    ensures
        configures(
            aach_config(pdu),
            true,
            None,
            None,
            Some(pdu matches AachPdu::Assign(aa) && aa.dl_usage is Traffic),
            None,
        ),
        aach_assign(pdu) is Some <==> pdu is Assign,
        pdu matches AachPdu::Assign(aa) ==> aach_assign(pdu) == Some(aa),
{
}

// ---------------------------------------------------------------------------
// Receive filter and configuration
// ---------------------------------------------------------------------------

/// A mobile station reads what is addressed to its own identity, to one of its
/// groups, or to all stations (all 24 bits set); one without an identity, and any
/// other mode, reads everything.
pub proof fn law_filter(v: UmacView, ssi: u32)
    ensures
        v.accepts(ssi) <==> v.stack_mode is Bs || v.stack_mode is Mon || v.configured_issi is None
            || ssi == 0xff_ffff || v.valid_individual_ssi == Some(ssi)
            || v.valid_group_ssis.contains(ssi),
{
}

/// Identities set the network and, as far as they are given, the own identity and
/// the groups. With the colour code known, the scrambling code is derived anew
/// from exactly these codes and handed to the lower MAC; without it nothing is
/// said. Nothing else changes.
pub proof fn law_identities_are_adopted(v: UmacView, a: TlmcValidAddress<Seq<u32>>)
    requires
        a.mcc < 1024 && a.mnc < 16384,
        v.cc matches Some(cc) ==> cc < 64,
    ensures
        ({
            let (w, out) = v.after_identities(a);
            &&& w.mcc == Some(a.mcc)
            &&& w.mnc == Some(a.mnc)
            &&& w.valid_individual_ssi == (if a.individual_ssi is Some {
                a.individual_ssi
            } else {
                v.valid_individual_ssi
            })
            &&& a.group_ssis is None ==> w.valid_group_ssis == v.valid_group_ssis
            &&& a.group_ssis matches Some(g) ==> forall|s: u32| #[trigger]
                w.valid_group_ssis.contains(s) == g.contains(s)
            &&& w == (UmacView {
                mcc: w.mcc,
                mnc: w.mnc,
                valid_individual_ssi: w.valid_individual_ssi,
                valid_group_ssis: w.valid_group_ssis,
                scrambling_code: w.scrambling_code,
                ..v
            })
            &&& v.cc is None ==> w.scrambling_code == v.scrambling_code && out.len() == 0
            &&& v.cc matches Some(cc) ==> {
                &&& w.scrambling_code matches Some(code)
                &&& code == 4_194_304 * a.mcc + 256 * a.mnc + 4 * cc + 3
                &&& out.len() == 1
                &&& configures(out[0], false, None, Some(code), None, None)
            }
        }),
{
    if let Some(cc) = v.cc {
        law_scrambling_code(a.mcc, a.mnc, cc, a.mcc, a.mnc, cc);
    }
    if let Some(g) = a.group_ssis {
        assert forall|s: u32| #[trigger] v.after_identities(a).0.valid_group_ssis.contains(s)
            == g.contains(s) by {
            assert(g.to_set().contains(s) == g.contains(s));
        }
    }
}

/// A channel allocation on the serving carrier that covers the downlink sets the
/// four slots to its own, or adds them where it is additional; any other changes
/// nothing, and none changes anything but the slots.
pub proof fn law_allocation_sets_the_slots(v: UmacView, ca: ChanAllocElement)
    requires
        v.assigned_traffic_slots.len() == 4,
    ensures
        ({
            let w = v.after_allocation(ca);
            let followed = !ca.extended && !ca.cell_change_flag && v.serving_carrier_num == Some(
                ca.carrier_num,
            ) && (ca.ul_dl_assigned is Dl || ca.ul_dl_assigned is Both);
            &&& w == (UmacView { assigned_traffic_slots: w.assigned_traffic_slots, ..v })
            &&& w.assigned_traffic_slots.len() == 4
            &&& forall|i: int|
                0 <= i < 4 ==> #[trigger] w.assigned_traffic_slots[i] == (if !followed {
                    v.assigned_traffic_slots[i]
                } else {
                    ca.ts_assigned@[i] || (ca.alloc_type is Additional
                        && v.assigned_traffic_slots[i])
                })
        }),
{
}

// ---------------------------------------------------------------------------
// MAC-RESOURCE and fragments
// ---------------------------------------------------------------------------

/// The length indications up to 57, 62 and 63 are defined. Zero is a PDU of its
/// header alone, up to 57 states octets, and the two others take what is left;
/// none takes more than the block holds.
pub proof fn law_stated_length(n: u8, header_len: int, block_len: int)
    requires
        0 <= header_len,
        0 <= block_len,
    ensures
        length_ind_defined(n) <==> n <= 57 || n == 62 || n == 63,
        n == 0 && header_len <= block_len ==> resource_len(n, header_len, block_len) == header_len,
        1 <= n <= 57 && 8 * n <= block_len ==> resource_len(n, header_len, block_len) == 8 * n,
        n == 62 || n == 63 ==> resource_len(n, header_len, block_len) == block_len,
        n == 0 && header_len > block_len ==> resource_len(n, header_len, block_len) == block_len,
        1 <= n <= 57 && 8 * n > block_len ==> resource_len(n, header_len, block_len) == block_len,
{
}

/// The TM-SDU of a PDU is the stretch of the block between its header and its fill
/// bits, bit by bit.
pub proof fn law_payload_follows_the_header(block: Seq<bool>, header_len: int, end: int)
    requires
        0 <= header_len <= end <= block.len(),
    ensures
        payload(block, header_len, end).len() == end - header_len,
        forall|i: int|
            0 <= i < end - header_len ==> #[trigger] payload(block, header_len, end)[i]
                == block[header_len + i],
{
}

/// A fragment reaches the defragmenter without its header and its fill bits, bit by
/// bit: the rest of the block for a MAC-FRAG, which has to be in clear, and the
/// stated octets for a MAC-END.
pub proof fn law_fragments_lose_header_and_fill(
    block: Seq<bool>,
    length_ind: u8,
    header_len: int,
    fill: int,
)
    requires
        0 <= header_len,
        0 <= fill,
    ensures
        fragment_part(block, header_len, fill, true) is None,
        header_len + fill <= block.len() ==> {
            &&& fragment_part(block, header_len, fill, false) matches Some(s)
            &&& s.len() == block.len() - fill - header_len
            &&& forall|i: int| 0 <= i < s.len() ==> #[trigger] s[i] == block[header_len + i]
        },
        header_len + fill <= 8 * length_ind <= block.len() ==> {
            let s = end_part(block, length_ind, header_len, fill);
            &&& s.len() == 8 * length_ind - fill - header_len
            &&& forall|i: int| 0 <= i < s.len() ==> #[trigger] s[i] == block[header_len + i]
        },
{
}

/// An address is the own one by its identity alone; the control frame is frame 18.
pub proof fn law_own_address_and_control_frame(v: UmacView, addr: Option<TetraAddress>)
    ensures
        addr is None ==> !v.is_self(addr),
        addr matches Some(a) ==> (v.is_self(addr) <==> v.configured_issi == Some(a.ssi)),
        v.in_frame18() <==> v.dltime.f == 18,
{
}

/// A MAC-RESOURCE that is not for this station, that has no address, or that is
/// encrypted delivers nothing and follows no allocation; reading goes on behind
/// it where it is merely for another station, and stops otherwise.
pub proof fn law_foreign_resource_delivers_nothing(
    v: UmacView,
    pdu: MacResource,
    block: Seq<bool>,
    header_len: int,
    fill: int,
    scrambling_code: u32,
)
    requires
        pdu.addr is None || pdu.encryption_mode != 0 || !v.accepts(pdu.addr->0.ssi),
    ensures
        ({
            let (w, out, r) = v.after_resource(
                pdu,
                block,
                header_len,
                fill,
                scrambling_code,
                false,
            );
            &&& w == v
            &&& out.len() == 0
            &&& r.first_fragment is None
            &&& pdu.addr is None || pdu.encryption_mode != 0 ==> r.advance is None
            &&& pdu.addr is Some && pdu.encryption_mode == 0 ==> r.advance == Some(
                resource_len(pdu.length_ind, header_len, block.len() as int) as usize,
            )
        }),
{
}

/// A clear MAC-RESOURCE for this station: its TM-SDU goes up once, with the address
/// it came for and the scrambling code it came under, unless it is empty, a null
/// PDU, or the start of a fragmented one, which goes to the defragmenter instead.
/// A stolen second half is told to the lower MAC at once, before it. Its channel
/// allocation is followed, and reading goes on behind it.
pub proof fn law_own_resource_is_delivered(
    v: UmacView,
    pdu: MacResource,
    block: Seq<bool>,
    header_len: int,
    fill: int,
    scrambling_code: u32,
)
    requires
        pdu.addr is Some,
        pdu.encryption_mode == 0,
        v.accepts(pdu.addr->0.ssi),
        length_ind_defined(pdu.length_ind),
        0 <= header_len,
        0 <= fill,
        header_len + fill <= resource_len(pdu.length_ind, header_len, block.len() as int),
    ensures
        ({
            let (w, out, r) = v.after_resource(
                pdu,
                block,
                header_len,
                fill,
                scrambling_code,
                false,
            );
            let addr = pdu.addr->0;
            let len = resource_len(pdu.length_ind, header_len, block.len() as int);
            let sdu = block.subrange(header_len, len - fill);
            let stolen = pdu.length_ind == 62;
            let s = if stolen {
                1int
            } else {
                0int
            };
            let up = 1 <= pdu.length_ind <= 62 && sdu.len() > 0;
            let u = if up {
                1int
            } else {
                0int
            };
            &&& w == (match pdu.chan_alloc_element {
                Some(ca) => v.after_allocation(ca),
                None => v,
            })
            &&& r.advance == Some(len as usize)
            &&& (r.first_fragment is Some) == (pdu.length_ind == 63)
            &&& r.first_fragment matches Some((a, part)) ==> a == addr && part == sdu
            &&& out.len() == s + u
            &&& stolen ==> configures(out[0], true, None, None, None, Some(true))
            &&& up ==> delivers(out[s], sdu, addr, scrambling_code)
        }),
{
}

/// An acknowledgement that comes with a MAC-RESOURCE is acted upon first, whomever
/// the PDU is for; the rest is as for a PDU without one.
pub proof fn law_acknowledgement_comes_first(
    v: UmacView,
    pdu: MacResource,
    block: Seq<bool>,
    header_len: int,
    fill: int,
    scrambling_code: u32,
)
    ensures
        ({
            let (a, answered) = v.after_acknowledged(pdu.slot_granting_element);
            let (x, out, r) = a.after_resource(
                pdu,
                block,
                header_len,
                fill,
                scrambling_code,
                false,
            );
            let (y, all, q) = v.after_resource(
                pdu,
                block,
                header_len,
                fill,
                scrambling_code,
                true,
            );
            y == x && all == answered + out && q == r
        }),
{
}

/// A TM-SDU that a MAC-END has completed goes up once, whole, where it is for this
/// station.
pub proof fn law_completed_sdu_is_delivered(
    v: UmacView,
    sdu: Seq<bool>,
    addr: TetraAddress,
    scrambling_code: u32,
)
    ensures
        !v.accepts(addr.ssi) ==> v.end_delivery(sdu, addr, scrambling_code).len() == 0,
        v.accepts(addr.ssi) ==> {
            let out = v.end_delivery(sdu, addr, scrambling_code);
            out.len() == 1 && delivers(out[0], sdu, addr, scrambling_code)
        },
{
}

// ---------------------------------------------------------------------------
// Primitives
// ---------------------------------------------------------------------------

/// Received speech goes on to the circuit mode control entity, unchanged, from an
/// assigned timeslot, and nowhere from any other; it changes nothing.
pub proof fn law_received_speech_is_relayed(
    v: UmacView,
    m: MsgView,
    ts: u8,
    data: Seq<u8>,
    ra_active: bool,
)
    requires
        m.msg == (SapMsgInner::<Seq<bool>, Seq<u32>, Seq<u8>>::TmdCircuitDataInd { ts, data }),
    ensures
        ({
            let (w, out) = v.after_prim(m, ra_active);
            let mine = 1 <= ts <= 4 && v.assigned_traffic_slots[ts - 1];
            &&& w == v
            &&& !mine ==> out.len() == 0
            &&& mine ==> {
                &&& out.len() == 1
                &&& out[0].0 is Normal
                &&& out[0].1.sap is TmdSap && out[0].1.src is Umac && out[0].1.dest is Cmce
                &&& out[0].1.msg matches SapMsgInner::TmdCircuitDataInd { ts: t, data: d } && t
                    == ts && d == data
            }
        }),
{
}

/// Each request has its own effect: a TM-SDU is taken, identities are adopted, a
/// retune of the downlink is passed on with its carrier, the right to talk is set,
/// and speech is buffered.
pub proof fn law_requests_have_their_effect(v: UmacView, m: MsgView, ra_active: bool)
    ensures
        m.msg matches SapMsgInner::TmaUnitdataReq(prim) ==> {
            let (w, out) = v.after_prim(m, ra_active);
            w == v.after_tma(prim, ra_active) && out.len() == 0
        },
        m.msg matches SapMsgInner::TlmcConfigureReq { valid_addresses: Some(a) } ==> v.after_prim(
            m,
            ra_active,
        ) == v.after_identities(a),
        m.msg matches SapMsgInner::TlmcConfigureReq { valid_addresses: None } ==> {
            let (w, out) = v.after_prim(m, ra_active);
            w == v && out.len() == 0
        },
        m.msg matches SapMsgInner::TlmcTuneReq { carrier_hz } ==> {
            let (w, out) = v.after_prim(m, ra_active);
            &&& w == v
            &&& out.len() == 1
            &&& out[0].0 is Normal
            &&& for_lower_mac(out[0].1) matches Some(SapMsgInner::TmvTuneReq { carrier_hz: c }) && c
                == carrier_hz
        },
        m.msg matches SapMsgInner::TlmcUPlaneConfigureReq { switch_u_plane, tx_grant } ==> {
            let (w, out) = v.after_prim(m, ra_active);
            w == v.after_u_plane(switch_u_plane, tx_grant) && out.len() == 0
        },
        m.msg matches SapMsgInner::TmdCircuitDataReq { ts, data } ==> {
            let (w, out) = v.after_prim(m, ra_active);
            w == v.after_speech(data) && out.len() == 0
        },
{
}

/// The upper MAC takes a TM-SDU wherever it knows its identity on a known cell,
/// configurations and retunes from the mobile link entity, and speech in both
/// directions, each at its own access point, and nothing else.
pub proof fn law_primitives_that_are_taken(v: UmacView, m: MsgView)
    ensures
        v.takes(m) <==> {
            ||| m.sap is TmaSap && m.msg is TmaUnitdataReq && (v.scrambling_code is None
                || v.configured_issi is Some)
            ||| m.sap is TlmcSap && m.msg is TlmcConfigureReq
            ||| m.sap is TlmcSap && m.msg is TlmcTuneReq
            ||| m.sap is TlmcSap && m.msg is TlmcUPlaneConfigureReq
            ||| m.sap is TmdSap && m.msg is TmdCircuitDataInd
            ||| m.sap is TmdSap && m.msg is TmdCircuitDataReq
        },
{
}

} // verus!
