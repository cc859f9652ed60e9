//! What the mobile link entity with handles promises for each primitive, and what
//! its network time broadcast says.

use vstd::prelude::*;

use crate::mle::components::mle_router::RouterView;
use crate::mle::mle_bs_ms::{broadcast_request, stamped, MleBsView};
use crate::mle::mle_ms::routed;
use crate::mle::network_time::{
    day_of, law_network_time_fields, law_year_is_unique, network_time, year_of,
    year_start, LocalTime,
};
use crate::mle::selection_laws::{law_discriminators, link_request, plain, prefixed};
use crate::sap::{
    LcmcMleUnitdataReq, LmmMleUnitdataReq, MsgView, SapMsgInner, TlaTlDataIndBl,
};
use crate::tdma::TdmaTime;

verus! {

// ---------------------------------------------------------------------------
// Handles
// ---------------------------------------------------------------------------

/// A new handle is the next number, and records nothing. A known handle leads to
/// what was recorded behind it, and its use notes the time and nothing else; an
/// unknown one leads to identity, link and endpoint zero.
pub proof fn law_handles_lead_where_recorded(r: RouterView, handle: u32, ts: TdmaTime)
    ensures
        r.next_handle < u32::MAX ==> r.after_create().next_handle == r.next_handle + 1,
        r.after_create().states == r.states,
        r.states.contains_key(handle) ==> {
            let c = r.states[handle];
            let d = r.after_use(handle, ts).states[handle];
            &&& r.route(handle) == (c.addr, c.link_id, c.endpoint_id)
            &&& d.ts_last_used == ts
            &&& d.handle == c.handle && d.addr == c.addr && d.ts_created == c.ts_created
            &&& d.link_id == c.link_id && d.endpoint_id == c.endpoint_id
        },
        !r.states.contains_key(handle) ==> {
            let (addr, link, endpoint) = r.route(handle);
            &&& addr.ssi == 0 && addr.ssi_type is Issi && !addr.encrypted
            &&& link == 0 && endpoint == 0
            &&& r.after_use(handle, ts) == r
        },
        !r.after_delete(handle).states.contains_key(handle),
        forall|h: u32|
            h != handle ==> {
                &&& #[trigger] r.after_use(handle, ts).states.contains_key(h)
                    == r.states.contains_key(h)
                &&& r.after_delete(handle).states.contains_key(h) == r.states.contains_key(h)
            },
{
}

/// An indication for mobility management or circuit mode control takes the next
/// handle with it; one for any other entity takes none.
pub proof fn law_indication_takes_a_handle(v: MleBsView, prim: TlaTlDataIndBl<Seq<bool>>)
    requires
        prim.tl_sdu is Some,
        prim.tl_sdu->0.len() >= 3,
    ensures
        ({
            let s = prim.tl_sdu->0;
            let (w, out) = v.after_ind(prim);
            let answered = !s[0] && (s[1] != s[2]);
            &&& out == routed(prim, v.router.next_handle)
            &&& w.config == v.config
            &&& w.router == (if answered {
                v.router.after_create()
            } else {
                v.router
            })
        }),
{
    law_discriminators(prim.tl_sdu->0);
}

/// A PDU of mobility management goes out behind its discriminator, to the address
/// of its request, on the link and the endpoint behind its handle, and without a
/// priority or a receipt.
pub proof fn law_mm_answer_goes_out(v: MleBsView, prim: LmmMleUnitdataReq<Seq<bool>>)
    ensures
        link_request(v.mm_request(prim)) matches Some(r) && {
            let (_, link, endpoint) = v.router.route(prim.handle);
            &&& prefixed(r.tl_sdu, false, false, true, prim.sdu)
            &&& r.main_address == prim.address
            &&& r.link_id == link && r.endpoint_id == endpoint
            &&& r.pdu_priority is None && !r.is_emergency
            &&& r.tx_reporter is None
            &&& !r.stealing_permission && r.chan_alloc is None
            &&& plain(r)
        },
{
}

/// A PDU of the circuit mode control entity goes out behind its discriminator, on
/// the link and the endpoint of its request, with its permission to steal and its
/// channel allocation, and without a priority or a receipt.
pub proof fn law_cmce_answer_goes_out(v: MleBsView, prim: LcmcMleUnitdataReq<Seq<bool>>)
    ensures
        link_request(v.cmce_request(prim)) matches Some(r) && {
            &&& prefixed(r.tl_sdu, false, true, false, prim.sdu)
            &&& r.main_address == prim.main_address
            &&& r.link_id == prim.link_id && r.endpoint_id == prim.endpoint_id
            &&& r.pdu_priority is None && !r.is_emergency
            &&& r.tx_reporter is None
            &&& r.stealing_permission == prim.stealing_permission
            &&& r.chan_alloc == prim.chan_alloc
            &&& plain(r)
        },
{
}

/// Each primitive has its own effect: indications are routed, requests go out and
/// use their handle, and broadcasts change nothing. What is emitted carries the
/// downlink time of the primitive.
pub proof fn law_primitives_use_handles(v: MleBsView, m: MsgView, dltime: TdmaTime)
    ensures
        m.msg matches SapMsgInner::TlaTlDataIndBl(prim) ==> v.after_prim(m, dltime) == v.after_ind(
            prim,
        ),
        m.msg matches SapMsgInner::TlaTlUnitdataIndBl(prim) ==> v.after_prim(m, dltime)
            == v.after_ind(prim),
        m.msg matches SapMsgInner::LmmMleUnitdataReq(prim) ==> {
            let (w, out) = v.after_prim(m, dltime);
            &&& out == Some(v.mm_request(prim))
            &&& w.config == v.config && w.router == v.router.after_use(prim.handle, dltime)
        },
        m.msg matches SapMsgInner::LcmcMleUnitdataReq(prim) ==> {
            let (w, out) = v.after_prim(m, dltime);
            &&& out == Some(v.cmce_request(prim))
            &&& w.config == v.config && w.router == v.router.after_use(prim.handle, dltime)
        },
        m.msg is TlmbSyncInd || m.msg is TlmbSysinfoInd ==> v.after_prim(m, dltime) == (
            v,
            None::<MsgView>,
        ),
        stamped(dltime, None).len() == 0,
        stamped(dltime, Some(m)).len() == 1,
        stamped(dltime, Some(m))[0] == (dltime, m),
{
}

// ---------------------------------------------------------------------------
// The broadcast
// ---------------------------------------------------------------------------

/// The network time is broadcast by a base station alone, in the first slot of the
/// first frame of each multiframe. The broadcast states the two bits of cell load,
/// the network time, and that no neighbour cells follow.
pub proof fn law_network_time_is_broadcast(
    v: MleBsView,
    ts: TdmaTime,
    cell_load_ca: u8,
    now: LocalTime,
)
    ensures
        v.broadcast_due(ts) <==> v.config.stack_mode is Bs && ts.t == 1 && ts.f == 1,
        ({
            let p = v.time_pdu(cell_load_ca, now);
            &&& p.cell_re_select_parameters == 0
            &&& p.cell_load_ca < 4 && (cell_load_ca - p.cell_load_ca) % 4 == 0
            &&& p.tetra_network_time matches Some(t) && t == network_time(now)
            &&& p.number_of_ca_neighbour_cells == Some(0u8)
            &&& p.neighbour_cell_information_for_ca is None
        }),
{
    law_network_time_fields(now);
}

/// In a slot of its own the broadcast is made, and sent once with the time of the
/// slot where it could be encoded; in any other slot there is none.
pub proof fn law_broadcast_has_its_slot(
    v: MleBsView,
    ts: TdmaTime,
    cell_load_ca: u8,
    now: LocalTime,
    encoded: Option<Seq<bool>>,
)
    ensures
        ({
            let due = v.config.stack_mode is Bs && ts.t == 1 && ts.f == 1;
            let made = v.time_broadcast(ts, cell_load_ca, now);
            let out = v.broadcast_out(ts, encoded);
            &&& made is Some <==> due
            &&& made matches Some(p) ==> p == v.time_pdu(cell_load_ca, now)
            &&& due && encoded is Some ==> {
                &&& out.len() == 1
                &&& out[0] == (ts, broadcast_request(encoded->0))
            }
            &&& !due || encoded is None ==> out.len() == 0
        }),
{
}

/// The broadcast goes to all stations of the cell (all 24 bits of the group address
/// set, in clear), behind the discriminator of the link entity, and asks for no
/// special treatment.
pub proof fn law_broadcast_reaches_everyone(pdu: Seq<bool>)
    ensures
        ({
            let m = broadcast_request(pdu);
            &&& m.sap is TlaSap && m.src is Mle && m.dest is Llc
            &&& m.msg matches SapMsgInner::TlaTlUnitdataReqBl(r)
            &&& r.main_address.ssi == 0xff_ffff
            &&& r.main_address.ssi_type is Gssi
            &&& !r.main_address.encrypted
            &&& prefixed(r.tl_sdu, true, false, true, pdu)
            &&& r.link_id == 0 && r.endpoint_id == 0 && r.scrambling_code == 0
            &&& r.pdu_prio == 0 && r.data_prio == 0 && !r.packet_data_flag
            &&& !r.stealing_permission && r.subscriber_class == 0 && !r.fcs_flag
            &&& r.air_interface_encryption == 0 && r.scheduled_data_status == 0
            &&& r.n_tlsdu_repeats is None && r.max_schedule_interval is None
            &&& r.data_class_info is None && r.req_handle == 0
        }),
{
}

// ---------------------------------------------------------------------------
// Network time
// ---------------------------------------------------------------------------

/// The calendar is the Gregorian one: 1970 starts with day zero, and a year has 366
/// days where it is divisible by four, but not by a hundred unless by four hundred,
/// and 365 otherwise.
pub proof fn law_calendar(y: int)
    ensures
        year_start(1970) == 0,
        year_start(y + 1) - year_start(y) == (if y % 4 == 0 && (y % 100 != 0 || y % 400 == 0) {
            366int
        } else {
            365int
        }),
{
}

/// A day has 86400 seconds, and lies in the year whose first day is not after it
/// and whose last day is not before it.
pub proof fn law_days_and_years(seconds: int)
    ensures
        86_400 * day_of(seconds) <= seconds < 86_400 * (day_of(seconds) + 1),
        year_start(year_of(day_of(seconds))) <= day_of(seconds) < year_start(
            year_of(day_of(seconds)) + 1,
        ),
{
    law_year_is_unique(day_of(seconds));
}

/// What the 48 bits of the network time say, read back. The first 24 bits count
/// steps of two seconds since the year began in UTC. Then come the sign of the
/// offset of local time, its quarters of an hour or all ones where it is none or
/// more than 56, the local year since 2000 or all ones where it is not in 2000 to
/// 2062, and eleven ones.
pub proof fn law_network_time_reads_back(now: LocalTime)
    ensures
        ({
            let n = network_time(now);
            let utc = now.unix_seconds as int;
            let start = 86_400 * year_start(year_of(day_of(utc)));
            let local_year = year_of(day_of(utc + now.offset_seconds));
            let offset = (n / 0x2_0000) % 0x40;
            let year = (n / 0x800) % 0x40;
            &&& 0 <= n < 0x1_0000_0000_0000
            &&& start + 2 * (n / 0x100_0000) <= utc < start + 2 * (n / 0x100_0000) + 2
            &&& (n / 0x80_0000) % 2 == 1 <==> now.offset_seconds < 0
            &&& offset != 0x3f ==> offset <= 56 && (900 * offset == now.offset_seconds || 900
                * offset == -now.offset_seconds)
            &&& offset == 0x3f ==> now.offset_seconds as int % 900 != 0 || now.offset_seconds
                > 50_400 || now.offset_seconds < -50_400
            &&& year != 0x3f ==> local_year == 2000 + year
            &&& year == 0x3f ==> local_year < 2000 || local_year > 2062
            &&& n % 0x800 == 0x7ff
        }),
{
    law_network_time_fields(now);
    law_days_and_years(now.unix_seconds as int);
}

/// The link entity with handles takes data indications with a TL-SDU while it has
/// handles left for those that need one (a connectionless one never for itself),
/// broadcasts, and requests whose address, or whose link and endpoint, is the one
/// behind their handle.
pub proof fn law_primitives_that_are_taken(v: MleBsView, m: MsgView)
    ensures
        m.sap is TlaSap ==> (v.takes(m) <==> (m.msg matches SapMsgInner::TlaTlDataIndBl(p)
            && p.tl_sdu is Some && (MleBsView::needs_handle(p.tl_sdu->0) ==> v.router.next_handle
            < u32::MAX)) || (m.msg matches SapMsgInner::TlaTlUnitdataIndBl(p) && p.tl_sdu is Some
            && (MleBsView::needs_handle(p.tl_sdu->0) ==> v.router.next_handle < u32::MAX) && !(
        p.tl_sdu->0.len() >= 3 && p.tl_sdu->0[0] && !p.tl_sdu->0[1] && p.tl_sdu->0[2]))),
        m.sap is TlmbSap ==> (v.takes(m) <==> m.msg is TlmbSyncInd || m.msg is TlmbSysinfoInd),
        m.sap is LmmSap ==> (v.takes(m) <==> (m.msg matches SapMsgInner::LmmMleUnitdataReq(p)
            && v.router.route(p.handle).0.ssi == p.address.ssi)),
        m.sap is LcmcSap ==> (v.takes(m) <==> (m.msg matches SapMsgInner::LcmcMleUnitdataReq(p)
            && v.router.route(p.handle).1 == p.link_id && v.router.route(p.handle).2
            == p.endpoint_id)),
        m.sap !is TlaSap && m.sap !is TlmbSap && m.sap !is LmmSap && m.sap !is LcmcSap ==> !v.takes(
            m,
        ),
{
    if let SapMsgInner::TlaTlUnitdataIndBl(p) = m.msg {
        if let Some(s) = p.tl_sdu {
            law_discriminators(s);
        }
    }
}

} // verus!
