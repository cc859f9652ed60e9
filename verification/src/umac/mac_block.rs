//! Uplink MAC blocks: a MAC header in front of a stretch of TM-SDU, and the
//! fragmentation of a TM-SDU over several of them (ETSI TS 100 392-2
//! cl. 21.4.2, cl. 23.4.2).
//!
//! A block is kept as its header fields and the bits that follow the header.
//! The header's own bits are written when the block is channel-coded; their
//! number is fixed by the header's kind.

use vstd::prelude::*;

use crate::bits::{fill_bits, zeros, BitBuffer};
use crate::umac::umac_ms::UmacMs;

verus! {

/// SCH/HU (Control Uplink Burst) type-1 MAC block length in bits.
pub const SCH_HU_TYPE1_BITS: usize = 92;

/// SCH/F (Normal Uplink Burst) type-1 MAC block length in bits.
pub const SCH_F_TYPE1_BITS: usize = 268;

/// STCH (stolen half-slot) type-1 MAC block length in bits.
pub const STCH_TYPE1_BITS: usize = 124;

/// MAC-ACCESS header with an ISSI and no optional field (cl. 21.4.2.1).
pub const MAC_ACCESS_HEADER_BITS: usize = 30;

/// MAC-ACCESS header with an ISSI and a capacity request (cl. 21.4.2.1).
pub const MAC_ACCESS_FRAG_HEADER_BITS: usize = 36;

/// MAC-END-HU header (cl. 21.4.2.2): PDU type, fill-bit indication, length or
/// capacity-request flag, 4-bit length indication.
pub const MAC_END_HU_HEADER_BITS: usize = 7;

/// MAC-FRAG-UL header (cl. 21.4.2.4): PDU type, subtype, fill-bit indication.
pub const MAC_FRAG_UL_HEADER_BITS: usize = 4;

/// MAC-END-UL header (cl. 21.4.2.5): PDU type, subtype, fill-bit indication,
/// 6-bit length indication.
pub const MAC_END_UL_HEADER_BITS: usize = 10;

/// MAC-DATA header with an ISSI and a 6-bit length indication (cl. 21.4.3.3).
pub const MAC_DATA_HEADER_BITS: usize = 37;

/// Most full SCH/F slots that one fragmented uplink transfer may reserve.
pub const MAX_UL_FRAG_SLOTS: usize = 6;

/// Largest remainder that a single MAC-END-HU carries, in bits.
pub const MAX_END_HU_SDU_BITS: usize = 81;

/// Largest remainder that a single MAC-END-UL carries, in bits.
pub const MAX_END_UL_SDU_BITS: usize = 254;

/// Most TM-SDU bits in one MAC-FRAG-UL continuation: as many as fill its slot
/// exactly.
pub const MAX_FRAG_UL_SDU_BITS: usize = 264;

/// TM-SDU bits in the MAC-ACCESS that starts a fragmented transfer.
pub const FRAG_START_SDU_BITS: usize = 56;

/// Uplink capacity asked for in a capacity request (cl. 21.5.6).
#[derive(Clone, Copy, Debug, PartialEq, Eq, Structural)]
pub enum ReservationRequirement {
    Req1Subslot,
    Req1Slot,
    Req2Slots,
    Req3Slots,
    Req4Slots,
    Req5Slots,
    Req6Slots,
}

/// The whole slots that a reservation requirement asks for.
pub open spec fn requested_slots(r: ReservationRequirement) -> int {
    match r {
        ReservationRequirement::Req1Subslot => 0,
        ReservationRequirement::Req1Slot => 1,
        ReservationRequirement::Req2Slots => 2,
        ReservationRequirement::Req3Slots => 3,
        ReservationRequirement::Req4Slots => 4,
        ReservationRequirement::Req5Slots => 5,
        ReservationRequirement::Req6Slots => 6,
    }
}

/// The reservation requirement for `n` whole slots.
pub open spec fn slots_requirement(n: int) -> ReservationRequirement {
    if n <= 1 {
        ReservationRequirement::Req1Slot
    } else if n == 2 {
        ReservationRequirement::Req2Slots
    } else if n == 3 {
        ReservationRequirement::Req3Slots
    } else if n == 4 {
        ReservationRequirement::Req4Slots
    } else if n == 5 {
        ReservationRequirement::Req5Slots
    } else {
        ReservationRequirement::Req6Slots
    }
}

impl ReservationRequirement {
    /// The reservation requirement for `n` whole slots.
    pub fn from_req_slotcount(n: usize) -> (r: ReservationRequirement)
        requires
            1 <= n <= MAX_UL_FRAG_SLOTS,
        ensures
            r == slots_requirement(n as int),
            requested_slots(r) == n,
    {
        if n == 1 {
            ReservationRequirement::Req1Slot
        } else if n == 2 {
            ReservationRequirement::Req2Slots
        } else if n == 3 {
            ReservationRequirement::Req3Slots
        } else if n == 4 {
            ReservationRequirement::Req4Slots
        } else if n == 5 {
            ReservationRequirement::Req5Slots
        } else {
            ReservationRequirement::Req6Slots
        }
    }
}

/// MAC-ACCESS header addressed with the station's own ISSI (cl. 21.4.2.1).
#[derive(Clone, Copy, Debug, PartialEq, Eq, Structural)]
pub struct MacAccess {
    pub fill_bits: bool,
    pub encrypted: bool,
    pub issi: u32,
    pub length_ind: Option<u8>,
    pub frag_flag: Option<bool>,
    pub reservation_req: Option<ReservationRequirement>,
}

/// MAC-END-HU header (cl. 21.4.2.2).
#[derive(Clone, Copy, Debug, PartialEq, Eq, Structural)]
pub struct MacEndHu {
    pub fill_bits: bool,
    pub length_ind: Option<u8>,
    pub reservation_req: Option<ReservationRequirement>,
}

/// MAC-END-UL header (cl. 21.4.2.5).
#[derive(Clone, Copy, Debug, PartialEq, Eq, Structural)]
pub struct MacEndUl {
    pub fill_bits: bool,
    pub length_ind: Option<u8>,
    pub reservation_req: Option<ReservationRequirement>,
}

/// MAC-FRAG-UL header (cl. 21.4.2.4).
#[derive(Clone, Copy, Debug, PartialEq, Eq, Structural)]
pub struct MacFragUl {
    pub fill_bits: bool,
}

/// MAC-DATA header addressed with the station's own ISSI (cl. 21.4.3.3).
#[derive(Clone, Copy, Debug, PartialEq, Eq, Structural)]
pub struct MacData {
    pub fill_bits: bool,
    pub encrypted: bool,
    pub issi: u32,
    pub length_ind: Option<u8>,
    pub frag_flag: Option<bool>,
    pub reservation_req: Option<ReservationRequirement>,
}

/// The header in front of an uplink MAC block's bits; a traffic block has none.
#[derive(Clone, Copy, Debug, PartialEq, Eq, Structural)]
pub enum MacHeader {
    Traffic,
    Access(MacAccess),
    EndHu(MacEndHu),
    EndUl(MacEndUl),
    FragUl(MacFragUl),
    Data(MacData),
}

impl MacHeader {
    /// Number of bits that the header occupies.
    pub open spec fn bits(self) -> int {
        match self {
            MacHeader::Traffic => 0,
            MacHeader::Access(a) => if a.length_ind is None && a.frag_flag is None {
                MAC_ACCESS_HEADER_BITS as int
            } else {
                MAC_ACCESS_FRAG_HEADER_BITS as int
            },
            MacHeader::EndHu(_) => MAC_END_HU_HEADER_BITS as int,
            MacHeader::EndUl(_) => MAC_END_UL_HEADER_BITS as int,
            MacHeader::FragUl(_) => MAC_FRAG_UL_HEADER_BITS as int,
            MacHeader::Data(_) => MAC_DATA_HEADER_BITS as int,
        }
    }

    /// Whether the header announces fill bits.
    pub open spec fn announces_fill(self) -> bool {
        match self {
            MacHeader::Traffic => false,
            MacHeader::Access(a) => a.fill_bits,
            MacHeader::EndHu(a) => a.fill_bits,
            MacHeader::EndUl(a) => a.fill_bits,
            MacHeader::FragUl(a) => a.fill_bits,
            MacHeader::Data(a) => a.fill_bits,
        }
    }

    /// The length in octets that the header states, if it states one.
    pub open spec fn stated_octets(self) -> Option<u8> {
        match self {
            MacHeader::Traffic => None,
            MacHeader::Access(a) => a.length_ind,
            MacHeader::EndHu(a) => a.length_ind,
            MacHeader::EndUl(a) => a.length_ind,
            MacHeader::FragUl(_) => None,
            MacHeader::Data(a) => a.length_ind,
        }
    }

    /// Number of bits that the header occupies.
    pub fn len_bits(self) -> (r: usize)
        ensures
            r == self.bits(),
    {
        match self {
            MacHeader::Traffic => 0,
            MacHeader::Access(a) => if a.length_ind.is_none() && a.frag_flag.is_none() {
                MAC_ACCESS_HEADER_BITS
            } else {
                MAC_ACCESS_FRAG_HEADER_BITS
            },
            MacHeader::EndHu(_) => MAC_END_HU_HEADER_BITS,
            MacHeader::EndUl(_) => MAC_END_UL_HEADER_BITS,
            MacHeader::FragUl(_) => MAC_FRAG_UL_HEADER_BITS,
            MacHeader::Data(_) => MAC_DATA_HEADER_BITS,
        }
    }
}

/// A type-1 MAC block: its header and the bits behind it. `B` is [`BitBuffer`]
/// in executable code and `Seq<bool>` in its view.
#[derive(Debug)]
#[verifier::ext_equal]
pub struct MacBlock<B> {
    pub header: MacHeader,
    pub body: B,
}

impl View for MacBlock<BitBuffer> {
    type V = MacBlock<Seq<bool>>;

    open spec fn view(&self) -> MacBlock<Seq<bool>> {
        MacBlock { header: self.header, body: self.body@ }
    }
}

impl MacBlock<BitBuffer> {
    /// Number of bits of the whole block, header included.
    pub fn get_len(&self) -> (r: usize)
        requires
            self@.total_bits() <= usize::MAX,
        ensures
            r == self@.total_bits(),
    {
        self.header.len_bits() + self.body.len()
    }

    /// A copy of the block.
    pub fn duplicate(&self) -> (r: MacBlock<BitBuffer>)
        ensures
            r@ == self@,
    {
        MacBlock { header: self.header, body: self.body.duplicate() }
    }
}

impl MacBlock<Seq<bool>> {
    /// Number of bits of the whole block, header included.
    pub open spec fn total_bits(self) -> int {
        self.header.bits() + self.body.len()
    }

    /// The TM-SDU that a receiver takes out of the block (cl. 23.4.3.2): the
    /// bits up to the stated length, or the whole block where no length is
    /// stated, without the fill bits where the header announces them.
    pub open spec fn tm_sdu(self) -> Seq<bool> {
        let pdu = match self.header.stated_octets() {
            Some(n) => self.body.take(8 * n - self.header.bits()),
            None => self.body,
        };
        if self.header.announces_fill() {
            strip_fill(pdu)
        } else {
            pdu
        }
    }
}

/// `s` without its trailing zeros and the one in front of them.
pub open spec fn strip_fill(s: Seq<bool>) -> Seq<bool>
    decreases s.len(),
{
    if s.len() == 0 {
        s
    } else if s.last() {
        s.drop_last()
    } else {
        strip_fill(s.drop_last())
    }
}

/// Stripping the fill bits undoes appending them.
pub proof fn lemma_strip_fill(s: Seq<bool>, n: int)
    requires
        n >= 1,
    ensures
        strip_fill(s + fill_bits(n)) == s,
    decreases n,
{
    let t = s + fill_bits(n);
    if n == 1 {
        assert(t.drop_last() == s);
    } else {
        assert(t.drop_last() == s + fill_bits(n - 1));
        lemma_strip_fill(s, n - 1);
    }
}

/// Bits needed to bring `n` up to a whole number of octets.
pub open spec fn octet_fill(n: int) -> int {
    (8 - n % 8) % 8
}

/// `n` rounded up to a whole number of octets, in octets.
pub open spec fn octets_for(n: int) -> int {
    (n + octet_fill(n)) / 8
}

/// How the remainder of a fragmented uplink transfer is completed
/// (cl. 23.4.2.1.2).
#[derive(Clone, Copy, Debug, PartialEq, Eq, Structural)]
pub enum FragEndKind {
    /// MAC-END-HU on one granted SCH/HU subslot.
    MacEndHu,
    /// MAC-END-UL on one granted SCH/F slot.
    MacEndUl,
    /// `total_slots - 1` MAC-FRAG-UL continuations and a MAC-END-UL, one per
    /// reserved SCH/F slot.
    MacFragUl { total_slots: usize },
}

// ---------------------------------------------------------------------------
// What each block holds
// ---------------------------------------------------------------------------

/// The self-contained MAC-ACCESS that carries `sdu`: no length indication, fill
/// bits to the end of the block.
pub open spec fn access_block(issi: u32, sdu: Seq<bool>) -> MacBlock<Seq<bool>> {
    let room = SCH_HU_TYPE1_BITS - MAC_ACCESS_HEADER_BITS;
    MacBlock {
        header: MacHeader::Access(
            MacAccess {
                fill_bits: sdu.len() != room,
                encrypted: false,
                issi,
                length_ind: None,
                frag_flag: None,
                reservation_req: None,
            },
        ),
        body: sdu + fill_bits(room - sdu.len()),
    }
}

/// The body of a block whose header states its length in octets: the content,
/// fill bits up to the octet boundary, zeros up to the end of the block.
pub open spec fn octet_body(sdu: Seq<bool>, header: int, block: int) -> Seq<bool> {
    let content = header + sdu.len();
    sdu + fill_bits(octet_fill(content)) + zeros(block - content - octet_fill(content))
}

/// The STCH MAC-DATA that carries `sdu` in a stolen half-slot.
pub open spec fn stch_block(issi: u32, sdu: Seq<bool>) -> MacBlock<Seq<bool>> {
    let content = MAC_DATA_HEADER_BITS + sdu.len();
    MacBlock {
        header: MacHeader::Data(
            MacData {
                fill_bits: octet_fill(content) != 0,
                encrypted: false,
                issi,
                length_ind: Some(octets_for(content) as u8),
                frag_flag: None,
                reservation_req: None,
            },
        ),
        body: octet_body(sdu, MAC_DATA_HEADER_BITS as int, STCH_TYPE1_BITS as int),
    }
}

/// The MAC-END-HU that carries the remainder `sdu`.
pub open spec fn end_hu_block(sdu: Seq<bool>) -> MacBlock<Seq<bool>> {
    let content = MAC_END_HU_HEADER_BITS + sdu.len();
    MacBlock {
        header: MacHeader::EndHu(
            MacEndHu {
                fill_bits: octet_fill(content) != 0,
                length_ind: Some(octets_for(content) as u8),
                reservation_req: None,
            },
        ),
        body: octet_body(sdu, MAC_END_HU_HEADER_BITS as int, SCH_HU_TYPE1_BITS as int),
    }
}

/// The MAC-END-UL that carries the remainder `sdu`.
pub open spec fn end_ul_block(sdu: Seq<bool>) -> MacBlock<Seq<bool>> {
    let content = MAC_END_UL_HEADER_BITS + sdu.len();
    MacBlock {
        header: MacHeader::EndUl(
            MacEndUl {
                fill_bits: octet_fill(content) != 0,
                length_ind: Some(octets_for(content) as u8),
                reservation_req: None,
            },
        ),
        body: octet_body(sdu, MAC_END_UL_HEADER_BITS as int, SCH_F_TYPE1_BITS as int),
    }
}

/// The MAC-FRAG-UL that carries `chunk`, with fill bits up to the end of the
/// block where the chunk does not fill it.
pub open spec fn frag_ul_block(chunk: Seq<bool>) -> MacBlock<Seq<bool>> {
    let fill = MAX_FRAG_UL_SDU_BITS - chunk.len();
    MacBlock {
        header: MacHeader::FragUl(MacFragUl { fill_bits: fill != 0 }),
        body: chunk + fill_bits(fill),
    }
}

/// Where the `i`-th chunk of a remainder of `len` bits ends: a continuation is
/// full, but for the last bit of the remainder, which is left to the end block.
pub open spec fn chunk_end(len: int, i: int) -> int {
    if MAX_FRAG_UL_SDU_BITS * (i + 1) < len {
        MAX_FRAG_UL_SDU_BITS * (i + 1)
    } else {
        len - 1
    }
}

/// The blocks of a transfer over `total` reserved slots: the continuations, then
/// the end block with what is left.
pub open spec fn frag_blocks(sdu: Seq<bool>, total: int) -> Seq<MacBlock<Seq<bool>>> {
    let len = sdu.len() as int;
    Seq::new(
        total as nat,
        |i: int|
            if i < total - 1 {
                frag_ul_block(sdu.subrange(MAX_FRAG_UL_SDU_BITS * i, chunk_end(len, i)))
            } else {
                end_ul_block(sdu.subrange(chunk_end(len, total - 2), len))
            },
    )
}

/// Whether `total` is the number of reserved slots for a remainder of `len`
/// bits: the bits fit that many slots and no fewer, the last of them an end
/// block.
pub open spec fn frag_sizing_fits(len: int, total: int) -> bool {
    &&& total >= 1
    &&& len <= MAX_FRAG_UL_SDU_BITS * (total - 1) + MAX_END_UL_SDU_BITS
    &&& if total == 1 {
        len > 0
    } else {
        len > MAX_FRAG_UL_SDU_BITS * (total - 2) + MAX_END_UL_SDU_BITS
    }
}

/// Reserved slots that a remainder of `len` bits needs, where it does not fit
/// one MAC-END-UL: the continuations that leave at most one end block, and the
/// end block.
pub open spec fn ul_frag_slots(len: int) -> int {
    (len - MAX_END_UL_SDU_BITS + MAX_FRAG_UL_SDU_BITS - 1) / (MAX_FRAG_UL_SDU_BITS as int) + 1
}

/// How a remainder of `len` bits is completed.
pub open spec fn frag_end_kind(len: int) -> FragEndKind {
    if len <= MAX_END_HU_SDU_BITS {
        FragEndKind::MacEndHu
    } else if len <= MAX_END_UL_SDU_BITS {
        FragEndKind::MacEndUl
    } else {
        FragEndKind::MacFragUl { total_slots: ul_frag_slots(len) as usize }
    }
}

/// The capacity to ask for so that a remainder can be completed as `kind`: a
/// subslot, or as many slots as it takes.
pub open spec fn capacity_to_ask(kind: FragEndKind) -> ReservationRequirement {
    match kind {
        FragEndKind::MacEndHu => ReservationRequirement::Req1Subslot,
        FragEndKind::MacEndUl => ReservationRequirement::Req1Slot,
        FragEndKind::MacFragUl { total_slots } => slots_requirement(total_slots as int),
    }
}

/// Whether a TM-SDU of `len` bits is sent as a fragmented transfer: it is
/// longer than the first fragment and its remainder fits the reserved slots.
pub open spec fn frag_start_fits(len: int) -> bool {
    &&& FRAG_START_SDU_BITS < len
    &&& len - FRAG_START_SDU_BITS <= MAX_END_UL_SDU_BITS || ul_frag_slots(
        len - FRAG_START_SDU_BITS,
    ) <= MAX_UL_FRAG_SLOTS
}

/// The MAC-ACCESS that starts a fragmented transfer of `sdu`: it asks for the
/// capacity that the remainder needs and its TM-SDU bits fill the block.
pub open spec fn frag_start_block(issi: u32, sdu: Seq<bool>) -> MacBlock<Seq<bool>> {
    MacBlock {
        header: MacHeader::Access(
            MacAccess {
                fill_bits: false,
                encrypted: false,
                issi,
                length_ind: None,
                frag_flag: Some(true),
                reservation_req: Some(
                    capacity_to_ask(frag_end_kind(sdu.len() - FRAG_START_SDU_BITS)),
                ),
            },
        ),
        body: sdu.take(FRAG_START_SDU_BITS as int),
    }
}

// ---------------------------------------------------------------------------
// Building the blocks
// ---------------------------------------------------------------------------

/// The body of a block whose header states its length in octets.
fn build_octet_body(sdu: &BitBuffer, header: usize, block: usize) -> (r: (BitBuffer, usize))
    requires
        header + sdu@.len() + octet_fill(header + sdu@.len()) <= block,
        block <= 1024,
    ensures
        r.0@ == octet_body(sdu@, header as int, block as int),
        r.1 == octet_fill(header + sdu@.len()),
{
    let content: usize = header + sdu.len();
    let num_fill: usize = (8 - content % 8) % 8;
    let mut body = sdu.duplicate();
    body.append_fill(num_fill);
    body.append_zeros(block - content - num_fill);
    (body, num_fill)
}

impl UmacMs {
    /// Largest remainder that a single MAC-END-HU carries, in bits: whole octets
    /// of the block, less the header.
    pub fn max_end_hu_sdu_bits() -> (r: usize)
        ensures
            r == MAX_END_HU_SDU_BITS,
    {
        (SCH_HU_TYPE1_BITS / 8) * 8 - MAC_END_HU_HEADER_BITS
    }

    /// Largest remainder that a single MAC-END-UL carries, in bits: whole octets
    /// of the block, less the header.
    pub fn max_end_ul_sdu_bits() -> (r: usize)
        ensures
            r == MAX_END_UL_SDU_BITS,
    {
        (SCH_F_TYPE1_BITS / 8) * 8 - MAC_END_UL_HEADER_BITS
    }

    /// Most TM-SDU bits in one MAC-FRAG-UL continuation: the block, less the
    /// header.
    pub fn max_frag_ul_sdu_bits() -> (r: usize)
        ensures
            r == MAX_FRAG_UL_SDU_BITS,
    {
        SCH_F_TYPE1_BITS - MAC_FRAG_UL_HEADER_BITS
    }

    /// A MAC-ACCESS that carries the whole of `sdu` on SCH/HU, or `None` where it
    /// does not fit one access burst.
    pub fn build_mac_access_block(issi: u32, sdu: &BitBuffer) -> (r: Option<MacBlock<BitBuffer>>)
        ensures
            r is Some <==> MAC_ACCESS_HEADER_BITS + sdu@.len() <= SCH_HU_TYPE1_BITS,
            r matches Some(b) ==> b@ == access_block(issi, sdu@),
    {
        let room: usize = SCH_HU_TYPE1_BITS - MAC_ACCESS_HEADER_BITS;
        if sdu.len() > room {
            return None;
        }
        let num_fill: usize = room - sdu.len();
        let mut body = sdu.duplicate();
        body.append_fill(num_fill);
        Some(
            MacBlock {
                header: MacHeader::Access(
                    MacAccess {
                        fill_bits: num_fill != 0,
                        encrypted: false,
                        issi,
                        length_ind: None,
                        frag_flag: None,
                        reservation_req: None,
                    },
                ),
                body,
            },
        )
    }

    /// An STCH block that wraps `sdu` in a MAC-DATA PDU, or `None` where it does
    /// not fit one stolen half-slot.
    pub fn build_stch_mac_data_block(issi: u32, sdu: &BitBuffer) -> (r: Option<MacBlock<BitBuffer>>)
        ensures
            r is Some <==> 8 * octets_for(MAC_DATA_HEADER_BITS + sdu@.len()) <= STCH_TYPE1_BITS,
            r matches Some(b) ==> b@ == stch_block(issi, sdu@),
    {
        if sdu.len() > STCH_TYPE1_BITS {
            return None;
        }
        let content: usize = MAC_DATA_HEADER_BITS + sdu.len();
        let num_fill: usize = (8 - content % 8) % 8;
        if content + num_fill > STCH_TYPE1_BITS {
            return None;
        }
        let octets: usize = (content + num_fill) / 8;
        let (body, fill) = build_octet_body(sdu, MAC_DATA_HEADER_BITS, STCH_TYPE1_BITS);
        Some(
            MacBlock {
                header: MacHeader::Data(
                    MacData {
                        fill_bits: fill != 0,
                        encrypted: false,
                        issi,
                        length_ind: Some(octets as u8),
                        frag_flag: None,
                        reservation_req: None,
                    },
                ),
                body,
            },
        )
    }

    /// The MAC-END-HU that completes a fragmented transfer on one subslot, or
    /// `None` where the remainder does not fit it.
    pub fn build_mac_end_hu_block(remainder: &BitBuffer) -> (r: Option<MacBlock<BitBuffer>>)
        ensures
            r is Some <==> remainder@.len() <= MAX_END_HU_SDU_BITS,
            r matches Some(b) ==> b@ == end_hu_block(remainder@),
    {
        if remainder.len() > SCH_HU_TYPE1_BITS {
            return None;
        }
        let content: usize = MAC_END_HU_HEADER_BITS + remainder.len();
        let num_fill: usize = (8 - content % 8) % 8;
        let total: usize = content + num_fill;
        if total > SCH_HU_TYPE1_BITS {
            return None;
        }
        let (body, fill) = build_octet_body(remainder, MAC_END_HU_HEADER_BITS, SCH_HU_TYPE1_BITS);
        Some(
            MacBlock {
                header: MacHeader::EndHu(
                    MacEndHu {
                        fill_bits: fill != 0,
                        length_ind: Some((total / 8) as u8),
                        reservation_req: None,
                    },
                ),
                body,
            },
        )
    }

    /// The MAC-END-UL that completes a fragmented transfer on one full slot, or
    /// `None` where the remainder does not fit it.
    pub fn build_mac_end_ul_block(remainder: &BitBuffer) -> (r: Option<MacBlock<BitBuffer>>)
        ensures
            r is Some <==> remainder@.len() <= MAX_END_UL_SDU_BITS,
            r matches Some(b) ==> b@ == end_ul_block(remainder@),
    {
        if remainder.len() > SCH_F_TYPE1_BITS {
            return None;
        }
        let content: usize = MAC_END_UL_HEADER_BITS + remainder.len();
        let num_fill: usize = (8 - content % 8) % 8;
        let total: usize = content + num_fill;
        if total > SCH_F_TYPE1_BITS {
            return None;
        }
        let (body, fill) = build_octet_body(remainder, MAC_END_UL_HEADER_BITS, SCH_F_TYPE1_BITS);
        Some(
            MacBlock {
                header: MacHeader::EndUl(
                    MacEndUl {
                        fill_bits: fill != 0,
                        length_ind: Some((total / 8) as u8),
                        reservation_req: None,
                    },
                ),
                body,
            },
        )
    }

    /// One MAC-FRAG-UL continuation that carries `sdu_chunk` and fills its slot; a
    /// chunk of [`MAX_FRAG_UL_SDU_BITS`] bits leaves no room for fill bits.
    pub fn build_mac_frag_ul_block(sdu_chunk: &BitBuffer) -> (r: MacBlock<BitBuffer>)
        requires
            sdu_chunk@.len() <= MAX_FRAG_UL_SDU_BITS,
        ensures
            r@ == frag_ul_block(sdu_chunk@),
            r@.total_bits() == SCH_F_TYPE1_BITS,
    {
        let num_fill: usize = MAX_FRAG_UL_SDU_BITS - sdu_chunk.len();
        let mut body = sdu_chunk.duplicate();
        body.append_fill(num_fill);
        MacBlock { header: MacHeader::FragUl(MacFragUl { fill_bits: num_fill != 0 }), body }
    }

    /// Full slots that a remainder too long for one MAC-END-UL needs, or `None`
    /// where it needs more than may be reserved.
    pub fn compute_ul_frag_slots(remainder_len: usize) -> (r: Option<usize>)
        requires
            remainder_len > MAX_END_UL_SDU_BITS,
        ensures
            r is Some <==> ul_frag_slots(remainder_len as int) <= MAX_UL_FRAG_SLOTS,
            r matches Some(n) ==> n == ul_frag_slots(remainder_len as int),
    {
        let over: usize = remainder_len - MAX_END_UL_SDU_BITS;
        let k: usize = (over - 1) / MAX_FRAG_UL_SDU_BITS + 1;
        if k + 1 > MAX_UL_FRAG_SLOTS {
            None
        } else {
            Some(k + 1)
        }
    }

    /// The blocks of a transfer over `total_slots` reserved slots, in the order of
    /// transmission, or `None` where that is not the number of slots that the
    /// remainder takes. Every continuation is full, unless nothing would be left
    /// for the end block: then the end block carries the last bit.
    pub fn build_ul_frag_blocks(remainder: &BitBuffer, total_slots: usize) -> (r: Option<
        Vec<MacBlock<BitBuffer>>,
    >)
        ensures
            r is Some <==> frag_sizing_fits(remainder@.len() as int, total_slots as int),
            r matches Some(v) ==> v@.map_values(|b: MacBlock<BitBuffer>| b@) == frag_blocks(
                remainder@,
                total_slots as int,
            ),
    {
        let len: usize = remainder.len();
        if total_slots == 0 || len == 0 {
            return None;
        }
        let needed: usize = if len <= MAX_END_UL_SDU_BITS {
            1
        } else {
            (len - MAX_END_UL_SDU_BITS - 1) / MAX_FRAG_UL_SDU_BITS + 2
        };
        if total_slots != needed {
            return None;
        }
        let k: usize = total_slots - 1;
        let cut: usize = if k * MAX_FRAG_UL_SDU_BITS < len {
            k * MAX_FRAG_UL_SDU_BITS
        } else {
            len - 1
        };
        let ghost f = |b: MacBlock<BitBuffer>| b@;
        let ghost target = frag_blocks(remainder@, total_slots as int);
        let mut blocks: Vec<MacBlock<BitBuffer>> = Vec::new();
        let mut i: usize = 0;
        while i < k
            invariant
                i <= k,
                k + 1 == total_slots,
                frag_sizing_fits(len as int, total_slots as int),
                cut == chunk_end(len as int, k - 1),
                len == remainder@.len(),
                f == (|b: MacBlock<BitBuffer>| b@),
                target == frag_blocks(remainder@, total_slots as int),
                blocks@.map_values(f) == target.take(i as int),
            decreases k - i,
        {
            let end: usize = if i + 1 < k {
                (i + 1) * MAX_FRAG_UL_SDU_BITS
            } else {
                cut
            };
            let chunk = remainder.slice(i * MAX_FRAG_UL_SDU_BITS, end);
            let block = UmacMs::build_mac_frag_ul_block(&chunk);
            let ghost before = blocks@;
            blocks.push(block);
            proof {
                assert(blocks@.map_values(f) == before.map_values(f).push(f(block)));
                assert(target.take(i + 1) == target.take(i as int).push(target[i as int]));
            }
            i = i + 1;
        }
        let tail_buf = remainder.slice(cut, len);
        let block = match UmacMs::build_mac_end_ul_block(&tail_buf) {
            Some(b) => b,
            None => {
                return None;
            },
        };
        let ghost before = blocks@;
        blocks.push(block);
        proof {
            assert(blocks@.map_values(f) == before.map_values(f).push(f(block)));
            assert(target == target.take(k as int).push(target[k as int]));
        }
        Some(blocks)
    }

    /// The first fragment of a TM-SDU that does not fit one access burst: the
    /// MAC-ACCESS with the capacity request, the rest of the TM-SDU, and how that
    /// rest is completed. `None` where the TM-SDU is not longer than a first
    /// fragment, or its rest needs more slots than may be reserved.
    pub fn build_mac_access_frag_start(issi: u32, sdu: &BitBuffer) -> (r: Option<
        (MacBlock<BitBuffer>, BitBuffer, FragEndKind),
    >)
        ensures
            r is Some <==> frag_start_fits(sdu@.len() as int),
            r matches Some((block, remainder, end_kind)) ==> {
                &&& block@ == frag_start_block(issi, sdu@)
                &&& block@.total_bits() == SCH_HU_TYPE1_BITS
                &&& remainder@ == sdu@.skip(FRAG_START_SDU_BITS as int)
                &&& end_kind == frag_end_kind(remainder@.len() as int)
            },
    {
        let len: usize = sdu.len();
        if len <= FRAG_START_SDU_BITS {
            return None;
        }
        let remainder_len: usize = len - FRAG_START_SDU_BITS;
        let (reservation_req, end_kind) = if remainder_len <= MAX_END_HU_SDU_BITS {
            (ReservationRequirement::Req1Subslot, FragEndKind::MacEndHu)
        } else if remainder_len <= MAX_END_UL_SDU_BITS {
            (ReservationRequirement::Req1Slot, FragEndKind::MacEndUl)
        } else {
            match UmacMs::compute_ul_frag_slots(remainder_len) {
                Some(n) => (
                    ReservationRequirement::from_req_slotcount(n),
                    FragEndKind::MacFragUl { total_slots: n },
                ),
                None => {
                    return None;
                },
            }
        };
        let body = sdu.slice(0, FRAG_START_SDU_BITS);
        let remainder = sdu.slice(FRAG_START_SDU_BITS, len);
        let block = MacBlock {
            header: MacHeader::Access(
                MacAccess {
                    fill_bits: false,
                    encrypted: false,
                    issi,
                    length_ind: None,
                    frag_flag: Some(true),
                    reservation_req: Some(reservation_req),
                },
            ),
            body,
        };
        Some((block, remainder, end_kind))
    }
}

// ---------------------------------------------------------------------------
// Laws
// ---------------------------------------------------------------------------

/// The TM-SDU bits that the blocks carry, in order.
pub open spec fn carried(blocks: Seq<MacBlock<Seq<bool>>>) -> Seq<bool>
    decreases blocks.len(),
{
    if blocks.len() == 0 {
        Seq::empty()
    } else {
        carried(blocks.drop_last()) + blocks.last().tm_sdu()
    }
}

/// The blocks that complete a transfer whose remainder is `rest`.
pub open spec fn completion_blocks(rest: Seq<bool>) -> Seq<MacBlock<Seq<bool>>> {
    match frag_end_kind(rest.len() as int) {
        FragEndKind::MacEndHu => seq![end_hu_block(rest)],
        FragEndKind::MacEndUl => seq![end_ul_block(rest)],
        FragEndKind::MacFragUl { total_slots } => frag_blocks(rest, total_slots as int),
    }
}

proof fn lemma_carried_one(blocks: Seq<MacBlock<Seq<bool>>>)
    requires
        blocks.len() == 1,
    ensures
        carried(blocks) == blocks[0].tm_sdu(),
{
    reveal_with_fuel(carried, 2);
    assert(blocks.drop_last().len() == 0);
    assert(Seq::<bool>::empty() + blocks[0].tm_sdu() == blocks[0].tm_sdu());
}

proof fn lemma_octet_body_sdu(sdu: Seq<bool>, header: int, block: int)
    requires
        0 <= header,
        8 * octets_for(header + sdu.len()) <= block,
    ensures
        octet_body(sdu, header, block).len() == block - header,
        ({
            let content = header + sdu.len();
            let pdu = octet_body(sdu, header, block).take(8 * octets_for(content) - header);
            &&& octet_fill(content) != 0 ==> strip_fill(pdu) == sdu
            &&& octet_fill(content) == 0 ==> pdu == sdu
        }),
{
    let content = header + sdu.len();
    let n = octet_fill(content);
    let pdu = octet_body(sdu, header, block).take(8 * octets_for(content) - header);
    assert(8 * octets_for(content) == content + n);
    assert(pdu == sdu + fill_bits(n));
    if n != 0 {
        lemma_strip_fill(sdu, n);
    } else {
        assert(sdu + fill_bits(0) == sdu);
    }
}

/// A self-contained MAC-ACCESS fills its burst exactly, and a receiver takes
/// exactly the TM-SDU out of it.
pub proof fn law_access_block_carries_sdu(issi: u32, sdu: Seq<bool>)
    requires
        MAC_ACCESS_HEADER_BITS + sdu.len() <= SCH_HU_TYPE1_BITS,
    ensures
        access_block(issi, sdu).total_bits() == SCH_HU_TYPE1_BITS,
        access_block(issi, sdu).tm_sdu() == sdu,
{
    let n = SCH_HU_TYPE1_BITS - MAC_ACCESS_HEADER_BITS - sdu.len();
    if n != 0 {
        lemma_strip_fill(sdu, n);
    } else {
        assert(sdu + fill_bits(0) == sdu);
    }
}

/// A MAC-DATA block fills its stolen half-slot exactly, and a receiver takes
/// exactly the TM-SDU out of it.
pub proof fn law_stch_block_carries_sdu(issi: u32, sdu: Seq<bool>)
    requires
        8 * octets_for(MAC_DATA_HEADER_BITS + sdu.len()) <= STCH_TYPE1_BITS,
    ensures
        stch_block(issi, sdu).total_bits() == STCH_TYPE1_BITS,
        stch_block(issi, sdu).tm_sdu() == sdu,
{
    lemma_octet_body_sdu(sdu, MAC_DATA_HEADER_BITS as int, STCH_TYPE1_BITS as int);
}

/// A MAC-END-HU fills its subslot exactly, and a receiver takes exactly the
/// remainder out of it.
pub proof fn law_end_hu_block_carries_remainder(rest: Seq<bool>)
    requires
        rest.len() <= MAX_END_HU_SDU_BITS,
    ensures
        end_hu_block(rest).total_bits() == SCH_HU_TYPE1_BITS,
        end_hu_block(rest).tm_sdu() == rest,
{
    lemma_octet_body_sdu(rest, MAC_END_HU_HEADER_BITS as int, SCH_HU_TYPE1_BITS as int);
}

/// A MAC-END-UL fills its slot exactly, and a receiver takes exactly the
/// remainder out of it.
pub proof fn law_end_ul_block_carries_remainder(rest: Seq<bool>)
    requires
        rest.len() <= MAX_END_UL_SDU_BITS,
    ensures
        end_ul_block(rest).total_bits() == SCH_F_TYPE1_BITS,
        end_ul_block(rest).tm_sdu() == rest,
{
    lemma_octet_body_sdu(rest, MAC_END_UL_HEADER_BITS as int, SCH_F_TYPE1_BITS as int);
}

/// The computed number of reserved slots fits the remainder, and no other
/// number does.
pub proof fn law_computed_slots_fit(len: int)
    requires
        len > MAX_END_UL_SDU_BITS,
    ensures
        ul_frag_slots(len) >= 2,
        frag_sizing_fits(len, ul_frag_slots(len)),
        forall|n: int| #[trigger] frag_sizing_fits(len, n) ==> n == ul_frag_slots(len),
{
}

/// A continuation carries its chunk, and fills its slot.
proof fn lemma_frag_ul_block(chunk: Seq<bool>)
    requires
        chunk.len() <= MAX_FRAG_UL_SDU_BITS,
    ensures
        frag_ul_block(chunk).total_bits() == SCH_F_TYPE1_BITS,
        frag_ul_block(chunk).tm_sdu() == chunk,
{
    let fill = MAX_FRAG_UL_SDU_BITS - chunk.len();
    if fill != 0 {
        lemma_strip_fill(chunk, fill);
    } else {
        assert(chunk + fill_bits(0) == chunk);
    }
}

/// The continuations and the end block of a multi-slot transfer each fill a
/// full slot.
pub proof fn law_frag_blocks_fill_slots(rest: Seq<bool>, total: int)
    requires
        frag_sizing_fits(rest.len() as int, total),
    ensures
        frag_blocks(rest, total).len() == total,
        forall|i: int|
            0 <= i < total ==> (#[trigger] frag_blocks(rest, total)[i]).total_bits()
                == SCH_F_TYPE1_BITS,
{
    let len = rest.len() as int;
    assert forall|i: int| 0 <= i < total implies (#[trigger] frag_blocks(
        rest,
        total,
    )[i]).total_bits() == SCH_F_TYPE1_BITS by {
        if i == total - 1 {
            law_end_ul_block_carries_remainder(rest.subrange(chunk_end(len, total - 2), len));
        } else {
            lemma_frag_ul_block(rest.subrange(MAX_FRAG_UL_SDU_BITS * i, chunk_end(len, i)));
        }
    }
}

/// Every continuation but the last carries as many bits as fill its slot, and so
/// does the last one wherever that leaves something for the end block; only
/// where it would leave nothing does the last continuation have fill bits, and
/// the end block carries the last bit alone.
pub proof fn law_continuations_are_full(rest: Seq<bool>, total: int, i: int)
    requires
        frag_sizing_fits(rest.len() as int, total),
        0 <= i < total - 1,
    ensures
        i < total - 2 || MAX_FRAG_UL_SDU_BITS * (total - 1) < rest.len() ==> {
            &&& !frag_blocks(rest, total)[i].header.announces_fill()
            &&& frag_blocks(rest, total)[i].body == rest.subrange(
                MAX_FRAG_UL_SDU_BITS * i,
                MAX_FRAG_UL_SDU_BITS * (i + 1),
            )
        },
        i == total - 2 && rest.len() <= MAX_FRAG_UL_SDU_BITS * (total - 1) ==> {
            &&& frag_blocks(rest, total)[i].header.announces_fill()
            &&& frag_blocks(rest, total)[total - 1] == end_ul_block(seq![rest.last()])
        },
{
    let len = rest.len() as int;
    let chunk = rest.subrange(MAX_FRAG_UL_SDU_BITS * i, chunk_end(len, i));
    if i < total - 2 || MAX_FRAG_UL_SDU_BITS * (total - 1) < len {
        assert(chunk + fill_bits(0) == chunk);
    } else {
        assert(rest.subrange(len - 1, len) == seq![rest.last()]);
    }
}

proof fn lemma_frag_prefix(rest: Seq<bool>, total: int, i: int)
    requires
        frag_sizing_fits(rest.len() as int, total),
        0 <= i <= total - 1,
    ensures
        carried(frag_blocks(rest, total).take(i)) == rest.take(
            chunk_end(rest.len() as int, i - 1),
        ),
    decreases i,
{
    let len = rest.len() as int;
    let blocks = frag_blocks(rest, total);
    if i == 0 {
        assert(blocks.take(0).len() == 0);
        assert(rest.take(0) == Seq::<bool>::empty());
    } else {
        lemma_frag_prefix(rest, total, i - 1);
        let chunk = rest.subrange(MAX_FRAG_UL_SDU_BITS * (i - 1), chunk_end(len, i - 1));
        lemma_frag_ul_block(chunk);
        assert(blocks.take(i).drop_last() == blocks.take(i - 1));
        assert(chunk_end(len, i - 2) == MAX_FRAG_UL_SDU_BITS * (i - 1));
        assert(rest.take(MAX_FRAG_UL_SDU_BITS * (i - 1)) + chunk == rest.take(
            chunk_end(len, i - 1),
        ));
    }
}

/// The blocks of a multi-slot transfer carry exactly its remainder.
pub proof fn law_frag_blocks_carry_remainder(rest: Seq<bool>, total: int)
    requires
        frag_sizing_fits(rest.len() as int, total),
    ensures
        carried(frag_blocks(rest, total)) == rest,
{
    let len = rest.len() as int;
    let blocks = frag_blocks(rest, total);
    let tail = rest.subrange(chunk_end(len, total - 2), len);
    lemma_frag_prefix(rest, total, total - 1);
    law_end_ul_block_carries_remainder(tail);
    assert(blocks.drop_last() == blocks.take(total - 1));
    assert(rest.take(chunk_end(len, total - 2)) + tail == rest);
}

/// A receiver that puts together the first fragment and the blocks that
/// complete the transfer has exactly the TM-SDU that was to be sent.
pub proof fn law_fragmented_transfer_reassembles(issi: u32, sdu: Seq<bool>)
    requires
        frag_start_fits(sdu.len() as int),
    ensures
        frag_start_block(issi, sdu).total_bits() == SCH_HU_TYPE1_BITS,
        frag_start_block(issi, sdu).tm_sdu() + carried(
            completion_blocks(sdu.skip(FRAG_START_SDU_BITS as int)),
        ) == sdu,
{
    let rest = sdu.skip(FRAG_START_SDU_BITS as int);
    let blocks = completion_blocks(rest);
    match frag_end_kind(rest.len() as int) {
        FragEndKind::MacEndHu => {
            law_end_hu_block_carries_remainder(rest);
            lemma_carried_one(blocks);
        },
        FragEndKind::MacEndUl => {
            law_end_ul_block_carries_remainder(rest);
            lemma_carried_one(blocks);
        },
        FragEndKind::MacFragUl { total_slots } => {
            law_computed_slots_fit(rest.len() as int);
            law_frag_blocks_carry_remainder(rest, total_slots as int);
        },
    }
    assert(sdu.take(FRAG_START_SDU_BITS as int) + rest == sdu);
}

} // verus!
