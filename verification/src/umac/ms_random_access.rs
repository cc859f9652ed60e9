//! Random access support of the mobile station (ETSI TS 100 392-2 cl. 23.5.1):
//! the access parameters that the serving cell advertises and the reading of
//! the ACCESS-ASSIGN access fields (Table 21.85).

use vstd::prelude::*;

verus! {

/// The four random access codes (Table 21.85, "Access code").
#[derive(Clone, Copy, Debug, PartialEq, Eq, Structural)]
pub enum AccessCode {
    A,
    B,
    C,
    D,
}

/// The raw 2-bit value of an access code.
pub open spec fn access_code_raw(c: AccessCode) -> int {
    match c {
        AccessCode::A => 0,
        AccessCode::B => 1,
        AccessCode::C => 2,
        AccessCode::D => 3,
    }
}

/// The access code with raw value `v`, if there is one.
pub open spec fn access_code_of(v: int) -> Option<AccessCode> {
    if v == 0 {
        Some(AccessCode::A)
    } else if v == 1 {
        Some(AccessCode::B)
    } else if v == 2 {
        Some(AccessCode::C)
    } else if v == 3 {
        Some(AccessCode::D)
    } else {
        None
    }
}

impl AccessCode {
    /// Map a raw 2-bit access code value to the enum.
    pub fn from_raw(v: u8) -> (r: Option<AccessCode>)
        ensures
            r == access_code_of(v as int),
    {
        match v {
            0 => Some(AccessCode::A),
            1 => Some(AccessCode::B),
            2 => Some(AccessCode::C),
            3 => Some(AccessCode::D),
            _ => None,
        }
    }

    /// The position of the code, A to D, from zero.
    pub fn index(self) -> (r: usize)
        ensures
            r == access_code_raw(self),
            r < 4,
    {
        match self {
            AccessCode::A => 0,
            AccessCode::B => 1,
            AccessCode::C => 2,
            AccessCode::D => 3,
        }
    }
}

/// Meaning of the ACCESS-ASSIGN "Base frame-length" sub-field (Table 21.85).
#[derive(Clone, Copy, Debug, PartialEq, Eq, Structural)]
pub enum BaseFrameLength {
    /// Reserved subslot; the access code has no meaning.
    ReservedSubslot,
    /// CLCH subslot: linearization only; the access code has no meaning.
    ClchSubslot,
    /// Ongoing frame: no new frame marker here.
    OngoingFrame,
    /// A frame marker that starts an access frame of this base length, in
    /// subslots.
    FrameMarker(u16),
}

/// Table 21.85: the meaning of the low four bits of `v`.
pub open spec fn base_frame_length_of(v: int) -> BaseFrameLength {
    let n = v % 16;
    if n == 0 {
        BaseFrameLength::ReservedSubslot
    } else if n == 1 {
        BaseFrameLength::ClchSubslot
    } else if n == 2 {
        BaseFrameLength::OngoingFrame
    } else if n <= 8 {
        BaseFrameLength::FrameMarker((n - 2) as u16)
    } else {
        BaseFrameLength::FrameMarker(seq![8u16, 10, 12, 16, 20, 24, 32][n - 9])
    }
}

impl BaseFrameLength {
    /// Decode the 4-bit base frame-length field.
    pub fn from_raw(v: u8) -> (r: BaseFrameLength)
        ensures
            r == base_frame_length_of(v as int),
    {
        let n: u8 = v & 0xF;
        assert(v & 0xF == v % 16) by (bit_vector);
        match n {
            0 => BaseFrameLength::ReservedSubslot,
            1 => BaseFrameLength::ClchSubslot,
            2 => BaseFrameLength::OngoingFrame,
            9 => BaseFrameLength::FrameMarker(8),
            10 => BaseFrameLength::FrameMarker(10),
            11 => BaseFrameLength::FrameMarker(12),
            12 => BaseFrameLength::FrameMarker(16),
            13 => BaseFrameLength::FrameMarker(20),
            14 => BaseFrameLength::FrameMarker(24),
            15 => BaseFrameLength::FrameMarker(32),
            _ => BaseFrameLength::FrameMarker((n - 2) as u16),
        }
    }

    /// True if this field starts a new access frame (cl. 23.5.1.4.6).
    pub fn is_frame_marker(&self) -> (r: bool)
        ensures
            r == (self is FrameMarker),
    {
        match self {
            BaseFrameLength::FrameMarker(_) => true,
            _ => false,
        }
    }

    /// The base frame-length in subslots for a frame marker, or `None` for the
    /// special values.
    pub fn base_subslots(&self) -> (r: Option<u16>)
        ensures
            r == (match *self {
                BaseFrameLength::FrameMarker(n) => Some(n),
                _ => None,
            }),
    {
        match self {
            BaseFrameLength::FrameMarker(n) => Some(*n),
            _ => None,
        }
    }

    /// True if the subslot is not open to an access request: reserved, or for
    /// linearization only (cl. 23.5.1.4.7 e).
    pub fn is_reserved(&self) -> (r: bool)
        ensures
            r == (self is ReservedSubslot || self is ClchSubslot),
    {
        match self {
            BaseFrameLength::ReservedSubslot => true,
            BaseFrameLength::ClchSubslot => true,
            _ => false,
        }
    }
}

/// The SYSINFO "default definition for access code A" (cl. 21.4.4.1).
#[derive(Clone, Copy, Debug, PartialEq, Eq, Structural)]
pub struct SysinfoDefaultDefForAccessCodeA {
    pub imm: u8,
    pub wt: u8,
    pub nu: u8,
    pub fl_factor: bool,
    pub ts_ptr: u8,
    pub min_pdu_prio: u8,
}

/// An ACCESS-DEFINE PDU (cl. 21.4.4.3).
#[derive(Clone, Copy, Debug, PartialEq, Eq, Structural)]
pub struct AccessDefine {
    /// False for the common control channel, true for an assigned one.
    pub common_or_assigned_control: bool,
    pub access_code: u8,
    pub imm: u8,
    pub wt: u8,
    pub nu: u8,
    pub frame_len_factor: bool,
    pub ts_pointer: u8,
    pub min_pdu_prio: u8,
    pub subscriber_class: Option<u16>,
    pub gssi: Option<u32>,
}

/// Random access parameters of one access code (cl. 23.5.1.4.1).
#[derive(Clone, Copy, Debug, PartialEq, Eq, Structural)]
pub struct RandomAccessParams {
    /// 0: always randomize; 15: immediate access allowed; otherwise randomize
    /// after up to this many frames (cl. 23.5.1.4.5).
    pub imm: u8,
    /// Downlink signalling opportunities to wait for a response.
    pub wt: u8,
    /// Most random access transmissions; zero: the code is not available.
    pub nu: u8,
    /// Multiply the base frame-length by four.
    pub fl_factor: bool,
    /// Which uplink slots are potential access opportunities.
    pub ts_ptr: u8,
    /// Least PDU priority that may use the code (cl. 23.5.1.4.4 a).
    pub min_pdu_prio: u8,
    /// Subscriber class restriction, if any (cl. 23.5.1.4.4 b).
    pub subscriber_class: Option<u16>,
    /// Group address restriction, if any (cl. 23.5.1.4.4 c).
    pub gssi: Option<u32>,
}

/// The parameters that the SYSINFO default definition gives: no subscriber
/// class and no address restriction.
pub open spec fn params_of_default_a(def: SysinfoDefaultDefForAccessCodeA) -> RandomAccessParams {
    RandomAccessParams {
        imm: def.imm,
        wt: def.wt,
        nu: def.nu,
        fl_factor: def.fl_factor,
        ts_ptr: def.ts_ptr,
        min_pdu_prio: def.min_pdu_prio,
        subscriber_class: None,
        gssi: None,
    }
}

/// The parameters that an ACCESS-DEFINE gives.
pub open spec fn params_of_access_define(def: AccessDefine) -> RandomAccessParams {
    RandomAccessParams {
        imm: def.imm,
        wt: def.wt,
        nu: def.nu,
        fl_factor: def.frame_len_factor,
        ts_ptr: def.ts_pointer,
        min_pdu_prio: def.min_pdu_prio,
        subscriber_class: def.subscriber_class,
        gssi: def.gssi,
    }
}

impl RandomAccessParams {
    /// The parameters for access code A from the SYSINFO default definition.
    pub fn from_sysinfo_default_a(def: &SysinfoDefaultDefForAccessCodeA) -> (r: RandomAccessParams)
        ensures
            r == params_of_default_a(*def),
    {
        RandomAccessParams {
            imm: def.imm,
            wt: def.wt,
            nu: def.nu,
            fl_factor: def.fl_factor,
            ts_ptr: def.ts_ptr,
            min_pdu_prio: def.min_pdu_prio,
            subscriber_class: None,
            gssi: None,
        }
    }

    /// The parameters from an ACCESS-DEFINE PDU.
    pub fn from_access_define(def: &AccessDefine) -> (r: RandomAccessParams)
        ensures
            r == params_of_access_define(*def),
    {
        RandomAccessParams {
            imm: def.imm,
            wt: def.wt,
            nu: def.nu,
            fl_factor: def.frame_len_factor,
            ts_ptr: def.ts_pointer,
            min_pdu_prio: def.min_pdu_prio,
            subscriber_class: def.subscriber_class,
            gssi: def.gssi,
        }
    }

    /// Whether the access code may be used at all (cl. 23.5.1.4.1).
    pub fn is_available(&self) -> (r: bool)
        ensures
            r == (self.nu != 0),
    {
        self.nu != 0
    }
}

/// The serving cell's random access parameters per access code. For code A the
/// SYSINFO default counts until an ACCESS-DEFINE for code A has been received
/// (cl. 23.5.1.4.10); codes B to D have none before their ACCESS-DEFINE.
#[derive(Clone, Copy, Debug, PartialEq, Eq, Structural)]
pub struct AccessParamStore {
    /// What the last ACCESS-DEFINE for each code defined.
    pub defined_a: Option<RandomAccessParams>,
    pub defined_b: Option<RandomAccessParams>,
    pub defined_c: Option<RandomAccessParams>,
    pub defined_d: Option<RandomAccessParams>,
    /// What the last SYSINFO default definition for code A said.
    pub sysinfo_default_a: Option<RandomAccessParams>,
}

impl AccessParamStore {
    /// What the last ACCESS-DEFINE for `code` defined, if there was one.
    pub open spec fn defined(self, code: AccessCode) -> Option<RandomAccessParams> {
        match code {
            AccessCode::A => self.defined_a,
            AccessCode::B => self.defined_b,
            AccessCode::C => self.defined_c,
            AccessCode::D => self.defined_d,
        }
    }

    /// The parameters in force for `code`.
    pub open spec fn in_force(self, code: AccessCode) -> Option<RandomAccessParams> {
        if code == AccessCode::A && self.defined_a is None {
            self.sysinfo_default_a
        } else {
            self.defined(code)
        }
    }

    /// The store after a SYSINFO default definition for code A.
    pub open spec fn with_default_a(
        self,
        def: SysinfoDefaultDefForAccessCodeA,
    ) -> AccessParamStore {
        AccessParamStore { sysinfo_default_a: Some(params_of_default_a(def)), ..self }
    }

    /// The store after an ACCESS-DEFINE; a code value that does not exist
    /// changes nothing.
    pub open spec fn with_access_define(self, def: AccessDefine) -> AccessParamStore {
        let params = Some(params_of_access_define(def));
        match access_code_of(def.access_code as int) {
            None => self,
            Some(AccessCode::A) => AccessParamStore { defined_a: params, ..self },
            Some(AccessCode::B) => AccessParamStore { defined_b: params, ..self },
            Some(AccessCode::C) => AccessParamStore { defined_c: params, ..self },
            Some(AccessCode::D) => AccessParamStore { defined_d: params, ..self },
        }
    }

    /// A store with no definitions.
    pub open spec fn no_definitions() -> AccessParamStore {
        AccessParamStore {
            defined_a: None,
            defined_b: None,
            defined_c: None,
            defined_d: None,
            sysinfo_default_a: None,
        }
    }

    /// A store with no definitions.
    pub fn new() -> (r: AccessParamStore)
        ensures
            r == AccessParamStore::no_definitions(),
    {
        AccessParamStore {
            defined_a: None,
            defined_b: None,
            defined_c: None,
            defined_d: None,
            sysinfo_default_a: None,
        }
    }

    /// Adopt the SYSINFO default definition for access code A.
    pub fn update_sysinfo_default_a(&mut self, def: &SysinfoDefaultDefForAccessCodeA)
        ensures
            *final(self) == old(self).with_default_a(*def),
    {
        self.sysinfo_default_a = Some(RandomAccessParams::from_sysinfo_default_a(def));
    }

    /// Adopt an ACCESS-DEFINE for the code it defines; a later one for the same
    /// code overwrites it.
    pub fn update_access_define(&mut self, def: &AccessDefine)
        ensures
            *final(self) == old(self).with_access_define(*def),
    {
        let params = RandomAccessParams::from_access_define(def);
        match AccessCode::from_raw(def.access_code) {
            None => {},
            Some(AccessCode::A) => {
                self.defined_a = Some(params);
            },
            Some(AccessCode::B) => {
                self.defined_b = Some(params);
            },
            Some(AccessCode::C) => {
                self.defined_c = Some(params);
            },
            Some(AccessCode::D) => {
                self.defined_d = Some(params);
            },
        }
    }

    /// The parameters in force for an access code, or `None` where it has no
    /// definition yet.
    pub fn params_for(&self, code: AccessCode) -> (r: Option<&RandomAccessParams>)
        ensures
            match r {
                Some(p) => self.in_force(code) == Some(*p),
                None => self.in_force(code) is None,
            },
    {
        match code {
            AccessCode::A => if self.defined_a.is_some() {
                self.defined_a.as_ref()
            } else {
                self.sysinfo_default_a.as_ref()
            },
            AccessCode::B => self.defined_b.as_ref(),
            AccessCode::C => self.defined_c.as_ref(),
            AccessCode::D => self.defined_d.as_ref(),
        }
    }
}

/// Access rights of one uplink subslot (cl. 21.5.1 / 23.5.1.4.2).
#[derive(Clone, Copy, Debug, PartialEq, Eq, Structural)]
pub struct SubslotAccess {
    /// The designated access code; `None` where it has no meaning.
    pub access_code: Option<AccessCode>,
    /// The base frame-length meaning of the subslot.
    pub frame_len: BaseFrameLength,
}

impl SubslotAccess {
    /// The rights of a subslot that may not be used for access.
    pub open spec fn is_reserved_subslot(self) -> bool {
        self.access_code is None && self.frame_len is ReservedSubslot
    }

    /// A reserved subslot.
    pub fn reserved() -> (r: SubslotAccess)
        ensures
            r.is_reserved_subslot(),
            r == (SubslotAccess { access_code: None, frame_len: BaseFrameLength::ReservedSubslot }),
    {
        SubslotAccess { access_code: None, frame_len: BaseFrameLength::ReservedSubslot }
    }

    /// Whether `code` may be sent in this subslot.
    pub open spec fn opportunity_for(self, code: AccessCode) -> bool {
        &&& self.frame_len !is ReservedSubslot
        &&& self.frame_len !is ClchSubslot
        &&& self.access_code == Some(code)
    }

    /// Whether this subslot is a usable access opportunity for `code`.
    pub fn is_opportunity_for(&self, code: AccessCode) -> (r: bool)
        ensures
            r == self.opportunity_for(code),
    {
        !self.frame_len.is_reserved() && self.access_code == Some(code)
    }

    /// Whether this subslot starts a new access frame for `code`.
    pub fn is_frame_marker_for(&self, code: AccessCode) -> (r: bool)
        ensures
            r == (self.frame_len is FrameMarker && self.access_code == Some(code)),
    {
        self.frame_len.is_frame_marker() && self.access_code == Some(code)
    }
}

/// Access rights that one ACCESS-ASSIGN gives to the two subslots of the uplink
/// slot two timeslots later (cl. 23.5.1.4.2).
#[derive(Clone, Copy, Debug, PartialEq, Eq, Structural)]
pub struct SlotAccessAssign {
    pub subslot1: SubslotAccess,
    pub subslot2: SubslotAccess,
}

impl SlotAccessAssign {
    /// Neither subslot may be used for access.
    pub fn both_reserved() -> (r: SlotAccessAssign)
        ensures
            r == reserved_slot(),
    {
        SlotAccessAssign { subslot1: SubslotAccess::reserved(), subslot2: SubslotAccess::reserved() }
    }
}

/// An access field of the ACCESS-ASSIGN PDU.
#[derive(Clone, Copy, Debug, PartialEq, Eq, Structural)]
pub struct AccessField {
    pub access_code: u8,
    pub base_frame_len: u8,
}

/// Uplink usage designated by an ACCESS-ASSIGN.
#[derive(Clone, Copy, Debug, PartialEq, Eq, Structural)]
pub enum AccessAssignUlUsage {
    CommonOnly,
    CommonAndAssigned,
    AssignedOnly,
    Traffic(u8),
    Unallocated,
}

/// Downlink usage designated by an ACCESS-ASSIGN.
#[derive(Clone, Copy, Debug, PartialEq, Eq, Structural)]
pub enum AccessAssignDlUsage {
    CommonControl,
    AssignedControl,
    CommonAndAssignedControl,
    Traffic(u8),
    Unallocated,
}

impl AccessAssignDlUsage {
    /// Whether the downlink slot carries traffic.
    pub fn is_traffic(&self) -> (r: bool)
        ensures
            r == (self is Traffic),
    {
        match self {
            AccessAssignDlUsage::Traffic(_) => true,
            _ => false,
        }
    }
}

/// The ACCESS-ASSIGN PDU (cl. 21.4.7.2): one access field for both subslots,
/// one for each, or none.
#[derive(Clone, Copy, Debug, PartialEq, Eq, Structural)]
pub struct AccessAssign {
    pub dl_usage: AccessAssignDlUsage,
    pub ul_usage: AccessAssignUlUsage,
    pub f1_af1: Option<AccessField>,
    pub f2_af2: Option<AccessField>,
    pub f2_af: Option<AccessField>,
}

/// Neither subslot may be used for access.
pub open spec fn reserved_slot() -> SlotAccessAssign {
    let s = SubslotAccess { access_code: None, frame_len: BaseFrameLength::ReservedSubslot };
    SlotAccessAssign { subslot1: s, subslot2: s }
}

/// The rights that an access field gives to one subslot; in a reserved or CLCH
/// subslot the access code has no meaning.
pub open spec fn subslot_rights(af: AccessField) -> SubslotAccess {
    let frame_len = base_frame_length_of(af.base_frame_len as int);
    SubslotAccess {
        access_code: if frame_len is ReservedSubslot || frame_len is ClchSubslot {
            None
        } else {
            access_code_of(af.access_code as int)
        },
        frame_len,
    }
}

/// The rights that a single access field gives to both subslots (points a to e):
/// reserved: neither; CLCH: linearization, then reserved; ongoing frame: both
/// ongoing; frame marker: the marker, then its ongoing frame.
pub open spec fn shared_rights(af: AccessField) -> SlotAccessAssign {
    let code = access_code_of(af.access_code as int);
    let fl = base_frame_length_of(af.base_frame_len as int);
    let ongoing = SubslotAccess { access_code: code, frame_len: BaseFrameLength::OngoingFrame };
    match fl {
        BaseFrameLength::ReservedSubslot => reserved_slot(),
        BaseFrameLength::ClchSubslot => SlotAccessAssign {
            subslot1: SubslotAccess { access_code: None, frame_len: fl },
            ..reserved_slot()
        },
        BaseFrameLength::OngoingFrame => SlotAccessAssign { subslot1: ongoing, subslot2: ongoing },
        BaseFrameLength::FrameMarker(_) => SlotAccessAssign {
            subslot1: SubslotAccess { access_code: code, frame_len: fl },
            subslot2: ongoing,
        },
    }
}

/// The access rights that an ACCESS-ASSIGN gives (cl. 23.5.1.4.2).
pub open spec fn slot_rights(aa: AccessAssign, on_common_channel: bool) -> SlotAccessAssign {
    if on_common_channel && aa.ul_usage is AssignedOnly {
        reserved_slot()
    } else if aa.f1_af1 is Some && aa.f2_af2 is Some {
        SlotAccessAssign {
            subslot1: subslot_rights(aa.f1_af1->0),
            subslot2: subslot_rights(aa.f2_af2->0),
        }
    } else if aa.f2_af is Some {
        shared_rights(aa.f2_af->0)
    } else {
        reserved_slot()
    }
}

/// The rights that an access field gives to one subslot.
fn subslot_from_field(af: &AccessField) -> (r: SubslotAccess)
    ensures
        r == subslot_rights(*af),
{
    let frame_len = BaseFrameLength::from_raw(af.base_frame_len);
    let access_code: Option<AccessCode> = if frame_len.is_reserved() {
        None
    } else {
        AccessCode::from_raw(af.access_code)
    };
    SubslotAccess { access_code, frame_len }
}

/// Read an ACCESS-ASSIGN into the access rights of the two uplink subslots.
/// `on_common_channel` is true while the station is on its common control
/// channel.
pub fn interpret_access_assign(aa: &AccessAssign, on_common_channel: bool) -> (r: SlotAccessAssign)
    ensures
        r == slot_rights(*aa, on_common_channel),
{
    if on_common_channel && aa.ul_usage == AccessAssignUlUsage::AssignedOnly {
        return SlotAccessAssign::both_reserved();
    }
    if let (Some(af1), Some(af2)) = (aa.f1_af1, aa.f2_af2) {
        return SlotAccessAssign {
            subslot1: subslot_from_field(&af1),
            subslot2: subslot_from_field(&af2),
        };
    }
    if let Some(af) = aa.f2_af {
        let code = AccessCode::from_raw(af.access_code);
        let fl = BaseFrameLength::from_raw(af.base_frame_len);
        let ongoing = SubslotAccess { access_code: code, frame_len: BaseFrameLength::OngoingFrame };
        return match fl {
            BaseFrameLength::ReservedSubslot => SlotAccessAssign::both_reserved(),
            BaseFrameLength::ClchSubslot => SlotAccessAssign {
                subslot1: SubslotAccess {
                    access_code: None,
                    frame_len: BaseFrameLength::ClchSubslot,
                },
                subslot2: SubslotAccess::reserved(),
            },
            BaseFrameLength::OngoingFrame => SlotAccessAssign {
                subslot1: ongoing,
                subslot2: ongoing,
            },
            BaseFrameLength::FrameMarker(_) => SlotAccessAssign {
                subslot1: SubslotAccess { access_code: code, frame_len: fl },
                subslot2: ongoing,
            },
        };
    }
    SlotAccessAssign::both_reserved()
}

// ---------------------------------------------------------------------------
// Laws
// ---------------------------------------------------------------------------

/// Every frame marker of Table 21.85 spans 1 to 32 subslots, and the higher raw
/// value has the longer frame.
pub proof fn law_frame_markers(v: int, w: int)
    requires
        3 <= v < w < 16,
    ensures
        ({
            let (a, b) = (base_frame_length_of(v), base_frame_length_of(w));
            &&& a is FrameMarker && b is FrameMarker
            &&& 1 <= a->FrameMarker_0 < b->FrameMarker_0 <= 32
        }),
{
    let t = seq![8u16, 10, 12, 16, 20, 24, 32];
    assert(t[0] == 8 && t[1] == 10 && t[2] == 12 && t[3] == 16 && t[4] == 20 && t[5] == 24
        && t[6] == 32);
}

/// Once an ACCESS-DEFINE for code A has been received, no SYSINFO default
/// changes what is in force for any code; before that, the default decides for
/// code A and only for it.
pub proof fn law_access_define_overrides_sysinfo(
    store: AccessParamStore,
    def: SysinfoDefaultDefForAccessCodeA,
    code: AccessCode,
)
    ensures
        store.with_default_a(def).in_force(code) == (if code == AccessCode::A && store.defined(
            AccessCode::A,
        ) is None {
            Some(params_of_default_a(def))
        } else {
            store.in_force(code)
        }),
{
}

/// An ACCESS-DEFINE decides for the code that it names, and leaves what is in
/// force for every other code.
pub proof fn law_access_define_decides_one_code(
    store: AccessParamStore,
    def: AccessDefine,
    code: AccessCode,
)
    ensures
        store.with_access_define(def).in_force(code) == (if access_code_of(def.access_code as int)
            == Some(code) {
            Some(params_of_access_define(def))
        } else {
            store.in_force(code)
        }),
{
}

/// Codes B, C and D are not available before their ACCESS-DEFINE, whatever the
/// SYSINFO defaults say.
pub proof fn law_other_codes_need_access_define(
    store: AccessParamStore,
    def: SysinfoDefaultDefForAccessCodeA,
    code: AccessCode,
)
    requires
        code != AccessCode::A,
        store.defined(code) is None,
    ensures
        store.with_default_a(def).in_force(code) is None,
{
}

/// An "assigned only" slot and a slot without access fields give no station on
/// the common control channel an access opportunity.
pub proof fn law_no_opportunity_without_rights(aa: AccessAssign, code: AccessCode)
    requires
        aa.ul_usage is AssignedOnly || (aa.f2_af is None && (aa.f1_af1 is None || aa.f2_af2
            is None)),
    ensures
        !slot_rights(aa, true).subslot1.opportunity_for(code),
        !slot_rights(aa, true).subslot2.opportunity_for(code),
{
}

/// In a reserved or CLCH subslot no access code is designated, whichever way the
/// rights were given.
pub proof fn law_reserved_subslots_name_no_code(aa: AccessAssign, on_common_channel: bool)
    ensures
        ({
            let r = slot_rights(aa, on_common_channel);
            &&& r.subslot1.frame_len is ReservedSubslot || r.subslot1.frame_len is ClchSubslot
                ==> r.subslot1.access_code is None
            &&& r.subslot2.frame_len is ReservedSubslot || r.subslot2.frame_len is ClchSubslot
                ==> r.subslot2.access_code is None
        }),
{
}

/// A single access field never opens the second subslot without opening the
/// first, and only to the code that it names.
pub proof fn law_shared_rights_name_one_code(af: AccessField, code: AccessCode)
    ensures
        shared_rights(af).subslot2.opportunity_for(code) ==> shared_rights(
            af,
        ).subslot1.opportunity_for(code),
        shared_rights(af).subslot1.opportunity_for(code) ==> access_code_of(af.access_code as int)
            == Some(code),
{
}

/// The codes A to D are the values 0 to 3, and there are no others.
pub proof fn law_access_codes(c: AccessCode, v: int)
    ensures
        access_code_of(access_code_raw(c)) == Some(c),
        access_code_of(v) is Some <==> 0 <= v <= 3,
        access_code_raw(AccessCode::A) == 0,
        access_code_raw(AccessCode::B) == 1,
        access_code_raw(AccessCode::C) == 2,
        access_code_raw(AccessCode::D) == 3,
{
}

/// Table 21.85, by the low four bits of the field: reserved, linearization,
/// ongoing, markers of 1 to 6 subslots, then of 8, 10, 12, 16, 20, 24 and 32.
pub proof fn law_base_frame_lengths(v: int)
    requires
        v >= 0,
    ensures
        (base_frame_length_of(v) is ReservedSubslot) == (v % 16 == 0),
        (base_frame_length_of(v) is ClchSubslot) == (v % 16 == 1),
        (base_frame_length_of(v) is OngoingFrame) == (v % 16 == 2),
        (base_frame_length_of(v) is FrameMarker) == (v % 16 >= 3),
        base_frame_length_of(v) matches BaseFrameLength::FrameMarker(n) ==> {
            &&& v % 16 <= 8 ==> n == v % 16 - 2
            &&& v % 16 == 9 ==> n == 8
            &&& v % 16 == 10 ==> n == 10
            &&& v % 16 == 11 ==> n == 12
            &&& v % 16 == 12 ==> n == 16
            &&& v % 16 == 13 ==> n == 20
            &&& v % 16 == 14 ==> n == 24
            &&& v % 16 == 15 ==> n == 32
        },
{
}

/// A definition gives its parameters as it states them; the SYSINFO default has no
/// restriction to a class or a group.
pub proof fn law_parameters_are_as_defined(
    d: SysinfoDefaultDefForAccessCodeA,
    a: AccessDefine,
)
    ensures
        ({
            let p = params_of_default_a(d);
            &&& p.imm == d.imm && p.wt == d.wt && p.nu == d.nu
            &&& p.fl_factor == d.fl_factor
            &&& p.ts_ptr == d.ts_ptr
            &&& p.min_pdu_prio == d.min_pdu_prio
            &&& p.subscriber_class is None && p.gssi is None
        }),
        ({
            let p = params_of_access_define(a);
            &&& p.imm == a.imm && p.wt == a.wt && p.nu == a.nu
            &&& p.fl_factor == a.frame_len_factor
            &&& p.ts_ptr == a.ts_pointer
            &&& p.min_pdu_prio == a.min_pdu_prio
            &&& p.subscriber_class == a.subscriber_class
            &&& p.gssi == a.gssi
        }),
{
}

/// An ACCESS-DEFINE replaces what is known of the code with its value, 0 to 3 for A
/// to D, and keeps everything else; a SYSINFO default is kept beside it. What is in
/// force for A is its ACCESS-DEFINE, or the SYSINFO default before there is one.
pub proof fn law_store_keeps_codes_apart(store: AccessParamStore, def: AccessDefine)
    ensures
        ({
            let w = store.with_access_define(def);
            let p = Some(params_of_access_define(def));
            &&& w.defined_a == (if def.access_code == 0 { p } else { store.defined_a })
            &&& w.defined_b == (if def.access_code == 1 { p } else { store.defined_b })
            &&& w.defined_c == (if def.access_code == 2 { p } else { store.defined_c })
            &&& w.defined_d == (if def.access_code == 3 { p } else { store.defined_d })
            &&& w.sysinfo_default_a == store.sysinfo_default_a
        }),
        store.in_force(AccessCode::A) == (if store.defined_a is Some {
            store.defined_a
        } else {
            store.sysinfo_default_a
        }),
        store.in_force(AccessCode::B) == store.defined_b,
        store.in_force(AccessCode::C) == store.defined_c,
        store.in_force(AccessCode::D) == store.defined_d,
        AccessParamStore::no_definitions().defined_a is None,
        AccessParamStore::no_definitions().defined_b is None,
        AccessParamStore::no_definitions().defined_c is None,
        AccessParamStore::no_definitions().defined_d is None,
        AccessParamStore::no_definitions().sysinfo_default_a is None,
{
}

/// A code may be sent in a subslot that is neither reserved nor for linearization
/// and that names it, and in no other.
pub proof fn law_opportunity_names_the_code(s: SubslotAccess, code: AccessCode)
    ensures
        s.opportunity_for(code) <==> s.access_code == Some(code) && (s.frame_len is OngoingFrame
            || s.frame_len is FrameMarker),
{
}

/// Two access fields give each subslot its own rights, the first field to the
/// first: an ongoing frame or a frame marker of the field's code, or none.
pub proof fn law_two_fields_give_each_subslot_its_own(aa: AccessAssign, on_common_channel: bool)
    requires
        aa.f1_af1 is Some,
        aa.f2_af2 is Some,
        !(on_common_channel && aa.ul_usage is AssignedOnly),
    ensures
        ({
            let r = slot_rights(aa, on_common_channel);
            let (f, g) = (aa.f1_af1->0, aa.f2_af2->0);
            &&& r.subslot1.frame_len == base_frame_length_of(f.base_frame_len as int)
            &&& r.subslot2.frame_len == base_frame_length_of(g.base_frame_len as int)
            &&& f.base_frame_len % 16 >= 2 ==> r.subslot1.access_code == access_code_of(
                f.access_code as int,
            )
            &&& f.base_frame_len % 16 < 2 ==> r.subslot1.access_code is None
            &&& g.base_frame_len % 16 >= 2 ==> r.subslot2.access_code == access_code_of(
                g.access_code as int,
            )
            &&& g.base_frame_len % 16 < 2 ==> r.subslot2.access_code is None
        }),
{
}

/// One access field serves both subslots: reserved closes both; linearization
/// takes the first and closes the second; an ongoing frame and a frame marker open
/// both to the field's code, and the frame goes on in the second.
pub proof fn law_one_field_serves_both_subslots(aa: AccessAssign, on_common_channel: bool)
    requires
        aa.f1_af1 is None || aa.f2_af2 is None,
        aa.f2_af is Some,
        !(on_common_channel && aa.ul_usage is AssignedOnly),
    ensures
        ({
            let r = slot_rights(aa, on_common_channel);
            let f = aa.f2_af->0;
            let n = f.base_frame_len % 16;
            let code = access_code_of(f.access_code as int);
            &&& r.subslot1.frame_len == base_frame_length_of(f.base_frame_len as int)
            &&& n < 2 ==> {
                &&& r.subslot1.access_code is None
                &&& r.subslot2.access_code is None
                &&& r.subslot2.frame_len is ReservedSubslot
            }
            &&& n >= 2 ==> {
                &&& r.subslot1.access_code == code
                &&& r.subslot2.access_code == code
                &&& r.subslot2.frame_len is OngoingFrame
            }
        }),
{
}

/// Without an access field, and for a station on the common channel in an assigned
/// slot, both subslots are reserved.
pub proof fn law_no_field_reserves_both_subslots(aa: AccessAssign, on_common_channel: bool)
    requires
        (on_common_channel && aa.ul_usage is AssignedOnly) || (aa.f2_af is None && (aa.f1_af1
            is None || aa.f2_af2 is None)),
    ensures
        slot_rights(aa, on_common_channel).subslot1.frame_len is ReservedSubslot,
        slot_rights(aa, on_common_channel).subslot2.frame_len is ReservedSubslot,
        slot_rights(aa, on_common_channel).subslot1.access_code is None,
        slot_rights(aa, on_common_channel).subslot2.access_code is None,
{
}

} // verus!
