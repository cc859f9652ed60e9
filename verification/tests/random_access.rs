//! Random access parameters and access rights.

use tetra_entities::umac::ms_random_access::{
    interpret_access_assign, AccessAssign, AccessAssignDlUsage, AccessAssignUlUsage, AccessCode,
    AccessDefine, AccessField, AccessParamStore, BaseFrameLength, RandomAccessParams,
    SlotAccessAssign, SubslotAccess, SysinfoDefaultDefForAccessCodeA,
};

fn af(access_code: u8, base_frame_len: u8) -> AccessField {
    AccessField { access_code, base_frame_len }
}

fn aa_two_fields(af1: AccessField, af2: AccessField) -> AccessAssign {
    AccessAssign {
        dl_usage: AccessAssignDlUsage::CommonControl,
        ul_usage: AccessAssignUlUsage::CommonOnly,
        f1_af1: Some(af1),
        f2_af2: Some(af2),
        f2_af: None,
    }
}

fn aa_single_field(field: AccessField, ul_usage: AccessAssignUlUsage) -> AccessAssign {
    AccessAssign {
        dl_usage: AccessAssignDlUsage::CommonControl,
        ul_usage,
        f1_af1: None,
        f2_af2: None,
        f2_af: Some(field),
    }
}

fn sysinfo_def_a() -> SysinfoDefaultDefForAccessCodeA {
    SysinfoDefaultDefForAccessCodeA {
        imm: 3,
        wt: 5,
        nu: 4,
        fl_factor: false,
        ts_ptr: 0,
        min_pdu_prio: 0,
    }
}

fn access_define(code: u8, nu: u8, min_prio: u8) -> AccessDefine {
    AccessDefine {
        common_or_assigned_control: false,
        access_code: code,
        imm: 15,
        wt: 6,
        nu,
        frame_len_factor: true,
        ts_pointer: 1,
        min_pdu_prio: min_prio,
        subscriber_class: None,
        gssi: None,
    }
}

#[test]
fn test_base_frame_length_table() {
    // Table 21.85.
    assert_eq!(BaseFrameLength::from_raw(0b0000), BaseFrameLength::ReservedSubslot);
    assert_eq!(BaseFrameLength::from_raw(0b0001), BaseFrameLength::ClchSubslot);
    assert_eq!(BaseFrameLength::from_raw(0b0010), BaseFrameLength::OngoingFrame);
    assert_eq!(BaseFrameLength::from_raw(0b0011), BaseFrameLength::FrameMarker(1));
    assert_eq!(BaseFrameLength::from_raw(0b0111), BaseFrameLength::FrameMarker(5));
    assert_eq!(BaseFrameLength::from_raw(0b1000), BaseFrameLength::FrameMarker(6));
    assert_eq!(BaseFrameLength::from_raw(0b1001), BaseFrameLength::FrameMarker(8));
    assert_eq!(BaseFrameLength::from_raw(0b1111), BaseFrameLength::FrameMarker(32));

    assert!(BaseFrameLength::from_raw(0b0011).is_frame_marker());
    assert!(!BaseFrameLength::from_raw(0b0010).is_frame_marker());
    assert_eq!(BaseFrameLength::from_raw(0b0110).base_subslots(), Some(4));
    assert_eq!(BaseFrameLength::from_raw(0b0010).base_subslots(), None);
    assert!(BaseFrameLength::from_raw(0b0000).is_reserved());
    assert!(BaseFrameLength::from_raw(0b0001).is_reserved());
    assert!(!BaseFrameLength::from_raw(0b0010).is_reserved());
}

#[test]
fn test_sysinfo_default_a_until_access_define() {
    let mut store = AccessParamStore::new();
    assert!(store.params_for(AccessCode::A).is_none());

    // The SYSINFO default definition applies to code A (cl. 23.5.1.4.10).
    store.update_sysinfo_default_a(&sysinfo_def_a());
    let p = store.params_for(AccessCode::A).expect("code A available from SYSINFO");
    assert_eq!(p.imm, 3);
    assert_eq!(p.nu, 4);
    assert_eq!(p.subscriber_class, None);

    // An ACCESS-DEFINE for code A overrides it.
    store.update_access_define(&access_define(0, 7, 2));
    let p = store.params_for(AccessCode::A).expect("code A from ACCESS-DEFINE");
    assert_eq!(p.imm, 15, "ACCESS-DEFINE params now in force");
    assert_eq!(p.nu, 7);
    assert_eq!(p.min_pdu_prio, 2);
    assert!(p.fl_factor);
}

#[test]
fn test_codes_bcd_require_access_define() {
    let mut store = AccessParamStore::new();
    store.update_sysinfo_default_a(&sysinfo_def_a());

    assert!(store.params_for(AccessCode::B).is_none());
    assert!(store.params_for(AccessCode::C).is_none());
    assert!(store.params_for(AccessCode::D).is_none());

    store.update_access_define(&access_define(1, 3, 0));
    assert!(store.params_for(AccessCode::B).is_some());
    assert!(store.params_for(AccessCode::C).is_none());
}

#[test]
fn test_nu_zero_is_unavailable() {
    let p = RandomAccessParams::from_access_define(&access_define(0, 0, 0));
    assert!(!p.is_available(), "Nu == 0 means access code not available (cl. 23.5.1.4.1)");
    let p = RandomAccessParams::from_access_define(&access_define(0, 1, 0));
    assert!(p.is_available());
}

#[test]
fn test_interpret_two_access_fields() {
    // Field 1 goes to subslot 1, field 2 to subslot 2 (cl. 23.5.1.4.2).
    let aa = aa_two_fields(af(0b01, 0b0100), af(0b00, 0b0010));
    let s = interpret_access_assign(&aa, true);
    assert_eq!(s.subslot1.access_code, Some(AccessCode::B));
    assert_eq!(s.subslot1.frame_len, BaseFrameLength::FrameMarker(2));
    assert!(s.subslot1.is_frame_marker_for(AccessCode::B));
    assert!(s.subslot1.is_opportunity_for(AccessCode::B));
    assert!(!s.subslot1.is_opportunity_for(AccessCode::A));

    assert_eq!(s.subslot2.access_code, Some(AccessCode::A));
    assert_eq!(s.subslot2.frame_len, BaseFrameLength::OngoingFrame);
    assert!(s.subslot2.is_opportunity_for(AccessCode::A));
    assert!(!s.subslot2.is_frame_marker_for(AccessCode::A));
}

#[test]
fn test_interpret_single_field_reserved_and_clch() {
    let s = interpret_access_assign(
        &aa_single_field(af(0, 0b0000), AccessAssignUlUsage::CommonAndAssigned),
        true,
    );
    assert!(s.subslot1.frame_len.is_reserved());
    assert!(s.subslot2.frame_len.is_reserved());
    assert!(!s.subslot1.is_opportunity_for(AccessCode::A));

    let s = interpret_access_assign(
        &aa_single_field(af(0, 0b0001), AccessAssignUlUsage::CommonAndAssigned),
        true,
    );
    assert_eq!(s.subslot1.frame_len, BaseFrameLength::ClchSubslot);
    assert!(!s.subslot1.is_opportunity_for(AccessCode::A));
    assert_eq!(s.subslot2.frame_len, BaseFrameLength::ReservedSubslot);
}

#[test]
fn test_interpret_single_field_marker_and_ongoing() {
    // A frame marker: the marker in subslot 1, its ongoing frame in subslot 2.
    let s = interpret_access_assign(
        &aa_single_field(af(0b10, 0b0101), AccessAssignUlUsage::CommonAndAssigned),
        true,
    );
    assert_eq!(s.subslot1.access_code, Some(AccessCode::C));
    assert_eq!(s.subslot1.frame_len, BaseFrameLength::FrameMarker(3));
    assert!(s.subslot1.is_frame_marker_for(AccessCode::C));
    assert_eq!(s.subslot2.access_code, Some(AccessCode::C));
    assert_eq!(s.subslot2.frame_len, BaseFrameLength::OngoingFrame);
    assert!(s.subslot2.is_opportunity_for(AccessCode::C));
    assert!(!s.subslot2.is_frame_marker_for(AccessCode::C));

    // An ongoing frame: both subslots.
    let s = interpret_access_assign(
        &aa_single_field(af(0b00, 0b0010), AccessAssignUlUsage::CommonAndAssigned),
        true,
    );
    assert!(s.subslot1.is_opportunity_for(AccessCode::A));
    assert!(s.subslot2.is_opportunity_for(AccessCode::A));
}

#[test]
fn test_interpret_assigned_only_on_common_is_reserved() {
    let s = interpret_access_assign(
        &aa_single_field(af(0b00, 0b0100), AccessAssignUlUsage::AssignedOnly),
        true,
    );
    assert!(s.subslot1.frame_len.is_reserved());
    assert!(s.subslot2.frame_len.is_reserved());
}

#[test]
fn assigned_only_counts_on_an_assigned_channel() {
    let s = interpret_access_assign(
        &aa_single_field(af(0b00, 0b0100), AccessAssignUlUsage::AssignedOnly),
        false,
    );
    assert_eq!(s.subslot1.frame_len, BaseFrameLength::FrameMarker(2));
    assert!(s.subslot2.is_opportunity_for(AccessCode::A));
}

#[test]
fn no_access_field_gives_no_rights() {
    let mut aa = aa_two_fields(af(0, 2), af(0, 2));
    aa.f2_af2 = None;
    let s = interpret_access_assign(&aa, true);
    assert_eq!(s, SlotAccessAssign::both_reserved());
    assert_eq!(s.subslot1, SubslotAccess::reserved());
}

#[test]
fn every_frame_marker_of_the_table() {
    let expected = [1u16, 2, 3, 4, 5, 6, 8, 10, 12, 16, 20, 24, 32];
    for (i, n) in expected.iter().enumerate() {
        let fl = BaseFrameLength::from_raw(3 + i as u8);
        assert_eq!(fl, BaseFrameLength::FrameMarker(*n));
        assert_eq!(fl.base_subslots(), Some(*n));
    }
}

#[test]
fn access_codes_by_raw_value() {
    assert_eq!(AccessCode::from_raw(0), Some(AccessCode::A));
    assert_eq!(AccessCode::from_raw(1), Some(AccessCode::B));
    assert_eq!(AccessCode::from_raw(2), Some(AccessCode::C));
    assert_eq!(AccessCode::from_raw(3), Some(AccessCode::D));
    assert_eq!(AccessCode::from_raw(4), None);
}

#[test]
fn sysinfo_does_not_override_an_access_define() {
    let mut store = AccessParamStore::new();
    store.update_access_define(&access_define(0, 7, 2));
    store.update_sysinfo_default_a(&sysinfo_def_a());
    assert_eq!(store.params_for(AccessCode::A).unwrap().nu, 7);
    // A later ACCESS-DEFINE for the same code does.
    store.update_access_define(&access_define(0, 2, 1));
    assert_eq!(store.params_for(AccessCode::A).unwrap().nu, 2);
    assert!(store.params_for(AccessCode::D).is_none());
}

#[test]
fn restrictions_come_from_the_access_define() {
    let mut def = access_define(3, 5, 4);
    def.subscriber_class = Some(0x8001);
    def.gssi = Some(91);
    let mut store = AccessParamStore::new();
    store.update_access_define(&def);
    let p = store.params_for(AccessCode::D).unwrap();
    assert_eq!(p.subscriber_class, Some(0x8001));
    assert_eq!(p.gssi, Some(91));
    assert_eq!(p.ts_ptr, 1);
    assert_eq!(p.wt, 6);
}

#[test]
fn reserved_and_linearization_subslots_name_no_code() {
    let aa = aa_two_fields(af(0b01, 0b0000), af(0b10, 0b0001));
    let s = interpret_access_assign(&aa, true);
    assert_eq!(s.subslot1, SubslotAccess::reserved());
    assert_eq!(
        s.subslot2,
        SubslotAccess { access_code: None, frame_len: BaseFrameLength::ClchSubslot }
    );
}
