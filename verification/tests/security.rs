//! SIDs, ACLs, descriptors and SDDL.
use peios::error::EINVAL;
use peios::security::acl::{component, AceTypeCodes, AclOp};
use peios::security::sd::{sid_component, SdOp};
use peios::security::sddl;
use peios::security::sid::{sid_text, WellKnownCodes};
use peios::security::{
    Ace, AceFlags, AceType, AceView, Acl, AclBuilder, AclView, Control, GenericMapping,
    IntegrityLevel, LabelPolicy, SdBuilder, SdView, SecurityDescriptor, Sid, SidAndAttributes,
    SidArrayView, SidRef, WellKnown,
};
use peios::Error;

type Id = Sid<68>;

const SYSTEM: [u8; 12] = [1, 1, 0, 0, 0, 0, 0, 5, 18, 0, 0, 0];
const EVERYONE: [u8; 12] = [1, 1, 0, 0, 0, 0, 0, 1, 0, 0, 0, 0];

const ACE_CODES: AceTypeCodes = AceTypeCodes {
    access_allowed: 0,
    access_denied: 1,
    system_audit: 2,
    system_mandatory_label: 17,
    system_resource_attribute: 18,
};

fn system() -> SidRef<'static> {
    SidRef::from_bytes(&SYSTEM, true).unwrap()
}

#[test]
fn sids_compare_by_their_bytes_alone() {
    let mut noisy = [0xeeu8; 68];
    noisy[..12].copy_from_slice(&SYSTEM);
    let mut clean = [0u8; 68];
    clean[..12].copy_from_slice(&SYSTEM);
    let a: Id = Sid::from_encoded(noisy, 12).unwrap();
    let b: Id = Sid::from_encoded(clean, 12).unwrap();
    assert!(a == b);
    assert_eq!(a.as_bytes(), &SYSTEM);
    let c: Id = SidRef::from_bytes_unchecked(&EVERYONE).to_sid();
    assert!(a != c);
    assert!(a.as_sid_ref() == system());
    let shorter: Id = Sid::from_encoded(clean, 8).unwrap();
    assert!(shorter != b);
}

#[test]
fn owned_and_borrowed_sids_convert_both_ways() {
    let owned: Id = Sid::from_ref(system());
    assert_eq!(owned.as_bytes(), &SYSTEM);
    assert_eq!(owned.as_sid_ref().as_bytes(), &SYSTEM);
    let again: Id = owned.as_sid_ref().to_sid();
    assert!(again == owned);
}

#[test]
fn invalid_bytes_are_no_sid() {
    assert!(SidRef::from_bytes(&[1, 2], false).is_none());
    assert_eq!(SidRef::from_bytes(&SYSTEM, true).unwrap().as_bytes(), &SYSTEM);
}

#[test]
fn encoding_replies_become_sids_or_errors() {
    let mut buf = [0u8; 68];
    buf[..12].copy_from_slice(&SYSTEM);
    let sid: Id = Sid::from_reply(buf, 12, 0).unwrap();
    assert_eq!(sid.as_bytes(), &SYSTEM);
    assert_eq!(Id::from_reply(buf, -1, 22).err(), Some(Error { errno: 22 }));
    assert_eq!(Id::from_user_reply(buf, 12, 0, true).unwrap().as_bytes(), &SYSTEM);
    assert_eq!(Id::from_user_reply(buf, 12, 0, false).err(), Some(Error { errno: EINVAL }));
    assert_eq!(Id::from_user_reply(buf, -1, 9, false).err(), Some(Error { errno: 9 }));
}

#[test]
fn sid_text_has_a_placeholder() {
    let mut text = [0u8; 256];
    text[..8].copy_from_slice(b"S-1-5-18");
    assert_eq!(sid_text(8, &text), Some("S-1-5-18"));
    assert_eq!(sid_text(-1, &text), Some("S-?"));
    text[0] = 0xff;
    assert_eq!(sid_text(8, &text), None);
}

#[test]
fn integrity_levels_have_their_rids() {
    assert_eq!(IntegrityLevel(IntegrityLevel::UNTRUSTED).rid(), 0);
    assert_eq!(IntegrityLevel(IntegrityLevel::LOW).rid(), 4096);
    assert_eq!(IntegrityLevel(IntegrityLevel::MEDIUM).rid(), 8192);
    assert_eq!(IntegrityLevel(IntegrityLevel::HIGH).rid(), 12288);
    assert_eq!(IntegrityLevel(IntegrityLevel::SYSTEM).rid(), 16384);
    assert!(IntegrityLevel(IntegrityLevel::LOW) < IntegrityLevel(IntegrityLevel::HIGH));
}

#[test]
fn well_known_sids_have_their_codes() {
    let codes = WellKnownCodes {
        null: 0,
        everyone: 1,
        local: 2,
        creator_owner: 3,
        creator_group: 4,
        owner_rights: 5,
        anonymous: 6,
        principal_self: 7,
        authenticated_users: 8,
        system: 9,
        local_service: 10,
        network_service: 11,
        administrators: 12,
    };
    let all = [
        WellKnown::Null,
        WellKnown::Everyone,
        WellKnown::Local,
        WellKnown::CreatorOwner,
        WellKnown::CreatorGroup,
        WellKnown::OwnerRights,
        WellKnown::Anonymous,
        WellKnown::PrincipalSelf,
        WellKnown::AuthenticatedUsers,
        WellKnown::System,
        WellKnown::LocalService,
        WellKnown::NetworkService,
        WellKnown::Administrators,
    ];
    for (i, which) in all.iter().enumerate() {
        assert_eq!(which.raw(codes), i as u32);
    }
}

#[test]
fn generic_mappings_hold_their_masks() {
    let m = GenericMapping::new(1, 2, 3, 4);
    assert_eq!((m.read, m.write, m.execute, m.all), (1, 2, 3, 4));
}

#[test]
fn ace_types_round_trip_through_their_bytes() {
    for v in 0..=255u8 {
        assert_eq!(AceType::from_raw(v, ACE_CODES).to_raw(ACE_CODES), v);
    }
    assert_eq!(AceType::from_raw(17, ACE_CODES), AceType::SystemMandatoryLabel);
    assert_eq!(AceType::from_raw(5, ACE_CODES), AceType::Other(5));
    // A byte of a named type is read as that type.
    assert_eq!(
        AceType::from_raw(AceType::Other(1).to_raw(ACE_CODES), ACE_CODES),
        AceType::AccessDenied
    );
    // Codes wider than a byte are cut.
    let wide = AceTypeCodes { access_allowed: 0x1_02, ..ACE_CODES };
    assert_eq!(AceType::AccessAllowed.to_raw(wide), 2);
}

#[test]
fn an_acl_builder_logs_in_order() {
    let guid = [7u8; 16];
    let mut b = AclBuilder::new();
    b.allow(system(), 1, AceFlags(2))
        .deny(system(), 3, AceFlags(4))
        .audit(system(), 5, AceFlags(6))
        .label(4096, LabelPolicy(1))
        .add(
            &Ace {
                ace_type: AceType::SystemResourceAttribute,
                flags: AceFlags(8),
                mask: 9,
                sid: system(),
                object_type: Some(&guid),
                inherited_object_type: None,
                app_data: Some(b"attr"),
            },
            ACE_CODES,
        );
    let ops = b.ops();
    assert_eq!(ops.len(), 5);
    assert!(matches!(&ops[0], AclOp::Allow(s, 1, 2) if s == &SYSTEM));
    assert!(matches!(&ops[1], AclOp::Deny(s, 3, 4) if s == &SYSTEM));
    assert!(matches!(&ops[2], AclOp::Audit(s, 5, 6) if s == &SYSTEM));
    assert!(matches!(&ops[3], AclOp::Label(4096, 1)));
    match &ops[4] {
        AclOp::Add(a) => {
            assert_eq!((a.ace_type, a.flags, a.mask), (18, 8, 9));
            assert_eq!(a.sid, SYSTEM);
            assert_eq!(a.object_type, Some(guid));
            assert_eq!(a.inherited_object_type, None);
            assert_eq!(a.app_data, Some(b"attr".to_vec()));
        }
        other => panic!("logged {other:?}"),
    }
    assert!(b.reset().ops().is_empty());
    assert!(AclBuilder::default().ops().is_empty());
}

#[test]
fn a_latched_error_precedes_the_bytes() {
    let b = AclBuilder::new();
    assert_eq!(b.build(0, Ok(vec![1])), Ok(Acl::from_bytes(vec![1])));
    assert_eq!(b.build(22, Ok(vec![1])), Err(Error { errno: 22 }));
    assert_eq!(b.build(0, Err(Error { errno: 34 })), Err(Error { errno: 34 }));
    let b = SdBuilder::new();
    assert_eq!(b.build(0, Ok(vec![1])).unwrap().as_bytes(), &[1]);
    assert_eq!(b.build(22, Ok(vec![1])).err(), Some(Error { errno: 22 }));
    assert_eq!(b.build(0, Err(Error { errno: 34 })).err(), Some(Error { errno: 34 }));
}

fn ace(mask: u32) -> AceView<'static> {
    AceView {
        raw_type: 1,
        raw_flags: 0xff,
        mask,
        raw_sid: Some(&SYSTEM),
        object_type: None,
        inherited_object_type: None,
        app_data: None,
    }
}

#[test]
fn an_acl_view_reads_in_stored_order() {
    let v = AclView::parse(0, 0, vec![Some(ace(10)), Some(ace(20))]).unwrap();
    assert_eq!(v.len(), 2);
    assert!(!v.is_empty());
    assert_eq!(v.ace(1).unwrap().mask, 20);
    assert!(v.ace(2).is_none());
    assert!(v.ace(1 << 32).is_none());
    assert_eq!(v.iter().iter().map(|a| a.mask).collect::<Vec<_>>(), vec![10, 20]);
    let first = v.ace(0).unwrap();
    assert_eq!(first.ace_type(ACE_CODES), AceType::AccessDenied);
    assert_eq!(first.flags(), AceFlags(0xff));
    assert_eq!(first.sid().unwrap().as_bytes(), &SYSTEM);
}

#[test]
fn iteration_stops_before_an_unreadable_entry() {
    let v = AclView::from_raw(vec![Some(ace(1)), None, Some(ace(3))]);
    assert_eq!(v.len(), 3);
    assert_eq!(v.iter().len(), 1);
    assert!(v.ace(1).is_none());
    assert_eq!(v.ace(2).unwrap().mask, 3);
}

#[test]
fn an_empty_acl_is_empty_and_a_bad_one_is_an_error() {
    let v = AclView::parse(0, 0, Vec::new()).unwrap();
    assert!(v.is_empty());
    assert!(v.iter().is_empty());
    assert_eq!(AclView::parse(-1, 22, Vec::new()).err(), Some(Error { errno: 22 }));
}

#[test]
fn a_sid_array_is_copied_out() {
    let entry = |attributes| Some(SidAndAttributes { sid: system(), attributes });
    let v = SidArrayView::parse(0, 0, vec![entry(1), entry(2)]).unwrap();
    assert_eq!(v.len(), 2);
    assert!(!v.is_empty());
    assert_eq!(v.get(1).unwrap().attributes, 2);
    assert!(v.get(2).is_none());
    assert_eq!(v.iter().len(), 2);
    let pairs: Vec<(Id, u32)> = v.to_owned_pairs();
    assert_eq!(pairs.len(), 2);
    assert_eq!((pairs[0].0.as_bytes(), pairs[0].1), (&SYSTEM[..], 1));
    assert_eq!(SidArrayView::parse(1, 5, Vec::new()).err(), Some(Error { errno: 5 }));
}

#[test]
fn absent_components_are_none() {
    assert_eq!(component(0, Some(3)), Some(3));
    assert_eq!(component(-1, Some(3)), None);
    assert_eq!(component::<u8>(0, None), None);
    assert_eq!(sid_component(0, Some(&SYSTEM)).unwrap().as_bytes(), &SYSTEM);
    assert!(sid_component(-1, Some(&SYSTEM)).is_none());
    assert!(sid_component(0, None).is_none());
}

#[test]
fn a_descriptor_builder_logs_in_order() {
    let acl = Acl::from_bytes(vec![9, 9]);
    let mut b = SdBuilder::new();
    b.owner(system())
        .group(system())
        .control(Control(1), Control(2))
        .dacl(&acl)
        .dacl_grant_all()
        .sacl(&acl);
    let ops = b.ops();
    assert_eq!(ops.len(), 6);
    assert!(matches!(&ops[0], SdOp::Owner(s) if s == &SYSTEM));
    assert!(matches!(&ops[1], SdOp::Group(s) if s == &SYSTEM));
    assert!(matches!(&ops[2], SdOp::Control(1, 2)));
    assert!(matches!(&ops[3], SdOp::Dacl(d) if d == &[9, 9]));
    assert!(matches!(&ops[4], SdOp::DaclGrantAll));
    assert!(matches!(&ops[5], SdOp::Sacl(d) if d == &[9, 9]));
    assert!(b.reset().ops().is_empty());
    assert!(SdBuilder::default().ops().is_empty());
}

#[test]
fn descriptor_bytes_are_kept() {
    let sd = SecurityDescriptor::from_validated_bytes(vec![1, 2], 0, 0).unwrap();
    assert_eq!(sd.as_bytes(), &[1, 2]);
    assert_eq!(
        SecurityDescriptor::from_validated_bytes(vec![1, 2], -1, 22).err(),
        Some(Error { errno: 22 })
    );
    assert_eq!(sd, SecurityDescriptor::from_bytes(vec![1, 2]));
}

#[test]
fn a_descriptor_view_holds_its_parts() {
    let parts = || SdView {
        control: Control(0x8004),
        owner: Some(system()),
        group: None,
        dacl: Some(AclView::from_raw(vec![Some(ace(1))])),
        sacl: None,
    };
    let v = SdView::parse(0, 0, parts()).unwrap();
    assert_eq!(v.control, Control(0x8004));
    assert!(v.owner.unwrap() == system());
    assert!(v.group.is_none());
    assert_eq!(v.dacl.unwrap().len(), 1);
    assert!(v.sacl.is_none());
    assert_eq!(SdView::parse(-1, 22, parts()).err(), Some(Error { errno: 22 }));
}

#[test]
fn sddl_goes_in_as_a_c_string_and_comes_out_as_text() {
    assert_eq!(sddl::source("O:SY").unwrap(), b"O:SY\0");
    assert_eq!(sddl::source("O:\0SY").err(), Some(Error { errno: EINVAL }));
    assert_eq!(sddl::descriptor(Ok(vec![4])).unwrap().as_bytes(), &[4]);
    assert_eq!(sddl::descriptor(Err(Error { errno: 22 })).err(), Some(Error { errno: 22 }));
    assert_eq!(sddl::rendered(Ok(b"O:SYG:BA".to_vec())), Ok("O:SYG:BA".to_string()));
    assert_eq!(sddl::rendered(Ok(vec![0xff])), Err(Error { errno: EINVAL }));
    assert_eq!(sddl::rendered(Err(Error { errno: 5 })), Err(Error { errno: 5 }));
}
