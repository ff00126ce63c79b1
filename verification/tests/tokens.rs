//! Tokens, claims, the token-spec builder and sessions.
use peios::error::EINVAL;
use peios::security::{Acl, IntegrityLevel, Privileges, Sid, SidRef};
use peios::token::builder::{TokenOp, SOURCE_NAME_LEN};
use peios::token::claim::ClaimTypeCodes;
use peios::token::{
    adjust_default, adjusted_privileges, group_entries, integrity_reply, open_self_flags,
    AuditPolicy, Claim, ClaimAttr, ClaimValues, GroupAdjustment, GroupEntry, GroupMask,
    Impersonation, ImpersonationLevel, ImpersonationLevelCodes, LcsCredentials, LogonType,
    LogonTypeCodes, MandatoryPolicy, PrivilegeSet, RestrictFlags, RestrictSpec, Session, SessionId,
    TokenBuilder, TokenFlags, TokenType, TokenTypeCodes, UNCHANGED_INDEX,
};
use peios::Error;

type Id = Sid<68>;
type Values = ClaimValues<68>;

const USER: [u8; 12] = [1, 1, 0, 0, 0, 0, 0, 5, 18, 0, 0, 0];

const TYPES: TokenTypeCodes = TokenTypeCodes { primary: 1, impersonation: 2 };
const LEVELS: ImpersonationLevelCodes = ImpersonationLevelCodes {
    anonymous: 0,
    identification: 1,
    impersonation: 2,
    delegation: 3,
};
const CLAIMS: ClaimTypeCodes =
    ClaimTypeCodes { int64: 1, uint64: 2, boolean: 6, string: 3, sid: 5, octet: 16 };
const LOGONS: LogonTypeCodes = LogonTypeCodes {
    interactive: 2,
    network: 3,
    batch: 4,
    service: 5,
    network_cleartext: 8,
    new_credentials: 9,
};

fn user() -> SidRef<'static> {
    SidRef::from_bytes_unchecked(&USER)
}

#[test]
fn token_types_follow_their_codes() {
    assert_eq!(TokenType::Primary.to_raw(TYPES), 1);
    assert_eq!(TokenType::Impersonation.to_raw(TYPES), 2);
    assert_eq!(TokenType::from_raw(1, TYPES), Some(TokenType::Primary));
    assert_eq!(TokenType::from_raw(2, TYPES), Some(TokenType::Impersonation));
    assert_eq!(TokenType::from_raw(3, TYPES), None);
    assert_eq!(TokenType::from_reply(0, 0, 2, TYPES), Ok(TokenType::Impersonation));
    assert_eq!(TokenType::from_reply(0, 0, 7, TYPES), Err(Error { errno: EINVAL }));
    assert_eq!(TokenType::from_reply(-1, 9, 1, TYPES), Err(Error { errno: 9 }));
}

#[test]
fn levels_and_logons_have_their_codes() {
    assert_eq!(ImpersonationLevel::Anonymous.to_raw(LEVELS), 0);
    assert_eq!(ImpersonationLevel::Identification.to_raw(LEVELS), 1);
    assert_eq!(ImpersonationLevel::Impersonation.to_raw(LEVELS), 2);
    assert_eq!(ImpersonationLevel::Delegation.to_raw(LEVELS), 3);
    assert!(ImpersonationLevel::Anonymous < ImpersonationLevel::Delegation);
    let logons = [
        (LogonType::Interactive, 2),
        (LogonType::Network, 3),
        (LogonType::Batch, 4),
        (LogonType::Service, 5),
        (LogonType::NetworkCleartext, 8),
        (LogonType::NewCredentials, 9),
    ];
    for (ty, code) in logons {
        assert_eq!(ty.to_raw(LOGONS), code);
    }
}

#[test]
fn query_replies_are_checked() {
    assert_eq!(open_self_flags(true, 4), 4);
    assert_eq!(open_self_flags(false, 4), 0);
    assert_eq!(SessionId::from_reply(0, 0, 7), Ok(SessionId(7)));
    assert_eq!(SessionId::from_reply(-1, 5, 7), Err(Error { errno: 5 }));
    assert_eq!(integrity_reply(0, 0, 8192), Ok(IntegrityLevel(8192)));
    assert_eq!(integrity_reply(-1, 5, 0), Err(Error { errno: 5 }));
    assert_eq!(
        PrivilegeSet::from_reply(0, 0, 1, 2, 3, 4),
        Ok(PrivilegeSet {
            present: Privileges(1),
            enabled: Privileges(2),
            enabled_by_default: Privileges(3),
            used: Privileges(4),
        })
    );
    assert_eq!(PrivilegeSet::from_reply(-1, 5, 1, 2, 3, 4), Err(Error { errno: 5 }));
    assert_eq!(adjusted_privileges(0, 0, 6), Ok(Privileges(6)));
    assert_eq!(adjusted_privileges(-1, 1, 6), Err(Error { errno: 1 }));
}

#[test]
fn session_ids_round_trip_below_32_bits() {
    let s = SessionId(0xffff_ffff);
    assert_eq!(SessionId::from_reply(0, 0, s.to_raw()), Ok(s));
    assert_eq!(SessionId(0x1_0000_0005).to_raw(), 5);
}

#[test]
fn group_adjustments_become_numbers() {
    let entries = [
        GroupAdjustment { index: 3, enable: true },
        GroupAdjustment { index: 0, enable: false },
    ];
    assert_eq!(
        group_entries(&entries),
        vec![GroupEntry { index: 3, enable: 1 }, GroupEntry { index: 0, enable: 0 }]
    );
}

#[test]
fn every_group_has_its_own_bit() {
    for index in [0usize, 1, 63, 64, 65, 127] {
        let mut words = [0u64; 2];
        words[index / 64] = 1 << (index % 64);
        let mask = GroupMask(words);
        for other in 0..200 {
            assert_eq!(mask.is_enabled(other), other == index);
        }
    }
    let full = GroupMask([u64::MAX; 2]);
    assert!(full.is_enabled(127));
    assert!(!full.is_enabled(128));
    assert!(!full.is_enabled(usize::MAX));
    assert_eq!(GroupMask::<2>::from_reply(-1, 5, [0; 2]).err(), Some(Error { errno: 5 }));
    assert!(GroupMask::from_reply(0, 0, [1, 0]).unwrap().is_enabled(0));
}

#[test]
fn defaults_are_left_alone_unless_given() {
    let q = adjust_default(None, None, None);
    assert_eq!((q.dacl, q.dacl_len), (None, 0));
    assert_eq!((q.owner_index, q.group_index), (0xFFFF, 0xFFFF));
    assert_eq!(UNCHANGED_INDEX, 0xFFFF);
    let acl = Acl::from_bytes(vec![1, 2]);
    let q = adjust_default(Some(&acl), Some(0), Some(4));
    assert_eq!((q.dacl, q.dacl_len), (Some(&[1u8, 2][..]), 2));
    assert_eq!((q.owner_index, q.group_index), (0, 4));
    let empty = Acl::from_bytes(Vec::new());
    let q = adjust_default(Some(&empty), None, None);
    assert_eq!((q.dacl, q.dacl_len), (Some(&[][..]), 0));
}

#[test]
fn a_restriction_defaults_to_nothing() {
    let s: RestrictSpec<68> = RestrictSpec::default();
    let q = s.request();
    assert_eq!((q.privs_to_delete, q.deny_count, q.restrict_count, q.flags), (0, 0, 0, 0));
    let s: RestrictSpec<68> = RestrictSpec {
        privs_to_delete: Privileges(5),
        deny_group_indices: vec![0, 2],
        restrict_sids: vec![user().to_sid()],
        flags: RestrictFlags(1),
    };
    let q = s.request();
    assert_eq!((q.privs_to_delete, q.deny_count, q.restrict_count, q.flags), (5, 2, 1, 1));
    assert_eq!(q.deny_group_indices, &[0, 2]);
    assert_eq!(q.restrict_sids, vec![&USER[..]]);
}

#[test]
fn an_impersonation_is_reverted_once() {
    let mut g = Impersonation::begin(0, 0).unwrap();
    assert!(g.reverts_on_drop());
    assert_eq!(g.revert(0, 0), Ok(()));
    assert!(!g.reverts_on_drop());
    let mut g = Impersonation::begin(0, 0).unwrap();
    assert_eq!(g.revert(-1, 1), Err(Error { errno: 1 }));
    assert!(!g.reverts_on_drop());
    assert_eq!(Impersonation::begin(-1, 13).err(), Some(Error { errno: 13 }));
}

#[test]
fn a_session_request_carries_its_arguments() {
    let q = Session::create(LogonType::Service, "Negotiate", user(), LOGONS).unwrap();
    assert_eq!(q.logon_type, 5);
    assert_eq!(q.auth_package, b"Negotiate\0");
    assert_eq!(q.user_sid, &USER);
    assert_eq!(
        Session::create(LogonType::Batch, "a\0", user(), LOGONS).err(),
        Some(Error { errno: EINVAL })
    );
    assert_eq!(Session::created(0, 0, 1 << 40), Ok(SessionId(1 << 40)));
    assert_eq!(Session::created(-1, 1, 0), Err(Error { errno: 1 }));
}

#[test]
fn claim_values_become_numbers_or_bytes() {
    let scalars = |v: Values| {
        v.to_ffi().iter().map(|x| (x.scalar, x.bytes.is_none())).collect::<Vec<_>>()
    };
    assert_eq!(
        scalars(ClaimValues::Int64(vec![1, -1])),
        vec![(1, true), (u64::MAX, true)]
    );
    assert_eq!(scalars(ClaimValues::Uint64(vec![9])), vec![(9, true)]);
    assert_eq!(scalars(ClaimValues::Boolean(vec![true, false])), vec![(1, true), (0, true)]);
    let blobs = |v: Values| {
        v.to_ffi().into_iter().map(|x| (x.scalar, x.bytes)).collect::<Vec<_>>()
    };
    assert_eq!(
        blobs(ClaimValues::String(vec!["é".to_string()])),
        vec![(0, Some(vec![0xc3, 0xa9]))]
    );
    let sid: Id = user().to_sid();
    assert_eq!(blobs(ClaimValues::Sid(vec![sid])), vec![(0, Some(USER.to_vec()))]);
    assert_eq!(
        blobs(ClaimValues::Octet(vec![vec![7], vec![]])),
        vec![(0, Some(vec![7])), (0, Some(vec![]))]
    );
}

#[test]
fn claim_values_have_their_types() {
    let types = [
        (Values::Int64(vec![]), 1),
        (Values::Uint64(vec![]), 2),
        (Values::Boolean(vec![]), 6),
        (Values::String(vec![]), 3),
        (Values::Sid(vec![]), 5),
        (Values::Octet(vec![]), 16),
    ];
    for (v, code) in types {
        assert_eq!(v.value_type(CLAIMS), code);
    }
}

fn claim(name: &str) -> Claim<68> {
    Claim {
        name: name.to_string(),
        flags: ClaimAttr(2),
        values: ClaimValues::Uint64(vec![1, 2]),
    }
}

#[test]
fn a_token_builder_logs_in_order() {
    let acl = Acl::from_bytes(vec![8]);
    let mut b = TokenBuilder::new();
    b.user(user())
        .add_group(user(), 1)
        .privileges(Privileges(2), Privileges(3))
        .token_type(TokenType::Impersonation, ImpersonationLevel::Delegation, TYPES, LEVELS)
        .integrity(IntegrityLevel(4096))
        .session(SessionId(1 << 33))
        .owner_index(4)
        .primary_group_index(5)
        .default_dacl(&acl)
        .flags(TokenFlags { user_deny_only: true, ..TokenFlags::default() })
        .projected_ids(6, 7)
        .supplementary_gids(&[8, 9])
        .mandatory_policy(MandatoryPolicy(10))
        .audit_policy(AuditPolicy(11))
        .expiration(12)
        .source("peiosd", 13)
        .add_restricted_sid(user(), 14)
        .add_device_group(user(), 15)
        .confinement(user());
    let ops = b.ops();
    assert_eq!(ops.len(), 19);
    assert!(matches!(&ops[0], TokenOp::User(s) if s == &USER));
    assert!(matches!(&ops[1], TokenOp::AddGroup(s, 1) if s == &USER));
    assert!(matches!(&ops[2], TokenOp::Privileges(2, 3)));
    assert!(matches!(&ops[3], TokenOp::Type(2, 3)));
    assert!(matches!(&ops[4], TokenOp::Integrity(4096)));
    assert!(matches!(&ops[5], TokenOp::Session(0x2_0000_0000)));
    assert!(matches!(&ops[6], TokenOp::OwnerIndex(4)));
    assert!(matches!(&ops[7], TokenOp::PrimaryGroupIndex(5)));
    assert!(matches!(&ops[8], TokenOp::DefaultDacl(d) if d == &[8]));
    assert!(matches!(&ops[9], TokenOp::Flags(f) if f.user_deny_only && !f.write_restricted));
    assert!(matches!(&ops[10], TokenOp::ProjectedIds(6, 7)));
    assert!(matches!(&ops[11], TokenOp::SupplementaryGids(g) if g == &[8, 9]));
    assert!(matches!(&ops[12], TokenOp::MandatoryPolicy(10)));
    assert!(matches!(&ops[13], TokenOp::AuditPolicy(11)));
    assert!(matches!(&ops[14], TokenOp::Expiration(12)));
    assert!(matches!(&ops[15], TokenOp::Source(n, 13) if n == b"peiosd\0\0"));
    assert!(matches!(&ops[16], TokenOp::AddRestrictedSid(s, 14) if s == &USER));
    assert!(matches!(&ops[17], TokenOp::AddDeviceGroup(s, 15) if s == &USER));
    assert!(matches!(&ops[18], TokenOp::Confinement(s) if s == &USER));
    assert_eq!(b.error(0, 0), Ok(()));
    assert!(TokenBuilder::default().ops().is_empty());
}

#[test]
fn a_source_name_has_eight_bytes() {
    assert_eq!(SOURCE_NAME_LEN, 8);
    let mut b = TokenBuilder::new();
    b.source("12345678", 1).source("", 2);
    assert!(matches!(&b.ops()[0], TokenOp::Source(n, 1) if n == b"12345678"));
    assert!(matches!(&b.ops()[1], TokenOp::Source(n, 2) if n == &[0; 8]));
    b.source("123456789", 3);
    assert_eq!(b.ops().len(), 2);
    assert_eq!(b.error(0, 0), Err(Error { errno: EINVAL }));
}

#[test]
fn claims_are_logged_or_latched() {
    let mut b = TokenBuilder::new();
    b.add_user_claim(&claim("Title"), CLAIMS).add_device_claim(&claim("Site"), CLAIMS);
    match &b.ops()[0] {
        TokenOp::AddUserClaim(c) => {
            assert_eq!(c.name, b"Title\0");
            assert_eq!((c.value_type, c.flags), (2, 2));
            assert_eq!(c.values.iter().map(|v| v.scalar).collect::<Vec<_>>(), vec![1, 2]);
        }
        other => panic!("logged {other:?}"),
    }
    assert!(matches!(&b.ops()[1], TokenOp::AddDeviceClaim(c) if c.name == b"Site\0"));
    b.add_user_claim(&claim("a\0b"), CLAIMS);
    assert_eq!(b.ops().len(), 2);
    assert_eq!(b.error(0, 0), Err(Error { errno: EINVAL }));
    let mut b = TokenBuilder::new();
    b.add_device_claim(&claim("\0"), CLAIMS);
    assert!(b.ops().is_empty());
    assert_eq!(b.error(0, 0), Err(Error { errno: EINVAL }));
}

#[test]
fn credentials_are_logged_or_latched() {
    let mut creds = LcsCredentials::default();
    assert!(creds.scope_guids.is_empty() && creds.private_layers.is_empty());
    creds.scope_guids.push([3; 16]);
    creds.private_layers.push("mine".to_string());
    creds.private_layers.push("also".to_string());
    let mut b = TokenBuilder::new();
    b.lcs_credentials(&creds);
    match &b.ops()[0] {
        TokenOp::LcsCredentials(c) => {
            assert_eq!(c.scope_guids, vec![[3; 16]]);
            assert_eq!(c.private_layers, vec![b"mine\0".to_vec(), b"also\0".to_vec()]);
        }
        other => panic!("logged {other:?}"),
    }
    creds.private_layers[1] = "a\0".to_string();
    b.lcs_credentials(&creds);
    assert_eq!(b.ops().len(), 1);
    assert_eq!(b.error(0, 0), Err(Error { errno: EINVAL }));
}

#[test]
fn the_first_error_wins_until_the_reset() {
    let mut b = TokenBuilder::new();
    assert_eq!(b.error(12, 12), Err(Error { errno: 12 }));
    b.latch(5);
    b.latch(6);
    b.owner_index(1);
    assert_eq!(b.error(0, 0), Err(Error { errno: 5 }));
    assert_eq!(b.error(0, 12), Err(Error { errno: 5 }));
    assert_eq!(b.ops().len(), 1);
    assert!(b.ops_before_error().is_empty());
    assert_eq!(b.to_bytes(0, 0, 1, 0, Some(&[1])), Err(Error { errno: 5 }));
    assert_eq!(b.create(0, 0, 3, 0), Err(Error { errno: 5 }));
    b.reset();
    assert_eq!(b.error(0, 0), Ok(()));
    assert!(b.ops().is_empty());
    assert_eq!(b.to_bytes(0, 0, 1, 0, Some(&[1])), Ok(vec![1]));
    assert_eq!(b.to_bytes(0, 0, -1, 9, None), Err(Error { errno: 9 }));
    assert_eq!(b.to_bytes(0, 0, 1, 9, None), Err(Error { errno: EINVAL }));
    assert_eq!(b.to_bytes(7, 7, 1, 9, Some(&[1])), Err(Error { errno: 7 }));
    assert_eq!(b.create(0, 0, 3, 0), Ok(3));
    assert_eq!(b.create(0, 0, -1, 1), Err(Error { errno: 1 }));
}

#[test]
fn an_earlier_error_of_libpeios_surfaces() {
    let mut b = TokenBuilder::new();
    b.owner_index(1).owner_index(2).source("123456789", 0).owner_index(3);
    b.add_user_claim(&claim("a\0b"), CLAIMS);
    assert_eq!(b.ops().len(), 3);
    assert_eq!(b.ops_before_error().len(), 2);
    assert!(matches!(&b.ops_before_error()[1], TokenOp::OwnerIndex(2)));
    // Latched on the first two settings: it came first.
    assert_eq!(b.error(12, 12), Err(Error { errno: 12 }));
    assert_eq!(b.to_bytes(12, 12, 1, 0, Some(&[1])), Err(Error { errno: 12 }));
    assert_eq!(b.create(12, 12, 3, 0), Err(Error { errno: 12 }));
    // Latched on the third only: the overlong name came first.
    assert_eq!(b.error(0, 12), Err(Error { errno: EINVAL }));
    assert_eq!(b.to_bytes(0, 12, 1, 0, Some(&[1])), Err(Error { errno: EINVAL }));
    b.reset();
    b.owner_index(4);
    assert_eq!(b.ops_before_error().len(), 1);
}
