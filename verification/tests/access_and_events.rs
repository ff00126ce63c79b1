//! Access checks, events, MessagePack, mitigations and the build step.
use peios::access::{decision, listed, AccessCheck, AccessDecision};
use peios::bindings::{directives, locate, origin, Family, Library, Missing, Origin};
use peios::error::{EACCES, EINVAL};
use peios::event::{
    emit, emit_batch, emitted, event_at, next_event, waited, zeroed_event, BatchError, EmitEntry, Event,
    OriginClass,
};
use peios::msgpack::{read_str, Type, TypeCodes, WriteOp, Writer};
use peios::process::{Mitigations, Process};
use peios::security::{AccessMask, GenericMapping, SecurityDescriptor, SidRef};
use peios::Error;

#[test]
fn a_denial_is_a_decision() {
    let granted = AccessMask(0x1f);
    assert_eq!(decision(0, 0, 0x1f), Ok(AccessDecision { allowed: true, granted }));
    assert_eq!(decision(-1, EACCES, 0x1f), Ok(AccessDecision { allowed: false, granted }));
    assert_eq!(decision(-1, EINVAL, 0x1f), Err(Error { errno: EINVAL }));
}

#[test]
fn a_list_check_has_no_denial_of_its_own() {
    assert_eq!(listed(0, 0, vec![1, 2]), Ok(vec![1, 2]));
    assert_eq!(listed(-1, EACCES, vec![1, 2]), Err(Error { errno: EACCES }));
}

#[test]
fn a_check_request_defaults_and_refines() {
    let sd = SecurityDescriptor::from_bytes(vec![1, 2, 3]);
    let mapping = GenericMapping::new(1, 2, 4, 7);
    let mut c = AccessCheck::new(&sd, AccessMask(9), mapping);
    let q = c.build_request(0);
    assert_eq!((q.token_fd, q.desired, q.privilege_intent, q.object_tree_count), (-1, 9, 0, 0));
    assert_eq!(q.sd, &[1, 2, 3]);
    assert_eq!(q.mapping, mapping);
    assert_eq!(q.self_sid, None);
    assert_eq!(
        (q.local_claims_len, q.pip_type, q.pip_trust, q.audit_context_len),
        (0, 0, 0, 0)
    );
    let bytes = [1u8, 0, 5];
    c.token(6).self_sid(SidRef::from_bytes_unchecked(&bytes)).privilege_intent(3);
    let q = c.build_request(5);
    assert_eq!((q.token_fd, q.privilege_intent, q.object_tree_count), (6, 3, 5));
    assert_eq!(q.self_sid, Some(&bytes[..]));
}

#[test]
fn origin_classes_keep_their_discriminants() {
    assert_eq!(OriginClass::from_raw(0), OriginClass::Userspace);
    assert_eq!(OriginClass::from_raw(1), OriginClass::Kmes);
    assert_eq!(OriginClass::from_raw(2), OriginClass::Kacs);
    assert_eq!(OriginClass::from_raw(3), OriginClass::Lcs);
    for v in 4..=255u8 {
        assert_eq!(OriginClass::from_raw(v), OriginClass::Other(v));
    }
}

#[test]
fn emission_is_length_counted() {
    let q = emit("my.app.login", &[0xc0]);
    assert_eq!(q.event_type, b"my.app.login");
    assert_eq!((q.event_type_len, q.payload_len), (12, 1));
    assert_eq!(q.payload, &[0xc0]);
    let entries = [
        EmitEntry { event_type: "a", payload: &[1] },
        EmitEntry { event_type: "bé", payload: &[] },
    ];
    let qs = emit_batch(&entries);
    assert_eq!(qs.len(), 2);
    assert_eq!((qs[1].event_type_len, qs[1].payload_len), (3, 0));
    assert!(emit_batch(&[]).is_empty());
    assert_eq!(emitted(0, 0, 2), Ok(2));
    assert_eq!(emitted(-1, 11, 1), Err(BatchError { error: Error { errno: 11 }, emitted: 1 }));
    assert_eq!(emitted(-1, 11, 0), Err(BatchError { error: Error { errno: 11 }, emitted: 0 }));
}

#[test]
fn an_overlong_kind_is_counted_in_16_bits() {
    let kind = "k".repeat(0x1_0003);
    assert_eq!(emit(&kind, &[]).event_type_len, 3);
}

#[test]
fn a_header_starts_zeroed() {
    let h = zeroed_event();
    assert_eq!((h.timestamp, h.sequence, h.cpu_id, h.origin_class), (0, 0, 0, 0));
    assert_eq!(h.effective_token_guid, [0; 16]);
    assert_eq!(h.true_token_guid, [0; 16]);
    assert_eq!(h.process_guid, [0; 16]);
}

#[test]
fn an_event_is_read_whole() {
    let mut h = zeroed_event();
    h.timestamp = 1;
    h.sequence = 2;
    h.cpu_id = 3;
    h.origin_class = 2;
    h.effective_token_guid = [4; 16];
    h.true_token_guid = [5; 16];
    h.process_guid = [6; 16];
    let e = Event::from_raw(&h, b"kind", b"pay").unwrap();
    assert_eq!((e.timestamp, e.sequence, e.cpu_id), (1, 2, 3));
    assert_eq!(e.origin_class, OriginClass::Kacs);
    assert_eq!(e.effective_token_guid, [4; 16]);
    assert_eq!(e.true_token_guid, [5; 16]);
    assert_eq!(e.process_guid, [6; 16]);
    assert_eq!((e.event_type, e.payload), ("kind", &b"pay"[..]));
    assert_eq!(Event::from_raw(&h, &[0xff], b"").err(), Some(Error { errno: EINVAL }));
}

#[test]
fn event_replies_are_told_apart() {
    let h = zeroed_event();
    assert!(next_event(1, 0, &h, b"k", b"").unwrap().is_some());
    assert!(next_event(0, 0, &h, b"", b"").unwrap().is_none());
    assert_eq!(next_event(-1, 9, &h, b"", b"").err(), Some(Error { errno: 9 }));
    assert_eq!(next_event(1, 9, &h, &[0x80], b"").err(), Some(Error { errno: EINVAL }));
    assert_eq!(waited(1, 0), Ok(true));
    assert_eq!(waited(0, 0), Ok(false));
    assert_eq!(waited(-1, 4), Err(Error { errno: 4 }));
    assert_eq!(event_at(64, 0, &h, b"k", b"").unwrap().1, 64);
    assert_eq!(event_at(-1, 22, &h, b"k", b"").err(), Some(Error { errno: 22 }));
    assert_eq!(event_at(64, 0, &h, &[0xff], b"").err(), Some(Error { errno: EINVAL }));
}

const TYPES: TypeCodes = TypeCodes {
    nil: 0,
    boolean: 1,
    int_: 2,
    float: 3,
    str_: 4,
    bin: 5,
    array: 6,
    map_: 7,
    ext: 8,
};

#[test]
fn kinds_follow_their_codes() {
    let all = [
        Type::Nil,
        Type::Bool,
        Type::Int,
        Type::Float,
        Type::Str,
        Type::Bin,
        Type::Array,
        Type::MapHeader,
        Type::Ext,
    ];
    for (i, ty) in all.iter().enumerate() {
        assert_eq!(Type::from_raw(i as u32, TYPES), Some(*ty));
        assert_eq!(Type::from_peek(i as i32, TYPES), Some(*ty));
    }
    assert_eq!(Type::from_raw(9, TYPES), None);
    assert_eq!(Type::from_peek(-1, TYPES), None);
}

#[test]
fn a_writer_logs_in_order() {
    let mut w = Writer::new();
    w.write_array(3).write_uint(42).write_str("hello").write_bool(true);
    let ops = w.ops();
    assert_eq!(ops.len(), 4);
    assert!(matches!(&ops[0], WriteOp::Array(3)));
    assert!(matches!(&ops[1], WriteOp::Uint(42)));
    assert!(matches!(&ops[2], WriteOp::Str(s) if s == b"hello"));
    assert!(matches!(&ops[3], WriteOp::Bool(true)));
    w.reset().write_nil().write_int(-1).write_float_bits(1.5f64.to_bits());
    w.write_bin(&[1]).write_map(2).write_ext(-3, &[4]).write_raw(&[0xc0]);
    let ops = w.ops();
    assert_eq!(ops.len(), 7);
    assert!(matches!(&ops[0], WriteOp::Nil));
    assert!(matches!(&ops[1], WriteOp::Int(-1)));
    assert!(matches!(&ops[2], WriteOp::Float(b) if f64::from_bits(*b) == 1.5));
    assert!(matches!(&ops[3], WriteOp::Bin(b) if b == &[1]));
    assert!(matches!(&ops[4], WriteOp::MapHeader(2)));
    assert!(matches!(&ops[5], WriteOp::Ext(-3, b) if b == &[4]));
    assert!(matches!(&ops[6], WriteOp::Raw(b) if b == &[0xc0]));
    assert!(Writer::default().ops().is_empty());
}

#[test]
fn writer_and_reader_replies_are_checked() {
    let w = Writer::new();
    assert_eq!(w.error(0), Ok(()));
    assert_eq!(w.error(22), Err(Error { errno: 22 }));
    assert_eq!(w.to_bytes(1, 0, Some(&[0xc0])), Ok(vec![0xc0]));
    assert_eq!(w.to_bytes(-1, 22, None), Err(Error { errno: 22 }));
    assert_eq!(w.to_bytes(0, 0, None), Err(Error { errno: EINVAL }));
    assert_eq!(read_str(2, 0, Some(b"hi")), Ok("hi"));
    assert_eq!(read_str(1, 0, Some(&[0xff])), Err(Error { errno: EINVAL }));
    assert_eq!(read_str(-1, 5, None), Err(Error { errno: 5 }));
    assert_eq!(read_str(0, 5, None), Err(Error { errno: EINVAL }));
}

#[test]
fn mitigations_target_the_caller_by_default() {
    let q = Process::set_mitigations(None, Mitigations(5));
    assert_eq!((q.pidfd, q.mitigations), (-1, 5));
    assert_eq!(Process::set_mitigations(Some(3), Mitigations(0)).pidfd, 3);
}

fn some(s: &str) -> Option<String> {
    Some(s.to_string())
}

#[test]
fn an_explicit_directory_precedes_pkg_config() {
    match locate(some("/lib"), some("/inc"), some("/uapi")) {
        Ok(Library::Directory(dir, headers)) => {
            assert_eq!(dir, "/lib");
            assert_eq!(headers, vec!["/inc", "/uapi"]);
        }
        other => panic!("located {other:?}"),
    }
    assert_eq!(locate(some("/lib"), None, some("/uapi")).err(), Some(Missing::Headers));
    assert_eq!(locate(some("/lib"), some("/inc"), None).err(), Some(Missing::KernelHeaders));
    assert!(matches!(locate(None, some("/inc"), None), Ok(Library::PkgConfig)));
}

#[test]
fn only_a_dynamic_build_gets_an_rpath() {
    let lib = Library::Directory("/lib".to_string(), Vec::new());
    assert_eq!(
        directives(&lib, false),
        vec![
            "cargo:rustc-link-search=native=/lib",
            "cargo:rustc-link-lib=dylib=peios",
            "cargo:rustc-link-arg=-Wl,-rpath,/lib",
        ]
    );
    assert_eq!(
        directives(&lib, true),
        vec!["cargo:rustc-link-search=native=/lib", "cargo:rustc-link-lib=static=peios"]
    );
    assert!(directives(&Library::PkgConfig, false).is_empty());
}

#[test]
fn the_mirror_supplies_the_kernels_names_only() {
    assert_eq!(origin(Family::Own, true), Origin::Generated);
    assert_eq!(origin(Family::WireTypes, true), Origin::Mirror);
    assert_eq!(origin(Family::WireConstants, true), Origin::Mirror);
    for family in [Family::Own, Family::WireTypes, Family::WireConstants] {
        assert_eq!(origin(family, false), Origin::Generated);
    }
}
