//! Opens, descriptors by path, and the mount policy.
use std::cell::Cell;

use peios::error::{EINVAL, ERANGE};
use peios::exchange::{converse, Exchange, Step};
use peios::file::{
    opened, path_sd, CreateOptions, Disposition, DispositionCodes, FileAccess, MountFacts,
    MountPolicy, MountPolicyKind, MountRead, MountReply, OpenFlags, OpenOptions, OpenStatus,
    OpenStatusCodes, SecInfo, AT_SYMLINK_NOFOLLOW,
};
use peios::security::SecurityDescriptor;
use peios::Error;

const DISPOSITIONS: DispositionCodes = DispositionCodes {
    supersede: 20,
    open: 21,
    create: 22,
    open_if: 23,
    overwrite: 24,
    overwrite_if: 25,
};

const STATUSES: OpenStatusCodes =
    OpenStatusCodes { opened: 31, created: 32, overwritten: 33, superseded: 30 };

#[test]
fn dispositions_have_their_codes() {
    let all = [
        (Disposition::Supersede, 20),
        (Disposition::Open, 21),
        (Disposition::Create, 22),
        (Disposition::OpenIf, 23),
        (Disposition::Overwrite, 24),
        (Disposition::OverwriteIf, 25),
    ];
    for (d, code) in all {
        assert_eq!(d.to_raw(DISPOSITIONS), code);
    }
    assert_eq!(Disposition::default(), Disposition::Open);
}

#[test]
fn statuses_follow_their_codes() {
    assert_eq!(OpenStatus::from_raw(31, STATUSES), Some(OpenStatus::Opened));
    assert_eq!(OpenStatus::from_raw(32, STATUSES), Some(OpenStatus::Created));
    assert_eq!(OpenStatus::from_raw(33, STATUSES), Some(OpenStatus::Overwritten));
    assert_eq!(OpenStatus::from_raw(30, STATUSES), Some(OpenStatus::Superseded));
    assert_eq!(OpenStatus::from_raw(0, STATUSES), None);
}

#[test]
fn a_fresh_open_asks_for_nothing() {
    let q = OpenOptions::new().create(None, b"file", DISPOSITIONS).unwrap();
    assert_eq!(q.dirfd, -1);
    assert_eq!(q.path, b"file\0");
    assert_eq!((q.desired_access, q.disposition, q.options, q.flags), (0, 21, 0, 0));
    assert_eq!((q.sd, q.sd_len), (None, 0));
}

#[test]
fn an_open_carries_what_was_set() {
    let sd = SecurityDescriptor::from_bytes(vec![1, 2, 3]);
    let mut o = OpenOptions::new();
    o.desired_access(FileAccess(7))
        .disposition(Disposition::OverwriteIf)
        .options(CreateOptions(8))
        .flags(OpenFlags(AT_SYMLINK_NOFOLLOW))
        .creator_sd(&sd);
    let q = o.create(Some(5), b"dir/x", DISPOSITIONS).unwrap();
    assert_eq!(q.dirfd, 5);
    assert_eq!((q.desired_access, q.disposition, q.options, q.flags), (7, 25, 8, 0x100));
    assert_eq!((q.sd, q.sd_len), (Some(&[1u8, 2, 3][..]), 3));
}

#[test]
fn a_path_with_a_nul_is_refused() {
    let e = Some(Error { errno: EINVAL });
    assert_eq!(OpenOptions::new().create(None, b"a\0b", DISPOSITIONS).err(), e);
    assert_eq!(path_sd(None, b"\0", SecInfo(1), 0).err(), e);
}

#[test]
fn an_open_reply_is_checked_and_decoded() {
    assert_eq!(opened(4, 0, 32, STATUSES), Ok((4, OpenStatus::Created)));
    assert_eq!(opened(-1, 2, 32, STATUSES), Err(Error { errno: 2 }));
    assert_eq!(opened(4, 0, 99, STATUSES), Err(Error { errno: EINVAL }));
}

#[test]
fn a_descriptor_request_carries_its_arguments() {
    let q = path_sd(Some(3), b"p", SecInfo(6), 0x100).unwrap();
    assert_eq!((q.dirfd, q.secinfo, q.at_flags), (3, 6, 0x100));
    assert_eq!(q.path, b"p\0");
    assert_eq!(path_sd(None, b"p", SecInfo(0), -1).unwrap().at_flags, u32::MAX);
}

fn facts(generation: u32) -> MountFacts {
    MountFacts { policy: 1, flags: 2, generation }
}

fn reply(s: MountRead, generation: u32, template: &[u8]) -> MountReply {
    let mut buf = vec![0u8; s.cap];
    let fits = s.sizing || s.cap >= template.len();
    if !s.sizing && fits {
        buf[..template.len()].copy_from_slice(template);
    }
    MountReply {
        ret: if fits { 0 } else { -1 },
        errno: if fits { 0 } else { ERANGE },
        facts: facts(generation),
        template: !s.sizing && fits && !template.is_empty(),
        template_len: template.len(),
        buf,
    }
}

fn policy(generation: u32, template: Option<&[u8]>) -> MountPolicy {
    MountPolicy {
        kind: MountPolicyKind(1),
        flags: 2,
        generation,
        template_sd: template.map(|t| SecurityDescriptor::from_bytes(t.to_vec())),
    }
}

#[test]
fn a_policy_without_a_template_takes_one_call() {
    let calls = Cell::new(0);
    let out = converse(MountRead::new(), &|s| {
        calls.set(calls.get() + 1);
        reply(s, 5, b"")
    });
    assert_eq!(out, Ok(policy(5, None)));
    assert_eq!(calls.get(), 1);
}

#[test]
fn a_policy_with_a_template_is_read_whole() {
    assert_eq!(converse(MountRead::new(), &|s| reply(s, 5, b"tpl")), Ok(policy(5, Some(b"tpl"))));
}

#[test]
fn a_template_that_grows_is_asked_for_again_and_its_policy_wins() {
    let calls = Cell::new(0u32);
    let out = converse(MountRead::new(), &|s| {
        let n = calls.get();
        calls.set(n + 1);
        reply(s, n, if n == 0 { b"ab" } else { b"abcd" })
    });
    assert_eq!(out, Ok(policy(2, Some(b"abcd"))));
    assert_eq!(calls.get(), 3);
}

#[test]
fn a_template_that_goes_leaves_the_first_policy() {
    let out = converse(MountRead::new(), &|s| {
        if s.sizing {
            reply(s, 1, b"ab")
        } else {
            reply(s, 2, b"")
        }
    });
    assert_eq!(out, Ok(policy(1, None)));
}

#[test]
fn a_template_that_keeps_growing_is_given_up() {
    let calls = Cell::new(0u32);
    let out = converse(MountRead::new(), &|s| {
        let n = calls.get();
        calls.set(n + 1);
        reply(s, n, &vec![9; (n as usize + 1) * 4])
    });
    assert_eq!(out, Err(Error { errno: ERANGE }));
    assert_eq!(calls.get(), 5);
}

#[test]
fn a_buffer_grows_even_when_no_size_is_reported() {
    let s = MountRead { sizing: false, first: facts(1), cap: 16, fills: 0 };
    let short = MountReply {
        ret: -1,
        errno: ERANGE,
        facts: facts(2),
        template: false,
        template_len: 0,
        buf: vec![0; 16],
    };
    match s.reply(short) {
        Step::Call(next) => assert_eq!((next.cap, next.fills, next.first), (17, 1, facts(1))),
        Step::Done(r) => panic!("ended with {r:?}"),
    }
}

#[test]
fn mount_policy_failures_are_errors() {
    let out = converse(MountRead::new(), &|s| MountReply { ret: -1, errno: 1, ..reply(s, 0, b"") });
    assert_eq!(out, Err(Error { errno: 1 }));
    let out = converse(MountRead::new(), &|s| {
        let mut r = reply(s, 0, b"ab");
        if !s.sizing {
            r.ret = -1;
            r.errno = 5;
        }
        r
    });
    assert_eq!(out, Err(Error { errno: 5 }));
}

#[test]
fn a_policy_request_carries_the_policy() {
    let p = policy(3, Some(b"tt"));
    let q = p.request();
    assert_eq!((q.policy, q.flags, q.generation, q.template_sd_len), (1, 2, 3, 2));
    assert_eq!(q.template_sd, Some(&b"tt"[..]));
    let p = policy(3, None);
    let q = p.request();
    assert_eq!((q.template_sd, q.template_sd_len), (None, 0));
}
