//! The size probe against objects that stay, grow and fail.
use std::cell::Cell;

use peios::error::ERANGE;
use peios::exchange::{converse, Exchange, Step};
use peios::probe::{probe, Probe, ProbeReply};
use peios::Error;

/// One call on an object that holds `content`.
fn call(p: Probe, content: &[u8]) -> ProbeReply {
    if p.sizing {
        return ProbeReply { ret: content.len() as isize, errno: 0, buf: Vec::new() };
    }
    let mut buf = vec![0u8; p.cap];
    if p.cap < content.len() {
        return ProbeReply { ret: -1, errno: ERANGE, buf };
    }
    buf[..content.len()].copy_from_slice(content);
    ProbeReply { ret: content.len() as isize, errno: 0, buf }
}

#[test]
fn a_settled_object_takes_two_calls() {
    let calls = Cell::new(0);
    let out = probe(&|p| {
        calls.set(calls.get() + 1);
        call(p, b"descriptor")
    });
    assert_eq!(out, Ok(b"descriptor".to_vec()));
    assert_eq!(calls.get(), 2);
}

#[test]
fn an_empty_object_is_an_empty_buffer() {
    assert_eq!(probe(&|p| call(p, b"")), Ok(Vec::new()));
}

#[test]
fn an_object_that_grows_once_is_sized_again() {
    let calls = Cell::new(0);
    let out = probe(&|p| {
        let n = calls.get();
        calls.set(n + 1);
        call(p, if n == 0 { b"ab" } else { b"abcd" })
    });
    assert_eq!(out, Ok(b"abcd".to_vec()));
    assert_eq!(calls.get(), 4);
}

#[test]
fn an_object_that_shrinks_is_cut() {
    let calls = Cell::new(0);
    let out = probe(&|p| {
        let n = calls.get();
        calls.set(n + 1);
        call(p, if n == 0 { b"abcd" } else { b"ab" })
    });
    assert_eq!(out, Ok(b"ab".to_vec()));
}

#[test]
fn an_object_that_keeps_growing_is_given_up_after_nine_calls() {
    let calls = Cell::new(0usize);
    let out = probe(&|p| {
        let n = calls.get();
        calls.set(n + 1);
        call(p, &vec![7u8; 10 * (n + 1)])
    });
    assert_eq!(out, Err(Error { errno: ERANGE }));
    assert_eq!(calls.get(), 9);
}

#[test]
fn a_failed_sizing_call_is_the_error() {
    let out = probe(&|_| ProbeReply { ret: -1, errno: 13, buf: Vec::new() });
    assert_eq!(out, Err(Error { errno: 13 }));
}

#[test]
fn a_failed_fill_is_the_error() {
    let out = probe(&|p| {
        if p.sizing {
            ProbeReply { ret: 8, errno: 0, buf: Vec::new() }
        } else {
            ProbeReply { ret: -1, errno: 5, buf: vec![0; p.cap] }
        }
    });
    assert_eq!(out, Err(Error { errno: 5 }));
}

#[test]
fn a_failed_second_sizing_call_is_the_error() {
    let calls = Cell::new(0);
    let out = probe(&|p: Probe| {
        let n = calls.get();
        calls.set(n + 1);
        match n {
            0 => ProbeReply { ret: 1, errno: 0, buf: Vec::new() },
            1 => ProbeReply { ret: -1, errno: ERANGE, buf: vec![0; p.cap] },
            _ => ProbeReply { ret: -1, errno: 2, buf: Vec::new() },
        }
    });
    assert_eq!(out, Err(Error { errno: 2 }));
    assert_eq!(calls.get(), 3);
}

#[test]
fn the_capacity_of_a_fill_is_the_reported_size() {
    let first = Probe::new();
    assert!(first.sizing);
    assert_eq!(first.cap, 0);
    match first.reply(ProbeReply { ret: 48, errno: 0, buf: Vec::new() }) {
        Step::Call(p) => assert_eq!(p, Probe { sizing: false, cap: 48, fills: 0 }),
        Step::Done(r) => panic!("ended with {r:?}"),
    }
}

#[test]
fn conversing_is_what_probing_does() {
    assert_eq!(converse(Probe::new(), &|p| call(p, b"xyz")), Ok(b"xyz".to_vec()));
}
