//! The registry reads that take several calls.
use std::cell::Cell;

use peios::error::{EINVAL, ENOENT, ERANGE};
use peios::exchange::{converse, Exchange, Step};
use peios::registry::reads::{
    BatchRead, BatchReply, EnumValueRead, EnumValueReply, InfoRead, InfoReply, KeyFacts,
    SecurityRead, SecurityReply, SubkeyRead, SubkeyReply, ValueRead, ValueReply,
};
use peios::registry::{EnumValue, KeyInfo, RegValue, Subkey, ValueType};
use peios::Error;

/// A window of `cap` bytes after a call that puts `content` into it.
fn window(cap: u32, content: &[u8]) -> Vec<u8> {
    let mut w = vec![0u8; cap as usize];
    if content.len() <= w.len() {
        w[..content.len()].copy_from_slice(content);
    }
    w
}

fn value_call(s: ValueRead, data: &[u8], layer: &[u8]) -> ValueReply {
    let fits = s.data_cap as usize >= data.len() && s.layer_cap as usize >= layer.len();
    ValueReply {
        ret: if fits { 0 } else { -1 },
        errno: if fits { 0 } else { ERANGE },
        sequence: 7,
        ty: 3,
        data_len: data.len() as u32,
        layer_len: layer.len() as u32,
        data: window(s.data_cap, data),
        layer: window(s.layer_cap, layer),
    }
}

#[test]
fn a_value_is_sized_and_read() {
    let calls = Cell::new(0);
    let out = converse(ValueRead::new(), &|s| {
        calls.set(calls.get() + 1);
        value_call(s, b"payload", b"base")
    });
    assert_eq!(
        out,
        Ok(RegValue {
            sequence: 7,
            ty: ValueType(3),
            data: b"payload".to_vec(),
            layer: b"base".to_vec(),
        })
    );
    assert_eq!(calls.get(), 2);
}

#[test]
fn an_empty_value_needs_one_call() {
    let calls = Cell::new(0);
    let out = converse(ValueRead::new(), &|s| {
        calls.set(calls.get() + 1);
        value_call(s, b"", b"")
    });
    assert_eq!(out.unwrap().data, Vec::<u8>::new());
    assert_eq!(calls.get(), 1);
}

#[test]
fn a_missing_value_is_an_error() {
    let out = converse(ValueRead::new(), &|s| ValueReply {
        ret: -1,
        errno: ENOENT,
        ..value_call(s, b"", b"")
    });
    assert_eq!(out, Err(Error { errno: ENOENT }));
}

#[test]
fn a_value_that_outgrows_four_tries_is_given_up() {
    let calls = Cell::new(0usize);
    let out = converse(ValueRead::new(), &|s| {
        let n = calls.get() + 1;
        calls.set(n);
        value_call(s, &vec![1; 10 * n], b"l")
    });
    assert_eq!(out, Err(Error { errno: ERANGE }));
    assert_eq!(calls.get(), 4);
}

#[test]
fn windows_follow_the_reported_lengths() {
    let s = ValueRead::new();
    assert_eq!((s.data_cap, s.layer_cap), (0, 0));
    match s.reply(value_call(s, b"12345", b"abc")) {
        Step::Call(next) => {
            assert_eq!(next, ValueRead { data_cap: 5, layer_cap: 3, tries: 1 })
        }
        Step::Done(r) => panic!("ended with {r:?}"),
    }
}

fn enum_call(s: EnumValueRead, entry: Option<(&[u8], u32, &[u8])>) -> EnumValueReply {
    match entry {
        None => EnumValueReply {
            ret: -1,
            errno: ENOENT,
            ty: 0,
            name_len: 0,
            data_len: 0,
            name: window(s.name_cap, b""),
            data: window(s.data_cap, b""),
        },
        Some((name, ty, data)) => {
            let fits = s.name_cap as usize >= name.len() && s.data_cap as usize >= data.len();
            EnumValueReply {
                ret: if fits { 0 } else { -1 },
                errno: if fits { 0 } else { ERANGE },
                ty,
                name_len: name.len() as u32,
                data_len: data.len() as u32,
                name: window(s.name_cap, name),
                data: window(s.data_cap, data),
            }
        }
    }
}

#[test]
fn an_enumerated_value_is_read() {
    let out = converse(EnumValueRead::new(), &|s| enum_call(s, Some((b"n", 4, b"dd"))));
    assert_eq!(
        out,
        Ok(Some(EnumValue { name: b"n".to_vec(), ty: ValueType(4), data: b"dd".to_vec() }))
    );
}

#[test]
fn past_the_last_value_there_is_none() {
    assert_eq!(converse(EnumValueRead::new(), &|s| enum_call(s, None)), Ok(None));
}

#[test]
fn another_enumeration_failure_is_an_error() {
    let out = converse(EnumValueRead::new(), &|s| EnumValueReply {
        errno: 13,
        ..enum_call(s, None)
    });
    assert_eq!(out, Err(Error { errno: 13 }));
}

#[test]
fn an_entry_that_keeps_growing_is_given_up() {
    let calls = Cell::new(0usize);
    let out = converse(EnumValueRead::new(), &|s| {
        let n = calls.get() + 1;
        calls.set(n);
        enum_call(s, Some((&vec![b'x'; n], 1, b"")))
    });
    assert_eq!(out, Err(Error { errno: ERANGE }));
    assert_eq!(calls.get(), 4);
}

fn subkey_call(s: SubkeyRead, name: Option<&[u8]>) -> SubkeyReply {
    let errno = match name {
        None => ENOENT,
        Some(n) if s.name_cap as usize >= n.len() => 0,
        Some(_) => ERANGE,
    };
    let n = name.unwrap_or(b"");
    SubkeyReply {
        ret: if errno == 0 { 0 } else { -1 },
        errno,
        name_len: n.len() as u32,
        last_write_time: 99,
        subkey_count: 2,
        value_count: 3,
        name: window(s.name_cap, n),
    }
}

#[test]
fn a_subkey_is_read_and_its_absence_is_none() {
    assert_eq!(
        converse(SubkeyRead::new(), &|s| subkey_call(s, Some(b"child"))),
        Ok(Some(Subkey {
            name: b"child".to_vec(),
            last_write_time: 99,
            subkey_count: 2,
            value_count: 3,
        }))
    );
    assert_eq!(converse(SubkeyRead::new(), &|s| subkey_call(s, None)), Ok(None));
}

#[test]
fn a_subkey_that_keeps_growing_is_given_up() {
    let calls = Cell::new(0usize);
    let out = converse(SubkeyRead::new(), &|s| {
        let n = calls.get() + 1;
        calls.set(n);
        subkey_call(s, Some(&vec![b'k'; n]))
    });
    assert_eq!(out, Err(Error { errno: ERANGE }));
    assert_eq!(calls.get(), 4);
}

fn info_call(s: InfoRead, name: &[u8], volatile_key: u32, symlink: u32) -> InfoReply {
    let fits = s.name_cap as usize >= name.len();
    InfoReply {
        ret: if fits { 0 } else { -1 },
        errno: if fits { 0 } else { ERANGE },
        name_len: name.len() as u32,
        facts: KeyFacts {
            last_write_time: 1,
            hive_generation: 2,
            subkey_count: 3,
            value_count: 4,
            max_subkey_name_len: 5,
            max_value_name_len: 6,
            max_value_data_size: 7,
            sd_size: 8,
            volatile_key,
            symlink,
        },
        name: window(s.name_cap, name),
    }
}

#[test]
fn metadata_is_read_with_its_flags() {
    let want = KeyInfo {
        name: b"Software".to_vec(),
        last_write_time: 1,
        hive_generation: 2,
        subkey_count: 3,
        value_count: 4,
        max_subkey_name_len: 5,
        max_value_name_len: 6,
        max_value_data_size: 7,
        sd_size: 8,
        volatile: true,
        symlink: false,
    };
    assert_eq!(converse(InfoRead::new(), &|s| info_call(s, b"Software", 1, 0)), Ok(want));
    let other = converse(InfoRead::new(), &|s| info_call(s, b"S", 0, 2)).unwrap();
    assert!(!other.volatile);
    assert!(other.symlink);
}

#[test]
fn metadata_without_the_right_is_an_error() {
    let out = converse(InfoRead::new(), &|s| InfoReply {
        ret: -1,
        errno: 13,
        ..info_call(s, b"", 0, 0)
    });
    assert_eq!(out, Err(Error { errno: 13 }));
}

#[test]
fn a_name_that_keeps_growing_is_given_up() {
    let calls = Cell::new(0usize);
    let out = converse(InfoRead::new(), &|s| {
        let n = calls.get() + 1;
        calls.set(n);
        info_call(s, &vec![b'n'; n], 0, 0)
    });
    assert_eq!(out, Err(Error { errno: ERANGE }));
    assert_eq!(calls.get(), 4);
}

fn sd_call(s: SecurityRead, sd: &[u8], sizing_errno: i32) -> SecurityReply {
    let errno = if s.sizing {
        sizing_errno
    } else if (s.cap as usize) < sd.len() {
        ERANGE
    } else {
        0
    };
    SecurityReply {
        ret: if errno == 0 { 0 } else { -1 },
        errno,
        len: sd.len() as u32,
        buf: window(s.cap, sd),
    }
}

#[test]
fn a_descriptor_is_sized_and_read_either_way() {
    for sizing_errno in [0, ERANGE] {
        let sd = converse(SecurityRead::new(), &|s| sd_call(s, b"sd-bytes", sizing_errno)).unwrap();
        assert_eq!(sd.as_bytes(), b"sd-bytes");
    }
    assert_eq!(
        converse(SecurityRead::new(), &|s| sd_call(s, b"sd-bytes", 13)).err(),
        Some(Error { errno: 13 })
    );
}

#[test]
fn a_descriptor_that_keeps_growing_takes_five_calls() {
    let calls = Cell::new(0usize);
    let out = converse(SecurityRead::new(), &|s| {
        let n = calls.get() + 1;
        calls.set(n);
        sd_call(s, &vec![0; n], ERANGE)
    });
    assert_eq!(out.err(), Some(Error { errno: ERANGE }));
    assert_eq!(calls.get(), 5);
}

#[test]
fn a_descriptor_fill_that_fails_is_the_error() {
    let out = converse(SecurityRead::new(), &|s| SecurityReply {
        ret: if s.sizing { 0 } else { -1 },
        errno: 5,
        len: 4,
        buf: vec![0; s.cap as usize],
    });
    assert_eq!(out.err(), Some(Error { errno: 5 }));
}

const PACKED: [u8; 16] = [1, 0, 0, 0, b'a', 4, 0, 0, 0, 2, 0, 0, 0, 7, 8, 0xff];

fn batch_call(s: BatchRead, len: u32, count: u32) -> BatchReply {
    BatchReply { ret: 0, errno: 0, len, count, buf: window(s.cap, &PACKED) }
}

#[test]
fn a_batch_is_sized_read_and_parsed() {
    let out = converse(BatchRead::new(), &|s| {
        let mut r = batch_call(s, if s.sizing { 16 } else { 15 }, 1);
        if s.sizing {
            r.ret = -1;
            r.errno = ERANGE;
        }
        r
    })
    .unwrap();
    assert_eq!(out.len(), 1);
    assert_eq!(out[0].name, b"a");
    assert_eq!(out[0].ty, ValueType(4));
    assert_eq!(out[0].data, vec![7, 8]);
}

#[test]
fn a_batch_with_too_many_records_claimed_is_einval() {
    let out = converse(BatchRead::new(), &|s| batch_call(s, 16, 2));
    assert_eq!(out.err(), Some(Error { errno: EINVAL }));
}

#[test]
fn a_batch_fill_is_not_tried_again() {
    let calls = Cell::new(0);
    let out = converse(BatchRead::new(), &|s| {
        calls.set(calls.get() + 1);
        BatchReply { ret: -1, errno: ERANGE, ..batch_call(s, 16, 1) }
    });
    assert_eq!(out.err(), Some(Error { errno: ERANGE }));
    assert_eq!(calls.get(), 2);
    let out = converse(BatchRead::new(), &|s| BatchReply {
        ret: -1,
        errno: 13,
        ..batch_call(s, 0, 0)
    });
    assert_eq!(out.err(), Some(Error { errno: 13 }));
}
