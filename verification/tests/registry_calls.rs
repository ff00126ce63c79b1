//! Registry vocabulary, requests and the enumeration cursor.
use peios::error::EINVAL;
use peios::registry::walk::Walk;
use peios::registry::{
    create_key, created_key, delete_value, len_u32, on_layer, open_key, opt_layer, window_is_null,
    CreateFlags, Disposition, KeyAccess, OpenFlags, SetValue, TxnState, TxnStateCodes, TxnStatus,
    ValueType,
};
use peios::Error;

const CODES: TxnStateCodes = TxnStateCodes {
    active_unbound: 10,
    active_bound: 11,
    committed: 12,
    aborted: 13,
    timed_out: 14,
    source_down: 15,
};

#[test]
fn transaction_states_follow_their_codes() {
    let states = [
        (10, TxnState::ActiveUnbound),
        (11, TxnState::ActiveBound),
        (12, TxnState::Committed),
        (13, TxnState::Aborted),
        (14, TxnState::TimedOut),
        (15, TxnState::SourceDown),
    ];
    for (code, state) in states {
        assert_eq!(TxnState::from_raw(code, CODES), Some(state));
    }
    assert_eq!(TxnState::from_raw(9, CODES), None);
    assert_eq!(TxnState::from_raw(16, CODES), None);
}

#[test]
fn a_status_reply_is_checked_and_decoded() {
    assert_eq!(
        TxnStatus::from_reply(0, 0, 13, 5, CODES),
        Ok(TxnStatus { state: TxnState::Aborted, terminal_errno: 5 })
    );
    assert_eq!(TxnStatus::from_reply(-1, 9, 13, 5, CODES), Err(Error { errno: 9 }));
    assert_eq!(TxnStatus::from_reply(0, 0, 99, 5, CODES), Err(Error { errno: EINVAL }));
}

#[test]
fn dispositions_default_to_created() {
    assert_eq!(Disposition::from_raw(2, 2), Disposition::OpenedExisting);
    assert_eq!(Disposition::from_raw(1, 2), Disposition::CreatedNew);
    assert_eq!(Disposition::from_raw(77, 2), Disposition::CreatedNew);
    assert_eq!(created_key(5, 0, 2, 2), Ok((5, Disposition::OpenedExisting)));
    assert_eq!(created_key(5, 0, 0, 2), Ok((5, Disposition::CreatedNew)));
    assert_eq!(created_key(-1, 13, 0, 2), Err(Error { errno: 13 }));
}

#[test]
fn value_types_are_raw_codes() {
    assert_eq!(ValueType::from_raw(11), ValueType(11));
}

#[test]
fn an_open_request_carries_its_arguments() {
    let q = open_key(None, "\\Machine\\Soft", KeyAccess(1), OpenFlags(2)).unwrap();
    assert_eq!(q.parent_fd, -1);
    assert_eq!(q.path, b"\\Machine\\Soft\0");
    assert_eq!((q.access, q.flags), (1, 2));
    assert_eq!(open_key(Some(8), "k", KeyAccess(0), OpenFlags(0)).unwrap().parent_fd, 8);
    assert_eq!(
        open_key(None, "a\0b", KeyAccess(0), OpenFlags(0)).err(),
        Some(Error { errno: EINVAL })
    );
}

#[test]
fn a_create_request_carries_its_arguments() {
    let q = create_key(Some(3), "k", KeyAccess(4), CreateFlags(5), Some("user"), Some(6)).unwrap();
    assert_eq!((q.parent_fd, q.access, q.flags, q.txn_fd), (3, 4, 5, 6));
    assert_eq!(q.path, b"k\0");
    assert_eq!(q.layer, Some(b"user\0".to_vec()));
    let q = create_key(None, "k", KeyAccess(0), CreateFlags(0), None, None).unwrap();
    assert_eq!((q.parent_fd, q.txn_fd), (-1, -1));
    assert_eq!(q.layer, None);
    for (path, layer) in [("a\0", None), ("a", Some("\0"))] {
        let q = create_key(None, path, KeyAccess(0), CreateFlags(0), layer, None);
        assert_eq!(q.err(), Some(Error { errno: EINVAL }));
    }
}

#[test]
fn a_value_write_defaults_and_refines() {
    let mut w = SetValue::new(4, b"name\0odd", ValueType(1), b"data");
    let q = w.request().unwrap();
    assert_eq!((q.key, q.name_len, q.ty, q.data_len), (4, 8, 1, 4));
    assert_eq!(q.name, b"name\0odd");
    assert_eq!(q.data, b"data");
    assert_eq!((q.layer, q.layer_len, q.txn_fd, q.expected_seq), (None, 0, -1, 0));
    w.layer("admin").expect_seq(42).in_txn(9);
    let q = w.request().unwrap();
    assert_eq!(q.layer, Some(b"admin\0".to_vec()));
    assert_eq!((q.layer_len, q.txn_fd, q.expected_seq), (5, 9, 42));
    assert_eq!(w.layer("a\0b").request().err(), Some(Error { errno: EINVAL }));
}

#[test]
fn a_length_counted_layer_may_hold_a_nul() {
    let arg = opt_layer(Some("a\0b"));
    assert_eq!((arg.name, arg.len), (Some(&b"a\0b"[..]), 3));
    let base = opt_layer(None);
    assert_eq!((base.name, base.len), (None, 0));
}

#[test]
fn layer_calls_carry_their_arguments() {
    let q = delete_value(b"v", Some("l"), Some(2));
    assert_eq!((q.name, q.name_len, q.layer.len, q.txn_fd), (&b"v"[..], 1, 1, 2));
    let q = on_layer(None, true, None);
    assert_eq!((q.layer.len, q.txn_fd, q.set), (0, -1, 1));
    assert_eq!(on_layer(Some("x"), false, Some(1)).set, 0);
}

#[test]
fn an_empty_window_is_null() {
    assert!(window_is_null(0));
    assert!(!window_is_null(1));
    assert_eq!(len_u32(b"abc"), 3);
}

/// Walk over `answers`, as an iterator would.
fn walk(answers: &[Result<Option<u8>, Error>]) -> (Vec<u32>, Vec<Result<u8, Error>>) {
    let mut w = Walk::new();
    let mut asked = Vec::new();
    let mut got = Vec::new();
    for answer in answers {
        match w.ask() {
            None => break,
            Some(i) => {
                asked.push(i);
                if let Some(item) = w.advance(*answer) {
                    got.push(item);
                }
            }
        }
    }
    (asked, got)
}

#[test]
fn a_walk_stops_at_the_end() {
    let (asked, got) = walk(&[Ok(Some(5)), Ok(Some(6)), Ok(None), Ok(Some(7))]);
    assert_eq!(asked, vec![0, 1, 2]);
    assert_eq!(got, vec![Ok(5), Ok(6)]);
}

#[test]
fn a_walk_hands_out_an_error_and_stops() {
    let e = Error { errno: 5 };
    let (asked, got) = walk(&[Ok(Some(5)), Err(e), Ok(Some(7))]);
    assert_eq!(asked, vec![0, 1]);
    assert_eq!(got, vec![Ok(5), Err(e)]);
}

#[test]
fn a_finished_walk_asks_no_more() {
    let mut w = Walk::new();
    assert_eq!(w.ask(), Some(0));
    assert_eq!(w.advance::<u8>(Ok(None)), None);
    assert_eq!(w.ask(), None);
    assert_eq!(w.ask(), None);
}
