//! The error type, return-value checks, C strings and text.
use peios::error::{EACCES, EINVAL, EIO, ENOENT, ERANGE};
use peios::util::{
    borrowed, c_string, check, check_fd, check_fd_reply, check_len, check_len_reply, check_reply,
    has_nul, opt_fd, owned_bytes, text, truncate, NO_FD,
};
use peios::Error;

#[test]
fn errno_round_trips() {
    for errno in [0, 1, ENOENT, EACCES, EINVAL, ERANGE, i32::MAX, -1] {
        let e = Error::from_raw_os_error(errno);
        assert_eq!(e.raw_os_error(), Some(errno));
        assert_eq!(e, Error { errno });
    }
    assert_ne!(Error { errno: 1 }, Error { errno: 2 });
}

#[test]
fn errno_values_are_linux() {
    assert_eq!((ENOENT, EIO, EACCES, EINVAL, ERANGE), (2, 5, 13, 22, 34));
}

#[test]
fn an_error_always_has_a_code() {
    assert_eq!(Error::from_os_code(Some(ENOENT)), Error { errno: ENOENT });
    assert_eq!(Error::from_os_code(None), Error { errno: EIO });
}

#[test]
fn last_os_error_is_the_threads() {
    let mine = Error::last_os_error();
    let theirs = std::io::Error::last_os_error();
    assert_eq!(mine.raw_os_error(), theirs.raw_os_error());
}

#[test]
fn kind_follows_std() {
    for errno in [ENOENT, EACCES, EINVAL, ERANGE] {
        let want = std::io::Error::from_raw_os_error(errno).kind();
        assert_eq!(Error::from_raw_os_error(errno).kind(), want);
    }
    assert_eq!(Error { errno: ENOENT }.kind(), std::io::ErrorKind::NotFound);
    assert_eq!(Error { errno: EACCES }.kind(), std::io::ErrorKind::PermissionDenied);
}

#[test]
fn zero_is_success_and_anything_else_is_not() {
    assert_eq!(check_reply(0, 5), Ok(()));
    assert_eq!(check_reply(-1, 5), Err(Error { errno: 5 }));
    assert_eq!(check_reply(1, 7), Err(Error { errno: 7 }));
    assert!(check(0).is_ok());
    assert!(check(-1).is_err());
}

#[test]
fn fds_and_lengths_fail_when_negative() {
    assert_eq!(check_fd_reply(0, 5), Ok(0));
    assert_eq!(check_fd_reply(9, 5), Ok(9));
    assert_eq!(check_fd_reply(-1, 5), Err(Error { errno: 5 }));
    assert_eq!(check_fd(3), Ok(3));
    assert!(check_fd(-3).is_err());
    assert_eq!(check_len_reply(12, 5), Ok(12));
    assert_eq!(check_len_reply(-1, 5), Err(Error { errno: 5 }));
    assert_eq!(check_len(0), Ok(0));
    assert!(check_len(-1).is_err());
}

#[test]
fn no_handle_is_minus_one() {
    assert_eq!(NO_FD, -1);
    assert_eq!(opt_fd(None), -1);
    assert_eq!(opt_fd(Some(4)), 4);
}

#[test]
fn c_strings_end_in_a_nul_and_hold_no_other() {
    assert_eq!(c_string(b"").unwrap(), b"\0".to_vec());
    assert_eq!(c_string(b"a/b").unwrap(), b"a/b\0".to_vec());
    assert_eq!(c_string(b"a\0b"), Err(Error { errno: EINVAL }));
    assert_eq!(c_string(b"\0"), Err(Error { errno: EINVAL }));
    assert!(has_nul(b"x\0"));
    assert!(!has_nul(b"x"));
}

#[test]
fn text_is_utf8_or_einval() {
    assert_eq!(text(b"hello"), Ok("hello"));
    assert_eq!(text("größe".as_bytes()), Ok("größe"));
    assert_eq!(text(&[0xff, 0xfe]), Err(Error { errno: EINVAL }));
    assert_eq!(text(&[0xc3]), Err(Error { errno: EINVAL }));
}

#[test]
fn borrowed_bytes_need_a_pointer() {
    let data = [1u8, 2, 3];
    assert_eq!(borrowed(3, 5, Some(&data)), Ok(&data[..]));
    assert_eq!(borrowed(-1, 5, Some(&data)), Err(Error { errno: 5 }));
    assert_eq!(borrowed(0, 5, None), Err(Error { errno: EINVAL }));
    assert_eq!(owned_bytes(3, 5, Some(&data)), Ok(vec![1, 2, 3]));
    assert_eq!(owned_bytes(-1, 5, None), Err(Error { errno: 5 }));
}

#[test]
fn truncation_never_lengthens() {
    assert_eq!(truncate(vec![1, 2, 3], 2), vec![1, 2]);
    assert_eq!(truncate(vec![1, 2, 3], 0), Vec::<u8>::new());
    assert_eq!(truncate(vec![1, 2, 3], 9), vec![1, 2, 3]);
}
