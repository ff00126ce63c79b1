//! The patterns every module shares: return-value checks, the "no handle"
//! sentinel, C strings, and text that comes back as bytes.
use crate::error::{Error, Result, EINVAL};
use vstd::prelude::*;
use vstd::slice::slice_to_vec;

verus! {

/// The handle value that stands for "none": no directory, no transaction, the
/// caller's own token or process.
pub const NO_FD: i32 = -1;

// ---- return values ----------------------------------------------------------

/// What a `0`/`-1` return means, given the errno that goes with a failure.
pub open spec fn checked(ret: i32, errno: i32) -> Result<()> {
    if ret == 0 {
        Ok(())
    } else {
        Err(Error { errno })
    }
}

/// What an fd return means: a negative one is a failure.
pub open spec fn checked_fd(ret: i32, errno: i32) -> Result<i32> {
    if ret < 0 {
        Err(Error { errno })
    } else {
        Ok(ret)
    }
}

/// What a length return means: a negative one is a failure.
pub open spec fn checked_len(ret: isize, errno: i32) -> Result<usize> {
    if ret < 0 {
        Err(Error { errno })
    } else {
        Ok(ret as usize)
    }
}

/// `0`/`-1`-returning calls, with the errno already captured.
pub fn check_reply(ret: i32, errno: i32) -> (r: Result<()>)
    ensures
        r == checked(ret, errno),
{
    if ret == 0 {
        Ok(())
    } else {
        Err(Error { errno })
    }
}

/// `0`/`-1`-returning calls: `Ok(())` on `0`, the thread's errno otherwise.
pub fn check(ret: i32) -> (r: Result<()>)
    ensures
        ret == 0 ==> r == Ok::<(), Error>(()),
        ret != 0 ==> r is Err && r->Err_0.is_current(),
{
    let e: Error = Error::last_os_error();
    check_reply(ret, e.errno)
}

/// fd-returning calls, with the errno already captured.
pub fn check_fd_reply(ret: i32, errno: i32) -> (r: Result<i32>)
    ensures
        r == checked_fd(ret, errno),
{
    if ret < 0 {
        Err(Error { errno })
    } else {
        Ok(ret)
    }
}

/// fd-returning calls: the returned fd, or the thread's errno on a negative one.
pub fn check_fd(ret: i32) -> (r: Result<i32>)
    ensures
        ret >= 0 ==> r == Ok::<i32, Error>(ret),
        ret < 0 ==> r is Err && r->Err_0.is_current(),
{
    let e: Error = Error::last_os_error();
    check_fd_reply(ret, e.errno)
}

/// Length-returning calls, with the errno already captured.
pub fn check_len_reply(ret: isize, errno: i32) -> (r: Result<usize>)
    ensures
        r == checked_len(ret, errno),
{
    if ret < 0 {
        Err(Error { errno })
    } else {
        Ok(ret as usize)
    }
}

/// Length-returning calls: the length, or the thread's errno on a negative one.
pub fn check_len(ret: isize) -> (r: Result<usize>)
    ensures
        ret >= 0 ==> r == Ok::<usize, Error>(ret as usize),
        ret < 0 ==> r is Err && r->Err_0.is_current(),
{
    let e: Error = Error::last_os_error();
    check_len_reply(ret, e.errno)
}

/// The handle value to pass for an optional handle.
pub open spec fn fd_or_none(fd: Option<i32>) -> i32 {
    match fd {
        Some(f) => f,
        None => NO_FD,
    }
}

/// The raw fd of an optional handle, with `-1` for "none" (the convention for a
/// directory, a transaction, a token, a process).
pub fn opt_fd(fd: Option<i32>) -> (raw: i32)
    ensures
        raw == fd_or_none(fd),
{
    match fd {
        Some(f) => f,
        None => NO_FD,
    }
}

// ---- C strings --------------------------------------------------------------

/// What a byte string becomes on its way into a C call: itself and a NUL, or
/// `EINVAL` where it holds a NUL already.
pub open spec fn as_c_string(bytes: Seq<u8>) -> Result<Seq<u8>> {
    if bytes.contains(0u8) {
        Err(Error { errno: EINVAL })
    } else {
        Ok(bytes.push(0u8))
    }
}

/// The string that a C callee reads from `bytes`: what precedes the first NUL.
pub open spec fn read_c_string(bytes: Seq<u8>) -> Seq<u8>
    decreases bytes.len(),
{
    if bytes.len() == 0 || bytes[0] == 0u8 {
        Seq::empty()
    } else {
        seq![bytes[0]] + read_c_string(bytes.drop_first())
    }
}

/// Whether `bytes` holds a NUL.
pub fn has_nul(bytes: &[u8]) -> (r: bool)
    ensures
        r == bytes@.contains(0u8),
{
    let mut i: usize = 0;
    while i < bytes.len()
        invariant
            i <= bytes@.len(),
            forall|j: int| 0 <= j < i ==> bytes@[j] != 0u8,
        decreases bytes@.len() - i,
    {
        if bytes[i] == 0u8 {
            assert(bytes@[i as int] == 0u8);
            return true;
        }
        i = i + 1;
    }
    false
}

/// Terminate `bytes` with a NUL for a C call, or `EINVAL` where it holds one.
pub fn c_string(bytes: &[u8]) -> (r: Result<Vec<u8>>)
    ensures
        match r {
            Ok(v) => as_c_string(bytes@) == Ok::<Seq<u8>, Error>(v@),
            Err(e) => as_c_string(bytes@) == Err::<Seq<u8>, Error>(e),
        },
{
    if has_nul(bytes) {
        return Err(Error { errno: EINVAL });
    }
    let mut v: Vec<u8> = slice_to_vec(bytes);
    v.push(0u8);
    Ok(v)
}

/// A byte string without a NUL reaches a C callee whole: what the callee reads
/// is what was passed, and the string is refused only where it holds a NUL.
pub proof fn law_c_string_reaches_callee(bytes: Seq<u8>)
    ensures
        match as_c_string(bytes) {
            Ok(c) => read_c_string(c) == bytes && c.len() == bytes.len() + 1,
            Err(e) => e.errno == EINVAL && bytes.contains(0u8),
        },
{
    if !bytes.contains(0u8) {
        lemma_read_terminated(bytes);
    }
}

proof fn lemma_read_terminated(bytes: Seq<u8>)
    requires
        !bytes.contains(0u8),
    ensures
        read_c_string(bytes.push(0u8)) == bytes,
    decreases bytes.len(),
{
    if bytes.len() == 0 {
        assert(read_c_string(bytes.push(0u8)) =~= bytes);
    } else {
        let rest = bytes.drop_first();
        assert(bytes.contains(bytes[0]));
        assert forall|i: int| 0 <= i < rest.len() implies rest[i] != 0u8 by {
            assert(bytes.contains(bytes[i + 1]));
        }
        lemma_read_terminated(rest);
        assert(bytes.push(0u8).drop_first() =~= rest.push(0u8));
        assert(seq![bytes[0]] + rest =~= bytes);
    }
}

// ---- text -------------------------------------------------------------------

/// Calls `core::str::from_utf8`.
///
/// Claimed: it succeeds exactly on well-formed UTF-8, and the string it returns
/// is made of the very bytes it was given.
#[verifier::external_body]
pub(crate) fn utf8<'a>(bytes: &'a [u8]) -> (r: Option<&'a str>)
    ensures
        match r {
            Some(s) => vstd::utf8::valid_utf8(bytes@) && vstd::utf8::encode_utf8(s@) == bytes@,
            None => !vstd::utf8::valid_utf8(bytes@),
        },
{
    core::str::from_utf8(bytes).ok()
}

/// Borrow bytes as text, or `EINVAL` where they are not UTF-8.
pub fn text<'a>(bytes: &'a [u8]) -> (r: Result<&'a str>)
    ensures
        match r {
            Ok(s) => vstd::utf8::valid_utf8(bytes@) && vstd::utf8::encode_utf8(s@) == bytes@,
            Err(e) => !vstd::utf8::valid_utf8(bytes@) && e.errno == EINVAL,
        },
{
    match utf8(bytes) {
        Some(s) => Ok(s),
        None => Err(Error { errno: EINVAL }),
    }
}

// ---- borrowed bytes ---------------------------------------------------------

/// What a call that points at bytes means: `n` is their number or a failure, and
/// `bytes` is where it points. A success that points nowhere is `EINVAL`.
pub fn borrowed<'a>(n: isize, errno: i32, bytes: Option<&'a [u8]>) -> (r: Result<&'a [u8]>)
    ensures
        r == (if n < 0 {
            Err::<&[u8], Error>(Error { errno })
        } else {
            match bytes {
                Some(b) => Ok(b),
                None => Err(Error { errno: EINVAL }),
            }
        }),
{
    if n < 0 {
        return Err(Error { errno });
    }
    match bytes {
        Some(b) => Ok(b),
        None => Err(Error { errno: EINVAL }),
    }
}

/// The owned bytes of a call that points at bytes.
pub fn owned_bytes(n: isize, errno: i32, bytes: Option<&[u8]>) -> (r: Result<Vec<u8>>)
    ensures
        match r {
            Ok(v) => n >= 0 && (bytes matches Some(b) && v@ == b@),
            Err(e) => if n < 0 {
                e.errno == errno
            } else {
                bytes is None && e.errno == EINVAL
            },
        },
{
    match borrowed(n, errno, bytes) {
        Ok(b) => Ok(slice_to_vec(b)),
        Err(e) => Err(e),
    }
}

// ---- lengths ----------------------------------------------------------------

/// `bytes` cut to its first `n` bytes; unchanged where it is no longer.
pub open spec fn truncated(bytes: Seq<u8>, n: int) -> Seq<u8> {
    if 0 <= n < bytes.len() {
        bytes.take(n)
    } else {
        bytes
    }
}

/// Cut a buffer to the length that a call reported.
pub fn truncate(buf: Vec<u8>, n: usize) -> (r: Vec<u8>)
    ensures
        r@ == truncated(buf@, n as int),
{
    let mut buf = buf;
    buf.truncate(n);
    buf
}

/// What the return values mean: `0` alone is the success of a call that returns
/// a status, and everything that is not negative that of a call that returns an
/// fd or a length, which is handed on as it is. A failure carries the errno.
pub proof fn law_return_values(ret: i32, len: isize, errno: i32)
    ensures
        checked(ret, errno) is Ok <==> ret == 0,
        checked(ret, errno) matches Err(e) ==> e.errno == errno,
        checked_fd(ret, errno) is Ok <==> ret >= 0,
        checked_fd(ret, errno) matches Ok(fd) ==> fd == ret,
        checked_fd(ret, errno) matches Err(e) ==> e.errno == errno,
        checked_len(len, errno) is Ok <==> len >= 0,
        checked_len(len, errno) matches Ok(n) ==> n == len,
        checked_len(len, errno) matches Err(e) ==> e.errno == errno,
{
}

/// A handle is passed as its fd, and none as `-1`, which is no fd: so two
/// arguments are the same only where the handles are.
pub proof fn law_handle_argument(fd: i32, a: Option<i32>, b: Option<i32>)
    ensures
        fd_or_none(Some(fd)) == fd,
        fd_or_none(None) == -1,
        a != Some(-1i32) && b != Some(-1i32) ==> (fd_or_none(a) == fd_or_none(b) <==> a == b),
{
}

/// A string is passed exactly where it holds no NUL, as its bytes in order and
/// one NUL behind them.
pub proof fn law_c_string_bytes(bytes: Seq<u8>)
    ensures
        as_c_string(bytes) is Ok <==> forall|i: int| 0 <= i < bytes.len() ==> bytes[i] != 0,
        as_c_string(bytes) matches Ok(c) ==> {
            &&& c.len() == bytes.len() + 1
            &&& c[bytes.len() as int] == 0
            &&& forall|i: int| 0 <= i < bytes.len() ==> c[i] == bytes[i]
        },
        as_c_string(bytes) matches Err(e) ==> e.errno == 22,
{
    if bytes.contains(0u8) {
        let i = choose|i: int| 0 <= i < bytes.len() && bytes[i] == 0u8;
        assert(bytes[i] == 0);
    } else {
        assert forall|i: int| 0 <= i < bytes.len() implies bytes[i] != 0 by {
            assert(bytes.contains(bytes[i]));
        }
    }
}

/// What a C callee reads is what precedes the first NUL: it begins the bytes,
/// holds no NUL, and is followed by one or by nothing.
pub proof fn law_reading_stops_at_nul(bytes: Seq<u8>)
    ensures
        read_c_string(bytes).len() <= bytes.len(),
        forall|i: int|
            0 <= i < read_c_string(bytes).len() ==> #[trigger] read_c_string(bytes)[i] == bytes[i]
                && bytes[i] != 0,
        read_c_string(bytes).len() < bytes.len() ==> bytes[read_c_string(bytes).len() as int] == 0,
    decreases bytes.len(),
{
    if bytes.len() > 0 && bytes[0] != 0u8 {
        let rest = bytes.drop_first();
        let read = read_c_string(rest);
        law_reading_stops_at_nul(rest);
        assert forall|i: int| 0 <= i < read_c_string(bytes).len() implies #[trigger] read_c_string(
            bytes,
        )[i] == bytes[i] && bytes[i] != 0 by {
            if i > 0 {
                assert(read_c_string(bytes)[i] == read[i - 1]);
                assert(rest[i - 1] == bytes[i]);
            }
        }
        if read_c_string(bytes).len() < bytes.len() {
            assert(rest[read.len() as int] == bytes[read_c_string(bytes).len() as int]);
        }
    }
}

/// A buffer cut to a length keeps its leading bytes in order, as many as the
/// length says and as there are.
pub proof fn law_cut_keeps_the_front(bytes: Seq<u8>, n: nat)
    ensures
        truncated(bytes, n as int).len() == (if n < bytes.len() {
            n
        } else {
            bytes.len()
        }),
        forall|i: int|
            0 <= i < truncated(bytes, n as int).len() ==> truncated(bytes, n as int)[i] == bytes[i],
{
}

} // verus!
