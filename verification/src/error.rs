//! The crate-wide error type.
//!
//! Every libpeios call reports failure the classic Linux way: a `-1`, a `NULL`
//! handle or a negative length, with the thread's `errno` set. So an [`Error`]
//! is exactly an `errno`, captured at the point of failure. The status of an
//! open and the disposition of a key are success outputs and never come here.
use vstd::prelude::*;

verus! {

/// "No such file or directory": the end of an enumeration.
pub const ENOENT: i32 = 2;

/// "Input/output error".
pub const EIO: i32 = 5;

/// "Permission denied": the errno of an access denial.
pub const EACCES: i32 = 13;

/// "Invalid argument".
pub const EINVAL: i32 = 22;

/// "Numerical result out of range": the buffer was too small.
pub const ERANGE: i32 = 34;

/// An error from a libpeios call: an OS error captured from `errno`.
#[derive(Debug, Clone, Copy, PartialEq, Eq, Structural)]
pub struct Error {
    /// The captured `errno`.
    pub errno: i32,
}

/// The crate-wide result alias.
pub type Result<T> = core::result::Result<T, Error>;

/// The portable classification of an OS error.
#[verifier::external_type_specification]
#[verifier::external_body]
pub struct ExErrorKind(std::io::ErrorKind);

/// Calls `std::io::Error::last_os_error` and takes the code out of its result.
///
/// Claimed: there is a code, since the error was made from an OS error. Which
/// one it is depends on what the thread did before, and is left unsaid.
#[verifier::external_body]
fn current_errno() -> (code: Option<i32>)
    ensures
        code is Some,
{
    std::io::Error::last_os_error().raw_os_error()
}

/// The kind that corresponds to the OS error with code `errno`: what
/// `std::io::Error::kind` returns for it.
pub uninterp spec fn os_error_kind(errno: i32) -> std::io::ErrorKind;

/// Calls `std::io::Error::kind` on the OS error with code `errno`.
///
/// Claimed: the kind corresponds to the error, which is nothing but its code, so
/// it is fixed by the code. The table of codes and kinds is left unsaid: it is
/// the standard library's for the platform it was built for.
#[verifier::external_body]
fn kind_of(errno: i32) -> (kind: std::io::ErrorKind)
    ensures
        kind == os_error_kind(errno),
{
    std::io::Error::from_raw_os_error(errno).kind()
}

impl Error {
    /// Capture the calling thread's current `errno` as an [`Error`].
    ///
    /// Call this immediately after a libpeios function reports failure, before
    /// any other call can overwrite `errno`. Which code that is depends on the
    /// thread; the contract says that it is one that was read from it.
    pub fn last_os_error() -> (e: Error)
        ensures
            e.is_current(),
    {
        Error::from_os_code(current_errno())
    }

    /// Whether this is an error that reading the thread's `errno` may give.
    pub closed spec fn is_current(self) -> bool {
        call_ensures(current_errno, (), Some(self.errno))
    }

    /// The error of an I/O failure that carries `code`. An error always is an OS
    /// error, so a failure without a code is `EIO`.
    pub fn from_os_code(code: Option<i32>) -> (e: Error)
        ensures
            e.errno == (match code {
                Some(errno) => errno,
                None => EIO,
            }),
    {
        match code {
            Some(errno) => Error::from_raw_os_error(errno),
            None => Error::from_raw_os_error(EIO),
        }
    }

    /// Construct from a specific `errno` value.
    pub fn from_raw_os_error(errno: i32) -> (e: Error)
        ensures
            e == (Error { errno }),
    {
        Error { errno }
    }

    /// What [`raw_os_error`](Self::raw_os_error) returns.
    pub open spec fn raw_os_error_spec(self) -> Option<i32> {
        Some(self.errno)
    }

    /// The underlying `errno`, if this is an OS error (it always is).
    pub fn raw_os_error(&self) -> (code: Option<i32>)
        ensures
            code == self.raw_os_error_spec(),
            code == Some(self.errno),
    {
        Some(self.errno)
    }

    /// The portable [`std::io::ErrorKind`] classification.
    ///
    /// It is fixed by the errno. The contract does not say which kind belongs to
    /// which code: that table is the platform's.
    pub fn kind(&self) -> (kind: std::io::ErrorKind)
        ensures
            kind == os_error_kind(self.errno),
    {
        kind_of(self.errno)
    }
}

/// Building an error from an errno and reading the errno back gives it back,
/// and two errors are equal exactly when their errnos are.
pub proof fn law_errno_round_trip(errno: i32, other: i32)
    ensures
        (Error { errno }).raw_os_error_spec() == Some(errno),
        (Error { errno }) == (Error { errno: other }) <==> errno == other,
{
}

/// The errnos that decide something have the numbers that Linux gives them.
pub proof fn law_errno_numbers()
    ensures
        ENOENT == 2,
        EIO == 5,
        EACCES == 13,
        EINVAL == 22,
        ERANGE == 34,
{
}

/// An error that was captured from the thread holds what reading its `errno` gave.
proof fn law_current_errno_was_read(e: Error)
    requires
        e.is_current(),
    ensures
        call_ensures(current_errno, (), Some(e.errno)),
{
}

} // verus!
