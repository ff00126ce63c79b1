//! Security identifiers (SIDs).
//!
//! A SID is a short, bounded, self-contained binary identifier compared by exact
//! byte equality. [`Sid`] is the owned form, an inline buffer, so it is `Copy`
//! and never allocates; [`SidRef`] is the borrowed form. Encoding, parsing and
//! validating a SID is libpeios' work: what comes back is wrapped here.
//!
//! The size of the inline buffer is the header's bound on an encoded SID, and a
//! parameter of the type.
use crate::error::{Error, Result, EINVAL};
use crate::util::utf8;
use vstd::prelude::*;
use vstd::slice::slice_subrange;

verus! {

/// A well-known SID.
#[derive(Debug, Clone, Copy, PartialEq, Eq, Hash, Structural)]
#[non_exhaustive]
pub enum WellKnown {
    /// `S-1-0-0` — Nobody.
    Null,
    /// `S-1-1-0` — World / Everyone.
    Everyone,
    /// `S-1-2-0` — Local.
    Local,
    /// `S-1-3-0` — Creator Owner.
    CreatorOwner,
    /// `S-1-3-1` — Creator Group.
    CreatorGroup,
    /// `S-1-3-4` — Owner Rights (suppresses the owner's implicit `WRITE_DAC`).
    OwnerRights,
    /// `S-1-5-7` — Anonymous.
    Anonymous,
    /// `S-1-5-10` — `PRINCIPAL_SELF`.
    PrincipalSelf,
    /// `S-1-5-11` — Authenticated Users.
    AuthenticatedUsers,
    /// `S-1-5-18` — Local System.
    System,
    /// `S-1-5-19` — Local Service.
    LocalService,
    /// `S-1-5-20` — Network Service.
    NetworkService,
    /// `S-1-5-32-544` — Administrators.
    Administrators,
}

/// The header's codes of the well-known SIDs.
#[derive(Debug, Clone, Copy, PartialEq, Eq, Structural)]
pub struct WellKnownCodes {
    /// `PEIOS_WKS_NULL`.
    pub null: u32,
    /// `PEIOS_WKS_EVERYONE`.
    pub everyone: u32,
    /// `PEIOS_WKS_LOCAL`.
    pub local: u32,
    /// `PEIOS_WKS_CREATOR_OWNER`.
    pub creator_owner: u32,
    /// `PEIOS_WKS_CREATOR_GROUP`.
    pub creator_group: u32,
    /// `PEIOS_WKS_OWNER_RIGHTS`.
    pub owner_rights: u32,
    /// `PEIOS_WKS_ANONYMOUS`.
    pub anonymous: u32,
    /// `PEIOS_WKS_SELF`.
    pub principal_self: u32,
    /// `PEIOS_WKS_AUTHENTICATED_USERS`.
    pub authenticated_users: u32,
    /// `PEIOS_WKS_SYSTEM`.
    pub system: u32,
    /// `PEIOS_WKS_LOCAL_SERVICE`.
    pub local_service: u32,
    /// `PEIOS_WKS_NETWORK_SERVICE`.
    pub network_service: u32,
    /// `PEIOS_WKS_ADMINISTRATORS`.
    pub administrators: u32,
}

impl WellKnownCodes {
    /// The code of a well-known SID.
    pub open spec fn code(self, which: WellKnown) -> u32 {
        match which {
            WellKnown::Null => self.null,
            WellKnown::Everyone => self.everyone,
            WellKnown::Local => self.local,
            WellKnown::CreatorOwner => self.creator_owner,
            WellKnown::CreatorGroup => self.creator_group,
            WellKnown::OwnerRights => self.owner_rights,
            WellKnown::Anonymous => self.anonymous,
            WellKnown::PrincipalSelf => self.principal_self,
            WellKnown::AuthenticatedUsers => self.authenticated_users,
            WellKnown::System => self.system,
            WellKnown::LocalService => self.local_service,
            WellKnown::NetworkService => self.network_service,
            WellKnown::Administrators => self.administrators,
        }
    }
}

impl WellKnown {
    /// The code to ask libpeios with.
    pub fn raw(self, codes: WellKnownCodes) -> (code: u32)
        ensures
            code == codes.code(self),
    {
        match self {
            WellKnown::Null => codes.null,
            WellKnown::Everyone => codes.everyone,
            WellKnown::Local => codes.local,
            WellKnown::CreatorOwner => codes.creator_owner,
            WellKnown::CreatorGroup => codes.creator_group,
            WellKnown::OwnerRights => codes.owner_rights,
            WellKnown::Anonymous => codes.anonymous,
            WellKnown::PrincipalSelf => codes.principal_self,
            WellKnown::AuthenticatedUsers => codes.authenticated_users,
            WellKnown::System => codes.system,
            WellKnown::LocalService => codes.local_service,
            WellKnown::NetworkService => codes.network_service,
            WellKnown::Administrators => codes.administrators,
        }
    }
}

/// A mandatory-integrity level — the RID of an `S-1-16-x` label SID.
#[derive(Debug, Clone, Copy, PartialEq, Eq, PartialOrd, Ord, Hash, Structural)]
pub struct IntegrityLevel(pub u32);

impl IntegrityLevel {
    /// The RID of the untrusted level.
    pub const UNTRUSTED: u32 = 0;

    /// The RID of low integrity.
    pub const LOW: u32 = 4096;

    /// The RID of medium integrity, the default for ordinary users.
    pub const MEDIUM: u32 = 8192;

    /// The RID of high integrity: elevated.
    pub const HIGH: u32 = 12288;

    /// The RID of system integrity.
    pub const SYSTEM: u32 = 16384;

    /// The integrity RID.
    pub fn rid(self) -> (rid: u32)
        ensures
            rid == self.0,
    {
        self.0
    }
}

/// Whether two byte strings are equal.
fn same_bytes(a: &[u8], b: &[u8]) -> (r: bool)
    ensures
        r == (a@ == b@),
{
    if a.len() != b.len() {
        return false;
    }
    let mut i: usize = 0;
    while i < a.len()
        invariant
            a@.len() == b@.len(),
            i <= a@.len(),
            forall|j: int| 0 <= j < i ==> a@[j] == b@[j],
        decreases a@.len() - i,
    {
        if a[i] != b[i] {
            assert(a@[i as int] != b@[i as int]);
            return false;
        }
        i = i + 1;
    }
    assert(a@ =~= b@);
    true
}

/// An owned SID: an inline, `Copy` buffer of `MAX_LEN` bytes (never allocates).
#[derive(Debug, Clone, Copy)]
pub struct Sid<const MAX_LEN: usize> {
    buf: [u8; MAX_LEN],
    len: u8,
}

impl<const MAX_LEN: usize> View for Sid<MAX_LEN> {
    type V = Seq<u8>;

    closed spec fn view(&self) -> Seq<u8> {
        self.buf@.take(self.len as int)
    }
}

impl<const MAX_LEN: usize> Sid<MAX_LEN> {
    #[verifier::type_invariant]
    spec fn fits(self) -> bool {
        self.len <= MAX_LEN
    }

    /// Copy a borrowed SID into an owned one. The SID must fit the buffer, and
    /// its length a byte.
    pub fn from_ref(sid: SidRef<'_>) -> (r: Sid<MAX_LEN>)
        requires
            sid@.len() <= MAX_LEN,
            sid@.len() <= u8::MAX,
        ensures
            r@ == sid@,
    {
        let bytes = sid.as_bytes();
        let mut buf = [0u8; MAX_LEN];
        let mut i: usize = 0;
        while i < bytes.len()
            invariant
                i <= bytes@.len() <= MAX_LEN,
                forall|j: int| 0 <= j < i ==> buf@[j] == bytes@[j],
            decreases bytes@.len() - i,
        {
            buf[i] = bytes[i];
            i = i + 1;
        }
        let r = Sid { buf, len: bytes.len() as u8 };
        assert(r@ =~= bytes@);
        r
    }

    /// Wrap the first `len` bytes of a buffer that a SID was encoded into. The
    /// bytes behind them do not matter.
    pub fn from_encoded(buf: [u8; MAX_LEN], len: usize) -> (r: Result<Sid<MAX_LEN>>)
        requires
            len <= MAX_LEN,
            len <= u8::MAX,
        ensures
            r matches Ok(sid) && sid@ == buf@.take(len as int),
    {
        Ok(Sid { buf, len: len as u8 })
    }

    /// What the reply of a call that encodes a SID into `buf` means: its length
    /// or a failure.
    pub fn from_reply(buf: [u8; MAX_LEN], ret: isize, errno: i32) -> (r: Result<Sid<MAX_LEN>>)
        requires
            ret <= MAX_LEN,
            ret <= u8::MAX,
        ensures
            match r {
                Ok(sid) => ret >= 0 && sid@ == buf@.take(ret as int),
                Err(e) => ret < 0 && e.errno == errno,
            },
    {
        if ret < 0 {
            return Err(Error { errno });
        }
        Self::from_encoded(buf, ret as usize)
    }

    /// The raw SID bytes.
    pub fn as_bytes(&self) -> (b: &[u8])
        ensures
            b@ == self@,
    {
        proof {
            use_type_invariant(self);
        }
        let whole: &[u8] = &self.buf;
        let b = slice_subrange(whole, 0, self.len as usize);
        assert(b@ =~= self@);
        b
    }

    /// Borrow as a [`SidRef`].
    pub fn as_sid_ref(&self) -> (r: SidRef<'_>)
        ensures
            r@ == self@,
    {
        SidRef { bytes: self.as_bytes() }
    }
}

impl<const MAX_LEN: usize> PartialEq for Sid<MAX_LEN> {
    fn eq(&self, other: &Self) -> (r: bool) {
        same_bytes(self.as_bytes(), other.as_bytes())
    }
}

impl<const MAX_LEN: usize> vstd::std_specs::cmp::PartialEqSpecImpl for Sid<MAX_LEN> {
    open spec fn obeys_eq_spec() -> bool {
        true
    }

    open spec fn eq_spec(&self, other: &Self) -> bool {
        self@ == other@
    }
}

impl<const MAX_LEN: usize> Eq for Sid<MAX_LEN> {

}

/// A borrowed SID.
#[derive(Debug, Clone, Copy)]
pub struct SidRef<'a> {
    bytes: &'a [u8],
}

impl<'a> View for SidRef<'a> {
    type V = Seq<u8>;

    closed spec fn view(&self) -> Seq<u8> {
        self.bytes@
    }
}

impl<'a> SidRef<'a> {
    /// Borrow a byte buffer as a SID, given what libpeios says of its structure:
    /// `None` where it is not valid.
    pub fn from_bytes(bytes: &'a [u8], valid: bool) -> (r: Option<SidRef<'a>>)
        ensures
            match r {
                Some(sid) => valid && sid@ == bytes@,
                None => !valid,
            },
    {
        if valid {
            Some(SidRef { bytes })
        } else {
            None
        }
    }

    /// Borrow bytes that libpeios handed out as a SID.
    pub fn from_bytes_unchecked(bytes: &'a [u8]) -> (r: SidRef<'a>)
        ensures
            r@ == bytes@,
    {
        SidRef { bytes }
    }

    /// The raw SID bytes.
    pub fn as_bytes(&self) -> (b: &'a [u8])
        ensures
            b@ == self@,
    {
        self.bytes
    }

    /// Copy into an owned [`Sid`].
    pub fn to_sid<const MAX_LEN: usize>(&self) -> (r: Sid<MAX_LEN>)
        requires
            self@.len() <= MAX_LEN,
            self@.len() <= u8::MAX,
        ensures
            r@ == self@,
    {
        Sid::from_ref(*self)
    }
}

impl<'a> PartialEq for SidRef<'a> {
    fn eq(&self, other: &Self) -> (r: bool) {
        same_bytes(self.bytes, other.bytes)
    }
}

impl<'a> vstd::std_specs::cmp::PartialEqSpecImpl for SidRef<'a> {
    open spec fn obeys_eq_spec() -> bool {
        true
    }

    open spec fn eq_spec(&self, other: &Self) -> bool {
        self@ == other@
    }
}

impl<'a> Eq for SidRef<'a> {

}

impl<const MAX_LEN: usize> Sid<MAX_LEN> {
    /// What the reply to a query for a token's user means. `buf` holds the SID,
    /// `ret` is its length or a failure, and `valid` is what libpeios says of
    /// those bytes; bytes that are no SID are `EINVAL`.
    pub fn from_user_reply(buf: [u8; MAX_LEN], ret: isize, errno: i32, valid: bool) -> (r: Result<
        Sid<MAX_LEN>,
    >)
        requires
            ret <= MAX_LEN,
            ret <= u8::MAX,
        ensures
            match r {
                Ok(sid) => ret >= 0 && valid && sid@ == buf@.take(ret as int),
                Err(e) => if ret < 0 {
                    e.errno == errno
                } else {
                    !valid && e.errno == EINVAL
                },
            },
    {
        if ret < 0 {
            return Err(Error { errno });
        }
        let whole: &[u8] = &buf;
        let bytes = slice_subrange(whole, 0, ret as usize);
        assert(bytes@ =~= buf@.take(ret as int));
        match SidRef::from_bytes(bytes, valid) {
            Some(sid) => Ok(sid.to_sid()),
            None => Err(Error { errno: EINVAL }),
        }
    }
}

/// The text of a SID, given the reply `n` of the formatting call and the buffer
/// it filled: a placeholder where the call failed, nothing where it wrote no
/// UTF-8.
pub fn sid_text<'a>(n: isize, text: &'a [u8]) -> (r: Option<&'a str>)
    requires
        n <= text@.len(),
    ensures
        n < 0 ==> (r matches Some(s) && s@ == "S-?"@),
        n >= 0 ==> match r {
            Some(s) => vstd::utf8::encode_utf8(s@) == text@.take(n as int),
            None => !vstd::utf8::valid_utf8(text@.take(n as int)),
        },
{
    if n < 0 {
        return Some("S-?");
    }
    let written = slice_subrange(text, 0, n as usize);
    assert(written@ =~= text@.take(n as int));
    utf8(written)
}

/// SIDs are compared by exact byte equality, whatever stands behind them in
/// their buffers: two owned SIDs, two borrowed ones.
pub proof fn law_sid_equality_is_bytes<const N: usize>(
    a: Sid<N>,
    b: Sid<N>,
    x: SidRef<'_>,
    y: SidRef<'_>,
)
    ensures
        vstd::std_specs::cmp::PartialEqSpec::eq_spec(&a, &b) <==> a@ == b@,
        vstd::std_specs::cmp::PartialEqSpec::eq_spec(&x, &y) <==> x@ == y@,
{
}

/// Every well-known SID is asked for with the code of its own name.
pub proof fn law_well_known_by_name(codes: WellKnownCodes)
    ensures
        codes.code(WellKnown::Null) == codes.null,
        codes.code(WellKnown::Everyone) == codes.everyone,
        codes.code(WellKnown::Local) == codes.local,
        codes.code(WellKnown::CreatorOwner) == codes.creator_owner,
        codes.code(WellKnown::CreatorGroup) == codes.creator_group,
        codes.code(WellKnown::OwnerRights) == codes.owner_rights,
        codes.code(WellKnown::Anonymous) == codes.anonymous,
        codes.code(WellKnown::PrincipalSelf) == codes.principal_self,
        codes.code(WellKnown::AuthenticatedUsers) == codes.authenticated_users,
        codes.code(WellKnown::System) == codes.system,
        codes.code(WellKnown::LocalService) == codes.local_service,
        codes.code(WellKnown::NetworkService) == codes.network_service,
        codes.code(WellKnown::Administrators) == codes.administrators,
{
}

/// The integrity levels are `4096` apart, from untrusted at `0` up to system.
pub proof fn law_integrity_levels_evenly_spaced()
    ensures
        IntegrityLevel::UNTRUSTED == 0,
        IntegrityLevel::LOW == IntegrityLevel::UNTRUSTED + 4096,
        IntegrityLevel::MEDIUM == IntegrityLevel::LOW + 4096,
        IntegrityLevel::HIGH == IntegrityLevel::MEDIUM + 4096,
        IntegrityLevel::SYSTEM == IntegrityLevel::HIGH + 4096,
{
}

} // verus!
