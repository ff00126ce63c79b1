//! KACS access tokens, the token-spec builder, and logon sessions.
//!
//! Tokens are opened from the running thread, process or peer, or minted from a
//! spec assembled by a [`TokenBuilder`]. This file holds the vocabulary, the
//! requests of the adjusting and transforming calls, and the meaning of the
//! queries' replies; [`claim`] the claims, [`builder`] the token-spec builder.
use crate::error::{Error, Result, EINVAL};
use crate::security::{Acl, IntegrityLevel, Privileges, Sid, SidRef};
use crate::util::c_string;
use vstd::arithmetic::power2::pow2;
use vstd::prelude::*;

pub mod builder;
pub mod claim;

pub use builder::{LcsCredentials, TokenBuilder, TokenFlags};
pub use claim::{Claim, ClaimAttr, ClaimValues};

verus! {

// ---- vocabulary -------------------------------------------------------------

/// Token handle-right mask: the token-object rights plus the standard rights.
#[derive(Debug, Clone, Copy, PartialEq, Eq, Hash, Structural)]
pub struct TokenAccess(pub u32);

/// A token's mandatory-integrity policy bits.
#[derive(Debug, Clone, Copy, PartialEq, Eq, Hash, Structural)]
pub struct MandatoryPolicy(pub u32);

/// Per-token audit-policy bits: which access-check outcomes the token audits.
#[derive(Debug, Clone, Copy, PartialEq, Eq, Hash, Structural)]
pub struct AuditPolicy(pub u32);

/// Flags of a restriction.
#[derive(Debug, Clone, Copy, PartialEq, Eq, Hash, Structural)]
pub struct RestrictFlags(pub u32);

/// A token information class: a raw code.
#[derive(Debug, Clone, Copy, PartialEq, Eq, Hash, Structural)]
pub struct TokenClass(pub u32);

/// A logon session id.
#[derive(Debug, Clone, Copy, PartialEq, Eq, Hash, Structural)]
pub struct SessionId(pub u64);

/// The kind of a token.
#[derive(Debug, Clone, Copy, PartialEq, Eq, Hash, Structural)]
pub enum TokenType {
    /// A primary token (assignable to a process).
    Primary,
    /// An impersonation token.
    Impersonation,
}

/// The header's codes of the token types.
#[derive(Debug, Clone, Copy, PartialEq, Eq, Structural)]
pub struct TokenTypeCodes {
    /// `KACS_TOKEN_TYPE_PRIMARY`.
    pub primary: u32,
    /// `KACS_TOKEN_TYPE_IMPERSONATION`.
    pub impersonation: u32,
}

impl TokenTypeCodes {
    /// The code of a token type.
    pub open spec fn code(self, ty: TokenType) -> u32 {
        match ty {
            TokenType::Primary => self.primary,
            TokenType::Impersonation => self.impersonation,
        }
    }
}

impl TokenType {
    /// The type that a raw code stands for: the first whose code it is.
    pub open spec fn of_code(v: u32, codes: TokenTypeCodes) -> Option<TokenType> {
        if v == codes.primary {
            Some(TokenType::Primary)
        } else if v == codes.impersonation {
            Some(TokenType::Impersonation)
        } else {
            None
        }
    }

    /// The code of this type, cut to a byte.
    pub fn to_raw(self, codes: TokenTypeCodes) -> (v: u8)
        ensures
            v == codes.code(self) as u8,
    {
        match self {
            TokenType::Primary => codes.primary as u8,
            TokenType::Impersonation => codes.impersonation as u8,
        }
    }

    /// The type that a raw code stands for, or `None` if it is no type's.
    pub fn from_raw(v: u32, codes: TokenTypeCodes) -> (ty: Option<TokenType>)
        ensures
            ty == TokenType::of_code(v, codes),
    {
        if v == codes.primary {
            Some(TokenType::Primary)
        } else if v == codes.impersonation {
            Some(TokenType::Impersonation)
        } else {
            None
        }
    }

    /// What the reply to a query for a token's type means. A code of no type is
    /// `EINVAL`.
    pub fn from_reply(ret: i32, errno: i32, v: u32, codes: TokenTypeCodes) -> (r: Result<TokenType>)
        ensures
            r == (if ret != 0 {
                Err::<TokenType, Error>(Error { errno })
            } else {
                match TokenType::of_code(v, codes) {
                    Some(ty) => Ok(ty),
                    None => Err(Error { errno: EINVAL }),
                }
            }),
    {
        if ret != 0 {
            return Err(Error { errno });
        }
        match TokenType::from_raw(v, codes) {
            Some(ty) => Ok(ty),
            None => Err(Error { errno: EINVAL }),
        }
    }
}

/// A type's code, as a byte, is read back as that type where the codes are bytes
/// and differ.
pub proof fn law_token_type_codes(codes: TokenTypeCodes, ty: TokenType)
    requires
        codes.primary <= u8::MAX,
        codes.impersonation <= u8::MAX,
        codes.primary != codes.impersonation,
    ensures
        TokenType::of_code((codes.code(ty) as u8) as u32, codes) == Some(ty),
{
}

/// The impersonation level of an impersonation token.
#[derive(Debug, Clone, Copy, PartialEq, Eq, PartialOrd, Ord, Hash, Structural)]
pub enum ImpersonationLevel {
    /// Anonymous — the server cannot identify the client.
    Anonymous,
    /// Identification — identify but not act as the client.
    Identification,
    /// Impersonation — act as the client on the local system.
    Impersonation,
    /// Delegation — act as the client on remote systems.
    Delegation,
}

/// The header's codes of the impersonation levels.
#[derive(Debug, Clone, Copy, PartialEq, Eq, Structural)]
pub struct ImpersonationLevelCodes {
    /// `KACS_IMLEVEL_ANONYMOUS`.
    pub anonymous: u32,
    /// `KACS_IMLEVEL_IDENTIFICATION`.
    pub identification: u32,
    /// `KACS_IMLEVEL_IMPERSONATION`.
    pub impersonation: u32,
    /// `KACS_IMLEVEL_DELEGATION`.
    pub delegation: u32,
}

impl ImpersonationLevelCodes {
    /// The code of a level.
    pub open spec fn code(self, level: ImpersonationLevel) -> u32 {
        match level {
            ImpersonationLevel::Anonymous => self.anonymous,
            ImpersonationLevel::Identification => self.identification,
            ImpersonationLevel::Impersonation => self.impersonation,
            ImpersonationLevel::Delegation => self.delegation,
        }
    }
}

impl ImpersonationLevel {
    /// The code of this level, cut to a byte.
    pub fn to_raw(self, codes: ImpersonationLevelCodes) -> (v: u8)
        ensures
            v == codes.code(self) as u8,
    {
        match self {
            ImpersonationLevel::Anonymous => codes.anonymous as u8,
            ImpersonationLevel::Identification => codes.identification as u8,
            ImpersonationLevel::Impersonation => codes.impersonation as u8,
            ImpersonationLevel::Delegation => codes.delegation as u8,
        }
    }
}

// ---- queries ----------------------------------------------------------------

/// The flags of opening the calling thread's token: with `primary`, the bits of the
/// header that ask for the process primary token even while impersonating.
pub fn open_self_flags(primary: bool, open_real: u32) -> (flags: u32)
    ensures
        flags == (if primary {
            open_real
        } else {
            0u32
        }),
{
    if primary {
        open_real
    } else {
        0
    }
}

impl SessionId {
    /// What the reply to a query for a token's session means. The query reports
    /// 32 bits.
    pub fn from_reply(ret: i32, errno: i32, id: u32) -> (r: Result<SessionId>)
        ensures
            r == (if ret == 0 {
                Ok::<SessionId, Error>(SessionId(id as u64))
            } else {
                Err::<SessionId, Error>(Error { errno })
            }),
    {
        if ret == 0 {
            Ok(SessionId(id as u64))
        } else {
            Err(Error { errno })
        }
    }

    /// The argument of moving a token to this session: the low 32 bits.
    pub fn to_raw(self) -> (id: u32)
        ensures
            id == self.0 as u32,
    {
        self.0 as u32
    }
}

/// A session id that a token reports is the one it was moved to, for every id
/// that fits the 32 bits in which it is passed.
pub proof fn law_session_id_round_trip(session: SessionId)
    requires
        session.0 <= u32::MAX,
    ensures
        SessionId((session.0 as u32) as u64) == session,
{
}

/// What the reply to a query for a token's integrity means.
pub fn integrity_reply(ret: i32, errno: i32, rid: u32) -> (r: Result<IntegrityLevel>)
    ensures
        r == (if ret == 0 {
            Ok::<IntegrityLevel, Error>(IntegrityLevel(rid))
        } else {
            Err::<IntegrityLevel, Error>(Error { errno })
        }),
{
    if ret == 0 {
        Ok(IntegrityLevel(rid))
    } else {
        Err(Error { errno })
    }
}

/// A token's four privilege words.
#[derive(Debug, Clone, Copy, PartialEq, Eq, Structural)]
pub struct PrivilegeSet {
    /// Privileges present on the token.
    pub present: Privileges,
    /// Privileges currently enabled.
    pub enabled: Privileges,
    /// Privileges enabled by default.
    pub enabled_by_default: Privileges,
    /// Privileges used since the last reset.
    pub used: Privileges,
}

impl PrivilegeSet {
    /// What the reply to a query for a token's privileges means. Unknown bits
    /// are kept.
    pub fn from_reply(
        ret: i32,
        errno: i32,
        present: u64,
        enabled: u64,
        enabled_by_default: u64,
        used: u64,
    ) -> (r: Result<PrivilegeSet>)
        ensures
            r == (if ret == 0 {
                Ok::<PrivilegeSet, Error>(
                    PrivilegeSet {
                        present: Privileges(present),
                        enabled: Privileges(enabled),
                        enabled_by_default: Privileges(enabled_by_default),
                        used: Privileges(used),
                    },
                )
            } else {
                Err::<PrivilegeSet, Error>(Error { errno })
            }),
    {
        if ret == 0 {
            Ok(
                PrivilegeSet {
                    present: Privileges(present),
                    enabled: Privileges(enabled),
                    enabled_by_default: Privileges(enabled_by_default),
                    used: Privileges(used),
                },
            )
        } else {
            Err(Error { errno })
        }
    }
}

// ---- adjusting --------------------------------------------------------------

/// One privilege adjustment: a LUID and its new attribute bits.
#[derive(Debug, Clone, Copy, PartialEq, Eq, Structural)]
pub struct PrivilegeAdjustment {
    /// The privilege LUID.
    pub luid: u32,
    /// The new attribute bits.
    pub attributes: u32,
}

/// What the reply to a privilege adjustment means: the previous enabled mask.
pub fn adjusted_privileges(ret: i32, errno: i32, previous: u64) -> (r: Result<Privileges>)
    ensures
        r == (if ret == 0 {
            Ok::<Privileges, Error>(Privileges(previous))
        } else {
            Err::<Privileges, Error>(Error { errno })
        }),
{
    if ret == 0 {
        Ok(Privileges(previous))
    } else {
        Err(Error { errno })
    }
}

/// One group enable/disable.
#[derive(Debug, Clone, Copy, PartialEq, Eq, Structural)]
pub struct GroupAdjustment {
    /// The group index (0 = user SID, 1..N = the Nth added group).
    pub index: u32,
    /// Whether to enable (`true`) or disable (`false`) the group.
    pub enable: bool,
}

/// One group adjustment as the call takes it.
#[derive(Debug, Clone, Copy, PartialEq, Eq, Structural)]
pub struct GroupEntry {
    /// The group index.
    pub index: u32,
    /// `1` to enable and `0` to disable.
    pub enable: u32,
}

/// One group adjustment as the call takes it.
pub open spec fn group_entry(a: GroupAdjustment) -> GroupEntry {
    GroupEntry {
        index: a.index,
        enable: if a.enable {
            1
        } else {
            0
        },
    }
}

/// The arguments of enabling and disabling groups, in order.
pub fn group_entries(entries: &[GroupAdjustment]) -> (out: Vec<GroupEntry>)
    ensures
        out@ == entries@.map_values(|a: GroupAdjustment| group_entry(a)),
{
    let mut out: Vec<GroupEntry> = Vec::new();
    let mut i: usize = 0;
    while i < entries.len()
        invariant
            i <= entries@.len(),
            out@.len() == i,
            forall|j: int| 0 <= j < i ==> #[trigger] out@[j] == group_entry(entries@[j]),
        decreases entries@.len() - i,
    {
        let a = entries[i];
        out.push(
            GroupEntry {
                index: a.index,
                enable: if a.enable {
                    1
                } else {
                    0
                },
            },
        );
        i = i + 1;
    }
    assert(out@ =~= entries@.map_values(|a: GroupAdjustment| group_entry(a)));
    out
}

/// A token group enabled-state bitmask: one bit per group index, in `WORDS`
/// 64-bit words.
#[derive(Debug, Clone, Copy, PartialEq, Eq)]
pub struct GroupMask<const WORDS: usize>(pub [u64; WORDS]);

/// Whether bit `bit` of a word is set.
pub open spec fn bit_set(word: u64, bit: u64) -> bool {
    word & (1u64 << bit) != 0
}

impl<const WORDS: usize> GroupMask<WORDS> {
    /// Whether the group at `index` is enabled: bit `index % 64` of word
    /// `index / 64`, and not beyond the words.
    pub open spec fn enabled(self, index: int) -> bool {
        &&& 0 <= index / 64 < WORDS
        &&& bit_set(self.0@[index / 64], (index % 64) as u64)
    }

    /// Whether the group at `index` was enabled.
    pub fn is_enabled(&self, index: usize) -> (r: bool)
        ensures
            r == self.enabled(index as int),
    {
        let word: usize = index / 64;
        let bit: u64 = (index % 64) as u64;
        if word < WORDS {
            let w: u64 = self.0[word];
            w & (1u64 << bit) != 0
        } else {
            false
        }
    }

    /// What the reply to a group adjustment means: the state before it.
    pub fn from_reply(ret: i32, errno: i32, previous: [u64; WORDS]) -> (r: Result<
        GroupMask<WORDS>,
    >)
        ensures
            r == (if ret == 0 {
                Ok::<GroupMask<WORDS>, Error>(GroupMask(previous))
            } else {
                Err::<GroupMask<WORDS>, Error>(Error { errno })
            }),
    {
        if ret == 0 {
            Ok(GroupMask(previous))
        } else {
            Err(Error { errno })
        }
    }
}

/// Every group has a bit of its own: where one bit of the mask is set and the
/// others are not, exactly the group of that bit is enabled. Groups beyond the
/// mask are not enabled.
pub proof fn law_group_mask_bits<const WORDS: usize>(
    mask: GroupMask<WORDS>,
    index: int,
    other: int,
)
    requires
        0 <= index < 64 * WORDS,
        0 <= other,
        forall|w: int|
            0 <= w < WORDS ==> #[trigger] mask.0@[w] == (if w == index / 64 {
                1u64 << ((index % 64) as u64)
            } else {
                0u64
            }),
    ensures
        mask.enabled(other) <==> other == index,
{
    let a: u64 = (index % 64) as u64;
    let b: u64 = (other % 64) as u64;
    assert((1u64 << a) & (1u64 << b) != 0 <==> a == b) by (bit_vector)
        requires
            a < 64,
            b < 64,
    ;
    assert(0u64 & (1u64 << b) == 0) by (bit_vector);
    if 0 <= other / 64 < WORDS {
        assert(mask.0@[other / 64] == (if other / 64 == index / 64 {
            1u64 << a
        } else {
            0u64
        }));
    }
}

/// The index value that leaves an owner or primary-group index unchanged.
pub const UNCHANGED_INDEX: u16 = 0xFFFF;

/// The arguments of replacing a token's defaults.
#[derive(Debug, Clone, Copy)]
pub struct DefaultsRequest<'a> {
    /// The DACL's bytes; `None` is a null pointer, which leaves it unchanged.
    pub dacl: Option<&'a [u8]>,
    /// The length of the DACL, `0` where there is none.
    pub dacl_len: usize,
    /// The owner index, or the unchanged value.
    pub owner_index: u16,
    /// The primary-group index, or the unchanged value.
    pub group_index: u16,
}

/// An optional index as an argument.
pub open spec fn index_or_unchanged(index: Option<u16>) -> u16 {
    match index {
        Some(i) => i,
        None => UNCHANGED_INDEX,
    }
}

fn index_arg(index: Option<u16>) -> (arg: u16)
    ensures
        arg == index_or_unchanged(index),
{
    match index {
        Some(i) => i,
        None => UNCHANGED_INDEX,
    }
}

/// The arguments of replacing a token's default DACL and/or its owner and
/// primary-group indices. A `dacl` of `None` leaves the DACL unchanged, one
/// without bytes clears it; an index of `None` leaves that index unchanged.
pub fn adjust_default<'a>(
    dacl: Option<&'a Acl>,
    owner_index: Option<u16>,
    group_index: Option<u16>,
) -> (q: DefaultsRequest<'a>)
    ensures
        match dacl {
            Some(acl) => (q.dacl matches Some(b) && b@ == acl@) && q.dacl_len == acl@.len(),
            None => q.dacl is None && q.dacl_len == 0,
        },
        q.owner_index == index_or_unchanged(owner_index),
        q.group_index == index_or_unchanged(group_index),
{
    let (bytes, dacl_len): (Option<&'a [u8]>, usize) = match dacl {
        Some(acl) => {
            let b = acl.as_bytes();
            (Some(b), b.len())
        },
        None => (None, 0),
    };
    DefaultsRequest {
        dacl: bytes,
        dacl_len,
        owner_index: index_arg(owner_index),
        group_index: index_arg(group_index),
    }
}

/// An index is told apart from "unchanged", and from every other index, unless
/// it is the value that stands for "unchanged".
pub proof fn law_index_sentinel(a: Option<u16>, b: Option<u16>)
    requires
        a != Some(UNCHANGED_INDEX),
        b != Some(UNCHANGED_INDEX),
    ensures
        index_or_unchanged(a) == index_or_unchanged(b) <==> a == b,
{
}

// ---- restricting ------------------------------------------------------------

/// The spec of a restriction: the privileges to drop, the groups to demote to
/// deny-only (by index), and the restricting SIDs to add.
#[derive(Debug, Clone)]
pub struct RestrictSpec<const MAX_LEN: usize> {
    /// Privileges to delete from the restricted token.
    pub privs_to_delete: Privileges,
    /// Indices of groups to demote to deny-only (0 = user, 1..N = Nth group).
    pub deny_group_indices: Vec<u32>,
    /// Restricting SIDs to add to the restricted token.
    pub restrict_sids: Vec<Sid<MAX_LEN>>,
    /// Restriction flags.
    pub flags: RestrictFlags,
}

impl<const MAX_LEN: usize> Default for RestrictSpec<MAX_LEN> {
    /// A restriction that drops nothing, demotes nothing and adds nothing.
    fn default() -> (s: RestrictSpec<MAX_LEN>)
        ensures
            s.privs_to_delete == Privileges(0),
            s.deny_group_indices@ == Seq::<u32>::empty(),
            s.restrict_sids@ == Seq::<Sid<MAX_LEN>>::empty(),
            s.flags == RestrictFlags(0),
    {
        RestrictSpec {
            privs_to_delete: Privileges(0),
            deny_group_indices: Vec::new(),
            restrict_sids: Vec::new(),
            flags: RestrictFlags(0),
        }
    }
}

/// The arguments of a restriction.
#[derive(Debug)]
pub struct RestrictRequest<'a> {
    /// The privilege bits to delete.
    pub privs_to_delete: u64,
    /// The group indices to demote.
    pub deny_group_indices: &'a [u32],
    /// The number of group indices, cut to 32 bits.
    pub deny_count: u32,
    /// The bytes of each restricting SID, in order.
    pub restrict_sids: Vec<&'a [u8]>,
    /// The number of restricting SIDs, cut to 32 bits.
    pub restrict_count: u32,
    /// The flag bits.
    pub flags: u32,
}

impl<const MAX_LEN: usize> RestrictSpec<MAX_LEN> {
    /// The arguments of this restriction.
    pub fn request(&self) -> (q: RestrictRequest<'_>)
        ensures
            q.privs_to_delete == self.privs_to_delete.0,
            q.deny_group_indices@ == self.deny_group_indices@,
            q.deny_count == self.deny_group_indices@.len() as u32,
            q.restrict_sids@.len() == self.restrict_sids@.len(),
            forall|i: int|
                0 <= i < q.restrict_sids@.len() ==> (#[trigger] q.restrict_sids@[i])@
                    == self.restrict_sids@[i]@,
            q.restrict_count == self.restrict_sids@.len() as u32,
            q.flags == self.flags.0,
    {
        let mut sids: Vec<&[u8]> = Vec::new();
        let mut i: usize = 0;
        while i < self.restrict_sids.len()
            invariant
                i <= self.restrict_sids@.len(),
                sids@.len() == i,
                forall|j: int| 0 <= j < i ==> (#[trigger] sids@[j])@ == self.restrict_sids@[j]@,
            decreases self.restrict_sids@.len() - i,
        {
            let bytes = self.restrict_sids[i].as_bytes();
            sids.push(bytes);
            i = i + 1;
        }
        RestrictRequest {
            privs_to_delete: self.privs_to_delete.0,
            deny_group_indices: self.deny_group_indices.as_slice(),
            deny_count: self.deny_group_indices.len() as u32,
            restrict_sids: sids,
            restrict_count: self.restrict_sids.len() as u32,
            flags: self.flags.0,
        }
    }
}

// ---- impersonating ----------------------------------------------------------

/// An active impersonation that reverts the calling thread to its real identity
/// when its guard is dropped.
///
/// The kernel's revert clears impersonation entirely, so impersonations do not
/// nest. [`revert`](Self::revert) observes the result; the drop is a best-effort
/// backstop that cannot report a failure.
#[derive(Debug, PartialEq, Eq, Structural)]
#[must_use]
pub struct Impersonation {
    /// Whether the drop has to revert.
    pub active: bool,
}

impl Impersonation {
    /// What the reply to an impersonation means: a guard that has to revert, or
    /// a failure, with nothing to revert.
    pub fn begin(ret: i32, errno: i32) -> (r: Result<Impersonation>)
        ensures
            r == (if ret == 0 {
                Ok::<Impersonation, Error>(Impersonation { active: true })
            } else {
                Err::<Impersonation, Error>(Error { errno })
            }),
    {
        if ret == 0 {
            Ok(Impersonation { active: true })
        } else {
            Err(Error { errno })
        }
    }

    /// Take the reply of a revert that was asked for now instead of at the drop.
    /// Whatever it was, the drop does not revert again.
    pub fn revert(&mut self, ret: i32, errno: i32) -> (r: Result<()>)
        ensures
            !final(self).active,
            r == crate::util::checked(ret, errno),
    {
        self.active = false;
        crate::util::check_reply(ret, errno)
    }

    /// Whether the drop has to revert.
    pub fn reverts_on_drop(&self) -> (call: bool)
        ensures
            call == self.active,
    {
        self.active
    }
}

// ---- logon sessions ---------------------------------------------------------

/// The kind of a logon session.
#[derive(Debug, Clone, Copy, PartialEq, Eq, Hash, Structural)]
pub enum LogonType {
    /// Interactive logon.
    Interactive,
    /// Network logon.
    Network,
    /// Batch logon.
    Batch,
    /// Service logon.
    Service,
    /// Cleartext network logon.
    NetworkCleartext,
    /// New-credentials logon.
    NewCredentials,
}

/// The header's codes of the logon types.
#[derive(Debug, Clone, Copy, PartialEq, Eq, Structural)]
pub struct LogonTypeCodes {
    /// `KACS_LOGON_TYPE_INTERACTIVE`.
    pub interactive: u32,
    /// `KACS_LOGON_TYPE_NETWORK`.
    pub network: u32,
    /// `KACS_LOGON_TYPE_BATCH`.
    pub batch: u32,
    /// `KACS_LOGON_TYPE_SERVICE`.
    pub service: u32,
    /// `KACS_LOGON_TYPE_NETWORK_CLEARTEXT`.
    pub network_cleartext: u32,
    /// `KACS_LOGON_TYPE_NEW_CREDENTIALS`.
    pub new_credentials: u32,
}

impl LogonTypeCodes {
    /// The code of a logon type.
    pub open spec fn code(self, ty: LogonType) -> u32 {
        match ty {
            LogonType::Interactive => self.interactive,
            LogonType::Network => self.network,
            LogonType::Batch => self.batch,
            LogonType::Service => self.service,
            LogonType::NetworkCleartext => self.network_cleartext,
            LogonType::NewCredentials => self.new_credentials,
        }
    }
}

impl LogonType {
    /// The code of this type, cut to a byte.
    pub fn to_raw(self, codes: LogonTypeCodes) -> (v: u8)
        ensures
            v == codes.code(self) as u8,
    {
        match self {
            LogonType::Interactive => codes.interactive as u8,
            LogonType::Network => codes.network as u8,
            LogonType::Batch => codes.batch as u8,
            LogonType::Service => codes.service as u8,
            LogonType::NetworkCleartext => codes.network_cleartext as u8,
            LogonType::NewCredentials => codes.new_credentials as u8,
        }
    }
}

/// The arguments of creating a logon session.
#[derive(Debug)]
pub struct SessionRequest<'a> {
    /// The logon type's byte.
    pub logon_type: u8,
    /// The NUL-terminated name of the authentication package.
    pub auth_package: Vec<u8>,
    /// The bytes of the user's SID.
    pub user_sid: &'a [u8],
}

/// A logon session — the lightweight kernel bookkeeping a token references.
#[derive(Debug, Clone, Copy, PartialEq, Eq, Structural)]
pub struct Session;

impl Session {
    /// The arguments of creating a logon session. A package name with an
    /// interior NUL is `EINVAL`.
    pub fn create<'a>(
        logon_type: LogonType,
        auth_package: &str,
        user_sid: SidRef<'a>,
        codes: LogonTypeCodes,
    ) -> (r: Result<SessionRequest<'a>>)
        ensures
            match r {
                Ok(q) => {
                    &&& q.logon_type == codes.code(logon_type) as u8
                    &&& crate::util::as_c_string(vstd::utf8::encode_utf8(auth_package@))
                        == Ok::<Seq<u8>, Error>(q.auth_package@)
                    &&& q.user_sid@ == user_sid@
                },
                Err(e) => crate::util::as_c_string(vstd::utf8::encode_utf8(auth_package@))
                    == Err::<Seq<u8>, Error>(e),
            },
    {
        match c_string(auth_package.as_bytes()) {
            Ok(auth_package) => Ok(
                SessionRequest {
                    logon_type: logon_type.to_raw(codes),
                    auth_package,
                    user_sid: user_sid.as_bytes(),
                },
            ),
            Err(e) => Err(e),
        }
    }

    /// What the reply to creating a session means: its id.
    pub fn created(ret: i32, errno: i32, id: u64) -> (r: Result<SessionId>)
        ensures
            r == (if ret == 0 {
                Ok::<SessionId, Error>(SessionId(id))
            } else {
                Err::<SessionId, Error>(Error { errno })
            }),
    {
        if ret == 0 {
            Ok(SessionId(id))
        } else {
            Err(Error { errno })
        }
    }
}

// ---- by name and by bit -----------------------------------------------------

/// Every token type has the code of its own name, and a code is read as the type
/// of that name (the first where two share a code), any other as none.
pub proof fn law_token_types_by_name(codes: TokenTypeCodes, v: u32)
    ensures
        codes.code(TokenType::Primary) == codes.primary,
        codes.code(TokenType::Impersonation) == codes.impersonation,
        v == codes.primary ==> TokenType::of_code(v, codes) == Some(TokenType::Primary),
        v == codes.impersonation && v != codes.primary
            ==> TokenType::of_code(v, codes) == Some(TokenType::Impersonation),
        v != codes.primary && v != codes.impersonation ==> TokenType::of_code(v, codes) is None,
{
}

/// Every impersonation level has the code of its own name.
pub proof fn law_impersonation_levels_by_name(codes: ImpersonationLevelCodes)
    ensures
        codes.code(ImpersonationLevel::Anonymous) == codes.anonymous,
        codes.code(ImpersonationLevel::Identification) == codes.identification,
        codes.code(ImpersonationLevel::Impersonation) == codes.impersonation,
        codes.code(ImpersonationLevel::Delegation) == codes.delegation,
{
}

/// Every logon type has the code of its own name.
pub proof fn law_logon_types_by_name(codes: LogonTypeCodes)
    ensures
        codes.code(LogonType::Interactive) == codes.interactive,
        codes.code(LogonType::Network) == codes.network,
        codes.code(LogonType::Batch) == codes.batch,
        codes.code(LogonType::Service) == codes.service,
        codes.code(LogonType::NetworkCleartext) == codes.network_cleartext,
        codes.code(LogonType::NewCredentials) == codes.new_credentials,
{
}

/// A group adjustment keeps its index, and asks with `1` to enable and with `0` to
/// disable.
pub proof fn law_group_entry_by_name(a: GroupAdjustment)
    ensures
        group_entry(a).index == a.index,
        a.enable ==> group_entry(a).enable == 1,
        !a.enable ==> group_entry(a).enable == 0,
{
}

/// An index is passed as it is, and none as `0xFFFF`.
pub proof fn law_index_argument(i: u16)
    ensures
        index_or_unchanged(Some(i)) == i,
        index_or_unchanged(None) == 0xFFFF,
{
}

/// A group is enabled exactly where its binary digit is one: that of weight
/// `2^(index % 64)` in word `index / 64`. Beyond the words no group is enabled. The
/// other digits do not matter.
pub proof fn law_group_enabled_is_its_digit<const WORDS: usize>(mask: GroupMask<WORDS>, index: nat)
    ensures
        mask.enabled(index as int) <==> {
            &&& index / 64 < WORDS
            &&& (mask.0@[(index / 64) as int] as nat / pow2(index % 64)) % 2 == 1
        },
{
    if index / 64 < WORDS {
        let word: u64 = mask.0@[(index / 64) as int];
        let bit: u64 = (index % 64) as u64;
        let shifted: u64 = word >> bit;
        assert(word & (1u64 << bit) != 0 <==> (word >> bit) % 2 == 1) by (bit_vector)
            requires
                bit < 64,
        ;
        vstd::bits::lemma_u64_shr_is_div(word, bit);
        assert(shifted == word as nat / pow2(index % 64));
    }
}

/// Setting a group's bit enables that group, clearing it disables it, and neither
/// changes any other group, whatever the rest of the mask holds.
pub proof fn law_group_bits_are_independent<const WORDS: usize>(
    mask: GroupMask<WORDS>,
    with_bit: GroupMask<WORDS>,
    without_bit: GroupMask<WORDS>,
    index: nat,
    other: nat,
)
    requires
        index / 64 < WORDS,
        forall|w: int|
            0 <= w < WORDS ==> #[trigger] with_bit.0@[w] == (if w == index / 64 {
                mask.0@[w] | (1u64 << ((index % 64) as u64))
            } else {
                mask.0@[w]
            }),
        forall|w: int|
            0 <= w < WORDS ==> #[trigger] without_bit.0@[w] == (if w == index / 64 {
                mask.0@[w] & !(1u64 << ((index % 64) as u64))
            } else {
                mask.0@[w]
            }),
    ensures
        with_bit.enabled(index as int),
        !without_bit.enabled(index as int),
        other != index ==> with_bit.enabled(other as int) == mask.enabled(other as int),
        other != index ==> without_bit.enabled(other as int) == mask.enabled(other as int),
{
    let word: u64 = mask.0@[(index / 64) as int];
    let a: u64 = (index % 64) as u64;
    let b: u64 = (other % 64) as u64;
    assert((word | (1u64 << a)) & (1u64 << a) != 0) by (bit_vector)
        requires
            a < 64,
    ;
    assert((word & !(1u64 << a)) & (1u64 << a) == 0) by (bit_vector);
    if a != b {
        assert((word | (1u64 << a)) & (1u64 << b) == word & (1u64 << b)) by (bit_vector)
            requires
                a < 64,
                b < 64,
                a != b,
        ;
        assert((word & !(1u64 << a)) & (1u64 << b) == word & (1u64 << b)) by (bit_vector)
            requires
                a < 64,
                b < 64,
                a != b,
        ;
    }
    assert(with_bit.0@[(index / 64) as int] == word | (1u64 << a));
    assert(without_bit.0@[(index / 64) as int] == word & !(1u64 << a));
    if other / 64 < WORDS {
        let w = (other / 64) as int;
        assert(w != index / 64 ==> with_bit.0@[w] == mask.0@[w] && without_bit.0@[w] == mask.0@[w]);
    }
}

} // verus!
