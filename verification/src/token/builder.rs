//! The token-spec builder.
//!
//! The wire format of a token spec is libpeios'. The builder keeps the log of
//! what is to be set, in order, and the log is played into libpeios' builder
//! when the spec is serialized or the token minted. What cannot cross the C
//! interface at all is found here, and latches like an error of libpeios'
//! builder: the first error, of whichever of the two, wins and surfaces at the
//! end. So that it can be told which came first, the builder keeps how much had
//! been logged when the first error was found here.
use crate::error::{Error, Result, EINVAL};
use crate::security::{Acl, IntegrityLevel, Privileges, SidRef};
use crate::token::claim::{Claim, ClaimSpec, ClaimSpecModel, ClaimTypeCodes};
use crate::token::{
    AuditPolicy, ImpersonationLevel, ImpersonationLevelCodes, MandatoryPolicy, SessionId, TokenType,
    TokenTypeCodes,
};
use crate::util::{c_string, check_fd_reply, owned_bytes};
use vstd::prelude::*;
use vstd::slice::{slice_subrange, slice_to_vec};

verus! {

/// The fixed width of a token source name.
pub const SOURCE_NAME_LEN: usize = 8;

/// The four token-spec boolean flags.
#[derive(Debug, Clone, Copy, PartialEq, Eq, Structural)]
pub struct TokenFlags {
    /// The token is write-restricted.
    pub write_restricted: bool,
    /// The user SID is deny-only.
    pub user_deny_only: bool,
    /// The token marks an isolation boundary.
    pub isolation_boundary: bool,
    /// The token is exempt from confinement.
    pub confinement_exempt: bool,
}

impl Default for TokenFlags {
    /// No flag set.
    fn default() -> (f: TokenFlags)
        ensures
            f == (TokenFlags {
                write_restricted: false,
                user_deny_only: false,
                isolation_boundary: false,
                confinement_exempt: false,
            }),
    {
        TokenFlags {
            write_restricted: false,
            user_deny_only: false,
            isolation_boundary: false,
            confinement_exempt: false,
        }
    }
}

/// The LCS registry-credentials extension: the layer scope GUIDs a token may
/// resolve plus the private layer names it owns.
#[derive(Debug, Clone, PartialEq, Eq)]
pub struct LcsCredentials {
    /// Layer scope GUIDs (each 16 bytes, non-nil and unique).
    pub scope_guids: Vec<[u8; 16]>,
    /// Private layer names the token owns (UTF-8, no interior NUL).
    pub private_layers: Vec<String>,
}

impl Default for LcsCredentials {
    /// No scope and no private layer.
    fn default() -> (c: LcsCredentials)
        ensures
            c.scope_guids@ == Seq::<[u8; 16]>::empty(),
            c.private_layers@ == Seq::<String>::empty(),
    {
        LcsCredentials { scope_guids: Vec::new(), private_layers: Vec::new() }
    }
}

/// Registry credentials as the call takes them.
#[derive(Debug)]
pub struct LcsSpec {
    /// The scope GUIDs.
    pub scope_guids: Vec<[u8; 16]>,
    /// The NUL-terminated names of the private layers.
    pub private_layers: Vec<Vec<u8>>,
}

/// An [`LcsSpec`] as values.
#[verifier::ext_equal]
pub struct LcsSpecModel {
    /// The scope GUIDs.
    pub scope_guids: Seq<[u8; 16]>,
    /// The NUL-terminated names of the private layers.
    pub private_layers: Seq<Seq<u8>>,
}

impl View for LcsSpec {
    type V = LcsSpecModel;

    open spec fn view(&self) -> LcsSpecModel {
        LcsSpecModel {
            scope_guids: self.scope_guids@,
            private_layers: self.private_layers@.map_values(|l: Vec<u8>| l@),
        }
    }
}

impl LcsCredentials {
    /// Whether every private-layer name can cross the C interface.
    pub open spec fn passable(self) -> bool {
        forall|i: int|
            0 <= i < self.private_layers@.len() ==> !vstd::utf8::encode_utf8(
                (#[trigger] self.private_layers@[i])@,
            ).contains(0u8)
    }

    /// These credentials as the call takes them.
    pub open spec fn as_call_credentials(self) -> LcsSpecModel {
        LcsSpecModel {
            scope_guids: self.scope_guids@,
            private_layers: self.private_layers@.map_values(
                |l: String| vstd::utf8::encode_utf8(l@).push(0u8),
            ),
        }
    }

    /// These credentials as the call takes them, or `EINVAL` where a layer name
    /// holds a NUL.
    pub fn to_call(&self) -> (r: Result<LcsSpec>)
        ensures
            match r {
                Ok(c) => self.passable() && c@ == self.as_call_credentials(),
                Err(e) => !self.passable() && e.errno == EINVAL,
            },
    {
        let mut layers: Vec<Vec<u8>> = Vec::new();
        for i in 0..self.private_layers.len()
            invariant
                layers@.len() == i,
                forall|j: int|
                    0 <= j < i ==> (#[trigger] layers@[j])@ == vstd::utf8::encode_utf8(
                        self.private_layers@[j]@,
                    ).push(0u8),
                forall|j: int|
                    0 <= j < i ==> !vstd::utf8::encode_utf8(
                        (#[trigger] self.private_layers@[j])@,
                    ).contains(0u8),
        {
            match c_string(self.private_layers[i].as_str().as_bytes()) {
                Ok(l) => layers.push(l),
                Err(e) => {
                    assert(vstd::utf8::encode_utf8(self.private_layers@[i as int]@).contains(0u8));
                    return Err(e);
                },
            }
        }
        let mut guids: Vec<[u8; 16]> = Vec::new();
        for i in 0..self.scope_guids.len()
            invariant
                guids@ == self.scope_guids@.take(i as int),
        {
            guids.push(self.scope_guids[i]);
            assert(guids@ =~= self.scope_guids@.take(i + 1));
        }
        let c = LcsSpec { scope_guids: guids, private_layers: layers };
        assert(c@.scope_guids =~= self.scope_guids@);
        assert(c@.private_layers =~= self.as_call_credentials().private_layers);
        Ok(c)
    }
}

// ---- the log ----------------------------------------------------------------

/// One entry of a token-spec builder's log.
#[derive(Debug)]
pub enum TokenOp {
    /// Set the user SID.
    User(Vec<u8>),
    /// Append a group SID with attribute bits.
    AddGroup(Vec<u8>, u32),
    /// Set the present and enabled privilege bits.
    Privileges(u64, u64),
    /// Set the bytes of the token type and the impersonation level.
    Type(u8, u8),
    /// Set the integrity RID.
    Integrity(u32),
    /// Set the logon-session id.
    Session(u64),
    /// Set the owner index.
    OwnerIndex(u32),
    /// Set the primary-group index.
    PrimaryGroupIndex(u32),
    /// Set the default DACL.
    DefaultDacl(Vec<u8>),
    /// Set the boolean flags.
    Flags(TokenFlags),
    /// Set the projected uid and gid.
    ProjectedIds(u32, u32),
    /// Set the supplementary projected gids.
    SupplementaryGids(Vec<u32>),
    /// Set the mandatory-policy bits.
    MandatoryPolicy(u32),
    /// Set the audit-policy bits.
    AuditPolicy(u32),
    /// Set the expiry timestamp.
    Expiration(u64),
    /// Set the zero-padded source name and the source id.
    Source([u8; 8], u64),
    /// Append a restricting SID with attribute bits.
    AddRestrictedSid(Vec<u8>, u32),
    /// Append a device-group SID with attribute bits.
    AddDeviceGroup(Vec<u8>, u32),
    /// Set the confinement SID.
    Confinement(Vec<u8>),
    /// Append a user claim.
    AddUserClaim(ClaimSpec),
    /// Append a device claim.
    AddDeviceClaim(ClaimSpec),
    /// Set the registry credentials.
    LcsCredentials(LcsSpec),
}

/// A [`TokenOp`] as values.
pub enum TokenOpModel {
    /// Set the user SID.
    User(Seq<u8>),
    /// Append a group SID with attribute bits.
    AddGroup(Seq<u8>, u32),
    /// Set the present and enabled privilege bits.
    Privileges(u64, u64),
    /// Set the bytes of the token type and the impersonation level.
    Type(u8, u8),
    /// Set the integrity RID.
    Integrity(u32),
    /// Set the logon-session id.
    Session(u64),
    /// Set the owner index.
    OwnerIndex(u32),
    /// Set the primary-group index.
    PrimaryGroupIndex(u32),
    /// Set the default DACL.
    DefaultDacl(Seq<u8>),
    /// Set the boolean flags.
    Flags(TokenFlags),
    /// Set the projected uid and gid.
    ProjectedIds(u32, u32),
    /// Set the supplementary projected gids.
    SupplementaryGids(Seq<u32>),
    /// Set the mandatory-policy bits.
    MandatoryPolicy(u32),
    /// Set the audit-policy bits.
    AuditPolicy(u32),
    /// Set the expiry timestamp.
    Expiration(u64),
    /// Set the zero-padded source name and the source id.
    Source(Seq<u8>, u64),
    /// Append a restricting SID with attribute bits.
    AddRestrictedSid(Seq<u8>, u32),
    /// Append a device-group SID with attribute bits.
    AddDeviceGroup(Seq<u8>, u32),
    /// Set the confinement SID.
    Confinement(Seq<u8>),
    /// Append a user claim.
    AddUserClaim(ClaimSpecModel),
    /// Append a device claim.
    AddDeviceClaim(ClaimSpecModel),
    /// Set the registry credentials.
    LcsCredentials(LcsSpecModel),
}

impl View for TokenOp {
    type V = TokenOpModel;

    open spec fn view(&self) -> TokenOpModel {
        match *self {
            TokenOp::User(sid) => TokenOpModel::User(sid@),
            TokenOp::AddGroup(sid, attrs) => TokenOpModel::AddGroup(sid@, attrs),
            TokenOp::Privileges(present, enabled) => TokenOpModel::Privileges(present, enabled),
            TokenOp::Type(ty, level) => TokenOpModel::Type(ty, level),
            TokenOp::Integrity(rid) => TokenOpModel::Integrity(rid),
            TokenOp::Session(id) => TokenOpModel::Session(id),
            TokenOp::OwnerIndex(i) => TokenOpModel::OwnerIndex(i),
            TokenOp::PrimaryGroupIndex(i) => TokenOpModel::PrimaryGroupIndex(i),
            TokenOp::DefaultDacl(acl) => TokenOpModel::DefaultDacl(acl@),
            TokenOp::Flags(f) => TokenOpModel::Flags(f),
            TokenOp::ProjectedIds(uid, gid) => TokenOpModel::ProjectedIds(uid, gid),
            TokenOp::SupplementaryGids(gids) => TokenOpModel::SupplementaryGids(gids@),
            TokenOp::MandatoryPolicy(bits) => TokenOpModel::MandatoryPolicy(bits),
            TokenOp::AuditPolicy(bits) => TokenOpModel::AuditPolicy(bits),
            TokenOp::Expiration(when_) => TokenOpModel::Expiration(when_),
            TokenOp::Source(name, id) => TokenOpModel::Source(name@, id),
            TokenOp::AddRestrictedSid(sid, attrs) => TokenOpModel::AddRestrictedSid(sid@, attrs),
            TokenOp::AddDeviceGroup(sid, attrs) => TokenOpModel::AddDeviceGroup(sid@, attrs),
            TokenOp::Confinement(sid) => TokenOpModel::Confinement(sid@),
            TokenOp::AddUserClaim(c) => TokenOpModel::AddUserClaim(c@),
            TokenOp::AddDeviceClaim(c) => TokenOpModel::AddDeviceClaim(c@),
            TokenOp::LcsCredentials(c) => TokenOpModel::LcsCredentials(c@),
        }
    }
}

/// A builder for a token spec: what is to be set, in order, and the first error
/// that was found on the way.
///
/// Index conventions follow the wire format: owner / primary-group / restrict
/// indices are 0 for the user SID and 1..N for the Nth added group.
#[derive(Debug)]
pub struct TokenBuilder {
    ops: Vec<TokenOp>,
    pending: i32,
    pending_at: usize,
}

/// A [`TokenBuilder`] as values.
#[verifier::ext_equal]
pub struct TokenBuilderModel {
    /// The log.
    pub ops: Seq<TokenOpModel>,
    /// The errno of the first error found here; `0` is none.
    pub pending: i32,
    /// The length of the log when that error was found.
    pub pending_at: nat,
}

impl View for TokenBuilder {
    type V = TokenBuilderModel;

    closed spec fn view(&self) -> TokenBuilderModel {
        TokenBuilderModel {
            ops: self.ops@.map_values(|op: TokenOp| op@),
            pending: self.pending,
            pending_at: self.pending_at as nat,
        }
    }
}

impl TokenBuilderModel {
    /// An empty builder.
    pub open spec fn empty() -> TokenBuilderModel {
        TokenBuilderModel { ops: Seq::empty(), pending: 0, pending_at: 0 }
    }

    /// The builder with one more entry in its log.
    pub open spec fn logged(self, op: TokenOpModel) -> TokenBuilderModel {
        TokenBuilderModel { ops: self.ops.push(op), ..self }
    }

    /// The builder after an error was found: the first one wins.
    pub open spec fn latched(self, errno: i32) -> TokenBuilderModel {
        if self.pending == 0 {
            TokenBuilderModel { pending: errno, pending_at: self.ops.len(), ..self }
        } else {
            self
        }
    }

    /// What was logged before the first error was found here: all of it where
    /// none was.
    pub open spec fn ops_before_error(self) -> Seq<TokenOpModel> {
        if self.pending == 0 {
            self.ops
        } else {
            self.ops.take(self.pending_at as int)
        }
    }

    /// The first error, given the errno that libpeios' builder latched on what
    /// was logged before an error was found here, and the one that it latched on
    /// the whole log (`0` is none).
    pub open spec fn error(self, before: i32, c_err: i32) -> Result<()> {
        if before != 0 {
            Err(Error { errno: before })
        } else if self.pending != 0 {
            Err(Error { errno: self.pending })
        } else if c_err != 0 {
            Err(Error { errno: c_err })
        } else {
            Ok(())
        }
    }

    /// The builder after a claim was added: one whose name holds a NUL latches
    /// `EINVAL` and is not logged.
    pub open spec fn claimed(
        self,
        claim: Result<ClaimSpecModel>,
        op: spec_fn(ClaimSpecModel) -> TokenOpModel,
    ) -> TokenBuilderModel {
        match claim {
            Ok(c) => self.logged(op(c)),
            Err(e) => self.latched(e.errno),
        }
    }
}

/// A source name in its fixed field: padded with zeros.
pub open spec fn padded_name(name: Seq<u8>) -> Seq<u8> {
    Seq::new(
        SOURCE_NAME_LEN as nat,
        |i: int|
            if i < name.len() {
                name[i]
            } else {
                0u8
            },
    )
}

impl TokenBuilder {
    #[verifier::type_invariant]
    spec fn found_within_log(self) -> bool {
        self.pending_at <= self.ops@.len()
    }

    /// Create an empty token-spec builder.
    pub fn new() -> (b: TokenBuilder)
        ensures
            b@ == TokenBuilderModel::empty(),
    {
        let b = TokenBuilder { ops: Vec::new(), pending: 0, pending_at: 0 };
        assert(b@.ops =~= Seq::<TokenOpModel>::empty());
        b
    }

    fn log(&mut self, op: TokenOp)
        ensures
            final(self)@ == old(self)@.logged(op@),
    {
        proof {
            use_type_invariant(&*self);
        }
        let pending_at: usize = self.pending_at;
        self.pending_at = 0;
        let mut ops: Vec<TokenOp> = Vec::new();
        core::mem::swap(&mut ops, &mut self.ops);
        ops.push(op);
        self.ops = ops;
        self.pending_at = pending_at;
        assert(self@.ops =~= old(self)@.ops.push(op@));
    }

    /// Latch an error found here (the first one wins).
    pub fn latch(&mut self, errno: i32)
        ensures
            final(self)@ == old(self)@.latched(errno),
    {
        proof {
            use_type_invariant(&*self);
        }
        if self.pending == 0 {
            self.pending = errno;
            self.pending_at = self.ops.len();
        }
    }

    /// The log, to be played into libpeios' builder from first to last.
    pub fn ops(&self) -> (ops: &[TokenOp])
        ensures
            ops@.map_values(|op: TokenOp| op@) == self@.ops,
    {
        self.ops.as_slice()
    }

    /// The entries of the log that precede the first error found here: all of
    /// them where none was found.
    pub fn ops_before_error(&self) -> (ops: &[TokenOp])
        ensures
            ops@.map_values(|op: TokenOp| op@) == self@.ops_before_error(),
    {
        proof {
            use_type_invariant(self);
        }
        if self.pending == 0 {
            return self.ops.as_slice();
        }
        let ops = slice_subrange(self.ops.as_slice(), 0, self.pending_at);
        assert(ops@.map_values(|op: TokenOp| op@) =~= self@.ops_before_error());
        ops
    }

    /// Reset to empty, clearing the latched error, reusing the builder.
    pub fn reset(&mut self) -> (b: &mut Self)
        ensures
            b@ == TokenBuilderModel::empty(),
            *final(self) == *final(b),
    {
        self.pending_at = 0;
        self.pending = 0;
        self.ops = Vec::new();
        assert(self@.ops =~= Seq::<TokenOpModel>::empty());
        self
    }

    /// Set the user SID (index 0).
    pub fn user(&mut self, sid: SidRef<'_>) -> (b: &mut Self)
        ensures
            b@ == old(self)@.logged(TokenOpModel::User(sid@)),
            *final(self) == *final(b),
    {
        self.log(TokenOp::User(slice_to_vec(sid.as_bytes())));
        self
    }

    /// Append a group SID with attribute bits.
    pub fn add_group(&mut self, sid: SidRef<'_>, attrs: u32) -> (b: &mut Self)
        ensures
            b@ == old(self)@.logged(TokenOpModel::AddGroup(sid@, attrs)),
            *final(self) == *final(b),
    {
        self.log(TokenOp::AddGroup(slice_to_vec(sid.as_bytes()), attrs));
        self
    }

    /// Set the present and enabled privilege masks.
    pub fn privileges(&mut self, present: Privileges, enabled: Privileges) -> (b: &mut Self)
        ensures
            b@ == old(self)@.logged(TokenOpModel::Privileges(present.0, enabled.0)),
            *final(self) == *final(b),
    {
        self.log(TokenOp::Privileges(present.0, enabled.0));
        self
    }

    /// Set the token type and impersonation level.
    pub fn token_type(
        &mut self,
        ty: TokenType,
        imp_level: ImpersonationLevel,
        types: TokenTypeCodes,
        levels: ImpersonationLevelCodes,
    ) -> (b: &mut Self)
        ensures
            b@ == old(self)@.logged(
                TokenOpModel::Type(types.code(ty) as u8, levels.code(imp_level) as u8),
            ),
            *final(self) == *final(b),
    {
        self.log(TokenOp::Type(ty.to_raw(types), imp_level.to_raw(levels)));
        self
    }

    /// Set the integrity level.
    pub fn integrity(&mut self, level: IntegrityLevel) -> (b: &mut Self)
        ensures
            b@ == old(self)@.logged(TokenOpModel::Integrity(level.0)),
            *final(self) == *final(b),
    {
        self.log(TokenOp::Integrity(level.rid()));
        self
    }

    /// Set the logon-session id.
    pub fn session(&mut self, session: SessionId) -> (b: &mut Self)
        ensures
            b@ == old(self)@.logged(TokenOpModel::Session(session.0)),
            *final(self) == *final(b),
    {
        self.log(TokenOp::Session(session.0));
        self
    }

    /// Set the owner index (0 = user, 1..N = the Nth group).
    pub fn owner_index(&mut self, index: u32) -> (b: &mut Self)
        ensures
            b@ == old(self)@.logged(TokenOpModel::OwnerIndex(index)),
            *final(self) == *final(b),
    {
        self.log(TokenOp::OwnerIndex(index));
        self
    }

    /// Set the primary-group index.
    pub fn primary_group_index(&mut self, index: u32) -> (b: &mut Self)
        ensures
            b@ == old(self)@.logged(TokenOpModel::PrimaryGroupIndex(index)),
            *final(self) == *final(b),
    {
        self.log(TokenOp::PrimaryGroupIndex(index));
        self
    }

    /// Set the default DACL.
    pub fn default_dacl(&mut self, acl: &Acl) -> (b: &mut Self)
        ensures
            b@ == old(self)@.logged(TokenOpModel::DefaultDacl(acl@)),
            *final(self) == *final(b),
    {
        self.log(TokenOp::DefaultDacl(slice_to_vec(acl.as_bytes())));
        self
    }

    /// Set the four token-spec boolean flags.
    pub fn flags(&mut self, flags: TokenFlags) -> (b: &mut Self)
        ensures
            b@ == old(self)@.logged(TokenOpModel::Flags(flags)),
            *final(self) == *final(b),
    {
        self.log(TokenOp::Flags(flags));
        self
    }

    /// Set the projected POSIX uid/gid.
    pub fn projected_ids(&mut self, uid: u32, gid: u32) -> (b: &mut Self)
        ensures
            b@ == old(self)@.logged(TokenOpModel::ProjectedIds(uid, gid)),
            *final(self) == *final(b),
    {
        self.log(TokenOp::ProjectedIds(uid, gid));
        self
    }

    /// Set the supplementary projected GIDs.
    pub fn supplementary_gids(&mut self, gids: &[u32]) -> (b: &mut Self)
        ensures
            b@ == old(self)@.logged(TokenOpModel::SupplementaryGids(gids@)),
            *final(self) == *final(b),
    {
        self.log(TokenOp::SupplementaryGids(slice_to_vec(gids)));
        self
    }

    /// Set the integrity mandatory policy.
    pub fn mandatory_policy(&mut self, policy: MandatoryPolicy) -> (b: &mut Self)
        ensures
            b@ == old(self)@.logged(TokenOpModel::MandatoryPolicy(policy.0)),
            *final(self) == *final(b),
    {
        self.log(TokenOp::MandatoryPolicy(policy.0));
        self
    }

    /// Set the per-token audit policy.
    pub fn audit_policy(&mut self, policy: AuditPolicy) -> (b: &mut Self)
        ensures
            b@ == old(self)@.logged(TokenOpModel::AuditPolicy(policy.0)),
            *final(self) == *final(b),
    {
        self.log(TokenOp::AuditPolicy(policy.0));
        self
    }

    /// Set the token's expiry timestamp (`0` = never expires).
    pub fn expiration(&mut self, when_: u64) -> (b: &mut Self)
        ensures
            b@ == old(self)@.logged(TokenOpModel::Expiration(when_)),
            *final(self) == *final(b),
    {
        self.log(TokenOp::Expiration(when_));
        self
    }

    /// Set the token source: a name of up to eight bytes and a source id. A
    /// longer name latches `EINVAL` and sets nothing.
    pub fn source(&mut self, name: &str, source_id: u64) -> (b: &mut Self)
        ensures
            b@ == (if vstd::utf8::encode_utf8(name@).len() > SOURCE_NAME_LEN {
                old(self)@.latched(EINVAL)
            } else {
                old(self)@.logged(
                    TokenOpModel::Source(padded_name(vstd::utf8::encode_utf8(name@)), source_id),
                )
            }),
            *final(self) == *final(b),
    {
        let bytes = name.as_bytes();
        if bytes.len() > SOURCE_NAME_LEN {
            self.latch(EINVAL);
            return self;
        }
        let mut buf: [u8; 8] = [0u8; 8];
        for i in 0..bytes.len()
            invariant
                bytes@.len() <= 8,
                forall|j: int| 0 <= j < i ==> buf@[j] == bytes@[j],
                forall|j: int| i <= j < 8 ==> buf@[j] == 0,
        {
            buf[i] = bytes[i];
        }
        assert(buf@ =~= padded_name(bytes@));
        self.log(TokenOp::Source(buf, source_id));
        self
    }

    /// Append a restricting SID with attribute bits. Restricting SIDs filter the
    /// token: access requires a grant to both the normal and the restricted set.
    pub fn add_restricted_sid(&mut self, sid: SidRef<'_>, attrs: u32) -> (b: &mut Self)
        ensures
            b@ == old(self)@.logged(TokenOpModel::AddRestrictedSid(sid@, attrs)),
            *final(self) == *final(b),
    {
        self.log(TokenOp::AddRestrictedSid(slice_to_vec(sid.as_bytes()), attrs));
        self
    }

    /// Append a device-group SID with attribute bits.
    pub fn add_device_group(&mut self, sid: SidRef<'_>, attrs: u32) -> (b: &mut Self)
        ensures
            b@ == old(self)@.logged(TokenOpModel::AddDeviceGroup(sid@, attrs)),
            *final(self) == *final(b),
    {
        self.log(TokenOp::AddDeviceGroup(slice_to_vec(sid.as_bytes()), attrs));
        self
    }

    /// Set the confinement SID, sandboxing the token to a confinement domain.
    pub fn confinement(&mut self, sid: SidRef<'_>) -> (b: &mut Self)
        ensures
            b@ == old(self)@.logged(TokenOpModel::Confinement(sid@)),
            *final(self) == *final(b),
    {
        self.log(TokenOp::Confinement(slice_to_vec(sid.as_bytes())));
        self
    }

    /// Append a user claim. A name with an interior NUL latches `EINVAL`, and
    /// the claim is not added.
    pub fn add_user_claim<const MAX_LEN: usize>(
        &mut self,
        claim: &Claim<MAX_LEN>,
        codes: ClaimTypeCodes,
    ) -> (b: &mut Self)
        ensures
            b@ == old(self)@.claimed(
                claim.as_call_claim(codes),
                |c: ClaimSpecModel| TokenOpModel::AddUserClaim(c),
            ),
            *final(self) == *final(b),
    {
        match claim.to_call(codes) {
            Ok(c) => self.log(TokenOp::AddUserClaim(c)),
            Err(e) => self.latch(e.errno),
        }
        self
    }

    /// Append a device claim. A name with an interior NUL latches `EINVAL`, and
    /// the claim is not added.
    pub fn add_device_claim<const MAX_LEN: usize>(
        &mut self,
        claim: &Claim<MAX_LEN>,
        codes: ClaimTypeCodes,
    ) -> (b: &mut Self)
        ensures
            b@ == old(self)@.claimed(
                claim.as_call_claim(codes),
                |c: ClaimSpecModel| TokenOpModel::AddDeviceClaim(c),
            ),
            *final(self) == *final(b),
    {
        match claim.to_call(codes) {
            Ok(c) => self.log(TokenOp::AddDeviceClaim(c)),
            Err(e) => self.latch(e.errno),
        }
        self
    }

    /// Set the LCS registry credentials (replaces any prior set). A
    /// private-layer name with an interior NUL latches `EINVAL`, and the
    /// credentials are not set.
    pub fn lcs_credentials(&mut self, creds: &LcsCredentials) -> (b: &mut Self)
        ensures
            b@ == (if creds.passable() {
                old(self)@.logged(TokenOpModel::LcsCredentials(creds.as_call_credentials()))
            } else {
                old(self)@.latched(EINVAL)
            }),
            *final(self) == *final(b),
    {
        match creds.to_call() {
            Ok(c) => self.log(TokenOp::LcsCredentials(c)),
            Err(e) => self.latch(e.errno),
        }
        self
    }

    /// The latched error, if any: the first, whether libpeios' builder latched it
    /// or it was found here.
    ///
    /// `before` is the errno that libpeios' builder latched on
    /// [`ops_before_error`](Self::ops_before_error), and `c_err` the one that it
    /// latched on the whole log (`0` is none).
    pub fn error(&self, before: i32, c_err: i32) -> (r: Result<()>)
        ensures
            r == self@.error(before, c_err),
    {
        if before != 0 {
            return Err(Error { errno: before });
        }
        if self.pending != 0 {
            return Err(Error { errno: self.pending });
        }
        if c_err == 0 {
            Ok(())
        } else {
            Err(Error { errno: c_err })
        }
    }

    /// The bytes of the spec, given the errnos that libpeios' builder latched (as
    /// [`error`](Self::error) takes them) and the reply of its serializing call:
    /// the number of bytes or a failure, and where it points. A latched error
    /// precedes; a success that points nowhere is `EINVAL`.
    pub fn to_bytes(
        &self,
        before: i32,
        c_err: i32,
        n: isize,
        errno: i32,
        bytes: Option<&[u8]>,
    ) -> (r: Result<Vec<u8>>)
        ensures
            self@.error(before, c_err) matches Err(e) ==> r == Err::<Vec<u8>, Error>(e),
            self@.error(before, c_err) is Ok ==> match r {
                Ok(v) => n >= 0 && (bytes matches Some(b) && v@ == b@),
                Err(e) => if n < 0 {
                    e.errno == errno
                } else {
                    bytes is None && e.errno == EINVAL
                },
            },
    {
        match self.error(before, c_err) {
            Ok(()) => owned_bytes(n, errno, bytes),
            Err(e) => Err(e),
        }
    }

    /// The fd of the minted token, given the errnos that libpeios' builder
    /// latched (as [`error`](Self::error) takes them) and the reply of its
    /// minting call. A latched error precedes.
    pub fn create(&self, before: i32, c_err: i32, fd: i32, errno: i32) -> (r: Result<i32>)
        ensures
            r == (match self@.error(before, c_err) {
                Ok(()) => crate::util::checked_fd(fd, errno),
                Err(e) => Err(e),
            }),
    {
        match self.error(before, c_err) {
            Ok(()) => check_fd_reply(fd, errno),
            Err(e) => Err(e),
        }
    }
}

impl Default for TokenBuilder {
    /// An empty builder.
    fn default() -> (b: TokenBuilder)
        ensures
            b@ == TokenBuilderModel::empty(),
    {
        TokenBuilder::new()
    }
}

/// The first error wins. An error that libpeios' builder latched on what was
/// logged before surfaces, and otherwise the first one found here; whatever is
/// logged or found after that changes neither the outcome nor what precedes the
/// error.
pub proof fn law_first_error_wins(
    b: TokenBuilderModel,
    first: i32,
    op: TokenOpModel,
    second: i32,
    before: i32,
    c_err: i32,
)
    requires
        b.pending == 0,
        first != 0,
    ensures
        b.latched(first).logged(op).latched(second).ops_before_error() == b.ops,
        b.latched(first).logged(op).latched(second).error(before, c_err) == Err::<(), Error>(
            Error {
                errno: if before != 0 {
                    before
                } else {
                    first
                },
            },
        ),
        b.latched(first).latched(second) == b.latched(first),
{
    let later = b.latched(first).logged(op).latched(second);
    assert(later.ops_before_error() =~= b.ops);
}

/// Which error surfaces, for a builder of libpeios that latches `latches(log)` on
/// a log and keeps what it latched: its own where it latched before an error was
/// found here, the one found here otherwise, and its own again where none was.
/// Without either there is no error, and an empty builder has none of its own.
pub proof fn law_error_order(b: TokenBuilderModel, latches: spec_fn(Seq<TokenOpModel>) -> i32)
    requires
        b.pending_at <= b.ops.len(),
        forall|log: Seq<TokenOpModel>, op: TokenOpModel|
            latches(log) != 0 ==> #[trigger] latches(log.push(op)) == latches(log),
    ensures
        b.error(latches(b.ops_before_error()), latches(b.ops)) == (if latches(b.ops_before_error())
            != 0 {
            Err::<(), Error>(Error { errno: latches(b.ops) })
        } else if b.pending != 0 {
            Err(Error { errno: b.pending })
        } else {
            Ok(())
        }),
        TokenBuilderModel::empty().error(0, 0) == Ok::<(), Error>(()),
{
    if b.pending != 0 {
        lemma_latched_stays(b.ops, b.pending_at as int, latches);
    }
}

/// What was latched on a part of a log stays latched on all of it.
proof fn lemma_latched_stays(
    log: Seq<TokenOpModel>,
    n: int,
    latches: spec_fn(Seq<TokenOpModel>) -> i32,
)
    requires
        0 <= n <= log.len(),
        forall|log: Seq<TokenOpModel>, op: TokenOpModel|
            latches(log) != 0 ==> #[trigger] latches(log.push(op)) == latches(log),
    ensures
        latches(log.take(n)) != 0 ==> latches(log) == latches(log.take(n)),
    decreases log.len() - n,
{
    if n == log.len() {
        assert(log.take(n) =~= log);
    } else {
        assert(log.take(n).push(log[n]) =~= log.take(n + 1));
        lemma_latched_stays(log, n + 1, latches);
    }
}

/// A source name reads back from its field: what precedes the first NUL, where
/// the name holds none, and all of it where it fills the field.
pub proof fn law_source_name_reads_back(name: Seq<u8>)
    requires
        name.len() <= SOURCE_NAME_LEN,
        !name.contains(0u8),
    ensures
        padded_name(name).len() == SOURCE_NAME_LEN,
        crate::util::read_c_string(padded_name(name)) == name,
{
    let zeros = Seq::new((SOURCE_NAME_LEN - name.len()) as nat, |i: int| 0u8);
    assert(padded_name(name) =~= name + zeros);
    lemma_read_padded(name, zeros);
}

proof fn lemma_read_padded(name: Seq<u8>, zeros: Seq<u8>)
    requires
        !name.contains(0u8),
        forall|i: int| 0 <= i < zeros.len() ==> zeros[i] == 0u8,
    ensures
        crate::util::read_c_string(name + zeros) == name,
    decreases name.len(),
{
    let whole = name + zeros;
    if name.len() == 0 {
        assert(whole =~= zeros);
        assert(crate::util::read_c_string(whole) =~= name);
    } else {
        let rest = name.drop_first();
        assert(name.contains(name[0]));
        assert forall|i: int| 0 <= i < rest.len() implies rest[i] != 0u8 by {
            assert(name.contains(name[i + 1]));
        }
        lemma_read_padded(rest, zeros);
        assert(whole.drop_first() =~= rest + zeros);
        assert(seq![name[0]] + rest =~= name);
    }
}

/// What each step does to a builder: logging puts one entry behind the others and
/// changes nothing else; an error that is found is kept with the length of the log,
/// unless one was found before, and changes nothing else.
pub proof fn law_builder_steps(b: TokenBuilderModel, op: TokenOpModel, errno: i32)
    ensures
        TokenBuilderModel::empty().ops.len() == 0,
        TokenBuilderModel::empty().pending == 0,
        TokenBuilderModel::empty().pending_at == 0,
        b.logged(op).ops.len() == b.ops.len() + 1,
        b.logged(op).ops.last() == op,
        b.logged(op).ops.drop_last() == b.ops,
        b.logged(op).pending == b.pending,
        b.logged(op).pending_at == b.pending_at,
        b.latched(errno).ops == b.ops,
        b.pending == 0 ==> b.latched(errno).pending == errno && b.latched(errno).pending_at
            == b.ops.len(),
        b.pending != 0 ==> b.latched(errno).pending == b.pending && b.latched(errno).pending_at
            == b.pending_at,
{
    assert(b.logged(op).ops.drop_last() =~= b.ops);
}

/// A claim that can be passed is logged and changes nothing else; one that cannot
/// be is not logged, and its error is kept unless one was found before.
pub proof fn law_claim_logged_or_latched(
    b: TokenBuilderModel,
    c: ClaimSpecModel,
    e: Error,
    op: spec_fn(ClaimSpecModel) -> TokenOpModel,
)
    ensures
        b.claimed(Ok(c), op).ops == b.ops.push(op(c)),
        b.claimed(Ok(c), op).pending == b.pending,
        b.claimed(Ok(c), op).pending_at == b.pending_at,
        b.claimed(Err(e), op).ops == b.ops,
        b.claimed(Err(e), op).pending == (if b.pending == 0 {
            e.errno
        } else {
            b.pending
        }),
        b.claimed(Err(e), op).pending_at == (if b.pending == 0 {
            b.ops.len()
        } else {
            b.pending_at
        }),
{
}

/// The log before the first error found here is all of it where none was found,
/// and otherwise as many of its leading entries as there were then.
pub proof fn law_log_before_error(b: TokenBuilderModel)
    requires
        b.pending_at <= b.ops.len(),
    ensures
        b.pending == 0 ==> b.ops_before_error() == b.ops,
        b.pending != 0 ==> b.ops_before_error().len() == b.pending_at,
        forall|i: int|
            0 <= i < b.ops_before_error().len() ==> #[trigger] b.ops_before_error()[i] == b.ops[i],
{
}

/// A builder has no error exactly where none was latched anywhere; otherwise the
/// error is the one that libpeios' builder latched before one was found here, then
/// the one found here, then any that libpeios' builder latched.
pub proof fn law_error_is_the_first(b: TokenBuilderModel, before: i32, c_err: i32)
    ensures
        b.error(before, c_err) is Ok <==> before == 0 && b.pending == 0 && c_err == 0,
        b.error(before, c_err) matches Err(e) ==> {
            &&& e.errno != 0
            &&& before != 0 ==> e.errno == before
            &&& before == 0 && b.pending != 0 ==> e.errno == b.pending
            &&& before == 0 && b.pending == 0 ==> e.errno == c_err
        },
{
}

/// A source name stands in eight bytes: its own first, then zeros.
pub proof fn law_source_name_field(name: Seq<u8>)
    ensures
        padded_name(name).len() == 8,
        forall|i: int|
            0 <= i < 8 && i < name.len() ==> #[trigger] padded_name(name)[i] == name[i],
        forall|i: int| name.len() <= i < 8 ==> #[trigger] padded_name(name)[i] == 0,
{
}

/// Registry credentials are passed as they are: the scope GUIDs in order, and in
/// order the names of the private layers, each with one NUL behind it. They can be
/// passed exactly where no name holds a NUL.
pub proof fn law_credentials_by_name(creds: LcsCredentials, call: LcsSpec)
    requires
        call@ == creds.as_call_credentials(),
    ensures
        call.scope_guids@ == creds.scope_guids@,
        call.private_layers@.len() == creds.private_layers@.len(),
        forall|i: int|
            0 <= i < call.private_layers@.len() ==> (#[trigger] call.private_layers@[i])@
                == vstd::utf8::encode_utf8(creds.private_layers@[i]@).push(0u8),
        creds.passable() <==> forall|i: int, j: int|
            0 <= i < creds.private_layers@.len() && 0 <= j < vstd::utf8::encode_utf8(
                creds.private_layers@[i]@,
            ).len() ==> #[trigger] vstd::utf8::encode_utf8(creds.private_layers@[i]@)[j] != 0,
{
    let names = creds.private_layers@;
    assert(call.private_layers@.map_values(|l: Vec<u8>| l@).len() == names.len());
    assert forall|i: int| 0 <= i < call.private_layers@.len() implies (
    #[trigger] call.private_layers@[i])@ == vstd::utf8::encode_utf8(names[i]@).push(0u8) by {
        assert(call@.private_layers[i] == call.private_layers@[i]@);
    }
    if creds.passable() {
        assert forall|i: int, j: int|
            0 <= i < names.len() && 0 <= j < vstd::utf8::encode_utf8(
                names[i]@,
            ).len() implies #[trigger] vstd::utf8::encode_utf8(names[i]@)[j] != 0 by {
            assert(!vstd::utf8::encode_utf8(names[i]@).contains(0u8));
        }
    } else {
        let i = choose|i: int|
            0 <= i < names.len() && vstd::utf8::encode_utf8((#[trigger] names[i])@).contains(0u8);
        let bytes = vstd::utf8::encode_utf8(names[i]@);
        let j = choose|j: int| 0 <= j < bytes.len() && bytes[j] == 0u8;
        assert(vstd::utf8::encode_utf8(names[i]@)[j] == 0);
    }
}

/// An entry of the log is its kind with its parts, in order.
pub proof fn law_token_log_by_name(
    bytes: Vec<u8>,
    attrs: u32,
    a: u64,
    b: u64,
    ty: u8,
    level: u8,
    other: u32,
    flags: TokenFlags,
    gids: Vec<u32>,
    name: [u8; 8],
)
    ensures
        TokenOp::User(bytes)@ == TokenOpModel::User(bytes@),
        TokenOp::AddGroup(bytes, attrs)@ == TokenOpModel::AddGroup(bytes@, attrs),
        TokenOp::Privileges(a, b)@ == TokenOpModel::Privileges(a, b),
        TokenOp::Type(ty, level)@ == TokenOpModel::Type(ty, level),
        TokenOp::Integrity(attrs)@ == TokenOpModel::Integrity(attrs),
        TokenOp::Session(a)@ == TokenOpModel::Session(a),
        TokenOp::OwnerIndex(attrs)@ == TokenOpModel::OwnerIndex(attrs),
        TokenOp::PrimaryGroupIndex(attrs)@ == TokenOpModel::PrimaryGroupIndex(attrs),
        TokenOp::DefaultDacl(bytes)@ == TokenOpModel::DefaultDacl(bytes@),
        TokenOp::Flags(flags)@ == TokenOpModel::Flags(flags),
        TokenOp::ProjectedIds(attrs, other)@ == TokenOpModel::ProjectedIds(attrs, other),
        TokenOp::SupplementaryGids(gids)@ == TokenOpModel::SupplementaryGids(gids@),
        TokenOp::MandatoryPolicy(attrs)@ == TokenOpModel::MandatoryPolicy(attrs),
        TokenOp::AuditPolicy(attrs)@ == TokenOpModel::AuditPolicy(attrs),
        TokenOp::Expiration(a)@ == TokenOpModel::Expiration(a),
        TokenOp::Source(name, a)@ == TokenOpModel::Source(name@, a),
        TokenOp::AddRestrictedSid(bytes, attrs)@ == TokenOpModel::AddRestrictedSid(bytes@, attrs),
        TokenOp::AddDeviceGroup(bytes, attrs)@ == TokenOpModel::AddDeviceGroup(bytes@, attrs),
        TokenOp::Confinement(bytes)@ == TokenOpModel::Confinement(bytes@),
{
}

/// A claim or the credentials in the log are those that were logged, of the same
/// kind.
pub proof fn law_claim_log_by_name(c: ClaimSpec, l: LcsSpec)
    ensures
        TokenOp::AddUserClaim(c)@ == TokenOpModel::AddUserClaim(c@),
        TokenOp::AddDeviceClaim(c)@ == TokenOpModel::AddDeviceClaim(c@),
        TokenOp::LcsCredentials(l)@ == TokenOpModel::LcsCredentials(l@),
        l@.scope_guids == l.scope_guids@,
        l@.private_layers.len() == l.private_layers@.len(),
        forall|i: int|
            0 <= i < l.private_layers@.len() ==> l@.private_layers[i] == (
            #[trigger] l.private_layers@[i])@,
{
}

} // verus!
