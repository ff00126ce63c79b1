//! KACS access checks: the [`AccessCheck`] builder and its [`AccessDecision`].
//!
//! A check runs the full KACS pipeline for a token against a security descriptor
//! and a desired access mask. It is advisory: it evaluates, it does not enforce.
//!
//! Denial is not an error here. A check that completes yields an
//! [`AccessDecision`] with the `granted` mask, filled on denial too; only a
//! genuine failure is an error.
use crate::error::{Error, Result, EACCES};
use crate::security::{AccessMask, GenericMapping, SecurityDescriptor, SidRef};
use crate::util::opt_fd;
use vstd::prelude::*;

verus! {

/// The outcome of an access check: whether access was granted, and the mask of
/// rights actually granted.
///
/// `granted` is filled whether or not access was `allowed`; on denial it is the
/// (partial) set of desired rights that *would* have been granted.
#[derive(Debug, Clone, Copy, PartialEq, Eq, Structural)]
pub struct AccessDecision {
    /// `true` if every desired right was granted.
    pub allowed: bool,
    /// The mask of rights actually granted (object-specific, generics resolved).
    pub granted: AccessMask,
}

/// What the reply to a check means.
pub open spec fn decided(ret: i32, errno: i32, granted: u32) -> Result<AccessDecision> {
    if ret == 0 {
        Ok(AccessDecision { allowed: true, granted: AccessMask(granted) })
    } else if errno == EACCES {
        Ok(AccessDecision { allowed: false, granted: AccessMask(granted) })
    } else {
        Err(Error { errno })
    }
}

/// What the reply to a check means: a completed check, granted or denied, is
/// `Ok`; only a real failure is `Err`.
pub fn decision(ret: i32, errno: i32, granted: u32) -> (r: Result<AccessDecision>)
    ensures
        r == decided(ret, errno, granted),
{
    if ret == 0 {
        return Ok(AccessDecision { allowed: true, granted: AccessMask(granted) });
    }
    if errno == EACCES {
        Ok(AccessDecision { allowed: false, granted: AccessMask(granted) })
    } else {
        Err(Error { errno })
    }
}

/// A denial is a decision and not an error: a check fails only with another
/// errno than that of a denial, a decision carries the granted mask as reported
/// either way, and access is allowed exactly where the call succeeded.
pub proof fn law_denial_is_a_decision(ret: i32, errno: i32, granted: u32)
    ensures
        decided(ret, errno, granted) is Ok <==> ret == 0 || errno == EACCES,
        decided(ret, errno, granted) matches Ok(d) ==> d.granted == AccessMask(granted) && (
        d.allowed <==> ret == 0),
        decided(ret, errno, granted) matches Err(e) ==> e.errno == errno && errno != EACCES,
{
}

/// What the reply to the object-type-list variant means: the per-node results,
/// in the order of the tree, or the errno of the failure. Denials are in the
/// results, so every failing return is an error, the errno of a denial too.
pub fn listed<T>(ret: i32, errno: i32, results: Vec<T>) -> (r: Result<Vec<T>>)
    ensures
        r == (if ret == 0 {
            Ok::<Vec<T>, Error>(results)
        } else {
            Err::<Vec<T>, Error>(Error { errno })
        }),
{
    if ret == 0 {
        Ok(results)
    } else {
        Err(Error { errno })
    }
}

/// A builder for a KACS access check against one security descriptor.
///
/// The mandatory inputs are set at construction ([`new`](Self::new)); the
/// setters cover the optional ones and may be skipped.
#[derive(Debug, Clone, Copy)]
pub struct AccessCheck<'a> {
    /// The token to check; `None` is the caller's effective token.
    pub token: Option<i32>,
    /// The descriptor to check against.
    pub sd: &'a SecurityDescriptor,
    /// The desired rights.
    pub desired: AccessMask,
    /// The object class's generic mapping.
    pub mapping: GenericMapping,
    /// The SID to substitute for `PRINCIPAL_SELF`.
    pub self_sid: Option<SidRef<'a>>,
    /// The backup/restore privilege-intent bits.
    pub privilege_intent: u32,
}

/// The request of an access check.
#[derive(Debug)]
pub struct AccessRequest<'a> {
    /// The token, or the "none" handle.
    pub token_fd: i32,
    /// The descriptor's bytes.
    pub sd: &'a [u8],
    /// The desired rights.
    pub desired: u32,
    /// The generic mapping.
    pub mapping: GenericMapping,
    /// The bytes of the substituted SID; `None` is a null pointer of length `0`.
    pub self_sid: Option<&'a [u8]>,
    /// The privilege-intent bits.
    pub privilege_intent: u32,
    /// The number of nodes of the object-type tree; `0` is a null pointer.
    pub object_tree_count: u32,
    /// The length of the local claims: none are passed.
    pub local_claims_len: u32,
    /// The process-integrity type: none is passed.
    pub pip_type: u32,
    /// The process-integrity trust: none is passed.
    pub pip_trust: u32,
    /// The length of the audit context: none is passed.
    pub audit_context_len: u32,
}

impl<'a> AccessCheck<'a> {
    /// Begin a check of `desired` against `sd`, folding generic rights through
    /// `mapping`. By default the check uses the caller's effective token.
    pub fn new(
        sd: &'a SecurityDescriptor,
        desired: AccessMask,
        mapping: GenericMapping,
    ) -> (c: AccessCheck<'a>)
        ensures
            c == (AccessCheck {
                token: None,
                sd,
                desired,
                mapping,
                self_sid: None,
                privilege_intent: 0,
            }),
    {
        AccessCheck { token: None, sd, desired, mapping, self_sid: None, privilege_intent: 0 }
    }

    /// Check against a specific token rather than the caller's effective token.
    pub fn token(&mut self, token: i32) -> (c: &mut Self)
        ensures
            *c == (AccessCheck { token: Some(token), ..*old(self) }),
            *final(self) == *final(c),
    {
        self.token = Some(token);
        self
    }

    /// Substitute `sid` for the `PRINCIPAL_SELF` well-known SID in the DACL.
    pub fn self_sid(&mut self, sid: SidRef<'a>) -> (c: &mut Self)
        ensures
            *c == (AccessCheck { self_sid: Some(sid), ..*old(self) }),
            *final(self) == *final(c),
    {
        self.self_sid = Some(sid);
        self
    }

    /// Set the backup/restore privilege-intent bits.
    pub fn privilege_intent(&mut self, intent: u32) -> (c: &mut Self)
        ensures
            *c == (AccessCheck { privilege_intent: intent, ..*old(self) }),
            *final(self) == *final(c),
    {
        self.privilege_intent = intent;
        self
    }

    /// The request shared by both terminal calls, for an object-type tree of
    /// `nodes` nodes (`0` for an ordinary check). The advanced lists and the
    /// audit context are left absent.
    pub fn build_request(&self, nodes: usize) -> (q: AccessRequest<'a>)
        ensures
            q.token_fd == crate::util::fd_or_none(self.token),
            q.sd@ == self.sd@,
            q.desired == self.desired.0,
            q.mapping == self.mapping,
            match self.self_sid {
                Some(sid) => q.self_sid matches Some(b) && b@ == sid@,
                None => q.self_sid is None,
            },
            q.privilege_intent == self.privilege_intent,
            q.object_tree_count == nodes as u32,
            q.local_claims_len == 0,
            q.pip_type == 0,
            q.pip_trust == 0,
            q.audit_context_len == 0,
    {
        let self_sid: Option<&'a [u8]> = match self.self_sid {
            Some(sid) => Some(sid.as_bytes()),
            None => None,
        };
        AccessRequest {
            token_fd: opt_fd(self.token),
            sd: self.sd.as_bytes(),
            desired: self.desired.0,
            mapping: self.mapping,
            self_sid,
            privilege_intent: self.privilege_intent,
            object_tree_count: nodes as u32,
            local_claims_len: 0,
            pip_type: 0,
            pip_trust: 0,
            audit_context_len: 0,
        }
    }
}

} // verus!
