//! KACS native file objects: the `NtCreateFile`-shaped open, by-path and by-fd
//! security-descriptor I/O, and mount-policy control.
//!
//! An open is described by [`OpenOptions`] and answered with the file's fd and
//! an [`OpenStatus`], which is a success output and never an error. A descriptor
//! is read by a size [probe](crate::probe). The mount policy is read by
//! [`MountRead`], since its template descriptor has a size of its own.
use crate::error::{Error, Result, EINVAL, ERANGE};
use crate::exchange::{Exchange, Step};
use crate::security::SecurityDescriptor;
use crate::util::{c_string, opt_fd, truncate};
use vstd::prelude::*;

verus! {

// ---- vocabulary -------------------------------------------------------------

/// `AT_SYMLINK_NOFOLLOW`: do not follow a trailing symlink.
pub const AT_SYMLINK_NOFOLLOW: u32 = 0x100;

/// A file/directory desired-access mask: the file-object rights plus the
/// standard and generic rights.
#[derive(Debug, Clone, Copy, PartialEq, Eq, Hash, Structural)]
pub struct FileAccess(pub u32);

/// Create options.
#[derive(Debug, Clone, Copy, PartialEq, Eq, Hash, Structural)]
pub struct CreateOptions(pub u32);

/// Open flags: the path-resolution and intent bits.
#[derive(Debug, Clone, Copy, PartialEq, Eq, Hash, Structural)]
pub struct OpenFlags(pub u32);

/// Security-information selector: which components of a security descriptor a
/// get/set call reads or writes.
#[derive(Debug, Clone, Copy, PartialEq, Eq, Hash, Structural)]
pub struct SecInfo(pub u32);

/// The create disposition for an open: what to do when the target does and does
/// not already exist.
#[derive(Debug, Clone, Copy, PartialEq, Eq, Hash, Structural)]
pub enum Disposition {
    /// Replace an existing file (delete + create), or create if absent.
    Supersede,
    /// Open an existing file; fail if it does not exist.
    Open,
    /// Create a new file; fail if it already exists.
    Create,
    /// Open if it exists, else create.
    OpenIf,
    /// Open and overwrite an existing file; fail if it does not exist.
    Overwrite,
    /// Overwrite if it exists, else create.
    OverwriteIf,
}

impl Default for Disposition {
    /// Open an existing file.
    fn default() -> (d: Disposition)
        ensures
            d == Disposition::Open,
    {
        Disposition::Open
    }
}

/// The header's codes of the dispositions.
#[derive(Debug, Clone, Copy, PartialEq, Eq, Structural)]
pub struct DispositionCodes {
    /// `KACS_DISPOSITION_SUPERSEDE`.
    pub supersede: u32,
    /// `KACS_DISPOSITION_OPEN`.
    pub open: u32,
    /// `KACS_DISPOSITION_CREATE`.
    pub create: u32,
    /// `KACS_DISPOSITION_OPEN_IF`.
    pub open_if: u32,
    /// `KACS_DISPOSITION_OVERWRITE`.
    pub overwrite: u32,
    /// `KACS_DISPOSITION_OVERWRITE_IF`.
    pub overwrite_if: u32,
}

impl DispositionCodes {
    /// The code of a disposition.
    pub open spec fn code(self, d: Disposition) -> u32 {
        match d {
            Disposition::Supersede => self.supersede,
            Disposition::Open => self.open,
            Disposition::Create => self.create,
            Disposition::OpenIf => self.open_if,
            Disposition::Overwrite => self.overwrite,
            Disposition::OverwriteIf => self.overwrite_if,
        }
    }
}

impl Disposition {
    /// The code to open with.
    pub fn to_raw(self, codes: DispositionCodes) -> (v: u32)
        ensures
            v == codes.code(self),
    {
        match self {
            Disposition::Supersede => codes.supersede,
            Disposition::Open => codes.open,
            Disposition::Create => codes.create,
            Disposition::OpenIf => codes.open_if,
            Disposition::Overwrite => codes.overwrite,
            Disposition::OverwriteIf => codes.overwrite_if,
        }
    }
}

/// The outcome of an open, returned alongside the handle.
#[derive(Debug, Clone, Copy, PartialEq, Eq, Hash, Structural)]
pub enum OpenStatus {
    /// An existing object was opened.
    Opened,
    /// A new object was created.
    Created,
    /// An existing object was opened and overwritten.
    Overwritten,
    /// An existing object was superseded (replaced).
    Superseded,
}

/// The header's codes of the open statuses.
#[derive(Debug, Clone, Copy, PartialEq, Eq, Structural)]
pub struct OpenStatusCodes {
    /// `KACS_STATUS_OPENED`.
    pub opened: u32,
    /// `KACS_STATUS_CREATED`.
    pub created: u32,
    /// `KACS_STATUS_OVERWRITTEN`.
    pub overwritten: u32,
    /// `KACS_STATUS_SUPERSEDED`.
    pub superseded: u32,
}

impl OpenStatusCodes {
    /// The code of a status.
    pub open spec fn code(self, status: OpenStatus) -> u32 {
        match status {
            OpenStatus::Opened => self.opened,
            OpenStatus::Created => self.created,
            OpenStatus::Overwritten => self.overwritten,
            OpenStatus::Superseded => self.superseded,
        }
    }

    /// Whether no two statuses share a code.
    pub open spec fn distinct(self) -> bool {
        forall|a: OpenStatus, b: OpenStatus| #[trigger]
            self.code(a) == #[trigger] self.code(b) ==> a == b
    }
}

impl OpenStatus {
    /// The status that a raw code stands for: the first whose code it is.
    pub open spec fn of_code(v: u32, codes: OpenStatusCodes) -> Option<OpenStatus> {
        if v == codes.opened {
            Some(OpenStatus::Opened)
        } else if v == codes.created {
            Some(OpenStatus::Created)
        } else if v == codes.overwritten {
            Some(OpenStatus::Overwritten)
        } else if v == codes.superseded {
            Some(OpenStatus::Superseded)
        } else {
            None
        }
    }

    /// The status that a raw code stands for, or `None` if it is no status'.
    pub fn from_raw(v: u32, codes: OpenStatusCodes) -> (status: Option<OpenStatus>)
        ensures
            status == OpenStatus::of_code(v, codes),
    {
        if v == codes.opened {
            Some(OpenStatus::Opened)
        } else if v == codes.created {
            Some(OpenStatus::Created)
        } else if v == codes.overwritten {
            Some(OpenStatus::Overwritten)
        } else if v == codes.superseded {
            Some(OpenStatus::Superseded)
        } else {
            None
        }
    }
}

/// A status' code is read back as that status, a code is read as a status only
/// where it is that status', and any other code as none.
pub proof fn law_open_status_codes(codes: OpenStatusCodes, v: u32)
    requires
        codes.distinct(),
    ensures
        forall|s: OpenStatus| OpenStatus::of_code(#[trigger] codes.code(s), codes) == Some(s),
        match OpenStatus::of_code(v, codes) {
            Some(s) => codes.code(s) == v,
            None => forall|s: OpenStatus| #[trigger] codes.code(s) != v,
        },
{
    assert forall|s: OpenStatus|
        OpenStatus::of_code(#[trigger] codes.code(s), codes) == Some(s) by {
        let found = OpenStatus::of_code(codes.code(s), codes);
        assert(found is Some);
        assert(codes.code(found->0) == codes.code(s));
    }
}

// ---- opening ----------------------------------------------------------------

/// An `NtCreateFile`-shaped open builder.
///
/// Set the desired access, disposition, options, flags, and (on create) the
/// creator security descriptor; [`create`](Self::create) gives the arguments of
/// the open. The disposition is an explicit [`Disposition`] rather than
/// read/write/create booleans.
#[derive(Debug, Clone, Copy)]
pub struct OpenOptions<'a> {
    /// The desired-access mask.
    pub desired_access: FileAccess,
    /// The create disposition.
    pub disposition: Disposition,
    /// The create options.
    pub options: CreateOptions,
    /// The open flags.
    pub flags: OpenFlags,
    /// The creator security descriptor.
    pub sd: Option<&'a SecurityDescriptor>,
}

/// The arguments of an open.
#[derive(Debug)]
pub struct OpenRequest<'a> {
    /// The directory to resolve the path against, or the "none" handle.
    pub dirfd: i32,
    /// The NUL-terminated path.
    pub path: Vec<u8>,
    /// The desired-access bits.
    pub desired_access: u32,
    /// The disposition's code.
    pub disposition: u32,
    /// The create-option bits.
    pub options: u32,
    /// The open-flag bits.
    pub flags: u32,
    /// The creator descriptor's bytes; `None` is a null pointer.
    pub sd: Option<&'a [u8]>,
    /// The length of the creator descriptor, `0` where there is none.
    pub sd_len: usize,
}

/// A descriptor as an argument: its bytes and their number, or none and `0`.
fn sd_arg<'a>(sd: Option<&'a SecurityDescriptor>) -> (arg: (Option<&'a [u8]>, usize))
    ensures
        match sd {
            Some(d) => arg.0 matches Some(b) && b@ == d@ && arg.1 == d@.len(),
            None => arg.0 is None && arg.1 == 0,
        },
{
    match sd {
        Some(d) => {
            let b = d.as_bytes();
            (Some(b), b.len())
        },
        None => (None, 0),
    }
}

impl<'a> OpenOptions<'a> {
    /// A fresh builder: no access, [`Disposition::Open`], no options or flags,
    /// no creator descriptor.
    pub fn new() -> (o: OpenOptions<'a>)
        ensures
            o == (OpenOptions {
                desired_access: FileAccess(0),
                disposition: Disposition::Open,
                options: CreateOptions(0),
                flags: OpenFlags(0),
                sd: None,
            }),
    {
        OpenOptions {
            desired_access: FileAccess(0),
            disposition: Disposition::default(),
            options: CreateOptions(0),
            flags: OpenFlags(0),
            sd: None,
        }
    }

    /// Set the desired-access mask granted on the returned fd.
    pub fn desired_access(&mut self, access: FileAccess) -> (o: &mut Self)
        ensures
            *o == (OpenOptions { desired_access: access, ..*old(self) }),
            *final(self) == *final(o),
    {
        self.desired_access = access;
        self
    }

    /// Set the create disposition.
    pub fn disposition(&mut self, disposition: Disposition) -> (o: &mut Self)
        ensures
            *o == (OpenOptions { disposition, ..*old(self) }),
            *final(self) == *final(o),
    {
        self.disposition = disposition;
        self
    }

    /// Set the create options.
    pub fn options(&mut self, options: CreateOptions) -> (o: &mut Self)
        ensures
            *o == (OpenOptions { options, ..*old(self) }),
            *final(self) == *final(o),
    {
        self.options = options;
        self
    }

    /// Set the open flags.
    pub fn flags(&mut self, flags: OpenFlags) -> (o: &mut Self)
        ensures
            *o == (OpenOptions { flags, ..*old(self) }),
            *final(self) == *final(o),
    {
        self.flags = flags;
        self
    }

    /// Set the creator security descriptor, applied when the open creates a new
    /// object (ignored on a pure open).
    pub fn creator_sd(&mut self, sd: &'a SecurityDescriptor) -> (o: &mut Self)
        ensures
            *o == (OpenOptions { sd: Some(sd), ..*old(self) }),
            *final(self) == *final(o),
    {
        self.sd = Some(sd);
        self
    }

    /// The arguments of opening `path` relative to `dirfd` (`None` => the
    /// process cwd). A path with an interior NUL is `EINVAL`.
    pub fn create(&self, dirfd: Option<i32>, path: &[u8], codes: DispositionCodes) -> (r: Result<
        OpenRequest<'a>,
    >)
        ensures
            match r {
                Ok(q) => {
                    &&& crate::util::as_c_string(path@) == Ok::<Seq<u8>, Error>(q.path@)
                    &&& q.dirfd == crate::util::fd_or_none(dirfd)
                    &&& q.desired_access == self.desired_access.0
                    &&& q.disposition == codes.code(self.disposition)
                    &&& q.options == self.options.0
                    &&& q.flags == self.flags.0
                    &&& match self.sd {
                        Some(d) => (q.sd matches Some(b) && b@ == d@) && q.sd_len == d@.len(),
                        None => q.sd is None && q.sd_len == 0,
                    }
                },
                Err(e) => crate::util::as_c_string(path@) == Err::<Seq<u8>, Error>(e),
            },
    {
        let path = match c_string(path) {
            Ok(p) => p,
            Err(e) => return Err(e),
        };
        let (sd, sd_len): (Option<&'a [u8]>, usize) = sd_arg(self.sd);
        Ok(
            OpenRequest {
                dirfd: opt_fd(dirfd),
                path,
                desired_access: self.desired_access.0,
                disposition: self.disposition.to_raw(codes),
                options: self.options.0,
                flags: self.flags.0,
                sd,
                sd_len,
            },
        )
    }
}

/// What the reply to an open means: the file's fd and the status of the open, or
/// the errno of a negative fd. A status that no code stands for is `EINVAL`, and
/// the fd is not handed on.
pub fn opened(fd: i32, errno: i32, status: u32, codes: OpenStatusCodes) -> (r: Result<
    (i32, OpenStatus),
>)
    ensures
        r == (if fd < 0 {
            Err::<(i32, OpenStatus), Error>(Error { errno })
        } else {
            match OpenStatus::of_code(status, codes) {
                Some(s) => Ok((fd, s)),
                None => Err(Error { errno: EINVAL }),
            }
        }),
{
    if fd < 0 {
        return Err(Error { errno });
    }
    match OpenStatus::from_raw(status, codes) {
        Some(s) => Ok((fd, s)),
        None => Err(Error { errno: EINVAL }),
    }
}

// ---- descriptors by path ----------------------------------------------------

/// The arguments, besides the descriptor, of reading or writing a file's
/// descriptor by path.
#[derive(Debug)]
pub struct PathSdRequest {
    /// The directory to resolve the path against, or the "none" handle.
    pub dirfd: i32,
    /// The NUL-terminated path.
    pub path: Vec<u8>,
    /// The component bits.
    pub secinfo: u32,
    /// The path-resolution flags.
    pub at_flags: u32,
}

/// The arguments of reading or writing the `secinfo` components of the
/// descriptor of `path` relative to `dirfd` (`None` => the process cwd). A path
/// with an interior NUL is `EINVAL`.
pub fn path_sd(dirfd: Option<i32>, path: &[u8], secinfo: SecInfo, at_flags: i32) -> (r: Result<
    PathSdRequest,
>)
    ensures
        match r {
            Ok(q) => {
                &&& crate::util::as_c_string(path@) == Ok::<Seq<u8>, Error>(q.path@)
                &&& q.dirfd == crate::util::fd_or_none(dirfd)
                &&& q.secinfo == secinfo.0
                &&& q.at_flags == at_flags as u32
            },
            Err(e) => crate::util::as_c_string(path@) == Err::<Seq<u8>, Error>(e),
        },
{
    match c_string(path) {
        Ok(path) => Ok(
            PathSdRequest {
                dirfd: opt_fd(dirfd),
                path,
                secinfo: secinfo.0,
                at_flags: at_flags as u32,
            },
        ),
        Err(e) => Err(e),
    }
}

// ---- mount policy -----------------------------------------------------------

/// A mount-policy kind: how a superblock without native descriptor storage is
/// treated. A raw code.
#[derive(Debug, Clone, Copy, PartialEq, Eq, Hash, Structural)]
pub struct MountPolicyKind(pub u32);

/// A mount policy.
#[derive(Debug, Clone, PartialEq, Eq)]
pub struct MountPolicy {
    /// The policy kind.
    pub kind: MountPolicyKind,
    /// Policy flags.
    pub flags: u32,
    /// The policy generation counter.
    pub generation: u32,
    /// The template descriptor applied to objects with none, if any.
    pub template_sd: Option<SecurityDescriptor>,
}

/// The fixed-size part of a mount policy, as the call reports it.
#[derive(Debug, Clone, Copy, PartialEq, Eq, Structural)]
pub struct MountFacts {
    /// The policy kind's code.
    pub policy: u32,
    /// Policy flags.
    pub flags: u32,
    /// The policy generation counter.
    pub generation: u32,
}

/// A [`MountPolicy`] as values.
pub struct MountPolicyModel {
    /// The fixed-size part.
    pub facts: MountFacts,
    /// The bytes of the template descriptor.
    pub template: Option<Seq<u8>>,
}

impl View for MountPolicy {
    type V = MountPolicyModel;

    open spec fn view(&self) -> MountPolicyModel {
        MountPolicyModel {
            facts: MountFacts {
                policy: self.kind.0,
                flags: self.flags,
                generation: self.generation,
            },
            template: match self.template_sd {
                Some(sd) => Some(sd@),
                None => None,
            },
        }
    }
}

/// The next call of a mount-policy read.
#[derive(Debug, Clone, Copy, PartialEq, Eq, Structural)]
pub struct MountRead {
    /// Whether the call asks for the policy and the template's size (no buffer)
    /// rather than for the template too.
    pub sizing: bool,
    /// What the first call reported.
    pub first: MountFacts,
    /// The capacity of the template buffer; `0` while sizing.
    pub cap: usize,
    /// The fills made so far.
    pub fills: u8,
}

/// The reply to a call of a mount-policy read.
#[derive(Debug)]
pub struct MountReply {
    /// What the call returned.
    pub ret: i32,
    /// The errno, where `ret` is not `0`.
    pub errno: i32,
    /// The reported policy.
    pub facts: MountFacts,
    /// Whether the reply points at a template.
    pub template: bool,
    /// The reported length of the template.
    pub template_len: usize,
    /// The template buffer, as the call left it.
    pub buf: Vec<u8>,
}

/// A [`MountReply`] as values.
pub struct MountReplyModel {
    /// What the call returned.
    pub ret: i32,
    /// The errno.
    pub errno: i32,
    /// The reported policy.
    pub facts: MountFacts,
    /// Whether the reply points at a template.
    pub template: bool,
    /// The reported length of the template.
    pub template_len: usize,
    /// The template buffer.
    pub buf: Seq<u8>,
}

impl View for MountReply {
    type V = MountReplyModel;

    open spec fn view(&self) -> MountReplyModel {
        MountReplyModel {
            ret: self.ret,
            errno: self.errno,
            facts: self.facts,
            template: self.template,
            template_len: self.template_len,
            buf: self.buf@,
        }
    }
}

/// How many times the template is asked for.
pub const MAX_TEMPLATE_FILLS: u8 = 4;

/// The capacity to try after a buffer of `cap` bytes was too small: what the
/// call reported, and at any rate one byte more, as far as there is more.
pub open spec fn grown(cap: usize, reported: usize) -> usize {
    if reported > cap {
        reported
    } else if cap < usize::MAX {
        (cap + 1) as usize
    } else {
        cap
    }
}

impl Exchange for MountRead {
    type Reply = MountReply;

    type ReplyModel = MountReplyModel;

    type Out = MountPolicy;

    type OutModel = MountPolicyModel;

    open spec fn reply_model(reply: MountReply) -> MountReplyModel {
        reply@
    }

    open spec fn out_model(out: MountPolicy) -> MountPolicyModel {
        out@
    }

    open spec fn inv(self) -> bool {
        &&& self.fills < MAX_TEMPLATE_FILLS
        &&& self.sizing ==> self.fills == 0 && self.cap == 0
    }

    open spec fn step(self, reply: MountReplyModel) -> Step<MountRead, MountPolicyModel> {
        if self.sizing {
            if reply.ret != 0 {
                Step::Done(Err(Error { errno: reply.errno }))
            } else if reply.template_len == 0 {
                Step::Done(Ok(MountPolicyModel { facts: reply.facts, template: None }))
            } else {
                Step::Call(
                    MountRead {
                        sizing: false,
                        first: reply.facts,
                        cap: reply.template_len,
                        fills: 0,
                    },
                )
            }
        } else if reply.ret == 0 {
            if !reply.template || reply.template_len == 0 {
                Step::Done(Ok(MountPolicyModel { facts: self.first, template: None }))
            } else {
                Step::Done(
                    Ok(
                        MountPolicyModel {
                            facts: reply.facts,
                            template: Some(
                                crate::util::truncated(reply.buf, reply.template_len as int),
                            ),
                        },
                    ),
                )
            }
        } else if reply.errno != ERANGE {
            Step::Done(Err(Error { errno: reply.errno }))
        } else if self.fills + 1 < MAX_TEMPLATE_FILLS {
            Step::Call(
                MountRead {
                    sizing: false,
                    first: self.first,
                    cap: grown(self.cap, reply.template_len),
                    fills: (self.fills + 1) as u8,
                },
            )
        } else {
            Step::Done(Err(Error { errno: ERANGE }))
        }
    }

    open spec fn budget(self) -> nat {
        let fills = (MAX_TEMPLATE_FILLS - self.fills) as nat;
        if self.sizing {
            fills + 1
        } else {
            fills
        }
    }

    proof fn step_spends(self, reply: MountReplyModel) {
    }

    /// Take the reply to the call that this state describes.
    ///
    /// The template is asked for with a buffer of the size that the first call
    /// reported, and with a larger one while that is too small. Where the
    /// template has gone meanwhile, the policy is the one that the first call
    /// reported, without a template. A template that outgrows every buffer is
    /// given up on with `ERANGE`.
    fn reply(self, reply: MountReply) -> (next: Step<MountRead, MountPolicy>)
    {
        if self.sizing {
            if reply.ret != 0 {
                Step::Done(Err(Error { errno: reply.errno }))
            } else if reply.template_len == 0 {
                Step::Done(Ok(policy(reply.facts, None)))
            } else {
                Step::Call(
                    MountRead {
                        sizing: false,
                        first: reply.facts,
                        cap: reply.template_len,
                        fills: 0,
                    },
                )
            }
        } else if reply.ret == 0 {
            if !reply.template || reply.template_len == 0 {
                Step::Done(Ok(policy(self.first, None)))
            } else {
                let template = truncate(reply.buf, reply.template_len);
                Step::Done(
                    Ok(policy(reply.facts, Some(SecurityDescriptor::from_bytes(template)))),
                )
            }
        } else if reply.errno != ERANGE {
            Step::Done(Err(Error { errno: reply.errno }))
        } else if self.fills + 1 < MAX_TEMPLATE_FILLS {
            let cap: usize = if reply.template_len > self.cap {
                reply.template_len
            } else if self.cap < usize::MAX {
                self.cap + 1
            } else {
                self.cap
            };
            Step::Call(MountRead { sizing: false, first: self.first, cap, fills: self.fills + 1 })
        } else {
            Step::Done(Err(Error { errno: ERANGE }))
        }
    }
}

impl MountRead {
    /// Where a mount-policy read starts.
    pub open spec fn start() -> MountRead {
        MountRead {
            sizing: true,
            first: MountFacts { policy: 0, flags: 0, generation: 0 },
            cap: 0,
            fills: 0,
        }
    }

    /// Begin a mount-policy read: the first call has no template buffer.
    pub fn new() -> (s: MountRead)
        ensures
            s == MountRead::start(),
            s.inv(),
            s.budget() == 5,
    {
        MountRead {
            sizing: true,
            first: MountFacts { policy: 0, flags: 0, generation: 0 },
            cap: 0,
            fills: 0,
        }
    }
}

/// The policy with the given parts.
fn policy(facts: MountFacts, template_sd: Option<SecurityDescriptor>) -> (p: MountPolicy)
    ensures
        p@.facts == facts,
        p.template_sd == template_sd,
        p@.template == (match template_sd {
            Some(sd) => Some(sd@),
            None => None,
        }),
{
    MountPolicy {
        kind: MountPolicyKind(facts.policy),
        flags: facts.flags,
        generation: facts.generation,
        template_sd,
    }
}

/// Whether a reply carries a template.
pub open spec fn carries_template(reply: MountReplyModel) -> bool {
    reply.template && reply.template_len > 0
}

/// A mount-policy read makes at most five calls. A template that it yields is
/// what a call wrote, and the policy around it is that same call's. It yields
/// none only where the first call reported none, or where a later call succeeded
/// without one; the policy is then the first call's. It fails with the errno of a
/// failed call.
pub proof fn law_mount_read_outcome(replies: Seq<MountReplyModel>)
    ensures
        replies.len() >= 5 ==> crate::exchange::run(MountRead::start(), replies) is Some,
        crate::exchange::run(MountRead::start(), replies) matches Some(Ok(p)) ==> (match p.template {
            None => {
                &&& replies[0].ret == 0
                &&& p.facts == replies[0].facts
                &&& replies[0].template_len == 0 || exists|i: int|
                    1 <= i < replies.len() && (#[trigger] replies[i]).ret == 0
                        && !carries_template(replies[i])
            },
            Some(t) => exists|i: int|
                1 <= i < replies.len() && (#[trigger] replies[i]).ret == 0 && carries_template(
                    replies[i],
                ) && p.facts == replies[i].facts && t == crate::util::truncated(
                    replies[i].buf,
                    replies[i].template_len as int,
                ),
        }),
        crate::exchange::run(MountRead::start(), replies) matches Some(Err(e)) ==> exists|i: int|
            0 <= i < replies.len() && (#[trigger] replies[i]).ret != 0 && e.errno
                == replies[i].errno,
{
    if replies.len() >= 5 {
        crate::exchange::law_exchange_ends(MountRead::start(), replies);
    }
    if crate::exchange::run(MountRead::start(), replies) is Some {
        match MountRead::start().step(replies[0]) {
            Step::Done(_) => {},
            Step::Call(next) => {
                let tail = replies.drop_first();
                let i = lemma_mount_tail(next, tail);
                assert(replies[i + 1] == tail[i]);
            },
        }
    }
}

/// Behind the first call, what the first call reported is kept.
proof fn lemma_mount_tail(state: MountRead, replies: Seq<MountReplyModel>) -> (i: int)
    requires
        state.inv(),
        !state.sizing,
        crate::exchange::run(state, replies) is Some,
    ensures
        0 <= i < replies.len(),
        match crate::exchange::run(state, replies)->0 {
            Ok(p) => match p.template {
                None => p.facts == state.first && replies[i].ret == 0 && !carries_template(
                    replies[i],
                ),
                Some(t) => replies[i].ret == 0 && carries_template(replies[i]) && p.facts
                    == replies[i].facts && t == crate::util::truncated(
                    replies[i].buf,
                    replies[i].template_len as int,
                ),
            },
            Err(e) => replies[i].ret != 0 && e.errno == replies[i].errno,
        },
    decreases replies.len(),
{
    match state.step(replies[0]) {
        Step::Done(_) => 0,
        Step::Call(next) => {
            let i = lemma_mount_tail(next, replies.drop_first());
            assert(replies.drop_first()[i] == replies[i + 1]);
            i + 1
        },
    }
}

/// A mount-policy read fails with `ERANGE` exactly where its first call does, or
/// where the first call reported a template and four calls in a row found their
/// buffer too small for it.
pub proof fn law_mount_read_gives_up(replies: Seq<MountReplyModel>)
    ensures
        (crate::exchange::run(MountRead::start(), replies) matches Some(Err(e)) && e.errno
            == ERANGE) <==> {
            ||| replies.len() >= 1 && replies[0].ret != 0 && replies[0].errno == ERANGE
            ||| replies.len() >= 5 && replies[0].ret == 0 && replies[0].template_len > 0
                && forall|i: int|
                1 <= i < 5 ==> (#[trigger] replies[i]).ret != 0 && replies[i].errno == ERANGE
        },
{
    reveal_with_fuel(crate::exchange::run, 6);
    crate::exchange::lemma_leading_replies(replies);
}

/// Where the policy does not change between two calls, two calls are enough: the
/// second gets a buffer of the size that the first reported, and the policy is
/// that with the template, whole.
pub proof fn law_mount_read_settled(size: MountReplyModel, fill: MountReplyModel)
    requires
        size.ret == 0,
        size.template_len > 0,
        fill.ret == 0,
        fill.template,
        fill.facts == size.facts,
        fill.template_len == size.template_len,
        fill.buf.len() == size.template_len,
    ensures
        MountRead::start().step(size) == Step::<MountRead, MountPolicyModel>::Call(
            MountRead { sizing: false, first: size.facts, cap: size.template_len, fills: 0 },
        ),
        crate::exchange::run(MountRead::start(), seq![size, fill]) == Some(
            Ok::<MountPolicyModel, Error>(
                MountPolicyModel { facts: size.facts, template: Some(fill.buf) },
            ),
        ),
{
    reveal_with_fuel(crate::exchange::run, 3);
    assert(seq![size, fill].drop_first() =~= seq![fill]);
}

/// Every call for the template that follows one that was too small gets a
/// strictly larger buffer, of at least the size that was reported.
pub proof fn law_mount_read_grows(state: MountRead, reply: MountReplyModel)
    requires
        state.inv(),
        !state.sizing,
        state.cap < usize::MAX,
    ensures
        state.step(reply) matches Step::Call(next) ==> next.cap > state.cap && next.cap
            >= reply.template_len,
{
}

/// The arguments of setting a mount policy.
#[derive(Debug)]
pub struct MountPolicyRequest<'a> {
    /// The policy kind's code.
    pub policy: u32,
    /// Policy flags.
    pub flags: u32,
    /// The policy generation counter.
    pub generation: u32,
    /// The template's bytes; `None` is a null pointer.
    pub template_sd: Option<&'a [u8]>,
    /// The length of the template, `0` where there is none.
    pub template_sd_len: usize,
}

impl MountPolicy {
    /// The arguments of setting this policy.
    pub fn request(&self) -> (q: MountPolicyRequest<'_>)
        ensures
            q.policy == self.kind.0,
            q.flags == self.flags,
            q.generation == self.generation,
            match self.template_sd {
                Some(d) => (q.template_sd matches Some(b) && b@ == d@) && q.template_sd_len
                    == d@.len(),
                None => q.template_sd is None && q.template_sd_len == 0,
            },
    {
        let template: Option<&SecurityDescriptor> = match &self.template_sd {
            Some(sd) => Some(sd),
            None => None,
        };
        let (template_sd, template_sd_len): (Option<&[u8]>, usize) = sd_arg(template);
        MountPolicyRequest {
            policy: self.kind.0,
            flags: self.flags,
            generation: self.generation,
            template_sd,
            template_sd_len,
        }
    }
}

/// Every disposition is opened with the code of its own name.
pub proof fn law_dispositions_by_name(codes: DispositionCodes)
    ensures
        codes.code(Disposition::Supersede) == codes.supersede,
        codes.code(Disposition::Open) == codes.open,
        codes.code(Disposition::Create) == codes.create,
        codes.code(Disposition::OpenIf) == codes.open_if,
        codes.code(Disposition::Overwrite) == codes.overwrite,
        codes.code(Disposition::OverwriteIf) == codes.overwrite_if,
{
}

/// Every status has the code of its own name, and a code is read as the status of
/// that name (the first where two share a code), any other as none.
pub proof fn law_open_statuses_by_name(codes: OpenStatusCodes, v: u32)
    ensures
        codes.code(OpenStatus::Opened) == codes.opened,
        codes.code(OpenStatus::Created) == codes.created,
        codes.code(OpenStatus::Overwritten) == codes.overwritten,
        codes.code(OpenStatus::Superseded) == codes.superseded,
        v == codes.opened ==> OpenStatus::of_code(v, codes) == Some(OpenStatus::Opened),
        v == codes.created && v != codes.opened
            ==> OpenStatus::of_code(v, codes) == Some(OpenStatus::Created),
        v == codes.overwritten && v != codes.opened && v != codes.created
            ==> OpenStatus::of_code(v, codes) == Some(OpenStatus::Overwritten),
        v == codes.superseded && v != codes.opened && v != codes.created && v != codes.overwritten
            ==> OpenStatus::of_code(v, codes) == Some(OpenStatus::Superseded),
        v != codes.opened && v != codes.created && v != codes.overwritten && v != codes.superseded
            ==> OpenStatus::of_code(v, codes) is None,
{
}

/// A mount policy and a reply are their parts, each under its own name.
pub proof fn law_mount_values_by_name(p: MountPolicy, r: MountReply)
    ensures
        p@.facts.policy == p.kind.0,
        p@.facts.flags == p.flags,
        p@.facts.generation == p.generation,
        p@.template is Some <==> p.template_sd is Some,
        p.template_sd matches Some(sd) ==> p@.template == Some(sd@),
        r@.ret == r.ret,
        r@.errno == r.errno,
        r@.facts == r.facts,
        r@.template == r.template,
        r@.template_len == r.template_len,
        r@.buf == r.buf@,
{
}

/// What follows each reply of a mount-policy read. A first call that reports a
/// template is followed by one with a buffer of that size, and one that was too
/// small by one with the larger of the reported size and one byte more, four
/// times in all. What a call reports is kept field by field.
pub proof fn law_mount_read_follows_replies(s: MountRead, reply: MountReply, out: MountPolicy)
    ensures
        MountRead::start().sizing && MountRead::start().cap == 0 && MountRead::start().fills == 0,
        ({
            let next = s.step(<MountRead as Exchange>::reply_model(reply));
            &&& s.sizing && reply.ret == 0 && reply.template_len > 0 ==> (next matches Step::Call(q)
                && !q.sizing && q.cap == reply.template_len && q.fills == 0 && q.first
                == reply.facts)
            &&& !s.sizing && reply.ret != 0 && reply.errno == 34 && s.fills < 3 ==> (
            next matches Step::Call(q) && !q.sizing && q.fills == s.fills + 1 && q.first == s.first
                && (reply.template_len > s.cap ==> q.cap == reply.template_len) && (
            reply.template_len <= s.cap && s.cap < usize::MAX ==> q.cap == s.cap + 1) && (s.cap
                == usize::MAX ==> q.cap == s.cap))
            &&& !s.sizing && reply.ret != 0 && reply.errno == 34 && s.fills >= 3 ==> (
            next matches Step::Done(Err(e)) && e.errno == 34)
            &&& reply.ret != 0 && (s.sizing || reply.errno != 34) ==> (next matches Step::Done(
                Err(e),
            ) && e.errno == reply.errno)
            &&& s.sizing && reply.ret == 0 && reply.template_len == 0 ==> next is Done
                && next->Done_0 is Ok
            &&& !s.sizing && reply.ret == 0 ==> next is Done && next->Done_0 is Ok
        }),
        s.step(<MountRead as Exchange>::reply_model(reply))
            == Step::<MountRead, MountPolicyModel>::Done(
            Ok(<MountRead as Exchange>::out_model(out)),
        ) ==> {
            let facts = if !s.sizing && !(reply.template && reply.template_len > 0) {
                s.first
            } else {
                reply.facts
            };
            &&& reply.ret == 0
            &&& out.kind.0 == facts.policy
            &&& out.flags == facts.flags
            &&& out.generation == facts.generation
            &&& out.template_sd is Some <==> !s.sizing && reply.template && reply.template_len > 0
            &&& out.template_sd matches Some(sd) ==> {
                &&& sd@.len() == (if reply.template_len < reply.buf@.len() {
                reply.template_len as nat
            } else {
                reply.buf@.len()
            })
            &&& forall|i: int| 0 <= i < sd@.len() ==> #[trigger] sd@[i] == reply.buf@[i]
            }
        },
{
}

/// The flag that keeps a trailing symlink from being followed is the bit that Linux
/// gives it.
pub proof fn law_nofollow_is_one_bit()
    ensures
        AT_SYMLINK_NOFOLLOW == 256,
{
}

} // verus!
