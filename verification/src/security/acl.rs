//! Access-control lists: the [`AclBuilder`], an owned [`Acl`], and the
//! [`AclView`] / [`AceView`] / [`SidArrayView`] readers.
//!
//! The wire format is libpeios'. The builder keeps the log of what is to be
//! added, in order, and the log is played into libpeios' builder when the ACL is
//! serialized. A view holds what libpeios reads out of a serialized list.
use crate::error::{Error, Result};
use crate::security::sid::{Sid, SidRef};
use vstd::prelude::*;
use vstd::slice::slice_to_vec;

verus! {

// ---- vocabulary -------------------------------------------------------------

/// The type discriminant of an ACE.
#[derive(Debug, Clone, Copy, PartialEq, Eq, Hash, Structural)]
pub enum AceType {
    /// Grant the rights in the mask.
    AccessAllowed,
    /// Deny the rights in the mask.
    AccessDenied,
    /// Audit on access.
    SystemAudit,
    /// A mandatory-integrity label.
    SystemMandatoryLabel,
    /// A resource-attribute ACE (carries application data).
    SystemResourceAttribute,
    /// Any other ACE type, by raw discriminant.
    Other(u8),
}

/// The header's codes of the named ACE types.
#[derive(Debug, Clone, Copy, PartialEq, Eq, Structural)]
pub struct AceTypeCodes {
    /// `KACS_ACE_TYPE_ACCESS_ALLOWED`.
    pub access_allowed: u32,
    /// `KACS_ACE_TYPE_ACCESS_DENIED`.
    pub access_denied: u32,
    /// `KACS_ACE_TYPE_SYSTEM_AUDIT`.
    pub system_audit: u32,
    /// `KACS_ACE_TYPE_SYSTEM_MANDATORY_LABEL`.
    pub system_mandatory_label: u32,
    /// `KACS_ACE_TYPE_SYSTEM_RESOURCE_ATTRIBUTE`.
    pub system_resource_attribute: u32,
}

impl AceTypeCodes {
    /// The byte that stands for a type on the wire.
    pub open spec fn byte(self, ty: AceType) -> u8 {
        match ty {
            AceType::AccessAllowed => self.access_allowed as u8,
            AceType::AccessDenied => self.access_denied as u8,
            AceType::SystemAudit => self.system_audit as u8,
            AceType::SystemMandatoryLabel => self.system_mandatory_label as u8,
            AceType::SystemResourceAttribute => self.system_resource_attribute as u8,
            AceType::Other(v) => v,
        }
    }

    /// The type that a byte on the wire stands for: the first named one whose
    /// code it is, and otherwise the byte itself.
    pub open spec fn of_byte(self, v: u8) -> AceType {
        if v == self.access_allowed {
            AceType::AccessAllowed
        } else if v == self.access_denied {
            AceType::AccessDenied
        } else if v == self.system_audit {
            AceType::SystemAudit
        } else if v == self.system_mandatory_label {
            AceType::SystemMandatoryLabel
        } else if v == self.system_resource_attribute {
            AceType::SystemResourceAttribute
        } else {
            AceType::Other(v)
        }
    }

    /// Whether the codes are bytes, and no two of them the same.
    pub open spec fn proper(self) -> bool {
        &&& self.access_allowed <= u8::MAX
        &&& self.access_denied <= u8::MAX
        &&& self.system_audit <= u8::MAX
        &&& self.system_mandatory_label <= u8::MAX
        &&& self.system_resource_attribute <= u8::MAX
        &&& self.access_allowed != self.access_denied
        &&& self.access_allowed != self.system_audit
        &&& self.access_allowed != self.system_mandatory_label
        &&& self.access_allowed != self.system_resource_attribute
        &&& self.access_denied != self.system_audit
        &&& self.access_denied != self.system_mandatory_label
        &&& self.access_denied != self.system_resource_attribute
        &&& self.system_audit != self.system_mandatory_label
        &&& self.system_audit != self.system_resource_attribute
        &&& self.system_mandatory_label != self.system_resource_attribute
    }
}

impl AceType {
    /// The byte that stands for this type on the wire.
    pub fn to_raw(self, codes: AceTypeCodes) -> (v: u8)
        ensures
            v == codes.byte(self),
    {
        match self {
            AceType::AccessAllowed => codes.access_allowed as u8,
            AceType::AccessDenied => codes.access_denied as u8,
            AceType::SystemAudit => codes.system_audit as u8,
            AceType::SystemMandatoryLabel => codes.system_mandatory_label as u8,
            AceType::SystemResourceAttribute => codes.system_resource_attribute as u8,
            AceType::Other(v) => v,
        }
    }

    /// The type that a byte on the wire stands for.
    pub fn from_raw(v: u8, codes: AceTypeCodes) -> (ty: AceType)
        ensures
            ty == codes.of_byte(v),
    {
        let wide: u32 = v as u32;
        if wide == codes.access_allowed {
            AceType::AccessAllowed
        } else if wide == codes.access_denied {
            AceType::AccessDenied
        } else if wide == codes.system_audit {
            AceType::SystemAudit
        } else if wide == codes.system_mandatory_label {
            AceType::SystemMandatoryLabel
        } else if wide == codes.system_resource_attribute {
            AceType::SystemResourceAttribute
        } else {
            AceType::Other(v)
        }
    }
}

/// Reading a type's byte gives the type back, and writing a byte's type gives
/// the byte back, so no byte is lost. The one exception is `Other` holding the
/// byte of a named type, which is read back as the named type.
pub proof fn law_ace_type_codes(codes: AceTypeCodes, ty: AceType, v: u8)
    requires
        codes.proper(),
    ensures
        codes.byte(codes.of_byte(v)) == v,
        (ty matches AceType::Other(b) ==> codes.of_byte(b) == AceType::Other(b)) ==> codes.of_byte(
            codes.byte(ty),
        ) == ty,
{
}

/// ACE inheritance and audit flags.
#[derive(Debug, Clone, Copy, PartialEq, Eq, Hash, Structural)]
pub struct AceFlags(pub u8);

/// The "no-up" policy bits of a mandatory-integrity label.
#[derive(Debug, Clone, Copy, PartialEq, Eq, Hash, Structural)]
pub struct LabelPolicy(pub u32);

/// A general ACE description for [`AclBuilder::add`], covering the object,
/// callback, and resource-attribute families. Fields not used by `ace_type` are
/// left at their defaults.
#[derive(Debug, Clone, Copy)]
pub struct Ace<'a> {
    /// The ACE type discriminant.
    pub ace_type: AceType,
    /// Inheritance / audit flags.
    pub flags: AceFlags,
    /// The access mask.
    pub mask: u32,
    /// The trustee SID.
    pub sid: SidRef<'a>,
    /// Object-ACE object-type GUID (16 bytes), if any.
    pub object_type: Option<&'a [u8; 16]>,
    /// Object-ACE inherited-object-type GUID (16 bytes), if any.
    pub inherited_object_type: Option<&'a [u8; 16]>,
    /// Trailing application data (callback / resource-attribute ACEs).
    pub app_data: Option<&'a [u8]>,
}

// ---- building ---------------------------------------------------------------

/// One ACE to add, as the arguments of libpeios' builder.
#[derive(Debug)]
pub struct AceSpec {
    /// The type's byte.
    pub ace_type: u8,
    /// The flag bits.
    pub flags: u8,
    /// The access mask.
    pub mask: u32,
    /// The trustee SID.
    pub sid: Vec<u8>,
    /// The object-type GUID; `None` is a null pointer.
    pub object_type: Option<[u8; 16]>,
    /// The inherited-object-type GUID; `None` is a null pointer.
    pub inherited_object_type: Option<[u8; 16]>,
    /// The application data; `None` is a null pointer of length `0`.
    pub app_data: Option<Vec<u8>>,
}

/// One entry of an ACL builder's log.
#[derive(Debug)]
pub enum AclOp {
    /// An access-allowed ACE: the SID, the mask, the flag bits.
    Allow(Vec<u8>, u32, u8),
    /// An access-denied ACE.
    Deny(Vec<u8>, u32, u8),
    /// A system-audit ACE.
    Audit(Vec<u8>, u32, u8),
    /// An integrity-label ACE: the RID and the policy bits.
    Label(u32, u32),
    /// An ACE of any family.
    Add(AceSpec),
}

/// An [`AclOp`] as values.
pub enum AclOpModel {
    /// An access-allowed ACE.
    Allow(Seq<u8>, u32, u8),
    /// An access-denied ACE.
    Deny(Seq<u8>, u32, u8),
    /// A system-audit ACE.
    Audit(Seq<u8>, u32, u8),
    /// An integrity-label ACE.
    Label(u32, u32),
    /// An ACE of any family.
    Add(AceSpecModel),
}

/// An [`AceSpec`] as values.
pub struct AceSpecModel {
    /// The type's byte.
    pub ace_type: u8,
    /// The flag bits.
    pub flags: u8,
    /// The access mask.
    pub mask: u32,
    /// The trustee SID.
    pub sid: Seq<u8>,
    /// The object-type GUID.
    pub object_type: Option<[u8; 16]>,
    /// The inherited-object-type GUID.
    pub inherited_object_type: Option<[u8; 16]>,
    /// The application data.
    pub app_data: Option<Seq<u8>>,
}

/// The ACE that a description stands for.
pub open spec fn ace_spec(ace: Ace<'_>, codes: AceTypeCodes) -> AceSpecModel {
    AceSpecModel {
        ace_type: codes.byte(ace.ace_type),
        flags: ace.flags.0,
        mask: ace.mask,
        sid: ace.sid@,
        object_type: match ace.object_type {
            Some(g) => Some(*g),
            None => None,
        },
        inherited_object_type: match ace.inherited_object_type {
            Some(g) => Some(*g),
            None => None,
        },
        app_data: match ace.app_data {
            Some(d) => Some(d@),
            None => None,
        },
    }
}

impl View for AclOp {
    type V = AclOpModel;

    open spec fn view(&self) -> AclOpModel {
        match *self {
            AclOp::Allow(sid, mask, flags) => AclOpModel::Allow(sid@, mask, flags),
            AclOp::Deny(sid, mask, flags) => AclOpModel::Deny(sid@, mask, flags),
            AclOp::Audit(sid, mask, flags) => AclOpModel::Audit(sid@, mask, flags),
            AclOp::Label(rid, policy) => AclOpModel::Label(rid, policy),
            AclOp::Add(ace) => AclOpModel::Add(
                AceSpecModel {
                    ace_type: ace.ace_type,
                    flags: ace.flags,
                    mask: ace.mask,
                    sid: ace.sid@,
                    object_type: ace.object_type,
                    inherited_object_type: ace.inherited_object_type,
                    app_data: match ace.app_data {
                        Some(d) => Some(d@),
                        None => None,
                    },
                },
            ),
        }
    }
}

/// A builder for an [`Acl`]: the ACEs to add, in order.
///
/// The adders cannot fail individually; the first error of libpeios' builder
/// latches and surfaces when the ACL is serialized.
#[derive(Debug)]
pub struct AclBuilder {
    ops: Vec<AclOp>,
}

impl View for AclBuilder {
    type V = Seq<AclOpModel>;

    closed spec fn view(&self) -> Seq<AclOpModel> {
        self.ops@.map_values(|op: AclOp| op@)
    }
}

impl AclBuilder {
    /// Create an empty ACL builder.
    pub fn new() -> (b: AclBuilder)
        ensures
            b@ == Seq::<AclOpModel>::empty(),
    {
        let b = AclBuilder { ops: Vec::new() };
        assert(b@ =~= Seq::<AclOpModel>::empty());
        b
    }

    fn log(&mut self, op: AclOp)
        ensures
            final(self)@ == old(self)@.push(op@),
    {
        self.ops.push(op);
        assert(self@ =~= old(self)@.push(op@));
    }

    /// The log, to be played into libpeios' builder from first to last.
    pub fn ops(&self) -> (ops: &[AclOp])
        ensures
            ops@.map_values(|op: AclOp| op@) == self@,
    {
        self.ops.as_slice()
    }

    /// Drop all accumulated ACEs, reusing the builder.
    pub fn reset(&mut self) -> (b: &mut Self)
        ensures
            b@ == Seq::<AclOpModel>::empty(),
            *final(self) == *final(b),
    {
        self.ops = Vec::new();
        assert(self@ =~= Seq::<AclOpModel>::empty());
        self
    }

    /// Append an access-allowed ACE.
    pub fn allow(&mut self, sid: SidRef<'_>, mask: u32, flags: AceFlags) -> (b: &mut Self)
        ensures
            b@ == old(self)@.push(AclOpModel::Allow(sid@, mask, flags.0)),
            *final(self) == *final(b),
    {
        self.log(AclOp::Allow(slice_to_vec(sid.as_bytes()), mask, flags.0));
        self
    }

    /// Append an access-denied ACE.
    pub fn deny(&mut self, sid: SidRef<'_>, mask: u32, flags: AceFlags) -> (b: &mut Self)
        ensures
            b@ == old(self)@.push(AclOpModel::Deny(sid@, mask, flags.0)),
            *final(self) == *final(b),
    {
        self.log(AclOp::Deny(slice_to_vec(sid.as_bytes()), mask, flags.0));
        self
    }

    /// Append a system-audit ACE.
    pub fn audit(&mut self, sid: SidRef<'_>, mask: u32, flags: AceFlags) -> (b: &mut Self)
        ensures
            b@ == old(self)@.push(AclOpModel::Audit(sid@, mask, flags.0)),
            *final(self) == *final(b),
    {
        self.log(AclOp::Audit(slice_to_vec(sid.as_bytes()), mask, flags.0));
        self
    }

    /// Append a mandatory-integrity label ACE for integrity level `integrity_rid`.
    pub fn label(&mut self, integrity_rid: u32, policy: LabelPolicy) -> (b: &mut Self)
        ensures
            b@ == old(self)@.push(AclOpModel::Label(integrity_rid, policy.0)),
            *final(self) == *final(b),
    {
        self.log(AclOp::Label(integrity_rid, policy.0));
        self
    }

    /// Append an arbitrary ACE (object / callback / resource-attribute families).
    pub fn add(&mut self, ace: &Ace<'_>, codes: AceTypeCodes) -> (b: &mut Self)
        ensures
            b@ == old(self)@.push(AclOpModel::Add(ace_spec(*ace, codes))),
            *final(self) == *final(b),
    {
        let app_data: Option<Vec<u8>> = match ace.app_data {
            Some(d) => Some(slice_to_vec(d)),
            None => None,
        };
        let object_type: Option<[u8; 16]> = match ace.object_type {
            Some(g) => Some(*g),
            None => None,
        };
        let inherited_object_type: Option<[u8; 16]> = match ace.inherited_object_type {
            Some(g) => Some(*g),
            None => None,
        };
        let op = AclOp::Add(
            AceSpec {
                ace_type: ace.ace_type.to_raw(codes),
                flags: ace.flags.0,
                mask: ace.mask,
                sid: slice_to_vec(ace.sid.as_bytes()),
                object_type,
                inherited_object_type,
                app_data,
            },
        );
        assert(op@ == AclOpModel::Add(ace_spec(*ace, codes)));
        self.log(op);
        self
    }

    /// The serialized ACL, given the errno that libpeios' builder latched on the
    /// log (`0` is none) and what the probe of its bytes yielded. A latched
    /// error precedes.
    pub fn build(&self, c_err: i32, outcome: Result<Vec<u8>>) -> (r: Result<Acl>)
        ensures
            c_err != 0 ==> r == Err::<Acl, Error>(Error { errno: c_err }),
            c_err == 0 ==> match outcome {
                Ok(bytes) => r matches Ok(acl) && acl@ == bytes@,
                Err(e) => r == Err::<Acl, Error>(e),
            },
    {
        if c_err != 0 {
            return Err(Error { errno: c_err });
        }
        match outcome {
            Ok(bytes) => Ok(Acl { bytes }),
            Err(e) => Err(e),
        }
    }
}

impl Default for AclBuilder {
    /// An empty builder.
    fn default() -> (b: AclBuilder)
        ensures
            b@ == Seq::<AclOpModel>::empty(),
    {
        AclBuilder::new()
    }
}

/// An owned, serialized ACL in KACS wire format.
#[derive(Debug, Clone, PartialEq, Eq)]
pub struct Acl {
    bytes: Vec<u8>,
}

impl View for Acl {
    type V = Seq<u8>;

    closed spec fn view(&self) -> Seq<u8> {
        self.bytes@
    }
}

impl Acl {
    /// Wrap the bytes of a serialized ACL.
    pub fn from_bytes(bytes: Vec<u8>) -> (acl: Acl)
        ensures
            acl@ == bytes@,
    {
        Acl { bytes }
    }

    /// Borrow the raw ACL bytes.
    pub fn as_bytes(&self) -> (b: &[u8])
        ensures
            b@ == self@,
    {
        self.bytes.as_slice()
    }
}

// ---- reading an ACL ---------------------------------------------------------

/// An optional part of a list or a descriptor, given what the call that looks it
/// up returned and what it pointed at: absent where the call failed, and where
/// it pointed nowhere.
pub fn component<T>(ret: i32, part: Option<T>) -> (r: Option<T>)
    ensures
        r == (if ret == 0 {
            part
        } else {
            None::<T>
        }),
{
    if ret == 0 {
        part
    } else {
        None
    }
}

/// The longest prefix of `entries` that is there.
pub open spec fn present<T>(entries: Seq<Option<T>>) -> Seq<T>
    decreases entries.len(),
{
    if entries.len() == 0 {
        Seq::empty()
    } else {
        match entries[0] {
            Some(v) => seq![v] + present(entries.drop_first()),
            None => Seq::empty(),
        }
    }
}

/// What a list gives at an index: what can be read there, and nothing beyond the
/// last.
pub open spec fn entry_at<T>(entries: Seq<Option<T>>, i: int) -> Option<T> {
    if 0 <= i < entries.len() {
        entries[i]
    } else {
        None
    }
}

/// Collect the longest prefix of `entries` that is there.
fn collect_present<T: Copy>(entries: &[Option<T>]) -> (out: Vec<T>)
    ensures
        out@ == present(entries@),
{
    let mut out: Vec<T> = Vec::new();
    let mut i: usize = 0;
    assert(entries@.skip(0) =~= entries@);
    assert(out@ + present(entries@) =~= present(entries@));
    while i < entries.len()
        invariant
            i <= entries@.len(),
            present(entries@) == out@ + present(entries@.skip(i as int)),
        decreases entries@.len() - i,
    {
        let ghost rest = entries@.skip(i as int);
        assert(rest[0] == entries@[i as int]);
        assert(rest.drop_first() =~= entries@.skip(i + 1));
        match entries[i] {
            Some(v) => {
                proof {
                    let after = present(entries@.skip(i + 1));
                    assert(out@ + (seq![v] + after) =~= out@.push(v) + after);
                }
                out.push(v);
            },
            None => {
                assert(out@ + Seq::<T>::empty() =~= out@);
                return out;
            },
        }
        i = i + 1;
    }
    assert(entries@.skip(i as int) =~= Seq::empty());
    assert(out@ + Seq::<T>::empty() =~= out@);
    out
}

/// A single ACE, as libpeios reads it. Borrows the underlying ACL buffer.
#[derive(Debug, Clone, Copy)]
pub struct AceView<'a> {
    /// The type's byte.
    pub raw_type: u8,
    /// The flag bits.
    pub raw_flags: u8,
    /// The access mask.
    pub mask: u32,
    /// The bytes of the trustee SID.
    pub raw_sid: Option<&'a [u8]>,
    /// The object-type GUID of an object ACE, if present.
    pub object_type: Option<&'a [u8; 16]>,
    /// The inherited-object-type GUID of an object ACE, if present.
    pub inherited_object_type: Option<&'a [u8; 16]>,
    /// The trailing application data of a callback / resource-attribute ACE.
    pub app_data: Option<&'a [u8]>,
}

impl<'a> AceView<'a> {
    /// The ACE type.
    pub fn ace_type(&self, codes: AceTypeCodes) -> (ty: AceType)
        ensures
            ty == codes.of_byte(self.raw_type),
    {
        AceType::from_raw(self.raw_type, codes)
    }

    /// The inheritance / audit flags, unknown bits kept.
    pub fn flags(&self) -> (flags: AceFlags)
        ensures
            flags == AceFlags(self.raw_flags),
    {
        AceFlags(self.raw_flags)
    }

    /// The trustee SID, borrowing the ACL buffer.
    pub fn sid(&self) -> (r: Option<SidRef<'a>>)
        ensures
            match r {
                Some(sid) => self.raw_sid matches Some(b) && sid@ == b@,
                None => self.raw_sid is None,
            },
    {
        match self.raw_sid {
            Some(b) => Some(SidRef::from_bytes_unchecked(b)),
            None => None,
        }
    }
}

/// A reader over a serialized ACL: what libpeios finds at each index.
#[derive(Debug)]
pub struct AclView<'a> {
    entries: Vec<Option<AceView<'a>>>,
}

impl<'a> View for AclView<'a> {
    type V = Seq<Option<AceView<'a>>>;

    closed spec fn view(&self) -> Seq<Option<AceView<'a>>> {
        self.entries@
    }
}

impl<'a> AclView<'a> {
    /// What the reply to a parse means: the view of the entries, one per index,
    /// or the errno of the failure.
    pub fn parse(ret: i32, errno: i32, entries: Vec<Option<AceView<'a>>>) -> (r: Result<
        AclView<'a>,
    >)
        ensures
            match r {
                Ok(v) => ret == 0 && v@ == entries@,
                Err(e) => ret != 0 && e.errno == errno,
            },
    {
        if ret == 0 {
            Ok(AclView::from_raw(entries))
        } else {
            Err(Error { errno })
        }
    }

    /// Wrap the entries of a list that was parsed as part of a descriptor.
    pub fn from_raw(entries: Vec<Option<AceView<'a>>>) -> (v: AclView<'a>)
        ensures
            v@ == entries@,
    {
        AclView { entries }
    }

    /// The number of ACEs.
    pub fn len(&self) -> (n: usize)
        ensures
            n == self@.len(),
    {
        self.entries.len()
    }

    /// Whether the ACL has no ACEs (a present-but-empty DACL).
    pub fn is_empty(&self) -> (r: bool)
        ensures
            r == (self@.len() == 0),
    {
        self.len() == 0
    }

    /// The ACE at index `i`, in stored order.
    pub fn ace(&self, i: usize) -> (r: Option<AceView<'a>>)
        ensures
            r == entry_at(self@, i as int),
    {
        if i < self.entries.len() {
            self.entries[i]
        } else {
            None
        }
    }

    /// The ACEs in stored order, up to the first that cannot be read.
    pub fn iter(&self) -> (aces: Vec<AceView<'a>>)
        ensures
            aces@ == present(self@),
    {
        collect_present(self.entries.as_slice())
    }
}

// ---- reading a SID array ----------------------------------------------------

/// One entry of a [`SidArrayView`]: a SID and its attribute bits.
#[derive(Debug, Clone, Copy)]
pub struct SidAndAttributes<'a> {
    /// The SID, borrowing the array buffer.
    pub sid: SidRef<'a>,
    /// The attribute bits.
    pub attributes: u32,
}

/// A reader over a SID-and-attributes array — the blob of the token classes for
/// groups, restricted SIDs, device groups and capabilities.
#[derive(Debug)]
pub struct SidArrayView<'a> {
    entries: Vec<Option<SidAndAttributes<'a>>>,
}

impl<'a> View for SidArrayView<'a> {
    type V = Seq<Option<SidAndAttributes<'a>>>;

    closed spec fn view(&self) -> Seq<Option<SidAndAttributes<'a>>> {
        self.entries@
    }
}

impl<'a> SidArrayView<'a> {
    /// What the reply to a parse means: the view of the entries, one per index,
    /// or the errno of the failure.
    pub fn parse(ret: i32, errno: i32, entries: Vec<Option<SidAndAttributes<'a>>>) -> (r: Result<
        SidArrayView<'a>,
    >)
        ensures
            match r {
                Ok(v) => ret == 0 && v@ == entries@,
                Err(e) => ret != 0 && e.errno == errno,
            },
    {
        if ret == 0 {
            Ok(SidArrayView { entries })
        } else {
            Err(Error { errno })
        }
    }

    /// The number of entries.
    pub fn len(&self) -> (n: usize)
        ensures
            n == self@.len(),
    {
        self.entries.len()
    }

    /// Whether the array is empty.
    pub fn is_empty(&self) -> (r: bool)
        ensures
            r == (self@.len() == 0),
    {
        self.len() == 0
    }

    /// The entry at index `i`.
    pub fn get(&self, i: usize) -> (r: Option<SidAndAttributes<'a>>)
        ensures
            r == entry_at(self@, i as int),
    {
        if i < self.entries.len() {
            self.entries[i]
        } else {
            None
        }
    }

    /// The entries in order, up to the first that cannot be read.
    pub fn iter(&self) -> (all: Vec<SidAndAttributes<'a>>)
        ensures
            all@ == present(self@),
    {
        collect_present(self.entries.as_slice())
    }

    /// The entries copied into owned SIDs with their attributes, in order, up to
    /// the first that cannot be read. Every SID must fit an owned one.
    pub fn to_owned_pairs<const MAX_LEN: usize>(&self) -> (pairs: Vec<(Sid<MAX_LEN>, u32)>)
        requires
            forall|i: int|
                0 <= i < present(self@).len() ==> (#[trigger] present(self@)[i]).sid@.len()
                    <= MAX_LEN && present(self@)[i].sid@.len() <= u8::MAX,
        ensures
            pairs@.len() == present(self@).len(),
            forall|i: int|
                0 <= i < pairs@.len() ==> (#[trigger] pairs@[i]).0@ == present(self@)[i].sid@
                    && pairs@[i].1 == present(self@)[i].attributes,
    {
        let all = self.iter();
        let mut pairs: Vec<(Sid<MAX_LEN>, u32)> = Vec::new();
        let mut i: usize = 0;
        while i < all.len()
            invariant
                i <= all@.len(),
                all@ == present(self@),
                forall|j: int|
                    0 <= j < present(self@).len() ==> (#[trigger] present(self@)[j]).sid@.len()
                        <= MAX_LEN && present(self@)[j].sid@.len() <= u8::MAX,
                pairs@.len() == i,
                forall|j: int|
                    0 <= j < i ==> (#[trigger] pairs@[j]).0@ == present(self@)[j].sid@ && pairs@[j].1
                        == present(self@)[j].attributes,
            decreases all@.len() - i,
        {
            let entry = all[i];
            assert(entry == present(self@)[i as int]);
            pairs.push((entry.sid.to_sid(), entry.attributes));
            i = i + 1;
        }
        pairs
    }
}

/// Whether every index of a list can be read, as those of a list that libpeios
/// has parsed.
pub open spec fn all_readable<T>(entries: Seq<Option<T>>) -> bool {
    forall|i: int| 0 <= i < entries.len() ==> (#[trigger] entries[i]) is Some
}

/// There is an ACE at exactly the indices below the length, where every ACE can
/// be read; past the last there is none, however large the index, in any case.
pub proof fn law_ace_within_length(view: AclView<'_>, i: usize)
    ensures
        entry_at(view@, i as int) is Some ==> i < view@.len(),
        all_readable(view@) ==> (entry_at(view@, i as int) is Some <==> i < view@.len()),
{
}

/// There is an entry at exactly the indices below the length, where every entry
/// can be read; past the last there is none, however large the index, in any
/// case.
pub proof fn law_sid_entry_within_length(view: SidArrayView<'_>, i: usize)
    ensures
        entry_at(view@, i as int) is Some ==> i < view@.len(),
        all_readable(view@) ==> (entry_at(view@, i as int) is Some <==> i < view@.len()),
{
}

/// Where every index of a list can be read, iterating yields all of them, in
/// stored order; otherwise it stops before the first that cannot.
pub proof fn law_iter_in_stored_order<T>(entries: Seq<Option<T>>)
    ensures
        present(entries).len() <= entries.len(),
        forall|i: int|
            0 <= i < present(entries).len() ==> entries[i] == Some(#[trigger] present(entries)[i]),
        present(entries).len() < entries.len() ==> entries[present(entries).len() as int] is None,
        all_readable(entries) ==> present(entries).len() == entries.len(),
    decreases entries.len(),
{
    if entries.len() > 0 && entries[0] is Some {
        let rest = entries.drop_first();
        law_iter_in_stored_order(rest);
        assert forall|i: int| 0 <= i < present(entries).len() implies entries[i] == Some(
            #[trigger] present(entries)[i],
        ) by {
            if i > 0 {
                assert(present(entries)[i] == present(rest)[i - 1]);
                assert(entries[i] == rest[i - 1]);
            }
        }
        if present(entries).len() < entries.len() {
            assert(rest[present(rest).len() as int] == entries[present(entries).len() as int]);
        }
    }
}

/// Every named type is written as the code of its own name, and a byte that is a
/// code is read as the type of that name (the first where two share a code); any
/// other byte is kept as it is.
pub proof fn law_ace_types_by_name(codes: AceTypeCodes, v: u8)
    ensures
        codes.byte(AceType::AccessAllowed) == codes.access_allowed as u8,
        codes.byte(AceType::AccessDenied) == codes.access_denied as u8,
        codes.byte(AceType::SystemAudit) == codes.system_audit as u8,
        codes.byte(AceType::SystemMandatoryLabel) == codes.system_mandatory_label as u8,
        codes.byte(AceType::SystemResourceAttribute) == codes.system_resource_attribute as u8,
        codes.byte(AceType::Other(v)) == v,
        v == codes.access_allowed ==> codes.of_byte(v) == AceType::AccessAllowed,
        v == codes.access_denied && v != codes.access_allowed
            ==> codes.of_byte(v) == AceType::AccessDenied,
        v == codes.system_audit && v != codes.access_allowed && v != codes.access_denied
            ==> codes.of_byte(v) == AceType::SystemAudit,
        v == codes.system_mandatory_label && v != codes.access_allowed && v != codes.access_denied
            && v != codes.system_audit ==> codes.of_byte(v) == AceType::SystemMandatoryLabel,
        v == codes.system_resource_attribute && v != codes.access_allowed
            && v != codes.access_denied && v != codes.system_audit
            && v != codes.system_mandatory_label
            ==> codes.of_byte(v) == AceType::SystemResourceAttribute,
        v != codes.access_allowed && v != codes.access_denied && v != codes.system_audit
            && v != codes.system_mandatory_label && v != codes.system_resource_attribute
            ==> codes.of_byte(v) == AceType::Other(v),
{
}

/// Where the codes are bytes of their own, a byte is read as a named type exactly
/// where it is the code of that name, and the type is written as that code.
pub proof fn law_ace_type_is_its_code(codes: AceTypeCodes, v: u8)
    requires
        codes.proper(),
    ensures
        codes.of_byte(v) == AceType::AccessAllowed <==> v == codes.access_allowed,
        codes.of_byte(v) == AceType::AccessDenied <==> v == codes.access_denied,
        codes.of_byte(v) == AceType::SystemAudit <==> v == codes.system_audit,
        codes.of_byte(v) == AceType::SystemMandatoryLabel <==> v == codes.system_mandatory_label,
        codes.of_byte(v) == AceType::SystemResourceAttribute <==> v == codes.system_resource_attribute,
        codes.byte(AceType::AccessAllowed) == codes.access_allowed,
        codes.byte(AceType::AccessDenied) == codes.access_denied,
        codes.byte(AceType::SystemAudit) == codes.system_audit,
        codes.byte(AceType::SystemMandatoryLabel) == codes.system_mandatory_label,
        codes.byte(AceType::SystemResourceAttribute) == codes.system_resource_attribute,
{
}

/// A description of an ACE is handed over part by part, each under its own name;
/// a part that is absent stays so.
pub proof fn law_ace_by_name(
    ace: Ace<'_>,
    codes: AceTypeCodes,
    spec_: AceSpec,
    guid: &[u8; 16],
    data: &[u8],
)
    requires
        AclOp::Add(spec_)@ == AclOpModel::Add(ace_spec(ace, codes)),
    ensures
        spec_.ace_type == codes.byte(ace.ace_type),
        spec_.flags == ace.flags.0,
        spec_.mask == ace.mask,
        spec_.sid@ == ace.sid@,
        ace.object_type is None <==> spec_.object_type is None,
        ace.object_type == Some(guid) ==> spec_.object_type == Some(*guid),
        ace.inherited_object_type is None <==> spec_.inherited_object_type is None,
        ace.inherited_object_type == Some(guid) ==> spec_.inherited_object_type == Some(*guid),
        ace.app_data is None <==> spec_.app_data is None,
        ace.app_data == Some(data) ==> (spec_.app_data matches Some(d) && d@ == data@),
{
}

/// An entry of the log is its kind with its parts, in order.
pub proof fn law_acl_log_by_name(
    sid: Vec<u8>,
    mask: u32,
    flags: u8,
    rid: u32,
    policy: u32,
    ace: AceSpec,
)
    ensures
        AclOp::Allow(sid, mask, flags)@ == AclOpModel::Allow(sid@, mask, flags),
        AclOp::Deny(sid, mask, flags)@ == AclOpModel::Deny(sid@, mask, flags),
        AclOp::Audit(sid, mask, flags)@ == AclOpModel::Audit(sid@, mask, flags),
        AclOp::Label(rid, policy)@ == AclOpModel::Label(rid, policy),
        AclOp::Add(ace)@ matches AclOpModel::Add(m) && {
            &&& m.ace_type == ace.ace_type
            &&& m.flags == ace.flags
            &&& m.mask == ace.mask
            &&& m.sid == ace.sid@
            &&& m.object_type == ace.object_type
            &&& m.inherited_object_type == ace.inherited_object_type
            &&& m.app_data is Some <==> ace.app_data is Some
            &&& ace.app_data matches Some(d) ==> m.app_data == Some(d@)
        },
{
}

/// What a list gives at an index is its entry there, and beyond the last nothing.
pub proof fn law_entry_in_its_place<T>(entries: Seq<Option<T>>, i: nat)
    ensures
        i < entries.len() ==> entry_at(entries, i as int) == entries[i as int],
        i >= entries.len() ==> entry_at(entries, i as int) is None,
{
}

} // verus!
