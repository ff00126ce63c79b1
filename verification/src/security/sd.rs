//! Security descriptors: the [`SdBuilder`], an owned [`SecurityDescriptor`], and
//! an [`SdView`].
use crate::error::{Error, Result};
use crate::security::acl::{Acl, AclView};
use crate::security::sid::SidRef;
use vstd::prelude::*;
use vstd::slice::slice_to_vec;

verus! {

/// Security-descriptor control bits.
#[derive(Debug, Clone, Copy, PartialEq, Eq, Hash, Structural)]
pub struct Control(pub u16);

// ---- building ---------------------------------------------------------------

/// One entry of a descriptor builder's log.
#[derive(Debug)]
pub enum SdOp {
    /// Set the owner SID.
    Owner(Vec<u8>),
    /// Set the group SID.
    Group(Vec<u8>),
    /// Set, then clear, control bits.
    Control(u16, u16),
    /// Set the DACL.
    Dacl(Vec<u8>),
    /// Ask for an absent DACL.
    DaclGrantAll,
    /// Set the SACL.
    Sacl(Vec<u8>),
}

/// An [`SdOp`] as values.
pub enum SdOpModel {
    /// Set the owner SID.
    Owner(Seq<u8>),
    /// Set the group SID.
    Group(Seq<u8>),
    /// Set, then clear, control bits.
    Control(u16, u16),
    /// Set the DACL.
    Dacl(Seq<u8>),
    /// Ask for an absent DACL.
    DaclGrantAll,
    /// Set the SACL.
    Sacl(Seq<u8>),
}

impl View for SdOp {
    type V = SdOpModel;

    open spec fn view(&self) -> SdOpModel {
        match *self {
            SdOp::Owner(sid) => SdOpModel::Owner(sid@),
            SdOp::Group(sid) => SdOpModel::Group(sid@),
            SdOp::Control(set, clear) => SdOpModel::Control(set, clear),
            SdOp::Dacl(acl) => SdOpModel::Dacl(acl@),
            SdOp::DaclGrantAll => SdOpModel::DaclGrantAll,
            SdOp::Sacl(acl) => SdOpModel::Sacl(acl@),
        }
    }
}

/// A builder for a [`SecurityDescriptor`]: the settings to make, in order.
///
/// Omit a component's setter to leave it absent, as for a partial descriptor
/// that sets only some components. The first error of libpeios' builder latches
/// and surfaces when the descriptor is serialized.
#[derive(Debug)]
pub struct SdBuilder {
    ops: Vec<SdOp>,
}

impl View for SdBuilder {
    type V = Seq<SdOpModel>;

    closed spec fn view(&self) -> Seq<SdOpModel> {
        self.ops@.map_values(|op: SdOp| op@)
    }
}

impl SdBuilder {
    /// Create an empty descriptor builder.
    pub fn new() -> (b: SdBuilder)
        ensures
            b@ == Seq::<SdOpModel>::empty(),
    {
        let b = SdBuilder { ops: Vec::new() };
        assert(b@ =~= Seq::<SdOpModel>::empty());
        b
    }

    fn log(&mut self, op: SdOp)
        ensures
            final(self)@ == old(self)@.push(op@),
    {
        self.ops.push(op);
        assert(self@ =~= old(self)@.push(op@));
    }

    /// The log, to be played into libpeios' builder from first to last.
    pub fn ops(&self) -> (ops: &[SdOp])
        ensures
            ops@.map_values(|op: SdOp| op@) == self@,
    {
        self.ops.as_slice()
    }

    /// Clear all components, reusing the builder.
    pub fn reset(&mut self) -> (b: &mut Self)
        ensures
            b@ == Seq::<SdOpModel>::empty(),
            *final(self) == *final(b),
    {
        self.ops = Vec::new();
        assert(self@ =~= Seq::<SdOpModel>::empty());
        self
    }

    /// Set the owner SID.
    pub fn owner(&mut self, sid: SidRef<'_>) -> (b: &mut Self)
        ensures
            b@ == old(self)@.push(SdOpModel::Owner(sid@)),
            *final(self) == *final(b),
    {
        self.log(SdOp::Owner(slice_to_vec(sid.as_bytes())));
        self
    }

    /// Set the group SID.
    pub fn group(&mut self, sid: SidRef<'_>) -> (b: &mut Self)
        ensures
            b@ == old(self)@.push(SdOpModel::Group(sid@)),
            *final(self) == *final(b),
    {
        self.log(SdOp::Group(slice_to_vec(sid.as_bytes())));
        self
    }

    /// Set and/or clear control bits.
    pub fn control(&mut self, set: Control, clear: Control) -> (b: &mut Self)
        ensures
            b@ == old(self)@.push(SdOpModel::Control(set.0, clear.0)),
            *final(self) == *final(b),
    {
        self.log(SdOp::Control(set.0, clear.0));
        self
    }

    /// Set the DACL. An ACL with zero ACEs is a present-but-empty DACL.
    pub fn dacl(&mut self, acl: &Acl) -> (b: &mut Self)
        ensures
            b@ == old(self)@.push(SdOpModel::Dacl(acl@)),
            *final(self) == *final(b),
    {
        self.log(SdOp::Dacl(slice_to_vec(acl.as_bytes())));
        self
    }

    /// Ask for an *absent* DACL (KACS' "grant everyone"), clearing any DACL set
    /// earlier.
    pub fn dacl_grant_all(&mut self) -> (b: &mut Self)
        ensures
            b@ == old(self)@.push(SdOpModel::DaclGrantAll),
            *final(self) == *final(b),
    {
        self.log(SdOp::DaclGrantAll);
        self
    }

    /// Set the SACL.
    pub fn sacl(&mut self, acl: &Acl) -> (b: &mut Self)
        ensures
            b@ == old(self)@.push(SdOpModel::Sacl(acl@)),
            *final(self) == *final(b),
    {
        self.log(SdOp::Sacl(slice_to_vec(acl.as_bytes())));
        self
    }

    /// The serialized descriptor, given the errno that libpeios' builder latched
    /// on the log (`0` is none) and what the probe of its bytes yielded. A
    /// latched error precedes.
    pub fn build(&self, c_err: i32, outcome: Result<Vec<u8>>) -> (r: Result<SecurityDescriptor>)
        ensures
            c_err != 0 ==> r == Err::<SecurityDescriptor, Error>(Error { errno: c_err }),
            c_err == 0 ==> match outcome {
                Ok(bytes) => r matches Ok(sd) && sd@ == bytes@,
                Err(e) => r == Err::<SecurityDescriptor, Error>(e),
            },
    {
        if c_err != 0 {
            return Err(Error { errno: c_err });
        }
        match outcome {
            Ok(bytes) => Ok(SecurityDescriptor { bytes }),
            Err(e) => Err(e),
        }
    }
}

impl Default for SdBuilder {
    /// An empty builder.
    fn default() -> (b: SdBuilder)
        ensures
            b@ == Seq::<SdOpModel>::empty(),
    {
        SdBuilder::new()
    }
}

// ---- the descriptor ---------------------------------------------------------

/// An owned, self-relative security descriptor in KACS wire format.
#[derive(Debug, Clone, PartialEq, Eq)]
pub struct SecurityDescriptor {
    bytes: Vec<u8>,
}

impl View for SecurityDescriptor {
    type V = Seq<u8>;

    closed spec fn view(&self) -> Seq<u8> {
        self.bytes@
    }
}

impl SecurityDescriptor {
    /// Wrap raw self-relative descriptor bytes without validation (such as bytes
    /// read back from the kernel).
    pub fn from_bytes(bytes: Vec<u8>) -> (sd: SecurityDescriptor)
        ensures
            sd@ == bytes@,
    {
        SecurityDescriptor { bytes }
    }

    /// Wrap raw self-relative descriptor bytes, given what parsing them
    /// returned: bytes that do not parse are refused with its errno.
    pub fn from_validated_bytes(bytes: Vec<u8>, ret: i32, errno: i32) -> (r: Result<
        SecurityDescriptor,
    >)
        ensures
            match r {
                Ok(sd) => ret == 0 && sd@ == bytes@,
                Err(e) => ret != 0 && e.errno == errno,
            },
    {
        if ret == 0 {
            Ok(SecurityDescriptor { bytes })
        } else {
            Err(Error { errno })
        }
    }

    /// Borrow the raw descriptor bytes.
    pub fn as_bytes(&self) -> (b: &[u8])
        ensures
            b@ == self@,
    {
        self.bytes.as_slice()
    }
}

/// A reader over a serialized security descriptor: its parts, as libpeios reads
/// them out.
#[derive(Debug)]
pub struct SdView<'a> {
    /// The control bits, unknown bits kept.
    pub control: Control,
    /// The owner SID, if present.
    pub owner: Option<SidRef<'a>>,
    /// The group SID, if present.
    pub group: Option<SidRef<'a>>,
    /// The DACL, if present (absent = grant-all).
    pub dacl: Option<AclView<'a>>,
    /// The SACL, if present.
    pub sacl: Option<AclView<'a>>,
}

impl<'a> SdView<'a> {
    /// What the reply to a parse means: the parts, or the errno of the failure.
    pub fn parse(ret: i32, errno: i32, parts: SdView<'a>) -> (r: Result<SdView<'a>>)
        ensures
            r == (if ret == 0 {
                Ok::<SdView<'a>, Error>(parts)
            } else {
                Err::<SdView<'a>, Error>(Error { errno })
            }),
    {
        if ret == 0 {
            Ok(parts)
        } else {
            Err(Error { errno })
        }
    }
}

/// The SID of an optional component (owner or group), given what the call that
/// looks it up returned and where it pointed.
pub fn sid_component<'a>(ret: i32, bytes: Option<&'a [u8]>) -> (r: Option<SidRef<'a>>)
    ensures
        match r {
            Some(sid) => ret == 0 && (bytes matches Some(b) && sid@ == b@),
            None => ret != 0 || bytes is None,
        },
{
    match crate::security::acl::component(ret, bytes) {
        Some(b) => Some(SidRef::from_bytes_unchecked(b)),
        None => None,
    }
}

/// An entry of the log is its kind with its parts, in order.
pub proof fn law_sd_log_by_name(bytes: Vec<u8>, set_bits: u16, clear_bits: u16)
    ensures
        SdOp::Owner(bytes)@ == SdOpModel::Owner(bytes@),
        SdOp::Group(bytes)@ == SdOpModel::Group(bytes@),
        SdOp::Control(set_bits, clear_bits)@ == SdOpModel::Control(set_bits, clear_bits),
        SdOp::Dacl(bytes)@ == SdOpModel::Dacl(bytes@),
        SdOp::DaclGrantAll@ == SdOpModel::DaclGrantAll,
        SdOp::Sacl(bytes)@ == SdOpModel::Sacl(bytes@),
{
}

} // verus!
