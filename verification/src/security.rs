//! The KACS security vocabulary shared by every interface: SIDs, access masks,
//! privileges, ACLs/ACEs, and security descriptors.
//!
//! These are the currency of tokens, files, access checks, and registry-key
//! security. ACLs and security descriptors are assembled with builders
//! ([`AclBuilder`], [`SdBuilder`]) and read back with views ([`SdView`],
//! [`AclView`]).

pub mod acl;
pub mod mask;
pub mod sd;
pub mod sddl;
pub mod sid;

pub use acl::{
    Ace, AceFlags, AceType, AceView, Acl, AclBuilder, AclView, LabelPolicy, SidAndAttributes,
    SidArrayView,
};
pub use mask::{AccessMask, GenericMapping, Privileges};
pub use sd::{Control, SdBuilder, SdView, SecurityDescriptor};
pub use sid::{IntegrityLevel, Sid, SidRef, WellKnown};
