//! Access masks, privileges, and generic-right mapping.
//!
//! A KACS access mask is 32 bits: the low half is object-specific, and the high
//! half is the standard and generic rights shared by every object. The four
//! generic bits are folded into object-specific rights by a per-class
//! [`GenericMapping`]; the folding is libpeios'.
use vstd::prelude::*;

verus! {

/// The standard and generic rights common to every securable object.
#[derive(Debug, Clone, Copy, PartialEq, Eq, Hash, Structural)]
pub struct AccessMask(pub u32);

/// A set of KACS privileges, the 64-bit privilege bitmask carried by a token.
#[derive(Debug, Clone, Copy, PartialEq, Eq, Hash, Structural)]
pub struct Privileges(pub u64);

/// The mapping from the four generic rights to object-specific rights for one
/// object class.
#[derive(Debug, Clone, Copy, PartialEq, Eq, Structural)]
pub struct GenericMapping {
    /// What generic "read" expands to.
    pub read: u32,
    /// What generic "write" expands to.
    pub write: u32,
    /// What generic "execute" expands to.
    pub execute: u32,
    /// What generic "all" expands to.
    pub all: u32,
}

impl GenericMapping {
    /// Build a mapping from the masks the four generic rights expand to.
    pub fn new(read: u32, write: u32, execute: u32, all: u32) -> (m: GenericMapping)
        ensures
            m == (GenericMapping { read, write, execute, all }),
    {
        GenericMapping { read, write, execute, all }
    }
}

} // verus!
