//! Process security context: the process security block (PSB) mitigation
//! controls.
//!
//! The single operation turns on process mitigation bits. They are **one-way**:
//! a mitigation can be switched on but never off.
use crate::util::opt_fd;
use vstd::prelude::*;

verus! {

/// Process mitigation bits.
#[derive(Debug, Clone, Copy, PartialEq, Eq, Hash, Structural)]
pub struct Mitigations(pub u32);

/// The arguments of turning mitigations on.
#[derive(Debug, Clone, Copy, PartialEq, Eq, Structural)]
pub struct MitigationRequest {
    /// The process, or the "none" handle for the calling one.
    pub pidfd: i32,
    /// The bits to turn on.
    pub mitigations: u32,
}

/// Process-security operations on the PSB.
#[derive(Debug, Clone, Copy, PartialEq, Eq, Structural)]
pub struct Process;

impl Process {
    /// The arguments of turning on `mitigations` for the process of `pidfd`
    /// (`None` targets the calling process).
    pub fn set_mitigations(pidfd: Option<i32>, mitigations: Mitigations) -> (q: MitigationRequest)
        ensures
            q.pidfd == crate::util::fd_or_none(pidfd),
            q.mitigations == mitigations.0,
    {
        MitigationRequest { pidfd: opt_fd(pidfd), mitigations: mitigations.0 }
    }
}

} // verus!
