//! The Linux backend: planned, not implemented.
use vstd::prelude::*;

verus! {

#[derive(Debug, Clone, Copy, PartialEq, Eq, Structural)]
pub enum LinuxSupportLevel {
    Planned,
    Beta,
    Stable,
}

#[derive(Debug, Clone, PartialEq, Eq)]
pub struct LinuxBackendPlan {
    pub support_level: LinuxSupportLevel,
    pub implemented: bool,
    pub notes: &'static str,
}

/// The Linux backend is planned and not implemented.
pub fn plan() -> (r: LinuxBackendPlan)
    ensures
        r.support_level == LinuxSupportLevel::Planned,
        !r.implemented,
        r.notes@ == "Linux backend is part of the architecture but may arrive after Windows v1."@,
{
    LinuxBackendPlan {
        support_level: LinuxSupportLevel::Planned,
        implemented: false,
        notes: "Linux backend is part of the architecture but may arrive after Windows v1.",
    }
}

} // verus!
