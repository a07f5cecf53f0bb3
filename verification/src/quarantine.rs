//! Quarantine: planned, reversible by design, never a forced delete.
use vstd::prelude::*;

verus! {

#[derive(Debug, Clone, Copy, PartialEq, Eq, Structural)]
pub enum QuarantineStatus {
    NotImplemented,
    Planned,
}

#[derive(Debug, Clone, PartialEq, Eq)]
pub struct QuarantinePlan {
    pub status: QuarantineStatus,
    pub reversible_by_design: bool,
    pub force_delete_supported: bool,
}

/// Quarantine is planned, reversible by design, and supports no forced delete.
pub fn v1_plan() -> (r: QuarantinePlan)
    ensures
        r.status == QuarantineStatus::Planned,
        r.reversible_by_design,
        !r.force_delete_supported,
{
    QuarantinePlan {
        status: QuarantineStatus::Planned,
        reversible_by_design: true,
        force_delete_supported: false,
    }
}

} // verus!
