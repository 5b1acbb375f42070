use vstd::prelude::*;

verus! {

/// Where a project stands in its lifecycle.
///
/// `Paused` is part of the state set but no operation enters it.
#[derive(Clone, Copy, Debug, PartialEq, Eq, Structural)]
pub enum ProjectStatus {
    Active,
    Paused,
    TargetReached,
    Success,
    Failed,
}

/// The directed graph of legal status moves, including staying put.
pub open spec fn may_move(from: ProjectStatus, to: ProjectStatus) -> bool {
    from == to || match from {
        ProjectStatus::Active => to == ProjectStatus::TargetReached || to
            == ProjectStatus::Failed || to == ProjectStatus::Paused,
        ProjectStatus::TargetReached => to == ProjectStatus::Success,
        _ => false,
    }
}

/// The status that closing a project leads to, if closing is legal.
pub open spec fn closed_status(s: ProjectStatus) -> Option<ProjectStatus> {
    match s {
        ProjectStatus::Active => Some(ProjectStatus::Failed),
        ProjectStatus::TargetReached => Some(ProjectStatus::Success),
        _ => None,
    }
}

} // verus!
