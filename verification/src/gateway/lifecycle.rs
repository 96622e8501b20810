use vstd::prelude::*;

use crate::gateway::state::{spec_permits, WorkspaceState};

verus! {

/// Whether the periodic reconciler re-ensures a workspace: interrupted
/// provisioning or resumption, or a running workspace whose sandbox is gone.
pub open spec fn spec_should_ensure(state: WorkspaceState, sandbox_exists: bool) -> bool {
    state == WorkspaceState::Provisioning || state == WorkspaceState::Resuming || (state
        == WorkspaceState::Running && !sandbox_exists)
}

pub fn should_ensure_workspace(state: WorkspaceState, sandbox_exists: bool) -> (r: bool)
    ensures
        r == spec_should_ensure(state, sandbox_exists),
{
    state == WorkspaceState::Provisioning || state == WorkspaceState::Resuming || (state
        == WorkspaceState::Running && !sandbox_exists)
}

/// First step of suspending a workspace.
#[derive(Clone, Copy, Debug, PartialEq, Eq, Structural)]
pub enum SuspendStep {
    /// Already suspended: return it unchanged.
    AlreadySuspended,
    /// Running: move to `suspending`, checkpoint and stop the sandbox.
    Begin,
    /// Any other state cannot be suspended.
    Refuse,
}

pub open spec fn spec_suspend_step(state: WorkspaceState) -> SuspendStep {
    if state == WorkspaceState::Suspended {
        SuspendStep::AlreadySuspended
    } else if state == WorkspaceState::Running {
        SuspendStep::Begin
    } else {
        SuspendStep::Refuse
    }
}

pub fn suspend_step(state: WorkspaceState) -> (r: SuspendStep)
    ensures
        r == spec_suspend_step(state),
{
    if state == WorkspaceState::Suspended {
        SuspendStep::AlreadySuspended
    } else if state == WorkspaceState::Running {
        SuspendStep::Begin
    } else {
        SuspendStep::Refuse
    }
}

/// The state after the sandbox was stopped (`true`) or failed to stop.
pub open spec fn spec_after_suspend(stopped: bool) -> WorkspaceState {
    if stopped {
        WorkspaceState::Suspended
    } else {
        WorkspaceState::Error
    }
}

pub fn after_suspend(stopped: bool) -> (r: WorkspaceState)
    ensures
        r == spec_after_suspend(stopped),
{
    if stopped {
        WorkspaceState::Suspended
    } else {
        WorkspaceState::Error
    }
}

/// First step of ensuring that a workspace has a running sandbox.
#[derive(Clone, Copy, Debug, PartialEq, Eq, Structural)]
pub enum EnsureStep {
    /// A failed workspace that the caller does not want resumed: return it unchanged.
    ReturnUnchanged,
    /// Suspended or failed: move to `resuming`, then provision.
    Resume,
    /// Already running, provisioning or resuming: provision (idempotently).
    Proceed,
    /// Any other state cannot be ensured.
    Refuse,
}

pub open spec fn spec_ensure_step(state: WorkspaceState, resume_error: bool) -> EnsureStep {
    if state == WorkspaceState::Error && !resume_error {
        EnsureStep::ReturnUnchanged
    } else if state == WorkspaceState::Suspended || state == WorkspaceState::Error {
        EnsureStep::Resume
    } else if state == WorkspaceState::Running || state == WorkspaceState::Provisioning || state
        == WorkspaceState::Resuming {
        EnsureStep::Proceed
    } else {
        EnsureStep::Refuse
    }
}

pub fn ensure_step(state: WorkspaceState, resume_error: bool) -> (r: EnsureStep)
    ensures
        r == spec_ensure_step(state, resume_error),
{
    if state == WorkspaceState::Error && !resume_error {
        EnsureStep::ReturnUnchanged
    } else if state == WorkspaceState::Suspended || state == WorkspaceState::Error {
        EnsureStep::Resume
    } else if state == WorkspaceState::Running || state == WorkspaceState::Provisioning || state
        == WorkspaceState::Resuming {
        EnsureStep::Proceed
    } else {
        EnsureStep::Refuse
    }
}

/// The state a workspace moves to after provisioning from `state`:
/// `None` when it is already running and stays so.
pub open spec fn spec_after_provision(state: WorkspaceState, provisioned: bool) -> Option<WorkspaceState> {
    if !provisioned {
        Some(WorkspaceState::Error)
    } else if state == WorkspaceState::Running {
        None
    } else {
        Some(WorkspaceState::Running)
    }
}

pub fn after_provision(state: WorkspaceState, provisioned: bool) -> (r: Option<WorkspaceState>)
    ensures
        r == spec_after_provision(state, provisioned),
{
    if !provisioned {
        Some(WorkspaceState::Error)
    } else if state == WorkspaceState::Running {
        None
    } else {
        Some(WorkspaceState::Running)
    }
}

/// Every state change the lifecycle drives is one the state machine permits:
/// suspending a running workspace (and its success or failure), resuming a
/// suspended or failed one, and finishing (or failing) provisioning from any
/// state ensure proceeds from.
pub proof fn law_lifecycle_steps_are_permitted(state: WorkspaceState, resume_error: bool, ok: bool)
    ensures
        spec_suspend_step(state) == SuspendStep::Begin ==> spec_permits(
            state,
            WorkspaceState::Suspending,
        ) && spec_permits(WorkspaceState::Suspending, spec_after_suspend(ok)),
        spec_ensure_step(state, resume_error) == EnsureStep::Resume ==> spec_permits(
            state,
            WorkspaceState::Resuming,
        ) && (spec_after_provision(WorkspaceState::Resuming, ok) matches Some(next)
            ==> spec_permits(WorkspaceState::Resuming, next)),
        spec_ensure_step(state, resume_error) == EnsureStep::Proceed ==> (spec_after_provision(
            state,
            ok,
        ) matches Some(next) ==> spec_permits(state, next)),
{
}

/// Suspending is idempotent: a suspended workspace is returned as it is, and
/// ensuring a running workspace never leaves the running state.
pub proof fn law_lifecycle_idempotent(resume_error: bool)
    ensures
        spec_suspend_step(WorkspaceState::Suspended) == SuspendStep::AlreadySuspended,
        spec_ensure_step(WorkspaceState::Running, resume_error) == EnsureStep::Proceed,
        spec_after_provision(WorkspaceState::Running, true) is None,
{
}

/// Opening a suspended workspace always resumes it; a failed workspace is
/// resumed exactly when the caller asks for that, and is otherwise handed
/// back as it is. Resuming is the only step that leaves a suspended or
/// failed workspace, and only those two states are resumed.
pub proof fn law_ensure_resumes_suspended_and_failed(state: WorkspaceState, resume_error: bool)
    ensures
        spec_ensure_step(WorkspaceState::Suspended, resume_error) == EnsureStep::Resume,
        spec_ensure_step(WorkspaceState::Error, true) == EnsureStep::Resume,
        spec_ensure_step(WorkspaceState::Error, false) == EnsureStep::ReturnUnchanged,
        spec_ensure_step(state, resume_error) == EnsureStep::Resume ==> state == WorkspaceState::Suspended || (state
            == WorkspaceState::Error && resume_error),
        spec_ensure_step(state, resume_error) == EnsureStep::Proceed <==> (state == WorkspaceState::Running || state
            == WorkspaceState::Provisioning || state == WorkspaceState::Resuming),
{
}

/// Only a running workspace begins suspending; the sandbox stopping or not
/// decides between `suspended` and `error`; provisioning that fails leaves
/// the workspace in `error` and provisioning that succeeds leaves it
/// running; the reconciler re-ensures exactly the interrupted workspaces
/// and the running ones whose sandbox has gone.
pub proof fn law_lifecycle_outcomes(state: WorkspaceState, sandbox_exists: bool, ok: bool)
    ensures
        spec_suspend_step(state) == SuspendStep::Begin <==> state == WorkspaceState::Running,
        spec_suspend_step(state) == SuspendStep::Refuse <==> (state != WorkspaceState::Running && state
            != WorkspaceState::Suspended),
        spec_after_suspend(true) == WorkspaceState::Suspended,
        spec_after_suspend(false) == WorkspaceState::Error,
        spec_after_provision(state, false) == Some(WorkspaceState::Error),
        state != WorkspaceState::Running ==> spec_after_provision(state, true) == Some(WorkspaceState::Running),
        spec_should_ensure(WorkspaceState::Running, false),
        !spec_should_ensure(WorkspaceState::Running, true),
        spec_should_ensure(WorkspaceState::Provisioning, sandbox_exists),
        spec_should_ensure(WorkspaceState::Resuming, sandbox_exists),
        (state == WorkspaceState::Suspended || state == WorkspaceState::Suspending || state == WorkspaceState::Deleted
            || state == WorkspaceState::Deleting || state == WorkspaceState::Error || state
            == WorkspaceState::Checkpointing) ==> !spec_should_ensure(state, sandbox_exists),
{
}

} // verus!
