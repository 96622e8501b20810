use vstd::prelude::*;

verus! {

/// Lifecycle state of a workspace.
#[derive(Clone, Copy, Debug, PartialEq, Eq, Structural)]
pub enum WorkspaceState {
    Provisioning,
    Running,
    Checkpointing,
    Suspending,
    Suspended,
    Resuming,
    Deleting,
    Deleted,
    Error,
}

/// The transitions the gateway allows, besides staying in the same state.
pub open spec fn step_allowed(from: WorkspaceState, to: WorkspaceState) -> bool {
    match (from, to) {
        (WorkspaceState::Provisioning, WorkspaceState::Running) | (WorkspaceState::Provisioning, WorkspaceState::Error) | (WorkspaceState::Provisioning, WorkspaceState::Deleting) => true,
        (WorkspaceState::Running, WorkspaceState::Checkpointing) | (WorkspaceState::Running, WorkspaceState::Suspending) | (WorkspaceState::Running, WorkspaceState::Error) | (WorkspaceState::Running, WorkspaceState::Deleting) => true,
        (WorkspaceState::Checkpointing, WorkspaceState::Running) | (WorkspaceState::Checkpointing, WorkspaceState::Suspending) | (WorkspaceState::Checkpointing, WorkspaceState::Error) => true,
        (WorkspaceState::Suspending, WorkspaceState::Suspended) | (WorkspaceState::Suspending, WorkspaceState::Error) => true,
        (WorkspaceState::Suspended, WorkspaceState::Resuming) | (WorkspaceState::Suspended, WorkspaceState::Deleting) => true,
        (WorkspaceState::Resuming, WorkspaceState::Running) | (WorkspaceState::Resuming, WorkspaceState::Error) | (WorkspaceState::Resuming, WorkspaceState::Deleting) => true,
        (WorkspaceState::Error, WorkspaceState::Resuming) | (WorkspaceState::Error, WorkspaceState::Deleting) => true,
        (WorkspaceState::Deleting, WorkspaceState::Deleted) | (WorkspaceState::Deleting, WorkspaceState::Error) => true,
        _ => false,
    }
}

pub open spec fn spec_permits(from: WorkspaceState, to: WorkspaceState) -> bool {
    from == to || step_allowed(from, to)
}

impl WorkspaceState {
    /// Whether a workspace in this state may move to `next`.
    pub fn permits(self, next: Self) -> (r: bool)
        ensures
            r == spec_permits(self, next),
    {
            if self == next {
            return true;
        }
        match (self, next) {
            (WorkspaceState::Provisioning, WorkspaceState::Running) | (WorkspaceState::Provisioning, WorkspaceState::Error) | (WorkspaceState::Provisioning, WorkspaceState::Deleting) => true,
            (WorkspaceState::Running, WorkspaceState::Checkpointing) | (WorkspaceState::Running, WorkspaceState::Suspending) | (WorkspaceState::Running, WorkspaceState::Error) | (WorkspaceState::Running, WorkspaceState::Deleting) => true,
            (WorkspaceState::Checkpointing, WorkspaceState::Running) | (WorkspaceState::Checkpointing, WorkspaceState::Suspending) | (WorkspaceState::Checkpointing, WorkspaceState::Error) => true,
            (WorkspaceState::Suspending, WorkspaceState::Suspended) | (WorkspaceState::Suspending, WorkspaceState::Error) => true,
            (WorkspaceState::Suspended, WorkspaceState::Resuming) | (WorkspaceState::Suspended, WorkspaceState::Deleting) => true,
            (WorkspaceState::Resuming, WorkspaceState::Running) | (WorkspaceState::Resuming, WorkspaceState::Error) | (WorkspaceState::Resuming, WorkspaceState::Deleting) => true,
            (WorkspaceState::Error, WorkspaceState::Resuming) | (WorkspaceState::Error, WorkspaceState::Deleting) => true,
            (WorkspaceState::Deleting, WorkspaceState::Deleted) | (WorkspaceState::Deleting, WorkspaceState::Error) => true,
            _ => false,
        }
    }
}

/// Each state is entered only from its predecessors: a workspace runs only
/// after provisioning, resuming or a checkpoint; is suspended only by
/// suspending; is resumed only when suspended or failed; is deleted only by
/// deleting; never returns to provisioning; and every step in progress can
/// fail.
pub proof fn law_states_entered_only_from_predecessors(s: WorkspaceState)
    ensures
        spec_permits(s, WorkspaceState::Running) ==> (s == WorkspaceState::Running || s == WorkspaceState::Provisioning
            || s == WorkspaceState::Resuming || s == WorkspaceState::Checkpointing),
        spec_permits(s, WorkspaceState::Suspended) ==> (s == WorkspaceState::Suspended || s == WorkspaceState::Suspending),
        spec_permits(s, WorkspaceState::Resuming) ==> (s == WorkspaceState::Resuming || s == WorkspaceState::Suspended
            || s == WorkspaceState::Error),
        spec_permits(s, WorkspaceState::Deleted) ==> (s == WorkspaceState::Deleted || s == WorkspaceState::Deleting),
        spec_permits(s, WorkspaceState::Provisioning) ==> s == WorkspaceState::Provisioning,
        (s == WorkspaceState::Provisioning || s == WorkspaceState::Running || s == WorkspaceState::Checkpointing || s
            == WorkspaceState::Suspending || s == WorkspaceState::Resuming || s == WorkspaceState::Deleting)
            ==> spec_permits(s, WorkspaceState::Error),
        spec_permits(WorkspaceState::Running, WorkspaceState::Suspending),
        spec_permits(WorkspaceState::Suspended, WorkspaceState::Resuming),
        spec_permits(WorkspaceState::Error, WorkspaceState::Resuming),
{
}

} // verus!

verus! {

/// The lowercase name of a state, as stored and displayed.
pub open spec fn state_name(s: WorkspaceState) -> Seq<char> {
    match s {
        WorkspaceState::Provisioning => "provisioning"@,
        WorkspaceState::Running => "running"@,
        WorkspaceState::Checkpointing => "checkpointing"@,
        WorkspaceState::Suspending => "suspending"@,
        WorkspaceState::Suspended => "suspended"@,
        WorkspaceState::Resuming => "resuming"@,
        WorkspaceState::Deleting => "deleting"@,
        WorkspaceState::Deleted => "deleted"@,
        WorkspaceState::Error => "error"@,
    }
}

/// The state whose name is `name`, if any.
pub open spec fn state_from_name(name: Seq<char>) -> Option<WorkspaceState> {
    if name == "provisioning"@ {
        Some(WorkspaceState::Provisioning)
    } else if name == "running"@ {
        Some(WorkspaceState::Running)
    } else if name == "checkpointing"@ {
        Some(WorkspaceState::Checkpointing)
    } else if name == "suspending"@ {
        Some(WorkspaceState::Suspending)
    } else if name == "suspended"@ {
        Some(WorkspaceState::Suspended)
    } else if name == "resuming"@ {
        Some(WorkspaceState::Resuming)
    } else if name == "deleting"@ {
        Some(WorkspaceState::Deleting)
    } else if name == "deleted"@ {
        Some(WorkspaceState::Deleted)
    } else if name == "error"@ {
        Some(WorkspaceState::Error)
    } else {
        None
    }
}

fn name_is(value: &Vec<char>, name: &str) -> (r: bool)
    ensures
        r == (value@ == name@),
{
    let n = crate::text::to_chars(name);
    crate::text::chars_equal(value, &n)
}

impl WorkspaceState {
    /// The lowercase name of the state (what `Display` shows).
    pub fn as_str(self) -> (r: &'static str)
        ensures
            r@ == state_name(self),
    {
        match self {
            WorkspaceState::Provisioning => "provisioning",
            WorkspaceState::Running => "running",
            WorkspaceState::Checkpointing => "checkpointing",
            WorkspaceState::Suspending => "suspending",
            WorkspaceState::Suspended => "suspended",
            WorkspaceState::Resuming => "resuming",
            WorkspaceState::Deleting => "deleting",
            WorkspaceState::Deleted => "deleted",
            WorkspaceState::Error => "error",
        }
    }

    /// The state with the given lowercase name; `None` for any other text.
    pub fn parse(value: &str) -> (r: Option<WorkspaceState>)
        ensures
            r == state_from_name(value@),
    {
        let v = crate::text::to_chars(value);
        if name_is(&v, "provisioning") {
            Some(WorkspaceState::Provisioning)
        } else if name_is(&v, "running") {
            Some(WorkspaceState::Running)
        } else if name_is(&v, "checkpointing") {
            Some(WorkspaceState::Checkpointing)
        } else if name_is(&v, "suspending") {
            Some(WorkspaceState::Suspending)
        } else if name_is(&v, "suspended") {
            Some(WorkspaceState::Suspended)
        } else if name_is(&v, "resuming") {
            Some(WorkspaceState::Resuming)
        } else if name_is(&v, "deleting") {
            Some(WorkspaceState::Deleting)
        } else if name_is(&v, "deleted") {
            Some(WorkspaceState::Deleted)
        } else if name_is(&v, "error") {
            Some(WorkspaceState::Error)
        } else {
            None
        }
    }
}

/// Every state may stay where it is: repeating a lifecycle step is harmless.
pub proof fn law_permits_reflexive(s: WorkspaceState)
    ensures
        spec_permits(s, s),
{
}

/// A deleted workspace never leaves the `deleted` state.
pub proof fn law_deleted_is_terminal(next: WorkspaceState)
    ensures
        spec_permits(WorkspaceState::Deleted, next) <==> next == WorkspaceState::Deleted,
{
}

/// Deletion is reachable from every state: a path of permitted steps, each one
/// a change of state, leads from any state other than `deleted` to `deleted`.
pub proof fn law_deletion_reachable(s: WorkspaceState)
    ensures
        s != WorkspaceState::Deleted ==> exists|path: Seq<WorkspaceState>|
            #![trigger path.len()]
            path.len() >= 2 && path[0] == s && path.last() == WorkspaceState::Deleted && forall|
                i: int,
            |
                0 <= i < path.len() - 1 ==> #[trigger] step_allowed(path[i], path[i + 1]),
{
    let d = WorkspaceState::Deleting;
    let e = WorkspaceState::Error;
    let x = WorkspaceState::Deleted;
    match s {
        WorkspaceState::Deleted => {},
        WorkspaceState::Deleting => {
            let p = seq![s, x];
            assert(p.len() >= 2 && p[0] == s && p.last() == x);
        },
        WorkspaceState::Provisioning | WorkspaceState::Running | WorkspaceState::Suspended
        | WorkspaceState::Resuming | WorkspaceState::Error => {
            let p = seq![s, d, x];
            assert forall|i: int| 0 <= i < p.len() - 1 implies #[trigger] step_allowed(
                p[i],
                p[i + 1],
            ) by {
                if i == 0 {
                } else {
                }
            }
            assert(p.len() >= 2 && p[0] == s && p.last() == x);
        },
        WorkspaceState::Checkpointing | WorkspaceState::Suspending => {
            let p = seq![s, e, d, x];
            assert forall|i: int| 0 <= i < p.len() - 1 implies #[trigger] step_allowed(
                p[i],
                p[i + 1],
            ) by {
                if i == 0 {
                } else if i == 1 {
                } else {
                }
            }
            assert(p.len() >= 2 && p[0] == s && p.last() == x);
        },
    }
}

/// Names round-trip: parsing the name of a state gives back that state, and
/// different states have different names.
pub proof fn law_state_name_round_trip(s: WorkspaceState, t: WorkspaceState)
    ensures
        state_from_name(state_name(s)) == Some(s),
        state_name(s) == state_name(t) ==> s == t,
{
    reveal_strlit("provisioning");
    reveal_strlit("running");
    reveal_strlit("checkpointing");
    reveal_strlit("suspending");
    reveal_strlit("suspended");
    reveal_strlit("resuming");
    reveal_strlit("deleting");
    reveal_strlit("deleted");
    reveal_strlit("error");
    assert("running"@[0] != "deleted"@[0]);
    assert("resuming"@[0] != "deleting"@[0]);
    assert("suspending"@.len() != "suspended"@.len());
    assert("provisioning"@.len() == 12);
    assert("running"@.len() == 7);
    assert("checkpointing"@.len() == 13);
    assert("suspending"@.len() == 10);
    assert("suspended"@.len() == 9);
    assert("resuming"@.len() == 8);
    assert("deleting"@.len() == 8);
    assert("deleted"@.len() == 7);
    assert("error"@.len() == 5);
}

/// A workspace record.
#[derive(Clone, Debug)]
pub struct Workspace {
    pub id: String,
    pub project_key: String,
    pub git_ref: String,
    pub owner: String,
    pub state: WorkspaceState,
    pub service_name: String,
    pub preview_key: String,
    pub password: String,
    pub runtime_token: String,
    pub upstream_environment: String,
    pub image_ref: String,
    pub image_digest: Option<String>,
    pub last_activity: String,
    pub error: Option<String>,
}

/// Metadata of a stored private environment profile.
#[derive(Clone, Debug)]
pub struct EnvProfileMeta {
    pub project_key: String,
    pub owner: String,
    pub sha256: String,
    pub updated_at: String,
}

/// A stored checkpoint bundle of a workspace.
#[derive(Clone, Debug)]
pub struct CheckpointRecord {
    pub workspace_id: String,
    pub bundle_sha256: String,
    pub metadata_json: Option<String>,
    pub blob_path: String,
}

/// Why the workspace store refused an operation.
#[derive(Clone, Copy, Debug, PartialEq, Eq, Structural)]
pub enum StoreError {
    /// No workspace has the requested ID.
    NotFound,
    /// The ID exists with a different project, Git ref or owner.
    ImmutableConflict,
    /// The ID belongs to a deleted workspace.
    AlreadyDeleted,
    /// The state machine does not permit the requested step.
    InvalidTransition { from: WorkspaceState, to: WorkspaceState },
    /// An image digest must not be empty.
    EmptyDigest,
}

/// Project, Git ref and owner of two records agree.
pub open spec fn same_immutable_config(a: Workspace, b: Workspace) -> bool {
    a.project_key@ == b.project_key@ && a.git_ref@ == b.git_ref@ && a.owner@ == b.owner@
}

/// What inserting `candidate` does when `existing` already holds its ID.
pub open spec fn duplicate_outcome(existing: Workspace, candidate: Workspace) -> Result<(), StoreError> {
    if !same_immutable_config(existing, candidate) {
        Err(StoreError::ImmutableConflict)
    } else if existing.state == WorkspaceState::Deleted {
        Err(StoreError::AlreadyDeleted)
    } else {
        Ok(())
    }
}

/// Decides whether a repeated create of an existing workspace ID is accepted:
/// it is, and returns the existing record unchanged, when project, Git ref and
/// owner agree and the workspace has not been deleted.
pub fn check_duplicate(existing: &Workspace, candidate: &Workspace) -> (r: Result<(), StoreError>)
    ensures
        r == duplicate_outcome(*existing, *candidate),
{
    if existing.project_key != candidate.project_key || existing.git_ref != candidate.git_ref
        || existing.owner != candidate.owner {
        return Err(StoreError::ImmutableConflict);
    }
    if existing.state == WorkspaceState::Deleted {
        return Err(StoreError::AlreadyDeleted);
    }
    Ok(())
}

/// Creating the same workspace twice is idempotent, and a create that changes
/// project, Git ref or owner of an existing ID is refused.
pub proof fn law_duplicate_create_idempotent_not_mutable(existing: Workspace, candidate: Workspace)
    ensures
        existing.state != WorkspaceState::Deleted ==> duplicate_outcome(existing, existing) == Ok::<
            (),
            StoreError,
        >(()),
        !same_immutable_config(existing, candidate) ==> duplicate_outcome(existing, candidate)
            == Err::<(), StoreError>(StoreError::ImmutableConflict),
{
}

/// Checks one lifecycle step of a workspace currently in `current`.
pub fn check_transition(current: WorkspaceState, next: WorkspaceState) -> (r: Result<(), StoreError>)
    ensures
        r is Ok <==> spec_permits(current, next),
        r is Err ==> r == Err::<(), StoreError>(
            StoreError::InvalidTransition { from: current, to: next },
        ),
{
    if current.permits(next) {
        Ok(())
    } else {
        Err(StoreError::InvalidTransition { from: current, to: next })
    }
}

pub open spec fn opt_view(o: Option<String>) -> Option<Seq<char>> {
    match o {
        Some(s) => Some(s@),
        None => None,
    }
}

/// The image digest a workspace keeps after `digest` is recorded: the first
/// recorded digest is kept; an empty digest is refused.
pub open spec fn recorded_digest(existing: Option<Seq<char>>, digest: Seq<char>) -> Result<Option<Seq<char>>, StoreError> {
    if digest.len() == 0 {
        Err(StoreError::EmptyDigest)
    } else {
        match existing {
            Some(d) => Ok(Some(d)),
            None => Ok(Some(digest)),
        }
    }
}

/// Records a resolved image digest: the first non-empty digest wins.
pub fn record_image_digest(existing: Option<String>, digest: &str) -> (r: Result<Option<String>, StoreError>)
    ensures
        match r {
            Ok(v) => recorded_digest(opt_view(existing), digest@) == Ok::<Option<Seq<char>>, StoreError>(opt_view(v)),
            Err(e) => recorded_digest(opt_view(existing), digest@) == Err::<Option<Seq<char>>, StoreError>(e),
        },
{
    if digest.is_empty() {
        return Err(StoreError::EmptyDigest);
    }
    match existing {
        Some(d) => Ok(Some(d)),
        None => Ok(Some(digest.to_owned())),
    }
}

/// Recording a digest twice keeps the first one: a workspace's resolved image
/// never changes once recorded.
pub proof fn law_image_digest_is_sticky(existing: Option<Seq<char>>, first: Seq<char>, second: Seq<char>)
    requires
        first.len() > 0,
        second.len() > 0,
    ensures
        recorded_digest(existing, first) matches Ok(after_first) && recorded_digest(after_first, second)
            == Ok::<Option<Seq<char>>, StoreError>(after_first),
{
}

/// Whether an activity report by `owner` applies to `workspace`.
pub fn activity_applies(workspace: &Workspace, owner: &str) -> (r: bool)
    ensures
        r == (workspace.owner@ == owner@ && workspace.state != WorkspaceState::Deleted),
{
    let o = crate::text::to_chars(owner);
    let w = crate::text::to_chars(workspace.owner.as_str());
    crate::text::chars_equal(&w, &o) && workspace.state != WorkspaceState::Deleted
}

/// Whether `workspace` is listed for `owner`: it is theirs and not deleted.
pub fn listed_for(workspace: &Workspace, owner: &str) -> (r: bool)
    ensures
        r == (workspace.owner@ == owner@ && workspace.state != WorkspaceState::Deleted),
{
    activity_applies(workspace, owner)
}

} // verus!

verus! {

impl StoreError {
    pub open spec fn spec_message(self) -> Seq<char> {
        match self {
            StoreError::NotFound => "workspace not found"@,
            StoreError::ImmutableConflict => "workspace ID already exists with different immutable configuration"@,
            StoreError::AlreadyDeleted => "workspace has been deleted"@,
            StoreError::InvalidTransition { from, to } => "invalid workspace transition "@ + state_name(from) + " -> "@
                + state_name(to),
            StoreError::EmptyDigest => "resolved image digest is empty"@,
        }
    }

    /// The message the error is reported with.
    pub fn message(&self) -> (r: String)
        ensures
            r@ == self.spec_message(),
    {
        match self {
            StoreError::NotFound => "workspace not found".to_owned(),
            StoreError::ImmutableConflict => "workspace ID already exists with different immutable configuration".to_owned(),
            StoreError::AlreadyDeleted => "workspace has been deleted".to_owned(),
            StoreError::InvalidTransition { from, to } => {
                let head = crate::text::concat_str("invalid workspace transition ", from.as_str());
                let head = crate::text::concat_str(head.as_str(), " -> ");
                crate::text::concat_str(head.as_str(), to.as_str())
            },
            StoreError::EmptyDigest => "resolved image digest is empty".to_owned(),
        }
    }
}

} // verus!
