use vstd::prelude::*;

use crate::digest::sha256_hex_spec;
use crate::gateway::api::entries_view;
use crate::gateway::state::{opt_view, Workspace};
use crate::headers::ascii_lower;
use crate::text::{
    find, find_char, has_prefix, is_ascii_alphanumeric, rfind_char, trim_char,
};

verus! {

pub const OPENCODE_PORT: u16 = 4096;

pub const SUPERVISOR_PORT: u16 = 4097;

pub const CHECKPOINT_PORT: u16 = 4098;

/// Result of provisioning a sandbox: the digest its workspace image resolved to.
#[derive(Clone, Debug)]
pub struct Provisioned {
    pub image_digest: String,
}

/// Why a Kubernetes observation could not be used.
#[derive(Clone, Copy, Debug, PartialEq, Eq, Structural)]
pub enum K8sError {
    /// The container `imageID` has no `sha256:` digest.
    NoImageDigest,
    /// The ready workspace container reports no `imageID`.
    NoResolvedImageId,
    /// The stored upstream environment is not a JSON object of strings.
    InvalidUpstreamEnvironment,
    /// The upstream environment has no non-empty `OPENCODE_AUTH_CONTENT`.
    MissingAuthContent,
}

pub open spec fn slug_char(c: char) -> char {
    let l = ascii_lower(c);
    if is_ascii_alphanumeric(l) {
        l
    } else {
        '-'
    }
}

/// Lowercase ASCII letters and digits kept, every other character replaced by `-`.
pub open spec fn slug(id: Seq<char>) -> Seq<char> {
    Seq::new(id.len(), |i: int| slug_char(id[i]))
}

pub open spec fn min_nat(a: nat, b: nat) -> nat {
    if a <= b {
        a
    } else {
        b
    }
}

/// The Kubernetes resource key of a workspace ID: up to 40 characters of its
/// slug (without surrounding `-`, or `workspace` when nothing is left), a `-`,
/// and the first 12 hex digits of the SHA-256 of the ID.
pub open spec fn spec_resource_key(id: Seq<char>) -> Seq<char> {
    let s = trim_char(slug(id), '-');
    let prefix = s.take(min_nat(40, s.len()) as int);
    let hash = sha256_hex_spec(vstd::utf8::encode_utf8(id));
    (if prefix.len() == 0 {
        "workspace"@
    } else {
        prefix
    }) + "-"@ + hash.take(12)
}

fn slug_exec(id: &Vec<char>) -> (r: Vec<char>)
    ensures
        r@ == slug(id@),
{
    let mut r: Vec<char> = Vec::new();
    let mut i: usize = 0;
    while i < id.len()
        invariant
            i <= id@.len(),
            r@ =~= slug(id@).take(i as int),
        decreases id@.len() - i,
    {
        let c = id[i];
        let l = if 'A' <= c && c <= 'Z' {
            ((c as u32) + 32) as u8 as char
        } else {
            c
        };
        proof {
            if 'A' <= c && c <= 'Z' {
                assert(((c as u32) + 32) as u8 as char == ((c as u32) + 32) as char);
            }
        }
        let s = if crate::text::char_is_ascii_alphanumeric(l) {
            l
        } else {
            '-'
        };
        r.push(s);
        i = i + 1;
    }
    proof {
        assert(slug(id@).take(id@.len() as int) == slug(id@));
    }
    r
}

/// The stable, collision-safe Kubernetes name stem for a workspace ID.
pub fn resource_key(workspace_id: &str) -> (r: String)
    ensures
        r@ == spec_resource_key(workspace_id@),
{
    let id = crate::text::to_chars(workspace_id);
    let s = slug_exec(&id);
    let trimmed = crate::text::trim_char_exec(&s, '-');
    let prefix = crate::text::take_chars(&trimmed, 40);
    let hash = crate::digest::sha256_hex(workspace_id.as_bytes());
    let mut out: Vec<char> = Vec::new();
    if prefix.len() == 0 {
        crate::text::append_str(&mut out, "workspace");
    } else {
        crate::text::append_chars(&mut out, &prefix);
    }
    crate::text::append_str(&mut out, "-");
    let short = crate::text::take_chars(&hash, 12);
    crate::text::append_chars(&mut out, &short);
    crate::text::from_chars(out.as_slice())
}

/// The resource key ends with the first 12 hex digits of the ID's SHA-256, so
/// two IDs share a key only if those digests agree there; equal IDs always
/// share one. (SHA-256 digests are 32 bytes long.)
pub proof fn law_resource_key_hash_suffix(a: Seq<char>, b: Seq<char>)
    requires
        crate::digest::spec_sha256(vstd::utf8::encode_utf8(a)).len() == 32,
        crate::digest::spec_sha256(vstd::utf8::encode_utf8(b)).len() == 32,
    ensures
        spec_resource_key(a).len() >= 13,
        spec_resource_key(a).skip(spec_resource_key(a).len() - 12) == sha256_hex_spec(
            vstd::utf8::encode_utf8(a),
        ).take(12),
        spec_resource_key(a) == spec_resource_key(b) ==> sha256_hex_spec(vstd::utf8::encode_utf8(a)).take(12)
            == sha256_hex_spec(vstd::utf8::encode_utf8(b)).take(12),
{
    lemma_key_suffix(a);
    lemma_key_suffix(b);
}

proof fn lemma_key_suffix(a: Seq<char>)
    requires
        crate::digest::spec_sha256(vstd::utf8::encode_utf8(a)).len() == 32,
    ensures
        spec_resource_key(a).len() >= 13,
        spec_resource_key(a).skip(spec_resource_key(a).len() - 12) == sha256_hex_spec(
            vstd::utf8::encode_utf8(a),
        ).take(12),
{
    reveal_strlit("workspace");
    reveal_strlit("-");
    let h = sha256_hex_spec(vstd::utf8::encode_utf8(a));
    crate::digest::lemma_lower_hex_len(crate::digest::spec_sha256(vstd::utf8::encode_utf8(a)));
    let k = spec_resource_key(a);
    let s = trim_char(slug(a), '-');
    let prefix = s.take(min_nat(40, s.len()) as int);
    let head = (if prefix.len() == 0 {
        "workspace"@
    } else {
        prefix
    }) + "-"@;
    assert(k == head + h.take(12));
    assert(k.skip(k.len() - 12) =~= h.take(12));
}

/// `docker-pullable://` image IDs already carry a pullable reference.
pub open spec fn pullable_prefix() -> Seq<char> {
    "docker-pullable://"@
}

/// The image reference without its digest part (text before the first `@`).
pub open spec fn without_digest(image_ref: Seq<char>) -> Seq<char> {
    match find_char(image_ref, '@') {
        Some(a) => image_ref.take(a),
        None => image_ref,
    }
}

/// The repository of an image reference: without digest and without a tag
/// (a `:` after the last `/`).
pub open spec fn repository_of(image_ref: Seq<char>) -> Seq<char> {
    let w = without_digest(image_ref);
    match rfind_char(w, ':') {
        Some(c) => if (match rfind_char(w, '/') {
            Some(s) => c > s,
            None => true,
        }) {
            w.take(c)
        } else {
            w
        },
        None => w,
    }
}

/// The digest-pinned reference the gateway records for a resolved image.
pub open spec fn spec_reusable_image_digest(image_ref: Seq<char>, image_id: Seq<char>) -> Option<Seq<char>> {
    let p = pullable_prefix();
    if has_prefix(image_id, p) && find(image_id.skip(p.len() as int), "@sha256:"@) is Some {
        Some(image_id.skip(p.len() as int))
    } else {
        match find(image_id, "sha256:"@) {
            None => None,
            Some(off) => Some(repository_of(image_ref) + "@"@ + image_id.skip(off)),
        }
    }
}

/// Turns a container runtime `imageID` into a pullable `repository@sha256:...`
/// reference for `image_ref`.
pub fn reusable_image_digest(image_ref: &str, image_id: &str) -> (r: Result<String, K8sError>)
    ensures
        match r {
            Ok(s) => spec_reusable_image_digest(image_ref@, image_id@) == Some(s@),
            Err(e) => spec_reusable_image_digest(image_ref@, image_id@) is None && e
                == K8sError::NoImageDigest,
        },
{
    let id = crate::text::to_chars(image_id);
    let prefix = crate::text::to_chars("docker-pullable://");
    if crate::text::chars_start_with(&id, &prefix) {
        let rest = crate::text::slice_chars(&id, prefix.len(), id.len());
        let marker = crate::text::to_chars("@sha256:");
        if crate::text::find_chars(&rest, &marker).is_some() {
            return Ok(crate::text::from_chars(rest.as_slice()));
        }
    }
    let sha = crate::text::to_chars("sha256:");
    let offset = match crate::text::find_chars(&id, &sha) {
        Some(o) => o,
        None => return Err(K8sError::NoImageDigest),
    };
    proof {
        crate::text::lemma_find_from_result(id@, sha@, 0);
    }
    let digest = crate::text::slice_chars(&id, offset, id.len());
    let reference = crate::text::to_chars(image_ref);
    let at = crate::text::to_chars("@");
    proof {
        reveal_strlit("@");
        assert(at@ == seq!['@']);
    }
    let without = match crate::text::find_chars(&reference, &at) {
        Some(a) => {
            proof {
                crate::text::lemma_find_from_result(reference@, at@, 0);
            }
            crate::text::slice_chars(&reference, 0, a)
        },
        None => crate::text::slice_chars(&reference, 0, reference.len()),
    };
    proof {
        assert(reference@.subrange(0, reference@.len() as int) == reference@);
    }
    let slash = crate::text::rfind_char_exec(&without, '/');
    let colon = crate::text::rfind_char_exec(&without, ':');
    proof {
        crate::text::lemma_rfind_char(without@, ':', without@.len() as int);
    }
    let cut = match colon {
        Some(c) => match slash {
            Some(s) => c > s,
            None => true,
        },
        None => false,
    };
    let mut out = if cut {
        crate::text::slice_chars(&without, 0, colon.unwrap())
    } else {
        without
    };
    crate::text::append_chars(&mut out, &at);
    crate::text::append_chars(&mut out, &digest);
    Ok(crate::text::from_chars(out.as_slice()))
}

fn prefixed(prefix: &str, value: &String) -> (r: String)
    ensures
        r@ == prefix@ + value@,
{
    let mut out = crate::text::to_chars(prefix);
    crate::text::append_str(&mut out, value.as_str());
    crate::text::from_chars(out.as_slice())
}

/// Name of the sandbox Pod of a workspace.
pub fn pod_name(workspace: &Workspace) -> (r: String)
    ensures
        r@ == "sandbox-"@ + workspace.preview_key@,
{
    prefixed("sandbox-", &workspace.preview_key)
}

/// Name of the Secret holding a workspace's runtime credentials.
pub fn runtime_secret_name(workspace: &Workspace) -> (r: String)
    ensures
        r@ == "runtime-"@ + workspace.preview_key@,
{
    prefixed("runtime-", &workspace.preview_key)
}

/// Name of the Secret holding an owner's environment profile for a project:
/// `env-<project>-` and 12 hex digits of the SHA-256 of `owner`, NUL, `project`.
pub open spec fn spec_env_secret_name(owner: Seq<char>, project: Seq<char>) -> Seq<char> {
    let hash = sha256_hex_spec(vstd::utf8::encode_utf8(owner + seq!['\0'] + project));
    "env-"@ + project + "-"@ + hash.take(12)
}

pub fn env_secret_name(owner: &str, project: &str) -> (r: String)
    ensures
        r@ == spec_env_secret_name(owner@, project@),
{
    let mut joined = crate::text::to_chars(owner);
    joined.push('\0');
    crate::text::append_str(&mut joined, project);
    proof {
        assert(joined@ =~= owner@ + seq!['\0'] + project@);
    }
    let joined = crate::text::from_chars(joined.as_slice());
    let hash = crate::digest::sha256_hex(joined.as_str().as_bytes());
    let mut out = crate::text::to_chars("env-");
    crate::text::append_str(&mut out, project);
    crate::text::append_str(&mut out, "-");
    let short = crate::text::take_chars(&hash, 12);
    crate::text::append_chars(&mut out, &short);
    crate::text::from_chars(out.as_slice())
}

/// What the gateway reads of one container status of a Pod.
#[derive(Clone, Debug)]
pub struct ContainerStatus {
    pub name: String,
    pub image_id: String,
    /// Exit code, when the container has terminated.
    pub terminated_exit_code: Option<i32>,
}

/// What the gateway reads of a Pod's status.
#[derive(Clone, Debug)]
pub struct PodStatus {
    /// `(type, status)` of each condition.
    pub conditions: Vec<(String, String)>,
    pub container_statuses: Vec<ContainerStatus>,
    pub pod_ip: Option<String>,
}

/// Index of the first container status named `workspace`.
pub open spec fn first_workspace_container(statuses: Seq<ContainerStatus>) -> Option<int> {
    if exists|i: int| 0 <= i < statuses.len() && #[trigger] statuses[i].name@ == "workspace"@ {
        let i = choose|i: int|
            0 <= i < statuses.len() && #[trigger] statuses[i].name@ == "workspace"@ && forall|
                j: int,
            |
                0 <= j < i ==> #[trigger] statuses[j].name@ != "workspace"@;
        Some(i)
    } else {
        None
    }
}

fn find_workspace_container(statuses: &Vec<ContainerStatus>) -> (r: Option<usize>)
    ensures
        match r {
            Some(i) => i < statuses@.len() && statuses@[i as int].name@ == "workspace"@ && forall|
                j: int,
            |
                0 <= j < i ==> #[trigger] statuses@[j].name@ != "workspace"@,
            None => forall|j: int|
                0 <= j < statuses@.len() ==> #[trigger] statuses@[j].name@ != "workspace"@,
        },
{
    let target = crate::text::to_chars("workspace");
    let mut i: usize = 0;
    while i < statuses.len()
        invariant
            i <= statuses@.len(),
            target@ == "workspace"@,
            forall|j: int| 0 <= j < i ==> #[trigger] statuses@[j].name@ != "workspace"@,
        decreases statuses@.len() - i,
    {
        let name = crate::text::to_chars(statuses[i].name.as_str());
        if crate::text::chars_equal(&name, &target) {
            return Some(i);
        }
        i = i + 1;
    }
    None
}

proof fn lemma_first_workspace_container(statuses: Seq<ContainerStatus>, i: int)
    requires
        0 <= i < statuses.len(),
        statuses[i].name@ == "workspace"@,
        forall|j: int| 0 <= j < i ==> #[trigger] statuses[j].name@ != "workspace"@,
    ensures
        first_workspace_container(statuses) == Some(i),
{
    let k = choose|k: int|
        0 <= k < statuses.len() && #[trigger] statuses[k].name@ == "workspace"@ && forall|j: int|
            0 <= j < k ==> #[trigger] statuses[j].name@ != "workspace"@;
    if k < i {
        assert(statuses[k].name@ != "workspace"@);
    }
    if i < k {
        assert(statuses[i].name@ != "workspace"@);
    }
}

/// Exit code of the terminated `workspace` container, if it has terminated.
pub open spec fn spec_workspace_exit_code(statuses: Seq<ContainerStatus>) -> Option<i32> {
    match first_workspace_container(statuses) {
        Some(i) => statuses[i].terminated_exit_code,
        None => None,
    }
}

/// The exit code of the Pod's `workspace` container, when it has terminated.
pub fn workspace_exit_code(statuses: &Vec<ContainerStatus>) -> (r: Option<i32>)
    ensures
        r == spec_workspace_exit_code(statuses@),
{
    match find_workspace_container(statuses) {
        Some(i) => {
            proof {
                lemma_first_workspace_container(statuses@, i as int);
            }
            statuses[i].terminated_exit_code
        },
        None => None,
    }
}

/// What one look at a sandbox Pod being deleted decides.
#[derive(Clone, Copy, Debug, PartialEq, Eq, Structural)]
pub enum DeletionVerdict {
    /// The Pod is gone: the deletion finished.
    Gone,
    /// The supervisor exited with a failure, so the final checkpoint may be missing.
    SupervisorFailed { exit_code: i32 },
    /// The Pod outlived its grace period and the extra wait.
    TimedOut,
    /// Look again shortly.
    Wait,
}

pub open spec fn spec_deletion_verdict(pod: Option<Seq<ContainerStatus>>, deadline_passed: bool) -> DeletionVerdict {
    match pod {
        None => DeletionVerdict::Gone,
        Some(statuses) => match spec_workspace_exit_code(statuses) {
            Some(code) if code != 0 => DeletionVerdict::SupervisorFailed { exit_code: code },
            _ => if deadline_passed {
                DeletionVerdict::TimedOut
            } else {
                DeletionVerdict::Wait
            },
        },
    }
}

/// Judges a Pod under deletion from its container statuses (`None` once the
/// Pod is gone) and whether the deadline has passed. A nonzero exit of the
/// workspace container is reported before the deadline is.
pub fn deletion_verdict(pod: Option<&Vec<ContainerStatus>>, deadline_passed: bool) -> (r: DeletionVerdict)
    ensures
        r == spec_deletion_verdict(
            match pod {
                Some(s) => Some(s@),
                None => None,
            },
            deadline_passed,
        ),
{
    match pod {
        None => DeletionVerdict::Gone,
        Some(statuses) => {
            match workspace_exit_code(statuses) {
                Some(code) => if code != 0 {
                    return DeletionVerdict::SupervisorFailed { exit_code: code };
                },
                None => {},
            }
            if deadline_passed {
                DeletionVerdict::TimedOut
            } else {
                DeletionVerdict::Wait
            }
        },
    }
}

/// The Kubernetes objects a suspension or a deletion removes.
#[derive(Clone, Copy, Debug, PartialEq, Eq, Structural)]
pub struct Teardown {
    /// Checkpoint the Pod, then delete it and wait until it is gone.
    pub pod: bool,
    pub service: bool,
    pub runtime_secret: bool,
}

/// Suspending removes only the Pod, so the Service and the runtime Secret
/// survive for the resume; deleting the workspace removes all three.
pub fn teardown(delete_workspace: bool) -> (r: Teardown)
    ensures
        r.pod,
        r.service == delete_workspace,
        r.runtime_secret == delete_workspace,
{
    Teardown { pod: true, service: delete_workspace, runtime_secret: delete_workspace }
}

/// Where a teardown stands. The Pod is looked up, checkpointed, deleted and
/// awaited; then the Service and the runtime Secret are removed if the plan
/// says so.
#[derive(Clone, Copy, Debug, PartialEq, Eq, Structural)]
pub enum TeardownStage {
    LookUpPod,
    CheckpointPod,
    DeletePod,
    AwaitPodGone,
    DeleteService,
    DeleteRuntimeSecret,
    Done,
    Failed,
}

/// How a teardown step went.
#[derive(Clone, Copy, Debug, PartialEq, Eq, Structural)]
pub enum StepResult {
    Succeeded,
    /// The looked-up Pod does not exist.
    Absent,
    Failed,
}

/// A teardown in progress.
#[derive(Clone, Copy, Debug, PartialEq, Eq, Structural)]
pub struct TeardownFlow {
    pub plan: Teardown,
    pub stage: TeardownStage,
}

/// The stage after the Pod is dealt with.
pub open spec fn after_pod(plan: Teardown) -> TeardownStage {
    if plan.service {
        TeardownStage::DeleteService
    } else if plan.runtime_secret {
        TeardownStage::DeleteRuntimeSecret
    } else {
        TeardownStage::Done
    }
}

pub open spec fn first_stage(plan: Teardown) -> TeardownStage {
    if plan.pod {
        TeardownStage::LookUpPod
    } else {
        after_pod(plan)
    }
}

/// The next stage; a failed step ends the teardown, and a Pod that is absent
/// when looked up is neither checkpointed nor deleted. Once the Pod was found,
/// only a step that succeeded moves on; a Service or Secret that is absent
/// needs no deletion.
pub open spec fn spec_teardown_next(plan: Teardown, stage: TeardownStage, result: StepResult) -> TeardownStage {
    if result is Failed || (result is Absent && (stage == TeardownStage::CheckpointPod || stage
        == TeardownStage::DeletePod || stage == TeardownStage::AwaitPodGone)) {
        match stage {
            TeardownStage::Done => TeardownStage::Done,
            _ => TeardownStage::Failed,
        }
    } else {
        match stage {
            TeardownStage::LookUpPod => if result is Absent {
                after_pod(plan)
            } else {
                TeardownStage::CheckpointPod
            },
            TeardownStage::CheckpointPod => TeardownStage::DeletePod,
            TeardownStage::DeletePod => TeardownStage::AwaitPodGone,
            TeardownStage::AwaitPodGone => after_pod(plan),
            TeardownStage::DeleteService => if plan.runtime_secret {
                TeardownStage::DeleteRuntimeSecret
            } else {
                TeardownStage::Done
            },
            TeardownStage::DeleteRuntimeSecret => TeardownStage::Done,
            TeardownStage::Done => TeardownStage::Done,
            TeardownStage::Failed => TeardownStage::Failed,
        }
    }
}

impl TeardownFlow {
    pub fn new(plan: Teardown) -> (r: TeardownFlow)
        ensures
            r.plan == plan,
            r.stage == first_stage(plan),
    {
        let stage = if plan.pod {
            TeardownStage::LookUpPod
        } else if plan.service {
            TeardownStage::DeleteService
        } else if plan.runtime_secret {
            TeardownStage::DeleteRuntimeSecret
        } else {
            TeardownStage::Done
        };
        TeardownFlow { plan, stage }
    }

    /// Whether the teardown has ended, well or not.
    pub fn finished(&self) -> (r: bool)
        ensures
            r == (self.stage == TeardownStage::Done || self.stage == TeardownStage::Failed),
    {
        match self.stage {
            TeardownStage::Done | TeardownStage::Failed => true,
            _ => false,
        }
    }

    /// Records how the current step went.
    pub fn advance(&mut self, result: StepResult)
        ensures
            final(self).plan == old(self).plan,
            final(self).stage == spec_teardown_next(old(self).plan, old(self).stage, result),
    {
        let after_pod = if self.plan.service {
            TeardownStage::DeleteService
        } else if self.plan.runtime_secret {
            TeardownStage::DeleteRuntimeSecret
        } else {
            TeardownStage::Done
        };
        let pod_step = match self.stage {
            TeardownStage::CheckpointPod | TeardownStage::DeletePod | TeardownStage::AwaitPodGone => true,
            _ => false,
        };
        let stopped = match result {
            StepResult::Failed => true,
            StepResult::Absent => pod_step,
            StepResult::Succeeded => false,
        };
        let next = if stopped {
            match self.stage {
                TeardownStage::Done => TeardownStage::Done,
                _ => TeardownStage::Failed,
            }
        } else {
            match self.stage {
                TeardownStage::LookUpPod => match result {
                    StepResult::Absent => after_pod,
                    _ => TeardownStage::CheckpointPod,
                },
                TeardownStage::CheckpointPod => TeardownStage::DeletePod,
                TeardownStage::DeletePod => TeardownStage::AwaitPodGone,
                TeardownStage::AwaitPodGone => after_pod,
                TeardownStage::DeleteService => if self.plan.runtime_secret {
                    TeardownStage::DeleteRuntimeSecret
                } else {
                    TeardownStage::Done
                },
                TeardownStage::DeleteRuntimeSecret => TeardownStage::Done,
                TeardownStage::Done => TeardownStage::Done,
                TeardownStage::Failed => TeardownStage::Failed,
            }
        };
        self.stage = next;
    }
}

/// The Pod is deleted only right after it was checkpointed successfully: a
/// failed checkpoint ends the teardown with the Pod in place.
pub proof fn law_delete_only_after_checkpoint(plan: Teardown, stage: TeardownStage, result: StepResult)
    ensures
        spec_teardown_next(plan, stage, result) == TeardownStage::DeletePod ==> stage == TeardownStage::CheckpointPod
            && result is Succeeded,
        spec_teardown_next(plan, TeardownStage::CheckpointPod, StepResult::Failed) == TeardownStage::Failed,
        first_stage(plan) != TeardownStage::DeletePod,
{
}

/// A suspension only ever touches the Pod: no step of its teardown deletes
/// the Service or the runtime Secret.
pub proof fn law_suspension_keeps_service_and_secret(stage: TeardownStage, result: StepResult)
    ensures
        ({
            let plan = Teardown { pod: true, service: false, runtime_secret: false };
            &&& first_stage(plan) != TeardownStage::DeleteService
            &&& first_stage(plan) != TeardownStage::DeleteRuntimeSecret
            &&& spec_teardown_next(plan, stage, result) != TeardownStage::DeleteService
            &&& spec_teardown_next(plan, stage, result) != TeardownStage::DeleteRuntimeSecret
        }),
{
}

/// The Pod reports the condition `Ready` with status `True`.
pub open spec fn spec_pod_ready(conditions: Seq<(String, String)>) -> bool {
    exists|i: int|
        0 <= i < conditions.len() && #[trigger] conditions[i].0@ == "Ready"@ && conditions[i].1@
            == "True"@
}

pub fn pod_ready(conditions: &Vec<(String, String)>) -> (r: bool)
    ensures
        r == spec_pod_ready(conditions@),
{
    let ready = crate::text::to_chars("Ready");
    let t = crate::text::to_chars("True");
    let mut i: usize = 0;
    while i < conditions.len()
        invariant
            i <= conditions@.len(),
            ready@ == "Ready"@,
            t@ == "True"@,
            forall|j: int|
                0 <= j < i ==> !(#[trigger] conditions@[j].0@ == "Ready"@ && conditions@[j].1@
                    == "True"@),
        decreases conditions@.len() - i,
    {
        let a = crate::text::to_chars(conditions[i].0.as_str());
        let b = crate::text::to_chars(conditions[i].1.as_str());
        if crate::text::chars_equal(&a, &ready) && crate::text::chars_equal(&b, &t) {
            return true;
        }
        i = i + 1;
    }
    false
}

/// What waiting for readiness concludes from one observation of the Pod:
/// `None` while it is not ready; once ready, the digest of the resolved
/// workspace image, or why there is none.
pub open spec fn spec_ready_outcome(image_ref: Seq<char>, status: PodStatus) -> Option<Result<Seq<char>, K8sError>> {
    if !spec_pod_ready(status.conditions@) {
        None
    } else {
        match first_workspace_container(status.container_statuses@) {
            None => Some(Err(K8sError::NoResolvedImageId)),
            Some(i) => {
                let id = status.container_statuses@[i].image_id@;
                if id.len() == 0 {
                    Some(Err(K8sError::NoResolvedImageId))
                } else {
                    match spec_reusable_image_digest(image_ref, id) {
                        Some(d) => Some(Ok(d)),
                        None => Some(Err(K8sError::NoImageDigest)),
                    }
                }
            },
        }
    }
}

/// Decides, from one observation of the sandbox Pod, whether it is ready and
/// which image digest to record.
pub fn ready_outcome(image_ref: &str, status: &PodStatus) -> (r: Option<Result<Provisioned, K8sError>>)
    ensures
        match r {
            None => spec_ready_outcome(image_ref@, *status) is None,
            Some(Ok(p)) => spec_ready_outcome(image_ref@, *status) == Some(
                Ok::<Seq<char>, K8sError>(p.image_digest@),
            ),
            Some(Err(e)) => spec_ready_outcome(image_ref@, *status) == Some(
                Err::<Seq<char>, K8sError>(e),
            ),
        },
{
    if !pod_ready(&status.conditions) {
        return None;
    }
    let i = match find_workspace_container(&status.container_statuses) {
        Some(i) => i,
        None => return Some(Err(K8sError::NoResolvedImageId)),
    };
    proof {
        lemma_first_workspace_container(status.container_statuses@, i as int);
    }
    let id = &status.container_statuses[i].image_id;
    if id.as_str().is_empty() {
        return Some(Err(K8sError::NoResolvedImageId));
    }
    match reusable_image_digest(image_ref, id.as_str()) {
        Ok(d) => Some(Ok(Provisioned { image_digest: d })),
        Err(e) => Some(Err(e)),
    }
}

/// How the ready-Pod index changes when a Pod is observed.
#[derive(Clone, Debug)]
pub enum IndexAction {
    /// Route preview key `key` to `ip`.
    Insert { key: String, ip: String },
    /// Stop routing preview key `key`.
    Remove { key: String },
    /// Leave the index unchanged.
    Keep,
}

/// What one observed Pod (its preview-key label and status) does to the index.
pub open spec fn spec_index_action(preview_key: Option<Seq<char>>, status: PodStatus) -> (Option<Seq<char>>, Option<Seq<char>>) {
    if !spec_pod_ready(status.conditions@) {
        match preview_key {
            Some(k) => (Some(k), None),
            None => (None, None),
        }
    } else {
        match (preview_key, opt_view(status.pod_ip)) {
            (Some(k), Some(ip)) => (Some(k), Some(ip)),
            _ => (None, None),
        }
    }
}

/// A ready Pod with a preview key and an IP is routed; a Pod that is not
/// ready is removed from the index; anything else leaves it unchanged.
pub fn index_action(preview_key: Option<String>, status: &PodStatus) -> (r: IndexAction)
    ensures
        match r {
            IndexAction::Insert { key, ip } => spec_index_action(opt_view(preview_key), *status)
                == (Some(key@), Some(ip@)),
            IndexAction::Remove { key } => spec_index_action(opt_view(preview_key), *status) == (
                Some(key@),
                None::<Seq<char>>,
            ),
            IndexAction::Keep => spec_index_action(opt_view(preview_key), *status) == (
                None::<Seq<char>>,
                None::<Seq<char>>,
            ),
        },
{
    if !pod_ready(&status.conditions) {
        return match preview_key {
            Some(k) => IndexAction::Remove { key: k },
            None => IndexAction::Keep,
        };
    }
    match (preview_key, &status.pod_ip) {
        (Some(k), Some(ip)) => IndexAction::Insert { key: k, ip: ip.clone() },
        _ => IndexAction::Keep,
    }
}

/// The image the sandbox runs: the recorded digest (without a
/// `docker-pullable://` prefix) once known, else the configured image.
pub open spec fn spec_sandbox_image(image_ref: Seq<char>, image_digest: Option<Seq<char>>) -> Seq<char> {
    match image_digest {
        Some(d) => if has_prefix(d, pullable_prefix()) {
            d.skip(pullable_prefix().len() as int)
        } else {
            d
        },
        None => image_ref,
    }
}

pub fn sandbox_image(workspace: &Workspace) -> (r: String)
    ensures
        r@ == spec_sandbox_image(workspace.image_ref@, opt_view(workspace.image_digest)),
{
    match &workspace.image_digest {
        Some(d) => {
            let v = crate::text::to_chars(d.as_str());
            let p = crate::text::to_chars("docker-pullable://");
            if crate::text::chars_start_with(&v, &p) {
                crate::text::from_chars(crate::text::slice_chars(&v, p.len(), v.len()).as_slice())
            } else {
                d.clone()
            }
        },
        None => workspace.image_ref.clone(),
    }
}

/// The entries of the upstream-environment JSON object `text`, read as a map
/// from strings to strings or nulls, in key order (`None` when the text is
/// not such an object).
pub uninterp spec fn spec_parse_env_object(text: Seq<char>) -> Option<Seq<(Seq<char>, Option<Seq<char>>)>>;

/// `serde_json::from_str::<BTreeMap<String, Option<String>>>`, its entries
/// handed out in the map's order; the contract only names the result.
#[verifier::external_body]
fn parse_env_object(text: &str) -> (r: Option<Vec<(String, Option<String>)>>)
    ensures
        match r {
            Some(v) => spec_parse_env_object(text@) == Some(entries_view(v@)),
            None => spec_parse_env_object(text@) is None,
        },
{
    match serde_json::from_str::<std::collections::BTreeMap<String, Option<String>>>(text) {
        Ok(map) => Some(map.into_iter().collect()),
        Err(_) => None,
    }
}

/// The value of the first entry named `key`; a `null` value counts as absent.
pub open spec fn env_lookup(entries: Seq<(Seq<char>, Option<Seq<char>>)>, key: Seq<char>) -> Option<Seq<char>>
    decreases entries.len(),
{
    if entries.len() == 0 {
        None
    } else if entries[0].0 == key {
        entries[0].1
    } else {
        env_lookup(entries.drop_first(), key)
    }
}

fn env_entry(entries: &Vec<(String, Option<String>)>, key: &String) -> (r: Option<String>)
    ensures
        opt_view(r) == env_lookup(entries_view(entries@), key@),
{
    let ghost all = entries_view(entries@);
    proof {
        assert(all.skip(0) =~= all);
    }
    let mut i: usize = 0;
    while i < entries.len()
        invariant
            i <= entries@.len(),
            all == entries_view(entries@),
            env_lookup(all, key@) == env_lookup(all.skip(i as int), key@),
        decreases entries@.len() - i,
    {
        proof {
            assert(all.skip(i as int)[0] == all[i as int]);
            assert(all.skip(i as int).drop_first() =~= all.skip(i + 1));
        }
        if entries[i].0 == *key {
            return entries[i].1.clone();
        }
        i = i + 1;
    }
    proof {
        assert(all.skip(i as int).len() == 0);
    }
    None
}

/// The OpenCode credentials placed in the runtime Secret: the non-empty
/// `OPENCODE_AUTH_CONTENT` of the upstream environment.
pub fn auth_content(upstream_environment: &str) -> (r: Result<String, K8sError>)
    ensures
        match spec_parse_env_object(upstream_environment@) {
            None => r == Err::<String, K8sError>(K8sError::InvalidUpstreamEnvironment),
            Some(entries) => match env_lookup(entries, "OPENCODE_AUTH_CONTENT"@) {
                Some(v) => if v.len() > 0 {
                    r matches Ok(s) && s@ == v
                } else {
                    r == Err::<String, K8sError>(K8sError::MissingAuthContent)
                },
                None => r == Err::<String, K8sError>(K8sError::MissingAuthContent),
            },
        },
{
    let entries = match parse_env_object(upstream_environment) {
        None => return Err(K8sError::InvalidUpstreamEnvironment),
        Some(entries) => entries,
    };
    let key = "OPENCODE_AUTH_CONTENT".to_owned();
    match env_entry(&entries, &key) {
        Some(v) => if crate::text::str_is_empty(v.as_str()) {
            Err(K8sError::MissingAuthContent)
        } else {
            Ok(v)
        },
        None => Err(K8sError::MissingAuthContent),
    }
}

/// URL of the supervisor's checkpoint endpoint on a Pod IP (IPv6 in brackets).
pub open spec fn spec_checkpoint_url(ip: Seq<char>) -> Seq<char> {
    let host = if ip.contains(':') {
        "["@ + ip + "]"@
    } else {
        ip
    };
    "http://"@ + host + ":4097/checkpoint"@
}

pub fn supervisor_checkpoint_url(ip: &str) -> (r: String)
    ensures
        r@ == spec_checkpoint_url(ip@),
{
    let v = crate::text::to_chars(ip);
    let mut out = crate::text::to_chars("http://");
    if crate::text::chars_contain(&v, ':') {
        crate::text::append_str(&mut out, "[");
        crate::text::append_chars(&mut out, &v);
        crate::text::append_str(&mut out, "]");
    } else {
        crate::text::append_chars(&mut out, &v);
    }
    crate::text::append_str(&mut out, ":4097/checkpoint");
    crate::text::from_chars(out.as_slice())
}

} // verus!

verus! {

impl K8sError {
    pub open spec fn spec_message(self) -> Seq<char> {
        match self {
            K8sError::NoImageDigest => "container imageID does not contain a SHA-256 digest"@,
            K8sError::NoResolvedImageId => "ready workspace container has no resolved imageID"@,
            K8sError::InvalidUpstreamEnvironment => "parse upstream environment"@,
            K8sError::MissingAuthContent => "upstream environment omitted OPENCODE_AUTH_CONTENT"@,
        }
    }

    /// The message the error is reported with.
    pub fn message(&self) -> (r: &'static str)
        ensures
            r@ == self.spec_message(),
    {
        match self {
            K8sError::NoImageDigest => "container imageID does not contain a SHA-256 digest",
            K8sError::NoResolvedImageId => "ready workspace container has no resolved imageID",
            K8sError::InvalidUpstreamEnvironment => "parse upstream environment",
            K8sError::MissingAuthContent => "upstream environment omitted OPENCODE_AUTH_CONTENT",
        }
    }
}

/// What follows the Pod in a teardown does not depend on whether the Pod
/// existed: an absent Pod leads on exactly as a Pod that was checkpointed,
/// deleted and awaited, to the Service when the plan removes it, else to the
/// runtime Secret when the plan removes that, else to the end.
pub proof fn law_teardown_goes_on_without_a_pod(plan: Teardown)
    ensures
        spec_teardown_next(plan, TeardownStage::LookUpPod, StepResult::Absent) == spec_teardown_next(
            plan,
            TeardownStage::AwaitPodGone,
            StepResult::Succeeded,
        ),
        plan.service ==> spec_teardown_next(plan, TeardownStage::LookUpPod, StepResult::Absent)
            == TeardownStage::DeleteService,
        !plan.service && plan.runtime_secret ==> spec_teardown_next(plan, TeardownStage::LookUpPod, StepResult::Absent)
            == TeardownStage::DeleteRuntimeSecret,
        !plan.service && !plan.runtime_secret ==> spec_teardown_next(
            plan,
            TeardownStage::LookUpPod,
            StepResult::Absent,
        ) == TeardownStage::Done,
{
}

/// Deleting a workspace whose Pod is already gone still removes the Service
/// and then the runtime Secret (each whether or not it is still there)
/// before it ends.
pub proof fn law_deletion_removes_service_and_secret(service: StepResult, secret: StepResult)
    requires
        !(service is Failed),
        !(secret is Failed),
    ensures
        ({
            let plan = Teardown { pod: true, service: true, runtime_secret: true };
            let s1 = spec_teardown_next(plan, TeardownStage::LookUpPod, StepResult::Absent);
            let s2 = spec_teardown_next(plan, s1, service);
            &&& s1 == TeardownStage::DeleteService
            &&& s2 == TeardownStage::DeleteRuntimeSecret
            &&& spec_teardown_next(plan, s2, secret) == TeardownStage::Done
        }),
{
}

/// The container terminated with a nonzero exit code.
pub open spec fn exited_nonzero(c: ContainerStatus) -> bool {
    c.terminated_exit_code matches Some(code) && code != 0
}

/// A workspace container that terminated with a nonzero code is reported
/// with that code as long as the Pod is still there, before or after the
/// deadline.
pub proof fn law_failed_supervisor_is_reported(statuses: Seq<ContainerStatus>, i: int, deadline_passed: bool)
    requires
        0 <= i < statuses.len(),
        statuses[i].name@ == "workspace"@,
        forall|j: int| 0 <= j < i ==> #[trigger] statuses[j].name@ != "workspace"@,
        exited_nonzero(statuses[i]),
    ensures
        spec_deletion_verdict(Some(statuses), deadline_passed) == (DeletionVerdict::SupervisorFailed {
            exit_code: statuses[i].terminated_exit_code->0,
        }),
{
    lemma_first_workspace_container(statuses, i);
}

/// A Pod that is gone ends the wait; while no container has failed, the wait
/// goes on until the deadline and then times out.
pub proof fn law_deletion_wait_ends(statuses: Seq<ContainerStatus>, deadline_passed: bool)
    ensures
        spec_deletion_verdict(None, deadline_passed) == DeletionVerdict::Gone,
        (forall|j: int| 0 <= j < statuses.len() ==> !exited_nonzero(#[trigger] statuses[j]))
            ==> spec_deletion_verdict(Some(statuses), deadline_passed) == (if deadline_passed {
            DeletionVerdict::TimedOut
        } else {
            DeletionVerdict::Wait
        }),
{
    if exists|i: int| 0 <= i < statuses.len() && #[trigger] statuses[i].name@ == "workspace"@ {
        let i0 = choose|i: int| 0 <= i < statuses.len() && #[trigger] statuses[i].name@ == "workspace"@;
        lemma_some_first_workspace_container(statuses, i0);
    }
}

/// Some workspace container comes before all others of that name.
proof fn lemma_some_first_workspace_container(statuses: Seq<ContainerStatus>, i0: int)
    requires
        0 <= i0 < statuses.len(),
        statuses[i0].name@ == "workspace"@,
    ensures
        exists|i: int|
            0 <= i < statuses.len() && #[trigger] statuses[i].name@ == "workspace"@ && forall|j: int|
                0 <= j < i ==> #[trigger] statuses[j].name@ != "workspace"@,
    decreases i0,
{
    if exists|j: int| 0 <= j < i0 && #[trigger] statuses[j].name@ == "workspace"@ {
        let j = choose|j: int| 0 <= j < i0 && #[trigger] statuses[j].name@ == "workspace"@;
        lemma_some_first_workspace_container(statuses, j);
    } else {
        assert(forall|j: int| 0 <= j < i0 ==> #[trigger] statuses[j].name@ != "workspace"@);
    }
}

/// A Pod is ready only when one of its conditions is `Ready` with status
/// `True`: a `Ready` condition with any other status does not count, and
/// further conditions never take readiness away. A Pod that is not ready
/// yields no outcome: the gateway keeps waiting.
pub proof fn law_ready_needs_ready_true(conditions: Seq<(String, String)>, i: int, extra: (String, String), image_ref: Seq<char>, status: PodStatus)
    ensures
        (forall|j: int| 0 <= j < status.conditions@.len() && #[trigger] status.conditions@[j].0@ == "Ready"@
            ==> status.conditions@[j].1@ != "True"@) ==> spec_ready_outcome(image_ref, status) is None,
        (forall|j: int| 0 <= j < conditions.len() && #[trigger] conditions[j].0@ == "Ready"@ ==> conditions[j].1@
            != "True"@) ==> !spec_pod_ready(conditions),
        0 <= i < conditions.len() && conditions[i].0@ == "Ready"@ && conditions[i].1@ == "True"@ ==> spec_pod_ready(
            conditions,
        ),
        spec_pod_ready(conditions) ==> spec_pod_ready(conditions.push(extra)),
{
    if spec_pod_ready(conditions) {
        let k = choose|k: int|
            0 <= k < conditions.len() && #[trigger] conditions[k].0@ == "Ready"@ && conditions[k].1@ == "True"@;
        assert(conditions.push(extra)[k] == conditions[k]);
    }
}

/// The preview index follows readiness: a Pod that is not ready is taken out
/// of it and adds nothing, and a ready Pod with a preview key and an IP is
/// routed to that IP.
pub proof fn law_index_follows_readiness(preview_key: Option<Seq<char>>, status: PodStatus)
    ensures
        !spec_pod_ready(status.conditions@) ==> spec_index_action(preview_key, status).1 is None
            && spec_index_action(preview_key, status).0 == preview_key,
        (spec_pod_ready(status.conditions@) && preview_key is Some && status.pod_ip is Some) ==> spec_index_action(
            preview_key,
            status,
        ) == (preview_key, opt_view(status.pod_ip)),
        spec_index_action(preview_key, status).1 is Some ==> spec_pod_ready(status.conditions@),
{
}

/// A sandbox runs the configured image until a digest is recorded, and from
/// then on exactly that digest, without the runtime's `docker-pullable://`
/// prefix.
pub proof fn law_sandbox_runs_recorded_digest(image_ref: Seq<char>, digest: Seq<char>)
    ensures
        spec_sandbox_image(image_ref, None) == image_ref,
        spec_sandbox_image(image_ref, Some("docker-pullable://"@ + digest)) == digest,
        !has_prefix(digest, "docker-pullable://"@) ==> spec_sandbox_image(image_ref, Some(digest)) == digest,
{
    let p = "docker-pullable://"@;
    assert(pullable_prefix() == p);
    assert((p + digest).take(p.len() as int) =~= p);
    assert((p + digest).skip(p.len() as int) =~= digest);
}

} // verus!
