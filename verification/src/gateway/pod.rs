use vstd::prelude::*;

use crate::gateway::config::{Config, Project, ProjectEnvironment, ResourcePair, Resources};
use crate::gateway::k8s::{
    env_secret_name, pod_name, runtime_secret_name, sandbox_image, spec_env_secret_name,
    spec_sandbox_image,
};
use crate::gateway::state::{opt_view, Workspace};

verus! {

/* The sandbox Pod, as plain values */

/// Where a volume's contents come from. A sandbox has no persistent volume.
#[derive(Clone, Debug)]
pub enum VolumeSource {
    /// Scratch space that lives and dies with the Pod.
    EmptyDir,
    /// A Secret's keys as files, with the given file mode.
    Secret { secret_name: String, default_mode: u32 },
}

#[derive(Clone, Debug)]
pub struct Volume {
    pub name: String,
    pub source: VolumeSource,
}

#[derive(Clone, Debug)]
pub struct VolumeMount {
    pub name: String,
    pub mount_path: String,
    pub read_only: bool,
}

/// The value of an environment variable.
#[derive(Clone, Debug)]
pub enum EnvValue {
    Text { value: String },
    /// Written as a JSON `null`.
    Null,
    /// A key of a Secret, resolved by the kubelet.
    SecretKey { secret_name: String, key: String },
}

#[derive(Clone, Debug)]
pub struct EnvVar {
    pub name: String,
    pub value: EnvValue,
}

#[derive(Clone, Debug)]
pub struct ContainerPort {
    pub name: String,
    pub container_port: u16,
}

/// A readiness probe that opens a TCP connection.
#[derive(Clone, Debug)]
pub struct TcpProbe {
    pub port: u16,
    pub period_seconds: u32,
    pub failure_threshold: u32,
}

#[derive(Clone, Debug)]
pub struct Container {
    pub name: String,
    pub image: String,
    pub image_pull_policy: Option<String>,
    pub restart_policy: Option<String>,
    pub command: Vec<String>,
    pub working_dir: Option<String>,
    pub env: Vec<EnvVar>,
    pub ports: Vec<ContainerPort>,
    pub volume_mounts: Vec<VolumeMount>,
    pub resources: Option<Resources>,
    pub readiness_probe: Option<TcpProbe>,
    pub allow_privilege_escalation: bool,
    pub drop_capabilities: Vec<String>,
}

#[derive(Clone, Debug)]
pub struct PodSpec {
    pub name: String,
    pub namespace: String,
    pub labels: Vec<(String, String)>,
    pub automount_service_account_token: bool,
    pub enable_service_links: bool,
    pub restart_policy: String,
    pub termination_grace_period_seconds: u64,
    pub seccomp_profile: String,
    pub fs_group: u32,
    pub fs_group_change_policy: String,
    pub volumes: Vec<Volume>,
    pub init_containers: Vec<Container>,
    pub containers: Vec<Container>,
}

/* Views */

pub enum EnvSource {
    Text(Seq<char>),
    Null,
    SecretKey(Seq<char>, Seq<char>),
}

pub open spec fn env_view(e: EnvVar) -> (Seq<char>, EnvSource) {
    (e.name@, match e.value {
        EnvValue::Text { value } => EnvSource::Text(value@),
        EnvValue::Null => EnvSource::Null,
        EnvValue::SecretKey { secret_name, key } => EnvSource::SecretKey(secret_name@, key@),
    })
}

pub open spec fn envs_view(s: Seq<EnvVar>) -> Seq<(Seq<char>, EnvSource)> {
    s.map_values(|e: EnvVar| env_view(e))
}

pub open spec fn mounts_view(s: Seq<VolumeMount>) -> Seq<(Seq<char>, Seq<char>, bool)> {
    s.map_values(|m: VolumeMount| (m.name@, m.mount_path@, m.read_only))
}

/// A volume as its name and, for a Secret, the Secret's name and file mode
/// (`None` for `emptyDir`).
pub open spec fn volumes_view(s: Seq<Volume>) -> Seq<(Seq<char>, Option<(Seq<char>, u32)>)> {
    s.map_values(|v: Volume| (v.name@, match v.source {
        VolumeSource::EmptyDir => None,
        VolumeSource::Secret { secret_name, default_mode } => Some((secret_name@, default_mode)),
    }))
}

pub open spec fn strs_view(s: Seq<String>) -> Seq<Seq<char>> {
    s.map_values(|x: String| x@)
}

pub open spec fn ports_view(s: Seq<ContainerPort>) -> Seq<(Seq<char>, u16)> {
    s.map_values(|p: ContainerPort| (p.name@, p.container_port))
}

pub open spec fn resources_view(r: Resources) -> (Seq<char>, Seq<char>, Seq<char>, Seq<char>) {
    (r.requests.cpu@, r.requests.memory@, r.limits.cpu@, r.limits.memory@)
}

/* What every sandbox Pod promises */

/// The volume keeps nothing beyond the Pod's life or outside a Secret.
pub open spec fn ephemeral(v: Volume) -> bool {
    v.source is EmptyDir || v.source is Secret
}

/// The container cannot gain privileges and holds no Linux capability.
pub open spec fn hardened(c: Container) -> bool {
    !c.allow_privilege_escalation && strs_view(c.drop_capabilities@) == seq!["ALL"@]
}

pub open spec fn runtime_mounts() -> Seq<(Seq<char>, Seq<char>, bool)> {
    seq![
        ("workspace"@, "/workspace"@, false),
        ("runtime"@, "/opt/opencode"@, false),
        ("runtime-state"@, "/run/opencode"@, false),
        ("runtime-auth"@, "/run/opencode-auth"@, true),
    ]
}

pub open spec fn profile_mount() -> (Seq<char>, Seq<char>, bool) {
    ("env-profile"@, "/run/opencode-env"@, true)
}

pub open spec fn spec_volumes(workspace: Workspace, has_profile: bool) -> Seq<(Seq<char>, Option<(Seq<char>, u32)>)> {
    let base = seq![
        ("workspace"@, None),
        ("runtime"@, None),
        ("runtime-state"@, None),
        ("runtime-auth"@, Some(("runtime-"@ + workspace.preview_key@, 288u32))),
    ];
    if has_profile {
        base.push(("env-profile"@, Some((spec_env_secret_name(workspace.owner@, workspace.project_key@), 288u32))))
    } else {
        base
    }
}

pub open spec fn profile_script(has_profile: bool) -> Seq<char> {
    if has_profile {
        "if git -C /workspace ls-files --error-unmatch .envrc >/dev/null 2>&1; then echo 'tracked .envrc conflicts with private environment profile' >&2; exit 1; fi\nln -s /run/opencode-env/profile.envrc /workspace/.envrc"@
    } else {
        ":"@
    }
}

/// The checkout script: clone and check out the Git ref, restore the latest
/// checkpoint if the gateway has one, link the private profile if any.
pub open spec fn checkout_script(has_profile: bool) -> Seq<char> {
    "set -eu\numask 0002\ngit clone --no-checkout \"$REPOSITORY\" /workspace\ngit -C /workspace fetch --depth=1 origin \"$GIT_REF\"\ngit -C /workspace checkout --detach FETCH_HEAD\nmkdir -p /run/opencode/restore\nMETADATA=/run/opencode/restore/metadata.json\nBUNDLE=/run/opencode/restore/checkpoint.bundle\nAUTHORIZATION=\"Authorization: Bearer $(cat /run/opencode-auth/runtime-token)\"\nSTATUS=$(curl --silent --show-error --output \"$METADATA\" --write-out '%{http_code}' --header \"$AUTHORIZATION\" \"$GATEWAY_URL/v1/workspaces/$OPENCODE_WORKSPACE_ID/checkpoints/latest\")\ncase \"$STATUS\" in\n  200)\n    curl --silent --show-error --fail --output \"$BUNDLE\" --header \"$AUTHORIZATION\" \"$GATEWAY_URL/v1/workspaces/$OPENCODE_WORKSPACE_ID/checkpoints/latest/blob\"\n    /opt/opencode/bin/supervisor restore --repo /workspace --metadata \"$METADATA\" --bundle \"$BUNDLE\"\n    ;;\n  404) rm -f \"$METADATA\" ;;\n  *) echo \"checkpoint metadata request failed with HTTP $STATUS\" >&2; exit 1 ;;\nesac\n"@
        + profile_script(has_profile) + "\nchmod -R a+rwX /workspace /run/opencode"@
}

pub open spec fn nix_flake(project: Project) -> EnvSource {
    match project.environment {
        ProjectEnvironment::Nix { flake } => EnvSource::Text(flake@),
        ProjectEnvironment::Image { .. } => EnvSource::Null,
    }
}

pub open spec fn workspace_env(config: Config, workspace: Workspace, project: Project) -> Seq<(Seq<char>, EnvSource)> {
    let secret = "runtime-"@ + workspace.preview_key@;
    seq![
        ("OPENCODE_WORKSPACE_ID"@, EnvSource::Text(workspace.id@)),
        ("OPENCODE_EXPERIMENTAL_WORKSPACES"@, EnvSource::Text("true"@)),
        ("OPENCODE_CONFIG_DIR"@, EnvSource::Text("/opt/opencode/config"@)),
        ("OPENCODE_SERVER_USERNAME"@, EnvSource::Text("opencode"@)),
        ("OPENCODE_SERVER_PASSWORD"@, EnvSource::SecretKey(secret, "password"@)),
        ("OPENCODE_AUTH_CONTENT"@, EnvSource::SecretKey(secret, "opencode-auth-content"@)),
        ("OPENCODE_EXPECTED_VERSION"@, EnvSource::Text(config.opencode.version@)),
        ("OPENCODE_GATEWAY_URL"@, EnvSource::Text(config.runtime.gateway_url@)),
        ("OPENCODE_GATEWAY_TOKEN"@, EnvSource::SecretKey(secret, "runtime-token"@)),
        ("OPENCODE_BASE_DOMAIN"@, EnvSource::Text(config.base_domain@)),
        ("OPENCODE_SUPERVISOR_ENDPOINT"@, EnvSource::Text("http://127.0.0.1:4097"@)),
        ("OPENCODE_CHECKPOINT_ENDPOINT"@, EnvSource::Text("http://127.0.0.1:4098"@)),
        ("OPENCODE_DIRENV_PATH"@, EnvSource::Text("/opt/opencode/bin/direnv"@)),
        ("SUPERVISOR_LISTEN"@, EnvSource::Text("127.0.0.1:4097"@)),
        ("SUPERVISOR_CONTROL_TOKEN_FILE"@, EnvSource::Text("/run/opencode-auth/runtime-token"@)),
        ("CHECKPOINT_SIDECAR_URL"@, EnvSource::Text("http://127.0.0.1:4098/checkpoint"@)),
        ("CHECKPOINT_CONTROL_TOKEN_FILE"@, EnvSource::Text("/run/opencode-auth/runtime-token"@)),
        ("OPENCODE_NIX_FLAKE"@, nix_flake(project)),
    ]
}

pub open spec fn sidecar_env(config: Config, workspace: Workspace) -> Seq<(Seq<char>, EnvSource)> {
    seq![
        ("WORKSPACE_PATH"@, EnvSource::Text("/workspace"@)),
        ("OPENCODE_WORKSPACE_ID"@, EnvSource::Text(workspace.id@)),
        ("CHECKPOINT_OUTPUT_DIR"@, EnvSource::Text("/run/opencode/checkpoints"@)),
        ("CHECKPOINT_LISTEN"@, EnvSource::Text("127.0.0.1:4098"@)),
        ("CHECKPOINT_CONTROL_TOKEN_FILE"@, EnvSource::Text("/run/opencode-auth/runtime-token"@)),
        ("GATEWAY_URL"@, EnvSource::Text(config.runtime.gateway_url@)),
        ("WORKSPACE_RUNTIME_TOKEN_FILE"@, EnvSource::Text("/run/opencode-auth/runtime-token"@)),
    ]
}

pub open spec fn checkout_env(config: Config, workspace: Workspace, project: Project) -> Seq<(Seq<char>, EnvSource)> {
    seq![
        ("REPOSITORY"@, EnvSource::Text(project.repository@)),
        ("GIT_REF"@, EnvSource::Text(workspace.git_ref@)),
        ("GATEWAY_URL"@, EnvSource::Text(config.runtime.gateway_url@)),
        ("OPENCODE_WORKSPACE_ID"@, EnvSource::Text(workspace.id@)),
    ]
}

pub open spec fn checkout_mounts(has_profile: bool) -> Seq<(Seq<char>, Seq<char>, bool)> {
    let head = seq![("workspace"@, "/workspace"@, false), ("runtime-auth"@, "/run/opencode-auth"@, true)];
    let with_profile = if has_profile { head.push(profile_mount()) } else { head };
    with_profile.push(("runtime"@, "/opt/opencode"@, false)).push(("runtime-state"@, "/run/opencode"@, false))
}

pub open spec fn workspace_mounts(has_profile: bool) -> Seq<(Seq<char>, Seq<char>, bool)> {
    if has_profile { runtime_mounts().push(profile_mount()) } else { runtime_mounts() }
}

/// The init container that copies the OpenCode runtime into the Pod.
pub open spec fn runtime_inject_ok(c: Container, config: Config) -> bool {
    &&& c.name@ == "runtime-inject"@
    &&& c.image@ == config.runtime.image@
    &&& c.image_pull_policy is None && c.restart_policy is None && c.working_dir is None
    &&& strs_view(c.command@) == seq!["/bin/sh"@, "-ec"@, "umask 0002; cp -a /opt/opencode/. /runtime/; chmod -R a+rX,g+w /runtime"@]
    &&& c.env@.len() == 0 && c.ports@.len() == 0
    &&& mounts_view(c.volume_mounts@) == seq![("runtime"@, "/runtime"@, false)]
    &&& c.resources is None && c.readiness_probe is None
}

/// The init container that checks out the project and restores a checkpoint.
pub open spec fn checkout_ok(c: Container, config: Config, workspace: Workspace, project: Project, has_profile: bool) -> bool {
    &&& c.name@ == "checkout"@
    &&& c.image@ == config.runtime.image@
    &&& c.image_pull_policy is None && c.restart_policy is None && c.working_dir is None
    &&& strs_view(c.command@) == seq!["/bin/sh"@, "-ec"@, checkout_script(has_profile)]
    &&& envs_view(c.env@) == checkout_env(config, workspace, project)
    &&& c.ports@.len() == 0
    &&& mounts_view(c.volume_mounts@) == checkout_mounts(has_profile)
    &&& c.resources is None && c.readiness_probe is None
}

/// The checkpoint sidecar: an init container that keeps running beside the
/// workspace (`restartPolicy: Always`).
pub open spec fn sidecar_ok(c: Container, config: Config, workspace: Workspace) -> bool {
    &&& c.name@ == "checkpoint"@
    &&& c.image@ == config.runtime.image@
    &&& c.image_pull_policy is None && c.working_dir is None
    &&& c.restart_policy matches Some(p) && p@ == "Always"@
    &&& strs_view(c.command@) == seq!["/opt/opencode/bin/supervisor"@, "sidecar"@]
    &&& envs_view(c.env@) == sidecar_env(config, workspace)
    &&& ports_view(c.ports@) == seq![("checkpoint"@, 4098u16)]
    &&& mounts_view(c.volume_mounts@) == runtime_mounts()
    &&& c.resources matches Some(r) && resources_view(r) == ("10m"@, "32Mi"@, "500m"@, "256Mi"@)
    &&& c.readiness_probe is None
}

/// The supervised workspace container.
pub open spec fn workspace_ok(c: Container, config: Config, workspace: Workspace, project: Project, has_profile: bool) -> bool {
    &&& c.name@ == "workspace"@
    &&& c.image@ == spec_sandbox_image(workspace.image_ref@, opt_view(workspace.image_digest))
    &&& c.image_pull_policy matches Some(p) && p@ == "IfNotPresent"@
    &&& c.restart_policy is None
    &&& c.working_dir matches Some(d) && d@ == "/workspace"@
    &&& strs_view(c.command@) == seq!["/opt/opencode/bin/supervisor"@]
    &&& envs_view(c.env@) == workspace_env(config, workspace, project)
    &&& ports_view(c.ports@) == seq![("opencode"@, 4096u16)]
    &&& mounts_view(c.volume_mounts@) == workspace_mounts(has_profile)
    &&& c.resources matches Some(r) && resources_view(r) == resources_view(project.resources)
    &&& c.readiness_probe matches Some(p) && p.port == 4096 && p.period_seconds == 2 && p.failure_threshold == 150
}

/* Building the Pod */

fn strs1(a: &str) -> (r: Vec<String>)
    ensures
        strs_view(r@) == seq![a@],
{
    let mut r: Vec<String> = Vec::new();
    r.push(a.to_owned());
    proof {
        assert(strs_view(r@) =~= seq![a@]);
    }
    r
}

fn strs2(a: &str, b: &str) -> (r: Vec<String>)
    ensures
        strs_view(r@) == seq![a@, b@],
        r@.len() == 2 && r@[0]@ == a@ && r@[1]@ == b@,
{
    let mut r: Vec<String> = Vec::new();
    r.push(a.to_owned());
    r.push(b.to_owned());
    proof {
        assert(strs_view(r@) =~= seq![a@, b@]);
    }
    r
}

/// `/bin/sh -ec <script>`.
fn shell(script: String) -> (r: Vec<String>)
    ensures
        strs_view(r@) == seq!["/bin/sh"@, "-ec"@, script@],
{
    let mut r = strs2("/bin/sh", "-ec");
    r.push(script);
    proof {
        assert(strs_view(r@) =~= seq!["/bin/sh"@, "-ec"@, script@]);
    }
    r
}

fn text_env(name: &str, value: String) -> (r: EnvVar)
    ensures
        env_view(r) == (name@, EnvSource::Text(value@)),
{
    EnvVar { name: name.to_owned(), value: EnvValue::Text { value } }
}

fn literal_env(name: &str, value: &str) -> (r: EnvVar)
    ensures
        env_view(r) == (name@, EnvSource::Text(value@)),
{
    text_env(name, value.to_owned())
}

fn secret_key(name: &str, secret_name: &String, key: &str) -> (r: EnvVar)
    ensures
        env_view(r) == (name@, EnvSource::SecretKey(secret_name@, key@)),
{
    EnvVar { name: name.to_owned(), value: EnvValue::SecretKey { secret_name: secret_name.clone(), key: key.to_owned() } }
}

fn mount(name: &str, path: &str, read_only: bool) -> (r: VolumeMount)
    ensures
        r.name@ == name@ && r.mount_path@ == path@ && r.read_only == read_only,
{
    VolumeMount { name: name.to_owned(), mount_path: path.to_owned(), read_only }
}

fn pair(cpu: &String, memory: &String) -> (r: ResourcePair)
    ensures
        r.cpu@ == cpu@ && r.memory@ == memory@,
{
    ResourcePair { cpu: cpu.clone(), memory: memory.clone() }
}

fn drop_all() -> (r: Vec<String>)
    ensures
        strs_view(r@) == seq!["ALL"@],
{
    let mut r: Vec<String> = Vec::new();
    r.push("ALL".to_owned());
    proof {
        assert(strs_view(r@) =~= seq!["ALL"@]);
    }
    r
}

fn runtime_mount_list() -> (r: Vec<VolumeMount>)
    ensures
        mounts_view(r@) == runtime_mounts(),
{
    let mut r: Vec<VolumeMount> = Vec::new();
    r.push(mount("workspace", "/workspace", false));
    r.push(mount("runtime", "/opt/opencode", false));
    r.push(mount("runtime-state", "/run/opencode", false));
    r.push(mount("runtime-auth", "/run/opencode-auth", true));
    proof {
        assert(mounts_view(r@) =~= runtime_mounts());
    }
    r
}

fn checkout_script_text(has_profile: bool) -> (r: String)
    ensures
        r@ == checkout_script(has_profile),
{
    let profile = if has_profile {
        "if git -C /workspace ls-files --error-unmatch .envrc >/dev/null 2>&1; then echo 'tracked .envrc conflicts with private environment profile' >&2; exit 1; fi\nln -s /run/opencode-env/profile.envrc /workspace/.envrc"
    } else {
        ":"
    };
    let head = crate::text::concat_str(
        "set -eu\numask 0002\ngit clone --no-checkout \"$REPOSITORY\" /workspace\ngit -C /workspace fetch --depth=1 origin \"$GIT_REF\"\ngit -C /workspace checkout --detach FETCH_HEAD\nmkdir -p /run/opencode/restore\nMETADATA=/run/opencode/restore/metadata.json\nBUNDLE=/run/opencode/restore/checkpoint.bundle\nAUTHORIZATION=\"Authorization: Bearer $(cat /run/opencode-auth/runtime-token)\"\nSTATUS=$(curl --silent --show-error --output \"$METADATA\" --write-out '%{http_code}' --header \"$AUTHORIZATION\" \"$GATEWAY_URL/v1/workspaces/$OPENCODE_WORKSPACE_ID/checkpoints/latest\")\ncase \"$STATUS\" in\n  200)\n    curl --silent --show-error --fail --output \"$BUNDLE\" --header \"$AUTHORIZATION\" \"$GATEWAY_URL/v1/workspaces/$OPENCODE_WORKSPACE_ID/checkpoints/latest/blob\"\n    /opt/opencode/bin/supervisor restore --repo /workspace --metadata \"$METADATA\" --bundle \"$BUNDLE\"\n    ;;\n  404) rm -f \"$METADATA\" ;;\n  *) echo \"checkpoint metadata request failed with HTTP $STATUS\" >&2; exit 1 ;;\nesac\n",
        profile,
    );
    crate::text::concat_str(head.as_str(), "\nchmod -R a+rwX /workspace /run/opencode")
}

/// Labels of every object of a workspace: managed by the gateway, and its
/// preview key, by which the Service selects the Pod.
pub fn labels(workspace: &Workspace) -> (r: Vec<(String, String)>)
    ensures
        r@.len() == 2,
        r@[0].0@ == "opencode.dev/managed-by"@ && r@[0].1@ == "gateway"@,
        r@[1].0@ == "opencode.dev/preview-key"@ && r@[1].1@ == workspace.preview_key@,
{
    let mut r: Vec<(String, String)> = Vec::new();
    r.push(("opencode.dev/managed-by".to_owned(), "gateway".to_owned()));
    r.push(("opencode.dev/preview-key".to_owned(), workspace.preview_key.clone()));
    r
}

fn runtime_inject(config: &Config) -> (r: Container)
    ensures
        runtime_inject_ok(r, *config),
        hardened(r),
{
    let mut mounts: Vec<VolumeMount> = Vec::new();
    mounts.push(mount("runtime", "/runtime", false));
    proof {
        assert(mounts_view(mounts@) =~= seq![("runtime"@, "/runtime"@, false)]);
    }
    Container {
        name: "runtime-inject".to_owned(),
        image: config.runtime.image.clone(),
        image_pull_policy: None,
        restart_policy: None,
        command: shell("umask 0002; cp -a /opt/opencode/. /runtime/; chmod -R a+rX,g+w /runtime".to_owned()),
        working_dir: None,
        env: Vec::new(),
        ports: Vec::new(),
        volume_mounts: mounts,
        resources: None,
        readiness_probe: None,
        allow_privilege_escalation: false,
        drop_capabilities: drop_all(),
    }
}

fn checkout(config: &Config, workspace: &Workspace, project: &Project, has_profile: bool) -> (r: Container)
    ensures
        checkout_ok(r, *config, *workspace, *project, has_profile),
        hardened(r),
{
    let mut env: Vec<EnvVar> = Vec::new();
    env.push(text_env("REPOSITORY", project.repository.clone()));
    env.push(text_env("GIT_REF", workspace.git_ref.clone()));
    env.push(text_env("GATEWAY_URL", config.runtime.gateway_url.clone()));
    env.push(text_env("OPENCODE_WORKSPACE_ID", workspace.id.clone()));
    proof {
        assert(envs_view(env@) =~= checkout_env(*config, *workspace, *project));
    }
    let mut mounts: Vec<VolumeMount> = Vec::new();
    mounts.push(mount("workspace", "/workspace", false));
    mounts.push(mount("runtime-auth", "/run/opencode-auth", true));
    if has_profile {
        mounts.push(mount("env-profile", "/run/opencode-env", true));
    }
    mounts.push(mount("runtime", "/opt/opencode", false));
    mounts.push(mount("runtime-state", "/run/opencode", false));
    proof {
        assert(mounts_view(mounts@) =~= checkout_mounts(has_profile));
    }
    let command = shell(checkout_script_text(has_profile));
    Container {
        name: "checkout".to_owned(),
        image: config.runtime.image.clone(),
        image_pull_policy: None,
        restart_policy: None,
        command,
        working_dir: None,
        env,
        ports: Vec::new(),
        volume_mounts: mounts,
        resources: None,
        readiness_probe: None,
        allow_privilege_escalation: false,
        drop_capabilities: drop_all(),
    }
}

fn sidecar(config: &Config, workspace: &Workspace) -> (r: Container)
    ensures
        sidecar_ok(r, *config, *workspace),
        hardened(r),
{
    let mut env: Vec<EnvVar> = Vec::new();
    env.push(literal_env("WORKSPACE_PATH", "/workspace"));
    env.push(text_env("OPENCODE_WORKSPACE_ID", workspace.id.clone()));
    env.push(literal_env("CHECKPOINT_OUTPUT_DIR", "/run/opencode/checkpoints"));
    env.push(literal_env("CHECKPOINT_LISTEN", "127.0.0.1:4098"));
    env.push(literal_env("CHECKPOINT_CONTROL_TOKEN_FILE", "/run/opencode-auth/runtime-token"));
    env.push(text_env("GATEWAY_URL", config.runtime.gateway_url.clone()));
    env.push(literal_env("WORKSPACE_RUNTIME_TOKEN_FILE", "/run/opencode-auth/runtime-token"));
    proof {
        assert(envs_view(env@) =~= sidecar_env(*config, *workspace));
    }
    let mut ports: Vec<ContainerPort> = Vec::new();
    ports.push(ContainerPort { name: "checkpoint".to_owned(), container_port: 4098 });
    proof {
        assert(ports_view(ports@) =~= seq![("checkpoint"@, 4098u16)]);
    }
    let requests = ResourcePair { cpu: "10m".to_owned(), memory: "32Mi".to_owned() };
    let limits = ResourcePair { cpu: "500m".to_owned(), memory: "256Mi".to_owned() };
    Container {
        name: "checkpoint".to_owned(),
        image: config.runtime.image.clone(),
        image_pull_policy: None,
        restart_policy: Some("Always".to_owned()),
        command: strs2("/opt/opencode/bin/supervisor", "sidecar"),
        working_dir: None,
        env,
        ports,
        volume_mounts: runtime_mount_list(),
        resources: Some(Resources { requests, limits }),
        readiness_probe: None,
        allow_privilege_escalation: false,
        drop_capabilities: drop_all(),
    }
}

fn workspace_container(config: &Config, workspace: &Workspace, project: &Project, has_profile: bool) -> (r: Container)
    ensures
        workspace_ok(r, *config, *workspace, *project, has_profile),
        hardened(r),
{
    let secret = runtime_secret_name(workspace);
    let mut env: Vec<EnvVar> = Vec::new();
    env.push(text_env("OPENCODE_WORKSPACE_ID", workspace.id.clone()));
    env.push(literal_env("OPENCODE_EXPERIMENTAL_WORKSPACES", "true"));
    env.push(literal_env("OPENCODE_CONFIG_DIR", "/opt/opencode/config"));
    env.push(literal_env("OPENCODE_SERVER_USERNAME", "opencode"));
    env.push(secret_key("OPENCODE_SERVER_PASSWORD", &secret, "password"));
    env.push(secret_key("OPENCODE_AUTH_CONTENT", &secret, "opencode-auth-content"));
    env.push(text_env("OPENCODE_EXPECTED_VERSION", config.opencode.version.clone()));
    env.push(text_env("OPENCODE_GATEWAY_URL", config.runtime.gateway_url.clone()));
    env.push(secret_key("OPENCODE_GATEWAY_TOKEN", &secret, "runtime-token"));
    env.push(text_env("OPENCODE_BASE_DOMAIN", config.base_domain.clone()));
    env.push(literal_env("OPENCODE_SUPERVISOR_ENDPOINT", "http://127.0.0.1:4097"));
    env.push(literal_env("OPENCODE_CHECKPOINT_ENDPOINT", "http://127.0.0.1:4098"));
    env.push(literal_env("OPENCODE_DIRENV_PATH", "/opt/opencode/bin/direnv"));
    env.push(literal_env("SUPERVISOR_LISTEN", "127.0.0.1:4097"));
    env.push(literal_env("SUPERVISOR_CONTROL_TOKEN_FILE", "/run/opencode-auth/runtime-token"));
    env.push(literal_env("CHECKPOINT_SIDECAR_URL", "http://127.0.0.1:4098/checkpoint"));
    env.push(literal_env("CHECKPOINT_CONTROL_TOKEN_FILE", "/run/opencode-auth/runtime-token"));
    let flake = match &project.environment {
        ProjectEnvironment::Nix { flake } => EnvValue::Text { value: flake.clone() },
        ProjectEnvironment::Image { .. } => EnvValue::Null,
    };
    env.push(EnvVar { name: "OPENCODE_NIX_FLAKE".to_owned(), value: flake });
    proof {
        assert(envs_view(env@) =~= workspace_env(*config, *workspace, *project));
    }
    let mut mounts = runtime_mount_list();
    if has_profile {
        mounts.push(mount("env-profile", "/run/opencode-env", true));
    }
    proof {
        assert(mounts_view(mounts@) =~= workspace_mounts(has_profile));
    }
    let mut ports: Vec<ContainerPort> = Vec::new();
    ports.push(ContainerPort { name: "opencode".to_owned(), container_port: 4096 });
    proof {
        assert(ports_view(ports@) =~= seq![("opencode"@, 4096u16)]);
    }
    let resources = Resources {
        requests: pair(&project.resources.requests.cpu, &project.resources.requests.memory),
        limits: pair(&project.resources.limits.cpu, &project.resources.limits.memory),
    };
    Container {
        name: "workspace".to_owned(),
        image: sandbox_image(workspace),
        image_pull_policy: Some("IfNotPresent".to_owned()),
        restart_policy: None,
        command: strs1("/opt/opencode/bin/supervisor"),
        working_dir: Some("/workspace".to_owned()),
        env,
        ports,
        volume_mounts: mounts,
        resources: Some(resources),
        readiness_probe: Some(TcpProbe { port: 4096, period_seconds: 2, failure_threshold: 150 }),
        allow_privilege_escalation: false,
        drop_capabilities: drop_all(),
    }
}

/// The sandbox Pod of a workspace: ephemeral volumes only, no service-account
/// token, RuntimeDefault seccomp and group 2000, every container without
/// privilege escalation or capabilities; the runtime is injected, the project
/// checked out (and its latest checkpoint restored) by init containers, the
/// checkpoint sidecar runs beside the supervised workspace container, and
/// credentials reach the containers only as Secret references.
pub fn pod_spec(config: &Config, workspace: &Workspace, project: &Project, has_profile: bool) -> (r: PodSpec)
    ensures
        r.name@ == "sandbox-"@ + workspace.preview_key@,
        r.namespace@ == config.namespace@,
        r.labels@.len() == 2,
        r.labels@[0].0@ == "opencode.dev/managed-by"@ && r.labels@[0].1@ == "gateway"@,
        r.labels@[1].0@ == "opencode.dev/preview-key"@ && r.labels@[1].1@ == workspace.preview_key@,
        !r.automount_service_account_token,
        !r.enable_service_links,
        r.restart_policy@ == "Never"@,
        r.termination_grace_period_seconds == config.lifecycle.termination_grace_seconds,
        r.seccomp_profile@ == "RuntimeDefault"@,
        r.fs_group == 2000,
        r.fs_group_change_policy@ == "OnRootMismatch"@,
        volumes_view(r.volumes@) == spec_volumes(*workspace, has_profile),
        forall|i: int| 0 <= i < r.volumes@.len() ==> ephemeral(#[trigger] r.volumes@[i]),
        r.init_containers@.len() == 3,
        runtime_inject_ok(r.init_containers@[0], *config),
        checkout_ok(r.init_containers@[1], *config, *workspace, *project, has_profile),
        sidecar_ok(r.init_containers@[2], *config, *workspace),
        r.containers@.len() == 1,
        workspace_ok(r.containers@[0], *config, *workspace, *project, has_profile),
        forall|i: int| 0 <= i < r.init_containers@.len() ==> hardened(#[trigger] r.init_containers@[i]),
        forall|i: int| 0 <= i < r.containers@.len() ==> hardened(#[trigger] r.containers@[i]),
{
    let secret = runtime_secret_name(workspace);
    let mut volumes: Vec<Volume> = Vec::new();
    volumes.push(Volume { name: "workspace".to_owned(), source: VolumeSource::EmptyDir });
    volumes.push(Volume { name: "runtime".to_owned(), source: VolumeSource::EmptyDir });
    volumes.push(Volume { name: "runtime-state".to_owned(), source: VolumeSource::EmptyDir });
    volumes.push(Volume { name: "runtime-auth".to_owned(), source: VolumeSource::Secret { secret_name: secret, default_mode: 288 } });
    if has_profile {
        let profile_secret = env_secret_name(workspace.owner.as_str(), workspace.project_key.as_str());
        volumes.push(Volume { name: "env-profile".to_owned(), source: VolumeSource::Secret { secret_name: profile_secret, default_mode: 288 } });
    }
    proof {
        assert(volumes_view(volumes@) =~= spec_volumes(*workspace, has_profile));
    }
    let mut init_containers: Vec<Container> = Vec::new();
    init_containers.push(runtime_inject(config));
    init_containers.push(checkout(config, workspace, project, has_profile));
    init_containers.push(sidecar(config, workspace));
    let mut containers: Vec<Container> = Vec::new();
    containers.push(workspace_container(config, workspace, project, has_profile));
    PodSpec {
        name: pod_name(workspace),
        namespace: config.namespace.clone(),
        labels: labels(workspace),
        automount_service_account_token: false,
        enable_service_links: false,
        restart_policy: "Never".to_owned(),
        termination_grace_period_seconds: config.lifecycle.termination_grace_seconds,
        seccomp_profile: "RuntimeDefault".to_owned(),
        fs_group: 2000,
        fs_group_change_policy: "OnRootMismatch".to_owned(),
        volumes,
        init_containers,
        containers,
    }
}

} // verus!

verus! {

/// Whether a variable of `env` named `name` holds its value as text.
pub open spec fn literal_named(env: Seq<(Seq<char>, EnvSource)>, name: Seq<char>) -> bool {
    exists|i: int| 0 <= i < env.len() && #[trigger] env[i].0 == name && env[i].1 is Text
}

/// Credentials reach the Pod only as Secret references: no container gives
/// the server password, the OpenCode credentials or the gateway token as a
/// literal value, and the workspace container takes each from its key of the
/// runtime Secret.
pub proof fn law_credentials_by_reference(config: Config, workspace: Workspace, project: Project)
    ensures
        forall|name: Seq<char>|
            name == "OPENCODE_SERVER_PASSWORD"@ || name == "OPENCODE_AUTH_CONTENT"@ || name == "OPENCODE_GATEWAY_TOKEN"@ ==> {
                &&& !literal_named(workspace_env(config, workspace, project), name)
                &&& !literal_named(sidecar_env(config, workspace), name)
                &&& !literal_named(checkout_env(config, workspace, project), name)
            },
        workspace_env(config, workspace, project)[4].1 == EnvSource::SecretKey("runtime-"@ + workspace.preview_key@, "password"@),
        workspace_env(config, workspace, project)[5].1 == EnvSource::SecretKey("runtime-"@ + workspace.preview_key@, "opencode-auth-content"@),
        workspace_env(config, workspace, project)[8].1 == EnvSource::SecretKey("runtime-"@ + workspace.preview_key@, "runtime-token"@),
{
    reveal_strlit("OPENCODE_SERVER_PASSWORD");
    reveal_strlit("OPENCODE_AUTH_CONTENT");
    reveal_strlit("OPENCODE_GATEWAY_TOKEN");
    reveal_strlit("OPENCODE_WORKSPACE_ID");
    reveal_strlit("OPENCODE_EXPERIMENTAL_WORKSPACES");
    reveal_strlit("OPENCODE_CONFIG_DIR");
    reveal_strlit("OPENCODE_SERVER_USERNAME");
    reveal_strlit("OPENCODE_EXPECTED_VERSION");
    reveal_strlit("OPENCODE_GATEWAY_URL");
    reveal_strlit("OPENCODE_BASE_DOMAIN");
    reveal_strlit("OPENCODE_SUPERVISOR_ENDPOINT");
    reveal_strlit("OPENCODE_CHECKPOINT_ENDPOINT");
    reveal_strlit("OPENCODE_DIRENV_PATH");
    reveal_strlit("SUPERVISOR_LISTEN");
    reveal_strlit("SUPERVISOR_CONTROL_TOKEN_FILE");
    reveal_strlit("CHECKPOINT_SIDECAR_URL");
    reveal_strlit("CHECKPOINT_CONTROL_TOKEN_FILE");
    reveal_strlit("OPENCODE_NIX_FLAKE");
    reveal_strlit("WORKSPACE_PATH");
    reveal_strlit("CHECKPOINT_OUTPUT_DIR");
    reveal_strlit("CHECKPOINT_LISTEN");
    reveal_strlit("GATEWAY_URL");
    reveal_strlit("WORKSPACE_RUNTIME_TOKEN_FILE");
    reveal_strlit("REPOSITORY");
    reveal_strlit("GIT_REF");
    assert("OPENCODE_SERVER_PASSWORD"@.len() == 24);
    assert("OPENCODE_AUTH_CONTENT"@.len() == 21);
    assert("OPENCODE_GATEWAY_TOKEN"@.len() == 22);
    assert("OPENCODE_WORKSPACE_ID"@.len() == 21);
    assert("OPENCODE_EXPERIMENTAL_WORKSPACES"@.len() == 32);
    assert("OPENCODE_CONFIG_DIR"@.len() == 19);
    assert("OPENCODE_SERVER_USERNAME"@.len() == 24);
    assert("OPENCODE_EXPECTED_VERSION"@.len() == 25);
    assert("OPENCODE_GATEWAY_URL"@.len() == 20);
    assert("OPENCODE_BASE_DOMAIN"@.len() == 20);
    assert("OPENCODE_SUPERVISOR_ENDPOINT"@.len() == 28);
    assert("OPENCODE_CHECKPOINT_ENDPOINT"@.len() == 28);
    assert("OPENCODE_DIRENV_PATH"@.len() == 20);
    assert("SUPERVISOR_LISTEN"@.len() == 17);
    assert("SUPERVISOR_CONTROL_TOKEN_FILE"@.len() == 29);
    assert("CHECKPOINT_SIDECAR_URL"@.len() == 22);
    assert("CHECKPOINT_CONTROL_TOKEN_FILE"@.len() == 29);
    assert("OPENCODE_NIX_FLAKE"@.len() == 18);
    assert("WORKSPACE_PATH"@.len() == 14);
    assert("CHECKPOINT_OUTPUT_DIR"@.len() == 21);
    assert("CHECKPOINT_LISTEN"@.len() == 17);
    assert("GATEWAY_URL"@.len() == 11);
    assert("WORKSPACE_RUNTIME_TOKEN_FILE"@.len() == 28);
    assert("REPOSITORY"@.len() == 10);
    assert("GIT_REF"@.len() == 7);
    assert("OPENCODE_WORKSPACE_ID"@[9] != "OPENCODE_AUTH_CONTENT"@[9]);
    assert("CHECKPOINT_OUTPUT_DIR"@[0] != "OPENCODE_AUTH_CONTENT"@[0]);
    assert("OPENCODE_SERVER_USERNAME"@[16] != "OPENCODE_SERVER_PASSWORD"@[16]);
    assert("CHECKPOINT_SIDECAR_URL"@[0] != "OPENCODE_GATEWAY_TOKEN"@[0]);
    let ws = workspace_env(config, workspace, project);
    let sc = sidecar_env(config, workspace);
    let co = checkout_env(config, workspace, project);
    let secret_names = set!["OPENCODE_SERVER_PASSWORD"@, "OPENCODE_AUTH_CONTENT"@, "OPENCODE_GATEWAY_TOKEN"@];
    assert forall|i: int| 0 <= i < ws.len() && ws[i].1 is Text implies !secret_names.contains(#[trigger] ws[i].0) by {
        if i == 0 {} else if i == 1 {} else if i == 2 {} else if i == 3 {} else if i == 4 {} else if i == 5 {} else if i == 6 {} else if i == 7 {} else if i == 8 {} else if i == 9 {} else if i == 10 {} else if i == 11 {} else if i == 12 {} else if i == 13 {} else if i == 14 {} else if i == 15 {} else if i == 16 {} else if i == 17 {} else {}
    }
    assert forall|i: int| 0 <= i < sc.len() implies !secret_names.contains(#[trigger] sc[i].0) by {
        if i == 0 {} else if i == 1 {} else if i == 2 {} else if i == 3 {} else if i == 4 {} else if i == 5 {} else if i == 6 {} else {}
    }
    assert forall|i: int| 0 <= i < co.len() implies !secret_names.contains(#[trigger] co[i].0) by {
        if i == 0 {} else if i == 1 {} else if i == 2 {} else if i == 3 {} else {}
    }
}

} // verus!
