use vstd::prelude::*;

use crate::gateway::auth::{accepted_identity, Authenticator};
use crate::gateway::config::{Project, ProjectEnvironment};
use crate::gateway::state::{opt_view, state_name, EnvProfileMeta, Workspace, WorkspaceState};
use crate::headers::{spec_bearer, Headers};
use crate::text::{is_lower_hex_digit, trim};

verus! {

/// Largest accepted environment profile or serialized upstream environment.
pub const MAX_PROFILE_BYTES: usize = 1048576;

/// Largest accepted checkpoint upload.
pub const MAX_CHECKPOINT_BYTES: usize = 67108864;

/// An HTTP error answer of the gateway: a status code and a message.
#[derive(Clone, Debug)]
pub struct ApiError {
    pub status: u16,
    pub message: String,
}

impl View for ApiError {
    type V = (u16, Seq<char>);

    open spec fn view(&self) -> (u16, Seq<char>) {
        (self.status, self.message@)
    }
}

impl ApiError {
    pub fn new(status: u16, message: &str) -> (r: ApiError)
        ensures
            r@ == (status, message@),
    {
        ApiError { status, message: message.to_owned() }
    }

    /// 400 with the given message.
    pub fn bad(message: &str) -> (r: ApiError)
        ensures
            r@ == (400u16, message@),
    {
        ApiError::new(400, message)
    }

    /// 404 `not found`.
    pub fn not_found() -> (r: ApiError)
        ensures
            r@ == (404u16, "not found"@),
    {
        ApiError::new(404, "not found")
    }

    /// 500 with a fixed message that reveals nothing of the cause.
    pub fn internal() -> (r: ApiError)
        ensures
            r@ == (500u16, "internal gateway error"@),
    {
        ApiError::new(500, "internal gateway error")
    }
}

pub open spec fn err_view<T>(r: Result<T, ApiError>) -> Option<(u16, Seq<char>)> {
    match r {
        Ok(_) => None,
        Err(e) => Some(e@),
    }
}

/* HTML escaping */

pub open spec fn escape_char(c: char) -> Seq<char> {
    if c == '&' {
        "&amp;"@
    } else if c == '<' {
        "&lt;"@
    } else if c == '>' {
        "&gt;"@
    } else if c == '"' {
        "&quot;"@
    } else if c == '\'' {
        "&#39;"@
    } else {
        seq![c]
    }
}

/// Each of `& < > " '` replaced by its HTML entity.
pub open spec fn escape_html_spec(s: Seq<char>) -> Seq<char>
    decreases s.len(),
{
    if s.len() == 0 {
        Seq::empty()
    } else {
        escape_html_spec(s.drop_last()) + escape_char(s.last())
    }
}

/// Escapes text for inclusion in HTML content and attribute values.
pub fn escape_html(value: &str) -> (r: String)
    ensures
        r@ == escape_html_spec(value@),
{
    let v = crate::text::to_chars(value);
    let mut out: Vec<char> = Vec::new();
    let mut i: usize = 0;
    while i < v.len()
        invariant
            i <= v@.len(),
            v@ == value@,
            out@ == escape_html_spec(v@.take(i as int)),
        decreases v@.len() - i,
    {
        let c = v[i];
        if c == '&' {
            crate::text::append_str(&mut out, "&amp;");
        } else if c == '<' {
            crate::text::append_str(&mut out, "&lt;");
        } else if c == '>' {
            crate::text::append_str(&mut out, "&gt;");
        } else if c == '"' {
            crate::text::append_str(&mut out, "&quot;");
        } else if c == '\'' {
            crate::text::append_str(&mut out, "&#39;");
        } else {
            out.push(c);
            proof {
                assert(out@ =~= escape_html_spec(v@.take(i as int)) + seq![c]);
            }
        }
        proof {
            let t = v@.take(i + 1);
            assert(t.drop_last() == v@.take(i as int));
            assert(t.last() == c);
        }
        i = i + 1;
    }
    proof {
        assert(v@.take(v@.len() as int) == v@);
    }
    crate::text::from_chars(out.as_slice())
}

pub open spec fn html_special(c: char) -> bool {
    c == '<' || c == '>' || c == '"' || c == '\''
}

/// Escaped text holds none of `< > " '`, so it cannot open a tag or end an
/// attribute value.
pub proof fn law_escaped_html_is_inert(s: Seq<char>)
    ensures
        forall|i: int| 0 <= i < escape_html_spec(s).len() ==> !html_special(#[trigger] escape_html_spec(s)[i]),
    decreases s.len(),
{
    reveal_strlit("&amp;");
    reveal_strlit("&lt;");
    reveal_strlit("&gt;");
    reveal_strlit("&quot;");
    reveal_strlit("&#39;");
    if s.len() > 0 {
        law_escaped_html_is_inert(s.drop_last());
        let p = escape_html_spec(s.drop_last());
        let e = escape_char(s.last());
        let r = escape_html_spec(s);
        assert(r == p + e);
        assert forall|i: int| 0 <= i < r.len() implies !html_special(#[trigger] r[i]) by {
            if i < p.len() {
                assert(r[i] == p[i]);
            } else {
                assert(r[i] == e[i - p.len()]);
            }
        }
    }
}

/* Workspace IDs */

/// A workspace ID: 1 to 128 ASCII letters, digits, `_` or `-`.
pub open spec fn valid_workspace_id(id: Seq<char>) -> bool {
    0 < id.len() <= 128 && forall|i: int| 0 <= i < id.len() ==> crate::gateway::config::is_key_char(#[trigger] id[i])
}

pub fn validate_id(id: &str) -> (r: Result<(), ApiError>)
    ensures
        r is Ok <==> valid_workspace_id(id@),
        r matches Err(e) ==> e@ == (400u16, "workspaceId must contain only ASCII letters, digits, '_' or '-'"@),
{
    let v = crate::text::to_chars(id);
    let mut ok = v.len() > 0 && v.len() <= 128;
    let mut i: usize = 0;
    while i < v.len()
        invariant
            i <= v@.len(),
            v@ == id@,
            ok == (0 < v@.len() <= 128 && forall|k: int| 0 <= k < i ==> crate::gateway::config::is_key_char(#[trigger] v@[k])),
        decreases v@.len() - i,
    {
        let c = v[i];
        if !(crate::text::char_is_ascii_alphanumeric(c) || c == '-' || c == '_') {
            ok = false;
        }
        i = i + 1;
    }
    if ok {
        Ok(())
    } else {
        Err(ApiError::bad("workspaceId must contain only ASCII letters, digits, '_' or '-'"))
    }
}

/* Authorization */

/// Who may act on a workspace: its runtime token, the internal adapter
/// (where allowed), or its authenticated owner.
pub open spec fn spec_authorize(auth: Authenticator, headers: Headers, w: Workspace, allow_internal: bool) -> Option<(u16, Seq<char>)> {
    if spec_bearer(headers) == Some(w.runtime_token@) {
        None
    } else if allow_internal && auth.spec_is_internal(headers) {
        None
    } else {
        match auth.spec_identity(headers) {
            Err(m) => Some((401u16, m)),
            Ok(owner) => if owner != w.owner@ {
                Some((403u16, "workspace is owned by another identity"@))
            } else {
                None
            },
        }
    }
}

fn bearer_is(headers: &Headers, token: &String) -> (r: bool)
    ensures
        r == (spec_bearer(*headers) == Some(token@)),
{
    match crate::headers::bearer_token(headers) {
        Some(t) => {
            let expected = crate::text::to_chars(token.as_str());
            crate::text::chars_equal(&t, &expected)
        },
        None => false,
    }
}

pub fn authorize(auth: &Authenticator, headers: &Headers, workspace: &Workspace, allow_internal: bool) -> (r: Result<(), ApiError>)
    ensures
        err_view(r) == spec_authorize(*auth, *headers, *workspace, allow_internal),
{
    if bearer_is(headers, &workspace.runtime_token) {
        return Ok(());
    }
    if allow_internal && auth.is_internal(headers) {
        return Ok(());
    }
    let owner = match auth.identity(headers) {
        Ok(o) => o,
        Err(m) => return Err(ApiError::new(401, m)),
    };
    if owner != workspace.owner {
        return Err(ApiError::new(403, "workspace is owned by another identity"));
    }
    Ok(())
}

/// Access to a workspace is granted only to its runtime token, to the
/// internal adapter where the operation allows it, or to its owner.
pub proof fn law_authorized_callers(auth: Authenticator, headers: Headers, w: Workspace, allow_internal: bool)
    ensures
        spec_authorize(auth, headers, w, allow_internal) is None ==> (spec_bearer(headers) == Some(
            w.runtime_token@,
        ) || (allow_internal && auth.spec_is_internal(headers)) || auth.spec_identity(headers)
            == Ok::<Seq<char>, Seq<char>>(w.owner@)),
        auth.spec_identity(headers) == Ok::<Seq<char>, Seq<char>>(w.owner@) ==> spec_authorize(
            auth,
            headers,
            w,
            allow_internal,
        ) is None,
{
}

/// Only the workspace's own runtime token may call runtime endpoints.
pub fn authorize_runtime(headers: &Headers, workspace: &Workspace) -> (r: Result<(), ApiError>)
    ensures
        r is Ok <==> spec_bearer(*headers) == Some(workspace.runtime_token@),
        r matches Err(e) ==> e@ == (401u16, "workspace runtime token is required"@),
{
    if bearer_is(headers, &workspace.runtime_token) {
        Ok(())
    } else {
        Err(ApiError::new(401, "workspace runtime token is required"))
    }
}

/// A stored workspace that is not deleted and that the caller may access.
pub fn owned_workspace(auth: &Authenticator, headers: &Headers, workspace: Option<Workspace>, allow_internal: bool) -> (r: Result<Workspace, ApiError>)
    ensures
        match workspace {
            None => err_view(r) == Some((404u16, "not found"@)),
            Some(w) => if w.state == WorkspaceState::Deleted {
                err_view(r) == Some((404u16, "not found"@))
            } else {
                err_view(r) == spec_authorize(*auth, *headers, w, allow_internal) && (r matches Ok(v) ==> v == w)
            },
        },
{
    let w = match workspace {
        Some(w) => w,
        None => return Err(ApiError::not_found()),
    };
    if w.state == WorkspaceState::Deleted {
        return Err(ApiError::not_found());
    }
    authorize(auth, headers, &w, allow_internal)?;
    Ok(w)
}

/* Creating workspaces */

/// What the create request says of runtime overrides.
#[derive(Clone, Copy, Debug, PartialEq, Eq, Structural)]
pub enum RuntimeOverrides {
    /// Absent or `null`.
    Absent,
    /// `{}`.
    EmptyObject,
    /// Anything else.
    Other,
}

/// A workspace creation request of the central adapter.
#[derive(Clone, Debug)]
pub struct CreateRequest {
    pub workspace_id: String,
    pub project_key: String,
    pub git_ref: Option<String>,
    pub owner: Option<String>,
    pub runtime_overrides: RuntimeOverrides,
    /// The upstream environment, in key order.
    pub upstream_environment: Vec<(String, Option<String>)>,
}

/// The owner a create request is made for, or why it is refused.
pub open spec fn spec_create_owner(auth: Authenticator, headers: Headers, requested: Option<Seq<char>>) -> Result<Seq<char>, (u16, Seq<char>)> {
    if auth.spec_is_internal(headers) {
        match requested {
            None => Err((400u16, "owner is required for internal workspace creation"@)),
            Some(o) => match accepted_identity(o) {
                Some(t) => Ok(t),
                None => Err((400u16, "invalid authenticated identity"@)),
            },
        }
    } else {
        match auth.spec_identity(headers) {
            Err(m) => Err((401u16, m)),
            Ok(id) => if requested is Some && requested->0 != id {
                Err((403u16, "workspace owner does not match authenticated identity"@))
            } else {
                Ok(id)
            },
        }
    }
}

/// The checks a create request passes before the project registry is read.
pub open spec fn spec_check_create(auth: Authenticator, headers: Headers, req: CreateRequest) -> Result<Seq<char>, (u16, Seq<char>)> {
    match spec_create_owner(auth, headers, opt_view(req.owner)) {
        Err(e) => Err(e),
        Ok(owner) => if !valid_workspace_id(req.workspace_id@) {
            Err((400u16, "workspaceId must contain only ASCII letters, digits, '_' or '-'"@))
        } else if req.runtime_overrides == RuntimeOverrides::Other {
            Err((400u16, "runtimeOverrides must be an empty object; project security overrides are not enabled"@))
        } else {
            Ok(owner)
        },
    }
}

/// Authenticates a create request and checks its ID and overrides; returns
/// the owner the workspace is created for. An internal adapter must name a
/// valid owner; a user may only create workspaces for themselves.
pub fn check_create_request(auth: &Authenticator, headers: &Headers, request: &CreateRequest) -> (r: Result<String, ApiError>)
    ensures
        match r {
            Ok(o) => spec_check_create(*auth, *headers, *request) == Ok::<Seq<char>, (u16, Seq<char>)>(o@),
            Err(e) => spec_check_create(*auth, *headers, *request) == Err::<Seq<char>, (u16, Seq<char>)>(e@),
        },
{
    let owner = if auth.is_internal(headers) {
        match &request.owner {
            None => return Err(ApiError::bad("owner is required for internal workspace creation")),
            Some(o) => match crate::gateway::auth::validate_identity(o.as_str()) {
                Ok(t) => t,
                Err(m) => return Err(ApiError::bad(m)),
            },
        }
    } else {
        let identity = match auth.identity(headers) {
            Ok(i) => i,
            Err(m) => return Err(ApiError::new(401, m)),
        };
        if let Some(o) = &request.owner {
            if *o != identity {
                return Err(ApiError::new(403, "workspace owner does not match authenticated identity"));
            }
        }
        identity
    };
    validate_id(request.workspace_id.as_str())?;
    if request.runtime_overrides == RuntimeOverrides::Other {
        return Err(ApiError::bad("runtimeOverrides must be an empty object; project security overrides are not enabled"));
    }
    Ok(owner)
}

/// Index of the first project registered under `key`.
pub open spec fn project_index(projects: Seq<Project>, key: Seq<char>) -> Option<int> {
    if exists|i: int| 0 <= i < projects.len() && #[trigger] projects[i].key@ == key {
        Some(choose|i: int| 0 <= i < projects.len() && #[trigger] projects[i].key@ == key && forall|j: int| 0 <= j < i ==> #[trigger] projects[j].key@ != key)
    } else {
        None
    }
}

/// Looks up a registered project by key.
pub fn find_project(projects: &Vec<Project>, key: &str) -> (r: Option<usize>)
    ensures
        match r {
            Some(i) => project_index(projects@, key@) == Some(i as int) && i < projects@.len(),
            None => project_index(projects@, key@) is None,
        },
{
    let k = crate::text::to_chars(key);
    let mut i: usize = 0;
    while i < projects.len()
        invariant
            i <= projects@.len(),
            k@ == key@,
            forall|j: int| 0 <= j < i ==> #[trigger] projects@[j].key@ != key@,
        decreases projects@.len() - i,
    {
        let pk = crate::text::to_chars(projects[i].key.as_str());
        if crate::text::chars_equal(&pk, &k) {
            proof {
                let c = choose|c: int| 0 <= c < projects@.len() && #[trigger] projects@[c].key@ == key@ && forall|j: int| 0 <= j < c ==> #[trigger] projects@[j].key@ != key@;
                if c < i {
                    assert(projects@[c].key@ != key@);
                }
                if i < c {
                    assert(projects@[i as int].key@ != key@);
                }
            }
            return Some(i);
        }
        i = i + 1;
    }
    None
}

pub open spec fn entries_view(entries: Seq<(String, Option<String>)>) -> Seq<(Seq<char>, Option<Seq<char>>)> {
    entries.map_values(|e: (String, Option<String>)| (e.0@, opt_view(e.1)))
}

/// The JSON text `serde_json` writes for the upstream environment map.
pub uninterp spec fn spec_env_json(entries: Seq<(Seq<char>, Option<Seq<char>>)>) -> Option<Seq<char>>;

/// `serde_json::to_string` of the upstream environment as a
/// `BTreeMap<String, Option<String>>`; the contract only names the text.
#[verifier::external_body]
fn env_json(entries: &Vec<(String, Option<String>)>) -> (r: Option<String>)
    ensures
        opt_view(r) == spec_env_json(entries_view(entries@)),
{
    let map: std::collections::BTreeMap<String, Option<String>> = entries.iter().cloned().collect();
    serde_json::to_string(&map).ok()
}

/// `uuid::Uuid::new_v4().simple()`: a random UUID as 32 lowercase hex digits.
#[verifier::external_body]
fn uuid_v4_simple() -> (r: String)
    ensures
        r@.len() == 32,
        forall|i: int| 0 <= i < r@.len() ==> is_lower_hex_digit(#[trigger] r@[i]),
{
    uuid::Uuid::new_v4().simple().to_string()
}

/// A fresh random secret: two random UUIDs, 64 lowercase hex digits.
pub fn random_secret() -> (r: String)
    ensures
        r@.len() == 64,
        forall|i: int| 0 <= i < r@.len() ==> is_lower_hex_digit(#[trigger] r@[i]),
{
    let a = uuid_v4_simple();
    let b = uuid_v4_simple();
    let mut out = crate::text::to_chars(a.as_str());
    crate::text::append_str(&mut out, b.as_str());
    proof {
        assert forall|i: int| 0 <= i < out@.len() implies is_lower_hex_digit(#[trigger] out@[i]) by {
            if i < 32 {
                assert(out@[i] == a@[i]);
            } else {
                assert(out@[i] == b@[i - 32]);
            }
        }
    }
    crate::text::from_chars(out.as_slice())
}

/// The Git ref a new workspace checks out: the requested ref, or the
/// project's default when none (or an empty one) was given.
pub open spec fn requested_ref(git_ref: Option<Seq<char>>, default_ref: Seq<char>) -> Seq<char> {
    match git_ref {
        Some(g) => if g.len() > 0 {
            g
        } else {
            default_ref
        },
        None => default_ref,
    }
}

/// The image a project's sandbox runs before a digest is recorded.
pub open spec fn project_image(p: Project, generic_nix_image: Seq<char>) -> Seq<char> {
    match p.environment {
        ProjectEnvironment::Image { image } => image@,
        ProjectEnvironment::Nix { .. } => generic_nix_image,
    }
}

/// The record `new_workspace` builds, besides its two random secrets.
pub open spec fn new_workspace_fields(w: Workspace, req: CreateRequest, owner: Seq<char>, p: Project, generic_nix_image: Seq<char>) -> bool {
    let key = crate::gateway::k8s::spec_resource_key(req.workspace_id@);
    &&& w.id@ == req.workspace_id@
    &&& w.project_key@ == req.project_key@
    &&& w.git_ref@ == requested_ref(opt_view(req.git_ref), p.default_ref@)
    &&& w.owner@ == owner
    &&& w.state == WorkspaceState::Provisioning
    &&& w.service_name@ == "workspace-"@ + key
    &&& w.preview_key@ == key
    &&& Some(w.upstream_environment@) == spec_env_json(entries_view(req.upstream_environment@))
    &&& w.image_ref@ == project_image(p, generic_nix_image)
    &&& w.image_digest is None
    &&& w.last_activity@.len() == 0
    &&& w.error is None
}

pub open spec fn random_secret_shape(s: Seq<char>) -> bool {
    s.len() == 64 && forall|i: int| 0 <= i < s.len() ==> is_lower_hex_digit(#[trigger] s[i])
}

/// Builds the record of a new workspace for `owner` from a checked request:
/// the project must be registered (404 otherwise), and the serialized
/// upstream environment must fit in 1 MiB (400 otherwise). Password and
/// runtime token are fresh random secrets.
pub fn new_workspace(request: &CreateRequest, owner: String, projects: &Vec<Project>, generic_nix_image: &str) -> (r: Result<Workspace, ApiError>)
    ensures
        match project_index(projects@, request.project_key@) {
            None => err_view(r) == Some((404u16, "not found"@)),
            Some(i) => match spec_env_json(entries_view(request.upstream_environment@)) {
                None => err_view(r) == Some((400u16, "upstreamEnvironment cannot be serialized"@)),
                Some(text) => if vstd::utf8::encode_utf8(text).len() > MAX_PROFILE_BYTES {
                    err_view(r) == Some((400u16, "upstreamEnvironment exceeds limit"@))
                } else {
                    r matches Ok(w) && new_workspace_fields(w, *request, owner@, projects@[i], generic_nix_image@)
                        && random_secret_shape(w.password@) && random_secret_shape(w.runtime_token@)
                },
            },
        },
{
    let index = match find_project(projects, request.project_key.as_str()) {
        Some(i) => i,
        None => return Err(ApiError::not_found()),
    };
    let project = &projects[index];
    let git_ref = match &request.git_ref {
        Some(g) => if g.as_str().is_empty() {
            project.default_ref.clone()
        } else {
            g.clone()
        },
        None => project.default_ref.clone(),
    };
    let image_ref = match &project.environment {
        ProjectEnvironment::Image { image } => image.clone(),
        ProjectEnvironment::Nix { .. } => generic_nix_image.to_owned(),
    };
    let key = crate::gateway::k8s::resource_key(request.workspace_id.as_str());
    let mut service = crate::text::to_chars("workspace-");
    crate::text::append_str(&mut service, key.as_str());
    let service_name = crate::text::from_chars(service.as_slice());
    let upstream_environment = match env_json(&request.upstream_environment) {
        Some(t) => t,
        None => return Err(ApiError::bad("upstreamEnvironment cannot be serialized")),
    };
    let env_chars = crate::text::to_chars(upstream_environment.as_str());
    if crate::text::utf8_len_exceeds(&env_chars, MAX_PROFILE_BYTES) {
        return Err(ApiError::bad("upstreamEnvironment exceeds limit"));
    }
    let password = random_secret();
    let runtime_token = random_secret();
    Ok(Workspace {
        id: request.workspace_id.clone(),
        project_key: request.project_key.clone(),
        git_ref,
        owner,
        state: WorkspaceState::Provisioning,
        service_name,
        preview_key: key,
        password,
        runtime_token,
        upstream_environment,
        image_ref,
        image_digest: None,
        last_activity: String::new(),
        error: None,
    })
}

/// Whether a stored workspace returned by create still needs provisioning:
/// a fresh insert does, and so does a repeated create of a workspace whose
/// provisioning did not finish; any other existing workspace is returned as is.
pub fn create_needs_provisioning(created: bool, state: WorkspaceState) -> (r: bool)
    ensures
        r == (created || state == WorkspaceState::Provisioning),
{
    created || state == WorkspaceState::Provisioning
}

/// Status of a successful create: 201 for a new workspace, 200 for a repeat.
pub fn create_status(created: bool) -> (r: u16)
    ensures
        r == (if created { 201u16 } else { 200u16 }),
{
    if created {
        201
    } else {
        200
    }
}

/* Responses */

/// The target the central adapter connects to.
#[derive(Clone, Debug)]
pub struct TargetResponse {
    pub url: String,
    pub username: String,
    pub password: String,
}

/// The gateway's description of a workspace.
#[derive(Clone, Debug)]
pub struct WorkspaceResponse {
    pub workspace_id: String,
    pub state: WorkspaceState,
    pub error: Option<String>,
    pub target: TargetResponse,
}

/// In-cluster URL of a workspace's OpenCode server.
pub open spec fn spec_target_url(service: Seq<char>, namespace: Seq<char>) -> Seq<char> {
    "http://"@ + service + "."@ + namespace + ".svc.cluster.local:4096"@
}

pub fn workspace_response(namespace: &str, workspace: Workspace) -> (r: WorkspaceResponse)
    ensures
        r.workspace_id == workspace.id,
        r.state == workspace.state,
        r.error == workspace.error,
        r.target.url@ == spec_target_url(workspace.service_name@, namespace@),
        r.target.username@ == "opencode"@,
        r.target.password == workspace.password,
{
    let mut url = crate::text::to_chars("http://");
    crate::text::append_str(&mut url, workspace.service_name.as_str());
    crate::text::append_str(&mut url, ".");
    crate::text::append_str(&mut url, namespace);
    crate::text::append_str(&mut url, ".svc.cluster.local:4096");
    WorkspaceResponse {
        workspace_id: workspace.id,
        state: workspace.state,
        error: workspace.error,
        target: TargetResponse {
            url: crate::text::from_chars(url.as_slice()),
            username: "opencode".to_owned(),
            password: workspace.password,
        },
    }
}

/* Other handlers' decisions */

/// Ensure is only offered for workspaces that can (re)start.
pub fn ensure_allowed(state: WorkspaceState) -> (r: Result<(), ApiError>)
    ensures
        r is Ok <==> (state == WorkspaceState::Suspended || state == WorkspaceState::Error || state
            == WorkspaceState::Running || state == WorkspaceState::Provisioning || state
            == WorkspaceState::Resuming),
        r matches Err(e) ==> e@ == (409u16, "cannot ensure workspace in "@ + state_name(state) + " state"@),
{
    if state == WorkspaceState::Suspended || state == WorkspaceState::Error || state
        == WorkspaceState::Running || state == WorkspaceState::Provisioning || state
        == WorkspaceState::Resuming {
        return Ok(());
    }
    let mut m = crate::text::to_chars("cannot ensure workspace in ");
    crate::text::append_str(&mut m, state.as_str());
    crate::text::append_str(&mut m, " state");
    Err(ApiError { status: 409, message: crate::text::from_chars(m.as_slice()) })
}

/// Whether a delete request has anything to do: a missing or already
/// deleted workspace is answered with 204 at once.
pub fn delete_needed(workspace: &Option<Workspace>) -> (r: bool)
    ensures
        r == (workspace matches Some(w) && w.state != WorkspaceState::Deleted),
{
    match workspace {
        Some(w) => w.state != WorkspaceState::Deleted,
        None => false,
    }
}

/// A running workspace is marked `checkpointing` while a checkpoint is
/// stored, and goes back to `running` (or to `error` when storing fails);
/// a workspace in any other state keeps its state.
pub open spec fn spec_upload_states(state: WorkspaceState, stored: bool) -> Option<(WorkspaceState, WorkspaceState)> {
    if state == WorkspaceState::Running {
        Some((WorkspaceState::Checkpointing, if stored {
            WorkspaceState::Running
        } else {
            WorkspaceState::Error
        }))
    } else {
        None
    }
}

pub fn upload_states(state: WorkspaceState, stored: bool) -> (r: Option<(WorkspaceState, WorkspaceState)>)
    ensures
        r == spec_upload_states(state, stored),
{
    if state == WorkspaceState::Running {
        Some((WorkspaceState::Checkpointing, if stored {
            WorkspaceState::Running
        } else {
            WorkspaceState::Error
        }))
    } else {
        None
    }
}

/// The states a checkpoint upload moves a workspace through are permitted.
pub proof fn law_upload_states_permitted(state: WorkspaceState, stored: bool)
    ensures
        spec_upload_states(state, stored) matches Some((during, after)) ==> crate::gateway::state::spec_permits(state, during)
            && crate::gateway::state::spec_permits(during, after),
{
}

/// An environment profile must be non-empty UTF-8 text up to 1 MiB without NUL bytes.
pub fn validate_env_profile(body: &[u8]) -> (r: Result<(), ApiError>)
    ensures
        err_view(r) == validate_env_profile_error(body@),
{
    let mut has_nul = false;
    let mut i: usize = 0;
    while i < body.len()
        invariant
            i <= body@.len(),
            has_nul == exists|k: int| 0 <= k < i && body@[k] == 0u8,
        decreases body@.len() - i,
    {
        if body[i] == 0 {
            has_nul = true;
        }
        i = i + 1;
    }
    if body.len() == 0 || body.len() > MAX_PROFILE_BYTES || has_nul {
        return Err(ApiError::bad("environment profile must be non-empty text up to 1 MiB without NUL bytes"));
    }
    match crate::text::from_utf8(body) {
        Err(m) => Err(ApiError { status: 400, message: m }),
        Ok(_) => Ok(()),
    }
}

/// SHA-256 of a stored environment profile, in lowercase hex.
pub fn profile_sha256(body: &[u8]) -> (r: String)
    ensures
        r@ == crate::digest::sha256_hex_spec(body@),
{
    let h = crate::digest::sha256_hex(body);
    crate::text::from_chars(h.as_slice())
}

/// The metadata an owner's accepted environment profile is recorded with: the
/// project, the owner and the profile's SHA-256; the profile itself is not
/// part of it, and the store stamps the time.
pub fn env_profile_record(project_key: &str, owner: &str, body: &[u8]) -> (r: Result<EnvProfileMeta, ApiError>)
    ensures
        match validate_env_profile_error(body@) {
            Some(e) => err_view(r) == Some(e),
            None => r matches Ok(m) && m.project_key@ == project_key@ && m.owner@ == owner@
                && m.sha256@ == crate::digest::sha256_hex_spec(body@) && m.updated_at@.len() == 0,
        },
{
    match validate_env_profile(body) {
        Err(e) => Err(e),
        Ok(()) => Ok(EnvProfileMeta {
            project_key: project_key.to_owned(),
            owner: owner.to_owned(),
            sha256: profile_sha256(body),
            updated_at: String::new(),
        }),
    }
}

/// The error `validate_env_profile` reports for `body`, if any.
pub open spec fn validate_env_profile_error(body: Seq<u8>) -> Option<(u16, Seq<char>)> {
    if body.len() == 0 || body.len() > MAX_PROFILE_BYTES || body.contains(0u8) {
        Some((400u16, "environment profile must be non-empty text up to 1 MiB without NUL bytes"@))
    } else if !vstd::utf8::valid_utf8(body) {
        Some((400u16, crate::text::spec_utf8_error(body)))
    } else {
        None
    }
}

/* Launching from the web page */

/// A session name must be 1 to 200 bytes and not only whitespace.
pub fn check_session_name(session_name: &str) -> (r: Result<(), ApiError>)
    ensures
        r is Ok <==> (trim(session_name@).len() > 0 && vstd::utf8::encode_utf8(session_name@).len() <= 200),
        r matches Err(e) ==> e@ == (400u16, "sessionName must be 1 to 200 characters"@),
{
    let t = crate::text::trim_str(session_name);
    let v = crate::text::to_chars(session_name);
    if t.len() == 0 || crate::text::utf8_len_exceeds(&v, 200) {
        return Err(ApiError::bad("sessionName must be 1 to 200 characters"));
    }
    Ok(())
}

/// What a launch request asks central OpenCode for.
#[derive(Clone, Debug)]
pub struct LaunchPlan {
    pub project_key: String,
    pub git_ref: String,
    pub session_name: String,
}

/// Resolves a launch request against the project registry: the project must
/// be registered; an empty (or blank) Git ref means the project's default.
pub fn plan_launch(project_key: &str, git_ref: &str, session_name: &str, projects: &Vec<Project>) -> (r: Result<LaunchPlan, ApiError>)
    ensures
        match project_index(projects@, project_key@) {
            None => err_view(r) == Some((400u16, "selected project is not registered"@)),
            Some(i) => r matches Ok(p) && p.project_key@ == project_key@ && p.session_name@ == trim(
                session_name@,
            ) && p.git_ref@ == (if trim(git_ref@).len() == 0 {
                projects@[i].default_ref@
            } else {
                trim(git_ref@)
            }),
        },
{
    let index = match find_project(projects, project_key) {
        Some(i) => i,
        None => return Err(ApiError::bad("selected project is not registered")),
    };
    let g = crate::text::trim_str(git_ref);
    let git_ref = if g.len() == 0 {
        projects[index].default_ref.clone()
    } else {
        crate::text::from_chars(g.as_slice())
    };
    let s = crate::text::trim_str(session_name);
    Ok(LaunchPlan {
        project_key: project_key.to_owned(),
        git_ref,
        session_name: crate::text::from_chars(s.as_slice()),
    })
}

/* The launch page */

pub open spec fn spec_project_option(p: Project) -> Seq<char> {
    "<option value=\""@ + escape_html_spec(p.key@) + "\" data-ref=\""@ + escape_html_spec(p.default_ref@)
        + "\">"@ + escape_html_spec(p.name@) + "</option>"@
}

pub fn project_option(project: &Project) -> (r: String)
    ensures
        r@ == spec_project_option(*project),
{
    let mut out = crate::text::to_chars("<option value=\"");
    crate::text::append_str(&mut out, escape_html(project.key.as_str()).as_str());
    crate::text::append_str(&mut out, "\" data-ref=\"");
    crate::text::append_str(&mut out, escape_html(project.default_ref.as_str()).as_str());
    crate::text::append_str(&mut out, "\">");
    crate::text::append_str(&mut out, escape_html(project.name.as_str()).as_str());
    crate::text::append_str(&mut out, "</option>");
    crate::text::from_chars(out.as_slice())
}

/// The action button offered for a workspace in a given state.
pub open spec fn spec_row_action(w: Workspace) -> Seq<char> {
    if w.state == WorkspaceState::Suspended || w.state == WorkspaceState::Error {
        "<form method=post action=\"/ui/workspaces/"@ + escape_html_spec(w.id@) + "/resume\"><button>Resume</button></form>"@
    } else if w.state == WorkspaceState::Running {
        "<form method=post action=\"/ui/workspaces/"@ + escape_html_spec(w.id@) + "/suspend\"><button>Suspend</button></form>"@
    } else {
        Seq::empty()
    }
}

pub open spec fn spec_open_link(session_url: Option<Seq<char>>) -> Seq<char> {
    match session_url {
        Some(u) => "<a class=\"open\" href=\""@ + escape_html_spec(u) + "\">Open session</a>"@,
        None => Seq::empty(),
    }
}

pub open spec fn spec_workspace_row(w: Workspace, session_url: Option<Seq<char>>) -> Seq<char> {
    "<tr><td><strong>"@ + escape_html_spec(w.project_key@) + "</strong><small>"@ + escape_html_spec(w.id@)
        + "</small></td><td><code>"@ + escape_html_spec(w.git_ref@) + "</code></td><td><span class=\"state\">"@
        + state_name(w.state) + "</span></td><td>"@ + escape_html_spec(w.last_activity@)
        + "</td><td class=\"actions\">"@ + spec_open_link(session_url) + spec_row_action(w)
        + "<form method=post action=\"/ui/workspaces/"@ + escape_html_spec(w.id@)
        + "/delete\"><button class=\"danger\">Delete</button></form></td></tr>"@
}

/// One table row of the launch page: project, ID, Git ref, state, last
/// activity, an optional link to the central session, and the actions the
/// state allows.
pub fn workspace_row(workspace: &Workspace, session_url: Option<&str>) -> (r: String)
    ensures
        r@ == spec_workspace_row(*workspace, match session_url {
            Some(u) => Some(u@),
            None => None,
        }),
{
    let id = escape_html(workspace.id.as_str());
    let mut out = crate::text::to_chars("<tr><td><strong>");
    crate::text::append_str(&mut out, escape_html(workspace.project_key.as_str()).as_str());
    crate::text::append_str(&mut out, "</strong><small>");
    crate::text::append_str(&mut out, id.as_str());
    crate::text::append_str(&mut out, "</small></td><td><code>");
    crate::text::append_str(&mut out, escape_html(workspace.git_ref.as_str()).as_str());
    crate::text::append_str(&mut out, "</code></td><td><span class=\"state\">");
    crate::text::append_str(&mut out, workspace.state.as_str());
    crate::text::append_str(&mut out, "</span></td><td>");
    crate::text::append_str(&mut out, escape_html(workspace.last_activity.as_str()).as_str());
    crate::text::append_str(&mut out, "</td><td class=\"actions\">");
    if let Some(u) = session_url {
        crate::text::append_str(&mut out, "<a class=\"open\" href=\"");
        crate::text::append_str(&mut out, escape_html(u).as_str());
        crate::text::append_str(&mut out, "\">Open session</a>");
    }
    if workspace.state == WorkspaceState::Suspended || workspace.state == WorkspaceState::Error {
        crate::text::append_str(&mut out, "<form method=post action=\"/ui/workspaces/");
        crate::text::append_str(&mut out, id.as_str());
        crate::text::append_str(&mut out, "/resume\"><button>Resume</button></form>");
    } else if workspace.state == WorkspaceState::Running {
        crate::text::append_str(&mut out, "<form method=post action=\"/ui/workspaces/");
        crate::text::append_str(&mut out, id.as_str());
        crate::text::append_str(&mut out, "/suspend\"><button>Suspend</button></form>");
    }
    crate::text::append_str(&mut out, "<form method=post action=\"/ui/workspaces/");
    crate::text::append_str(&mut out, id.as_str());
    crate::text::append_str(&mut out, "/delete\"><button class=\"danger\">Delete</button></form></td></tr>");
    proof {
        let su = match session_url {
            Some(u) => Some(u@),
            None => None,
        };
        assert(out@ =~= spec_workspace_row(*workspace, su));
    }
    crate::text::from_chars(out.as_slice())
}

pub open spec fn page_head() -> Seq<char> {
    PAGE_HEAD@
}

/// The rows shown when an owner has no workspaces.
pub open spec fn empty_rows() -> Seq<char> {
    "<tr><td colspan=5 class=empty>No workspaces yet. Launch one above.</td></tr>"@
}

pub open spec fn spec_launch_page(owner: Seq<char>, options: Seq<char>, rows: Seq<char>) -> Seq<char> {
    PAGE_HEAD@ + escape_html_spec(owner) + PAGE_PROJECTS@ + options + PAGE_TABLE@ + (if rows.len() == 0 {
        empty_rows()
    } else {
        rows
    }) + PAGE_TAIL@
}

pub const PAGE_HEAD: &'static str = "<!doctype html><html><head><meta charset=\"utf-8\"><meta name=\"viewport\" content=\"width=device-width,initial-scale=1\"><title>OpenCode Workspaces</title><style>\nbody{margin:0;background:#f0eee8;color:#17211d;font:15px system-ui,sans-serif}main{max-width:1100px;margin:0 auto;padding:48px 24px}header{display:flex;justify-content:space-between;align-items:end;border-bottom:3px solid #17211d}h1{font:700 42px Georgia,serif;margin:0 0 12px}header p{color:#52605a}.launch{display:grid;grid-template-columns:1fr 1fr 1.5fr auto;gap:12px;margin:28px 0;padding:20px;background:#dce6d8;border:1px solid #9baa96}label{font-size:12px;font-weight:700;text-transform:uppercase}input,select,button{box-sizing:border-box;width:100%;margin-top:6px;padding:10px;border:1px solid #637168;background:#fff;color:inherit}button{cursor:pointer;background:#173f35;color:#fff;font-weight:700}table{width:100%;border-collapse:collapse;background:#fff}th,td{padding:14px;text-align:left;border-bottom:1px solid #d7d7d2}th{background:#17211d;color:#fff}small{display:block;color:#68736e;margin-top:4px}.state{text-transform:capitalize}.actions{display:flex;gap:8px;align-items:center}.actions form{margin:0}.actions button,.open{width:auto;margin:0;padding:7px 10px;display:inline-block}.danger{background:#872f2f}.empty{text-align:center;color:#68736e;padding:40px}@media(max-width:760px){.launch{grid-template-columns:1fr}table,thead,tbody,tr,th,td{display:block}thead{display:none}tr{padding:10px}td{border:0;padding:6px}.actions{flex-wrap:wrap}}\n</style></head><body><main><header><div><h1>Workspaces</h1><p>Disposable sandboxes, durable sessions.</p></div><p>";

pub const PAGE_PROJECTS: &'static str = "</p></header><form class=\"launch\" method=\"post\" action=\"/v1/launch\"><label>Project<select name=\"projectKey\" required>";

pub const PAGE_TABLE: &'static str = "</select></label><label>Git ref<input name=\"gitRef\" placeholder=\"default branch\"></label><label>Session name<input name=\"sessionName\" required maxlength=\"200\" placeholder=\"What are you working on?\"></label><div><label>&nbsp;<button>Launch workspace</button></label></div></form><table><thead><tr><th>Project</th><th>Git ref</th><th>State</th><th>Last activity</th><th>Actions</th></tr></thead><tbody>";

pub const PAGE_TAIL: &'static str = "</tbody></table></main></body></html>";

/// The launch page: the owner, a form to launch a workspace of any
/// registered project, and a table of the owner's workspaces.
pub fn launch_page(owner: &str, project_options: &str, rows: &str) -> (r: String)
    ensures
        r@ == spec_launch_page(owner@, project_options@, rows@),
{
    let mut out = crate::text::to_chars(PAGE_HEAD);
    crate::text::append_str(&mut out, escape_html(owner).as_str());
    crate::text::append_str(&mut out, PAGE_PROJECTS);
    crate::text::append_str(&mut out, project_options);
    crate::text::append_str(&mut out, PAGE_TABLE);
    if rows.is_empty() {
        crate::text::append_str(&mut out, "<tr><td colspan=5 class=empty>No workspaces yet. Launch one above.</td></tr>");
    } else {
        crate::text::append_str(&mut out, rows);
    }
    crate::text::append_str(&mut out, PAGE_TAIL);
    crate::text::from_chars(out.as_slice())
}

/// The HTML page shown when a web action fails.
pub fn ui_error_page(message: &str) -> (r: String)
    ensures
        r@ == "<!doctype html><html><head><meta charset=utf-8><title>Workspace error</title></head><body><main><h1>Workspace action failed</h1><p>"@
            + escape_html_spec(message@) + "</p><p><a href=\"/\">Return to workspaces</a></p></main></body></html>"@,
{
    let mut out = crate::text::to_chars("<!doctype html><html><head><meta charset=utf-8><title>Workspace error</title></head><body><main><h1>Workspace action failed</h1><p>");
    crate::text::append_str(&mut out, escape_html(message).as_str());
    crate::text::append_str(&mut out, "</p><p><a href=\"/\">Return to workspaces</a></p></main></body></html>");
    crate::text::from_chars(out.as_slice())
}

/// Storing a checkpoint marks only a running workspace, first as
/// `checkpointing` and then back to `running` when the bundle was stored or
/// to `error` when it was not; a workspace in any other state keeps it.
pub proof fn law_upload_marks_only_running(state: WorkspaceState, stored: bool)
    ensures
        spec_upload_states(WorkspaceState::Running, true) == Some((WorkspaceState::Checkpointing, WorkspaceState::Running)),
        spec_upload_states(WorkspaceState::Running, false) == Some((WorkspaceState::Checkpointing, WorkspaceState::Error)),
        state != WorkspaceState::Running ==> spec_upload_states(state, stored) is None,
{
}

} // verus!
