use vstd::prelude::*;

use crate::gateway::state::opt_view;
use crate::urls::{spec_join_url, spec_parse_url};

verus! {

/// What a launch asks central OpenCode to create.
#[derive(Clone, Debug)]
pub struct LaunchSpec<'a> {
    pub project_key: &'a str,
    pub git_ref: &'a str,
    pub owner: &'a str,
    pub session_name: &'a str,
}

/// The central session and workspace a launch created, and where to open it.
#[derive(Clone, Debug, PartialEq, Eq)]
pub struct LaunchResult {
    pub session_id: String,
    pub workspace_id: String,
    pub session_url: String,
}

/// Why the central OpenCode URL is refused.
#[derive(Clone, Copy, Debug, PartialEq, Eq, Structural)]
pub enum CentralError {
    /// `opencode.centralUrl is invalid`: it does not parse.
    UrlInvalid,
    /// It is not an HTTP(S) URL with a host and without credentials, query or fragment.
    UrlNotPlain,
    /// The session URL cannot be formed.
    SessionUrl,
}

/// An HTTP(S) URL with a host, no credentials, no query and no fragment.
pub open spec fn central_url_ok(text: Seq<char>) -> Option<bool> {
    match spec_parse_url(text) {
        None => None,
        Some(p) => Some((p.scheme == "http"@ || p.scheme == "https"@) && p.host is Some
            && p.username.len() == 0 && p.password is None && p.query is None && p.fragment is None),
    }
}

/// Checks the central OpenCode base URL.
pub fn validate_central_url(base_url: &str) -> (r: Result<(), CentralError>)
    ensures
        match central_url_ok(base_url@) {
            None => r == Err::<(), CentralError>(CentralError::UrlInvalid),
            Some(true) => r is Ok,
            Some(false) => r == Err::<(), CentralError>(CentralError::UrlNotPlain),
        },
{
    let parts = match crate::urls::parse_url(base_url) {
        Some(p) => p,
        None => return Err(CentralError::UrlInvalid),
    };
    let scheme = crate::text::to_chars(parts.scheme.as_str());
    let http = crate::text::to_chars("http");
    let https = crate::text::to_chars("https");
    let plain = (crate::text::chars_equal(&scheme, &http) || crate::text::chars_equal(&scheme, &https))
        && parts.host.is_some() && parts.username.as_str().is_empty() && parts.password.is_none()
        && parts.query.is_none() && parts.fragment.is_none();
    if plain {
        Ok(())
    } else {
        Err(CentralError::UrlNotPlain)
    }
}

/// The directory central OpenCode scopes a project's sessions to.
pub fn catalog_directory(project_key: &str) -> (r: String)
    ensures
        r@ == "/catalog/"@ + project_key@,
{
    let mut out = crate::text::to_chars("/catalog/");
    crate::text::append_str(&mut out, project_key);
    crate::text::from_chars(out.as_slice())
}

/// The web URL of a central session: `session/<id>` resolved against the base URL.
pub fn session_url(base_url: &str, session_id: &str) -> (r: Result<String, CentralError>)
    ensures
        match spec_join_url(base_url@, "session/"@ + session_id@) {
            Some(u) => r matches Ok(s) && s@ == u,
            None => r == Err::<String, CentralError>(CentralError::SessionUrl),
        },
{
    let mut path = crate::text::to_chars("session/");
    crate::text::append_str(&mut path, session_id);
    let path = crate::text::from_chars(path.as_slice());
    match crate::urls::join_url(base_url, path.as_str()) {
        Some(u) => Ok(u),
        None => Err(CentralError::SessionUrl),
    }
}

} // verus!

verus! {

/* The requests of a launch */

/// A request a launch sends to central OpenCode, scoped to a catalog
/// directory.
#[derive(Clone, Debug)]
pub enum CentralRequest {
    /// Create a session titled `title`; central answers its ID.
    CreateSession { directory: String, title: String },
    /// Create a Kubernetes workspace on `branch` for a project and owner;
    /// central answers its ID.
    CreateWorkspace { directory: String, branch: String, project_key: String, owner: String },
    /// Move the session into the workspace without copying changes.
    Warp { directory: String, workspace_id: String, session_id: String },
}

pub enum RequestView {
    CreateSession { directory: Seq<char>, title: Seq<char> },
    CreateWorkspace { directory: Seq<char>, branch: Seq<char>, project_key: Seq<char>, owner: Seq<char> },
    Warp { directory: Seq<char>, workspace_id: Seq<char>, session_id: Seq<char> },
}

pub open spec fn request_view(r: CentralRequest) -> RequestView {
    match r {
        CentralRequest::CreateSession { directory, title } => RequestView::CreateSession { directory: directory@, title: title@ },
        CentralRequest::CreateWorkspace { directory, branch, project_key, owner } => RequestView::CreateWorkspace {
            directory: directory@,
            branch: branch@,
            project_key: project_key@,
            owner: owner@,
        },
        CentralRequest::Warp { directory, workspace_id, session_id } => RequestView::Warp {
            directory: directory@,
            workspace_id: workspace_id@,
            session_id: session_id@,
        },
    }
}

impl CentralRequest {
    /// The API path of the request, relative to the central base URL.
    pub fn path(&self) -> (r: &'static str)
        ensures
            r@ == (match self {
                CentralRequest::CreateSession { .. } => "session"@,
                CentralRequest::CreateWorkspace { .. } => "experimental/workspace"@,
                CentralRequest::Warp { .. } => "experimental/workspace/warp"@,
            }),
    {
        match self {
            CentralRequest::CreateSession { .. } => "session",
            CentralRequest::CreateWorkspace { .. } => "experimental/workspace",
            CentralRequest::Warp { .. } => "experimental/workspace/warp",
        }
    }
}

/// How far a launch has come: the session is created first, then the
/// workspace, then the session is warped into it.
#[derive(Clone, Copy, Debug, PartialEq, Eq, Structural)]
pub enum LaunchStage {
    Session,
    Workspace,
    Warp,
    Done,
}

/// The state of one launch against central OpenCode.
#[derive(Clone, Debug)]
pub struct LaunchFlow {
    pub stage: LaunchStage,
    pub directory: String,
    pub project_key: String,
    pub git_ref: String,
    pub owner: String,
    pub session_name: String,
    pub session_id: String,
    pub workspace_id: String,
}

/// The request due at the flow's stage (`None` once it is done).
pub open spec fn spec_launch_request(f: LaunchFlow) -> Option<RequestView> {
    match f.stage {
        LaunchStage::Session => Some(RequestView::CreateSession { directory: f.directory@, title: f.session_name@ }),
        LaunchStage::Workspace => Some(RequestView::CreateWorkspace {
            directory: f.directory@,
            branch: f.git_ref@,
            project_key: f.project_key@,
            owner: f.owner@,
        }),
        LaunchStage::Warp => Some(RequestView::Warp {
            directory: f.directory@,
            workspace_id: f.workspace_id@,
            session_id: f.session_id@,
        }),
        LaunchStage::Done => None,
    }
}

/// The flow after central answered the current request with `id` (the ID it
/// created; ignored for the warp).
pub open spec fn spec_launch_answer(f: LaunchFlow, id: String) -> LaunchFlow {
    match f.stage {
        LaunchStage::Session => LaunchFlow { stage: LaunchStage::Workspace, session_id: id, ..f },
        LaunchStage::Workspace => LaunchFlow { stage: LaunchStage::Warp, workspace_id: id, ..f },
        LaunchStage::Warp => LaunchFlow { stage: LaunchStage::Done, ..f },
        LaunchStage::Done => f,
    }
}

fn copy_string(s: &String) -> (r: String)
    ensures
        r == *s,
{
    s.clone()
}

impl LaunchFlow {
    /// A launch of `spec`, in the project's catalog directory.
    pub fn new(spec: &LaunchSpec) -> (r: LaunchFlow)
        ensures
            r.stage == LaunchStage::Session,
            r.directory@ == "/catalog/"@ + spec.project_key@,
            r.project_key@ == spec.project_key@,
            r.git_ref@ == spec.git_ref@,
            r.owner@ == spec.owner@,
            r.session_name@ == spec.session_name@,
    {
        LaunchFlow {
            stage: LaunchStage::Session,
            directory: catalog_directory(spec.project_key),
            project_key: spec.project_key.to_owned(),
            git_ref: spec.git_ref.to_owned(),
            owner: spec.owner.to_owned(),
            session_name: spec.session_name.to_owned(),
            session_id: String::new(),
            workspace_id: String::new(),
        }
    }

    /// The request to send next, `None` once the launch is done.
    pub fn request(&self) -> (r: Option<CentralRequest>)
        ensures
            match r {
                Some(q) => spec_launch_request(*self) == Some(request_view(q)),
                None => spec_launch_request(*self) is None,
            },
    {
        match self.stage {
            LaunchStage::Session => Some(CentralRequest::CreateSession {
                directory: copy_string(&self.directory),
                title: copy_string(&self.session_name),
            }),
            LaunchStage::Workspace => Some(CentralRequest::CreateWorkspace {
                directory: copy_string(&self.directory),
                branch: copy_string(&self.git_ref),
                project_key: copy_string(&self.project_key),
                owner: copy_string(&self.owner),
            }),
            LaunchStage::Warp => Some(CentralRequest::Warp {
                directory: copy_string(&self.directory),
                workspace_id: copy_string(&self.workspace_id),
                session_id: copy_string(&self.session_id),
            }),
            LaunchStage::Done => None,
        }
    }

    /// Records central's answer to the current request.
    pub fn answered(&mut self, id: String)
        ensures
            *final(self) == spec_launch_answer(*old(self), id),
    {
        match self.stage {
            LaunchStage::Session => {
                self.stage = LaunchStage::Workspace;
                self.session_id = id;
            },
            LaunchStage::Workspace => {
                self.stage = LaunchStage::Warp;
                self.workspace_id = id;
            },
            LaunchStage::Warp => {
                self.stage = LaunchStage::Done;
            },
            LaunchStage::Done => {},
        }
    }
}

/// A launch sends exactly three requests: it creates the session, then the
/// workspace on the requested Git ref, then warps the session it was given
/// into the workspace it was given, all in the project's catalog directory;
/// after that nothing more is sent.
pub proof fn law_launch_sequence(f: LaunchFlow, session: String, workspace: String, any: String)
    requires
        f.stage == LaunchStage::Session,
    ensures
        spec_launch_request(f) == Some(RequestView::CreateSession { directory: f.directory@, title: f.session_name@ }),
        spec_launch_request(spec_launch_answer(f, session)) == Some(RequestView::CreateWorkspace {
            directory: f.directory@,
            branch: f.git_ref@,
            project_key: f.project_key@,
            owner: f.owner@,
        }),
        spec_launch_request(spec_launch_answer(spec_launch_answer(f, session), workspace)) == Some(RequestView::Warp {
            directory: f.directory@,
            workspace_id: workspace@,
            session_id: session@,
        }),
        ({
            let done = spec_launch_answer(spec_launch_answer(spec_launch_answer(f, session), workspace), any);
            done.stage == LaunchStage::Done && spec_launch_request(done) is None && done.session_id == session
                && done.workspace_id == workspace
        }),
{
}

} // verus!

verus! {

impl CentralError {
    pub open spec fn spec_message(self) -> Seq<char> {
        match self {
            CentralError::UrlInvalid => "opencode.centralUrl is invalid"@,
            CentralError::UrlNotPlain => "opencode.centralUrl must be an HTTP URL without credentials or query data"@,
            CentralError::SessionUrl => "central session URL cannot be built"@,
        }
    }

    /// The message the error is reported with.
    pub fn message(&self) -> (r: &'static str)
        ensures
            r@ == self.spec_message(),
    {
        match self {
            CentralError::UrlInvalid => "opencode.centralUrl is invalid",
            CentralError::UrlNotPlain => "opencode.centralUrl must be an HTTP URL without credentials or query data",
            CentralError::SessionUrl => "central session URL cannot be built",
        }
    }
}

} // verus!
