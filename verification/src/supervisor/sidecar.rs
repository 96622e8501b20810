use std::path::PathBuf;
use vstd::prelude::*;

use crate::text::{has_prefix, trim_end_char};
use crate::headers::{header_value_accepts, header_value_ok};
use crate::urls::spec_parse_url;

verus! {

/// Configuration of the checkpoint sidecar.
#[derive(Debug)]
pub struct SidecarConfig {
    pub workspace: PathBuf,
    pub workspace_id: String,
    pub output_dir: PathBuf,
    pub listen: String,
    pub control_token: String,
    pub gateway_url: String,
    pub gateway_token: String,
}

/// Why the sidecar refuses its configuration or an upload.
#[derive(Clone, Copy, Debug, PartialEq, Eq, Structural)]
pub enum SidecarError {
    WorkspaceMissing,
    WorkspaceIdRequired,
    ControlTokenRequired,
    GatewayTokenRequired,
    ListenNotLoopback,
    InvalidGatewayUrl,
    MetadataNotHeader,
}

/// The sidecar's configuration checks, in order; `workspace_is_dir` says
/// whether the workspace path is an existing directory.
pub open spec fn spec_validate(
    workspace_is_dir: bool,
    workspace_id: Seq<char>,
    control_token: Seq<char>,
    gateway_token: Seq<char>,
    listen: Seq<char>,
    gateway_url: Seq<char>,
) -> Result<(), SidecarError> {
    if !workspace_is_dir {
        Err(SidecarError::WorkspaceMissing)
    } else if workspace_id.len() == 0 {
        Err(SidecarError::WorkspaceIdRequired)
    } else if control_token.len() == 0 {
        Err(SidecarError::ControlTokenRequired)
    } else if gateway_token.len() == 0 {
        Err(SidecarError::GatewayTokenRequired)
    } else if !has_prefix(listen, "127.0.0.1:"@) {
        Err(SidecarError::ListenNotLoopback)
    } else if spec_parse_url(gateway_url) is None {
        Err(SidecarError::InvalidGatewayUrl)
    } else {
        Ok(())
    }
}

pub fn validate(config: &SidecarConfig, workspace_is_dir: bool) -> (r: Result<(), SidecarError>)
    ensures
        r == spec_validate(
            workspace_is_dir,
            config.workspace_id@,
            config.control_token@,
            config.gateway_token@,
            config.listen@,
            config.gateway_url@,
        ),
{
    if !workspace_is_dir {
        return Err(SidecarError::WorkspaceMissing);
    }
    if crate::text::str_is_empty(config.workspace_id.as_str()) {
        return Err(SidecarError::WorkspaceIdRequired);
    }
    if crate::text::str_is_empty(config.control_token.as_str()) {
        return Err(SidecarError::ControlTokenRequired);
    }
    if crate::text::str_is_empty(config.gateway_token.as_str()) {
        return Err(SidecarError::GatewayTokenRequired);
    }
    let listen = crate::text::to_chars(config.listen.as_str());
    let prefix = crate::text::to_chars("127.0.0.1:");
    if !crate::text::chars_start_with(&listen, &prefix) {
        return Err(SidecarError::ListenNotLoopback);
    }
    match crate::urls::parse_url(config.gateway_url.as_str()) {
        None => Err(SidecarError::InvalidGatewayUrl),
        Some(_) => Ok(()),
    }
}

/// The gateway endpoint that receives a workspace's checkpoints.
pub open spec fn spec_upload_url(gateway_url: Seq<char>, workspace_id: Seq<char>) -> Seq<char> {
    trim_end_char(gateway_url, '/') + "/v1/workspaces/"@ + workspace_id + "/checkpoints"@
}

pub fn upload_url(gateway_url: &str, workspace_id: &str) -> (r: String)
    ensures
        r@ == spec_upload_url(gateway_url@, workspace_id@),
{
    let url = crate::text::to_chars(gateway_url);
    let mut chars = crate::text::trim_end_char_exec(&url, '/');
    crate::text::append_str(&mut chars, "/v1/workspaces/");
    crate::text::append_str(&mut chars, workspace_id);
    crate::text::append_str(&mut chars, "/checkpoints");
    proof {
        assert(chars@ =~= spec_upload_url(gateway_url@, workspace_id@));
    }
    crate::text::from_chars(chars.as_slice())
}

/// The endpoint an upload goes to, once the serialized metadata is known to
/// fit in the `x-opencode-checkpoint-metadata` header.
pub fn upload_target(metadata_json: &[u8], gateway_url: &str, workspace_id: &str) -> (r: Result<String, SidecarError>)
    ensures
        match r {
            Ok(u) => header_value_ok(metadata_json@) && u@ == spec_upload_url(gateway_url@, workspace_id@),
            Err(e) => !header_value_ok(metadata_json@) && e == SidecarError::MetadataNotHeader,
        },
{
    if !header_value_accepts(metadata_json) {
        return Err(SidecarError::MetadataNotHeader);
    }
    Ok(upload_url(gateway_url, workspace_id))
}

} // verus!

verus! {

impl SidecarError {
    pub open spec fn spec_message(self) -> Seq<char> {
        match self {
            SidecarError::WorkspaceMissing => "workspace directory does not exist"@,
            SidecarError::WorkspaceIdRequired => "workspace ID is required"@,
            SidecarError::ControlTokenRequired => "sidecar control token is required"@,
            SidecarError::GatewayTokenRequired => "gateway token is required"@,
            SidecarError::ListenNotLoopback => "sidecar API must bind to IPv4 loopback"@,
            SidecarError::InvalidGatewayUrl => "gateway URL is invalid"@,
            SidecarError::MetadataNotHeader => "checkpoint metadata cannot be represented as an HTTP header"@,
        }
    }

    /// The message the error is reported with.
    pub fn message(&self) -> (r: &'static str)
        ensures
            r@ == self.spec_message(),
    {
        match self {
            SidecarError::WorkspaceMissing => "workspace directory does not exist",
            SidecarError::WorkspaceIdRequired => "workspace ID is required",
            SidecarError::ControlTokenRequired => "sidecar control token is required",
            SidecarError::GatewayTokenRequired => "gateway token is required",
            SidecarError::ListenNotLoopback => "sidecar API must bind to IPv4 loopback",
            SidecarError::InvalidGatewayUrl => "gateway URL is invalid",
            SidecarError::MetadataNotHeader => "checkpoint metadata cannot be represented as an HTTP header",
        }
    }
}

/// The sidecar starts only with every credential present and listening on
/// IPv4 loopback: an empty workspace ID or token, or any other listen
/// address, is refused whatever else is configured.
pub proof fn law_sidecar_needs_credentials_and_loopback(
    workspace_is_dir: bool,
    workspace_id: Seq<char>,
    control_token: Seq<char>,
    gateway_token: Seq<char>,
    listen: Seq<char>,
    gateway_url: Seq<char>,
)
    ensures
        spec_validate(workspace_is_dir, workspace_id, control_token, gateway_token, listen, gateway_url) is Ok ==> {
            &&& workspace_is_dir
            &&& workspace_id.len() > 0 && control_token.len() > 0 && gateway_token.len() > 0
            &&& listen.len() >= 10 && listen.take(10) == "127.0.0.1:"@
            &&& spec_parse_url(gateway_url) is Some
        },
{
    reveal_strlit("127.0.0.1:");
}

} // verus!
