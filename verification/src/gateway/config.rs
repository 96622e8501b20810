use vstd::prelude::*;

use crate::text::{has_prefix, has_suffix};

verus! {

/// Platform configuration of the gateway.
#[derive(Clone, Debug)]
pub struct Config {
    pub namespace: String,
    pub base_domain: String,
    pub listen: String,
    pub preview_listen: String,
    pub state_path: String,
    pub opencode: OpenCodeConfig,
    pub runtime: RuntimeConfig,
    pub checkpoint: CheckpointConfig,
    pub lifecycle: LifecycleConfig,
    pub auth: AuthConfig,
    pub projects_file: String,
}

/// Pinned OpenCode version and the central OpenCode URLs.
#[derive(Clone, Debug)]
pub struct OpenCodeConfig {
    pub version: String,
    pub central_url: String,
    pub public_url: String,
}

/// Images injected into every sandbox and the URL the sandbox uses to reach the gateway.
#[derive(Clone, Debug)]
pub struct RuntimeConfig {
    pub image: String,
    pub generic_nix_image: String,
    pub gateway_url: String,
}

/// Where checkpoint bundles are stored and how often they are taken.
#[derive(Clone, Debug)]
pub struct CheckpointConfig {
    pub path: String,
    pub periodic_seconds: u64,
}

/// Idle suspension, readiness and termination timing.
#[derive(Clone, Debug)]
pub struct LifecycleConfig {
    pub suspend_after_idle_seconds: u64,
    pub ready_timeout_seconds: u64,
    pub poll_seconds: u64,
    pub termination_grace_seconds: u64,
}

/// How users are authenticated.
#[derive(Clone, Debug)]
pub enum AuthConfig {
    /// A trusted identity proxy places the user in `identity_header`.
    TrustedHeader { identity_header: String, internal_token_file: Option<String> },
    /// Every request acts as `user`.
    Development { user: String, internal_token_file: Option<String> },
}

/// A registered project.
#[derive(Clone, Debug)]
pub struct Project {
    pub key: String,
    pub name: String,
    pub repository: String,
    pub default_ref: String,
    pub profile_target: String,
    pub trust_tracked_envrc: bool,
    pub environment: ProjectEnvironment,
    pub resources: Resources,
}

/// Where a project's development environment comes from.
#[derive(Clone, Debug)]
pub enum ProjectEnvironment {
    Image { image: String },
    Nix { flake: String },
}

/// Resource requests and limits of the workspace container.
#[derive(Clone, Debug)]
pub struct Resources {
    pub requests: ResourcePair,
    pub limits: ResourcePair,
}

#[derive(Clone, Debug)]
pub struct ResourcePair {
    pub cpu: String,
    pub memory: String,
}

pub fn default_profile_target() -> (r: String)
    ensures
        r@ == ".envrc"@,
{
    ".envrc".to_owned()
}

pub fn default_api_listen() -> (r: String)
    ensures
        r@ == "0.0.0.0:8080"@,
{
    "0.0.0.0:8080".to_owned()
}

pub fn default_preview_listen() -> (r: String)
    ensures
        r@ == "0.0.0.0:8081"@,
{
    "0.0.0.0:8081".to_owned()
}

pub fn default_state_path() -> (r: String)
    ensures
        r@ == "/var/lib/opencode-sandbox/gateway.sqlite3"@,
{
    "/var/lib/opencode-sandbox/gateway.sqlite3".to_owned()
}

pub fn default_checkpoint_seconds() -> (r: u64)
    ensures
        r == 120,
{
    120
}

pub fn default_suspend_seconds() -> (r: u64)
    ensures
        r == 3600,
{
    3600
}

pub fn default_ready_seconds() -> (r: u64)
    ensures
        r == 300,
{
    300
}

pub fn default_poll_seconds() -> (r: u64)
    ensures
        r == 30,
{
    30
}

pub fn default_termination_grace_seconds() -> (r: u64)
    ensures
        r == 180,
{
    180
}

/// Why the platform or project configuration is rejected.
#[derive(Clone, Debug)]
pub enum ConfigError {
    /// "`name` contains unsupported characters".
    UnsupportedCharacters { name: String },
    BaseDomainInvalid,
    VersionNotExact,
    ImageNotPinned,
    GatewayUrlInvalid,
    GatewayUrlNotHttp,
    /// "`name` is invalid": the text does not parse as a URI.
    UrlInvalid { name: String },
    /// "`name` must be an HTTP URL".
    UrlNotHttp { name: String },
    DurationsNotPositive,
    IdentityHeaderRequired,
    ProjectsEmpty,
    /// Repository and default ref of project `key` are required.
    ProjectIncomplete { key: String },
    /// Profile target of project `key` must be `.envrc` or `.env`.
    ProfileTargetInvalid { key: String },
}

/// A character allowed in keys: ASCII letters, digits, `-` and `_`.
pub open spec fn is_key_char(c: char) -> bool {
    crate::text::is_ascii_alphanumeric(c) || c == '-' || c == '_'
}

/// A non-empty key of ASCII letters, digits, `-` and `_`.
pub open spec fn valid_key(value: Seq<char>) -> bool {
    value.len() > 0 && forall|i: int| 0 <= i < value.len() ==> is_key_char(#[trigger] value[i])
}

/// Checks a namespace or project key.
pub fn validate_key(value: &str, name: &str) -> (r: Result<(), ConfigError>)
    ensures
        r is Ok <==> valid_key(value@),
        r matches Err(e) ==> e matches ConfigError::UnsupportedCharacters { name: n } && n@ == name@,
{
    let v = crate::text::to_chars(value);
    let mut ok = v.len() > 0;
    let mut i: usize = 0;
    while i < v.len()
        invariant
            i <= v@.len(),
            v@ == value@,
            ok == (v@.len() > 0 && forall|k: int| 0 <= k < i ==> is_key_char(#[trigger] v@[k])),
        decreases v@.len() - i,
    {
        let c = v[i];
        if !(crate::text::char_is_ascii_alphanumeric(c) || c == '-' || c == '_') {
            ok = false;
        }
        i = i + 1;
    }
    if ok {
        Ok(())
    } else {
        Err(ConfigError::UnsupportedCharacters { name: name.to_owned() })
    }
}

/// The parts of a URI that the gateway inspects.
#[derive(Clone, Debug)]
pub struct UriParts {
    pub scheme: Option<String>,
    pub authority: Option<String>,
    /// The path of the path-and-query component, when the URI has one.
    pub path: Option<String>,
    pub has_query: bool,
}

pub struct UriPartsView {
    pub scheme: Option<Seq<char>>,
    pub authority: Option<Seq<char>>,
    pub path: Option<Seq<char>>,
    pub has_query: bool,
}

impl View for UriParts {
    type V = UriPartsView;

    open spec fn view(&self) -> UriPartsView {
        UriPartsView {
            scheme: crate::gateway::state::opt_view(self.scheme),
            authority: crate::gateway::state::opt_view(self.authority),
            path: crate::gateway::state::opt_view(self.path),
            has_query: self.has_query,
        }
    }
}

/// What `http::Uri::from_str` makes of `text` (`None` when it does not parse).
pub uninterp spec fn spec_parse_uri(text: Seq<char>) -> Option<UriPartsView>;

/// `axum::http::Uri::from_str`, reduced to the parts the gateway inspects.
/// The contract only names the result as a function of the text.
#[verifier::external_body]
fn parse_uri(text: &str) -> (r: Option<UriParts>)
    ensures
        match r {
            Some(p) => spec_parse_uri(text@) == Some(p@),
            None => spec_parse_uri(text@) is None,
        },
{
    match text.parse::<axum::http::Uri>() {
        Ok(uri) => Some(UriParts {
            scheme: uri.scheme_str().map(str::to_owned),
            authority: uri.authority().map(|a| a.as_str().to_owned()),
            path: uri.path_and_query().map(|p| p.path().to_owned()),
            has_query: uri.query().is_some(),
        }),
        Err(_) => None,
    }
}

pub open spec fn is_http_scheme(scheme: Option<Seq<char>>) -> bool {
    scheme == Some("http"@) || scheme == Some("https"@)
}

pub open spec fn has_userinfo(authority: Option<Seq<char>>) -> bool {
    match authority {
        Some(a) => a.contains('@'),
        None => false,
    }
}

/// A plain HTTP(S) URL with a host, no credentials and no query.
pub open spec fn gateway_url_ok(p: UriPartsView) -> bool {
    is_http_scheme(p.scheme) && p.authority is Some && !has_userinfo(p.authority) && !p.has_query
}

/// As `gateway_url_ok`, and its path, if any, is `/`.
pub open spec fn base_url_ok(p: UriPartsView) -> bool {
    gateway_url_ok(p) && match p.path {
        Some(path) => path == "/"@,
        None => true,
    }
}

fn is_http_scheme_exec(scheme: &Option<String>) -> (r: bool)
    ensures
        r == is_http_scheme(crate::gateway::state::opt_view(*scheme)),
{
    match scheme {
        Some(s) => {
            let v = crate::text::to_chars(s.as_str());
            let h = crate::text::to_chars("http");
            let hs = crate::text::to_chars("https");
            crate::text::chars_equal(&v, &h) || crate::text::chars_equal(&v, &hs)
        },
        None => false,
    }
}

fn has_userinfo_exec(authority: &Option<String>) -> (r: bool)
    ensures
        r == has_userinfo(crate::gateway::state::opt_view(*authority)),
{
    match authority {
        Some(a) => {
            let v = crate::text::to_chars(a.as_str());
            crate::text::chars_contain(&v, '@')
        },
        None => false,
    }
}

fn gateway_url_ok_exec(p: &UriParts) -> (r: bool)
    ensures
        r == gateway_url_ok(p@),
{
    is_http_scheme_exec(&p.scheme) && p.authority.is_some() && !has_userinfo_exec(&p.authority)
        && !p.has_query
}

/// What `validate_http_url` reports for `value`.
pub open spec fn http_url_check(value: Seq<char>) -> Option<u8> {
    match spec_parse_uri(value) {
        None => Some(0),
        Some(p) => if base_url_ok(p) {
            None
        } else {
            Some(1)
        },
    }
}

/// Checks that `value` is a plain HTTP(S) base URL: it parses, has an
/// `http` or `https` scheme and a host, no credentials, no query, and no path
/// besides `/`.
pub fn validate_http_url(value: &str, name: &str) -> (r: Result<(), ConfigError>)
    ensures
        match r {
            Ok(()) => http_url_check(value@) is None,
            Err(ConfigError::UrlInvalid { name: n }) => http_url_check(value@) == Some(0u8) && n@
                == name@,
            Err(ConfigError::UrlNotHttp { name: n }) => http_url_check(value@) == Some(1u8) && n@
                == name@,
            Err(_) => false,
        },
{
    let parts = match parse_uri(value) {
        Some(p) => p,
        None => return Err(ConfigError::UrlInvalid { name: name.to_owned() }),
    };
    let path_ok = match &parts.path {
        Some(path) => {
            let v = crate::text::to_chars(path.as_str());
            let slash = crate::text::to_chars("/");
            crate::text::chars_equal(&v, &slash)
        },
        None => true,
    };
    if !gateway_url_ok_exec(&parts) || !path_ok {
        return Err(ConfigError::UrlNotHttp { name: name.to_owned() });
    }
    Ok(())
}

/// The first problem `Config::validate` finds, in its order of checks.
pub open spec fn config_problem(c: Config) -> Option<u8> {
    if !valid_key(c.namespace@) {
        Some(1)
    } else if c.base_domain@.len() == 0 || has_prefix(c.base_domain@, "."@) {
        Some(2)
    } else if c.opencode.version@.len() == 0 || c.opencode.version@ == "latest"@ {
        Some(3)
    } else if c.runtime.image@.len() == 0 || has_suffix(c.runtime.image@, ":latest"@)
        || c.runtime.generic_nix_image@.len() == 0 || has_suffix(
        c.runtime.generic_nix_image@,
        ":latest"@,
    ) {
        Some(4)
    } else if spec_parse_uri(c.runtime.gateway_url@) is None {
        Some(5)
    } else if !gateway_url_ok(spec_parse_uri(c.runtime.gateway_url@)->0) {
        Some(6)
    } else if http_url_check(c.opencode.central_url@) is Some {
        Some(7)
    } else if http_url_check(c.opencode.public_url@) is Some {
        Some(8)
    } else if c.checkpoint.periodic_seconds == 0 || c.lifecycle.suspend_after_idle_seconds == 0
        || c.lifecycle.ready_timeout_seconds == 0 || c.lifecycle.poll_seconds == 0
        || c.lifecycle.termination_grace_seconds < 30 {
        Some(9)
    } else if c.auth matches AuthConfig::TrustedHeader { identity_header, .. }
        && identity_header@.len() == 0 {
        Some(10)
    } else {
        None
    }
}

/// The error that corresponds to each problem number of `config_problem`.
pub open spec fn config_error_matches(c: Config, e: ConfigError) -> bool {
    match config_problem(c) {
        None => false,
        Some(k) => if k == 1 {
            e matches ConfigError::UnsupportedCharacters { name } && name@ == "namespace"@
        } else if k == 2 {
            e is BaseDomainInvalid
        } else if k == 3 {
            e is VersionNotExact
        } else if k == 4 {
            e is ImageNotPinned
        } else if k == 5 {
            e is GatewayUrlInvalid
        } else if k == 6 {
            e is GatewayUrlNotHttp
        } else if k == 7 {
            match (http_url_check(c.opencode.central_url@), e) {
                (Some(0), ConfigError::UrlInvalid { name }) => name@ == "opencode.centralUrl"@,
                (Some(1), ConfigError::UrlNotHttp { name }) => name@ == "opencode.centralUrl"@,
                _ => false,
            }
        } else if k == 8 {
            match (http_url_check(c.opencode.public_url@), e) {
                (Some(0), ConfigError::UrlInvalid { name }) => name@ == "opencode.publicUrl"@,
                (Some(1), ConfigError::UrlNotHttp { name }) => name@ == "opencode.publicUrl"@,
                _ => false,
            }
        } else if k == 9 {
            e is DurationsNotPositive
        } else {
            e is IdentityHeaderRequired
        },
    }
}

fn text_is(value: &String, lit: &str) -> (r: bool)
    ensures
        r == (value@ == lit@),
{
    let v = crate::text::to_chars(value.as_str());
    let l = crate::text::to_chars(lit);
    crate::text::chars_equal(&v, &l)
}

fn text_starts_with(value: &String, lit: &str) -> (r: bool)
    ensures
        r == has_prefix(value@, lit@),
{
    let v = crate::text::to_chars(value.as_str());
    let l = crate::text::to_chars(lit);
    crate::text::chars_start_with(&v, &l)
}

fn text_ends_with(value: &String, lit: &str) -> (r: bool)
    ensures
        r == has_suffix(value@, lit@),
{
    let v = crate::text::to_chars(value.as_str());
    let l = crate::text::to_chars(lit);
    crate::text::chars_end_with(&v, &l)
}

impl Config {
    /// Checks the platform configuration: keys, pinned versions and images,
    /// HTTP URLs, positive durations and the identity header.
    pub fn validate(&self) -> (r: Result<(), ConfigError>)
        ensures
            r is Ok <==> config_problem(*self) is None,
            r matches Err(e) ==> config_error_matches(*self, e),
    {
        proof {
            reveal_strlit("namespace");
        }
        validate_key(self.namespace.as_str(), "namespace")?;
        if self.base_domain.as_str().is_empty() || text_starts_with(&self.base_domain, ".") {
            return Err(ConfigError::BaseDomainInvalid);
        }
        if self.opencode.version.as_str().is_empty() || text_is(&self.opencode.version, "latest") {
            return Err(ConfigError::VersionNotExact);
        }
        if self.runtime.image.as_str().is_empty() || text_ends_with(&self.runtime.image, ":latest")
            || self.runtime.generic_nix_image.as_str().is_empty() || text_ends_with(
            &self.runtime.generic_nix_image,
            ":latest",
        ) {
            return Err(ConfigError::ImageNotPinned);
        }
        let gateway = match parse_uri(self.runtime.gateway_url.as_str()) {
            Some(p) => p,
            None => return Err(ConfigError::GatewayUrlInvalid),
        };
        if !gateway_url_ok_exec(&gateway) {
            return Err(ConfigError::GatewayUrlNotHttp);
        }
        validate_http_url(self.opencode.central_url.as_str(), "opencode.centralUrl")?;
        validate_http_url(self.opencode.public_url.as_str(), "opencode.publicUrl")?;
        if self.checkpoint.periodic_seconds == 0 || self.lifecycle.suspend_after_idle_seconds == 0
            || self.lifecycle.ready_timeout_seconds == 0 || self.lifecycle.poll_seconds == 0
            || self.lifecycle.termination_grace_seconds < 30 {
            return Err(ConfigError::DurationsNotPositive);
        }
        if let AuthConfig::TrustedHeader { identity_header, .. } = &self.auth {
            if identity_header.as_str().is_empty() {
                return Err(ConfigError::IdentityHeaderRequired);
            }
        }
        Ok(())
    }
}

/// The first problem of one registered project, if any.
pub open spec fn project_problem(key: Seq<char>, p: Project) -> Option<u8> {
    if !valid_key(key) {
        Some(1)
    } else if p.repository@.len() == 0 || p.default_ref@.len() == 0 {
        Some(2)
    } else if !(p.profile_target@ == ".envrc"@ || p.profile_target@ == ".env"@) {
        Some(3)
    } else {
        None
    }
}

pub open spec fn project_error_matches(key: Seq<char>, p: Project, e: ConfigError) -> bool {
    match project_problem(key, p) {
        Some(1) => e matches ConfigError::UnsupportedCharacters { name } && name@ == "project key"@,
        Some(2) => e matches ConfigError::ProjectIncomplete { key: k } && k@ == key,
        Some(3) => e matches ConfigError::ProfileTargetInvalid { key: k } && k@ == key,
        _ => false,
    }
}

/// Entry `i` is the first with a problem, and `e` reports it.
pub open spec fn first_project_problem_at(entries: Seq<(String, Project)>, i: int, e: ConfigError) -> bool {
    0 <= i < entries.len() && (forall|j: int|
        0 <= j < i ==> project_problem(#[trigger] entries[j].0@, entries[j].1) is None)
        && project_error_matches(entries[i].0@, entries[i].1, e)
}

/// The project registered under `key`: the project with its `key` field set.
pub open spec fn keyed(key: String, p: Project) -> Project {
    Project { key: key, ..p }
}

/// Validates the project registry (entries in key order) and stamps each
/// project with its key. The registry must not be empty; each key must be a
/// valid key; repository and default ref are required; the profile target
/// must be `.envrc` or `.env`. The first failing entry decides the error.
pub fn validate_projects(entries: Vec<(String, Project)>) -> (r: Result<Vec<(String, Project)>, ConfigError>)
    ensures
        match r {
            Ok(v) => entries@.len() > 0 && v@.len() == entries@.len() && (forall|i: int|
                0 <= i < entries@.len() ==> project_problem(
                    #[trigger] entries@[i].0@,
                    entries@[i].1,
                ) is None) && forall|i: int|
                0 <= i < v@.len() ==> #[trigger] v@[i] == (
                    entries@[i].0,
                    keyed(entries@[i].0, entries@[i].1),
                ),
            Err(e) => (entries@.len() == 0 && e is ProjectsEmpty) || exists|i: int|
                #[trigger] first_project_problem_at(entries@, i, e),
        },
{
    let n = entries.len();
    if n == 0 {
        return Err(ConfigError::ProjectsEmpty);
    }
    let ghost original = entries@;
    let mut out: Vec<(String, Project)> = Vec::new();
    let mut rest = entries;
    let mut k: usize = 0;
    while rest.len() > 0
        invariant
            k <= original.len(),
            original.len() > 0,
            original == entries@,
            original.len() == n,
            rest@ == original.skip(k as int),
            out@.len() == k,
            forall|j: int|
                0 <= j < k ==> project_problem(#[trigger] original[j].0@, original[j].1) is None,
            forall|j: int|
                0 <= j < k ==> #[trigger] out@[j] == (original[j].0, keyed(original[j].0, original[j].1)),
        decreases rest@.len(),
    {
        let (key, project) = rest.remove(0);
        proof {
            assert(original[k as int] == (key, project));
            reveal_strlit("project key");
        }
        match validate_key(key.as_str(), "project key") {
            Ok(()) => {},
            Err(e) => {
                proof {
                    assert(first_project_problem_at(original, k as int, e));
                }
                return Err(e);
            },
        }
        if project.repository.as_str().is_empty() || project.default_ref.as_str().is_empty() {
            let e = ConfigError::ProjectIncomplete { key: key.clone() };
            proof {
                assert(first_project_problem_at(original, k as int, e));
            }
            return Err(e);
        }
        if !(text_is(&project.profile_target, ".envrc") || text_is(&project.profile_target, ".env")) {
            let e = ConfigError::ProfileTargetInvalid { key: key.clone() };
            proof {
                assert(first_project_problem_at(original, k as int, e));
            }
            return Err(e);
        }
        let stamped = Project { key: key.clone(), ..project };
        out.push((key, stamped));
        k = k + 1;
        proof {
            assert(rest@ =~= original.skip(k as int));
        }
    }
    proof {
        assert(k == original.len());
    }
    Ok(out)
}

} // verus!

verus! {

impl ConfigError {
    pub open spec fn spec_message(self) -> Seq<char> {
        match self {
            ConfigError::UnsupportedCharacters { name } => name@ + " contains unsupported characters"@,
            ConfigError::BaseDomainInvalid => "baseDomain is invalid"@,
            ConfigError::VersionNotExact => "opencode.version must be exact"@,
            ConfigError::ImageNotPinned => "runtime images must be pinned"@,
            ConfigError::GatewayUrlInvalid => "runtime.gatewayUrl is invalid"@,
            ConfigError::GatewayUrlNotHttp => "runtime.gatewayUrl must be an HTTP URL"@,
            ConfigError::UrlInvalid { name } => name@ + " is invalid"@,
            ConfigError::UrlNotHttp { name } => name@ + " must be an HTTP URL"@,
            ConfigError::DurationsNotPositive => "lifecycle durations must be positive"@,
            ConfigError::IdentityHeaderRequired => "auth.identityHeader is required"@,
            ConfigError::ProjectsEmpty => "projects must not be empty"@,
            ConfigError::ProjectIncomplete { key } => "project "@ + key@ + " repository and defaultRef are required"@,
            ConfigError::ProfileTargetInvalid { key } => "project "@ + key@ + " profileTarget must be .envrc or .env"@,
        }
    }

    /// The message the error is reported with.
    pub fn message(&self) -> (r: String)
        ensures
            r@ == self.spec_message(),
    {
        match self {
            ConfigError::UnsupportedCharacters { name } => crate::text::concat_str(
                name.as_str(),
                " contains unsupported characters",
            ),
            ConfigError::BaseDomainInvalid => "baseDomain is invalid".to_owned(),
            ConfigError::VersionNotExact => "opencode.version must be exact".to_owned(),
            ConfigError::ImageNotPinned => "runtime images must be pinned".to_owned(),
            ConfigError::GatewayUrlInvalid => "runtime.gatewayUrl is invalid".to_owned(),
            ConfigError::GatewayUrlNotHttp => "runtime.gatewayUrl must be an HTTP URL".to_owned(),
            ConfigError::UrlInvalid { name } => crate::text::concat_str(name.as_str(), " is invalid"),
            ConfigError::UrlNotHttp { name } => crate::text::concat_str(name.as_str(), " must be an HTTP URL"),
            ConfigError::DurationsNotPositive => "lifecycle durations must be positive".to_owned(),
            ConfigError::IdentityHeaderRequired => "auth.identityHeader is required".to_owned(),
            ConfigError::ProjectsEmpty => "projects must not be empty".to_owned(),
            ConfigError::ProjectIncomplete { key } => {
                let head = crate::text::concat_str("project ", key.as_str());
                crate::text::concat_str(head.as_str(), " repository and defaultRef are required")
            },
            ConfigError::ProfileTargetInvalid { key } => {
                let head = crate::text::concat_str("project ", key.as_str());
                crate::text::concat_str(head.as_str(), " profileTarget must be .envrc or .env")
            },
        }
    }
}

} // verus!
