use std::path::PathBuf;
use std::time::Duration;
use vstd::prelude::*;

use crate::headers::{spec_bearer, Headers};
use crate::supervisor::PINNED_OPENCODE_VERSION;
use crate::supervisor::checkpoint::spec_text;
use crate::text::{all_digits, spec_utf8_lossy, split_on, trim_start_char, words};
use crate::urls::spec_parse_url;

verus! {

/// Configuration of the supervisor of the OpenCode child process.
#[derive(Debug)]
pub struct SupervisorConfig {
    pub workspace: PathBuf,
    pub opencode: PathBuf,
    pub direnv: PathBuf,
    pub expected_version: String,
    pub listen: String,
    pub control_token: String,
    pub host: String,
    pub port: u16,
    pub graceful_timeout: Duration,
    pub health_interval: Duration,
    pub startup_timeout: Duration,
    pub checkpoint_url: Option<String>,
    pub checkpoint_token: Option<String>,
    pub checkpoint_timeout: Duration,
}

/// `PathBuf::from`; nothing is stated of the path (it is carried, never read).
#[verifier::external_body]
fn path_from(s: &str) -> PathBuf {
    PathBuf::from(s)
}

/// `Duration::from_secs`; nothing is stated of the duration (it is carried,
/// never read by the library).
#[verifier::external_body]
fn seconds(s: u64) -> Duration {
    Duration::from_secs(s)
}

impl Default for SupervisorConfig {
    /// The in-image defaults: `/workspace`, the injected binaries under
    /// `/opt/opencode/bin`, the pinned version, the loopback control port
    /// 4097 and OpenCode on `0.0.0.0:4096`; grace 20 s, health every 2 s,
    /// startup 60 s, checkpoint 120 s; no checkpoint sidecar.
    fn default() -> (r: Self)
        ensures
            r.expected_version@ == PINNED_OPENCODE_VERSION@,
            r.listen@ == "127.0.0.1:4097"@,
            r.control_token@.len() == 0,
            r.host@ == "0.0.0.0"@,
            r.port == 4096,
            r.checkpoint_url is None,
            r.checkpoint_token is None,
    {
        SupervisorConfig {
            workspace: path_from("/workspace"),
            opencode: path_from("/opt/opencode/bin/opencode"),
            direnv: path_from("/opt/opencode/bin/direnv"),
            expected_version: PINNED_OPENCODE_VERSION.to_owned(),
            listen: "127.0.0.1:4097".to_owned(),
            control_token: String::new(),
            host: "0.0.0.0".to_owned(),
            port: 4096,
            graceful_timeout: seconds(20),
            health_interval: seconds(2),
            startup_timeout: seconds(60),
            checkpoint_url: None,
            checkpoint_token: None,
            checkpoint_timeout: seconds(120),
        }
    }
}

/// One of the two injected binaries.
#[derive(Clone, Copy, Debug, PartialEq, Eq, Structural)]
pub enum Binary {
    OpenCode,
    Direnv,
}

/// Why the supervisor refuses its configuration or stops.
#[derive(Clone, Copy, Debug, PartialEq, Eq, Structural)]
pub enum SupervisorError {
    ControlTokenRequired,
    WorkspaceMissing,
    /// The binary's metadata could not be read.
    BinaryUnreadable { binary: Binary },
    /// The binary is not a file with an execute bit.
    BinaryNotExecutable { binary: Binary },
    VersionNotPinned,
    ListenNotAllowed,
    CheckpointPairing,
    CheckpointUrlInvalid,
    CheckpointUrlNotLoopback,
    CheckpointTokenMissing,
}

/// What the file system reports of an injected binary.
#[derive(Clone, Copy, Debug, PartialEq, Eq, Structural)]
pub struct FileFacts {
    pub is_file: bool,
    /// The permission bits (`st_mode`).
    pub mode: u32,
}

/// A binary is usable when its metadata could be read, it is a file and some
/// execute bit (`0o111`) is set.
pub open spec fn spec_ensure_executable(facts: Option<FileFacts>, binary: Binary) -> Result<(), SupervisorError> {
    match facts {
        None => Err(SupervisorError::BinaryUnreadable { binary }),
        Some(f) => if f.is_file && f.mode & 73u32 != 0 {
            Ok(())
        } else {
            Err(SupervisorError::BinaryNotExecutable { binary })
        },
    }
}

pub fn ensure_executable(facts: Option<FileFacts>, binary: Binary) -> (r: Result<(), SupervisorError>)
    ensures
        r == spec_ensure_executable(facts, binary),
{
    match facts {
        None => Err(SupervisorError::BinaryUnreadable { binary }),
        Some(f) => if f.is_file && f.mode & 73u32 != 0 {
            Ok(())
        } else {
            Err(SupervisorError::BinaryNotExecutable { binary })
        },
    }
}

/// The IP address of a parsed socket address.
#[derive(Clone, Copy, Debug, PartialEq, Eq, Structural)]
pub enum SocketIp {
    V4 { a: u8, b: u8, c: u8, d: u8 },
    V6,
}

/// The control API may listen on IPv4 loopback (`127.0.0.0/8`) or on all
/// interfaces (`0.0.0.0`), which in a Pod is the Pod network interface;
/// `ip` is the IP of the parsed listen address, `None` when it does not
/// parse as a socket address.
pub open spec fn spec_listen_ip_allowed(ip: Option<SocketIp>) -> bool {
    match ip {
        Some(SocketIp::V4 { a, b, c, d }) => a == 127 || (a == 0 && b == 0 && c == 0 && d == 0),
        _ => false,
    }
}

pub fn listen_ip_allowed(ip: Option<SocketIp>) -> (r: bool)
    ensures
        r == spec_listen_ip_allowed(ip),
{
    match ip {
        Some(SocketIp::V4 { a, b, c, d }) => a == 127 || (a == 0 && b == 0 && c == 0 && d == 0),
        _ => false,
    }
}

/// The supervisor's configuration checks, in order.
pub open spec fn spec_validate_config(
    control_token: Seq<char>,
    workspace_is_dir: bool,
    opencode: Option<FileFacts>,
    direnv: Option<FileFacts>,
    expected_version: Seq<char>,
    listen_ip: Option<SocketIp>,
    checkpoint_url: Option<Seq<char>>,
    checkpoint_token_set: bool,
) -> Result<(), SupervisorError> {
    if control_token.len() == 0 {
        Err(SupervisorError::ControlTokenRequired)
    } else if !workspace_is_dir {
        Err(SupervisorError::WorkspaceMissing)
    } else if spec_ensure_executable(opencode, Binary::OpenCode) is Err {
        spec_ensure_executable(opencode, Binary::OpenCode)
    } else if spec_ensure_executable(direnv, Binary::Direnv) is Err {
        spec_ensure_executable(direnv, Binary::Direnv)
    } else if expected_version != PINNED_OPENCODE_VERSION@ {
        Err(SupervisorError::VersionNotPinned)
    } else if !spec_listen_ip_allowed(listen_ip) {
        Err(SupervisorError::ListenNotAllowed)
    } else if checkpoint_url.is_some() != checkpoint_token_set {
        Err(SupervisorError::CheckpointPairing)
    } else {
        match checkpoint_url {
            None => Ok(()),
            Some(url) => match spec_parse_url(url) {
                None => Err(SupervisorError::CheckpointUrlInvalid),
                Some(p) => if p.scheme == "http"@ && p.host == Some("127.0.0.1"@) && p.username.len() == 0
                    && p.password is None {
                    Ok(())
                } else {
                    Err(SupervisorError::CheckpointUrlNotLoopback)
                },
            },
        }
    }
}

/// Checks the configuration; `workspace_is_dir`, `opencode` and `direnv` are
/// what the file system reports of the configured paths, and `listen_ip` is
/// the IP of `config.listen` parsed as a socket address.
pub fn validate_config(
    config: &SupervisorConfig,
    workspace_is_dir: bool,
    opencode: Option<FileFacts>,
    direnv: Option<FileFacts>,
    listen_ip: Option<SocketIp>,
) -> (r: Result<(), SupervisorError>)
    ensures
        r == spec_validate_config(
            config.control_token@,
            workspace_is_dir,
            opencode,
            direnv,
            config.expected_version@,
            listen_ip,
            crate::gateway::state::opt_view(config.checkpoint_url),
            config.checkpoint_token is Some,
        ),
{
    if crate::text::str_is_empty(config.control_token.as_str()) {
        return Err(SupervisorError::ControlTokenRequired);
    }
    if !workspace_is_dir {
        return Err(SupervisorError::WorkspaceMissing);
    }
    match ensure_executable(opencode, Binary::OpenCode) {
        Err(e) => return Err(e),
        Ok(()) => {},
    }
    match ensure_executable(direnv, Binary::Direnv) {
        Err(e) => return Err(e),
        Ok(()) => {},
    }
    let pinned = PINNED_OPENCODE_VERSION.to_owned();
    if !(config.expected_version == pinned) {
        return Err(SupervisorError::VersionNotPinned);
    }
    if !listen_ip_allowed(listen_ip) {
        return Err(SupervisorError::ListenNotAllowed);
    }
    if config.checkpoint_url.is_some() != config.checkpoint_token.is_some() {
        return Err(SupervisorError::CheckpointPairing);
    }
    match &config.checkpoint_url {
        None => Ok(()),
        Some(url) => match crate::urls::parse_url(url.as_str()) {
            None => Err(SupervisorError::CheckpointUrlInvalid),
            Some(p) => {
                let http = "http".to_owned();
                let loopback = "127.0.0.1".to_owned();
                let host_ok = match &p.host {
                    Some(h) => *h == loopback,
                    None => false,
                };
                if p.scheme == http && host_ok && crate::text::str_is_empty(p.username.as_str())
                    && p.password.is_none() {
                    Ok(())
                } else {
                    Err(SupervisorError::CheckpointUrlNotLoopback)
                }
            },
        },
    }
}

/// A control request is authorized when it carries `Authorization: Bearer
/// <token>` with exactly the control token (compared in constant time).
pub fn authorized(headers: &Headers, token: &str) -> (r: bool)
    ensures
        r == (spec_bearer(*headers) == Some(token@)),
{
    let candidate = match crate::headers::bearer_token(headers) {
        Some(c) => c,
        None => return false,
    };
    let candidate = crate::text::from_chars(candidate.as_slice());
    let r = crate::headers::constant_time_eq(candidate.as_str().as_bytes(), token.as_bytes());
    proof {
        vstd::utf8::encode_utf8_decode_utf8(candidate@);
        vstd::utf8::encode_utf8_decode_utf8(token@);
    }
    r
}

/// Where the final checkpoint is requested: nowhere without a sidecar URL;
/// with one, the sidecar's token is required.
pub fn final_checkpoint_target(config: &SupervisorConfig) -> (r: Result<Option<(String, String)>, SupervisorError>)
    ensures
        match config.checkpoint_url {
            None => r == Ok::<Option<(String, String)>, SupervisorError>(None),
            Some(url) => match config.checkpoint_token {
                None => r == Err::<Option<(String, String)>, SupervisorError>(SupervisorError::CheckpointTokenMissing),
                Some(token) => r matches Ok(Some((u, t))) && u@ == url@ && t@ == token@,
            },
        },
{
    match &config.checkpoint_url {
        None => Ok(None),
        Some(url) => match &config.checkpoint_token {
            None => Err(SupervisorError::CheckpointTokenMissing),
            Some(token) => Ok(Some((url.clone(), token.clone()))),
        },
    }
}

/* OpenCode versions */

/// A release number: three non-empty runs of ASCII digits separated by dots.
pub open spec fn is_version(p: Seq<char>) -> bool {
    let pieces = split_on(p, '.');
    pieces.len() == 3 && forall|i: int| 0 <= i < 3 ==> #[trigger] pieces[i].len() > 0 && all_digits(pieces[i])
}

/// The first word that, without its leading `v`s, is a release number.
pub open spec fn first_version(ws: Seq<Seq<char>>) -> Option<Seq<char>>
    decreases ws.len(),
{
    if ws.len() == 0 {
        None
    } else if is_version(trim_start_char(ws[0], 'v')) {
        Some(trim_start_char(ws[0], 'v'))
    } else {
        first_version(ws.drop_first())
    }
}

/// The release number in a version banner such as `opencode v1.18.3`.
pub open spec fn spec_parse_version(value: Seq<char>) -> Option<Seq<char>> {
    first_version(words(value))
}

fn is_version_exec(p: &Vec<char>) -> (r: bool)
    ensures
        r == is_version(p@),
{
    let pieces = crate::text::split_chars(p, '.');
    let ghost pv = pieces@.map_values(|v: Vec<char>| v@);
    if pieces.len() != 3 {
        return false;
    }
    let mut i: usize = 0;
    while i < 3
        invariant
            i <= 3,
            pieces@.len() == 3,
            pv == pieces@.map_values(|v: Vec<char>| v@),
            pv == split_on(p@, '.'),
            forall|k: int| 0 <= k < i ==> #[trigger] pv[k].len() > 0 && all_digits(pv[k]),
        decreases 3 - i,
    {
        let piece = &pieces[i];
        proof {
            assert(pv[i as int] == piece@);
        }
        if piece.len() == 0 {
            return false;
        }
        let mut j: usize = 0;
        while j < piece.len()
            invariant
                i < 3,
                j <= piece@.len(),
                piece@.len() > 0,
                pieces@.len() == 3,
                pv == pieces@.map_values(|v: Vec<char>| v@),
                pv == split_on(p@, '.'),
                pv[i as int] == piece@,
                forall|k: int| 0 <= k < i ==> #[trigger] pv[k].len() > 0 && all_digits(pv[k]),
                forall|k: int| 0 <= k < j ==> crate::text::is_ascii_digit(#[trigger] piece@[k]),
            decreases piece@.len() - j,
        {
            if !crate::text::char_is_ascii_digit(piece[j]) {
                proof {
                    assert(!crate::text::is_ascii_digit(piece@[j as int]));
                    assert(!all_digits(pv[i as int]));
                }
                return false;
            }
            j = j + 1;
        }
        i = i + 1;
    }
    true
}

/// Finds the release number in a version banner (`opencode --version`, or
/// the `version` the child's health endpoint reports).
pub fn parse_version(value: &str) -> (r: Option<String>)
    ensures
        crate::gateway::state::opt_view(r) == spec_parse_version(value@),
{
    let chars = crate::text::to_chars(value);
    let ws = crate::text::split_whitespace_chars(&chars);
    let ghost wv = ws@.map_values(|v: Vec<char>| v@);
    let mut i: usize = 0;
    proof {
        assert(wv.skip(0) =~= wv);
    }
    while i < ws.len()
        invariant
            i <= ws@.len(),
            wv == ws@.map_values(|v: Vec<char>| v@),
            wv == words(value@),
            first_version(wv) == first_version(wv.skip(i as int)),
        decreases ws@.len() - i,
    {
        let part = crate::text::trim_start_char_exec(&ws[i], 'v');
        proof {
            let t = wv.skip(i as int);
            assert(t[0] == ws@[i as int]@);
            assert(t.drop_first() =~= wv.skip(i + 1));
        }
        if is_version_exec(&part) {
            return Some(crate::text::from_chars(part.as_slice()));
        }
        i = i + 1;
    }
    proof {
        assert(wv.skip(i as int) =~= Seq::<Seq<char>>::empty());
    }
    None
}

/// Why the injected binary's `--version` check fails.
#[derive(Clone, Debug)]
pub enum VersionCheckError {
    /// `--version` exited unsuccessfully; its trimmed standard error.
    Failed { stderr: String },
    /// The banner names another release, or none.
    Mismatch { observed: Option<String> },
}

/// Checks the output of `opencode --version` against the expected release.
pub fn check_version_output(success: bool, stdout: &[u8], stderr: &[u8], expected: &str) -> (r: Result<(), VersionCheckError>)
    ensures
        match r {
            Ok(()) => success && spec_parse_version(spec_utf8_lossy(stdout@)) == Some(expected@),
            Err(VersionCheckError::Failed { stderr: e }) => !success && e@ == spec_text(stderr@),
            Err(VersionCheckError::Mismatch { observed }) => success && spec_parse_version(spec_utf8_lossy(stdout@))
                != Some(expected@) && crate::gateway::state::opt_view(observed) == spec_parse_version(
                spec_utf8_lossy(stdout@),
            ),
        },
{
    if !success {
        return Err(VersionCheckError::Failed { stderr: crate::supervisor::checkpoint::text(stderr) });
    }
    let banner = crate::text::from_utf8_lossy(stdout);
    let observed = parse_version(banner.as_str());
    let expected_owned = expected.to_owned();
    let matches = match &observed {
        Some(v) => *v == expected_owned,
        None => false,
    };
    if matches {
        Ok(())
    } else {
        Err(VersionCheckError::Mismatch { observed })
    }
}

/// Why a health check of the child fails.
#[derive(Clone, Debug)]
pub enum HealthError {
    /// The request did not complete.
    RequestFailed,
    /// The child answered with an unsuccessful HTTP status.
    BadStatus,
    /// The answer is not JSON.
    InvalidBody,
    /// The child reports `"healthy": false`.
    Unhealthy,
    /// The answer names no release.
    MissingVersion,
    /// The child runs another release.
    VersionMismatch { observed: String },
}

/// The verdict on a health answer: a successful status, not marked
/// unhealthy, naming the expected release.
pub fn assess_health(status_success: bool, healthy: Option<bool>, version: Option<String>, expected: &str) -> (r: Result<String, HealthError>)
    ensures
        !status_success ==> r matches Err(HealthError::BadStatus),
        status_success && healthy == Some(false) ==> r matches Err(HealthError::Unhealthy),
        status_success && healthy != Some(false) ==> match version {
            None => r matches Err(HealthError::MissingVersion),
            Some(text) => match spec_parse_version(text@) {
                None => r matches Err(HealthError::MissingVersion),
                Some(v) => if v == expected@ {
                    r matches Ok(o) && o@ == v
                } else {
                    r matches Err(HealthError::VersionMismatch { observed }) && observed@ == v
                },
            },
        },
{
    if !status_success {
        return Err(HealthError::BadStatus);
    }
    if healthy == Some(false) {
        return Err(HealthError::Unhealthy);
    }
    let text = match version {
        None => return Err(HealthError::MissingVersion),
        Some(t) => t,
    };
    let v = match parse_version(text.as_str()) {
        None => return Err(HealthError::MissingVersion),
        Some(v) => v,
    };
    let expected_owned = expected.to_owned();
    if v == expected_owned {
        Ok(v)
    } else {
        Err(HealthError::VersionMismatch { observed: v })
    }
}

/* Health monitoring of a running child */

/// What the supervisor remembers of the current child's health checks.
#[derive(Clone, Copy, Debug, PartialEq, Eq, Structural)]
pub struct HealthMonitor {
    /// Failed checks since the last successful one (saturating).
    pub failed_checks: u8,
    /// Whether any check of this child has succeeded.
    pub ever_ready: bool,
}

/// What the supervisor does after a health check.
#[derive(Clone, Copy, Debug, PartialEq, Eq, Structural)]
pub enum HealthVerdict {
    /// Keep the child running.
    Continue,
    /// Stop the child and start a new one.
    Restart,
    /// Stop the child and the supervisor: it runs the wrong release.
    Fail,
}

/// One health check: a success resets the failure count and marks the child
/// ready; a version mismatch is fatal; otherwise a child that was never
/// ready is restarted once the startup timeout has passed, and a child that
/// was ready is restarted after five failures in a row.
pub open spec fn spec_observe(m: HealthMonitor, ok: bool, version_mismatch: bool, startup_elapsed: bool) -> (HealthMonitor, HealthVerdict) {
    if ok {
        (HealthMonitor { failed_checks: 0, ever_ready: true }, HealthVerdict::Continue)
    } else {
        let failed = if m.failed_checks < 255 { (m.failed_checks + 1) as u8 } else { 255u8 };
        let next = HealthMonitor { failed_checks: failed, ever_ready: m.ever_ready };
        if version_mismatch {
            (next, HealthVerdict::Fail)
        } else if (!m.ever_ready && startup_elapsed) || (m.ever_ready && failed >= 5) {
            (next, HealthVerdict::Restart)
        } else {
            (next, HealthVerdict::Continue)
        }
    }
}

impl HealthMonitor {
    /// The state for a freshly started child.
    pub fn new() -> (r: HealthMonitor)
        ensures
            r == (HealthMonitor { failed_checks: 0, ever_ready: false }),
    {
        HealthMonitor { failed_checks: 0, ever_ready: false }
    }

    /// Records a health check's result; `startup_elapsed` says whether the
    /// startup timeout has passed since the child started.
    pub fn observe(&mut self, result: &Result<String, HealthError>, startup_elapsed: bool) -> (r: HealthVerdict)
        ensures
            (*final(self), r) == spec_observe(
                *old(self),
                result is Ok,
                result matches Err(HealthError::VersionMismatch { .. }),
                startup_elapsed,
            ),
    {
        match result {
            Ok(_) => {
                self.failed_checks = 0;
                self.ever_ready = true;
                HealthVerdict::Continue
            },
            Err(e) => {
                if self.failed_checks < 255 {
                    self.failed_checks = self.failed_checks + 1;
                }
                let mismatch = match e {
                    HealthError::VersionMismatch { .. } => true,
                    _ => false,
                };
                if mismatch {
                    HealthVerdict::Fail
                } else if (!self.ever_ready && startup_elapsed) || (self.ever_ready && self.failed_checks >= 5) {
                    HealthVerdict::Restart
                } else {
                    HealthVerdict::Continue
                }
            },
        }
    }
}

/// A successful check always keeps the child and clears its failures.
pub proof fn law_health_success_resets(m: HealthMonitor, startup_elapsed: bool)
    ensures
        spec_observe(m, true, false, startup_elapsed) == (HealthMonitor { failed_checks: 0, ever_ready: true }, HealthVerdict::Continue),
{
}

/// A child running another release stops the supervisor, whatever came before.
pub proof fn law_version_mismatch_is_fatal(m: HealthMonitor, startup_elapsed: bool)
    ensures
        spec_observe(m, false, true, startup_elapsed).1 == HealthVerdict::Fail,
{
}

/// A child that never passed a check is restarted on a failed check exactly
/// when the startup timeout has passed.
pub proof fn law_unready_child_waits_for_startup(m: HealthMonitor, startup_elapsed: bool)
    requires
        !m.ever_ready,
    ensures
        spec_observe(m, false, false, startup_elapsed).1 == (if startup_elapsed {
            HealthVerdict::Restart
        } else {
            HealthVerdict::Continue
        }),
{
}

/// A child that has been ready survives four failed checks in a row after a
/// success and is restarted on the fifth, whenever they come.
pub proof fn law_ready_child_restarts_on_fifth_failure(m: HealthMonitor, e0: bool, e1: bool, e2: bool, e3: bool, e4: bool, e5: bool)
    ensures
        ({
            let s0 = spec_observe(m, true, false, e0).0;
            let (s1, v1) = spec_observe(s0, false, false, e1);
            let (s2, v2) = spec_observe(s1, false, false, e2);
            let (s3, v3) = spec_observe(s2, false, false, e3);
            let (s4, v4) = spec_observe(s3, false, false, e4);
            let (s5, v5) = spec_observe(s4, false, false, e5);
            &&& v1 == HealthVerdict::Continue
            &&& v2 == HealthVerdict::Continue
            &&& v3 == HealthVerdict::Continue
            &&& v4 == HealthVerdict::Continue
            &&& v5 == HealthVerdict::Restart
            &&& s5.failed_checks == 5
        }),
{
}

/* The supervision loop */

/// What the supervisor reports on its control API.
#[derive(Clone, Debug)]
pub struct RuntimeStatus {
    pub child_running: bool,
    pub ready: bool,
    pub child_pid: Option<u32>,
    pub restart_count: u64,
    pub expected_version: String,
    pub observed_version: Option<String>,
    pub last_error: Option<String>,
}

impl RuntimeStatus {
    /// Before the first child starts.
    pub fn new(expected_version: String) -> (r: RuntimeStatus)
        ensures
            !r.child_running && !r.ready,
            r.child_pid is None,
            r.restart_count == 0,
            r.expected_version == expected_version,
            r.observed_version is None,
            r.last_error is None,
    {
        RuntimeStatus {
            child_running: false,
            ready: false,
            child_pid: None,
            restart_count: 0,
            expected_version,
            observed_version: None,
            last_error: None,
        }
    }

    /// A child started; `restart_count` children were started before it.
    pub fn child_started(&mut self, pid: u32, restart_count: u64)
        ensures
            final(self).child_running && !final(self).ready,
            final(self).child_pid == Some(pid),
            final(self).restart_count == restart_count,
            final(self).observed_version is None,
            final(self).last_error is None,
            final(self).expected_version == old(self).expected_version,
    {
        self.child_running = true;
        self.ready = false;
        self.child_pid = Some(pid);
        self.restart_count = restart_count;
        self.observed_version = None;
        self.last_error = None;
    }

    /// A health check of the running child finished.
    pub fn health_checked(&mut self, result: &Result<String, HealthError>, message: String)
        ensures
            final(self).ready == (result is Ok),
            match result {
                Ok(v) => final(self).observed_version == Some(*v) && final(self).last_error is None,
                Err(_) => final(self).observed_version == old(self).observed_version && final(self).last_error
                    == Some(message),
            },
            final(self).child_running == old(self).child_running,
            final(self).child_pid == old(self).child_pid,
            final(self).restart_count == old(self).restart_count,
            final(self).expected_version == old(self).expected_version,
    {
        match result {
            Ok(v) => {
                self.ready = true;
                self.observed_version = Some(v.clone());
                self.last_error = None;
            },
            Err(_) => {
                self.ready = false;
                self.last_error = Some(message);
            },
        }
    }

    /// The child stopped, for `reason`.
    pub fn child_stopped(&mut self, reason: String)
        ensures
            !final(self).child_running && !final(self).ready,
            final(self).child_pid is None,
            final(self).last_error == Some(reason),
            final(self).restart_count == old(self).restart_count,
            final(self).observed_version == old(self).observed_version,
            final(self).expected_version == old(self).expected_version,
    {
        self.child_running = false;
        self.ready = false;
        self.child_pid = None;
        self.last_error = Some(reason);
    }
}

/// HTTP status of the control API's health answer: 200 when the child is ready, else 503.
pub fn health_status_code(status: &RuntimeStatus) -> (r: u16)
    ensures
        r == (if status.ready { 200u16 } else { 503u16 }),
{
    if status.ready {
        200
    } else {
        503
    }
}

/// What happened while a child was running.
#[derive(Clone, Copy, Debug, PartialEq, Eq, Structural)]
pub enum LoopEvent {
    ChildExited,
    RestartRequested,
    TerminationSignal,
    Health { verdict: HealthVerdict },
}

/// Why a child is stopped.
#[derive(Clone, Copy, Debug, PartialEq, Eq, Structural)]
pub enum StopReason {
    Exited,
    RestartRequested,
    Terminating,
    HealthFailed,
}

/// What the supervisor does on an event.
#[derive(Clone, Copy, Debug, PartialEq, Eq, Structural)]
pub enum LoopDecision {
    KeepRunning,
    /// Stop the child (if still running) for this reason.
    StopChild { reason: StopReason },
    /// Stop the child and the supervisor with an error (wrong release).
    Abort,
}

pub open spec fn spec_on_event(event: LoopEvent) -> LoopDecision {
    match event {
        LoopEvent::ChildExited => LoopDecision::StopChild { reason: StopReason::Exited },
        LoopEvent::RestartRequested => LoopDecision::StopChild { reason: StopReason::RestartRequested },
        LoopEvent::TerminationSignal => LoopDecision::StopChild { reason: StopReason::Terminating },
        LoopEvent::Health { verdict: HealthVerdict::Continue } => LoopDecision::KeepRunning,
        LoopEvent::Health { verdict: HealthVerdict::Restart } => LoopDecision::StopChild { reason: StopReason::HealthFailed },
        LoopEvent::Health { verdict: HealthVerdict::Fail } => LoopDecision::Abort,
    }
}

pub fn on_event(event: LoopEvent) -> (r: LoopDecision)
    ensures
        r == spec_on_event(event),
{
    match event {
        LoopEvent::ChildExited => LoopDecision::StopChild { reason: StopReason::Exited },
        LoopEvent::RestartRequested => LoopDecision::StopChild { reason: StopReason::RestartRequested },
        LoopEvent::TerminationSignal => LoopDecision::StopChild { reason: StopReason::Terminating },
        LoopEvent::Health { verdict: HealthVerdict::Continue } => LoopDecision::KeepRunning,
        LoopEvent::Health { verdict: HealthVerdict::Restart } => LoopDecision::StopChild { reason: StopReason::HealthFailed },
        LoopEvent::Health { verdict: HealthVerdict::Fail } => LoopDecision::Abort,
    }
}

/// What follows a stopped child.
#[derive(Clone, Copy, Debug, PartialEq, Eq, Structural)]
pub enum AfterStop {
    /// Re-check the environment and start the next child.
    StartNext,
    /// Request the final checkpoint and leave the loop.
    FinalCheckpoint,
}

pub open spec fn spec_after_stop(reason: StopReason) -> AfterStop {
    if reason == StopReason::Terminating {
        AfterStop::FinalCheckpoint
    } else {
        AfterStop::StartNext
    }
}

pub fn after_stop(reason: StopReason) -> (r: AfterStop)
    ensures
        r == spec_after_stop(reason),
{
    match reason {
        StopReason::Terminating => AfterStop::FinalCheckpoint,
        _ => AfterStop::StartNext,
    }
}

/// The supervisor's exit after termination: successful exactly when the
/// final checkpoint succeeded (or none was configured).
pub fn termination_outcome(final_checkpoint_ok: bool) -> (r: Result<(), ()>)
    ensures
        r is Ok <==> final_checkpoint_ok,
{
    if final_checkpoint_ok {
        Ok(())
    } else {
        Err(())
    }
}

/// Only termination leads to a checkpoint request: restarts, whether asked
/// for, caused by the child's exit or by failed health checks, start the
/// next child without one; termination requests it and ends the loop.
pub proof fn law_only_termination_checkpoints(event: LoopEvent)
    ensures
        spec_on_event(event) matches LoopDecision::StopChild { reason } ==> (spec_after_stop(reason)
            == AfterStop::FinalCheckpoint <==> event == LoopEvent::TerminationSignal),
        event == LoopEvent::RestartRequested ==> spec_on_event(event) == (LoopDecision::StopChild {
            reason: StopReason::RestartRequested,
        }) && spec_after_stop(StopReason::RestartRequested) == AfterStop::StartNext,
{
}

} // verus!

verus! {

/* Messages */

impl Binary {
    pub open spec fn spec_name(self) -> Seq<char> {
        match self {
            Binary::OpenCode => "OpenCode"@,
            Binary::Direnv => "direnv"@,
        }
    }

    /// How messages name the binary.
    pub fn name(&self) -> (r: &'static str)
        ensures
            r@ == self.spec_name(),
    {
        match self {
            Binary::OpenCode => "OpenCode",
            Binary::Direnv => "direnv",
        }
    }
}

impl SupervisorError {
    pub open spec fn spec_message(self) -> Seq<char> {
        match self {
            SupervisorError::ControlTokenRequired => "supervisor control token is required"@,
            SupervisorError::WorkspaceMissing => "workspace directory does not exist"@,
            SupervisorError::BinaryUnreadable { binary } => "inspect injected "@ + binary.spec_name() + " binary"@,
            SupervisorError::BinaryNotExecutable { binary } => "injected "@ + binary.spec_name() + " is not executable"@,
            SupervisorError::VersionNotPinned => "expected version must equal crate pin "@ + PINNED_OPENCODE_VERSION@,
            SupervisorError::ListenNotAllowed => "control API must bind to IPv4 loopback or the Pod network interface"@,
            SupervisorError::CheckpointPairing => "checkpoint sidecar URL and token must be configured together"@,
            SupervisorError::CheckpointUrlInvalid => "checkpoint sidecar URL is invalid"@,
            SupervisorError::CheckpointUrlNotLoopback => "checkpoint sidecar URL must be an unauthenticated HTTP loopback URL"@,
            SupervisorError::CheckpointTokenMissing => "checkpoint sidecar token is not configured"@,
        }
    }

    /// The message the error is reported with.
    pub fn message(&self) -> (r: String)
        ensures
            r@ == self.spec_message(),
    {
        match self {
            SupervisorError::ControlTokenRequired => "supervisor control token is required".to_owned(),
            SupervisorError::WorkspaceMissing => "workspace directory does not exist".to_owned(),
            SupervisorError::BinaryUnreadable { binary } => {
                let head = crate::text::concat_str("inspect injected ", binary.name());
                crate::text::concat_str(head.as_str(), " binary")
            },
            SupervisorError::BinaryNotExecutable { binary } => {
                let head = crate::text::concat_str("injected ", binary.name());
                crate::text::concat_str(head.as_str(), " is not executable")
            },
            SupervisorError::VersionNotPinned => crate::text::concat_str(
                "expected version must equal crate pin ",
                PINNED_OPENCODE_VERSION,
            ),
            SupervisorError::ListenNotAllowed => "control API must bind to IPv4 loopback or the Pod network interface".to_owned(),
            SupervisorError::CheckpointPairing => "checkpoint sidecar URL and token must be configured together".to_owned(),
            SupervisorError::CheckpointUrlInvalid => "checkpoint sidecar URL is invalid".to_owned(),
            SupervisorError::CheckpointUrlNotLoopback => "checkpoint sidecar URL must be an unauthenticated HTTP loopback URL".to_owned(),
            SupervisorError::CheckpointTokenMissing => "checkpoint sidecar token is not configured".to_owned(),
        }
    }
}

impl VersionCheckError {
    pub open spec fn spec_message(self, expected: Seq<char>) -> Seq<char> {
        match self {
            VersionCheckError::Failed { stderr } => "injected OpenCode --version failed: "@ + stderr@,
            VersionCheckError::Mismatch { observed } => "injected OpenCode version mismatch: expected "@ + expected
                + ", observed "@ + match observed {
                Some(o) => o@,
                None => "unknown"@,
            },
        }
    }

    /// The message the error is reported with, for the expected version.
    pub fn message(&self, expected: &str) -> (r: String)
        ensures
            r@ == self.spec_message(expected@),
    {
        match self {
            VersionCheckError::Failed { stderr } => crate::text::concat_str(
                "injected OpenCode --version failed: ",
                stderr.as_str(),
            ),
            VersionCheckError::Mismatch { observed } => {
                let head = crate::text::concat_str("injected OpenCode version mismatch: expected ", expected);
                let head = crate::text::concat_str(head.as_str(), ", observed ");
                match observed {
                    Some(o) => crate::text::concat_str(head.as_str(), o.as_str()),
                    None => crate::text::concat_str(head.as_str(), "unknown"),
                }
            },
        }
    }
}

impl HealthError {
    pub open spec fn spec_message(self, expected: Seq<char>, status: Seq<char>) -> Seq<char> {
        match self {
            HealthError::RequestFailed => "request child health"@,
            HealthError::BadStatus => "child health returned "@ + status,
            HealthError::InvalidBody => "parse child health response"@,
            HealthError::Unhealthy => "child reports unhealthy"@,
            HealthError::MissingVersion => "child health response omitted version"@,
            HealthError::VersionMismatch { observed } => "child OpenCode version mismatch: expected "@ + expected
                + ", observed "@ + observed@,
        }
    }

    /// The message the error is reported with, for the expected version and
    /// the HTTP status the child answered.
    pub fn message(&self, expected: &str, status: &str) -> (r: String)
        ensures
            r@ == self.spec_message(expected@, status@),
    {
        match self {
            HealthError::RequestFailed => "request child health".to_owned(),
            HealthError::BadStatus => crate::text::concat_str("child health returned ", status),
            HealthError::InvalidBody => "parse child health response".to_owned(),
            HealthError::Unhealthy => "child reports unhealthy".to_owned(),
            HealthError::MissingVersion => "child health response omitted version".to_owned(),
            HealthError::VersionMismatch { observed } => {
                let head = crate::text::concat_str("child OpenCode version mismatch: expected ", expected);
                let head = crate::text::concat_str(head.as_str(), ", observed ");
                crate::text::concat_str(head.as_str(), observed.as_str())
            },
        }
    }
}

/// An injected binary is accepted exactly when it is a regular file with at
/// least one execute bit (owner, group or others); an unreadable one and a
/// non-executable one are refused with their own errors.
pub proof fn law_executable_needs_an_execute_bit(facts: Option<FileFacts>, binary: Binary)
    ensures
        spec_ensure_executable(facts, binary) is Ok <==> (facts matches Some(f) && f.is_file && (f.mode & 64u32 != 0
            || f.mode & 8u32 != 0 || f.mode & 1u32 != 0)),
        facts is None ==> spec_ensure_executable(facts, binary) == Err::<(), SupervisorError>(
            SupervisorError::BinaryUnreadable { binary },
        ),
{
    match facts {
        Some(f) => {
            let m = f.mode;
            assert((m & 73u32 != 0) <==> (m & 64u32 != 0 || m & 8u32 != 0 || m & 1u32 != 0)) by (bit_vector);
        },
        None => {},
    }
}

/// The control API listens only on IPv4: on any loopback address or on all
/// interfaces; any other IPv4 address, any IPv6 address and an address that
/// does not parse are refused.
pub proof fn law_control_listen_is_loopback_or_all(a: u8, b: u8, c: u8, d: u8)
    ensures
        spec_listen_ip_allowed(Some(SocketIp::V4 { a: 127, b, c, d })),
        spec_listen_ip_allowed(Some(SocketIp::V4 { a: 0, b: 0, c: 0, d: 0 })),
        (a != 127 && a != 0) ==> !spec_listen_ip_allowed(Some(SocketIp::V4 { a, b, c, d })),
        !spec_listen_ip_allowed(Some(SocketIp::V6)),
        !spec_listen_ip_allowed(None),
{
}

} // verus!
