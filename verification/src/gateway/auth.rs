use vstd::prelude::*;

use crate::gateway::config::AuthConfig;
use crate::headers::{constant_time_eq, spec_bearer, Headers};
use crate::text::{is_control, trim};

verus! {

/// Authenticates users and the internal adapter token.
#[derive(Clone, Debug)]
pub struct Authenticator {
    pub config: AuthConfig,
    /// The trimmed internal service token, when one is configured.
    pub internal_token: Option<String>,
}

/// Why the authenticator could not be built.
#[derive(Clone, Copy, Debug, PartialEq, Eq, Structural)]
pub enum AuthError {
    /// An internal token file is configured but its content was not supplied.
    TokenUnavailable,
    /// The internal token file is empty after trimming whitespace.
    EmptyToken,
}

/// The identity `validate_identity` accepts for `value`: the trimmed text, when
/// it is non-empty, at most 254 bytes of UTF-8, and free of control characters.
pub open spec fn accepted_identity(value: Seq<char>) -> Option<Seq<char>> {
    let t = trim(value);
    if t.len() == 0 || vstd::utf8::encode_utf8(t).len() > 254 || exists|i: int|
        0 <= i < t.len() && is_control(#[trigger] t[i]) {
        None
    } else {
        Some(t)
    }
}

/// Checks an authenticated identity and returns it trimmed.
pub fn validate_identity(value: &str) -> (r: Result<String, &'static str>)
    ensures
        match r {
            Ok(s) => accepted_identity(value@) == Some(s@),
            Err(m) => accepted_identity(value@) is None && m@ == "invalid authenticated identity"@,
        },
{
    let t = crate::text::trim_str(value);
    let mut has_control = false;
    let mut i: usize = 0;
    while i < t.len()
        invariant
            i <= t@.len(),
            has_control == exists|k: int| 0 <= k < i && is_control(#[trigger] t@[k]),
        decreases t@.len() - i,
    {
        if crate::text::char_is_control(t[i]) {
            has_control = true;
        }
        i = i + 1;
    }
    if t.len() == 0 || crate::text::utf8_len_exceeds(&t, 254) || has_control {
        return Err("invalid authenticated identity");
    }
    Ok(crate::text::from_chars(t.as_slice()))
}

/// Trimming is idempotent, so a validated identity validates to itself.
pub proof fn law_validated_identity_is_stable(value: Seq<char>)
    ensures
        accepted_identity(value) matches Some(t) ==> accepted_identity(t) == Some(t),
{
    let t = trim(value);
    if accepted_identity(value) is Some {
        lemma_trim_of_trimmed(value);
    }
}

proof fn lemma_trim_of_trimmed(value: Seq<char>)
    requires
        trim(value).len() > 0,
    ensures
        trim(trim(value)) == trim(value),
{
    let a = crate::text::trim_start(value);
    crate::text::lemma_ws_prefix_bound(value);
    let p = crate::text::ws_prefix_len(value);
    if p < value.len() {
        assert(!crate::text::is_whitespace(value[p as int])) by {
            lemma_ws_prefix_stops(value);
        }
    }
    crate::text::lemma_ws_suffix_bound(a);
    let q = crate::text::ws_suffix_len(a);
    let t = trim(value);
    assert(t == a.take(a.len() - q));
    assert(a[0] == value[p as int]);
    assert(t[0] == a[0]);
    crate::text::lemma_ws_prefix_len(t, 0);
    assert(crate::text::trim_start(t) =~= t);
    assert(!crate::text::is_whitespace(a[a.len() - q - 1])) by {
        lemma_ws_suffix_stops(a);
    }
    assert(t[t.len() - 1] == a[a.len() - q - 1]);
    crate::text::lemma_ws_suffix_len(t, 0);
    assert(crate::text::trim_end(t) =~= t);
}

proof fn lemma_ws_prefix_stops(s: Seq<char>)
    requires
        crate::text::ws_prefix_len(s) < s.len(),
    ensures
        !crate::text::is_whitespace(s[crate::text::ws_prefix_len(s) as int]),
    decreases s.len(),
{
    if s.len() > 0 && crate::text::is_whitespace(s[0]) {
        lemma_ws_prefix_stops(s.drop_first());
    }
}

proof fn lemma_ws_suffix_stops(s: Seq<char>)
    requires
        crate::text::ws_suffix_len(s) < s.len(),
    ensures
        !crate::text::is_whitespace(s[s.len() - crate::text::ws_suffix_len(s) - 1]),
    decreases s.len(),
{
    if s.len() > 0 && crate::text::is_whitespace(s.last()) {
        lemma_ws_suffix_stops(s.drop_last());
    }
}

/// The internal token file configured, if any.
pub open spec fn token_file(config: AuthConfig) -> Option<String> {
    match config {
        AuthConfig::TrustedHeader { internal_token_file, .. } => internal_token_file,
        AuthConfig::Development { internal_token_file, .. } => internal_token_file,
    }
}

/// What `Authenticator::new` makes of the configuration and the token file's content.
pub open spec fn new_outcome(config: AuthConfig, token_file_text: Option<Seq<char>>) -> Result<Option<Seq<char>>, AuthError> {
    match token_file(config) {
        None => Ok(None),
        Some(_) => match token_file_text {
            None => Err(AuthError::TokenUnavailable),
            Some(text) => if trim(text).len() == 0 {
                Err(AuthError::EmptyToken)
            } else {
                Ok(Some(trim(text)))
            },
        },
    }
}

impl Authenticator {
    /// Builds the authenticator. `token_file_text` is the content of the
    /// configured internal token file (read by the caller); it is ignored when
    /// no token file is configured.
    pub fn new(config: &AuthConfig, token_file_text: Option<&str>) -> (r: Result<Self, AuthError>)
        ensures
            match r {
                Ok(a) => a.config == *config && new_outcome(
                    *config,
                    match token_file_text {
                        Some(t) => Some(t@),
                        None => None,
                    },
                ) == Ok::<Option<Seq<char>>, AuthError>(
                    crate::gateway::state::opt_view(a.internal_token),
                ),
                Err(e) => new_outcome(
                    *config,
                    match token_file_text {
                        Some(t) => Some(t@),
                        None => None,
                    },
                ) == Err::<Option<Seq<char>>, AuthError>(e),
            },
    {
        let configured = match config {
            AuthConfig::TrustedHeader { internal_token_file, .. } => internal_token_file.is_some(),
            AuthConfig::Development { internal_token_file, .. } => internal_token_file.is_some(),
        };
        let internal_token = if configured {
            match token_file_text {
                None => return Err(AuthError::TokenUnavailable),
                Some(text) => {
                    let t = crate::text::trim_str(text);
                    if t.len() == 0 {
                        return Err(AuthError::EmptyToken);
                    }
                    Some(crate::text::from_chars(t.as_slice()))
                },
            }
        } else {
            None
        };
        Ok(Authenticator { config: config.clone_config(), internal_token })
    }

    /// The identity a request acts as.
    pub open spec fn spec_identity(&self, headers: Headers) -> Result<Seq<char>, Seq<char>> {
        let raw = match self.config {
            AuthConfig::Development { user, .. } => Some(user@),
            AuthConfig::TrustedHeader { identity_header, .. } => headers.spec_get(identity_header@),
        };
        match raw {
            None => Err("missing authenticated identity"@),
            Some(v) => match accepted_identity(v) {
                Some(t) => Ok(t),
                None => Err("invalid authenticated identity"@),
            },
        }
    }

    /// The authenticated identity: the configured development user, or the
    /// trusted identity header, validated by `validate_identity`.
    pub fn identity(&self, headers: &Headers) -> (r: Result<String, &'static str>)
        ensures
            match r {
                Ok(s) => self.spec_identity(*headers) == Ok::<Seq<char>, Seq<char>>(s@),
                Err(m) => self.spec_identity(*headers) == Err::<Seq<char>, Seq<char>>(m@),
            },
    {
        match &self.config {
            AuthConfig::Development { user, .. } => validate_identity(user.as_str()),
            AuthConfig::TrustedHeader { identity_header, .. } => {
                match headers.get(identity_header.as_str()) {
                    None => Err("missing authenticated identity"),
                    Some(v) => validate_identity(v.as_str()),
                }
            },
        }
    }

    /// The request carries `Authorization: Bearer <token>` with the configured internal token.
    pub open spec fn spec_is_internal(&self, headers: Headers) -> bool {
        match (self.internal_token, spec_bearer(headers)) {
            (Some(expected), Some(candidate)) => candidate == expected@,
            _ => false,
        }
    }

    /// Whether the request is made by the internal adapter (constant-time compare).
    pub fn is_internal(&self, headers: &Headers) -> (r: bool)
        ensures
            r == self.spec_is_internal(*headers),
    {
        let expected = match &self.internal_token {
            Some(t) => t,
            None => return false,
        };
        let candidate = match crate::headers::bearer_token(headers) {
            Some(c) => c,
            None => return false,
        };
        let candidate = crate::text::from_chars(candidate.as_slice());
        let r = constant_time_eq(candidate.as_str().as_bytes(), expected.as_str().as_bytes());
        proof {
            vstd::utf8::encode_utf8_decode_utf8(candidate@);
            vstd::utf8::encode_utf8_decode_utf8(expected@);
        }
        r
    }
}

impl AuthConfig {
    /// A copy of the configuration.
    pub fn clone_config(&self) -> (r: AuthConfig)
        ensures
            r == *self,
    {
        match self {
            AuthConfig::TrustedHeader { identity_header, internal_token_file } => AuthConfig::TrustedHeader {
                identity_header: identity_header.clone(),
                internal_token_file: internal_token_file.clone(),
            },
            AuthConfig::Development { user, internal_token_file } => AuthConfig::Development {
                user: user.clone(),
                internal_token_file: internal_token_file.clone(),
            },
        }
    }
}

} // verus!

verus! {

impl AuthError {
    pub open spec fn spec_message(self) -> Seq<char> {
        match self {
            AuthError::TokenUnavailable => "auth.internalTokenFile could not be read"@,
            AuthError::EmptyToken => "auth.internalTokenFile must not be empty"@,
        }
    }

    /// The message the error is reported with.
    pub fn message(&self) -> (r: &'static str)
        ensures
            r@ == self.spec_message(),
    {
        match self {
            AuthError::TokenUnavailable => "auth.internalTokenFile could not be read",
            AuthError::EmptyToken => "auth.internalTokenFile must not be empty",
        }
    }
}

} // verus!
