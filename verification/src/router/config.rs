use vstd::prelude::*;

use crate::gateway::state::opt_view;
use crate::text::parse_unsigned;

verus! {

/// Settings of the sandbox router.
#[derive(Clone, Debug)]
pub struct Config {
    pub proxy_addr: String,
    pub health_addr: String,
    pub namespace: Option<String>,
    pub label_key: String,
    pub log_level: String,
    pub connect_timeout_ms: u64,
    pub max_header_bytes: usize,
    pub base_domain: Option<String>,
    pub header_timeout_ms: u64,
    pub max_connections: usize,
}

/// The raw environment variables the router reads (`None` when unset or not Unicode).
#[derive(Clone, Debug)]
pub struct RouterEnvironment {
    pub proxy_addr: Option<String>,
    pub health_addr: Option<String>,
    pub namespace: Option<String>,
    pub label_key: Option<String>,
    pub log_level: Option<String>,
    pub connect_timeout_ms: Option<String>,
    pub max_header_bytes: Option<String>,
    pub base_domain: Option<String>,
    pub header_timeout_ms: Option<String>,
    pub max_connections: Option<String>,
}

/// The variable's value, or `default` when unset.
pub open spec fn or_default(v: Option<Seq<char>>, default: Seq<char>) -> Seq<char> {
    match v {
        Some(s) => s,
        None => default,
    }
}

/// The variable's value when set and non-empty.
pub open spec fn non_empty(v: Option<Seq<char>>) -> Option<Seq<char>> {
    match v {
        Some(s) => if s.len() > 0 {
            Some(s)
        } else {
            None
        },
        None => None,
    }
}

/// The number the variable holds, or `default` when unset or not a number that fits.
pub open spec fn number_or(v: Option<Seq<char>>, max: nat, default: nat) -> nat {
    match v {
        Some(s) => match parse_unsigned(s, max) {
            Some(n) => n,
            None => default,
        },
        None => default,
    }
}

fn text_or(v: Option<String>, default: &str) -> (r: String)
    ensures
        r@ == or_default(opt_view(v), default@),
{
    match v {
        Some(s) => s,
        None => default.to_owned(),
    }
}

fn keep_non_empty(v: Option<String>) -> (r: Option<String>)
    ensures
        opt_view(r) == non_empty(opt_view(v)),
{
    match v {
        Some(s) => if s.as_str().is_empty() {
            None
        } else {
            Some(s)
        },
        None => None,
    }
}

fn number_or_exec(v: &Option<String>, max: u64, default: u64) -> (r: u64)
    requires
        default <= max,
    ensures
        r as nat == number_or(opt_view(*v), max as nat, default as nat),
        r <= max,
{
    match v {
        Some(s) => {
            let c = crate::text::to_chars(s.as_str());
            match crate::text::parse_unsigned_chars(&c, max) {
                Some(n) => n,
                None => default,
            }
        },
        None => default,
    }
}

impl Config {
    /// The router settings from its environment: addresses, namespace and
    /// label with defaults, numeric limits that fall back to their defaults
    /// when missing or invalid, and an optional base domain.
    pub fn from_environment(env: RouterEnvironment) -> (r: Config)
        ensures
            r.proxy_addr@ == or_default(opt_view(env.proxy_addr), "0.0.0.0:8080"@),
            r.health_addr@ == or_default(opt_view(env.health_addr), "0.0.0.0:9090"@),
            opt_view(r.namespace) == non_empty(opt_view(env.namespace)),
            r.label_key@ == or_default(opt_view(env.label_key), "opencode.dev/sandbox-id"@),
            r.log_level@ == or_default(opt_view(env.log_level), "info"@),
            r.connect_timeout_ms as nat == number_or(opt_view(env.connect_timeout_ms), u64::MAX as nat, 3000),
            r.max_header_bytes as nat == number_or(opt_view(env.max_header_bytes), usize::MAX as nat, 8192),
            opt_view(r.base_domain) == non_empty(opt_view(env.base_domain)),
            r.header_timeout_ms as nat == number_or(opt_view(env.header_timeout_ms), u64::MAX as nat, 10000),
            r.max_connections as nat == number_or(opt_view(env.max_connections), usize::MAX as nat, 1024),
    {
        let connect_timeout_ms = number_or_exec(&env.connect_timeout_ms, u64::MAX, 3000);
        let max_header_bytes = number_or_exec(&env.max_header_bytes, usize::MAX as u64, 8192) as usize;
        let header_timeout_ms = number_or_exec(&env.header_timeout_ms, u64::MAX, 10000);
        let max_connections = number_or_exec(&env.max_connections, usize::MAX as u64, 1024) as usize;
        Config {
            proxy_addr: text_or(env.proxy_addr, "0.0.0.0:8080"),
            health_addr: text_or(env.health_addr, "0.0.0.0:9090"),
            namespace: keep_non_empty(env.namespace),
            label_key: text_or(env.label_key, "opencode.dev/sandbox-id"),
            log_level: text_or(env.log_level, "info"),
            connect_timeout_ms,
            max_header_bytes,
            base_domain: keep_non_empty(env.base_domain),
            header_timeout_ms,
            max_connections,
        }
    }
}

} // verus!
