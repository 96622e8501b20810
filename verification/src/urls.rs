use vstd::prelude::*;

use crate::gateway::state::opt_view;

verus! {

/// The parts of a parsed URL (`url::Url`, as re-exported by `reqwest`) that
/// the platform inspects.
#[derive(Clone, Debug)]
pub struct UrlParts {
    pub scheme: String,
    pub host: Option<String>,
    pub username: String,
    pub password: Option<String>,
    pub query: Option<String>,
    pub fragment: Option<String>,
}

pub struct UrlPartsView {
    pub scheme: Seq<char>,
    pub host: Option<Seq<char>>,
    pub username: Seq<char>,
    pub password: Option<Seq<char>>,
    pub query: Option<Seq<char>>,
    pub fragment: Option<Seq<char>>,
}

impl View for UrlParts {
    type V = UrlPartsView;

    open spec fn view(&self) -> UrlPartsView {
        UrlPartsView {
            scheme: self.scheme@,
            host: opt_view(self.host),
            username: self.username@,
            password: opt_view(self.password),
            query: opt_view(self.query),
            fragment: opt_view(self.fragment),
        }
    }
}

/// What `reqwest::Url::parse` makes of `text` (`None` when it fails).
pub uninterp spec fn spec_parse_url(text: Seq<char>) -> Option<UrlPartsView>;

/// `reqwest::Url::parse`, reduced to the parts the platform inspects; the
/// contract only names the result as a function of the text.
#[verifier::external_body]
pub(crate) fn parse_url(text: &str) -> (r: Option<UrlParts>)
    ensures
        match r {
            Some(p) => spec_parse_url(text@) == Some(p@),
            None => spec_parse_url(text@) is None,
        },
{
    match reqwest::Url::parse(text) {
        Ok(url) => Some(UrlParts {
            scheme: url.scheme().to_owned(),
            host: url.host_str().map(str::to_owned),
            username: url.username().to_owned(),
            password: url.password().map(str::to_owned),
            query: url.query().map(str::to_owned),
            fragment: url.fragment().map(str::to_owned),
        }),
        Err(_) => None,
    }
}

/// The URL `reqwest::Url::join` resolves `reference` to against `base`
/// (`None` when `base` does not parse or the join fails).
pub uninterp spec fn spec_join_url(base: Seq<char>, reference: Seq<char>) -> Option<Seq<char>>;

/// `reqwest::Url::parse(base)` then `Url::join(reference)`, serialized; the
/// contract only names the result.
#[verifier::external_body]
pub(crate) fn join_url(base: &str, reference: &str) -> (r: Option<String>)
    ensures
        opt_view(r) == spec_join_url(base@, reference@),
{
    match reqwest::Url::parse(base) {
        Ok(url) => url.join(reference).ok().map(|joined| joined.to_string()),
        Err(_) => None,
    }
}

} // verus!
