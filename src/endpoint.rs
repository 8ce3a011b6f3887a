//! Resolution of an endpoint identifier to the URL to call and to the name of
//! the environment variable that holds the bearer credential.
use vstd::prelude::*;
use vstd::string::*;
use crate::error::QueryError;

verus! {

/// Value returned by `known_endpoints` for a name that is not recognised.
pub const DEFAULT_ENDPOINT: &'static str = "none";

/// The fixed URL of a recognised endpoint identifier, if it is one.
pub open spec fn known_url(name: Seq<char>) -> Option<Seq<char>> {
    if name == "openai"@ {
        Some("https://api.openai.com/v1/chat/completions"@)
    } else if name == "google"@ {
        Some("https://generativelanguage.googleapis.com/v1beta/chat/completions"@)
    } else if name == "hf"@ {
        Some("https://router.huggingface.co/v1/chat/completions"@)
    } else {
        None
    }
}

/// The URL that a request for `endpoint` goes to: the fixed URL of a
/// recognised identifier, and otherwise the string itself.
pub open spec fn endpoint_url(endpoint: Seq<char>) -> Seq<char> {
    match known_url(endpoint) {
        Some(url) => url,
        None => endpoint,
    }
}

/// The environment variable that holds the credential for `name`.
pub open spec fn credential_var(name: Seq<char>) -> Seq<char> {
    if name == "openai"@ {
        "API_TOKEN_OAI"@
    } else if name == "google"@ {
        "API_TOKEN_GOOGLE"@
    } else if name == "hf"@ {
        "API_TOKEN_HF"@
    } else {
        "API_TOKEN"@
    }
}

/// Whether two strings hold the same characters.
fn same_text(a: &str, b: &str) -> (r: bool)
    ensures
        r == (a@ == b@),
{
    a.to_owned() == b.to_owned()
}

/// Maps a recognised endpoint name to its URL, and any other string to
/// `DEFAULT_ENDPOINT`.
pub fn known_endpoints(name: &str) -> (r: &'static str)
    ensures
        known_url(name@) matches Some(url) ==> r@ == url,
        known_url(name@) is None ==> r@ == DEFAULT_ENDPOINT@,
{
    if same_text(name, "openai") {
        "https://api.openai.com/v1/chat/completions"
    } else if same_text(name, "google") {
        "https://generativelanguage.googleapis.com/v1beta/chat/completions"
    } else if same_text(name, "hf") {
        "https://router.huggingface.co/v1/chat/completions"
    } else {
        DEFAULT_ENDPOINT
    }
}

/// Maps an endpoint name to the environment variable that holds its API key;
/// every unrecognised name maps to `API_TOKEN`.
pub fn env_api_key(name: &str) -> (r: &'static str)
    ensures
        r@ == credential_var(name@),
{
    if same_text(name, "openai") {
        "API_TOKEN_OAI"
    } else if same_text(name, "google") {
        "API_TOKEN_GOOGLE"
    } else if same_text(name, "hf") {
        "API_TOKEN_HF"
    } else {
        "API_TOKEN"
    }
}

/// The URL to call for `endpoint`: the fixed URL of a recognised identifier,
/// otherwise `endpoint` itself, taken as a literal URL.
pub fn resolve_url(endpoint: &str) -> (r: &str)
    ensures
        r@ == endpoint_url(endpoint@),
{
    let known = known_endpoints(endpoint);
    proof {
        reveal_strlit("none");
        reveal_strlit("https://api.openai.com/v1/chat/completions");
        reveal_strlit("https://generativelanguage.googleapis.com/v1beta/chat/completions");
        reveal_strlit("https://router.huggingface.co/v1/chat/completions");
    }
    if same_text(known, DEFAULT_ENDPOINT) {
        endpoint
    } else {
        known
    }
}

/// The credential for `endpoint`, given what the environment holds under
/// its credential variable; an unset variable is a failure that names it.
pub fn credential_for(endpoint: &str, value: Option<String>) -> (r: Result<String, QueryError>)
    ensures
        value matches Some(v) ==> r == Ok::<String, QueryError>(v),
        value is None ==> (r matches Err(QueryError::MissingCredential { var }) && var@
            == credential_var(endpoint@)),
{
    match value {
        Some(v) => Ok(v),
        None => Err(QueryError::MissingCredential { var: env_api_key(endpoint).to_owned() }),
    }
}

/// Checks the token budget, which must be positive.
pub fn check_token_budget(tokens: u32) -> (r: Result<(), QueryError>)
    ensures
        tokens > 0 <==> r is Ok,
        tokens == 0 ==> r matches Err(QueryError::ZeroTokens),
{
    if tokens == 0 {
        Err(QueryError::ZeroTokens)
    } else {
        Ok(())
    }
}

/// The value of the `Authorization` header that carries `token`.
pub fn bearer_header(token: &str) -> (r: String)
    ensures
        r@ == "Bearer "@ + token@,
{
    let mut out = "Bearer ".to_owned();
    out.append(token);
    out
}

} // verus!
