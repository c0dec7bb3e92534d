//! Keys and host scoping for the platform secret store. The store itself
//! is an outside collaborator driven by the runner; the library computes
//! the keys and extracts the host that scopes them.

use crate::error::MastotuiError;
use vstd::prelude::*;
use vstd::string::*;

verus! {

/// Names the host component that `url::Url::parse` finds in a string:
/// `None` when the string is not an absolute URL or the URL has no host.
/// The result depends on the characters alone.
pub uninterp spec fn url_host(s: Seq<char>) -> Option<Seq<char>>;

/// Relies on `url::Url::parse` and `url::Url::host_str`: parses an
/// absolute URL and hands back its host component, or the parse error's
/// text when the string is not an absolute URL.
#[verifier::external_body]
fn parse_url_host(s: &str) -> (r: Result<Option<String>, String>)
    ensures
        match r {
            Ok(Some(h)) => url_host(s@) == Some(h@),
            Ok(None) => url_host(s@) is None,
            Err(_) => url_host(s@) is None,
        },
{
    match url::Url::parse(s) {
        Ok(u) => Ok(u.host_str().map(|h| h.to_owned())),
        Err(e) => Err(e.to_string()),
    }
}

/// Extract the host of an instance URL; it scopes every per-instance
/// secret. A string without a parseable host is rejected.
pub fn instance_host_from_url(instance_url: &str) -> (r: Result<String, MastotuiError>)
    ensures
        match r {
            Ok(h) => url_host(instance_url@) == Some(h@),
            Err(e) => url_host(instance_url@) is None && e is Config,
        },
{
    match parse_url_host(instance_url) {
        Ok(Some(h)) => Ok(h),
        Ok(None) => Err(MastotuiError::Config(String::from_str("Instance URL has no host"))),
        Err(m) => Err(MastotuiError::Config(m)),
    }
}

/// The secret-store account key under which the bearer access token of a
/// host is kept.
pub fn account_key(instance_host: &str) -> (r: String)
    ensures
        r@ == instance_host@ + "@oauth"@,
{
    String::from_str(instance_host).concat("@oauth")
}

/// The secret-store account key under which the OAuth client secret of a
/// host is kept.
pub fn client_secret_key(instance_host: &str) -> (r: String)
    ensures
        r@ == instance_host@ + "@client_secret"@,
{
    String::from_str(instance_host).concat("@client_secret")
}

} // verus!
