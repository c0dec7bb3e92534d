//! Non-secret configuration: the chosen instance URL and the public OAuth
//! client id. Reading and writing the file is the runner's work; the
//! library owns the value and its invariant.

use crate::strutil::{spec_trim_slashes, trim_trailing_slashes};
use vstd::prelude::*;
use vstd::string::*;

verus! {

/// Non-sensitive configuration persisted to disk. Secrets (access token,
/// client secret) never live here; they go to the platform secret store.
#[derive(Debug)]
pub struct AppConfig {
    /// Instance base URL, kept without a trailing slash; it is the join
    /// key that scopes per-instance secrets.
    pub instance_url: String,
    /// OAuth app client id; public, safe in the config file.
    pub client_id: String,
}

/// `spec_trim_slashes` leaves nothing ending in `'/'`.
proof fn lemma_trim_slashes_canonical(s: Seq<char>)
    ensures
        spec_trim_slashes(s).len() > 0 ==> spec_trim_slashes(s).last() != '/',
    decreases s.len(),
{
    if s.len() > 0 && s.last() == '/' {
        lemma_trim_slashes_canonical(s.drop_last());
    }
}

impl AppConfig {
    /// The invariant of a stored configuration: the instance URL is in its
    /// canonical, no-trailing-slash form.
    pub open spec fn wf(&self) -> bool {
        self.instance_url@.len() > 0 ==> self.instance_url@.last() != '/'
    }

    /// Build a configuration, canonicalising the instance URL.
    pub fn new(instance_url: &str, client_id: &str) -> (r: AppConfig)
        ensures
            r.instance_url@ == spec_trim_slashes(instance_url@),
            r.client_id@ == client_id@,
            r.wf(),
    {
        proof {
            lemma_trim_slashes_canonical(instance_url@);
        }
        AppConfig {
            instance_url: String::from_str(trim_trailing_slashes(instance_url)),
            client_id: String::from_str(client_id),
        }
    }

    /// An equal copy.
    pub fn dup(&self) -> (r: AppConfig)
        ensures
            r == self,
    {
        AppConfig { instance_url: self.instance_url.clone(), client_id: self.client_id.clone() }
    }
}

impl Clone for AppConfig {
    fn clone(&self) -> (r: AppConfig)
        ensures
            r == self,
    {
        self.dup()
    }
}

/// Whether a stored registration can be reused when a login flow begins
/// for `instance_url`: a client secret must be held for the host and the
/// persisted configuration must name the same instance with a non-empty
/// client id. When the two stores disagree (one deleted independently of
/// the other), registering anew is the defined recovery.
pub fn can_reuse_registration(
    config: &Option<AppConfig>,
    has_secret: bool,
    instance_url: &str,
) -> (r: bool)
    ensures
        r == (has_secret && (config matches Some(c) && c.instance_url@ == instance_url@
            && c.client_id@.len() > 0)),
{
    if !has_secret {
        return false;
    }
    match config {
        Some(c) => crate::strutil::str_eq(c.instance_url.as_str(), instance_url)
            && !c.client_id.as_str().is_empty(),
        None => false,
    }
}

/// The path of the configuration file inside the given configuration
/// directory.
pub fn config_path(config_dir: &str) -> (r: String)
    ensures
        r@ == config_dir@ + "/config.toml"@,
{
    String::from_str(config_dir).concat("/config.toml")
}

} // verus!
