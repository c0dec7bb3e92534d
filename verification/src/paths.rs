//! The request paths and OAuth endpoints of the remote service, built as
//! plain strings. The runner appends them to the instance URL when it
//! performs the actual HTTP calls.

use crate::strutil::{spec_trim_slashes, trim_trailing_slashes};
use vstd::prelude::*;
use vstd::string::*;

verus! {

/// Join an instance base URL and a request path under the service's API
/// prefix.
pub fn api_url(base_url: &str, path: &str) -> (r: String)
    ensures
        r@ == base_url@ + "/api/v1"@ + path@,
{
    String::from_str(base_url).concat("/api/v1").concat(path)
}

/// The authenticated home-feed path, with the pagination cursor when a
/// page of strictly older items is wanted.
pub fn timeline_home_path(max_id: Option<&str>) -> (r: String)
    ensures
        match max_id {
            None => r@ == "/timelines/home?limit=20"@,
            Some(id) => r@ == "/timelines/home?limit=20&max_id="@ + id@,
        },
{
    match max_id {
        None => String::from_str("/timelines/home?limit=20"),
        Some(id) => String::from_str("/timelines/home?limit=20&max_id=").concat(id),
    }
}

/// The instance-local public-feed path.
pub fn timeline_local_path(max_id: Option<&str>) -> (r: String)
    ensures
        match max_id {
            None => r@ == "/timelines/public?limit=20&local=true"@,
            Some(id) => r@ == "/timelines/public?limit=20&local=true&max_id="@ + id@,
        },
{
    match max_id {
        None => String::from_str("/timelines/public?limit=20&local=true"),
        Some(id) => String::from_str("/timelines/public?limit=20&local=true&max_id=").concat(id),
    }
}

/// The federated public-feed path; also reachable anonymously.
pub fn timeline_public_path(max_id: Option<&str>) -> (r: String)
    ensures
        match max_id {
            None => r@ == "/timelines/public?limit=20"@,
            Some(id) => r@ == "/timelines/public?limit=20&max_id="@ + id@,
        },
{
    match max_id {
        None => String::from_str("/timelines/public?limit=20"),
        Some(id) => String::from_str("/timelines/public?limit=20&max_id=").concat(id),
    }
}

/// The path of a list-scoped feed.
pub fn timeline_list_path(list_id: &str, max_id: Option<&str>) -> (r: String)
    ensures
        match max_id {
            None => r@ == "/timelines/list/"@ + list_id@ + "?limit=20"@,
            Some(id) => r@ == "/timelines/list/"@ + list_id@ + "?limit=20&max_id="@ + id@,
        },
{
    match max_id {
        None => String::from_str("/timelines/list/").concat(list_id).concat("?limit=20"),
        Some(id) => String::from_str("/timelines/list/").concat(list_id).concat(
            "?limit=20&max_id=",
        ).concat(id),
    }
}

/// The path a new status is posted to.
pub fn post_status_path() -> (r: String)
    ensures
        r@ == "/statuses"@,
{
    String::from_str("/statuses")
}

/// The path of a single status.
pub fn status_path(id: &str) -> (r: String)
    ensures
        r@ == "/statuses/"@ + id@,
{
    String::from_str("/statuses/").concat(id)
}

/// The path that sets or clears a boost on a status.
pub fn reblog_path(id: &str, reblog: bool) -> (r: String)
    ensures
        reblog ==> r@ == "/statuses/"@ + id@ + "/reblog"@,
        !reblog ==> r@ == "/statuses/"@ + id@ + "/unreblog"@,
{
    if reblog {
        String::from_str("/statuses/").concat(id).concat("/reblog")
    } else {
        String::from_str("/statuses/").concat(id).concat("/unreblog")
    }
}

/// The path that sets or clears a favourite on a status.
pub fn favourite_path(id: &str, favourite: bool) -> (r: String)
    ensures
        favourite ==> r@ == "/statuses/"@ + id@ + "/favourite"@,
        !favourite ==> r@ == "/statuses/"@ + id@ + "/unfavourite"@,
{
    if favourite {
        String::from_str("/statuses/").concat(id).concat("/favourite")
    } else {
        String::from_str("/statuses/").concat(id).concat("/unfavourite")
    }
}

/// The path that enumerates the viewer's lists.
pub fn lists_path() -> (r: String)
    ensures
        r@ == "/lists"@,
{
    String::from_str("/lists")
}

/// The path an OAuth application registration is posted to.
pub fn apps_path() -> (r: String)
    ensures
        r@ == "/apps"@,
{
    String::from_str("/apps")
}

/// The authorization endpoint of an instance.
pub fn oauth_authorize_url(instance_url: &str) -> (r: String)
    ensures
        r@ == spec_trim_slashes(instance_url@) + "/oauth/authorize"@,
{
    String::from_str(trim_trailing_slashes(instance_url)).concat("/oauth/authorize")
}

/// The token endpoint of an instance: where authorization codes are
/// exchanged.
pub fn oauth_token_url(instance_url: &str) -> (r: String)
    ensures
        r@ == spec_trim_slashes(instance_url@) + "/oauth/token"@,
{
    String::from_str(trim_trailing_slashes(instance_url)).concat("/oauth/token")
}

} // verus!
