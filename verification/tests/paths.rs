use mastotui::paths::{
    api_url, apps_path, favourite_path, lists_path, oauth_authorize_url, oauth_token_url,
    reblog_path, status_path, timeline_home_path, timeline_list_path, timeline_local_path,
    timeline_public_path,
};

#[test]
fn timeline_home_path_without_max_id() {
    let path = timeline_home_path(None);
    assert!(path.contains("timelines/home"));
    assert!(path.contains("limit=20"));
}

#[test]
fn timeline_home_path_with_max_id() {
    let path = timeline_home_path(Some("123"));
    assert!(path.contains("max_id=123"));
}

#[test]
fn post_status_path() {
    assert_eq!(mastotui::paths::post_status_path(), "/statuses");
}

#[test]
fn reblog_path_format() {
    let id = "42";
    assert_eq!(reblog_path(id, true), "/statuses/42/reblog");
    assert_eq!(reblog_path(id, false), "/statuses/42/unreblog");
}

#[test]
fn favourite_path_format() {
    let id = "42";
    assert_eq!(favourite_path(id, true), "/statuses/42/favourite");
    assert_eq!(favourite_path(id, false), "/statuses/42/unfavourite");
}

#[test]
fn get_status_path_format() {
    let id = "99";
    assert_eq!(status_path(id), "/statuses/99");
}

#[test]
fn token_exchange_uses_oauth_token_endpoint() {
    let token_url = oauth_token_url("https://mastodon.social");
    assert!(token_url.ends_with("/oauth/token"));
    assert_eq!(token_url, "https://mastodon.social/oauth/token");
}

#[test]
fn token_endpoint_drops_trailing_slash() {
    assert_eq!(
        oauth_token_url("https://mastodon.social/"),
        "https://mastodon.social/oauth/token"
    );
    assert_eq!(
        oauth_authorize_url("https://mastodon.social//"),
        "https://mastodon.social/oauth/authorize"
    );
}

#[test]
fn api_url_joins_base_and_path() {
    assert_eq!(
        api_url("https://example.com", "/statuses"),
        "https://example.com/api/v1/statuses"
    );
    assert_eq!(api_url("https://example.com", &apps_path()), "https://example.com/api/v1/apps");
}

#[test]
fn scoped_timeline_paths() {
    assert_eq!(timeline_public_path(None), "/timelines/public?limit=20");
    assert_eq!(timeline_public_path(Some("7")), "/timelines/public?limit=20&max_id=7");
    assert_eq!(timeline_local_path(None), "/timelines/public?limit=20&local=true");
    assert_eq!(
        timeline_local_path(Some("9")),
        "/timelines/public?limit=20&local=true&max_id=9"
    );
    assert_eq!(timeline_list_path("5", None), "/timelines/list/5?limit=20");
    assert_eq!(timeline_list_path("5", Some("3")), "/timelines/list/5?limit=20&max_id=3");
    assert_eq!(lists_path(), "/lists");
}
