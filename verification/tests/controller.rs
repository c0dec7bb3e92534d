use mastotui::app::{
    App, Command, Key, ListsOutcome, LoadOutcome, LoadPlan, PostOutcome, Screen,
    StartLoginOutcome, TimelineSelection, ToggleKind, ToggleOutcome, should_auto_fetch_timeline,
};
use mastotui::app::ExchangeOutcome;
use mastotui::config::AppConfig;
use mastotui::types::{Account, Status};

fn account(handle: &str) -> Account {
    Account {
        id: "1".to_string(),
        display_name: handle.to_string(),
        username: handle.to_string(),
        acct: handle.to_string(),
        url: None,
    }
}

fn status(id: &str) -> Status {
    Status {
        id: id.to_string(),
        uri: format!("https://example.com/{id}"),
        content: format!("<p>toot {id}</p>"),
        account: account("ada"),
        created_at: "2024-01-01".to_string(),
        visibility: None,
        reblog: None,
        favourited: None,
        reblogged: None,
        in_reply_to_id: None,
        in_reply_to_account_id: None,
    }
}

fn fresh_app() -> App {
    App::new(None, false)
}

fn timeline_app() -> App {
    let mut app = App::new(Some(AppConfig::new("https://example.com", "cid")), true);
    assert_eq!(app.screen, Screen::Timeline);
    assert!(app.has_client);
    app.statuses = vec![status("5"), status("4"), status("3"), status("2"), status("1")];
    app
}

#[test]
fn compose_rejects_over_char_limit() {
    const LIMIT: usize = 500;
    let over = "x".repeat(LIMIT + 1);
    assert!(over.chars().count() > LIMIT);
}

#[test]
fn toot_char_limit_is_500() {
    const CHAR_LIMIT: usize = 500;
    let at = "x".repeat(CHAR_LIMIT);
    let over = "x".repeat(CHAR_LIMIT + 1);
    assert_eq!(at.chars().count(), CHAR_LIMIT);
    assert!(over.chars().count() > CHAR_LIMIT);
}

#[test]
fn auto_fetch_timeline_requires_not_loading() {
    assert!(!should_auto_fetch_timeline(Screen::Timeline, true, true, true, true));
}

#[test]
fn auto_fetch_timeline_requires_empty_statuses() {
    assert!(!should_auto_fetch_timeline(Screen::Timeline, true, false, false, true));
}

#[test]
fn auto_fetch_timeline_requires_no_prior_error() {
    assert!(!should_auto_fetch_timeline(Screen::Timeline, true, false, true, false));
}

#[test]
fn auto_fetch_timeline_when_conditions_met() {
    assert!(should_auto_fetch_timeline(Screen::Timeline, true, false, true, true));
}

/// The idle auto-load fires exactly when every one of its five conditions
/// holds; all combinations of the four boolean conditions are enumerated
/// on the timeline screen and on another screen.
#[test]
fn auto_fetch_fires_iff_all_conditions_hold() {
    for bits in 0..16u32 {
        let source = bits & 1 != 0;
        let loading = bits & 2 != 0;
        let empty = bits & 4 != 0;
        let no_error = bits & 8 != 0;
        let expected = source && !loading && empty && no_error;
        assert_eq!(
            should_auto_fetch_timeline(Screen::Timeline, source, loading, empty, no_error),
            expected
        );
        assert!(!should_auto_fetch_timeline(Screen::Login, source, loading, empty, no_error));
    }
}

#[test]
fn ensure_timeline_loaded_reads_session_state() {
    let mut app = timeline_app();
    assert!(!app.ensure_timeline_loaded()); // items present
    app.statuses = Vec::new();
    assert!(app.ensure_timeline_loaded());
    app.timeline_message = "Failed to load timeline: boom".to_string();
    assert!(!app.ensure_timeline_loaded());
    app.timeline_message = String::new();
    app.loading = true;
    assert!(!app.ensure_timeline_loaded());
    app.loading = false;
    app.has_client = false;
    assert!(!app.ensure_timeline_loaded()); // no source
    app.anonymous_instance_url = Some("https://example.org".to_string());
    assert!(app.ensure_timeline_loaded());
}

#[test]
fn timeline_selection_label_for_header() {
    assert_eq!(TimelineSelection::Home.label(), "Home");
    assert_eq!(TimelineSelection::Local.label(), "Local");
    assert_eq!(TimelineSelection::Public.label(), "Public");
    assert_eq!(
        TimelineSelection::List { id: "1".to_string(), title: "Friends".to_string() }.label(),
        "Friends"
    );
}

// Fresh session with no stored configuration: the session starts at the
// login screen; submitting an instance URL starts the login flow and the
// screen stays at login, now showing the authorization URL.
#[test]
fn fresh_session_starts_login_and_shows_auth_url() {
    let mut app = fresh_app();
    assert_eq!(app.screen, Screen::Login);
    assert_eq!(app.startup_command(), None);
    for c in "https://example.social".chars() {
        app.handle_key(Key::Char(c));
    }
    let r = app.handle_key(Key::Enter);
    assert_eq!(r.command, Some(Command::StartLogin));
    assert_eq!(app.instance_url, "https://example.social");
    app.apply_login_started(
        StartLoginOutcome::Started {
            client_id: "cid".to_string(),
            auth_url: "https://example.social/oauth/authorize?x=1".to_string(),
            pkce_verifier: "ver".to_string(),
        },
        true,
    );
    assert_eq!(app.screen, Screen::Login);
    assert_eq!(app.auth_url, "https://example.social/oauth/authorize?x=1");
    assert_eq!(app.config.as_ref().unwrap().instance_url, "https://example.social");
}

#[test]
fn startup_with_config_but_no_token_restarts_login() {
    let app = App::new(Some(AppConfig::new("https://example.com", "cid")), false);
    assert_eq!(app.screen, Screen::Login);
    assert_eq!(app.startup_command(), Some(Command::StartLogin));
}

#[test]
fn login_with_empty_url_shows_validation_message() {
    let mut app = fresh_app();
    app.instance_url = String::new();
    let r = app.handle_key(Key::Enter);
    assert_eq!(r.command, None);
    assert_eq!(app.screen, Screen::Login);
    assert!(app.login_message.contains("Enter instance URL"));
}

#[test]
fn code_exchange_moves_to_timeline_and_loads() {
    let mut app = fresh_app();
    app.auth_url = "https://example.com/oauth/authorize".to_string();
    app.pkce_verifier = "ver".to_string();
    for c in "  code-1  ".chars() {
        app.handle_key(Key::Char(c));
    }
    let r = app.handle_key(Key::Enter);
    assert_eq!(r.command, Some(Command::ExchangeCode { code: "code-1".to_string() }));
    assert_eq!(app.login_message, "Exchanging code…");
    let cmd = app.apply_code_exchanged(ExchangeOutcome::Exchanged);
    assert_eq!(cmd, Some(Command::LoadTimeline { append: false }));
    assert_eq!(app.screen, Screen::Timeline);
    assert!(app.has_client);
    assert!(app.auth_url.is_empty());
    assert!(app.pkce_verifier.is_empty());
}

#[test]
fn failed_code_exchange_keeps_verifier_for_retry() {
    let mut app = fresh_app();
    app.auth_url = "https://example.com/oauth/authorize".to_string();
    app.pkce_verifier = "ver".to_string();
    for c in "bad".chars() {
        app.handle_key(Key::Char(c));
    }
    app.handle_key(Key::Enter);
    let cmd = app.apply_code_exchanged(ExchangeOutcome::Failed(
        "OAuth error: Token exchange failed".to_string(),
    ));
    assert_eq!(cmd, None);
    assert_eq!(app.screen, Screen::Login);
    assert_eq!(app.pkce_verifier, "ver");
    assert!(app.login_message.starts_with("Login failed: "));
}

// Cursor movement stays within the feed and the scroll window keeps the
// cursor visible, for any run of up/down presses.
#[test]
fn navigation_stays_in_bounds_and_scroll_follows() {
    let mut app = timeline_app();
    app.timeline_visible_rows = 2;
    let presses = [
        Key::Down, Key::Down, Key::Down, Key::Down, Key::Down, Key::Down, Key::Up,
        Key::Char('j'), Key::Char('k'), Key::Up, Key::Up, Key::Up, Key::Up, Key::Down,
    ];
    for k in presses {
        app.handle_key(k);
        assert!(app.selected < app.statuses.len());
        assert!(app.scroll <= app.selected);
        assert!(app.selected < app.scroll + app.timeline_visible_rows);
    }
    // Pinned spot checks of the clamping itself.
    app.selected = 0;
    app.scroll = 0;
    app.handle_key(Key::Up);
    assert_eq!(app.selected, 0);
    app.selected = 4;
    app.handle_key(Key::Down);
    assert_eq!(app.selected, 4);
}

#[test]
fn viewport_update_keeps_selection_visible() {
    let mut app = timeline_app();
    app.selected = 4;
    app.scroll = 0;
    app.update_viewport(6); // 2 rows fit
    assert_eq!(app.timeline_visible_rows, 2);
    assert_eq!(app.scroll, 3);
    app.selected = 0;
    app.update_viewport(6);
    assert_eq!(app.scroll, 0);
}

// Posting rules: exactly 500 characters is accepted, 501 is rejected with
// the limit restated, and a whitespace-only buffer is rejected as empty.
#[test]
fn posting_at_limit_succeeds_over_limit_rejected() {
    let mut app = timeline_app();
    app.handle_key(Key::Char('p'));
    assert_eq!(app.screen, Screen::Compose);
    app.compose_buffer = "x".repeat(500);
    let r = app.handle_key(Key::Enter);
    assert_eq!(
        r.command,
        Some(Command::Post { text: "x".repeat(500), reply_to: None })
    );
    assert!(app.compose_error.is_empty());

    app.compose_buffer = "x".repeat(501);
    let r = app.handle_key(Key::Enter);
    assert_eq!(r.command, None);
    assert_eq!(app.compose_error, "Over 500 character limit.");
    assert_eq!(app.compose_buffer, "x".repeat(501));
}

#[test]
fn posting_whitespace_only_rejected_as_empty() {
    let mut app = timeline_app();
    app.handle_key(Key::Char('p'));
    app.compose_buffer = " \t\n ".to_string();
    let r = app.handle_key(Key::Enter);
    assert_eq!(r.command, None);
    assert_eq!(app.compose_error, "Cannot post empty toot.");
}

#[test]
fn successful_post_returns_and_reloads() {
    let mut app = timeline_app();
    app.handle_key(Key::Char('p'));
    app.compose_buffer = "hello".to_string();
    let r = app.handle_key(Key::Enter);
    assert!(matches!(r.command, Some(Command::Post { .. })));
    let cmd = app.apply_post_result(PostOutcome::Posted);
    assert_eq!(cmd, Some(Command::LoadTimeline { append: false }));
    assert_eq!(app.screen, Screen::Timeline);
    assert!(app.compose_buffer.is_empty());
    assert_eq!(app.compose_reply_to_id, None);
}

#[test]
fn failed_post_preserves_buffer() {
    let mut app = timeline_app();
    app.handle_key(Key::Char('p'));
    app.compose_buffer = "hello".to_string();
    app.handle_key(Key::Enter);
    let cmd = app.apply_post_result(PostOutcome::Failed("API error: 422 - nope".to_string()));
    assert_eq!(cmd, None);
    assert_eq!(app.compose_buffer, "hello");
    assert_eq!(app.compose_error, "Post failed: API error: 422 - nope");
    assert_eq!(app.screen, Screen::Compose);
}

// After any call reports an authentication rejection, the next observable
// state holds no credential and shows the login screen; the stored token
// was already deleted by the gateway.
#[test]
fn auth_rejection_during_load_forces_login() {
    let mut app = timeline_app();
    let plan = app.begin_load(false);
    assert!(matches!(plan, LoadPlan::Fetch { cursor: None }));
    assert!(app.loading);
    let cmd = app.finish_load(false, LoadOutcome::AuthRejected);
    assert!(!app.has_client);
    assert_eq!(app.screen, Screen::Login);
    assert_eq!(app.login_message, "Session expired. Please log in again.");
    assert!(!app.loading);
    assert_eq!(cmd, Some(Command::StartLogin)); // a config is known
}

#[test]
fn auth_rejection_during_post_forces_login() {
    let mut app = timeline_app();
    app.config = None;
    app.handle_key(Key::Char('p'));
    app.compose_buffer = "hello".to_string();
    app.handle_key(Key::Enter);
    let cmd = app.apply_post_result(PostOutcome::AuthRejected);
    assert!(!app.has_client);
    assert_eq!(app.screen, Screen::Login);
    assert_eq!(cmd, None); // no config, no automatic restart
}

#[test]
fn auth_rejection_during_toggle_forces_login() {
    let mut app = timeline_app();
    app.detail_status = Some(status("9"));
    app.screen = Screen::ItemDetail;
    app.handle_key(Key::Char('f'));
    let cmd = app.apply_toggle_result(ToggleKind::Favourite, true, ToggleOutcome::AuthRejected);
    assert!(!app.has_client);
    assert_eq!(app.screen, Screen::Login);
    assert_eq!(cmd, Some(Command::StartLogin));
}

#[test]
fn auth_rejection_during_lists_fetch_forces_login() {
    let mut app = timeline_app();
    app.handle_key(Key::Char('t'));
    let cmd = app.apply_lists_result(ListsOutcome::AuthRejected);
    assert!(!app.has_client);
    assert_eq!(app.screen, Screen::Login);
    assert_eq!(cmd, Some(Command::StartLogin));
}

// Append loads never replace existing items; replace loads always do.
#[test]
fn append_load_extends_replace_load_replaces() {
    let mut app = timeline_app();
    let plan = app.begin_load(true);
    assert_eq!(plan, LoadPlan::Fetch { cursor: Some("1".to_string()) }); // oldest loaded id
    let cmd = app.finish_load(true, LoadOutcome::Loaded(vec![status("0"), status("-1")]));
    assert_eq!(cmd, None);
    assert!(!app.loading);
    let ids: Vec<&str> = app.statuses.iter().map(|s| s.id.as_str()).collect();
    assert_eq!(ids, ["5", "4", "3", "2", "1", "0", "-1"]);

    let plan = app.begin_load(false);
    assert_eq!(plan, LoadPlan::Fetch { cursor: None });
    app.finish_load(false, LoadOutcome::Loaded(vec![status("9")]));
    let ids: Vec<&str> = app.statuses.iter().map(|s| s.id.as_str()).collect();
    assert_eq!(ids, ["9"]);
}

#[test]
fn append_load_on_empty_feed_uses_no_cursor() {
    let mut app = timeline_app();
    app.statuses = Vec::new();
    let plan = app.begin_load(true);
    assert_eq!(plan, LoadPlan::Fetch { cursor: None });
}

#[test]
fn load_without_source_is_skipped() {
    let mut app = timeline_app();
    app.has_client = false;
    assert_eq!(app.begin_load(false), LoadPlan::Skip);
    assert!(!app.loading);
}

#[test]
fn failed_load_records_error_and_keeps_items() {
    let mut app = timeline_app();
    app.begin_load(false);
    let cmd = app.finish_load(false, LoadOutcome::Failed("HTTP/client error: x".to_string()));
    assert_eq!(cmd, None);
    assert_eq!(app.statuses.len(), 5);
    assert_eq!(app.timeline_message, "Failed to load timeline: HTTP/client error: x");
    assert!(!app.ensure_timeline_loaded()); // the error disarms the auto-load
}

// Switching the feed selection through the picker clears the items, sets
// loading while the replace-load runs, and scopes it to the new feed.
#[test]
fn feed_switch_clears_items_and_reloads_scoped() {
    let mut app = timeline_app();
    let r = app.handle_key(Key::Char('t'));
    assert_eq!(app.screen, Screen::TimelinePicker);
    assert_eq!(r.command, Some(Command::FetchLists));
    assert_eq!(
        app.timeline_picker_options,
        [TimelineSelection::Home, TimelineSelection::Local, TimelineSelection::Public]
    );
    assert_eq!(app.timeline_picker_selected, 0); // Home is current
    app.handle_key(Key::Down);
    assert_eq!(app.timeline_picker_selected, 1);
    let r = app.handle_key(Key::Enter);
    assert_eq!(app.current_timeline, TimelineSelection::Local);
    assert!(app.statuses.is_empty());
    assert_eq!(app.screen, Screen::Timeline);
    assert_eq!(r.command, Some(Command::LoadTimeline { append: false }));
    let plan = app.begin_load(false);
    assert_eq!(plan, LoadPlan::Fetch { cursor: None });
    assert!(app.loading);
    app.finish_load(false, LoadOutcome::Loaded(vec![status("7")]));
    assert!(!app.loading);
    assert_eq!(app.statuses.len(), 1);
}

#[test]
fn lists_fetch_extends_picker_options() {
    let mut app = timeline_app();
    app.handle_key(Key::Char('t'));
    let cmd = app.apply_lists_result(ListsOutcome::Loaded(vec![mastotui::types::List {
        id: "L1".to_string(),
        title: "Friends".to_string(),
    }]));
    assert_eq!(cmd, None);
    assert_eq!(app.timeline_picker_options.len(), 4);
    assert_eq!(
        app.timeline_picker_options[3],
        TimelineSelection::List { id: "L1".to_string(), title: "Friends".to_string() }
    );
    assert!(app.timeline_picker_lists_message.is_empty());
}

#[test]
fn lists_fetch_failure_keeps_builtin_feeds_with_hint() {
    let mut app = timeline_app();
    app.handle_key(Key::Char('t'));
    let cmd = app.apply_lists_result(ListsOutcome::Failed("boom".to_string()));
    assert_eq!(cmd, None);
    assert_eq!(app.timeline_picker_options.len(), 3);
    assert_eq!(
        app.timeline_picker_lists_message,
        "Lists unavailable. Re-login to enable list timelines."
    );
    assert_eq!(app.screen, Screen::TimelinePicker);
}

// Toggling favourite on an item whose flag is unknown requests it set;
// toggling again on the server-returned item requests it cleared.
#[test]
fn favourite_toggle_negates_known_flag() {
    let mut app = timeline_app();
    app.detail_status = Some(status("9")); // favourited: None
    app.screen = Screen::ItemDetail;
    let r = app.handle_key(Key::Char('f'));
    assert_eq!(
        r.command,
        Some(Command::SetFavourite { id: "9".to_string(), desired: true })
    );
    let mut updated = status("9");
    updated.favourited = Some(true);
    let cmd = app.apply_toggle_result(ToggleKind::Favourite, true, ToggleOutcome::Toggled(updated));
    assert_eq!(cmd, None);
    assert_eq!(app.detail_message, "Favourited.");
    assert_eq!(app.detail_status.as_ref().unwrap().favourited, Some(true));

    let r = app.handle_key(Key::Char('f'));
    assert_eq!(
        r.command,
        Some(Command::SetFavourite { id: "9".to_string(), desired: false })
    );
}

#[test]
fn boost_toggle_negates_known_flag() {
    let mut app = timeline_app();
    let mut s = status("9");
    s.reblogged = Some(true);
    app.detail_status = Some(s);
    app.screen = Screen::ItemDetail;
    let r = app.handle_key(Key::Char('b'));
    assert_eq!(
        r.command,
        Some(Command::SetBoost { id: "9".to_string(), desired: false })
    );
    let cmd = app.apply_toggle_result(
        ToggleKind::Boost,
        false,
        ToggleOutcome::Failed("API error: 500 - x".to_string()),
    );
    assert_eq!(cmd, None);
    assert_eq!(app.detail_message, "Error: API error: 500 - x");
    assert_eq!(app.detail_status.as_ref().unwrap().reblogged, Some(true)); // untouched
}

#[test]
fn detail_open_and_reply_binding() {
    let mut app = timeline_app();
    app.selected = 2;
    app.handle_key(Key::Enter);
    assert_eq!(app.screen, Screen::ItemDetail);
    assert_eq!(app.detail_status.as_ref().unwrap().id, "3");
    app.handle_key(Key::Char('r'));
    assert_eq!(app.screen, Screen::Compose);
    assert_eq!(app.compose_reply_to_id, Some("3".to_string()));
    app.compose_buffer = "a reply".to_string();
    let r = app.handle_key(Key::Enter);
    assert_eq!(
        r.command,
        Some(Command::Post { text: "a reply".to_string(), reply_to: Some("3".to_string()) })
    );
    let cmd = app.apply_post_result(PostOutcome::Posted);
    assert_eq!(app.screen, Screen::ItemDetail);
    assert_eq!(cmd, Some(Command::LoadTimeline { append: false }));
}

#[test]
fn anonymous_viewer_cannot_compose() {
    let mut app = fresh_app();
    app.screen = Screen::Timeline;
    app.anonymous_instance_url = Some("https://example.org".to_string());
    let r = app.handle_key(Key::Char('p'));
    assert_eq!(app.screen, Screen::Timeline);
    assert_eq!(r.command, None);
}

#[test]
fn instance_picker_opens_and_esc_cancels() {
    let mut app = fresh_app();
    app.screen = Screen::InstancePicker;
    app.return_screen = Screen::Timeline;
    app.handle_key(Key::Esc);
    assert_eq!(app.screen, Screen::Timeline);
}

#[test]
fn instance_info_opens_on_i_and_esc_returns() {
    let mut app = fresh_app();
    app.screen = Screen::Timeline;
    app.handle_key(Key::Char('i'));
    assert_eq!(app.screen, Screen::InstanceInfo);
    assert_eq!(app.return_screen, Screen::Timeline);
    app.handle_key(Key::Esc);
    assert_eq!(app.screen, Screen::Timeline);
}

#[test]
fn instance_info_b_opens_instance_picker() {
    let mut app = fresh_app();
    app.screen = Screen::Timeline;
    app.handle_key(Key::Char('i'));
    assert_eq!(app.screen, Screen::InstanceInfo);
    app.handle_key(Key::Char('b'));
    assert_eq!(app.screen, Screen::InstancePicker);
    assert_eq!(app.return_screen, Screen::InstanceInfo);
    app.handle_key(Key::Esc);
    assert_eq!(app.screen, Screen::InstanceInfo);
}

#[test]
fn instance_info_l_when_not_logged_in_goes_to_login() {
    let mut app = fresh_app();
    app.screen = Screen::Timeline;
    app.handle_key(Key::Char('i'));
    assert_eq!(app.screen, Screen::InstanceInfo);
    app.handle_key(Key::Char('l'));
    assert_eq!(app.screen, Screen::Login);
}

#[test]
fn instance_info_l_when_logged_in_logs_out_and_goes_to_login() {
    let mut app = timeline_app();
    app.screen = Screen::InstanceInfo;
    app.return_screen = Screen::Timeline;
    let r = app.handle_key(Key::Char('l'));
    assert_eq!(app.screen, Screen::Login);
    assert!(!app.has_client);
    assert_eq!(app.login_message, "Logged out.");
    assert!(app.statuses.is_empty());
    assert_eq!(r.command, Some(Command::Logout { restart_login: true }));
}

#[test]
fn timeline_picker_opens_and_esc_cancels() {
    let mut app = timeline_app();
    app.handle_key(Key::Char('t'));
    assert_eq!(app.screen, Screen::TimelinePicker);
    assert!(!app.timeline_picker_options.is_empty());
    app.handle_key(Key::Esc);
    assert_eq!(app.screen, Screen::Timeline);
}

#[test]
fn instance_picker_submit_invalid_url_shows_message() {
    let mut app = fresh_app();
    app.screen = Screen::Timeline;
    app.handle_key(Key::Char('i'));
    app.handle_key(Key::Char('b'));
    for c in "not-a-valid-url".chars() {
        app.handle_key(Key::Char(c));
    }
    let r = app.handle_key(Key::Enter);
    assert!(!app.instance_picker_message.is_empty());
    assert!(app.instance_picker_message.starts_with("Invalid URL: "));
    assert_eq!(app.screen, Screen::InstancePicker);
    assert_eq!(r.command, None);
}

#[test]
fn instance_picker_valid_url_starts_anonymous_browsing() {
    let mut app = fresh_app();
    app.screen = Screen::Timeline;
    app.handle_key(Key::Char('i'));
    app.handle_key(Key::Char('b'));
    for c in "https://other.example".chars() {
        app.handle_key(Key::Char(c));
    }
    let r = app.handle_key(Key::Enter);
    assert_eq!(app.screen, Screen::Timeline);
    assert_eq!(app.anonymous_instance_url, Some("https://other.example".to_string()));
    assert_eq!(app.current_timeline, TimelineSelection::Public);
    assert!(!app.has_client);
    assert!(app.statuses.is_empty());
    assert_eq!(r.command, Some(Command::LoadTimeline { append: false }));
}

#[test]
fn instance_picker_empty_submit_uses_highlighted_entry() {
    let mut app = timeline_app();
    app.handle_key(Key::Char('i'));
    app.handle_key(Key::Char('b'));
    assert_eq!(app.instance_picker_known, ["https://example.com"]);
    let r = app.handle_key(Key::Enter);
    assert_eq!(app.anonymous_instance_url, Some("https://example.com".to_string()));
    assert_eq!(r.command, Some(Command::LoadTimeline { append: false }));
}

#[test]
fn instance_picker_with_nothing_to_submit_shows_message() {
    let mut app = fresh_app();
    app.instance_picker_known = Vec::new();
    app.screen = Screen::InstancePicker;
    let r = app.handle_key(Key::Enter);
    assert_eq!(app.instance_picker_message, "Enter a URL or pick an instance.");
    assert_eq!(r.command, None);
}

#[test]
fn login_flow_failure_announced_only_when_submitted() {
    let mut app = fresh_app();
    app.apply_login_started(StartLoginOutcome::Failed("network down".to_string()), true);
    assert_eq!(app.login_message, "Failed to start login: network down");
    app.login_message = "Logged out.".to_string();
    app.apply_login_started(StartLoginOutcome::Failed("network down".to_string()), false);
    assert_eq!(app.login_message, "Logged out."); // silent restart keeps the notice
}

#[test]
fn compose_escape_discards_buffer() {
    let mut app = timeline_app();
    app.handle_key(Key::Char('p'));
    app.compose_buffer = "draft".to_string();
    app.handle_key(Key::Esc);
    assert_eq!(app.screen, Screen::Timeline);
    assert!(app.compose_buffer.is_empty());
}

#[test]
fn login_typing_and_backspace_edit_buffer() {
    let mut app = fresh_app();
    app.handle_key(Key::Char('a'));
    app.handle_key(Key::Char('i'));
    app.handle_key(Key::Char('b'));
    app.handle_key(Key::Backspace);
    assert_eq!(app.login_code, "ai");
    app.handle_key(Key::Backspace);
    assert_eq!(app.login_code, "a");
    // With no flow pending, 'q' quits rather than typing.
    let r = app.handle_key(Key::Char('q'));
    assert!(r.quit);
    // With a flow pending, 'q' is an ordinary code character.
    app.auth_url = "https://example.com/authorize".to_string();
    let r = app.handle_key(Key::Char('q'));
    assert!(!r.quit);
    assert_eq!(app.login_code, "aq");
}

#[test]
fn viewport_update_leaves_other_screens_alone() {
    let mut app = timeline_app();
    app.screen = Screen::Compose;
    app.timeline_visible_rows = 20;
    app.scroll = 3;
    app.update_viewport(6);
    assert_eq!(app.timeline_visible_rows, 20);
    assert_eq!(app.scroll, 3);
}

#[test]
fn backspace_on_empty_buffers_is_harmless() {
    let mut app = fresh_app();
    app.handle_key(Key::Backspace);
    assert_eq!(app.login_code, "");
    app.screen = Screen::Compose;
    app.handle_key(Key::Backspace);
    assert_eq!(app.compose_buffer, "");
}

#[test]
fn unmapped_keys_change_nothing() {
    let mut app = timeline_app();
    let r = app.handle_key(Key::Other);
    assert!(!r.quit);
    assert_eq!(r.command, None);
    assert_eq!(app.screen, Screen::Timeline);
    assert_eq!(app.statuses.len(), 5);
}

#[test]
fn instance_picker_deduplicates_known_instances() {
    let mut app = timeline_app();
    app.anonymous_instance_url = Some("https://example.com".to_string()); // same as config
    app.handle_key(Key::Char('i'));
    app.handle_key(Key::Char('b'));
    assert_eq!(app.instance_picker_known, ["https://example.com"]);

    app.handle_key(Key::Esc);
    app.anonymous_instance_url = Some("https://other.example".to_string());
    app.handle_key(Key::Char('b'));
    assert_eq!(
        app.instance_picker_known,
        ["https://example.com", "https://other.example"]
    );
}
