//! The session and navigation controller: one state machine that owns the
//! current screen, the feed, the transient input buffers and the
//! credential lifecycle. Keystrokes and outcome reports come in; state
//! changes and [`Command`] values for the runner come out. The controller
//! itself performs no network, terminal or secret-store work.

use crate::config::AppConfig;
use crate::credential::{instance_host_from_url, url_host};
use crate::strutil::{pop_char, push_char, spec_trim, trim};
use crate::types::{List, Status};
use vstd::prelude::*;
use vstd::string::*;

verus! {

/// The character limit a post must stay within.
pub const CHAR_LIMIT: usize = 500;

/// The modal views. Exactly one is active at a time; it decides which
/// keystroke table applies and what the renderer draws.
#[derive(Debug, Clone, Copy, PartialEq, Eq, Structural)]
pub enum Screen {
    Login,
    Timeline,
    ItemDetail,
    Compose,
    /// Dialog to enter or pick an instance for anonymous browsing.
    InstancePicker,
    /// Current instance and auth state; log out/in or browse another.
    InstanceInfo,
    /// Choose Home / Local / Public / a list.
    TimelinePicker,
}

/// Which feed is shown (or highlighted in the picker).
#[derive(Debug)]
pub enum TimelineSelection {
    Home,
    Local,
    Public,
    List { id: String, title: String },
}

impl TimelineSelection {
    /// Whether two selections name the same feed.
    pub open spec fn eq_spec(&self, other: &TimelineSelection) -> bool {
        match (self, other) {
            (TimelineSelection::Home, TimelineSelection::Home) => true,
            (TimelineSelection::Local, TimelineSelection::Local) => true,
            (TimelineSelection::Public, TimelineSelection::Public) => true,
            (
                TimelineSelection::List { id: a, title: b },
                TimelineSelection::List { id: c, title: d },
            ) => a@ == c@ && b@ == d@,
            _ => false,
        }
    }

    /// The label the header and the picker show for this selection.
    pub fn label(&self) -> (r: String)
        ensures
            self is Home ==> r@ == "Home"@,
            self is Local ==> r@ == "Local"@,
            self is Public ==> r@ == "Public"@,
            self matches TimelineSelection::List { id, title } ==> r@ == title@,
    {
        match self {
            TimelineSelection::Home => String::from_str("Home"),
            TimelineSelection::Local => String::from_str("Local"),
            TimelineSelection::Public => String::from_str("Public"),
            TimelineSelection::List { title, .. } => title.clone(),
        }
    }

    /// An equal copy.
    pub fn dup(&self) -> (r: TimelineSelection)
        ensures
            r == self,
    {
        match self {
            TimelineSelection::Home => TimelineSelection::Home,
            TimelineSelection::Local => TimelineSelection::Local,
            TimelineSelection::Public => TimelineSelection::Public,
            TimelineSelection::List { id, title } => TimelineSelection::List {
                id: id.clone(),
                title: title.clone(),
            },
        }
    }
}

impl Clone for TimelineSelection {
    fn clone(&self) -> (r: TimelineSelection)
        ensures
            r == self,
    {
        self.dup()
    }
}

impl PartialEq for TimelineSelection {
    fn eq(&self, other: &TimelineSelection) -> (r: bool) {
        match (self, other) {
            (TimelineSelection::Home, TimelineSelection::Home) => true,
            (TimelineSelection::Local, TimelineSelection::Local) => true,
            (TimelineSelection::Public, TimelineSelection::Public) => true,
            (
                TimelineSelection::List { id: a, title: b },
                TimelineSelection::List { id: c, title: d },
            ) => a.eq(c) && b.eq(d),
            _ => false,
        }
    }
}

impl vstd::std_specs::cmp::PartialEqSpecImpl for TimelineSelection {
    open spec fn obeys_eq_spec() -> bool {
        true
    }

    open spec fn eq_spec(&self, other: &TimelineSelection) -> bool {
        TimelineSelection::eq_spec(self, other)
    }
}

/// A keystroke, as the controller distinguishes them. Keys the controller
/// never reacts to arrive as `Other`.
#[derive(Debug, Clone, Copy, PartialEq, Eq, Structural)]
pub enum Key {
    Char(char),
    Enter,
    Esc,
    Backspace,
    Up,
    Down,
    Other,
}

/// An effect the runner must perform on the controller's behalf. Every
/// command answers back through the matching apply function.
#[derive(Debug, PartialEq)]
pub enum Command {
    /// Begin the login flow for the current instance URL: register the
    /// application if needed and build an authorization URL; answer
    /// through [`App::apply_login_started`].
    StartLogin,
    /// Exchange the pasted authorization code for a bearer token; answer
    /// through [`App::apply_code_exchanged`].
    ExchangeCode { code: String },
    /// Fetch the current feed selection; drive it with [`App::begin_load`]
    /// and answer through [`App::finish_load`].
    LoadTimeline { append: bool },
    /// Submit a new post; answer through [`App::apply_post_result`].
    Post { text: String, reply_to: Option<String> },
    /// Set or clear a boost; answer through [`App::apply_toggle_result`].
    SetBoost { id: String, desired: bool },
    /// Set or clear a favourite; answer through
    /// [`App::apply_toggle_result`].
    SetFavourite { id: String, desired: bool },
    /// Fetch the viewer's lists for the timeline picker; answer through
    /// [`App::apply_lists_result`].
    FetchLists,
    /// Delete the stored token and drop the live client; when
    /// `restart_login` is set, begin the login flow again afterwards.
    Logout { restart_login: bool },
}

/// What a keystroke produced: whether the program should quit, and the
/// effect the runner must perform, if any.
#[derive(Debug, PartialEq)]
pub struct KeyResult {
    pub quit: bool,
    pub command: Option<Command>,
}

/// The root entity: one per run.
#[derive(Debug)]
pub struct App {
    /// The active modal screen.
    pub screen: Screen,
    /// Present once an instance and client id are registered.
    pub config: Option<AppConfig>,
    /// Whether a usable bearer credential is currently held (the live
    /// client handle lives with the runner).
    pub has_client: bool,
    /// The loaded feed items, newest first, in gateway order.
    pub statuses: Vec<Status>,
    /// The selection cursor into `statuses`.
    pub selected: usize,
    /// The first visible feed row.
    pub scroll: usize,
    /// Whether a load is outstanding.
    pub loading: bool,
    /// The instance URL being logged into or browsed.
    pub instance_url: String,
    /// The authorization URL shown to the user; non-empty exactly while a
    /// login flow awaits its code.
    pub auth_url: String,
    /// The PKCE verifier held between authorization and code exchange.
    pub pkce_verifier: String,
    /// The login screen's input buffer: an instance URL before a flow is
    /// started, an authorization code after.
    pub login_code: String,
    /// The message shown on the login screen.
    pub login_message: String,
    /// The status shown in the detail view: a value copy, decoupled from
    /// the feed.
    pub detail_status: Option<Status>,
    /// The one-line confirmation or error on the detail view.
    pub detail_message: String,
    /// The compose input buffer.
    pub compose_buffer: String,
    /// The status id a reply is bound to, if composing a reply.
    pub compose_reply_to_id: Option<String>,
    /// The validation or submission error on the compose view.
    pub compose_error: String,
    /// Shown on the timeline when a load failed; it also suppresses the
    /// idle auto-load until cleared.
    pub timeline_message: String,
    /// Feed rows that fit the viewport, updated before each draw.
    pub timeline_visible_rows: usize,
    /// When set, the public feed of this instance is browsed without a
    /// credential, read-only.
    pub anonymous_instance_url: Option<String>,
    /// The view restored when a transient dialog is dismissed.
    pub return_screen: Screen,
    /// The instance picker's text field.
    pub instance_picker_input: String,
    /// Previously-known instance URLs offered by the picker, deduplicated.
    pub instance_picker_known: Vec<String>,
    /// The highlighted entry of `instance_picker_known`.
    pub instance_picker_selected: usize,
    /// The validation message of the instance picker.
    pub instance_picker_message: String,
    /// The feed currently displayed.
    pub current_timeline: TimelineSelection,
    /// The viewer's lists, fetched when the timeline picker opens.
    pub lists: Vec<List>,
    /// The options the timeline picker offers.
    pub timeline_picker_options: Vec<TimelineSelection>,
    /// The highlighted entry of `timeline_picker_options`.
    pub timeline_picker_selected: usize,
    /// The hint shown when the lists could not be fetched.
    pub timeline_picker_lists_message: String,
}

impl App {
    /// Whether a content source is configured: a credential, or an
    /// instance browsed anonymously.
    pub open spec fn spec_has_source(&self) -> bool {
        self.has_client || self.anonymous_instance_url is Some
    }

    /// Build the session from what the runner found at startup: the
    /// persisted configuration, if any, and whether a stored token for its
    /// instance produced a usable client.
    pub fn new(config: Option<AppConfig>, has_stored_token: bool) -> (app: App)
        ensures
            app.screen == (if config is Some && has_stored_token {
                Screen::Timeline
            } else {
                Screen::Login
            }),
            app.has_client == (config is Some && has_stored_token),
            app.config == config,
            app.statuses@.len() == 0,
            app.selected == 0,
            app.scroll == 0,
            !app.loading,
            app.instance_url@ == (match config {
                Some(c) => c.instance_url@,
                None => "https://mastodon.social"@,
            }),
            app.auth_url@.len() == 0,
            app.pkce_verifier@.len() == 0,
            app.login_code@.len() == 0,
            app.login_message@.len() == 0,
            app.detail_status is None,
            app.detail_message@.len() == 0,
            app.compose_buffer@.len() == 0,
            app.compose_reply_to_id is None,
            app.compose_error@.len() == 0,
            app.timeline_message@.len() == 0,
            app.timeline_visible_rows == 20,
            app.anonymous_instance_url is None,
            app.return_screen == Screen::Login,
            app.instance_picker_input@.len() == 0,
            app.instance_picker_known@ == (match config {
                Some(c) => seq![c.instance_url],
                None => Seq::<String>::empty(),
            }),
            app.instance_picker_selected == 0,
            app.instance_picker_message@.len() == 0,
            app.current_timeline == (if config is Some && has_stored_token {
                TimelineSelection::Home
            } else {
                TimelineSelection::Public
            }),
            app.lists@.len() == 0,
            app.timeline_picker_options@.len() == 0,
            app.timeline_picker_selected == 0,
            app.timeline_picker_lists_message@.len() == 0,
    {
        let has_client = config.is_some() && has_stored_token;
        let screen = if has_client {
            Screen::Timeline
        } else {
            Screen::Login
        };
        let instance_url: String = match &config {
            Some(c) => c.instance_url.clone(),
            None => String::from_str("https://mastodon.social"),
        };
        let mut known: Vec<String> = Vec::new();
        match &config {
            Some(c) => {
                known.push(c.instance_url.clone());
                proof {
                    assert(known@ =~= seq![config.unwrap().instance_url]);
                }
            },
            None => {},
        }
        let current_timeline = if has_client {
            TimelineSelection::Home
        } else {
            TimelineSelection::Public
        };
        App {
            screen,
            config,
            has_client,
            statuses: Vec::new(),
            selected: 0,
            scroll: 0,
            loading: false,
            instance_url,
            auth_url: String::new(),
            pkce_verifier: String::new(),
            login_code: String::new(),
            login_message: String::new(),
            detail_status: None,
            detail_message: String::new(),
            compose_buffer: String::new(),
            compose_reply_to_id: None,
            compose_error: String::new(),
            timeline_message: String::new(),
            timeline_visible_rows: 20,
            anonymous_instance_url: None,
            return_screen: Screen::Login,
            instance_picker_input: String::new(),
            instance_picker_known: known,
            instance_picker_selected: 0,
            instance_picker_message: String::new(),
            current_timeline,
            lists: Vec::new(),
            timeline_picker_options: Vec::new(),
            timeline_picker_selected: 0,
            timeline_picker_lists_message: String::new(),
        }
    }

    /// The effect to run right after startup: a fresh login flow when a
    /// configuration is already known but no stored token was usable.
    pub fn startup_command(&self) -> (c: Option<Command>)
        ensures
            c == (if self.screen is Login && self.config is Some && self.instance_url@.len() > 0 {
                Some(Command::StartLogin)
            } else {
                None::<Command>
            }),
    {
        if matches!(self.screen, Screen::Login) && self.config.is_some() && !self.instance_url.as_str().is_empty() {
            Some(Command::StartLogin)
        } else {
            None
        }
    }
}

/// The condition under which the idle tick starts an automatic
/// replace-load, and nothing else does.
pub fn should_auto_fetch_timeline(
    screen: Screen,
    client_is_some: bool,
    loading: bool,
    statuses_empty: bool,
    timeline_message_empty: bool,
) -> (b: bool)
    ensures
        b == (screen is Timeline && client_is_some && !loading && statuses_empty
            && timeline_message_empty),
{
    screen == Screen::Timeline && client_is_some && !loading && statuses_empty
        && timeline_message_empty
}

impl App {
    /// Asked once per idle tick: the answer is true exactly when the
    /// automatic replace-load must start now. The runner then drives
    /// [`App::begin_load`] and [`App::finish_load`] with `append` false.
    pub fn ensure_timeline_loaded(&self) -> (fetch: bool)
        ensures
            fetch == (self.screen is Timeline && self.spec_has_source() && !self.loading
                && self.statuses@.len() == 0 && self.timeline_message@.len() == 0),
    {
        let has_source = self.has_client || self.anonymous_instance_url.is_some();
        should_auto_fetch_timeline(
            self.screen,
            has_source,
            self.loading,
            self.statuses.len() == 0,
            self.timeline_message.as_str().is_empty(),
        )
    }
}

/// The feed rows that fit a viewport of the given height: two lines per
/// item under a one-line header and a one-line footer, and never less
/// than one row.
pub open spec fn spec_visible_rows(height: int) -> int {
    let content = if height >= 3 {
        height - 2
    } else {
        1
    };
    if content >= 2 {
        content / 2
    } else {
        1
    }
}

/// The scroll-follow rule: advance the window when the selection fell off
/// its end, retreat it when the selection moved above it, and leave it
/// alone otherwise.
pub open spec fn spec_follow_scroll(selected: int, scroll: int, rows: int, len: int) -> int {
    if len == 0 {
        scroll
    } else if selected >= scroll + rows {
        selected - rows + 1
    } else if selected < scroll {
        selected
    } else {
        scroll
    }
}

/// Once the scroll window has followed the selection, it contains it:
/// `scroll <= selected <= scroll + rows - 1`.
pub proof fn lemma_follow_scroll_contains(selected: int, scroll: int, rows: int, len: int)
    requires
        rows >= 1,
        0 <= selected < len,
    ensures
        spec_follow_scroll(selected, scroll, rows, len) <= selected,
        selected <= spec_follow_scroll(selected, scroll, rows, len) + rows - 1,
{
}

impl App {
    /// Record the viewport height before a draw of the timeline and keep
    /// the selection visible. Views other than the timeline are unchanged.
    pub fn update_viewport(&mut self, height: usize)
        ensures
            !(old(self).screen is Timeline) ==> *final(self) == *old(self),
            old(self).screen is Timeline ==> *final(self) == (App {
                timeline_visible_rows: final(self).timeline_visible_rows,
                scroll: final(self).scroll,
                ..*old(self)
            }),
            old(self).screen is Timeline ==> final(self).timeline_visible_rows
                == spec_visible_rows(height as int),
            old(self).screen is Timeline ==> final(self).scroll == spec_follow_scroll(
                old(self).selected as int,
                old(self).scroll as int,
                spec_visible_rows(height as int),
                old(self).statuses@.len() as int,
            ),
    {
        if !matches!(self.screen, Screen::Timeline) {
            return ;
        }
        let content = if height >= 3 {
            height - 2
        } else {
            1
        };
        let rows = if content >= 2 {
            content / 2
        } else {
            1
        };
        self.timeline_visible_rows = rows;
        if self.statuses.len() > 0 {
            if self.selected >= self.scroll && self.selected - self.scroll >= rows {
                self.scroll = self.selected - rows + 1;
            } else if self.selected < self.scroll {
                self.scroll = self.selected;
            }
        }
    }
}

// ---------------------------------------------------------------------
// Keystroke transitions. One relation per screen states exactly what a
// key does: the state after the call, whether the program quits, and the
// effect handed to the runner.
// ---------------------------------------------------------------------
/// The keystroke changed nothing and asked for nothing.
pub open spec fn spec_noop(pre: App, post: App, r: KeyResult) -> bool {
    post == pre && !r.quit && r.command is None
}

/// The keystroke quit the program and changed nothing.
pub open spec fn spec_quit(pre: App, post: App, r: KeyResult) -> bool {
    post == pre && r.quit && r.command is None
}

/// The keystroke changed nothing and handed the runner one command.
pub open spec fn spec_cmd_only(pre: App, post: App, r: KeyResult, c: Command) -> bool {
    post == pre && !r.quit && r.command == Some(c)
}

/// The instance-info dialog opened over the current screen.
pub open spec fn spec_opened_instance_info(pre: App, post: App, r: KeyResult) -> bool {
    &&& post == (App { screen: Screen::InstanceInfo, return_screen: pre.screen, ..pre })
    &&& !r.quit
    &&& r.command is None
}

/// The instance picker opened over the current screen: input and message
/// cleared, the known-instance list rebuilt from the configuration and
/// the anonymously browsed instance, deduplicated.
pub open spec fn spec_opened_instance_picker(pre: App, post: App, r: KeyResult) -> bool {
    &&& post == (App {
        screen: Screen::InstancePicker,
        return_screen: pre.screen,
        instance_picker_input: post.instance_picker_input,
        instance_picker_known: post.instance_picker_known,
        instance_picker_selected: 0,
        instance_picker_message: post.instance_picker_message,
        ..pre
    })
    &&& post.instance_picker_input@.len() == 0
    &&& post.instance_picker_message@.len() == 0
    &&& post.instance_picker_known@ == spec_picker_known(pre.config, pre.anonymous_instance_url)
    &&& !r.quit
    &&& r.command is None
}

/// Whether some entry of `v` holds the same characters as `u`.
pub open spec fn seq_contains_str(v: Seq<String>, u: String) -> bool {
    exists|j: int| #![trigger v[j]] 0 <= j < v.len() && v[j]@ == u@
}

/// The known-instance list the picker offers: the configured instance, if
/// any, and the anonymously browsed one when it is not already there.
pub open spec fn spec_picker_known(config: Option<AppConfig>, anon: Option<String>) -> Seq<
    String,
> {
    let base = match config {
        Some(c) => seq![c.instance_url],
        None => Seq::<String>::empty(),
    };
    match anon {
        Some(u) => if seq_contains_str(base, u) {
            base
        } else {
            base.push(u)
        },
        None => base,
    }
}

/// The feed choices the timeline picker always offers; the viewer's lists
/// are fetched and added afterwards.
pub open spec fn spec_builtin_options(has_client: bool) -> Seq<TimelineSelection> {
    if has_client {
        seq![TimelineSelection::Home, TimelineSelection::Local, TimelineSelection::Public]
    } else {
        seq![TimelineSelection::Public]
    }
}

/// The index of the first option at or after `i` naming the same feed as
/// `cur`, or 0 when none does.
pub open spec fn spec_first_match(
    options: Seq<TimelineSelection>,
    cur: TimelineSelection,
    i: int,
) -> int
    decreases options.len() - i,
{
    if i < 0 || i >= options.len() {
        0
    } else if options[i].eq_spec(&cur) {
        i
    } else {
        spec_first_match(options, cur, i + 1)
    }
}

/// The timeline picker opened: built-in options shown, the current feed
/// highlighted, and a list fetch requested when a credential is held.
pub open spec fn spec_opened_timeline_picker(pre: App, post: App, r: KeyResult) -> bool {
    &&& post == (App {
        screen: Screen::TimelinePicker,
        timeline_picker_lists_message: post.timeline_picker_lists_message,
        timeline_picker_options: post.timeline_picker_options,
        timeline_picker_selected: post.timeline_picker_selected,
        ..pre
    })
    &&& post.timeline_picker_lists_message@.len() == 0
    &&& post.timeline_picker_options@ == spec_builtin_options(pre.has_client)
    &&& post.timeline_picker_selected as int == spec_first_match(
        spec_builtin_options(pre.has_client),
        pre.current_timeline,
        0,
    )
    &&& !r.quit
    &&& r.command == (if pre.has_client {
        Some(Command::FetchLists)
    } else {
        None::<Command>
    })
}

/// One step of the selection cursor: up moves towards the newest item,
/// clamped at 0; down moves towards the oldest, clamped at the last item.
pub open spec fn spec_nav_step(selected: int, len: int, up: bool) -> int {
    if up {
        if selected > 0 {
            selected - 1
        } else {
            selected
        }
    } else {
        if selected + 1 < len {
            selected + 1
        } else {
            selected
        }
    }
}

/// The scroll adjustment the timeline makes right after a cursor step, so
/// the cursor never leaves the window.
pub open spec fn spec_nav_scroll(selected: int, scroll: int, rows: int, up: bool) -> int {
    if up {
        if selected < scroll {
            selected
        } else {
            scroll
        }
    } else {
        if selected >= scroll + rows {
            if selected + 1 >= rows {
                selected + 1 - rows
            } else {
                0
            }
        } else {
            scroll
        }
    }
}

/// A cursor move on the timeline: selection stepped and scroll following.
pub open spec fn spec_timeline_nav(pre: App, post: App, r: KeyResult, up: bool) -> bool {
    let moved = if up {
        pre.selected > 0
    } else {
        pre.selected + 1 < pre.statuses@.len()
    };
    &&& if moved {
        &&& post == (App { selected: post.selected, scroll: post.scroll, ..pre })
        &&& post.selected as int == spec_nav_step(
            pre.selected as int,
            pre.statuses@.len() as int,
            up,
        )
        &&& post.scroll as int == spec_nav_scroll(
            post.selected as int,
            pre.scroll as int,
            pre.timeline_visible_rows as int,
            up,
        )
    } else {
        post == pre
    }
    &&& !r.quit
    &&& r.command is None
}

/// What the desired state of a boost or favourite toggle is: the negation
/// of the flag the viewer currently knows, an absent flag counting as
/// false.
pub open spec fn spec_toggle_desired(flag: Option<bool>) -> bool {
    match flag {
        Some(b) => !b,
        None => true,
    }
}

/// The login screen's transitions. Before a flow starts the buffer
/// composes an instance URL; afterwards it composes the authorization
/// code. `q` quits only while no flow is pending, since it is an ordinary
/// code character afterwards; every other character composes the buffer.
pub open spec fn spec_login_step(pre: App, key: Key, post: App, r: KeyResult) -> bool {
    match key {
        Key::Char(c) => if c == 'q' && pre.auth_url@.len() == 0 {
            spec_quit(pre, post, r)
        } else {
            &&& post == (App { login_code: post.login_code, ..pre })
            &&& post.login_code@ == pre.login_code@.push(c)
            &&& !r.quit
            &&& r.command is None
        },
        Key::Enter => spec_login_enter(pre, post, r),
        Key::Backspace => {
            &&& post == (App { login_code: post.login_code, ..pre })
            &&& post.login_code@ == (if pre.login_code@.len() > 0 {
                pre.login_code@.drop_last()
            } else {
                pre.login_code@
            })
            &&& !r.quit
            &&& r.command is None
        },
        _ => spec_noop(pre, post, r),
    }
}

/// Submission on the login screen. With no flow pending, a non-empty
/// input becomes the instance URL and the login flow is requested; an
/// empty URL yields a validation message and no state change beyond the
/// buffer. With a flow pending, a non-empty code is handed to the code
/// exchange; an empty one yields a validation message.
pub open spec fn spec_login_enter(pre: App, post: App, r: KeyResult) -> bool {
    let input = spec_trim(pre.login_code@);
    if pre.auth_url@.len() == 0 {
        let url = if input.len() > 0 {
            input
        } else {
            pre.instance_url@
        };
        if url.len() == 0 {
            &&& post == (App {
                login_code: post.login_code,
                login_message: post.login_message,
                ..pre
            })
            &&& post.login_code@.len() == 0
            &&& post.login_message@ == "Enter instance URL (e.g. https://mastodon.social) first."@
            &&& !r.quit
            &&& r.command is None
        } else {
            &&& post == (App {
                login_code: post.login_code,
                instance_url: post.instance_url,
                login_message: post.login_message,
                ..pre
            })
            &&& post.login_code@.len() == 0
            &&& post.instance_url@ == url
            &&& post.login_message@.len() == 0
            &&& !r.quit
            &&& r.command == Some(Command::StartLogin)
        }
    } else {
        if input.len() == 0 {
            &&& post == (App {
                login_code: post.login_code,
                login_message: post.login_message,
                ..pre
            })
            &&& post.login_code@.len() == 0
            &&& post.login_message@ == "Enter the authorization code first."@
            &&& !r.quit
            &&& r.command is None
        } else {
            &&& post == (App {
                login_code: post.login_code,
                login_message: post.login_message,
                ..pre
            })
            &&& post.login_code@.len() == 0
            &&& post.login_message@ == "Exchanging code…"@
            &&& !r.quit
            &&& (r.command matches Some(Command::ExchangeCode { code }) && code@ == input)
        }
    }
}

/// The timeline's transitions: cursor movement, opening the detail view,
/// composing, refresh and append loads, and the two dialogs.
pub open spec fn spec_timeline_step(pre: App, key: Key, post: App, r: KeyResult) -> bool {
    match key {
        Key::Char(c) => if c == 'q' {
            spec_quit(pre, post, r)
        } else if c == 'k' {
            spec_timeline_nav(pre, post, r, true)
        } else if c == 'j' {
            spec_timeline_nav(pre, post, r, false)
        } else if c == 'p' {
            if pre.has_client {
                &&& post == (App {
                    screen: Screen::Compose,
                    compose_buffer: post.compose_buffer,
                    compose_reply_to_id: None,
                    compose_error: post.compose_error,
                    ..pre
                })
                &&& post.compose_buffer@.len() == 0
                &&& post.compose_error@.len() == 0
                &&& !r.quit
                &&& r.command is None
            } else {
                spec_noop(pre, post, r)
            }
        } else if c == 'r' {
            spec_cmd_only(pre, post, r, Command::LoadTimeline { append: false })
        } else if c == 'm' {
            spec_cmd_only(pre, post, r, Command::LoadTimeline { append: true })
        } else if c == 'i' {
            spec_opened_instance_info(pre, post, r)
        } else if c == 't' {
            spec_opened_timeline_picker(pre, post, r)
        } else {
            spec_noop(pre, post, r)
        },
        Key::Up => spec_timeline_nav(pre, post, r, true),
        Key::Down => spec_timeline_nav(pre, post, r, false),
        Key::Enter => if pre.selected < pre.statuses@.len() {
            &&& post == (App {
                screen: Screen::ItemDetail,
                detail_status: post.detail_status,
                detail_message: post.detail_message,
                ..pre
            })
            &&& post.detail_status == Some(pre.statuses@[pre.selected as int])
            &&& post.detail_message@.len() == 0
            &&& !r.quit
            &&& r.command is None
        } else {
            spec_noop(pre, post, r)
        },
        _ => spec_noop(pre, post, r),
    }
}

/// The detail view's transitions: back, reply, and the two toggles, which
/// request the negation of the currently known flag.
pub open spec fn spec_detail_step(pre: App, key: Key, post: App, r: KeyResult) -> bool {
    match key {
        Key::Esc => {
            &&& post == (App {
                screen: Screen::Timeline,
                detail_message: post.detail_message,
                ..pre
            })
            &&& post.detail_message@.len() == 0
            &&& !r.quit
            &&& r.command is None
        },
        Key::Char(c) => if c == 'r' {
            if pre.has_client && pre.detail_status is Some {
                &&& post == (App {
                    screen: Screen::Compose,
                    compose_buffer: post.compose_buffer,
                    compose_reply_to_id: post.compose_reply_to_id,
                    compose_error: post.compose_error,
                    ..pre
                })
                &&& post.compose_buffer@.len() == 0
                &&& post.compose_reply_to_id == Some(pre.detail_status.unwrap().id)
                &&& post.compose_error@.len() == 0
                &&& !r.quit
                &&& r.command is None
            } else {
                spec_noop(pre, post, r)
            }
        } else if c == 'b' {
            if pre.has_client && pre.detail_status is Some {
                spec_cmd_only(
                    pre,
                    post,
                    r,
                    Command::SetBoost {
                        id: pre.detail_status.unwrap().id,
                        desired: spec_toggle_desired(pre.detail_status.unwrap().reblogged),
                    },
                )
            } else {
                spec_noop(pre, post, r)
            }
        } else if c == 'f' {
            if pre.has_client && pre.detail_status is Some {
                spec_cmd_only(
                    pre,
                    post,
                    r,
                    Command::SetFavourite {
                        id: pre.detail_status.unwrap().id,
                        desired: spec_toggle_desired(pre.detail_status.unwrap().favourited),
                    },
                )
            } else {
                spec_noop(pre, post, r)
            }
        } else if c == 'i' {
            spec_opened_instance_info(pre, post, r)
        } else {
            spec_noop(pre, post, r)
        },
        _ => spec_noop(pre, post, r),
    }
}

/// The compose screen's transitions: typing, validation and submission.
/// Escape discards the buffer and returns to where composing started.
pub open spec fn spec_compose_step(pre: App, key: Key, post: App, r: KeyResult) -> bool {
    match key {
        Key::Esc => {
            &&& post == (App {
                screen: if pre.compose_reply_to_id is Some {
                    Screen::ItemDetail
                } else {
                    Screen::Timeline
                },
                compose_buffer: post.compose_buffer,
                compose_error: post.compose_error,
                ..pre
            })
            &&& post.compose_buffer@.len() == 0
            &&& post.compose_error@.len() == 0
            &&& !r.quit
            &&& r.command is None
        },
        Key::Char(c) => if c == 'i' {
            spec_opened_instance_info(pre, post, r)
        } else {
            &&& post == (App { compose_buffer: post.compose_buffer, ..pre })
            &&& post.compose_buffer@ == pre.compose_buffer@.push(c)
            &&& !r.quit
            &&& r.command is None
        },
        Key::Enter => spec_compose_submit(pre, post, r),
        Key::Backspace => {
            &&& post == (App { compose_buffer: post.compose_buffer, ..pre })
            &&& post.compose_buffer@ == (if pre.compose_buffer@.len() > 0 {
                pre.compose_buffer@.drop_last()
            } else {
                pre.compose_buffer@
            })
            &&& !r.quit
            &&& r.command is None
        },
        _ => spec_noop(pre, post, r),
    }
}

/// The posting rules: a whitespace-only buffer is rejected as empty, text
/// over the limit is rejected with the limit restated, and anything else
/// is submitted, bound to the reply target when there is one. The buffer
/// is preserved until the submission succeeds.
pub open spec fn spec_compose_submit(pre: App, post: App, r: KeyResult) -> bool {
    let text = spec_trim(pre.compose_buffer@);
    if text.len() == 0 {
        &&& post == (App { compose_error: post.compose_error, ..pre })
        &&& post.compose_error@ == "Cannot post empty toot."@
        &&& !r.quit
        &&& r.command is None
    } else if text.len() > CHAR_LIMIT {
        &&& post == (App { compose_error: post.compose_error, ..pre })
        &&& post.compose_error@ == "Over 500 character limit."@
        &&& !r.quit
        &&& r.command is None
    } else if pre.has_client {
        &&& post == pre
        &&& !r.quit
        &&& (r.command matches Some(Command::Post { text: t, reply_to }) && t@ == text
            && reply_to == pre.compose_reply_to_id)
    } else {
        spec_noop(pre, post, r)
    }
}

/// The instance-info dialog's transitions: dismissal, logging out (or
/// jumping to the login screen), and opening the instance picker.
pub open spec fn spec_instance_info_step(pre: App, key: Key, post: App, r: KeyResult) -> bool {
    match key {
        Key::Esc => {
            &&& post == (App { screen: pre.return_screen, ..pre })
            &&& !r.quit
            &&& r.command is None
        },
        Key::Char(c) => if c == 'l' {
            if pre.has_client {
                &&& post == (App {
                    has_client: false,
                    statuses: post.statuses,
                    selected: 0,
                    scroll: 0,
                    timeline_message: post.timeline_message,
                    login_message: post.login_message,
                    screen: Screen::Login,
                    ..pre
                })
                &&& post.statuses@.len() == 0
                &&& post.timeline_message@.len() == 0
                &&& post.login_message@ == "Logged out."@
                &&& !r.quit
                &&& r.command == Some(
                    Command::Logout {
                        restart_login: pre.config is Some && pre.instance_url@.len() > 0,
                    },
                )
            } else {
                &&& post == (App {
                    screen: Screen::Login,
                    login_message: post.login_message,
                    ..pre
                })
                &&& post.login_message@.len() == 0
                &&& !r.quit
                &&& r.command is None
            }
        } else if c == 'b' {
            spec_opened_instance_picker(pre, post, r)
        } else {
            spec_noop(pre, post, r)
        },
        _ => spec_noop(pre, post, r),
    }
}

/// The instance picker's transitions: editing the URL field, moving the
/// highlight, and submitting a URL for anonymous browsing.
pub open spec fn spec_instance_picker_step(pre: App, key: Key, post: App, r: KeyResult) -> bool {
    match key {
        Key::Esc => {
            &&& post == (App {
                screen: pre.return_screen,
                instance_picker_message: post.instance_picker_message,
                ..pre
            })
            &&& post.instance_picker_message@.len() == 0
            &&& !r.quit
            &&& r.command is None
        },
        Key::Enter => spec_instance_picker_submit(pre, post, r),
        Key::Backspace => {
            &&& post == (App {
                instance_picker_input: post.instance_picker_input,
                instance_picker_message: post.instance_picker_message,
                ..pre
            })
            &&& post.instance_picker_input@ == (if pre.instance_picker_input@.len() > 0 {
                pre.instance_picker_input@.drop_last()
            } else {
                pre.instance_picker_input@
            })
            &&& post.instance_picker_message@.len() == 0
            &&& !r.quit
            &&& r.command is None
        },
        Key::Up => spec_instance_picker_move(pre, post, r, true),
        Key::Down => spec_instance_picker_move(pre, post, r, false),
        Key::Char(c) => if c == 'k' {
            spec_instance_picker_move(pre, post, r, true)
        } else if c == 'j' {
            spec_instance_picker_move(pre, post, r, false)
        } else {
            &&& post == (App {
                instance_picker_input: post.instance_picker_input,
                instance_picker_message: post.instance_picker_message,
                ..pre
            })
            &&& post.instance_picker_input@ == pre.instance_picker_input@.push(c)
            &&& post.instance_picker_message@.len() == 0
            &&& !r.quit
            &&& r.command is None
        },
        _ => spec_noop(pre, post, r),
    }
}

/// A highlight move in the instance picker.
pub open spec fn spec_instance_picker_move(pre: App, post: App, r: KeyResult, up: bool) -> bool {
    &&& post == (App { instance_picker_selected: post.instance_picker_selected, ..pre })
    &&& post.instance_picker_selected as int == spec_nav_step(
        pre.instance_picker_selected as int,
        pre.instance_picker_known@.len() as int,
        up,
    )
    &&& !r.quit
    &&& r.command is None
}

/// The URL the picker submits: the text field when it holds anything
/// after trimming, else the highlighted known instance.
pub open spec fn spec_picker_submitted_url(pre: App) -> Seq<char> {
    let typed = spec_trim(pre.instance_picker_input@);
    if typed.len() == 0 && pre.instance_picker_selected < pre.instance_picker_known@.len() {
        spec_trim(pre.instance_picker_known@[pre.instance_picker_selected as int]@)
    } else {
        typed
    }
}

/// Submission in the instance picker. An empty choice or a URL without a
/// parseable host yields a validation message and no transition; a valid
/// URL switches to anonymous browsing of that instance's public feed and
/// requests a replace-load.
pub open spec fn spec_instance_picker_submit(pre: App, post: App, r: KeyResult) -> bool {
    let url = spec_picker_submitted_url(pre);
    if url.len() == 0 {
        &&& post == (App { instance_picker_message: post.instance_picker_message, ..pre })
        &&& post.instance_picker_message@ == "Enter a URL or pick an instance."@
        &&& !r.quit
        &&& r.command is None
    } else if url_host(url) is None {
        &&& post == (App { instance_picker_message: post.instance_picker_message, ..pre })
        &&& "Invalid URL: "@.is_prefix_of(post.instance_picker_message@)
        &&& post.instance_picker_message@.len() > "Invalid URL: "@.len()
        &&& !r.quit
        &&& r.command is None
    } else {
        &&& post == (App {
            anonymous_instance_url: post.anonymous_instance_url,
            has_client: false,
            current_timeline: TimelineSelection::Public,
            statuses: post.statuses,
            selected: 0,
            scroll: 0,
            timeline_message: post.timeline_message,
            screen: Screen::Timeline,
            instance_picker_message: post.instance_picker_message,
            ..pre
        })
        &&& (post.anonymous_instance_url matches Some(u) && u@ == url)
        &&& post.statuses@.len() == 0
        &&& post.timeline_message@.len() == 0
        &&& post.instance_picker_message@.len() == 0
        &&& !r.quit
        &&& r.command == Some(Command::LoadTimeline { append: false })
    }
}

/// The timeline picker's transitions: moving the highlight, cancelling,
/// and switching the feed, which clears the items and requests a
/// replace-load of the chosen selection.
pub open spec fn spec_timeline_picker_step(pre: App, key: Key, post: App, r: KeyResult) -> bool {
    match key {
        Key::Esc => {
            &&& post == (App { screen: Screen::Timeline, ..pre })
            &&& !r.quit
            &&& r.command is None
        },
        Key::Enter => if pre.timeline_picker_selected < pre.timeline_picker_options@.len() {
            &&& post == (App {
                current_timeline: post.current_timeline,
                statuses: post.statuses,
                selected: 0,
                scroll: 0,
                timeline_message: post.timeline_message,
                screen: Screen::Timeline,
                ..pre
            })
            &&& post.current_timeline
                == pre.timeline_picker_options@[pre.timeline_picker_selected as int]
            &&& post.statuses@.len() == 0
            &&& post.timeline_message@.len() == 0
            &&& !r.quit
            &&& r.command == Some(Command::LoadTimeline { append: false })
        } else {
            spec_noop(pre, post, r)
        },
        Key::Up => spec_timeline_picker_move(pre, post, r, true),
        Key::Down => spec_timeline_picker_move(pre, post, r, false),
        Key::Char(c) => if c == 'k' {
            spec_timeline_picker_move(pre, post, r, true)
        } else if c == 'j' {
            spec_timeline_picker_move(pre, post, r, false)
        } else {
            spec_noop(pre, post, r)
        },
        _ => spec_noop(pre, post, r),
    }
}

/// A highlight move in the timeline picker.
pub open spec fn spec_timeline_picker_move(pre: App, post: App, r: KeyResult, up: bool) -> bool {
    &&& post == (App { timeline_picker_selected: post.timeline_picker_selected, ..pre })
    &&& post.timeline_picker_selected as int == spec_nav_step(
        pre.timeline_picker_selected as int,
        pre.timeline_picker_options@.len() as int,
        up,
    )
    &&& !r.quit
    &&& r.command is None
}

/// Every keystroke is dispatched to exactly one per-screen transition,
/// selected by the screen that was active when it arrived.
pub open spec fn spec_handle_key(pre: App, key: Key, post: App, r: KeyResult) -> bool {
    match pre.screen {
        Screen::Login => spec_login_step(pre, key, post, r),
        Screen::Timeline => spec_timeline_step(pre, key, post, r),
        Screen::ItemDetail => spec_detail_step(pre, key, post, r),
        Screen::Compose => spec_compose_step(pre, key, post, r),
        Screen::InstanceInfo => spec_instance_info_step(pre, key, post, r),
        Screen::InstancePicker => spec_instance_picker_step(pre, key, post, r),
        Screen::TimelinePicker => spec_timeline_picker_step(pre, key, post, r),
    }
}

impl App {
    fn no_effect() -> (r: KeyResult)
        ensures
            !r.quit,
            r.command is None,
    {
        KeyResult { quit: false, command: None }
    }

    fn open_instance_info(&mut self) -> (r: KeyResult)
        ensures
            spec_opened_instance_info(*old(self), *final(self), r),
    {
        self.return_screen = self.screen;
        self.screen = Screen::InstanceInfo;
        App::no_effect()
    }

    fn open_instance_picker(&mut self) -> (r: KeyResult)
        ensures
            spec_opened_instance_picker(*old(self), *final(self), r),
    {
        let mut known: Vec<String> = Vec::new();
        match &self.config {
            Some(c) => {
                known.push(c.instance_url.clone());
                proof {
                    assert(known@ =~= seq![self.config.unwrap().instance_url]);
                }
            },
            None => {},
        }
        let ghost base = known@;
        match &self.anonymous_instance_url {
            Some(u) => {
                let found = contains_string(&known, u);
                if !found {
                    known.push(u.clone());
                }
            },
            None => {},
        }
        proof {
            let anon = self.anonymous_instance_url;
            let spec_known = spec_picker_known(self.config, anon);
            match anon {
                Some(u0) => {
                    if seq_contains_str(base, u0) {
                        assert(known@ == base);
                        assert(spec_known == base);
                    } else {
                        assert(known@ =~= base.push(u0));
                        assert(spec_known == base.push(u0));
                    }
                },
                None => {
                    assert(known@ == base);
                    assert(spec_known == base);
                },
            }
            assert(known@ == spec_known);
        }
        self.return_screen = self.screen;
        self.screen = Screen::InstancePicker;
        self.instance_picker_input = String::new();
        self.instance_picker_known = known;
        self.instance_picker_selected = 0;
        self.instance_picker_message = String::new();
        App::no_effect()
    }

    fn open_timeline_picker(&mut self) -> (r: KeyResult)
        ensures
            spec_opened_timeline_picker(*old(self), *final(self), r),
    {
        self.timeline_picker_lists_message = String::new();
        let mut options: Vec<TimelineSelection> = Vec::new();
        if self.has_client {
            options.push(TimelineSelection::Home);
            options.push(TimelineSelection::Local);
            options.push(TimelineSelection::Public);
            proof {
                assert(options@ =~= spec_builtin_options(true));
            }
        } else {
            options.push(TimelineSelection::Public);
            proof {
                assert(options@ =~= spec_builtin_options(false));
            }
        }
        let idx = first_selection_match(&options, &self.current_timeline, 0);
        self.timeline_picker_options = options;
        self.timeline_picker_selected = idx;
        self.screen = Screen::TimelinePicker;
        let command: Option<Command> = if self.has_client {
            Some(Command::FetchLists)
        } else {
            None
        };
        KeyResult { quit: false, command }
    }

    fn handle_login_key(&mut self, key: Key) -> (r: KeyResult)
        ensures
            spec_login_step(*old(self), key, *final(self), r),
    {
        match key {
            Key::Char(c) => {
                if c == 'q' && self.auth_url.as_str().is_empty() {
                    KeyResult { quit: true, command: None }
                } else {
                    push_char(&mut self.login_code, c);
                    App::no_effect()
                }
            },
            Key::Enter => self.login_enter(),
            Key::Backspace => {
                pop_char(&mut self.login_code);
                App::no_effect()
            },
            _ => App::no_effect(),
        }
    }

    fn login_enter(&mut self) -> (r: KeyResult)
        ensures
            spec_login_enter(*old(self), *final(self), r),
    {
        let input = String::from_str(trim(self.login_code.as_str()));
        self.login_code = String::new();
        if self.auth_url.as_str().is_empty() {
            if !input.as_str().is_empty() {
                self.instance_url = input;
            }
            if self.instance_url.as_str().is_empty() {
                self.login_message = String::from_str(
                    "Enter instance URL (e.g. https://mastodon.social) first.",
                );
                App::no_effect()
            } else {
                self.login_message = String::new();
                KeyResult { quit: false, command: Some(Command::StartLogin) }
            }
        } else {
            if input.as_str().is_empty() {
                self.login_message = String::from_str("Enter the authorization code first.");
                App::no_effect()
            } else {
                self.login_message = String::from_str("Exchanging code…");
                KeyResult { quit: false, command: Some(Command::ExchangeCode { code: input }) }
            }
        }
    }

    fn timeline_nav(&mut self, up: bool) -> (r: KeyResult)
        ensures
            spec_timeline_nav(*old(self), *final(self), r, up),
    {
        if up {
            if self.selected > 0 {
                self.selected = self.selected - 1;
                if self.selected < self.scroll {
                    self.scroll = self.selected;
                }
            }
        } else {
            if self.statuses.len() > 0 && self.selected < self.statuses.len() - 1 {
                self.selected = self.selected + 1;
                if self.selected >= self.scroll && self.selected - self.scroll
                    >= self.timeline_visible_rows {
                    let next = self.selected + 1;
                    self.scroll = if next >= self.timeline_visible_rows {
                        next - self.timeline_visible_rows
                    } else {
                        0
                    };
                }
            }
        }
        App::no_effect()
    }

    fn handle_timeline_key(&mut self, key: Key) -> (r: KeyResult)
        ensures
            spec_timeline_step(*old(self), key, *final(self), r),
    {
        match key {
            Key::Char(c) => {
                if c == 'q' {
                    KeyResult { quit: true, command: None }
                } else if c == 'k' {
                    self.timeline_nav(true)
                } else if c == 'j' {
                    self.timeline_nav(false)
                } else if c == 'p' {
                    if self.has_client {
                        self.compose_buffer = String::new();
                        self.compose_reply_to_id = None;
                        self.compose_error = String::new();
                        self.screen = Screen::Compose;
                    }
                    App::no_effect()
                } else if c == 'r' {
                    KeyResult {
                        quit: false,
                        command: Some(Command::LoadTimeline { append: false }),
                    }
                } else if c == 'm' {
                    KeyResult { quit: false, command: Some(Command::LoadTimeline { append: true }) }
                } else if c == 'i' {
                    self.open_instance_info()
                } else if c == 't' {
                    self.open_timeline_picker()
                } else {
                    App::no_effect()
                }
            },
            Key::Up => self.timeline_nav(true),
            Key::Down => self.timeline_nav(false),
            Key::Enter => {
                if self.selected < self.statuses.len() {
                    let s = self.statuses[self.selected].dup();
                    self.detail_status = Some(s);
                    self.detail_message = String::new();
                    self.screen = Screen::ItemDetail;
                }
                App::no_effect()
            },
            _ => App::no_effect(),
        }
    }

    fn handle_detail_key(&mut self, key: Key) -> (r: KeyResult)
        ensures
            spec_detail_step(*old(self), key, *final(self), r),
    {
        match key {
            Key::Esc => {
                self.screen = Screen::Timeline;
                self.detail_message = String::new();
                App::no_effect()
            },
            Key::Char(c) => {
                if c == 'r' {
                    if self.has_client {
                        match &self.detail_status {
                            Some(s) => {
                                let id = s.id.clone();
                                self.compose_buffer = String::new();
                                self.compose_reply_to_id = Some(id);
                                self.compose_error = String::new();
                                self.screen = Screen::Compose;
                                App::no_effect()
                            },
                            None => App::no_effect(),
                        }
                    } else {
                        App::no_effect()
                    }
                } else if c == 'b' {
                    if self.has_client {
                        match &self.detail_status {
                            Some(s) => {
                                let id = s.id.clone();
                                let desired = match s.reblogged {
                                    Some(b) => !b,
                                    None => true,
                                };
                                KeyResult {
                                    quit: false,
                                    command: Some(Command::SetBoost { id, desired }),
                                }
                            },
                            None => App::no_effect(),
                        }
                    } else {
                        App::no_effect()
                    }
                } else if c == 'f' {
                    if self.has_client {
                        match &self.detail_status {
                            Some(s) => {
                                let id = s.id.clone();
                                let desired = match s.favourited {
                                    Some(b) => !b,
                                    None => true,
                                };
                                KeyResult {
                                    quit: false,
                                    command: Some(Command::SetFavourite { id, desired }),
                                }
                            },
                            None => App::no_effect(),
                        }
                    } else {
                        App::no_effect()
                    }
                } else if c == 'i' {
                    self.open_instance_info()
                } else {
                    App::no_effect()
                }
            },
            _ => App::no_effect(),
        }
    }

    fn handle_compose_key(&mut self, key: Key) -> (r: KeyResult)
        ensures
            spec_compose_step(*old(self), key, *final(self), r),
    {
        match key {
            Key::Esc => {
                self.screen = if self.compose_reply_to_id.is_some() {
                    Screen::ItemDetail
                } else {
                    Screen::Timeline
                };
                self.compose_buffer = String::new();
                self.compose_error = String::new();
                App::no_effect()
            },
            Key::Char(c) => {
                if c == 'i' {
                    self.open_instance_info()
                } else {
                    push_char(&mut self.compose_buffer, c);
                    App::no_effect()
                }
            },
            Key::Enter => self.compose_submit(),
            Key::Backspace => {
                pop_char(&mut self.compose_buffer);
                App::no_effect()
            },
            _ => App::no_effect(),
        }
    }

    fn compose_submit(&mut self) -> (r: KeyResult)
        ensures
            spec_compose_submit(*old(self), *final(self), r),
    {
        let text = String::from_str(trim(self.compose_buffer.as_str()));
        if text.as_str().is_empty() {
            self.compose_error = String::from_str("Cannot post empty toot.");
            App::no_effect()
        } else if text.as_str().unicode_len() > CHAR_LIMIT {
            self.compose_error = String::from_str("Over 500 character limit.");
            App::no_effect()
        } else if self.has_client {
            let reply_to: Option<String> = match &self.compose_reply_to_id {
                Some(x) => Some(x.clone()),
                None => None,
            };
            KeyResult { quit: false, command: Some(Command::Post { text, reply_to }) }
        } else {
            App::no_effect()
        }
    }

    fn handle_instance_info_key(&mut self, key: Key) -> (r: KeyResult)
        ensures
            spec_instance_info_step(*old(self), key, *final(self), r),
    {
        match key {
            Key::Esc => {
                self.screen = self.return_screen;
                App::no_effect()
            },
            Key::Char(c) => {
                if c == 'l' {
                    if self.has_client {
                        self.has_client = false;
                        self.statuses = Vec::new();
                        self.selected = 0;
                        self.scroll = 0;
                        self.timeline_message = String::new();
                        self.login_message = String::from_str("Logged out.");
                        self.screen = Screen::Login;
                        let restart_login = self.config.is_some() && !self.instance_url.as_str()
                            .is_empty();
                        KeyResult { quit: false, command: Some(Command::Logout { restart_login }) }
                    } else {
                        self.screen = Screen::Login;
                        self.login_message = String::new();
                        App::no_effect()
                    }
                } else if c == 'b' {
                    self.open_instance_picker()
                } else {
                    App::no_effect()
                }
            },
            _ => App::no_effect(),
        }
    }

    fn instance_picker_move(&mut self, up: bool) -> (r: KeyResult)
        ensures
            spec_instance_picker_move(*old(self), *final(self), r, up),
    {
        if up {
            if self.instance_picker_selected > 0 {
                self.instance_picker_selected = self.instance_picker_selected - 1;
            }
        } else {
            if self.instance_picker_known.len() > 0 && self.instance_picker_selected
                < self.instance_picker_known.len() - 1 {
                self.instance_picker_selected = self.instance_picker_selected + 1;
            }
        }
        App::no_effect()
    }

    fn handle_instance_picker_key(&mut self, key: Key) -> (r: KeyResult)
        ensures
            spec_instance_picker_step(*old(self), key, *final(self), r),
    {
        match key {
            Key::Esc => {
                self.screen = self.return_screen;
                self.instance_picker_message = String::new();
                App::no_effect()
            },
            Key::Enter => self.instance_picker_submit(),
            Key::Backspace => {
                pop_char(&mut self.instance_picker_input);
                self.instance_picker_message = String::new();
                App::no_effect()
            },
            Key::Up => self.instance_picker_move(true),
            Key::Down => self.instance_picker_move(false),
            Key::Char(c) => {
                if c == 'k' {
                    self.instance_picker_move(true)
                } else if c == 'j' {
                    self.instance_picker_move(false)
                } else {
                    push_char(&mut self.instance_picker_input, c);
                    self.instance_picker_message = String::new();
                    App::no_effect()
                }
            },
            _ => App::no_effect(),
        }
    }

    fn instance_picker_submit(&mut self) -> (r: KeyResult)
        ensures
            spec_instance_picker_submit(*old(self), *final(self), r),
    {
        let typed = String::from_str(trim(self.instance_picker_input.as_str()));
        let url: String = if typed.as_str().is_empty() && self.instance_picker_selected
            < self.instance_picker_known.len() {
            String::from_str(
                trim(self.instance_picker_known[self.instance_picker_selected].as_str()),
            )
        } else {
            typed
        };
        if url.as_str().is_empty() {
            self.instance_picker_message = String::from_str("Enter a URL or pick an instance.");
            App::no_effect()
        } else {
            match instance_host_from_url(url.as_str()) {
                Err(e) => {
                    let msg = String::from_str("Invalid URL: ").concat(e.message().as_str());
                    proof {
                        assert(msg@.subrange(0, "Invalid URL: "@.len() as int) =~= "Invalid URL: "@);
                        reveal_strlit("Invalid URL: ");
                        reveal_strlit("Config error: ");
                        assert(e.spec_message().len() > 0);
                    }
                    self.instance_picker_message = msg;
                    App::no_effect()
                },
                Ok(_) => {
                    self.anonymous_instance_url = Some(url);
                    self.has_client = false;
                    self.current_timeline = TimelineSelection::Public;
                    self.statuses = Vec::new();
                    self.selected = 0;
                    self.scroll = 0;
                    self.timeline_message = String::new();
                    self.screen = Screen::Timeline;
                    self.instance_picker_message = String::new();
                    KeyResult {
                        quit: false,
                        command: Some(Command::LoadTimeline { append: false }),
                    }
                },
            }
        }
    }

    fn timeline_picker_move(&mut self, up: bool) -> (r: KeyResult)
        ensures
            spec_timeline_picker_move(*old(self), *final(self), r, up),
    {
        if up {
            if self.timeline_picker_selected > 0 {
                self.timeline_picker_selected = self.timeline_picker_selected - 1;
            }
        } else {
            if self.timeline_picker_options.len() > 0 && self.timeline_picker_selected
                < self.timeline_picker_options.len() - 1 {
                self.timeline_picker_selected = self.timeline_picker_selected + 1;
            }
        }
        App::no_effect()
    }

    fn handle_timeline_picker_key(&mut self, key: Key) -> (r: KeyResult)
        ensures
            spec_timeline_picker_step(*old(self), key, *final(self), r),
    {
        match key {
            Key::Esc => {
                self.screen = Screen::Timeline;
                App::no_effect()
            },
            Key::Enter => {
                if self.timeline_picker_selected < self.timeline_picker_options.len() {
                    let sel = self.timeline_picker_options[self.timeline_picker_selected].dup();
                    self.current_timeline = sel;
                    self.statuses = Vec::new();
                    self.selected = 0;
                    self.scroll = 0;
                    self.timeline_message = String::new();
                    self.screen = Screen::Timeline;
                    KeyResult {
                        quit: false,
                        command: Some(Command::LoadTimeline { append: false }),
                    }
                } else {
                    App::no_effect()
                }
            },
            Key::Up => self.timeline_picker_move(true),
            Key::Down => self.timeline_picker_move(false),
            Key::Char(c) => {
                if c == 'k' {
                    self.timeline_picker_move(true)
                } else if c == 'j' {
                    self.timeline_picker_move(false)
                } else {
                    App::no_effect()
                }
            },
            _ => App::no_effect(),
        }
    }

    /// Dispatch one keystroke to the transition of the active screen.
    /// The whole behaviour is stated by [`spec_handle_key`].
    pub fn handle_key(&mut self, key: Key) -> (r: KeyResult)
        ensures
            spec_handle_key(*old(self), key, *final(self), r),
    {
        match self.screen {
            Screen::Login => self.handle_login_key(key),
            Screen::Timeline => self.handle_timeline_key(key),
            Screen::ItemDetail => self.handle_detail_key(key),
            Screen::Compose => self.handle_compose_key(key),
            Screen::InstanceInfo => self.handle_instance_info_key(key),
            Screen::InstancePicker => self.handle_instance_picker_key(key),
            Screen::TimelinePicker => self.handle_timeline_picker_key(key),
        }
    }
}

/// Whether some entry of `v` holds the same characters as `u`.
fn contains_string(v: &Vec<String>, u: &String) -> (b: bool)
    ensures
        b == seq_contains_str(v@, *u),
{
    let mut i: usize = 0;
    while i < v.len()
        invariant
            0 <= i <= v@.len(),
            forall|j: int| #![trigger v@[j]] 0 <= j < i ==> v@[j]@ != u@,
        decreases v@.len() - i,
    {
        if v[i].eq(u) {
            proof {
                assert(v@[i as int]@ == u@);
            }
            return true;
        }
        i = i + 1;
    }
    proof {
        assert(!seq_contains_str(v@, *u)) by {
            if seq_contains_str(v@, *u) {
                let j0 = choose|j: int| #![trigger v@[j]] 0 <= j < v@.len() && v@[j]@ == u@;
                assert(v@[j0]@ != u@);
            }
        }
    }
    false
}

/// The index of the first option at or after `i` naming the same feed as
/// `cur`, or 0 when none does.
fn first_selection_match(
    options: &Vec<TimelineSelection>,
    cur: &TimelineSelection,
    i: usize,
) -> (r: usize)
    requires
        i <= options@.len(),
    ensures
        r as int == spec_first_match(options@, *cur, i as int),
    decreases options@.len() - i,
{
    if i >= options.len() {
        0
    } else if options[i].eq(cur) {
        i
    } else {
        first_selection_match(options, cur, i + 1)
    }
}

// ---------------------------------------------------------------------
// Loads and outcome reports. The runner performs each command and hands
// the outcome back through exactly one of the apply functions below; the
// contracts state the state change for every possible outcome, and in
// particular the recovery forced by an authentication rejection.
// ---------------------------------------------------------------------
/// What a feed fetch came back with. The gateway deletes the stored token
/// itself before reporting `AuthRejected`.
#[derive(Debug)]
pub enum LoadOutcome {
    /// The fetched page, newest first.
    Loaded(Vec<Status>),
    /// The remote service rejected the credential.
    AuthRejected,
    /// Any other failure, as display text.
    Failed(String),
}

/// What [`App::begin_load`] decided: nothing to fetch, or a fetch of the
/// current selection with the pagination cursor to use.
#[derive(Debug, PartialEq)]
pub enum LoadPlan {
    /// No content source is configured; nothing was started.
    Skip,
    /// Fetch, asking for items strictly older than `cursor` when present.
    Fetch { cursor: Option<String> },
}

/// What beginning the login flow came back with.
#[derive(Debug)]
pub enum StartLoginOutcome {
    /// The registration in force and the authorization request built.
    Started { client_id: String, auth_url: String, pkce_verifier: String },
    /// The flow could not start; display text.
    Failed(String),
}

/// What the authorization-code exchange came back with. On success the
/// runner has already persisted the token and built the live client.
#[derive(Debug)]
pub enum ExchangeOutcome {
    Exchanged,
    Failed(String),
}

/// What a post submission came back with.
#[derive(Debug)]
pub enum PostOutcome {
    Posted,
    AuthRejected,
    Failed(String),
}

/// What a boost or favourite toggle came back with.
#[derive(Debug)]
pub enum ToggleOutcome {
    /// The server's updated status, with authoritative flags.
    Toggled(Status),
    AuthRejected,
    Failed(String),
}

/// Which flag a toggle concerned.
#[derive(Debug, Clone, Copy, PartialEq, Eq, Structural)]
pub enum ToggleKind {
    Boost,
    Favourite,
}

/// What the list enumeration came back with.
#[derive(Debug)]
pub enum ListsOutcome {
    Loaded(Vec<List>),
    AuthRejected,
    Failed(String),
}

/// The message shown after the remote side invalidated the credential.
pub open spec fn spec_session_expired() -> Seq<char> {
    "Session expired. Please log in again."@
}

/// The follow-up after an authentication rejection: restart the login
/// flow when a configuration is known, so the user need only re-authorize.
pub open spec fn spec_relogin_cmd(pre: App) -> Option<Command> {
    if pre.config is Some {
        Some(Command::StartLogin)
    } else {
        None
    }
}

/// The state change every authentication rejection forces: the credential
/// is dropped and the session returns to the login screen with a message.
pub open spec fn spec_auth_rejected(pre: App, post: App, cmd: Option<Command>) -> bool {
    &&& post == (App {
        has_client: false,
        screen: Screen::Login,
        login_message: post.login_message,
        ..pre
    })
    &&& post.login_message@ == spec_session_expired()
    &&& cmd == spec_relogin_cmd(pre)
}

/// The pagination cursor a load uses: the identifier of the oldest loaded
/// item on an append-load of a non-empty feed, nothing otherwise.
pub open spec fn spec_load_cursor(pre: App, append: bool) -> Option<String> {
    if append && pre.statuses@.len() > 0 {
        Some(pre.statuses@.last().id)
    } else {
        None
    }
}

impl App {
    fn auth_rejected_recovery(&mut self) -> (cmd: Option<Command>)
        ensures
            spec_auth_rejected(*old(self), *final(self), cmd),
    {
        self.has_client = false;
        self.screen = Screen::Login;
        self.login_message = String::from_str("Session expired. Please log in again.");
        if self.config.is_some() {
            Some(Command::StartLogin)
        } else {
            None
        }
    }

    /// The instance URL a login flow acts on: the field, trimmed.
    pub fn trimmed_instance_url(&self) -> (r: String)
        ensures
            r@ == spec_trim(self.instance_url@),
    {
        String::from_str(trim(self.instance_url.as_str()))
    }

    /// Start a feed load: mark the feed loading, clear the prior error and
    /// choose the pagination cursor. With no content source configured
    /// nothing happens and the plan says so.
    pub fn begin_load(&mut self, append: bool) -> (plan: LoadPlan)
        ensures
            old(self).spec_has_source() ==> {
                &&& *final(self) == (App {
                    loading: true,
                    timeline_message: final(self).timeline_message,
                    ..*old(self)
                })
                &&& final(self).timeline_message@.len() == 0
                &&& plan == (LoadPlan::Fetch { cursor: spec_load_cursor(*old(self), append) })
            },
            !old(self).spec_has_source() ==> *final(self) == *old(self) && plan == LoadPlan::Skip,
    {
        if !(self.has_client || self.anonymous_instance_url.is_some()) {
            return LoadPlan::Skip;
        }
        self.loading = true;
        self.timeline_message = String::new();
        let cursor: Option<String> = if append && self.statuses.len() > 0 {
            Some(self.statuses[self.statuses.len() - 1].id.clone())
        } else {
            None
        };
        LoadPlan::Fetch { cursor }
    }

    /// Merge a finished load. A load that used a cursor appends the new
    /// page after the existing items, never deduplicating; one that did
    /// not replaces the items wholesale. An authentication rejection
    /// forces the login screen instead; any other failure leaves the items
    /// untouched and records the error, which also disarms the idle
    /// auto-load.
    pub fn finish_load(&mut self, used_cursor: bool, outcome: LoadOutcome) -> (cmd: Option<
        Command,
    >)
        ensures
            match outcome {
                LoadOutcome::Loaded(items) => {
                    &&& *final(self) == (App {
                        statuses: final(self).statuses,
                        loading: false,
                        ..*old(self)
                    })
                    &&& final(self).statuses@ == (if used_cursor {
                        old(self).statuses@ + items@
                    } else {
                        items@
                    })
                    &&& cmd is None
                },
                LoadOutcome::AuthRejected => {
                    &&& *final(self) == (App {
                        has_client: false,
                        screen: Screen::Login,
                        login_message: final(self).login_message,
                        loading: false,
                        ..*old(self)
                    })
                    &&& final(self).login_message@ == spec_session_expired()
                    &&& cmd == spec_relogin_cmd(*old(self))
                },
                LoadOutcome::Failed(msg) => {
                    &&& *final(self) == (App {
                        timeline_message: final(self).timeline_message,
                        loading: false,
                        ..*old(self)
                    })
                    &&& final(self).timeline_message@ == "Failed to load timeline: "@ + msg@
                    &&& cmd is None
                },
            },
    {
        let cmd: Option<Command> = match outcome {
            LoadOutcome::Loaded(mut items) => {
                if used_cursor {
                    self.statuses.append(&mut items);
                } else {
                    self.statuses = items;
                }
                None
            },
            LoadOutcome::AuthRejected => self.auth_rejected_recovery(),
            LoadOutcome::Failed(msg) => {
                self.timeline_message = String::from_str("Failed to load timeline: ").concat(
                    msg.as_str(),
                );
                None
            },
        };
        self.loading = false;
        cmd
    }

    /// Record what beginning the login flow produced. On success the
    /// registration is persisted into the configuration (canonicalised,
    /// never holding the secret), and the authorization URL and PKCE
    /// verifier are held for the code exchange. On failure a message is
    /// shown only when the flow was submitted by hand (`announce_failure`);
    /// the flows restarted automatically after logout or expiry fail
    /// silently, and no partial state is left either way.
    pub fn apply_login_started(&mut self, outcome: StartLoginOutcome, announce_failure: bool)
        ensures
            match outcome {
                StartLoginOutcome::Started { client_id, auth_url, pkce_verifier } => {
                    &&& *final(self) == (App {
                        config: final(self).config,
                        auth_url: final(self).auth_url,
                        pkce_verifier: final(self).pkce_verifier,
                        ..*old(self)
                    })
                    &&& (final(self).config matches Some(c) && c.instance_url@
                        == crate::strutil::spec_trim_slashes(spec_trim(old(self).instance_url@))
                        && c.client_id@ == client_id@)
                    &&& final(self).auth_url == auth_url
                    &&& final(self).pkce_verifier == pkce_verifier
                },
                StartLoginOutcome::Failed(msg) => if announce_failure {
                    &&& *final(self) == (App { login_message: final(self).login_message, ..*old(self) })
                    &&& final(self).login_message@ == "Failed to start login: "@ + msg@
                } else {
                    *final(self) == *old(self)
                },
            },
    {
        match outcome {
            StartLoginOutcome::Started { client_id, auth_url, pkce_verifier } => {
                let url = self.trimmed_instance_url();
                self.config = Some(AppConfig::new(url.as_str(), client_id.as_str()));
                self.auth_url = auth_url;
                self.pkce_verifier = pkce_verifier;
            },
            StartLoginOutcome::Failed(msg) => {
                if announce_failure {
                    self.login_message = String::from_str("Failed to start login: ").concat(
                        msg.as_str(),
                    );
                }
            },
        }
    }

    /// Record what the code exchange produced. On success the credential
    /// is held, the pending authorization is consumed, the session moves
    /// to the timeline and a replace-load is requested; on failure the
    /// code may be re-submitted, the verifier not being consumed until
    /// success.
    pub fn apply_code_exchanged(&mut self, outcome: ExchangeOutcome) -> (cmd: Option<Command>)
        ensures
            match outcome {
                ExchangeOutcome::Exchanged => {
                    &&& *final(self) == (App {
                        has_client: true,
                        screen: Screen::Timeline,
                        auth_url: final(self).auth_url,
                        pkce_verifier: final(self).pkce_verifier,
                        login_message: final(self).login_message,
                        ..*old(self)
                    })
                    &&& final(self).auth_url@.len() == 0
                    &&& final(self).pkce_verifier@.len() == 0
                    &&& final(self).login_message@.len() == 0
                    &&& cmd == Some(Command::LoadTimeline { append: false })
                },
                ExchangeOutcome::Failed(msg) => {
                    &&& *final(self) == (App { login_message: final(self).login_message, ..*old(self) })
                    &&& final(self).login_message@ == "Login failed: "@ + msg@
                    &&& cmd is None
                },
            },
    {
        match outcome {
            ExchangeOutcome::Exchanged => {
                self.has_client = true;
                self.screen = Screen::Timeline;
                self.auth_url = String::new();
                self.pkce_verifier = String::new();
                self.login_message = String::new();
                Some(Command::LoadTimeline { append: false })
            },
            ExchangeOutcome::Failed(msg) => {
                self.login_message = String::from_str("Login failed: ").concat(msg.as_str());
                None
            },
        }
    }

    /// Record what a post submission produced. On success the buffer and
    /// the reply binding are cleared, composing returns to where it
    /// started, and a replace-load is requested. On failure the buffer is
    /// preserved so the user can retry.
    pub fn apply_post_result(&mut self, outcome: PostOutcome) -> (cmd: Option<Command>)
        ensures
            match outcome {
                PostOutcome::Posted => {
                    &&& *final(self) == (App {
                        compose_buffer: final(self).compose_buffer,
                        compose_reply_to_id: None,
                        compose_error: final(self).compose_error,
                        screen: if old(self).compose_reply_to_id is Some {
                            Screen::ItemDetail
                        } else {
                            Screen::Timeline
                        },
                        ..*old(self)
                    })
                    &&& final(self).compose_buffer@.len() == 0
                    &&& final(self).compose_error@.len() == 0
                    &&& cmd == Some(Command::LoadTimeline { append: false })
                },
                PostOutcome::AuthRejected => spec_auth_rejected(*old(self), *final(self), cmd),
                PostOutcome::Failed(msg) => {
                    &&& *final(self) == (App { compose_error: final(self).compose_error, ..*old(self) })
                    &&& final(self).compose_error@ == "Post failed: "@ + msg@
                    &&& cmd is None
                },
            },
    {
        match outcome {
            PostOutcome::Posted => {
                let was_reply = self.compose_reply_to_id.is_some();
                self.compose_buffer = String::new();
                self.compose_reply_to_id = None;
                self.compose_error = String::new();
                self.screen = if was_reply {
                    Screen::ItemDetail
                } else {
                    Screen::Timeline
                };
                Some(Command::LoadTimeline { append: false })
            },
            PostOutcome::AuthRejected => self.auth_rejected_recovery(),
            PostOutcome::Failed(msg) => {
                self.compose_error = String::from_str("Post failed: ").concat(msg.as_str());
                None
            },
        }
    }

    /// Record what a toggle produced. On success the server's returned
    /// status replaces the detail item and a one-line confirmation names
    /// the new state; on failure the prior item stays untouched and the
    /// error is shown instead.
    pub fn apply_toggle_result(
        &mut self,
        kind: ToggleKind,
        desired: bool,
        outcome: ToggleOutcome,
    ) -> (cmd: Option<Command>)
        ensures
            match outcome {
                ToggleOutcome::Toggled(updated) => {
                    &&& *final(self) == (App {
                        detail_status: final(self).detail_status,
                        detail_message: final(self).detail_message,
                        ..*old(self)
                    })
                    &&& final(self).detail_status == Some(updated)
                    &&& final(self).detail_message@ == (match kind {
                        ToggleKind::Boost => if desired {
                            "Boosted."@
                        } else {
                            "Unboosted."@
                        },
                        ToggleKind::Favourite => if desired {
                            "Favourited."@
                        } else {
                            "Unfavourited."@
                        },
                    })
                    &&& cmd is None
                },
                ToggleOutcome::AuthRejected => spec_auth_rejected(*old(self), *final(self), cmd),
                ToggleOutcome::Failed(msg) => {
                    &&& *final(self) == (App { detail_message: final(self).detail_message, ..*old(self) })
                    &&& final(self).detail_message@ == "Error: "@ + msg@
                    &&& cmd is None
                },
            },
    {
        match outcome {
            ToggleOutcome::Toggled(updated) => {
                self.detail_status = Some(updated);
                self.detail_message = match kind {
                    ToggleKind::Boost => if desired {
                        String::from_str("Boosted.")
                    } else {
                        String::from_str("Unboosted.")
                    },
                    ToggleKind::Favourite => if desired {
                        String::from_str("Favourited.")
                    } else {
                        String::from_str("Unfavourited.")
                    },
                };
                None
            },
            ToggleOutcome::AuthRejected => self.auth_rejected_recovery(),
            ToggleOutcome::Failed(msg) => {
                self.detail_message = String::from_str("Error: ").concat(msg.as_str());
                None
            },
        }
    }

    /// Record what the list enumeration produced. On success the picker
    /// offers the built-in feeds followed by one option per list, with the
    /// current feed highlighted; a failure is a non-fatal hint and the
    /// built-in feeds stay on offer.
    pub fn apply_lists_result(&mut self, outcome: ListsOutcome) -> (cmd: Option<Command>)
        ensures
            match outcome {
                ListsOutcome::Loaded(lists) => {
                    &&& *final(self) == (App {
                        lists: final(self).lists,
                        timeline_picker_options: final(self).timeline_picker_options,
                        timeline_picker_selected: final(self).timeline_picker_selected,
                        timeline_picker_lists_message: final(self).timeline_picker_lists_message,
                        ..*old(self)
                    })
                    &&& final(self).lists == lists
                    &&& final(self).timeline_picker_options@ == spec_builtin_options(
                        old(self).has_client,
                    ) + lists@.map_values(
                        |l: List| TimelineSelection::List { id: l.id, title: l.title },
                    )
                    &&& final(self).timeline_picker_selected as int == spec_first_match(
                        final(self).timeline_picker_options@,
                        old(self).current_timeline,
                        0,
                    )
                    &&& final(self).timeline_picker_lists_message@.len() == 0
                    &&& cmd is None
                },
                ListsOutcome::AuthRejected => spec_auth_rejected(*old(self), *final(self), cmd),
                ListsOutcome::Failed(_) => {
                    &&& *final(self) == (App {
                        lists: final(self).lists,
                        timeline_picker_lists_message: final(self).timeline_picker_lists_message,
                        ..*old(self)
                    })
                    &&& final(self).lists@.len() == 0
                    &&& final(self).timeline_picker_lists_message@
                        == "Lists unavailable. Re-login to enable list timelines."@
                    &&& cmd is None
                },
            },
    {
        match outcome {
            ListsOutcome::Loaded(lists) => {
                let mut options: Vec<TimelineSelection> = Vec::new();
                if self.has_client {
                    options.push(TimelineSelection::Home);
                    options.push(TimelineSelection::Local);
                    options.push(TimelineSelection::Public);
                    proof {
                        assert(options@ =~= spec_builtin_options(true));
                    }
                } else {
                    options.push(TimelineSelection::Public);
                    proof {
                        assert(options@ =~= spec_builtin_options(false));
                    }
                }
                let ghost builtins = options@;
                let ghost f = |l: List| TimelineSelection::List { id: l.id, title: l.title };
                let mut i: usize = 0;
                while i < lists.len()
                    invariant
                        0 <= i <= lists@.len(),
                        options@ == builtins + lists@.subrange(0, i as int).map_values(
                            |l: List| TimelineSelection::List { id: l.id, title: l.title },
                        ),
                    decreases lists@.len() - i,
                {
                    let ghost before = options@;
                    options.push(
                        TimelineSelection::List {
                            id: lists[i].id.clone(),
                            title: lists[i].title.clone(),
                        },
                    );
                    proof {
                        let g = |l: List| TimelineSelection::List { id: l.id, title: l.title };
                        assert(lists@.subrange(0, i + 1).map_values(g) =~= lists@.subrange(
                            0,
                            i as int,
                        ).map_values(g).push(g(lists@[i as int])));
                        assert(options@ =~= builtins + lists@.subrange(0, i + 1).map_values(g));
                    }
                    i = i + 1;
                }
                proof {
                    assert(lists@.subrange(0, lists@.len() as int) =~= lists@);
                }
                let idx = first_selection_match(&options, &self.current_timeline, 0);
                self.lists = lists;
                self.timeline_picker_options = options;
                self.timeline_picker_selected = idx;
                self.timeline_picker_lists_message = String::new();
                None
            },
            ListsOutcome::AuthRejected => self.auth_rejected_recovery(),
            ListsOutcome::Failed(_) => {
                self.lists = Vec::new();
                self.timeline_picker_lists_message = String::from_str(
                    "Lists unavailable. Re-login to enable list timelines.",
                );
                None
            },
        }
    }
}

// ---------------------------------------------------------------------
// Laws: properties of the controller stated and proved on their own, over
// the same transition relations the executable functions ensure.
// ---------------------------------------------------------------------
/// The selection cursor after a whole sequence of up/down steps.
pub open spec fn spec_nav_run(selected: int, len: int, ups: Seq<bool>) -> int
    decreases ups.len(),
{
    if ups.len() == 0 {
        selected
    } else {
        spec_nav_run(spec_nav_step(selected, len, ups[0]), len, ups.skip(1))
    }
}

/// For every sequence of up/down key presses, a selection that starts
/// within `[0, len-1]` stays within `[0, len-1]`.
pub proof fn lemma_nav_run_in_bounds(selected: int, len: int, ups: Seq<bool>)
    requires
        0 <= selected < len,
    ensures
        0 <= spec_nav_run(selected, len, ups) < len,
    decreases ups.len(),
{
    if ups.len() > 0 {
        lemma_nav_run_in_bounds(spec_nav_step(selected, len, ups[0]), len, ups.skip(1));
    }
}

/// An up/down keystroke on the timeline is exactly one `spec_nav_step` of
/// the selection: the feed itself is untouched, so a selection in bounds
/// stays in bounds.
pub proof fn lemma_timeline_nav_models_step(pre: App, post: App, r: KeyResult, up: bool)
    requires
        spec_timeline_nav(pre, post, r, up),
    ensures
        post.statuses@ == pre.statuses@,
        post.selected as int == spec_nav_step(
            pre.selected as int,
            pre.statuses@.len() as int,
            up,
        ),
        pre.selected < pre.statuses@.len() && pre.statuses@.len() > 0 ==> post.selected
            < post.statuses@.len(),
{
}

/// A cursor step on the timeline keeps the cursor inside the scroll
/// window: when the window contained the cursor before the step, it
/// contains it after, whichever direction was pressed.
pub proof fn lemma_nav_keeps_cursor_visible(pre: App, post: App, r: KeyResult, up: bool)
    requires
        spec_timeline_nav(pre, post, r, up),
        pre.timeline_visible_rows >= 1,
        pre.scroll <= pre.selected < pre.scroll + pre.timeline_visible_rows,
        pre.selected < pre.statuses@.len(),
    ensures
        post.scroll <= post.selected < post.scroll + post.timeline_visible_rows,
{
}

/// The posting rules, stated of every compose submission with a
/// credential held: text whose trimmed length is within the limit (500)
/// and non-empty is submitted, bound to the reply target; over-limit text
/// is rejected with the limit restated; whitespace-only text is rejected
/// as empty. Rejections preserve the buffer.
pub proof fn lemma_posting_rules(pre: App, post: App, r: KeyResult)
    requires
        pre.has_client,
        spec_compose_submit(pre, post, r),
    ensures
        (r.command matches Some(c) && c is Post) <==> (0 < spec_trim(pre.compose_buffer@).len()
            <= CHAR_LIMIT),
        spec_trim(pre.compose_buffer@).len() > CHAR_LIMIT ==> post.compose_error@
            == "Over 500 character limit."@ && post.compose_buffer == pre.compose_buffer,
        spec_trim(pre.compose_buffer@).len() == 0 ==> post.compose_error@
            == "Cannot post empty toot."@ && post.compose_buffer == pre.compose_buffer,
        r.command matches Some(Command::Post { text, reply_to }) ==> text@ == spec_trim(
            pre.compose_buffer@,
        ) && reply_to == pre.compose_reply_to_id,
{
}

/// The recovery an authentication rejection forces, whatever operation it
/// interrupted: the credential is dropped, the session returns to the
/// login screen with the expiry message, and the login flow restarts
/// exactly when a configuration is known. (The gateway has already
/// deleted the stored token before reporting the rejection.)
pub proof fn lemma_auth_rejected_recovery(pre: App, post: App, cmd: Option<Command>)
    requires
        spec_auth_rejected(pre, post, cmd),
    ensures
        !post.has_client,
        post.screen is Login,
        post.login_message@ == spec_session_expired(),
        cmd == Some(Command::StartLogin) <==> pre.config is Some,
{
}

/// The toggle intent: a boost or favourite keystroke on the detail view
/// always requests the negation of the flag currently known, an absent
/// flag counting as "not set". So an item whose flag is unknown or false
/// is requested set, and one whose flag is true is requested cleared.
pub proof fn lemma_toggle_negates(pre: App, post: App, r: KeyResult, favourite: bool)
    requires
        pre.has_client,
        pre.detail_status is Some,
        spec_detail_step(pre, Key::Char(if favourite { 'f' } else { 'b' }), post, r),
    ensures
        favourite ==> r.command == Some(
            Command::SetFavourite {
                id: pre.detail_status.unwrap().id,
                desired: !(pre.detail_status.unwrap().favourited == Some(true)),
            },
        ),
        !favourite ==> r.command == Some(
            Command::SetBoost {
                id: pre.detail_status.unwrap().id,
                desired: !(pre.detail_status.unwrap().reblogged == Some(true)),
            },
        ),
        post == pre,
{
    let s = pre.detail_status.unwrap();
    if favourite {
        assert(spec_toggle_desired(s.favourited) == !(s.favourited == Some(true)));
    } else {
        assert(spec_toggle_desired(s.reblogged) == !(s.reblogged == Some(true)));
    }
}

} // verus!
