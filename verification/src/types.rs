//! The data model of the remote service, as the controller sees it: plain
//! values received from the gateway, never mutated in place.

use vstd::prelude::*;

verus! {

/// An OAuth application registration, as the service returns it.
#[derive(Debug)]
pub struct Application {
    pub client_id: Option<String>,
    pub client_secret: Option<String>,
}

/// An account: the author of a status.
#[derive(Debug)]
pub struct Account {
    pub id: String,
    pub display_name: String,
    pub username: String,
    pub acct: String,
    pub url: Option<String>,
}

/// The audience of a status.
#[derive(Debug, Clone, Copy, PartialEq, Eq, Structural)]
pub enum Visibility {
    Public,
    Unlisted,
    Private,
    Direct,
}

/// A content item of the feed. A status may carry at most one boosted
/// status inside it; the service does not nest boosts further.
#[derive(Debug)]
pub struct Status {
    pub id: String,
    pub uri: String,
    pub content: String,
    pub account: Account,
    pub created_at: String,
    pub visibility: Option<Visibility>,
    pub reblog: Option<Box<Status>>,
    pub favourited: Option<bool>,
    pub reblogged: Option<bool>,
    pub in_reply_to_id: Option<String>,
    pub in_reply_to_account_id: Option<String>,
}

/// A link-preview card attached to a status.
#[derive(Debug)]
pub struct Card {
    pub url: Option<String>,
    pub title: Option<String>,
    pub description: Option<String>,
}

/// A named list the viewer owns; selecting it scopes the feed to the list.
#[derive(Debug)]
pub struct List {
    pub id: String,
    pub title: String,
}

fn dup_opt_string(o: &Option<String>) -> (r: Option<String>)
    ensures
        r == o,
{
    match o {
        Some(s) => Some(s.clone()),
        None => None,
    }
}

impl Account {
    /// An equal copy.
    pub fn dup(&self) -> (r: Account)
        ensures
            r == self,
    {
        Account {
            id: self.id.clone(),
            display_name: self.display_name.clone(),
            username: self.username.clone(),
            acct: self.acct.clone(),
            url: dup_opt_string(&self.url),
        }
    }
}

impl Clone for Account {
    fn clone(&self) -> (r: Account)
        ensures
            r == self,
    {
        self.dup()
    }
}

impl Status {
    /// An equal copy, boosted status included.
    pub fn dup(&self) -> (r: Status)
        ensures
            r == self,
        decreases *self,
    {
        let reblog: Option<Box<Status>> = match &self.reblog {
            Some(b) => Some(Box::new((&**b).dup())),
            None => None,
        };
        Status {
            id: self.id.clone(),
            uri: self.uri.clone(),
            content: self.content.clone(),
            account: self.account.dup(),
            created_at: self.created_at.clone(),
            visibility: self.visibility,
            reblog,
            favourited: self.favourited,
            reblogged: self.reblogged,
            in_reply_to_id: dup_opt_string(&self.in_reply_to_id),
            in_reply_to_account_id: dup_opt_string(&self.in_reply_to_account_id),
        }
    }
}

impl Clone for Status {
    fn clone(&self) -> (r: Status)
        ensures
            r == self,
    {
        self.dup()
    }
}

impl List {
    /// An equal copy.
    pub fn dup(&self) -> (r: List)
        ensures
            r == self,
    {
        List { id: self.id.clone(), title: self.title.clone() }
    }
}

impl Clone for List {
    fn clone(&self) -> (r: List)
        ensures
            r == self,
    {
        self.dup()
    }
}

} // verus!
