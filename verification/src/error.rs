//! The error taxonomy of the client. Failures of outside collaborators
//! (network, secret store, configuration files) reach the library as plain
//! text carried in these variants.

use crate::strutil::{spec_dec, u16_to_string};
use vstd::prelude::*;
use vstd::string::*;

verus! {

#[derive(Debug)]
pub enum MastotuiError {
    /// A terminal or file failure, reported by the runner.
    Io(String),
    /// A network or HTTP-client failure.
    Http(String),
    /// A failure in the OAuth flow.
    OAuth(String),
    /// A configuration failure: malformed URL, missing directory, bad file.
    Config(String),
    /// A secret-store failure.
    Credential(String),
    /// A non-success HTTP response other than an authentication rejection.
    Api { status: u16, message: String },
    /// The remote service rejected the held credential; recovery in the
    /// controller forces the session back to the login screen.
    NotAuthenticated,
}

impl MastotuiError {
    /// The human-readable text of the error, in the shape `<kind>: <detail>`.
    pub open spec fn spec_message(&self) -> Seq<char> {
        match self {
            MastotuiError::Io(m) => "IO error: "@ + m@,
            MastotuiError::Http(m) => "HTTP/client error: "@ + m@,
            MastotuiError::OAuth(m) => "OAuth error: "@ + m@,
            MastotuiError::Config(m) => "Config error: "@ + m@,
            MastotuiError::Credential(m) => "Credential error: "@ + m@,
            MastotuiError::Api { status, message } => "API error: "@ + spec_dec(*status as nat)
                + " - "@ + message@,
            MastotuiError::NotAuthenticated => "Not authenticated"@,
        }
    }

    /// Render the error for display.
    pub fn message(&self) -> (r: String)
        ensures
            r@ == self.spec_message(),
    {
        match self {
            MastotuiError::Io(m) => String::from_str("IO error: ").concat(m.as_str()),
            MastotuiError::Http(m) => String::from_str("HTTP/client error: ").concat(m.as_str()),
            MastotuiError::OAuth(m) => String::from_str("OAuth error: ").concat(m.as_str()),
            MastotuiError::Config(m) => String::from_str("Config error: ").concat(m.as_str()),
            MastotuiError::Credential(m) => String::from_str("Credential error: ").concat(
                m.as_str(),
            ),
            MastotuiError::Api { status, message } => {
                let r = String::from_str("API error: ").concat(u16_to_string(*status).as_str())
                    .concat(" - ").concat(message.as_str());
                proof {
                    assert(r@ =~= self.spec_message());
                }
                r
            },
            MastotuiError::NotAuthenticated => String::from_str("Not authenticated"),
        }
    }
}

} // verus!
