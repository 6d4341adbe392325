//! The error type shared by the fallible operations of the crate.

use vstd::prelude::*;

use crate::strutil::decimal_digits;
use crate::strutil::u64_to_string;
use vstd::string::StringExecFns;

verus! {

/// What went wrong, by kind. Per-request failures only: none of these is
/// fatal to the process.
#[derive(Clone, Copy, Debug, PartialEq, Eq, Structural)]
pub enum ErrorKind {
    /// The callback arrived while no PKCE verifier was pending.
    MissingVerifier,
    /// A required configuration key is absent.
    MissingConfigKey,
    /// The configured redirect URL was rejected by the OAuth client.
    InvalidRedirectUrl,
    /// The provider answered a publish call with this non-success HTTP
    /// status.
    PublishFailed(u16),
    /// An input was too large to process.
    Oversized,
}

/// Error carried by fallible operations; wraps the kind of failure.
#[derive(Clone, Copy, Debug, PartialEq, Eq, Structural)]
pub struct AppError(pub ErrorKind);

/// The human-readable description of each error kind.
pub open spec fn spec_message(k: ErrorKind) -> Seq<char> {
    match k {
        ErrorKind::MissingVerifier => "PKCE verifier not found in session"@,
        ErrorKind::MissingConfigKey => "required configuration key not found"@,
        ErrorKind::InvalidRedirectUrl => "invalid redirect URL in configuration"@,
        ErrorKind::PublishFailed(status) => "Failed to post to X: "@ + decimal_digits(
            status as nat,
        ),
        ErrorKind::Oversized => "input too large"@,
    }
}

impl AppError {
    /// The kind of failure this error reports.
    pub fn kind(&self) -> (k: ErrorKind)
        ensures
            k == self.0,
    {
        self.0
    }

    /// Renders the error for display.
    pub fn message(&self) -> (m: String)
        ensures
            m@ == spec_message(self.0),
    {
        match self.0 {
            ErrorKind::MissingVerifier => "PKCE verifier not found in session".to_owned(),
            ErrorKind::MissingConfigKey => "required configuration key not found".to_owned(),
            ErrorKind::InvalidRedirectUrl => "invalid redirect URL in configuration".to_owned(),
            ErrorKind::PublishFailed(status) => {
                let mut m = "Failed to post to X: ".to_owned();
                let digits = u64_to_string(status as u64);
                m.append(digits.as_str());
                m
            },
            ErrorKind::Oversized => "input too large".to_owned(),
        }
    }
}

} // verus!
