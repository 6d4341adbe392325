//! The per-user session: the fields the OAuth flow stores, their abstract
//! view, the consistency invariant, and the state transitions applied by
//! the handlers.

use vstd::prelude::*;

verus! {

/// Abstract view of an `Option<String>`: the character sequence, if any.
pub open spec fn opt_view(o: Option<String>) -> Option<Seq<char>> {
    match o {
        Some(s) => Some(s@),
        None => None,
    }
}

/// Abstract state of a session: every field as a mathematical value.
pub struct SessionView {
    /// Whether the user has completed the OAuth flow.
    pub is_authenticated: bool,
    /// The bearer token for the provider's API.
    pub access_token: Option<Seq<char>>,
    /// The token exchanged for a fresh pair when the access token expires.
    pub refresh_token: Option<Seq<char>>,
    /// Unix time (seconds) at which the access token expires.
    pub access_token_expires_at: Option<u64>,
    /// The user's name at the provider, when the profile fetch succeeded.
    pub username: Option<Seq<char>>,
    /// The PKCE verifier stored by `/login`, pending until `/callback`
    /// consumes it.
    pub pkce_verifier: Option<Seq<char>>,
    /// The anti-forgery token issued alongside the authorization URL.
    pub csrf_token: Option<Seq<char>>,
}

impl SessionView {
    /// Consistency of the session fields: the session counts as
    /// authenticated exactly when it holds a non-empty access token.
    pub open spec fn wf(self) -> bool {
        self.is_authenticated <==> (self.access_token matches Some(t) && t.len() > 0)
    }

    /// The state of a session that has never seen a login.
    pub open spec fn empty() -> SessionView {
        SessionView {
            is_authenticated: false,
            access_token: None,
            refresh_token: None,
            access_token_expires_at: None,
            username: None,
            pkce_verifier: None,
            csrf_token: None,
        }
    }
}

/// The session as the handlers mutate it.
#[derive(Debug)]
pub struct Session {
    /// Whether the user has completed the OAuth flow.
    pub is_authenticated: bool,
    /// The bearer token for the provider's API.
    pub access_token: Option<String>,
    /// The token exchanged for a fresh pair when the access token expires.
    pub refresh_token: Option<String>,
    /// Unix time (seconds) at which the access token expires.
    pub access_token_expires_at: Option<u64>,
    /// The user's name at the provider, when the profile fetch succeeded.
    pub username: Option<String>,
    /// The PKCE verifier stored by `/login`, pending until `/callback`
    /// consumes it.
    pub pkce_verifier: Option<String>,
    /// The anti-forgery token issued alongside the authorization URL.
    pub csrf_token: Option<String>,
}

impl View for Session {
    type V = SessionView;

    open spec fn view(&self) -> SessionView {
        SessionView {
            is_authenticated: self.is_authenticated,
            access_token: opt_view(self.access_token),
            refresh_token: opt_view(self.refresh_token),
            access_token_expires_at: self.access_token_expires_at,
            username: opt_view(self.username),
            pkce_verifier: opt_view(self.pkce_verifier),
            csrf_token: opt_view(self.csrf_token),
        }
    }
}

/// What the token endpoint answered when a code or refresh token was
/// exchanged, reduced to the fields this application reads.
#[derive(Debug)]
pub enum ExchangeOutcome {
    /// The exchange succeeded: the new tokens and, when the endpoint gave
    /// one, the lifetime of the access token in seconds.
    Success { access_token: String, refresh_token: String, expires_in: Option<u64> },
    /// The exchange failed; the cause is logged by the caller and the
    /// session is left as it was.
    Failure,
}

/// Abstract view of an exchange outcome.
pub enum ExchangeOutcomeView {
    /// The exchange succeeded.
    Success { access_token: Seq<char>, refresh_token: Seq<char>, expires_in: Option<u64> },
    /// The exchange failed.
    Failure,
}

impl View for ExchangeOutcome {
    type V = ExchangeOutcomeView;

    open spec fn view(&self) -> ExchangeOutcomeView {
        match self {
            ExchangeOutcome::Success { access_token, refresh_token, expires_in } => {
                ExchangeOutcomeView::Success {
                    access_token: access_token@,
                    refresh_token: refresh_token@,
                    expires_in: *expires_in,
                }
            },
            ExchangeOutcome::Failure => ExchangeOutcomeView::Failure,
        }
    }
}

/// The lifetime assumed for an access token when the token endpoint does
/// not say, in seconds.
pub open spec fn default_expires_in() -> u64 {
    3600
}

/// The moment `expires_in` seconds after `now`, saturating at the largest
/// representable time.
pub open spec fn expiry_time(now: u64, expires_in: u64) -> u64 {
    if now + expires_in > u64::MAX {
        u64::MAX
    } else {
        (now + expires_in) as u64
    }
}

/// The session after a token exchange performed at time `now` came back
/// with `outcome`. A failed exchange, or a success carrying an empty
/// access token, leaves the session as it was; a genuine success stores
/// the token pair and its expiry and marks the session authenticated.
pub open spec fn spec_apply_exchange(
    s: SessionView,
    outcome: ExchangeOutcomeView,
    now: u64,
) -> SessionView {
    match outcome {
        ExchangeOutcomeView::Success { access_token, refresh_token, expires_in } => {
            if access_token.len() > 0 {
                SessionView {
                    is_authenticated: true,
                    access_token: Some(access_token),
                    refresh_token: Some(refresh_token),
                    access_token_expires_at: Some(
                        expiry_time(
                            now,
                            match expires_in {
                                Some(e) => e,
                                None => default_expires_in(),
                            },
                        ),
                    ),
                    ..s
                }
            } else {
                s
            }
        },
        ExchangeOutcomeView::Failure => s,
    }
}

/// The session after a successful profile fetch reported `username`.
pub open spec fn spec_store_username(s: SessionView, username: Seq<char>) -> SessionView {
    SessionView { username: Some(username), ..s }
}

/// The session after logout: every field cleared, whatever held before.
pub open spec fn spec_logout(s: SessionView) -> SessionView {
    SessionView::empty()
}

/// Whether the stored access token must be refreshed before use at time
/// `now`: it must when an expiry is stored and has been reached.
pub open spec fn spec_token_needs_refresh(s: SessionView, now: u64) -> bool {
    s.access_token_expires_at matches Some(e) && now >= e
}

impl Session {
    /// A session that has never seen a login.
    pub fn new() -> (s: Session)
        ensures
            s@ == SessionView::empty(),
            s@.wf(),
    {
        Session {
            is_authenticated: false,
            access_token: None,
            refresh_token: None,
            access_token_expires_at: None,
            username: None,
            pkce_verifier: None,
            csrf_token: None,
        }
    }

    /// Stores what the token endpoint answered. Used by the callback (code
    /// exchange) and by the token refresher (refresh-token exchange).
    pub fn apply_exchange(&mut self, outcome: ExchangeOutcome, now: u64)
        ensures
            final(self)@ == spec_apply_exchange(old(self)@, outcome@, now),
            old(self)@.wf() ==> final(self)@.wf(),
    {
        match outcome {
            ExchangeOutcome::Success { access_token, refresh_token, expires_in } => {
                if access_token.as_str().is_empty() {
                    return ;
                }
                let lifetime: u64 = match expires_in {
                    Some(e) => e,
                    None => 3600,
                };
                let expires_at: u64 = if now <= u64::MAX - lifetime {
                    now + lifetime
                } else {
                    u64::MAX
                };
                self.is_authenticated = true;
                self.access_token = Some(access_token);
                self.refresh_token = Some(refresh_token);
                self.access_token_expires_at = Some(expires_at);
            },
            ExchangeOutcome::Failure => {},
        }
    }

    /// Stores the username a successful profile fetch reported.
    pub fn store_username(&mut self, username: String)
        ensures
            final(self)@ == spec_store_username(old(self)@, username@),
            old(self)@.wf() ==> final(self)@.wf(),
    {
        self.username = Some(username);
    }

    /// Clears the whole session. Idempotent.
    pub fn logout(&mut self)
        ensures
            final(self)@ == spec_logout(old(self)@),
            final(self)@.wf(),
    {
        self.is_authenticated = false;
        self.access_token = None;
        self.refresh_token = None;
        self.access_token_expires_at = None;
        self.username = None;
        self.pkce_verifier = None;
        self.csrf_token = None;
    }
}

/// Whether the stored access token must be refreshed before use at time
/// `now`.
pub fn token_needs_refresh(s: &Session, now: u64) -> (r: bool)
    ensures
        r == spec_token_needs_refresh(s@, now),
{
    match s.access_token_expires_at {
        Some(e) => now >= e,
        None => false,
    }
}

} // verus!
