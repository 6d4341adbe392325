//! Laws of the token lifecycle, proved over the state transitions: what a
//! whole login-and-post round does, what failed or replayed callbacks may
//! not do, and that every transition keeps the session consistent.

use vstd::prelude::*;

use crate::error::ErrorKind;
use crate::oauth::spec_callback_begin;
use crate::oauth::CallbackStepView;
use crate::publish::spec_bearer_header;
use crate::publish::spec_post_decide;
use crate::publish::spec_publish_body;
use crate::publish::PostDecisionView;
use crate::session::spec_apply_exchange;
use crate::session::spec_logout;
use crate::session::spec_store_username;
use crate::session::ExchangeOutcomeView;
use crate::session::SessionView;

verus! {

/// A callback holding a code, with a verifier pending, asks for exactly
/// one exchange of that code with that verifier; when the exchange
/// succeeds, a post of non-empty content that follows at once decides on
/// exactly one publish call, carrying that content and the access token
/// the exchange stored.
pub proof fn lemma_callback_then_post(
    s: SessionView,
    code: Seq<char>,
    access_token: Seq<char>,
    refresh_token: Seq<char>,
    expires_in: Option<u64>,
    now: u64,
    content: Seq<char>,
)
    requires
        s.pkce_verifier is Some,
        access_token.len() > 0,
        content.len() > 0,
    ensures
        ({
            let (s1, step) = spec_callback_begin(s, None, Some(code));
            let s2 = spec_apply_exchange(
                s1,
                ExchangeOutcomeView::Success { access_token, refresh_token, expires_in },
                now,
            );
            &&& step == Ok::<CallbackStepView, ErrorKind>(
                CallbackStepView::Exchange { code, verifier: s.pkce_verifier->0 },
            )
            &&& s2.is_authenticated
            &&& s2.access_token == Some(access_token)
            &&& spec_post_decide(s2, content) == (PostDecisionView::Publish {
                body: spec_publish_body(content),
                authorization: spec_bearer_header(access_token),
            })
        }),
{
}

/// A callback that arrives with an error parameter (as `access_denied`)
/// asks for no exchange and stores no token field: of an unauthenticated
/// session it only discards the pending verifier, and the session stays
/// unauthenticated.
pub proof fn lemma_callback_error_stores_nothing(
    s: SessionView,
    error: Seq<char>,
    code: Option<Seq<char>>,
)
    requires
        !s.is_authenticated,
    ensures
        ({
            let (s1, step) = spec_callback_begin(s, Some(error), code);
            &&& step == Ok::<CallbackStepView, ErrorKind>(CallbackStepView::Abort)
            &&& s1.access_token == s.access_token
            &&& s1.refresh_token == s.refresh_token
            &&& s1.access_token_expires_at == s.access_token_expires_at
            &&& !s1.is_authenticated
        }),
{
}

/// A callback that arrives while no verifier is pending fails with the
/// missing-verifier condition, asks for no exchange — so the token
/// endpoint is never contacted — and leaves the session unchanged.
pub proof fn lemma_callback_missing_verifier(s: SessionView, code: Seq<char>)
    requires
        s.pkce_verifier is None,
    ensures
        ({
            let (s1, step) = spec_callback_begin(s, None, Some(code));
            &&& step == Err::<CallbackStepView, ErrorKind>(ErrorKind::MissingVerifier)
            &&& s1 == s
        }),
{
}

/// Logout followed by a post decides on the unauthenticated answer,
/// whatever the session held before.
pub proof fn lemma_logout_then_post(s: SessionView, content: Seq<char>)
    ensures
        spec_post_decide(spec_logout(s), content) == PostDecisionView::NotAuthenticated,
{
}

/// Every transition keeps the session consistent: it counts as
/// authenticated exactly when it holds a non-empty access token.
pub proof fn lemma_transitions_preserve_wf(
    s: SessionView,
    outcome: ExchangeOutcomeView,
    now: u64,
    error: Option<Seq<char>>,
    code: Option<Seq<char>>,
    username: Seq<char>,
)
    requires
        s.wf(),
    ensures
        SessionView::empty().wf(),
        spec_apply_exchange(s, outcome, now).wf(),
        spec_store_username(s, username).wf(),
        spec_logout(s).wf(),
        spec_callback_begin(s, error, code).0.wf(),
{
}

} // verus!
