//! The OAuth2 authorization-code flow with PKCE: building the client,
//! starting a login, deciding what the callback does, and preparing the
//! refresh-token exchange. The token endpoint itself is reached by the
//! caller; its answer comes back in as an `ExchangeOutcome`.

use vstd::prelude::*;

use crate::config::client_id_key;
use crate::config::client_secret_key;
use crate::config::redirect_url_key;
use crate::config::Config;
use crate::error::AppError;
use crate::error::ErrorKind;
use crate::session::opt_view;
use crate::session::Session;
use crate::session::SessionView;
use vstd::string::StringExecFns;
use vstd::string::StringSliceAdditionalSpecFns;
use vstd::string::StrSliceExecFns;

verus! {

/// Holds oauth2's configured client. Opaque to the verifier: the
/// client's generic type asks for trait bounds the verifier cannot take,
/// so the value is carried in a hidden struct instead of a declared
/// outside type. The field is public so that the embedding application
/// can run the network exchanges the library does not make.
#[verifier::external_body]
pub struct OauthClient {
    /// The configured oauth2 client.
    pub client: oauth2::basic::BasicClient,
}

/// The provider's authorization endpoint.
pub open spec fn auth_endpoint() -> Seq<char> {
    "https://x.com/i/oauth2/authorize"@
}

/// The provider's token endpoint.
pub open spec fn token_endpoint() -> Seq<char> {
    "https://api.twitter.com/2/oauth2/token"@
}

/// What a base64 encoding (standard alphabet, padded) of a byte sequence
/// reads as; stated only through the encoder relied on below.
pub uninterp spec fn base64_of(bytes: Seq<u8>) -> Seq<char>;

/// Relies on `base64::encode`: standard alphabet with padding, so the
/// result is a pure function of the bytes, four characters for every
/// block of up to three input bytes.
#[verifier::external_body]
fn base64_encode(bytes: &Vec<u8>) -> (r: String)
    requires
        bytes@.len() <= 0x0fff_ffff,
    ensures
        r@ == base64_of(bytes@),
        r@.len() == 4 * ((bytes@.len() + 2) / 3),
{
    base64::encode(bytes.as_slice())
}

/// Whether a string parses as a URL: success of url's `Url::parse`, the
/// function behind oauth2's `AuthUrl::new`, `TokenUrl::new` and
/// `RedirectUrl::new`, a pure function of the characters alone.
pub uninterp spec fn url_ok(s: Seq<char>) -> bool;

/// Relies on oauth2's `Client::new` and `Client::set_redirect_uri`, with
/// `AuthUrl::new`, `TokenUrl::new` and `RedirectUrl::new` parsing the
/// three addresses through url's `Url::parse`: yields the configured
/// client exactly when all three addresses parse.
#[verifier::external_body]
fn make_oauth_client(
    client_id: &String,
    client_secret: &String,
    auth_url: &str,
    token_url: &str,
    redirect_url: &String,
) -> (r: Option<OauthClient>)
    ensures
        (r is Some) == (url_ok(auth_url@) && url_ok(token_url@) && url_ok(redirect_url@)),
{
    let auth = oauth2::AuthUrl::new(auth_url.to_string()).ok()?;
    let token = oauth2::TokenUrl::new(token_url.to_string()).ok()?;
    let redirect = oauth2::RedirectUrl::new(redirect_url.clone()).ok()?;
    let client = oauth2::basic::BasicClient::new(
        oauth2::ClientId::new(client_id.clone()),
        Some(oauth2::ClientSecret::new(client_secret.clone())),
        auth,
        Some(token),
    ).set_redirect_uri(redirect);
    Some(OauthClient { client })
}

/// Relies on oauth2's `PkceCodeChallenge::new_random_sha256` (a fresh
/// random verifier of 43 to 128 characters with its SHA-256 challenge)
/// and `Client::authorize_url` with `CsrfToken::new_random` (a fresh
/// random non-empty anti-forgery token): yields the authorization URL,
/// the anti-forgery token and the verifier. All three depend on the
/// random draws, so nothing relates them to the arguments.
#[verifier::external_body]
fn oauth_login_request(client: &OauthClient, scopes: &Vec<String>) -> (r: (
    String,
    String,
    String,
))
    ensures
        r.0@.len() > 0,
        r.1@.len() > 0,
        43 <= r.2@.len() <= 128,
{
    let (challenge, verifier) = oauth2::PkceCodeChallenge::new_random_sha256();
    let mut request = client.client.authorize_url(oauth2::CsrfToken::new_random);
    for scope in scopes.iter() {
        request = request.add_scope(oauth2::Scope::new(scope.clone()));
    }
    let (url, csrf) = request.set_pkce_challenge(challenge).url();
    (url.to_string(), csrf.secret().clone(), verifier.secret().clone())
}

/// Builds the OAuth client from the configuration: client id and secret,
/// the provider's fixed endpoints, and the configured redirect URL.
/// Success is owed exactly when the required keys are present and the
/// three addresses parse as URLs.
pub fn oauth_client_from_config(c: &Config) -> (r: Result<OauthClient, AppError>)
    ensures
        ({
            let urls_ok = url_ok(auth_endpoint()) && url_ok(token_endpoint()) && url_ok(
                c.lookup(redirect_url_key())->0,
            );
            match r {
                Ok(_) => c.has_required_keys() && urls_ok,
                Err(e) => {
                    ||| (e.0 == ErrorKind::MissingConfigKey && !c.has_required_keys())
                    ||| (e.0 == ErrorKind::InvalidRedirectUrl && c.has_required_keys()
                        && !urls_ok)
                },
            }
        }),
{
    let id_key: String = "X_CLIENT_ID".to_owned();
    let secret_key: String = "X_CLIENT_SECRET".to_owned();
    let redirect_key: String = "X_REDIRECT_URL".to_owned();
    let client_id = match c.get(&id_key) {
        Some(v) => v,
        None => { return Err(AppError(ErrorKind::MissingConfigKey)) },
    };
    let client_secret = match c.get(&secret_key) {
        Some(v) => v,
        None => { return Err(AppError(ErrorKind::MissingConfigKey)) },
    };
    let redirect_url = match c.get(&redirect_key) {
        Some(v) => v,
        None => { return Err(AppError(ErrorKind::MissingConfigKey)) },
    };
    match make_oauth_client(
        client_id,
        client_secret,
        "https://x.com/i/oauth2/authorize",
        "https://api.twitter.com/2/oauth2/token",
        redirect_url,
    ) {
        Some(client) => Ok(client),
        None => Err(AppError(ErrorKind::InvalidRedirectUrl)),
    }
}

/// The scopes requested from the provider.
pub fn login_scopes() -> (r: Vec<String>)
    ensures
        r@.len() == 4,
        r@[0]@ == "tweet.read"@,
        r@[1]@ == "tweet.write"@,
        r@[2]@ == "users.read"@,
        r@[3]@ == "offline.access"@,
{
    let mut scopes: Vec<String> = Vec::new();
    scopes.push("tweet.read".to_owned());
    scopes.push("tweet.write".to_owned());
    scopes.push("users.read".to_owned());
    scopes.push("offline.access".to_owned());
    scopes
}

/// Starts a login: draws a fresh PKCE verifier and anti-forgery token,
/// stores both in the session as pending, and yields the authorization
/// URL to redirect the browser to. Tokens already in the session are
/// untouched.
pub fn login(s: &mut Session, client: &OauthClient) -> (url: String)
    ensures
        final(s)@.pkce_verifier matches Some(v) && 43 <= v.len() <= 128,
        final(s)@.csrf_token matches Some(t) && t.len() > 0,
        final(s)@.is_authenticated == old(s)@.is_authenticated,
        final(s)@.access_token == old(s)@.access_token,
        final(s)@.refresh_token == old(s)@.refresh_token,
        final(s)@.access_token_expires_at == old(s)@.access_token_expires_at,
        final(s)@.username == old(s)@.username,
        old(s)@.wf() ==> final(s)@.wf(),
        url@.len() > 0,
{
    let scopes = login_scopes();
    let (url, csrf, verifier) = oauth_login_request(client, &scopes);
    s.pkce_verifier = Some(verifier);
    s.csrf_token = Some(csrf);
    url
}

/// The code-for-token exchange the callback asks its caller to perform.
#[derive(Debug)]
pub enum CallbackStep {
    /// The provider reported an error: publish nothing, return to the
    /// landing page.
    Abort,
    /// Exchange `code` against the token endpoint, with `verifier` as the
    /// PKCE secret.
    Exchange { code: String, verifier: String },
}

/// Abstract view of a callback step.
pub enum CallbackStepView {
    /// The provider reported an error.
    Abort,
    /// Exchange `code` with `verifier`.
    Exchange { code: Seq<char>, verifier: Seq<char> },
}

impl View for CallbackStep {
    type V = CallbackStepView;

    open spec fn view(&self) -> CallbackStepView {
        match self {
            CallbackStep::Abort => CallbackStepView::Abort,
            CallbackStep::Exchange { code, verifier } => CallbackStepView::Exchange {
                code: code@,
                verifier: verifier@,
            },
        }
    }
}

/// What the callback does with its query parameters, before any network
/// traffic: with `error` present the pending verifier is discarded and
/// the flow aborts quietly; without a pending verifier it fails; else the
/// verifier is consumed, to be sent with `code` to the token endpoint.
pub open spec fn spec_callback_begin(
    s: SessionView,
    error: Option<Seq<char>>,
    code: Option<Seq<char>>,
) -> (SessionView, Result<CallbackStepView, ErrorKind>) {
    if error is Some {
        (SessionView { pkce_verifier: None, ..s }, Ok(CallbackStepView::Abort))
    } else if s.pkce_verifier is None {
        (s, Err(ErrorKind::MissingVerifier))
    } else {
        (
            SessionView { pkce_verifier: None, ..s },
            Ok(
                CallbackStepView::Exchange {
                    code: code->0,
                    verifier: s.pkce_verifier->0,
                },
            ),
        )
    }
}

/// Begins the callback: reads the `error` and `code` query parameters,
/// settles the pending verifier, and tells the caller whether (and with
/// what) to contact the token endpoint. Token fields are untouched.
pub fn callback_begin(s: &mut Session, error: Option<String>, code: Option<String>) -> (r: Result<
    CallbackStep,
    AppError,
>)
    requires
        error is None ==> code is Some,
    ensures
        ({
            let (s2, step) = spec_callback_begin(old(s)@, opt_view(error), opt_view(code));
            &&& final(s)@ == s2
            &&& match (r, step) {
                (Ok(cs), Ok(sv)) => cs@ == sv,
                (Err(e), Err(k)) => e.0 == k,
                _ => false,
            }
        }),
        old(s)@.wf() ==> final(s)@.wf(),
{
    if error.is_some() {
        s.pkce_verifier = None;
        return Ok(CallbackStep::Abort);
    }
    let pending: Option<String> = match &s.pkce_verifier {
        Some(v) => Some(v.clone()),
        None => None,
    };
    match pending {
        None => Err(AppError(ErrorKind::MissingVerifier)),
        Some(verifier) => {
            s.pkce_verifier = None;
            let code = code.unwrap();
            Ok(CallbackStep::Exchange { code, verifier })
        },
    }
}

/// The byte sequence whose base64 encoding authenticates the client:
/// `id:secret` in UTF-8.
pub open spec fn basic_auth_input(id: Seq<char>, secret: Seq<char>) -> Seq<u8> {
    vstd::utf8::encode_utf8(id + ":"@ + secret)
}

/// The `Authorization` header value for HTTP Basic client authentication.
pub open spec fn spec_basic_auth_header(id: Seq<char>, secret: Seq<char>) -> Seq<char> {
    "Basic "@ + base64_of(basic_auth_input(id, secret))
}

/// The refresh token a refresh request sends: the stored one, or the
/// empty string when none is stored.
pub open spec fn spec_refresh_token_sent(s: SessionView) -> Seq<char> {
    match s.refresh_token {
        Some(t) => t,
        None => Seq::empty(),
    }
}

/// A prepared refresh-token exchange: where to send it, the client
/// authentication to send it with, and the refresh token to send.
#[derive(Debug)]
pub struct RefreshRequest {
    /// The token endpoint.
    pub url: String,
    /// The `Authorization` header value (HTTP Basic, client id and
    /// secret).
    pub authorization: String,
    /// The refresh token presented for exchange.
    pub refresh_token: String,
}

impl RefreshRequest {
    /// The form fields of the refresh-token grant.
    pub fn form_params(&self) -> (params: Vec<(String, String)>)
        ensures
            params@.len() == 2,
            params@[0].0@ == "refresh_token"@,
            params@[0].1@ == self.refresh_token@,
            params@[1].0@ == "grant_type"@,
            params@[1].1@ == "refresh_token"@,
    {
        let mut params: Vec<(String, String)> = Vec::new();
        params.push(("refresh_token".to_owned(), self.refresh_token.clone()));
        params.push(("grant_type".to_owned(), "refresh_token".to_owned()));
        params
    }
}

/// Whether the client credentials are small enough to authenticate with.
pub open spec fn basic_auth_fits(id: Seq<char>, secret: Seq<char>) -> bool {
    basic_auth_input(id, secret).len() <= 0x0fff_ffff
}

/// Prepares the refresh-token exchange: the token endpoint, the Basic
/// authentication header built from the configured client id and secret,
/// and the stored refresh token (empty when none is stored, as the
/// provider will then reject the exchange).
pub fn refresh_request(c: &Config, s: &Session) -> (r: Result<RefreshRequest, AppError>)
    ensures
        ({
            let id = c.lookup(client_id_key())->0;
            let secret = c.lookup(client_secret_key())->0;
            match r {
                Ok(req) => {
                    &&& c.lookup(client_id_key()) is Some
                    &&& c.lookup(client_secret_key()) is Some
                    &&& basic_auth_fits(id, secret)
                    &&& req.url@ == token_endpoint()
                    &&& req.authorization@ == spec_basic_auth_header(id, secret)
                    &&& req.refresh_token@ == spec_refresh_token_sent(s@)
                },
                Err(e) => {
                    ||| (e.0 == ErrorKind::MissingConfigKey && !(c.lookup(client_id_key()) is Some
                        && c.lookup(client_secret_key()) is Some))
                    ||| (e.0 == ErrorKind::Oversized && !basic_auth_fits(id, secret))
                },
            }
        }),
{
    let id_key: String = "X_CLIENT_ID".to_owned();
    let secret_key: String = "X_CLIENT_SECRET".to_owned();
    let id = match c.get(&id_key) {
        Some(v) => v,
        None => { return Err(AppError(ErrorKind::MissingConfigKey)) },
    };
    let secret = match c.get(&secret_key) {
        Some(v) => v,
        None => { return Err(AppError(ErrorKind::MissingConfigKey)) },
    };
    let mut joined = id.clone();
    joined.append(":");
    joined.append(secret.as_str());
    proof {
        assert(joined@ =~= id@ + ":"@ + secret@);
    }
    let bytes = joined.as_str().as_bytes_vec();
    if bytes.len() > 0x0fff_ffff {
        return Err(AppError(ErrorKind::Oversized));
    }
    let encoded = base64_encode(&bytes);
    let mut authorization = "Basic ".to_owned();
    authorization.append(encoded.as_str());
    let refresh_token = match &s.refresh_token {
        Some(t) => t.clone(),
        None => String::new(),
    };
    Ok(
        RefreshRequest {
            url: "https://api.twitter.com/2/oauth2/token".to_owned(),
            authorization,
            refresh_token,
        },
    )
}

} // verus!
