//! Credential lifecycle: tokens, the cache-read decision procedure, and the
//! refresh and interactive-exchange steps of the authorization-code flow.

use vstd::prelude::*;

use crate::app::Envs;
use rspotify::clients::OAuthClient;

verus! {

/// How long before its nominal expiry a token already counts as expired,
/// in seconds. Mirrors the margin the OAuth client library applies so that
/// a token does not lapse in the middle of a request.
pub const EXPIRY_MARGIN_SECONDS: i64 = 10;

/// The error taxonomy of the credential and startup path.
#[derive(Clone, Copy, Debug, PartialEq, Eq, Structural)]
pub enum AuthError {
    /// A required credential is missing from the environment; fatal before
    /// any terminal work.
    ConfigError,
    /// The token cache could not be read; non-fatal, degrades to the
    /// interactive exchange.
    CacheReadError,
    /// The token cache could not be written; non-fatal, logged only.
    CacheWriteError,
    /// The authorization server rejected the refresh request.
    RefreshError,
    /// The pasted redirect URL could not be read or no code could be
    /// extracted from it.
    ExchangeParseError,
    /// The authorization server rejected the one-time code.
    ExchangeRequestError,
    /// The terminal handle could not be acquired; fatal before any UI work.
    TerminalError,
}

impl AuthError {
    /// Whether an error aborts startup entirely, as opposed to being
    /// absorbed (cache trouble) or ending only the current attempt
    /// (refresh and exchange failures, which a user can retry from a
    /// fresh authorization URL).
    pub open spec fn is_fatal_spec(self) -> bool {
        self == AuthError::ConfigError || self == AuthError::TerminalError
    }

    /// Classifies an error according to the propagation policy: only a
    /// missing credential or a lost terminal abort the whole startup.
    pub fn is_fatal(&self) -> (r: bool)
        ensures
            r == self.is_fatal_spec(),
    {
        match self {
            AuthError::ConfigError => true,
            AuthError::TerminalError => true,
            _ => false,
        }
    }
}

/// An access token: the credential returned by the authorization server,
/// with its expiry timestamp and the optional refresh credential that
/// travels with it.
pub struct Token {
    /// The access credential presented on API calls.
    pub access_token: String,
    /// The credential used to obtain a fresh token without user
    /// interaction; absent for tokens that cannot be refreshed.
    pub refresh_token: Option<String>,
    /// Expiry as seconds since the Unix epoch; a token without one is
    /// treated as already expired.
    pub expires_at: Option<i64>,
}

impl Token {
    /// A token counts as expired from `EXPIRY_MARGIN_SECONDS` before its
    /// nominal expiry; one without an expiry timestamp is always expired.
    pub open spec fn is_expired_at(self, now: int) -> bool {
        match self.expires_at {
            Option::None => true,
            Option::Some(e) => now + EXPIRY_MARGIN_SECONDS >= e,
        }
    }

    /// Decides expiry against the given clock reading.
    pub fn is_expired(&self, now: i64) -> (r: bool)
        requires
            now + EXPIRY_MARGIN_SECONDS <= i64::MAX,
        ensures
            r == self.is_expired_at(now as int),
    {
        match self.expires_at {
            None => true,
            Some(e) => now + EXPIRY_MARGIN_SECONDS >= e,
        }
    }
}

/// The outcome of one attempt to read the token cache, as handed in by the
/// caller that performed the read.
pub enum CacheReadOutcome {
    /// The cache held a token.
    Hit(Token),
    /// The cache held no token.
    Miss,
    /// The cache could not be read at all.
    ReadError,
}

/// What remains to be done after the cache-read decision: either the cached
/// token is installed and usable as is, or the caller must perform a
/// refresh request, or it must run the interactive exchange.
#[derive(Clone, Copy, Debug, PartialEq, Eq, Structural)]
pub enum TokenAction {
    /// A valid cached token was installed; no network call is needed.
    Install,
    /// An expired cached token was installed provisionally; its refresh
    /// credential must now be redeemed.
    Refresh,
    /// No usable cached token exists; the interactive authorization-code
    /// exchange must run.
    Exchange,
}

/// The action the decision procedure selects for a given cache-read
/// outcome: a present valid token is used directly, a present expired one
/// is refreshed, and a miss or a failed read both fall back to the
/// interactive exchange.
pub open spec fn token_action_for(cache: CacheReadOutcome, now: int) -> TokenAction {
    match cache {
        CacheReadOutcome::Hit(t) => if t.is_expired_at(now) {
            TokenAction::Refresh
        } else {
            TokenAction::Install
        },
        CacheReadOutcome::Miss => TokenAction::Exchange,
        CacheReadOutcome::ReadError => TokenAction::Exchange,
    }
}

/// The token slot after the decision procedure ran: any cached token is
/// installed (provisionally so when expired), and otherwise the slot is
/// left as it was.
pub open spec fn token_slot_after(slot: Option<Token>, cache: CacheReadOutcome, now: int) -> Option<
    Token,
> {
    match cache {
        CacheReadOutcome::Hit(t) => Option::Some(t),
        CacheReadOutcome::Miss => slot,
        CacheReadOutcome::ReadError => slot,
    }
}

/// A failed cache read and an empty cache are observably the same to the
/// decision procedure: both select the interactive exchange and both leave
/// the token slot untouched.
pub proof fn lemma_cache_read_failure_like_miss(slot: Option<Token>, now: int)
    ensures
        token_action_for(CacheReadOutcome::Miss, now) == token_action_for(
            CacheReadOutcome::ReadError,
            now,
        ),
        token_slot_after(slot, CacheReadOutcome::Miss, now) == token_slot_after(
            slot,
            CacheReadOutcome::ReadError,
            now,
        ),
{
}

/// The static OAuth configuration: the scopes the client requests, the
/// local callback address the browser flow redirects to, and whether the
/// token cache is used.
pub struct OAuthConfig {
    pub scopes: Vec<String>,
    pub redirect_uri: String,
    pub cache_enabled: bool,
}

/// The configuration the client is built with: the sixteen playback,
/// playlist, follow and library scopes, the local callback address, and
/// the token cache switched on.
pub open spec fn is_default_config(c: OAuthConfig) -> bool {
    &&& c.scopes@.len() == 16
    &&& c.scopes@[0]@ == "user-read-playback-state"@
    &&& c.scopes@[1]@ == "user-modify-playback-state"@
    &&& c.scopes@[2]@ == "user-read-currently-playing"@
    &&& c.scopes@[3]@ == "playlist-read-private"@
    &&& c.scopes@[4]@ == "playlist-read-collaborative"@
    &&& c.scopes@[5]@ == "playlist-modify-private"@
    &&& c.scopes@[6]@ == "playlist-modify-public"@
    &&& c.scopes@[7]@ == "user-follow-modify"@
    &&& c.scopes@[8]@ == "user-follow-read"@
    &&& c.scopes@[9]@ == "user-read-playback-position"@
    &&& c.scopes@[10]@ == "user-top-read"@
    &&& c.scopes@[11]@ == "user-read-recently-played"@
    &&& c.scopes@[12]@ == "user-library-modify"@
    &&& c.scopes@[13]@ == "user-library-read"@
    &&& c.scopes@[14]@ == "user-read-email"@
    &&& c.scopes@[15]@ == "user-read-private"@
    &&& c.redirect_uri@ == "http://localhost:8888/callback"@
    &&& c.cache_enabled
}

/// Builds the static OAuth configuration.
pub fn default_oauth_config() -> (r: OAuthConfig)
    ensures
        is_default_config(r),
{
    let scopes: Vec<String> = vec![
        String::from_str("user-read-playback-state"),
        String::from_str("user-modify-playback-state"),
        String::from_str("user-read-currently-playing"),
        String::from_str("playlist-read-private"),
        String::from_str("playlist-read-collaborative"),
        String::from_str("playlist-modify-private"),
        String::from_str("playlist-modify-public"),
        String::from_str("user-follow-modify"),
        String::from_str("user-follow-read"),
        String::from_str("user-read-playback-position"),
        String::from_str("user-top-read"),
        String::from_str("user-read-recently-played"),
        String::from_str("user-library-modify"),
        String::from_str("user-library-read"),
        String::from_str("user-read-email"),
        String::from_str("user-read-private"),
    ];
    OAuthConfig {
        scopes,
        redirect_uri: String::from_str("http://localhost:8888/callback"),
        cache_enabled: true,
    }
}

#[verifier::external_type_specification]
#[verifier::external_body]
pub struct ExCredentials(rspotify::Credentials);

#[verifier::external_type_specification]
#[verifier::external_body]
pub struct ExOAuth(rspotify::OAuth);

#[verifier::external_type_specification]
#[verifier::external_body]
pub struct ExConfig(rspotify::Config);

#[verifier::external_type_specification]
#[verifier::external_body]
pub struct ExAuthCodeSpotify(rspotify::AuthCodeSpotify);

/// Relies on rspotify::Credentials::new: packs a client id and secret into
/// a credentials value; no other effect.
#[verifier::external_body]
fn make_credentials(id: &str, secret: &str) -> (r: rspotify::Credentials) {
    rspotify::Credentials::new(id, secret)
}

/// Relies on rspotify::OAuth and its Default: carries the requested scopes
/// and the redirect address; the remaining fields (among them a freshly
/// generated CSRF state) take their defaults.
#[verifier::external_body]
fn make_oauth(scopes: &Vec<String>, redirect_uri: &str) -> (r: rspotify::OAuth) {
    rspotify::OAuth {
        scopes: scopes.iter().cloned().collect(),
        redirect_uri: redirect_uri.to_string(),
        ..Default::default()
    }
}

/// Relies on rspotify::Config and its Default: `token_cached` switches the
/// token cache file on; the remaining fields take their defaults.
#[verifier::external_body]
fn make_client_config(token_cached: bool) -> (r: rspotify::Config) {
    rspotify::Config { token_cached, ..Default::default() }
}

/// Relies on rspotify::AuthCodeSpotify::with_config: builds the reusable
/// client handle from credentials, OAuth settings and configuration; makes
/// no network call.
#[verifier::external_body]
fn make_auth_code_client(
    creds: rspotify::Credentials,
    oauth: rspotify::OAuth,
    config: rspotify::Config,
) -> (r: rspotify::AuthCodeSpotify) {
    rspotify::AuthCodeSpotify::with_config(creds, oauth, config)
}

/// Relies on rspotify::AuthCodeSpotify::get_authorize_url: assembles the
/// authorization URL from the client's configuration alone, without a
/// network call; fails only when no URL can be assembled from it.
#[verifier::external_body]
fn authorize_url_of(handle: &rspotify::AuthCodeSpotify, show_dialog: bool) -> (r: Option<
    String,
>) {
    handle.get_authorize_url(show_dialog).ok()
}

/// Relies on rspotify's OAuthClient::parse_response_code: returns the
/// `code` query parameter of the given redirect URL when the URL parses
/// and its `state` parameter matches the state the client was built with,
/// and nothing otherwise.
#[verifier::external_body]
fn response_code_of(handle: &rspotify::AuthCodeSpotify, url: &str) -> (r: Option<String>) {
    handle.parse_response_code(url)
}

/// The reusable client handle of the authorization-code flow: the token
/// slot it owns, the configuration it was built from, and the underlying
/// HTTP-capable OAuth client.
pub struct AuthClient {
    /// The token slot: absent until a cached, refreshed or exchanged token
    /// is installed.
    pub token: Option<Token>,
    /// The configuration the handle was built with.
    pub config: OAuthConfig,
    /// The underlying OAuth client that performs cache and network work.
    pub handle: rspotify::AuthCodeSpotify,
}

/// Builds the reusable client handle from the given credentials: the
/// default configuration, an empty token slot, and the underlying OAuth
/// client. Makes no network call.
pub fn init_spotify(envs: &Envs) -> (r: AuthClient)
    ensures
        r.token is None,
        is_default_config(r.config),
{
    let config = default_oauth_config();
    let creds = make_credentials(envs.client_id.as_str(), envs.client_secret.as_str());
    let oauth = make_oauth(&config.scopes, config.redirect_uri.as_str());
    let client_config = make_client_config(config.cache_enabled);
    let handle = make_auth_code_client(creds, oauth, client_config);
    AuthClient { token: None, config, handle }
}

impl AuthClient {
    /// The cache-read decision procedure of startup: a present valid token
    /// is installed directly and needs nothing further; a present expired
    /// token is installed provisionally and must be refreshed; a miss and
    /// a failed read both fall back to the interactive exchange and leave
    /// the slot untouched.
    pub fn get_token(&mut self, cache: CacheReadOutcome, now: i64) -> (r: TokenAction)
        requires
            now + EXPIRY_MARGIN_SECONDS <= i64::MAX,
        ensures
            r == token_action_for(cache, now as int),
            final(self).token == token_slot_after(old(self).token, cache, now as int),
            final(self).config == old(self).config,
            final(self).handle == old(self).handle,
    {
        match cache {
            CacheReadOutcome::Hit(token) => {
                if token.is_expired(now) {
                    let _ = refresh_auth_code(self, token, now);
                    TokenAction::Refresh
                } else {
                    self.token = Some(token);
                    TokenAction::Install
                }
            },
            CacheReadOutcome::Miss => TokenAction::Exchange,
            CacheReadOutcome::ReadError => TokenAction::Exchange,
        }
    }

    /// Installs the outcome of a refresh request: the refreshed token on
    /// success, and a refresh failure otherwise — distinct from "no token
    /// available", since a human cannot retry a refresh. The slot keeps the
    /// provisionally installed token when the refresh failed.
    pub fn apply_refresh_outcome(&mut self, refreshed: Option<Token>) -> (r: Result<
        (),
        AuthError,
    >)
        ensures
            refreshed matches Some(t) ==> r is Ok && final(self).token == Some(t),
            refreshed is None ==> r == Result::<(), AuthError>::Err(AuthError::RefreshError)
                && final(self).token == old(self).token,
            final(self).config == old(self).config,
            final(self).handle == old(self).handle,
    {
        match refreshed {
            Some(t) => {
                self.token = Some(t);
                Ok(())
            },
            None => Err(AuthError::RefreshError),
        }
    }

    /// Installs the outcome of exchanging a one-time code: the new token on
    /// success, and an exchange failure otherwise. A failed exchange leaves
    /// the slot untouched; the code is spent either way, so the caller must
    /// restart from a fresh authorization URL rather than retry it.
    pub fn apply_exchange_outcome(&mut self, exchanged: Option<Token>) -> (r: Result<
        (),
        AuthError,
    >)
        ensures
            exchanged matches Some(t) ==> r is Ok && final(self).token == Some(t),
            exchanged is None ==> r == Result::<(), AuthError>::Err(
                AuthError::ExchangeRequestError,
            ) && final(self).token == old(self).token,
            final(self).config == old(self).config,
            final(self).handle == old(self).handle,
    {
        match exchanged {
            Some(t) => {
                self.token = Some(t);
                Ok(())
            },
            None => Err(AuthError::ExchangeRequestError),
        }
    }

    /// The authorization URL the user must open in a browser as the first
    /// step of the interactive exchange; built from the client's
    /// configuration alone.
    pub fn authorize_url(&self) -> (r: Option<String>) {
        authorize_url_of(&self.handle, true)
    }

    /// The parse step of the interactive exchange: extracts the one-time
    /// code from the line the user pasted. An absent line models standard
    /// input that could not be read; it and an unparsable URL both yield
    /// the parse error.
    pub fn exchange_code_from_input(&self, input: Option<String>) -> (r: Result<
        String,
        AuthError,
    >)
        ensures
            input is None ==> r == Result::<String, AuthError>::Err(
                AuthError::ExchangeParseError,
            ),
            r is Ok ==> input is Some,
            r matches Err(e) ==> e == AuthError::ExchangeParseError,
    {
        match input {
            None => Err(AuthError::ExchangeParseError),
            Some(line) => {
                let parsed = response_code_of(&self.handle, line.as_str());
                code_or_parse_error(parsed)
            },
        }
    }

    /// Whether the freshly acquired token must be persisted: only when the
    /// cache is enabled and a token is actually installed.
    pub fn should_write_cache(&self) -> (r: bool)
        ensures
            r == (self.config.cache_enabled && self.token is Some),
    {
        self.config.cache_enabled && self.token.is_some()
    }
}

/// The provisional step of a refresh. A refresh requires a prior token
/// value, even an expired one, because the refresh credential travels
/// with it: the given token is installed into the client's slot, and the
/// caller is told whether a refresh request must follow, which is exactly
/// when the token is expired.
pub fn refresh_auth_code(client: &mut AuthClient, token: Token, now: i64) -> (r: bool)
    requires
        now + EXPIRY_MARGIN_SECONDS <= i64::MAX,
    ensures
        final(client).token == Some(token),
        r == token.is_expired_at(now as int),
        final(client).config == old(client).config,
        final(client).handle == old(client).handle,
{
    let expired = token.is_expired(now);
    client.token = Some(token);
    expired
}

/// Maps the outcome of one attempt to persist the token cache: the write
/// error exactly when the write failed. The error is not fatal — a failed
/// write is logged and never aborts an otherwise successful
/// authentication, as `AuthError::is_fatal` confirms.
pub fn cache_write_result(write_ok: bool) -> (r: Result<(), AuthError>)
    ensures
        write_ok ==> r is Ok,
        !write_ok ==> r == Result::<(), AuthError>::Err(AuthError::CacheWriteError),
{
    if write_ok {
        Ok(())
    } else {
        Err(AuthError::CacheWriteError)
    }
}

/// Maps the outcome of extracting a code from the pasted redirect URL:
/// exactly the extracted code on success, and the parse error when no code
/// could be extracted.
pub fn code_or_parse_error(parsed: Option<String>) -> (r: Result<String, AuthError>)
    ensures
        parsed matches Some(c) ==> r == Result::<String, AuthError>::Ok(c),
        parsed is None ==> r == Result::<String, AuthError>::Err(AuthError::ExchangeParseError),
{
    match parsed {
        Some(c) => Ok(c),
        None => Err(AuthError::ExchangeParseError),
    }
}

} // verus!
