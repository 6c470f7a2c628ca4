use rustify::app::{startup_credentials, Envs};
use rustify::auth::{
    cache_write_result, default_oauth_config, init_spotify, refresh_auth_code, AuthError,
    CacheReadOutcome, Token, TokenAction, EXPIRY_MARGIN_SECONDS,
};

fn envs() -> Envs {
    Envs::new(Some("test-id".to_string()), Some("test-secret".to_string())).unwrap()
}

fn token(expires_at: Option<i64>) -> Token {
    Token {
        access_token: "access".to_string(),
        refresh_token: Some("refresh".to_string()),
        expires_at,
    }
}

#[test]
fn missing_client_id_is_a_config_error() {
    let r = startup_credentials(None, Some("secret".to_string()));
    assert_eq!(r.unwrap_err(), AuthError::ConfigError);
}

#[test]
fn missing_client_secret_is_a_config_error() {
    let r = startup_credentials(Some("id".to_string()), None);
    assert_eq!(r.unwrap_err(), AuthError::ConfigError);
}

#[test]
fn both_credentials_present_pass_the_gate() {
    let e = startup_credentials(Some("id".to_string()), Some("secret".to_string())).unwrap();
    assert_eq!(e.client_id, "id");
    assert_eq!(e.client_secret, "secret");
}

#[test]
fn envs_need_both_variables() {
    assert!(Envs::new(None, None).is_none());
    assert!(Envs::new(Some("id".to_string()), None).is_none());
    assert!(Envs::new(None, Some("s".to_string())).is_none());
    assert!(Envs::new(Some("id".to_string()), Some("s".to_string())).is_some());
}

#[test]
fn fatal_errors_are_config_and_terminal() {
    assert!(AuthError::ConfigError.is_fatal());
    assert!(AuthError::TerminalError.is_fatal());
    assert!(!AuthError::CacheReadError.is_fatal());
    assert!(!AuthError::CacheWriteError.is_fatal());
    assert!(!AuthError::RefreshError.is_fatal());
    assert!(!AuthError::ExchangeParseError.is_fatal());
    assert!(!AuthError::ExchangeRequestError.is_fatal());
}

#[test]
fn default_config_lists_the_sixteen_scopes() {
    let c = default_oauth_config();
    assert_eq!(c.scopes.len(), 16);
    assert_eq!(c.scopes[0], "user-read-playback-state");
    assert_eq!(c.scopes[6], "playlist-modify-public");
    assert_eq!(c.scopes[15], "user-read-private");
    assert_eq!(c.redirect_uri, "http://localhost:8888/callback");
    assert!(c.cache_enabled);
}

#[test]
fn expiry_respects_the_margin() {
    let now: i64 = 1_000_000;
    assert!(token(None).is_expired(now));
    assert!(token(Some(now)).is_expired(now));
    assert!(token(Some(now + EXPIRY_MARGIN_SECONDS)).is_expired(now));
    assert!(!token(Some(now + EXPIRY_MARGIN_SECONDS + 1)).is_expired(now));
    assert!(token(Some(now - 5)).is_expired(now));
}

#[test]
fn valid_cached_token_is_installed_without_network() {
    let now: i64 = 1_000_000;
    let mut client = init_spotify(&envs());
    let t = token(Some(now + 3600));
    let action = client.get_token(CacheReadOutcome::Hit(t), now);
    assert_eq!(action, TokenAction::Install);
    assert_eq!(client.token.as_ref().unwrap().access_token, "access");
}

#[test]
fn expired_cached_token_triggers_refresh_not_exchange() {
    let now: i64 = 1_000_000;
    let mut client = init_spotify(&envs());
    let t = token(Some(now - 3600));
    let action = client.get_token(CacheReadOutcome::Hit(t), now);
    assert_eq!(action, TokenAction::Refresh);
    // the expired token is installed provisionally so its refresh
    // credential travels with the client
    assert_eq!(
        client.token.as_ref().unwrap().refresh_token.as_deref(),
        Some("refresh")
    );
}

#[test]
fn cache_miss_and_read_error_are_indistinguishable() {
    let now: i64 = 1_000_000;
    let mut miss_client = init_spotify(&envs());
    let mut err_client = init_spotify(&envs());
    let miss_action = miss_client.get_token(CacheReadOutcome::Miss, now);
    let err_action = err_client.get_token(CacheReadOutcome::ReadError, now);
    assert_eq!(miss_action, err_action);
    assert_eq!(miss_action, TokenAction::Exchange);
    assert!(miss_client.token.is_none());
    assert!(err_client.token.is_none());
}

#[test]
fn refresh_step_installs_provisionally_and_reports_expiry() {
    let now: i64 = 1_000_000;
    let mut client = init_spotify(&envs());
    assert!(refresh_auth_code(&mut client, token(Some(now - 1)), now));
    assert!(client.token.is_some());
    let mut client2 = init_spotify(&envs());
    assert!(!refresh_auth_code(&mut client2, token(Some(now + 3600)), now));
    assert!(client2.token.is_some());
}

#[test]
fn failed_refresh_is_a_refresh_error() {
    let mut client = init_spotify(&envs());
    let r = client.apply_refresh_outcome(None);
    assert_eq!(r.unwrap_err(), AuthError::RefreshError);
}

#[test]
fn failed_exchange_is_an_exchange_request_error() {
    let mut client = init_spotify(&envs());
    let r = client.apply_exchange_outcome(None);
    assert_eq!(r.unwrap_err(), AuthError::ExchangeRequestError);
}

#[test]
fn failed_cache_write_is_logged_not_fatal() {
    assert!(cache_write_result(true).is_ok());
    let e = cache_write_result(false).unwrap_err();
    assert_eq!(e, AuthError::CacheWriteError);
    assert!(!e.is_fatal());
}

#[test]
fn unreadable_input_is_a_parse_error() {
    let client = init_spotify(&envs());
    let r = client.exchange_code_from_input(None);
    assert_eq!(r.unwrap_err(), AuthError::ExchangeParseError);
}

#[test]
fn garbage_input_is_a_parse_error() {
    let client = init_spotify(&envs());
    let r = client.exchange_code_from_input(Some("not a url at all".to_string()));
    assert_eq!(r.unwrap_err(), AuthError::ExchangeParseError);
}

#[test]
fn pasted_redirect_url_yields_the_code() {
    let client = init_spotify(&envs());
    let state = client.handle.oauth.state.clone();
    let url = format!(
        "http://localhost:8888/callback?code=one-time-code&state={}",
        state
    );
    let r = client.exchange_code_from_input(Some(url));
    assert_eq!(r.unwrap(), "one-time-code");
}

#[test]
fn redirect_url_with_wrong_state_is_rejected() {
    let client = init_spotify(&envs());
    let url = "http://localhost:8888/callback?code=abc&state=not-the-state".to_string();
    let r = client.exchange_code_from_input(Some(url));
    assert_eq!(r.unwrap_err(), AuthError::ExchangeParseError);
}

#[test]
fn authorize_url_names_the_client_and_callback() {
    let client = init_spotify(&envs());
    let url = client.authorize_url().unwrap();
    assert!(url.contains("client_id=test-id"));
    assert!(url.contains("response_type=code"));
}

#[test]
fn cache_write_is_owed_only_with_a_token_installed() {
    let now: i64 = 1_000_000;
    let mut client = init_spotify(&envs());
    assert!(!client.should_write_cache());
    client.get_token(CacheReadOutcome::Hit(token(Some(now + 3600))), now);
    assert!(client.should_write_cache());
}

#[test]
fn refresh_scenario_replaces_the_slot_and_writes_once() {
    let now: i64 = 1_000_000;
    let mut client = init_spotify(&envs());
    let expired = token(Some(now - 3600));
    let action = client.get_token(CacheReadOutcome::Hit(expired), now);
    assert_eq!(action, TokenAction::Refresh);

    let fresh = Token {
        access_token: "fresh-access".to_string(),
        refresh_token: Some("refresh".to_string()),
        expires_at: Some(now + 3600),
    };
    let mut cache_writes: u32 = 0;
    assert!(client.apply_refresh_outcome(Some(fresh)).is_ok());
    if client.should_write_cache() {
        cache_writes += 1;
    }
    assert_eq!(client.token.as_ref().unwrap().access_token, "fresh-access");
    assert_eq!(cache_writes, 1);
}

#[test]
fn exchange_scenario_populates_the_slot() {
    let now: i64 = 1_000_000;
    let mut client = init_spotify(&envs());
    let action = client.get_token(CacheReadOutcome::Miss, now);
    assert_eq!(action, TokenAction::Exchange);

    let url = client.authorize_url();
    assert!(url.is_some());
    let state = client.handle.oauth.state.clone();
    let pasted = format!("http://localhost:8888/callback?code=xyz&state={}", state);
    let code = client.exchange_code_from_input(Some(pasted)).unwrap();
    assert_eq!(code, "xyz");

    let exchanged = Token {
        access_token: "exchanged-access".to_string(),
        refresh_token: Some("r".to_string()),
        expires_at: Some(now + 3600),
    };
    assert!(client.apply_exchange_outcome(Some(exchanged)).is_ok());
    assert_eq!(
        client.token.as_ref().unwrap().access_token,
        "exchanged-access"
    );
}
