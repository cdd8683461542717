use teams_tui::auth::{
    after_refresh, device_code_failure_message, next_poll_interval, refresh_failure_message, RefreshStep,
    choose_token_source, device_code_grant, device_code_url, initial_poll_interval, interpret_poll_response,
    scopes, scopes_joined, token_url, tokens_from_refresh, PollOutcome, TokenResponse, TokenSource, TokenStore,
};

fn store(expires_at: Option<u64>, refresh: Option<&str>) -> TokenStore {
    TokenStore { access_token: "acc".into(), refresh_token: refresh.map(|s| s.to_string()), expires_at }
}

fn response(access: Option<&str>, refresh: Option<&str>, expires_in: Option<u64>, error: Option<&str>) -> TokenResponse {
    TokenResponse {
        access_token: access.map(|s| s.to_string()),
        refresh_token: refresh.map(|s| s.to_string()),
        expires_in,
        error: error.map(|s| s.to_string()),
        error_description: None,
    }
}

#[test]
fn token_source_prefers_valid_cache_then_refresh() {
    assert!(matches!(choose_token_source(true, Some(store(Some(10_000), Some("r"))), 0), TokenSource::DeviceLogin));
    assert!(matches!(choose_token_source(false, None, 0), TokenSource::DeviceLogin));
    assert!(matches!(choose_token_source(false, Some(store(Some(1181), Some("r"))), 1000), TokenSource::Cached(t) if t == "acc"));
    // exactly three minutes left is no longer enough
    assert!(matches!(choose_token_source(false, Some(store(Some(1180), Some("r"))), 1000), TokenSource::Refresh(t) if t == "r"));
    assert!(matches!(choose_token_source(false, Some(store(None, Some("r"))), 1000), TokenSource::Refresh(_)));
    assert!(matches!(choose_token_source(false, Some(store(Some(5), None)), 1000), TokenSource::DeviceLogin));
}

#[test]
fn refreshed_tokens_are_reused_until_near_expiry() {
    let now = 1_000;
    let stored = tokens_from_refresh(response(Some("new"), None, Some(3600), None), "old-refresh", now).expect("ok");
    assert_eq!(stored.refresh_token.as_deref(), Some("old-refresh"));
    assert_eq!(stored.expires_at, Some(4600));
    let later = now + 3000;
    match choose_token_source(false, Some(stored), later) {
        TokenSource::Cached(t) => assert_eq!(t, "new"),
        other => panic!("unexpected {:?}", other),
    }
    let stored = tokens_from_refresh(response(Some("new"), Some("rot"), Some(3600), None), "old", now).expect("ok");
    match choose_token_source(false, Some(stored), now + 3420) {
        TokenSource::Refresh(t) => assert_eq!(t, "rot"),
        other => panic!("unexpected {:?}", other),
    }
    match tokens_from_refresh(response(None, None, None, Some("invalid_grant")), "old", now) {
        Err(e) => assert_eq!(e, "No access token in refresh response"),
        Ok(_) => panic!("expected an error"),
    }
}

#[test]
fn poll_answers_are_read() {
    assert!(matches!(interpret_poll_response(response(None, None, None, Some("authorization_pending")), 0), PollOutcome::KeepWaiting));
    assert!(matches!(interpret_poll_response(response(None, None, None, Some("slow_down")), 0), PollOutcome::SlowDown));
    assert!(matches!(
        interpret_poll_response(response(None, None, None, Some("expired_token")), 0),
        PollOutcome::Failed(m) if m == "Device code expired. Please rerun teams-tui."
    ));
    assert!(matches!(
        interpret_poll_response(response(None, None, None, Some("access_denied")), 0),
        PollOutcome::Failed(m) if m == "Authorization was cancelled or denied by the user."
    ));
    let mut odd = response(None, None, None, Some("bad"));
    odd.error_description = Some("why".into());
    assert!(matches!(interpret_poll_response(odd, 0), PollOutcome::Failed(m) if m == "Login failed: bad - why"));
    assert!(matches!(
        interpret_poll_response(response(None, None, None, Some("bad")), 0),
        PollOutcome::Failed(m) if m == "Login failed: bad - "
    ));
    assert!(matches!(
        interpret_poll_response(response(None, None, None, None), 0),
        PollOutcome::Failed(m) if m == "Unexpected empty token response from Microsoft Entra."
    ));
    match interpret_poll_response(response(Some("a"), Some("r"), Some(60), None), 100) {
        PollOutcome::Authenticated(t) => {
            assert_eq!(t.access_token, "a");
            assert_eq!(t.refresh_token.as_deref(), Some("r"));
            assert_eq!(t.expires_at, Some(160));
        },
        other => panic!("unexpected {:?}", other),
    }
}

#[test]
fn poll_interval_never_below_five() {
    assert_eq!(initial_poll_interval(None), 5);
    assert_eq!(initial_poll_interval(Some(1)), 5);
    assert_eq!(initial_poll_interval(Some(9)), 9);
}

#[test]
fn endpoints_and_scopes() {
    assert_eq!(device_code_url("common"), "https://login.microsoftonline.com/common/oauth2/v2.0/devicecode");
    assert_eq!(token_url("contoso"), "https://login.microsoftonline.com/contoso/oauth2/v2.0/token");
    assert_eq!(device_code_grant(), "urn:ietf:params:oauth:grant-type:device_code");
    let s = scopes();
    assert_eq!(s.len(), 13);
    assert_eq!(s[0], "User.Read");
    assert_eq!(s[12], "offline_access");
    assert!(scopes_joined().starts_with("User.Read User.ReadBasic.All People.Read "));
    assert!(scopes_joined().ends_with(" offline_access"));
}

#[test]
fn poll_interval_grows_only_on_slow_down() {
    assert_eq!(next_poll_interval(5, &PollOutcome::SlowDown), 10);
    assert_eq!(next_poll_interval(10, &PollOutcome::KeepWaiting), 10);
    assert_eq!(next_poll_interval(7, &PollOutcome::Failed("x".into())), 7);
}

#[test]
fn sign_in_failures_carry_the_answer() {
    assert_eq!(device_code_failure_message("bad client"), "Device code request failed: bad client");
    assert_eq!(refresh_failure_message("invalid_grant"), "Token refresh request failed: invalid_grant");
}

#[test]
fn failed_refresh_falls_back_to_device_login() {
    match after_refresh(Err("network down".into())) {
        RefreshStep::DeviceLogin { warning } => {
            assert_eq!(warning, "Token refresh failed: network down. Falling back to device login...")
        },
        other => panic!("unexpected {:?}", other),
    }
    match after_refresh(Ok(store(Some(9), Some("r")))) {
        RefreshStep::Use(t) => assert_eq!(t.access_token, "acc"),
        other => panic!("unexpected {:?}", other),
    }
}
