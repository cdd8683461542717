//! Sign-in decisions for the OAuth 2.0 device-code flow: which token to use,
//! how to read the identity platform's answers, and what the requests carry.
//! Sending the requests, waiting and storing tokens are left to the caller.
use vstd::prelude::*;
use crate::graph::opt_str;
use crate::text::{join_spec, join_strings, str_eq};

verus! {

broadcast use vstd::string::group_string_axioms;

/// The delegated permissions requested, in order.
pub open spec fn scopes_spec() -> Seq<Seq<char>> {
    seq![
        "User.Read"@,
        "User.ReadBasic.All"@,
        "People.Read"@,
        "Chat.ReadWrite"@,
        "ChatMessage.Read"@,
        "ChatMessage.Send"@,
        "ChannelMessage.Read.All"@,
        "ChannelMessage.Send"@,
        "Team.ReadBasic.All"@,
        "Channel.ReadBasic.All"@,
        "Presence.Read"@,
        "Presence.ReadWrite"@,
        "offline_access"@,
    ]
}

/// The delegated permissions requested, in order.
pub fn scopes() -> (r: Vec<String>)
    ensures
        r.deep_view() == scopes_spec(),
{
    let mut v: Vec<String> = Vec::new();
    v.push(String::from_str("User.Read"));
    v.push(String::from_str("User.ReadBasic.All"));
    v.push(String::from_str("People.Read"));
    v.push(String::from_str("Chat.ReadWrite"));
    v.push(String::from_str("ChatMessage.Read"));
    v.push(String::from_str("ChatMessage.Send"));
    v.push(String::from_str("ChannelMessage.Read.All"));
    v.push(String::from_str("ChannelMessage.Send"));
    v.push(String::from_str("Team.ReadBasic.All"));
    v.push(String::from_str("Channel.ReadBasic.All"));
    v.push(String::from_str("Presence.Read"));
    v.push(String::from_str("Presence.ReadWrite"));
    v.push(String::from_str("offline_access"));
    assert(v.deep_view() =~= scopes_spec());
    v
}

/// The requested permissions as one space-separated `scope` value.
pub fn scopes_joined() -> (r: String)
    ensures
        r@ == join_spec(scopes_spec(), " "@),
{
    join_strings(&scopes(), " ")
}

/// Tokens kept between sessions.
#[derive(Debug)]
pub struct TokenStore {
    pub access_token: String,
    pub refresh_token: Option<String>,
    /// Unix time, in seconds, at which the access token expires.
    pub expires_at: Option<u64>,
}

/// The fields of a token endpoint answer.
#[derive(Debug)]
pub struct TokenResponse {
    pub access_token: Option<String>,
    pub refresh_token: Option<String>,
    pub expires_in: Option<u64>,
    pub error: Option<String>,
    pub error_description: Option<String>,
}

/// Where the access token comes from.
#[derive(Debug)]
pub enum TokenSource {
    /// The stored token is still valid.
    Cached(String),
    /// Ask for a new token with this refresh token.
    Refresh(String),
    /// Sign in interactively.
    DeviceLogin,
}

/// A stored token is used as it is while it stays valid for more than three minutes.
pub open spec fn still_valid(tokens: TokenStore, now: u64) -> bool {
    tokens.expires_at matches Some(exp) && exp > now + 180
}

/// The source of the access token: a forced login or no stored tokens mean
/// an interactive login; otherwise the stored token while still valid, else
/// a refresh when a refresh token is stored, else an interactive login.
pub open spec fn token_source_spec(force_login: bool, stored: Option<TokenStore>, now: u64) -> TokenSource {
    if force_login || stored is None {
        TokenSource::DeviceLogin
    } else if still_valid(stored->0, now) {
        TokenSource::Cached(stored->0.access_token)
    } else if stored->0.refresh_token is Some {
        TokenSource::Refresh(stored->0.refresh_token->0)
    } else {
        TokenSource::DeviceLogin
    }
}

/// Chooses where the access token comes from (see `token_source_spec`).
/// The validity check adds three minutes to `now`, which must not overflow.
pub fn choose_token_source(force_login: bool, stored: Option<TokenStore>, now: u64) -> (r: TokenSource)
    requires
        !force_login && stored is Some && stored->0.expires_at is Some ==> now <= u64::MAX - 180,
    ensures
        r == token_source_spec(force_login, stored, now),
{
    if force_login {
        return TokenSource::DeviceLogin;
    }
    match stored {
        None => TokenSource::DeviceLogin,
        Some(tokens) => {
            if let Some(exp) = tokens.expires_at {
                if exp > now + 180 {
                    return TokenSource::Cached(tokens.access_token);
                }
            }
            match tokens.refresh_token {
                Some(r) => TokenSource::Refresh(r),
                None => TokenSource::DeviceLogin,
            }
        },
    }
}

/// Seconds between polls of the token endpoint: the interval the server
/// asked for (5 when it gave none), but never less than 5.
pub fn initial_poll_interval(interval: Option<u64>) -> (r: u64)
    ensures
        r == match interval {
            Some(i) => if i > 5 {
                i
            } else {
                5
            },
            None => 5,
        },
{
    let i = match interval {
        Some(i) => i,
        None => 5,
    };
    if i > 5 {
        i
    } else {
        5
    }
}

/// What one poll of the token endpoint during device login tells.
#[derive(Debug)]
pub enum PollOutcome {
    /// The user has not finished signing in.
    KeepWaiting,
    /// Poll less often: five seconds more between polls.
    SlowDown,
    /// Sign-in failed with this message.
    Failed(String),
    /// Signed in.
    Authenticated(TokenStore),
}

/// The expiry time of a token valid for `expires_in` seconds from `now`.
pub open spec fn expiry(now: u64, expires_in: Option<u64>) -> Option<u64> {
    match expires_in {
        Some(s) => Some((now + s) as u64),
        None => None,
    }
}

/// The message a failed poll reports for error code `err`.
pub open spec fn poll_failure_spec(err: Seq<char>, description: Option<Seq<char>>) -> Seq<char> {
    if err == "expired_token"@ {
        "Device code expired. Please rerun teams-tui."@
    } else if err == "access_denied"@ {
        "Authorization was cancelled or denied by the user."@
    } else {
        "Login failed: "@ + err + " - "@ + match description {
            Some(d) => d,
            None => Seq::empty(),
        }
    }
}

/// The outcome of a poll answer: its error code decides (pending: keep
/// waiting; `slow_down`: slow down; other codes: failure); without an error,
/// an access token means success and its absence is a failure.
pub open spec fn poll_outcome_ok(resp: TokenResponse, now: u64, r: PollOutcome) -> bool {
    match resp.error {
        Some(e) => if e@ == "authorization_pending"@ {
            r is KeepWaiting
        } else if e@ == "slow_down"@ {
            r is SlowDown
        } else {
            r matches PollOutcome::Failed(m) && m@ == poll_failure_spec(
                e@,
                opt_str(resp.error_description),
            )
        },
        None => match resp.access_token {
            Some(t) => r matches PollOutcome::Authenticated(tokens) && tokens.access_token == t
                && tokens.refresh_token == resp.refresh_token && tokens.expires_at == expiry(
                now,
                resp.expires_in,
            ),
            None => r matches PollOutcome::Failed(m) && m@
                == "Unexpected empty token response from Microsoft Entra."@,
        },
    }
}

/// Reads one answer of the token endpoint during device login.
/// Computing the expiry adds `expires_in` to `now`, which must not overflow.
pub fn interpret_poll_response(resp: TokenResponse, now: u64) -> (r: PollOutcome)
    requires
        resp.error is None && resp.access_token is Some && resp.expires_in is Some ==> now
            + resp.expires_in->0 <= u64::MAX,
    ensures
        poll_outcome_ok(resp, now, r),
{
    let ghost resp0 = resp;
    if let Some(err) = &resp.error {
        if str_eq(err.as_str(), "authorization_pending") {
            return PollOutcome::KeepWaiting;
        }
        if str_eq(err.as_str(), "slow_down") {
            return PollOutcome::SlowDown;
        }
        if str_eq(err.as_str(), "expired_token") {
            return PollOutcome::Failed(
                String::from_str("Device code expired. Please rerun teams-tui."),
            );
        }
        if str_eq(err.as_str(), "access_denied") {
            return PollOutcome::Failed(
                String::from_str("Authorization was cancelled or denied by the user."),
            );
        }
        let mut m = String::from_str("Login failed: ");
        m.append(err.as_str());
        m.append(" - ");
        match &resp.error_description {
            Some(d) => m.append(d.as_str()),
            None => {},
        }
        return PollOutcome::Failed(m);
    }
    match resp.access_token {
        Some(t) => {
            let expires_at = match resp.expires_in {
                Some(s) => Some(now + s),
                None => None,
            };
            PollOutcome::Authenticated(
                TokenStore { access_token: t, refresh_token: resp.refresh_token, expires_at },
            )
        },
        None => PollOutcome::Failed(
            String::from_str("Unexpected empty token response from Microsoft Entra."),
        ),
    }
}

/// The tokens a refresh answer gives: a new access token, the new refresh
/// token or else the one used, and the expiry; an error without an access token.
pub open spec fn refreshed_ok(
    resp: TokenResponse,
    used: Seq<char>,
    now: u64,
    r: Result<TokenStore, String>,
) -> bool {
    match resp.access_token {
        Some(t) => r matches Ok(tokens) && tokens.access_token == t && opt_str(
            tokens.refresh_token,
        ) == match resp.refresh_token {
            Some(n) => Some(n@),
            None => Some(used),
        } && tokens.expires_at == expiry(now, resp.expires_in),
        None => r matches Err(m) && m@ == "No access token in refresh response"@,
    }
}

/// Reads the answer to a refresh request made with refresh token `used`.
/// Computing the expiry adds `expires_in` to `now`, which must not overflow.
pub fn tokens_from_refresh(resp: TokenResponse, used: &str, now: u64) -> (r: Result<TokenStore, String>)
    requires
        resp.access_token is Some && resp.expires_in is Some ==> now + resp.expires_in->0
            <= u64::MAX,
    ensures
        refreshed_ok(resp, used@, now, r),
{
    match resp.access_token {
        Some(t) => {
            let expires_at = match resp.expires_in {
                Some(s) => Some(now + s),
                None => None,
            };
            let refresh_token = match resp.refresh_token {
                Some(n) => Some(n),
                None => Some(used.to_owned()),
            };
            Ok(TokenStore { access_token: t, refresh_token, expires_at })
        },
        None => Err(String::from_str("No access token in refresh response")),
    }
}

/// The device authorization endpoint of `tenant`.
pub fn device_code_url(tenant: &str) -> (r: String)
    ensures
        r@ == "https://login.microsoftonline.com/"@ + tenant@ + "/oauth2/v2.0/devicecode"@,
{
    let mut u = String::from_str("https://login.microsoftonline.com/");
    u.append(tenant);
    u.append("/oauth2/v2.0/devicecode");
    u
}

/// The token endpoint of `tenant`.
pub fn token_url(tenant: &str) -> (r: String)
    ensures
        r@ == "https://login.microsoftonline.com/"@ + tenant@ + "/oauth2/v2.0/token"@,
{
    let mut u = String::from_str("https://login.microsoftonline.com/");
    u.append(tenant);
    u.append("/oauth2/v2.0/token");
    u
}

/// The grant type of a device-code token poll.
pub open spec fn device_code_grant_spec() -> Seq<char> {
    "urn:ietf:params:oauth:grant-type:device_code"@
}

/// The grant type of a device-code token poll.
pub fn device_code_grant() -> (r: String)
    ensures
        r@ == device_code_grant_spec(),
{
    String::from_str("urn:ietf:params:oauth:grant-type:device_code")
}

/// The wait before the next poll of the token endpoint: five seconds more
/// after a slow-down answer, unchanged otherwise.
pub fn next_poll_interval(current: u64, outcome: &PollOutcome) -> (r: u64)
    requires
        outcome is SlowDown ==> current <= u64::MAX - 5,
    ensures
        outcome is SlowDown ==> r == current + 5,
        !(outcome is SlowDown) ==> r == current,
{
    match outcome {
        PollOutcome::SlowDown => current + 5,
        _ => current,
    }
}

/// The error for a device-code request that was not answered with success.
pub fn device_code_failure_message(body: &str) -> (r: String)
    ensures
        r@ == "Device code request failed: "@ + body@,
{
    let mut m = String::from_str("Device code request failed: ");
    m.append(body);
    m
}

/// The error for a refresh request that was not answered with success.
pub fn refresh_failure_message(body: &str) -> (r: String)
    ensures
        r@ == "Token refresh request failed: "@ + body@,
{
    let mut m = String::from_str("Token refresh request failed: ");
    m.append(body);
    m
}

/// What follows a refresh attempt.
#[derive(Debug)]
pub enum RefreshStep {
    /// Store these tokens and use their access token.
    Use(TokenStore),
    /// Warn with this text and sign in interactively; the refresh error is
    /// not what the sign-in reports.
    DeviceLogin { warning: String },
}

/// The step after a refresh: its tokens when it worked; otherwise a warning
/// and an interactive sign-in.
pub fn after_refresh(result: Result<TokenStore, String>) -> (r: RefreshStep)
    ensures
        match result {
            Ok(t) => r == RefreshStep::Use(t),
            Err(e) => r matches RefreshStep::DeviceLogin { warning } && warning@
                == "Token refresh failed: "@ + e@ + ". Falling back to device login..."@,
        },
{
    match result {
        Ok(t) => RefreshStep::Use(t),
        Err(e) => {
            let mut w = String::from_str("Token refresh failed: ");
            w.append(e.as_str());
            w.append(". Falling back to device login...");
            RefreshStep::DeviceLogin { warning: w }
        },
    }
}

} // verus!
