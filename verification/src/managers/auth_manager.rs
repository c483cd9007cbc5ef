//! ChatGPT sign-in: the OAuth2 PKCE values, the authorization request, the
//! callback, the tokens and their expiry.

use vstd::prelude::*;
use base64::Engine;
use crate::error::{opt_view, MindLinkError};
use crate::json::Json;
use crate::logging::{in_utc_range, new_uuid, now_millis, os_random_bytes, uuid_text};
use crate::managers::binary_manager::{sha256, sha256_digest};
use crate::text::{cat2, cat3, cat4, opt_text, owned, str_eq, views};

verus! {

broadcast use vstd::string::group_string_axioms;

/// `serde_json::Value`, the claims of a decoded token before they are turned
/// into the library's JSON model.
#[verifier::external_type_specification]
#[verifier::external_body]
pub struct ExJsonValue(serde_json::Value);

/// Signed-in tokens.  `expires_at` is in milliseconds since the Unix epoch.
pub struct AuthTokens {
    pub access_token: String,
    pub refresh_token: String,
    pub id_token: String,
    pub expires_at: i64,
    pub token_type: String,
    pub account_id: String,
}

/// The answer of the token endpoint to a code exchange.
pub struct TokenResponse {
    pub access_token: String,
    pub id_token: String,
    pub token_type: String,
    pub expires_in: Option<u64>,
    pub refresh_token: Option<String>,
    pub scope: Option<String>,
}

/// An API key handed out by the service.
pub struct ApiKeyResponse {
    pub api_key: String,
}

/// The answer of the token endpoint to a refresh.
pub struct RefreshTokenResponse {
    pub access_token: String,
    pub token_type: String,
    pub expires_in: Option<u64>,
    pub refresh_token: Option<String>,
}

/// The query of the browser's redirect back to the local callback.
pub struct AuthCallbackQuery {
    pub code: Option<String>,
    pub error: Option<String>,
    pub error_description: Option<String>,
    pub state: Option<String>,
}

/// The authorization endpoint of ChatGPT sign-in.
pub open spec fn chatgpt_auth_url() -> Seq<char> {
    "https://auth.openai.com/oauth/authorize"@
}

/// The client id the sign-in uses (that of the Codex command line tool).
pub open spec fn client_id() -> Seq<char> {
    "app_EMoamEEZ73f0CkXaXp7hrann"@
}

/// The scopes asked for.
pub open spec fn scope() -> Seq<char> {
    "openid profile email offline_access"@
}

/// The port the local callback listens on.
pub const REDIRECT_PORT: u16 = 1455;

/// How long, in milliseconds, before their expiry tokens stop counting as
/// valid.
pub const EXPIRY_MARGIN_MS: i64 = 300000;

/// The lifetime, in seconds, of tokens from an answer that gives `expires_in`
/// (one hour when it does not), read as a signed number of seconds as the
/// token handling does.
pub open spec fn lifetime_secs(expires_in: Option<u64>) -> int {
    match expires_in {
        Some(e) => if e <= i64::MAX { e as int } else { e - 18446744073709551616 },
        None => 3600,
    }
}

/// When tokens issued at `now_ms` with `expires_in` expire.
pub open spec fn expiry(now_ms: int, expires_in: Option<u64>) -> int {
    now_ms + lifetime_secs(expires_in) * 1000
}

/// The expiry of tokens issued at `now_ms` with `expires_in`; the instant
/// must lie in the range of representable times.
pub fn expiry_after(now_ms: i64, expires_in: Option<u64>) -> (res: i64)
    requires
        in_utc_range(expiry(now_ms as int, expires_in)),
    ensures
        res == expiry(now_ms as int, expires_in),
{
    let secs: i128 = match expires_in {
        Some(e) => if e <= 9223372036854775807u64 {
            e as i128
        } else {
            (e as i128) - 18446744073709551616i128
        },
        None => 3600,
    };
    let total: i128 = (now_ms as i128) + secs * 1000;
    total as i64
}

/// Whether tokens issued at `now_ms` with `expires_in` expire at a
/// representable instant.
pub fn expiry_fits(now_ms: i64, expires_in: Option<u64>) -> (res: bool)
    ensures
        res == in_utc_range(expiry(now_ms as int, expires_in)),
{
    let secs: i128 = match expires_in {
        Some(e) => if e <= 9223372036854775807u64 {
            e as i128
        } else {
            (e as i128) - 18446744073709551616i128
        },
        None => 3600,
    };
    let total: i128 = (now_ms as i128) + secs * 1000;
    -8334601315200000i128 <= total && total <= 8210266876799999i128
}

/// The clock, read for a token check: `None` when it cannot be read or five
/// minutes after the reading is no longer a representable instant.
fn clock_with_margin() -> (res: Option<i64>)
    ensures
        res matches Some(t) ==> in_utc_range(t as int) && in_utc_range(t + 300000) && 0 <= t,
{
    match now_millis() {
        Some(now) => if now <= 8210266876499999i64 {
            Some(now)
        } else {
            None
        },
        None => None,
    }
}

impl AuthTokens {
    /// The tokens after a refresh answered with `response` at `now_ms`: the
    /// new access token and type, the new refresh token if one came (else the
    /// old one), the old id token and account, and the new expiry.
    pub open spec fn refreshed_by(self, response: RefreshTokenResponse, now_ms: int, res: AuthTokens) -> bool {
        &&& res.access_token@ == response.access_token@
        &&& res.refresh_token@ == match response.refresh_token {
            Some(r) => r@,
            None => self.refresh_token@,
        }
        &&& res.id_token@ == self.id_token@
        &&& res.expires_at == expiry(now_ms, response.expires_in)
        &&& res.token_type@ == response.token_type@
        &&& res.account_id@ == self.account_id@
    }

    /// The tokens after a refresh answered with `response` at `now_ms`.
    pub fn refreshed(&self, response: RefreshTokenResponse, now_ms: i64) -> (res: AuthTokens)
        requires
            in_utc_range(expiry(now_ms as int, response.expires_in)),
        ensures
            self.refreshed_by(response, now_ms as int, res),
    {
        let expires_at = expiry_after(now_ms, response.expires_in);
        let refresh_token = match response.refresh_token {
            Some(r) => r,
            None => self.refresh_token.clone(),
        };
        AuthTokens {
            access_token: response.access_token,
            refresh_token,
            id_token: self.id_token.clone(),
            expires_at,
            token_type: response.token_type,
            account_id: self.account_id.clone(),
        }
    }

    /// The tokens of a code exchange answered with `response` at `now_ms`,
    /// for the account `account_id`: no refresh token when none came.
    pub fn from_exchange(response: TokenResponse, account_id: String, now_ms: i64) -> (res: AuthTokens)
        requires
            in_utc_range(expiry(now_ms as int, response.expires_in)),
        ensures
            res.access_token@ == response.access_token@,
            res.id_token@ == response.id_token@,
            res.refresh_token@ == match response.refresh_token {
                Some(r) => r@,
                None => Seq::<char>::empty(),
            },
            res.expires_at == expiry(now_ms as int, response.expires_in),
            res.token_type@ == response.token_type@,
            res.account_id@ == account_id@,
    {
        let expires_at = expiry_after(now_ms, response.expires_in);
        let refresh_token = match response.refresh_token {
            Some(r) => r,
            None => String::new(),
        };
        AuthTokens {
            access_token: response.access_token,
            id_token: response.id_token,
            refresh_token,
            expires_at,
            token_type: response.token_type,
            account_id,
        }
    }

    /// The tokens of a code exchange answered now with `response`, for the
    /// account `account_id`; `None` when the clock cannot be read or their
    /// expiry is no representable instant.
    pub fn from_exchange_now(response: TokenResponse, account_id: String) -> (res: Option<AuthTokens>)
        ensures
            res matches Some(r) ==> exists|t: int| #[trigger] in_utc_range(t) && 0 <= t && {
                    &&& in_utc_range(expiry(t, response.expires_in))
                    &&& r.access_token@ == response.access_token@
                    &&& r.id_token@ == response.id_token@
                    &&& r.refresh_token@ == match response.refresh_token {
                        Some(x) => x@,
                        None => Seq::<char>::empty(),
                    }
                    &&& r.expires_at == expiry(t, response.expires_in)
                    &&& r.token_type@ == response.token_type@
                    &&& r.account_id@ == account_id@
                },
    {
        let now = match now_millis() {
            Some(t) => t,
            None => return None,
        };
        if expiry_fits(now, response.expires_in) {
            Some(AuthTokens::from_exchange(response, account_id, now))
        } else {
            None
        }
    }

    /// Tokens stored in the older format, which knew only the access and
    /// refresh tokens and the expiry: no id token, the `Bearer` type, no
    /// account.
    pub fn from_legacy(access_token: String, refresh_token: String, expires_at: i64) -> (res: AuthTokens)
        ensures
            res.access_token@ == access_token@,
            res.refresh_token@ == refresh_token@,
            res.id_token@.len() == 0,
            res.expires_at == expires_at,
            res.token_type@ == "Bearer"@,
            res.account_id@.len() == 0,
    {
        AuthTokens {
            access_token,
            refresh_token,
            id_token: String::new(),
            expires_at,
            token_type: owned("Bearer"),
            account_id: String::new(),
        }
    }
}

/// Where a token check at start-up stands.
pub enum TokenCheck {
    /// No tokens are held.
    NoTokens,
    /// The tokens expire within the margin: refresh them.
    ExpiringSoon,
    /// The tokens are good for longer than the margin.
    Valid,
}

/// What to do to have valid tokens.
pub enum TokenStep {
    /// They are valid.
    Ready,
    /// Refresh them (signing in again if the refresh fails).
    Refresh,
    /// Sign in.
    Login,
}

/// The ChatGPT sign-in state: where the tokens are kept and the tokens held.
pub struct AuthManager {
    auth_path: String,
    tokens: Option<AuthTokens>,
}

impl AuthManager {
    pub closed spec fn path(&self) -> Seq<char> {
        self.auth_path@
    }

    pub closed spec fn held(&self) -> Option<AuthTokens> {
        self.tokens
    }

    /// Whether held tokens are still valid at `now_ms`: they expire after the
    /// margin from now.
    pub open spec fn valid_at(&self, now_ms: int) -> bool {
        self.held() matches Some(t) && t.expires_at > now_ms + 300000
    }

    /// Where the tokens stand at start-up at `now_ms`.
    pub open spec fn check_at(&self, now_ms: int) -> TokenCheck {
        match self.held() {
            None => TokenCheck::NoTokens,
            Some(t) => if t.expires_at <= now_ms + 300000 { TokenCheck::ExpiringSoon } else { TokenCheck::Valid },
        }
    }

    /// What to do at `now_ms` to have valid tokens.
    pub open spec fn step_at(&self, now_ms: int) -> TokenStep {
        if self.valid_at(now_ms) {
            TokenStep::Ready
        } else if self.held() is Some {
            TokenStep::Refresh
        } else {
            TokenStep::Login
        }
    }

    /// A manager keeping its tokens at `auth_path`, holding `tokens` (those
    /// loaded from there, if any).
    pub fn new(auth_path: String, tokens: Option<AuthTokens>) -> (res: Self)
        ensures
            res.path() == auth_path@,
            res.held() == tokens,
    {
        AuthManager { auth_path, tokens }
    }

    /// Where the tokens are kept.
    pub fn auth_path(&self) -> (res: &str)
        ensures
            res@ == self.path(),
    {
        self.auth_path.as_str()
    }

    /// Whether the user is signed in at `now_ms`: tokens are held and expire
    /// more than five minutes from now.
    pub fn is_authenticated(&self, now_ms: i64) -> (res: bool)
        requires
            in_utc_range(now_ms + 300000),
        ensures
            res == self.valid_at(now_ms as int),
    {
        match &self.tokens {
            Some(t) => t.expires_at > now_ms + EXPIRY_MARGIN_MS,
            None => false,
        }
    }

    /// Where the tokens stand at start-up, at `now_ms`.
    pub fn startup_check(&self, now_ms: i64) -> (res: TokenCheck)
        requires
            in_utc_range(now_ms + 300000),
        ensures
            res == self.check_at(now_ms as int),
    {
        match &self.tokens {
            None => TokenCheck::NoTokens,
            Some(t) => if t.expires_at <= now_ms + EXPIRY_MARGIN_MS { TokenCheck::ExpiringSoon } else { TokenCheck::Valid },
        }
    }

    /// What to do to have valid tokens at `now_ms`.
    pub fn next_token_step(&self, now_ms: i64) -> (res: TokenStep)
        requires
            in_utc_range(now_ms + 300000),
        ensures
            res == self.step_at(now_ms as int),
    {
        if self.is_authenticated(now_ms) {
            TokenStep::Ready
        } else if self.tokens.is_some() {
            TokenStep::Refresh
        } else {
            TokenStep::Login
        }
    }

    /// Whether the user is signed in, with the e-mail shown for a signed-in
    /// user.
    pub fn get_auth_status(&self, now_ms: i64) -> (res: (bool, Option<String>))
        requires
            in_utc_range(now_ms + 300000),
        ensures
            res.0 == self.valid_at(now_ms as int),
            opt_text(res.1) == (if res.0 { Some("user@example.com"@) } else { None }),
    {
        let ok = self.is_authenticated(now_ms);
        if ok { (true, Some(owned("user@example.com"))) } else { (false, None) }
    }

    /// Whether the user is signed in now: not when no tokens are held (the
    /// clock is not read then).  `None` when tokens are held and five
    /// minutes after the clock's reading is no longer a representable
    /// instant.
    pub fn is_authenticated_now(&self) -> (res: Option<bool>)
        ensures
            self.held() is None ==> res == Some(false),
            res matches Some(b) ==> exists|t: int| #[trigger] in_utc_range(t + 300000) && 0 <= t && b == self.valid_at(t),
    {
        if self.tokens.is_none() {
            assert(in_utc_range(0int + 300000));
            return Some(false);
        }
        match clock_with_margin() {
            Some(now) => Some(self.is_authenticated(now)),
            None => None,
        }
    }

    /// Where the tokens stand at start-up, checked now: no tokens when none
    /// are held (the clock is not read then).  `None` when tokens are held
    /// and five minutes after the clock's reading is no longer a
    /// representable instant.
    pub fn startup_check_now(&self) -> (res: Option<TokenCheck>)
        ensures
            self.held() is None ==> res == Some(TokenCheck::NoTokens),
            res matches Some(c) ==> exists|t: int| #[trigger] in_utc_range(t + 300000) && 0 <= t && c == self.check_at(t),
    {
        if self.tokens.is_none() {
            assert(in_utc_range(0int + 300000));
            return Some(TokenCheck::NoTokens);
        }
        match clock_with_margin() {
            Some(now) => Some(self.startup_check(now)),
            None => None,
        }
    }

    /// What to do now to have valid tokens: sign in when none are held (the
    /// clock is not read then).  `None` when tokens are held and five
    /// minutes after the clock's reading is no longer a representable
    /// instant.
    pub fn next_token_step_now(&self) -> (res: Option<TokenStep>)
        ensures
            self.held() is None ==> res == Some(TokenStep::Login),
            res matches Some(c) ==> exists|t: int| #[trigger] in_utc_range(t + 300000) && 0 <= t && c == self.step_at(t),
    {
        if self.tokens.is_none() {
            assert(in_utc_range(0int + 300000));
            return Some(TokenStep::Login);
        }
        match clock_with_margin() {
            Some(now) => Some(self.next_token_step(now)),
            None => None,
        }
    }

    /// Whether the user is signed in now, with the e-mail shown for a
    /// signed-in user: signed out when no tokens are held (the clock is not
    /// read then).  `None` when tokens are held and five minutes after the
    /// clock's reading is no longer a representable instant.
    pub fn get_auth_status_now(&self) -> (res: Option<(bool, Option<String>)>)
        ensures
            self.held() is None ==> (res matches Some(r) && !r.0 && r.1 is None),
            res matches Some(r) ==> exists|t: int| #[trigger] in_utc_range(t + 300000) && 0 <= t
                && r.0 == self.valid_at(t)
                && opt_text(r.1) == (if r.0 { Some("user@example.com"@) } else { None }),
    {
        if self.tokens.is_none() {
            assert(in_utc_range(0int + 300000));
            return Some((false, None));
        }
        match clock_with_margin() {
            Some(now) => Some(self.get_auth_status(now)),
            None => None,
        }
    }

    /// The access token, when tokens are held.
    pub fn get_access_token(&self) -> (res: Option<&str>)
        ensures
            match self.held() {
                Some(t) => res matches Some(a) && a@ == t.access_token@,
                None => res is None,
            },
    {
        match &self.tokens {
            Some(t) => Some(t.access_token.as_str()),
            None => None,
        }
    }

    /// The tokens held.
    pub fn get_tokens(&self) -> (res: Option<&AuthTokens>)
        ensures
            match self.held() {
                Some(t) => res matches Some(r) && *r == t,
                None => res is None,
            },
    {
        match &self.tokens {
            Some(t) => Some(t),
            None => None,
        }
    }

    /// Hold these tokens (after a sign-in, a refresh or a load).
    pub fn set_tokens(&mut self, tokens: AuthTokens)
        ensures
            final(self).held() == Some(tokens),
            final(self).path() == old(self).path(),
    {
        self.tokens = Some(tokens);
    }

    /// Forget the tokens (the file that keeps them is removed beside this).
    pub fn logout(&mut self)
        ensures
            final(self).held() is None,
            final(self).path() == old(self).path(),
    {
        self.tokens = None;
    }

    /// Drop tokens that failed the start-up check.
    pub fn clear_invalid_tokens(&mut self)
        ensures
            final(self).held() is None,
            final(self).path() == old(self).path(),
    {
        self.tokens = None;
    }

    /// The refresh token for a silent refresh, or why there is none: no
    /// tokens are held, or their refresh token is empty.
    pub fn silent_refresh_token(&self) -> (res: Result<String, MindLinkError>)
        ensures
            match self.held() {
                None => res matches Err(e) && e.is_auth("No tokens available for refresh"@, None),
                Some(t) => if t.refresh_token@.len() == 0 {
                    res matches Err(e) && e.is_auth("No refresh token available"@, None)
                } else {
                    res matches Ok(r) && r@ == t.refresh_token@
                },
            },
    {
        match &self.tokens {
            None => Err(MindLinkError::Authentication { message: owned("No tokens available for refresh"), source: None }),
            Some(t) => if t.refresh_token.as_str().unicode_len() == 0 {
                Err(MindLinkError::Authentication { message: owned("No refresh token available"), source: None })
            } else {
                Ok(t.refresh_token.clone())
            },
        }
    }

    /// The refresh token for an explicit refresh, or the error when no tokens
    /// are held.
    pub fn refresh_token_for_refresh(&self) -> (res: Result<String, String>)
        ensures
            match self.held() {
                None => res matches Err(e) && e@ == "No tokens available to refresh"@,
                Some(t) => res matches Ok(r) && r@ == t.refresh_token@,
            },
    {
        match &self.tokens {
            None => Err(owned("No tokens available to refresh")),
            Some(t) => Ok(t.refresh_token.clone()),
        }
    }

    /// Take in the answer to a refresh made at `now_ms`; nothing changes when
    /// no tokens are held.
    pub fn apply_refresh(&mut self, response: RefreshTokenResponse, now_ms: i64)
        requires
            in_utc_range(expiry(now_ms as int, response.expires_in)),
        ensures
            final(self).path() == old(self).path(),
            match old(self).held() {
                Some(t) => final(self).held() matches Some(n) && t.refreshed_by(response, now_ms as int, n),
                None => final(self).held() is None,
            },
    {
        let next = match &self.tokens {
            Some(t) => Some(t.refreshed(response, now_ms)),
            None => None,
        };
        self.tokens = next;
    }

    /// Take in the answer to a refresh made now.  Returns whether it was
    /// taken in: not when tokens are held and the clock cannot be read or
    /// their new expiry is no representable instant, in which case nothing
    /// changes.  With no tokens held there is nothing to refresh: nothing
    /// changes, the clock is not read, and that counts as taken in.
    pub fn apply_refresh_now(&mut self, response: RefreshTokenResponse) -> (res: bool)
        ensures
            final(self).path() == old(self).path(),
            old(self).held() is None ==> res && final(self).held() is None,
            !res ==> final(self).held() == old(self).held(),
            match old(self).held() {
                Some(o) => res ==> exists|t: int| #[trigger] in_utc_range(t) && 0 <= t
                    && in_utc_range(expiry(t, response.expires_in))
                    && (final(self).held() matches Some(n) && o.refreshed_by(response, t, n)),
                None => true,
            },
    {
        if self.tokens.is_none() {
            return true;
        }
        let now = match now_millis() {
            Some(t) => t,
            None => return false,
        };
        if expiry_fits(now, response.expires_in) {
            self.apply_refresh(response, now);
            true
        } else {
            false
        }
    }

    /// The headers of a request to the ChatGPT endpoint in a new session,
    /// named by a fresh UUID; the error when no tokens are held, or when the
    /// random source fails.
    pub fn chatgpt_request_headers_new_session(&self) -> (res: Result<Vec<(String, String)>, String>)
        ensures
            match self.held() {
                None => res matches Err(e) && e@ == "No authentication tokens available"@,
                Some(t) => (res matches Err(e) ==> e@ == "Random source unavailable"@)
                    && (res matches Ok(h) ==> h@.len() == 6
                    && h@[0].0@ == "Authorization"@ && h@[0].1@ == "Bearer "@ + t.access_token@
                    && h@[1].0@ == "Content-Type"@ && h@[1].1@ == "application/json"@
                    && h@[2].0@ == "Accept"@ && h@[2].1@ == "text/event-stream"@
                    && h@[3].0@ == "chatgpt-account-id"@ && h@[3].1@ == t.account_id@
                    && h@[4].0@ == "OpenAI-Beta"@ && h@[4].1@ == "responses=experimental"@
                    && h@[5].0@ == "session_id"@ && uuid_text(h@[5].1@)),
            },
    {
        if self.tokens.is_none() {
            return Err(owned("No authentication tokens available"));
        }
        let session_id = match new_uuid() {
            Some(u) => u,
            None => return Err(owned("Random source unavailable")),
        };
        self.chatgpt_request_headers(session_id.as_str())
    }

    /// The error when start-up finds no tokens to check.
    pub fn no_tokens_to_validate() -> (res: MindLinkError)
        ensures
            res.is_auth("No tokens available for validation"@, None),
    {
        MindLinkError::Authentication { message: owned("No tokens available for validation"), source: None }
    }

    /// The headers of a request to the ChatGPT endpoint in session
    /// `session_id`, or the error when no tokens are held.
    pub fn chatgpt_request_headers(&self, session_id: &str) -> (res: Result<Vec<(String, String)>, String>)
        ensures
            match self.held() {
                None => res matches Err(e) && e@ == "No authentication tokens available"@,
                Some(t) => res matches Ok(h) && h@.len() == 6
                    && h@[0].0@ == "Authorization"@ && h@[0].1@ == "Bearer "@ + t.access_token@
                    && h@[1].0@ == "Content-Type"@ && h@[1].1@ == "application/json"@
                    && h@[2].0@ == "Accept"@ && h@[2].1@ == "text/event-stream"@
                    && h@[3].0@ == "chatgpt-account-id"@ && h@[3].1@ == t.account_id@
                    && h@[4].0@ == "OpenAI-Beta"@ && h@[4].1@ == "responses=experimental"@
                    && h@[5].0@ == "session_id"@ && h@[5].1@ == session_id@,
            },
    {
        match &self.tokens {
            None => Err(owned("No authentication tokens available")),
            Some(t) => {
                let mut h: Vec<(String, String)> = Vec::new();
                h.push((owned("Authorization"), cat2("Bearer ", t.access_token.as_str())));
                h.push((owned("Content-Type"), owned("application/json")));
                h.push((owned("Accept"), owned("text/event-stream")));
                h.push((owned("chatgpt-account-id"), t.account_id.clone()));
                h.push((owned("OpenAI-Beta"), owned("responses=experimental")));
                h.push((owned("session_id"), owned(session_id)));
                Ok(h)
            },
        }
    }
}

/// The body of a request to the ChatGPT endpoint: the messages, the `gpt-4`
/// model, no streaming.
pub fn chatgpt_request_body(messages: Vec<Json>) -> (res: Json)
    ensures
        res matches Json::Object(e) && e@.len() == 3
            && e@[0].0@ == "messages"@ && (e@[0].1 matches Json::Array(m) && m@ == messages@)
            && e@[1].0@ == "model"@ && e@[1].1.text() == Some("gpt-4"@)
            && e@[2].0@ == "stream"@ && e@[2].1 == Json::Bool(false),
{
    let mut members: Vec<(String, Json)> = Vec::new();
    members.push((owned("messages"), Json::Array(messages)));
    members.push((owned("model"), Json::text_value("gpt-4")));
    members.push((owned("stream"), Json::Bool(false)));
    Json::Object(members)
}

/// The error of a ChatGPT request answered with an unsuccessful status.
pub fn chatgpt_request_error(status: &str, body: &str) -> (res: String)
    ensures
        res@ == "ChatGPT API request failed: "@ + status@ + " - "@ + body@,
{
    cat4("ChatGPT API request failed: ", status, " - ", body)
}

/// Whether a character belongs to the URL-safe base64 alphabet.
pub open spec fn url_safe_char(c: char) -> bool {
    ('A' <= c <= 'Z') || ('a' <= c <= 'z') || ('0' <= c <= '9') || c == '-' || c == '_'
}

/// The character of a six-bit value in the URL-safe base64 alphabet:
/// `A`-`Z`, `a`-`z`, `0`-`9`, `-`, `_`.
pub open spec fn base64_char(v: int) -> char {
    if v < 26 {
        ((v + 65) as u8) as char
    } else if v < 52 {
        ((v + 71) as u8) as char
    } else if v < 62 {
        ((v - 4) as u8) as char
    } else if v == 62 {
        '-'
    } else {
        '_'
    }
}

/// The URL-safe base64 text of `bytes`, without padding: each group of three
/// bytes becomes four characters, their 24 bits read six at a time from the
/// most significant; a last group of one byte becomes two characters and one
/// of two bytes three, the missing bits taken as zero.
pub open spec fn base64_url(bytes: Seq<u8>) -> Seq<char>
    decreases bytes.len(),
{
    if bytes.len() == 0 {
        Seq::empty()
    } else if bytes.len() == 1 {
        seq![base64_char((bytes[0] as int) / 4), base64_char(((bytes[0] as int) % 4) * 16)]
    } else if bytes.len() == 2 {
        seq![
            base64_char((bytes[0] as int) / 4),
            base64_char(((bytes[0] as int) % 4) * 16 + (bytes[1] as int) / 16),
            base64_char(((bytes[1] as int) % 16) * 4),
        ]
    } else {
        seq![
            base64_char((bytes[0] as int) / 4),
            base64_char(((bytes[0] as int) % 4) * 16 + (bytes[1] as int) / 16),
            base64_char(((bytes[1] as int) % 16) * 4 + (bytes[2] as int) / 64),
            base64_char((bytes[2] as int) % 64),
        ] + base64_url(bytes.skip(3))
    }
}

/// The base64 text of `n` bytes has `base64_len(n)` characters, all of the
/// URL-safe alphabet.
pub proof fn lemma_base64_shape(bytes: Seq<u8>)
    ensures
        base64_url(bytes).len() == base64_len(bytes.len()),
        forall|i: int| 0 <= i < base64_url(bytes).len() ==> url_safe_char(#[trigger] base64_url(bytes)[i]),
    decreases bytes.len(),
{
    assert forall|v: int| 0 <= v < 64 implies url_safe_char(#[trigger] base64_char(v)) by {
        if v < 26 {
            assert(((v + 65) as u8) as char == base64_char(v));
        }
    }
    if bytes.len() >= 3 {
        lemma_base64_shape(bytes.skip(3));
        let head = seq![
            base64_char((bytes[0] as int) / 4),
            base64_char(((bytes[0] as int) % 4) * 16 + (bytes[1] as int) / 16),
            base64_char(((bytes[1] as int) % 16) * 4 + (bytes[2] as int) / 64),
            base64_char((bytes[2] as int) % 64),
        ];
        assert(base64_url(bytes) == head + base64_url(bytes.skip(3)));
        assert forall|i: int| 0 <= i < base64_url(bytes).len() implies url_safe_char(#[trigger] base64_url(bytes)[i]) by {
            if i >= 4 {
                assert(base64_url(bytes)[i] == base64_url(bytes.skip(3))[i - 4]);
            } else {
                assert(base64_url(bytes)[i] == head[i]);
            }
        }
    }
}

/// The length of the unpadded base64 text of `n` bytes: four characters per
/// three bytes, and two or three for a last group of one or two bytes.
pub open spec fn base64_len(n: nat) -> nat {
    4 * (n / 3) + if n % 3 == 0 { 0nat } else if n % 3 == 1 { 2nat } else { 3nat }
}

/// `URL_SAFE_NO_PAD.encode` of the `base64` crate: the URL-safe base64 text
/// of the bytes, without padding (the standard bit grouping, the URL-safe
/// alphabet, no `=`).  The length computation panics on overflow, which the
/// bound on the input rules out.
#[verifier::external_body]
fn base64_url_encode(bytes: &[u8]) -> (res: String)
    requires
        (bytes@.len() / 3) * 4 + 3 <= usize::MAX,
    ensures
        res@ == base64_url(bytes@),
{
    base64::engine::general_purpose::URL_SAFE_NO_PAD.encode(bytes)
}

/// A fresh PKCE code verifier: 32 random bytes, base64-encoded (43
/// characters of the URL-safe alphabet); `None` when the random source
/// fails.
pub fn generate_code_verifier() -> (res: Option<String>)
    ensures
        res matches Some(v) ==> (exists|b: Seq<u8>| b.len() == 32 && v@ == base64_url(b)) && v@.len() == 43,
{
    let bytes = match os_random_bytes(32) {
        Some(b) => b,
        None => return None,
    };
    proof {
        lemma_base64_shape(bytes@);
    }
    Some(base64_url_encode(bytes.as_slice()))
}

/// The PKCE code challenge of a verifier: the base64 text of the SHA-256 of
/// its bytes.
pub fn generate_code_challenge(code_verifier: &str) -> (res: String)
    requires
        (vstd::utf8::encode_utf8(code_verifier@).len() / 3) * 4 + 3 <= usize::MAX,
    ensures
        res@ == base64_url(sha256(vstd::utf8::encode_utf8(code_verifier@))),
        res@.len() == 43,
{
    let digest = sha256_digest(code_verifier.as_bytes());
    proof {
        lemma_base64_shape(digest@);
    }
    base64_url_encode(digest.as_slice())
}

/// A fresh state value for the authorization request: 16 random bytes,
/// base64-encoded (22 characters); `None` when the random source fails.
pub fn generate_state() -> (res: Option<String>)
    ensures
        res matches Some(s) ==> (exists|b: Seq<u8>| b.len() == 16 && s@ == base64_url(b)) && s@.len() == 22,
{
    let bytes = match os_random_bytes(16) {
        Some(b) => b,
        None => return None,
    };
    proof {
        lemma_base64_shape(bytes@);
    }
    Some(base64_url_encode(bytes.as_slice()))
}

/// An uppercase hexadecimal digit.
pub open spec fn upper_hex_digit(d: int) -> char {
    if d < 10 { ((d + 48) as u8) as char } else { ((d + 55) as u8) as char }
}

/// Whether the form encoding keeps a byte as it is: `*`, `-`, `.`, `_`,
/// digits and ASCII letters.
pub open spec fn form_byte_kept(b: u8) -> bool {
    b == 42 || b == 45 || b == 46 || b == 95 || (48 <= b <= 57) || (65 <= b <= 90) || (97 <= b <= 122)
}

/// How the form encoding writes one byte: kept as it is, a space as `+`,
/// any other byte as `%` and two uppercase hexadecimal digits.
pub open spec fn form_byte(b: u8) -> Seq<char> {
    if form_byte_kept(b) {
        seq![b as char]
    } else if b == 32 {
        seq!['+']
    } else {
        seq!['%', upper_hex_digit((b as int) / 16), upper_hex_digit((b as int) % 16)]
    }
}

/// The bytes, each written by the form encoding.
pub open spec fn form_bytes(bytes: Seq<u8>) -> Seq<char>
    decreases bytes.len(),
{
    if bytes.len() == 0 {
        Seq::empty()
    } else {
        form_bytes(bytes.drop_last()) + form_byte(bytes.last())
    }
}

/// A name or value written by the form encoding: its UTF-8 bytes, each
/// written as `form_byte` says.
pub open spec fn form_component(s: Seq<char>) -> Seq<char> {
    form_bytes(vstd::utf8::encode_utf8(s))
}

/// The `application/x-www-form-urlencoded` text of the pairs: each pair as
/// its encoded name, `=` and its encoded value, the pairs joined by `&`.
pub open spec fn form_urlencoded(pairs: Seq<(Seq<char>, Seq<char>)>) -> Seq<char>
    decreases pairs.len(),
{
    if pairs.len() == 0 {
        Seq::empty()
    } else {
        let last = form_component(pairs.last().0) + "="@ + form_component(pairs.last().1);
        if pairs.len() == 1 {
            last
        } else {
            form_urlencoded(pairs.drop_last()) + "&"@ + last
        }
    }
}

/// The pairs with both sides as character sequences.
pub open spec fn pair_views(pairs: Seq<(String, String)>) -> Seq<(Seq<char>, Seq<char>)> {
    pairs.map_values(|p: (String, String)| (p.0@, p.1@))
}

/// `form_urlencoded::Serializer` of the `url` crate, fed the pairs in order
/// (`append_pair` for each: `&` before every pair but the first, the name and
/// value through `byte_serialize` of their UTF-8 bytes): the encoded query
/// text, as `Url::query_pairs_mut` appends it.
#[verifier::external_body]
fn encode_form(pairs: &Vec<(String, String)>) -> (res: String)
    ensures
        res@ == form_urlencoded(pair_views(pairs@)),
{
    url::form_urlencoded::Serializer::new(String::new()).extend_pairs(pairs.iter()).finish()
}

/// The query of the authorization request, in order.
pub open spec fn auth_query(redirect_uri: Seq<char>, code_challenge: Seq<char>, state: Seq<char>) -> Seq<(Seq<char>, Seq<char>)> {
    seq![
        ("response_type"@, "code"@),
        ("client_id"@, client_id()),
        ("redirect_uri"@, redirect_uri),
        ("scope"@, scope()),
        ("state"@, state),
        ("code_challenge"@, code_challenge),
        ("code_challenge_method"@, "S256"@),
        ("id_token_add_organizations"@, "true"@),
        ("codex_cli_simplified_flow"@, "true"@),
    ]
}

fn pair(a: &str, b: &str) -> (res: (String, String))
    ensures
        res.0@ == a@,
        res.1@ == b@,
{
    (owned(a), owned(b))
}

/// The query of the authorization request.
pub fn auth_query_pairs(redirect_uri: &str, code_challenge: &str, state: &str) -> (res: Vec<(String, String)>)
    ensures
        pair_views(res@) == auth_query(redirect_uri@, code_challenge@, state@),
{
    let mut v: Vec<(String, String)> = Vec::new();
    v.push(pair("response_type", "code"));
    v.push(pair("client_id", "app_EMoamEEZ73f0CkXaXp7hrann"));
    v.push(pair("redirect_uri", redirect_uri));
    v.push(pair("scope", "openid profile email offline_access"));
    v.push(pair("state", state));
    v.push(pair("code_challenge", code_challenge));
    v.push(pair("code_challenge_method", "S256"));
    v.push(pair("id_token_add_organizations", "true"));
    v.push(pair("codex_cli_simplified_flow", "true"));
    assert(pair_views(v@) =~= auth_query(redirect_uri@, code_challenge@, state@));
    v
}

/// The authorization request the browser is sent to: the authorization
/// endpoint (which has no query of its own) followed by the encoded query.
pub fn build_chatgpt_auth_url(redirect_uri: &str, code_challenge: &str, state: &str) -> (res: String)
    ensures
        res@ == chatgpt_auth_url() + "?"@ + form_urlencoded(auth_query(redirect_uri@, code_challenge@, state@)),
{
    let pairs = auth_query_pairs(redirect_uri, code_challenge, state);
    let query = encode_form(&pairs);
    cat3("https://auth.openai.com/oauth/authorize", "?", query.as_str())
}

/// The redirect address of the local callback.
pub fn redirect_uri() -> (res: String)
    ensures
        res@ == "http://localhost:1455/auth/callback"@,
{
    owned("http://localhost:1455/auth/callback")
}

/// The address the local callback listens on.
pub fn callback_bind_address() -> (res: String)
    ensures
        res@ == "127.0.0.1:1455"@,
{
    owned("127.0.0.1:1455")
}

/// The form of a code exchange, in order.
pub open spec fn exchange_form(code: Seq<char>, code_verifier: Seq<char>, redirect_uri: Seq<char>) -> Seq<(Seq<char>, Seq<char>)> {
    seq![
        ("grant_type"@, "authorization_code"@),
        ("client_id"@, client_id()),
        ("code"@, code),
        ("redirect_uri"@, redirect_uri),
        ("code_verifier"@, code_verifier),
    ]
}

/// The form of a code exchange.
pub fn exchange_form_pairs(code: &str, code_verifier: &str, redirect_uri: &str) -> (res: Vec<(String, String)>)
    ensures
        pair_views(res@) == exchange_form(code@, code_verifier@, redirect_uri@),
{
    let mut v: Vec<(String, String)> = Vec::new();
    v.push(pair("grant_type", "authorization_code"));
    v.push(pair("client_id", "app_EMoamEEZ73f0CkXaXp7hrann"));
    v.push(pair("code", code));
    v.push(pair("redirect_uri", redirect_uri));
    v.push(pair("code_verifier", code_verifier));
    assert(pair_views(v@) =~= exchange_form(code@, code_verifier@, redirect_uri@));
    v
}

/// The form of a token refresh, in order.
pub open spec fn refresh_form(refresh_token: Seq<char>) -> Seq<(Seq<char>, Seq<char>)> {
    seq![("grant_type"@, "refresh_token"@), ("refresh_token"@, refresh_token), ("client_id"@, client_id())]
}

/// The form of a token refresh.
pub fn refresh_form_pairs(refresh_token: &str) -> (res: Vec<(String, String)>)
    ensures
        pair_views(res@) == refresh_form(refresh_token@),
{
    let mut v: Vec<(String, String)> = Vec::new();
    v.push(pair("grant_type", "refresh_token"));
    v.push(pair("refresh_token", refresh_token));
    v.push(pair("client_id", "app_EMoamEEZ73f0CkXaXp7hrann"));
    assert(pair_views(v@) =~= refresh_form(refresh_token@));
    v
}

/// What the browser's redirect to the local callback brings: the
/// authorization code, or why there is none.  The state must be there and be
/// the one sent; an error reported by the service comes next; then the code.
pub open spec fn callback_outcome(query: AuthCallbackQuery, expected_state: Seq<char>) -> Result<Seq<char>, Seq<char>> {
    match query.state {
        None => Err("Missing state parameter"@),
        Some(s) => if s@ != expected_state {
            Err("Invalid state parameter"@)
        } else {
            match query.error {
                Some(e) => Err("ChatGPT OAuth error: "@ + e@ + " - "@ + match query.error_description {
                    Some(d) => d@,
                    None => "Unknown error"@,
                }),
                None => match query.code {
                    Some(c) => Ok(c@),
                    None => Err("Missing authorization code"@),
                },
            }
        },
    }
}

/// The authorization code the redirect brings, or why there is none.
pub fn callback_result(query: &AuthCallbackQuery, expected_state: &str) -> (res: Result<String, String>)
    ensures
        match callback_outcome(*query, expected_state@) {
            Ok(c) => res matches Ok(r) && r@ == c,
            Err(m) => res matches Err(e) && e@ == m,
        },
{
    match &query.state {
        None => Err(owned("Missing state parameter")),
        Some(s) => if !str_eq(s.as_str(), expected_state) {
            Err(owned("Invalid state parameter"))
        } else {
            match &query.error {
                Some(e) => {
                    let d = match &query.error_description {
                        Some(d) => d.as_str(),
                        None => "Unknown error",
                    };
                    Err(cat4("ChatGPT OAuth error: ", e.as_str(), " - ", d))
                },
                None => match &query.code {
                    Some(c) => Ok(c.clone()),
                    None => Err(owned("Missing authorization code")),
                },
            }
        },
    }
}

/// The error when the sign-in callback did not come in time.
pub fn callback_timeout() -> (res: String)
    ensures
        res@ == "Authentication timed out after 5 minutes"@,
{
    owned("Authentication timed out after 5 minutes")
}

/// The address of the sign-in page of the simplified flow, for a state and a
/// code challenge.
pub open spec fn oauth_flow_text(state: Seq<char>, code_challenge: Seq<char>) -> Seq<char> {
    "https://auth.openai.com/authorize?response_type=code&client_id=your-client-id&redirect_uri=http://127.0.0.1:8080/callback&scope=openid email profile&state="@
        + state + "&code_challenge="@ + code_challenge + "&code_challenge_method=S256"@
}

/// The address of the sign-in page of the simplified flow.
pub fn oauth_flow_url(state: &str, code_challenge: &str) -> (res: String)
    ensures
        res@ == oauth_flow_text(state@, code_challenge@),
{
    let mut t = cat4(
        "https://auth.openai.com/authorize?response_type=code&client_id=your-client-id&redirect_uri=http://127.0.0.1:8080/callback&scope=openid email profile&state=",
        state,
        "&code_challenge=",
        code_challenge,
    );
    t.append("&code_challenge_method=S256");
    t
}

/// Start the simplified sign-in flow: a fresh verifier and state, and the
/// address of the sign-in page for them; `None` when the random source
/// fails.
pub fn start_oauth_flow() -> (res: Option<String>)
    ensures
        res matches Some(r) ==> exists|verifier: String, state: String| verifier@.len() == 43 && state@.len() == 22
            && r@ == oauth_flow_text(state@, base64_url(sha256(vstd::utf8::encode_utf8(verifier@)))),
{
    let verifier = match generate_code_verifier() {
        Some(v) => v,
        None => return None,
    };
    proof {
        lemma_short_bytes(verifier@);
    }
    let challenge = generate_code_challenge(verifier.as_str());
    let state = match generate_state() {
        Some(s) => s,
        None => return None,
    };
    let res = oauth_flow_url(state.as_str(), challenge.as_str());
    assert(verifier@.len() == 43 && state@.len() == 22
        && res@ == oauth_flow_text(state@, base64_url(sha256(vstd::utf8::encode_utf8(verifier@)))));
    Some(res)
}

/// UTF-8 takes at most four bytes per character.
pub proof fn lemma_short_bytes(s: Seq<char>)
    ensures
        vstd::utf8::encode_utf8(s).len() <= 4 * s.len(),
    decreases s.len(),
{
    if s.len() > 0 {
        lemma_short_bytes(s.drop_first());
        assert(vstd::utf8::encode_scalar(s[0] as u32).len() <= 4);
    }
}

/// The decoded claims of a JSON Web Token whose signature is not checked (as
/// `jsonwebtoken::decode` gives them with signature, audience, expiry and
/// not-before checks turned off), or its error text.
pub uninterp spec fn jwt_claims(token: Seq<char>) -> Result<Json, Seq<char>>;

/// The header decoding error of a JSON Web Token (`jsonwebtoken::decode_header`),
/// `None` when the header decodes.
pub uninterp spec fn jwt_header_error(token: Seq<char>) -> Option<Seq<char>>;

/// `serde_json::Value` turned into the library's JSON model, variant by
/// variant; numbers keep their text.
#[verifier::external_body]
fn json_from_value(v: serde_json::Value) -> Json {
    match v {
        serde_json::Value::Null => Json::Null,
        serde_json::Value::Bool(b) => Json::Bool(b),
        serde_json::Value::Number(n) => Json::Number(n.to_string()),
        serde_json::Value::String(s) => Json::Str(s),
        serde_json::Value::Array(a) => Json::Array(a.into_iter().map(json_from_value).collect()),
        serde_json::Value::Object(m) => Json::Object(m.into_iter().map(|(k, x)| (k, json_from_value(x))).collect()),
    }
}

/// `jsonwebtoken::decode_header`: `Ok` when the token's header decodes, else
/// the error's text.
#[verifier::external_body]
fn check_jwt_header(token: &str) -> (res: Result<(), String>)
    ensures
        match res {
            Ok(()) => jwt_header_error(token@) is None,
            Err(e) => jwt_header_error(token@) == Some(e@),
        },
{
    match jsonwebtoken::decode_header(token) {
        Ok(_) => Ok(()),
        Err(e) => Err(e.to_string()),
    }
}

/// `jsonwebtoken::decode` with RS256 validation whose signature, audience,
/// expiry and not-before checks are turned off, and an empty key: the claims
/// of the token, or the error's text.
#[verifier::external_body]
fn decode_jwt_claims(token: &str) -> (res: Result<Json, String>)
    ensures
        match res {
            Ok(c) => jwt_claims(token@) == Ok::<Json, Seq<char>>(c),
            Err(e) => jwt_claims(token@) == Err::<Json, Seq<char>>(e@),
        },
{
    let mut validation = jsonwebtoken::Validation::new(jsonwebtoken::Algorithm::RS256);
    validation.insecure_disable_signature_validation();
    validation.validate_aud = false;
    validation.validate_exp = false;
    validation.validate_nbf = false;
    let key = jsonwebtoken::DecodingKey::from_secret(&[]);
    match jsonwebtoken::decode::<serde_json::Value>(token, &key, &validation) {
        Ok(data) => Ok(json_from_value(data.claims)),
        Err(e) => Err(e.to_string()),
    }
}

/// The ChatGPT account in the claims: the text `chatgpt_account_id` of the
/// object `https://api.openai.com/auth`, or why it is missing.
pub open spec fn account_in_claims(claims: Json) -> Result<Seq<char>, Seq<char>> {
    match claims.member("https://api.openai.com/auth"@) {
        Some(auth) => if auth is Object {
            match auth.member("chatgpt_account_id"@) {
                Some(id) => match id.text() {
                    Some(t) => Ok(t),
                    None => Err("Missing chatgpt_account_id in auth claims"@),
                },
                None => Err("Missing chatgpt_account_id in auth claims"@),
            }
        } else {
            Err("Missing auth claims in ID token"@)
        },
        None => Err("Missing auth claims in ID token"@),
    }
}

/// The ChatGPT account named by decoded claims.
pub fn account_id_from_claims(claims: &Json) -> (res: Result<String, String>)
    ensures
        match account_in_claims(*claims) {
            Ok(a) => res matches Ok(r) && r@ == a,
            Err(m) => res matches Err(e) && e@ == m,
        },
{
    let auth = match claims.get("https://api.openai.com/auth") {
        Some(a) => a,
        None => {
            return Err(owned("Missing auth claims in ID token"));
        },
    };
    if !auth.is_object() {
        return Err(owned("Missing auth claims in ID token"));
    }
    match auth.get("chatgpt_account_id") {
        Some(id) => match id.as_str() {
            Some(t) => Ok(owned(t)),
            None => Err(owned("Missing chatgpt_account_id in auth claims")),
        },
        None => Err(owned("Missing chatgpt_account_id in auth claims")),
    }
}

/// The ChatGPT account of an id token: its header must decode, then its
/// claims, which must name the account.
pub open spec fn account_of_token(token: Seq<char>) -> Result<Seq<char>, Seq<char>> {
    match jwt_header_error(token) {
        Some(e) => Err("Failed to decode JWT header: "@ + e),
        None => match jwt_claims(token) {
            Err(e) => Err("Failed to decode JWT: "@ + e),
            Ok(claims) => account_in_claims(claims),
        },
    }
}

/// The ChatGPT account of an id token, read without checking its signature
/// (the token comes straight from the sign-in service).
pub fn extract_account_id_from_id_token(id_token: &str) -> (res: Result<String, String>)
    ensures
        match account_of_token(id_token@) {
            Ok(a) => res matches Ok(r) && r@ == a,
            Err(m) => res matches Err(e) && e@ == m,
        },
{
    match check_jwt_header(id_token) {
        Err(e) => {
            return Err(cat2("Failed to decode JWT header: ", e.as_str()));
        },
        Ok(()) => {},
    }
    match decode_jwt_claims(id_token) {
        Err(e) => Err(cat2("Failed to decode JWT: ", e.as_str())),
        Ok(claims) => account_id_from_claims(&claims),
    }
}

/// The error of a code exchange answered with an unsuccessful status.
pub fn exchange_error(status: &str, body: &str) -> (res: String)
    ensures
        res@ == "ChatGPT token exchange failed: "@ + status@ + " - "@ + body@,
{
    cat4("ChatGPT token exchange failed: ", status, " - ", body)
}

/// The error of a refresh answered with an unsuccessful status.
pub fn refresh_error(status: &str, body: &str) -> (res: String)
    ensures
        res@ == "Token refresh failed: "@ + status@ + " - "@ + body@,
{
    cat4("Token refresh failed: ", status, " - ", body)
}

/// The error of a silent refresh answered with an unsuccessful status.
pub fn silent_refresh_error(body: &str) -> (res: MindLinkError)
    ensures
        res.is_auth("Token refresh failed: "@ + body@, None),
{
    MindLinkError::Authentication { message: cat2("Token refresh failed: ", body), source: None }
}

/// The error of a silent refresh whose request or answer failed.
pub fn silent_refresh_failure(message: &str, source: anyhow::Error) -> (res: MindLinkError)
    ensures
        res.is_auth(message@, Some(source)),
{
    MindLinkError::Authentication { message: owned(message), source: Some(source) }
}

} // verus!
