//! The OAuth2 session: a builder that checks the configuration, and a client
//! whose type says whether it holds tokens.
use std::marker::PhantomData;
use vstd::prelude::*;
use vstd::string::*;

use chrono::Utc;

use crate::errors::{DracoonAuthErrorResponse, DracoonClientError};
use crate::urls::{
    append_query_pair, base64_url_no_pad, encode_base64_url, join_url, joined_url, opt_text,
    parse_url, parsed_url, url_with_pair,
};

verus! {

/// Retries allowed per request: the default and the accepted range.
pub const DEFAULT_MAX_RETRIES: u32 = 5;
pub const MIN_MAX_RETRIES: u32 = 1;
pub const MAX_MAX_RETRIES: u32 = 10;

/// Shortest delay between retries, in milliseconds: the default and the accepted range.
pub const DEFAULT_MIN_RETRY_DELAY: u64 = 600;
pub const MIN_MIN_RETRY_DELAY: u64 = 100;
pub const MAX_MIN_RETRY_DELAY: u64 = 1000;

/// Longest delay between retries, in milliseconds: the default and the accepted
/// range. Every accepted shortest delay is at most every accepted longest one.
pub const DEFAULT_MAX_RETRY_DELAY: u64 = 20000;
pub const MIN_MAX_RETRY_DELAY: u64 = 1000;
pub const MAX_MAX_RETRY_DELAY: u64 = 60000;

/// The supported OAuth2 grants.
pub enum OAuth2Flow {
    PasswordFlow(String, String),
    AuthCodeFlow(String),
    RefreshToken(String),
}

/// Marks a client that holds tokens.
#[derive(Debug, Clone, Copy)]
pub struct Connected;

/// Marks a client without tokens.
#[derive(Debug, Clone, Copy)]
pub struct Disconnected;

/// Whether clients in a state hold a token pair.
pub trait SessionState {
    spec fn holds_tokens() -> bool;
}

impl SessionState for Connected {
    open spec fn holds_tokens() -> bool {
        true
    }
}

impl SessionState for Disconnected {
    open spec fn holds_tokens() -> bool {
        false
    }
}

/// The tokens of a session, and when (seconds since the Unix epoch) they were issued.
#[derive(Debug, Clone)]
pub struct Connection {
    pub access_token: String,
    pub refresh_token: String,
    pub expires_in: u32,
    pub connected_at: i64,
}

/// A successful answer of the token endpoint.
pub struct OAuth2TokenResponse {
    pub access_token: String,
    pub refresh_token: String,
    pub expires_in: u32,
}

/// What the token endpoint answered: tokens, or a refusal with its status and
/// the `error` / `error_description` of its body where it had them.
pub enum TokenAnswer {
    Granted(OAuth2TokenResponse),
    Refused { status: u16, error: Option<String>, error_description: Option<String> },
}

/// `e` is the error a refused grant gives: an `Auth` error with the status,
/// the error code (`unknown` where the body had none) and the description.
pub open spec fn is_refusal_error(
    e: DracoonClientError,
    status: u16,
    error: Option<String>,
    error_description: Option<String>,
) -> bool {
    &&& e matches DracoonClientError::Auth(resp)
    &&& resp.status == status
    &&& resp.error_description == error_description
    &&& match error {
        Some(code) => resp.error == code,
        None => resp.error@ == "unknown"@,
    }
}

/// The retry policy, within the accepted ranges.
#[derive(Debug, Clone, Copy, PartialEq, Eq, Structural)]
pub struct RetryConfig {
    pub max_retries: u32,
    pub min_retry_delay: u64,
    pub max_retry_delay: u64,
}

/// A form-encoded POST to the token or revocation endpoint.
pub struct TokenRequest {
    pub url: String,
    /// Value of the `Authorization` header, where the request carries one.
    pub authorization: Option<String>,
    pub form: Vec<(String, String)>,
}

pub open spec fn clamp_u32(v: u32, lo: u32, hi: u32) -> u32 {
    if v < lo {
        lo
    } else if v > hi {
        hi
    } else {
        v
    }
}

pub open spec fn clamp_u64(v: u64, lo: u64, hi: u64) -> u64 {
    if v < lo {
        lo
    } else if v > hi {
        hi
    } else {
        v
    }
}

fn clamp_to_u32(v: u32, lo: u32, hi: u32) -> (r: u32)
    ensures
        r == clamp_u32(v, lo, hi),
{
    if v < lo {
        lo
    } else if v > hi {
        hi
    } else {
        v
    }
}

fn clamp_to_u64(v: u64, lo: u64, hi: u64) -> (r: u64)
    ensures
        r == clamp_u64(v, lo, hi),
{
    if v < lo {
        lo
    } else if v > hi {
        hi
    } else {
        v
    }
}

/// What a builder holds, as text.
pub struct BuilderView {
    pub base_url: Option<Seq<char>>,
    pub redirect_uri: Option<Seq<char>>,
    pub client_id: Option<Seq<char>>,
    pub client_secret: Option<Seq<char>>,
    pub user_agent: Option<Seq<char>>,
    pub max_retries: Option<u32>,
    pub min_retry_delay: Option<u64>,
    pub max_retry_delay: Option<u64>,
}

/// Builder for [DracoonClient].
pub struct DracoonClientBuilder {
    base_url: Option<String>,
    redirect_uri: Option<String>,
    client_id: Option<String>,
    client_secret: Option<String>,
    user_agent: Option<String>,
    max_retries: Option<u32>,
    min_retry_delay: Option<u64>,
    max_retry_delay: Option<u64>,
}

impl View for DracoonClientBuilder {
    type V = BuilderView;

    closed spec fn view(&self) -> BuilderView {
        BuilderView {
            base_url: opt_text(self.base_url),
            redirect_uri: opt_text(self.redirect_uri),
            client_id: opt_text(self.client_id),
            client_secret: opt_text(self.client_secret),
            user_agent: opt_text(self.user_agent),
            max_retries: self.max_retries,
            min_retry_delay: self.min_retry_delay,
            max_retry_delay: self.max_retry_delay,
        }
    }
}

/// A configuration with nothing set.
pub open spec fn empty_builder() -> BuilderView {
    BuilderView {
        base_url: None,
        redirect_uri: None,
        client_id: None,
        client_secret: None,
        user_agent: None,
        max_retries: None,
        min_retry_delay: None,
        max_retry_delay: None,
    }
}

/// The user agent a client sends when none is configured.
pub open spec fn default_user_agent() -> Seq<char> {
    "dco3-rs"@
}

/// The retry policy a configuration gives: defaults for what is not set,
/// then each value clamped to its range.
pub open spec fn retry_config_of(b: BuilderView) -> RetryConfig {
    RetryConfig {
        max_retries: clamp_u32(
            match b.max_retries {
                Some(v) => v,
                None => DEFAULT_MAX_RETRIES,
            },
            MIN_MAX_RETRIES,
            MAX_MAX_RETRIES,
        ),
        min_retry_delay: clamp_u64(
            match b.min_retry_delay {
                Some(v) => v,
                None => DEFAULT_MIN_RETRY_DELAY,
            },
            MIN_MIN_RETRY_DELAY,
            MAX_MIN_RETRY_DELAY,
        ),
        max_retry_delay: clamp_u64(
            match b.max_retry_delay {
                Some(v) => v,
                None => DEFAULT_MAX_RETRY_DELAY,
            },
            MIN_MAX_RETRY_DELAY,
            MAX_MAX_RETRY_DELAY,
        ),
    }
}

/// The redirect URI of a configuration: the one given, else the base URL
/// followed by `/oauth/callback`; parsed either way.
pub open spec fn redirect_uri_of(b: BuilderView) -> Option<Seq<char>> {
    match b.redirect_uri {
        Some(uri) => parsed_url(uri),
        None => parsed_url(b.base_url.unwrap() + "/oauth/callback"@),
    }
}

/// The error that building from a configuration gives, checked in this order.
pub open spec fn build_error(b: BuilderView) -> Option<DracoonClientError> {
    if b.base_url is None {
        Some(DracoonClientError::MissingBaseUrl)
    } else if parsed_url(b.base_url.unwrap()) is None {
        Some(DracoonClientError::InvalidUrl)
    } else if b.client_id is None || b.client_id.unwrap().len() == 0 {
        Some(DracoonClientError::MissingClientId)
    } else if b.client_secret is None || b.client_secret.unwrap().len() == 0 {
        Some(DracoonClientError::MissingClientSecret)
    } else if redirect_uri_of(b) is None {
        Some(DracoonClientError::InvalidUrl)
    } else {
        None
    }
}

/// A session as text: its configuration and, when connected, its tokens.
pub struct ConnectionView {
    pub access_token: Seq<char>,
    pub refresh_token: Seq<char>,
    pub expires_in: u32,
    pub connected_at: i64,
}

pub struct ClientView {
    pub base_url: Seq<char>,
    pub redirect_uri: Seq<char>,
    pub client_id: Seq<char>,
    pub client_secret: Seq<char>,
    pub user_agent: Seq<char>,
    pub retry: RetryConfig,
    pub connection: Option<ConnectionView>,
}

impl ClientView {
    /// The session once it holds `c`.
    pub open spec fn with_connection(self, c: ConnectionView) -> ClientView {
        ClientView { connection: Some(c), ..self }
    }

    /// The session once its tokens are dropped.
    pub open spec fn without_connection(self) -> ClientView {
        ClientView { connection: None, ..self }
    }
}

/// The session that building from a configuration gives, where it succeeds.
pub open spec fn built_client(b: BuilderView) -> ClientView {
    ClientView {
        base_url: parsed_url(b.base_url.unwrap()).unwrap(),
        redirect_uri: redirect_uri_of(b).unwrap(),
        client_id: b.client_id.unwrap(),
        client_secret: b.client_secret.unwrap(),
        user_agent: match b.user_agent {
            Some(ua) => ua,
            None => default_user_agent(),
        },
        retry: retry_config_of(b),
        connection: None,
    }
}

pub open spec fn connection_view(c: Connection) -> ConnectionView {
    ConnectionView {
        access_token: c.access_token@,
        refresh_token: c.refresh_token@,
        expires_in: c.expires_in,
        connected_at: c.connected_at,
    }
}

/// The DRACOON session. `State` is [Connected] or [Disconnected]; only a
/// connected client holds tokens and offers what needs them.
pub struct DracoonClient<State = Disconnected> {
    base_url: String,
    redirect_uri: String,
    client_id: String,
    client_secret: String,
    user_agent: String,
    retry: RetryConfig,
    connection: Option<Connection>,
    connected: PhantomData<State>,
}

impl<State> View for DracoonClient<State> {
    type V = ClientView;

    closed spec fn view(&self) -> ClientView {
        ClientView {
            base_url: self.base_url@,
            redirect_uri: self.redirect_uri@,
            client_id: self.client_id@,
            client_secret: self.client_secret@,
            user_agent: self.user_agent@,
            retry: self.retry,
            connection: match self.connection {
                Some(c) => Some(connection_view(c)),
                None => None,
            },
        }
    }
}

impl<State: SessionState> DracoonClient<State> {
    /// A client holds tokens exactly when its state says it is connected.
    pub open spec fn wf(&self) -> bool {
        self@.connection is Some <==> State::holds_tokens()
    }
}

impl DracoonClientBuilder {
    /// A builder with nothing set.
    pub fn new() -> (r: Self)
        ensures
            r@ == empty_builder(),
    {
        DracoonClientBuilder {
            base_url: None,
            redirect_uri: None,
            client_id: None,
            client_secret: None,
            user_agent: None,
            max_retries: None,
            min_retry_delay: None,
            max_retry_delay: None,
        }
    }

    /// Sets the base URL of the DRACOON instance.
    pub fn with_base_url(self, base_url: &str) -> (r: Self)
        ensures
            r@ == (BuilderView { base_url: Some(base_url@), ..self@ }),
    {
        DracoonClientBuilder { base_url: Some(base_url.to_string()), ..self }
    }

    /// Sets the redirect URI of the authorization code flow.
    pub fn with_redirect_uri(self, redirect_uri: &str) -> (r: Self)
        ensures
            r@ == (BuilderView { redirect_uri: Some(redirect_uri@), ..self@ }),
    {
        DracoonClientBuilder { redirect_uri: Some(redirect_uri.to_string()), ..self }
    }

    /// Sets the OAuth2 client id.
    pub fn with_client_id(self, client_id: &str) -> (r: Self)
        ensures
            r@ == (BuilderView { client_id: Some(client_id@), ..self@ }),
    {
        DracoonClientBuilder { client_id: Some(client_id.to_string()), ..self }
    }

    /// Sets the OAuth2 client secret.
    pub fn with_client_secret(self, client_secret: &str) -> (r: Self)
        ensures
            r@ == (BuilderView { client_secret: Some(client_secret@), ..self@ }),
    {
        DracoonClientBuilder { client_secret: Some(client_secret.to_string()), ..self }
    }

    /// Sets the user agent sent with every request.
    pub fn with_user_agent(self, user_agent: &str) -> (r: Self)
        ensures
            r@ == (BuilderView { user_agent: Some(user_agent@), ..self@ }),
    {
        DracoonClientBuilder { user_agent: Some(user_agent.to_string()), ..self }
    }

    /// Sets how often a request is retried (clamped to 1..=10 on build).
    pub fn with_max_retries(self, max_retries: u32) -> (r: Self)
        ensures
            r@ == (BuilderView { max_retries: Some(max_retries), ..self@ }),
    {
        DracoonClientBuilder { max_retries: Some(max_retries), ..self }
    }

    /// Sets the shortest delay between retries in ms (clamped to 100..=1000 on build).
    pub fn with_min_retry_delay(self, min_retry_delay: u64) -> (r: Self)
        ensures
            r@ == (BuilderView { min_retry_delay: Some(min_retry_delay), ..self@ }),
    {
        DracoonClientBuilder { min_retry_delay: Some(min_retry_delay), ..self }
    }

    /// Sets the longest delay between retries in ms (clamped to 1000..=60000 on build).
    pub fn with_max_retry_delay(self, max_retry_delay: u64) -> (r: Self)
        ensures
            r@ == (BuilderView { max_retry_delay: Some(max_retry_delay), ..self@ }),
    {
        DracoonClientBuilder { max_retry_delay: Some(max_retry_delay), ..self }
    }

    /// Checks the configuration and gives a disconnected client: the base URL
    /// must parse, client id and secret must be set and non-empty, and the
    /// redirect URI (by default the base URL followed by `/oauth/callback`) must parse.
    pub fn build(self) -> (r: Result<DracoonClient<Disconnected>, DracoonClientError>)
        ensures
            r is Err <==> build_error(self@) is Some,
            r is Err ==> r->Err_0 == build_error(self@).unwrap(),
            r is Ok ==> r->Ok_0@ == built_client(self@),
            r is Ok ==> r->Ok_0@.retry.min_retry_delay <= r->Ok_0@.retry.max_retry_delay,
            r is Ok ==> r->Ok_0.wf(),
    {
        let ghost b = self@;
        let raw_base = match self.base_url {
            Some(url) => url,
            None => return Err(DracoonClientError::MissingBaseUrl),
        };
        let base_url = match parse_url(raw_base.as_str()) {
            Some(url) => url,
            None => return Err(DracoonClientError::InvalidUrl),
        };
        let client_id = match self.client_id {
            Some(id) => id,
            None => return Err(DracoonClientError::MissingClientId),
        };
        if client_id.as_str().is_empty() {
            return Err(DracoonClientError::MissingClientId);
        }
        let client_secret = match self.client_secret {
            Some(secret) => secret,
            None => return Err(DracoonClientError::MissingClientSecret),
        };
        if client_secret.as_str().is_empty() {
            return Err(DracoonClientError::MissingClientSecret);
        }
        let redirect_uri = match self.redirect_uri {
            Some(uri) => parse_url(uri.as_str()),
            None => {
                let mut uri = raw_base;
                uri.append("/oauth/callback");
                parse_url(uri.as_str())
            },
        };
        let redirect_uri = match redirect_uri {
            Some(uri) => uri,
            None => return Err(DracoonClientError::InvalidUrl),
        };
        let user_agent = match self.user_agent {
            Some(ua) => ua,
            None => String::from_str("dco3-rs"),
        };
        let max_retries = match self.max_retries {
            Some(v) => v,
            None => DEFAULT_MAX_RETRIES,
        };
        let min_retry_delay = match self.min_retry_delay {
            Some(v) => v,
            None => DEFAULT_MIN_RETRY_DELAY,
        };
        let max_retry_delay = match self.max_retry_delay {
            Some(v) => v,
            None => DEFAULT_MAX_RETRY_DELAY,
        };
        let retry = RetryConfig {
            max_retries: clamp_to_u32(max_retries, MIN_MAX_RETRIES, MAX_MAX_RETRIES),
            min_retry_delay: clamp_to_u64(min_retry_delay, MIN_MIN_RETRY_DELAY, MAX_MIN_RETRY_DELAY),
            max_retry_delay: clamp_to_u64(max_retry_delay, MIN_MAX_RETRY_DELAY, MAX_MAX_RETRY_DELAY),
        };
        Ok(
            DracoonClient {
                base_url,
                redirect_uri,
                client_id,
                client_secret,
                user_agent,
                retry,
                connection: None,
                connected: PhantomData,
            },
        )
    }
}

/// Relies on `chrono::Utc::now`: the current time in whole seconds since the
/// Unix epoch. Nothing is promised of its value.
#[verifier::external_body]
fn utc_now_seconds() -> (r: i64) {
    Utc::now().timestamp()
}

/// A form as text.
pub open spec fn form_view(form: Seq<(String, String)>) -> Seq<(Seq<char>, Seq<char>)> {
    form.map_values(|p: (String, String)| (p.0@, p.1@))
}

pub open spec fn token_url_of(v: ClientView) -> Option<Seq<char>> {
    joined_url(v.base_url, "oauth/token"@)
}

pub open spec fn revoke_url_of(v: ClientView) -> Option<Seq<char>> {
    joined_url(v.base_url, "oauth/revoke"@)
}

/// `client_id:client_secret` in URL-safe base64 without padding.
pub open spec fn credentials_of(v: ClientView) -> Seq<char> {
    base64_url_no_pad(vstd::utf8::encode_utf8(v.client_id + ":"@ + v.client_secret))
}

pub open spec fn basic_auth_of(v: ClientView) -> Seq<char> {
    "Basic "@ + credentials_of(v)
}

/// Form of a refresh token grant: the client's credentials travel in the body.
pub open spec fn refresh_form(v: ClientView, token: Seq<char>) -> Seq<(Seq<char>, Seq<char>)> {
    seq![
        ("grant_type"@, "refresh_token"@),
        ("refresh_token"@, token),
        ("client_id"@, v.client_id),
        ("client_secret"@, v.client_secret),
    ]
}

/// Form of the grant that a flow makes.
pub open spec fn flow_form(v: ClientView, flow: OAuth2Flow) -> Seq<(Seq<char>, Seq<char>)> {
    match flow {
        OAuth2Flow::PasswordFlow(user, pass) => seq![
            ("grant_type"@, "password"@),
            ("username"@, user@),
            ("password"@, pass@),
        ],
        OAuth2Flow::AuthCodeFlow(code) => seq![
            ("grant_type"@, "authorization_code"@),
            ("code"@, code@),
            ("redirect_uri"@, v.redirect_uri),
        ],
        OAuth2Flow::RefreshToken(token) => refresh_form(v, token@),
    }
}

/// Password and authorization code grants authenticate the client with HTTP Basic.
pub open spec fn flow_authorization(v: ClientView, flow: OAuth2Flow) -> Option<Seq<char>> {
    match flow {
        OAuth2Flow::RefreshToken(_) => None,
        _ => Some(basic_auth_of(v)),
    }
}

pub open spec fn revoke_form(v: ClientView, token: Seq<char>, hint: Seq<char>) -> Seq<
    (Seq<char>, Seq<char>),
> {
    seq![
        ("token"@, token),
        ("token_type_hint"@, hint),
        ("client_id"@, v.client_id),
        ("client_secret"@, v.client_secret),
    ]
}

pub open spec fn with_pair(url: Option<Seq<char>>, key: Seq<char>, value: Seq<char>) -> Option<
    Seq<char>,
> {
    match url {
        Some(u) => url_with_pair(u, key, value),
        None => None,
    }
}

/// `{base}/oauth/authorize?response_type=code&client_id=…&redirect_uri=…&scope=all`.
pub open spec fn authorize_url_of(v: ClientView) -> Option<Seq<char>> {
    with_pair(
        with_pair(
            with_pair(
                with_pair(joined_url(v.base_url, "oauth/authorize"@), "response_type"@, "code"@),
                "client_id"@,
                v.client_id,
            ),
            "redirect_uri"@,
            v.redirect_uri,
        ),
        "scope"@,
        "all"@,
    )
}

/// `r` holds the revocations a disconnect sends: the access token unless
/// `revoke_access_token` is `Some(false)`, then the refresh token if
/// `revoke_refresh_token` is `Some(true)`, each with the client's credentials.
pub open spec fn revocations_of(
    v: ClientView,
    revoke_access_token: Option<bool>,
    revoke_refresh_token: Option<bool>,
    r: Result<Vec<TokenRequest>, DracoonClientError>,
) -> bool {
    let access = revoke_access_token != Some(false);
    let refresh = revoke_refresh_token == Some(true);
    let c = v.connection.unwrap();
    &&& r is Err <==> (access || refresh) && revoke_url_of(v) is None
    &&& r is Err ==> r->Err_0 == DracoonClientError::InvalidUrl
    &&& r is Ok ==> {
        let reqs = r->Ok_0@;
        &&& reqs.len() == (if access { 1int } else { 0 }) + (if refresh { 1int } else { 0 })
        &&& forall|i: int| 0 <= i < reqs.len() ==> {
            &&& (#[trigger] reqs[i]).url@ == revoke_url_of(v).unwrap()
            &&& reqs[i].authorization is None
        }
        &&& access ==> form_view(reqs[0].form@) == revoke_form(v, c.access_token, "access_token"@)
        &&& refresh ==> form_view(reqs[reqs.len() - 1].form@) == revoke_form(
            v,
            c.refresh_token,
            "refresh_token"@,
        )
    }
}

/// The tokens of a session are still valid at `now`: fewer than `expires_in`
/// seconds have passed since they were issued.
pub open spec fn token_valid_at(c: ConnectionView, now: i64) -> bool {
    now - c.connected_at < c.expires_in
}

pub open spec fn connection_of(response: OAuth2TokenResponse, now: i64) -> ConnectionView {
    ConnectionView {
        access_token: response.access_token@,
        refresh_token: response.refresh_token@,
        expires_in: response.expires_in,
        connected_at: now,
    }
}

/// The `Auth` error of a refused grant or refresh.
pub fn auth_refusal_error(status: u16, error: Option<String>, error_description: Option<String>) -> (r:
    DracoonClientError)
    ensures
        is_refusal_error(r, status, error, error_description),
{
    let code = match error {
        Some(code) => code,
        None => String::from_str("unknown"),
    };
    DracoonClientError::Auth(DracoonAuthErrorResponse { status, error: code, error_description })
}

fn form_pair(key: &str, value: &str) -> (r: (String, String))
    ensures
        r.0@ == key@,
        r.1@ == value@,
{
    (key.to_string(), value.to_string())
}

fn revoke_request(url: &str, client_id: &str, client_secret: &str, token: &str, hint: &str) -> (r:
    TokenRequest)
    ensures
        r.url@ == url@,
        r.authorization is None,
        form_view(r.form@) == seq![
            ("token"@, token@),
            ("token_type_hint"@, hint@),
            ("client_id"@, client_id@),
            ("client_secret"@, client_secret@),
        ],
{
    let mut form: Vec<(String, String)> = Vec::new();
    form.push(form_pair("token", token));
    form.push(form_pair("token_type_hint", hint));
    form.push(form_pair("client_id", client_id));
    form.push(form_pair("client_secret", client_secret));
    proof {
        assert(form_view(form@) =~= seq![
            ("token"@, token@),
            ("token_type_hint"@, hint@),
            ("client_id"@, client_id@),
            ("client_secret"@, client_secret@),
        ]);
    }
    TokenRequest { url: url.to_string(), authorization: None, form }
}

impl<State: SessionState> DracoonClient<State> {
    /// The base URL of the DRACOON instance.
    pub fn get_base_url(&self) -> (r: &str)
        ensures
            r@ == self@.base_url,
    {
        self.base_url.as_str()
    }

    /// The retry policy of the client.
    pub fn get_retry_config(&self) -> (r: RetryConfig)
        ensures
            r == self@.retry,
    {
        self.retry
    }

    /// The user agent the client sends.
    pub fn get_user_agent(&self) -> (r: &str)
        ensures
            r@ == self@.user_agent,
    {
        self.user_agent.as_str()
    }

    /// The URL of an API path, resolved against the base URL.
    pub fn build_api_url(&self, url_part: &str) -> (r: Result<String, DracoonClientError>)
        ensures
            r is Ok <==> joined_url(self@.base_url, url_part@) is Some,
            r is Ok ==> r->Ok_0@ == joined_url(self@.base_url, url_part@).unwrap(),
            r is Err ==> r->Err_0 == DracoonClientError::InvalidUrl,
    {
        match join_url(self.base_url.as_str(), url_part) {
            Some(url) => Ok(url),
            None => Err(DracoonClientError::InvalidUrl),
        }
    }

    /// The token endpoint, for every grant.
    pub fn get_token_url(&self) -> (r: Result<String, DracoonClientError>)
        ensures
            r is Ok <==> token_url_of(self@) is Some,
            r is Ok ==> r->Ok_0@ == token_url_of(self@).unwrap(),
            r is Err ==> r->Err_0 == DracoonClientError::InvalidUrl,
    {
        self.build_api_url("oauth/token")
    }

    /// Client id and secret, joined by a colon, in URL-safe base64 without
    /// padding, as HTTP Basic authentication sends them.
    pub fn client_credentials(&self) -> (r: String)
        ensures
            r@ == credentials_of(self@),
    {
        let mut credentials = self.client_id.clone();
        credentials.append(":");
        credentials.append(self.client_secret.as_str());
        encode_base64_url(credentials.as_str().as_bytes())
    }
}

impl DracoonClient<Disconnected> {
    /// The URL that starts the authorization code flow in a browser.
    pub fn get_authorize_url(&mut self) -> (r: Result<String, DracoonClientError>)
        ensures
            final(self)@ == old(self)@,
            r is Ok <==> authorize_url_of(old(self)@) is Some,
            r is Ok ==> r->Ok_0@ == authorize_url_of(old(self)@).unwrap(),
            r is Err ==> r->Err_0 == DracoonClientError::InvalidUrl,
    {
        let url = match join_url(self.base_url.as_str(), "oauth/authorize") {
            Some(url) => url,
            None => return Err(DracoonClientError::InvalidUrl),
        };
        let url = match append_query_pair(url.as_str(), "response_type", "code") {
            Some(url) => url,
            None => return Err(DracoonClientError::InvalidUrl),
        };
        let url = match append_query_pair(url.as_str(), "client_id", self.client_id.as_str()) {
            Some(url) => url,
            None => return Err(DracoonClientError::InvalidUrl),
        };
        let url = match append_query_pair(url.as_str(), "redirect_uri", self.redirect_uri.as_str()) {
            Some(url) => url,
            None => return Err(DracoonClientError::InvalidUrl),
        };
        match append_query_pair(url.as_str(), "scope", "all") {
            Some(url) => Ok(url),
            None => Err(DracoonClientError::InvalidUrl),
        }
    }

    /// The POST to the token endpoint that a flow makes.
    pub fn token_request(&self, flow: &OAuth2Flow) -> (r: Result<TokenRequest, DracoonClientError>)
        ensures
            r is Ok <==> token_url_of(self@) is Some,
            r is Err ==> r->Err_0 == DracoonClientError::InvalidUrl,
            r is Ok ==> {
                let req = r->Ok_0;
                &&& req.url@ == token_url_of(self@).unwrap()
                &&& opt_text(req.authorization) == flow_authorization(self@, *flow)
                &&& form_view(req.form@) == flow_form(self@, *flow)
            },
    {
        let url = match self.get_token_url() {
            Ok(url) => url,
            Err(e) => return Err(e),
        };
        let mut form: Vec<(String, String)> = Vec::new();
        match flow {
            OAuth2Flow::PasswordFlow(user, pass) => {
                form.push(form_pair("grant_type", "password"));
                form.push(form_pair("username", user.as_str()));
                form.push(form_pair("password", pass.as_str()));
                let mut authorization = String::from_str("Basic ");
                let credentials = self.client_credentials();
                authorization.append(credentials.as_str());
                proof {
                    assert(form_view(form@) =~= flow_form(self@, *flow));
                }
                Ok(TokenRequest { url, authorization: Some(authorization), form })
            },
            OAuth2Flow::AuthCodeFlow(code) => {
                form.push(form_pair("grant_type", "authorization_code"));
                form.push(form_pair("code", code.as_str()));
                form.push(form_pair("redirect_uri", self.redirect_uri.as_str()));
                let mut authorization = String::from_str("Basic ");
                let credentials = self.client_credentials();
                authorization.append(credentials.as_str());
                proof {
                    assert(form_view(form@) =~= flow_form(self@, *flow));
                }
                Ok(TokenRequest { url, authorization: Some(authorization), form })
            },
            OAuth2Flow::RefreshToken(token) => {
                form.push(form_pair("grant_type", "refresh_token"));
                form.push(form_pair("refresh_token", token.as_str()));
                form.push(form_pair("client_id", self.client_id.as_str()));
                form.push(form_pair("client_secret", self.client_secret.as_str()));
                proof {
                    assert(form_view(form@) =~= flow_form(self@, *flow));
                }
                Ok(TokenRequest { url, authorization: None, form })
            },
        }
    }

    /// The connected client that holds the tokens of a grant issued at `now`.
    pub fn connect_at(self, response: OAuth2TokenResponse, now: i64) -> (r: DracoonClient<Connected>)
        ensures
            r@ == self@.with_connection(connection_of(response, now)),
            r.wf(),
    {
        let connection = Connection {
            access_token: response.access_token,
            refresh_token: response.refresh_token,
            expires_in: response.expires_in,
            connected_at: now,
        };
        DracoonClient {
            base_url: self.base_url,
            redirect_uri: self.redirect_uri,
            client_id: self.client_id,
            client_secret: self.client_secret,
            user_agent: self.user_agent,
            retry: self.retry,
            connection: Some(connection),
            connected: PhantomData,
        }
    }

    /// Connects with what the token endpoint answered: its tokens, issued
    /// now, or the `Auth` error of its refusal.
    pub fn connect(self, answer: TokenAnswer) -> (r: Result<
        DracoonClient<Connected>,
        DracoonClientError,
    >)
        ensures
            answer is Granted <==> r is Ok,
            r is Ok ==> r->Ok_0@.connection is Some && r->Ok_0@ == self@.with_connection(
                connection_of(answer->Granted_0, r->Ok_0@.connection.unwrap().connected_at),
            ) && r->Ok_0.wf(),
            answer matches TokenAnswer::Refused { status, error, error_description }
                ==> is_refusal_error(r->Err_0, status, error, error_description),
    {
        match answer {
            TokenAnswer::Granted(response) => Ok(self.connect_granted(response)),
            TokenAnswer::Refused { status, error, error_description } => Err(
                auth_refusal_error(status, error, error_description),
            ),
        }
    }

    /// The connected client that holds the tokens of a grant, issued now.
    pub fn connect_granted(self, response: OAuth2TokenResponse) -> (r: DracoonClient<Connected>)
        ensures
            r@.connection is Some,
            r@ == self@.with_connection(connection_of(response, r@.connection.unwrap().connected_at)),
            r.wf(),
    {
        let now = utc_now_seconds();
        self.connect_at(response, now)
    }
}

impl DracoonClient<Connected> {
    /// The tokens of the session.
    pub fn get_connection(&self) -> (r: &Connection)
        requires
            self.wf(),
        ensures
            connection_view(*r) == self@.connection.unwrap(),
    {
        match &self.connection {
            Some(c) => c,
            None => unreached(),
        }
    }

    /// Whether the access token is still valid at `now` (seconds since the Unix epoch).
    pub fn check_access_token_validity_at(&self, now: i64) -> (r: bool)
        requires
            self.wf(),
        ensures
            r == token_valid_at(self@.connection.unwrap(), now),
    {
        match &self.connection {
            Some(c) => (now as i128) - (c.connected_at as i128) < c.expires_in as i128,
            None => unreached(),
        }
    }

    /// Whether the access token is still valid now: [Self::check_access_token_validity_at]
    /// at the system clock's reading, of which nothing is known here.
    pub fn check_access_token_validity(&self) -> (r: bool)
        requires
            self.wf(),
    {
        let now = utc_now_seconds();
        self.check_access_token_validity_at(now)
    }

    /// The `Authorization` header at `now`: `Bearer` and the access token
    /// while it is valid; `None` once it has expired and must be refreshed.
    pub fn get_auth_header_at(&self, now: i64) -> (r: Option<String>)
        requires
            self.wf(),
        ensures
            r is Some <==> token_valid_at(self@.connection.unwrap(), now),
            r is Some ==> r->Some_0@ == "Bearer "@ + self@.connection.unwrap().access_token,
    {
        if !self.check_access_token_validity_at(now) {
            return None;
        }
        match &self.connection {
            Some(c) => {
                let mut header = String::from_str("Bearer ");
                header.append(c.access_token.as_str());
                Some(header)
            },
            None => None,
        }
    }

    /// The `Authorization` header now; `None` when the access token has
    /// expired and must be refreshed first.
    pub fn get_auth_header(&self) -> (r: Option<String>)
        requires
            self.wf(),
        ensures
            r is Some ==> r->Some_0@ == "Bearer "@ + self@.connection.unwrap().access_token,
    {
        let now = utc_now_seconds();
        self.get_auth_header_at(now)
    }

    /// The refresh token of the session.
    pub fn get_refresh_token(&self) -> (r: &str)
        requires
            self.wf(),
        ensures
            r@ == self@.connection.unwrap().refresh_token,
    {
        match &self.connection {
            Some(c) => c.refresh_token.as_str(),
            None => unreached(),
        }
    }

    /// The POST that trades the session's refresh token for new tokens.
    pub fn refresh_request(&self) -> (r: Result<TokenRequest, DracoonClientError>)
        requires
            self.wf(),
        ensures
            r is Ok <==> token_url_of(self@) is Some,
            r is Err ==> r->Err_0 == DracoonClientError::InvalidUrl,
            r is Ok ==> {
                let req = r->Ok_0;
                &&& req.url@ == token_url_of(self@).unwrap()
                &&& req.authorization is None
                &&& form_view(req.form@) == refresh_form(
                    self@,
                    self@.connection.unwrap().refresh_token,
                )
            },
    {
        let url = match self.get_token_url() {
            Ok(url) => url,
            Err(e) => return Err(e),
        };
        let token = self.get_refresh_token();
        let mut form: Vec<(String, String)> = Vec::new();
        form.push(form_pair("grant_type", "refresh_token"));
        form.push(form_pair("refresh_token", token));
        form.push(form_pair("client_id", self.client_id.as_str()));
        form.push(form_pair("client_secret", self.client_secret.as_str()));
        proof {
            assert(form_view(form@) =~= refresh_form(self@, self@.connection.unwrap().refresh_token));
        }
        Ok(TokenRequest { url, authorization: None, form })
    }

    /// Replaces the tokens by those of a refresh issued at `now`.
    pub fn refresh_at(&mut self, response: OAuth2TokenResponse, now: i64)
        requires
            old(self).wf(),
        ensures
            final(self)@ == old(self)@.with_connection(connection_of(response, now)),
            final(self).wf(),
    {
        self.connection = Some(
            Connection {
                access_token: response.access_token,
                refresh_token: response.refresh_token,
                expires_in: response.expires_in,
                connected_at: now,
            },
        );
    }

    /// Replaces the tokens by those of a refresh, issued now.
    pub fn refresh(&mut self, response: OAuth2TokenResponse)
        requires
            old(self).wf(),
        ensures
            final(self)@.connection is Some,
            final(self)@ == old(self)@.with_connection(
                connection_of(response, final(self)@.connection.unwrap().connected_at),
            ),
            final(self).wf(),
    {
        let now = utc_now_seconds();
        self.refresh_at(response, now)
    }

    /// The revocations that a disconnect sends: the access token unless
    /// `revoke_access_token` is `Some(false)`, then the refresh token if
    /// `revoke_refresh_token` is `Some(true)`.
    pub fn revoke_requests(
        &self,
        revoke_access_token: Option<bool>,
        revoke_refresh_token: Option<bool>,
    ) -> (r: Result<Vec<TokenRequest>, DracoonClientError>)
        requires
            self.wf(),
        ensures
            revocations_of(self@, revoke_access_token, revoke_refresh_token, r),
    {
        let access = match revoke_access_token {
            Some(v) => v,
            None => true,
        };
        let refresh = match revoke_refresh_token {
            Some(v) => v,
            None => false,
        };
        let mut requests: Vec<TokenRequest> = Vec::new();
        if !access && !refresh {
            return Ok(requests);
        }
        let url = match self.build_api_url("oauth/revoke") {
            Ok(url) => url,
            Err(e) => return Err(e),
        };
        match &self.connection {
            Some(c) => {
                if access {
                    requests.push(
                        revoke_request(
                            url.as_str(),
                            self.client_id.as_str(),
                            self.client_secret.as_str(),
                            c.access_token.as_str(),
                            "access_token",
                        ),
                    );
                }
                if refresh {
                    requests.push(
                        revoke_request(
                            url.as_str(),
                            self.client_id.as_str(),
                            self.client_secret.as_str(),
                            c.refresh_token.as_str(),
                            "refresh_token",
                        ),
                    );
                }
            },
            None => {},
        }
        Ok(requests)
    }

    /// Disconnects: gives the client with the same configuration and no
    /// tokens, beside the revocations to send (see [Self::revoke_requests];
    /// by default the access token only). The client is disconnected
    /// whatever becomes of the revocations.
    pub fn disconnect(
        self,
        revoke_access_token: Option<bool>,
        revoke_refresh_token: Option<bool>,
    ) -> (r: (DracoonClient<Disconnected>, Result<Vec<TokenRequest>, DracoonClientError>))
        requires
            self.wf(),
        ensures
            r.0@ == self@.without_connection(),
            r.0.wf(),
            revocations_of(self@, revoke_access_token, revoke_refresh_token, r.1),
    {
        let revocations = self.revoke_requests(revoke_access_token, revoke_refresh_token);
        (self.drop_tokens(), revocations)
    }

    /// The client with the same configuration, without tokens.
    fn drop_tokens(self) -> (r: DracoonClient<Disconnected>)
        ensures
            r@ == self@.without_connection(),
            r.wf(),
    {
        DracoonClient {
            base_url: self.base_url,
            redirect_uri: self.redirect_uri,
            client_id: self.client_id,
            client_secret: self.client_secret,
            user_agent: self.user_agent,
            retry: self.retry,
            connection: None,
            connected: PhantomData,
        }
    }
}

/// A disconnected client holds no tokens, so nothing that needs an
/// `Authorization` header can be had from it.
pub proof fn lemma_disconnected_holds_no_tokens(client: DracoonClient<Disconnected>)
    requires
        client.wf(),
    ensures
        client@.connection is None,
{
}

/// Connecting a freshly built client and disconnecting it again gives back
/// the built client: the configuration is kept and only the tokens come and go.
pub proof fn lemma_disconnect_restores_built_client(config: BuilderView, tokens: ConnectionView)
    requires
        build_error(config) is None,
    ensures
        built_client(config).with_connection(tokens).without_connection() == built_client(config),
{
}

} // verus!
