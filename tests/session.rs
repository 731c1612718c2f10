use dco3::auth::TokenAnswer;
use dco3::errors::DracoonAuthErrorResponse;
use dco3::retry::{retry_delay, should_retry};
use dco3::{
    Connected, Dracoon, DracoonClient, DracoonClientBuilder, DracoonClientError, OAuth2Flow,
    OAuth2TokenResponse, RetryConfig,
};

fn get_test_client(url: &str) -> DracoonClient {
    DracoonClientBuilder::new()
        .with_base_url(url)
        .with_client_id("client_id")
        .with_client_secret("client_secret")
        .build()
        .expect("valid client config")
}

fn mock_client() -> DracoonClient {
    DracoonClientBuilder::new()
        .with_base_url("https://mock")
        .with_client_id("cid")
        .with_client_secret("csec")
        .build()
        .expect("valid client config")
}

fn auth_ok() -> OAuth2TokenResponse {
    OAuth2TokenResponse {
        access_token: "access_token".to_string(),
        refresh_token: "refresh_token".to_string(),
        expires_in: 3600,
    }
}

fn tokens(access: &str, refresh: &str, expires_in: u32) -> OAuth2TokenResponse {
    OAuth2TokenResponse {
        access_token: access.to_string(),
        refresh_token: refresh.to_string(),
        expires_in,
    }
}

fn form_value<'a>(form: &'a [(String, String)], key: &str) -> Option<&'a str> {
    form.iter().find(|(k, _)| k == key).map(|(_, v)| v.as_str())
}

#[test]
fn test_auth_code_authentication() {
    let dracoon = get_test_client("http://127.0.0.1:4321");
    let auth_code = OAuth2Flow::AuthCodeFlow("hello world".to_string());
    let req = dracoon.token_request(&auth_code).unwrap();
    assert_eq!(req.url, "http://127.0.0.1:4321/oauth/token");
    assert_eq!(form_value(&req.form, "code"), Some("hello world"));

    let res = dracoon.connect(TokenAnswer::Granted(auth_ok()));
    assert!(res.is_ok());
    assert_eq!(res.unwrap().get_connection().access_token, "access_token");
}

#[test]
fn test_refresh_token_authentication() {
    let dracoon = get_test_client("http://127.0.0.1:4321");
    let refresh_token_auth = OAuth2Flow::RefreshToken("hello world".to_string());
    let req = dracoon.token_request(&refresh_token_auth).unwrap();
    assert_eq!(form_value(&req.form, "refresh_token"), Some("hello world"));

    let res = dracoon.connect(TokenAnswer::Granted(auth_ok()));
    assert!(res.is_ok());
    let client = res.unwrap();
    let connection = client.get_connection();

    assert_eq!(connection.access_token, "access_token");
    assert_eq!(connection.refresh_token, "refresh_token");
    assert_eq!(connection.expires_in, 3600);
}

#[test]
fn test_auth_error_handling() {
    let dracoon = get_test_client("http://127.0.0.1:4321");
    let res = dracoon.connect(TokenAnswer::Refused {
        status: 401,
        error: Some("invalid_grant".to_string()),
        error_description: None,
    });
    assert!(res.is_err());
}

#[test]
fn test_get_auth_header() {
    let dracoon = get_test_client("http://127.0.0.1:4321");
    let connected_client = dracoon.connect_granted(auth_ok());
    let access_token = connected_client.get_auth_header().unwrap();
    assert_eq!(access_token, "Bearer access_token");
}

#[test]
fn test_get_token_url() {
    let base_url = "https://dracoon.team";
    let dracoon = get_test_client(base_url);
    let token_url = dracoon.get_token_url().unwrap();
    assert_eq!(token_url.as_str(), "https://dracoon.team/oauth/token");
}

#[test]
fn test_get_base_url() {
    let mock_url = "http://127.0.0.1:4321";
    let dracoon = get_test_client(mock_url).connect_granted(auth_ok());
    let base_url = dracoon.get_base_url();
    assert_eq!(base_url, format!("{}/", mock_url));
}

#[test]
fn test_get_refresh_token() {
    let dracoon = get_test_client("http://127.0.0.1:4321").connect_granted(auth_ok());
    let refresh_token = dracoon.get_refresh_token();
    assert_eq!(refresh_token, "refresh_token");
}

#[test]
fn auth_code_happy_path() {
    let client = mock_client();
    let req = client.token_request(&OAuth2Flow::AuthCodeFlow("xyz".to_string())).unwrap();
    assert_eq!(req.url, "https://mock/oauth/token");
    assert_eq!(req.authorization.as_deref(), Some("Basic Y2lkOmNzZWM"));
    let expected: Vec<(String, String)> = vec![
        ("grant_type".to_string(), "authorization_code".to_string()),
        ("code".to_string(), "xyz".to_string()),
        ("redirect_uri".to_string(), "https://mock/oauth/callback".to_string()),
    ];
    assert_eq!(req.form, expected);

    let connected = client
        .connect(TokenAnswer::Granted(tokens("A", "R", 3600)))
        .unwrap();
    assert_eq!(connected.get_auth_header().unwrap(), "Bearer A");
    assert_eq!(connected.get_refresh_token(), "R");
}

#[test]
fn auth_failure_gives_auth_error() {
    let err = mock_client()
        .connect(TokenAnswer::Refused {
            status: 401,
            error: Some("invalid_grant".to_string()),
            error_description: None,
        })
        .err()
        .unwrap();
    match err {
        DracoonClientError::Auth(resp) => {
            assert_eq!(resp.status, 401);
            assert!(resp.error.contains("invalid_grant"));
        }
        other => panic!("unexpected error {:?}", other),
    }
}

#[test]
fn refusal_without_body_is_unknown() {
    let err = mock_client()
        .connect(TokenAnswer::Refused { status: 500, error: None, error_description: None })
        .err()
        .unwrap();
    assert_eq!(
        err,
        DracoonClientError::Auth(DracoonAuthErrorResponse {
            status: 500,
            error: "unknown".to_string(),
            error_description: None,
        })
    );
}

#[test]
fn password_flow_uses_basic_auth() {
    let client = get_test_client("https://dracoon.team");
    assert_eq!(client.client_credentials(), "Y2xpZW50X2lkOmNsaWVudF9zZWNyZXQ");
    let req = client
        .token_request(&OAuth2Flow::PasswordFlow("user".to_string(), "pass".to_string()))
        .unwrap();
    assert_eq!(req.authorization.as_deref(), Some("Basic Y2xpZW50X2lkOmNsaWVudF9zZWNyZXQ"));
    assert_eq!(form_value(&req.form, "grant_type"), Some("password"));
    assert_eq!(form_value(&req.form, "username"), Some("user"));
    assert_eq!(form_value(&req.form, "password"), Some("pass"));
}

#[test]
fn refresh_flow_sends_credentials_in_body() {
    let client = mock_client();
    let req = client.token_request(&OAuth2Flow::RefreshToken("tok".to_string())).unwrap();
    assert!(req.authorization.is_none());
    let expected: Vec<(String, String)> = vec![
        ("grant_type".to_string(), "refresh_token".to_string()),
        ("refresh_token".to_string(), "tok".to_string()),
        ("client_id".to_string(), "cid".to_string()),
        ("client_secret".to_string(), "csec".to_string()),
    ];
    assert_eq!(req.form, expected);
}

#[test]
fn authorize_url_uses_default_redirect() {
    let mut client = mock_client();
    let url = client.get_authorize_url().unwrap();
    assert_eq!(
        url,
        "https://mock/oauth/authorize?response_type=code&client_id=cid&redirect_uri=https%3A%2F%2Fmock%2Foauth%2Fcallback&scope=all"
    );
}

#[test]
fn authorize_url_uses_given_redirect() {
    let mut client = DracoonClientBuilder::new()
        .with_base_url("https://mock")
        .with_client_id("cid")
        .with_client_secret("csec")
        .with_redirect_uri("https://redirect.uri")
        .build()
        .unwrap();
    let url = client.get_authorize_url().unwrap();
    assert!(url.contains("redirect_uri=https%3A%2F%2Fredirect.uri%2F"));
}

#[test]
fn build_reports_missing_fields_in_order() {
    let err = DracoonClientBuilder::new().build().err().unwrap();
    assert_eq!(err, DracoonClientError::MissingBaseUrl);

    let err = DracoonClientBuilder::new().with_base_url("not a url").build().err().unwrap();
    assert_eq!(err, DracoonClientError::InvalidUrl);

    let err = DracoonClientBuilder::new().with_base_url("https://mock").build().err().unwrap();
    assert_eq!(err, DracoonClientError::MissingClientId);

    let err = DracoonClientBuilder::new()
        .with_base_url("https://mock")
        .with_client_id("")
        .with_client_secret("csec")
        .build()
        .err()
        .unwrap();
    assert_eq!(err, DracoonClientError::MissingClientId);

    let err = DracoonClientBuilder::new()
        .with_base_url("https://mock")
        .with_client_id("cid")
        .build()
        .err()
        .unwrap();
    assert_eq!(err, DracoonClientError::MissingClientSecret);

    let err = DracoonClientBuilder::new()
        .with_base_url("https://mock")
        .with_client_id("cid")
        .with_client_secret("")
        .build()
        .err()
        .unwrap();
    assert_eq!(err, DracoonClientError::MissingClientSecret);

    let err = DracoonClientBuilder::new()
        .with_base_url("https://mock")
        .with_client_id("cid")
        .with_client_secret("csec")
        .with_redirect_uri("no redirect")
        .build()
        .err()
        .unwrap();
    assert_eq!(err, DracoonClientError::InvalidUrl);
}

#[test]
fn retry_policy_defaults_and_clamps() {
    let client = mock_client();
    assert_eq!(
        client.get_retry_config(),
        RetryConfig { max_retries: 5, min_retry_delay: 600, max_retry_delay: 20000 }
    );
    assert_eq!(client.get_user_agent(), "dco3-rs");

    let client = DracoonClientBuilder::new()
        .with_base_url("https://mock")
        .with_client_id("cid")
        .with_client_secret("csec")
        .with_max_retries(3)
        .with_min_retry_delay(400)
        .with_max_retry_delay(1000)
        .with_user_agent("agent/1")
        .build()
        .unwrap();
    assert_eq!(
        client.get_retry_config(),
        RetryConfig { max_retries: 3, min_retry_delay: 400, max_retry_delay: 1000 }
    );
    assert_eq!(client.get_user_agent(), "agent/1");

    let client = DracoonClientBuilder::new()
        .with_base_url("https://mock")
        .with_client_id("cid")
        .with_client_secret("csec")
        .with_max_retries(0)
        .with_min_retry_delay(5)
        .with_max_retry_delay(1_000_000)
        .build()
        .unwrap();
    assert_eq!(
        client.get_retry_config(),
        RetryConfig { max_retries: 1, min_retry_delay: 100, max_retry_delay: 60000 }
    );

    let client = DracoonClientBuilder::new()
        .with_base_url("https://mock")
        .with_client_id("cid")
        .with_client_secret("csec")
        .with_max_retries(100)
        .with_min_retry_delay(5000)
        .with_max_retry_delay(10)
        .build()
        .unwrap();
    let retry = client.get_retry_config();
    assert_eq!(retry, RetryConfig { max_retries: 10, min_retry_delay: 1000, max_retry_delay: 1000 });
    assert!(retry.min_retry_delay <= retry.max_retry_delay);
}

#[test]
fn auth_header_only_while_token_valid() {
    let client: DracoonClient<Connected> = mock_client().connect_at(tokens("A", "R", 3600), 1000);
    assert_eq!(client.get_auth_header_at(1000).as_deref(), Some("Bearer A"));
    assert_eq!(client.get_auth_header_at(4599).as_deref(), Some("Bearer A"));
    assert!(client.check_access_token_validity_at(4599));
    assert_eq!(client.get_auth_header_at(4600), None);
    assert!(!client.check_access_token_validity_at(4600));
    assert_eq!(client.get_auth_header_at(10_000), None);
}

#[test]
fn expired_token_is_refreshed_once() {
    let mut client = mock_client().connect_at(tokens("A", "R", 60), 0);
    let now: i64 = 120;
    assert_eq!(client.get_auth_header_at(now), None);

    let req = client.refresh_request().unwrap();
    assert_eq!(req.url, "https://mock/oauth/token");
    assert_eq!(form_value(&req.form, "grant_type"), Some("refresh_token"));
    assert_eq!(form_value(&req.form, "refresh_token"), Some("R"));
    assert_eq!(form_value(&req.form, "client_id"), Some("cid"));

    client.refresh_at(tokens("B", "R2", 60), now);
    assert_eq!(client.get_auth_header_at(now).as_deref(), Some("Bearer B"));
    assert_eq!(client.get_refresh_token(), "R2");
}

#[test]
fn revoke_requests_follow_defaults() {
    let client = mock_client().connect_granted(tokens("A", "R", 3600));
    let reqs = client.revoke_requests(None, None).unwrap();
    assert_eq!(reqs.len(), 1);
    assert_eq!(reqs[0].url, "https://mock/oauth/revoke");
    let expected: Vec<(String, String)> = vec![
        ("token".to_string(), "A".to_string()),
        ("token_type_hint".to_string(), "access_token".to_string()),
        ("client_id".to_string(), "cid".to_string()),
        ("client_secret".to_string(), "csec".to_string()),
    ];
    assert_eq!(reqs[0].form, expected);

    let reqs = client.revoke_requests(Some(true), Some(true)).unwrap();
    assert_eq!(reqs.len(), 2);
    assert_eq!(form_value(&reqs[1].form, "token"), Some("R"));
    assert_eq!(form_value(&reqs[1].form, "token_type_hint"), Some("refresh_token"));

    let reqs = client.revoke_requests(Some(false), None).unwrap();
    assert!(reqs.is_empty());
}

#[test]
fn disconnect_keeps_configuration() {
    let built = mock_client();
    let base = built.get_base_url().to_string();
    let retry = built.get_retry_config();
    let connected = built.connect_granted(tokens("A", "R", 3600));
    let (mut back, revocations) = connected.disconnect(None, None);
    assert_eq!(revocations.unwrap().len(), 1);
    assert_eq!(back.get_base_url(), base);
    assert_eq!(back.get_retry_config(), retry);
    assert_eq!(back.client_credentials(), "Y2lkOmNzZWM");
    assert!(back.get_authorize_url().unwrap().contains("client_id=cid"));
}

#[test]
fn dracoon_builder_builds_session() {
    let dracoon = Dracoon::builder()
        .with_base_url("https://dracoon.team")
        .with_client_id("client_id")
        .with_client_secret("client_secret")
        .with_max_retries(3)
        .with_min_retry_delay(400)
        .with_max_retry_delay(1000)
        .build()
        .unwrap();
    assert_eq!(dracoon.get_base_url(), "https://dracoon.team/");
    assert_eq!(
        dracoon.build_api_url("api/v4/user/account").unwrap(),
        "https://dracoon.team/api/v4/user/account"
    );
    let connected = dracoon.connect_granted(auth_ok());
    assert_eq!(connected.get_auth_header().unwrap(), "Bearer access_token");
    assert_eq!(connected.get_refresh_token(), "refresh_token");
    assert_eq!(
        connected.get_keypair().err().unwrap(),
        DracoonClientError::MissingEncryptionSecret
    );
    let (back, revocations) = connected.disconnect(Some(false), Some(true));
    let revocations = revocations.unwrap();
    assert_eq!(revocations.len(), 1);
    assert_eq!(form_value(&revocations[0].form, "token_type_hint"), Some("refresh_token"));
    assert_eq!(back.get_base_url(), "https://dracoon.team/");
}

#[test]
fn dracoon_builder_requires_fields() {
    let err = Dracoon::builder().with_client_id("id").build().err().unwrap();
    assert_eq!(err, DracoonClientError::MissingBaseUrl);
}

#[test]
fn error_predicates_follow_status() {
    let http = |status: u16| {
        DracoonClientError::Http(dco3::errors::DracoonErrorResponse {
            status,
            code: None,
            message: "m".to_string(),
        })
    };
    assert!(http(404).is_not_found());
    assert!(!http(404).is_forbidden());
    assert!(http(401).is_unauthorized());
    assert!(http(403).is_forbidden());
    assert!(http(409).is_conflict());
    assert!(http(413).is_payload_too_large());
    assert!(!DracoonClientError::IoError.is_not_found());
}

#[test]
fn retry_delays_double_up_to_cap() {
    let config = RetryConfig { max_retries: 5, min_retry_delay: 600, max_retry_delay: 20000 };
    let delays: Vec<u64> = (0..8).map(|a| retry_delay(&config, a)).collect();
    assert_eq!(delays, vec![600, 1200, 2400, 4800, 9600, 19200, 20000, 20000]);
    assert_eq!(retry_delay(&config, 4_000_000_000), 20000);
    let odd = RetryConfig { max_retries: 1, min_retry_delay: 5000, max_retry_delay: 1000 };
    assert_eq!(retry_delay(&odd, 0), 1000);
}

#[test]
fn only_transient_failures_are_retried() {
    let config = RetryConfig { max_retries: 5, min_retry_delay: 600, max_retry_delay: 20000 };
    assert!(should_retry(&config, 0, None));
    assert!(should_retry(&config, 4, Some(503)));
    assert!(should_retry(&config, 0, Some(429)));
    assert!(!should_retry(&config, 0, Some(404)));
    assert!(!should_retry(&config, 0, Some(401)));
    assert!(!should_retry(&config, 5, Some(503)));
    assert!(!should_retry(&config, 5, None));
}

#[test]
fn disconnect_revokes_selected_tokens() {
    let client = mock_client().connect_granted(tokens("A", "R", 3600));
    let (_, revocations) = client.disconnect(Some(true), Some(true));
    let revocations = revocations.unwrap();
    let revoked: Vec<&str> = revocations.iter().map(|r| form_value(&r.form, "token").unwrap()).collect();
    assert_eq!(revoked, vec!["A", "R"]);

    let client = mock_client().connect_granted(tokens("A", "R", 3600));
    let (back, revocations) = client.disconnect(Some(false), None);
    assert!(revocations.unwrap().is_empty());
    assert_eq!(back.get_base_url(), "https://mock/");
}
