use oauth_relay::config::OAuthConfig;
use oauth_relay::error::FlowError;
use oauth_relay::flow::{
    error_status, finish_token_exchange, handle_oauth_callback, handle_oauth_start, route,
    start_with_nonce, transport_failure_redirect, CallbackStep, FlowResponse, Route,
};
use oauth_relay::http_utils::RequestUri;
use oauth_relay::state::{decode_state, encode_state, StateData};

fn config() -> OAuthConfig {
    OAuthConfig {
        client_id: "my-client".to_string(),
        client_secret: "s3cret value".to_string(),
        oauth_init_uri_suffix: "/app/oauth".to_string(),
        redirect_uri_suffix: "/app/oauth/callback".to_string(),
        authorization_url: "https://provider.example/oauth/authorize".to_string(),
        token_url: "https://provider.example/oauth/token".to_string(),
    }
}

fn request(path: &str, query: Option<&str>) -> RequestUri {
    RequestUri {
        scheme: Some("https".to_string()),
        host: Some("relay.example".to_string()),
        port: None,
        path: path.to_string(),
        query: query.map(|q| q.to_string()),
    }
}

fn state_param(url: &str) -> String {
    let start = url.find("state=").expect("state parameter") + "state=".len();
    let rest = &url[start..];
    match rest.find('&') {
        Some(end) => rest[..end].to_string(),
        None => rest.to_string(),
    }
}

fn redirect_of(r: Result<FlowResponse, FlowError>) -> String {
    match r {
        Ok(FlowResponse::Redirect(u)) => u,
        _ => panic!("expected a redirect"),
    }
}

fn valid_token(port: u16) -> String {
    encode_state(&StateData { local_port: port, nonce: "00112233445566778899aabbccddeeff".to_string() })
}

#[test]
fn start_without_local_port_is_bad_request() {
    let r = handle_oauth_start(&request("/app/oauth", Some("scopes=read")), &config());
    match r {
        Ok(FlowResponse::BadRequest(body)) => assert_eq!(body, "Missing local_port parameter"),
        _ => panic!("expected 400"),
    }
    let r = handle_oauth_start(&request("/app/oauth", None), &config());
    assert!(matches!(r, Ok(FlowResponse::BadRequest(_))));
}

#[test]
fn start_with_unparseable_port_is_bad_request() {
    let r = handle_oauth_start(&request("/app/oauth", Some("local_port=70000")), &config());
    assert!(matches!(r, Ok(FlowResponse::BadRequest(_))));
}

#[test]
fn start_redirects_to_provider() {
    let r = handle_oauth_start(&request("/app/oauth", Some("local_port=51821&scopes=read+write")), &config());
    let url = redirect_of(r);
    assert!(url.starts_with("https://provider.example/oauth/authorize?client_id=my-client&"));
    assert!(url.contains("redirect_uri=https%3A%2F%2Frelay.example%2Fapp%2Foauth%2Fcallback"));
    assert!(url.contains("response_type=code"));
    assert!(url.ends_with("&scope=read+write"));
    let state = state_param(&url);
    assert!(!state.is_empty());
    assert_eq!(decode_state(&state).ok().map(|s| s.local_port), Some(51821));
}

#[test]
fn start_with_fixed_nonce_is_exact() {
    let nonce: Vec<u8> = (0u8..16).collect();
    let url = redirect_of(start_with_nonce(&request("/app/oauth", Some("local_port=8080")), &config(), &nonce));
    let token = encode_state(&StateData { local_port: 8080, nonce: "000102030405060708090a0b0c0d0e0f".to_string() });
    let expected = format!(
        "https://provider.example/oauth/authorize?client_id=my-client&redirect_uri=https%3A%2F%2Frelay.example%2Fapp%2Foauth%2Fcallback&response_type=code&state={}&scope=",
        token
    );
    assert_eq!(url, expected);
}

#[test]
fn start_keeps_existing_query_of_authorization_url() {
    let mut c = config();
    c.authorization_url = "https://provider.example/auth?tenant=x#frag".to_string();
    let nonce = vec![0u8; 16];
    let url = redirect_of(start_with_nonce(&request("/app/oauth", Some("local_port=1")), &c, &nonce));
    assert!(url.starts_with("https://provider.example/auth?tenant=x&client_id=my-client&"));
    assert!(url.ends_with("&scope=#frag"));
}

#[test]
fn start_with_bad_authorization_url_fails() {
    let mut c = config();
    c.authorization_url = "not a url".to_string();
    let r = handle_oauth_start(&request("/app/oauth", Some("local_port=1")), &c);
    assert!(matches!(r, Err(FlowError::InvalidConfiguredUrl)));
}

#[test]
fn callback_without_host_redirects_locally() {
    let q = format!("code=abc&state={}", valid_token(4000));
    let mut req = request("/app/oauth/callback", Some(&q));
    req.host = None;
    match handle_oauth_callback(&req, &config()) {
        Ok(CallbackStep::Respond(FlowResponse::Redirect(u))) => assert_eq!(
            u,
            "http://localhost:4000/?status=error&error=Missing%20scheme%20or%20host%20in%20the%20request%20URI"
        ),
        _ => panic!("expected a redirect"),
    }
    let mut c = config();
    c.redirect_uri_suffix = ":bad".to_string();
    match handle_oauth_callback(&request("/app/oauth/callback", Some(&q)), &c) {
        Ok(CallbackStep::Respond(FlowResponse::Redirect(u))) => {
            assert_eq!(u, "http://localhost:4000/?status=error&error=Invalid%20callback%20URL")
        }
        _ => panic!("expected a redirect"),
    }
}

#[test]
fn start_without_host_fails() {
    let mut req = request("/app/oauth", Some("local_port=1"));
    req.host = None;
    let r = handle_oauth_start(&req, &config());
    assert!(matches!(r, Err(FlowError::MissingUriComponent)));
    assert_eq!(error_status(&FlowError::MissingUriComponent), 400);
}

#[test]
fn concurrent_starts_keep_their_own_ports() {
    let a = redirect_of(handle_oauth_start(&request("/app/oauth", Some("local_port=51821")), &config()));
    let b = redirect_of(handle_oauth_start(&request("/app/oauth", Some("local_port=51822")), &config()));
    let sa = decode_state(&state_param(&a)).ok().expect("first state decodes");
    let sb = decode_state(&state_param(&b)).ok().expect("second state decodes");
    assert_eq!(sa.local_port, 51821);
    assert_eq!(sb.local_port, 51822);
    assert_eq!(sa.nonce.len(), 32);
    assert!(sa.nonce.chars().all(|c| c.is_ascii_hexdigit() && !c.is_ascii_uppercase()));
}

#[test]
fn callback_without_state_is_bad_request() {
    let r = handle_oauth_callback(&request("/app/oauth/callback", Some("code=abc")), &config());
    match r {
        Ok(CallbackStep::Respond(FlowResponse::BadRequest(body))) => assert_eq!(body, "Missing state parameter"),
        _ => panic!("expected 400"),
    }
}

#[test]
fn callback_with_unparseable_state_is_rejected() {
    let r = handle_oauth_callback(&request("/app/oauth/callback", Some("code=abc&state=%%%")), &config());
    assert!(matches!(r, Err(FlowError::MalformedState)));
    assert_eq!(error_status(&FlowError::MalformedState), 400);
    let r = handle_oauth_callback(&request("/app/oauth/callback", Some("code=abc&state=")), &config());
    assert!(matches!(r, Err(FlowError::MalformedState)));
}

#[test]
fn callback_with_provider_error_redirects_locally() {
    let q = format!("error=access_denied&error_description=User+cancelled&state={}", valid_token(51821));
    let r = handle_oauth_callback(&request("/app/oauth/callback", Some(&q)), &config());
    match r {
        Ok(CallbackStep::Respond(FlowResponse::Redirect(u))) => {
            assert_eq!(u, "http://localhost:51821/?status=error&error=access_denied%3A%20User%20cancelled")
        }
        _ => panic!("expected a redirect"),
    }
}

#[test]
fn callback_with_error_and_no_description() {
    let q = format!("error=server_error&state={}", valid_token(4000));
    let r = handle_oauth_callback(&request("/app/oauth/callback", Some(&q)), &config());
    match r {
        Ok(CallbackStep::Respond(FlowResponse::Redirect(u))) => {
            assert_eq!(u, "http://localhost:4000/?status=error&error=server_error%3A%20Unknown%20error")
        }
        _ => panic!("expected a redirect"),
    }
}

#[test]
fn callback_without_code_redirects_locally() {
    let q = format!("state={}", valid_token(4000));
    let r = handle_oauth_callback(&request("/app/oauth/callback", Some(&q)), &config());
    match r {
        Ok(CallbackStep::Respond(FlowResponse::Redirect(u))) => {
            assert_eq!(u, "http://localhost:4000/?status=error&error=Missing%20authorization%20code")
        }
        _ => panic!("expected a redirect"),
    }
}

#[test]
fn callback_with_code_asks_for_tokens() {
    let q = format!("code=a%2Fb&state={}", valid_token(51821));
    let r = handle_oauth_callback(&request("/app/oauth/callback", Some(&q)), &config());
    match r {
        Ok(CallbackStep::Exchange(x)) => {
            assert_eq!(x.local_port, 51821);
            assert_eq!(x.token_url, "https://provider.example/oauth/token");
            assert_eq!(
                x.body,
                "grant_type=authorization_code&code=a%2Fb&redirect_uri=https%3A%2F%2Frelay.example%2Fapp%2Foauth%2Fcallback&client_id=my-client&client_secret=s3cret%20value"
            );
        }
        _ => panic!("expected a token exchange"),
    }
}

#[test]
fn token_success_redirects_with_access_token() {
    let u = finish_token_exchange(51821, 200, "{\"access_token\":\"abc123\"}");
    assert_eq!(u, "http://localhost:51821/?status=ok&access_token=abc123");
    assert!(!u.contains("refresh_token"));
}

#[test]
fn token_success_with_refresh_token() {
    let body = "{\"access_token\":\"a b\",\"refresh_token\":\"r/1\",\"token_type\":\"Bearer\",\"expires_in\":3600}";
    let u = finish_token_exchange(9, 201, body);
    assert_eq!(u, "http://localhost:9/?status=ok&access_token=a+b&refresh_token=r%2F1");
}

#[test]
fn token_provider_error_redirects_with_message() {
    let u = finish_token_exchange(51821, 400, "{\"error\":\"invalid_grant\"}");
    assert!(u.ends_with("status=error&error=invalid_grant%3A%20No%20description"));
    assert_eq!(u, "http://localhost:51821/?status=error&error=invalid_grant%3A%20No%20description");
    let u = finish_token_exchange(1, 401, "{\"error\":\"invalid_client\",\"error_description\":\"bad\"}");
    assert_eq!(u, "http://localhost:1/?status=error&error=invalid_client%3A%20bad");
}

#[test]
fn token_unparseable_error_body_reports_status() {
    let u = finish_token_exchange(1, 502, "Bad Gateway");
    assert_eq!(u, "http://localhost:1/?status=error&error=Token%20request%20failed%20with%20status%20502%3A%20Bad%20Gateway");
}

#[test]
fn token_unparseable_success_body_reports_parse_error() {
    let u = finish_token_exchange(1, 200, "not json");
    assert!(u.starts_with("http://localhost:1/?status=error&error=Failed%20to%20parse%20token%20response%20%28status%20200%29%3A%20"));
    let u = finish_token_exchange(1, 200, "{\"token_type\":\"Bearer\"}");
    assert_eq!(u, "http://localhost:1/?status=error&error=Failed%20to%20parse%20token%20response%20%28status%20200%29%3A%20missing%20field%20%60access_token%60");
    let u = finish_token_exchange(1, 200, "{\"access_token\":\"x\",\"expires_in\":-5}");
    assert!(u.contains("status=error"));
}

#[test]
fn transport_failure_redirects_with_detail() {
    let u = transport_failure_redirect(7, "connection reset");
    assert_eq!(u, "http://localhost:7/?status=error&error=Token%20request%20failed%3A%20connection%20reset");
}

#[test]
fn routing_by_method_and_path() {
    let c = config();
    assert_eq!(route(true, "/", &c), Route::Health);
    assert_eq!(route(true, "/app/oauth", &c), Route::Start);
    assert_eq!(route(true, "/app/oauth/callback", &c), Route::Callback);
    assert_eq!(route(true, "/other", &c), Route::NotFound);
    assert_eq!(route(false, "/app/oauth", &c), Route::MethodNotAllowed);
}

#[test]
fn error_statuses() {
    assert_eq!(error_status(&FlowError::ConfigurationError("OAUTH_TOKEN_URL".to_string())), 500);
    assert_eq!(error_status(&FlowError::InvalidConfiguredUrl), 500);
}
