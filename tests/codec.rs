use oauth_relay::config::OAuthConfig;
use oauth_relay::error::FlowError;
use oauth_relay::http_utils::{
    append_query_pair, error_redirect, last_value_of, make_redirect_uri, parse_url, query_pairs,
    success_redirect, RequestUri,
};
use oauth_relay::state::{decode_state, encode_state, parse_state_text, state_text_of, StateData, StateError};
use oauth_relay::text::{hex_of, parse_u16, parse_u64};
use oauth_relay::token::{TokenErrorResponse, TokenResponse};

fn round_trip(port: u16, nonce: &str) {
    let token = encode_state(&StateData { local_port: port, nonce: nonce.to_string() });
    assert!(token.chars().all(|c| c.is_ascii_alphanumeric() || c == '-' || c == '_'));
    let back = decode_state(&token).ok().expect("decodes");
    assert_eq!(back.local_port, port);
    assert_eq!(back.nonce, nonce);
}

#[test]
fn state_round_trips() {
    round_trip(51821, "00112233445566778899aabbccddeeff");
    round_trip(0, "");
    round_trip(65535, "quote \" and backslash \\ and é");
}

#[test]
fn state_text_is_compact_json() {
    let sd = StateData { local_port: 51821, nonce: "a\"b".to_string() };
    assert_eq!(state_text_of(&sd), "{\"local_port\":51821,\"nonce\":\"a\\\"b\"}");
    let back = parse_state_text("{\"local_port\":51821,\"nonce\":\"a\\\"b\"}").expect("parses");
    assert_eq!(back.nonce, "a\"b");
}

#[test]
fn state_token_is_base64_of_json() {
    // {"local_port":51821,"nonce":"abc"}
    let token = "eyJsb2NhbF9wb3J0Ijo1MTgyMSwibm9uY2UiOiJhYmMifQ";
    let sd = decode_state(token).ok().expect("decodes");
    assert_eq!(sd.local_port, 51821);
    assert_eq!(sd.nonce, "abc");
    assert_eq!(encode_state(&sd), token);
}

#[test]
fn malformed_states_are_rejected() {
    let token = encode_state(&StateData { local_port: 8080, nonce: "ff".to_string() });
    for bad in [
        "".to_string(),
        "!!!!".to_string(),
        token[..token.len() - 1].to_string(),
        token[..token.len() - 3].to_string(),
        format!("{}=", token),
        "bm90IGpzb24".to_string(),
    ] {
        assert!(matches!(decode_state(&bad), Err(StateError::MalformedState)), "{}", bad);
    }
    for text in [
        "{\"local_port\":007,\"nonce\":\"a\"}",
        "{\"local_port\":70000,\"nonce\":\"a\"}",
        "{\"local_port\":1,\"nonce\":\"a\"",
        "{\"local_port\":1}",
        "{\"nonce\":\"a\",\"local_port\":1}",
        "{\"local_port\":1,\"nonce\":\"a\"b\"}",
    ] {
        assert!(parse_state_text(text).is_none(), "{}", text);
    }
}

#[test]
fn config_from_env_values() {
    let names = [
        "OAUTH_CLIENT_ID",
        "OAUTH_CLIENT_SECRET",
        "OAUTH_INIT_URI_SUFFIX",
        "OAUTH_REDIRECT_URI_SUFFIX",
        "OAUTH_AUTHORIZATION_URL",
        "OAUTH_TOKEN_URL",
    ];
    let mut vars: Vec<(String, String)> = names.iter().map(|n| (n.to_string(), format!("v-{}", n))).collect();
    let c = OAuthConfig::from_env(&vars).ok().expect("complete");
    assert_eq!(c.client_id, "v-OAUTH_CLIENT_ID");
    assert_eq!(c.token_url, "v-OAUTH_TOKEN_URL");
    vars[4].1 = String::new();
    match OAuthConfig::from_env(&vars) {
        Err(FlowError::ConfigurationError(n)) => assert_eq!(n, "OAUTH_AUTHORIZATION_URL"),
        _ => panic!("expected a configuration error"),
    }
    vars.remove(1);
    match OAuthConfig::from_env(&vars) {
        Err(FlowError::ConfigurationError(n)) => assert_eq!(n, "OAUTH_CLIENT_SECRET"),
        _ => panic!("expected a configuration error"),
    }
}

fn config() -> OAuthConfig {
    OAuthConfig {
        client_id: "id".to_string(),
        client_secret: "secret".to_string(),
        oauth_init_uri_suffix: "/o".to_string(),
        redirect_uri_suffix: "/o/cb".to_string(),
        authorization_url: "https://p.example/a".to_string(),
        token_url: "https://p.example/t".to_string(),
    }
}

#[test]
fn own_callback_url_from_request() {
    let mut req = RequestUri {
        scheme: Some("http".to_string()),
        host: Some("Relay.Example".to_string()),
        port: Some(8787),
        path: "/o/cb".to_string(),
        query: None,
    };
    assert_eq!(make_redirect_uri(&req, &config()).ok(), Some("http://relay.example:8787/o/cb".to_string()));
    req.port = Some(80);
    assert_eq!(make_redirect_uri(&req, &config()).ok(), Some("http://relay.example/o/cb".to_string()));
    req.port = None;
    assert_eq!(make_redirect_uri(&req, &config()).ok(), Some("http://relay.example/o/cb".to_string()));
    req.scheme = None;
    assert!(matches!(make_redirect_uri(&req, &config()), Err(FlowError::MissingUriComponent)));
}

#[test]
fn parse_url_normalizes_and_rejects() {
    assert_eq!(parse_url("HTTPS://Example.COM").ok(), Some("https://example.com/".to_string()));
    assert!(matches!(parse_url("::"), Err(FlowError::InvalidConfiguredUrl)));
}

#[test]
fn query_pair_appending() {
    assert_eq!(append_query_pair("https://a/", "k", "a b&c"), "https://a/?k=a+b%26c");
    assert_eq!(append_query_pair("https://a/?x=1", "k", "v"), "https://a/?x=1&k=v");
    assert_eq!(append_query_pair("https://a/?", "k", "v"), "https://a/?k=v");
    assert_eq!(append_query_pair("https://a/#f?", "k", "v"), "https://a/?k=v#f?");
}

#[test]
fn query_values_last_wins() {
    let req = RequestUri {
        scheme: None,
        host: None,
        port: None,
        path: "/".to_string(),
        query: Some("a=1&b=x+y&a=%32".to_string()),
    };
    let pairs = query_pairs(&req);
    assert_eq!(pairs.len(), 3);
    assert_eq!(last_value_of(&pairs, "a"), Some("2".to_string()));
    assert_eq!(last_value_of(&pairs, "b"), Some("x y".to_string()));
    assert_eq!(last_value_of(&pairs, "c"), None);
}

#[test]
fn local_redirects() {
    assert_eq!(error_redirect(3, "a b/c~"), "http://localhost:3/?status=error&error=a%20b%2Fc~");
    let t = TokenResponse {
        access_token: "x y".to_string(),
        refresh_token: None,
        token_type: None,
        expires_in: None,
    };
    assert_eq!(success_redirect(65535, &t), "http://localhost:65535/?status=ok&access_token=x+y");
}

#[test]
fn token_payloads() {
    let t = TokenResponse::from_json("{\"access_token\":\"a\",\"expires_in\":3600,\"token_type\":null}").ok().expect("parses");
    assert_eq!(t.access_token, "a");
    assert_eq!(t.expires_in, Some(3600));
    assert_eq!(t.token_type, None);
    assert!(TokenResponse::from_json("{\"access_token\":5}").is_err());
    assert!(TokenResponse::from_json("{\"access_token\":\"a\",\"expires_in\":1.5}").is_err());
    let e = TokenErrorResponse::from_json("{\"error\":\"e\",\"error_description\":\"d\"}").ok().expect("parses");
    assert_eq!(e.error, "e");
    assert_eq!(e.error_description, Some("d".to_string()));
    assert!(TokenErrorResponse::from_json("{}").is_err());
    assert!(TokenResponse::from_json("{\"access_token\":true}").is_err());
    assert!(TokenResponse::from_json("{\"access_token\":\"a\",\"refresh_token\":[1]}").is_err());
    assert!(TokenResponse::from_json("[\"a\"]").is_err());
}

#[test]
fn numbers_and_hex() {
    assert_eq!(parse_u16("51821"), Some(51821));
    assert_eq!(parse_u16("+5"), Some(5));
    assert_eq!(parse_u16("65536"), None);
    assert_eq!(parse_u16(""), None);
    assert_eq!(parse_u16("-1"), None);
    assert_eq!(parse_u64("18446744073709551615"), Some(u64::MAX));
    assert_eq!(parse_u64("18446744073709551616"), None);
    assert_eq!(hex_of(&vec![0, 15, 16, 255]), "000f10ff");
}
