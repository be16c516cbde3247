use mempool_monitor::server::{
    auth_middleware, client_address, env_file, RATE_BURST, RATE_PERIOD_SECS,
};

#[test]
fn api_key_is_required() {
    assert!(auth_middleware(Some("secret"), "secret").is_ok());
    for provided in [None, Some(""), Some("Secret"), Some("secret ")] {
        let (code, body) = auth_middleware(provided, "secret").unwrap_err();
        assert_eq!(code, 401);
        assert_eq!(body.to_string(), r#"{"error":"Unauthorized"}"#);
    }
    assert!(auth_middleware(None, "").is_err());
}

#[test]
fn proxy_header_names_the_client() {
    assert_eq!(client_address(Some(1), Some(2)), Some(1));
    assert_eq!(client_address(None, Some(2)), Some(2));
    assert_eq!(client_address::<u8>(None, None), None);
}

#[test]
fn environment_selects_the_settings() {
    assert_eq!(env_file(Some("staging"), true), ".env.staging");
    assert_eq!(env_file(None, true), ".env.development");
    assert_eq!(env_file(None, false), ".env.production");
}

#[test]
fn thirty_requests_a_minute() {
    assert_eq!(60 / RATE_PERIOD_SECS, 30);
    assert_eq!(RATE_BURST, 10);
}
