use mempool_monitor::apns::builder::{normalize_pem, ApnsBuilder, ApnsVars};
use mempool_monitor::apns::client::{reason_of, ApnsClient, ApnsRequest, TokenCache};
use mempool_monitor::apns::error::ApnsError;
use mempool_monitor::apns::types::{
    BlockPosition, LiveActivityContentState, LiveActivityEvent, WatchStatus,
};
use serde_json::value::RawValue;
use serde_json::Value;

fn pem(kind: &str, lines: &[&str]) -> String {
    format!("-----BEGIN {kind} KEY-----\n{}\n-----END {kind} KEY-----", lines.join("\n"))
}

/// A key made for these tests.
fn private_pem() -> String {
    pem(
        "PRIVATE",
        &[
            "MIGHAgEAMBMGByqGSM49AgEGCCqGSM49AwEHBG0wawIBAQQgfANTwUVp+CHwefst",
            "fiC7Jqqx7cvw9XJMbvF7N5GrOiehRANCAARG7OFxMNriwg2F7/j/PDzcVR4u/xKX",
            "tTPkFgj6yZQnQmHiy3FlIl41NCil3c9R4NGHJim/lHbIG4GOEVQ1Z+Ns",
        ],
    )
}

fn public_pem() -> String {
    pem(
        "PUBLIC",
        &[
            "MFkwEwYHKoZIzj0CAQYIKoZIzj0DAQcDQgAERuzhcTDa4sINhe/4/zw83FUeLv8S",
            "l7Uz5BYI+smUJ0Jh4stxZSJeNTQopd3PUeDRhyYpv5R2yBuBjhFUNWfjbA==",
        ],
    )
}

fn vars(key: &str) -> ApnsVars {
    ApnsVars {
        key_id: Some("KEY0000001".to_string()),
        team_id: Some("TEAM000001".to_string()),
        bundle_id: Some("com.example.myapp".to_string()),
        private_key: Some(key.to_string()),
        production: None,
    }
}

fn client() -> ApnsClient {
    ApnsBuilder::build(vars(&private_pem())).unwrap()
}

fn json(text: &str) -> Value {
    serde_json::from_str(text).unwrap()
}

fn token(r: Result<String, ApnsError>) -> String {
    match r {
        Ok(t) => t,
        Err(e) => panic!("{}", e.message()),
    }
}

fn request(r: Result<ApnsRequest, ApnsError>) -> ApnsRequest {
    match r {
        Ok(q) => q,
        Err(e) => panic!("{}", e.message()),
    }
}

#[test]
fn event_names() {
    assert_eq!(LiveActivityEvent::Update.as_str(), "update");
    assert_eq!(LiveActivityEvent::End.as_str(), "end");
    assert_eq!(BlockPosition::NextBlock.as_str(), "NextBlock");
    assert_eq!(BlockPosition::SecondBlock.as_str(), "SecondBlock");
    assert_eq!(BlockPosition::Other.as_str(), "Other");
    assert_eq!(WatchStatus::Pending.as_str(), "pending");
    assert_eq!(WatchStatus::Confirmed.as_str(), "confirmed");
    assert_eq!(WatchStatus::Failed.as_str(), "failed");
}

#[test]
fn pem_is_normalized() {
    assert_eq!(normalize_pem("a\\nb"), "a\nb");
    assert_eq!(normalize_pem("  a \r\n\tb\n"), "a\nb");
    assert_eq!(normalize_pem("a\n\nb\n\n"), "a\n\nb\n");
    assert_eq!(normalize_pem("\n"), "");
    assert_eq!(normalize_pem(""), "");
    assert_eq!(normalize_pem("a\\"), "a\\");
    assert_eq!(normalize_pem("\\\\n"), "\\");
    assert_eq!(normalize_pem("\\nx"), "\nx");
}

#[test]
fn pem_normalization_agrees_with_the_standard_library() {
    for raw in ["", "\n", "a", " a\\n b\\n", "\\n\\n", "x\r\ny\r", "\\", "n", "a\n \nb", "\\n\n\\n"] {
        let expected = raw
            .replace("\\n", "\n")
            .lines()
            .map(|l| l.trim())
            .collect::<Vec<_>>()
            .join("\n");
        assert_eq!(normalize_pem(raw), expected, "{:?}", raw);
    }
}

#[test]
fn escaped_line_feeds_keep_the_key() {
    let key = private_pem();
    assert_eq!(normalize_pem(&key.replace("\n", "\\n")), normalize_pem(&key));
}

#[test]
fn builder_needs_all_required_variables() {
    let full = vars("k");
    assert!(ApnsBuilder::build(full.clone()).is_some());
    assert!(ApnsBuilder::build(ApnsVars { key_id: None, ..full.clone() }).is_none());
    assert!(ApnsBuilder::build(ApnsVars { team_id: None, ..full.clone() }).is_none());
    assert!(ApnsBuilder::build(ApnsVars { bundle_id: None, ..full.clone() }).is_none());
    assert!(ApnsBuilder::build(ApnsVars { private_key: None, ..full.clone() }).is_none());
    assert!(ApnsClient::from_env(ApnsVars { private_key: None, ..full }).is_none());
}

#[test]
fn builder_takes_the_variables() {
    let mut v = vars(" k\\nl ");
    v.production = Some("TRUE".to_string());
    let c = ApnsBuilder::build(v.clone()).unwrap();
    assert_eq!(c.key_id, "KEY0000001");
    assert_eq!(c.team_id, "TEAM000001");
    assert_eq!(c.bundle_id, "com.example.myapp");
    assert_eq!(c.pem, "k\nl");
    assert!(c.production);
    assert_eq!(ApnsClient::from_env(v.clone()).unwrap().pem, " k\\nl ");
    v.production = Some("yes".to_string());
    assert!(!ApnsBuilder::build(v.clone()).unwrap().production);
    v.production = None;
    assert!(!ApnsBuilder::build(v).unwrap().production);
}

#[test]
fn key_tail_is_five_characters() {
    assert_eq!(ApnsBuilder::key_tail("0123456789"), "56789");
    assert_eq!(ApnsBuilder::key_tail("abc"), "abc");
    assert_eq!(ApnsBuilder::key_tail(""), "");
}

#[test]
fn keys_are_checked() {
    assert!(client().check_key().is_ok());
    let bad = ApnsBuilder::build(vars("no key")).unwrap();
    match bad.check_key() {
        Err(e) => {
            assert!(matches!(&e, ApnsError::Jwt(_)));
            assert_eq!(e.message(), "JWT error: InvalidKeyFormat");
        }
        Ok(()) => panic!("accepted"),
    }
}

#[test]
fn token_carries_claims_and_signature() {
    let mut cache = TokenCache::new();
    let t = token(client().jwt_token(&mut cache, 1700000000));
    let header = jsonwebtoken::decode_header(&t).unwrap();
    assert_eq!(header.alg, jsonwebtoken::Algorithm::ES256);
    assert_eq!(header.kid, Some("KEY0000001".to_string()));
    let key = jsonwebtoken::DecodingKey::from_ec_pem(public_pem().as_bytes()).unwrap();
    let mut validation = jsonwebtoken::Validation::new(jsonwebtoken::Algorithm::ES256);
    validation.validate_exp = false;
    validation.required_spec_claims.clear();
    let data = jsonwebtoken::decode::<Value>(&t, &key, &validation).unwrap();
    assert_eq!(data.claims, json(r#"{"iss":"TEAM000001","iat":1700000000}"#));
    let raw = jsonwebtoken::decode::<Box<RawValue>>(&t, &key, &validation).unwrap();
    assert_eq!(raw.claims.get(), r#"{"iss":"TEAM000001","iat":1700000000}"#);
    let cached = cache.cached.unwrap();
    assert_eq!(cached.token, t);
    assert_eq!(cached.issued_at, 1700000000);
}

#[test]
fn token_is_reused_for_its_lifetime() {
    let c = client();
    let mut cache = TokenCache::new();
    let first = token(c.jwt_token(&mut cache, 1000));
    assert_eq!(token(c.jwt_token(&mut cache, 1000 + 3299)), first);
    assert_eq!(token(c.jwt_token(&mut cache, 5)), first);
    let second = token(c.jwt_token(&mut cache, 1000 + 3300));
    assert_ne!(second, first);
    assert_eq!(cache.cached.unwrap().issued_at, 4300);
}

#[test]
fn failed_signing_keeps_the_cache() {
    let bad = ApnsBuilder::build(vars("no key")).unwrap();
    let mut cache = TokenCache::new();
    match bad.jwt_token(&mut cache, 1) {
        Err(e) => assert_eq!(e.message(), bad.check_key().unwrap_err().message()),
        Ok(_) => panic!("signed"),
    }
    assert!(cache.cached.is_none());
    let _ = client().jwt_token(&mut cache, 1);
    assert!(bad.jwt_token(&mut cache, 2).is_ok());
    assert!(bad.jwt_token(&mut cache, 9999).is_err());
    assert_eq!(cache.cached.unwrap().issued_at, 1);
}

#[test]
fn alert_request() {
    let c = client();
    let mut cache = TokenCache::new();
    let data = json(r#"{"txid":"ab"}"#);
    let r = request(c.send_notification(
        &mut cache,
        7,
        "dev1",
        Some("T"),
        Some("B"),
        Some(3),
        Some("default"),
        Some(&data),
    ));
    assert_eq!(r.url, "https://api.sandbox.push.apple.com/3/device/dev1");
    assert_eq!(r.authorization, format!("bearer {}", cache.cached.unwrap().token));
    assert_eq!(r.topic, "com.example.myapp");
    assert_eq!(r.push_type, "alert");
    assert_eq!(
        r.payload,
        json(
            r#"{"aps":{"alert":{"title":"T","body":"B"},"badge":3,"sound":"default"},
            "data":{"txid":"ab"}}"#
        )
    );
}

#[test]
fn bare_alert_request() {
    let mut c = client();
    c.production = true;
    let mut cache = TokenCache::new();
    let r = request(c.send_notification(&mut cache, 7, "d", None, None, None, None, None));
    assert_eq!(r.url, "https://api.push.apple.com/3/device/d");
    assert_eq!(r.payload, json(r#"{"aps":{"alert":{}}}"#));
}

#[test]
fn live_activity_request() {
    let c = client();
    let mut cache = TokenCache::new();
    let state = LiveActivityContentState {
        confirmations: 0,
        status: "pending".to_string(),
        tx_id: "ab".to_string(),
        value_sat: Some(150000000),
        fee_sats: Some(1500),
        block_position: Some(BlockPosition::NextBlock),
    };
    let r = request(c.send_live_activity_update(
        &mut cache,
        1712345678,
        "act1",
        LiveActivityEvent::Update,
        &state,
        json("1.5"),
    ));
    assert_eq!(r.url, "https://api.sandbox.push.apple.com/3/device/act1");
    assert_eq!(r.topic, "com.example.myapp.push-type.liveactivity");
    assert_eq!(r.push_type, "liveactivity");
    assert_eq!(
        r.payload,
        json(
            r#"{"aps":{"event":"update","content-state":{"confirmations":0,"status":"pending",
            "txId":"ab","valueBtc":1.5,"feeSats":1500,"blockPosition":"NextBlock"},
            "timestamp":1712345678}}"#
        )
    );
}

#[test]
fn unknown_amounts_are_left_out() {
    let state = LiveActivityContentState {
        confirmations: 1,
        status: "confirmed".to_string(),
        tx_id: "ab".to_string(),
        value_sat: None,
        fee_sats: None,
        block_position: None,
    };
    assert_eq!(
        state.to_json(json("9.0")),
        json(r#"{"confirmations":1,"status":"confirmed","txId":"ab"}"#)
    );
}

#[test]
fn requests_fail_without_a_key() {
    let bad = ApnsBuilder::build(vars("no key")).unwrap();
    let mut cache = TokenCache::new();
    let r = bad.send_notification(&mut cache, 7, "d", None, None, None, None, None);
    assert!(matches!(r, Err(ApnsError::Jwt(_))));
}

#[test]
fn service_accepts() {
    assert_eq!(token(ApnsClient::post_reply(200, Some("id-1"), b"")), "id-1");
    assert_eq!(token(ApnsClient::post_reply(299, None, b"")), "");
}

#[test]
fn service_rejects() {
    let r = ApnsClient::post_reply(410, Some("id-1"), br#"{"reason":"Unregistered"}"#);
    match r {
        Err(ApnsError::Apns { code, reason }) => {
            assert_eq!((code, reason.as_str()), (410, "Unregistered"))
        }
        _ => panic!("not rejected"),
    }
    for body in ["", "{}", "[1]", r#"{"reason":5}"#] {
        match ApnsClient::post_reply(300, None, body.as_bytes()) {
            Err(ApnsError::Apns { code, reason }) => {
                assert_eq!((code, reason.as_str()), (300, "Unknown"))
            }
            _ => panic!("not rejected"),
        }
    }
    assert!(ApnsClient::post_reply(199, None, b"").is_err());
}

#[test]
fn reasons_of_rejections() {
    assert_eq!(reason_of(Some(&json(r#"{"reason":"BadTopic"}"#))), "BadTopic");
    assert_eq!(reason_of(Some(&json("null"))), "Unknown");
    assert_eq!(reason_of(None), "Unknown");
}

#[test]
fn apns_errors_in_words() {
    assert_eq!(ApnsError::Http("no route".to_string()).message(), "HTTP error: no route");
    assert_eq!(
        ApnsError::Apns { code: 410, reason: "Unregistered".to_string() }.message(),
        "APNS rejected the notification (HTTP 410): Unregistered"
    );
}
