use mempool_monitor::apns::builder::{ApnsBuilder, ApnsVars};
use mempool_monitor::apns::client::TokenCache;
use mempool_monitor::apns::error::ApnsError;
use mempool_monitor::push::{push_outcome, send_apns_push, PushRequest, PushResponse};
use serde_json::Value;

fn json(text: &str) -> Value {
    serde_json::from_str(text).unwrap()
}

fn order() -> PushRequest {
    PushRequest {
        device_token: "dev1".to_string(),
        title: Some("T".to_string()),
        body: None,
        badge: Some(1),
        sound: None,
        data: Some(json(r#"{"txid":"ab"}"#)),
    }
}

#[test]
fn push_without_a_client_is_unavailable() {
    let mut cache = TokenCache::new();
    match send_apns_push(None, &mut cache, 1, &order()) {
        Err((code, answer)) => {
            assert_eq!(code, 503);
            assert!(!answer.success);
            assert_eq!(
                answer.error.unwrap(),
                "APNS não configurado. Defina APNS_KEY_ID, APNS_TEAM_ID, APNS_BUNDLE_ID e \
                 APNS_PRIVATE_KEY_PATH."
            );
            assert!(answer.apns_id.is_none());
        }
        Ok(_) => panic!("accepted"),
    }
}

#[test]
fn push_without_a_key_fails() {
    let client = ApnsBuilder::build(ApnsVars {
        key_id: Some("K".to_string()),
        team_id: Some("T".to_string()),
        bundle_id: Some("b".to_string()),
        private_key: Some("no key".to_string()),
        production: None,
    })
    .unwrap();
    let mut cache = TokenCache::new();
    match send_apns_push(Some(&client), &mut cache, 1, &order()) {
        Err((code, answer)) => {
            assert_eq!(code, 502);
            assert_eq!(answer.error.unwrap(), "JWT error: InvalidKeyFormat");
        }
        Ok(_) => panic!("accepted"),
    }
}

#[test]
fn push_outcomes() {
    let (code, answer) = push_outcome(Ok("id-1".to_string()));
    assert_eq!(code, 200);
    assert_eq!(answer.to_json(), r#"{"success":true,"apns_id":"id-1"}"#);
    let (code, answer) = push_outcome(Err(ApnsError::Apns {
        code: 400,
        reason: "BadDeviceToken".to_string(),
    }));
    assert_eq!(code, 502);
    assert_eq!(
        answer.to_json(),
        r#"{"success":false,"error":"APNS rejected the notification (HTTP 400): BadDeviceToken"}"#
    );
    let (_, answer) = push_outcome(Err(ApnsError::Http("a \"b\"\n".to_string())));
    assert_eq!(answer.to_json(), r#"{"success":false,"error":"HTTP error: a \"b\"\n"}"#);
}

#[test]
fn push_answer_leaves_out_what_is_not_there() {
    let answer = PushResponse { success: true, apns_id: None, error: None };
    assert_eq!(answer.to_json(), r#"{"success":true}"#);
}
