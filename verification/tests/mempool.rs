use mempool_monitor::double::Double;
use mempool_monitor::mempool::{
    blocks_reply, chain_tip, tip_reply, tx_fee, tx_fee_reply, tx_status_reply, MempoolBlock,
    MempoolClient, MempoolError, TxEvent, TxFee, TxStatus,
};
use serde_json::Value;

fn json(text: &str) -> Value {
    serde_json::from_str(text).unwrap()
}

fn pending() -> TxStatus {
    TxStatus { confirmed: false, block_height: None, block_hash: None, block_time: None }
}

#[test]
fn network_selects_the_base_address() {
    assert_eq!(MempoolClient::new(Some("signet")).base_url, "https://mempool.space/signet/api");
    assert_eq!(MempoolClient::new(Some("Signet")).base_url, "https://mempool.space/api");
    assert_eq!(MempoolClient::new(None).base_url, "https://mempool.space/api");
}

#[test]
fn addresses_of_queries() {
    let c = MempoolClient::new(None);
    assert_eq!(c.fetch_tx_status("ab"), "https://mempool.space/api/tx/ab/status");
    assert_eq!(c.fetch_tx_fee("ab"), "https://mempool.space/api/tx/ab");
    assert_eq!(c.fetch_chain_tip(), "https://mempool.space/api/blocks/tip/height");
    assert_eq!(c.fetch_mempool_blocks(), "https://mempool.space/api/v1/fees/mempool-blocks");
}

#[test]
fn status_reply_by_http_status() {
    assert!(matches!(tx_status_reply(200, Ok(pending())), Ok(s) if !s.confirmed));
    assert!(matches!(tx_status_reply(404, Ok(pending())), Err(MempoolError::NotFound)));
    assert!(matches!(
        tx_status_reply(429, Err("x".to_string())),
        Err(MempoolError::ClientError(429))
    ));
    assert!(matches!(
        tx_status_reply(400, Err("x".to_string())),
        Err(MempoolError::ClientError(400))
    ));
    assert!(matches!(
        tx_status_reply(499, Err("x".to_string())),
        Err(MempoolError::ClientError(499))
    ));
    assert!(matches!(
        tx_status_reply(500, Err("down".to_string())),
        Err(MempoolError::Http(s)) if s == "down"
    ));
    assert!(matches!(
        tx_status_reply(200, Err("bad".to_string())),
        Err(MempoolError::Http(s)) if s == "bad"
    ));
}

#[test]
fn fee_reply_reads_the_transaction() {
    let body = r#"{"fee":1500,"weight":561,"vsize":141,"vout":[{"value":100},{"value":23},{"x":1}]}"#;
    let fee = tx_fee_reply(200, Ok(body.as_bytes().to_vec())).unwrap();
    assert_eq!((fee.fee, fee.weight, fee.vsize, fee.value_sat), (1500, 561, 141, 123));
}

#[test]
fn fee_reply_errors() {
    assert!(matches!(tx_fee_reply(404, Ok(vec![])), Err(MempoolError::NotFound)));
    assert!(matches!(tx_fee_reply(403, Ok(vec![])), Err(MempoolError::ClientError(403))));
    assert!(matches!(
        tx_fee_reply(503, Err("down".to_string())),
        Err(MempoolError::Http(s)) if s == "down"
    ));
    assert!(matches!(
        tx_fee_reply(200, Ok(b"no json".to_vec())),
        Err(MempoolError::Http(s)) if s == "error decoding response body"
    ));
}

#[test]
fn missing_members_of_a_transaction_are_zero() {
    for text in ["{}", "[]", "null", "7", r#"{"fee":"1","vsize":-1,"weight":1.5,"vout":{}}"#] {
        let fee = tx_fee(&json(text));
        assert_eq!((fee.fee, fee.weight, fee.vsize, fee.value_sat), (0, 0, 0, 0), "{}", text);
    }
}

#[test]
fn outputs_add_up_modulo_the_word() {
    let fee = tx_fee(&json(r#"{"vout":[{"value":18446744073709551615},{"value":3}]}"#));
    assert_eq!(fee.value_sat, 2);
}

#[test]
fn chain_tip_reads_the_height() {
    assert_eq!(chain_tip(" 880421\n"), 880421);
    assert_eq!(chain_tip("oops"), 0);
    assert_eq!(chain_tip(""), 0);
}

#[test]
fn tip_reply_by_http_status() {
    assert!(matches!(tip_reply(200, Ok("880421\n".to_string())), Ok(880421)));
    assert!(matches!(tip_reply(200, Ok("oops".to_string())), Ok(0)));
    for code in [400, 404, 429, 500, 599] {
        let refused = tip_reply(code, Err("down".to_string()));
        assert!(matches!(refused, Err(MempoolError::Http(s)) if s == "down"));
    }
    assert!(matches!(
        tip_reply(503, Ok("880421".to_string())),
        Err(MempoolError::Http(s)) if s == "HTTP status 503"
    ));
    assert!(matches!(tip_reply(600, Ok("7".to_string())), Ok(7)));
}

#[test]
fn blocks_reply_by_http_status() {
    let blocks = || {
        vec![MempoolBlock {
            block_vsize: Double::zero(),
            n_tx: 3,
            median_fee: Double::zero(),
            fee_range: vec![],
        }]
    };
    assert!(matches!(blocks_reply(200, Ok(blocks())), Ok(b) if b.len() == 1 && b[0].n_tx == 3));
    assert!(matches!(
        blocks_reply(404, Ok(blocks())),
        Err(MempoolError::Http(s)) if s == "HTTP status 404"
    ));
    assert!(matches!(
        blocks_reply(200, Err("bad".to_string())),
        Err(MempoolError::Http(s)) if s == "bad"
    ));
}

#[test]
fn bodies_of_failed_requests_do_not_count() {
    assert!(matches!(
        tx_status_reply(500, Ok(pending())),
        Err(MempoolError::Http(s)) if s == "HTTP status 500"
    ));
    assert!(matches!(
        tx_fee_reply(599, Ok(b"{}".to_vec())),
        Err(MempoolError::Http(s)) if s == "HTTP status 599"
    ));
}

#[test]
fn quote_of_unknown_size_has_rate_zero() {
    let ratio = Double { bits: (1500.0f64 / 141.0).to_bits() };
    let known = TxFee { fee: 1500, weight: 561, vsize: 141, value_sat: 7 };
    let q = known.quote(ratio);
    assert_eq!((q.fee_sats, q.value_sat, q.rate), (1500, 7, ratio));
    let unknown = TxFee { fee: 1500, weight: 561, vsize: 0, value_sat: 7 };
    assert_eq!(unknown.quote(ratio).rate, Double::zero());
}

#[test]
fn errors_in_words() {
    assert_eq!(MempoolError::NotFound.message(), "Transaction not found");
    assert_eq!(
        MempoolError::ClientError(429).message(),
        "Client error from mempool API: HTTP 429"
    );
    assert_eq!(
        MempoolError::Http("timed out".to_string()).message(),
        "HTTP request failed: timed out"
    );
}

#[test]
fn event_as_json() {
    let event = TxEvent {
        txid: "ab".to_string(),
        status: TxStatus {
            confirmed: true,
            block_height: Some(880421),
            block_hash: Some("00ff".to_string()),
            block_time: Some(1740000000),
        },
        fee: Some(1500),
        vsize: Some(141),
    };
    assert_eq!(
        event.to_json(),
        [
            r#"{"txid":"ab","confirmed":true,"block_height":880421,"block_hash":"00ff","#,
            r#""block_time":1740000000,"fee":1500,"vsize":141}"#,
        ]
        .concat()
    );
}

#[test]
fn unconfirmed_event_has_no_block() {
    let event = TxEvent {
        txid: "ab".to_string(),
        status: TxStatus {
            confirmed: false,
            block_height: Some(1),
            block_hash: Some("00".to_string()),
            block_time: Some(2),
        },
        fee: None,
        vsize: None,
    };
    assert_eq!(
        event.to_json(),
        [
            r#"{"txid":"ab","confirmed":false,"block_height":null,"block_hash":null,"#,
            r#""block_time":null,"fee":null,"vsize":null}"#,
        ]
        .concat()
    );
}
