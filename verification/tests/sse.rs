use mempool_monitor::mempool::{MempoolError, TxFee, TxStatus};
use mempool_monitor::sse::{
    can_poll, default_interval, default_stop_on_confirm, poll_once, poll_status, watch_tx, PollParams,
    SseEvent, StatusStep, StreamSettings, Tick, WatchRequest,
};
use mempool_monitor::watcher::notify::Delivery;
use serde_json::Value;

fn json(text: &str) -> Value {
    serde_json::from_str(text).unwrap()
}

fn status(confirmed: bool) -> TxStatus {
    TxStatus {
        confirmed,
        block_height: if confirmed { Some(880421) } else { None },
        block_hash: None,
        block_time: None,
    }
}

fn fee() -> TxFee {
    TxFee { fee: 1500, weight: 561, vsize: 141, value_sat: 9 }
}

fn done(step: StatusStep) -> Tick {
    match step {
        StatusStep::Done(tick) => tick,
        StatusStep::AskFee(_) => panic!("asks for the fee"),
    }
}

fn open(interval_secs: u64, stop_on_confirmed: bool) -> StreamSettings {
    let body = WatchRequest { tx_id: " ab ".to_string(), device_token: "dev1".to_string() };
    watch_tx(PollParams { interval_secs, stop_on_confirmed }, body)
}

fn settings(interval_secs: u64) -> (u64, u64) {
    let s = open(interval_secs, true);
    (s.interval_secs, s.keep_alive_secs)
}

#[test]
fn defaults_of_a_stream() {
    assert_eq!(default_interval(), 10);
    assert!(default_stop_on_confirm());
}

#[test]
fn interval_is_kept_in_bounds() {
    assert_eq!(settings(0), (5, 3));
    assert_eq!(settings(5), (5, 3));
    assert_eq!(settings(10), (10, 8));
    assert_eq!(settings(60), (60, 58));
    assert_eq!(settings(u64::MAX), (60, 58));
}

#[test]
fn stream_is_what_was_asked_for() {
    let s = open(9, false);
    assert_eq!((s.txid.as_str(), s.device_token.as_str()), (" ab ", "dev1"));
    assert!(!s.stop_on_confirmed);
    assert!(open(9, true).stop_on_confirmed);
}

#[test]
fn sse_event_names() {
    assert_eq!(SseEvent::TxStatus.as_str(), "tx_status");
    assert_eq!(SseEvent::Confirmed.as_str(), "confirmed");
    assert_eq!(SseEvent::NotFound.as_str(), "not_found");
    assert_eq!(SseEvent::Error.as_str(), "error");
}

#[test]
fn unknown_transaction_keeps_the_stream() {
    let tick = done(poll_status("ab", Err(MempoolError::NotFound)));
    assert_eq!(tick.frame.event, SseEvent::NotFound);
    assert_eq!(
        tick.frame.data,
        r#"{"message":"Transaction not found in mempool or blockchain","txid":"ab"}"#
    );
    assert!(!tick.terminal);
    assert!(tick.push.is_none());
}

#[test]
fn api_error_keeps_the_stream() {
    let tick = done(poll_status("ab", Err(MempoolError::ClientError(429))));
    assert_eq!(tick.frame.event, SseEvent::Error);
    assert_eq!(
        json(&tick.frame.data),
        json(r#"{"txid":"ab","message":"Client error from mempool API: HTTP 429"}"#)
    );
    assert!(!tick.terminal);
    assert!(matches!(poll_status("ab", Ok(status(true))), StatusStep::AskFee(s) if s.confirmed));
}

#[test]
fn pending_tick() {
    let tick = poll_once("ab", status(false), Ok(fee()), true, false, true, "dev1");
    assert_eq!(tick.frame.event, SseEvent::TxStatus);
    assert_eq!(
        tick.frame.data,
        [
            r#"{"txid":"ab","confirmed":false,"block_height":null,"block_hash":null,"#,
            r#""block_time":null,"fee":1500,"vsize":141}"#,
        ]
        .concat()
    );
    assert!(!tick.terminal);
    assert!(tick.push.is_none());
}

#[test]
fn confirmed_tick_ends_the_stream() {
    let unknown = Err(MempoolError::NotFound);
    let tick = poll_once("0123456789", status(true), unknown, true, false, true, "dev1");
    assert_eq!(tick.frame.event, SseEvent::Confirmed);
    assert_eq!(
        tick.frame.data,
        [
            r#"{"txid":"0123456789","confirmed":true,"block_height":880421,"block_hash":null,"#,
            r#""block_time":null,"fee":null,"vsize":null}"#,
        ]
        .concat()
    );
    assert!(tick.terminal);
    match tick.push {
        Some(Delivery::Alert { device_token, title, body }) => {
            assert_eq!(device_token, "dev1");
            assert_eq!(title, "Transação Confirmada");
            assert_eq!(body, "Sua transação foi incluída em um bloco: 01234567…");
        }
        _ => panic!("no alert"),
    }
}

#[test]
fn confirmed_tick_without_a_stop_goes_on() {
    let tick = poll_once("0123456789", status(true), Ok(fee()), false, false, true, "dev1");
    assert_eq!(tick.frame.event, SseEvent::Confirmed);
    assert!(!tick.terminal);
    assert!(tick.push.is_some());
    assert!(tick.told_after(false));
    let tick = poll_once("0123456789", status(true), Ok(fee()), false, true, true, "dev1");
    assert_eq!(tick.frame.event, SseEvent::TxStatus);
    assert_eq!(json(&tick.frame.data)["confirmed"], json("true"));
    assert!(!tick.terminal);
    assert!(tick.push.is_none());
    assert!(tick.told_after(true));
}

#[test]
fn confirmed_is_sent_once_in_a_stream() {
    let found = [false, true, true, false, true];
    let mut told = false;
    let mut events = Vec::new();
    let mut pushes = 0;
    for confirmed in found {
        let tick =
            poll_once("0123456789", status(confirmed), Ok(fee()), false, told, true, "dev1");
        told = tick.told_after(told);
        events.push(tick.frame.event.as_str());
        if tick.push.is_some() {
            pushes += 1;
        }
    }
    assert_eq!(events, ["tx_status", "confirmed", "tx_status", "tx_status", "tx_status"]);
    assert_eq!(pushes, 1);
}

#[test]
fn errors_tell_nothing() {
    let tick = done(poll_status("ab", Err(MempoolError::NotFound)));
    assert!(!tick.told_after(false));
    assert!(tick.told_after(true));
}

#[test]
fn nobody_to_notify() {
    assert!(poll_once("ab", status(true), Ok(fee()), true, false, false, "dev1").push.is_none());
    assert!(poll_once("ab", status(true), Ok(fee()), true, false, true, "").push.is_none());
}

#[test]
fn short_ids_cannot_be_named() {
    assert!(!can_poll("ab", &status(true), false, true, "dev1"));
    assert!(can_poll("ab", &status(true), true, true, "dev1"));
    assert!(can_poll("ab", &status(true), false, false, "dev1"));
    assert!(can_poll("ab", &status(true), false, true, ""));
    assert!(can_poll("ab", &status(false), false, true, "dev1"));
    assert!(can_poll("01234567", &status(true), false, true, "dev1"));
    assert!(!can_poll("0123456é", &status(true), false, true, "dev1"));
}
