use mempool_monitor::apns::client::TokenCache;
use mempool_monitor::apns::builder::{ApnsBuilder, ApnsVars};
use mempool_monitor::apns::types::{BlockPosition, LiveActivityEvent};
use mempool_monitor::double::Double;
use mempool_monitor::mempool::{FeeQuote, MempoolBlock, MempoolError, TxStatus};
use mempool_monitor::watcher::lookup::LookupStep;
use mempool_monitor::watcher::notify::{send_live_activity, send_push, Delivery};
use mempool_monitor::watcher::poll::{
    background_poll, Notice, PollAction, PollState, Watch, MAX_ATTEMPTS, POLL_INTERVAL_SECS,
};
use mempool_monitor::watcher::reply::{Query, Reply};
use mempool_monitor::watcher::request::RequestStep;
use mempool_monitor::watcher::txid;
use mempool_monitor::watcher::{
    compute_block_position, get_tx, resolve_block_position, watch_tx, WatchRequest, WatchResponse,
};
use serde_json::Value;

const TXID: &str = "A1b2c3d4e5f60718293a4b5c6d7e8f90a1b2c3d4e5f60718293a4b5c6d7e8f90";

fn json(text: &str) -> Value {
    serde_json::from_str(text).unwrap()
}

fn double(x: f64) -> Double {
    Double { bits: x.to_bits() }
}

fn block(rates: &[f64]) -> MempoolBlock {
    MempoolBlock {
        block_vsize: double(1000000.0),
        n_tx: 3000,
        median_fee: double(4.0),
        fee_range: rates.iter().map(|x| double(*x)).collect(),
    }
}

fn quote() -> FeeQuote {
    FeeQuote { fee_sats: 1500, value_sat: 150000000, rate: double(10.5) }
}

fn status(confirmed: bool, block_height: Option<u64>) -> TxStatus {
    TxStatus { confirmed, block_height, block_hash: None, block_time: None }
}

fn watch(activity: Option<&str>) -> Watch {
    Watch {
        txid: TXID.to_string(),
        device_token: "dev1".to_string(),
        activity_token: activity.map(|s| s.to_string()),
        apns: true,
    }
}

fn answer(step: LookupStep) -> (u16, WatchResponse) {
    match step {
        LookupStep::Answer(code, body) => (code, body),
        LookupStep::Ask(..) => panic!("goes on"),
    }
}

fn look(step: LookupStep, query: Query, reply: Reply) -> LookupStep {
    match step {
        LookupStep::Ask(l, q) => {
            assert_eq!(q, query);
            assert!(l.expects(&reply));
            l.step(reply)
        }
        LookupStep::Answer(..) => panic!("is over"),
    }
}

fn register(step: RequestStep, query: Query, reply: Reply) -> RequestStep {
    match step {
        RequestStep::Ask(g, q) => {
            assert_eq!(q, query);
            assert!(g.expects(&reply));
            g.step(reply)
        }
        _ => panic!("is over"),
    }
}

fn request(activity: Option<&str>) -> WatchRequest {
    WatchRequest {
        tx_id: format!(" {TXID}\n"),
        device_token: " dev1 ".to_string(),
        activity_token: activity.map(|s| s.to_string()),
    }
}

fn go(w: &Watch, state: PollState, reply: Reply) -> (PollState, PollAction) {
    assert!(state.expects(&reply));
    w.step(state, reply)
}

#[test]
fn transaction_ids() {
    assert!(txid::is_valid(TXID));
    assert!(!txid::is_valid(&TXID[1..]));
    assert!(!txid::is_valid(&format!("{TXID}0")));
    assert!(!txid::is_valid(&format!("{TXID}\n")));
    assert!(!txid::is_valid(&format!("g{}", &TXID[1..])));
    assert!(!txid::is_valid(&"٣".repeat(64)));
    assert!(!txid::is_valid(""));
}

#[test]
fn position_by_fee_rate() {
    let blocks = vec![block(&[10.0, 50.0]), block(&[5.0, 10.0]), block(&[1.0])];
    assert_eq!(compute_block_position(double(10.0), &blocks), BlockPosition::NextBlock);
    assert_eq!(compute_block_position(double(9.99), &blocks), BlockPosition::SecondBlock);
    assert_eq!(compute_block_position(double(5.0), &blocks), BlockPosition::SecondBlock);
    assert_eq!(compute_block_position(double(4.0), &blocks), BlockPosition::Other);
    assert_eq!(compute_block_position(double(0.0), &blocks), BlockPosition::Other);
    assert_eq!(compute_block_position(double(10.0), &vec![]), BlockPosition::Other);
}

#[test]
fn position_without_minimum_rates() {
    let blocks = vec![block(&[]), block(&[0.0])];
    assert_eq!(compute_block_position(double(1.0), &blocks), BlockPosition::SecondBlock);
    assert_eq!(compute_block_position(double(0.0), &blocks), BlockPosition::Other);
    assert_eq!(compute_block_position(double(f64::NAN), &blocks), BlockPosition::Other);
}

#[test]
fn failed_question_about_blocks_gives_other() {
    let failed = Err(MempoolError::Http("x".to_string()));
    assert_eq!(resolve_block_position(&failed, double(99.0)), BlockPosition::Other);
    let blocks = Ok(vec![block(&[10.0])]);
    assert_eq!(resolve_block_position(&blocks, double(99.0)), BlockPosition::NextBlock);
}

#[test]
fn higher_rates_are_no_later() {
    let blocks = vec![block(&[10.0]), block(&[20.0])];
    assert_eq!(compute_block_position(double(15.0), &blocks), BlockPosition::NextBlock);
    assert_eq!(compute_block_position(double(25.0), &blocks), BlockPosition::NextBlock);
}

#[test]
fn lookup_of_no_transaction_id() {
    let (code, body) = answer(get_tx(" xyz "));
    assert_eq!(code, 400);
    assert_eq!(
        body.to_json(Value::Null),
        [
            r#"{"ok":false,"txId":"xyz","confirmations":0,"status":"failed","#,
            r#""message":"Invalid txId: must be exactly 64 hex characters"}"#,
        ]
        .concat()
    );
}

#[test]
fn lookup_of_unknown_transaction() {
    let start = get_tx(TXID);
    let (code, body) =
        answer(look(start, Query::Status, Reply::Status(Err(MempoolError::NotFound))));
    assert_eq!(code, 404);
    assert!(!body.ok);
    assert_eq!(body.status, "failed");
    assert!(body.message.is_none());
}

#[test]
fn lookup_while_the_api_fails() {
    let failed = Reply::Status(Err(MempoolError::ClientError(429)));
    let (code, body) = answer(look(get_tx(TXID), Query::Status, failed));
    assert_eq!(code, 502);
    assert_eq!(body.message.unwrap(), "Client error from mempool API: HTTP 429");
}

#[test]
fn lookup_of_confirmed_transaction() {
    let s = look(get_tx(TXID), Query::Status, Reply::Status(Ok(status(true, Some(880400)))));
    let s = look(s, Query::Tip, Reply::Tip(Ok(880421)));
    let (code, body) = answer(look(s, Query::Fee, Reply::Fee(Ok(quote()))));
    assert_eq!(code, 200);
    let expected = format!(
        r#"{{"ok":true,"txId":"{TXID}","confirmations":22,"status":"confirmed",{}"#,
        r#""valueBtc":1.5,"feeSats":1500,"blockHeight":880400}"#
    );
    assert_eq!(body.to_json(json("1.5")), expected);
}

fn confirmations(height: Option<u64>, tip: Result<u64, MempoolError>) -> u32 {
    let s = look(get_tx(TXID), Query::Status, Reply::Status(Ok(status(true, height))));
    let s = look(s, Query::Tip, Reply::Tip(tip));
    let failed = Reply::Fee(Err(MempoolError::NotFound));
    answer(look(s, Query::Fee, failed)).1.confirmations
}

#[test]
fn confirmations_are_counted() {
    assert_eq!(confirmations(Some(100), Ok(100)), 1);
    assert_eq!(confirmations(Some(100), Ok(99)), 1);
    assert_eq!(confirmations(Some(100), Err(MempoolError::NotFound)), 1);
    assert_eq!(confirmations(None, Ok(7)), 8);
    assert_eq!(confirmations(Some(0), Ok(4294967295)), 0);
    assert_eq!(confirmations(Some(0), Ok(u64::MAX)), 0);
}

#[test]
fn lookup_of_pending_transaction() {
    let s = look(get_tx(TXID), Query::Status, Reply::Status(Ok(status(false, Some(5)))));
    let s = look(s, Query::Fee, Reply::Fee(Ok(quote())));
    let blocks = Reply::Blocks(Ok(vec![block(&[20.0]), block(&[10.0])]));
    let (code, body) = answer(look(s, Query::Blocks, blocks));
    assert_eq!(code, 200);
    let expected = format!(
        r#"{{"ok":true,"txId":"{TXID}","confirmations":0,"status":"pending",{}"#,
        r#""valueBtc":1.5,"feeSats":1500,"blockPosition":"SecondBlock"}"#
    );
    assert_eq!(body.to_json(json("1.5")), expected);
}

#[test]
fn lookup_survives_failed_questions() {
    let s = look(get_tx(TXID), Query::Status, Reply::Status(Ok(status(false, None))));
    let s = look(s, Query::Fee, Reply::Fee(Err(MempoolError::NotFound)));
    let failed = Reply::Blocks(Err(MempoolError::Http("x".to_string())));
    let (code, body) = answer(look(s, Query::Blocks, failed));
    assert_eq!(code, 200);
    assert_eq!(body.block_position, Some(BlockPosition::Other));
    assert_eq!((body.value_sat, body.fee_sats), (None, None));
}

#[test]
fn registration_of_no_transaction_id() {
    let body = WatchRequest {
        tx_id: "xyz".to_string(),
        device_token: String::new(),
        activity_token: None,
    };
    match watch_tx(body, true) {
        RequestStep::Refuse(code, answer) => {
            assert_eq!(code, 400);
            assert_eq!(
                answer.message.unwrap(),
                "Invalid txId: must be exactly 64 hex characters"
            );
        }
        _ => panic!("accepted"),
    }
}

#[test]
fn registration_trims_its_input() {
    for (given, kept) in [(Some(" act1 "), Some("act1")), (Some("  "), None), (None, None)] {
        match watch_tx(request(given), true) {
            RequestStep::Ask(g, Query::Status) => {
                assert_eq!(g.watch.txid, TXID);
                assert_eq!(g.watch.device_token, "dev1");
                assert_eq!(g.watch.activity_token.as_deref(), kept);
                assert!(g.watch.apns);
            }
            _ => panic!("refused"),
        }
    }
}

#[test]
fn registration_of_unknown_transaction() {
    let failed = Reply::Status(Err(MempoolError::NotFound));
    match register(watch_tx(request(None), false), Query::Status, failed) {
        RequestStep::Accept(body, w) => {
            assert_eq!(w.txid, TXID);
            assert!(body.ok);
            assert_eq!(body.status, "pending");
            assert_eq!(body.block_position, None);
            assert_eq!(
                body.message.unwrap(),
                "Monitoring started. APNS push will be sent on confirmation (polling every 30s, \
                 max 480 attempts)."
            );
        }
        _ => panic!("not accepted"),
    }
}

fn register_confirmed(tip: Result<u64, MempoolError>) -> WatchResponse {
    let found = Reply::Status(Ok(status(true, Some(880421))));
    let s = register(watch_tx(request(None), true), Query::Status, found);
    let s = register(s, Query::Tip, Reply::Tip(tip));
    match register(s, Query::Fee, Reply::Fee(Ok(quote()))) {
        RequestStep::Accept(body, _) => body,
        _ => panic!("not accepted"),
    }
}

#[test]
fn registration_of_confirmed_transaction() {
    let body = register_confirmed(Ok(880430));
    assert!(body.ok);
    assert_eq!(body.confirmations, 10);
    assert_eq!(body.status, "confirmed");
    assert_eq!(body.block_height, Some(880421));
    assert_eq!(body.block_position, None);
    assert_eq!((body.value_sat, body.fee_sats), (Some(150000000), Some(1500)));
}

#[test]
fn registration_counts_confirmations() {
    assert_eq!(register_confirmed(Ok(880421)).confirmations, 1);
    assert_eq!(register_confirmed(Ok(7)).confirmations, 1);
    assert_eq!(register_confirmed(Err(MempoolError::NotFound)).confirmations, 1);
}

#[test]
fn lookup_and_registration_differ_in_the_message() {
    let l = look(get_tx(TXID), Query::Status, Reply::Status(Ok(status(false, None))));
    let l = look(l, Query::Fee, Reply::Fee(Ok(quote())));
    let blocks = || Reply::Blocks(Ok(vec![block(&[10.5])]));
    let (_, looked_up) = answer(look(l, Query::Blocks, blocks()));
    let found = Reply::Status(Ok(status(false, None)));
    let g = register(watch_tx(request(None), true), Query::Status, found);
    let g = register(g, Query::Fee, Reply::Fee(Ok(quote())));
    match register(g, Query::Blocks, blocks()) {
        RequestStep::Accept(mut registered, _) => {
            assert!(registered.message.is_some());
            registered.message = None;
            assert_eq!(registered.to_json(json("1.5")), looked_up.to_json(json("1.5")));
        }
        _ => panic!("not accepted"),
    }
}

#[test]
fn registration_of_pending_transaction() {
    let found = Reply::Status(Ok(status(false, None)));
    let s = register(watch_tx(request(Some("act1")), true), Query::Status, found);
    let s = register(s, Query::Fee, Reply::Fee(Ok(quote())));
    match register(s, Query::Blocks, Reply::Blocks(Ok(vec![block(&[10.5])]))) {
        RequestStep::Accept(body, w) => {
            assert_eq!(w.activity_token.unwrap(), "act1");
            assert_eq!(body.confirmations, 0);
            assert_eq!(body.status, "pending");
            assert_eq!(body.block_position, Some(BlockPosition::NextBlock));
        }
        _ => panic!("not accepted"),
    }
}

#[test]
fn watch_starts_with_a_pause() {
    assert!(matches!(
        background_poll(),
        (PollState::Sleeping { attempt: 1 }, PollAction::Sleep)
    ));
    assert_eq!(POLL_INTERVAL_SECS * MAX_ATTEMPTS as u64, 4 * 3600);
}

#[test]
fn pending_attempt() {
    let w = watch(Some("act1"));
    let (s, a) = go(&w, PollState::Sleeping { attempt: 1 }, Reply::Woke);
    assert!(matches!(a, PollAction::Ask(Query::Status)));
    let (s, a) = go(&w, s, Reply::Status(Ok(status(false, None))));
    assert!(matches!(a, PollAction::Ask(Query::Fee)));
    let (s, a) = go(&w, s, Reply::Fee(Ok(quote())));
    assert!(matches!(a, PollAction::Ask(Query::Blocks)));
    let (s, a) = go(&w, s, Reply::Blocks(Ok(vec![block(&[10.0])])));
    match a {
        PollAction::Notify(n) => match w.deliver(n) {
            Some(Delivery::Activity { token, event, state }) => {
                assert_eq!(token, "act1");
                assert_eq!(event, LiveActivityEvent::Update);
                assert_eq!(state.status, "pending");
                assert_eq!(state.confirmations, 0);
                assert_eq!(state.tx_id, TXID);
                assert_eq!((state.value_sat, state.fee_sats), (Some(150000000), Some(1500)));
                assert_eq!(state.block_position, Some(BlockPosition::NextBlock));
            }
            _ => panic!("no update"),
        },
        _ => panic!("no notice"),
    }
    assert!(matches!(
        go(&w, s, Reply::Notified),
        (PollState::Sleeping { attempt: 2 }, PollAction::Sleep)
    ));
}

fn confirm(w: &Watch, height: Option<u64>) -> (PollState, PollAction) {
    let (s, _) =
        go(w, PollState::AwaitStatus { attempt: 3 }, Reply::Status(Ok(status(true, height))));
    go(w, s, Reply::Fee(Err(MempoolError::NotFound)))
}

#[test]
fn confirmation_goes_to_the_activity() {
    let w = watch(Some("act1"));
    let (s, a) = confirm(&w, Some(880421));
    match a {
        PollAction::Notify(n) => match w.deliver(n) {
            Some(Delivery::Activity { event, state, .. }) => {
                assert_eq!(event, LiveActivityEvent::End);
                assert_eq!(state.status, "confirmed");
                assert_eq!(state.confirmations, 1);
                assert_eq!(state.block_position, None);
            }
            _ => panic!("no update"),
        },
        _ => panic!("no notice"),
    }
    assert!(matches!(go(&w, s, Reply::Notified), (PollState::Stopped, PollAction::Stop)));
}

fn alert(w: &Watch, a: PollAction) -> (String, String) {
    match a {
        PollAction::Notify(n) => {
            assert!(w.is_nameable());
            match w.deliver(n) {
                Some(Delivery::Alert { device_token, title, body }) => {
                    assert_eq!(device_token, w.device_token);
                    (title, body)
                }
                _ => panic!("no alert"),
            }
        }
        _ => panic!("no notice"),
    }
}

#[test]
fn confirmation_goes_to_the_device() {
    let w = watch(None);
    let (s, a) = confirm(&w, Some(880421));
    match a {
        PollAction::Notify(n) => assert!(w.deliver(n).is_none()),
        _ => panic!("no notice"),
    }
    let (s, a) = go(&w, s, Reply::Notified);
    let (title, body) = alert(&w, a);
    assert_eq!(title, "Transaction Confirmed ✓");
    assert_eq!(body, "Tx A1b2c3d4… included in block #880421");
    assert!(matches!(go(&w, s, Reply::Notified), (PollState::Stopped, PollAction::Stop)));
}

#[test]
fn confirmation_in_an_unknown_block() {
    let w = watch(None);
    let (s, _) = confirm(&w, None);
    let (_, a) = go(&w, s, Reply::Notified);
    assert_eq!(alert(&w, a).1, "Tx A1b2c3d4… included in a block");
}

#[test]
fn unsettled_attempts_are_repeated() {
    let w = watch(None);
    for e in [
        MempoolError::NotFound,
        MempoolError::Http("x".to_string()),
        MempoolError::ClientError(400),
        MempoolError::ClientError(429),
    ] {
        let next = go(&w, PollState::AwaitStatus { attempt: 9 }, Reply::Status(Err(e)));
        assert!(matches!(next, (PollState::Sleeping { attempt: 10 }, PollAction::Sleep)));
    }
    assert!(!PollState::Stopped.expects(&Reply::Notified));
}

#[test]
fn expiry_is_told() {
    let w = watch(Some("act1"));
    let unknown = Reply::Status(Err(MempoolError::NotFound));
    let (s, a) = go(&w, PollState::AwaitStatus { attempt: MAX_ATTEMPTS }, unknown);
    let (title, body) = alert(&w, a);
    assert_eq!(title, "Transaction monitoring expired");
    assert_eq!(body, "Tx A1b2c3d4… was not confirmed within 4 hours.");
    let (s, a) = go(&w, s, Reply::Notified);
    match a {
        PollAction::Notify(n) => match w.deliver(n) {
            Some(Delivery::Activity { event, state, .. }) => {
                assert_eq!(event, LiveActivityEvent::End);
                assert_eq!(state.status, "failed");
                assert_eq!(state.fee_sats, None);
            }
            _ => panic!("no update"),
        },
        _ => panic!("no notice"),
    }
    assert!(matches!(go(&w, s, Reply::Notified), (PollState::Stopped, PollAction::Stop)));
}

#[test]
fn expiry_without_an_activity() {
    let w = watch(None);
    let next = go(&w, PollState::Expiring, Reply::Notified);
    assert!(matches!(next, (PollState::Stopped, PollAction::Stop)));
}

/// Runs a watch whose attempt number `confirmed_at` finds the transaction confirmed, and the others
/// an error; counts the pauses and the reads of the status, and keeps the alerts.
fn run(confirmed_at: Option<u32>) -> (u32, u32, Vec<String>) {
    let w = watch(None);
    let (mut state, mut action) = background_poll();
    let mut pauses = 0;
    let mut reads = 0;
    let mut titles = Vec::new();
    loop {
        let reply = match action {
            PollAction::Sleep => {
                pauses += 1;
                Reply::Woke
            }
            PollAction::Ask(Query::Status) => {
                reads += 1;
                if Some(reads) == confirmed_at {
                    Reply::Status(Ok(status(true, Some(7))))
                } else {
                    Reply::Status(Err(MempoolError::ClientError(400)))
                }
            }
            PollAction::Ask(_) => Reply::Fee(Err(MempoolError::NotFound)),
            PollAction::Notify(n) => {
                if let Some(Delivery::Alert { title, .. }) = w.deliver(n) {
                    titles.push(title);
                }
                Reply::Notified
            }
            PollAction::Stop => break,
        };
        (state, action) = go(&w, state, reply);
    }
    (pauses, reads, titles)
}

#[test]
fn watch_without_a_status_ends() {
    let expired = vec!["Transaction monitoring expired".to_string()];
    assert_eq!(run(None), (480, 480, expired));
}

#[test]
fn watch_reads_the_status_until_it_is_confirmed() {
    let confirmed = vec!["Transaction Confirmed ✓".to_string()];
    for attempt in [1, 2, 480] {
        assert_eq!(run(Some(attempt)), (attempt, attempt, confirmed.clone()));
    }
}

#[test]
fn nobody_hears() {
    let mut w = watch(Some("act1"));
    w.apns = false;
    assert!(w.deliver(Notice::Expired).is_none());
    assert!(w.deliver(Notice::PushExpired).is_none());
    w.apns = true;
    w.device_token = String::new();
    assert!(w.deliver(Notice::PushExpired).is_none());
    assert!(w.deliver(Notice::Expired).is_some());
    assert!(send_push(true, "", "t", "b").is_none());
    assert!(send_push(false, "d", "t", "b").is_none());
    assert!(send_push(true, "d", "t", "b").is_some());
    let state = match w.deliver(Notice::Expired) {
        Some(Delivery::Activity { state, .. }) => state,
        _ => panic!("no update"),
    };
    assert!(send_live_activity(true, &None, LiveActivityEvent::End, state).is_none());
}

#[test]
fn short_ids_are_named_whole() {
    let mut w = watch(None);
    w.txid = "abc".to_string();
    assert!(w.is_nameable());
    let n = PollAction::Notify(Notice::PushConfirmed { block_height: 7 });
    assert_eq!(alert(&w, n).1, "Tx abc… included in block #7");
    w.txid = "1234567é".to_string();
    assert!(!w.is_nameable());
}

#[test]
fn deliveries_need_a_key() {
    let client = ApnsBuilder::build(ApnsVars {
        key_id: Some("K".to_string()),
        team_id: Some("T".to_string()),
        bundle_id: Some("b".to_string()),
        private_key: Some("no key".to_string()),
        production: None,
    })
    .unwrap();
    let mut cache = TokenCache::new();
    let w = watch(Some("act1"));
    for n in [Notice::Expired, Notice::PushExpired] {
        let d = w.deliver(n).unwrap();
        assert!(d.request(&client, &mut cache, 1, Value::Null).is_err());
    }
    let mut cache = TokenCache {
        cached: Some(mempool_monitor::apns::client::CachedToken {
            token: "t".to_string(),
            issued_at: 1,
        }),
    };
    match w.deliver(Notice::PushExpired).unwrap().request(&client, &mut cache, 2, Value::Null) {
        Ok(r) => {
            assert_eq!(r.authorization, "bearer t");
            assert_eq!(r.payload["aps"]["sound"], json(r#""default""#));
        }
        Err(_) => panic!("failed"),
    }
}
