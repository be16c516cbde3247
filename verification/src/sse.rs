//! Server-sent events: a stream that reports the state of a transaction at every tick.

use crate::json;
use crate::mempool;
use crate::mempool::{MempoolError, TxEvent, TxFee, TxStatus};
use crate::text;
use crate::watcher::notify;
use crate::watcher::notify::Delivery;
use vstd::prelude::*;

verus! {

/// Body of the request that opens a stream.
#[derive(Debug, Clone)]
pub struct WatchRequest {
    /// Transaction id.
    pub tx_id: String,
    /// Token of the device that is notified on confirmation.
    pub device_token: String,
}

/// Query parameters of the request that opens a stream.
#[derive(Debug, Clone, Copy)]
pub struct PollParams {
    /// Polling interval in seconds.
    pub interval_secs: u64,
    /// Whether the stream ends when the transaction is confirmed.
    pub stop_on_confirmed: bool,
}

/// Shortest polling interval in seconds.
pub const MIN_INTERVAL_SECS: u64 = 5;

/// Longest polling interval in seconds.
pub const MAX_INTERVAL_SECS: u64 = 60;

/// Polling interval in seconds where the request names none.
pub fn default_interval() -> (secs: u64)
    ensures
        secs == 10,
{
    10
}

/// Whether a stream ends on confirmation where the request does not say.
pub fn default_stop_on_confirm() -> (stop: bool)
    ensures
        stop,
{
    true
}

/// What a stream reports on, and how it runs.
#[derive(Debug, Clone)]
pub struct StreamSettings {
    /// Transaction id.
    pub txid: String,
    /// Token of the device that is notified on confirmation; may be empty.
    pub device_token: String,
    /// Seconds before each tick.
    pub interval_secs: u64,
    /// Seconds without an event after which a sign of life is sent.
    pub keep_alive_secs: u64,
    /// Whether the stream ends when the transaction is confirmed.
    pub stop_on_confirmed: bool,
}

/// The settings of the stream that a request asks for: the interval is kept between the shortest
/// and the longest, and signs of life come two seconds faster.
pub fn watch_tx(params: PollParams, body: WatchRequest) -> (r: StreamSettings)
    ensures
        r.txid@ == body.tx_id@,
        r.device_token@ == body.device_token@,
        r.interval_secs == (if params.interval_secs < MIN_INTERVAL_SECS {
            MIN_INTERVAL_SECS
        } else if params.interval_secs > MAX_INTERVAL_SECS {
            MAX_INTERVAL_SECS
        } else {
            params.interval_secs
        }),
        r.keep_alive_secs == r.interval_secs - 2,
        r.stop_on_confirmed == params.stop_on_confirmed,
{
    let interval_secs = if params.interval_secs < MIN_INTERVAL_SECS {
        MIN_INTERVAL_SECS
    } else if params.interval_secs > MAX_INTERVAL_SECS {
        MAX_INTERVAL_SECS
    } else {
        params.interval_secs
    };
    StreamSettings {
        txid: body.tx_id,
        device_token: body.device_token,
        interval_secs,
        keep_alive_secs: interval_secs - 2,
        stop_on_confirmed: params.stop_on_confirmed,
    }
}

/// Kinds of events.
#[derive(Debug, Clone, Copy, PartialEq, Eq, Structural)]
pub enum SseEvent {
    /// The transaction is pending in the mempool, or its confirmation was already reported.
    TxStatus,
    /// The transaction is in a block; sent once in a stream.
    Confirmed,
    /// The transaction is neither in the mempool nor in a block.
    NotFound,
    /// The API could not be asked.
    Error,
}

impl SseEvent {
    /// The name of the event on the wire.
    pub open spec fn name(self) -> Seq<char> {
        match self {
            SseEvent::TxStatus => "tx_status"@,
            SseEvent::Confirmed => "confirmed"@,
            SseEvent::NotFound => "not_found"@,
            SseEvent::Error => "error"@,
        }
    }

    /// The name of the event on the wire.
    pub fn as_str(self) -> (r: &'static str)
        ensures
            r@ == self.name(),
    {
        match self {
            SseEvent::TxStatus => "tx_status",
            SseEvent::Confirmed => "confirmed",
            SseEvent::NotFound => "not_found",
            SseEvent::Error => "error",
        }
    }
}

/// An event to send: its kind, and its data as JSON text.
#[derive(Debug)]
pub struct SseFrame {
    pub event: SseEvent,
    pub data: String,
}

/// What a tick comes to: the event, the notification that goes out before it, and whether the
/// stream ends after it.
#[derive(Debug)]
pub struct Tick {
    pub frame: SseFrame,
    pub push: Option<Delivery>,
    pub terminal: bool,
}

/// What the status of the transaction leaves to do in a tick.
#[derive(Debug)]
pub enum StatusStep {
    /// Nothing: this is the tick.
    Done(Tick),
    /// To ask for the fee; [`poll_once`] ends the tick.
    AskFee(TxStatus),
}

impl Tick {
    /// Whether the stream has sent `confirmed` by the end of this tick, where `told` says whether
    /// it had before.
    pub fn told_after(&self, told: bool) -> (r: bool)
        ensures
            r == (told || self.frame.event == SseEvent::Confirmed),
    {
        told || self.frame.event == SseEvent::Confirmed
    }
}

/// The status was read, and the transaction is in a block.
pub open spec fn is_confirmed(status: Result<TxStatus, MempoolError>) -> bool {
    status matches Ok(s) && s.confirmed
}

/// The kind of event that a tick with this status sends, where `told` says whether an earlier tick
/// of the stream sent `confirmed`.
pub open spec fn event_of(status: Result<TxStatus, MempoolError>, told: bool) -> SseEvent {
    match status {
        Ok(s) => if s.confirmed && !told {
            SseEvent::Confirmed
        } else {
            SseEvent::TxStatus
        },
        Err(MempoolError::NotFound) => SseEvent::NotFound,
        Err(_) => SseEvent::Error,
    }
}

/// The stream ends after a tick with this status.
pub open spec fn ends_stream(
    status: Result<TxStatus, MempoolError>,
    stop_on_confirmed: bool,
) -> bool {
    is_confirmed(status) && stop_on_confirmed
}

/// The JSON of an event that reports a problem with a transaction.
pub open spec fn problem(txid: Seq<char>, message: Seq<char>) -> json::JsonView {
    json::JsonView::Object(
        map![
            "txid"@ => json::JsonView::Text(txid),
            "message"@ => json::JsonView::Text(message),
        ],
    )
}

/// The message of an event for an unknown transaction.
pub const UNKNOWN_TX: &'static str = "Transaction not found in mempool or blockchain";

fn problem_text(txid: &str, message: &str) -> (r: String)
    ensures
        r@ == json::json_text(problem(txid@, message@)),
{
    let mut payload = json::object();
    json::set_member(&mut payload, "txid", json::text_value(txid));
    json::set_member(&mut payload, "message", json::text_value(message));
    json::to_text(&payload)
}

/// What a tick does with the status of the transaction. Where there is none, the tick reports
/// that, and the stream goes on.
pub fn poll_status(txid: &str, status: Result<TxStatus, MempoolError>) -> (r: StatusStep)
    ensures
        match status {
            Ok(s) => r == StatusStep::AskFee(s),
            Err(e) => r matches StatusStep::Done(tick) && tick.push is None && !tick.terminal
                && tick.frame.event == (if e is NotFound {
                SseEvent::NotFound
            } else {
                SseEvent::Error
            }) && tick.frame.data@ == json::json_text(
                problem(
                    txid@,
                    if e is NotFound {
                        UNKNOWN_TX@
                    } else {
                        e.words()
                    },
                ),
            ),
        },
{
    match status {
        Ok(s) => StatusStep::AskFee(s),
        Err(MempoolError::NotFound) => StatusStep::Done(
            Tick {
                frame: SseFrame {
                    event: SseEvent::NotFound,
                    data: problem_text(txid, UNKNOWN_TX),
                },
                push: None,
                terminal: false,
            },
        ),
        Err(e) => StatusStep::Done(
            Tick {
                frame: SseFrame {
                    event: SseEvent::Error,
                    data: problem_text(txid, e.message().as_str()),
                },
                push: None,
                terminal: false,
            },
        ),
    }
}

/// Title of the notification on confirmation.
pub const CONFIRMED_TITLE: &'static str = "Transação Confirmada";

/// The device is to be notified: the transaction is confirmed, which no earlier tick told, and
/// there is a client and a device.
pub open spec fn notifies(
    status: TxStatus,
    told: bool,
    apns: bool,
    device_token: Seq<char>,
) -> bool {
    status.confirmed && !told && apns && device_token.len() > 0
}

/// Whether a tick with this status can be made: the notification, if there is one, can name the
/// transaction.
pub fn can_poll(txid: &str, status: &TxStatus, told: bool, apns: bool, device_token: &str) -> (r:
    bool)
    ensures
        r == (notifies(*status, told, apns, device_token@) ==> text::can_cut(txid@, 8)),
{
    !(status.confirmed && !told && apns && !device_token.is_empty()) || txid.is_char_boundary(8)
}

/// The fee and the size that an event reports.
pub open spec fn reported(fee: Result<TxFee, MempoolError>) -> (Option<u64>, Option<u64>) {
    match fee {
        Ok(f) => (Some(f.fee), Some(f.vsize)),
        Err(_) => (None, None),
    }
}

/// What a tick does once the status of the transaction is known and its fee was asked for. `told`
/// says whether an earlier tick of the stream sent `confirmed`, which is sent and notified once;
/// `apns` whether there is a client to send notifications.
pub fn poll_once(
    txid: &str,
    status: TxStatus,
    fee: Result<TxFee, MempoolError>,
    stop_on_confirmed: bool,
    told: bool,
    apns: bool,
    device_token: &str,
) -> (r: Tick)
    requires
        notifies(status, told, apns, device_token@) ==> text::can_cut(txid@, 8),
    ensures
        r.frame.event == event_of(Ok(status), told),
        r.frame.event == SseEvent::Confirmed <==> status.confirmed && !told,
        r.terminal == ends_stream(Ok(status), stop_on_confirmed),
        r.frame.data@ == json::object_text(
            mempool::event_members(txid@, status, reported(fee).0, reported(fee).1),
        ),
        r.push is Some <==> notifies(status, told, apns, device_token@),
        r.push matches Some(d) ==> (d matches Delivery::Alert { device_token: t, title, body } && t@
            == device_token@ && title@ == CONFIRMED_TITLE@ && body@
            == "Sua transação foi incluída em um bloco: "@ + text::cut(txid@, 8) + "…"@),
{
    let confirmed = status.confirmed;
    let (fee, vsize) = match fee {
        Ok(f) => (Some(f.fee), Some(f.vsize)),
        Err(_) => (None, None),
    };
    let event = TxEvent { txid: txid.to_owned(), status, fee, vsize };
    let data = event.to_json();
    if confirmed && !told {
        let push = if apns && !device_token.is_empty() {
            let mut body = "Sua transação foi incluída em um bloco: ".to_owned();
            body.append(text::cut_str(txid, 8).as_str());
            body.append("…");
            notify::send_push(apns, device_token, CONFIRMED_TITLE, body.as_str())
        } else {
            None
        };
        Tick {
            frame: SseFrame { event: SseEvent::Confirmed, data },
            push,
            terminal: stop_on_confirmed,
        }
    } else {
        Tick {
            frame: SseFrame { event: SseEvent::TxStatus, data },
            push: None,
            terminal: confirmed && stop_on_confirmed,
        }
    }
}

/// The events of a stream whose ticks find these statuses: one a tick, until one ends the stream.
/// `told` says whether an earlier tick sent `confirmed`.
pub open spec fn stream(
    statuses: Seq<Result<TxStatus, MempoolError>>,
    stop_on_confirmed: bool,
    told: bool,
) -> Seq<SseEvent>
    decreases statuses.len(),
{
    if statuses.len() == 0 {
        seq![]
    } else {
        let event = event_of(statuses.first(), told);
        if ends_stream(statuses.first(), stop_on_confirmed) {
            seq![event]
        } else {
            seq![event] + stream(
                statuses.drop_first(),
                stop_on_confirmed,
                told || event == SseEvent::Confirmed,
            )
        }
    }
}

/// A stream that sent `confirmed` does not send it again.
proof fn lemma_not_told_again(
    statuses: Seq<Result<TxStatus, MempoolError>>,
    stop_on_confirmed: bool,
    i: int,
)
    requires
        0 <= i < stream(statuses, stop_on_confirmed, true).len(),
    ensures
        stream(statuses, stop_on_confirmed, true)[i] != SseEvent::Confirmed,
    decreases statuses.len(),
{
    if i > 0 {
        lemma_not_told_again(statuses.drop_first(), stop_on_confirmed, i - 1);
    }
}

/// A stream sends `confirmed` at most once, whether it stops on confirmation or goes on.
pub proof fn confirmed_is_sent_once(
    statuses: Seq<Result<TxStatus, MempoolError>>,
    stop_on_confirmed: bool,
    told: bool,
    i: int,
    j: int,
)
    requires
        0 <= i < j < stream(statuses, stop_on_confirmed, told).len(),
        stream(statuses, stop_on_confirmed, told)[i] == SseEvent::Confirmed,
    ensures
        stream(statuses, stop_on_confirmed, told)[j] != SseEvent::Confirmed,
    decreases statuses.len(),
{
    let event = event_of(statuses.first(), told);
    if i == 0 {
        lemma_not_told_again(statuses.drop_first(), stop_on_confirmed, j - 1);
    } else {
        confirmed_is_sent_once(
            statuses.drop_first(),
            stop_on_confirmed,
            told || event == SseEvent::Confirmed,
            i - 1,
            j - 1,
        );
    }
}

/// A stream that stops on confirmation sends `confirmed` as its last event.
pub proof fn confirmed_is_last(statuses: Seq<Result<TxStatus, MempoolError>>, i: int)
    requires
        0 <= i < stream(statuses, true, false).len(),
        stream(statuses, true, false)[i] == SseEvent::Confirmed,
    ensures
        i == stream(statuses, true, false).len() - 1,
    decreases statuses.len(),
{
    if !ends_stream(statuses.first(), true) && i > 0 {
        confirmed_is_last(statuses.drop_first(), i - 1);
    }
}

/// The first tick that finds the transaction confirmed sends `confirmed`, and a stream that stops
/// on confirmation runs up to it and no further.
pub proof fn stream_reaches_confirmation(
    statuses: Seq<Result<TxStatus, MempoolError>>,
    stop_on_confirmed: bool,
    k: int,
)
    requires
        0 <= k < statuses.len(),
        is_confirmed(statuses[k]),
        forall|i: int| 0 <= i < k ==> !is_confirmed(#[trigger] statuses[i]),
    ensures
        k < stream(statuses, stop_on_confirmed, false).len(),
        stream(statuses, stop_on_confirmed, false)[k] == SseEvent::Confirmed,
        stop_on_confirmed ==> stream(statuses, stop_on_confirmed, false).len() == k + 1,
    decreases statuses.len(),
{
    assert(statuses[0] == statuses.first());
    if k > 0 {
        let rest = statuses.drop_first();
        assert forall|i: int| 0 <= i < rest.len() implies rest[i] == statuses[i + 1] by {}
        stream_reaches_confirmation(rest, stop_on_confirmed, k - 1);
    }
}

/// A tick before number `i` found the transaction confirmed.
pub open spec fn confirmed_before(
    statuses: Seq<Result<TxStatus, MempoolError>>,
    i: int,
) -> bool {
    exists|k: int| 0 <= k < i && k < statuses.len() && is_confirmed(#[trigger] statuses[k])
}

/// Nothing but a confirmation ends a stream: while none is found, and for a stream that does not
/// stop on one, every tick sends its event.
pub proof fn only_confirmation_ends(
    statuses: Seq<Result<TxStatus, MempoolError>>,
    stop_on_confirmed: bool,
    told: bool,
)
    requires
        !stop_on_confirmed || forall|i: int|
            0 <= i < statuses.len() ==> !is_confirmed(#[trigger] statuses[i]),
    ensures
        stream(statuses, stop_on_confirmed, told).len() == statuses.len(),
        forall|i: int|
            0 <= i < statuses.len() ==> stream(statuses, stop_on_confirmed, told)[i] == event_of(
                #[trigger] statuses[i],
                told || confirmed_before(statuses, i),
            ),
    decreases statuses.len(),
{
    if statuses.len() > 0 {
        let rest = statuses.drop_first();
        let event = event_of(statuses.first(), told);
        let told_by_then = told || event == SseEvent::Confirmed;
        assert forall|i: int| 0 <= i < rest.len() implies rest[i] == statuses[i + 1] by {}
        assert(statuses[0] == statuses.first());
        only_confirmation_ends(rest, stop_on_confirmed, told_by_then);
        assert forall|i: int| 0 <= i < statuses.len() implies stream(
            statuses,
            stop_on_confirmed,
            told,
        )[i] == event_of(#[trigger] statuses[i], told || confirmed_before(statuses, i)) by {
            if i > 0 {
                assert(rest[i - 1] == statuses[i]);
                if confirmed_before(rest, i - 1) {
                    let k = choose|k: int|
                        0 <= k < i - 1 && k < rest.len() && is_confirmed(#[trigger] rest[k]);
                    assert(is_confirmed(statuses[k + 1]));
                }
                if confirmed_before(statuses, i) {
                    let k = choose|k: int|
                        0 <= k < i && k < statuses.len() && is_confirmed(#[trigger] statuses[k]);
                    if k > 0 {
                        assert(is_confirmed(rest[k - 1]));
                    }
                }
            }
        }
    }
}

} // verus!
