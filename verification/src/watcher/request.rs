//! `POST /tx/watch`: registering a transaction to be watched.

use crate::apns::types;
use crate::apns::types::WatchStatus;
use crate::json;
use crate::mempool::{FeeQuote, MempoolBlock, MempoolError, TxStatus};
use crate::text;
use crate::watcher::lookup;
use crate::watcher::lookup::{LookupStage, LookupStep, TxLookup};
use crate::watcher::poll::{Watch, MAX_ATTEMPTS, POLL_INTERVAL_SECS};
use crate::watcher::position;
use crate::watcher::reply;
use crate::watcher::reply::{Query, Reply};
use crate::watcher::response;
use crate::watcher::response::WatchResponse;
use crate::watcher::txid;
use vstd::prelude::*;

verus! {

/// Body of `POST /tx/watch`.
#[derive(Debug, Clone)]
pub struct WatchRequest {
    /// Transaction id.
    pub tx_id: String,
    /// Token of the device, for alerts; may be empty.
    pub device_token: String,
    /// Token of a Live Activity that runs on the device, where there is one.
    pub activity_token: Option<String>,
}

/// How far a registration has come, by what it waits for.
#[derive(Debug, Clone, Copy)]
pub enum RequestStage {
    /// The status of the transaction.
    Status,
    /// The height of the best block, for a transaction in the block of this height.
    Tip { block_height: Option<u64> },
    /// The fee of a transaction: in a block with these confirmations, or pending.
    Fee { confirmed: Option<(u32, Option<u64>)> },
    /// The projected blocks, for a pending transaction with this quote.
    Blocks { quote: Option<FeeQuote> },
}

/// A registration under way.
#[derive(Debug)]
pub struct Registration {
    pub watch: Watch,
    pub stage: RequestStage,
}

/// What a registration does next.
#[derive(Debug)]
pub enum RequestStep {
    /// Ask this, and go on with the reply.
    Ask(Registration, Query),
    /// Answer with 200 and this body, and watch the transaction from now on.
    Accept(WatchResponse, Watch),
    /// Answer with this HTTP status and this body, and do no more.
    Refuse(u16, WatchResponse),
}

/// The token of the activity that a request names: without white space around it, and none if
/// nothing is left.
pub open spec fn activity_of(token: Option<String>) -> Option<Seq<char>> {
    match token {
        Some(t) => if text::trimmed(t@).len() > 0 {
            Some(text::trimmed(t@))
        } else {
            None
        },
        None => None,
    }
}

/// The message of an accepted registration.
pub open spec fn started_message() -> Seq<char> {
    "Monitoring started. APNS push will be sent on confirmation (polling every "@
        + text::decimal(POLL_INTERVAL_SECS as nat) + "s, max "@ + text::decimal(
        MAX_ATTEMPTS as nat,
    ) + " attempts)."@
}

fn started() -> (r: String)
    ensures
        r@ == started_message(),
{
    let mut out =
        "Monitoring started. APNS push will be sent on confirmation (polling every ".to_owned();
    text::push_decimal(&mut out, POLL_INTERVAL_SECS);
    out.append("s, max ");
    text::push_decimal(&mut out, MAX_ATTEMPTS as u64);
    out.append(" attempts).");
    out
}

impl RequestStep {
    /// The registration goes on with this question.
    pub open spec fn asks(self, watch: Watch, stage: RequestStage, query: Query) -> bool {
        self matches RequestStep::Ask(g, q) && g.watch == watch && g.stage == stage && q == query
            && g.query() == query
    }

    /// The registration is accepted with this answer.
    pub open spec fn accepts(self, watch: Watch, body: response::ResponseView) -> bool {
        self matches RequestStep::Accept(b, w) && w == watch && b@ == body
    }
}

/// What a registration does with a reply.
pub open spec fn request_step(g: Registration, reply: Reply, r: RequestStep) -> bool {
    let txid = g.watch.txid@;
    let message = Some(started_message());
    match (g.stage, reply) {
        (RequestStage::Status, Reply::Status(Ok(s))) => if s.confirmed {
            r.asks(g.watch, RequestStage::Tip { block_height: s.block_height }, Query::Tip)
        } else {
            r.asks(g.watch, RequestStage::Fee { confirmed: None }, Query::Fee)
        },
        (RequestStage::Status, Reply::Status(Err(_))) => r.accepts(
            g.watch,
            response::pending_answer(txid, None, None, message),
        ),
        (RequestStage::Tip { block_height }, Reply::Tip(tip)) => r.asks(
            g.watch,
            RequestStage::Fee {
                confirmed: Some((lookup::confirmations(block_height, tip), block_height)),
            },
            Query::Fee,
        ),
        (RequestStage::Fee { confirmed: Some((count, height)) }, Reply::Fee(fee)) => r.accepts(
            g.watch,
            response::confirmed_answer(txid, count, height, reply::quoted(fee), message),
        ),
        (RequestStage::Fee { confirmed: None }, Reply::Fee(fee)) => r.asks(
            g.watch,
            RequestStage::Blocks { quote: reply::quoted(fee) },
            Query::Blocks,
        ),
        (RequestStage::Blocks { quote }, Reply::Blocks(blocks)) => r.accepts(
            g.watch,
            response::pending_answer(
                txid,
                quote,
                Some(position::resolved_position(blocks, position::quoted_rate(quote))),
                message,
            ),
        ),
        _ => false,
    }
}

impl Registration {
    /// What the registration waits for.
    pub open spec fn query(self) -> Query {
        match self.stage {
            RequestStage::Status => Query::Status,
            RequestStage::Tip { .. } => Query::Tip,
            RequestStage::Fee { .. } => Query::Fee,
            RequestStage::Blocks { .. } => Query::Blocks,
        }
    }

    /// Whether the registration waits for this reply.
    pub fn expects(&self, reply: &Reply) -> (r: bool)
        ensures
            r == reply.answers(self.query()),
    {
        match self.stage {
            RequestStage::Status => reply.is_answer(Query::Status),
            RequestStage::Tip { .. } => reply.is_answer(Query::Tip),
            RequestStage::Fee { .. } => reply.is_answer(Query::Fee),
            RequestStage::Blocks { .. } => reply.is_answer(Query::Blocks),
        }
    }

    fn ask(watch: Watch, stage: RequestStage, query: Query) -> (r: RequestStep)
        requires
            (Registration { watch, stage }).query() == query,
        ensures
            r.asks(watch, stage, query),
    {
        RequestStep::Ask(Registration { watch, stage }, query)
    }

    /// Goes on with the reply to what the registration asked. It is accepted in any case: a
    /// transaction without a status may not have spread yet and counts as pending. For a confirmed
    /// transaction the best block is asked for and then the fee; for a pending one the fee and then
    /// the projected blocks.
    pub fn step(self, reply: Reply) -> (r: RequestStep)
        requires
            reply.answers(self.query()),
        ensures
            request_step(self, reply, r),
    {
        let watch = self.watch;
        match (self.stage, reply) {
            (RequestStage::Status, Reply::Status(Ok(s))) => if s.confirmed {
                Self::ask(watch, RequestStage::Tip { block_height: s.block_height }, Query::Tip)
            } else {
                Self::ask(watch, RequestStage::Fee { confirmed: None }, Query::Fee)
            },
            (RequestStage::Status, Reply::Status(Err(_))) => {
                let body = WatchResponse::pending(watch.txid.clone(), None, None, Some(started()));
                RequestStep::Accept(body, watch)
            },
            (RequestStage::Tip { block_height }, Reply::Tip(tip)) => {
                let count = lookup::count_confirmations(block_height, tip);
                let confirmed = Some((count, block_height));
                Self::ask(watch, RequestStage::Fee { confirmed }, Query::Fee)
            },
            (RequestStage::Fee { confirmed }, Reply::Fee(fee)) => {
                let quote = reply::quote_of(fee);
                match confirmed {
                    Some((count, height)) => {
                        let body = WatchResponse::confirmed(
                            watch.txid.clone(),
                            count,
                            height,
                            quote,
                            Some(started()),
                        );
                        RequestStep::Accept(body, watch)
                    },
                    None => Self::ask(watch, RequestStage::Blocks { quote }, Query::Blocks),
                }
            },
            (RequestStage::Blocks { quote }, Reply::Blocks(blocks)) => {
                let at = position::resolve_block_position(&blocks, position::rate_of(quote));
                let body = WatchResponse::pending(
                    watch.txid.clone(),
                    quote,
                    Some(at),
                    Some(started()),
                );
                RequestStep::Accept(body, watch)
            },
            _ => {
                assert(false);
                RequestStep::Refuse(502, WatchResponse::rejected(watch.txid, None))
            },
        }
    }
}

/// Starts the registration of a transaction; `apns` says whether there is a client to send
/// notifications. White space around the id and the tokens is dropped; what is then no transaction
/// id is answered with 400.
pub fn watch_tx(body: WatchRequest, apns: bool) -> (r: RequestStep)
    ensures
        if txid::is_txid(text::trimmed(body.tx_id@)) {
            r matches RequestStep::Ask(g, q) && q == Query::Status && g.stage
                == RequestStage::Status && g.watch.txid@ == text::trimmed(body.tx_id@)
                && g.watch.device_token@ == text::trimmed(body.device_token@)
                && json::optional_chars(g.watch.activity_token) == activity_of(body.activity_token)
                && g.watch.apns == apns
        } else {
            r matches RequestStep::Refuse(code, answer) && code == 400 && answer@
                == response::rejection(
                text::trimmed(body.tx_id@),
                Some(lookup::INVALID_TXID@),
            )
        },
{
    let txid = text::trim(body.tx_id.as_str());
    let device_token = text::trim(body.device_token.as_str());
    let activity_token = match &body.activity_token {
        Some(t) => {
            let t = text::trim(t.as_str());
            if t.as_str().is_empty() {
                None
            } else {
                Some(t)
            }
        },
        None => None,
    };
    if txid::is_valid(txid.as_str()) {
        let watch = Watch { txid, device_token, activity_token, apns };
        Registration::ask(watch, RequestStage::Status, Query::Status)
    } else {
        RequestStep::Refuse(
            400,
            WatchResponse::rejected(txid, Some(lookup::INVALID_TXID.to_owned())),
        )
    }
}

/// A registration that got as far as a question is never refused, and the watch that it starts is
/// the one that was asked for. The projected block is only told of a pending transaction.
pub proof fn registration_is_accepted(g: Registration, reply: Reply, r: RequestStep)
    requires
        request_step(g, reply, r),
    ensures
        r !is Refuse,
        r matches RequestStep::Ask(next, _) ==> next.watch == g.watch,
        r matches RequestStep::Accept(body, watch) ==> {
            &&& watch == g.watch
            &&& body@.ok
            &&& body@.tx_id == g.watch.txid@
            &&& body@.block_position is Some ==> body@.status == WatchStatus::Pending.name()
            &&& body@.status == WatchStatus::Pending.name() ==> body@.block_height is None
                && body@.confirmations == 0
        },
{
    types::status_names_differ(WatchStatus::Pending, WatchStatus::Confirmed);
}

/// The registration of a confirmed transaction tells its confirmations at that time, whatever comes
/// of the questions about the best block and the fee.
pub proof fn registration_of_confirmed(
    first: Registration,
    status: TxStatus,
    second: Registration,
    tip: Result<u64, MempoolError>,
    third: Registration,
    fee: Result<FeeQuote, MempoolError>,
    end: RequestStep,
)
    requires
        first.stage == RequestStage::Status,
        status.confirmed,
        request_step(first, Reply::Status(Ok(status)), RequestStep::Ask(second, Query::Tip)),
        request_step(second, Reply::Tip(tip), RequestStep::Ask(third, Query::Fee)),
        request_step(third, Reply::Fee(fee), end),
    ensures
        end.accepts(
            first.watch,
            response::confirmed_answer(
                first.watch.txid@,
                lookup::confirmations(status.block_height, tip),
                status.block_height,
                reply::quoted(fee),
                Some(started_message()),
            ),
        ),
{
}

/// A lookup and a registration of one transaction have come equally far.
pub open spec fn abreast(l: TxLookup, g: Registration) -> bool {
    &&& l.txid@ == g.watch.txid@
    &&& match (l.stage, g.stage) {
        (LookupStage::Status, RequestStage::Status) => true,
        (LookupStage::Tip { block_height: a }, RequestStage::Tip { block_height: b }) => a == b,
        (LookupStage::Fee { confirmed: a }, RequestStage::Fee { confirmed: b }) => a == b,
        (LookupStage::Blocks { quote: a }, RequestStage::Blocks { quote: b }) => a == b,
        _ => false,
    }
}

/// The answer of a registration is that of a lookup, but for the message.
pub open spec fn differ_in_message(looked_up: LookupStep, registered: RequestStep) -> bool {
    &&& looked_up matches LookupStep::Answer(code, a)
    &&& registered matches RequestStep::Accept(b, _)
    &&& code == 200
    &&& a@.message is None
    &&& b@ == (response::ResponseView { message: Some(started_message()), ..a@ })
}

/// A lookup and a registration of one transaction that get the same replies ask the same questions,
/// and their answers differ only in the message, unless its status is not to be had.
pub proof fn registration_follows_lookup(
    l: TxLookup,
    g: Registration,
    reply: Reply,
    looked_up: LookupStep,
    registered: RequestStep,
)
    requires
        abreast(l, g),
        !(reply matches Reply::Status(Err(_))),
        lookup::lookup_step(l, reply, looked_up),
        request_step(g, reply, registered),
    ensures
        match (looked_up, registered) {
            (LookupStep::Ask(l, asked), RequestStep::Ask(g, also_asked)) => asked == also_asked
                && abreast(l, g),
            _ => differ_in_message(looked_up, registered),
        },
{
}

/// For a pending transaction, a lookup and a registration with the same replies give answers that
/// differ only in the message.
pub proof fn pending_answers_differ_in_message(
    lookups: (TxLookup, TxLookup, TxLookup),
    looked_up: LookupStep,
    registrations: (Registration, Registration, Registration),
    registered: RequestStep,
    status: TxStatus,
    fee: Result<FeeQuote, MempoolError>,
    blocks: Result<Vec<MempoolBlock>, MempoolError>,
)
    requires
        abreast(lookups.0, registrations.0),
        lookups.0.stage == LookupStage::Status,
        !status.confirmed,
        lookup::lookup_step(
            lookups.0,
            Reply::Status(Ok(status)),
            LookupStep::Ask(lookups.1, Query::Fee),
        ),
        lookup::lookup_step(
            lookups.1,
            Reply::Fee(fee),
            LookupStep::Ask(lookups.2, Query::Blocks),
        ),
        lookup::lookup_step(lookups.2, Reply::Blocks(blocks), looked_up),
        request_step(
            registrations.0,
            Reply::Status(Ok(status)),
            RequestStep::Ask(registrations.1, Query::Fee),
        ),
        request_step(
            registrations.1,
            Reply::Fee(fee),
            RequestStep::Ask(registrations.2, Query::Blocks),
        ),
        request_step(registrations.2, Reply::Blocks(blocks), registered),
    ensures
        differ_in_message(looked_up, registered),
{
}

/// The most questions that a registration still asks, the open one among them.
pub open spec fn questions_left(stage: RequestStage) -> nat {
    match stage {
        RequestStage::Status => 3,
        RequestStage::Tip { .. } => 2,
        RequestStage::Fee { confirmed: None } => 2,
        RequestStage::Fee { confirmed: Some(_) } => 1,
        RequestStage::Blocks { .. } => 1,
    }
}

/// A registration asks at most three questions.
pub proof fn registration_ends(g: Registration, reply: Reply, after: Registration, query: Query)
    requires
        request_step(g, reply, RequestStep::Ask(after, query)),
    ensures
        questions_left(after.stage) < questions_left(g.stage) <= 3,
{
}

} // verus!
