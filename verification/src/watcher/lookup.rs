//! `GET /tx/:txid`: the state of a transaction at this moment.

use crate::apns::types;
use crate::apns::types::WatchStatus;
use crate::mempool::{FeeQuote, MempoolBlock, MempoolError, TxStatus};
use crate::text;
use crate::watcher::position;
use crate::watcher::reply;
use crate::watcher::reply::{Query, Reply};
use crate::watcher::response;
use crate::watcher::response::WatchResponse;
use crate::watcher::txid;
use vstd::prelude::*;

verus! {

/// The message for a transaction id that is none.
pub const INVALID_TXID: &'static str = "Invalid txId: must be exactly 64 hex characters";

/// How far a lookup has come, by what it waits for.
#[derive(Debug, Clone, Copy)]
pub enum LookupStage {
    /// The status of the transaction.
    Status,
    /// The height of the best block, for a transaction in the block of this height.
    Tip { block_height: Option<u64> },
    /// The fee of a transaction: in a block with these confirmations, or pending.
    Fee { confirmed: Option<(u32, Option<u64>)> },
    /// The projected blocks, for a pending transaction with this quote.
    Blocks { quote: Option<FeeQuote> },
}

/// A lookup under way.
#[derive(Debug)]
pub struct TxLookup {
    pub txid: String,
    pub stage: LookupStage,
}

/// What a lookup does next.
#[derive(Debug)]
pub enum LookupStep {
    /// Ask this, and go on with the reply.
    Ask(TxLookup, Query),
    /// Answer with this HTTP status and this body.
    Answer(u16, WatchResponse),
}

impl LookupStep {
    /// The lookup of `txid` goes on with this question.
    pub open spec fn asks(self, txid: Seq<char>, stage: LookupStage, query: Query) -> bool {
        self matches LookupStep::Ask(l, q) && l.txid@ == txid && l.stage == stage && q == query
            && l.query() == query
    }

    /// The lookup ends with this answer.
    pub open spec fn answers(self, code: u16, body: response::ResponseView) -> bool {
        self matches LookupStep::Answer(c, b) && c == code && b@ == body
    }
}

/// The number of blocks from the one at `block_height` to the best one, both counted, modulo two
/// to the 32nd. An unknown height counts as zero, and an unknown best block as that one.
pub open spec fn confirmations(block_height: Option<u64>, tip: Result<u64, MempoolError>) -> u32 {
    let height = match block_height {
        Some(h) => h,
        None => 0,
    };
    let best = match tip {
        Ok(t) => t,
        Err(_) => height,
    };
    ((if best > height {
        best - height + 1
    } else {
        1
    }) % 0x1_0000_0000) as u32
}

/// The confirmations of a transaction in the block at `block_height`.
pub(crate) fn count_confirmations(
    block_height: Option<u64>,
    tip: Result<u64, MempoolError>,
) -> (r: u32)
    ensures
        r == confirmations(block_height, tip),
{
    let height = match block_height {
        Some(h) => h,
        None => 0,
    };
    let best = match tip {
        Ok(t) => t,
        Err(_) => height,
    };
    if best > height {
        let blocks = (best - height).wrapping_add(1);
        assert(#[verifier::truncate] (blocks as u32) == blocks % 0x1_0000_0000) by (bit_vector);
        #[verifier::truncate]
        (blocks as u32)
    } else {
        1
    }
}

/// What a lookup does with a reply.
pub open spec fn lookup_step(l: TxLookup, reply: Reply, r: LookupStep) -> bool {
    match (l.stage, reply) {
        (LookupStage::Status, Reply::Status(Ok(s))) => if s.confirmed {
            r.asks(
                l.txid@,
                LookupStage::Tip { block_height: s.block_height },
                Query::Tip,
            )
        } else {
            r.asks(l.txid@, LookupStage::Fee { confirmed: None }, Query::Fee)
        },
        (LookupStage::Status, Reply::Status(Err(e))) => if e is NotFound {
            r.answers(404, response::rejection(l.txid@, None))
        } else {
            r.answers(502, response::rejection(l.txid@, Some(e.words())))
        },
        (LookupStage::Tip { block_height }, Reply::Tip(tip)) => r.asks(
            l.txid@,
            LookupStage::Fee {
                confirmed: Some((confirmations(block_height, tip), block_height)),
            },
            Query::Fee,
        ),
        (LookupStage::Fee { confirmed: Some((count, height)) }, Reply::Fee(fee)) => r.answers(
            200,
            response::confirmed_answer(
                l.txid@,
                count,
                height,
                reply::quoted(fee),
                None,
            ),
        ),
        (LookupStage::Fee { confirmed: None }, Reply::Fee(fee)) => r.asks(
            l.txid@,
            LookupStage::Blocks { quote: reply::quoted(fee) },
            Query::Blocks,
        ),
        (LookupStage::Blocks { quote }, Reply::Blocks(blocks)) => r.answers(
            200,
            response::pending_answer(
                l.txid@,
                quote,
                Some(position::resolved_position(blocks, position::quoted_rate(quote))),
                None,
            ),
        ),
        _ => false,
    }
}

impl TxLookup {
    /// What the lookup waits for.
    pub open spec fn query(self) -> Query {
        match self.stage {
            LookupStage::Status => Query::Status,
            LookupStage::Tip { .. } => Query::Tip,
            LookupStage::Fee { .. } => Query::Fee,
            LookupStage::Blocks { .. } => Query::Blocks,
        }
    }

    /// Whether the lookup waits for this reply.
    pub fn expects(&self, reply: &Reply) -> (r: bool)
        ensures
            r == reply.answers(self.query()),
    {
        match self.stage {
            LookupStage::Status => reply.is_answer(Query::Status),
            LookupStage::Tip { .. } => reply.is_answer(Query::Tip),
            LookupStage::Fee { .. } => reply.is_answer(Query::Fee),
            LookupStage::Blocks { .. } => reply.is_answer(Query::Blocks),
        }
    }

    fn ask(txid: String, stage: LookupStage, query: Query) -> (r: LookupStep)
        requires
            (TxLookup { txid, stage }).query() == query,
        ensures
            r.asks(txid@, stage, query),
    {
        LookupStep::Ask(TxLookup { txid, stage }, query)
    }

    /// Goes on with the reply to what the lookup asked. A transaction that the API does not know
    /// is answered with 404, any other error about its status with 502 and its words. For a
    /// confirmed transaction the best block is asked for and then the fee; for a pending one the
    /// fee and then the projected blocks. Errors after the first question only leave out what they
    /// are about.
    pub fn step(self, reply: Reply) -> (r: LookupStep)
        requires
            reply.answers(self.query()),
        ensures
            lookup_step(self, reply, r),
    {
        let txid = self.txid;
        match (self.stage, reply) {
            (LookupStage::Status, Reply::Status(Ok(s))) => if s.confirmed {
                Self::ask(txid, LookupStage::Tip { block_height: s.block_height }, Query::Tip)
            } else {
                Self::ask(txid, LookupStage::Fee { confirmed: None }, Query::Fee)
            },
            (LookupStage::Status, Reply::Status(Err(e))) => match e {
                MempoolError::NotFound => LookupStep::Answer(
                    404,
                    WatchResponse::rejected(txid, None),
                ),
                e => LookupStep::Answer(502, WatchResponse::rejected(txid, Some(e.message()))),
            },
            (LookupStage::Tip { block_height }, Reply::Tip(tip)) => {
                let count = count_confirmations(block_height, tip);
                let confirmed = Some((count, block_height));
                Self::ask(txid, LookupStage::Fee { confirmed }, Query::Fee)
            },
            (LookupStage::Fee { confirmed }, Reply::Fee(fee)) => {
                let quote = reply::quote_of(fee);
                match confirmed {
                    Some((count, height)) => LookupStep::Answer(
                        200,
                        WatchResponse::confirmed(txid, count, height, quote, None),
                    ),
                    None => Self::ask(txid, LookupStage::Blocks { quote }, Query::Blocks),
                }
            },
            (LookupStage::Blocks { quote }, Reply::Blocks(blocks)) => {
                let at = position::resolve_block_position(&blocks, position::rate_of(quote));
                LookupStep::Answer(200, WatchResponse::pending(txid, quote, Some(at), None))
            },
            _ => {
                assert(false);
                LookupStep::Answer(502, WatchResponse::rejected(txid, None))
            },
        }
    }
}

/// Starts the lookup of a transaction. White space around the id is dropped; what is then no
/// transaction id is answered with 400.
pub fn get_tx(txid: &str) -> (r: LookupStep)
    ensures
        if txid::is_txid(text::trimmed(txid@)) {
            r.asks(text::trimmed(txid@), LookupStage::Status, Query::Status)
        } else {
            r.answers(400, response::rejection(text::trimmed(txid@), Some(INVALID_TXID@)))
        },
{
    let txid = text::trim(txid);
    if txid::is_valid(txid.as_str()) {
        TxLookup::ask(txid, LookupStage::Status, Query::Status)
    } else {
        LookupStep::Answer(400, WatchResponse::rejected(txid, Some(INVALID_TXID.to_owned())))
    }
}

/// An answer succeeds exactly with status 200, and the projected block is only told of a pending
/// transaction, which has no block yet and no confirmations.
pub proof fn answers_are_consistent(l: TxLookup, reply: Reply, code: u16, body: WatchResponse)
    requires
        lookup_step(l, reply, LookupStep::Answer(code, body)),
    ensures
        body@.tx_id == l.txid@,
        body@.ok <==> code == 200,
        body@.ok <==> body@.status != WatchStatus::Failed.name(),
        body@.block_position is Some ==> body@.status == WatchStatus::Pending.name(),
        body@.status == WatchStatus::Pending.name() ==> body@.block_height is None
            && body@.confirmations == 0,
{
    types::status_names_differ(WatchStatus::Pending, WatchStatus::Confirmed);
    types::status_names_differ(WatchStatus::Pending, WatchStatus::Failed);
    types::status_names_differ(WatchStatus::Confirmed, WatchStatus::Failed);
}

/// The lookup of a confirmed transaction asks for its status, the best block and its fee, and
/// tells its confirmations, whatever comes of the last two questions.
pub proof fn lookup_of_confirmed(
    first: TxLookup,
    status: TxStatus,
    second: TxLookup,
    tip: Result<u64, MempoolError>,
    third: TxLookup,
    fee: Result<FeeQuote, MempoolError>,
    end: LookupStep,
)
    requires
        first.stage == LookupStage::Status,
        status.confirmed,
        lookup_step(first, Reply::Status(Ok(status)), LookupStep::Ask(second, Query::Tip)),
        lookup_step(second, Reply::Tip(tip), LookupStep::Ask(third, Query::Fee)),
        lookup_step(third, Reply::Fee(fee), end),
    ensures
        end.answers(
            200,
            response::confirmed_answer(
                first.txid@,
                confirmations(status.block_height, tip),
                status.block_height,
                reply::quoted(fee),
                None,
            ),
        ),
{
}

/// The lookup of a pending transaction asks for its status, its fee and the projected blocks, and
/// tells its position, whatever comes of the last two questions.
pub proof fn lookup_of_pending(
    first: TxLookup,
    status: TxStatus,
    second: TxLookup,
    fee: Result<FeeQuote, MempoolError>,
    third: TxLookup,
    blocks: Result<Vec<MempoolBlock>, MempoolError>,
    end: LookupStep,
)
    requires
        first.stage == LookupStage::Status,
        !status.confirmed,
        lookup_step(first, Reply::Status(Ok(status)), LookupStep::Ask(second, Query::Fee)),
        lookup_step(second, Reply::Fee(fee), LookupStep::Ask(third, Query::Blocks)),
        lookup_step(third, Reply::Blocks(blocks), end),
    ensures
        end.answers(
            200,
            response::pending_answer(
                first.txid@,
                reply::quoted(fee),
                Some(
                    position::resolved_position(
                        blocks,
                        position::quoted_rate(reply::quoted(fee)),
                    ),
                ),
                None,
            ),
        ),
{
}

/// The most questions that a lookup still asks, the open one among them.
pub open spec fn questions_left(stage: LookupStage) -> nat {
    match stage {
        LookupStage::Status => 3,
        LookupStage::Tip { .. } => 2,
        LookupStage::Fee { confirmed: None } => 2,
        LookupStage::Fee { confirmed: Some(_) } => 1,
        LookupStage::Blocks { .. } => 1,
    }
}

/// A lookup asks at most three questions.
pub proof fn lookup_ends(l: TxLookup, reply: Reply, after: TxLookup, query: Query)
    requires
        lookup_step(l, reply, LookupStep::Ask(after, query)),
    ensures
        questions_left(after.stage) < questions_left(l.stage) <= 3,
{
}

} // verus!
