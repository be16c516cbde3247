//! Lookups and registrations from the first question to the answer.

use crate::apns::types::BlockPosition;
use crate::mempool::{FeeQuote, MempoolBlock, MempoolError, TxStatus};
use crate::text;
use crate::watcher::lookup;
use crate::watcher::lookup::{LookupStage, LookupStep, TxLookup};
use crate::watcher::position;
use crate::watcher::reply::{Query, Reply};
use crate::watcher::request;
use crate::watcher::request::{Registration, RequestStage, RequestStep};
use crate::watcher::response;
use crate::watcher::response::WatchResponse;
use vstd::prelude::*;

verus! {

/// A transaction has as many confirmations as there are blocks from its own to the best one, both
/// counted, and one more with every block on top. The best block being behind, or not known, it has
/// one.
pub proof fn confirmations_count_blocks(height: u64, best: u64, e: MempoolError)
    ensures
        height <= best && best - height < 0xffff_ffff ==> lookup::confirmations(
            Some(height),
            Ok(best),
        ) == best - height + 1,
        height <= best < u64::MAX && best - height < 0xffff_fffe ==> lookup::confirmations(
            Some(height),
            Ok((best + 1) as u64),
        ) == lookup::confirmations(Some(height), Ok(best)) + 1,
        best < height ==> lookup::confirmations(Some(height), Ok(best)) == 1,
        lookup::confirmations(Some(height), Err(e)) == 1,
        lookup::confirmations(None, Err(e)) == 1,
        lookup::confirmations(None, Ok(best)) == lookup::confirmations(Some(0), Ok(best)),
{
}

/// Counts beyond thirty-two bits start again from zero.
pub proof fn confirmations_wrap(height: u64, best: u64)
    requires
        height <= best,
    ensures
        lookup::confirmations(Some(height), Ok(best)) == (best - height + 1) % 0x1_0000_0000,
{
}

/// The amounts of an answer are those of the fee that was read; none where it was not.
pub open spec fn tells_amounts(body: WatchResponse, fee: Result<FeeQuote, MempoolError>) -> bool {
    match fee {
        Ok(q) => body.value_sat == Some(q.value_sat) && body.fee_sats == Some(q.fee_sats),
        Err(_) => body.value_sat is None && body.fee_sats is None,
    }
}

/// The confirmations of an answer are the blocks from `height` to `best`, where both are known and
/// the count fits.
pub open spec fn tells_depth(
    body: WatchResponse,
    height: Option<u64>,
    best: Result<u64, MempoolError>,
) -> bool {
    match (height, best) {
        (Some(h), Ok(t)) => {
            &&& h <= t && t - h < 0xffff_ffff ==> body.confirmations == t - h + 1
            &&& t < h ==> body.confirmations == 1
        },
        (_, Err(_)) => body.confirmations == 1,
        (None, Ok(t)) => t < 0xffff_ffff ==> body.confirmations == t + 1,
    }
}

/// The position of an answer is the one that the fee and the blocks that were read give; none of
/// the next two where either was not.
pub open spec fn tells_position(
    body: WatchResponse,
    fee: Result<FeeQuote, MempoolError>,
    blocks: Result<Vec<MempoolBlock>, MempoolError>,
) -> bool {
    body.block_position == Some(
        match (fee, blocks) {
            (Ok(q), Ok(b)) => position::block_position(q.rate, b@),
            _ => BlockPosition::Other,
        },
    )
}

/// The lookup of a confirmed transaction asks for the best block and then the fee, and answers with
/// 200, its depth, its block and what is known of its fee, and with nothing of what concerns pending
/// ones.
pub proof fn lookups_of_confirmed(
    first: TxLookup,
    status: TxStatus,
    tip: Result<u64, MempoolError>,
    fee: Result<FeeQuote, MempoolError>,
    one: LookupStep,
    two: LookupStep,
    end: LookupStep,
)
    requires
        first.stage == LookupStage::Status,
        status.confirmed,
        lookup::lookup_step(first, Reply::Status(Ok(status)), one),
        one matches LookupStep::Ask(l, _) ==> lookup::lookup_step(l, Reply::Tip(tip), two),
        two matches LookupStep::Ask(l, _) ==> lookup::lookup_step(l, Reply::Fee(fee), end),
    ensures
        one matches LookupStep::Ask(_, q) && q == Query::Tip,
        two matches LookupStep::Ask(_, q) && q == Query::Fee,
        end matches LookupStep::Answer(code, body) && {
            &&& code == 200
            &&& body.ok
            &&& body.tx_id@ == first.txid@
            &&& body.status@ == "confirmed"@
            &&& body.block_height == status.block_height
            &&& body.block_position is None
            &&& body.message is None
            &&& tells_amounts(body, fee)
            &&& tells_depth(body, status.block_height, tip)
        },
{
}

/// The lookup of a pending transaction asks for the fee and then the projected blocks, and answers
/// with 200, no confirmations, no block, its position and what is known of its fee.
pub proof fn lookups_of_pending(
    first: TxLookup,
    status: TxStatus,
    fee: Result<FeeQuote, MempoolError>,
    blocks: Result<Vec<MempoolBlock>, MempoolError>,
    one: LookupStep,
    two: LookupStep,
    end: LookupStep,
)
    requires
        first.stage == LookupStage::Status,
        !status.confirmed,
        lookup::lookup_step(first, Reply::Status(Ok(status)), one),
        one matches LookupStep::Ask(l, _) ==> lookup::lookup_step(l, Reply::Fee(fee), two),
        two matches LookupStep::Ask(l, _) ==> lookup::lookup_step(l, Reply::Blocks(blocks), end),
    ensures
        one matches LookupStep::Ask(_, q) && q == Query::Fee,
        two matches LookupStep::Ask(_, q) && q == Query::Blocks,
        end matches LookupStep::Answer(code, body) && {
            &&& code == 200
            &&& body.ok
            &&& body.tx_id@ == first.txid@
            &&& body.confirmations == 0
            &&& body.status@ == "pending"@
            &&& body.block_height is None
            &&& body.message is None
            &&& tells_amounts(body, fee)
            &&& tells_position(body, fee, blocks)
        },
{
    crate::laws::double::doubles_compare_by_their_bits(
        position::quoted_rate(None),
        position::quoted_rate(None),
    );
}

/// An answer that a request failed: it names the transaction and tells nothing of it.
pub open spec fn tells_failure(body: WatchResponse, txid: Seq<char>) -> bool {
    &&& !body.ok
    &&& body.tx_id@ == txid
    &&& body.confirmations == 0
    &&& body.status@ == "failed"@
    &&& body.value_sat is None
    &&& body.fee_sats is None
    &&& body.block_height is None
    &&& body.block_position is None
}

/// The lookup of a transaction that the API does not know is answered with 404 and no message, and
/// one that fails for any other reason with 502 and the reason in words.
pub proof fn lookups_without_a_status(first: TxLookup, e: MempoolError, end: LookupStep)
    requires
        first.stage == LookupStage::Status,
        lookup::lookup_step(first, Reply::Status(Err(e)), end),
    ensures
        end matches LookupStep::Answer(code, body) && {
            &&& tells_failure(body, first.txid@)
            &&& e is NotFound ==> code == 404 && body.message is None
            &&& e !is NotFound ==> code == 502 && (body.message matches Some(m) && m@ == e.words())
        },
{
}

/// A rejected request is answered with nothing but the transaction and the message.
pub proof fn rejections_tell_nothing(body: WatchResponse, txid: Seq<char>, message: Option<Seq<char>>)
    requires
        body@ == response::rejection(txid, message),
    ensures
        tells_failure(body, txid),
        match message {
            Some(words) => body.message matches Some(m) && m@ == words,
            None => body.message is None,
        },
{
}

/// A question is answered by the reply of its kind, and lookups and registrations wait for the reply
/// to what they asked.
pub proof fn questions_have_their_replies(l: TxLookup, g: Registration, r: Reply)
    ensures
        r.answers(Query::Status) <==> r is Status,
        r.answers(Query::Tip) <==> r is Tip,
        r.answers(Query::Fee) <==> r is Fee,
        r.answers(Query::Blocks) <==> r is Blocks,
        r.answers(l.query()) <==> match l.stage {
            LookupStage::Status => r is Status,
            LookupStage::Tip { .. } => r is Tip,
            LookupStage::Fee { .. } => r is Fee,
            LookupStage::Blocks { .. } => r is Blocks,
        },
        r.answers(g.query()) <==> match g.stage {
            RequestStage::Status => r is Status,
            RequestStage::Tip { .. } => r is Tip,
            RequestStage::Fee { .. } => r is Fee,
            RequestStage::Blocks { .. } => r is Blocks,
        },
{
}

/// A lookup that asks waits for the reply to its question, about the same transaction.
pub proof fn lookups_wait_for_what_they_ask(l: TxLookup, reply: Reply, after: TxLookup, query: Query)
    requires
        lookup::lookup_step(l, reply, LookupStep::Ask(after, query)),
    ensures
        after.txid@ == l.txid@,
        forall|r: Reply| r.answers(query) ==> #[trigger] r.answers(after.query()),
{
}

/// A registration that asks waits for the reply to its question, about the same watch.
pub proof fn registrations_wait_for_what_they_ask(
    g: Registration,
    reply: Reply,
    after: Registration,
    query: Query,
)
    requires
        request::request_step(g, reply, RequestStep::Ask(after, query)),
    ensures
        after.watch == g.watch,
        forall|r: Reply| r.answers(query) ==> #[trigger] r.answers(after.query()),
{
}

/// The message of every accepted registration.
pub proof fn registrations_say_how_they_poll()
    ensures
        request::started_message()
            == "Monitoring started. APNS push will be sent on confirmation (polling every 30s, max 480 attempts)."@,
{
    reveal_strlit("Monitoring started. APNS push will be sent on confirmation (polling every ");
    reveal_strlit("s, max ");
    reveal_strlit(" attempts).");
    reveal_strlit(
        "Monitoring started. APNS push will be sent on confirmation (polling every 30s, max 480 attempts).",
    );
    reveal_with_fuel(text::decimal, 4);
    assert(text::decimal(30) =~= seq!['3', '0']);
    assert(text::decimal(480) =~= seq!['4', '8', '0']);
    assert(request::started_message()
        =~= "Monitoring started. APNS push will be sent on confirmation (polling every 30s, max 480 attempts)."@);
}

/// The registration of a confirmed transaction asks for the best block and then the fee, and is
/// accepted with its depth, its block and what is known of its fee.
pub proof fn registrations_of_confirmed(
    first: Registration,
    status: TxStatus,
    tip: Result<u64, MempoolError>,
    fee: Result<FeeQuote, MempoolError>,
    one: RequestStep,
    two: RequestStep,
    end: RequestStep,
)
    requires
        first.stage == RequestStage::Status,
        status.confirmed,
        request::request_step(first, Reply::Status(Ok(status)), one),
        one matches RequestStep::Ask(g, _) ==> request::request_step(g, Reply::Tip(tip), two),
        two matches RequestStep::Ask(g, _) ==> request::request_step(g, Reply::Fee(fee), end),
    ensures
        one matches RequestStep::Ask(_, q) && q == Query::Tip,
        two matches RequestStep::Ask(_, q) && q == Query::Fee,
        end matches RequestStep::Accept(body, watch) && {
            &&& watch == first.watch
            &&& body.ok
            &&& body.tx_id@ == first.watch.txid@
            &&& body.status@ == "confirmed"@
            &&& body.block_height == status.block_height
            &&& body.block_position is None
            &&& body.message matches Some(m) && m@ == request::started_message()
            &&& tells_amounts(body, fee)
            &&& tells_depth(body, status.block_height, tip)
        },
{
}

/// The registration of a pending transaction asks for the fee and then the projected blocks, and is
/// accepted with no confirmations, no block, its position and what is known of its fee.
pub proof fn registrations_of_pending(
    first: Registration,
    status: TxStatus,
    fee: Result<FeeQuote, MempoolError>,
    blocks: Result<Vec<MempoolBlock>, MempoolError>,
    one: RequestStep,
    two: RequestStep,
    end: RequestStep,
)
    requires
        first.stage == RequestStage::Status,
        !status.confirmed,
        request::request_step(first, Reply::Status(Ok(status)), one),
        one matches RequestStep::Ask(g, _) ==> request::request_step(g, Reply::Fee(fee), two),
        two matches RequestStep::Ask(g, _) ==> request::request_step(g, Reply::Blocks(blocks), end),
    ensures
        one matches RequestStep::Ask(_, q) && q == Query::Fee,
        two matches RequestStep::Ask(_, q) && q == Query::Blocks,
        end matches RequestStep::Accept(body, watch) && {
            &&& watch == first.watch
            &&& body.ok
            &&& body.tx_id@ == first.watch.txid@
            &&& body.confirmations == 0
            &&& body.status@ == "pending"@
            &&& body.block_height is None
            &&& body.message matches Some(m) && m@ == request::started_message()
            &&& tells_amounts(body, fee)
            &&& tells_position(body, fee, blocks)
        },
{
    crate::laws::double::doubles_compare_by_their_bits(
        position::quoted_rate(None),
        position::quoted_rate(None),
    );
}

/// A transaction whose status is not to be had, for whatever reason, is registered as pending, with
/// nothing known of its fee and its position.
pub proof fn registrations_without_a_status(first: Registration, e: MempoolError, end: RequestStep)
    requires
        first.stage == RequestStage::Status,
        request::request_step(first, Reply::Status(Err(e)), end),
    ensures
        end matches RequestStep::Accept(body, watch) && {
            &&& watch == first.watch
            &&& body.ok
            &&& body.tx_id@ == first.watch.txid@
            &&& body.confirmations == 0
            &&& body.status@ == "pending"@
            &&& body.value_sat is None
            &&& body.fee_sats is None
            &&& body.block_height is None
            &&& body.block_position is None
            &&& body.message matches Some(m) && m@ == request::started_message()
        },
{
}

/// The token of an activity is used without the white space around it; one that has nothing else is
/// none.
pub proof fn blank_activities_are_none(token: String)
    ensures
        request::activity_of(None) is None,
        request::activity_of(Some(token)) is None <==> text::trimmed(token@).len() == 0,
        request::activity_of(Some(token)) matches Some(t) ==> t == text::trimmed(token@),
{
}

} // verus!
