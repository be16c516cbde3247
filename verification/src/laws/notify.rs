//! Notifications about a watched transaction: who gets them and what they say.

use crate::apns::client::{ApnsClient, ApnsRequest};
use crate::apns::types::{BlockPosition, LiveActivityContentState, LiveActivityEvent, WatchStatus};
use crate::json;
use crate::json::JsonView;
use crate::mempool::{FeeQuote, MempoolError};
use crate::text;
use crate::watcher::notify::Delivery;
use crate::watcher::poll::{Notice, Watch};
use crate::watcher::reply;
use crate::watcher::txid;
use vstd::prelude::*;

verus! {

/// News for the device are heard where there is a device, news for the activity where there is one,
/// and neither without a client.
pub proof fn notices_reach_whom_they_are_for(
    w: Watch,
    quote: Option<FeeQuote>,
    position: BlockPosition,
    block_height: u64,
)
    ensures
        ({
            let to_device = w.apns && w.device_token@.len() > 0;
            let to_activity = w.apns && w.activity_token is Some;
            &&& w.hears(Notice::PushConfirmed { block_height }) == to_device
            &&& w.hears(Notice::PushExpired) == to_device
            &&& w.hears(Notice::Pending { quote, position }) == to_activity
            &&& w.hears(Notice::Confirmed { quote }) == to_activity
            &&& w.hears(Notice::Expired) == to_activity
            &&& (Notice::PushConfirmed { block_height }).to_device()
            &&& Notice::PushExpired.to_device()
            &&& !(Notice::Pending { quote, position }).to_device()
            &&& !(Notice::Confirmed { quote }).to_device()
            &&& !Notice::Expired.to_device()
        }),
{
}

/// The amounts that an activity shows are those of the quote; none without one.
pub open spec fn shows_amounts(state: LiveActivityContentState, quote: Option<FeeQuote>) -> bool {
    match quote {
        Some(q) => state.value_sat == Some(q.value_sat) && state.fee_sats == Some(q.fee_sats),
        None => state.value_sat is None && state.fee_sats is None,
    }
}

/// While the transaction is pending an activity is updated with its fee and its position; when it is
/// confirmed the activity ends with one confirmation, and when it is given up with none and nothing
/// else. Each goes to the activity of the watch and names its transaction.
pub proof fn activities_show_the_transaction(w: Watch, notice: Notice, d: Delivery)
    requires
        !notice.to_device(),
        w.activity_token is Some,
        w.is_update(notice, d),
    ensures
        d matches Delivery::Activity { token, event, state } && {
            &&& token@ == w.activity_token->0@
            &&& state.tx_id@ == w.txid@
            &&& match notice {
                Notice::Pending { quote, position } => {
                    &&& event == LiveActivityEvent::Update
                    &&& state.status@ == "pending"@
                    &&& state.confirmations == 0
                    &&& state.block_position == Some(position)
                    &&& shows_amounts(state, quote)
                },
                Notice::Confirmed { quote } => {
                    &&& event == LiveActivityEvent::End
                    &&& state.status@ == "confirmed"@
                    &&& state.confirmations == 1
                    &&& state.block_position is None
                    &&& shows_amounts(state, quote)
                },
                Notice::Expired => {
                    &&& event == LiveActivityEvent::End
                    &&& state.status@ == "failed"@
                    &&& state.confirmations == 0
                    &&& state.block_position is None
                    &&& shows_amounts(state, None)
                },
                _ => false,
            }
        },
{
}

/// An alert goes to the device of the watch. On confirmation it tells the block, by its height where
/// that is known; when the transaction was given up it tells that.
pub proof fn alerts_name_the_transaction(w: Watch, notice: Notice, d: Delivery)
    requires
        notice.to_device(),
        w.is_alert(notice, d),
    ensures
        d matches Delivery::Alert { device_token, title, body } && {
            let bytes = vstd::utf8::encode_utf8(w.txid@).len();
            let name = text::cut(
                w.txid@,
                if bytes < 8 {
                    bytes as int
                } else {
                    8
                },
            );
            &&& device_token@ == w.device_token@
            &&& match notice {
                Notice::PushConfirmed { block_height } => {
                    &&& title@ == "Transaction Confirmed ✓"@
                    &&& block_height > 0 ==> body@ == "Tx "@ + name + "… included in "@ + ("block #"@
                        + text::decimal(block_height as nat))
                    &&& block_height == 0 ==> body@ == "Tx "@ + name + "… included in "@ + "a block"@
                },
                Notice::PushExpired => {
                    &&& title@ == "Transaction monitoring expired"@
                    &&& body@ == "Tx "@ + name + "… was not confirmed within 4 hours."@
                },
                _ => false,
            }
        },
{
}

/// Alerts name a transaction with a proper id by its first eight digits.
pub proof fn alerts_shorten_the_id(w: Watch, notice: Notice, d: Delivery)
    requires
        txid::is_txid(w.txid@),
        notice.to_device(),
        w.is_alert(notice, d),
    ensures
        d matches Delivery::Alert { body, .. } && exists|rest: Seq<char>|
            body@ == "Tx "@ + w.txid@.take(8) + rest,
{
    txid::txid_can_be_cut(w.txid@);
    alerts_name_the_transaction(w, notice, d);
    let body = d->Alert_body;
    let start = "Tx "@ + w.txid@.take(8);
    match notice {
        Notice::PushConfirmed { block_height } => {
            let rest = if block_height > 0 {
                "… included in "@ + ("block #"@ + text::decimal(block_height as nat))
            } else {
                "… included in "@ + "a block"@
            };
            assert(body@ =~= start + rest);
        },
        _ => {
            assert(body@ =~= start + "… was not confirmed within 4 hours."@);
        },
    }
}

/// A notification is sent as what it is: an alert with its title, its text and the usual sound and
/// nothing else, an update with its kind and its state, and either to its own token.
pub proof fn deliveries_are_sent_as_they_are(
    d: Delivery,
    c: ApnsClient,
    request: ApnsRequest,
    now: u64,
    value_btc: JsonView,
)
    requires
        d.is_request(c, request, now, value_btc),
    ensures
        d matches Delivery::Alert { device_token, title, body } ==> c.is_alert(
            request,
            device_token@,
            Some(title@),
            Some(body@),
            None,
            Some("default"@),
            None,
        ),
        d matches Delivery::Activity { token, event, state } ==> c.is_activity_update(
            request,
            token@,
            event,
            json::JsonView::Object(state.members(value_btc)),
            now,
        ),
{
}

/// The names of the kinds of updates and of the states of a transaction.
pub proof fn names_in_payloads(e: LiveActivityEvent, s: WatchStatus)
    ensures
        e == LiveActivityEvent::Update ==> e.name() == "update"@,
        e == LiveActivityEvent::End ==> e.name() == "end"@,
        s == WatchStatus::Pending ==> s.name() == "pending"@,
        s == WatchStatus::Confirmed ==> s.name() == "confirmed"@,
        s == WatchStatus::Failed ==> s.name() == "failed"@,
{
}

/// A quote is what was read of a fee, and its amounts are its own; an error leaves none.
pub proof fn quotes_are_what_was_read(q: FeeQuote, e: MempoolError)
    ensures
        reply::quoted(Ok(q)) == Some(q),
        reply::quoted(Err(e)) is None,
        reply::quoted_value(Some(q)) == Some(q.value_sat),
        reply::quoted_fee(Some(q)) == Some(q.fee_sats),
        reply::quoted_value(None) is None,
        reply::quoted_fee(None) is None,
{
}

/// Alerts can name a transaction exactly if its id can be cut after eight bytes, or is shorter.
pub proof fn short_ids_are_nameable(w: Watch)
    ensures
        vstd::utf8::encode_utf8(w.txid@).len() <= 8 ==> w.nameable(),
        vstd::utf8::encode_utf8(w.txid@).len() > 8 ==> (w.nameable() <==> text::can_cut(w.txid@, 8)),
{
    vstd::utf8::encode_utf8_valid_utf8(w.txid@);
    vstd::utf8::is_char_boundary_start_end_of_seq(vstd::utf8::encode_utf8(w.txid@));
}

/// A transaction id is sixty-four characters, each a decimal digit or one of the first six letters
/// in either case.
pub proof fn txids_are_hexadecimal(s: Seq<char>)
    ensures
        txid::is_txid(s) <==> s.len() == 64 && forall|i: int|
            0 <= i < 64 ==> {
                let n = (#[trigger] s[i]) as u32;
                48 <= n <= 57 || 65 <= n <= 70 || 97 <= n <= 102
            },
{
    if txid::is_txid(s) {
        assert forall|i: int| 0 <= i < 64 implies {
            let n = (#[trigger] s[i]) as u32;
            48 <= n <= 57 || 65 <= n <= 70 || 97 <= n <= 102
        } by {
            assert(txid::is_hex(s[i]));
            lemma_hex(s[i]);
        }
    }
    if s.len() == 64 && forall|i: int|
        0 <= i < 64 ==> {
            let n = (#[trigger] s[i]) as u32;
            48 <= n <= 57 || 65 <= n <= 70 || 97 <= n <= 102
        } {
        assert forall|i: int| 0 <= i < s.len() implies txid::is_hex(#[trigger] s[i]) by {
            lemma_hex(s[i]);
        }
    }
}

proof fn lemma_hex(c: char)
    ensures
        txid::is_hex(c) <==> 48 <= c as u32 <= 57 || 65 <= c as u32 <= 70 || 97 <= c as u32 <= 102,
{
}

} // verus!
