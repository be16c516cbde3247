//! Streams: which events are sent, and what they hold.

use crate::json::JsonView;
use crate::laws::apns::holds;
use crate::mempool::{MempoolError, TxFee, TxStatus};
use crate::sse;
use crate::sse::SseEvent;
use vstd::prelude::*;

verus! {

/// The names of the events.
pub proof fn events_have_names(e: SseEvent)
    ensures
        e == SseEvent::TxStatus ==> e.name() == "tx_status"@,
        e == SseEvent::Confirmed ==> e.name() == "confirmed"@,
        e == SseEvent::NotFound ==> e.name() == "not_found"@,
        e == SseEvent::Error ==> e.name() == "error"@,
{
}

/// A tick sends `confirmed` exactly if it finds the transaction confirmed and no earlier one did,
/// `tx_status` of any other status, `not_found` of an unknown transaction and `error` of any other
/// failure.
pub proof fn events_are_by_status(status: TxStatus, e: MempoolError, told: bool)
    ensures
        sse::event_of(Ok(status), told) == SseEvent::Confirmed <==> status.confirmed && !told,
        sse::event_of(Ok(status), told) == SseEvent::TxStatus <==> !status.confirmed || told,
        sse::event_of(Err(e), told) == SseEvent::NotFound <==> e is NotFound,
        sse::event_of(Err(e), told) == SseEvent::Error <==> e is Http || e is ClientError,
        sse::is_confirmed(Ok(status)) <==> status.confirmed,
        !sse::is_confirmed(Err(e)),
{
}

/// A stream ends after a confirmed status, where that was asked for, and after nothing else.
pub proof fn streams_end_on_confirmation(status: TxStatus, e: MempoolError)
    ensures
        sse::ends_stream(Ok(status), true) <==> status.confirmed,
        !sse::ends_stream(Ok(status), false),
        !sse::ends_stream(Err(e), true),
        !sse::ends_stream(Err(e), false),
{
}

/// A stream that goes on after confirmation sends one event a tick. The first that finds the
/// transaction confirmed sends `confirmed`, and every other one what its own status calls for.
pub proof fn streams_report_every_tick(statuses: Seq<Result<TxStatus, MempoolError>>, i: int)
    requires
        0 <= i < statuses.len(),
    ensures
        sse::stream(statuses, false, false).len() == statuses.len(),
        ({
            let event = sse::stream(statuses, false, false)[i];
            let first = forall|k: int|
                0 <= k < i ==> !(#[trigger] statuses[k] matches Ok(s) && s.confirmed);
            match statuses[i] {
                Ok(s) => event == (if s.confirmed && first {
                    SseEvent::Confirmed
                } else {
                    SseEvent::TxStatus
                }),
                Err(MempoolError::NotFound) => event == SseEvent::NotFound,
                Err(_) => event == SseEvent::Error,
            }
        }),
{
    sse::only_confirmation_ends(statuses, false, false);
    let first = forall|k: int|
        0 <= k < i ==> !(#[trigger] statuses[k] matches Ok(s) && s.confirmed);
    if sse::confirmed_before(statuses, i) {
        let k = choose|k: int|
            0 <= k < i && k < statuses.len() && sse::is_confirmed(#[trigger] statuses[k]);
        assert(statuses[k] matches Ok(s) && s.confirmed);
        assert(!first);
    } else {
        assert forall|k: int| 0 <= k < i implies !(#[trigger] statuses[k] matches Ok(s)
            && s.confirmed) by {
            assert(!sse::is_confirmed(statuses[k]));
        }
    }
    assert(sse::stream(statuses, false, false)[i] == sse::event_of(
        statuses[i],
        sse::confirmed_before(statuses, i),
    ));
}

/// The device is notified once: of a confirmed status that was not told before, where there is a
/// client and a device.
pub proof fn devices_are_notified_once(status: TxStatus, apns: bool, device_token: Seq<char>)
    ensures
        !sse::notifies(status, true, apns, device_token),
        sse::notifies(status, false, apns, device_token) <==> apns && status.confirmed
            && device_token != Seq::<char>::empty(),
{
    if device_token.len() == 0 {
        assert(device_token =~= Seq::<char>::empty());
    }
}

/// An event reports the fee and the size that were read; neither where they were not.
pub proof fn events_report_the_fee(fee: TxFee, e: MempoolError)
    ensures
        sse::reported(Ok(fee)) == (Some(fee.fee), Some(fee.vsize)),
        sse::reported(Err(e)) == (None::<u64>, None::<u64>),
{
}

/// A problem is reported with the id and the message, and nothing else.
pub proof fn problems_name_the_transaction(txid: Seq<char>, message: Seq<char>)
    ensures
        sse::problem(txid, message) matches JsonView::Object(m) && {
            &&& holds(m, "txid"@, Some(JsonView::Text(txid)))
            &&& holds(m, "message"@, Some(JsonView::Text(message)))
            &&& forall|key: Seq<char>| #[trigger]
                m.contains_key(key) ==> key == "txid"@ || key == "message"@
        },
{
    reveal_strlit("txid");
    reveal_strlit("message");
    assert("txid"@.len() == 4);
    assert("message"@.len() == 7);
}

} // verus!
