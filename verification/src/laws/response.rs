//! Answers as JSON.

use crate::apns::types::BlockPosition;
use crate::json::{JsonNumber, JsonView};
use crate::laws::json::{lemma_value_of_put, present, value_of};
use crate::push::PushResponse;
use crate::watcher::response::WatchResponse;
use vstd::prelude::*;

verus! {

/// The name of a projected block in JSON.
pub open spec fn position_text(p: BlockPosition) -> JsonView {
    match p {
        BlockPosition::NextBlock => JsonView::Text("NextBlock"@),
        BlockPosition::SecondBlock => JsonView::Text("SecondBlock"@),
        BlockPosition::Other => JsonView::Text("Other"@),
    }
}

/// A number in JSON, where there is one.
pub open spec fn number(n: Option<u64>) -> Option<JsonView> {
    match n {
        Some(n) => Some(JsonView::Number(JsonNumber::Unsigned(n))),
        None => None,
    }
}

/// A text in JSON, where there is one.
pub open spec fn words(s: Option<String>) -> Option<JsonView> {
    match s {
        Some(s) => Some(JsonView::Text(s@)),
        None => None,
    }
}

/// The members of an answer come in one order, and those that need not be there are left out one by
/// one.
pub proof fn answers_list_what_they_know(a: WatchResponse, value_btc: JsonView)
    ensures
        a@.members(value_btc) == seq![
            ("ok"@, JsonView::Bool(a.ok)),
            ("txId"@, JsonView::Text(a.tx_id@)),
            ("confirmations"@, JsonView::Number(JsonNumber::Unsigned(a.confirmations as u64))),
            ("status"@, JsonView::Text(a.status@)),
        ] + present(
            "valueBtc"@,
            if a.value_sat is Some {
                Some(value_btc)
            } else {
                None
            },
        ) + present("feeSats"@, number(a.fee_sats)) + present(
            "blockHeight"@,
            number(a.block_height),
        ) + present(
            "blockPosition"@,
            match a.block_position {
                Some(p) => Some(position_text(p)),
                None => None,
            },
        ) + present("message"@, words(a.message)),
{
    assert(a@.members(value_btc) =~= seq![
        ("ok"@, JsonView::Bool(a.ok)),
        ("txId"@, JsonView::Text(a.tx_id@)),
        ("confirmations"@, JsonView::Number(JsonNumber::Unsigned(a.confirmations as u64))),
        ("status"@, JsonView::Text(a.status@)),
    ] + present(
        "valueBtc"@,
        if a.value_sat is Some {
            Some(value_btc)
        } else {
            None
        },
    ) + present("feeSats"@, number(a.fee_sats)) + present("blockHeight"@, number(a.block_height))
        + present(
        "blockPosition"@,
        match a.block_position {
            Some(p) => Some(position_text(p)),
            None => None,
        },
    ) + present("message"@, words(a.message)));
}

proof fn lemma_answer_names()
    ensures
        "ok"@.len() == 2,
        "txId"@.len() == 4,
        "confirmations"@.len() == 13,
        "confirmations"@[0] == 'c',
        "status"@.len() == 6,
        "valueBtc"@.len() == 8,
        "feeSats"@.len() == 7,
        "feeSats"@[0] == 'f',
        "blockHeight"@.len() == 11,
        "blockPosition"@.len() == 13,
        "blockPosition"@[0] == 'b',
        "message"@.len() == 7,
        "message"@[0] == 'm',
{
    reveal_strlit("ok");
    reveal_strlit("txId");
    reveal_strlit("confirmations");
    reveal_strlit("status");
    reveal_strlit("valueBtc");
    reveal_strlit("feeSats");
    reveal_strlit("blockHeight");
    reveal_strlit("blockPosition");
    reveal_strlit("message");
}

/// The first members of an answer, which every one has.
spec fn always(a: WatchResponse) -> Seq<(Seq<char>, JsonView)> {
    seq![
        ("ok"@, JsonView::Bool(a.ok)),
        ("txId"@, JsonView::Text(a.tx_id@)),
        ("confirmations"@, JsonView::Number(JsonNumber::Unsigned(a.confirmations as u64))),
        ("status"@, JsonView::Text(a.status@)),
    ]
}

proof fn lemma_always(a: WatchResponse, name: Seq<char>)
    ensures
        value_of(always(a), name) == (if name == "status"@ {
            Some(JsonView::Text(a.status@))
        } else if name == "confirmations"@ {
            Some(JsonView::Number(JsonNumber::Unsigned(a.confirmations as u64)))
        } else if name == "txId"@ {
            Some(JsonView::Text(a.tx_id@))
        } else if name == "ok"@ {
            Some(JsonView::Bool(a.ok))
        } else {
            None
        }),
{
    reveal_with_fuel(value_of, 5);
    let m = always(a);
    assert(m.drop_last().drop_last().drop_last().drop_last().len() == 0);
}

proof fn lemma_answer_member(a: WatchResponse, value_btc: JsonView, name: Seq<char>)
    ensures
        value_of(a@.members(value_btc), name) == (if name == "message"@ && a.message is Some {
            words(a.message)
        } else if name == "blockPosition"@ && a.block_position is Some {
            Some(position_text(a.block_position->0))
        } else if name == "blockHeight"@ && a.block_height is Some {
            number(a.block_height)
        } else if name == "feeSats"@ && a.fee_sats is Some {
            number(a.fee_sats)
        } else if name == "valueBtc"@ && a.value_sat is Some {
            Some(value_btc)
        } else {
            value_of(always(a), name)
        }),
{
    let btc = if a.value_sat is Some {
        Some(value_btc)
    } else {
        None
    };
    let at = match a.block_position {
        Some(p) => Some(position_text(p)),
        None => None,
    };
    answers_list_what_they_know(a, value_btc);
    let m1 = always(a) + present("valueBtc"@, btc);
    let m2 = m1 + present("feeSats"@, number(a.fee_sats));
    let m3 = m2 + present("blockHeight"@, number(a.block_height));
    let m4 = m3 + present("blockPosition"@, at);
    lemma_value_of_put(always(a), "valueBtc"@, btc, name);
    lemma_value_of_put(m1, "feeSats"@, number(a.fee_sats), name);
    lemma_value_of_put(m2, "blockHeight"@, number(a.block_height), name);
    lemma_value_of_put(m3, "blockPosition"@, at, name);
    lemma_value_of_put(m4, "message"@, words(a.message), name);
    assert(a@.members(value_btc) =~= m4 + present("message"@, words(a.message)));
}

/// Each member of an answer depends on its own field alone: it is there exactly where the field
/// holds something, and holds that.
pub proof fn answers_tell_field_by_field(a: WatchResponse, value_btc: JsonView)
    ensures
        ({
            let m = a@.members(value_btc);
            &&& value_of(m, "ok"@) == Some(JsonView::Bool(a.ok))
            &&& value_of(m, "txId"@) == Some(JsonView::Text(a.tx_id@))
            &&& value_of(m, "confirmations"@) == Some(
                JsonView::Number(JsonNumber::Unsigned(a.confirmations as u64)),
            )
            &&& value_of(m, "status"@) == Some(JsonView::Text(a.status@))
            &&& value_of(m, "valueBtc"@) is Some <==> a.value_sat is Some
            &&& a.value_sat is Some ==> value_of(m, "valueBtc"@) == Some(value_btc)
            &&& value_of(m, "feeSats"@) == number(a.fee_sats)
            &&& value_of(m, "blockHeight"@) == number(a.block_height)
            &&& value_of(m, "blockPosition"@) is Some <==> a.block_position is Some
            &&& a.block_position matches Some(p) ==> value_of(m, "blockPosition"@) == Some(
                position_text(p),
            )
            &&& value_of(m, "message"@) == words(a.message)
        }),
{
    lemma_answer_names();
    lemma_answer_member(a, value_btc, "ok"@);
    lemma_answer_member(a, value_btc, "txId"@);
    lemma_answer_member(a, value_btc, "confirmations"@);
    lemma_answer_member(a, value_btc, "status"@);
    lemma_answer_member(a, value_btc, "valueBtc"@);
    lemma_answer_member(a, value_btc, "feeSats"@);
    lemma_answer_member(a, value_btc, "blockHeight"@);
    lemma_answer_member(a, value_btc, "blockPosition"@);
    lemma_answer_member(a, value_btc, "message"@);
    lemma_always(a, "ok"@);
    lemma_always(a, "txId"@);
    lemma_always(a, "confirmations"@);
    lemma_always(a, "status"@);
    lemma_always(a, "valueBtc"@);
    lemma_always(a, "feeSats"@);
    lemma_always(a, "blockHeight"@);
    lemma_always(a, "blockPosition"@);
    lemma_always(a, "message"@);
}

/// The answer to a notification on request tells whether it succeeded, and then the id and the error
/// where there is one, each on its own.
pub proof fn push_answers_list_what_they_know(a: PushResponse)
    ensures
        a.members() == seq![("success"@, JsonView::Bool(a.success))] + present(
            "apns_id"@,
            words(a.apns_id),
        ) + present("error"@, words(a.error)),
{
    assert(a.members() =~= seq![("success"@, JsonView::Bool(a.success))] + present(
        "apns_id"@,
        words(a.apns_id),
    ) + present("error"@, words(a.error)));
}

/// A success tells the id and no error, a failure the error and no id.
pub proof fn push_answers_are_success_or_failure(a: PushResponse, s: Seq<char>)
    ensures
        a.is_success(s) <==> a.success && a.error is None && a.apns_id is Some && a.apns_id->0@ == s,
        a.is_failure(s) <==> !a.success && a.apns_id is None && a.error is Some && a.error->0@ == s,
{
}

} // verus!
