//! Replies of the mempool API.

use crate::json::{JsonNumber, JsonView};
use crate::laws::json::value_of;
use crate::mempool;
use crate::mempool::{MempoolError, TxFee, TxStatus};
use crate::text;
use vstd::prelude::*;

verus! {

/// A figure of a transaction is the number in its own member, and zero where that is missing or
/// holds anything else.
pub proof fn figures_are_numbers(members: Map<Seq<char>, JsonView>, key: Seq<char>, v: JsonView, n: u64)
    ensures
        members.contains_key(key) && members[key] == JsonView::Number(JsonNumber::Unsigned(n))
            ==> mempool::count(JsonView::Object(members), key) == n,
        !members.contains_key(key) || !(members[key] matches JsonView::Number(
            JsonNumber::Unsigned(_),
        )) ==> mempool::count(JsonView::Object(members), key) == 0,
        v !is Object ==> mempool::count(v, key) == 0,
{
}

/// Nothing is transferred without outputs, and every output adds its value, however many there
/// are.
pub proof fn outputs_add_up(outputs: Seq<JsonView>, further: JsonView)
    ensures
        mempool::outputs_total(Seq::empty()) == 0,
        mempool::outputs_total(outputs.push(further)) == mempool::outputs_total(outputs)
            + mempool::count(further, "value"@),
{
    assert(outputs.push(further).drop_last() =~= outputs);
}

/// The total of outputs put together is the sum of their totals.
pub proof fn outputs_put_together_add_up(a: Seq<JsonView>, b: Seq<JsonView>)
    ensures
        mempool::outputs_total(a + b) == mempool::outputs_total(a) + mempool::outputs_total(b),
    decreases b.len(),
{
    if b.len() == 0 {
        assert(a + b =~= a);
    } else {
        outputs_put_together_add_up(a, b.drop_last());
        assert((a + b).drop_last() =~= a + b.drop_last());
        assert((a + b).last() == b.last());
    }
}

/// The order of the outputs does not matter: two that change places leave the total as it is.
pub proof fn outputs_in_any_order(a: Seq<JsonView>, x: JsonView, y: JsonView, b: Seq<JsonView>)
    ensures
        mempool::outputs_total(a + seq![x, y] + b) == mempool::outputs_total(a + seq![y, x] + b),
{
    outputs_put_together_add_up(a + seq![x, y], b);
    outputs_put_together_add_up(a + seq![y, x], b);
    outputs_put_together_add_up(a, seq![x, y]);
    outputs_put_together_add_up(a, seq![y, x]);
    outputs_add_up(seq![x], y);
    outputs_add_up(seq![y], x);
    outputs_add_up(Seq::empty(), x);
    outputs_add_up(Seq::empty(), y);
    assert(seq![x, y] =~= seq![x].push(y));
    assert(seq![y, x] =~= seq![y].push(x));
    assert(seq![x] =~= Seq::<JsonView>::empty().push(x));
    assert(seq![y] =~= Seq::<JsonView>::empty().push(y));
}

/// Each figure of a transaction comes from its own member, and the transferred value from all its
/// outputs; without a list of them it is zero.
pub proof fn fee_data_are_read(tx: Map<Seq<char>, JsonView>, outputs: Seq<JsonView>)
    ensures
        ({
            let r = mempool::fee_of(JsonView::Object(tx));
            let figure = |key: Seq<char>|
                if tx.contains_key(key) {
                    match tx[key] {
                        JsonView::Number(JsonNumber::Unsigned(n)) => n,
                        _ => 0,
                    }
                } else {
                    0
                };
            &&& r.fee == figure("fee"@)
            &&& r.weight == figure("weight"@)
            &&& r.vsize == figure("vsize"@)
            &&& tx.contains_key("vout"@) && tx["vout"@] == JsonView::Array(outputs) ==> {
                let total = mempool::outputs_total(outputs);
                &&& total <= u64::MAX ==> r.value_sat == total
                &&& r.value_sat == total % 0x1_0000_0000_0000_0000
            }
            &&& !tx.contains_key("vout"@) || tx["vout"@] !is Array ==> r.value_sat == 0
        }),
{
}

/// What is no object is a transaction without fee, size and value.
pub proof fn no_transaction_has_no_fee(v: JsonView)
    requires
        v !is Object,
    ensures
        mempool::fee_of(v) == (TxFee { fee: 0, weight: 0, vsize: 0, value_sat: 0 }),
{
}

/// On the transaction endpoints 404 says that the transaction is unknown, every other 4XX is a
/// refusal that keeps its status, and no other status is one.
pub proof fn refusals_are_client_errors(code: u16)
    ensures
        mempool::refusal(code) is Some <==> code / 100 == 4,
        code == 404 ==> mempool::refusal(code) == Some(MempoolError::NotFound),
        code / 100 == 4 && code != 404 ==> mempool::refusal(code) == Some(
            MempoolError::ClientError(code),
        ),
{
}

/// An answer brings its body exactly if there is one and the status is neither 4XX nor 5XX. Else
/// it brings words: those of the HTTP client where it has any.
pub proof fn bodies_come_with_success<T>(code: u16, body: T, words: String)
    ensures
        mempool::brought::<T>(code, Ok(body)) == Ok::<T, Seq<char>>(body) <==> code / 100 != 4
            && code / 100 != 5,
        mempool::brought::<T>(code, Err(words)) == Err::<T, Seq<char>>(words@),
        code / 100 == 4 || code / 100 == 5 ==> mempool::brought::<T>(code, Ok(body)) == Err::<
            T,
            Seq<char>,
        >("HTTP status "@ + text::decimal(code as nat)),
{
}

/// A failed request is told by its words, unchanged.
pub proof fn failures_keep_their_words<T>(r: Result<T, MempoolError>, words: Seq<char>)
    ensures
        mempool::is_http_error(r, words) <==> exists|s: String|
            s@ == words && r == Err::<T, MempoolError>(MempoolError::Http(s)),
{
    if mempool::is_http_error(r, words) {
        let s = r->Err_0->Http_0;
        assert(s@ == words && r == Err::<T, MempoolError>(MempoolError::Http(s)));
    }
}

/// A height in decimal is read whatever white space stands around it; a text that is no number
/// counts as height zero.
pub proof fn heights_are_read(before: Seq<char>, height: u64, after: Seq<char>, other: Seq<char>)
    requires
        forall|i: int| 0 <= i < before.len() ==> text::white_space(#[trigger] before[i]),
        forall|i: int| 0 <= i < after.len() ==> text::white_space(#[trigger] after[i]),
    ensures
        mempool::height_of(before + text::decimal(height as nat) + after) == height,
        text::u64_value(text::trimmed(other)) is None ==> mempool::height_of(other) == 0,
{
    let digits = text::decimal(height as nat);
    let s = before + digits + after;
    let (i, j) = (before.len() as int, (before.len() + digits.len()) as int);
    lemma_decimal_is_dense(height as nat);
    assert(digits.len() > 0);
    assert(s[i] == digits[0]);
    assert(s[j - 1] == digits[digits.len() - 1]);
    assert forall|k: int| 0 <= k < i implies text::white_space(#[trigger] s[k]) by {
        assert(s[k] == before[k]);
    }
    assert forall|k: int| j <= k < s.len() implies text::white_space(#[trigger] s[k]) by {
        assert(s[k] == after[k - j]);
    }
    crate::laws::text::trimming_leaves_the_core(s, i, j);
    assert(s.subrange(i, j) =~= digits);
    text::decimal_reads_back(height);
}

proof fn lemma_decimal_is_dense(n: nat)
    ensures
        text::decimal(n).len() > 0,
        forall|k: int|
            0 <= k < text::decimal(n).len() ==> !text::white_space(#[trigger] text::decimal(n)[k]),
    decreases n,
{
    if n >= 10 {
        lemma_decimal_is_dense(n / 10);
        let front = text::decimal(n / 10);
        assert forall|k: int| 0 <= k < text::decimal(n).len() implies !text::white_space(
            #[trigger] text::decimal(n)[k],
        ) by {
            if k < front.len() {
                assert(text::decimal(n)[k] == front[k]);
            }
        }
    }
}

/// Every error is told in its own words.
pub proof fn mempool_errors_have_words(detail: String, code: u16)
    ensures
        MempoolError::Http(detail).words() == "HTTP request failed: "@ + detail@,
        MempoolError::NotFound.words() == "Transaction not found"@,
        MempoolError::ClientError(code).words() == "Client error from mempool API: HTTP "@
            + text::decimal(code as nat),
{
}

proof fn lemma_event_names()
    ensures
        "txid"@.len() == 4,
        "confirmed"@.len() == 9,
        "block_height"@.len() == 12,
        "block_hash"@.len() == 10,
        "block_time"@.len() == 10,
        "fee"@.len() == 3,
        "vsize"@.len() == 5,
        "block_hash"@[6] == 'h',
        "block_time"@[6] == 't',
{
    reveal_strlit("txid");
    reveal_strlit("confirmed");
    reveal_strlit("block_height");
    reveal_strlit("block_hash");
    reveal_strlit("block_time");
    reveal_strlit("fee");
    reveal_strlit("vsize");
}

/// An event tells the id, whether the transaction is confirmed, its fee and its size. Where it was
/// confirmed is told exactly of a confirmed transaction; what is not known is null, and each member
/// depends on its own part of the state alone. The members come in this order.
pub proof fn events_tell_the_state(
    txid: Seq<char>,
    status: TxStatus,
    fee: Option<u64>,
    vsize: Option<u64>,
)
    ensures
        ({
            let m = mempool::event_members(txid, status, fee, vsize);
            let number = |n: Option<u64>|
                match n {
                    Some(n) => JsonView::Number(JsonNumber::Unsigned(n)),
                    None => JsonView::Null,
                };
            let names = seq![
                "txid"@,
                "confirmed"@,
                "block_height"@,
                "block_hash"@,
                "block_time"@,
                "fee"@,
                "vsize"@,
            ];
            &&& m.len() == 7
            &&& forall|i: int| 0 <= i < 7 ==> (#[trigger] m[i]).0 == names[i]
            &&& value_of(m, "txid"@) == Some(JsonView::Text(txid))
            &&& value_of(m, "confirmed"@) == Some(JsonView::Bool(status.confirmed))
            &&& value_of(m, "fee"@) == Some(number(fee))
            &&& value_of(m, "vsize"@) == Some(number(vsize))
            &&& status.confirmed ==> {
                &&& value_of(m, "block_height"@) == Some(number(status.block_height))
                &&& value_of(m, "block_time"@) == Some(number(status.block_time))
                &&& status.block_hash is None ==> value_of(m, "block_hash"@) == Some(JsonView::Null)
                &&& status.block_hash matches Some(hash) ==> value_of(m, "block_hash"@) == Some(
                    JsonView::Text(hash@),
                )
            }
            &&& !status.confirmed ==> {
                &&& value_of(m, "block_height"@) == Some(JsonView::Null)
                &&& value_of(m, "block_hash"@) == Some(JsonView::Null)
                &&& value_of(m, "block_time"@) == Some(JsonView::Null)
            }
        }),
{
    lemma_event_names();
    reveal_with_fuel(value_of, 8);
    let m = mempool::event_members(txid, status, fee, vsize);
    assert(m.drop_last().drop_last().drop_last().drop_last().drop_last().drop_last().len() == 1);
}

/// The height of a transaction's block counts only once it is confirmed.
pub proof fn pending_transactions_have_no_height(status: TxStatus)
    ensures
        status.confirmed ==> status.confirmed_height() == status.block_height,
        !status.confirmed ==> status.confirmed_height() is None,
{
}

} // verus!
