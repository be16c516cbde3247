//! Answers about a transaction.

use crate::apns::types;
use crate::apns::types::{BlockPosition, WatchStatus};
use crate::json;
use crate::json::ObjectText;
use crate::mempool::FeeQuote;
use crate::watcher::reply;
use serde_json::Value;
use vstd::prelude::*;

verus! {

/// Answer to a request about a transaction.
#[derive(Debug, Clone)]
pub struct WatchResponse {
    pub ok: bool,
    /// Transaction id.
    pub tx_id: String,
    /// Number of confirmations at the time of the answer; zero while pending.
    pub confirmations: u32,
    /// "pending", "confirmed" or "failed".
    pub status: String,
    /// Total transferred value in satoshis, where it is known.
    pub value_sat: Option<u64>,
    /// Fee paid in satoshis, where it is known.
    pub fee_sats: Option<u64>,
    /// Height of the block that holds the transaction; none while pending.
    pub block_height: Option<u64>,
    /// Projected block, only while pending.
    pub block_position: Option<BlockPosition>,
    pub message: Option<String>,
}

/// What an answer says.
pub struct ResponseView {
    pub ok: bool,
    pub tx_id: Seq<char>,
    pub confirmations: u32,
    pub status: Seq<char>,
    pub value_sat: Option<u64>,
    pub fee_sats: Option<u64>,
    pub block_height: Option<u64>,
    pub block_position: Option<BlockPosition>,
    pub message: Option<Seq<char>>,
}

impl View for WatchResponse {
    type V = ResponseView;

    open spec fn view(&self) -> ResponseView {
        ResponseView {
            ok: self.ok,
            tx_id: self.tx_id@,
            confirmations: self.confirmations,
            status: self.status@,
            value_sat: self.value_sat,
            fee_sats: self.fee_sats,
            block_height: self.block_height,
            block_position: self.block_position,
            message: json::optional_chars(self.message),
        }
    }
}

/// The answer to a request that cannot be met.
pub open spec fn rejection(tx_id: Seq<char>, message: Option<Seq<char>>) -> ResponseView {
    ResponseView {
        ok: false,
        tx_id,
        confirmations: 0,
        status: WatchStatus::Failed.name(),
        value_sat: None,
        fee_sats: None,
        block_height: None,
        block_position: None,
        message,
    }
}

/// The answer about a confirmed transaction.
pub open spec fn confirmed_answer(
    tx_id: Seq<char>,
    confirmations: u32,
    block_height: Option<u64>,
    quote: Option<FeeQuote>,
    message: Option<Seq<char>>,
) -> ResponseView {
    ResponseView {
        ok: true,
        tx_id,
        confirmations,
        status: WatchStatus::Confirmed.name(),
        value_sat: reply::quoted_value(quote),
        fee_sats: reply::quoted_fee(quote),
        block_height,
        block_position: None,
        message,
    }
}

/// The answer about a pending transaction.
pub open spec fn pending_answer(
    tx_id: Seq<char>,
    quote: Option<FeeQuote>,
    block_position: Option<BlockPosition>,
    message: Option<Seq<char>>,
) -> ResponseView {
    ResponseView {
        ok: true,
        tx_id,
        confirmations: 0,
        status: WatchStatus::Pending.name(),
        value_sat: reply::quoted_value(quote),
        fee_sats: reply::quoted_fee(quote),
        block_height: None,
        block_position,
        message,
    }
}

impl ResponseView {
    /// The members of the answer's JSON object in their order, where `value_btc` is the JSON number
    /// of the transferred value in BTC. What is not known has no member.
    pub open spec fn members(self, value_btc: json::JsonView) -> Seq<(Seq<char>, json::JsonView)> {
        let all =
            seq![
            ("ok"@, json::JsonView::Bool(self.ok)),
            ("txId"@, json::JsonView::Text(self.tx_id)),
            ("confirmations"@, json::number_or_null(Some(self.confirmations as u64))),
            ("status"@, json::JsonView::Text(self.status)),
        ];
        let all = json::and_optional(
            all,
            "valueBtc"@,
            types::btc_member(self.value_sat, value_btc),
        );
        let all = json::and_optional(all, "feeSats"@, types::number_member(self.fee_sats));
        let all = json::and_optional(all, "blockHeight"@, types::number_member(self.block_height));
        let all = json::and_optional(
            all,
            "blockPosition"@,
            types::position_member(self.block_position),
        );
        json::and_optional(all, "message"@, json::text_member(self.message))
    }
}

impl WatchResponse {
    pub(crate) fn rejected(tx_id: String, message: Option<String>) -> (r: WatchResponse)
        ensures
            r@ == rejection(tx_id@, json::optional_chars(message)),
    {
        WatchResponse {
            ok: false,
            tx_id,
            confirmations: 0,
            status: WatchStatus::Failed.as_str().to_owned(),
            value_sat: None,
            fee_sats: None,
            block_height: None,
            block_position: None,
            message,
        }
    }

    pub(crate) fn confirmed(
        tx_id: String,
        confirmations: u32,
        block_height: Option<u64>,
        quote: Option<FeeQuote>,
        message: Option<String>,
    ) -> (r: WatchResponse)
        ensures
            r@ == confirmed_answer(
                tx_id@,
                confirmations,
                block_height,
                quote,
                json::optional_chars(message),
            ),
    {
        let (value_sat, fee_sats) = reply::amounts(quote);
        WatchResponse {
            ok: true,
            tx_id,
            confirmations,
            status: WatchStatus::Confirmed.as_str().to_owned(),
            value_sat,
            fee_sats,
            block_height,
            block_position: None,
            message,
        }
    }

    pub(crate) fn pending(
        tx_id: String,
        quote: Option<FeeQuote>,
        block_position: Option<BlockPosition>,
        message: Option<String>,
    ) -> (r: WatchResponse)
        ensures
            r@ == pending_answer(tx_id@, quote, block_position, json::optional_chars(message)),
    {
        let (value_sat, fee_sats) = reply::amounts(quote);
        WatchResponse {
            ok: true,
            tx_id,
            confirmations: 0,
            status: WatchStatus::Pending.as_str().to_owned(),
            value_sat,
            fee_sats,
            block_height: None,
            block_position,
            message,
        }
    }

    /// The answer as JSON text. `value_btc` is used where `value_sat` is there.
    pub fn to_json(&self, value_btc: Value) -> (r: String)
        ensures
            r@ == json::object_text(self@.members(json::json_view(value_btc))),
    {
        let mut out = ObjectText::new();
        out.put("ok", &json::bool_value(self.ok));
        out.put("txId", &json::text_value(self.tx_id.as_str()));
        out.put("confirmations", &json::number_value(self.confirmations as u64));
        out.put("status", &json::text_value(self.status.as_str()));
        if self.value_sat.is_some() {
            out.put("valueBtc", &value_btc);
        }
        if let Some(fee) = self.fee_sats {
            out.put("feeSats", &json::number_value(fee));
        }
        if let Some(height) = self.block_height {
            out.put("blockHeight", &json::number_value(height));
        }
        if let Some(position) = self.block_position {
            out.put("blockPosition", &json::text_value(position.as_str()));
        }
        if let Some(message) = &self.message {
            out.put("message", &json::text_value(message.as_str()));
        }
        assert(out.members() =~= self@.members(json::json_view(value_btc)));
        out.finish()
    }
}

} // verus!
