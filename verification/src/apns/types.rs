//! Live Activities: what they show and how they change.

use crate::json;
use serde_json::Value;
use vstd::prelude::*;

verus! {

/// What an update does to a Live Activity.
#[derive(Debug, Clone, Copy, PartialEq, Eq, Structural)]
pub enum LiveActivityEvent {
    /// Changes what the activity shows and keeps it alive.
    Update,
    /// Changes what the activity shows and ends it.
    End,
}

impl LiveActivityEvent {
    /// The name of the event in a payload.
    pub open spec fn name(self) -> Seq<char> {
        match self {
            LiveActivityEvent::Update => "update"@,
            LiveActivityEvent::End => "end"@,
        }
    }

    /// The name of the event in a payload.
    pub fn as_str(self) -> (r: &'static str)
        ensures
            r@ == self.name(),
    {
        match self {
            LiveActivityEvent::Update => "update",
            LiveActivityEvent::End => "end",
        }
    }
}

/// Where among the projected blocks a pending transaction stands.
#[derive(Debug, Clone, Copy, PartialEq, Eq, Structural)]
pub enum BlockPosition {
    NextBlock,
    SecondBlock,
    Other,
}

impl BlockPosition {
    /// The name of the position in JSON.
    pub open spec fn name(self) -> Seq<char> {
        match self {
            BlockPosition::NextBlock => "NextBlock"@,
            BlockPosition::SecondBlock => "SecondBlock"@,
            BlockPosition::Other => "Other"@,
        }
    }

    /// The name of the position in JSON.
    pub fn as_str(self) -> (r: &'static str)
        ensures
            r@ == self.name(),
    {
        match self {
            BlockPosition::NextBlock => "NextBlock",
            BlockPosition::SecondBlock => "SecondBlock",
            BlockPosition::Other => "Other",
        }
    }
}

/// How far a watched transaction has come.
#[derive(Debug, Clone, Copy, PartialEq, Eq, Structural)]
pub enum WatchStatus {
    Pending,
    Confirmed,
    Failed,
}

impl WatchStatus {
    /// The name of the status in JSON.
    pub open spec fn name(self) -> Seq<char> {
        match self {
            WatchStatus::Pending => "pending"@,
            WatchStatus::Confirmed => "confirmed"@,
            WatchStatus::Failed => "failed"@,
        }
    }

    /// The name of the status in JSON.
    pub fn as_str(self) -> (r: &'static str)
        ensures
            r@ == self.name(),
    {
        match self {
            WatchStatus::Pending => "pending",
            WatchStatus::Confirmed => "confirmed",
            WatchStatus::Failed => "failed",
        }
    }
}

/// The name of a status tells which it is.
pub proof fn status_names_differ(a: WatchStatus, b: WatchStatus)
    ensures
        a.name() == b.name() <==> a == b,
{
    reveal_strlit("pending");
    reveal_strlit("confirmed");
    reveal_strlit("failed");
    assert("pending"@.len() == 7);
    assert("confirmed"@.len() == 9);
    assert("failed"@.len() == 6);
}

/// What a Live Activity shows of a transaction.
#[derive(Debug, Clone)]
pub struct LiveActivityContentState {
    /// Number of confirmations; zero while pending.
    pub confirmations: u32,
    /// "pending", "confirmed" or "failed".
    pub status: String,
    /// Transaction id.
    pub tx_id: String,
    /// Total transferred value in satoshis.
    pub value_sat: Option<u64>,
    /// Fee paid in satoshis.
    pub fee_sats: Option<u64>,
    /// Projected block, while pending.
    pub block_position: Option<BlockPosition>,
}

/// The value in BTC, present where the value in satoshis is.
pub open spec fn btc_member(value_sat: Option<u64>, value_btc: json::JsonView) -> Option<
    json::JsonView,
> {
    match value_sat {
        Some(_) => Some(value_btc),
        None => None,
    }
}

/// An optional number as an optional member.
pub open spec fn number_member(n: Option<u64>) -> Option<json::JsonView> {
    match n {
        Some(n) => Some(json::number_or_null(Some(n))),
        None => None,
    }
}

/// An optional position as an optional member.
pub open spec fn position_member(p: Option<BlockPosition>) -> Option<json::JsonView> {
    match p {
        Some(p) => Some(json::JsonView::Text(p.name())),
        None => None,
    }
}

impl LiveActivityContentState {
    /// The JSON object of the state, where `value_btc` is the JSON number of the transferred value
    /// in BTC. What is not known has no member.
    pub open spec fn members(self, value_btc: json::JsonView) -> Map<Seq<char>, json::JsonView> {
        let all =
            map![
            "confirmations"@ => json::number_or_null(Some(self.confirmations as u64)),
            "status"@ => json::JsonView::Text(self.status@),
            "txId"@ => json::JsonView::Text(self.tx_id@),
        ];
        let all = json::with_optional(all, "valueBtc"@, btc_member(self.value_sat, value_btc));
        let all = json::with_optional(all, "feeSats"@, number_member(self.fee_sats));
        json::with_optional(all, "blockPosition"@, position_member(self.block_position))
    }

    /// The state as JSON. `value_btc` is used where `value_sat` is there.
    pub fn to_json(&self, value_btc: Value) -> (r: Value)
        ensures
            json::json_view(r) == json::JsonView::Object(
                self.members(json::json_view(value_btc)),
            ),
    {
        let mut out = json::object();
        json::set_member(
            &mut out,
            "confirmations",
            json::number_value(self.confirmations as u64),
        );
        json::set_member(&mut out, "status", json::text_value(self.status.as_str()));
        json::set_member(&mut out, "txId", json::text_value(self.tx_id.as_str()));
        if self.value_sat.is_some() {
            json::set_member(&mut out, "valueBtc", value_btc);
        }
        if let Some(fee) = self.fee_sats {
            json::set_member(&mut out, "feeSats", json::number_value(fee));
        }
        if let Some(position) = self.block_position {
            json::set_member(&mut out, "blockPosition", json::text_value(position.as_str()));
        }
        out
    }
}

} // verus!
