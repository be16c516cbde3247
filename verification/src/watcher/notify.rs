//! Telling a device, or a Live Activity on it, about a watched transaction.

use crate::apns::client::{ApnsClient, ApnsRequest, TokenCache};
use crate::apns::error::ApnsError;
use crate::apns::types::{BlockPosition, LiveActivityContentState, LiveActivityEvent, WatchStatus};
use crate::json;
use crate::mempool::FeeQuote;
use crate::text;
use crate::watcher::poll::{Notice, Watch};
use crate::watcher::reply;
use crate::watcher::txid;
use serde_json::Value;
use vstd::prelude::*;

verus! {

/// A notification to send.
#[derive(Debug)]
pub enum Delivery {
    /// An update of the Live Activity with this token.
    Activity { token: String, event: LiveActivityEvent, state: LiveActivityContentState },
    /// An alert on the device with this token.
    Alert { device_token: String, title: String, body: String },
}

/// Title of the alert on confirmation.
pub const CONFIRMED_TITLE: &'static str = "Transaction Confirmed ✓";

/// Title of the alert when a transaction is given up.
pub const EXPIRED_TITLE: &'static str = "Transaction monitoring expired";

/// The state shows this of the transaction.
pub open spec fn shows(
    state: LiveActivityContentState,
    txid: Seq<char>,
    confirmations: u32,
    status: WatchStatus,
    quote: Option<FeeQuote>,
    position: Option<BlockPosition>,
) -> bool {
    &&& state.tx_id@ == txid
    &&& state.confirmations == confirmations
    &&& state.status@ == status.name()
    &&& state.value_sat == reply::quoted_value(quote)
    &&& state.fee_sats == reply::quoted_fee(quote)
    &&& state.block_position == position
}

/// The number of bytes by which a transaction is named in an alert: eight, or all of a shorter id.
pub open spec fn short_len(txid: Seq<char>) -> int {
    let n = vstd::utf8::encode_utf8(txid).len() as int;
    if n < 8 {
        n
    } else {
        8
    }
}

fn shorter(txid: &str) -> (r: usize)
    ensures
        r == short_len(txid@),
{
    let n = txid.as_bytes().len();
    if n < 8 {
        n
    } else {
        8
    }
}

/// The name of a transaction in an alert.
pub open spec fn short_txid(txid: Seq<char>) -> Seq<char> {
    text::cut(txid, short_len(txid))
}

/// The body of the alert on confirmation in the block of this height, zero for an unknown one.
pub open spec fn confirmed_body(txid: Seq<char>, block_height: u64) -> Seq<char> {
    "Tx "@ + short_txid(txid) + "… included in "@ + (if block_height > 0 {
        "block #"@ + text::decimal(block_height as nat)
    } else {
        "a block"@
    })
}

/// The body of the alert when a transaction is given up.
pub open spec fn expired_body(txid: Seq<char>) -> Seq<char> {
    "Tx "@ + short_txid(txid) + "… was not confirmed within 4 hours."@
}

/// The update of a Live Activity; none where there is no activity, or no client to send with.
pub fn send_live_activity(
    apns: bool,
    activity_token: &Option<String>,
    event: LiveActivityEvent,
    state: LiveActivityContentState,
) -> (r: Option<Delivery>)
    ensures
        r is Some <==> apns && activity_token is Some,
        r matches Some(d) ==> (d matches Delivery::Activity { token, event: e, state: s } && token@
            == activity_token->0@ && e == event && s == state),
{
    match activity_token {
        Some(token) => if apns {
            Some(Delivery::Activity { token: token.clone(), event, state })
        } else {
            None
        },
        None => None,
    }
}

/// The alert on a device; none where there is no device, or no client to send with.
pub fn send_push(apns: bool, device_token: &str, title: &str, body: &str) -> (r: Option<Delivery>)
    ensures
        r is Some <==> apns && device_token@.len() > 0,
        r matches Some(d) ==> (d matches Delivery::Alert { device_token: t, title: h, body: b } && t@
            == device_token@ && h@ == title@ && b@ == body@),
{
    if apns && !device_token.is_empty() {
        Some(
            Delivery::Alert {
                device_token: device_token.to_owned(),
                title: title.to_owned(),
                body: body.to_owned(),
            },
        )
    } else {
        None
    }
}

impl Notice {
    /// The notice goes to the device, not to the activity.
    pub open spec fn to_device(self) -> bool {
        self is PushConfirmed || self is PushExpired
    }
}

impl Watch {
    /// Alerts can name the transaction.
    pub open spec fn nameable(self) -> bool {
        text::can_cut(self.txid@, short_len(self.txid@))
    }

    /// Whether alerts can name the transaction.
    pub fn is_nameable(&self) -> (r: bool)
        ensures
            r == self.nameable(),
    {
        self.txid.as_str().is_char_boundary(shorter(self.txid.as_str()))
    }

    /// Somebody hears the notice.
    pub open spec fn hears(self, notice: Notice) -> bool {
        self.apns && (if notice.to_device() {
            self.device_token@.len() > 0
        } else {
            self.activity_token is Some
        })
    }

    /// The update of the activity for this notice.
    pub open spec fn is_update(self, notice: Notice, d: Delivery) -> bool {
        d matches Delivery::Activity { token, event, state } && token@ == self.activity_token->0@
            && (match notice {
            Notice::Pending { quote, position } => event == LiveActivityEvent::Update && shows(
                state,
                self.txid@,
                0,
                WatchStatus::Pending,
                quote,
                Some(position),
            ),
            Notice::Confirmed { quote } => event == LiveActivityEvent::End && shows(
                state,
                self.txid@,
                1,
                WatchStatus::Confirmed,
                quote,
                None,
            ),
            _ => event == LiveActivityEvent::End && shows(
                state,
                self.txid@,
                0,
                WatchStatus::Failed,
                None,
                None,
            ),
        })
    }

    /// The alert for this notice.
    pub open spec fn is_alert(self, notice: Notice, d: Delivery) -> bool {
        d matches Delivery::Alert { device_token, title, body } && device_token@
            == self.device_token@ && (match notice {
            Notice::PushConfirmed { block_height } => title@ == CONFIRMED_TITLE@ && body@
                == confirmed_body(self.txid@, block_height),
            _ => title@ == EXPIRED_TITLE@ && body@ == expired_body(self.txid@),
        })
    }

    fn state(
        &self,
        confirmations: u32,
        status: WatchStatus,
        quote: Option<FeeQuote>,
        position: Option<BlockPosition>,
    ) -> (r: LiveActivityContentState)
        ensures
            shows(r, self.txid@, confirmations, status, quote, position),
    {
        let (value_sat, fee_sats) = reply::amounts(quote);
        LiveActivityContentState {
            confirmations,
            status: status.as_str().to_owned(),
            tx_id: self.txid.clone(),
            value_sat,
            fee_sats,
            block_position: position,
        }
    }

    /// The start of the body of an alert: the name of the transaction.
    fn named(&self) -> (r: String)
        requires
            self.nameable(),
        ensures
            r@ == "Tx "@ + short_txid(self.txid@),
    {
        let n = shorter(self.txid.as_str());
        let mut out = "Tx ".to_owned();
        out.append(text::cut_str(self.txid.as_str(), n).as_str());
        out
    }

    /// The notification for a notice; none where nobody hears it.
    pub fn deliver(&self, notice: Notice) -> (r: Option<Delivery>)
        requires
            notice.to_device() ==> self.nameable(),
        ensures
            r is Some <==> self.hears(notice),
            r matches Some(d) ==> if notice.to_device() {
                self.is_alert(notice, d)
            } else {
                self.is_update(notice, d)
            },
    {
        match notice {
            Notice::Pending { quote, position } => send_live_activity(
                self.apns,
                &self.activity_token,
                LiveActivityEvent::Update,
                self.state(0, WatchStatus::Pending, quote, Some(position)),
            ),
            Notice::Confirmed { quote } => send_live_activity(
                self.apns,
                &self.activity_token,
                LiveActivityEvent::End,
                self.state(1, WatchStatus::Confirmed, quote, None),
            ),
            Notice::Expired => send_live_activity(
                self.apns,
                &self.activity_token,
                LiveActivityEvent::End,
                self.state(0, WatchStatus::Failed, None, None),
            ),
            Notice::PushConfirmed { block_height } => {
                let mut body = self.named();
                body.append("… included in ");
                let mut block = String::new();
                if block_height > 0 {
                    block.append("block #");
                    text::push_decimal(&mut block, block_height);
                } else {
                    block.append("a block");
                }
                body.append(block.as_str());
                assert(body@ =~= confirmed_body(self.txid@, block_height));
                send_push(
                    self.apns,
                    self.device_token.as_str(),
                    CONFIRMED_TITLE,
                    body.as_str(),
                )
            },
            Notice::PushExpired => {
                let mut body = self.named();
                body.append("… was not confirmed within 4 hours.");
                send_push(self.apns, self.device_token.as_str(), EXPIRED_TITLE, body.as_str())
            },
        }
    }
}

impl Delivery {
    /// The request carries the notification.
    pub open spec fn is_request(
        self,
        client: ApnsClient,
        request: ApnsRequest,
        now: u64,
        value_btc: json::JsonView,
    ) -> bool {
        match self {
            Delivery::Activity { token, event, state } => client.is_activity_update(
                request,
                token@,
                event,
                json::JsonView::Object(state.members(value_btc)),
                now,
            ),
            Delivery::Alert { device_token, title, body } => client.is_alert(
                request,
                device_token@,
                Some(title@),
                Some(body@),
                None,
                Some("default"@),
                None,
            ),
        }
    }

    /// The request that sends the notification at `now`, a Unix time in seconds; alerts come with
    /// the usual sound. `value_btc` is the JSON number of the transferred value in BTC.
    pub fn request(
        &self,
        client: &ApnsClient,
        cache: &mut TokenCache,
        now: u64,
        value_btc: Value,
    ) -> (r: Result<ApnsRequest, ApnsError>)
        ensures
            client.request_outcome(*old(cache), now, *final(cache), r),
            r matches Ok(request) ==> self.is_request(
                *client,
                request,
                now,
                json::json_view(value_btc),
            ),
    {
        match self {
            Delivery::Activity { token, event, state } => client.send_live_activity_update(
                cache,
                now,
                token.as_str(),
                *event,
                state,
                value_btc,
            ),
            Delivery::Alert { device_token, title, body } => client.send_notification(
                cache,
                now,
                device_token.as_str(),
                Some(title.as_str()),
                Some(body.as_str()),
                None,
                Some("default"),
                None,
            ),
        }
    }
}

/// Alerts can name every transaction that has a proper id, by its first eight digits.
pub proof fn txids_are_nameable(w: Watch)
    requires
        txid::is_txid(w.txid@),
    ensures
        w.nameable(),
        short_txid(w.txid@) == w.txid@.take(8),
{
    txid::txid_can_be_cut(w.txid@);
}

} // verus!
