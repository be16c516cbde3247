//! `POST /push/apns`: sending a notification on request.

use crate::apns::client::{ApnsClient, ApnsRequest, TokenCache};
use crate::apns::error::ApnsError;
use crate::json;
use crate::json::ObjectText;
use serde_json::Value;
use vstd::prelude::*;

verus! {

/// Body of `POST /push/apns`.
#[derive(Debug)]
pub struct PushRequest {
    /// Token of the device.
    pub device_token: String,
    /// Title of the notification.
    pub title: Option<String>,
    /// Text of the notification.
    pub body: Option<String>,
    /// Number on the icon of the app.
    pub badge: Option<u32>,
    /// Sound to play; `"default"` for the usual one.
    pub sound: Option<String>,
    /// Data of the app's own, which goes into the payload as `data`.
    pub data: Option<Value>,
}

/// Answer of `POST /push/apns`.
#[derive(Debug)]
pub struct PushResponse {
    pub success: bool,
    /// Id that the service gave the notification, after a success.
    pub apns_id: Option<String>,
    /// What went wrong, after a failure.
    pub error: Option<String>,
}

/// The error where no client is configured.
pub const NOT_CONFIGURED: &'static str =
    "APNS não configurado. Defina APNS_KEY_ID, APNS_TEAM_ID, APNS_BUNDLE_ID e APNS_PRIVATE_KEY_PATH.";

impl PushResponse {
    /// The answer to a failure with these words.
    pub open spec fn is_failure(self, words: Seq<char>) -> bool {
        !self.success && self.apns_id is None && (self.error matches Some(e) && e@ == words)
    }

    /// The answer to a success with this id.
    pub open spec fn is_success(self, id: Seq<char>) -> bool {
        self.success && self.error is None && (self.apns_id matches Some(i) && i@ == id)
    }

    /// The members of the answer's JSON object in their order; what is not there has none.
    pub open spec fn members(self) -> Seq<(Seq<char>, json::JsonView)> {
        let all = seq![("success"@, json::JsonView::Bool(self.success))];
        let all = json::and_optional(
            all,
            "apns_id"@,
            json::text_member(json::optional_chars(self.apns_id)),
        );
        json::and_optional(all, "error"@, json::text_member(json::optional_chars(self.error)))
    }

    /// The answer as JSON text.
    pub fn to_json(&self) -> (r: String)
        ensures
            r@ == json::object_text(self.members()),
    {
        let mut out = ObjectText::new();
        out.put("success", &json::bool_value(self.success));
        if let Some(id) = &self.apns_id {
            out.put("apns_id", &json::text_value(id.as_str()));
        }
        if let Some(error) = &self.error {
            out.put("error", &json::text_value(error.as_str()));
        }
        out.finish()
    }

    fn failure(words: String) -> (r: PushResponse)
        ensures
            r.is_failure(words@),
    {
        PushResponse { success: false, apns_id: None, error: Some(words) }
    }
}

fn as_text(s: &Option<String>) -> (r: Option<&str>)
    ensures
        json::chars(r) == json::optional_chars(*s),
{
    match s {
        Some(s) => Some(s.as_str()),
        None => None,
    }
}

/// What the data of a request hold, where there are any.
pub open spec fn optional_data(v: Option<Value>) -> Option<json::JsonView> {
    match v {
        Some(v) => Some(json::json_view(v)),
        None => None,
    }
}

/// The request that sends the notification, or the answer where there can be none: 503 where no
/// client is configured, 502 where no token could be signed. [`push_outcome`] takes it from there.
pub fn send_apns_push(
    client: Option<&ApnsClient>,
    cache: &mut TokenCache,
    now: u64,
    req: &PushRequest,
) -> (r: Result<ApnsRequest, (u16, PushResponse)>)
    ensures
        match client {
            None => {
                &&& *final(cache) == *old(cache)
                &&& r matches Err((code, answer)) && code == 503 && answer.is_failure(
                    NOT_CONFIGURED@,
                )
            },
            Some(c) => match r {
                Ok(request) => {
                    &&& c.request_outcome(*old(cache), now, *final(cache), Ok(request))
                    &&& c.is_alert(
                        request,
                        req.device_token@,
                        json::optional_chars(req.title),
                        json::optional_chars(req.body),
                        req.badge,
                        json::optional_chars(req.sound),
                        optional_data(req.data),
                    )
                },
                Err((code, answer)) => exists|e: ApnsError|
                    #![trigger c.request_outcome(*old(cache), now, *final(cache), Err(e))]
                    c.request_outcome(*old(cache), now, *final(cache), Err(e)) && code == 502
                        && answer.is_failure(e.words()),
            },
        },
{
    let client = match client {
        Some(c) => c,
        None => {
            return Err((503, PushResponse::failure(NOT_CONFIGURED.to_owned())));
        },
    };
    let data = match &req.data {
        Some(v) => Some(v),
        None => None,
    };
    let prepared = client.send_notification(
        cache,
        now,
        req.device_token.as_str(),
        as_text(&req.title),
        as_text(&req.body),
        req.badge,
        as_text(&req.sound),
        data,
    );
    match prepared {
        Ok(request) => Ok(request),
        Err(e) => Err((502, PushResponse::failure(e.message()))),
    }
}

/// The HTTP status and the answer after the notification was sent, where `sent` is what came of
/// it.
pub fn push_outcome(sent: Result<String, ApnsError>) -> (r: (u16, PushResponse))
    ensures
        match sent {
            Ok(id) => r.0 == 200 && r.1.is_success(id@),
            Err(e) => r.0 == 502 && r.1.is_failure(e.words()),
        },
{
    match sent {
        Ok(id) => (200, PushResponse { success: true, apns_id: Some(id), error: None }),
        Err(e) => (502, PushResponse::failure(e.message())),
    }
}

} // verus!
