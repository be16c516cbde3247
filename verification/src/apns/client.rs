//! The client: tokens, requests and what the service answers.

use crate::apns::error::ApnsError;
use crate::apns::jwt;
use crate::apns::types::{LiveActivityContentState, LiveActivityEvent};
use crate::json;
use crate::json::ObjectText;
use serde_json::Value;
use vstd::prelude::*;

verus! {

/// How long a token is used before it is renewed, in seconds. Apple accepts a token for sixty
/// minutes and limits a team to two new ones in twenty; renewing after fifty-five minutes keeps
/// clear of both.
pub const TOKEN_TTL_SECS: u64 = 3300;

/// Address of the service for apps in production.
pub const PRODUCTION_HOST: &'static str = "https://api.push.apple.com";

/// Address of the service for apps in development.
pub const SANDBOX_HOST: &'static str = "https://api.sandbox.push.apple.com";

/// A token and the Unix time at which it was issued.
pub struct CachedToken {
    pub token: String,
    pub issued_at: u64,
}

/// The token in use, if there is one.
pub struct TokenCache {
    pub cached: Option<CachedToken>,
}

impl TokenCache {
    /// There is a token, and at `now` it is younger than its lifetime.
    pub open spec fn fresh(self, now: u64) -> bool {
        self.cached matches Some(c) && now < c.issued_at + TOKEN_TTL_SECS
    }

    /// A cache without a token.
    pub fn new() -> (r: TokenCache)
        ensures
            r.cached is None,
    {
        TokenCache { cached: None }
    }

    /// The token to give out at `now`, if it is fresh.
    pub fn current(&self, now: u64) -> (r: Option<String>)
        ensures
            r is Some <==> self.fresh(now),
            r matches Some(token) ==> token@ == self.cached->0.token@,
    {
        match &self.cached {
            Some(c) => if now < c.issued_at || now - c.issued_at < TOKEN_TTL_SECS {
                Some(c.token.clone())
            } else {
                None
            },
            None => None,
        }
    }

    /// Takes what signing a token at `now` gave: a token is kept from then on, a failure changes
    /// nothing. Either is handed on.
    pub fn keep(&mut self, now: u64, signed: Result<String, ApnsError>) -> (r: Result<
        String,
        ApnsError,
    >)
        ensures
            r == signed,
            match signed {
                Ok(token) => final(self).cached matches Some(c) && c.token@ == token@
                    && c.issued_at == now,
                Err(_) => *final(self) == *old(self),
            },
    {
        match signed {
            Ok(token) => {
                self.cached = Some(CachedToken { token: token.clone(), issued_at: now });
                Ok(token)
            },
            Err(e) => Err(e),
        }
    }
}

/// A request to the service: a POST of `payload` to `url` with these headers.
pub struct ApnsRequest {
    pub url: String,
    /// Header `authorization`.
    pub authorization: String,
    /// Header `apns-topic`.
    pub topic: String,
    /// Header `apns-push-type`.
    pub push_type: String,
    pub payload: Value,
}

/// Who sends notifications, and for which app.
#[derive(Clone)]
pub struct ApnsClient {
    pub key_id: String,
    pub team_id: String,
    /// Bundle id of the app, such as com.example.myapp.
    pub bundle_id: String,
    /// Whether the production service is used; else the sandbox.
    pub production: bool,
    /// Private key as PEM text.
    pub pem: String,
}

/// The claims of a token in their order: who issues it, and when.
pub open spec fn claim_members(team_id: Seq<char>, now: u64) -> Seq<(Seq<char>, json::JsonView)> {
    seq![
        ("iss"@, json::JsonView::Text(team_id)),
        ("iat"@, json::JsonView::Number(json::JsonNumber::Unsigned(now))),
    ]
}

/// The claims of a token as JSON text.
pub open spec fn claims(team_id: Seq<char>, now: u64) -> Seq<char> {
    json::object_text(claim_members(team_id, now))
}

/// The payload of an alert.
pub open spec fn alert_payload(
    title: Option<Seq<char>>,
    body: Option<Seq<char>>,
    badge: Option<u32>,
    sound: Option<Seq<char>>,
    data: Option<json::JsonView>,
) -> json::JsonView {
    let alert = json::with_optional(
        json::with_optional(Map::empty(), "title"@, json::text_member(title)),
        "body"@,
        json::text_member(body),
    );
    let badge = match badge {
        Some(n) => Some(json::JsonView::Number(json::JsonNumber::Unsigned(n as u64))),
        None => None,
    };
    let aps = json::with_optional(
        json::with_optional(map!["alert"@ => json::JsonView::Object(alert)], "badge"@, badge),
        "sound"@,
        json::text_member(sound),
    );
    json::JsonView::Object(
        json::with_optional(map!["aps"@ => json::JsonView::Object(aps)], "data"@, data),
    )
}

/// The payload of a Live Activity update.
pub open spec fn activity_payload(
    event: LiveActivityEvent,
    content_state: json::JsonView,
    timestamp: u64,
) -> json::JsonView {
    let aps = json::JsonView::Object(
        map![
            "event"@ => json::JsonView::Text(event.name()),
            "content-state"@ => content_state,
            "timestamp"@ => json::JsonView::Number(json::JsonNumber::Unsigned(timestamp)),
        ],
    );
    json::JsonView::Object(map!["aps"@ => aps])
}

impl ApnsClient {
    /// The address of the service in use.
    pub open spec fn host(self) -> Seq<char> {
        if self.production {
            PRODUCTION_HOST@
        } else {
            SANDBOX_HOST@
        }
    }

    /// The private key that the PEM text holds, or why it holds none.
    pub open spec fn key(self) -> Result<
        jsonwebtoken::EncodingKey,
        jsonwebtoken::errors::Error,
    > {
        jwt::ec_key(vstd::utf8::encode_utf8(self.pem@))
    }

    /// What a call for a token at `now` may do: a fresh token is given out again; else a new one
    /// is signed and kept, or signing fails and the cache stays. Without a key it fails, with the
    /// error that says why there is none.
    pub open spec fn token_outcome(
        self,
        before: TokenCache,
        now: u64,
        after: TokenCache,
        r: Result<Seq<char>, ApnsError>,
    ) -> bool {
        if before.fresh(now) {
            after == before && r == Ok::<Seq<char>, ApnsError>(before.cached->0.token@)
        } else {
            match r {
                Ok(token) => {
                    &&& self.key() matches Ok(key)
                    &&& jwt::is_token(token, self.key_id@, claims(self.team_id@, now), key)
                    &&& after.cached matches Some(c) && c.token@ == token && c.issued_at == now
                },
                Err(e) => after == before && self.is_signing_error(e),
            }
        }
    }

    /// Signing may fail with this error: one of jsonwebtoken, and the one about the key where
    /// there is no key.
    pub open spec fn is_signing_error(self, e: ApnsError) -> bool {
        match self.key() {
            Ok(_) => e is Jwt,
            Err(why) => e == ApnsError::Jwt(why),
        }
    }

    /// What a call that prepares a request may do: the token decides whether there is one, and it
    /// stands in the header.
    pub open spec fn request_outcome(
        self,
        before: TokenCache,
        now: u64,
        after: TokenCache,
        r: Result<ApnsRequest, ApnsError>,
    ) -> bool {
        match r {
            Ok(request) => exists|token: Seq<char>|
                #![trigger self.token_outcome(before, now, after, Ok(token))]
                self.token_outcome(before, now, after, Ok(token)) && request.authorization@
                    == "bearer "@ + token,
            Err(e) => self.token_outcome(before, now, after, Err(e)),
        }
    }

    /// The request sends this alert to this device.
    pub open spec fn is_alert(
        self,
        request: ApnsRequest,
        device_token: Seq<char>,
        title: Option<Seq<char>>,
        body: Option<Seq<char>>,
        badge: Option<u32>,
        sound: Option<Seq<char>>,
        data: Option<json::JsonView>,
    ) -> bool {
        &&& request.url@ == self.host() + "/3/device/"@ + device_token
        &&& request.topic@ == self.bundle_id@
        &&& request.push_type@ == "alert"@
        &&& json::json_view(request.payload) == alert_payload(title, body, badge, sound, data)
    }

    /// The request brings this update to this Live Activity.
    pub open spec fn is_activity_update(
        self,
        request: ApnsRequest,
        activity_token: Seq<char>,
        event: LiveActivityEvent,
        content_state: json::JsonView,
        timestamp: u64,
    ) -> bool {
        &&& request.url@ == self.host() + "/3/device/"@ + activity_token
        &&& request.topic@ == self.bundle_id@ + ".push-type.liveactivity"@
        &&& request.push_type@ == "liveactivity"@
        &&& json::json_view(request.payload) == activity_payload(event, content_state, timestamp)
    }

    /// A client.
    pub(crate) fn new(
        key_id: String,
        team_id: String,
        bundle_id: String,
        production: bool,
        pem: String,
    ) -> (r: ApnsClient)
        ensures
            r.key_id == key_id,
            r.team_id == team_id,
            r.bundle_id == bundle_id,
            r.production == production,
            r.pem == pem,
    {
        ApnsClient { key_id, team_id, bundle_id, production, pem }
    }

    /// Whether the PEM text holds a private key; the error says why not.
    pub fn check_key(&self) -> (r: Result<(), ApnsError>)
        ensures
            match self.key() {
                Ok(_) => r is Ok,
                Err(why) => r == Err::<(), ApnsError>(ApnsError::Jwt(why)),
            },
    {
        match jwt::key_from_pem(self.pem.as_str().as_bytes()) {
            Ok(_) => Ok(()),
            Err(e) => Err(ApnsError::Jwt(e)),
        }
    }

    /// The token to use at `now`, a Unix time in seconds: the cached one while it is fresh, else a
    /// new one, which is then cached.
    pub fn jwt_token(&self, cache: &mut TokenCache, now: u64) -> (r: Result<String, ApnsError>)
        ensures
            self.token_outcome(
                *old(cache),
                now,
                *final(cache),
                match r {
                    Ok(token) => Ok(token@),
                    Err(e) => Err(e),
                },
            ),
    {
        if let Some(token) = cache.current(now) {
            return Ok(token);
        }
        let signed = self.sign_token(now);
        cache.keep(now, signed)
    }

    /// A new token, issued at `now`.
    fn sign_token(&self, now: u64) -> (r: Result<String, ApnsError>)
        ensures
            match r {
                Ok(token) => self.key() matches Ok(key) && jwt::is_token(
                    token@,
                    self.key_id@,
                    claims(self.team_id@, now),
                    key,
                ),
                Err(e) => self.is_signing_error(e),
            },
    {
        let mut claims = ObjectText::new();
        claims.put("iss", &json::text_value(self.team_id.as_str()));
        claims.put("iat", &json::number_value(now));
        assert(claims.members() =~= claim_members(self.team_id@, now));
        let claims = claims.finish();
        match jwt::key_from_pem(self.pem.as_str().as_bytes()) {
            Ok(key) => match jwt::encode_es256(self.key_id.as_str(), claims.as_str(), &key) {
                Ok(token) => Ok(token),
                Err(e) => Err(ApnsError::Jwt(e)),
            },
            Err(e) => Err(ApnsError::Jwt(e)),
        }
    }

    /// The address to which a notification for a device or an activity goes.
    fn device_url(&self, token: &str) -> (r: String)
        ensures
            r@ == self.host() + "/3/device/"@ + token@,
    {
        let mut url = if self.production {
            PRODUCTION_HOST.to_owned()
        } else {
            SANDBOX_HOST.to_owned()
        };
        url.append("/3/device/");
        url.append(token);
        url
    }

    /// The request that sends an alert notification to a device. [`ApnsClient::post_reply`] reads
    /// the answer.
    pub fn send_notification(
        &self,
        cache: &mut TokenCache,
        now: u64,
        device_token: &str,
        title: Option<&str>,
        body: Option<&str>,
        badge: Option<u32>,
        sound: Option<&str>,
        custom_data: Option<&Value>,
    ) -> (r: Result<ApnsRequest, ApnsError>)
        ensures
            self.request_outcome(*old(cache), now, *final(cache), r),
            r matches Ok(request) ==> self.is_alert(
                request,
                device_token@,
                json::chars(title),
                json::chars(body),
                badge,
                json::chars(sound),
                json::held(custom_data),
            ),
    {
        let url = self.device_url(device_token);
        let token = match self.jwt_token(cache, now) {
            Ok(token) => token,
            Err(e) => {
                return Err(e);
            },
        };
        let mut alert = json::object();
        if let Some(t) = title {
            json::set_member(&mut alert, "title", json::text_value(t));
        }
        if let Some(b) = body {
            json::set_member(&mut alert, "body", json::text_value(b));
        }
        let mut aps = json::object();
        json::set_member(&mut aps, "alert", alert);
        if let Some(n) = badge {
            json::set_member(&mut aps, "badge", json::number_value(n as u64));
        }
        if let Some(s) = sound {
            json::set_member(&mut aps, "sound", json::text_value(s));
        }
        let mut payload = json::object();
        json::set_member(&mut payload, "aps", aps);
        if let Some(data) = custom_data {
            json::set_member(&mut payload, "data", json::copy_value(data));
        }
        let mut authorization = "bearer ".to_owned();
        authorization.append(token.as_str());
        Ok(
            ApnsRequest {
                url,
                authorization,
                topic: self.bundle_id.clone(),
                push_type: "alert".to_owned(),
                payload,
            },
        )
    }

    /// The request that updates a Live Activity. `now` is also its timestamp, and `value_btc` the
    /// JSON number of the transferred value in BTC. [`ApnsClient::post_reply`] reads the answer.
    pub fn send_live_activity_update(
        &self,
        cache: &mut TokenCache,
        now: u64,
        activity_token: &str,
        event: LiveActivityEvent,
        content_state: &LiveActivityContentState,
        value_btc: Value,
    ) -> (r: Result<ApnsRequest, ApnsError>)
        ensures
            self.request_outcome(*old(cache), now, *final(cache), r),
            r matches Ok(request) ==> self.is_activity_update(
                request,
                activity_token@,
                event,
                json::JsonView::Object(content_state.members(json::json_view(value_btc))),
                now,
            ),
    {
        let url = self.device_url(activity_token);
        let mut aps = json::object();
        json::set_member(&mut aps, "event", json::text_value(event.as_str()));
        json::set_member(&mut aps, "content-state", content_state.to_json(value_btc));
        json::set_member(&mut aps, "timestamp", json::number_value(now));
        let mut payload = json::object();
        json::set_member(&mut payload, "aps", aps);
        let token = match self.jwt_token(cache, now) {
            Ok(token) => token,
            Err(e) => {
                return Err(e);
            },
        };
        let mut topic = self.bundle_id.clone();
        topic.append(".push-type.liveactivity");
        let mut authorization = "bearer ".to_owned();
        authorization.append(token.as_str());
        Ok(
            ApnsRequest {
                url,
                authorization,
                topic,
                push_type: "liveactivity".to_owned(),
                payload,
            },
        )
    }

    /// What the service answered: `code` is the HTTP status, `apns_id` the header of that name
    /// where it is there and readable, `body` the body. A success gives the id, a rejection the
    /// reason that the body names.
    pub fn post_reply(code: u16, apns_id: Option<&str>, body: &[u8]) -> (r: Result<
        String,
        ApnsError,
    >)
        ensures
            200 <= code < 300 ==> (r matches Ok(id) && id@ == (match apns_id {
                Some(s) => s@,
                None => Seq::<char>::empty(),
            })),
            !(200 <= code < 300) ==> (r matches Err(ApnsError::Apns { code: c, reason }) && c
                == code && reason@ == rejection_reason(json::json_parse(body@))),
    {
        if 200 <= code && code < 300 {
            match apns_id {
                Some(s) => Ok(s.to_owned()),
                None => Ok(String::new()),
            }
        } else {
            let reason = match json::parse(body) {
                Ok(v) => reason_of(Some(&v)),
                Err(_) => reason_of(None),
            };
            Err(ApnsError::Apns { code, reason })
        }
    }
}

/// The reason that the body of a rejection gives.
pub open spec fn rejection_reason(body: Option<json::JsonView>) -> Seq<char> {
    match body {
        Some(v) => match v.member("reason"@).text() {
            Some(s) => s,
            None => "Unknown"@,
        },
        None => "Unknown"@,
    }
}

/// The reason that the body of a rejection gives, where it was JSON; "Unknown" where it names none.
pub fn reason_of(body: Option<&Value>) -> (r: String)
    ensures
        r@ == rejection_reason(json::held(body)),
{
    match body {
        Some(v) => match json::member(v, "reason").as_str() {
            Some(s) => s.to_owned(),
            None => "Unknown".to_owned(),
        },
        None => "Unknown".to_owned(),
    }
}

/// Call `k` of a sequence of calls for a token signed a new one.
pub open spec fn renewed(
    caches: Seq<TokenCache>,
    times: Seq<u64>,
    results: Seq<Result<Seq<char>, ApnsError>>,
    k: int,
) -> bool {
    !caches[k].fresh(times[k]) && results[k] is Ok
}

/// A sequence of calls for a token: call `k` is made at `times[k]`, finds `caches[k]` and leaves
/// `caches[k + 1]`.
pub open spec fn token_calls(
    client: ApnsClient,
    caches: Seq<TokenCache>,
    times: Seq<u64>,
    results: Seq<Result<Seq<char>, ApnsError>>,
) -> bool {
    &&& caches.len() == times.len() + 1
    &&& results.len() == times.len()
    &&& forall|k: int|
        #![trigger times[k]]
        0 <= k < times.len() ==> client.token_outcome(
            caches[k],
            times[k],
            caches[k + 1],
            results[k],
        )
}

/// After a renewal the token in use is never older than the one it brought.
proof fn lemma_issued_since(
    client: ApnsClient,
    caches: Seq<TokenCache>,
    times: Seq<u64>,
    results: Seq<Result<Seq<char>, ApnsError>>,
    i: int,
    k: int,
)
    requires
        token_calls(client, caches, times, results),
        0 <= i < k < caches.len(),
        renewed(caches, times, results, i),
    ensures
        caches[k].cached matches Some(c) && c.issued_at >= times[i],
    decreases k,
{
    let last = times[k - 1];
    if k > i + 1 {
        lemma_issued_since(client, caches, times, results, i, k - 1);
    } else {
        assert(last == times[i]);
    }
}

/// However often tokens are asked for, and whatever the clock shows, two new ones are signed at
/// least a lifetime apart: never two in a window of twenty minutes.
pub proof fn renewals_are_a_lifetime_apart(
    client: ApnsClient,
    caches: Seq<TokenCache>,
    times: Seq<u64>,
    results: Seq<Result<Seq<char>, ApnsError>>,
    i: int,
    j: int,
)
    requires
        token_calls(client, caches, times, results),
        0 <= i < j < times.len(),
        renewed(caches, times, results, i),
        renewed(caches, times, results, j),
    ensures
        times[j] >= times[i] + TOKEN_TTL_SECS,
        times[j] > times[i] + 20 * 60,
{
    lemma_issued_since(client, caches, times, results, i, j);
}

/// A token is given out again, and nothing is signed, until its lifetime is over.
pub proof fn token_is_reused(
    client: ApnsClient,
    before: TokenCache,
    issued: u64,
    between: TokenCache,
    token: Seq<char>,
    now: u64,
    after: TokenCache,
    r: Result<Seq<char>, ApnsError>,
)
    requires
        !before.fresh(issued),
        client.token_outcome(before, issued, between, Ok(token)),
        client.token_outcome(between, now, after, r),
        now < issued + TOKEN_TTL_SECS,
    ensures
        r == Ok::<Seq<char>, ApnsError>(token),
        after == between,
{
}

} // verus!
