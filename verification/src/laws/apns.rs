//! Tokens, requests and replies of the push service, and the configuration of its client.

use crate::apns::builder;
use crate::apns::builder::ApnsVars;
use crate::apns::client;
use crate::apns::client::{ApnsClient, ApnsRequest, TokenCache};
use crate::apns::error::ApnsError;
use crate::apns::jwt;
use crate::apns::types::{LiveActivityContentState, LiveActivityEvent};
use crate::json;
use crate::json::{JsonNumber, JsonView};
use crate::laws::response::{number, position_text};
use crate::push::optional_data;
use crate::text;
use serde_json::Value;
use vstd::prelude::*;

verus! {

/// A token is fresh for fifty-five minutes from the second in which it was issued, and whenever the
/// clock shows less than that second.
pub proof fn tokens_last_fifty_five_minutes(cache: TokenCache, now: u64)
    ensures
        cache.cached is None ==> !cache.fresh(now),
        cache.cached matches Some(c) ==> (cache.fresh(now) <==> now - c.issued_at < 55 * 60),
{
}

/// A fresh token is given out again, and nothing changes.
pub proof fn fresh_tokens_are_given_out(
    c: ApnsClient,
    before: TokenCache,
    now: u64,
    after: TokenCache,
    r: Result<Seq<char>, ApnsError>,
)
    requires
        c.token_outcome(before, now, after, r),
        before.cached matches Some(t) && now - t.issued_at < 55 * 60,
    ensures
        after == before,
        r == Ok::<Seq<char>, ApnsError>(before.cached->0.token@),
{
}

/// Without a fresh token a new one is signed with the key, for the key id, the team and the second,
/// and kept from then on. Where that fails the cache stays, and the error is one of signing; without
/// a key it fails in any case, with the reason why there is none.
pub proof fn stale_tokens_are_renewed(
    c: ApnsClient,
    before: TokenCache,
    now: u64,
    after: TokenCache,
    r: Result<Seq<char>, ApnsError>,
)
    requires
        c.token_outcome(before, now, after, r),
        before.cached is None || now - before.cached->0.issued_at >= 55 * 60,
    ensures
        r is Err ==> after == before && r->Err_0 is Jwt,
        r matches Ok(token) ==> {
            &&& after.cached matches Some(t) && t.token@ == token && t.issued_at == now
            &&& jwt::ec_key(vstd::utf8::encode_utf8(c.pem@)) matches Ok(key) && {
                let claims = json::object_text(
                    seq![
                        ("iss"@, JsonView::Text(c.team_id@)),
                        ("iat"@, JsonView::Number(JsonNumber::Unsigned(now))),
                    ],
                );
                let signed = jwt::signing_input(c.key_id@, claims);
                exists|signature: Seq<char>|
                    jwt::es256_signatures(key, signed).contains(signature) && token == signed
                        + "."@ + signature
            }
        },
        jwt::ec_key(vstd::utf8::encode_utf8(c.pem@)) matches Err(why) ==> r == Err::<
            Seq<char>,
            ApnsError,
        >(ApnsError::Jwt(why)),
{
    assert(client::claim_members(c.team_id@, now) =~= seq![
        ("iss"@, JsonView::Text(c.team_id@)),
        ("iat"@, JsonView::Number(JsonNumber::Unsigned(now))),
    ]);
    if let Ok(token) = r {
        let key = c.key()->Ok_0;
        assert(jwt::is_token(token, c.key_id@, client::claims(c.team_id@, now), key));
    }
}

/// A request carries the token that the call for it gave as its bearer; where there is none, there
/// is no request and the error is that of the token.
pub proof fn requests_carry_the_token(
    c: ApnsClient,
    before: TokenCache,
    now: u64,
    after: TokenCache,
    r: Result<ApnsRequest, ApnsError>,
)
    requires
        c.request_outcome(before, now, after, r),
    ensures
        r matches Ok(request) ==> exists|token: Seq<char>| #[trigger]
            c.token_outcome(before, now, after, Ok(token)) && request.authorization@ == "bearer "@
                + token,
        r matches Err(e) ==> c.token_outcome(before, now, after, Err(e)),
        before.cached matches Some(t) && now - t.issued_at < 55 * 60 ==> r is Ok
            && r->Ok_0.authorization@ == "bearer "@ + before.cached->0.token@ && after == before,
{
}

/// The address to which a notification with this token goes.
pub open spec fn address(c: ApnsClient, token: Seq<char>) -> Seq<char> {
    if c.production {
        "https://api.push.apple.com"@ + "/3/device/"@ + token
    } else {
        "https://api.sandbox.push.apple.com"@ + "/3/device/"@ + token
    }
}

proof fn lemma_alert_names()
    ensures
        "title"@.len() == 5,
        "title"@[0] == 't',
        "body"@.len() == 4,
        "body"@[0] == 'b',
        "alert"@.len() == 5,
        "alert"@[0] == 'a',
        "badge"@.len() == 5,
        "badge"@[0] == 'b',
        "sound"@.len() == 5,
        "sound"@[0] == 's',
        "aps"@.len() == 3,
        "data"@.len() == 4,
        "data"@[0] == 'd',
{
    reveal_strlit("title");
    reveal_strlit("body");
    reveal_strlit("alert");
    reveal_strlit("badge");
    reveal_strlit("sound");
    reveal_strlit("aps");
    reveal_strlit("data");
}

/// A map holds `value` under `key` where there is one, and else has no such key.
pub open spec fn holds(m: Map<Seq<char>, JsonView>, key: Seq<char>, value: Option<JsonView>) -> bool {
    match value {
        Some(v) => m.contains_key(key) && m[key] == v,
        None => !m.contains_key(key),
    }
}

/// A text as an optional member.
pub open spec fn text_of(s: Option<Seq<char>>) -> Option<JsonView> {
    match s {
        Some(s) => Some(JsonView::Text(s)),
        None => None,
    }
}

/// An alert goes to the device, for the app, as an alert. Its payload holds the title and the body
/// under `aps` and `alert`, the badge and the sound under `aps`, and the app's own data beside it,
/// each exactly where it was given, and nothing else.
pub proof fn alerts_hold_what_was_given(
    c: ApnsClient,
    request: ApnsRequest,
    token: Seq<char>,
    title: Option<Seq<char>>,
    body: Option<Seq<char>>,
    badge: Option<u32>,
    sound: Option<Seq<char>>,
    data: Option<JsonView>,
)
    requires
        c.is_alert(request, token, title, body, badge, sound, data),
    ensures
        request.url@ == address(c, token),
        request.topic@ == c.bundle_id@,
        request.push_type@ == "alert"@,
        json::json_view(request.payload) matches JsonView::Object(root) && {
            &&& holds(root, "data"@, data)
            &&& root.contains_key("aps"@)
            &&& forall|key: Seq<char>| #[trigger]
                root.contains_key(key) ==> key == "aps"@ || key == "data"@
            &&& root["aps"@] matches JsonView::Object(aps) && {
                &&& holds(
                    aps,
                    "badge"@,
                    match badge {
                        Some(n) => Some(JsonView::Number(JsonNumber::Unsigned(n as u64))),
                        None => None,
                    },
                )
                &&& holds(aps, "sound"@, text_of(sound))
                &&& aps.contains_key("alert"@)
                &&& forall|key: Seq<char>| #[trigger]
                    aps.contains_key(key) ==> key == "alert"@ || key == "badge"@ || key == "sound"@
                &&& aps["alert"@] matches JsonView::Object(alert) && {
                    &&& holds(alert, "title"@, text_of(title))
                    &&& holds(alert, "body"@, text_of(body))
                    &&& forall|key: Seq<char>| #[trigger]
                        alert.contains_key(key) ==> key == "title"@ || key == "body"@
                }
            }
        },
{
    lemma_alert_names();
}

proof fn lemma_activity_names()
    ensures
        "event"@.len() == 5,
        "content-state"@.len() == 13,
        "timestamp"@.len() == 9,
        "update"@.len() == 6,
        "end"@.len() == 3,
        "confirmations"@.len() == 13,
        "confirmations"@[0] == 'c',
        "status"@.len() == 6,
        "txId"@.len() == 4,
        "valueBtc"@.len() == 8,
        "feeSats"@.len() == 7,
        "blockPosition"@.len() == 13,
        "blockPosition"@[0] == 'b',
{
    reveal_strlit("event");
    reveal_strlit("content-state");
    reveal_strlit("timestamp");
    reveal_strlit("update");
    reveal_strlit("end");
    reveal_strlit("confirmations");
    reveal_strlit("status");
    reveal_strlit("txId");
    reveal_strlit("valueBtc");
    reveal_strlit("feeSats");
    reveal_strlit("blockPosition");
}

/// The update of an activity goes to the activity, under the topic for activities of the app. Its
/// payload holds the kind of update, the state and the time under `aps`, and nothing else.
pub proof fn activity_updates_hold_what_was_given(
    c: ApnsClient,
    request: ApnsRequest,
    token: Seq<char>,
    event: LiveActivityEvent,
    state: JsonView,
    timestamp: u64,
)
    requires
        c.is_activity_update(request, token, event, state, timestamp),
    ensures
        request.url@ == address(c, token),
        request.topic@ == c.bundle_id@ + ".push-type.liveactivity"@,
        request.push_type@ == "liveactivity"@,
        json::json_view(request.payload) matches JsonView::Object(root) && {
            &&& root.contains_key("aps"@)
            &&& forall|key: Seq<char>| #[trigger] root.contains_key(key) ==> key == "aps"@
            &&& root["aps"@] matches JsonView::Object(aps) && {
                &&& holds(
                    aps,
                    "event"@,
                    Some(
                        JsonView::Text(
                            match event {
                                LiveActivityEvent::Update => "update"@,
                                LiveActivityEvent::End => "end"@,
                            },
                        ),
                    ),
                )
                &&& holds(aps, "content-state"@, Some(state))
                &&& holds(
                    aps,
                    "timestamp"@,
                    Some(JsonView::Number(JsonNumber::Unsigned(timestamp))),
                )
                &&& forall|key: Seq<char>| #[trigger]
                    aps.contains_key(key) ==> key == "event"@ || key == "content-state"@ || key
                        == "timestamp"@
            }
        },
{
    lemma_activity_names();
}

/// The state of an activity tells the confirmations, the status and the transaction, and the value,
/// the fee and the projected block exactly where they are known. Each depends on its own field
/// alone.
pub proof fn states_tell_field_by_field(state: LiveActivityContentState, value_btc: JsonView)
    ensures
        ({
            let m = state.members(value_btc);
            &&& holds(
                m,
                "confirmations"@,
                Some(JsonView::Number(JsonNumber::Unsigned(state.confirmations as u64))),
            )
            &&& holds(m, "status"@, Some(JsonView::Text(state.status@)))
            &&& holds(m, "txId"@, Some(JsonView::Text(state.tx_id@)))
            &&& holds(
                m,
                "valueBtc"@,
                if state.value_sat is Some {
                    Some(value_btc)
                } else {
                    None
                },
            )
            &&& holds(m, "feeSats"@, number(state.fee_sats))
            &&& holds(
                m,
                "blockPosition"@,
                match state.block_position {
                    Some(p) => Some(position_text(p)),
                    None => None,
                },
            )
            &&& forall|key: Seq<char>| #[trigger]
                m.contains_key(key) ==> key == "confirmations"@ || key == "status"@ || key
                    == "txId"@ || key == "valueBtc"@ || key == "feeSats"@ || key
                    == "blockPosition"@
        }),
{
    lemma_activity_names();
}

/// A rejection is told with the text that its body gives as the reason; without one the reason is
/// unknown.
pub proof fn rejections_give_their_reason(members: Map<Seq<char>, JsonView>, v: JsonView, s: Seq<char>)
    ensures
        members.contains_key("reason"@) && members["reason"@] == JsonView::Text(s)
            ==> client::rejection_reason(Some(JsonView::Object(members))) == s,
        !members.contains_key("reason"@) || members["reason"@] !is Text ==> client::rejection_reason(
            Some(JsonView::Object(members)),
        ) == "Unknown"@,
        v !is Object ==> client::rejection_reason(Some(v)) == "Unknown"@,
        client::rejection_reason(None) == "Unknown"@,
{
}

/// Every error is told in its own words.
pub proof fn apns_errors_have_words(
    detail: String,
    e: jsonwebtoken::errors::Error,
    code: u16,
    reason: String,
)
    ensures
        ApnsError::Http(detail).words() == "HTTP error: "@ + detail@,
        ApnsError::Jwt(e).words() == "JWT error: "@ + jwt::jwt_error_words(e),
        (ApnsError::Apns { code, reason }).words() == "APNS rejected the notification (HTTP "@
            + text::decimal(code as nat) + "): "@ + reason@,
{
}

/// The data of a request are handed on as they are.
pub proof fn data_are_handed_on(v: Value)
    ensures
        optional_data(Some(v)) == Some(json::json_view(v)),
        optional_data(None) is None,
        json::held(Some(&v)) == Some(json::json_view(v)),
        json::held(None) is None,
{
}

/// An optional text is seen as its characters.
pub proof fn optional_texts_are_their_characters(s: String, t: &str)
    ensures
        json::optional_chars(Some(s)) == Some(s@),
        json::optional_chars(None) is None,
        json::chars(Some(t)) == Some(t@),
        json::chars(None) is None,
{
}

/// A client needs the key id, the team, the app and the key, and nothing else.
pub proof fn clients_need_four_variables(v: ApnsVars)
    ensures
        v.complete() <==> !(v.key_id is None || v.team_id is None || v.bundle_id is None
            || v.private_key is None),
{
}

/// The production service is asked for by the word true, in any case of its letters, and by nothing
/// else.
pub proof fn production_is_asked_for_by_true(v: ApnsVars)
    ensures
        v.asks_production() <==> v.production is Some && {
            let s = v.production->0@;
            &&& s.len() == 4
            &&& (s[0] == 't' || s[0] == 'T')
            &&& (s[1] == 'r' || s[1] == 'R')
            &&& (s[2] == 'u' || s[2] == 'U')
            &&& (s[3] == 'e' || s[3] == 'E')
        },
{
    reveal_strlit("true");
    assert("true"@ =~= seq!['t', 'r', 'u', 'e']);
    if v.production is Some {
        let s = v.production->0@;
        let t = "true"@;
        if s.len() == 4 {
            lemma_small_letter(s[0], 't', 'T');
            lemma_small_letter(s[1], 'r', 'R');
            lemma_small_letter(s[2], 'u', 'U');
            lemma_small_letter(s[3], 'e', 'E');
            if text::same_ignoring_ascii_case(s, t) {
                assert(text::ascii_lower(s[0]) == text::ascii_lower(t[0]));
                assert(text::ascii_lower(s[1]) == text::ascii_lower(t[1]));
                assert(text::ascii_lower(s[2]) == text::ascii_lower(t[2]));
                assert(text::ascii_lower(s[3]) == text::ascii_lower(t[3]));
            }
            if (s[0] == 't' || s[0] == 'T') && (s[1] == 'r' || s[1] == 'R') && (s[2] == 'u' || s[2]
                == 'U') && (s[3] == 'e' || s[3] == 'E') {
                assert forall|i: int| 0 <= i < s.len() implies text::ascii_lower(#[trigger] s[i])
                    == text::ascii_lower(t[i]) by {
                    assert(i == 0 || i == 1 || i == 2 || i == 3);
                }
            }
        }
    }
}

proof fn lemma_small_letter(c: char, small: char, capital: char)
    requires
        97 <= small as u32 <= 122,
        capital as u32 + 32 == small as u32,
    ensures
        text::ascii_lower(c) == text::ascii_lower(small) <==> c == small || c == capital,
{
}

/// Wherever in a text an escaped line feed stands, it becomes a line feed, and what stands before
/// and after it is treated as if it stood alone.
pub proof fn escapes_become_line_feeds(before: Seq<char>, after: Seq<char>)
    ensures
        builder::unescaped(before + seq!['\\', 'n'] + after) == builder::unescaped(before) + seq![
            '\n',
        ] + builder::unescaped(after),
    decreases before.len(),
{
    let s = before + seq!['\\', 'n'] + after;
    if before.len() == 0 {
        assert(s.skip(2) =~= after);
        assert(builder::unescaped(s) =~= builder::unescaped(before) + seq!['\n']
            + builder::unescaped(after));
    } else if before.len() >= 2 && before[0] == '\\' && before[1] == 'n' {
        escapes_become_line_feeds(before.skip(2), after);
        assert(s.skip(2) =~= before.skip(2) + seq!['\\', 'n'] + after);
        assert(builder::unescaped(s) =~= builder::unescaped(before) + seq!['\n']
            + builder::unescaped(after));
    } else {
        escapes_become_line_feeds(before.skip(1), after);
        assert(s.skip(1) =~= before.skip(1) + seq!['\\', 'n'] + after);
        assert(s[0] == before[0]);
        if before.len() == 1 {
            assert(s[1] == '\\');
        } else {
            assert(s[1] == before[1]);
        }
        assert(builder::unescaped(s) =~= builder::unescaped(before) + seq!['\n']
            + builder::unescaped(after));
    }
}

/// A text without an escaped line feed stays as it is.
pub proof fn other_texts_stay(s: Seq<char>)
    requires
        forall|i: int| 0 <= i < s.len() - 1 && #[trigger] s[i] == '\\' ==> s[i + 1] != 'n',
    ensures
        builder::unescaped(s) == s,
    decreases s.len(),
{
    if s.len() > 0 {
        let rest = s.skip(1);
        assert forall|i: int| 0 <= i < rest.len() - 1 && #[trigger] rest[i] == '\\' implies rest[i
            + 1] != 'n' by {
            assert(rest[i] == s[i + 1]);
        }
        other_texts_stay(rest);
        assert(seq![s[0]] + rest =~= s);
    }
}

proof fn lemma_line_end(line: Seq<char>, rest: Seq<char>)
    requires
        forall|i: int| 0 <= i < line.len() ==> #[trigger] line[i] != '\n',
    ensures
        builder::line_end(line) == line.len(),
        builder::line_end(line + seq!['\n'] + rest) == line.len(),
    decreases line.len(),
{
    let s = line + seq!['\n'] + rest;
    if line.len() > 0 {
        assert(line[0] != '\n');
        assert(s[0] == line[0]);
        lemma_line_end(line.skip(1), rest);
        assert(s.skip(1) =~= line.skip(1) + seq!['\n'] + rest);
    }
}

/// A text is taken line by line: each line, up to a line feed or the end, without the white space
/// around it. A line feed at the very end opens no further line.
pub proof fn lines_are_trimmed_one_by_one(line: Seq<char>, rest: Seq<char>)
    requires
        forall|i: int| 0 <= i < line.len() ==> #[trigger] line[i] != '\n',
    ensures
        builder::trimmed_lines(line + seq!['\n'] + rest) == seq![text::trimmed(line)]
            + builder::trimmed_lines(rest),
        line.len() > 0 ==> builder::trimmed_lines(line) == seq![text::trimmed(line)],
        builder::trimmed_lines(Seq::empty()) == Seq::<Seq<char>>::empty(),
{
    reveal_with_fuel(builder::trimmed_lines, 2);
    lemma_line_end(line, rest);
    let s = line + seq!['\n'] + rest;
    assert(s.take(line.len() as int) =~= line);
    assert(builder::after_line(s) =~= rest);
    assert(line.take(line.len() as int) =~= line);
    if line.len() > 0 {
        assert(builder::after_line(line) =~= Seq::<char>::empty());
        assert(builder::trimmed_lines(line) =~= seq![text::trimmed(line)]);
    }
}

/// Lines are put together with a line feed between each two.
pub proof fn lines_are_joined(line: Seq<char>, a: Seq<Seq<char>>, b: Seq<Seq<char>>)
    ensures
        builder::joined(Seq::empty()) == Seq::<char>::empty(),
        builder::joined(seq![line]) == line,
        a.len() > 0 && b.len() > 0 ==> builder::joined(a + b) == builder::joined(a) + seq!['\n']
            + builder::joined(b),
    decreases a.len(),
{
    if a.len() == 1 && b.len() > 0 {
        assert((a + b).skip(1) =~= b);
        assert(builder::joined(a + b) =~= builder::joined(a) + seq!['\n'] + builder::joined(b));
    } else if a.len() > 1 && b.len() > 0 {
        lines_are_joined(line, a.skip(1), b);
        assert((a + b).skip(1) =~= a.skip(1) + b);
        assert(builder::joined(a + b) =~= builder::joined(a) + seq!['\n'] + builder::joined(b));
    }
}

/// A key is brought into form line by line, whether its lines end in line feeds or in escapes of
/// them: each without the white space around it, and a line feed between each two.
pub proof fn keys_are_normalized_line_by_line(line: Seq<char>, rest: Seq<char>)
    requires
        forall|i: int| 0 <= i < line.len() ==> #[trigger] line[i] != '\n',
        forall|i: int| 0 <= i < line.len() - 1 && #[trigger] line[i] == '\\' ==> line[i + 1] != 'n',
    ensures
        rest.len() > 0 ==> builder::normalized(line + seq!['\\', 'n'] + rest) == text::trimmed(line)
            + seq!['\n'] + builder::normalized(rest),
        rest.len() > 0 ==> builder::normalized(line + seq!['\n'] + rest) == text::trimmed(line)
            + seq!['\n'] + builder::normalized(rest),
        builder::normalized(line + seq!['\\', 'n']) == text::trimmed(line),
        builder::normalized(line + seq!['\n']) == text::trimmed(line),
        line.len() > 0 ==> builder::normalized(line) == text::trimmed(line),
        builder::normalized(Seq::empty()) == Seq::<char>::empty(),
{
    let none = Seq::<char>::empty();
    let plain = builder::unescaped(rest);
    let first = seq![text::trimmed(line)];
    other_texts_stay(line);
    other_texts_stay(none);
    escapes_become_line_feeds(line, rest);
    escapes_become_line_feeds(line, none);
    lemma_unescape_after(line, rest);
    lemma_unescape_after(line, none);
    assert(line + seq!['\\', 'n'] + none =~= line + seq!['\\', 'n']);
    assert(line + seq!['\n'] + none =~= line + seq!['\n']);
    lines_are_trimmed_one_by_one(line, plain);
    lines_are_trimmed_one_by_one(line, none);
    assert(first + builder::trimmed_lines(none) =~= first);
    if rest.len() > 0 {
        assert(plain.len() > 0);
        assert(builder::trimmed_lines(plain).len() > 0);
    }
    lines_are_joined(text::trimmed(line), first, builder::trimmed_lines(plain));
}

proof fn lemma_unescape_after(line: Seq<char>, rest: Seq<char>)
    requires
        forall|i: int| 0 <= i < line.len() - 1 && #[trigger] line[i] == '\\' ==> line[i + 1] != 'n',
    ensures
        builder::unescaped(line + seq!['\n'] + rest) == line + seq!['\n'] + builder::unescaped(rest),
    decreases line.len(),
{
    let s = line + seq!['\n'] + rest;
    if line.len() == 0 {
        assert(s.skip(1) =~= rest);
        assert(builder::unescaped(s) =~= line + seq!['\n'] + builder::unescaped(rest));
    } else {
        let shorter = line.skip(1);
        assert(s[0] == line[0]);
        if line.len() > 1 {
            assert(s[1] == line[1]);
        } else {
            assert(s[1] == '\n');
        }
        assert forall|i: int| 0 <= i < shorter.len() - 1 && #[trigger] shorter[i]
            == '\\' implies shorter[i + 1] != 'n' by {
            assert(shorter[i] == line[i + 1]);
        }
        lemma_unescape_after(shorter, rest);
        assert(s.skip(1) =~= shorter + seq!['\n'] + rest);
        assert(builder::unescaped(s) =~= line + seq!['\n'] + builder::unescaped(rest));
    }
}

} // verus!
