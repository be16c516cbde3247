//! Rules of the HTTP server: who may ask, who is counted, and which settings it starts with.

use crate::json;
use crate::text;
use serde_json::Value;
use vstd::prelude::*;

verus! {

/// Seconds after which a client of the rate limiter gets one more request: thirty in a minute.
pub const RATE_PERIOD_SECS: u64 = 2;

/// Requests that a client may make at once.
pub const RATE_BURST: u32 = 10;

/// Checks the header `x-api-key` of a request, where it is there and readable, against the key.
/// Without the right key the answer is 401 and a JSON body.
pub fn auth_middleware(provided: Option<&str>, api_key: &str) -> (r: Result<(), (u16, Value)>)
    ensures
        r is Ok <==> (provided matches Some(key) && key@ == api_key@),
        r matches Err((code, body)) ==> code == 401 && json::json_view(body)
            == json::JsonView::Object(map!["error"@ => json::JsonView::Text("Unauthorized"@)]),
{
    let known = match provided {
        Some(key) => text::same_text(key, api_key),
        None => false,
    };
    if known {
        Ok(())
    } else {
        let mut body = json::object();
        json::set_member(&mut body, "error", json::text_value("Unauthorized"));
        Err((401, body))
    }
}

/// The address by which the rate limiter counts a request: the one that the reverse proxy put
/// into `x-real-ip`, else the peer of the socket.
pub fn client_address<A>(real_ip: Option<A>, peer: Option<A>) -> (r: Option<A>)
    ensures
        r == (if real_ip is Some {
            real_ip
        } else {
            peer
        }),
{
    match real_ip {
        Some(ip) => Some(ip),
        None => peer,
    }
}

/// The file with the settings: `.env.` and the environment that `APP_ENV` names, or without it
/// development for a debug build and production for a release.
pub fn env_file(app_env: Option<&str>, debug_build: bool) -> (r: String)
    ensures
        r@ == ".env."@ + (match app_env {
            Some(env) => env@,
            None => if debug_build {
                "development"@
            } else {
                "production"@
            },
        }),
{
    let mut name = ".env.".to_owned();
    match app_env {
        Some(env) => name.append(env),
        None => {
            if debug_build {
                name.append("development");
            } else {
                name.append("production");
            }
        },
    }
    name
}

} // verus!
