//! What can go wrong with a push notification.

use crate::apns::jwt;
use crate::text;
use vstd::prelude::*;

verus! {

/// Why a notification was not accepted.
#[derive(Debug)]
pub enum ApnsError {
    /// The request failed; with the words of the HTTP client.
    Http(String),
    /// No token could be signed.
    Jwt(jsonwebtoken::errors::Error),
    /// The service rejected the notification.
    Apns { code: u16, reason: String },
}

impl ApnsError {
    /// The words for this error.
    pub open spec fn words(self) -> Seq<char> {
        match self {
            ApnsError::Http(detail) => "HTTP error: "@ + detail@,
            ApnsError::Jwt(e) => "JWT error: "@ + jwt::jwt_error_words(e),
            ApnsError::Apns { code, reason } => "APNS rejected the notification (HTTP "@
                + text::decimal(code as nat) + "): "@ + reason@,
        }
    }

    /// The error in words.
    pub fn message(&self) -> (r: String)
        ensures
            r@ == self.words(),
    {
        match self {
            ApnsError::Http(detail) => {
                let mut out = "HTTP error: ".to_owned();
                out.append(detail.as_str());
                out
            },
            ApnsError::Jwt(e) => {
                let mut out = "JWT error: ".to_owned();
                out.append(jwt::error_text(e).as_str());
                out
            },
            ApnsError::Apns { code, reason } => {
                let mut out = "APNS rejected the notification (HTTP ".to_owned();
                text::push_decimal(&mut out, *code as u64);
                out.append("): ");
                out.append(reason.as_str());
                out
            },
        }
    }
}

} // verus!
