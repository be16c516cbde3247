//! Signed tokens of jsonwebtoken.

use jsonwebtoken::EncodingKey;
use vstd::prelude::*;

verus! {

/// A signing key of jsonwebtoken.
#[verifier::external_type_specification]
#[verifier::external_body]
pub struct ExEncodingKey(jsonwebtoken::EncodingKey);

/// Why jsonwebtoken takes no key or signs no token.
#[verifier::external_type_specification]
#[verifier::external_body]
pub struct ExJwtError(jsonwebtoken::errors::Error);

/// The elliptic-curve key that a PEM text holds, as `EncodingKey::from_ec_pem` reads it, or the
/// error by which it takes the text for no such key.
pub uninterp spec fn ec_key(
    pem: Seq<u8>,
) -> Result<jsonwebtoken::EncodingKey, jsonwebtoken::errors::Error>;

/// The text that `jsonwebtoken::encode` signs for an ES256 token: its header with the key id
/// `key_id`, a dot, and the JSON text `claims`, both in base64.
pub uninterp spec fn signing_input(key_id: Seq<char>, claims: Seq<char>) -> Seq<char>;

/// The signatures that `jsonwebtoken::crypto::sign` may give a text with ES256 and the key. Each
/// signing draws a fresh nonce, so there are many.
pub uninterp spec fn es256_signatures(
    key: jsonwebtoken::EncodingKey,
    message: Seq<char>,
) -> Set<Seq<char>>;

/// The words that an error of jsonwebtoken displays.
pub uninterp spec fn jwt_error_words(e: jsonwebtoken::errors::Error) -> Seq<char>;

/// `token` is one of the ES256 tokens for the JSON text `claims` under the key id `key_id` and the key.
pub open spec fn is_token(
    token: Seq<char>,
    key_id: Seq<char>,
    claims: Seq<char>,
    key: jsonwebtoken::EncodingKey,
) -> bool {
    let message = signing_input(key_id, claims);
    exists|signature: Seq<char>|
        es256_signatures(key, message).contains(signature) && token == message + "."@ + signature
}

/// `EncodingKey::from_ec_pem`: the private key of a PEM text, or why it holds none. Either is a
/// function of the bytes, which `ec_key` names.
#[verifier::external_body]
pub(crate) fn key_from_pem(pem: &[u8]) -> (r: Result<EncodingKey, jsonwebtoken::errors::Error>)
    ensures
        r == ec_key(pem@),
{
    EncodingKey::from_ec_pem(pem)
}

/// `jsonwebtoken::encode` with an ES256 header that carries the key id: the signed text, a dot and
/// a signature of it. The claims go in as a `serde_json::value::RawValue`, which is written as the
/// text that it was made of, without white space around it. Which of the possible signatures comes is up to chance, and whether
/// signing succeeds rests on the random source and on the curve of the key; neither is stated, nor
/// that a text which is no JSON fails.
#[verifier::external_body]
pub(crate) fn encode_es256(key_id: &str, claims: &str, key: &EncodingKey) -> (r: Result<
    String,
    jsonwebtoken::errors::Error,
>)
    ensures
        r matches Ok(token) ==> exists|signature: Seq<char>|
            es256_signatures(*key, signing_input(key_id@, claims@)).contains(signature) && token@
                == signing_input(key_id@, claims@) + "."@ + signature,
{
    let mut header = jsonwebtoken::Header::new(jsonwebtoken::Algorithm::ES256);
    header.kid = Some(key_id.to_owned());
    let claims = serde_json::value::RawValue::from_string(claims.to_owned())?;
    jsonwebtoken::encode(&header, &claims, key)
}

/// `to_string` of an error of jsonwebtoken.
#[verifier::external_body]
pub(crate) fn error_text(e: &jsonwebtoken::errors::Error) -> (r: String)
    ensures
        r@ == jwt_error_words(*e),
{
    e.to_string()
}

} // verus!
