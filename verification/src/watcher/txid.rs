//! Transaction ids.

use crate::text;
use vstd::prelude::*;

verus! {

/// The pattern of a transaction id: sixty-four hexadecimal digits.
pub const TXID_PATTERN: &'static str = "^[0-9a-fA-F]{64}$";

/// Why a pattern is no regular expression.
#[verifier::external_type_specification]
#[verifier::external_body]
pub struct ExRegexError(regex::Error);

/// A hexadecimal digit, in either case.
pub open spec fn is_hex(c: char) -> bool {
    '0' <= c <= '9' || 'a' <= c <= 'f' || 'A' <= c <= 'F'
}

/// A transaction id: exactly sixty-four hexadecimal digits.
pub open spec fn is_txid(s: Seq<char>) -> bool {
    s.len() == 64 && forall|i: int| 0 <= i < s.len() ==> is_hex(#[trigger] s[i])
}

/// `Regex::new` of the pattern and `Regex::is_match` of the text: by the syntax of regex, the
/// pattern matches a text that is sixty-four characters of its class from its start to its end, and
/// no other.
#[verifier::external_body]
fn pattern_matches(pattern: &str, text: &str) -> (r: Result<bool, regex::Error>)
    requires
        pattern@ == TXID_PATTERN@,
    ensures
        r is Ok,
        r->Ok_0 == is_txid(text@),
{
    regex::Regex::new(pattern).map(|re| re.is_match(text))
}

/// Whether the text is a transaction id.
pub fn is_valid(text: &str) -> (r: bool)
    ensures
        r == is_txid(text@),
{
    match pattern_matches(TXID_PATTERN, text) {
        Ok(matched) => matched,
        Err(_) => false,
    }
}

/// A transaction id can be cut after its eighth byte, and what is left is its first eight digits.
pub proof fn txid_can_be_cut(s: Seq<char>)
    requires
        is_txid(s),
    ensures
        vstd::utf8::encode_utf8(s).len() == 64,
        text::can_cut(s, 8),
        text::cut(s, 8) == s.take(8),
{
    let bytes = vstd::utf8::encode_utf8(s);
    let front = s.take(8);
    assert forall|i: int| 0 <= i < s.len() implies 0 <= #[trigger] s[i] as u32 <= 0x7f by {
        assert(is_hex(s[i]));
    }
    assert(vstd::utf8::is_ascii_chars(s));
    assert(vstd::utf8::is_ascii_chars(front));
    vstd::utf8::is_ascii_chars_encode_utf8(s);
    vstd::utf8::is_ascii_chars_encode_utf8(front);
    vstd::utf8::encode_utf8_valid_utf8(s);
    assert(bytes.subrange(0, 8) =~= vstd::utf8::encode_utf8(front)) by {
        assert forall|i: int| 0 <= i < 8 implies bytes[i] == #[trigger] vstd::utf8::encode_utf8(
            front,
        )[i] by {
            assert(front[i] == s[i]);
        }
    }
    vstd::utf8::encode_utf8_decode_utf8(front);
    vstd::utf8::is_char_boundary_iff_not_is_continuation_byte(bytes, 8);
    assert(s[8] as u8 <= 0x7f);
}

} // verus!
