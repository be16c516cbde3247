//! Trimming, cutting, and numbers in decimal.

use crate::text;
use vstd::prelude::*;

verus! {

/// White space is what Unicode lists as such, by code point.
pub proof fn white_space_by_code_point(c: char)
    ensures
        text::white_space(c) <==> {
            let n = c as u32;
            ||| 0x9 <= n <= 0xd
            ||| n == 0x20
            ||| n == 0x85
            ||| n == 0xa0
            ||| n == 0x1680
            ||| 0x2000 <= n <= 0x200a
            ||| 0x2028 <= n <= 0x2029
            ||| n == 0x202f
            ||| n == 0x205f
            ||| n == 0x3000
        },
{
}

proof fn lemma_all_white_space(s: Seq<char>)
    requires
        forall|k: int| 0 <= k < s.len() ==> text::white_space(#[trigger] s[k]),
    ensures
        text::trim_start(s) == Seq::<char>::empty(),
        text::trim_end(s) == Seq::<char>::empty(),
    decreases s.len(),
{
    if s.len() > 0 {
        assert(text::white_space(s[0]));
        assert(text::white_space(s[s.len() - 1]));
        lemma_all_white_space(s.drop_first());
        lemma_all_white_space(s.drop_last());
    } else {
        assert(s =~= Seq::<char>::empty());
    }
}

proof fn lemma_start(s: Seq<char>, i: int)
    requires
        0 <= i < s.len(),
        forall|k: int| 0 <= k < i ==> text::white_space(#[trigger] s[k]),
        !text::white_space(s[i]),
    ensures
        text::trim_start(s) == s.skip(i),
    decreases i,
{
    if i > 0 {
        assert(text::white_space(s[0]));
        lemma_start(s.drop_first(), i - 1);
        assert(s.drop_first().skip(i - 1) =~= s.skip(i));
    } else {
        assert(s.skip(0) =~= s);
    }
}

proof fn lemma_end(s: Seq<char>, j: int)
    requires
        0 < j <= s.len(),
        forall|k: int| j <= k < s.len() ==> text::white_space(#[trigger] s[k]),
        !text::white_space(s[j - 1]),
    ensures
        text::trim_end(s) == s.take(j),
    decreases s.len() - j,
{
    if j < s.len() {
        assert(text::white_space(s[s.len() - 1]));
        lemma_end(s.drop_last(), j);
        assert(s.drop_last().take(j) =~= s.take(j));
    } else {
        assert(s.take(j) =~= s);
    }
}

/// Trimming takes all white space from both ends and nothing else: what is left is the part that
/// lies between, from the first to the last character that is none.
pub proof fn trimming_leaves_the_core(s: Seq<char>, i: int, j: int)
    requires
        0 <= i <= j <= s.len(),
        forall|k: int| 0 <= k < i ==> text::white_space(#[trigger] s[k]),
        forall|k: int| j <= k < s.len() ==> text::white_space(#[trigger] s[k]),
        i < j ==> !text::white_space(s[i]) && !text::white_space(s[j - 1]),
    ensures
        text::trimmed(s) == s.subrange(i, j),
{
    if i < j {
        lemma_start(s, i);
        let rest = s.skip(i);
        assert(rest[j - i - 1] == s[j - 1]);
        assert forall|k: int| j - i <= k < rest.len() implies text::white_space(
            #[trigger] rest[k],
        ) by {
            assert(rest[k] == s[k + i]);
        }
        lemma_end(rest, j - i);
        assert(rest.take(j - i) =~= s.subrange(i, j));
    } else {
        assert forall|k: int| 0 <= k < s.len() implies text::white_space(#[trigger] s[k]) by {}
        lemma_all_white_space(s);
        lemma_all_white_space(Seq::<char>::empty());
        assert(s.subrange(i, j) =~= Seq::<char>::empty());
    }
}

/// The bytes of a text that was cut are the first of the bytes of the whole.
pub proof fn cutting_keeps_the_first_bytes(s: Seq<char>, n: int)
    requires
        text::can_cut(s, n),
        0 <= n <= vstd::utf8::encode_utf8(s).len(),
    ensures
        vstd::utf8::encode_utf8(text::cut(s, n)) == vstd::utf8::encode_utf8(s).subrange(0, n),
{
    let bytes = vstd::utf8::encode_utf8(s);
    vstd::utf8::encode_utf8_valid_utf8(s);
    vstd::utf8::valid_utf8_split(bytes, n);
    vstd::utf8::decode_utf8_encode_utf8(bytes.subrange(0, n));
}

proof fn lemma_bytes_of_both(a: Seq<char>, b: Seq<char>)
    ensures
        vstd::utf8::encode_utf8(a + b) == vstd::utf8::encode_utf8(a) + vstd::utf8::encode_utf8(b),
    decreases a.len(),
{
    if a.len() == 0 {
        assert(a + b =~= b);
        assert(vstd::utf8::encode_utf8(a) =~= Seq::<u8>::empty());
        assert(vstd::utf8::encode_utf8(a) + vstd::utf8::encode_utf8(b) =~= vstd::utf8::encode_utf8(
            b,
        ));
    } else {
        lemma_bytes_of_both(a.drop_first(), b);
        assert((a + b).drop_first() =~= a.drop_first() + b);
        assert((a + b)[0] == a[0]);
        assert(vstd::utf8::encode_utf8(a + b) =~= vstd::utf8::encode_utf8(a)
            + vstd::utf8::encode_utf8(b));
    }
}

/// A text can be cut after any of its characters, and what is left are the characters up to there.
pub proof fn texts_are_cut_between_characters(a: Seq<char>, b: Seq<char>)
    ensures
        text::can_cut(a + b, vstd::utf8::encode_utf8(a).len() as int),
        text::cut(a + b, vstd::utf8::encode_utf8(a).len() as int) == a,
{
    let bytes = vstd::utf8::encode_utf8(a + b);
    let n = vstd::utf8::encode_utf8(a).len() as int;
    lemma_bytes_of_both(a, b);
    vstd::utf8::encode_utf8_valid_utf8(a + b);
    vstd::utf8::encode_utf8_valid_utf8(a);
    vstd::utf8::encode_utf8_valid_utf8(b);
    vstd::utf8::encode_utf8_decode_utf8(a);
    assert(bytes.subrange(0, n) =~= vstd::utf8::encode_utf8(a));
    assert(bytes.subrange(n, bytes.len() as int) =~= vstd::utf8::encode_utf8(b));
    vstd::utf8::is_char_boundary_start_end_of_seq(bytes);
    if 0 < n < bytes.len() {
        vstd::utf8::is_char_boundary_iff_is_leading_byte(bytes, n);
    }
}

/// Two texts are the same but for the case of ASCII letters if at each place they have the same
/// character, or a capital and its small letter.
pub proof fn ascii_case_is_ignored(a: Seq<char>, b: Seq<char>)
    ensures
        text::same_ignoring_ascii_case(a, b) <==> a.len() == b.len() && forall|i: int|
            0 <= i < a.len() ==> {
                let (x, y) = ((#[trigger] a[i]) as u32, b[i] as u32);
                ||| x == y
                ||| 65 <= x <= 90 && y == x + 32
                ||| 65 <= y <= 90 && x == y + 32
            },
{
    assert forall|x: char, y: char|
        text::ascii_lower(x) == text::ascii_lower(y) <==> {
            ||| x as u32 == y as u32
            ||| 65 <= x as u32 <= 90 && y as u32 == x as u32 + 32
            ||| 65 <= y as u32 <= 90 && x as u32 == y as u32 + 32
        } by {
        lemma_lower(x);
        lemma_lower(y);
    }
    if text::same_ignoring_ascii_case(a, b) {
        assert forall|i: int| 0 <= i < a.len() implies {
            let (x, y) = ((#[trigger] a[i]) as u32, b[i] as u32);
            ||| x == y
            ||| 65 <= x <= 90 && y == x + 32
            ||| 65 <= y <= 90 && x == y + 32
        } by {
            assert(text::ascii_lower(a[i]) == text::ascii_lower(b[i]));
        }
    }
    if a.len() == b.len() && forall|i: int|
        0 <= i < a.len() ==> {
            let (x, y) = ((#[trigger] a[i]) as u32, b[i] as u32);
            ||| x == y
            ||| 65 <= x <= 90 && y == x + 32
            ||| 65 <= y <= 90 && x == y + 32
        } {
        assert forall|i: int| 0 <= i < a.len() implies text::ascii_lower(#[trigger] a[i])
            == text::ascii_lower(b[i]) by {
            let y = b[i];
        }
    }
}

proof fn lemma_lower(c: char)
    ensures
        text::ascii_lower(c) as u32 == (if 65 <= c as u32 <= 90 {
            c as u32 + 32
        } else {
            c as u32 as int
        }),
{
}

/// The digits of a number below ten are one, and any other has those of its tenth before its last
/// digit, which counts the ones.
pub proof fn digits_are_decimal(n: nat, ones: nat)
    requires
        ones < 10,
    ensures
        text::decimal(ones).len() == 1,
        text::decimal(ones)[0] as u32 == 48 + ones,
        n > 0 ==> text::decimal(10 * n + ones) == text::decimal(n) + text::decimal(ones),
{
    if n > 0 {
        assert((10 * n + ones) / 10 == n && (10 * n + ones) % 10 == ones);
        assert(text::decimal(10 * n + ones) =~= text::decimal(n) + text::decimal(ones));
    }
}

/// `c` is one of the ten decimal digits.
pub open spec fn is_digit(c: char) -> bool {
    48 <= c as u32 <= 57
}

/// A further digit makes the number that a text writes ten times as large and adds itself; a number
/// that does not fit is none.
pub proof fn numbers_read_digit_by_digit(s: Seq<char>, v: u64, c: char)
    requires
        text::u64_value(s) == Some(v),
        is_digit(c),
    ensures
        ({
            let longer = 10 * v + (c as u32 - 48);
            text::u64_value(s.push(c)) == (if longer <= u64::MAX {
                Some(longer as u64)
            } else {
                None
            })
        }),
{
    if s.first() == '+' {
        assert(s.push(c).drop_first() =~= s.drop_first().push(c));
        assert(s.drop_first().push(c).drop_last() =~= s.drop_first());
    } else {
        assert(s.push(c).drop_last() =~= s);
    }
}

/// A text of one digit writes that number, and a plus sign before a number changes nothing.
pub proof fn numbers_start_with_a_digit(c: char, s: Seq<char>)
    ensures
        is_digit(c) ==> text::u64_value(seq![c]) == Some((c as u32 - 48) as u64),
        s.len() > 0 && s[0] != '+' ==> text::u64_value(seq!['+'] + s) == text::u64_value(s),
{
    reveal_with_fuel(text::digits_value, 2);
    assert(seq![c].drop_last() =~= Seq::<char>::empty());
    assert((seq!['+'] + s).drop_first() =~= s);
}

proof fn lemma_no_digit(s: Seq<char>, i: int)
    requires
        0 <= i < s.len(),
        !is_digit(s[i]),
    ensures
        text::digits_value(s) is None,
    decreases s.len(),
{
    if i < s.len() - 1 {
        lemma_no_digit(s.drop_last(), i);
    }
}

/// A text without a digit writes no number, and neither does one with any other character, but for
/// a plus sign at its start.
pub proof fn other_texts_are_no_numbers(s: Seq<char>, i: int)
    requires
        s.len() == 0 || s == seq!['+'] || (0 <= i < s.len() && !is_digit(s[i]) && (i > 0 || s[0]
            != '+')),
    ensures
        text::u64_value(s) is None,
{
    if s.len() > 0 && s != seq!['+'] {
        if s.first() == '+' {
            lemma_no_digit(s.drop_first(), i - 1);
        } else {
            lemma_no_digit(s, i);
        }
    } else if s.len() > 0 {
        assert(s.drop_first().len() == 0);
    }
}

proof fn lemma_digit(c: char)
    requires
        is_digit(c),
    ensures
        text::digit_value(c) is Some,
{
}

proof fn lemma_digits(s: Seq<char>)
    requires
        forall|i: int| 0 <= i < s.len() ==> is_digit(#[trigger] s[i]),
    ensures
        text::digits_value(s) is Some,
    decreases s.len(),
{
    if s.len() > 0 {
        lemma_digits(s.drop_last());
        assert(is_digit(s[s.len() - 1]));
        lemma_digit(s.last());
    }
}

/// Where the digits of a text write no number, it is too large, and a further digit makes it none
/// either.
pub proof fn large_numbers_stay_large(s: Seq<char>, c: char)
    requires
        s.len() > 0,
        forall|i: int| 0 <= i < s.len() ==> is_digit(#[trigger] s[i]),
        is_digit(c),
        text::u64_value(s) is None,
    ensures
        text::u64_value(s.push(c)) is None,
{
    assert(is_digit(s[0]));
    assert(s.push(c).drop_last() =~= s);
    lemma_digits(s);
}

} // verus!
