//! Configuration of the client from environment variables.

use crate::apns::client::ApnsClient;
use crate::text;
use vstd::prelude::*;

verus! {

/// The environment variables that configure the client, each where it is set.
#[derive(Clone)]
pub struct ApnsVars {
    /// `APNS_KEY_ID`: key id from the developer portal.
    pub key_id: Option<String>,
    /// `APNS_TEAM_ID`: team id.
    pub team_id: Option<String>,
    /// `APNS_BUNDLE_ID`: bundle id of the app.
    pub bundle_id: Option<String>,
    /// `APNS_PRIVATE_KEY`: PEM text of the key.
    pub private_key: Option<String>,
    /// `APNS_PRODUCTION`: `true` for the production service.
    pub production: Option<String>,
}

impl ApnsVars {
    /// All variables without which there is no client.
    pub open spec fn complete(self) -> bool {
        self.key_id is Some && self.team_id is Some && self.bundle_id is Some && self.private_key
            is Some
    }

    /// The production service is asked for.
    pub open spec fn asks_production(self) -> bool {
        self.production matches Some(v) && text::same_ignoring_ascii_case(v@, "true"@)
    }

    /// Whether the production service is asked for.
    fn production(&self) -> (r: bool)
        ensures
            r == self.asks_production(),
    {
        match &self.production {
            Some(v) => text::equals_ignoring_ascii_case(v.as_str(), "true"),
            None => false,
        }
    }
}

/// The text with each backslash that is followed by the letter n, and that letter, replaced by a
/// line feed.
pub open spec fn unescaped(s: Seq<char>) -> Seq<char>
    decreases s.len(),
{
    if s.len() == 0 {
        seq![]
    } else if s.len() >= 2 && s[0] == '\\' && s[1] == 'n' {
        seq!['\n'] + unescaped(s.skip(2))
    } else {
        seq![s[0]] + unescaped(s.skip(1))
    }
}

/// The length of the first line, without its line feed.
pub open spec fn line_end(s: Seq<char>) -> nat
    decreases s.len(),
{
    if s.len() == 0 || s[0] == '\n' {
        0
    } else {
        1 + line_end(s.skip(1))
    }
}

/// What follows the first line and its line feed.
pub open spec fn after_line(s: Seq<char>) -> Seq<char> {
    if line_end(s) < s.len() {
        s.skip(line_end(s) as int + 1)
    } else {
        seq![]
    }
}

/// The lines of a text, each without white space at either end. A last line feed opens no
/// further line.
pub open spec fn trimmed_lines(s: Seq<char>) -> Seq<Seq<char>>
    decreases s.len(),
{
    if s.len() == 0 {
        seq![]
    } else {
        seq![text::trimmed(s.take(line_end(s) as int))] + trimmed_lines(after_line(s))
    }
}

/// The lines with a line feed between each two.
pub open spec fn joined(lines: Seq<Seq<char>>) -> Seq<char>
    decreases lines.len(),
{
    if lines.len() == 0 {
        seq![]
    } else if lines.len() == 1 {
        lines[0]
    } else {
        lines[0] + seq!['\n'] + joined(lines.skip(1))
    }
}

/// A PEM text as it is wanted: line feeds for their escapes, and no white space around a line.
pub open spec fn normalized(raw: Seq<char>) -> Seq<char> {
    joined(trimmed_lines(unescaped(raw)))
}

fn unescape(raw: &str) -> (r: Vec<char>)
    ensures
        r@ == unescaped(raw@),
{
    let chars = text::chars_of(raw);
    let mut out: Vec<char> = Vec::new();
    let mut i: usize = 0;
    assert(chars@.skip(0) =~= chars@);
    while i < chars.len()
        invariant
            i <= chars@.len(),
            out@ + unescaped(chars@.skip(i as int)) == unescaped(chars@),
        decreases chars@.len() - i,
    {
        let ghost rest = chars@.skip(i as int);
        if i + 1 < chars.len() && chars[i] == '\\' && chars[i + 1] == 'n' {
            assert(rest.skip(2) =~= chars@.skip(i + 2));
            assert(out@ + (seq!['\n'] + unescaped(rest.skip(2))) =~= out@.push('\n') + unescaped(
                rest.skip(2),
            ));
            out.push('\n');
            i = i + 2;
        } else {
            assert(rest.skip(1) =~= chars@.skip(i + 1));
            assert(out@ + (seq![rest[0]] + unescaped(rest.skip(1))) =~= out@.push(rest[0])
                + unescaped(rest.skip(1)));
            out.push(chars[i]);
            i = i + 1;
        }
    }
    assert(out@ + unescaped(chars@.skip(i as int)) =~= out@);
    out
}

/// Index of the line feed at which the line from `from` ends, or the length of the text.
fn find_line_end(chars: &Vec<char>, from: usize) -> (r: usize)
    requires
        from <= chars@.len(),
    ensures
        from <= r <= chars@.len(),
        r == from + line_end(chars@.skip(from as int)),
{
    let mut i: usize = from;
    while i < chars.len() && chars[i] != '\n'
        invariant
            from <= i <= chars@.len(),
            from + line_end(chars@.skip(from as int)) == i + line_end(chars@.skip(i as int)),
        decreases chars@.len() - i,
    {
        assert(chars@.skip(i as int).skip(1) =~= chars@.skip(i + 1));
        i = i + 1;
    }
    i
}

/// Brings a PEM text into the form that key readers expect: escaped line feeds become line feeds,
/// and white space around lines goes. That takes keys from environment files, with indentation or
/// on a single line.
pub fn normalize_pem(raw: &str) -> (r: String)
    ensures
        r@ == normalized(raw@),
{
    let chars = unescape(raw);
    let mut out = String::new();
    let mut at: usize = 0;
    let ghost all = joined(trimmed_lines(chars@));
    assert(chars@.skip(0) =~= chars@);
    while at < chars.len()
        invariant
            at <= chars@.len(),
            all == joined(trimmed_lines(chars@)),
            at == 0 ==> out@.len() == 0,
            0 < at < chars@.len() ==> all == out@ + seq!['\n'] + joined(
                trimmed_lines(chars@.skip(at as int)),
            ),
            0 < at == chars@.len() ==> all == out@,
        decreases chars@.len() - at,
    {
        let ghost rest = chars@.skip(at as int);
        if at > 0 {
            out.push('\n');
        }
        let ghost before = out@;
        assert(all =~= before + joined(trimmed_lines(rest))) by {
            if at == 0 {
                assert(rest =~= chars@);
            }
        }
        let end = find_line_end(&chars, at);
        text::push_trimmed(&mut out, &chars, at, end);
        let ghost line = text::trimmed(chars@.subrange(at as int, end as int));
        assert(chars@.subrange(at as int, end as int) =~= rest.take(line_end(rest) as int));
        at = if end < chars.len() {
            end + 1
        } else {
            end
        };
        proof {
            assert(after_line(rest) =~= chars@.skip(at as int));
            let lines = trimmed_lines(rest);
            assert(lines.skip(1) =~= trimmed_lines(chars@.skip(at as int)));
            if at < chars@.len() {
                assert(trimmed_lines(chars@.skip(at as int)).len() > 0);
                assert(all =~= out@ + seq!['\n'] + joined(lines.skip(1)));
            } else {
                assert(lines.len() == 1);
                assert(all =~= out@);
            }
        }
    }
    out
}

/// Makes clients from environment variables.
pub struct ApnsBuilder;

impl ApnsBuilder {
    /// The client that the variables describe, with the key normalized; `None` if one of the
    /// required variables is missing.
    pub fn build(vars: ApnsVars) -> (r: Option<ApnsClient>)
        ensures
            r is Some <==> vars.complete(),
            r matches Some(client) ==> {
                &&& client.key_id@ == vars.key_id->0@
                &&& client.team_id@ == vars.team_id->0@
                &&& client.bundle_id@ == vars.bundle_id->0@
                &&& client.pem@ == normalized(vars.private_key->0@)
                &&& client.production == vars.asks_production()
            },
    {
        let production = vars.production();
        match (vars.key_id, vars.team_id, vars.bundle_id, vars.private_key) {
            (Some(key_id), Some(team_id), Some(bundle_id), Some(raw)) => {
                let pem = normalize_pem(raw.as_str());
                Some(ApnsClient::new(key_id, team_id, bundle_id, production, pem))
            },
            _ => None,
        }
    }

    /// The last five characters of a key, all of a shorter one: enough to tell keys apart in a
    /// log without showing them.
    pub fn key_tail(raw: &str) -> (r: String)
        ensures
            r@ == raw@.skip(if raw@.len() >= 5 {
                raw@.len() - 5
            } else {
                0
            }),
    {
        let chars = text::chars_of(raw);
        let from: usize = if chars.len() >= 5 {
            chars.len() - 5
        } else {
            0
        };
        assert(chars@.subrange(from as int, chars@.len() as int) =~= chars@.skip(from as int));
        text::string_of(&chars, from, chars.len())
    }
}

impl ApnsClient {
    /// The client that the variables describe, with the key as it stands; `None` if one of the
    /// required variables is missing.
    pub fn from_env(vars: ApnsVars) -> (r: Option<ApnsClient>)
        ensures
            r is Some <==> vars.complete(),
            r matches Some(client) ==> {
                &&& client.key_id@ == vars.key_id->0@
                &&& client.team_id@ == vars.team_id->0@
                &&& client.bundle_id@ == vars.bundle_id->0@
                &&& client.pem@ == vars.private_key->0@
                &&& client.production == vars.asks_production()
            },
    {
        let production = vars.production();
        match (vars.key_id, vars.team_id, vars.bundle_id, vars.private_key) {
            (Some(key_id), Some(team_id), Some(bundle_id), Some(pem)) => Some(
                ApnsClient::new(key_id, team_id, bundle_id, production, pem),
            ),
            _ => None,
        }
    }
}

/// The text with each line feed written as a backslash and the letter n.
pub open spec fn escaped(s: Seq<char>) -> Seq<char>
    decreases s.len(),
{
    if s.len() == 0 {
        seq![]
    } else if s[0] == '\n' {
        seq!['\\', 'n'] + escaped(s.skip(1))
    } else {
        seq![s[0]] + escaped(s.skip(1))
    }
}

proof fn lemma_unescape_escaped(s: Seq<char>)
    requires
        forall|i: int| 0 <= i < s.len() ==> s[i] != '\\',
    ensures
        unescaped(escaped(s)) == s,
    decreases s.len(),
{
    reveal_with_fuel(unescaped, 2);
    if s.len() > 0 {
        let rest = s.skip(1);
        lemma_unescape_escaped(rest);
        let e = escaped(s);
        if s[0] == '\n' {
            assert(e.skip(2) =~= escaped(rest));
        } else {
            assert(e.skip(1) =~= escaped(rest));
        }
        assert(seq![s[0]] + rest =~= s);
    }
}

/// A key without backslashes may be kept on one line with its line feeds escaped: the client gets
/// the same PEM text.
pub proof fn escaping_line_feeds_keeps_the_key(raw: Seq<char>)
    requires
        forall|i: int| 0 <= i < raw.len() ==> raw[i] != '\\',
    ensures
        normalized(escaped(raw)) == normalized(raw),
{
    lemma_unescape_escaped(raw);
    lemma_no_escapes(raw);
}

proof fn lemma_no_escapes(s: Seq<char>)
    requires
        forall|i: int| 0 <= i < s.len() ==> s[i] != '\\',
    ensures
        unescaped(s) == s,
    decreases s.len(),
{
    if s.len() > 0 {
        lemma_no_escapes(s.skip(1));
        assert(seq![s[0]] + s.skip(1) =~= s);
    }
}

/// No line of a normalized key has white space at either end.
pub proof fn normalized_lines_are_trimmed(s: Seq<char>, i: int)
    requires
        0 <= i < trimmed_lines(s).len(),
    ensures
        text::trimmed(trimmed_lines(s)[i]) == trimmed_lines(s)[i],
    decreases s.len(),
{
    if i == 0 {
        text::trimming_is_idempotent(s.take(line_end(s) as int));
    } else {
        normalized_lines_are_trimmed(after_line(s), i - 1);
    }
}

} // verus!
