//! The service's JSON wire format: encoding responses, parsing query bodies.
//!
//! The format is the service's own: a response is one JSON object with the
//! members `status`, `query`, `data`, `score` in that order, and a query body
//! is one JSON object with the members `category` and `query`, both strings,
//! in either order.  String escapes are the JSON ones (`\"`, `\\`, `\/`,
//! `\b`, `\f`, `\n`, `\r`, `\t`); any other character except the control
//! range stands for itself.

use vstd::prelude::*;

use crate::schema::{QueryDetails, QueryView, ResponseDetails, ResponseView};
use crate::score::digit_char;
use crate::text::string_from_chars;

verus! {

/// The lowercase hexadecimal digit character for `d` (`0` to `15`).
pub open spec fn hex_char(d: nat) -> char {
    if d < 10 {
        digit_char(d)
    } else {
        ((d + 87) as u8) as char
    }
}

/// How a single character is written inside a JSON string: the short escapes
/// for quote, backslash and the common control characters, `\u00..` for the
/// rest of the control range, and the character itself otherwise.
pub open spec fn escaped_char(c: char) -> Seq<char> {
    if c == '"' {
        seq!['\\', '"']
    } else if c == '\\' {
        seq!['\\', '\\']
    } else if c == '\u{8}' {
        seq!['\\', 'b']
    } else if c == '\u{c}' {
        seq!['\\', 'f']
    } else if c == '\n' {
        seq!['\\', 'n']
    } else if c == '\r' {
        seq!['\\', 'r']
    } else if c == '\t' {
        seq!['\\', 't']
    } else if (c as u32) < 32 {
        seq!['\\', 'u', '0', '0', hex_char(((c as u32) / 16) as nat), hex_char(
            ((c as u32) % 16) as nat,
        )]
    } else {
        seq![c]
    }
}

/// The escaped writing of a whole string's characters.
pub open spec fn json_escaped(s: Seq<char>) -> Seq<char>
    decreases s.len(),
{
    if s.len() == 0 {
        Seq::<char>::empty()
    } else {
        json_escaped(s.drop_last()) + escaped_char(s.last())
    }
}

/// A JSON string: quote, escaped characters, quote.
pub open spec fn json_string(s: Seq<char>) -> Seq<char> {
    seq!['"'] + json_escaped(s) + seq!['"']
}

/// The JSON object a response is sent as, members in the fixed order
/// `status`, `query`, `data`, `score`; an absent query is `null`.
pub open spec fn response_json(r: ResponseView) -> Seq<char> {
    "{\"status\":"@ + json_string(r.status) + ",\"query\":"@ + (match r.query {
        Some(q) => json_string(q),
        None => "null"@,
    }) + ",\"data\":"@ + json_string(r.data) + ",\"score\":"@ + json_string(r.score) + "}"@
}

/// The lowercase hexadecimal digit character, executably.
fn hex_char_of(d: u32) -> (c: char)
    requires
        d < 16,
    ensures
        c == hex_char(d as nat),
{
    if d < 10 {
        ((48 + d) as u8) as char
    } else {
        ((87 + d) as u8) as char
    }
}

/// Appends the characters of `s` to `buf`.
fn push_chars(buf: &mut Vec<char>, s: &str)
    ensures
        final(buf)@ == old(buf)@ + s@,
{
    let len = s.unicode_len();
    let ghost head = buf@;
    let mut i: usize = 0;
    while i < len
        invariant
            i <= len,
            len == s@.len(),
            buf@ == head + s@.take(i as int),
        decreases len - i,
    {
        buf.push(s.get_char(i));
        proof {
            assert(s@.take(i + 1) =~= s@.take(i as int).push(s@[i as int]));
        }
        i = i + 1;
    }
    proof {
        assert(head + s@.take(len as int) =~= head + s@);
    }
}

/// Appends the escaped writing of `c` to `buf`.
fn push_escaped_char(buf: &mut Vec<char>, c: char)
    ensures
        final(buf)@ == old(buf)@ + escaped_char(c),
{
    if c == '"' {
        buf.push('\\');
        buf.push('"');
    } else if c == '\\' {
        buf.push('\\');
        buf.push('\\');
    } else if c == '\u{8}' {
        buf.push('\\');
        buf.push('b');
    } else if c == '\u{c}' {
        buf.push('\\');
        buf.push('f');
    } else if c == '\n' {
        buf.push('\\');
        buf.push('n');
    } else if c == '\r' {
        buf.push('\\');
        buf.push('r');
    } else if c == '\t' {
        buf.push('\\');
        buf.push('t');
    } else if (c as u32) < 32 {
        let v = c as u32;
        buf.push('\\');
        buf.push('u');
        buf.push('0');
        buf.push('0');
        buf.push(hex_char_of(v / 16));
        buf.push(hex_char_of(v % 16));
    } else {
        buf.push(c);
    }
    proof {
        assert(final(buf)@ =~= old(buf)@ + escaped_char(c));
    }
}

proof fn lemma_json_escaped_step(s: Seq<char>, i: int)
    requires
        0 <= i < s.len(),
    ensures
        json_escaped(s.take(i + 1)) == json_escaped(s.take(i)) + escaped_char(s[i]),
{
    assert(s.take(i + 1).drop_last() =~= s.take(i));
    assert(s.take(i + 1).last() == s[i]);
}

/// Appends `s` as a JSON string, quotes and escapes included, to `buf`.
fn push_json_string(buf: &mut Vec<char>, s: &str)
    ensures
        final(buf)@ == old(buf)@ + json_string(s@),
{
    buf.push('"');
    let len = s.unicode_len();
    let ghost head = buf@;
    let mut i: usize = 0;
    while i < len
        invariant
            i <= len,
            len == s@.len(),
            buf@ == head + json_escaped(s@.take(i as int)),
        decreases len - i,
    {
        push_escaped_char(buf, s.get_char(i));
        proof {
            lemma_json_escaped_step(s@, i as int);
        }
        i = i + 1;
    }
    buf.push('"');
    proof {
        assert(s@.take(len as int) =~= s@);
        assert(final(buf)@ =~= old(buf)@ + json_string(s@));
    }
}

/// Encodes a response as the JSON object the service sends on the wire.
pub fn encode_response(r: &ResponseDetails) -> (s: String)
    ensures
        s@ == response_json(r@),
{
    let mut buf: Vec<char> = Vec::new();
    push_chars(&mut buf, "{\"status\":");
    push_json_string(&mut buf, r.status.as_str());
    push_chars(&mut buf, ",\"query\":");
    match &r.query {
        Some(q) => push_json_string(&mut buf, q.as_str()),
        None => push_chars(&mut buf, "null"),
    }
    push_chars(&mut buf, ",\"data\":");
    push_json_string(&mut buf, r.data.as_str());
    push_chars(&mut buf, ",\"score\":");
    push_json_string(&mut buf, r.score.as_str());
    push_chars(&mut buf, "}");
    proof {
        assert(buf@ =~= response_json(r@));
    }
    string_from_chars(&buf)
}

/// JSON whitespace.
pub open spec fn is_ws(c: char) -> bool {
    c == ' ' || c == '\t' || c == '\n' || c == '\r'
}

/// The first position at or after `i` holding a non-whitespace character, or
/// the end of `s`.
pub open spec fn skip_ws(s: Seq<char>, i: int) -> int
    decreases s.len() - i,
{
    if 0 <= i < s.len() && is_ws(s[i]) {
        skip_ws(s, i + 1)
    } else {
        i
    }
}

/// The character an escape sequence `\c` stands for, or `None` where `c`
/// opens no accepted escape.
pub open spec fn unescaped(c: char) -> Option<char> {
    if c == '"' {
        Some('"')
    } else if c == '\\' {
        Some('\\')
    } else if c == '/' {
        Some('/')
    } else if c == 'b' {
        Some('\u{8}')
    } else if c == 'f' {
        Some('\u{c}')
    } else if c == 'n' {
        Some('\n')
    } else if c == 'r' {
        Some('\r')
    } else if c == 't' {
        Some('\t')
    } else {
        None
    }
}

/// Parses the body of a JSON string from position `i` (just after the opening
/// quote) to its closing quote: the characters it stands for and the position
/// after the closing quote, or `None` where the text is not a string body.
pub open spec fn parsed_string_body(s: Seq<char>, i: int) -> Option<(Seq<char>, int)>
    decreases s.len() - i,
{
    if i < 0 || i >= s.len() {
        None
    } else if s[i] == '"' {
        Some((Seq::<char>::empty(), i + 1))
    } else if s[i] == '\\' {
        if i + 1 < s.len() {
            match unescaped(s[i + 1]) {
                Some(c) => match parsed_string_body(s, i + 2) {
                    Some((rest, j)) => Some((seq![c] + rest, j)),
                    None => None,
                },
                None => None,
            }
        } else {
            None
        }
    } else if (s[i] as u32) < 32 {
        None
    } else {
        match parsed_string_body(s, i + 1) {
            Some((rest, j)) => Some((seq![s[i]] + rest, j)),
            None => None,
        }
    }
}

/// Parses a quoted JSON string starting exactly at `i`.
pub open spec fn parsed_string(s: Seq<char>, i: int) -> Option<(Seq<char>, int)> {
    if 0 <= i < s.len() && s[i] == '"' {
        parsed_string_body(s, i + 1)
    } else {
        None
    }
}

/// Parses one `"key": "value"` member starting at or after `i`, whitespace
/// allowed around the key, the colon and the value.
pub open spec fn parsed_member(s: Seq<char>, i: int) -> Option<((Seq<char>, Seq<char>), int)> {
    let i1 = skip_ws(s, i);
    match parsed_string(s, i1) {
        Some((key, j)) => {
            let j1 = skip_ws(s, j);
            if 0 <= j1 < s.len() && s[j1] == ':' {
                match parsed_string(s, skip_ws(s, j1 + 1)) {
                    Some((value, m)) => Some(((key, value), m)),
                    None => None,
                }
            } else {
                None
            }
        },
        None => None,
    }
}

/// Parses a whole query body: one JSON object holding exactly the members
/// `category` and `query`, both strings, in either order, with nothing but
/// whitespace around the tokens.  Yields the two field values, or `None`
/// where the text is not such an object.
pub open spec fn parsed_query(s: Seq<char>) -> Option<QueryView> {
    let i0 = skip_ws(s, 0);
    if 0 <= i0 < s.len() && s[i0] == '{' {
        match parsed_member(s, i0 + 1) {
            Some(((k1, v1), j)) => {
                let j1 = skip_ws(s, j);
                if 0 <= j1 < s.len() && s[j1] == ',' {
                    match parsed_member(s, j1 + 1) {
                        Some(((k2, v2), m)) => {
                            let m1 = skip_ws(s, m);
                            if 0 <= m1 < s.len() && s[m1] == '}' && skip_ws(s, m1 + 1) == s.len() {
                                if k1 == "category"@ && k2 == "query"@ {
                                    Some(QueryView { category: v1, query: v2 })
                                } else if k1 == "query"@ && k2 == "category"@ {
                                    Some(QueryView { category: v2, query: v1 })
                                } else {
                                    None
                                }
                            } else {
                                None
                            }
                        },
                        None => None,
                    }
                } else {
                    None
                }
            },
            None => None,
        }
    } else {
        None
    }
}

proof fn lemma_skip_ws_bounds(s: Seq<char>, i: int)
    requires
        0 <= i <= s.len(),
    ensures
        i <= skip_ws(s, i) <= s.len(),
    decreases s.len() - i,
{
    if i < s.len() && is_ws(s[i]) {
        lemma_skip_ws_bounds(s, i + 1);
    }
}

fn skip_ws_exec(s: &str, i: usize) -> (j: usize)
    requires
        i <= s@.len(),
    ensures
        j == skip_ws(s@, i as int),
        i <= j <= s@.len(),
    decreases s@.len() - i,
{
    if i < s.unicode_len() {
        let c = s.get_char(i);
        if c == ' ' || c == '\t' || c == '\n' || c == '\r' {
            skip_ws_exec(s, i + 1)
        } else {
            i
        }
    } else {
        i
    }
}

fn unescaped_exec(c: char) -> (r: Option<char>)
    ensures
        r == unescaped(c),
{
    if c == '"' {
        Some('"')
    } else if c == '\\' {
        Some('\\')
    } else if c == '/' {
        Some('/')
    } else if c == 'b' {
        Some('\u{8}')
    } else if c == 'f' {
        Some('\u{c}')
    } else if c == 'n' {
        Some('\n')
    } else if c == 'r' {
        Some('\r')
    } else if c == 't' {
        Some('\t')
    } else {
        None
    }
}

fn parse_string_body(s: &str, i: usize) -> (r: Option<(Vec<char>, usize)>)
    requires
        i <= s@.len(),
    ensures
        r is Some <==> parsed_string_body(s@, i as int) is Some,
        r matches Some((v, j)) ==> (parsed_string_body(s@, i as int) matches Some((sv, sj)) && v@
            == sv && j == sj && i < j <= s@.len()),
    decreases s@.len() - i,
{
    let len = s.unicode_len();
    if i >= len {
        return None;
    }
    let c = s.get_char(i);
    if c == '"' {
        Some((Vec::new(), i + 1))
    } else if c == '\\' {
        if i + 1 < len {
            match unescaped_exec(s.get_char(i + 1)) {
                Some(u) => match parse_string_body(s, i + 2) {
                    Some((rest, j)) => {
                        let mut v: Vec<char> = Vec::new();
                        v.push(u);
                        let mut tail = rest;
                        v.append(&mut tail);
                        Some((v, j))
                    },
                    None => None,
                },
                None => None,
            }
        } else {
            None
        }
    } else if (c as u32) < 32 {
        None
    } else {
        match parse_string_body(s, i + 1) {
            Some((rest, j)) => {
                let mut v: Vec<char> = Vec::new();
                v.push(c);
                let mut tail = rest;
                v.append(&mut tail);
                Some((v, j))
            },
            None => None,
        }
    }
}

fn parse_string(s: &str, i: usize) -> (r: Option<(Vec<char>, usize)>)
    requires
        i <= s@.len(),
    ensures
        r is Some <==> parsed_string(s@, i as int) is Some,
        r matches Some((v, j)) ==> (parsed_string(s@, i as int) matches Some((sv, sj)) && v@ == sv
            && j == sj && i < j <= s@.len()),
{
    if i < s.unicode_len() && s.get_char(i) == '"' {
        parse_string_body(s, i + 1)
    } else {
        None
    }
}

fn parse_member(s: &str, i: usize) -> (r: Option<(Vec<char>, Vec<char>, usize)>)
    requires
        i <= s@.len(),
    ensures
        r is Some <==> parsed_member(s@, i as int) is Some,
        r matches Some((k, v, j)) ==> (parsed_member(s@, i as int) matches Some(((sk, sv), sj))
            && k@ == sk && v@ == sv && j == sj && j <= s@.len()),
{
    proof {
        lemma_skip_ws_bounds(s@, i as int);
    }
    let i1 = skip_ws_exec(s, i);
    match parse_string(s, i1) {
        Some((key, j)) => {
            proof {
                lemma_skip_ws_bounds(s@, j as int);
            }
            let j1 = skip_ws_exec(s, j);
            if j1 < s.unicode_len() && s.get_char(j1) == ':' {
                proof {
                    lemma_skip_ws_bounds(s@, j1 + 1);
                }
                let k = skip_ws_exec(s, j1 + 1);
                match parse_string(s, k) {
                    Some((value, m)) => Some((key, value, m)),
                    None => None,
                }
            } else {
                None
            }
        },
        None => None,
    }
}

/// Whether `v` spells exactly the characters of `expected`.
fn chars_eq_str(v: &Vec<char>, expected: &str) -> (r: bool)
    ensures
        r == (v@ == expected@),
{
    let len = expected.unicode_len();
    if v.len() != len {
        return false;
    }
    let mut i: usize = 0;
    while i < len
        invariant
            i <= len,
            len == expected@.len(),
            v@.len() == len,
            forall|k: int| 0 <= k < i ==> v@[k] == expected@[k],
        decreases len - i,
    {
        if v[i] != expected.get_char(i) {
            return false;
        }
        i = i + 1;
    }
    proof {
        assert(v@ =~= expected@);
    }
    true
}

/// Parses a request body as the `{category, query}` JSON object.  Succeeds
/// exactly on the bodies the grammar above admits, handing back the decoded
/// field values; anything else is `None`, to be answered as invalid.
pub fn parse_query(body: &str) -> (r: Option<QueryDetails>)
    ensures
        r is Some <==> parsed_query(body@) is Some,
        r matches Some(q) ==> parsed_query(body@) == Some(q@),
{
    proof {
        lemma_skip_ws_bounds(body@, 0);
    }
    let i0 = skip_ws_exec(body, 0);
    if !(i0 < body.unicode_len() && body.get_char(i0) == '{') {
        return None;
    }
    let m1 = parse_member(body, i0 + 1);
    match m1 {
        Some((k1, v1, j)) => {
            proof {
                lemma_skip_ws_bounds(body@, j as int);
            }
            let j1 = skip_ws_exec(body, j);
            if !(j1 < body.unicode_len() && body.get_char(j1) == ',') {
                return None;
            }
            match parse_member(body, j1 + 1) {
                Some((k2, v2, m)) => {
                    proof {
                        lemma_skip_ws_bounds(body@, m as int);
                    }
                    let m1p = skip_ws_exec(body, m);
                    if !(m1p < body.unicode_len() && body.get_char(m1p) == '}') {
                        return None;
                    }
                    proof {
                        lemma_skip_ws_bounds(body@, m1p + 1);
                    }
                    if skip_ws_exec(body, m1p + 1) != body.unicode_len() {
                        return None;
                    }
                    if chars_eq_str(&k1, "category") && chars_eq_str(&k2, "query") {
                        Some(
                            QueryDetails {
                                category: string_from_chars(&v1),
                                query: string_from_chars(&v2),
                            },
                        )
                    } else if chars_eq_str(&k1, "query") && chars_eq_str(&k2, "category") {
                        Some(
                            QueryDetails {
                                category: string_from_chars(&v2),
                                query: string_from_chars(&v1),
                            },
                        )
                    } else {
                        None
                    }
                },
                None => None,
            }
        },
        None => None,
    }
}

} // verus!
