//! A tree model of JSON values, the trusted bridge to the JSON parser, and
//! verified helpers for producing JSON text.
//!
//! Every response body is first turned into a [`Json`] tree; the verified
//! decoders of the resource modules then read that tree. Request bodies are
//! produced by [`credentials_body`], whose output is pinned character by
//! character.

use vstd::prelude::*;
use vstd::string::StrSliceExecFns;
use vstd::string::StringExecFns;

verus! {

/// A JSON value. Numbers are modelled as `i64`: the service's schemas use
/// integer counters and sizes only. An object is an ordered list of pairs;
/// a key is looked up by its first occurrence.
#[derive(Debug, PartialEq)]
pub enum Json {
    Null,
    Bool(bool),
    Num(i64),
    Str(String),
    Arr(Vec<Json>),
    Obj(Vec<(String, Json)>),
}

/// First-match lookup of `key` among object entries.
pub open spec fn lookup(entries: Seq<(String, Json)>, key: Seq<char>) -> Option<Json>
    decreases entries.len(),
{
    if entries.len() == 0 {
        None
    } else if entries[0].0@ == key {
        Some(entries[0].1)
    } else {
        lookup(entries.skip(1), key)
    }
}

/// The field named `key` of `j`, where `j` is an object that has it.
pub open spec fn get_of(j: Json, key: Seq<char>) -> Option<Json> {
    match j {
        Json::Obj(entries) => lookup(entries@, key),
        _ => None,
    }
}

/// What the JSON parser returns on a given text: `None` where the text is not
/// valid JSON, otherwise the parsed tree.
pub uninterp spec fn json_of(s: Seq<char>) -> Option<Json>;

#[verifier::external_type_specification]
#[verifier::external_body]
pub struct ExJsonValue(serde_json::Value);

/// Relies on `serde_json::Value`: maps each node of a parsed tree one-for-one
/// onto [`Json`]. Numbers that do not fit `i64` (the service sends none)
/// become `Null`.
#[verifier::external_body]
fn json_of_value(v: serde_json::Value) -> Json {
    match v {
        serde_json::Value::Null => Json::Null,
        serde_json::Value::Bool(b) => Json::Bool(b),
        serde_json::Value::Number(n) => match n.as_i64() {
            Some(i) => Json::Num(i),
            None => Json::Null,
        },
        serde_json::Value::String(s) => Json::Str(s),
        serde_json::Value::Array(a) => Json::Arr(a.into_iter().map(json_of_value).collect()),
        serde_json::Value::Object(m) => Json::Obj(
            m.into_iter().map(|(k, w)| (k, json_of_value(w))).collect(),
        ),
    }
}

/// Relies on `serde_json::from_str::<serde_json::Value>`: parses JSON text;
/// the result is a function of the text alone, named by [`json_of`].
#[verifier::external_body]
pub fn parse_json(s: &str) -> (r: Option<Json>)
    ensures
        r == json_of(s@),
{
    match serde_json::from_str::<serde_json::Value>(s) {
        Ok(v) => Some(json_of_value(v)),
        Err(_) => None,
    }
}

/// Relies on `String::push`: appends one character at the end.
#[verifier::external_body]
fn push_char(s: &mut String, c: char)
    ensures
        final(s)@ == old(s)@.push(c),
{
    s.push(c);
}

/// How one character is written inside a JSON string literal: quote,
/// backslash and the common control characters are escaped, every other
/// character stands for itself.
pub open spec fn esc_char(c: char) -> Seq<char> {
    if c == '"' {
        seq!['\\', '"']
    } else if c == '\\' {
        seq!['\\', '\\']
    } else if c == '\n' {
        seq!['\\', 'n']
    } else if c == '\r' {
        seq!['\\', 'r']
    } else if c == '\t' {
        seq!['\\', 't']
    } else {
        seq![c]
    }
}

/// The escaped form of a whole character sequence.
pub open spec fn esc_chars(s: Seq<char>) -> Seq<char>
    decreases s.len(),
{
    if s.len() == 0 {
        Seq::empty()
    } else {
        esc_char(s[0]) + esc_chars(s.skip(1))
    }
}

proof fn lemma_esc_chars_snoc(s: Seq<char>, i: int)
    requires
        0 <= i < s.len(),
    ensures
        esc_chars(s.take(i + 1)) == esc_chars(s.take(i)) + esc_char(s[i]),
    decreases i,
{
    if i == 0 {
        assert(s.take(1).skip(1) =~= Seq::<char>::empty());
        assert(s.take(0) =~= Seq::<char>::empty());
        assert(esc_chars(Seq::<char>::empty()) =~= Seq::<char>::empty());
        assert(s.take(1)[0] == s[0]);
        assert(esc_chars(s.take(1)) == esc_char(s[0]) + esc_chars(s.take(1).skip(1)));
        assert(esc_chars(s.take(1)) =~= esc_chars(s.take(0)) + esc_char(s[0]));
    } else {
        lemma_esc_chars_snoc(s.skip(1), i - 1);
        assert(s.take(i + 1).skip(1) =~= s.skip(1).take(i));
        assert(s.take(i).skip(1) =~= s.skip(1).take(i - 1));
        assert(s.take(i + 1)[0] == s[0]);
        assert(s.take(i)[0] == s[0]);
        assert(s.skip(1)[i - 1] == s[i]);
        assert(esc_chars(s.take(i + 1)) == esc_char(s[0]) + esc_chars(s.skip(1).take(i)));
        assert(esc_chars(s.take(i)) == esc_char(s[0]) + esc_chars(s.skip(1).take(i - 1)));
        assert(esc_char(s[0]) + (esc_chars(s.skip(1).take(i - 1)) + esc_char(s[i])) =~= (esc_char(
            s[0],
        ) + esc_chars(s.skip(1).take(i - 1))) + esc_char(s[i]));
    }
}

/// Appends the escaped form of `s` to `out`.
fn append_escaped(out: &mut String, s: &str)
    ensures
        final(out)@ == old(out)@ + esc_chars(s@),
{
    let n = s.unicode_len();
    let mut i: usize = 0;
    while i < n
        invariant
            n == s@.len(),
            i <= n,
            out@ == old(out)@ + esc_chars(s@.take(i as int)),
        decreases n - i,
    {
        let c = s.get_char(i);
        proof {
            lemma_esc_chars_snoc(s@, i as int);
            reveal_strlit("\\\"");
            reveal_strlit("\\\\");
            reveal_strlit("\\n");
            reveal_strlit("\\r");
            reveal_strlit("\\t");
        }
        if c == '"' {
            out.append("\\\"");
        } else if c == '\\' {
            out.append("\\\\");
        } else if c == '\n' {
            out.append("\\n");
        } else if c == '\r' {
            out.append("\\r");
        } else if c == '\t' {
            out.append("\\t");
        } else {
            push_char(out, c);
            assert(out@ =~= old(out)@ + esc_chars(s@.take(i as int)) + esc_char(c));
        }
        assert(out@ =~= old(out)@ + esc_chars(s@.take(i + 1 as int)));
        i = i + 1;
    }
    proof {
        assert(s@.take(n as int) =~= s@);
    }
}

/// The JSON text of the two-field credentials object sent to the account and
/// token endpoints: `{"address":"…","password":"…"}`, with both values
/// escaped as [`esc_chars`] says.
pub open spec fn credentials_text(address: Seq<char>, password: Seq<char>) -> Seq<char> {
    "{\"address\":\""@ + esc_chars(address) + "\",\"password\":\""@ + esc_chars(password) + "\"}"@
}

/// The request body carrying a mailbox address and a password.
pub fn credentials_body(address: &str, password: &str) -> (r: String)
    ensures
        r@ == credentials_text(address@, password@),
{
    let mut out = String::new();
    out.append("{\"address\":\"");
    append_escaped(&mut out, address);
    out.append("\",\"password\":\"");
    append_escaped(&mut out, password);
    out.append("\"}");
    out
}

/// The character of one decimal digit.
pub open spec fn digit_char(d: int) -> char {
    if d == 0 {
        '0'
    } else if d == 1 {
        '1'
    } else if d == 2 {
        '2'
    } else if d == 3 {
        '3'
    } else if d == 4 {
        '4'
    } else if d == 5 {
        '5'
    } else if d == 6 {
        '6'
    } else if d == 7 {
        '7'
    } else if d == 8 {
        '8'
    } else {
        '9'
    }
}

/// The decimal notation of a number, most significant digit first, no sign
/// and no leading zero.
pub open spec fn dec_digits(n: int) -> Seq<char>
    decreases n,
{
    if n < 10 {
        seq![digit_char(n)]
    } else {
        dec_digits(n / 10) + seq![digit_char(n % 10)]
    }
}

fn append_digit(out: &mut String, d: u64)
    requires
        d < 10,
    ensures
        final(out)@ == old(out)@ + seq![digit_char(d as int)],
{
    proof {
        reveal_strlit("0");
        reveal_strlit("1");
        reveal_strlit("2");
        reveal_strlit("3");
        reveal_strlit("4");
        reveal_strlit("5");
        reveal_strlit("6");
        reveal_strlit("7");
        reveal_strlit("8");
        reveal_strlit("9");
    }
    if d == 0 {
        out.append("0");
    } else if d == 1 {
        out.append("1");
    } else if d == 2 {
        out.append("2");
    } else if d == 3 {
        out.append("3");
    } else if d == 4 {
        out.append("4");
    } else if d == 5 {
        out.append("5");
    } else if d == 6 {
        out.append("6");
    } else if d == 7 {
        out.append("7");
    } else if d == 8 {
        out.append("8");
    } else {
        out.append("9");
    }
}

fn append_dec(out: &mut String, n: u64)
    ensures
        final(out)@ == old(out)@ + dec_digits(n as int),
    decreases n,
{
    if n < 10 {
        append_digit(out, n);
    } else {
        append_dec(out, n / 10);
        append_digit(out, n % 10);
        assert(old(out)@ + dec_digits((n / 10) as int) + seq![digit_char((n % 10) as int)] =~= old(
            out,
        )@ + (dec_digits((n / 10) as int) + seq![digit_char((n % 10) as int)]));
    }
}

/// The decimal notation of `n`, as text.
pub fn u64_to_dec(n: u64) -> (r: String)
    ensures
        r@ == dec_digits(n as int),
{
    let mut out = String::new();
    append_dec(&mut out, n);
    proof {
        assert(Seq::<char>::empty() + dec_digits(n as int) =~= dec_digits(n as int));
    }
    out
}

} // verus!
