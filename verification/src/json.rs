//! A small JSON reader for the upstream payload: recursive descent over
//! characters into a generic [`JsonValue`] tree.  Numbers are kept as their
//! exact wire tokens (the library holds no floating point); unknown object
//! fields are carried along, so schema decoding can tolerate them.

use vstd::prelude::*;
use vstd::string::StrSliceExecFns;
use vstd::string::StringExecFns;
use crate::errors::DecodeError;
use crate::strutil::str_eq;

verus! {

/// A decoded JSON document fragment.  Numeric values keep their textual
/// token so that nothing is rounded before the consumer chooses how to
/// interpret them.
pub enum JsonValue {
    Null,
    Bool(bool),
    Num(String),
    Str(String),
    Arr(Vec<JsonValue>),
    Obj(Vec<(String, JsonValue)>),
}

/// The value under `key` in an object's field list: first match wins, as in
/// the reader itself.
pub open spec fn obj_lookup(fields: Seq<(String, JsonValue)>, key: Seq<char>) -> Option<JsonValue>
    decreases fields.len(),
{
    if fields.len() == 0 {
        None
    } else if fields[0].0@ == key {
        Some(fields[0].1)
    } else {
        obj_lookup(fields.skip(1), key)
    }
}

/// Look a key up in an object's field list (first match wins).
pub fn obj_get<'a>(fields: &'a Vec<(String, JsonValue)>, key: &str) -> (r: Option<&'a JsonValue>)
    ensures
        r matches Some(v) ==> obj_lookup(fields@, key@) == Some(*v),
        r is None ==> obj_lookup(fields@, key@) is None,
{
    let mut i: usize = 0;
    proof {
        assert(fields@.skip(0) =~= fields@);
    }
    while i < fields.len()
        invariant
            i <= fields@.len(),
            obj_lookup(fields@, key@) == obj_lookup(fields@.skip(i as int), key@),
        decreases fields@.len() - i,
    {
        proof {
            assert(fields@.skip(i as int)[0] == fields@[i as int]);
            assert(fields@.skip(i as int).skip(1) =~= fields@.skip(i as int + 1));
        }
        if str_eq(fields[i].0.as_str(), key) {
            return Some(&fields[i].1);
        }
        i = i + 1;
    }
    proof {
        assert(fields@.skip(i as int) =~= Seq::<(String, JsonValue)>::empty());
    }
    None
}

/// JSON insignificant whitespace.
pub open spec fn is_ws(c: char) -> bool {
    c == ' ' || c == '\t' || c == '\n' || c == '\r'
}

/// Decimal digit characters.
pub open spec fn is_digit(c: char) -> bool {
    c == '0' || c == '1' || c == '2' || c == '3' || c == '4' || c == '5' || c == '6' || c == '7'
        || c == '8' || c == '9'
}

fn is_digit_exec(c: char) -> (b: bool)
    ensures
        b == is_digit(c),
{
    c == '0' || c == '1' || c == '2' || c == '3' || c == '4' || c == '5' || c == '6' || c == '7'
        || c == '8' || c == '9'
}

fn skip_ws(s: &str, n: usize, i: usize) -> (r: usize)
    requires
        n == s@.len(),
        i <= n,
    ensures
        i <= r <= n,
        forall|k: int| i <= k < r ==> is_ws(s@[k]),
        r < n ==> !is_ws(s@[r as int]),
{
    let mut j: usize = i;
    while j < n
        invariant
            n == s@.len(),
            i <= j <= n,
            forall|k: int| i <= k < j ==> is_ws(s@[k]),
        decreases n - j,
    {
        let c = s.get_char(j);
        if c == ' ' || c == '\t' || c == '\n' || c == '\r' {
            j = j + 1;
        } else {
            return j;
        }
    }
    j
}

/// Scan a string literal starting at the opening quote `i`; returns the
/// decoded content and the position after the closing quote.  The short
/// escapes of JSON are decoded; `\u` escapes and unescaped control
/// characters are rejected.
fn parse_string(s: &str, n: usize, i: usize) -> (r: Result<(String, usize), DecodeError>)
    requires
        n == s@.len(),
        i < n,
        s@[i as int] == '"',
    ensures
        r matches Ok((_, j)) ==> i < j <= n,
    decreases n - i,
{
    let mut out = String::new();
    let mut j: usize = i + 1;
    while j < n
        invariant
            n == s@.len(),
            i < j <= n,
        decreases n - j,
    {
        let c = s.get_char(j);
        if c == '"' {
            return Ok((out, j + 1));
        } else if c == '\\' {
            if j + 1 >= n {
                return Err(DecodeError::Syntax { pos: j });
            }
            let e = s.get_char(j + 1);
            let piece: &'static str = match e {
                '"' => "\"",
                '\\' => "\\",
                '/' => "/",
                'b' => "\u{0008}",
                'f' => "\u{000C}",
                'n' => "\n",
                'r' => "\r",
                't' => "\t",
                _ => {
                    return Err(DecodeError::Syntax { pos: j + 1 });
                },
            };
            out.append(piece);
            j = j + 2;
        } else if (c as u32) < 0x20 {
            return Err(DecodeError::Syntax { pos: j });
        } else {
            out.append(s.substring_char(j, j + 1));
            j = j + 1;
        }
    }
    Err(DecodeError::Syntax { pos: n })
}

/// Scan a numeric token starting at `i` (a digit or a minus sign) and return
/// its exact text and the position after it.  The token follows the JSON
/// number grammar: an optional sign, an integer part without redundant
/// leading zeros, an optional fraction, an optional exponent.
fn parse_number(s: &str, n: usize, i: usize) -> (r: Result<(String, usize), DecodeError>)
    requires
        n == s@.len(),
        i < n,
    ensures
        r matches Ok((tok, j)) ==> i < j <= n && tok@ == s@.subrange(i as int, j as int),
    decreases n - i,
{
    let mut j: usize = i;
    if s.get_char(j) == '-' {
        j = j + 1;
    }
    if j >= n || !is_digit_exec(s.get_char(j)) {
        return Err(DecodeError::Syntax { pos: j });
    }
    if s.get_char(j) == '0' {
        j = j + 1;
    } else {
        j = j + 1;
        while j < n && is_digit_exec(s.get_char(j))
            invariant
                n == s@.len(),
                i < j <= n,
            decreases n - j,
        {
            j = j + 1;
        }
    }
    if j < n && s.get_char(j) == '.' {
        j = j + 1;
        if j >= n || !is_digit_exec(s.get_char(j)) {
            return Err(DecodeError::Syntax { pos: j });
        }
        while j < n && is_digit_exec(s.get_char(j))
            invariant
                n == s@.len(),
                i < j <= n,
            decreases n - j,
        {
            j = j + 1;
        }
    }
    if j < n && (s.get_char(j) == 'e' || s.get_char(j) == 'E') {
        j = j + 1;
        if j < n && (s.get_char(j) == '+' || s.get_char(j) == '-') {
            j = j + 1;
        }
        if j >= n || !is_digit_exec(s.get_char(j)) {
            return Err(DecodeError::Syntax { pos: j });
        }
        while j < n && is_digit_exec(s.get_char(j))
            invariant
                n == s@.len(),
                i < j <= n,
            decreases n - j,
        {
            j = j + 1;
        }
    }
    let tok = s.substring_char(i, j).to_owned();
    Ok((tok, j))
}

/// Check that the literal `lit` occurs in `s` at position `i` and return the
/// position after it.
fn expect_lit(s: &str, n: usize, i: usize, lit: &str) -> (r: Result<usize, DecodeError>)
    requires
        n == s@.len(),
        i <= n,
    ensures
        r matches Ok(j) ==> i <= j <= n && j - i == lit@.len(),
    decreases n - i,
{
    let m = lit.unicode_len();
    if m > n - i {
        return Err(DecodeError::Syntax { pos: i });
    }
    if str_eq(s.substring_char(i, i + m), lit) {
        Ok(i + m)
    } else {
        Err(DecodeError::Syntax { pos: i })
    }
}

/// Parse one JSON value starting at `i`; returns the value and the position
/// after it.  `depth` bounds the remaining nesting of arrays and objects.
pub(crate) fn parse_value(s: &str, n: usize, i: usize, depth: u8) -> (r: Result<
    (JsonValue, usize),
    DecodeError,
>)
    requires
        n == s@.len(),
        i <= n,
    ensures
        r matches Ok((_, j)) ==> i < j <= n,
    decreases n - i,
{
    if i >= n {
        return Err(DecodeError::Syntax { pos: i });
    }
    if depth == 0 {
        return Err(DecodeError::Syntax { pos: i });
    }
    let c = s.get_char(i);
    if c == 'n' {
        let j = expect_lit(s, n, i, "null")?;
        proof {
            reveal_strlit("null");
        }
        Ok((JsonValue::Null, j))
    } else if c == 't' {
        let j = expect_lit(s, n, i, "true")?;
        proof {
            reveal_strlit("true");
        }
        Ok((JsonValue::Bool(true), j))
    } else if c == 'f' {
        let j = expect_lit(s, n, i, "false")?;
        proof {
            reveal_strlit("false");
        }
        Ok((JsonValue::Bool(false), j))
    } else if c == '"' {
        let (content, j) = parse_string(s, n, i)?;
        Ok((JsonValue::Str(content), j))
    } else if c == '-' || is_digit_exec(c) {
        let (tok, j) = parse_number(s, n, i)?;
        Ok((JsonValue::Num(tok), j))
    } else if c == '[' {
        let mut items: Vec<JsonValue> = Vec::new();
        let mut pos: usize = skip_ws(s, n, i + 1);
        if pos < n && s.get_char(pos) == ']' {
            return Ok((JsonValue::Arr(items), pos + 1));
        }
        loop
            invariant
                n == s@.len(),
                i < pos <= n,
                depth >= 1,
            decreases n - pos,
        {
            let parsed = parse_value(s, n, pos, depth - 1)?;
            items.push(parsed.0);
            let k = skip_ws(s, n, parsed.1);
            if k < n && s.get_char(k) == ',' {
                let next = skip_ws(s, n, k + 1);
                if next <= pos {
                    return Err(DecodeError::Syntax { pos: next });
                }
                pos = next;
            } else if k < n && s.get_char(k) == ']' {
                return Ok((JsonValue::Arr(items), k + 1));
            } else {
                return Err(DecodeError::Syntax { pos: k });
            }
        }
    } else if c == '{' {
        let mut fields: Vec<(String, JsonValue)> = Vec::new();
        let mut pos: usize = skip_ws(s, n, i + 1);
        if pos < n && s.get_char(pos) == '}' {
            return Ok((JsonValue::Obj(fields), pos + 1));
        }
        loop
            invariant
                n == s@.len(),
                i < pos <= n,
                depth >= 1,
            decreases n - pos,
        {
            if !(pos < n && s.get_char(pos) == '"') {
                return Err(DecodeError::Syntax { pos });
            }
            let (key, after_key) = parse_string(s, n, pos)?;
            let colon = skip_ws(s, n, after_key);
            if !(colon < n && s.get_char(colon) == ':') {
                return Err(DecodeError::Syntax { pos: colon });
            }
            let vstart = skip_ws(s, n, colon + 1);
            let parsed = parse_value(s, n, vstart, depth - 1)?;
            fields.push((key, parsed.0));
            let k = skip_ws(s, n, parsed.1);
            if k < n && s.get_char(k) == ',' {
                let next = skip_ws(s, n, k + 1);
                if next <= pos {
                    return Err(DecodeError::Syntax { pos: next });
                }
                pos = next;
            } else if k < n && s.get_char(k) == '}' {
                return Ok((JsonValue::Obj(fields), k + 1));
            } else {
                return Err(DecodeError::Syntax { pos: k });
            }
        }
    } else {
        Err(DecodeError::Syntax { pos: i })
    }
}

/// Parse a whole JSON document: one value, possibly surrounded by
/// whitespace, covering the entire text.
pub(crate) fn parse_json(s: &str) -> (r: Result<JsonValue, DecodeError>)
{
    let n = s.unicode_len();
    let start = skip_ws(s, n, 0);
    let parsed = match parse_value(s, n, start, 64) {
        Ok(p) => p,
        Err(e) => {
            return Err(e);
        },
    };
    let end = skip_ws(s, n, parsed.1);
    if end == n {
        Ok(parsed.0)
    } else {
        Err(DecodeError::Syntax { pos: end })
    }
}

} // verus!
