//! Parsing of the resident-process connection file.
//!
//! The file carries the process id, the port and the auth token of a
//! warm resident process, either as a JSON object or in a legacy
//! colon-separated form `pid:port:token`.  The dispatch layer reads
//! the file and hands the contents over; parsing happens here.

use vstd::prelude::*;

verus! {

/// Connection details for the resident process.
#[derive(Debug, Clone, PartialEq, Eq)]
pub struct PulseFile {
    pub pid: u32,
    pub port: u16,
    pub token: String,
}

/// Whether a character has the Unicode White_Space property, the set
/// that str::trim removes at both ends.
pub open spec fn is_trim_whitespace(c: char) -> bool {
    let code = c as u32;
    ||| 9 <= code <= 13
    ||| code == 32
    ||| code == 0x85
    ||| code == 0xA0
    ||| code == 0x1680
    ||| 0x2000 <= code <= 0x200A
    ||| code == 0x2028
    ||| code == 0x2029
    ||| code == 0x202F
    ||| code == 0x205F
    ||| code == 0x3000
}

pub open spec fn drop_leading_ws(text: Seq<char>) -> Seq<char>
    decreases text.len(),
{
    if text.len() > 0 && is_trim_whitespace(text.first()) {
        drop_leading_ws(text.drop_first())
    } else {
        text
    }
}

pub open spec fn drop_trailing_ws(text: Seq<char>) -> Seq<char>
    decreases text.len(),
{
    if text.len() > 0 && is_trim_whitespace(text.last()) {
        drop_trailing_ws(text.drop_last())
    } else {
        text
    }
}

/// The text with leading and trailing whitespace removed.
pub open spec fn spec_trim(text: Seq<char>) -> Seq<char> {
    drop_trailing_ws(drop_leading_ws(text))
}

/// Relies on str::trim: removes exactly the leading and trailing
/// characters with the Unicode White_Space property.
#[verifier::external_body]
fn str_trim(text: &str) -> (trimmed: &str)
    ensures
        trimmed@ == spec_trim(text@),
{
    text.trim()
}

/// What parsing the text as JSON and reading its `pid`, `port` and
/// `token` fields yields: the numbers when present as unsigned JSON
/// integers, the token when present as a JSON string, `None`
/// components otherwise.  serde_json parsing is a function of the
/// text alone, so the triple is named.
pub uninterp spec fn json_pulse_fields_of(text: Seq<char>) -> (
    Option<u64>,
    Option<u64>,
    Option<Seq<char>>,
);

/// Relies on serde_json's from_str for Value, Value::get and the
/// as_u64/as_str accessors: field lookup in the parsed object, with
/// all three components absent when the text is not valid JSON.  No
/// call panics.
#[verifier::external_body]
fn json_pulse_fields(text: &str) -> (fields: (Option<u64>, Option<u64>, Option<String>))
    ensures
        fields.0 == json_pulse_fields_of(text@).0,
        fields.1 == json_pulse_fields_of(text@).1,
        match fields.2 {
            Some(token) => json_pulse_fields_of(text@).2 == Some(token@),
            None => json_pulse_fields_of(text@).2 is None,
        },
{
    let value: serde_json::Value = match serde_json::from_str(text) {
        Ok(value) => value,
        Err(_) => return (None, None, None),
    };
    let pid = value.get("pid").and_then(|v| v.as_u64());
    let port = value.get("port").and_then(|v| v.as_u64());
    let token = value.get("token").and_then(|v| v.as_str()).map(|s| s.to_owned());
    (pid, port, token)
}

/// Assemble the connection details from the extracted JSON fields,
/// exactly as a typed decode of `{pid, port, token}` would: every
/// field must be present and of the right shape, and the numbers must
/// fit their fields.
pub fn pulse_from_fields(pid: Option<u64>, port: Option<u64>, token: Option<String>) -> (connection:
    Option<PulseFile>)
    ensures
        connection is Some <==> {
            &&& pid matches Some(p) && p <= u32::MAX
            &&& port matches Some(q) && q <= u16::MAX
            &&& token is Some
        },
        connection matches Some(c) ==> {
            &&& pid matches Some(p) && c.pid == p
            &&& port matches Some(q) && c.port == q
            &&& token matches Some(t) && c.token == t
        },
{
    match (pid, port, token) {
        (Some(p), Some(q), Some(t)) => {
            if p <= 0xFFFF_FFFFu64 && q <= 0xFFFFu64 {
                Some(PulseFile { pid: p as u32, port: q as u16, token: t })
            } else {
                None
            }
        },
        _ => None,
    }
}

/// Whether a character is an ASCII decimal digit.
pub open spec fn is_dec_digit(c: char) -> bool {
    48 <= c as u32 <= 57
}

pub open spec fn all_dec_digits(text: Seq<char>) -> bool {
    forall|i: int| 0 <= i < text.len() ==> is_dec_digit(text[i])
}

/// The numeric value of a digit character (0 for a non-digit, which
/// the parsing predicates rule out).
pub open spec fn digit_value(c: char) -> nat {
    if is_dec_digit(c) {
        (c as u32 - 48) as nat
    } else {
        0
    }
}

/// The value of a digit string read in base 10.
pub open spec fn dec_value(digits: Seq<char>) -> nat
    decreases digits.len(),
{
    if digits.len() == 0 {
        0
    } else {
        dec_value(digits.drop_last()) * 10 + digit_value(digits.last())
    }
}

/// What str::parse for an unsigned integer accepts, before any range
/// check: an optional leading '+', then one or more decimal digits.
pub open spec fn spec_parse_uint(text: Seq<char>) -> Option<nat> {
    let digits = if text.len() > 0 && text[0] == '+' {
        text.subrange(1, text.len() as int)
    } else {
        text
    };
    if digits.len() > 0 && all_dec_digits(digits) {
        Some(dec_value(digits))
    } else {
        None
    }
}

proof fn lemma_dec_value_take_le(digits: Seq<char>, k: int)
    requires
        0 <= k <= digits.len(),
    ensures
        dec_value(digits.take(k)) <= dec_value(digits),
    decreases digits.len(),
{
    if k < digits.len() {
        assert(digits.drop_last().take(k) =~= digits.take(k));
        lemma_dec_value_take_le(digits.drop_last(), k);
        assert(dec_value(digits) == dec_value(digits.drop_last()) * 10 + digit_value(
            digits.last(),
        ));
    } else {
        assert(digits.take(k) =~= digits);
    }
}

/// Parse an unsigned decimal integer the way str::parse does (an
/// optional leading '+', then one or more digits), refusing values
/// above `max`.
pub fn parse_uint_capped(text: &str, max: u64) -> (parsed: Option<u64>)
    ensures
        parsed matches Some(value) ==> (spec_parse_uint(text@) matches Some(n) && n == value
            && value <= max),
        parsed is None ==> (spec_parse_uint(text@) matches Some(n) ==> n > max),
{
    let n = text.unicode_len();
    let start: usize = if n > 0 && text.get_char(0) == '+' {
        1
    } else {
        0
    };
    let ghost digits = if text@.len() > 0 && text@[0] == '+' {
        text@.subrange(1, text@.len() as int)
    } else {
        text@
    };
    if start >= n {
        proof {
            assert(digits.len() == 0);
        }
        return None;
    }
    let mut acc: u128 = 0;
    let mut i: usize = start;
    while i < n
        invariant
            start <= i <= n,
            n == text@.len(),
            start <= 1,
            start == 1 <==> (text@.len() > 0 && text@[0] == '+'),
            start < n,
            digits == text@.subrange(start as int, text@.len() as int),
            forall|j: int| start <= j < i ==> is_dec_digit(text@[j]),
            acc == dec_value(text@.subrange(start as int, i as int)),
            acc <= max,
        decreases n - i,
    {
        let c = text.get_char(i);
        let code = c as u32;
        if code < 48 || code > 57 {
            proof {
                assert(digits[i - start] == text@[i as int]);
                assert(!all_dec_digits(digits));
            }
            return None;
        }
        let d = (code - 48) as u128;
        proof {
            let prefix = text@.subrange(start as int, i as int);
            let next = text@.subrange(start as int, i + 1);
            assert(next.drop_last() =~= prefix);
            assert(next.last() == text@[i as int]);
            assert(dec_value(next) == dec_value(prefix) * 10 + digit_value(text@[i as int]));
        }
        acc = acc * 10 + d;
        if acc > max as u128 {
            proof {
                assert(acc == dec_value(text@.subrange(start as int, i + 1)));
                assert(text@.subrange(start as int, i + 1) =~= digits.take(i + 1 - start));
                lemma_dec_value_take_le(digits, i + 1 - start);
                assert(dec_value(digits) > max);
                let d2 = if text@.len() > 0 && text@[0] == '+' {
                    text@.subrange(1, text@.len() as int)
                } else {
                    text@
                };
                assert(d2 == digits);
                assert(spec_parse_uint(text@) matches Some(n) ==> n == dec_value(d2));
            }
            return None;
        }
        i = i + 1;
    }
    proof {
        assert(digits =~= text@.subrange(start as int, i as int));
        assert(digits.len() > 0 && all_dec_digits(digits));
        assert(spec_parse_uint(text@) == Some(dec_value(digits)));
    }
    Some(acc as u64)
}

/// The index of the first ':' at or after `from`, or -1 when there is
/// none.
pub open spec fn spec_find_colon(text: Seq<char>, from: int) -> int
    decreases text.len() - from
        when 0 <= from <= text.len()
{
    if from >= text.len() {
        -1
    } else if text[from] == ':' {
        from
    } else {
        spec_find_colon(text, from + 1)
    }
}

proof fn lemma_find_colon_characterize(text: Seq<char>, from: int, k: int)
    requires
        0 <= from <= k <= text.len(),
        forall|j: int| from <= j < k ==> text[j] != ':',
        k < text.len() ==> text[k] == ':',
    ensures
        spec_find_colon(text, from) == if k == text.len() {
            -1int
        } else {
            k
        },
    decreases k - from,
{
    if from < k {
        lemma_find_colon_characterize(text, from + 1, k);
    }
}

/// Find the first ':' at or after `from`.
fn find_colon(text: &str, from: usize) -> (found: Option<usize>)
    requires
        from <= text@.len(),
    ensures
        match found {
            Some(k) => from <= k < text@.len() && spec_find_colon(text@, from as int) == k,
            None => spec_find_colon(text@, from as int) == -1,
        },
{
    let n = text.unicode_len();
    let mut i: usize = from;
    while i < n
        invariant
            from <= i <= n,
            n == text@.len(),
            forall|j: int| from <= j < i ==> text@[j] != ':',
        decreases n - i,
    {
        if text.get_char(i) == ':' {
            proof {
                lemma_find_colon_characterize(text@, from as int, i as int);
            }
            return Some(i);
        }
        i = i + 1;
    }
    proof {
        lemma_find_colon_characterize(text@, from as int, n as int);
    }
    None
}

/// The pid field of a legacy connection line: the first part read as
/// a decimal u32, with 0 for anything unparsable.
pub open spec fn legacy_pid(part: Seq<char>) -> u32 {
    match spec_parse_uint(part) {
        Some(v) => if v <= u32::MAX {
            v as u32
        } else {
            0u32
        },
        None => 0u32,
    }
}

/// The port field of a legacy connection line: the second part read
/// as a decimal u16, with 5555 for anything unparsable.
pub open spec fn legacy_port(part: Seq<char>) -> u16 {
    match spec_parse_uint(part) {
        Some(v) => if v <= u16::MAX {
            v as u16
        } else {
            5555u16
        },
        None => 5555u16,
    }
}

/// The legacy colon-separated form, `pid:port:token`: at least three
/// colon-separated parts, the token being exactly the third part.
pub open spec fn spec_parse_legacy(text: Seq<char>) -> Option<(u32, u16, Seq<char>)> {
    let i1 = spec_find_colon(text, 0);
    if i1 < 0 {
        None
    } else {
        let i2 = spec_find_colon(text, i1 + 1);
        if i2 < 0 {
            None
        } else {
            let i3 = spec_find_colon(text, i2 + 1);
            let end = if i3 < 0 {
                text.len() as int
            } else {
                i3
            };
            Some(
                (
                    legacy_pid(text.subrange(0, i1)),
                    legacy_port(text.subrange(i1 + 1, i2)),
                    text.subrange(i2 + 1, end),
                ),
            )
        }
    }
}

/// Parse the legacy colon-separated connection line.
fn parse_legacy(text: &str) -> (connection: Option<PulseFile>)
    ensures
        connection is Some <==> spec_parse_legacy(text@) is Some,
        connection matches Some(c) ==> (spec_parse_legacy(text@) matches Some(f) && c.pid == f.0
            && c.port == f.1 && c.token@ == f.2),
{
    let n = text.unicode_len();
    let i1 = match find_colon(text, 0) {
        Some(k) => k,
        None => {
            return None;
        },
    };
    let i2 = match find_colon(text, i1 + 1) {
        Some(k) => k,
        None => {
            return None;
        },
    };
    let end = match find_colon(text, i2 + 1) {
        Some(k) => k,
        None => n,
    };
    let pid_part = text.substring_char(0, i1);
    let pid = match parse_uint_capped(pid_part, 0xFFFF_FFFFu64) {
        Some(v) => v as u32,
        None => 0,
    };
    let port_part = text.substring_char(i1 + 1, i2);
    let port = match parse_uint_capped(port_part, 0xFFFFu64) {
        Some(v) => v as u16,
        None => 5555,
    };
    let token = text.substring_char(i2 + 1, end).to_owned();
    Some(PulseFile { pid, port, token })
}

/// Parse the connection file contents: after trimming, a body that
/// opens with '{' is read as a JSON object with `pid`, `port` and
/// `token` fields (all three required, the numbers in range),
/// anything else as the legacy `pid:port:token` line.
pub fn parse_connection(content: &str) -> (connection: Option<PulseFile>)
    ensures
        (spec_trim(content@).len() == 0 || spec_trim(content@)[0] != '{') ==> {
            &&& connection is Some <==> spec_parse_legacy(spec_trim(content@)) is Some
            &&& connection matches Some(c) ==> (spec_parse_legacy(spec_trim(content@)) matches Some(
                f,
            ) && c.pid == f.0 && c.port == f.1 && c.token@ == f.2)
        },
        (spec_trim(content@).len() > 0 && spec_trim(content@)[0] == '{') ==> {
            let fields = json_pulse_fields_of(spec_trim(content@));
            &&& connection is Some <==> {
                &&& fields.0 matches Some(p) && p <= u32::MAX
                &&& fields.1 matches Some(q) && q <= u16::MAX
                &&& fields.2 is Some
            }
            &&& connection matches Some(c) ==> {
                &&& fields.0 == Some(c.pid as u64)
                &&& fields.1 == Some(c.port as u64)
                &&& fields.2 == Some(c.token@)
            }
        },
{
    let trimmed = str_trim(content);
    let n = trimmed.unicode_len();
    if n > 0 && trimmed.get_char(0) == '{' {
        let fields = json_pulse_fields(trimmed);
        pulse_from_fields(fields.0, fields.1, fields.2)
    } else {
        parse_legacy(trimmed)
    }
}

} // verus!
