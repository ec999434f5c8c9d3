//! The emitter: the exact single-line JSON envelope that every module writes,
//! and the JSON string escaping used for registry keys and mount paths.
//!
//! The envelope has two states: a present payload is rendered as
//! `{"ok":1,"data":<payload>}`, an absent one as `{"ok":0,"data":null}`.

use vstd::prelude::*;
use vstd::string::StrSliceExecFns;
use vstd::string::StringExecFns;

verus! {

/// The lowercase hex digit for `n`.
pub open spec fn hex_digit(n: int) -> Seq<char> {
    if n == 0 {
        "0"@
    } else if n == 1 {
        "1"@
    } else if n == 2 {
        "2"@
    } else if n == 3 {
        "3"@
    } else if n == 4 {
        "4"@
    } else if n == 5 {
        "5"@
    } else if n == 6 {
        "6"@
    } else if n == 7 {
        "7"@
    } else if n == 8 {
        "8"@
    } else if n == 9 {
        "9"@
    } else if n == 10 {
        "a"@
    } else if n == 11 {
        "b"@
    } else if n == 12 {
        "c"@
    } else if n == 13 {
        "d"@
    } else if n == 14 {
        "e"@
    } else {
        "f"@
    }
}

/// How one character appears inside a JSON string: quote and backslash get a
/// backslash escape, control characters a named or `\u00..` escape, and every
/// other character stands for itself.
pub open spec fn escape_char(c: char) -> Seq<char> {
    if c == '"' {
        "\\\""@
    } else if c == '\\' {
        "\\\\"@
    } else if c == '\n' {
        "\\n"@
    } else if c == '\r' {
        "\\r"@
    } else if c == '\t' {
        "\\t"@
    } else if (c as u32) == 8 {
        "\\b"@
    } else if (c as u32) == 12 {
        "\\f"@
    } else if (c as u32) < 32 {
        "\\u00"@ + hex_digit((c as u32) as int / 16) + hex_digit((c as u32) as int % 16)
    } else {
        seq![c]
    }
}

/// The body of a JSON string: every character escaped.
pub open spec fn escape_string(s: Seq<char>) -> Seq<char>
    decreases s.len(),
{
    if s.len() == 0 {
        Seq::empty()
    } else {
        escape_string(s.drop_last()) + escape_char(s.last())
    }
}

/// A JSON string: the escaped body between double quotes.
pub open spec fn json_string(s: Seq<char>) -> Seq<char> {
    "\""@ + escape_string(s) + "\""@
}

/// The envelope around a present payload.
pub open spec fn envelope_present(data: Seq<char>) -> Seq<char> {
    "{\"ok\":1,\"data\":"@ + data + "}"@
}

/// The envelope around an absent payload.
pub open spec fn envelope_absent() -> Seq<char> {
    "{\"ok\":0,\"data\":null}"@
}

/// The one line a snapshot becomes: present payloads are wrapped with status
/// flag 1, absence is reported with status flag 0 and a null data field.
pub open spec fn snapshot_line(payload: Option<Seq<char>>) -> Seq<char> {
    match payload {
        Some(data) => envelope_present(data),
        None => envelope_absent(),
    }
}

proof fn lemma_escape_step(s: Seq<char>, i: int)
    requires
        0 <= i < s.len(),
    ensures
        escape_string(s.subrange(0, i + 1)) == escape_string(s.subrange(0, i)) + escape_char(s[i]),
{
    let t = s.subrange(0, i + 1);
    assert(t.drop_last() =~= s.subrange(0, i));
    assert(t.last() == s[i]);
}

fn append_hex_digit(out: &mut String, n: u32)
    requires
        n < 16,
    ensures
        final(out)@ == old(out)@ + hex_digit(n as int),
{
    if n == 0 {
        out.append("0");
    } else if n == 1 {
        out.append("1");
    } else if n == 2 {
        out.append("2");
    } else if n == 3 {
        out.append("3");
    } else if n == 4 {
        out.append("4");
    } else if n == 5 {
        out.append("5");
    } else if n == 6 {
        out.append("6");
    } else if n == 7 {
        out.append("7");
    } else if n == 8 {
        out.append("8");
    } else if n == 9 {
        out.append("9");
    } else if n == 10 {
        out.append("a");
    } else if n == 11 {
        out.append("b");
    } else if n == 12 {
        out.append("c");
    } else if n == 13 {
        out.append("d");
    } else if n == 14 {
        out.append("e");
    } else {
        out.append("f");
    }
}

/// Appends the escaped body of `s` to `out`.
pub fn append_escaped(out: &mut String, s: &str)
    ensures
        final(out)@ == old(out)@ + escape_string(s@),
{
    let ghost start = out@;
    let n = s.unicode_len();
    let mut i: usize = 0;
    while i < n
        invariant
            i <= n,
            n == s@.len(),
            out@ == start + escape_string(s@.subrange(0, i as int)),
        decreases n - i,
    {
        let c = s.get_char(i);
        if c == '"' {
            out.append("\\\"");
        } else if c == '\\' {
            out.append("\\\\");
        } else if c == '\n' {
            out.append("\\n");
        } else if c == '\r' {
            out.append("\\r");
        } else if c == '\t' {
            out.append("\\t");
        } else if c as u32 == 8 {
            out.append("\\b");
        } else if c as u32 == 12 {
            out.append("\\f");
        } else if (c as u32) < 32 {
            out.append("\\u00");
            append_hex_digit(out, c as u32 / 16);
            append_hex_digit(out, c as u32 % 16);
        } else {
            out.append(s.substring_char(i, i + 1));
            proof {
                assert(s@.subrange(i as int, i + 1) =~= seq![s@[i as int]]);
            }
        }
        proof {
            lemma_escape_step(s@, i as int);
        }
        i = i + 1;
    }
    proof {
        assert(s@.subrange(0, n as int) =~= s@);
    }
}

/// Appends `s` as a JSON string (quoted and escaped) to `out`.
pub fn append_json_string(out: &mut String, s: &str)
    ensures
        final(out)@ == old(out)@ + json_string(s@),
{
    out.append("\"");
    append_escaped(out, s);
    out.append("\"");
}

/// Renders the one-line snapshot envelope for an optional, already rendered
/// payload. This is the shared contract every module's output honors.
pub fn emit_line(payload: Option<&str>) -> (r: String)
    ensures
        r@ == snapshot_line(payload.deep_view()),
{
    match payload {
        Some(data) => {
            let mut out = String::from_str("{\"ok\":1,\"data\":");
            out.append(data);
            out.append("}");
            out
        },
        None => String::from_str("{\"ok\":0,\"data\":null}"),
    }
}

} // verus!
