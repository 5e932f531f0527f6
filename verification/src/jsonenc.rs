//! Rendering of the JSON bodies sent to the sidecar, with exact
//! character-level contracts, including string escaping as the wire format
//! demands: quote, backslash and the named control characters get two-byte
//! escapes, any other control character a `\u00xy` escape.

use vstd::prelude::*;
use crate::numfmt::{spec_dec, spec_tenths, append_u32, format_tenths, digit_char};
use crate::request::InferenceRequest;

verus! {

/// The character for one hexadecimal digit, lower case.
pub open spec fn hex_char(d: nat) -> char {
    if d < 10 {
        digit_char(d)
    } else if d == 10 {
        'a'
    } else if d == 11 {
        'b'
    } else if d == 12 {
        'c'
    } else if d == 13 {
        'd'
    } else if d == 14 {
        'e'
    } else {
        'f'
    }
}

/// The escape of one character inside a JSON string.
pub open spec fn json_escape_char(c: char) -> Seq<char> {
    if c == '"' {
        seq!['\\', '"']
    } else if c == '\\' {
        seq!['\\', '\\']
    } else if c == '\u{8}' {
        seq!['\\', 'b']
    } else if c == '\t' {
        seq!['\\', 't']
    } else if c == '\n' {
        seq!['\\', 'n']
    } else if c == '\u{c}' {
        seq!['\\', 'f']
    } else if c == '\r' {
        seq!['\\', 'r']
    } else if (c as nat) < 0x20 {
        seq!['\\', 'u', '0', '0', hex_char((c as nat) / 16), hex_char((c as nat) % 16)]
    } else {
        seq![c]
    }
}

/// The escaped form of a whole string body.
pub open spec fn json_escape(s: Seq<char>) -> Seq<char>
    decreases s.len(),
{
    if s.len() == 0 {
        Seq::<char>::empty()
    } else {
        json_escape(s.drop_last()) + json_escape_char(s.last())
    }
}

/// A JSON string literal: quotes around the escaped body.
pub open spec fn spec_json_string(s: Seq<char>) -> Seq<char> {
    seq!['"'] + json_escape(s) + seq!['"']
}

/// The comma-separated items of a JSON array of strings.
pub open spec fn spec_json_string_items(items: Seq<Seq<char>>) -> Seq<char>
    decreases items.len(),
{
    if items.len() == 0 {
        Seq::<char>::empty()
    } else if items.len() == 1 {
        spec_json_string(items[0])
    } else {
        spec_json_string_items(items.drop_last()) + seq![','] + spec_json_string(items.last())
    }
}

/// A JSON array of strings.
pub open spec fn spec_json_string_array(items: Seq<Seq<char>>) -> Seq<char> {
    seq!['['] + spec_json_string_items(items) + seq![']']
}

/// A JSON boolean.
pub open spec fn spec_json_bool(b: bool) -> Seq<char> {
    if b {
        "true"@
    } else {
        "false"@
    }
}

/// A one-character string slice for one hexadecimal digit, lower case.
fn hex_str(d: u32) -> (r: &'static str)
    requires
        d < 16,
    ensures
        r@ == seq![hex_char(d as nat)],
{
    proof {
        reveal_strlit("0");
        reveal_strlit("1");
        reveal_strlit("2");
        reveal_strlit("3");
        reveal_strlit("4");
        reveal_strlit("5");
        reveal_strlit("6");
        reveal_strlit("7");
        reveal_strlit("8");
        reveal_strlit("9");
        reveal_strlit("a");
        reveal_strlit("b");
        reveal_strlit("c");
        reveal_strlit("d");
        reveal_strlit("e");
        reveal_strlit("f");
    }
    let r = if d == 0 {
        "0"
    } else if d == 1 {
        "1"
    } else if d == 2 {
        "2"
    } else if d == 3 {
        "3"
    } else if d == 4 {
        "4"
    } else if d == 5 {
        "5"
    } else if d == 6 {
        "6"
    } else if d == 7 {
        "7"
    } else if d == 8 {
        "8"
    } else if d == 9 {
        "9"
    } else if d == 10 {
        "a"
    } else if d == 11 {
        "b"
    } else if d == 12 {
        "c"
    } else if d == 13 {
        "d"
    } else if d == 14 {
        "e"
    } else {
        "f"
    };
    proof {
        assert(r@ =~= seq![hex_char(d as nat)]);
    }
    r
}

/// Appends one character's JSON escape to `out`.
fn append_escaped_char(out: &mut String, c: char)
    ensures
        final(out)@ == old(out)@ + json_escape_char(c),
{
    if c == '"' {
        out.append("\\\"");
        proof {
            reveal_strlit("\\\"");
            assert(out@ =~= old(out)@ + json_escape_char(c));
        }
    } else if c == '\\' {
        out.append("\\\\");
        proof {
            reveal_strlit("\\\\");
            assert(out@ =~= old(out)@ + json_escape_char(c));
        }
    } else if c == '\u{8}' {
        out.append("\\b");
        proof {
            reveal_strlit("\\b");
            assert(out@ =~= old(out)@ + json_escape_char(c));
        }
    } else if c == '\t' {
        out.append("\\t");
        proof {
            reveal_strlit("\\t");
            assert(out@ =~= old(out)@ + json_escape_char(c));
        }
    } else if c == '\n' {
        out.append("\\n");
        proof {
            reveal_strlit("\\n");
            assert(out@ =~= old(out)@ + json_escape_char(c));
        }
    } else if c == '\u{c}' {
        out.append("\\f");
        proof {
            reveal_strlit("\\f");
            assert(out@ =~= old(out)@ + json_escape_char(c));
        }
    } else if c == '\r' {
        out.append("\\r");
        proof {
            reveal_strlit("\\r");
            assert(out@ =~= old(out)@ + json_escape_char(c));
        }
    } else if (c as u32) < 0x20 {
        out.append("\\u00");
        let v = c as u32;
        let hi = hex_str(v / 16);
        out.append(hi);
        let lo = hex_str(v % 16);
        out.append(lo);
        proof {
            reveal_strlit("\\u00");
            assert(out@ =~= old(out)@ + json_escape_char(c));
        }
    } else {
        out.push(c);
        proof {
            assert(out@ =~= old(out)@ + json_escape_char(c));
        }
    }
}

/// Appends the JSON string literal for `text` (quotes and escaped body).
pub fn append_json_string(out: &mut String, text: &str)
    ensures
        final(out)@ == old(out)@ + spec_json_string(text@),
{
    out.push('"');
    let n = text.unicode_len();
    let mut i: usize = 0;
    while i < n
        invariant
            n == text@.len(),
            0 <= i <= n,
            out@ == old(out)@ + seq!['"'] + json_escape(text@.subrange(0, i as int)),
        decreases n - i,
    {
        let c = text.get_char(i);
        append_escaped_char(out, c);
        proof {
            let pre = text@.subrange(0, i as int);
            let ext = text@.subrange(0, i as int + 1);
            assert(ext.drop_last() =~= pre);
            assert(ext.last() == text@[i as int]);
            assert(out@ =~= old(out)@ + seq!['"'] + json_escape(ext));
        }
        i = i + 1;
    }
    proof {
        assert(text@.subrange(0, n as int) =~= text@);
    }
    out.push('"');
    proof {
        assert(out@ =~= old(out)@ + spec_json_string(text@));
    }
}

/// Appends the JSON array of the given strings.
pub fn append_json_string_array(out: &mut String, items: &Vec<String>)
    ensures
        final(out)@ == old(out)@ + spec_json_string_array(items.deep_view()),
{
    out.push('[');
    let n = items.len();
    let mut i: usize = 0;
    while i < n
        invariant
            n == items@.len(),
            0 <= i <= n,
            out@ == old(out)@ + seq!['['] + spec_json_string_items(
                items.deep_view().subrange(0, i as int),
            ),
        decreases n - i,
    {
        if i > 0 {
            out.push(',');
        }
        append_json_string(out, items[i].as_str());
        proof {
            let pre = items.deep_view().subrange(0, i as int);
            let ext = items.deep_view().subrange(0, i as int + 1);
            assert(ext.drop_last() =~= pre);
            assert(ext.last() == items.deep_view()[i as int]);
            assert(items.deep_view()[i as int] == items@[i as int]@);
            assert(out@ =~= old(out)@ + seq!['['] + spec_json_string_items(ext));
        }
        i = i + 1;
    }
    proof {
        assert(items.deep_view().subrange(0, n as int) =~= items.deep_view());
    }
    out.push(']');
    proof {
        assert(out@ =~= old(out)@ + spec_json_string_array(items.deep_view()));
    }
}

/// The body of a completion call: prompt, token budget, temperature, stop
/// sequences, the streaming switch, and prompt caching switched on.
pub open spec fn spec_completion_body(req: InferenceRequest) -> Seq<char> {
    "{\"prompt\":"@ + spec_json_string(req.prompt@) + ",\"n_predict\":"@ + spec_dec(
        req.max_tokens as nat,
    ) + ",\"temperature\":"@ + spec_tenths(req.temperature as nat) + ",\"stop\":"@
        + spec_json_string_array(req.stop_tokens.deep_view()) + ",\"stream\":"@ + spec_json_bool(
        req.stream,
    ) + ",\"cache_prompt\":true}"@
}

/// Renders the completion body for a request.
pub fn completion_body(req: &InferenceRequest) -> (r: String)
    ensures
        r@ == spec_completion_body(*req),
{
    let mut s = String::new();
    s.append("{\"prompt\":");
    append_json_string(&mut s, req.prompt.as_str());
    s.append(",\"n_predict\":");
    append_u32(&mut s, req.max_tokens);
    s.append(",\"temperature\":");
    let t = format_tenths(req.temperature);
    s.append(t.as_str());
    s.append(",\"stop\":");
    append_json_string_array(&mut s, &req.stop_tokens);
    s.append(",\"stream\":");
    if req.stream {
        s.append("true");
    } else {
        s.append("false");
    }
    s.append(",\"cache_prompt\":true}");
    proof {
        assert(s@ =~= spec_completion_body(*req));
    }
    s
}

/// The body of an embedding call.
pub open spec fn spec_embed_body(text: Seq<char>) -> Seq<char> {
    "{\"content\":"@ + spec_json_string(text) + "}"@
}

/// Renders the embedding body for a text.
pub fn embed_body(text: &str) -> (r: String)
    ensures
        r@ == spec_embed_body(text@),
{
    let mut s = String::new();
    s.append("{\"content\":");
    append_json_string(&mut s, text);
    s.append("}");
    proof {
        assert(s@ =~= spec_embed_body(text@));
    }
    s
}

} // verus!
