//! Serialization of the worker's outbound messages to JSON text.
//!
//! String content is escaped the standard JSON way: quote and backslash get
//! a backslash escape, the control characters with short forms become
//! `\b \t \n \f \r`, every other control character becomes `\u00xy` with
//! lowercase hex digits, and everything else is copied as it is.

use vstd::prelude::*;
use vstd::string::StringExecFns;

use crate::msg::{MemeError, MemeResponse, SpecMemeError, SpecMemeResponse};
use crate::text::{push_char, chars_of, spec_u64_dec, u64_to_dec};

verus! {

/// The character of one lowercase hexadecimal digit.
pub open spec fn spec_hex_digit(d: nat) -> char {
    if d == 0 {
        '0'
    } else if d == 1 {
        '1'
    } else if d == 2 {
        '2'
    } else if d == 3 {
        '3'
    } else if d == 4 {
        '4'
    } else if d == 5 {
        '5'
    } else if d == 6 {
        '6'
    } else if d == 7 {
        '7'
    } else if d == 8 {
        '8'
    } else if d == 9 {
        '9'
    } else if d == 10 {
        'a'
    } else if d == 11 {
        'b'
    } else if d == 12 {
        'c'
    } else if d == 13 {
        'd'
    } else if d == 14 {
        'e'
    } else {
        'f'
    }
}

fn hex_digit_char(d: u32) -> (c: char)
    requires
        d < 16,
    ensures
        c == spec_hex_digit(d as nat),
{
    if d == 0 {
        '0'
    } else if d == 1 {
        '1'
    } else if d == 2 {
        '2'
    } else if d == 3 {
        '3'
    } else if d == 4 {
        '4'
    } else if d == 5 {
        '5'
    } else if d == 6 {
        '6'
    } else if d == 7 {
        '7'
    } else if d == 8 {
        '8'
    } else if d == 9 {
        '9'
    } else if d == 10 {
        'a'
    } else if d == 11 {
        'b'
    } else if d == 12 {
        'c'
    } else if d == 13 {
        'd'
    } else if d == 14 {
        'e'
    } else {
        'f'
    }
}

/// How one character appears inside a JSON string literal.
pub open spec fn spec_escape_char(c: char) -> Seq<char> {
    let u = c as u32;
    if u == 0x22 {
        seq!['\\', '"']
    } else if u == 0x5C {
        seq!['\\', '\\']
    } else if u == 0x08 {
        seq!['\\', 'b']
    } else if u == 0x09 {
        seq!['\\', 't']
    } else if u == 0x0A {
        seq!['\\', 'n']
    } else if u == 0x0C {
        seq!['\\', 'f']
    } else if u == 0x0D {
        seq!['\\', 'r']
    } else if u < 0x20 {
        seq!['\\', 'u', '0', '0', spec_hex_digit((u / 16) as nat), spec_hex_digit((u % 16) as nat)]
    } else {
        seq![c]
    }
}

/// The escaped form of a whole string.
pub open spec fn spec_escape(s: Seq<char>) -> Seq<char>
    decreases s.len(),
{
    if s.len() == 0 {
        Seq::empty()
    } else {
        spec_escape_char(s[0]) + spec_escape(s.drop_first())
    }
}

/// Escaping a string one character longer appends that character's escape.
proof fn lemma_escape_snoc(s: Seq<char>, c: char)
    ensures
        spec_escape(s.push(c)) == spec_escape(s) + spec_escape_char(c),
    decreases s.len(),
{
    if s.len() == 0 {
        assert(s.push(c)[0] == c);
        assert(s.push(c).drop_first() =~= Seq::<char>::empty());
        assert(spec_escape(s.push(c)) == spec_escape_char(c) + spec_escape(
            Seq::<char>::empty(),
        ));
        assert(spec_escape(Seq::<char>::empty()) == Seq::<char>::empty());
        assert(spec_escape(s) == Seq::<char>::empty());
        assert(spec_escape(s.push(c)) =~= spec_escape(s) + spec_escape_char(c));
    } else {
        assert(s.push(c).drop_first() =~= s.drop_first().push(c));
        assert(s.push(c)[0] == s[0]);
        assert(spec_escape(s.push(c)) == spec_escape_char(s[0]) + spec_escape(
            s.drop_first().push(c),
        ));
        lemma_escape_snoc(s.drop_first(), c);
        assert(spec_escape(s) == spec_escape_char(s[0]) + spec_escape(s.drop_first()));
        assert(spec_escape(s.push(c)) =~= spec_escape(s) + spec_escape_char(c));
    }
}

fn append_escaped_char(out: &mut String, c: char)
    ensures
        final(out)@ == old(out)@ + spec_escape_char(c),
{
    let u = c as u32;
    if u == 0x22 {
        push_char(out, '\\');
        push_char(out, '"');
    } else if u == 0x5C {
        push_char(out, '\\');
        push_char(out, '\\');
    } else if u == 0x08 {
        push_char(out, '\\');
        push_char(out, 'b');
    } else if u == 0x09 {
        push_char(out, '\\');
        push_char(out, 't');
    } else if u == 0x0A {
        push_char(out, '\\');
        push_char(out, 'n');
    } else if u == 0x0C {
        push_char(out, '\\');
        push_char(out, 'f');
    } else if u == 0x0D {
        push_char(out, '\\');
        push_char(out, 'r');
    } else if u < 0x20 {
        push_char(out, '\\');
        push_char(out, 'u');
        push_char(out, '0');
        push_char(out, '0');
        push_char(out, hex_digit_char(u / 16));
        push_char(out, hex_digit_char(u % 16));
    } else {
        push_char(out, c);
    }
    proof {
        assert(final(out)@ =~= old(out)@ + spec_escape_char(c));
    }
}

/// Escapes a string for inclusion inside a JSON string literal.
pub fn json_escape(s: &str) -> (r: String)
    ensures
        r@ == spec_escape(s@),
{
    let cs = chars_of(s);
    let mut out = String::new();
    let mut i: usize = 0;
    while i < cs.len()
        invariant
            cs@ == s@,
            i <= cs@.len(),
            out@ == spec_escape(s@.subrange(0, i as int)),
        decreases cs@.len() - i,
    {
        append_escaped_char(&mut out, cs[i]);
        proof {
            assert(s@.subrange(0, i as int).push(s@[i as int]) =~= s@.subrange(0, i + 1 as int));
            lemma_escape_snoc(s@.subrange(0, i as int), s@[i as int]);
        }
        i = i + 1;
    }
    proof {
        assert(s@.subrange(0, s@.len() as int) =~= s@);
    }
    out
}

/// A JSON string literal: quotes around the escaped content.
pub open spec fn spec_json_string(s: Seq<char>) -> Seq<char> {
    seq!['"'] + spec_escape(s) + seq!['"']
}

/// Renders a JSON string literal.
pub fn json_string(s: &str) -> (r: String)
    ensures
        r@ == spec_json_string(s@),
{
    let mut out = String::new();
    push_char(&mut out, '"');
    let esc = json_escape(s);
    out.append(esc.as_str());
    push_char(&mut out, '"');
    proof {
        assert(out@ =~= spec_json_string(s@));
    }
    out
}

/// The wire form of a success message:
/// `{"request_id":…,"image_data":…,"prompt":…,"timestamp":…}`.
pub open spec fn spec_response_json(r: SpecMemeResponse) -> Seq<char> {
    "{\"request_id\":"@ + spec_json_string(r.request_id) + ",\"image_data\":"@
        + spec_json_string(r.image_data) + ",\"prompt\":"@ + spec_json_string(r.prompt)
        + ",\"timestamp\":"@ + spec_u64_dec(r.timestamp as nat) + "}"@
}

/// Serializes a success message to JSON text.
pub fn response_json(r: &MemeResponse) -> (out: String)
    ensures
        out@ == spec_response_json(r@),
{
    let mut out = String::from_str("{\"request_id\":");
    let id = json_string(r.request_id.as_str());
    out.append(id.as_str());
    out.append(",\"image_data\":");
    let img = json_string(r.image_data.as_str());
    out.append(img.as_str());
    out.append(",\"prompt\":");
    let p = json_string(r.prompt.as_str());
    out.append(p.as_str());
    out.append(",\"timestamp\":");
    let ts = u64_to_dec(r.timestamp);
    out.append(ts.as_str());
    out.append("}");
    proof {
        assert(out@ =~= spec_response_json(r@));
    }
    out
}

/// The wire form of an error message:
/// `{"request_id":…,"error":…,"timestamp":…}`.
pub open spec fn spec_error_json(r: SpecMemeError) -> Seq<char> {
    "{\"request_id\":"@ + spec_json_string(r.request_id) + ",\"error\":"@ + spec_json_string(
        r.error,
    ) + ",\"timestamp\":"@ + spec_u64_dec(r.timestamp as nat) + "}"@
}

/// Serializes an error message to JSON text.
pub fn error_json(r: &MemeError) -> (out: String)
    ensures
        out@ == spec_error_json(r@),
{
    let mut out = String::from_str("{\"request_id\":");
    let id = json_string(r.request_id.as_str());
    out.append(id.as_str());
    out.append(",\"error\":");
    let e = json_string(r.error.as_str());
    out.append(e.as_str());
    out.append(",\"timestamp\":");
    let ts = u64_to_dec(r.timestamp);
    out.append(ts.as_str());
    out.append("}");
    proof {
        assert(out@ =~= spec_error_json(r@));
    }
    out
}

/// The wire form of a backend request:
/// `{"inputs":…,"parameters":{"width":…,"height":…}}`.
pub open spec fn spec_backend_body(full_prompt: Seq<char>, size: u32) -> Seq<char> {
    "{\"inputs\":"@ + spec_json_string(full_prompt) + ",\"parameters\":{\"width\":"@ + spec_u64_dec(
        size as nat,
    ) + ",\"height\":"@ + spec_u64_dec(size as nat) + "}}"@
}

/// Serializes a backend request body carrying the wrapped prompt and the
/// square resolution.
pub fn backend_body(full_prompt: &str, size: u32) -> (out: String)
    ensures
        out@ == spec_backend_body(full_prompt@, size),
{
    let mut out = String::from_str("{\"inputs\":");
    let p = json_string(full_prompt);
    out.append(p.as_str());
    out.append(",\"parameters\":{\"width\":");
    let w = u64_to_dec(size as u64);
    out.append(w.as_str());
    out.append(",\"height\":");
    out.append(w.as_str());
    out.append("}}");
    proof {
        assert(out@ =~= spec_backend_body(full_prompt@, size));
    }
    out
}

} // verus!
