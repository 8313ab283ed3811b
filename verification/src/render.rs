//! Serialization of responses back to wire text. The output grammar is fixed
//! and small, so the library frames the JSON text itself, against a spec that
//! pins every character: string escaping, decimal numbers, field order, and
//! the omission of whichever of `result`/`error` is absent.

use vstd::prelude::*;
use vstd::string::StrSliceExecFns;
use vstd::string::StringExecFns;

use crate::codec::push_char;
use crate::protocol::{
    ErrorResponse, ErrorResponseView, RequestId, RequestIdView, Response, ResponseView,
    ResultDoc, ResultDocView, ServerCapabilities,
};

verus! {

/// The hexadecimal digit characters, also used for decimal digits.
pub open spec fn spec_hex_char(d: int) -> char {
    if d == 0 {
        '0'
    } else if d == 1 {
        '1'
    } else if d == 2 {
        '2'
    } else if d == 3 {
        '3'
    } else if d == 4 {
        '4'
    } else if d == 5 {
        '5'
    } else if d == 6 {
        '6'
    } else if d == 7 {
        '7'
    } else if d == 8 {
        '8'
    } else if d == 9 {
        '9'
    } else if d == 10 {
        'a'
    } else if d == 11 {
        'b'
    } else if d == 12 {
        'c'
    } else if d == 13 {
        'd'
    } else if d == 14 {
        'e'
    } else {
        'f'
    }
}

/// How one character is written inside a JSON string: quote and backslash get
/// a backslash escape, the named control characters their short forms, the
/// other control characters a `\u00XX` escape, and everything else stands as
/// itself.
pub open spec fn spec_esc_char(c: char) -> Seq<char> {
    if c == '"' {
        seq!['\\', '"']
    } else if c == '\\' {
        seq!['\\', '\\']
    } else if c == '\u{08}' {
        seq!['\\', 'b']
    } else if c == '\t' {
        seq!['\\', 't']
    } else if c == '\n' {
        seq!['\\', 'n']
    } else if c == '\u{0C}' {
        seq!['\\', 'f']
    } else if c == '\r' {
        seq!['\\', 'r']
    } else if (c as u32) < 0x20 {
        seq!['\\', 'u', '0', '0', spec_hex_char((c as u32) as int / 16), spec_hex_char(
            (c as u32) as int % 16,
        )]
    } else {
        seq![c]
    }
}

/// A character sequence with every character escaped for a JSON string.
pub open spec fn spec_escaped(s: Seq<char>) -> Seq<char>
    decreases s.len(),
{
    if s.len() == 0 {
        Seq::empty()
    } else {
        spec_escaped(s.drop_last()) + spec_esc_char(s.last())
    }
}

/// A JSON string literal: the escaped characters between double quotes.
pub open spec fn spec_json_str(s: Seq<char>) -> Seq<char> {
    seq!['"'] + spec_escaped(s) + seq!['"']
}

/// The decimal digits of a natural number, most significant first.
pub open spec fn spec_dec_u64(n: nat) -> Seq<char>
    decreases n,
{
    if n < 10 {
        seq![spec_hex_char(n as int)]
    } else {
        spec_dec_u64(n / 10) + seq![spec_hex_char((n % 10) as int)]
    }
}

/// The decimal form of an integer: a minus sign before the digits of the
/// magnitude when negative.
pub open spec fn spec_dec_int(n: int) -> Seq<char> {
    if n < 0 {
        seq!['-'] + spec_dec_u64((-n) as nat)
    } else {
        spec_dec_u64(n as nat)
    }
}

/// The JSON form of a boolean.
pub open spec fn spec_bool_text(b: bool) -> Seq<char> {
    if b {
        "true"@
    } else {
        "false"@
    }
}

/// The JSON form of an identifier: a string literal or a decimal number.
pub open spec fn spec_render_id(id: RequestIdView) -> Seq<char> {
    match id {
        RequestIdView::Str(s) => spec_json_str(s),
        RequestIdView::Num(n) => spec_dec_int(n),
    }
}

/// The capabilities document: the four advertised groups in declaration
/// order, with their static sub-flags.
pub open spec fn spec_render_caps(c: ServerCapabilities) -> Seq<char> {
    "{\"logging\":{},\"prompts\":{\"listChanged\":"@ + spec_bool_text(c.prompts.list_changed)
        + "},\"resources\":{\"subscribe\":"@ + spec_bool_text(c.resources.subscribe)
        + ",\"listChanged\":"@ + spec_bool_text(c.resources.list_changed)
        + "},\"tools\":{\"listChanged\":"@ + spec_bool_text(c.tools.list_changed) + "}}"@
}

/// A result document: the empty document, or the initialize result with the
/// fixed protocol version literal, the capabilities, and the server identity.
pub open spec fn spec_render_result(d: ResultDocView) -> Seq<char> {
    match d {
        ResultDocView::Empty => "{}"@,
        ResultDocView::Initialize { capabilities, server_info } => {
            "{\"protocolVersion\":\"2024-11-05\",\"capabilities\":"@ + spec_render_caps(
                capabilities,
            ) + ",\"serverInfo\":{\"name\":"@ + spec_json_str(server_info.name)
                + ",\"version\":"@ + spec_json_str(server_info.version) + "}}"@
        },
    }
}

/// An error object: code, message, and the auxiliary document when present.
pub open spec fn spec_render_error(e: ErrorResponseView) -> Seq<char> {
    "{\"code\":"@ + spec_dec_int(e.code) + ",\"message\":"@ + spec_json_str(e.message) + (
    match e.data {
        Some(d) => ",\"data\":"@ + d,
        None => Seq::<char>::empty(),
    }) + "}"@
}

/// The whole response: `jsonrpc`, the echoed `id`, then exactly the present
/// one of `result`/`error`; the absent one is omitted, not written as null.
pub open spec fn spec_render_response(r: ResponseView) -> Seq<char> {
    "{\"jsonrpc\":"@ + spec_json_str(r.jsonrpc) + ",\"id\":"@ + spec_render_id(r.id) + (
    match r.result {
        Some(d) => ",\"result\":"@ + spec_render_result(d),
        None => Seq::<char>::empty(),
    }) + (match r.error {
        Some(e) => ",\"error\":"@ + spec_render_error(e),
        None => Seq::<char>::empty(),
    }) + "}"@
}

pub(crate) fn hex_char(d: u32) -> (c: char)
    requires
        d < 16,
    ensures
        c == spec_hex_char(d as int),
{
    if d == 0 {
        '0'
    } else if d == 1 {
        '1'
    } else if d == 2 {
        '2'
    } else if d == 3 {
        '3'
    } else if d == 4 {
        '4'
    } else if d == 5 {
        '5'
    } else if d == 6 {
        '6'
    } else if d == 7 {
        '7'
    } else if d == 8 {
        '8'
    } else if d == 9 {
        '9'
    } else if d == 10 {
        'a'
    } else if d == 11 {
        'b'
    } else if d == 12 {
        'c'
    } else if d == 13 {
        'd'
    } else if d == 14 {
        'e'
    } else {
        'f'
    }
}

pub(crate) fn append_escaped_char(out: &mut String, c: char)
    ensures
        final(out)@ == old(out)@ + spec_esc_char(c),
{
    if c == '"' {
        push_char(out, '\\');
        push_char(out, '"');
    } else if c == '\\' {
        push_char(out, '\\');
        push_char(out, '\\');
    } else if c == '\u{08}' {
        push_char(out, '\\');
        push_char(out, 'b');
    } else if c == '\t' {
        push_char(out, '\\');
        push_char(out, 't');
    } else if c == '\n' {
        push_char(out, '\\');
        push_char(out, 'n');
    } else if c == '\u{0C}' {
        push_char(out, '\\');
        push_char(out, 'f');
    } else if c == '\r' {
        push_char(out, '\\');
        push_char(out, 'r');
    } else {
        let d: u32 = c as u32;
        if d < 0x20 {
            push_char(out, '\\');
            push_char(out, 'u');
            push_char(out, '0');
            push_char(out, '0');
            push_char(out, hex_char(d / 16));
            push_char(out, hex_char(d % 16));
        } else {
            push_char(out, c);
        }
    }
    assert(out@ =~= old(out)@ + spec_esc_char(c));
}

pub(crate) fn append_json_string(out: &mut String, s: &str)
    ensures
        final(out)@ == old(out)@ + spec_json_str(s@),
{
    push_char(out, '"');
    let n: usize = s.unicode_len();
    proof {
        assert(out@ =~= old(out)@ + seq!['"'] + spec_escaped(s@.take(0)));
    }
    let mut i: usize = 0;
    while i < n
        invariant
            n as nat == s@.len(),
            i <= n,
            out@ == old(out)@ + seq!['"'] + spec_escaped(s@.take(i as int)),
        decreases n - i,
    {
        let c = s.get_char(i);
        append_escaped_char(out, c);
        proof {
            let t1 = s@.take(i as int + 1);
            assert(t1.drop_last() =~= s@.take(i as int));
            assert(t1.last() == s@[i as int]);
            assert(out@ =~= old(out)@ + seq!['"'] + spec_escaped(t1));
        }
        i = i + 1;
    }
    proof {
        assert(s@.take(i as int) =~= s@);
    }
    push_char(out, '"');
    proof {
        assert(out@ =~= old(out)@ + spec_json_str(s@));
    }
}

pub(crate) fn append_dec_u64(out: &mut String, n: u64)
    ensures
        final(out)@ == old(out)@ + spec_dec_u64(n as nat),
    decreases n,
{
    if n < 10 {
        push_char(out, hex_char(n as u32));
        assert(out@ =~= old(out)@ + spec_dec_u64(n as nat));
    } else {
        assert(n / 10 < n);
        append_dec_u64(out, n / 10);
        push_char(out, hex_char((n % 10) as u32));
        assert(out@ =~= old(out)@ + spec_dec_u64(n as nat));
    }
}

pub(crate) fn append_dec_i64(out: &mut String, n: i64)
    ensures
        final(out)@ == old(out)@ + spec_dec_int(n as int),
{
    if n >= 0 {
        append_dec_u64(out, n as u64);
    } else {
        push_char(out, '-');
        let m: u64 = if n == i64::MIN {
            9223372036854775808u64
        } else {
            (-n) as u64
        };
        assert(m as nat == (-(n as int)) as nat);
        append_dec_u64(out, m);
        assert(out@ =~= old(out)@ + spec_dec_int(n as int));
    }
}

pub(crate) fn append_bool(out: &mut String, b: bool)
    ensures
        final(out)@ == old(out)@ + spec_bool_text(b),
{
    if b {
        out.append("true");
    } else {
        out.append("false");
    }
}

#[verifier::rlimit(60)]
pub(crate) fn render_caps(out: &mut String, c: &ServerCapabilities)
    ensures
        final(out)@ == old(out)@ + spec_render_caps(*c),
{
    out.append("{\"logging\":{},\"prompts\":{\"listChanged\":");
    append_bool(out, c.prompts.list_changed);
    out.append("},\"resources\":{\"subscribe\":");
    append_bool(out, c.resources.subscribe);
    out.append(",\"listChanged\":");
    append_bool(out, c.resources.list_changed);
    out.append("},\"tools\":{\"listChanged\":");
    append_bool(out, c.tools.list_changed);
    out.append("}}");
    assert(out@ =~= old(out)@ + spec_render_caps(*c));
}

#[verifier::rlimit(60)]
pub(crate) fn render_result(out: &mut String, d: &ResultDoc)
    ensures
        final(out)@ == old(out)@ + spec_render_result(d@),
{
    match d {
        ResultDoc::Empty => {
            out.append("{}");
        },
        ResultDoc::Initialize { capabilities, server_info } => {
            out.append("{\"protocolVersion\":\"2024-11-05\",\"capabilities\":");
            render_caps(out, capabilities);
            out.append(",\"serverInfo\":{\"name\":");
            append_json_string(out, server_info.name.as_str());
            out.append(",\"version\":");
            append_json_string(out, server_info.version.as_str());
            out.append("}}");
            assert(out@ =~= old(out)@ + spec_render_result(d@));
        },
    }
}

#[verifier::rlimit(60)]
pub(crate) fn render_error(out: &mut String, e: &ErrorResponse)
    ensures
        final(out)@ == old(out)@ + spec_render_error(e@),
{
    out.append("{\"code\":");
    append_dec_i64(out, e.code as i64);
    out.append(",\"message\":");
    append_json_string(out, e.message.as_str());
    match &e.data {
        Some(d) => {
            out.append(",\"data\":");
            out.append(d.as_str());
        },
        None => {},
    }
    out.append("}");
    assert(out@ =~= old(out)@ + spec_render_error(e@));
}

/// Serialize a response to its wire text.
#[verifier::rlimit(60)]
pub fn render_response(resp: &Response) -> (out: String)
    ensures
        out@ == spec_render_response(resp@),
{
    let mut out = String::new();
    out.append("{\"jsonrpc\":");
    append_json_string(&mut out, resp.jsonrpc.as_str());
    out.append(",\"id\":");
    match &resp.id {
        RequestId::Str(s) => append_json_string(&mut out, s.as_str()),
        RequestId::Num(n) => append_dec_i64(&mut out, *n),
    }
    match &resp.result {
        Some(d) => {
            out.append(",\"result\":");
            render_result(&mut out, d);
        },
        None => {},
    }
    match &resp.error {
        Some(e) => {
            out.append(",\"error\":");
            render_error(&mut out, e);
        },
        None => {},
    }
    out.append("}");
    assert(out@ =~= spec_render_response(resp@));
    out
}

} // verus!
