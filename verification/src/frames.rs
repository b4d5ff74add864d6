use vstd::prelude::*;

verus! {

use vstd::string::StringSliceAdditionalSpecFns;
use vstd::utf8::encode_utf8;
use crate::codec::b64_of;
use crate::codec::b64_encode;
use crate::codec::bytes_of_str;
use crate::codec::opt_view;

/// The UTF-8 bytes of a fixed piece of frame text.
pub open spec fn lit_b(s: &str) -> Seq<u8> {
    encode_utf8(s@)
}

pub open spec fn hex_digit(n: u8) -> u8 {
    if n < 10 {
        (48 + n) as u8
    } else {
        (87 + n) as u8
    }
}

/// How one byte of string content appears inside a JSON string: quote,
/// backslash and control bytes are escaped exactly as serde_json writes
/// them; every other byte stands as itself.
pub open spec fn esc_byte(b: u8) -> Seq<u8> {
    if b == 34 {
        seq![92u8, 34u8]
    } else if b == 92 {
        seq![92u8, 92u8]
    } else if b == 8 {
        seq![92u8, 98u8]
    } else if b == 9 {
        seq![92u8, 116u8]
    } else if b == 10 {
        seq![92u8, 110u8]
    } else if b == 12 {
        seq![92u8, 102u8]
    } else if b == 13 {
        seq![92u8, 114u8]
    } else if b < 32 {
        seq![92u8, 117u8, 48u8, 48u8, hex_digit(b / 16), hex_digit(b % 16)]
    } else {
        seq![b]
    }
}

pub open spec fn json_escaped(s: Seq<u8>) -> Seq<u8>
    decreases s.len(),
{
    if s.len() == 0 {
        Seq::empty()
    } else {
        esc_byte(s[0]) + json_escaped(s.drop_first())
    }
}

/// The JSON text of a string whose UTF-8 content bytes are `s`.
pub open spec fn json_string_b(s: Seq<u8>) -> Seq<u8> {
    seq![34u8] + json_escaped(s) + seq![34u8]
}

/// The JSON text of a string of characters `s`.
pub open spec fn json_string_c(s: Seq<char>) -> Seq<u8> {
    json_string_b(encode_utf8(s))
}

pub open spec fn json_null_or_string(e: Option<Seq<char>>) -> Seq<u8> {
    match e {
        None => lit_b("null"),
        Some(s) => json_string_c(s),
    }
}

pub open spec fn json_null_or_dec(v: Option<u64>) -> Seq<u8> {
    match v {
        None => lit_b("null"),
        Some(n) => dec_digits(n as nat),
    }
}

pub open spec fn json_bool(b: bool) -> Seq<u8> {
    if b {
        lit_b("true")
    } else {
        lit_b("false")
    }
}

/// The decimal digits of `n`, most significant first.
pub open spec fn dec_digits(n: nat) -> Seq<u8>
    decreases n,
{
    if n < 10 {
        seq![(48 + n) as u8]
    } else {
        dec_digits(n / 10) + seq![(48 + n % 10) as u8]
    }
}

pub open spec fn header_entry_json(h: (String, String)) -> Seq<u8> {
    json_string_c(h.0@) + lit_b(":") + json_string_c(h.1@)
}

pub open spec fn header_entries_json(hs: Seq<(String, String)>) -> Seq<u8>
    decreases hs.len(),
{
    if hs.len() == 0 {
        Seq::empty()
    } else if hs.len() == 1 {
        header_entry_json(hs[0])
    } else {
        header_entry_json(hs[0]) + lit_b(",") + header_entries_json(hs.drop_first())
    }
}

pub open spec fn headers_json(hs: Seq<(String, String)>) -> Seq<u8> {
    lit_b("{") + header_entries_json(hs) + lit_b("}")
}

/// The optional body/data section of a fetch response: omitted entirely for
/// empty bytes, otherwise the base64 text and its encoding label.
pub open spec fn body_fields_json(body: Seq<u8>) -> Seq<u8> {
    if body.len() == 0 {
        Seq::empty()
    } else {
        lit_b(",\"body\":") + json_string_b(b64_of(body)) + lit_b(",\"bodyEncoding\":\"base64\"")
    }
}

pub open spec fn fetch_json(
    id: u64,
    status: u16,
    hs: Seq<(String, String)>,
    body: Seq<u8>,
    error: Option<Seq<char>>,
) -> Seq<u8> {
    lit_b("{\"type\":\"fetch\",\"id\":") + dec_digits(id as nat) + lit_b(",\"status\":")
        + dec_digits(status as nat) + lit_b(",\"headers\":") + headers_json(hs)
        + body_fields_json(body) + lit_b(",\"error\":") + json_null_or_string(error) + lit_b("}")
}

pub open spec fn tcp_open_json(
    id: u64,
    stream_id: Option<u64>,
    ok: bool,
    error: Option<Seq<char>>,
) -> Seq<u8> {
    lit_b("{\"type\":\"tcp_open\",\"id\":") + dec_digits(id as nat) + lit_b(",\"streamId\":")
        + json_null_or_dec(stream_id) + lit_b(",\"ok\":") + json_bool(ok) + lit_b(",\"error\":")
        + json_null_or_string(error) + lit_b("}")
}

pub open spec fn tcp_write_json(id: u64, ok: bool, error: Option<Seq<char>>) -> Seq<u8> {
    lit_b("{\"type\":\"tcp_write\",\"id\":") + dec_digits(id as nat) + lit_b(",\"ok\":")
        + json_bool(ok) + lit_b(",\"error\":") + json_null_or_string(error) + lit_b("}")
}

pub open spec fn tcp_data_json(stream_id: u64, data: Seq<u8>) -> Seq<u8> {
    lit_b("{\"type\":\"tcp_data\",\"streamId\":") + dec_digits(stream_id as nat)
        + lit_b(",\"data\":") + json_string_b(b64_of(data)) + lit_b(",\"dataEncoding\":\"base64\"}")
}

pub open spec fn tcp_close_json(stream_id: u64, error: Option<Seq<char>>) -> Seq<u8> {
    lit_b("{\"type\":\"tcp_close\",\"streamId\":") + dec_digits(stream_id as nat)
        + lit_b(",\"error\":") + json_null_or_string(error) + lit_b("}")
}

/// Law: empty body bytes leave a fetch frame with no body field and no
/// encoding field at all — the frame is exactly the one written without
/// that section, never one carrying an empty string.
pub proof fn lemma_empty_body_omitted(
    id: u64,
    status: u16,
    hs: Seq<(String, String)>,
    error: Option<Seq<char>>,
)
    ensures
        fetch_json(id, status, hs, Seq::<u8>::empty(), error) == lit_b("{\"type\":\"fetch\",\"id\":")
            + dec_digits(id as nat) + lit_b(",\"status\":") + dec_digits(status as nat) + lit_b(
            ",\"headers\":",
        ) + headers_json(hs) + lit_b(",\"error\":") + json_null_or_string(error) + lit_b("}"),
{
    assert(body_fields_json(Seq::<u8>::empty()) == Seq::<u8>::empty());
    assert(fetch_json(id, status, hs, Seq::<u8>::empty(), error) =~= lit_b(
        "{\"type\":\"fetch\",\"id\":",
    ) + dec_digits(id as nat) + lit_b(",\"status\":") + dec_digits(status as nat) + lit_b(
        ",\"headers\":",
    ) + headers_json(hs) + lit_b(",\"error\":") + json_null_or_string(error) + lit_b("}"));
}

pub(crate) fn push_lit(out: &mut Vec<u8>, s: &str)
    ensures
        final(out)@ == old(out)@ + lit_b(s),
{
    let mut v = bytes_of_str(s);
    out.append(&mut v);
}

fn hex_digit_exec(n: u8) -> (r: u8)
    requires
        n < 16,
    ensures
        r == hex_digit(n),
{
    if n < 10 {
        48 + n
    } else {
        87 + n
    }
}

pub(crate) fn push_dec(out: &mut Vec<u8>, n: u64)
    ensures
        final(out)@ == old(out)@ + dec_digits(n as nat),
    decreases n,
{
    if n < 10 {
        out.push(48 + n as u8);
        proof {
            assert(out@ =~= old(out)@ + dec_digits(n as nat));
        }
    } else {
        proof {
            assert(n / 10 < n) by (nonlinear_arith)
                requires
                    n >= 10,
            ;
        }
        push_dec(out, n / 10);
        out.push(48 + (n % 10) as u8);
        proof {
            assert((n % 10) as nat == (n as nat) % 10);
            assert((n / 10) as nat == (n as nat) / 10);
            assert(out@ =~= old(out)@ + dec_digits(n as nat));
        }
    }
}

proof fn lemma_json_escaped_push(t: Seq<u8>, x: u8)
    ensures
        json_escaped(t.push(x)) == json_escaped(t) + esc_byte(x),
    decreases t.len(),
{
    if t.len() == 0 {
        assert(t.push(x)[0] == x);
        assert(t.push(x).drop_first() =~= Seq::<u8>::empty());
        assert(json_escaped(t.push(x)) == esc_byte(x) + json_escaped(Seq::<u8>::empty()));
        assert(json_escaped(t.push(x)) =~= json_escaped(t) + esc_byte(x));
    } else {
        lemma_json_escaped_push(t.drop_first(), x);
        assert(t.push(x)[0] == t[0]);
        assert(t.push(x).drop_first() =~= t.drop_first().push(x));
        assert(json_escaped(t.push(x)) == esc_byte(t[0]) + json_escaped(t.drop_first().push(x)));
        assert(json_escaped(t) == esc_byte(t[0]) + json_escaped(t.drop_first()));
        assert(json_escaped(t.push(x)) =~= json_escaped(t) + esc_byte(x));
    }
}

pub(crate) fn push_escaped(out: &mut Vec<u8>, bytes: &[u8])
    ensures
        final(out)@ == old(out)@ + json_escaped(bytes@),
{
    let mut i: usize = 0;
    while i < bytes.len()
        invariant
            i <= bytes@.len(),
            out@ == old(out)@ + json_escaped(bytes@.take(i as int)),
        decreases bytes@.len() - i,
    {
        let b = bytes[i];
        if b == 34 {
            out.push(92);
            out.push(34);
        } else if b == 92 {
            out.push(92);
            out.push(92);
        } else if b == 8 {
            out.push(92);
            out.push(98);
        } else if b == 9 {
            out.push(92);
            out.push(116);
        } else if b == 10 {
            out.push(92);
            out.push(110);
        } else if b == 12 {
            out.push(92);
            out.push(102);
        } else if b == 13 {
            out.push(92);
            out.push(114);
        } else if b < 32 {
            out.push(92);
            out.push(117);
            out.push(48);
            out.push(48);
            out.push(hex_digit_exec(b / 16));
            out.push(hex_digit_exec(b % 16));
        } else {
            out.push(b);
        }
        proof {
            assert(bytes@.take(i + 1) =~= bytes@.take(i as int).push(bytes@[i as int]));
            lemma_json_escaped_push(bytes@.take(i as int), bytes@[i as int]);
            assert(out@ =~= old(out)@ + json_escaped(bytes@.take(i + 1)));
        }
        i = i + 1;
    }
    proof {
        assert(bytes@.take(bytes@.len() as int) =~= bytes@);
    }
}

pub(crate) fn push_json_string(out: &mut Vec<u8>, s: &str)
    ensures
        final(out)@ == old(out)@ + json_string_c(s@),
{
    out.push(34);
    push_escaped(out, s.as_bytes());
    out.push(34);
    proof {
        assert(out@ =~= old(out)@ + json_string_c(s@));
    }
}

fn push_null_or_string(out: &mut Vec<u8>, s: &Option<String>)
    ensures
        final(out)@ == old(out)@ + json_null_or_string(opt_view(*s)),
{
    match s {
        None => push_lit(out, "null"),
        Some(x) => push_json_string(out, x.as_str()),
    }
}

fn push_null_or_dec(out: &mut Vec<u8>, v: Option<u64>)
    ensures
        final(out)@ == old(out)@ + json_null_or_dec(v),
{
    match v {
        None => push_lit(out, "null"),
        Some(n) => push_dec(out, n),
    }
}

fn push_bool(out: &mut Vec<u8>, b: bool)
    ensures
        final(out)@ == old(out)@ + json_bool(b),
{
    if b {
        push_lit(out, "true");
    } else {
        push_lit(out, "false");
    }
}

proof fn lemma_header_entries_push(hs: Seq<(String, String)>, h: (String, String))
    ensures
        header_entries_json(hs.push(h)) == if hs.len() == 0 {
            header_entry_json(h)
        } else {
            header_entries_json(hs) + lit_b(",") + header_entry_json(h)
        },
    decreases hs.len(),
{
    if hs.len() == 0 {
    } else if hs.len() == 1 {
        let single = seq![h];
        assert(hs.push(h)[0] == hs[0]);
        assert(hs.push(h).drop_first() =~= single);
        assert(header_entries_json(hs.push(h)) == header_entry_json(hs[0]) + lit_b(",")
            + header_entries_json(single));
        assert(single[0] == h);
        assert(header_entries_json(single) == header_entry_json(h));
        assert(header_entries_json(hs) == header_entry_json(hs[0]));
        assert(header_entries_json(hs.push(h)) =~= header_entries_json(hs) + lit_b(",")
            + header_entry_json(h));
    } else {
        lemma_header_entries_push(hs.drop_first(), h);
        assert(hs.push(h)[0] == hs[0]);
        assert(hs.push(h).drop_first() =~= hs.drop_first().push(h));
        assert(header_entries_json(hs.push(h)) == header_entry_json(hs[0]) + lit_b(",")
            + header_entries_json(hs.drop_first().push(h)));
        assert(header_entries_json(hs) == header_entry_json(hs[0]) + lit_b(",")
            + header_entries_json(hs.drop_first()));
        assert(header_entries_json(hs.push(h)) =~= header_entries_json(hs) + lit_b(",")
            + header_entry_json(h));
    }
}

pub(crate) fn push_headers(out: &mut Vec<u8>, hs: &Vec<(String, String)>)
    ensures
        final(out)@ == old(out)@ + headers_json(hs@),
{
    push_lit(out, "{");
    let mut i: usize = 0;
    while i < hs.len()
        invariant
            i <= hs@.len(),
            out@ == old(out)@ + lit_b("{") + header_entries_json(hs@.take(i as int)),
        decreases hs@.len() - i,
    {
        if i > 0 {
            push_lit(out, ",");
        }
        push_json_string(out, hs[i].0.as_str());
        push_lit(out, ":");
        push_json_string(out, hs[i].1.as_str());
        proof {
            assert(hs@.take(i + 1) =~= hs@.take(i as int).push(hs@[i as int]));
            lemma_header_entries_push(hs@.take(i as int), hs@[i as int]);
            assert(out@ =~= old(out)@ + lit_b("{") + header_entries_json(hs@.take(i + 1)));
        }
        i = i + 1;
    }
    proof {
        assert(hs@.take(hs@.len() as int) =~= hs@);
    }
    push_lit(out, "}");
    proof {
        assert(out@ =~= old(out)@ + headers_json(hs@));
    }
}

/// The wire text of a fetch response frame.
pub fn fetch_frame(
    id: u64,
    status: u16,
    headers: &Vec<(String, String)>,
    body: &[u8],
    error: &Option<String>,
) -> (r: Vec<u8>)
    ensures
        r@ == fetch_json(id, status, headers@, body@, opt_view(*error)),
{
    let mut out: Vec<u8> = Vec::new();
    push_lit(&mut out, "{\"type\":\"fetch\",\"id\":");
    push_dec(&mut out, id);
    push_lit(&mut out, ",\"status\":");
    push_dec(&mut out, status as u64);
    push_lit(&mut out, ",\"headers\":");
    push_headers(&mut out, headers);
    if body.len() > 0 {
        push_lit(&mut out, ",\"body\":");
        let b = b64_encode(body);
        push_json_string(&mut out, b.as_str());
        push_lit(&mut out, ",\"bodyEncoding\":\"base64\"");
    }
    push_lit(&mut out, ",\"error\":");
    push_null_or_string(&mut out, error);
    push_lit(&mut out, "}");
    proof {
        assert(out@ =~= fetch_json(id, status, headers@, body@, opt_view(*error)));
    }
    out
}

/// The wire text of a tcp_open response frame.
pub fn tcp_open_frame(id: u64, stream_id: Option<u64>, ok: bool, error: &Option<String>) -> (r:
    Vec<u8>)
    ensures
        r@ == tcp_open_json(id, stream_id, ok, opt_view(*error)),
{
    let mut out: Vec<u8> = Vec::new();
    push_lit(&mut out, "{\"type\":\"tcp_open\",\"id\":");
    push_dec(&mut out, id);
    push_lit(&mut out, ",\"streamId\":");
    push_null_or_dec(&mut out, stream_id);
    push_lit(&mut out, ",\"ok\":");
    push_bool(&mut out, ok);
    push_lit(&mut out, ",\"error\":");
    push_null_or_string(&mut out, error);
    push_lit(&mut out, "}");
    proof {
        assert(out@ =~= tcp_open_json(id, stream_id, ok, opt_view(*error)));
    }
    out
}

/// The wire text of a tcp_write response frame.
pub fn tcp_write_frame(id: u64, ok: bool, error: &Option<String>) -> (r: Vec<u8>)
    ensures
        r@ == tcp_write_json(id, ok, opt_view(*error)),
{
    let mut out: Vec<u8> = Vec::new();
    push_lit(&mut out, "{\"type\":\"tcp_write\",\"id\":");
    push_dec(&mut out, id);
    push_lit(&mut out, ",\"ok\":");
    push_bool(&mut out, ok);
    push_lit(&mut out, ",\"error\":");
    push_null_or_string(&mut out, error);
    push_lit(&mut out, "}");
    proof {
        assert(out@ =~= tcp_write_json(id, ok, opt_view(*error)));
    }
    out
}

/// The wire text of an unsolicited tcp_data frame.
pub fn tcp_data_frame(stream_id: u64, data: &[u8]) -> (r: Vec<u8>)
    ensures
        r@ == tcp_data_json(stream_id, data@),
{
    let mut out: Vec<u8> = Vec::new();
    push_lit(&mut out, "{\"type\":\"tcp_data\",\"streamId\":");
    push_dec(&mut out, stream_id);
    push_lit(&mut out, ",\"data\":");
    let b = b64_encode(data);
    push_json_string(&mut out, b.as_str());
    push_lit(&mut out, ",\"dataEncoding\":\"base64\"}");
    proof {
        assert(out@ =~= tcp_data_json(stream_id, data@));
    }
    out
}

/// The wire text of a tcp_close frame, solicited or unsolicited.
pub fn tcp_close_frame(stream_id: u64, error: &Option<String>) -> (r: Vec<u8>)
    ensures
        r@ == tcp_close_json(stream_id, opt_view(*error)),
{
    let mut out: Vec<u8> = Vec::new();
    push_lit(&mut out, "{\"type\":\"tcp_close\",\"streamId\":");
    push_dec(&mut out, stream_id);
    push_lit(&mut out, ",\"error\":");
    push_null_or_string(&mut out, error);
    push_lit(&mut out, "}");
    proof {
        assert(out@ =~= tcp_close_json(stream_id, opt_view(*error)));
    }
    out
}

} // verus!
