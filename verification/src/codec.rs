use vstd::prelude::*;

verus! {

use vstd::string::StringSliceAdditionalSpecFns;
use vstd::string::StringExecFns;
use vstd::utf8::encode_utf8;

/// The bytes of the standard (padded) base64 encoding of `b`, as the
/// STANDARD engine of the base64 crate produces it.
pub uninterp spec fn b64_of(b: Seq<u8>) -> Seq<u8>;

/// What the STANDARD engine of the base64 crate yields when decoding `s`:
/// the decoded bytes, or `None` where `s` is not a well-formed encoding.
pub uninterp spec fn b64_decode_of(s: Seq<u8>) -> Option<Seq<u8>>;

/// Relies on base64's `Engine::encode` with the STANDARD engine: the result
/// is a function of the input bytes alone, it is empty exactly for empty
/// input, and `Engine::decode` recovers the input from it.
#[verifier::external_body]
pub(crate) fn b64_encode(b: &[u8]) -> (r: String)
    ensures
        encode_utf8(r@) == b64_of(b@),
        b64_decode_of(encode_utf8(r@)) == Some(b@),
        b@.len() == 0 <==> r@.len() == 0,
{
    base64::Engine::encode(&base64::engine::general_purpose::STANDARD, b)
}

/// Relies on base64's `Engine::decode` with the STANDARD engine: success and
/// the decoded bytes are a function of the input alone.
#[verifier::external_body]
pub(crate) fn b64_decode(s: &str) -> (r: Result<Vec<u8>, String>)
    ensures
        r matches Ok(v) ==> b64_decode_of(s.spec_bytes()) == Some(v@),
        r is Err ==> b64_decode_of(s.spec_bytes()) is None,
{
    base64::Engine::decode(&base64::engine::general_purpose::STANDARD, s)
        .map_err(|e| format!("{e}"))
}

/// The encoding labels under which a body string is taken as literal UTF-8
/// text: `utf8`, `json`, or no label at all.
pub open spec fn is_utf8_label(enc: Option<Seq<char>>) -> bool {
    enc is None || enc == Some("utf8"@) || enc == Some("json"@)
}

pub open spec fn is_b64_label(enc: Option<Seq<char>>) -> bool {
    enc == Some("base64"@)
}

pub open spec fn opt_view(o: Option<String>) -> Option<Seq<char>> {
    match o {
        None => None,
        Some(s) => Some(s@),
    }
}

/// Whether a body/data field with the given encoding label decodes to bytes.
pub open spec fn decode_ok(body: Option<String>, enc: Option<String>) -> bool {
    match body {
        None => true,
        Some(b) => if is_utf8_label(opt_view(enc)) {
            true
        } else if is_b64_label(opt_view(enc)) {
            b64_decode_of(encode_utf8(b@)) is Some
        } else {
            false
        },
    }
}

/// The bytes a body/data field decodes to, where `decode_ok` holds.
pub open spec fn decoded_bytes(body: Option<String>, enc: Option<String>) -> Seq<u8> {
    match body {
        None => Seq::<u8>::empty(),
        Some(b) => if is_utf8_label(opt_view(enc)) {
            encode_utf8(b@)
        } else {
            b64_decode_of(encode_utf8(b@))->Some_0
        },
    }
}

/// The error message `decode_body` returns where `decode_ok` fails: either
/// the unknown label is named, or the base64 error is passed on under a
/// fixed prefix.
pub open spec fn decode_err_spec(body: Option<String>, enc: Option<String>, e: Seq<char>) -> bool {
    if body is Some && !is_utf8_label(opt_view(enc)) && !is_b64_label(opt_view(enc)) {
        e == "unsupported body encoding: "@ + enc->Some_0@
    } else {
        exists|suf: Seq<char>| e == "base64 decode error: "@ + suf
    }
}

/// The UTF-8 bytes of a string, as an owned vector.
pub fn bytes_of_str(s: &str) -> (r: Vec<u8>)
    ensures
        r@ == encode_utf8(s@),
{
    let bytes = s.as_bytes();
    let mut v: Vec<u8> = Vec::new();
    let mut i: usize = 0;
    while i < bytes.len()
        invariant
            i <= bytes@.len(),
            v@ == bytes@.take(i as int),
        decreases bytes@.len() - i,
    {
        proof {
            assert(bytes@.take(i + 1) =~= bytes@.take(i as int).push(bytes@[i as int]));
        }
        v.push(bytes[i]);
        i = i + 1;
    }
    proof {
        assert(bytes@.take(i as int) =~= bytes@);
    }
    v
}

/// The three encoding labels are pairwise distinct strings.
pub proof fn lemma_labels_distinct()
    ensures
        "base64"@ != "utf8"@,
        "base64"@ != "json"@,
        "utf8"@ != "json"@,
{
    reveal_strlit("base64");
    reveal_strlit("utf8");
    reveal_strlit("json");
    assert("base64"@.len() == 6);
    assert("utf8"@.len() == 4);
    assert("json"@.len() == 4);
    assert("utf8"@[0] == 'u');
    assert("json"@[0] == 'j');
}

pub(crate) fn eq_str(a: &String, b: &str) -> (r: bool)
    ensures
        r == (a@ == b@),
{
    let bs = String::from_str(b);
    *a == bs
}

/// Turn an inbound body/data field into the byte payload it denotes: absent
/// bodies are empty, `base64` is decoded, `utf8`/`json`/no label is the
/// string's UTF-8 bytes, and any other label is rejected.
pub fn decode_body(body: &Option<String>, encoding: &Option<String>) -> (r: Result<Vec<u8>, String>)
    ensures
        r is Ok <==> decode_ok(*body, *encoding),
        r matches Ok(v) ==> v@ == decoded_bytes(*body, *encoding),
        r matches Err(e) ==> decode_err_spec(*body, *encoding, e@),
{
    proof {
        lemma_labels_distinct();
    }
    let b = match body {
        None => {
            return Ok(Vec::new());
        },
        Some(b) => b,
    };
    match encoding {
        None => Ok(bytes_of_str(b.as_str())),
        Some(enc) => {
            if eq_str(enc, "base64") {
                match b64_decode(b.as_str()) {
                    Ok(v) => Ok(v),
                    Err(e) => {
                        let msg = String::from_str("base64 decode error: ").concat(e.as_str());
                        proof {
                            assert(msg@ == "base64 decode error: "@ + e@);
                        }
                        Err(msg)
                    },
                }
            } else if eq_str(enc, "json") || eq_str(enc, "utf8") {
                Ok(bytes_of_str(b.as_str()))
            } else {
                Err(String::from_str("unsupported body encoding: ").concat(enc.as_str()))
            }
        },
    }
}

/// Encode outbound body/data bytes for the wire: non-empty bytes become a
/// base64 string labelled `base64`; empty bytes yield no field at all.
pub fn encode_body(bytes: &[u8]) -> (r: (Option<String>, Option<String>))
    ensures
        r.0 is None <==> bytes@.len() == 0,
        r.1 is None <==> bytes@.len() == 0,
        r.0 matches Some(b) ==> encode_utf8(b@) == b64_of(bytes@),
        r.1 matches Some(l) ==> l@ == "base64"@,
        b64_decode_of(b64_of(bytes@)) == Some(bytes@),
{
    let b = b64_encode(bytes);
    if bytes.len() == 0 {
        (None, None)
    } else {
        (Some(b), Some(String::from_str("base64")))
    }
}

/// Law: a body encoded for the wire decodes back to exactly the bytes that
/// were encoded, whatever they are.
pub fn encoded_body_round_trips(bytes: &Vec<u8>) -> (r: Vec<u8>)
    ensures
        r@ == bytes@,
{
    proof {
        lemma_labels_distinct();
    }
    let (body, encoding) = encode_body(bytes.as_slice());
    match decode_body(&body, &encoding) {
        Ok(v) => v,
        Err(_) => {
            proof {
                assert(false);
            }
            unreached()
        },
    }
}

} // verus!
