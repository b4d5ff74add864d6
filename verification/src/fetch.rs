use vstd::prelude::*;

verus! {

use vstd::string::StringExecFns;
use vstd::utf8::valid_utf8;
use vstd::utf8::decode_utf8;
use crate::codec::decode_body;
use crate::codec::decode_ok;
use crate::codec::decoded_bytes;
use crate::codec::decode_err_spec;
use crate::codec::eq_str;
use crate::frames::fetch_json;
use crate::frames::fetch_frame;

/// A parsed `fetch` request.
pub struct FetchRequest {
    pub id: u64,
    pub url: String,
    pub method: Option<String>,
    pub headers: Option<Vec<(String, String)>>,
    pub body: Option<String>,
    pub body_encoding: Option<String>,
}

/// Whether `s` parses as an HTTP method.
pub uninterp spec fn method_ok(s: Seq<char>) -> bool;

/// Whether `s` parses as an HTTP header name.
pub uninterp spec fn header_name_ok(s: Seq<char>) -> bool;

/// Whether `s` parses as an HTTP header value.
pub uninterp spec fn header_value_ok(s: Seq<char>) -> bool;

/// Relies on http's `Method::from_bytes`: whether a string names a method
/// depends on the string alone. Only the verdict is used here; the method
/// handed to the HTTP client is parsed from the same validated string at
/// the send site.
#[verifier::external_body]
fn check_method(s: &str) -> (r: Result<(), String>)
    ensures
        r is Ok <==> method_ok(s@),
{
    reqwest::Method::from_bytes(s.as_bytes()).map(|_| ()).map_err(|e| format!("{e}"))
}

/// Relies on http's `HeaderName::from_bytes`: validity of a header name
/// depends on the string alone.
#[verifier::external_body]
fn check_header_name(s: &str) -> (r: Result<(), String>)
    ensures
        r is Ok <==> header_name_ok(s@),
{
    reqwest::header::HeaderName::from_bytes(s.as_bytes()).map(|_| ()).map_err(|e| format!("{e}"))
}

/// Relies on http's `HeaderValue::from_str`: validity of a header value
/// depends on the string alone.
#[verifier::external_body]
fn check_header_value(s: &str) -> (r: Result<(), String>)
    ensures
        r is Ok <==> header_value_ok(s@),
{
    reqwest::header::HeaderValue::from_str(s).map(|_| ()).map_err(|e| format!("{e}"))
}

pub open spec fn header_ok(h: (String, String)) -> bool {
    header_name_ok(h.0@) && header_value_ok(h.1@)
}

pub open spec fn headers_all_ok(headers: Option<Vec<(String, String)>>) -> bool {
    match headers {
        None => true,
        Some(hs) => forall|i: int| 0 <= i < hs@.len() ==> #[trigger] header_ok(hs@[i]),
    }
}

/// The header pairs a request carries: none at all reads as the empty list.
pub open spec fn given_headers(headers: Option<Vec<(String, String)>>) -> Seq<(String, String)> {
    match headers {
        None => Seq::empty(),
        Some(hs) => hs@,
    }
}

/// The error message `header_map_from_hash` returns: the first offending
/// pair is named, with the parse error appended.
pub open spec fn header_err_spec(hs: Seq<(String, String)>, e: Seq<char>) -> bool {
    exists|j: int|
        0 <= j < hs.len() && !#[trigger] header_ok(hs[j]) && (forall|m: int|
            0 <= m < j ==> #[trigger] header_ok(hs[m])) && (exists|suf: Seq<char>|
            e == (if !header_name_ok(hs[j].0@) {
                "invalid header name "@ + hs[j].0@ + ": "@ + suf
            } else {
                "invalid header value "@ + hs[j].0@ + ": "@ + suf
            }))
}

/// Validate the request's headers: every name and value is put through the
/// HTTP parsers, and the first invalid pair is reported. The validated
/// pairs come back exactly as given — an absent map yields the empty list —
/// and the outgoing header map is assembled from them at the send site.
#[verifier::loop_isolation(false)]
pub fn header_map_from_hash(headers: &Option<Vec<(String, String)>>) -> (r: Result<
    Vec<(String, String)>,
    String,
>)
    ensures
        r is Ok <==> headers_all_ok(*headers),
        r matches Ok(hs) ==> hs@ == given_headers(*headers),
        r matches Err(e) ==> (*headers) matches Some(hs) && header_err_spec(hs@, e@),
{
    let mut out: Vec<(String, String)> = Vec::new();
    match headers {
        None => Ok(out),
        Some(hs) => {
            let mut i: usize = 0;
            while i < hs.len()
                invariant
                    i <= hs@.len(),
                    out@ == hs@.take(i as int),
                    forall|j: int| 0 <= j < i ==> #[trigger] header_ok(hs@[j]),
                decreases hs@.len() - i,
            {
                match check_header_name(hs[i].0.as_str()) {
                    Ok(_) => {},
                    Err(e) => {
                        let ghost suffix = e@;
                        let msg = String::from_str("invalid header name ").concat(
                            hs[i].0.as_str(),
                        ).concat(": ").concat(e.as_str());
                        proof {
                            assert(!header_ok(hs@[i as int]));
                            assert(msg@ == "invalid header name "@ + hs@[i as int].0@ + ": "@
                                + suffix);
                            assert(header_err_spec(hs@, msg@));
                        }
                        return Err(msg);
                    },
                }
                match check_header_value(hs[i].1.as_str()) {
                    Ok(_) => {},
                    Err(e) => {
                        let ghost suffix = e@;
                        let msg = String::from_str("invalid header value ").concat(
                            hs[i].0.as_str(),
                        ).concat(": ").concat(e.as_str());
                        proof {
                            assert(!header_ok(hs@[i as int]));
                            assert(msg@ == "invalid header value "@ + hs@[i as int].0@ + ": "@
                                + suffix);
                            assert(header_err_spec(hs@, msg@));
                        }
                        return Err(msg);
                    },
                }
                let k = hs[i].0.clone();
                let v = hs[i].1.clone();
                out.push((k, v));
                proof {
                    assert(out@ =~= hs@.take(i + 1));
                }
                i = i + 1;
            }
            proof {
                assert(hs@.take(hs@.len() as int) =~= hs@);
            }
            Ok(out)
        },
    }
}

/// Everything needed to issue the HTTP request: the validated method name,
/// the request URL, the validated header pairs, and the decoded body bytes.
/// All fields are plain values pinned by `prepare_fetch`'s contract; the
/// HTTP client's own method and header types are built from them at the
/// send site, where the parses cannot fail.
pub struct FetchPlan {
    pub method: String,
    pub url: String,
    pub headers: Vec<(String, String)>,
    pub body: Vec<u8>,
}

/// What the dispatcher decides for one `fetch` request: either validation
/// settled the response frame already, or the request is ready to send.
pub enum FetchStep {
    Reply(Vec<u8>),
    Send(FetchPlan),
}

/// The method asked for: the request's, or GET where none was given.
pub open spec fn chosen_method(req: FetchRequest) -> Seq<char> {
    match req.method {
        Some(m) => m@,
        None => "GET"@,
    }
}

/// Validate a `fetch` request. An invalid method, header or body yields the
/// correlated `status` 0 error frame; a request that passes every check
/// always yields a plan carrying exactly the chosen method, the request's
/// URL, the given header pairs and the decoded body bytes.
pub fn prepare_fetch(req: &FetchRequest) -> (r: FetchStep)
    ensures
        !method_ok(chosen_method(*req)) ==> (r matches FetchStep::Reply(f) && exists|
        suf: Seq<char>,
        |
            f@ == fetch_json(
                req.id,
                0,
                Seq::empty(),
                Seq::empty(),
                Some("invalid method: "@ + suf),
            )),
        method_ok(chosen_method(*req)) && !headers_all_ok(req.headers) ==> (r matches
            FetchStep::Reply(f) && (req.headers) matches Some(hs) && exists|e: Seq<char>|
            #[trigger] header_err_spec(hs@, e) && f@ == fetch_json(
                req.id,
                0,
                Seq::empty(),
                Seq::empty(),
                Some(e),
            )),
        method_ok(chosen_method(*req)) && headers_all_ok(req.headers) && !decode_ok(
            req.body,
            req.body_encoding,
        ) ==> (r matches FetchStep::Reply(f) && exists|e: Seq<char>|
            decode_err_spec(req.body, req.body_encoding, e) && f@ == fetch_json(
                req.id,
                0,
                Seq::empty(),
                Seq::empty(),
                Some(e),
            )),
        method_ok(chosen_method(*req)) && headers_all_ok(req.headers) && decode_ok(
            req.body,
            req.body_encoding,
        ) ==> (r matches FetchStep::Send(plan) && plan.method@ == chosen_method(*req)
            && plan.url@ == req.url@ && plan.headers@ == given_headers(req.headers) && plan.body@
            == decoded_bytes(req.body, req.body_encoding)),
{
    let method: String = match &req.method {
        Some(m) => m.clone(),
        None => String::from_str("GET"),
    };
    match check_method(method.as_str()) {
        Ok(_) => {},
        Err(e) => {
            let ghost suffix = e@;
            let msg = String::from_str("invalid method: ").concat(e.as_str());
            let f = error_frame(req.id, msg);
            proof {
                assert(f@ == fetch_json(
                    req.id,
                    0,
                    Seq::empty(),
                    Seq::empty(),
                    Some("invalid method: "@ + suffix),
                ));
            }
            return FetchStep::Reply(f);
        },
    }
    let headers = match header_map_from_hash(&req.headers) {
        Ok(h) => h,
        Err(e) => {
            return FetchStep::Reply(error_frame(req.id, e));
        },
    };
    let body = match decode_body(&req.body, &req.body_encoding) {
        Ok(b) => b,
        Err(e) => {
            return FetchStep::Reply(error_frame(req.id, e));
        },
    };
    FetchStep::Send(FetchPlan { method, url: req.url.clone(), headers, body })
}

/// The correlated `status` 0 fetch frame for a validation error.
fn error_frame(id: u64, msg: String) -> (f: Vec<u8>)
    ensures
        f@ == fetch_json(id, 0, Seq::empty(), Seq::empty(), Some(msg@)),
{
    let no_headers: Vec<(String, String)> = Vec::new();
    let no_body: Vec<u8> = Vec::new();
    let error = Some(msg);
    let f = fetch_frame(id, 0, &no_headers, no_body.as_slice(), &error);
    proof {
        assert(no_headers@ =~= Seq::<(String, String)>::empty());
        assert(no_body@ =~= Seq::<u8>::empty());
    }
    f
}

/// The correlated `status` 0 fetch frame for a transport failure.
pub fn fetch_error_frame(id: u64, err: &str) -> (f: Vec<u8>)
    ensures
        f@ == fetch_json(id, 0, Seq::empty(), Seq::empty(), Some("fetch error: "@ + err@)),
{
    let msg = String::from_str("fetch error: ").concat(err);
    error_frame(id, msg)
}

/// The fetch frame for a response whose body could not be read: status and
/// headers are kept, the body is absent.
pub fn fetch_read_body_error_frame(
    id: u64,
    status: u16,
    headers: &Vec<(String, String)>,
    err: &str,
) -> (f: Vec<u8>)
    ensures
        f@ == fetch_json(id, status, headers@, Seq::empty(), Some("read body error: "@ + err@)),
{
    let msg = String::from_str("read body error: ").concat(err);
    let no_body: Vec<u8> = Vec::new();
    let error = Some(msg);
    let f = fetch_frame(id, status, headers, no_body.as_slice(), &error);
    proof {
        assert(no_body@ =~= Seq::<u8>::empty());
    }
    f
}

/// The fetch frame for a completed response.
pub fn fetch_success_frame(id: u64, status: u16, headers: &Vec<(String, String)>, body: &[u8]) -> (
    f: Vec<u8>)
    ensures
        f@ == fetch_json(id, status, headers@, body@, None),
{
    fetch_frame(id, status, headers, body, &None)
}

/// Whether entry `i` of the raw response headers survives the coercion to a
/// string map: its value is valid UTF-8, and no later entry carries the
/// same name with a valid value — the last valid value of each name wins,
/// as repeated inserts into a map would keep the last.
pub open spec fn keeps_entry(pairs: Seq<(String, Vec<u8>)>, i: int) -> bool {
    &&& valid_utf8(pairs[i].1@)
    &&& forall|j: int|
        i < j < pairs.len() ==> !(#[trigger] pairs[j].0@ == pairs[i].0@ && valid_utf8(
            pairs[j].1@,
        ))
}

pub open spec fn decoded_headers_upto(pairs: Seq<(String, Vec<u8>)>, n: int) -> Seq<
    (Seq<char>, Seq<char>),
>
    decreases n,
{
    if n <= 0 {
        Seq::empty()
    } else {
        decoded_headers_upto(pairs, n - 1) + (if keeps_entry(pairs, n - 1) {
            seq![(pairs[n - 1].0@, decode_utf8(pairs[n - 1].1@))]
        } else {
            Seq::empty()
        })
    }
}

/// The response headers as a string map written out as pairs: entries whose
/// value is not valid UTF-8 are dropped, and of several entries with one
/// name the last valid one stands, so every name appears at most once.
pub open spec fn decoded_header_views(pairs: Seq<(String, Vec<u8>)>) -> Seq<
    (Seq<char>, Seq<char>),
> {
    decoded_headers_upto(pairs, pairs.len() as int)
}

/// Relies on core::str::from_utf8: it succeeds exactly on valid UTF-8 and
/// yields its decoding.
#[verifier::external_body]
fn utf8_string(b: &[u8]) -> (r: Option<String>)
    ensures
        r is Some <==> valid_utf8(b@),
        r matches Some(s) ==> s@ == decode_utf8(b@),
{
    core::str::from_utf8(b).ok().map(|s| s.to_string())
}

/// Coerce raw response headers to string pairs, dropping any whose value
/// is not valid UTF-8 and keeping the last valid value of each name.
#[verifier::loop_isolation(false)]
pub fn headers_to_hash(pairs: &Vec<(String, Vec<u8>)>) -> (r: Vec<(String, String)>)
    ensures
        r@.map_values(|p: (String, String)| (p.0@, p.1@)) == decoded_header_views(pairs@),
{
    let mut out: Vec<(String, String)> = Vec::new();
    let mut i: usize = 0;
    while i < pairs.len()
        invariant
            i <= pairs@.len(),
            out@.map_values(|p: (String, String)| (p.0@, p.1@)) == decoded_headers_upto(
                pairs@,
                i as int,
            ),
        decreases pairs@.len() - i,
    {
        match utf8_string(pairs[i].1.as_slice()) {
            Some(s) => {
                let mut later = false;
                let mut j: usize = i + 1;
                while j < pairs.len()
                    invariant
                        i < pairs@.len(),
                        i + 1 <= j <= pairs@.len(),
                        later ==> exists|j2: int|
                            i < j2 < j && (#[trigger] pairs@[j2].0@) == pairs@[i as int].0@
                                && valid_utf8(pairs@[j2].1@),
                        !later ==> forall|j2: int|
                            i < j2 < j ==> !((#[trigger] pairs@[j2].0@) == pairs@[i as int].0@
                                && valid_utf8(pairs@[j2].1@)),
                    decreases pairs@.len() - j,
                {
                    if eq_str(&pairs[j].0, pairs[i].0.as_str()) {
                        if utf8_string(pairs[j].1.as_slice()).is_some() {
                            later = true;
                        }
                    }
                    j = j + 1;
                }
                if !later {
                    let k = pairs[i].0.clone();
                    out.push((k, s));
                    proof {
                        assert(keeps_entry(pairs@, i as int));
                        assert(out@.map_values(|p: (String, String)| (p.0@, p.1@))
                            =~= decoded_headers_upto(pairs@, i as int + 1));
                    }
                } else {
                    proof {
                        assert(!keeps_entry(pairs@, i as int));
                        assert(out@.map_values(|p: (String, String)| (p.0@, p.1@))
                            =~= decoded_headers_upto(pairs@, i as int + 1));
                    }
                }
            },
            None => {
                proof {
                    assert(!keeps_entry(pairs@, i as int));
                    assert(out@.map_values(|p: (String, String)| (p.0@, p.1@))
                        =~= decoded_headers_upto(pairs@, i as int + 1));
                }
            },
        }
        i = i + 1;
    }
    out
}

} // verus!
