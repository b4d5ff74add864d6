use vstd::prelude::*;

verus! {

use crate::codec::eq_str;
use crate::dispatch::TcpOpenRequest;
use crate::dispatch::TcpWriteRequest;
use crate::dispatch::TcpCloseRequest;
use crate::fetch::FetchRequest;

#[verifier::external_type_specification]
#[verifier::external_body]
pub struct ExValue(serde_json::Value);

/// A parsed inbound request, routed by its `type` field. Texts that are not
/// JSON, carry no known `type`, or have a malformed payload parse to
/// nothing, and the dispatcher drops them without an answer.
pub enum Request {
    Fetch(FetchRequest),
    TcpOpen(TcpOpenRequest),
    TcpWrite(TcpWriteRequest),
    TcpClose(TcpCloseRequest),
}

/// Whether serde_json parses `s` as one JSON document; a function of the
/// text alone.
pub uninterp spec fn json_text_ok(s: Seq<char>) -> bool;

/// Relies on serde_json's `from_str`: parse a text into a generic JSON
/// value, or nothing where the text is not JSON.
#[verifier::external_body]
fn json_parse(s: &str) -> (r: Option<serde_json::Value>)
    ensures
        r is Some <==> json_text_ok(s@),
{
    serde_json::from_str::<serde_json::Value>(s).ok()
}

/// Relies on serde_json's `Value::get`: the named field of a JSON object.
#[verifier::external_body]
fn json_get<'a>(v: &'a serde_json::Value, key: &str) -> Option<&'a serde_json::Value> {
    v.get(key)
}

/// Relies on serde_json's `Value::as_str`.
#[verifier::external_body]
fn json_as_string(v: &serde_json::Value) -> Option<String> {
    v.as_str().map(|s| s.to_string())
}

/// Relies on serde_json's `Value::as_u64`.
#[verifier::external_body]
fn json_as_u64(v: &serde_json::Value) -> Option<u64> {
    v.as_u64()
}

/// Relies on serde_json's `Value::as_bool`.
#[verifier::external_body]
fn json_as_bool(v: &serde_json::Value) -> Option<bool> {
    v.as_bool()
}

/// Relies on serde_json's `Value::is_null`.
#[verifier::external_body]
fn json_is_null(v: &serde_json::Value) -> bool {
    v.is_null()
}

/// Relies on serde_json's `Value::as_object`: the fields of a JSON object
/// as owned pairs, in the object's iteration order.
#[verifier::external_body]
fn json_object_entries(v: &serde_json::Value) -> Option<Vec<(String, serde_json::Value)>> {
    v.as_object().map(|m| m.iter().map(|(k, val)| (k.clone(), val.clone())).collect())
}

/// A string field that may be absent or null; a present non-string is a
/// malformed payload.
fn opt_string_field(v: &serde_json::Value, key: &str) -> Result<Option<String>, ()> {
    match json_get(v, key) {
        None => Ok(None),
        Some(f) => {
            if json_is_null(f) {
                Ok(None)
            } else {
                match json_as_string(f) {
                    Some(s) => Ok(Some(s)),
                    None => Err(()),
                }
            }
        },
    }
}

/// A bool field that may be absent or null.
fn opt_bool_field(v: &serde_json::Value, key: &str) -> Result<Option<bool>, ()> {
    match json_get(v, key) {
        None => Ok(None),
        Some(f) => {
            if json_is_null(f) {
                Ok(None)
            } else {
                match json_as_bool(f) {
                    Some(b) => Ok(Some(b)),
                    None => Err(()),
                }
            }
        },
    }
}

/// A mandatory unsigned integer field.
fn req_u64_field(v: &serde_json::Value, key: &str) -> Result<u64, ()> {
    match json_get(v, key) {
        None => Err(()),
        Some(f) => match json_as_u64(f) {
            Some(n) => Ok(n),
            None => Err(()),
        },
    }
}

/// A mandatory string field.
fn req_string_field(v: &serde_json::Value, key: &str) -> Result<String, ()> {
    match json_get(v, key) {
        None => Err(()),
        Some(f) => match json_as_string(f) {
            Some(s) => Ok(s),
            None => Err(()),
        },
    }
}

/// The optional `headers` object: every value must be a string.
fn opt_headers_field(v: &serde_json::Value) -> Result<Option<Vec<(String, String)>>, ()> {
    match json_get(v, "headers") {
        None => Ok(None),
        Some(h) => {
            if json_is_null(h) {
                return Ok(None);
            }
            let entries = match json_object_entries(h) {
                Some(es) => es,
                None => {
                    return Err(());
                },
            };
            let mut out: Vec<(String, String)> = Vec::new();
            let mut i: usize = 0;
            while i < entries.len()
                decreases entries@.len() - i,
            {
                match json_as_string(&entries[i].1) {
                    Some(s) => {
                        let k = entries[i].0.clone();
                        out.push((k, s));
                    },
                    None => {
                        return Err(());
                    },
                }
                i = i + 1;
            }
            Ok(Some(out))
        },
    }
}

fn parse_fetch(v: &serde_json::Value) -> Option<FetchRequest> {
    let id = match req_u64_field(v, "id") {
        Ok(n) => n,
        Err(_) => {
            return None;
        },
    };
    let url = match req_string_field(v, "url") {
        Ok(s) => s,
        Err(_) => {
            return None;
        },
    };
    let method = match opt_string_field(v, "method") {
        Ok(m) => m,
        Err(_) => {
            return None;
        },
    };
    let headers = match opt_headers_field(v) {
        Ok(h) => h,
        Err(_) => {
            return None;
        },
    };
    let body = match opt_string_field(v, "body") {
        Ok(b) => b,
        Err(_) => {
            return None;
        },
    };
    let body_encoding = match opt_string_field(v, "bodyEncoding") {
        Ok(e) => e,
        Err(_) => {
            return None;
        },
    };
    Some(FetchRequest { id, url, method, headers, body, body_encoding })
}

fn parse_tcp_open(v: &serde_json::Value) -> Option<TcpOpenRequest> {
    let id = match req_u64_field(v, "id") {
        Ok(n) => n,
        Err(_) => {
            return None;
        },
    };
    let host = match req_string_field(v, "host") {
        Ok(s) => s,
        Err(_) => {
            return None;
        },
    };
    let port_raw = match req_u64_field(v, "port") {
        Ok(n) => n,
        Err(_) => {
            return None;
        },
    };
    if port_raw > 65535 {
        return None;
    }
    let tls = match opt_bool_field(v, "tls") {
        Ok(b) => b,
        Err(_) => {
            return None;
        },
    };
    let server_name = match opt_string_field(v, "serverName") {
        Ok(s) => s,
        Err(_) => {
            return None;
        },
    };
    let insecure = match opt_bool_field(v, "insecure") {
        Ok(b) => b,
        Err(_) => {
            return None;
        },
    };
    Some(TcpOpenRequest { id, host, port: port_raw as u16, tls, server_name, insecure })
}

fn parse_tcp_write(v: &serde_json::Value) -> Option<TcpWriteRequest> {
    let id = match req_u64_field(v, "id") {
        Ok(n) => n,
        Err(_) => {
            return None;
        },
    };
    let stream_id = match req_u64_field(v, "streamId") {
        Ok(n) => n,
        Err(_) => {
            return None;
        },
    };
    let data = match opt_string_field(v, "data") {
        Ok(d) => d,
        Err(_) => {
            return None;
        },
    };
    let data_encoding = match opt_string_field(v, "dataEncoding") {
        Ok(e) => e,
        Err(_) => {
            return None;
        },
    };
    Some(TcpWriteRequest { id, stream_id, data, data_encoding })
}

fn parse_tcp_close(v: &serde_json::Value) -> Option<TcpCloseRequest> {
    let id = match req_u64_field(v, "id") {
        Ok(n) => n,
        Err(_) => {
            return None;
        },
    };
    let stream_id = match req_u64_field(v, "streamId") {
        Ok(n) => n,
        Err(_) => {
            return None;
        },
    };
    Some(TcpCloseRequest { id, stream_id })
}

/// Parse one inbound message text into a request. A text that is not JSON
/// yields nothing, so no frame answers it. The fields of a parsed request
/// go through serde_json's opaque values, whose reading no contract here
/// can follow; what the dispatcher then does with a parsed request is what
/// the handlers' contracts pin down.
pub fn parse_request(text: &str) -> (r: Option<Request>)
    ensures
        !json_text_ok(text@) ==> r is None,
{
    let value = match json_parse(text) {
        Some(v) => v,
        None => {
            return None;
        },
    };
    let t = match json_get(&value, "type") {
        Some(tv) => match json_as_string(tv) {
            Some(s) => s,
            None => {
                return None;
            },
        },
        None => {
            return None;
        },
    };
    if eq_str(&t, "fetch") {
        match parse_fetch(&value) {
            Some(r) => Some(Request::Fetch(r)),
            None => None,
        }
    } else if eq_str(&t, "tcp_open") {
        match parse_tcp_open(&value) {
            Some(r) => Some(Request::TcpOpen(r)),
            None => None,
        }
    } else if eq_str(&t, "tcp_write") {
        match parse_tcp_write(&value) {
            Some(r) => Some(Request::TcpWrite(r)),
            None => None,
        }
    } else if eq_str(&t, "tcp_close") {
        match parse_tcp_close(&value) {
            Some(r) => Some(Request::TcpClose(r)),
            None => None,
        }
    } else {
        None
    }
}

} // verus!
