use vstd::prelude::*;

verus! {

use vstd::string::StringExecFns;
use crate::codec::decode_body;
use crate::codec::decode_ok;
use crate::codec::decoded_bytes;
use crate::codec::decode_err_spec;
use crate::frames::tcp_open_json;
use crate::frames::tcp_write_json;
use crate::frames::tcp_data_json;
use crate::frames::tcp_close_json;
use crate::frames::tcp_open_frame;
use crate::frames::tcp_write_frame;
use crate::frames::tcp_data_frame;
use crate::frames::tcp_close_frame;
use crate::session::Session;
use crate::session::removes;

/// A parsed `tcp_open` request.
pub struct TcpOpenRequest {
    pub id: u64,
    pub host: String,
    pub port: u16,
    pub tls: Option<bool>,
    pub server_name: Option<String>,
    pub insecure: Option<bool>,
}

/// A parsed `tcp_write` request.
pub struct TcpWriteRequest {
    pub id: u64,
    pub stream_id: u64,
    pub data: Option<String>,
    pub data_encoding: Option<String>,
}

/// A parsed `tcp_close` request.
pub struct TcpCloseRequest {
    pub id: u64,
    pub stream_id: u64,
}

/// Whether rustls accepts `s` as a server name for SNI.
pub uninterp spec fn server_name_ok(s: Seq<char>) -> bool;

/// Relies on rustls's `ServerName::try_from(&str)`: whether a string parses
/// as a server name depends on the string alone. Only the verdict is used
/// here; the value handed to the TLS connector is parsed from the same
/// validated string at the handshake site.
#[verifier::external_body]
fn check_server_name(s: &str) -> (r: Result<(), String>)
    ensures
        r is Ok <==> server_name_ok(s@),
{
    tokio_rustls::rustls::ServerName::try_from(s).map(|_| ()).map_err(|e| format!("{e}"))
}

/// The name offered for SNI: the request's `serverName`, or the host where
/// none was given.
pub open spec fn chosen_server_name(req: TcpOpenRequest) -> Seq<char> {
    match req.server_name {
        Some(s) => s@,
        None => req.host@,
    }
}

pub open spec fn wants_tls(req: TcpOpenRequest) -> bool {
    req.tls == Some(true)
}

pub open spec fn wants_insecure(req: TcpOpenRequest) -> bool {
    req.insecure == Some(true)
}

/// What the dispatcher decides for one `tcp_write` request: either the
/// correlated response frame is already settled, or the decoded bytes must
/// first be written to the stream's writer half.
pub enum TcpWriteStep {
    Reply(Vec<u8>),
    Write { stream_id: u64, data: Vec<u8> },
}

/// Route a `tcp_write` request: reject data that does not decode, answer
/// `unknown stream` for an id that is not open, and otherwise hand the
/// decoded bytes on for the caller to write.
pub fn handle_tcp_write(sess: &Session, req: &TcpWriteRequest) -> (r: TcpWriteStep)
    requires
        sess.wf(),
    ensures
        !decode_ok(req.data, req.data_encoding) ==> (r matches TcpWriteStep::Reply(f)
            && exists|e: Seq<char>|
            decode_err_spec(req.data, req.data_encoding, e) && f@ == tcp_write_json(
                req.id,
                false,
                Some(e),
            )),
        decode_ok(req.data, req.data_encoding) && !sess.has_stream(req.stream_id) ==> (r matches
            TcpWriteStep::Reply(f) && f@ == tcp_write_json(
            req.id,
            false,
            Some("unknown stream"@),
        )),
        decode_ok(req.data, req.data_encoding) && sess.has_stream(req.stream_id) ==> (r matches
            TcpWriteStep::Write { stream_id, data } && stream_id == req.stream_id && data@
            == decoded_bytes(req.data, req.data_encoding)),
{
    match decode_body(&req.data, &req.data_encoding) {
        Err(e) => {
            let ghost msg = e@;
            let err = Some(e);
            let f = tcp_write_frame(req.id, false, &err);
            proof {
                assert(f@ == tcp_write_json(req.id, false, Some(msg)));
            }
            TcpWriteStep::Reply(f)
        },
        Ok(data) => {
            if !sess.contains(req.stream_id) {
                let err = Some(String::from_str("unknown stream"));
                TcpWriteStep::Reply(tcp_write_frame(req.id, false, &err))
            } else {
                TcpWriteStep::Write { stream_id: req.stream_id, data }
            }
        },
    }
}

/// The correlated `tcp_write` response once the write has been attempted:
/// `ok` with no error, or the write error under its fixed prefix.
pub fn tcp_write_result_frame(id: u64, error: &Option<String>) -> (frame: Vec<u8>)
    ensures
        error is None ==> frame@ == tcp_write_json(id, true, None),
        error matches Some(e) ==> frame@ == tcp_write_json(id, false, Some("write error: "@ + e@)),
{
    match error {
        None => tcp_write_frame(id, true, &None),
        Some(e) => {
            let msg = String::from_str("write error: ").concat(e.as_str());
            let err = Some(msg);
            tcp_write_frame(id, false, &err)
        },
    }
}

/// Handle a `tcp_close` request: the writer entry is dropped (closing an
/// unknown or already-closed stream changes nothing) and the echoed
/// `tcp_close` frame is returned.
pub fn handle_tcp_close(sess: &mut Session, req: &TcpCloseRequest) -> (frame: Vec<u8>)
    requires
        old(sess).wf(),
    ensures
        final(sess).wf(),
        final(sess).next_id() == old(sess).next_id(),
        !final(sess).has_stream(req.stream_id),
        forall|x: u64|
            x != req.stream_id ==> #[trigger] final(sess).has_stream(x) == old(sess).has_stream(
                x,
            ),
        removes(*old(sess), *final(sess), req.stream_id),
        frame@ == tcp_close_json(req.stream_id, None),
{
    sess.remove(req.stream_id);
    tcp_close_frame(req.stream_id, &None)
}

/// The correlated `tcp_open` failure frame for a connect error.
pub fn connect_error_frame(id: u64, err: &str) -> (frame: Vec<u8>)
    ensures
        frame@ == tcp_open_json(id, None, false, Some("connect error: "@ + err@)),
{
    let msg = String::from_str("connect error: ").concat(err);
    let error = Some(msg);
    tcp_open_frame(id, None, false, &error)
}

/// What the dispatcher decides for a `tcp_open` request once the TCP
/// connect has succeeded: a settled failure frame (the id is consumed but
/// never inserted), a plain stream that is open at once, or a TLS stream
/// that still has to go through the handshake.
pub enum TcpOpenStep {
    Reply(Vec<u8>),
    OpenPlain { stream_id: u64, frame: Vec<u8> },
    OpenTls { stream_id: u64, server_name: String, insecure: bool },
}

/// Continue a `tcp_open` after the TCP connect succeeded. A stream id is
/// allocated on every path from here, as the dispatcher does, even where
/// TLS setup later fails and the id is never seen by the client.
pub fn handle_tcp_open_connected(sess: &mut Session, req: &TcpOpenRequest) -> (r: TcpOpenStep)
    requires
        old(sess).wf(),
        old(sess).next_id() < u64::MAX,
    ensures
        final(sess).wf(),
        final(sess).next_id() == old(sess).next_id() + 1,
        !wants_tls(*req) ==> (r matches TcpOpenStep::OpenPlain { stream_id, frame } && stream_id
            == old(sess).next_id() && frame@ == tcp_open_json(req.id, Some(stream_id), true, None)
            && forall|x: u64|
            #[trigger] final(sess).has_stream(x) == (old(sess).has_stream(x) || x == stream_id)),
        wants_tls(*req) && !server_name_ok(chosen_server_name(*req)) ==> (r matches
            TcpOpenStep::Reply(f) && final(sess).ids() == old(sess).ids() && exists|e: Seq<char>|
            f@ == tcp_open_json(req.id, None, false, Some("bad server name: "@ + e))),
        wants_tls(*req) && server_name_ok(chosen_server_name(*req)) ==> (r matches
            TcpOpenStep::OpenTls { stream_id, server_name, insecure } && stream_id == old(
            sess,
        ).next_id() && server_name@ == chosen_server_name(*req) && insecure == wants_insecure(
            *req,
        ) && final(sess).ids() == old(sess).ids()),
{
    let stream_id = sess.allocate_id();
    let use_tls = match req.tls {
        Some(b) => b,
        None => false,
    };
    if !use_tls {
        sess.insert(stream_id);
        let frame = tcp_open_frame(req.id, Some(stream_id), true, &None);
        TcpOpenStep::OpenPlain { stream_id, frame }
    } else {
        let name: String = match &req.server_name {
            Some(s) => s.clone(),
            None => req.host.clone(),
        };
        match check_server_name(name.as_str()) {
            Err(e) => {
                let ghost suffix = e@;
                let msg = String::from_str("bad server name: ").concat(e.as_str());
                let error = Some(msg);
                let f = tcp_open_frame(req.id, None, false, &error);
                proof {
                    assert(f@ == tcp_open_json(
                        req.id,
                        None,
                        false,
                        Some("bad server name: "@ + suffix),
                    ));
                }
                TcpOpenStep::Reply(f)
            },
            Ok(_) => {
                let insecure = match req.insecure {
                    Some(b) => b,
                    None => false,
                };
                TcpOpenStep::OpenTls { stream_id, server_name: name, insecure }
            },
        }
    }
}

/// Record a TLS stream as open once its handshake succeeded, and build the
/// correlated success frame.
pub fn handle_tls_handshake_ok(sess: &mut Session, req_id: u64, stream_id: u64) -> (frame: Vec<
    u8,
>)
    requires
        old(sess).wf(),
        !old(sess).has_stream(stream_id),
        1 <= stream_id < old(sess).next_id(),
    ensures
        final(sess).wf(),
        final(sess).next_id() == old(sess).next_id(),
        forall|x: u64|
            #[trigger] final(sess).has_stream(x) == (old(sess).has_stream(x) || x == stream_id),
        frame@ == tcp_open_json(req_id, Some(stream_id), true, None),
{
    sess.insert(stream_id);
    tcp_open_frame(req_id, Some(stream_id), true, &None)
}

/// The correlated `tcp_open` failure frame for a failed TLS handshake. The
/// allocated stream id stays consumed and is never inserted.
pub fn tls_handshake_error_frame(id: u64, err: &str) -> (frame: Vec<u8>)
    ensures
        frame@ == tcp_open_json(id, None, false, Some("tls handshake error: "@ + err@)),
{
    let msg = String::from_str("tls handshake error: ").concat(err);
    let error = Some(msg);
    tcp_open_frame(id, None, false, &error)
}

/// What a stream's reader observed in one read.
pub enum ReadEvent {
    Data(Vec<u8>),
    Eof,
    Failed(String),
}

/// What the reader does with it: the frame to enqueue, and whether the
/// stream is finished and was dropped from the table.
pub struct ReadStep {
    pub frame: Vec<u8>,
    pub closed: bool,
}

/// One step of a stream's reader: data becomes a `tcp_data` frame carrying
/// exactly the bytes read; end of stream or a read error becomes a terminal
/// `tcp_close` frame and removes the stream from the table.
pub fn handle_read_event(sess: &mut Session, stream_id: u64, ev: &ReadEvent) -> (r: ReadStep)
    requires
        old(sess).wf(),
    ensures
        final(sess).wf(),
        final(sess).next_id() == old(sess).next_id(),
        ev matches ReadEvent::Data(d) ==> r.frame@ == tcp_data_json(stream_id, d@) && !r.closed
            && final(sess).ids() == old(sess).ids(),
        ev is Eof ==> r.frame@ == tcp_close_json(stream_id, None) && r.closed
            && !(final(sess).has_stream(stream_id)),
        ev matches ReadEvent::Failed(e) ==> r.frame@ == tcp_close_json(
            stream_id,
            Some("read error: "@ + e@),
        ) && r.closed && !final(sess).has_stream(stream_id),
        forall|x: u64|
            x != stream_id ==> #[trigger] final(sess).has_stream(x) == old(sess).has_stream(x),
        !(ev is Data) ==> removes(*old(sess), *final(sess), stream_id),
{
    match ev {
        ReadEvent::Data(d) => ReadStep { frame: tcp_data_frame(stream_id, d.as_slice()), closed: false },
        ReadEvent::Eof => {
            sess.remove(stream_id);
            ReadStep { frame: tcp_close_frame(stream_id, &None), closed: true }
        },
        ReadEvent::Failed(e) => {
            sess.remove(stream_id);
            let msg = String::from_str("read error: ").concat(e.as_str());
            let error = Some(msg);
            ReadStep { frame: tcp_close_frame(stream_id, &error), closed: true }
        },
    }
}

} // verus!
