use crate::codec::{b64_decode, b64_decode_of, b64_encode, b64_encode_of, string_from_utf8};
use crate::request::{opt_str_view, parse_request, parse_request_of, ReqView, Request};
use crate::response::{render_of, render_response, RespView, Response};
use crate::store::ClipboardStore;
use vstd::prelude::*;
use vstd::string::StringExecFns;
use vstd::utf8::{decode_utf8, encode_utf8, valid_utf8};

verus! {

/// What a plain upload does: store the `data` field as the new clipboard
/// value, or reject the request when the field is absent or not a string.
pub open spec fn upload_of(data: Option<Seq<char>>, value: Seq<char>) -> (Seq<char>, RespView) {
    match data {
        None => (value, RespView::Rejected("Missing or non-string 'data' field"@)),
        Some(d) => (d, RespView::Accepted),
    }
}

/// What a base64 upload does: decode the `data` field as base64, decode the
/// bytes as UTF-8, and store the resulting text; reject the request — and
/// leave the value untouched — when the field is absent or not a string, not
/// valid base64, or not the encoding of valid UTF-8.
pub open spec fn upload_base64_of(data: Option<Seq<char>>, value: Seq<char>) -> (
    Seq<char>,
    RespView,
) {
    match data {
        None => (value, RespView::Rejected("Missing or non-string 'data' field"@)),
        Some(d) => match b64_decode_of(d) {
            None => (value, RespView::Rejected("Invalid base64 in 'data'"@)),
            Some(bytes) => if valid_utf8(bytes) {
                (decode_utf8(bytes), RespView::Accepted)
            } else {
                (value, RespView::Rejected("Base64 'data' does not decode to UTF-8"@))
            },
        },
    }
}

/// The command table: what dispatching one request does to the clipboard
/// value, and which response it draws. Downloads never fail and never change
/// the value; uploads replace it exactly on success; every other request
/// leaves it untouched and draws an error response.
pub open spec fn dispatch_of(req: ReqView, value: Seq<char>) -> (Seq<char>, RespView) {
    match req.command {
        None => (value, RespView::Rejected("Missing or non-string 'command' field"@)),
        Some(cmd) => if cmd == "clipboard_upload"@ {
            upload_of(req.data, value)
        } else if cmd == "clipboard_upload_base64"@ {
            upload_base64_of(req.data, value)
        } else if cmd == "clipboard_download"@ {
            (value, RespView::Data(value))
        } else if cmd == "clipboard_download_base64"@ {
            (value, RespView::Data(b64_encode_of(encode_utf8(value))))
        } else {
            (value, RespView::Rejected("Unknown command: "@ + cmd))
        },
    }
}

/// Handles `clipboard_upload`.
fn dispatch_upload(store: &mut ClipboardStore, data: Option<String>) -> (r: Response)
    ensures
        (final(store)@, r@) == upload_of(opt_str_view(data), old(store)@),
{
    match data {
        None => Response::Rejected("Missing or non-string 'data' field".to_owned()),
        Some(d) => {
            store.set(d);
            Response::Accepted
        },
    }
}

/// Handles `clipboard_upload_base64`.
fn dispatch_upload_base64(store: &mut ClipboardStore, data: Option<String>) -> (r: Response)
    ensures
        (final(store)@, r@) == upload_base64_of(opt_str_view(data), old(store)@),
{
    match data {
        None => Response::Rejected("Missing or non-string 'data' field".to_owned()),
        Some(d) => match b64_decode(d.as_str()) {
            None => Response::Rejected("Invalid base64 in 'data'".to_owned()),
            Some(bytes) => match string_from_utf8(bytes) {
                None => Response::Rejected("Base64 'data' does not decode to UTF-8".to_owned()),
                Some(text) => {
                    store.set(text);
                    Response::Accepted
                },
            },
        },
    }
}

/// Maps one request to its action against the store and its response,
/// exactly as the command table `dispatch_of` says. Never fails and never
/// panics: a request the table rejects draws an error response and leaves
/// the clipboard value as it was.
pub fn dispatch(store: &mut ClipboardStore, req: Request) -> (r: Response)
    ensures
        (final(store)@, r@) == dispatch_of(req@, old(store)@),
{
    match req.command {
        None => Response::Rejected("Missing or non-string 'command' field".to_owned()),
        Some(cmd) => {
            if cmd == "clipboard_upload".to_owned() {
                dispatch_upload(store, req.data)
            } else if cmd == "clipboard_upload_base64".to_owned() {
                dispatch_upload_base64(store, req.data)
            } else if cmd == "clipboard_download".to_owned() {
                Response::Data(store.get())
            } else if cmd == "clipboard_download_base64".to_owned() {
                let value = store.get();
                Response::Data(b64_encode(value.as_str().as_bytes()))
            } else {
                let mut message = "Unknown command: ".to_owned();
                message.append(cmd.as_str());
                Response::Rejected(message)
            }
        },
    }
}

/// What one input line does: the clipboard value afterwards, and the wire
/// text (without the framing newline) of the one response it draws. A line
/// that is not well-formed JSON draws an error response carrying the
/// parser's diagnostic and leaves the value untouched.
pub open spec fn handle_line_of(line: Seq<char>, value: Seq<char>) -> (Seq<char>, Seq<char>) {
    match parse_request_of(line) {
        Ok(req) => {
            let (value2, resp) = dispatch_of(req, value);
            (value2, render_of(resp))
        },
        Err(m) => (value, render_of(RespView::Rejected("Error parsing json: "@ + m))),
    }
}

/// Decodes one request line, dispatches it, and renders the one response
/// line to write back, as `handle_line_of` says of it.
pub fn handle_line(store: &mut ClipboardStore, line: &str) -> (out: String)
    ensures
        (final(store)@, out@) == handle_line_of(line@, old(store)@),
{
    match parse_request(line) {
        Ok(req) => {
            let resp = dispatch(store, req);
            render_response(&resp)
        },
        Err(m) => {
            let mut message = "Error parsing json: ".to_owned();
            message.append(m.as_str());
            render_response(&Response::Rejected(message))
        },
    }
}

/// The two states of a per-connection session: waiting for the next line,
/// or ended by the stream's close.
pub enum SessionState {
    Reading,
    Closed,
}

/// One step of the session loop: handed how many bytes the line read
/// returned and the line itself, it decides whether the session ends and
/// what to write back. Zero bytes read means end of stream: the session
/// closes, nothing is written, and the clipboard is untouched. Otherwise
/// the line is handled and the session keeps reading.
pub fn session_step(store: &mut ClipboardStore, bytes_read: usize, line: &str) -> (r: (
    SessionState,
    Option<String>,
))
    ensures
        bytes_read == 0 ==> r.0 is Closed && r.1 is None && final(store)@ == old(store)@,
        bytes_read > 0 ==> r.0 is Reading && (r.1 matches Some(out) && (final(store)@, out@)
            == handle_line_of(line@, old(store)@)),
{
    if bytes_read == 0 {
        (SessionState::Closed, None)
    } else {
        let out = handle_line(store, line);
        (SessionState::Reading, Some(out))
    }
}

} // verus!
