use crate::codec::{b64_decode_of, b64_encode_of};
use crate::dispatch::{dispatch_of, handle_line_of};
use crate::request::{parse_request_of, ReqView};
use crate::response::{render_of, RespView};
use vstd::prelude::*;
use vstd::utf8::{decode_utf8, encode_utf8, encode_utf8_decode_utf8, encode_utf8_valid_utf8, valid_utf8};

verus! {

/// A plain upload request carrying `data`.
pub open spec fn upload_req(data: Seq<char>) -> ReqView {
    ReqView { command: Some("clipboard_upload"@), data: Some(data) }
}

/// A base64 upload request carrying `data`.
pub open spec fn upload_base64_req(data: Seq<char>) -> ReqView {
    ReqView { command: Some("clipboard_upload_base64"@), data: Some(data) }
}

/// A plain download request.
pub open spec fn download_req() -> ReqView {
    ReqView { command: Some("clipboard_download"@), data: None }
}

/// A base64 download request.
pub open spec fn download_base64_req() -> ReqView {
    ReqView { command: Some("clipboard_download_base64"@), data: None }
}

/// The four command words differ pairwise, so each request above lands on
/// its own row of the command table.
proof fn lemma_commands_differ()
    ensures
        "clipboard_upload"@ != "clipboard_upload_base64"@,
        "clipboard_upload"@ != "clipboard_download"@,
        "clipboard_upload"@ != "clipboard_download_base64"@,
        "clipboard_upload_base64"@ != "clipboard_download"@,
        "clipboard_upload_base64"@ != "clipboard_download_base64"@,
        "clipboard_download"@ != "clipboard_download_base64"@,
{
    broadcast use vstd::string::group_string_axioms;

    reveal_strlit("clipboard_upload");
    reveal_strlit("clipboard_upload_base64");
    reveal_strlit("clipboard_download");
    reveal_strlit("clipboard_download_base64");
    assert("clipboard_upload"@.len() == 16);
    assert("clipboard_upload_base64"@.len() == 23);
    assert("clipboard_download"@.len() == 18);
    assert("clipboard_download_base64"@.len() == 25);
}

/// Round trip, plain: uploading any string and then downloading returns
/// exactly that string, whatever the clipboard held before. The premise
/// keeps newlines out because the newline-delimited framing, not the
/// command table, cannot carry them in a plain payload.
pub proof fn round_trip_plain(s: Seq<char>, v0: Seq<char>)
    requires
        forall|i: int| 0 <= i < s.len() ==> s[i] != '\n',
    ensures
        ({
            let (v1, r1) = dispatch_of(upload_req(s), v0);
            let (v2, r2) = dispatch_of(download_req(), v1);
            r1 == RespView::Accepted && v1 == s && r2 == RespView::Data(s) && v2 == s
        }),
{
    lemma_commands_differ();
}

/// Round trip, base64: uploading base64 text that decodes to the encoding
/// of a string `s` stores exactly `s` — newlines and control characters
/// included — and a base64 download then returns the base64 encoding of
/// `s` again, whose bytes decode back to `s`. The premises of the two
/// implications say that base64 decoding inverts encoding, which the
/// encoder's contract states of every encoding it hands out.
pub proof fn round_trip_base64(s: Seq<char>, enc: Seq<char>, v0: Seq<char>)
    ensures
        b64_decode_of(enc) == Some(encode_utf8(s)) ==> ({
            let (v1, r1) = dispatch_of(upload_base64_req(enc), v0);
            let (v2, r2) = dispatch_of(download_base64_req(), v1);
            r1 == RespView::Accepted && v1 == s && r2 == RespView::Data(
                b64_encode_of(encode_utf8(s)),
            ) && v2 == s
        }),
        b64_decode_of(b64_encode_of(encode_utf8(s))) == Some(encode_utf8(s)) ==> decode_utf8(
            b64_decode_of(b64_encode_of(encode_utf8(s))).unwrap(),
        ) == s,
{
    lemma_commands_differ();
    encode_utf8_valid_utf8(s);
    encode_utf8_decode_utf8(s);
}

/// Idempotence of download: with no upload in between, repeated downloads —
/// plain or base64 — return the same value and leave the clipboard as it was.
pub proof fn download_idempotent(v0: Seq<char>)
    ensures
        ({
            let (v1, r1) = dispatch_of(download_req(), v0);
            let (v2, r2) = dispatch_of(download_req(), v1);
            v1 == v0 && v2 == v0 && r1 == RespView::Data(v0) && r2 == r1
        }),
        ({
            let (v1, r1) = dispatch_of(download_base64_req(), v0);
            let (v2, r2) = dispatch_of(download_base64_req(), v1);
            v1 == v0 && v2 == v0 && r1 == RespView::Data(b64_encode_of(encode_utf8(v0))) && r2
                == r1
        }),
{
    lemma_commands_differ();
}

/// Last writer wins: after uploading `s1` and then `s2` — the store is one,
/// whichever connections the requests arrive on — a download returns `s2`.
pub proof fn last_writer_wins(s1: Seq<char>, s2: Seq<char>, v0: Seq<char>)
    ensures
        ({
            let (v1, r1) = dispatch_of(upload_req(s1), v0);
            let (v2, r2) = dispatch_of(upload_req(s2), v1);
            let (v3, r3) = dispatch_of(download_req(), v2);
            r1 == RespView::Accepted && r2 == RespView::Accepted && v2 == s2 && r3
                == RespView::Data(s2) && v3 == s2
        }),
{
    lemma_commands_differ();
}

/// Isolation, at the dispatch level: any request that draws an error
/// response leaves the clipboard value exactly as it was.
pub proof fn error_response_preserves_value(req: ReqView, v0: Seq<char>)
    ensures
        dispatch_of(req, v0).1 is Rejected ==> dispatch_of(req, v0).0 == v0,
{
}

/// Isolation, at the line level: a line that is not well-formed JSON draws
/// an error response, leaves the clipboard value untouched, and a download
/// afterwards still returns the value held before the malformed line.
pub proof fn malformed_line_isolated(line: Seq<char>, v0: Seq<char>)
    ensures
        parse_request_of(line) is Err ==> ({
            let (v1, out) = handle_line_of(line, v0);
            &&& v1 == v0
            &&& out == render_of(
                RespView::Rejected("Error parsing json: "@ + parse_request_of(line)->Err_0),
            )
            &&& dispatch_of(download_req(), v1).1 == RespView::Data(v0)
        }),
{
    lemma_commands_differ();
}

/// Concurrency safety, sequential core: one request either leaves the
/// clipboard value unchanged or replaces it wholesale by the payload that
/// the request itself uploaded — never by a partial or invented value. With
/// the store's mutual exclusion making every dispatch atomic, any value a
/// download observes under interleaving is one some upload carried.
pub proof fn store_holds_only_uploaded_values(req: ReqView, v0: Seq<char>)
    ensures
        ({
            let (v1, _) = dispatch_of(req, v0);
            ||| v1 == v0
            ||| req == upload_req(v1)
            ||| (req.command == Some("clipboard_upload_base64"@) && (req.data matches Some(d)
                && b64_decode_of(d) matches Some(bytes) && valid_utf8(bytes) && v1 == decode_utf8(
                bytes,
            )))
        }),
{
}

} // verus!
