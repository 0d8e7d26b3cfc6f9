use vstd::prelude::*;

verus! {

/// One protocol request, holding everything the command table ever reads
/// from the decoded JSON object: the `command` field and the `data` field,
/// each present exactly when the field exists and is a JSON string.
pub struct Request {
    pub command: Option<String>,
    pub data: Option<String>,
}

/// The mathematical content of a `Request`.
pub struct ReqView {
    pub command: Option<Seq<char>>,
    pub data: Option<Seq<char>>,
}

/// The view of an optional string field.
pub open spec fn opt_str_view(field: Option<String>) -> Option<Seq<char>> {
    match field {
        Some(s) => Some(s@),
        None => None,
    }
}

impl View for Request {
    type V = ReqView;

    open spec fn view(&self) -> ReqView {
        ReqView { command: opt_str_view(self.command), data: opt_str_view(self.data) }
    }
}

/// What decoding one request line yields: the string fields the protocol
/// reads on success, or the parser's diagnostic text on failure. The outcome
/// is a function of the line alone.
pub uninterp spec fn parse_request_of(line: Seq<char>) -> Result<ReqView, Seq<char>>;

/// Relies on `json::parse`: `Ok` exactly on well-formed JSON text, `Err` on
/// anything else, with the parser's diagnostic rendered through the error's
/// `Display`. On success, `JsonValue`'s `&str` indexing yields the named
/// member of a JSON object (and a JSON null for a missing member or a
/// non-object), and `JsonValue::as_str` yields the content of a JSON string
/// and `None` for every other variant.
#[verifier::external_body]
pub(crate) fn parse_request(line: &str) -> (r: Result<Request, String>)
    ensures
        match r {
            Ok(req) => parse_request_of(line@) == Ok::<ReqView, Seq<char>>(req@),
            Err(m) => parse_request_of(line@) == Err::<ReqView, Seq<char>>(m@),
        },
{
    match json::parse(line) {
        Ok(v) => {
            let command = match v["command"].as_str() {
                Some(s) => Some(s.to_string()),
                None => None,
            };
            let data = match v["data"].as_str() {
                Some(s) => Some(s.to_string()),
                None => None,
            };
            Ok(Request { command, data })
        }
        Err(e) => Err(format!("{}", e)),
    }
}

} // verus!
