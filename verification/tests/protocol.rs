use netclip::dispatch::{handle_line, session_step, SessionState};
use netclip::response::{render_response, Response};
use netclip::store::ClipboardStore;

fn upload_line(data: &str) -> String {
    format!("{{\"command\":\"clipboard_upload\",\"data\":\"{}\"}}", data)
}

fn upload_base64_line(data: &str) -> String {
    format!("{{\"command\":\"clipboard_upload_base64\",\"data\":\"{}\"}}", data)
}

const DOWNLOAD: &str = "{\"command\":\"clipboard_download\"}";
const DOWNLOAD_B64: &str = "{\"command\":\"clipboard_download_base64\"}";

fn error_line(message: &str) -> String {
    format!("{{\"status\":\"error\",\"message\":\"{}\"}}", message)
}

#[test]
fn scenario_upload_then_download_hello() {
    let mut store = ClipboardStore::new();
    let r1 = handle_line(&mut store, "{\"command\":\"clipboard_upload\",\"data\":\"hello\"}");
    assert_eq!(r1, "{\"status\":\"ok\"}");
    let r2 = handle_line(&mut store, "{\"command\":\"clipboard_download\"}");
    assert_eq!(r2, "{\"status\":\"ok\",\"data\":\"hello\"}");
}

#[test]
fn scenario_unknown_command() {
    let mut store = ClipboardStore::new();
    let r = handle_line(&mut store, "{\"command\":\"nope\"}");
    assert_eq!(r, "{\"status\":\"error\",\"message\":\"Unknown command: nope\"}");
}

#[test]
fn scenario_non_json_line() {
    let mut store = ClipboardStore::new();
    let prefix = "{\"status\":\"error\",\"message\":\"Error parsing json: ";
    let r = handle_line(&mut store, "not json");
    assert!(r.starts_with(prefix));
    assert!(r.len() > prefix.len() + 2, "diagnostic must be non-empty");
    // The session stays usable after the malformed line.
    let r2 = handle_line(&mut store, &upload_line("still works"));
    assert_eq!(r2, "{\"status\":\"ok\"}");
    let r3 = handle_line(&mut store, DOWNLOAD);
    assert_eq!(r3, "{\"status\":\"ok\",\"data\":\"still works\"}");
}

#[test]
fn round_trip_plain_values() {
    let mut store = ClipboardStore::new();
    for s in ["", "hello world", "h\u{e9}llo \u{2603} caf\u{e9}", "  spaced  "] {
        let r1 = handle_line(&mut store, &upload_line(s));
        assert_eq!(r1, "{\"status\":\"ok\"}");
        let r2 = handle_line(&mut store, DOWNLOAD);
        assert_eq!(r2, format!("{{\"status\":\"ok\",\"data\":\"{}\"}}", s));
    }
}

#[test]
fn round_trip_base64() {
    let mut store = ClipboardStore::new();
    let s = "line one\nline two\ttab \u{3c0} and \"quotes\"";
    let enc = base64::encode(s);
    let r1 = handle_line(&mut store, &upload_base64_line(&enc));
    assert_eq!(r1, "{\"status\":\"ok\"}");
    let r2 = handle_line(&mut store, DOWNLOAD_B64);
    assert_eq!(r2, format!("{{\"status\":\"ok\",\"data\":\"{}\"}}", enc));
    let decoded = base64::decode(&enc).unwrap();
    assert_eq!(String::from_utf8(decoded).unwrap(), s);
}

#[test]
fn download_base64_exact_encoding() {
    let mut store = ClipboardStore::new();
    let r1 = handle_line(&mut store, &upload_line("hello"));
    assert_eq!(r1, "{\"status\":\"ok\"}");
    let r2 = handle_line(&mut store, DOWNLOAD_B64);
    assert_eq!(r2, "{\"status\":\"ok\",\"data\":\"aGVsbG8=\"}");
}

#[test]
fn upload_base64_exact_decoding() {
    let mut store = ClipboardStore::new();
    let r1 = handle_line(&mut store, &upload_base64_line("aGVsbG8="));
    assert_eq!(r1, "{\"status\":\"ok\"}");
    let r2 = handle_line(&mut store, DOWNLOAD);
    assert_eq!(r2, "{\"status\":\"ok\",\"data\":\"hello\"}");
}

#[test]
fn download_idempotent() {
    let mut store = ClipboardStore::new();
    let empty = handle_line(&mut store, DOWNLOAD);
    assert_eq!(empty, "{\"status\":\"ok\",\"data\":\"\"}");
    assert_eq!(handle_line(&mut store, DOWNLOAD), empty);
    handle_line(&mut store, &upload_line("fixed"));
    let first = handle_line(&mut store, DOWNLOAD);
    let second = handle_line(&mut store, DOWNLOAD);
    let third = handle_line(&mut store, DOWNLOAD);
    assert_eq!(first, "{\"status\":\"ok\",\"data\":\"fixed\"}");
    assert_eq!(second, first);
    assert_eq!(third, first);
}

#[test]
fn last_writer_wins() {
    // Two uploads in sequence: connections share the one store, so the
    // later writer's value is what any following download returns.
    let mut store = ClipboardStore::new();
    assert_eq!(handle_line(&mut store, &upload_line("first")), "{\"status\":\"ok\"}");
    assert_eq!(handle_line(&mut store, &upload_line("second")), "{\"status\":\"ok\"}");
    let r = handle_line(&mut store, DOWNLOAD);
    assert_eq!(r, "{\"status\":\"ok\",\"data\":\"second\"}");
}

#[test]
fn malformed_requests_leave_value_untouched() {
    let mut store = ClipboardStore::new();
    handle_line(&mut store, &upload_line("keep"));
    let r1 = handle_line(&mut store, "{\"command\": 5}");
    assert_eq!(r1, error_line("Missing or non-string 'command' field"));
    let r2 = handle_line(&mut store, "not json at all");
    assert!(r2.starts_with("{\"status\":\"error\",\"message\":\"Error parsing json: "));
    let r3 = handle_line(&mut store, "[1,2,3]");
    assert_eq!(r3, error_line("Missing or non-string 'command' field"));
    let r4 = handle_line(&mut store, DOWNLOAD);
    assert_eq!(r4, "{\"status\":\"ok\",\"data\":\"keep\"}");
}

#[test]
fn upload_without_data_is_rejected() {
    let mut store = ClipboardStore::new();
    handle_line(&mut store, &upload_line("keep"));
    let r = handle_line(&mut store, "{\"command\":\"clipboard_upload\"}");
    assert_eq!(r, error_line("Missing or non-string 'data' field"));
    let r2 = handle_line(&mut store, "{\"command\":\"clipboard_upload\",\"data\":42}");
    assert_eq!(r2, error_line("Missing or non-string 'data' field"));
    let r3 = handle_line(&mut store, "{\"command\":\"clipboard_upload_base64\"}");
    assert_eq!(r3, error_line("Missing or non-string 'data' field"));
    assert_eq!(handle_line(&mut store, DOWNLOAD), "{\"status\":\"ok\",\"data\":\"keep\"}");
}

#[test]
fn upload_base64_invalid_text_is_rejected() {
    let mut store = ClipboardStore::new();
    handle_line(&mut store, &upload_line("keep"));
    let r = handle_line(&mut store, &upload_base64_line("%%%not base64%%%"));
    assert_eq!(r, error_line("Invalid base64 in 'data'"));
    assert_eq!(handle_line(&mut store, DOWNLOAD), "{\"status\":\"ok\",\"data\":\"keep\"}");
}

#[test]
fn upload_base64_non_utf8_bytes_are_rejected() {
    let mut store = ClipboardStore::new();
    handle_line(&mut store, &upload_line("keep"));
    let enc = base64::encode([0xffu8, 0xfe, 0xfd]);
    let r = handle_line(&mut store, &upload_base64_line(&enc));
    assert_eq!(r, error_line("Base64 'data' does not decode to UTF-8"));
    assert_eq!(handle_line(&mut store, DOWNLOAD), "{\"status\":\"ok\",\"data\":\"keep\"}");
}

#[test]
fn downloads_only_see_uploaded_values() {
    // Interleaved writers: every download observes a whole value that some
    // upload carried, never a mixture.
    let mut store = ClipboardStore::new();
    let values = ["alpha", "beta", "gamma"];
    let mut seen = Vec::new();
    for round in 0..3 {
        for v in values {
            handle_line(&mut store, &upload_line(&format!("{}-{}", v, round)));
            seen.push(handle_line(&mut store, DOWNLOAD));
        }
    }
    for (i, observed) in seen.iter().enumerate() {
        let expected: Vec<String> = values
            .iter()
            .flat_map(|v| (0..3).map(move |r| format!("{{\"status\":\"ok\",\"data\":\"{}-{}\"}}", v, r)))
            .collect();
        assert!(expected.contains(observed), "download {} saw {}", i, observed);
    }
}

#[test]
fn rendered_data_is_json_escaped() {
    let mut store = ClipboardStore::new();
    let s = "a\"b\\c\nd\re\tf\u{1}g";
    let enc = base64::encode(s);
    assert_eq!(handle_line(&mut store, &upload_base64_line(&enc)), "{\"status\":\"ok\"}");
    let r = handle_line(&mut store, DOWNLOAD);
    assert_eq!(r, "{\"status\":\"ok\",\"data\":\"a\\\"b\\\\c\\nd\\re\\tf\\u0001g\"}");
}

#[test]
fn render_response_forms() {
    assert_eq!(render_response(&Response::Accepted), "{\"status\":\"ok\"}");
    assert_eq!(
        render_response(&Response::Data(String::from("x\ty"))),
        "{\"status\":\"ok\",\"data\":\"x\\ty\"}"
    );
    assert_eq!(
        render_response(&Response::Rejected(String::from("bad \u{3} thing"))),
        "{\"status\":\"error\",\"message\":\"bad \\u0003 thing\"}"
    );
}

#[test]
fn session_closes_on_end_of_stream() {
    let mut store = ClipboardStore::new();
    handle_line(&mut store, &upload_line("keep"));
    let (state, out) = session_step(&mut store, 0, "");
    assert!(matches!(state, SessionState::Closed));
    assert!(out.is_none());
    assert_eq!(handle_line(&mut store, DOWNLOAD), "{\"status\":\"ok\",\"data\":\"keep\"}");
}

#[test]
fn session_keeps_reading_on_a_line() {
    let mut store = ClipboardStore::new();
    let (state, out) = session_step(&mut store, 28, &upload_line("hi"));
    assert!(matches!(state, SessionState::Reading));
    assert_eq!(out.unwrap(), "{\"status\":\"ok\"}");
    let (state2, out2) = session_step(&mut store, 26, DOWNLOAD);
    assert!(matches!(state2, SessionState::Reading));
    assert_eq!(out2.unwrap(), "{\"status\":\"ok\",\"data\":\"hi\"}");
}

#[test]
fn store_get_set() {
    let mut store = ClipboardStore::new();
    assert_eq!(store.get(), "");
    store.set(String::from("value"));
    assert_eq!(store.get(), "value");
    store.set(String::from("other"));
    assert_eq!(store.get(), "other");
}
