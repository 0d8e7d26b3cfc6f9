use crate::codec::push_char;
use vstd::prelude::*;
use vstd::string::{StrSliceExecFns, StringExecFns};

verus! {

/// One protocol response. Exactly one is produced per request line.
pub enum Response {
    /// Wire form `{"status":"ok"}`: a successful upload.
    Accepted,
    /// Wire form `{"status":"ok","data":...}`: a successful download,
    /// carrying the (possibly base64-encoded) clipboard value.
    Data(String),
    /// Wire form `{"status":"error","message":...}`: any per-request
    /// failure, carrying a description. The session goes on after it.
    Rejected(String),
}

/// The mathematical content of a `Response`.
pub enum RespView {
    Accepted,
    Data(Seq<char>),
    Rejected(Seq<char>),
}

impl View for Response {
    type V = RespView;

    open spec fn view(&self) -> RespView {
        match self {
            Response::Accepted => RespView::Accepted,
            Response::Data(d) => RespView::Data(d@),
            Response::Rejected(m) => RespView::Rejected(m@),
        }
    }
}

/// The lower-case hexadecimal digit with value `v`.
pub open spec fn hex_digit(v: int) -> char
    recommends
        0 <= v < 16,
{
    if v == 0 {
        '0'
    } else if v == 1 {
        '1'
    } else if v == 2 {
        '2'
    } else if v == 3 {
        '3'
    } else if v == 4 {
        '4'
    } else if v == 5 {
        '5'
    } else if v == 6 {
        '6'
    } else if v == 7 {
        '7'
    } else if v == 8 {
        '8'
    } else if v == 9 {
        '9'
    } else if v == 10 {
        'a'
    } else if v == 11 {
        'b'
    } else if v == 12 {
        'c'
    } else if v == 13 {
        'd'
    } else if v == 14 {
        'e'
    } else {
        'f'
    }
}

/// How one character stands inside a JSON string: quote, backslash and the
/// common control characters get a two-character escape, the remaining
/// control characters a `\u00XX` escape, and every other character stands
/// as itself.
pub open spec fn escape_char(c: char) -> Seq<char> {
    if c == '"' {
        seq!['\\', '"']
    } else if c == '\\' {
        seq!['\\', '\\']
    } else if c == '\n' {
        seq!['\\', 'n']
    } else if c == '\r' {
        seq!['\\', 'r']
    } else if c == '\t' {
        seq!['\\', 't']
    } else if (c as u32) < 0x20 {
        seq!['\\', 'u', '0', '0', hex_digit((c as u32) as int / 16), hex_digit((c as u32) as int % 16)]
    } else {
        seq![c]
    }
}

/// The JSON escaping of a whole string: each character's escape, in order.
pub open spec fn escape_seq(s: Seq<char>) -> Seq<char>
    decreases s.len(),
{
    if s.len() == 0 {
        Seq::empty()
    } else {
        escape_char(s[0]) + escape_seq(s.drop_first())
    }
}

/// Escaping distributes over appending one character at the end.
proof fn lemma_escape_seq_push(s: Seq<char>, c: char)
    ensures
        escape_seq(s.push(c)) == escape_seq(s) + escape_char(c),
    decreases s.len(),
{
    if s.len() == 0 {
        assert(s.push(c)[0] == c);
        assert(s.push(c).drop_first() =~= Seq::<char>::empty());
        assert(escape_seq(Seq::<char>::empty()) == Seq::<char>::empty());
        assert(escape_seq(s.push(c)) == escape_char(c) + Seq::<char>::empty());
        assert(escape_seq(s.push(c)) =~= escape_seq(s) + escape_char(c));
    } else {
        assert(s.push(c)[0] == s[0]);
        assert(s.push(c).drop_first() =~= s.drop_first().push(c));
        lemma_escape_seq_push(s.drop_first(), c);
        assert(escape_seq(s.push(c)) =~= escape_seq(s) + escape_char(c));
    }
}

/// The wire text of a response: one JSON object, without the framing newline.
pub open spec fn render_of(r: RespView) -> Seq<char> {
    match r {
        RespView::Accepted => "{\"status\":\"ok\"}"@,
        RespView::Data(d) => "{\"status\":\"ok\",\"data\":\""@ + escape_seq(d) + "\"}"@,
        RespView::Rejected(m) => "{\"status\":\"error\",\"message\":\""@ + escape_seq(m) + "\"}"@,
    }
}

/// Appends the one-character escape `\` followed by `e`.
fn push_two(out: &mut String, e: char)
    ensures
        final(out)@ == old(out)@ + seq!['\\', e],
{
    push_char(out, '\\');
    push_char(out, e);
    proof {
        assert(out@ =~= old(out)@ + seq!['\\', e]);
    }
}

/// The lower-case hexadecimal digit with value `v`, executably.
fn hex_digit_char(v: u32) -> (c: char)
    requires
        v < 16,
    ensures
        c == hex_digit(v as int),
{
    match v {
        0 => '0',
        1 => '1',
        2 => '2',
        3 => '3',
        4 => '4',
        5 => '5',
        6 => '6',
        7 => '7',
        8 => '8',
        9 => '9',
        10 => 'a',
        11 => 'b',
        12 => 'c',
        13 => 'd',
        14 => 'e',
        _ => 'f',
    }
}

/// Appends the JSON escaping of the one character `c` onto `out`.
fn push_escaped_char(out: &mut String, c: char)
    ensures
        final(out)@ == old(out)@ + escape_char(c),
{
    if c == '"' {
        push_two(out, '"');
    } else if c == '\\' {
        push_two(out, '\\');
    } else if c == '\n' {
        push_two(out, 'n');
    } else if c == '\r' {
        push_two(out, 'r');
    } else if c == '\t' {
        push_two(out, 't');
    } else if (c as u32) < 0x20 {
        let v = c as u32;
        push_two(out, 'u');
        push_char(out, '0');
        push_char(out, '0');
        push_char(out, hex_digit_char(v / 16));
        push_char(out, hex_digit_char(v % 16));
        proof {
            assert(out@ =~= old(out)@ + escape_char(c));
        }
    } else {
        push_char(out, c);
        proof {
            assert(out@ =~= old(out)@ + escape_char(c));
        }
    }
}

/// Appends the JSON escaping of `s` onto `out`.
fn append_escaped(out: &mut String, s: &str)
    ensures
        final(out)@ == old(out)@ + escape_seq(s@),
{
    let n = s.unicode_len();
    let mut i: usize = 0;
    while i < n
        invariant
            n == s@.len(),
            i <= n,
            out@ == old(out)@ + escape_seq(s@.take(i as int)),
        decreases n - i,
    {
        let c = s.get_char(i);
        proof {
            lemma_escape_seq_push(s@.take(i as int), c);
            assert(s@.take(i as int).push(c) =~= s@.take(i as int + 1));
        }
        push_escaped_char(out, c);
        i += 1;
    }
    proof {
        assert(s@.take(n as int) =~= s@);
    }
}

/// Renders a response as its single line of wire text, without the newline.
pub fn render_response(r: &Response) -> (out: String)
    ensures
        out@ == render_of(r@),
{
    match r {
        Response::Accepted => "{\"status\":\"ok\"}".to_owned(),
        Response::Data(d) => {
            let mut out = "{\"status\":\"ok\",\"data\":\"".to_owned();
            append_escaped(&mut out, d.as_str());
            out.append("\"}");
            proof {
                assert(out@ =~= render_of(r@));
            }
            out
        },
        Response::Rejected(m) => {
            let mut out = "{\"status\":\"error\",\"message\":\"".to_owned();
            append_escaped(&mut out, m.as_str());
            out.append("\"}");
            proof {
                assert(out@ =~= render_of(r@));
            }
            out
        },
    }
}

} // verus!
