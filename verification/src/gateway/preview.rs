use vstd::prelude::*;

use crate::gateway::k8s::{CHECKPOINT_PORT, OPENCODE_PORT, SUPERVISOR_PORT};
use crate::gateway::state::{Workspace, WorkspaceState};
use crate::text::{decimal, has_suffix, parse_unsigned, rfind_char, trim, trim_end_char};

verus! {

/// The workspace and port a preview hostname routes to.
#[derive(Clone, Debug, PartialEq, Eq)]
pub struct PreviewTarget {
    pub preview_key: String,
    pub port: u16,
}

/// Ports of the sandbox's own services, never reachable through preview.
pub open spec fn reserved_port(port: nat) -> bool {
    port == 4096 || port == 4097 || port == 4098
}

/// The host without a trailing `:port` (only when the text after the last
/// `:` is a valid port number).
pub open spec fn strip_port(h: Seq<char>) -> Seq<char> {
    match rfind_char(h, ':') {
        Some(i) => if parse_unsigned(h.skip(i + 1), 65535) is Some {
            h.take(i)
        } else {
            h
        },
        None => h,
    }
}

/// The preview target of `<key>-<port>.<base_domain>`: the key (which may
/// contain `-`) and a port that is neither 0 nor reserved.
pub open spec fn spec_preview_target(host: Seq<char>, base_domain: Seq<char>) -> Option<(Seq<char>, nat)> {
    let h = trim_end_char(trim(host), '.');
    if h.len() > 0 && h[0] == '[' {
        None
    } else {
        let name = strip_port(h);
        let suffix = "."@ + base_domain;
        if !has_suffix(name, suffix) {
            None
        } else {
            let label = name.take(name.len() - suffix.len());
            if label.contains('.') {
                None
            } else {
                match rfind_char(label, '-') {
                    None => None,
                    Some(d) => {
                        let key = label.take(d);
                        match parse_unsigned(label.skip(d + 1), 65535) {
                            None => None,
                            Some(p) => if key.len() == 0 || p == 0 || reserved_port(p) {
                                None
                            } else {
                                Some((key, p))
                            },
                        }
                    },
                }
            }
        }
    }
}

/// Parses a preview `Host` header of the form `<key>-<port>.<base_domain>`.
pub fn parse_host(host: &str, base_domain: &str) -> (r: Option<PreviewTarget>)
    ensures
        match r {
            Some(t) => spec_preview_target(host@, base_domain@) == Some((t.preview_key@, t.port as nat)),
            None => spec_preview_target(host@, base_domain@) is None,
        },
        r matches Some(t) ==> t.port != 0 && !reserved_port(t.port as nat) && t.preview_key@.len() > 0,
{
    let trimmed = crate::text::trim_str(host);
    let h = crate::text::trim_end_char_exec(&trimmed, '.');
    if h.len() > 0 && h[0] == '[' {
        return None;
    }
    let name = match crate::text::rfind_char_exec(&h, ':') {
        Some(i) => {
            proof {
                crate::text::lemma_rfind_char(h@, ':', h@.len() as int);
            }
            let after = crate::text::slice_chars(&h, i + 1, h.len());
            if crate::text::parse_unsigned_chars(&after, 65535).is_some() {
                crate::text::slice_chars(&h, 0, i)
            } else {
                crate::text::slice_chars(&h, 0, h.len())
            }
        },
        None => crate::text::slice_chars(&h, 0, h.len()),
    };
    proof {
        assert(h@.subrange(0, h@.len() as int) == h@);
    }
    let mut suffix = crate::text::to_chars(".");
    crate::text::append_str(&mut suffix, base_domain);
    proof {
        reveal_strlit(".");
    }
    if !crate::text::chars_end_with(&name, &suffix) {
        return None;
    }
    let label = crate::text::slice_chars(&name, 0, name.len() - suffix.len());
    if crate::text::chars_contain(&label, '.') {
        return None;
    }
    let d = match crate::text::rfind_char_exec(&label, '-') {
        Some(d) => d,
        None => return None,
    };
    proof {
        crate::text::lemma_rfind_char(label@, '-', label@.len() as int);
    }
    let key = crate::text::slice_chars(&label, 0, d);
    let port_text = crate::text::slice_chars(&label, d + 1, label.len());
    let port = match crate::text::parse_unsigned_chars(&port_text, 65535) {
        Some(p) => p as u16,
        None => return None,
    };
    if key.len() == 0 || port == 0 || port == OPENCODE_PORT || port == CHECKPOINT_PORT || port
        == SUPERVISOR_PORT {
        return None;
    }
    Some(PreviewTarget { preview_key: crate::text::from_chars(key.as_slice()), port })
}

/// The reason phrase the preview listener uses for a status code.
pub open spec fn reason_phrase(status: u16) -> Seq<char> {
    if status == 400 {
        "Bad Request"@
    } else if status == 401 {
        "Unauthorized"@
    } else if status == 404 {
        "Not Found"@
    } else if status == 502 {
        "Bad Gateway"@
    } else {
        "Service Unavailable"@
    }
}

/// A complete plain-text HTTP/1.1 response that closes the connection.
pub open spec fn spec_response(status: u16, message: Seq<char>, message_bytes: nat) -> Seq<char> {
    "HTTP/1.1 "@ + decimal(status as nat) + " "@ + reason_phrase(status)
        + "\r\nContent-Type: text/plain; charset=utf-8\r\nContent-Length: "@ + decimal(message_bytes)
        + "\r\nConnection: close\r\n\r\n"@ + message
}

/// Builds the preview listener's error response.
pub fn response(status: u16, message: &str) -> (r: String)
    ensures
        r@ == spec_response(status, message@, message.len() as nat),
{
    let reason = if status == 400 {
        "Bad Request"
    } else if status == 401 {
        "Unauthorized"
    } else if status == 404 {
        "Not Found"
    } else if status == 502 {
        "Bad Gateway"
    } else {
        "Service Unavailable"
    };
    let mut out = crate::text::to_chars("HTTP/1.1 ");
    let code = crate::text::decimal_chars(status as u64);
    crate::text::append_chars(&mut out, &code);
    crate::text::append_str(&mut out, " ");
    crate::text::append_str(&mut out, reason);
    crate::text::append_str(
        &mut out,
        "\r\nContent-Type: text/plain; charset=utf-8\r\nContent-Length: ",
    );
    let len = crate::text::decimal_chars(message.len() as u64);
    crate::text::append_chars(&mut out, &len);
    crate::text::append_str(&mut out, "\r\nConnection: close\r\n\r\n");
    crate::text::append_str(&mut out, message);
    crate::text::from_chars(out.as_slice())
}

/// Largest request head the preview listener buffers.
pub const MAX_HEADERS: usize = 32768;

/// Progress of reading a request head.
#[derive(Clone, Copy, Debug, PartialEq, Eq, Structural)]
pub enum HeaderProgress {
    /// More bytes are needed.
    Incomplete,
    /// The blank line that ends the head has arrived.
    Complete,
    /// The head exceeds `MAX_HEADERS` bytes.
    TooLarge,
}

/// `\r\n\r\n` occurs in `bytes`.
pub open spec fn has_blank_line(bytes: Seq<u8>) -> bool {
    exists|i: int| 0 <= i && i + 4 <= bytes.len() && #[trigger] bytes[i] == 13 && bytes[i + 1] == 10
        && bytes[i + 2] == 13 && bytes[i + 3] == 10
}

/// Checks the bytes read so far: too large first, then complete.
pub fn header_progress(bytes: &[u8]) -> (r: HeaderProgress)
    ensures
        r == (if bytes@.len() > MAX_HEADERS {
            HeaderProgress::TooLarge
        } else if has_blank_line(bytes@) {
            HeaderProgress::Complete
        } else {
            HeaderProgress::Incomplete
        }),
{
    if bytes.len() > MAX_HEADERS {
        return HeaderProgress::TooLarge;
    }
    let mut i: usize = 0;
    while i + 4 <= bytes.len()
        invariant
            bytes@.len() <= MAX_HEADERS,
            i <= bytes@.len(),
            forall|k: int|
                0 <= k < i ==> !(#[trigger] bytes@[k] == 13 && bytes@[k + 1] == 10 && bytes@[k + 2]
                    == 13 && bytes@[k + 3] == 10),
        decreases bytes@.len() - i,
    {
        if bytes[i] == 13 && bytes[i + 1] == 10 && bytes[i + 2] == 13 && bytes[i + 3] == 10 {
            return HeaderProgress::Complete;
        }
        i = i + 1;
    }
    HeaderProgress::Incomplete
}

/// The workspace a preview request reaches: the one found by preview key,
/// else by workspace ID, when it belongs to `owner` and is running.
pub open spec fn spec_preview_workspace(by_key: Option<Workspace>, by_id: Option<Workspace>, owner: Seq<char>) -> Option<Workspace> {
    let found = match by_key {
        Some(w) => Some(w),
        None => by_id,
    };
    match found {
        Some(w) => if w.owner@ == owner && w.state == WorkspaceState::Running {
            Some(w)
        } else {
            None
        },
        None => None,
    }
}

pub fn preview_workspace(by_key: Option<Workspace>, by_id: Option<Workspace>, owner: &str) -> (r: Option<Workspace>)
    ensures
        r == spec_preview_workspace(by_key, by_id, owner@),
{
    let found = match by_key {
        Some(w) => Some(w),
        None => by_id,
    };
    match found {
        Some(w) => if crate::gateway::state::activity_applies(&w, owner) && w.state
            == WorkspaceState::Running {
            Some(w)
        } else {
            None
        },
        None => None,
    }
}

/// `<ip>:<port>` of the preview backend.
pub fn backend_address(ip: &str, port: u16) -> (r: String)
    ensures
        r@ == ip@ + ":"@ + decimal(port as nat),
{
    let mut out = crate::text::to_chars(ip);
    crate::text::append_str(&mut out, ":");
    let p = crate::text::decimal_chars(port as u64);
    crate::text::append_chars(&mut out, &p);
    crate::text::from_chars(out.as_slice())
}

} // verus!

verus! {

/// An optional `:port` after a hostname.
pub open spec fn port_suffix(listen_port: Option<nat>) -> Seq<char> {
    match listen_port {
        Some(q) => ":"@ + decimal(q),
        None => Seq::empty(),
    }
}

/// The preview host the runtime helper hands out for a workspace key and a
/// port, `<key>-<port>.<base_domain>`, with or without a trailing `:port`,
/// routes back to that key and port, and is refused for port 0 and the
/// sandbox's reserved ports: for every key without `.` or `:` that starts
/// with neither whitespace nor `[`, every base domain without `:` that ends in
/// neither `.` nor whitespace, and every port up to 65535.
pub proof fn law_preview_host_round_trip(key: Seq<char>, port: nat, base: Seq<char>, listen_port: Option<nat>)
    requires
        key.len() > 0,
        !key.contains('.'),
        !key.contains(':'),
        !crate::text::is_whitespace(key[0]),
        key[0] != '[',
        base.len() > 0,
        !base.contains(':'),
        base.last() != '.',
        !crate::text::is_whitespace(base.last()),
        port <= 65535,
        listen_port matches Some(q) ==> q <= 65535,
    ensures
        spec_preview_target(key + "-"@ + decimal(port) + "."@ + base + port_suffix(listen_port), base) == (if port == 0
            || reserved_port(port) {
            None
        } else {
            Some((key, port))
        }),
{
    reveal_strlit("-");
    reveal_strlit(".");
    reveal_strlit(":");
    crate::text::lemma_decimal_all_digits(port);
    let dec = decimal(port);
    let label = key + seq!['-'] + dec;
    let host = label + seq!['.'] + base;
    assert(key + "-"@ + decimal(port) + "."@ + base == host);
    let tail = port_suffix(listen_port);
    let full = host + tail;
    assert(full[0] == key[0]);
    // the last character is the base domain's or a digit of the listen port
    assert(!crate::text::is_whitespace(full.last()) && full.last() != '.') by {
        match listen_port {
            Some(q) => {
                crate::text::lemma_decimal_all_digits(q);
                assert(tail =~= seq![':'] + decimal(q));
                assert(full.last() == decimal(q).last());
                assert(crate::text::is_ascii_digit(decimal(q)[decimal(q).len() - 1]));
            },
            None => {
                assert(full =~= host);
            },
        }
    }
    // trimming leaves the host unchanged
    crate::text::lemma_ws_prefix_len(full, 0);
    assert(crate::text::trim_start(full) =~= full);
    crate::text::lemma_ws_suffix_len(full, 0);
    assert(trim(full) =~= full);
    crate::text::lemma_char_suffix_len(full, '.', 0);
    assert(trim_end_char(full, '.') =~= full);
    // the host itself has no ':'
    assert(!host.contains(':')) by {
        if host.contains(':') {
            let i = choose|i: int| 0 <= i < host.len() && host[i] == ':';
            if i < key.len() {
                assert(host[i] == key[i]);
            } else if i == key.len() {
            } else if i < key.len() + 1 + dec.len() {
                assert(host[i] == dec[i - key.len() - 1]);
                assert(crate::text::is_ascii_digit(dec[i - key.len() - 1]));
            } else if i == key.len() + 1 + dec.len() {
            } else {
                assert(host[i] == base[i - key.len() - 2 - dec.len()]);
            }
        }
    }
    // stripping the listen port gives back the host
    match listen_port {
        Some(q) => {
            crate::text::lemma_decimal_all_digits(q);
            let dq = decimal(q);
            assert(tail =~= seq![':'] + dq);
            assert(full[host.len() as int] == ':');
            assert forall|k: int| host.len() < k < full.len() implies full[k] != ':' by {
                assert(full[k] == dq[k - host.len() - 1]);
                assert(crate::text::is_ascii_digit(dq[k - host.len() - 1]));
            }
            crate::text::lemma_rfind_char_at(full, ':', host.len() as int);
            assert(full.skip(host.len() as int + 1) =~= dq);
            crate::text::lemma_parse_decimal(q, 65535);
            assert(full.take(host.len() as int) =~= host);
        },
        None => {
            assert(full =~= host);
            crate::text::lemma_rfind_char_absent(host, ':');
        },
    }
    assert(full[0] != '[');
    assert(strip_port(full) == host);
    // the base-domain suffix
    let suffix = "."@ + base;
    assert(suffix =~= seq!['.'] + base);
    assert(host.subrange(host.len() - suffix.len(), host.len() as int) =~= suffix);
    assert(host.take(host.len() - suffix.len()) =~= label);
    // the label has no dot and its last '-' precedes the port
    assert(!label.contains('.')) by {
        if label.contains('.') {
            let i = choose|i: int| 0 <= i < label.len() && label[i] == '.';
            if i < key.len() {
                assert(label[i] == key[i]);
            } else if i > key.len() {
                assert(label[i] == dec[i - key.len() - 1]);
                assert(crate::text::is_ascii_digit(dec[i - key.len() - 1]));
            }
        }
    }
    assert forall|k: int| key.len() < k < label.len() implies label[k] != '-' by {
        assert(label[k] == dec[k - key.len() - 1]);
        assert(crate::text::is_ascii_digit(dec[k - key.len() - 1]));
    }
    crate::text::lemma_rfind_char_at(label, '-', key.len() as int);
    assert(label.take(key.len() as int) =~= key);
    assert(label.skip(key.len() as int + 1) =~= dec);
    crate::text::lemma_parse_decimal(port, 65535);
}

} // verus!

verus! {

/* The header lines of a preview request */

/// Why a preview request's headers are refused.
#[derive(Clone, Copy, Debug, PartialEq, Eq, Structural)]
pub enum RequestHeaderError {
    /// The request head is not UTF-8.
    NotUtf8,
    /// No blank line ends the headers.
    Incomplete,
    /// A header line has no `:`.
    Malformed,
    /// `http` refuses a header name.
    InvalidName,
    /// A header value holds a control character.
    InvalidValue,
}

pub open spec fn crlf() -> Seq<char> {
    seq!['\r', '\n']
}

/// `str::split("\r\n")`.
pub open spec fn split_crlf(s: Seq<char>) -> Seq<Seq<char>>
    decreases s.len(),
{
    match crate::text::find(s, crlf()) {
        Some(i) => if 0 <= i && i + 2 <= s.len() {
            seq![s.take(i)] + split_crlf(s.skip(i + 2))
        } else {
            seq![s]
        },
        None => seq![s],
    }
}

/// One header line, `name: value`: the name as `http` accepts it and the
/// trimmed value.
pub open spec fn header_line(line: Seq<char>) -> Result<(Seq<char>, Seq<char>), RequestHeaderError> {
    match crate::text::find(line, seq![':']) {
        None => Err(RequestHeaderError::Malformed),
        Some(i) => match crate::headers::spec_header_name(vstd::utf8::encode_utf8(trim(line.take(i)))) {
            None => Err(RequestHeaderError::InvalidName),
            Some(name) => {
                let value = trim(line.skip(i + 1));
                if crate::headers::header_value_ok(vstd::utf8::encode_utf8(value)) {
                    Ok((name, value))
                } else {
                    Err(RequestHeaderError::InvalidValue)
                }
            },
        },
    }
}

/// The headers of `lines`, or the error of the first line that fails.
pub open spec fn header_lines(lines: Seq<Seq<char>>) -> Result<Seq<(Seq<char>, Seq<char>)>, RequestHeaderError>
    decreases lines.len(),
{
    if lines.len() == 0 {
        Ok(Seq::empty())
    } else {
        match header_line(lines[0]) {
            Err(e) => Err(e),
            Ok(h) => match header_lines(lines.drop_first()) {
                Err(e) => Err(e),
                Ok(rest) => Ok(seq![h] + rest),
            },
        }
    }
}

/// The headers of a preview request: the lines after the request line and
/// before the first blank line, each split at its first `:` and trimmed.
pub open spec fn spec_request_headers(request: Seq<u8>) -> Result<Seq<(Seq<char>, Seq<char>)>, RequestHeaderError> {
    if !vstd::utf8::valid_utf8(request) {
        Err(RequestHeaderError::NotUtf8)
    } else {
        let text = vstd::utf8::decode_utf8(request);
        match crate::text::find(text, "\r\n\r\n"@) {
            None => Err(RequestHeaderError::Incomplete),
            Some(end) => header_lines(split_crlf(text.take(end)).drop_first()),
        }
    }
}

pub open spec fn chars_view(v: Seq<Vec<char>>) -> Seq<Seq<char>> {
    v.map_values(|c: Vec<char>| c@)
}

pub open spec fn pairs_view(v: Seq<(String, String)>) -> Seq<(Seq<char>, Seq<char>)> {
    v.map_values(|p: (String, String)| (p.0@, p.1@))
}

fn split_crlf_exec(s: &Vec<char>) -> (r: Vec<Vec<char>>)
    ensures
        chars_view(r@) == split_crlf(s@),
{
    let mut sep: Vec<char> = Vec::new();
    sep.push('\r');
    sep.push('\n');
    proof {
        assert(sep@ =~= crlf());
    }
    let mut out: Vec<Vec<char>> = Vec::new();
    let mut rest = crate::text::slice_chars(s, 0, s.len());
    proof {
        assert(rest@ =~= s@);
        assert(chars_view(out@) + split_crlf(rest@) =~= split_crlf(s@));
    }
    loop
        invariant
            sep@ == crlf(),
            chars_view(out@) + split_crlf(rest@) == split_crlf(s@),
        decreases rest@.len(),
    {
        match crate::text::find_chars(&rest, &sep) {
            None => {
                let ghost before = out@;
                out.push(rest);
                proof {
                    assert(chars_view(out@) =~= chars_view(before) + split_crlf(rest@));
                }
                return out;
            },
            Some(i) => {
                proof {
                    crate::text::lemma_find_from_result(rest@, sep@, 0);
                    assert(crate::text::occurs_at(rest@, sep@, i as int));
                    assert(sep@.len() == 2);
                }
                let n = rest.len();
                proof {
                    assert(i + 2 <= n);
                }
                let piece = crate::text::slice_chars(&rest, 0, i);
                let next = crate::text::slice_chars(&rest, i + 2, n);
                let ghost before = out@;
                let ghost old_rest = rest@;
                proof {
                    assert(piece@ =~= old_rest.take(i as int));
                    assert(next@ =~= old_rest.skip(i + 2));
                    assert(split_crlf(old_rest) == seq![piece@] + split_crlf(next@));
                }
                out.push(piece);
                rest = next;
                proof {
                    assert(chars_view(out@) =~= chars_view(before).push(piece@));
                    assert(chars_view(out@) + split_crlf(rest@) =~= chars_view(before) + split_crlf(old_rest));
                }
            },
        }
    }
}

fn parse_header_line(line: &Vec<char>) -> (r: Result<(String, String), RequestHeaderError>)
    ensures
        match r {
            Ok(h) => header_line(line@) == Ok::<(Seq<char>, Seq<char>), RequestHeaderError>((h.0@, h.1@)),
            Err(e) => header_line(line@) == Err::<(Seq<char>, Seq<char>), RequestHeaderError>(e),
        },
{
    let mut colon: Vec<char> = Vec::new();
    colon.push(':');
    proof {
        assert(colon@ =~= seq![':']);
    }
    let i = match crate::text::find_chars(line, &colon) {
        None => return Err(RequestHeaderError::Malformed),
        Some(i) => i,
    };
    proof {
        crate::text::lemma_find_from_result(line@, colon@, 0);
        assert(crate::text::occurs_at(line@, colon@, i as int));
        assert(colon@.len() == 1);
    }
    let raw_name = crate::text::slice_chars(line, 0, i);
    let name_text = crate::text::from_chars(crate::text::trim_chars(&raw_name).as_slice());
    proof {
        assert(raw_name@ =~= line@.take(i as int));
    }
    let name = match crate::headers::header_name(name_text.as_str().as_bytes()) {
        None => return Err(RequestHeaderError::InvalidName),
        Some(n) => n,
    };
    let n = line.len();
    proof {
        assert(i + 1 <= n);
    }
    let raw_value = crate::text::slice_chars(line, i + 1, n);
    proof {
        assert(raw_value@ =~= line@.skip(i + 1));
    }
    let value = crate::text::from_chars(crate::text::trim_chars(&raw_value).as_slice());
    if !crate::headers::header_value_accepts(value.as_str().as_bytes()) {
        return Err(RequestHeaderError::InvalidValue);
    }
    Ok((name, value))
}

/// Reads the header lines of a complete preview request head.
pub fn request_headers(request: &[u8]) -> (r: Result<Vec<(String, String)>, RequestHeaderError>)
    ensures
        match r {
            Ok(v) => spec_request_headers(request@) == Ok::<Seq<(Seq<char>, Seq<char>)>, RequestHeaderError>(pairs_view(v@)),
            Err(e) => spec_request_headers(request@) == Err::<Seq<(Seq<char>, Seq<char>)>, RequestHeaderError>(e),
        },
{
    let text = match crate::text::from_utf8(request) {
        Err(_) => return Err(RequestHeaderError::NotUtf8),
        Ok(t) => t,
    };
    let chars = crate::text::to_chars(text.as_str());
    let blank = crate::text::to_chars("\r\n\r\n");
    proof {
        assert(chars@ == vstd::utf8::decode_utf8(request@));
    }
    let end = match crate::text::find_chars(&chars, &blank) {
        None => return Err(RequestHeaderError::Incomplete),
        Some(end) => end,
    };
    proof {
        crate::text::lemma_find_from_result(chars@, blank@, 0);
    }
    let head = crate::text::slice_chars(&chars, 0, end);
    proof {
        assert(head@ =~= chars@.take(end as int));
    }
    let lines = split_crlf_exec(&head);
    let ghost all = chars_view(lines@).drop_first();
    proof {
        assert(spec_request_headers(request@) == header_lines(all));
    }
    let mut out: Vec<(String, String)> = Vec::new();
    let mut k: usize = 1;
    proof {
        assert(chars_view(lines@).len() >= 1) by {
            assert(split_crlf(head@).len() >= 1);
        }
        assert(all.skip(0) =~= all);
        assert(pairs_view(out@) =~= Seq::<(Seq<char>, Seq<char>)>::empty());
        assert(header_lines(all) == (match header_lines(all.skip(0)) {
            Ok(rest) => Ok(pairs_view(out@) + rest),
            Err(e) => Err(e),
        })) by {
            match header_lines(all) {
                Ok(rest) => {
                    assert(Seq::<(Seq<char>, Seq<char>)>::empty() + rest =~= rest);
                },
                Err(_) => {},
            }
        }
    }
    while k < lines.len()
        invariant
            1 <= k <= lines@.len(),
            all == chars_view(lines@).drop_first(),
            spec_request_headers(request@) == header_lines(all),
            header_lines(all) == (match header_lines(all.skip(k - 1)) {
                Ok(rest) => Ok(pairs_view(out@) + rest),
                Err(e) => Err(e),
            }),
        decreases lines@.len() - k,
    {
        let ghost tail = all.skip(k - 1);
        proof {
            assert(tail[0] == lines@[k as int]@);
            assert(tail.drop_first() =~= all.skip(k as int));
        }
        match parse_header_line(&lines[k]) {
            Err(e) => {
                proof {
                    assert(tail.len() > 0);
                    assert(header_lines(tail) == Err::<Seq<(Seq<char>, Seq<char>)>, RequestHeaderError>(e));
                }
                return Err(e);
            },
            Ok(h) => {
                let ghost before = pairs_view(out@);
                out.push(h);
                proof {
                    assert(pairs_view(out@) =~= before.push((h.0@, h.1@)));
                    match header_lines(all.skip(k as int)) {
                        Ok(rest) => {
                            assert(before + (seq![(h.0@, h.1@)] + rest) =~= pairs_view(out@) + rest);
                        },
                        Err(_) => {},
                    }
                }
            },
        }
        k = k + 1;
    }
    proof {
        assert(all.skip(k - 1).len() == 0);
        assert(pairs_view(out@) + Seq::<(Seq<char>, Seq<char>)>::empty() =~= pairs_view(out@));
    }
    Ok(out)
}

} // verus!

verus! {

impl RequestHeaderError {
    pub open spec fn spec_message(self) -> Seq<char> {
        match self {
            RequestHeaderError::NotUtf8 => "request headers are not UTF-8"@,
            RequestHeaderError::Incomplete => "incomplete request headers"@,
            RequestHeaderError::Malformed => "malformed request header"@,
            RequestHeaderError::InvalidName => "invalid HTTP header name"@,
            RequestHeaderError::InvalidValue => "failed to parse header value"@,
        }
    }

    /// The message the error is reported with.
    pub fn message(&self) -> (r: &'static str)
        ensures
            r@ == self.spec_message(),
    {
        match self {
            RequestHeaderError::NotUtf8 => "request headers are not UTF-8",
            RequestHeaderError::Incomplete => "incomplete request headers",
            RequestHeaderError::Malformed => "malformed request header",
            RequestHeaderError::InvalidName => "invalid HTTP header name",
            RequestHeaderError::InvalidValue => "failed to parse header value",
        }
    }
}

/// A preview reaches only a running workspace of the caller: the one found by
/// preview key when there is one, else the one found by ID.
pub proof fn law_preview_reaches_only_own_running(by_key: Option<Workspace>, by_id: Option<Workspace>, owner: Seq<char>)
    ensures
        spec_preview_workspace(by_key, by_id, owner) matches Some(w) ==> {
            &&& w.owner@ == owner
            &&& w.state == WorkspaceState::Running
            &&& (by_key is Some ==> by_key == Some(w))
            &&& (by_key is None ==> by_id == Some(w))
        },
        (by_key matches Some(w) && w.owner@ == owner && w.state == WorkspaceState::Running) ==> spec_preview_workspace(
            by_key,
            by_id,
            owner,
        ) == by_key,
        (by_key is None && (by_id matches Some(w) && w.owner@ == owner && w.state == WorkspaceState::Running))
            ==> spec_preview_workspace(by_key, by_id, owner) == by_id,
{
}

} // verus!
