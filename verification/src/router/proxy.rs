use vstd::prelude::*;

use crate::router::index::{index_map, info_view, unique_keys, PodInfo, InfoView};
use crate::text::{digits_value, has_suffix, is_ascii_digit, is_lower_hex_digit};

verus! {

/// Port and sandbox ID of a router hostname.
#[derive(Clone, Debug, PartialEq, Eq)]
pub struct ParsedHost {
    pub port: u16,
    pub sandbox_id: String,
}

/// Number of leading ASCII digits.
pub open spec fn digit_run(s: Seq<char>) -> nat
    decreases s.len(),
{
    if s.len() > 0 && is_ascii_digit(s[0]) {
        1 + digit_run(s.drop_first())
    } else {
        0
    }
}

proof fn lemma_digit_run(s: Seq<char>, i: int)
    requires
        0 <= i <= s.len(),
        forall|k: int| 0 <= k < i ==> is_ascii_digit(#[trigger] s[k]),
        i == s.len() || !is_ascii_digit(s[i]),
    ensures
        digit_run(s) == i,
    decreases i,
{
    if i > 0 {
        let t = s.drop_first();
        assert forall|k: int| 0 <= k < i - 1 implies is_ascii_digit(#[trigger] t[k]) by {
            assert(t[k] == s[k + 1]);
        }
        if i < s.len() {
            assert(t[i - 1] == s[i]);
        }
        lemma_digit_run(t, i - 1);
    }
}

/// The hostname matches `^(\d{1,5})-([0-9a-f]{8})\.` with a port that fits
/// in 16 bits: the port and the 8-digit sandbox ID.
pub open spec fn spec_parsed_host(host: Seq<char>) -> Option<(nat, Seq<char>)> {
    let n = digit_run(host);
    if 1 <= n <= 5 && host.len() >= n + 10 && host[n as int] == '-' && (forall|k: int|
        n + 1 <= k < n + 9 ==> is_lower_hex_digit(#[trigger] host[k])) && host[n as int + 9] == '.' {
        let port = digits_value(host.take(n as int));
        if port <= 65535 {
            Some((port, host.subrange(n as int + 1, n as int + 9)))
        } else {
            None
        }
    } else {
        None
    }
}

/// Parses `<port>-<sandbox-id>.`: 1 to 5 digits, a dash, exactly 8 lowercase
/// hex digits and a dot.
pub fn parse_host(host: &str) -> (r: Option<ParsedHost>)
    ensures
        match r {
            Some(p) => spec_parsed_host(host@) == Some((p.port as nat, p.sandbox_id@)),
            None => spec_parsed_host(host@) is None,
        },
{
    let h = crate::text::to_chars(host);
    let mut n: usize = 0;
    while n < h.len() && crate::text::char_is_ascii_digit(h[n])
        invariant
            n <= h@.len(),
            h@ == host@,
            forall|k: int| 0 <= k < n ==> is_ascii_digit(#[trigger] h@[k]),
        decreases h@.len() - n,
    {
        n = n + 1;
    }
    proof {
        lemma_digit_run(h@, n as int);
    }
    if n < 1 || n > 5 || h.len() < n + 10 || h[n] != '-' || h[n + 9] != '.' {
        return None;
    }
    let mut k: usize = n + 1;
    while k < n + 9
        invariant
            1 <= n <= 5,
            n + 1 <= k <= n + 9,
            n + 10 <= h@.len(),
            h@ == host@,
            digit_run(host@) == n,
            h@[n as int] == '-',
            h@[n as int + 9] == '.',
            forall|j: int| n + 1 <= j < k ==> is_lower_hex_digit(#[trigger] h@[j]),
        decreases n + 9 - k,
    {
        if !crate::text::char_is_lower_hex_digit(h[k]) {
            return None;
        }
        k = k + 1;
    }
    let digits = crate::text::slice_chars(&h, 0, n);
    proof {
        assert(digits@ == h@.take(n as int));
    }
    let port = match crate::text::parse_unsigned_chars(&digits, 65535) {
        Some(p) => p,
        None => return None,
    };
    proof {
        assert(digits@[0] != '+');
        assert(crate::text::all_digits(digits@)) by {
            assert forall|j: int| 0 <= j < digits@.len() implies is_ascii_digit(#[trigger] digits@[j]) by {
                assert(digits@[j] == h@[j]);
            }
        }
    }
    let id = crate::text::slice_chars(&h, n + 1, n + 9);
    Some(ParsedHost { port: port as u16, sandbox_id: crate::text::from_chars(id.as_slice()) })
}

/// Every well-formed router hostname parses to its port and sandbox ID.
pub proof fn law_router_host_round_trip(port: nat, id: Seq<char>, rest: Seq<char>)
    requires
        port <= 65535,
        id.len() == 8,
        forall|k: int| 0 <= k < 8 ==> is_lower_hex_digit(#[trigger] id[k]),
        crate::text::decimal(port).len() <= 5,
    ensures
        spec_parsed_host(crate::text::decimal(port) + seq!['-'] + id + seq!['.'] + rest) == Some((port, id)),
{
    let d = crate::text::decimal(port);
    crate::text::lemma_decimal_all_digits(port);
    let h = d + seq!['-'] + id + seq!['.'] + rest;
    let n = d.len();
    assert forall|k: int| 0 <= k < n implies is_ascii_digit(#[trigger] h[k]) by {
        assert(h[k] == d[k]);
    }
    assert(h[n as int] == '-');
    lemma_digit_run(h, n as int);
    assert forall|k: int| n + 1 <= k < n + 9 implies is_lower_hex_digit(#[trigger] h[k]) by {
        assert(h[k] == id[k - n - 1]);
    }
    assert(h[n as int + 9] == '.');
    assert(h.take(n as int) =~= d);
    assert(h.subrange(n as int + 1, n as int + 9) =~= id);
}

/// Any hostname made of 1 to 5 ASCII digits, a `-`, 8 lowercase hex digits
/// and a `.`, followed by anything, parses to the digits' value and the ID
/// when that value fits in 16 bits, and is refused when it does not; leading
/// zeros are allowed.
pub proof fn law_router_host_accepted(digits: Seq<char>, id: Seq<char>, rest: Seq<char>)
    requires
        1 <= digits.len() <= 5,
        crate::text::all_digits(digits),
        id.len() == 8,
        forall|k: int| 0 <= k < 8 ==> is_lower_hex_digit(#[trigger] id[k]),
    ensures
        spec_parsed_host(digits + seq!['-'] + id + seq!['.'] + rest) == (if digits_value(digits) <= 65535 {
            Some((digits_value(digits), id))
        } else {
            None
        }),
{
    let h = digits + seq!['-'] + id + seq!['.'] + rest;
    let n = digits.len();
    assert forall|k: int| 0 <= k < n implies is_ascii_digit(#[trigger] h[k]) by {
        assert(h[k] == digits[k]);
    }
    assert(h[n as int] == '-');
    lemma_digit_run(h, n as int);
    assert forall|k: int| n + 1 <= k < n + 9 implies is_lower_hex_digit(#[trigger] h[k]) by {
        assert(h[k] == id[k - n - 1]);
    }
    assert(h[n as int + 9] == '.');
    assert(h.take(n as int) =~= digits);
    assert(h.subrange(n as int + 1, n as int + 9) =~= id);
}

/// Every hostname the router accepts has that shape: 1 to 5 digits whose
/// value is the port, a `-`, the 8 lowercase hex digits of the ID, a `.` and
/// the rest of the name.
pub proof fn law_router_host_shape(host: Seq<char>)
    ensures
        spec_parsed_host(host) matches Some((port, id)) ==> {
            let n = digit_run(host);
            let digits = host.take(n as int);
            &&& 1 <= digits.len() <= 5
            &&& crate::text::all_digits(digits)
            &&& digits_value(digits) == port
            &&& port <= 65535
            &&& id.len() == 8
            &&& forall|k: int| 0 <= k < 8 ==> is_lower_hex_digit(#[trigger] id[k])
            &&& host == digits + seq!['-'] + id + seq!['.'] + host.skip(n as int + 10)
        },
{
    if spec_parsed_host(host) is Some {
        let n = digit_run(host);
        lemma_digit_run_prefix(host);
        let digits = host.take(n as int);
        let id = host.subrange(n as int + 1, n as int + 9);
        assert forall|k: int| 0 <= k < 8 implies is_lower_hex_digit(#[trigger] id[k]) by {
            assert(id[k] == host[n + 1 + k]);
        }
        assert(host =~= digits + seq!['-'] + id + seq!['.'] + host.skip(n as int + 10));
    }
}

/// The first `digit_run(s)` characters of `s` are digits.
proof fn lemma_digit_run_prefix(s: Seq<char>)
    ensures
        digit_run(s) <= s.len(),
        forall|k: int| 0 <= k < digit_run(s) ==> is_ascii_digit(#[trigger] s[k]),
    decreases s.len(),
{
    if s.len() > 0 && is_ascii_digit(s[0]) {
        let t = s.drop_first();
        lemma_digit_run_prefix(t);
        assert forall|k: int| 0 <= k < digit_run(s) implies is_ascii_digit(#[trigger] s[k]) by {
            if k > 0 {
                assert(s[k] == t[k - 1]);
            }
        }
    }
}

/// Index of the first `\r\n\r\n` in `buf`.
pub open spec fn blank_line_at(buf: Seq<u8>, i: int) -> bool {
    0 <= i && i + 4 <= buf.len() && buf[i] == 13 && buf[i + 1] == 10 && buf[i + 2] == 13 && buf[i
        + 3] == 10
}

/// The position of the final `\n` of the first `\r\n\r\n`, if any.
pub open spec fn spec_header_end(buf: Seq<u8>) -> Option<int> {
    if exists|i: int| #[trigger] blank_line_at(buf, i) {
        let i = choose|i: int| #[trigger] blank_line_at(buf, i) && forall|j: int| 0 <= j < i ==> !#[trigger] blank_line_at(buf, j);
        Some(i + 3)
    } else {
        None
    }
}

/// Finds the end of the request head.
pub fn find_header_end(buf: &[u8]) -> (r: Option<usize>)
    ensures
        match r {
            Some(e) => spec_header_end(buf@) == Some(e as int),
            None => spec_header_end(buf@) is None,
        },
{
    let n = if buf.len() >= 3 {
        buf.len() - 3
    } else {
        0
    };
    let mut i: usize = 0;
    while i < n
        invariant
            i <= n,
            n + 3 <= buf@.len() || n == 0,
            forall|j: int| 0 <= j < i ==> !#[trigger] blank_line_at(buf@, j),
        decreases n - i,
    {
        if buf[i] == 13 && buf[i + 1] == 10 && buf[i + 2] == 13 && buf[i + 3] == 10 {
            proof {
                assert(blank_line_at(buf@, i as int));
                let c = choose|c: int| #[trigger] blank_line_at(buf@, c) && forall|j: int| 0 <= j < c ==> !#[trigger] blank_line_at(buf@, j);
                if c < i {
                    assert(!blank_line_at(buf@, c));
                }
                if i < c {
                    assert(!blank_line_at(buf@, i as int));
                }
            }
            return Some(i + 3);
        }
        i = i + 1;
    }
    proof {
        assert forall|j: int| !#[trigger] blank_line_at(buf@, j) by {
            if 0 <= j && j >= i {
                assert(j + 4 > buf@.len());
            }
        }
    }
    None
}

/// A parsed request head, as `httparse` reports it.
#[derive(Clone, Debug)]
pub enum RequestHead {
    /// Not a valid HTTP/1.x request head.
    Invalid,
    /// The head is incomplete.
    Partial,
    /// The head is complete; its headers as (name, value) bytes, in order.
    Complete { headers: Vec<(Vec<u8>, Vec<u8>)> },
}

pub enum RequestHeadView {
    Invalid,
    Partial,
    Complete(Seq<(Seq<u8>, Seq<u8>)>),
}

pub open spec fn head_view(h: RequestHead) -> RequestHeadView {
    match h {
        RequestHead::Invalid => RequestHeadView::Invalid,
        RequestHead::Partial => RequestHeadView::Partial,
        RequestHead::Complete { headers } => RequestHeadView::Complete(
            headers@.map_values(|e: (Vec<u8>, Vec<u8>)| (e.0@, e.1@)),
        ),
    }
}

/// What `httparse::Request::parse` (with room for 32 headers) makes of `buf`.
pub uninterp spec fn spec_request_head(buf: Seq<u8>) -> RequestHeadView;

/// `httparse::Request::parse` with 32 header slots; the contract only names
/// the outcome as a function of the bytes.
#[verifier::external_body]
fn parse_request_head(buf: &[u8]) -> (r: RequestHead)
    ensures
        head_view(r) == spec_request_head(buf@),
{
    let mut headers = [httparse::EMPTY_HEADER; 32];
    let mut req = httparse::Request::new(&mut headers);
    match req.parse(buf) {
        Err(_) => RequestHead::Invalid,
        Ok(httparse::Status::Partial) => RequestHead::Partial,
        Ok(httparse::Status::Complete(_)) => RequestHead::Complete {
            headers: req.headers.iter().map(|h| (h.name.as_bytes().to_vec(), h.value.to_vec())).collect(),
        },
    }
}

pub open spec fn lower_byte(b: u8) -> u8 {
    if 65 <= b <= 90 {
        (b + 32) as u8
    } else {
        b
    }
}

/// `eq_ignore_ascii_case` on bytes.
pub open spec fn eq_ignore_ascii_case(a: Seq<u8>, b: Seq<u8>) -> bool {
    a.len() == b.len() && forall|i: int| 0 <= i < a.len() ==> lower_byte(#[trigger] a[i]) == lower_byte(b[i])
}

/// Value of the first header named `Host` (any letter case).
pub open spec fn host_header(headers: Seq<(Seq<u8>, Seq<u8>)>) -> Option<Seq<u8>>
    decreases headers.len(),
{
    if headers.len() == 0 {
        None
    } else if eq_ignore_ascii_case(headers[0].0, seq![72u8, 111u8, 115u8, 116u8]) {
        Some(headers[0].1)
    } else {
        host_header(headers.drop_first())
    }
}

fn is_host_name(name: &Vec<u8>) -> (r: bool)
    ensures
        r == eq_ignore_ascii_case(name@, seq![72u8, 111u8, 115u8, 116u8]),
{
    if name.len() != 4 {
        return false;
    }
    let expected: [u8; 4] = [104, 111, 115, 116];
    let mut i: usize = 0;
    while i < 4
        invariant
            i <= 4,
            name@.len() == 4,
            expected@ == seq![104u8, 111u8, 115u8, 116u8],
            forall|k: int| 0 <= k < i ==> lower_byte(#[trigger] name@[k]) == lower_byte(seq![72u8, 111u8, 115u8, 116u8][k]),
        decreases 4 - i,
    {
        let b = name[i];
        let l = if 65 <= b && b <= 90 {
            b + 32
        } else {
            b
        };
        if l != expected[i] {
            return false;
        }
        i = i + 1;
    }
    true
}

fn find_host_header(headers: &Vec<(Vec<u8>, Vec<u8>)>) -> (r: Option<usize>)
    ensures
        match r {
            Some(i) => i < headers@.len() && host_header(headers@.map_values(|e: (Vec<u8>, Vec<u8>)| (e.0@, e.1@))) == Some(headers@[i as int].1@),
            None => host_header(headers@.map_values(|e: (Vec<u8>, Vec<u8>)| (e.0@, e.1@))) is None,
        },
{
    let ghost hv = headers@.map_values(|e: (Vec<u8>, Vec<u8>)| (e.0@, e.1@));
    let mut i: usize = 0;
    proof {
        assert(hv.skip(0) =~= hv);
    }
    while i < headers.len()
        invariant
            i <= headers@.len(),
            hv == headers@.map_values(|e: (Vec<u8>, Vec<u8>)| (e.0@, e.1@)),
            host_header(hv) == host_header(hv.skip(i as int)),
        decreases headers@.len() - i,
    {
        proof {
            let t = hv.skip(i as int);
            assert(t[0] == hv[i as int]);
            assert(t.drop_first() =~= hv.skip(i + 1));
        }
        if is_host_name(&headers[i].0) {
            return Some(i);
        }
        i = i + 1;
    }
    proof {
        assert(hv.skip(i as int) =~= Seq::<(Seq<u8>, Seq<u8>)>::empty());
    }
    None
}

pub const PARTIAL_REQUEST: &'static str = "HTTP/1.1 400 Partial Request\r\nContent-Length: 0\r\n\r\n";

pub const BAD_REQUEST: &'static str = "HTTP/1.1 400 Bad Request\r\nContent-Length: 0\r\n\r\n";

pub const SANDBOX_NOT_FOUND: &'static str = "HTTP/1.1 502 Sandbox Not Found\r\nContent-Length: 22\r\n\r\nsandbox not found or not ready";

pub const HEADER_TOO_LARGE: &'static str = "HTTP/1.1 400 Header Too Large\r\nContent-Length: 0\r\n\r\n";

pub const REQUEST_TIMEOUT: &'static str = "HTTP/1.1 408 Request Timeout\r\nContent-Length: 0\r\n\r\n";

pub const BACKEND_UNAVAILABLE: &'static str = "HTTP/1.1 502 Backend Unavailable\r\nContent-Length: 0\r\n\r\n";

pub const BACKEND_TIMEOUT: &'static str = "HTTP/1.1 502 Backend Timeout\r\nContent-Length: 0\r\n\r\n";

/// Where a buffered request goes.
#[derive(Clone, Debug)]
pub enum RouteOutcome {
    /// Close the connection without answering.
    Drop,
    /// Answer with this fixed response and close.
    Respond { response: &'static str },
    /// No ready sandbox has the ID: answer 502 (a lookup miss).
    NotFound,
    /// Forward the connection to the sandbox Pod on this port.
    Forward { pod: PodInfo, port: u16 },
}

pub enum RouteView {
    Drop,
    Respond(Seq<char>),
    NotFound,
    Forward(InfoView, nat),
}

pub open spec fn route_view(r: RouteOutcome) -> RouteView {
    match r {
        RouteOutcome::Drop => RouteView::Drop,
        RouteOutcome::Respond { response } => RouteView::Respond(response@),
        RouteOutcome::NotFound => RouteView::NotFound,
        RouteOutcome::Forward { pod, port } => RouteView::Forward(info_view(pod), port as nat),
    }
}

/// The routing decision for a complete request head.
pub open spec fn spec_route(buf: Seq<u8>, base_domain: Option<Seq<char>>, index: Map<Seq<char>, InfoView>) -> RouteView {
    match spec_request_head(buf) {
        RequestHeadView::Invalid => RouteView::Drop,
        RequestHeadView::Partial => RouteView::Respond(PARTIAL_REQUEST@),
        RequestHeadView::Complete(headers) => match host_header(headers) {
            None => RouteView::Respond(BAD_REQUEST@),
            Some(value) => if !vstd::utf8::valid_utf8(value) {
                RouteView::Drop
            } else {
                let host = vstd::utf8::decode_utf8(value);
                if base_domain is Some && !has_suffix(host, base_domain->0) {
                    RouteView::Respond(BAD_REQUEST@)
                } else {
                    match spec_parsed_host(host) {
                        None => RouteView::Respond(BAD_REQUEST@),
                        Some((port, id)) => if index.contains_key(id) {
                            RouteView::Forward(index[id], port)
                        } else {
                            RouteView::NotFound
                        },
                    }
                }
            },
        },
    }
}

/// Routes a request by its `Host` header, `<port>-<sandbox-id>.<base-domain>`,
/// to the ready Pod of that sandbox.
pub fn route_request(buf: &[u8], base_domain: &Option<String>, index: &Vec<(String, PodInfo)>) -> (r: RouteOutcome)
    requires
        unique_keys(index@),
    ensures
        route_view(r) == spec_route(buf@, crate::gateway::state::opt_view(*base_domain), index_map(index@)),
{
    let head = parse_request_head(buf);
    let headers = match head {
        RequestHead::Invalid => return RouteOutcome::Drop,
        RequestHead::Partial => return RouteOutcome::Respond { response: PARTIAL_REQUEST },
        RequestHead::Complete { headers } => headers,
    };
    let i = match find_host_header(&headers) {
        Some(i) => i,
        None => return RouteOutcome::Respond { response: BAD_REQUEST },
    };
    let host = match crate::text::from_utf8(headers[i].1.as_slice()) {
        Ok(h) => h,
        Err(_) => return RouteOutcome::Drop,
    };
    if let Some(b) = base_domain {
        let hc = crate::text::to_chars(host.as_str());
        let bc = crate::text::to_chars(b.as_str());
        if !crate::text::chars_end_with(&hc, &bc) {
            return RouteOutcome::Respond { response: BAD_REQUEST };
        }
    }
    let parsed = match parse_host(host.as_str()) {
        Some(p) => p,
        None => return RouteOutcome::Respond { response: BAD_REQUEST },
    };
    match crate::router::index::lookup(index, &parsed.sandbox_id) {
        Some(pod) => RouteOutcome::Forward { pod, port: parsed.port },
        None => RouteOutcome::NotFound,
    }
}

/// What reading the request head concludes after each read: a complete
/// head ends at the first blank line; a head over the limit is refused.
#[derive(Clone, Copy, Debug, PartialEq, Eq, Structural)]
pub enum HeadRead {
    TooLarge,
    Complete { end: usize },
    Incomplete,
}

pub fn head_read(buf: &[u8], max_header_bytes: usize) -> (r: HeadRead)
    ensures
        r == (if buf@.len() > max_header_bytes {
            HeadRead::TooLarge
        } else {
            match spec_header_end(buf@) {
                Some(e) => HeadRead::Complete { end: e as usize },
                None => HeadRead::Incomplete,
            }
        }),
{
    if buf.len() > max_header_bytes {
        return HeadRead::TooLarge;
    }
    match find_header_end(buf) {
        Some(e) => HeadRead::Complete { end: e },
        None => HeadRead::Incomplete,
    }
}

/// A request is forwarded only to a sandbox the index holds, on a port that
/// fits in 16 bits, and answered "not found" only for an ID the index lacks;
/// every other answer does not depend on the index at all.
pub proof fn law_forward_only_to_indexed_sandbox(
    buf: Seq<u8>,
    base_domain: Option<Seq<char>>,
    index: Map<Seq<char>, InfoView>,
    other: Map<Seq<char>, InfoView>,
)
    ensures
        spec_route(buf, base_domain, index) matches RouteView::Forward(info, port) ==> port <= 65535 && exists|id: Seq<char>|
            #[trigger] index.contains_key(id) && index[id] == info && id.len() == 8,
        spec_route(buf, base_domain, index) is NotFound ==> exists|id: Seq<char>|
            !#[trigger] index.contains_key(id) && id.len() == 8,
        (spec_route(buf, base_domain, index) is Drop || spec_route(buf, base_domain, index) is Respond)
            ==> spec_route(buf, base_domain, other) == spec_route(buf, base_domain, index),
{
    match spec_request_head(buf) {
        RequestHeadView::Complete(headers) => match host_header(headers) {
            Some(value) => if vstd::utf8::valid_utf8(value) {
                let host = vstd::utf8::decode_utf8(value);
                match spec_parsed_host(host) {
                    Some((port, id)) => {
                        law_router_host_shape(host);
                        if index.contains_key(id) {
                            assert(index.contains_key(id) && index[id] == index[id] && id.len() == 8);
                        } else {
                            assert(!index.contains_key(id) && id.len() == 8);
                        }
                    },
                    None => {},
                }
            },
            None => {},
        },
        _ => {},
    }
}

} // verus!
