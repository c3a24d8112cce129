//! The minimal HTTP machinery of the control surface: locating the end of
//! a request head, the parsed head, header lookup, the content-length
//! rule, query-string parameters, and building a response head.

use vstd::prelude::*;
use vstd::utf8::{decode_utf8, valid_utf8};

use crate::text::{dec_rep, eq_ignore_case, str_eq, str_eq_ignore_case, u64_to_dec};

verus! {

/// One header of a request head, its value kept as raw bytes.
#[derive(Clone, Debug)]
pub struct HttpHeader {
    pub name: String,
    pub value: Vec<u8>,
}

/// A parsed request head: method, request target (path plus optional
/// query), the headers in order, and the head's length in bytes.
#[derive(Clone, Debug)]
pub struct HttpRequest {
    pub method: String,
    pub path: String,
    pub headers: Vec<HttpHeader>,
    pub header_len: usize,
}

/// What httparse's `Request::parse` makes of a buffer: the parsed head,
/// or nothing for a partial or malformed one. The outcome depends on the
/// bytes alone.
pub uninterp spec fn http_head_of(b: Seq<u8>) -> Option<HttpRequest>;

/// Relies on httparse's `Request::parse` with up to 32 headers: a
/// complete parse yields the request's method, target and headers and
/// the byte length of the head (never more than the buffer); a partial
/// or malformed head yields nothing. The outcome is a function of the
/// buffer alone, named `http_head_of`.
#[verifier::external_body]
pub(crate) fn parse_http_request(buf: &[u8]) -> (r: Option<HttpRequest>)
    ensures
        r == http_head_of(buf@),
        r is Some ==> r->0.header_len <= buf@.len(),
{
    let mut headers = [httparse::EMPTY_HEADER; 32];
    let mut req = httparse::Request::new(&mut headers);
    let n = match req.parse(buf) {
        Ok(httparse::Status::Complete(n)) => n,
        _ => return None,
    };
    let hs = req
        .headers
        .iter()
        .map(|h| HttpHeader { name: h.name.to_string(), value: h.value.to_vec() })
        .collect();
    Some(HttpRequest { method: req.method?.to_string(), path: req.path?.to_string(), headers: hs, header_len: n })
}

/// Relies on std's `str::from_utf8`: it succeeds exactly on valid UTF-8
/// and decodes it.
#[verifier::external_body]
pub(crate) fn utf8_to_string(bytes: &[u8]) -> (r: Option<String>)
    ensures
        r is Some <==> valid_utf8(bytes@),
        r is Some ==> r->0@ == decode_utf8(bytes@),
{
    match std::str::from_utf8(bytes) {
        Ok(s) => Some(s.to_owned()),
        Err(_) => None,
    }
}

/// The bytes CR LF CR LF stand at position `i`.
pub open spec fn terminator_at(b: Seq<u8>, i: int) -> bool {
    b[i] == 13 && b[i + 1] == 10 && b[i + 2] == 13 && b[i + 3] == 10
}

/// Finds the end of the request head within the filled part of the
/// buffer: one past the first CR LF CR LF, if any.
pub fn header_terminator(buf: &[u8], filled: usize) -> (r: Option<usize>)
    requires
        filled <= buf@.len(),
    ensures
        match r {
            Some(e) => 4 <= e <= filled && terminator_at(buf@, e - 4) && (forall|j: int|
                0 <= j < e - 4 ==> !terminator_at(buf@, j)),
            None => forall|j: int| 0 <= j <= filled - 4 ==> !terminator_at(buf@, j),
        },
{
    if filled < 4 {
        return None;
    }
    let mut i: usize = 0;
    while i <= filled - 4
        invariant
            filled <= buf@.len(),
            4 <= filled,
            0 <= i <= filled - 3,
            forall|j: int| 0 <= j < i ==> !terminator_at(buf@, j),
        decreases filled - i,
    {
        if buf[i] == 13 && buf[i + 1] == 10 && buf[i + 2] == 13 && buf[i + 3] == 10 {
            return Some(i + 4);
        }
        i = i + 1;
    }
    None
}

/// Whether a header bears the given name, ASCII case notwithstanding.
pub open spec fn header_matches(h: HttpHeader, name: Seq<char>) -> bool {
    eq_ignore_case(h.name@, name)
}

/// The value bytes of the first header with the given name.
pub open spec fn first_header_value(hs: Seq<HttpHeader>, name: Seq<char>) -> Option<Seq<u8>>
    decreases hs.len(),
{
    if hs.len() == 0 {
        None
    } else if header_matches(hs[0], name) {
        Some(hs[0].value@)
    } else {
        first_header_value(hs.drop_first(), name)
    }
}

proof fn lemma_first_header_skip(hs: Seq<HttpHeader>, name: Seq<char>, i: int)
    requires
        0 <= i <= hs.len(),
        forall|j: int| 0 <= j < i ==> !header_matches(#[trigger] hs[j], name),
    ensures
        first_header_value(hs, name) == first_header_value(hs.subrange(i, hs.len() as int), name),
    decreases i,
{
    if i == 0 {
        assert(hs.subrange(0, hs.len() as int) == hs);
    } else {
        assert(!header_matches(hs[0], name));
        lemma_first_header_skip(hs.drop_first(), name, i - 1);
        assert(hs.drop_first().subrange(i - 1, hs.drop_first().len() as int) == hs.subrange(
            i,
            hs.len() as int,
        ));
    }
}

/// Looks up the first header with the given name (ASCII case does not
/// matter) and hands back its raw value bytes.
pub fn header_value<'a>(headers: &'a Vec<HttpHeader>, name: &str) -> (r: Option<&'a Vec<u8>>)
    ensures
        match r {
            Some(v) => first_header_value(headers@, name@) == Some(v@),
            None => first_header_value(headers@, name@) is None,
        },
{
    let mut i: usize = 0;
    while i < headers.len()
        invariant
            0 <= i <= headers.len(),
            forall|j: int| 0 <= j < i ==> !header_matches(#[trigger] headers@[j], name@),
        decreases headers.len() - i,
    {
        if str_eq_ignore_case(headers[i].name.as_str(), name) {
            proof {
                lemma_first_header_skip(headers@, name@, i as int);
                let sub = headers@.subrange(i as int, headers@.len() as int);
                assert(sub[0] == headers@[i as int]);
            }
            return Some(&headers[i].value);
        }
        i = i + 1;
    }
    proof {
        lemma_first_header_skip(headers@, name@, headers@.len() as int);
    }
    None
}

/// The first position of `c` in `s`, or the length when absent.
pub open spec fn idx_of(s: Seq<char>, c: char) -> int
    decreases s.len(),
{
    if s.len() == 0 {
        0
    } else if s[0] == c {
        0
    } else {
        1 + idx_of(s.drop_first(), c)
    }
}

proof fn lemma_idx_of_bounds(s: Seq<char>, c: char)
    ensures
        0 <= idx_of(s, c) <= s.len(),
    decreases s.len(),
{
    if s.len() > 0 && s[0] != c {
        lemma_idx_of_bounds(s.drop_first(), c);
    }
}

proof fn lemma_idx_of_from_scan(s: Seq<char>, c: char, i: int)
    requires
        0 <= i <= s.len(),
        forall|j: int| 0 <= j < i ==> s[j] != c,
        i == s.len() || s[i] == c,
    ensures
        idx_of(s, c) == i,
    decreases i,
{
    if i == 0 {
    } else {
        assert(s[0] != c);
        lemma_idx_of_from_scan(s.drop_first(), c, i - 1);
    }
}

/// Scans for the first occurrence of `c`, reporting its index or the
/// length when absent.
fn find_char(s: &str, c: char) -> (r: usize)
    ensures
        r == idx_of(s@, c),
        r <= s@.len(),
        r < s@.len() ==> s@[r as int] == c,
        forall|j: int| 0 <= j < r ==> s@[j] != c,
{
    let len = s.unicode_len();
    let mut i: usize = 0;
    while i < len && s.get_char(i) != c
        invariant
            0 <= i <= len,
            len == s@.len(),
            forall|j: int| 0 <= j < i ==> s@[j] != c,
        decreases len - i,
    {
        i = i + 1;
    }
    proof {
        lemma_idx_of_from_scan(s@, c, i as int);
    }
    i
}

/// Splits a request target at the first question mark: the path, and the
/// query (empty when there is none).
pub fn split_path_query<'a>(path: &'a str) -> (r: (&'a str, &'a str))
    ensures
        0 <= idx_of(path@, '?') <= path@.len(),
        r.0@ == path@.subrange(0, idx_of(path@, '?')),
        idx_of(path@, '?') < path@.len() ==> r.1@ == path@.subrange(
            idx_of(path@, '?') + 1,
            path@.len() as int,
        ),
        idx_of(path@, '?') == path@.len() ==> r.1@ == Seq::<char>::empty(),
{
    let len = path.unicode_len();
    let q = find_char(path, '?');
    let head = path.substring_char(0, q);
    let tail = if q < len {
        path.substring_char(q + 1, len)
    } else {
        path.substring_char(len, len)
    };
    (head, tail)
}

/// The value of `key` in a query string: segments split on ampersands,
/// each segment's key stands before its first equals sign, and the first
/// segment whose key matches decides (an absent equals sign means an
/// empty value).
pub open spec fn spec_query_param(q: Seq<char>, key: Seq<char>) -> Option<Seq<char>>
    decreases q.len(),
    via spec_query_param_decreases
{
    let amp = idx_of(q, '&');
    let seg = q.subrange(0, amp);
    let eq = idx_of(seg, '=');
    let k = seg.subrange(0, eq);
    let v = if eq < seg.len() {
        seg.subrange(eq + 1, seg.len() as int)
    } else {
        Seq::<char>::empty()
    };
    if k == key {
        Some(v)
    } else if amp == q.len() {
        None
    } else {
        spec_query_param(q.subrange(amp + 1, q.len() as int), key)
    }
}

#[via_fn]
proof fn spec_query_param_decreases(q: Seq<char>, key: Seq<char>) {
    lemma_idx_of_bounds(q, '&');
}

/// Finds `key` in a query string, as `spec_query_param` describes.
pub fn parse_query_param(query: &str, key: &str) -> (r: Option<String>)
    ensures
        match spec_query_param(query@, key@) {
            Some(v) => (r matches Some(s) && s@ == v),
            None => r is None,
        },
    decreases query@.len(),
{
    let qlen = query.unicode_len();
    let amp = find_char(query, '&');
    let seg = query.substring_char(0, amp);
    let seglen = seg.unicode_len();
    let eq = find_char(seg, '=');
    let k = seg.substring_char(0, eq);
    if str_eq(k, key) {
        if eq < seglen {
            Some(seg.substring_char(eq + 1, seglen).to_owned())
        } else {
            Some(String::new())
        }
    } else if amp == qlen {
        None
    } else {
        parse_query_param(query.substring_char(amp + 1, qlen), key)
    }
}

/// A decimal digit.
pub open spec fn is_dec_digit(c: char) -> bool {
    '0' <= c && c <= '9'
}

pub open spec fn digit_value(c: char) -> int {
    (c as u32) - 48
}

/// The number the digit characters denote.
pub open spec fn digits_value(s: Seq<char>) -> int
    decreases s.len(),
{
    if s.len() == 0 {
        0
    } else {
        digits_value(s.drop_last()) * 10 + digit_value(s.last())
    }
}

pub open spec fn all_dec_digits(s: Seq<char>) -> bool {
    forall|i: int| 0 <= i < s.len() ==> is_dec_digit(#[trigger] s[i])
}

/// What `str::parse::<usize>` accepts: an optional plus sign, then one or
/// more digits, denoting a value that fits.
pub open spec fn spec_parse_usize(s: Seq<char>) -> Option<int> {
    let body = if s.len() > 0 && s[0] == '+' {
        s.drop_first()
    } else {
        s
    };
    if body.len() > 0 && all_dec_digits(body) && digits_value(body) <= usize::MAX {
        Some(digits_value(body))
    } else {
        None
    }
}

proof fn lemma_digits_value_nonneg(s: Seq<char>)
    requires
        all_dec_digits(s),
    ensures
        0 <= digits_value(s),
    decreases s.len(),
{
    if s.len() > 0 {
        assert(all_dec_digits(s.drop_last()));
        lemma_digits_value_nonneg(s.drop_last());
        assert(is_dec_digit(s.last()));
        assert(digit_value(s.last()) >= 0);
    }
}

proof fn lemma_digits_prefix_le(s: Seq<char>, i: int)
    requires
        all_dec_digits(s),
        0 <= i <= s.len(),
    ensures
        digits_value(s.subrange(0, i)) <= digits_value(s),
    decreases s.len(),
{
    if i == s.len() {
        assert(s.subrange(0, s.len() as int) == s);
    } else {
        assert(all_dec_digits(s.drop_last()));
        assert(s.subrange(0, i) == s.drop_last().subrange(0, i));
        lemma_digits_prefix_le(s.drop_last(), i);
        lemma_digits_value_nonneg(s.drop_last());
        assert(is_dec_digit(s.last()));
        assert(digits_value(s) >= digits_value(s.drop_last()));
    }
}

/// Parses an unsigned decimal number as `str::parse::<usize>` would:
/// an optional plus sign, then digits; anything else, or a value that
/// does not fit, is rejected.
pub fn parse_usize(s: &str) -> (r: Option<usize>)
    ensures
        match spec_parse_usize(s@) {
            Some(v) => (r matches Some(u) && u == v),
            None => r is None,
        },
{
    let len = s.unicode_len();
    let start: usize = if len > 0 && s.get_char(0) == '+' {
        1
    } else {
        0
    };
    let ghost body: Seq<char> = s@.subrange(start as int, len as int);
    proof {
        if len > 0 && s@[0] == '+' {
            assert(body == s@.drop_first());
        } else {
            assert(body == s@);
        }
    }
    if start >= len {
        return None;
    }
    let mut acc: usize = 0;
    let mut i: usize = start;
    while i < len
        invariant
            start <= i <= len,
            len == s@.len(),
            start < len,
            body == s@.subrange(start as int, len as int),
            body == (if s@.len() > 0 && s@[0] == '+' {
                s@.drop_first()
            } else {
                s@
            }),
            start == (if s@.len() > 0 && s@[0] == '+' {
                1int
            } else {
                0int
            }),
            all_dec_digits(s@.subrange(start as int, i as int)),
            acc == digits_value(s@.subrange(start as int, i as int)),
        decreases len - i,
    {
        let c = s.get_char(i);
        if !(c >= '0' && c <= '9') {
            proof {
                assert(body[i - start] == c);
                assert(!all_dec_digits(body));
            }
            return None;
        }
        let d = (c as u8) - 48;
        let ghost prefix = s@.subrange(start as int, i as int);
        let ghost prefix1 = s@.subrange(start as int, i + 1);
        proof {
            assert(prefix1.drop_last() == prefix);
            assert(prefix1.last() == c);
            assert(all_dec_digits(prefix1));
            lemma_digits_value_nonneg(prefix1);
        }
        if acc > (usize::MAX - (d as usize)) / 10 {
            proof {
                assert(digits_value(prefix1) == acc * 10 + d);
                assert(digits_value(prefix1) > usize::MAX) by (nonlinear_arith)
                    requires
                        digits_value(prefix1) == acc * 10 + (d as int),
                        acc > (usize::MAX - (d as int)) / 10,
                        0 <= d <= 9,
                        acc >= 0,
                ;
                if all_dec_digits(body) {
                    assert(prefix1 == body.subrange(0, i + 1 - start));
                    lemma_digits_prefix_le(body, i + 1 - start);
                    assert(digits_value(body) > usize::MAX);
                }
            }
            return None;
        }
        acc = acc * 10 + (d as usize);
        i = i + 1;
    }
    proof {
        assert(s@.subrange(start as int, len as int) == body);
    }
    Some(acc)
}

/// The body length a request head announces: its first Content-Length
/// header read as a number, with zero for a missing, unreadable or
/// malformed one.
pub open spec fn spec_content_length(hs: Seq<HttpHeader>) -> int {
    match first_header_value(hs, "Content-Length"@) {
        Some(bytes) => if valid_utf8(bytes) {
            match spec_parse_usize(decode_utf8(bytes)) {
                Some(v) => v,
                None => 0,
            }
        } else {
            0
        },
        None => 0,
    }
}

/// Reads the announced body length off a parsed head, as
/// `spec_content_length` describes.
pub fn content_length(req: &HttpRequest) -> (r: usize)
    ensures
        r == spec_content_length(req.headers@),
{
    match header_value(&req.headers, "Content-Length") {
        Some(v) => match utf8_to_string(v.as_slice()) {
            Some(text) => match parse_usize(text.as_str()) {
                Some(n) => n,
                None => 0,
            },
            None => 0,
        },
        None => 0,
    }
}

/// Parses a buffered request head and reads off the body length it
/// announces: the verified steps around the trusted parser. Exactly the
/// buffers whose head parses yield a result, and the result is that
/// head with its announced content length.
pub fn parse_request(buf: &[u8]) -> (r: Option<(HttpRequest, usize)>)
    ensures
        r is Some <==> http_head_of(buf@) is Some,
        r matches Some(p) ==> (p.0 == http_head_of(buf@)->0 && p.0.header_len <= buf@.len()
            && p.1 == spec_content_length(p.0.headers@)),
{
    match parse_http_request(buf) {
        Some(req) => {
            let len = content_length(&req);
            Some((req, len))
        },
        None => None,
    }
}

/// Builds the fixed head of every response: status line, content type
/// and length, connection close, the permissive CORS headers of a
/// personal LAN tool, and the hardening headers.
pub fn response_head(code: &str, content_type: &str, body_len: usize) -> (r: String)
    ensures
        r@ == "HTTP/1.1 "@ + code@ + "\r\nContent-Type: "@ + content_type@
            + "\r\nContent-Length: "@ + dec_rep(body_len as int)
            + "\r\nConnection: close\r\nAccess-Control-Allow-Origin: *\r\nAccess-Control-Allow-Headers: Content-Type, X-Pomodoro-Token\r\nAccess-Control-Allow-Methods: GET, POST, OPTIONS\r\nContent-Security-Policy: default-src 'self'; script-src 'self' 'unsafe-inline'; style-src 'self' 'unsafe-inline'; connect-src 'self'; img-src 'self' data:; font-src 'self' data:; object-src 'none'; base-uri 'none'; frame-ancestors 'none'; form-action 'self'\r\nX-Content-Type-Options: nosniff\r\nX-Frame-Options: DENY\r\nReferrer-Policy: no-referrer\r\nPermissions-Policy: geolocation=(), microphone=(), camera=()\r\n\r\n"@,
{
    let mut r = String::from_str("HTTP/1.1 ");
    r.append(code);
    r.append("\r\nContent-Type: ");
    r.append(content_type);
    r.append("\r\nContent-Length: ");
    let num = u64_to_dec(body_len as u64);
    r.append(num.as_str());
    r.append(
        "\r\nConnection: close\r\nAccess-Control-Allow-Origin: *\r\nAccess-Control-Allow-Headers: Content-Type, X-Pomodoro-Token\r\nAccess-Control-Allow-Methods: GET, POST, OPTIONS\r\nContent-Security-Policy: default-src 'self'; script-src 'self' 'unsafe-inline'; style-src 'self' 'unsafe-inline'; connect-src 'self'; img-src 'self' data:; font-src 'self' data:; object-src 'none'; base-uri 'none'; frame-ancestors 'none'; form-action 'self'\r\nX-Content-Type-Options: nosniff\r\nX-Frame-Options: DENY\r\nReferrer-Policy: no-referrer\r\nPermissions-Policy: geolocation=(), microphone=(), camera=()\r\n\r\n",
    );
    proof {
        assert(r@ =~= "HTTP/1.1 "@ + code@ + "\r\nContent-Type: "@ + content_type@
            + "\r\nContent-Length: "@ + dec_rep(body_len as int)
            + "\r\nConnection: close\r\nAccess-Control-Allow-Origin: *\r\nAccess-Control-Allow-Headers: Content-Type, X-Pomodoro-Token\r\nAccess-Control-Allow-Methods: GET, POST, OPTIONS\r\nContent-Security-Policy: default-src 'self'; script-src 'self' 'unsafe-inline'; style-src 'self' 'unsafe-inline'; connect-src 'self'; img-src 'self' data:; font-src 'self' data:; object-src 'none'; base-uri 'none'; frame-ancestors 'none'; form-action 'self'\r\nX-Content-Type-Options: nosniff\r\nX-Frame-Options: DENY\r\nReferrer-Policy: no-referrer\r\nPermissions-Policy: geolocation=(), microphone=(), camera=()\r\n\r\n"@);
    }
    r
}

} // verus!
