//! The message side of a minimal HTTP/1.1 GET: URL parsing, the request
//! text, reading the response head and cutting out the body.
//!
//! The socket work (connect, write, read until the head and then the body
//! are in) is done by the caller; it asks [`find_header_end`],
//! [`response_head`] and [`wants_more`] what it has and what it still needs.
//!
//! The body is delimited by `Content-Length` where the server sends one,
//! and only by EOF where it does not: Volumio does not always close the
//! socket promptly.

use vstd::prelude::*;
use vstd::utf8::{decode_utf8, valid_utf8};
use crate::text::{
    chars_of, eq_in, eq_lower, lines, lower_seq, next_line, next_word, parse_u64_in,
    parse_unsigned, push_slice, push_str, string_from, trim, trim_range, words,
};

verus! {

broadcast use vstd::string::group_string_axioms;

#[verifier::external_type_specification]
#[verifier::external_body]
pub struct ExIoError(std::io::Error);

/// Errors a request can produce.
#[derive(Debug)]
pub enum HttpError {
    /// The URL was not a plain `http://host[:port]/path`; carries the URL.
    Url(String),
    /// The host did not resolve; carries the authority.
    Resolve(String),
    /// Socket-level failure.
    Io(std::io::Error),
    /// Response was not valid HTTP, or the status line was missing.
    Response,
    /// Server returned a status outside 200 to 299.
    Status(u16),
}

/// A parsed `http://host:port/path`.
pub struct Target {
    /// Host and port; the port is always present.
    pub authority: String,
    /// Path and query, starting with `/`.
    pub path: String,
}

/// Length of the prefix of `s` before the first `c`, or `s.len()`.
pub open spec fn before(s: Seq<char>, c: char) -> nat
    decreases s.len(),
{
    if s.len() > 0 && s[0] != c {
        1 + before(s.drop_first(), c)
    } else {
        0
    }
}

proof fn lemma_before(s: Seq<char>, c: char, k: int)
    requires
        0 <= k <= s.len(),
        forall|i: int| 0 <= i < k ==> #[trigger] s[i] != c,
        k == s.len() || s[k] == c,
    ensures
        before(s, c) == k,
    decreases k,
{
    if k > 0 {
        let t = s.drop_first();
        assert forall|i: int| 0 <= i < k - 1 implies #[trigger] t[i] != c by {
            assert(t[i] == s[i + 1]);
        }
        if k < s.len() {
            assert(t[k - 1] == s[k]);
        }
        lemma_before(t, c, k - 1);
    }
}

pub open spec fn has_char(s: Seq<char>, c: char) -> bool {
    exists|i: int| 0 <= i < s.len() && #[trigger] s[i] == c
}

/// The authority and path of an `http://` URL, or `None` when it is not
/// one: the scheme must be exactly `http://` and the host part non-empty.
/// The path is everything from the first `/` after the scheme, `/` when
/// there is none; an authority without a `:` gets `:80`.
pub open spec fn url_parts(url: Seq<char>) -> Option<(Seq<char>, Seq<char>)> {
    let scheme = "http://"@;
    if url.len() < scheme.len() || url.take(scheme.len() as int) != scheme {
        None
    } else {
        let rest = url.skip(scheme.len() as int);
        let i = before(rest, '/');
        let authority = rest.take(i as int);
        let path = if i < rest.len() {
            rest.skip(i as int)
        } else {
            "/"@
        };
        if authority.len() == 0 {
            None
        } else if has_char(authority, ':') {
            Some((authority, path))
        } else {
            Some((authority + ":80"@, path))
        }
    }
}

/// Split `url` into authority and path.
pub fn parse(url: &str) -> (r: Result<Target, HttpError>)
    ensures
        match url_parts(url@) {
            Some((a, p)) => r matches Ok(t) && t.authority@ == a && t.path@ == p,
            None => r matches Err(HttpError::Url(u)) && u@ == url@,
        },
{
    let v = chars_of(url);
    let scheme = chars_of("http://");
    let n = scheme.len();
    if v.len() < n || !eq_in(&v, 0, n, &scheme) {
        proof {
            if v@.len() >= n {
                assert(v@.take(n as int) =~= v@.subrange(0, n as int));
            }
        }
        return Err(HttpError::Url(url.to_string()));
    }
    assert(v@.take(n as int) =~= v@.subrange(0, n as int));
    let ghost rest = v@.skip(n as int);
    let mut i = n;
    while i < v.len() && v[i] != '/'
        invariant
            n <= i <= v@.len(),
            rest == v@.skip(n as int),
            forall|j: int| n <= j < i ==> #[trigger] v@[j] != '/',
        decreases v@.len() - i,
    {
        i = i + 1;
    }
    proof {
        assert forall|j: int| 0 <= j < i - n implies #[trigger] rest[j] != '/' by {
            assert(rest[j] == v@[n + j]);
        }
        if i < v@.len() {
            assert(rest[i - n] == v@[i as int]);
        }
        lemma_before(rest, '/', i - n);
    }
    if i == n {
        assert(rest.take(0).len() == 0);
        return Err(HttpError::Url(url.to_string()));
    }
    let mut auth: Vec<char> = Vec::new();
    push_slice(&mut auth, &v, n, i);
    assert(auth@ =~= rest.take(i - n));
    let mut path: Vec<char> = Vec::new();
    if i < v.len() {
        push_slice(&mut path, &v, i, v.len());
        assert(path@ =~= rest.skip(i - n));
    } else {
        push_str(&mut path, "/");
    }
    let mut k: usize = 0;
    let mut colon = false;
    while k < auth.len()
        invariant
            k <= auth@.len(),
            colon == exists|j: int| 0 <= j < k && #[trigger] auth@[j] == ':',
        decreases auth@.len() - k,
    {
        if auth[k] == ':' {
            colon = true;
        }
        k = k + 1;
    }
    if !colon {
        push_str(&mut auth, ":80");
    }
    Ok(Target { authority: string_from(&auth), path: string_from(&path) })
}

/// The request sent for `target`. The Host header carries the authority as
/// given, including the port.
pub open spec fn request_text(authority: Seq<char>, path: Seq<char>) -> Seq<char> {
    "GET "@ + path + " HTTP/1.1\r\nHost: "@ + authority
        + "\r\nUser-Agent: waveshare28-panel\r\nAccept: application/json\r\nConnection: close\r\n\r\n"@
}

impl Target {
    pub fn request(&self) -> (s: String)
        ensures
            s@ == request_text(self.authority@, self.path@),
    {
        let mut out: Vec<char> = Vec::new();
        push_str(&mut out, "GET ");
        push_str(&mut out, self.path.as_str());
        push_str(&mut out, " HTTP/1.1\r\nHost: ");
        push_str(&mut out, self.authority.as_str());
        push_str(
            &mut out,
            "\r\nUser-Agent: waveshare28-panel\r\nAccept: application/json\r\nConnection: close\r\n\r\n",
        );
        string_from(&out)
    }
}

pub open spec fn is_crlfcrlf_at(raw: Seq<u8>, i: int) -> bool {
    &&& 0 <= i
    &&& i + 4 <= raw.len()
    &&& raw[i] == 13
    &&& raw[i + 1] == 10
    &&& raw[i + 2] == 13
    &&& raw[i + 3] == 10
}

/// Index of the CRLFCRLF that ends the header block: the first one.
pub fn find_header_end(raw: &[u8]) -> (r: Option<usize>)
    ensures
        r matches Some(i) ==> is_crlfcrlf_at(raw@, i as int) && forall|j: int|
            0 <= j < i ==> !is_crlfcrlf_at(raw@, j),
        r is None ==> forall|j: int| 0 <= j < raw@.len() ==> !is_crlfcrlf_at(raw@, j),
{
    if raw.len() < 4 {
        return None;
    }
    let mut i: usize = 0;
    while i <= raw.len() - 4
        invariant
            forall|j: int| 0 <= j < i ==> !is_crlfcrlf_at(raw@, j),
            raw@.len() >= 4,
            i <= raw@.len() - 3,
        decreases raw@.len() - i,
    {
        if raw[i] == 13 && raw[i + 1] == 10 && raw[i + 2] == 13 && raw[i + 3] == 10 {
            return Some(i);
        }
        i = i + 1;
    }
    None
}

/// `std::str::from_utf8` on the first `n` bytes: the text when they are
/// valid UTF-8.
#[verifier::external_body]
fn utf8_prefix(bytes: &[u8], n: usize) -> (r: Option<&str>)
    requires
        n <= bytes@.len(),
    ensures
        r is Some <==> valid_utf8(bytes@.take(n as int)),
        r matches Some(s) ==> s@ == decode_utf8(bytes@.take(n as int)),
{
    std::str::from_utf8(&bytes[..n]).ok()
}

/// The status code: the second word of the first line, as a `u16`.
pub open spec fn status_of(head: Seq<char>) -> Option<u16> {
    let ls = lines(head);
    if ls.len() == 0 {
        None
    } else {
        let ws = words(ls[0]);
        if ws.len() < 2 {
            None
        } else {
            match parse_unsigned(ws[1]) {
                Some(n) => if n <= u16::MAX {
                    Some(n as u16)
                } else {
                    None
                },
                None => None,
            }
        }
    }
}

/// Whether a header line names `Content-Length`, ignoring ASCII case and
/// the whitespace around the name.
pub open spec fn names_length(line: Seq<char>) -> bool {
    let k = before(line, ':');
    k < line.len() && lower_seq(trim(line.take(k as int))) == "content-length"@
}

/// The value text of a header line: what follows the first `:`, trimmed.
pub open spec fn value_of(line: Seq<char>) -> Seq<char> {
    trim(line.skip(before(line, ':') as int + 1))
}

/// First line at or after position `k` of `ls` that names the length.
pub open spec fn first_length_line(ls: Seq<Seq<char>>, k: int) -> Option<int>
    decreases ls.len() - k,
{
    if k >= ls.len() || k < 0 {
        None
    } else if names_length(ls[k]) {
        Some(k)
    } else {
        first_length_line(ls, k + 1)
    }
}

/// `Content-Length` from a header block: the value of the first line after
/// the status line that names it, when that value is an unsigned integer
/// that fits a `usize`.
pub open spec fn length_of(head: Seq<char>) -> Option<usize> {
    let ls = lines(head);
    match first_length_line(ls, 1) {
        Some(k) => match parse_unsigned(value_of(ls[k])) {
            Some(n) => if n <= usize::MAX {
                Some(n as usize)
            } else {
                None
            },
            None => None,
        },
        None => None,
    }
}

/// Parse the status code out of a header block.
pub fn status_code(head: &str) -> (r: Result<u16, HttpError>)
    ensures
        match status_of(head@) {
            Some(c) => r matches Ok(x) && x == c,
            None => r matches Err(HttpError::Response),
        },
{
    let v = chars_of(head);
    if v.len() == 0 {
        assert(lines(v@).len() == 0);
        return Err(HttpError::Response);
    }
    let (a, b, _next) = next_line(&v, 0);
    assert(v@.skip(0) =~= v@);
    let ghost line = v@.subrange(a as int, b as int);
    assert(lines(v@)[0] == line);
    let mut line_v: Vec<char> = Vec::new();
    push_slice(&mut line_v, &v, a, b);
    assert(line_v@ =~= line);
    assert(line_v@.skip(0) =~= line_v@);
    let first = next_word(&line_v, 0);
    match first {
        None => {
            return Err(HttpError::Response);
        },
        Some((_a1, b1)) => {
            let second = next_word(&line_v, b1);
            match second {
                None => {
                    return Err(HttpError::Response);
                },
                Some((a2, b2)) => {
                    assert(words(line_v@)[1] == line_v@.subrange(a2 as int, b2 as int));
                    match parse_u64_in(&line_v, a2, b2) {
                        Some(n) if n <= 65535 => Ok(n as u16),
                        _ => Err(HttpError::Response),
                    }
                },
            }
        },
    }
}

/// Content-Length from a header block, if present and parseable.
pub fn content_length(head: &str) -> (r: Option<usize>)
    ensures
        r == length_of(head@),
{
    let v = chars_of(head);
    let ghost ls = lines(v@);
    if v.len() == 0 {
        assert(ls.len() == 0);
        return None;
    }
    assert(v@.skip(0) =~= v@);
    let (_a0, _b0, mut pos) = next_line(&v, 0);
    let ghost mut k: int = 1;
    let key = chars_of("content-length");
    while pos < v.len()
        invariant
            0 < pos <= v@.len(),
            1 <= k <= ls.len(),
            ls == lines(v@),
            v@ == head@,
            key@ == "content-length"@,
            lines(v@.skip(pos as int)) == ls.skip(k),
            first_length_line(ls, 1) == first_length_line(ls, k),
        decreases v@.len() - pos,
    {
        let (a, b, next) = next_line(&v, pos);
        let ghost line = v@.subrange(a as int, b as int);
        assert((seq![line] + lines(v@.skip(next as int)))[0] == line);
        assert(ls.skip(k).len() >= 1);
        assert(ls.skip(k)[0] == line);
        assert(ls[k] == line);
        // Find the colon.
        let mut c = a;
        while c < b && v[c] != ':'
            invariant
                a <= c <= b <= v@.len(),
                forall|j: int| a <= j < c ==> #[trigger] v@[j] != ':',
            decreases b - c,
        {
            c = c + 1;
        }
        proof {
            assert forall|j: int| 0 <= j < c - a implies #[trigger] line[j] != ':' by {
                assert(line[j] == v@[a + j]);
            }
            if c < b {
                assert(line[c - a] == v@[c as int]);
            }
            lemma_before(line, ':', c - a);
        }
        if c < b {
            let (na, nb) = trim_range(&v, a, c);
            assert(line.take(c - a) =~= v@.subrange(a as int, c as int));
            if eq_lower(&v, na, nb, &key) {
                let (va, vb) = trim_range(&v, c + 1, b);
                assert(line.skip(c - a + 1) =~= v@.subrange(c + 1, b as int));
                assert(first_length_line(ls, k) == Some(k));
                let p = parse_u64_in(&v, va, vb);
                assert(value_of(ls[k]) == v@.subrange(va as int, vb as int));
                return match p {
                    Some(n) => if n <= usize::MAX as u64 {
                        Some(n as usize)
                    } else {
                        None
                    },
                    None => None,
                };
            }
        }
        assert(!names_length(ls[k]));
        assert(ls.skip(k + 1) =~= ls.skip(k).drop_first());
        proof {
            k = k + 1;
        }
        pos = next;
    }
    assert(v@.skip(pos as int).len() == 0);
    assert(ls.skip(k).len() == 0);
    assert(first_length_line(ls, k) is None);
    None
}

/// What a response head says: the status code, the announced body length,
/// and where the body starts.
#[derive(Debug, Clone, Copy, PartialEq, Eq, Structural)]
pub struct Head {
    pub code: u16,
    pub content_length: Option<usize>,
    pub body_start: usize,
}

/// Read the head of a response whose header block ends at `header_end`
/// (the position of its CRLFCRLF): it must be UTF-8 and carry a status line.
pub fn response_head(raw: &[u8], header_end: usize) -> (r: Result<Head, HttpError>)
    requires
        header_end + 4 <= raw@.len(),
    ensures
        match r {
            Ok(h) => {
                let bytes = raw@.take(header_end as int);
                &&& valid_utf8(bytes)
                &&& status_of(decode_utf8(bytes)) == Some(h.code)
                &&& h.content_length == length_of(decode_utf8(bytes))
                &&& h.body_start == header_end + 4
            },
            Err(e) => {
                &&& e is Response
                &&& (!valid_utf8(raw@.take(header_end as int)) || status_of(
                    decode_utf8(raw@.take(header_end as int)),
                ) is None)
            },
        },
{
    let head = match utf8_prefix(raw, header_end) {
        Some(h) => h,
        None => {
            return Err(HttpError::Response);
        },
    };
    let code = match status_code(head) {
        Ok(c) => c,
        Err(_) => {
            return Err(HttpError::Response);
        },
    };
    let want = content_length(head);
    let n = raw.len();
    assert(header_end + 4 <= n);
    Ok(Head { code, content_length: want, body_start: header_end + 4 })
}

/// Whether more body is owed: with a length, until `raw_len` reaches the
/// body's end; without one, until EOF, which the caller reads to anyway.
pub fn wants_more(head: &Head, raw_len: usize) -> (b: bool)
    requires
        head.content_length matches Some(len) ==> head.body_start + len <= usize::MAX,
    ensures
        b == match head.content_length {
            Some(len) => raw_len < head.body_start + len,
            None => false,
        },
{
    match head.content_length {
        Some(len) => raw_len < head.body_start + len,
        None => false,
    }
}

/// The body once the response has been read: an error for a status outside
/// 200 to 299, else the bytes from the body start to the announced end, or
/// to the end of what arrived when that is shorter or no length was sent.
pub fn body_of(raw: &[u8], head: &Head) -> (r: Result<Vec<u8>, HttpError>)
    requires
        head.body_start <= raw@.len(),
        head.content_length matches Some(len) ==> head.body_start + len <= usize::MAX,
    ensures
        !(200 <= head.code < 300) ==> (r matches Err(HttpError::Status(c)) && c == head.code),
        200 <= head.code < 300 ==> (r matches Ok(body) && body@ == raw@.subrange(
            head.body_start as int,
            match head.content_length {
                Some(len) => if head.body_start + len < raw@.len() {
                    head.body_start + len
                } else {
                    raw@.len() as int
                },
                None => raw@.len() as int,
            },
        )),
{
    if !(200 <= head.code && head.code < 300) {
        return Err(HttpError::Status(head.code));
    }
    let end = match head.content_length {
        Some(len) => if head.body_start + len < raw.len() {
            head.body_start + len
        } else {
            raw.len()
        },
        None => raw.len(),
    };
    let mut out: Vec<u8> = Vec::new();
    let mut i = head.body_start;
    while i < end
        invariant
            head.body_start <= i <= end <= raw@.len(),
            out@ == raw@.subrange(head.body_start as int, i as int),
        decreases end - i,
    {
        out.push(raw[i]);
        i = i + 1;
        assert(out@ =~= raw@.subrange(head.body_start as int, i as int));
    }
    Ok(out)
}

} // verus!
