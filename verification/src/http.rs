//! The pure part of the HTTP layer: request methods, response values and
//! their builders, splitting a request target into path and query,
//! percent-decoding, and the content type a file extension maps to. The
//! socket handling around these lives outside the library.

use vstd::prelude::*;

use crate::bytes::{bytes_text, chars_string, str_chars, sub_vec, text_of};
use crate::keeparser::{lemma_find_byte_bounds, spec_find_byte};
use crate::keys::{spec_split, split_bytes};
use vstd::string::StringSliceAdditionalSpecFns;

verus! {

/// An HTTP request method.
#[derive(Debug, Clone, Copy, PartialEq, Eq, Structural)]
pub enum Method {
    GET,
    POST,
    PUT,
    DELETE,
    OPTIONS,
    HEAD,
    PATCH,
}

/// The method a raw token names, if any.
pub open spec fn spec_method_of(b: Seq<u8>) -> Option<Method> {
    if b == "GET".spec_bytes() {
        Some(Method::GET)
    } else if b == "POST".spec_bytes() {
        Some(Method::POST)
    } else if b == "PUT".spec_bytes() {
        Some(Method::PUT)
    } else if b == "DELETE".spec_bytes() {
        Some(Method::DELETE)
    } else if b == "OPTIONS".spec_bytes() {
        Some(Method::OPTIONS)
    } else if b == "HEAD".spec_bytes() {
        Some(Method::HEAD)
    } else if b == "PATCH".spec_bytes() {
        Some(Method::PATCH)
    } else {
        None
    }
}

impl Method {
    /// Recognizes a raw method token, as `spec_method_of` describes.
    pub fn from_bytes(bytes: &[u8]) -> (r: Option<Method>)
        ensures
            r == spec_method_of(bytes@),
    {
        if crate::resolver::bytes_eq(bytes, "GET".as_bytes()) {
            Some(Method::GET)
        } else if crate::resolver::bytes_eq(bytes, "POST".as_bytes()) {
            Some(Method::POST)
        } else if crate::resolver::bytes_eq(bytes, "PUT".as_bytes()) {
            Some(Method::PUT)
        } else if crate::resolver::bytes_eq(bytes, "DELETE".as_bytes()) {
            Some(Method::DELETE)
        } else if crate::resolver::bytes_eq(bytes, "OPTIONS".as_bytes()) {
            Some(Method::OPTIONS)
        } else if crate::resolver::bytes_eq(bytes, "HEAD".as_bytes()) {
            Some(Method::HEAD)
        } else if crate::resolver::bytes_eq(bytes, "PATCH".as_bytes()) {
            Some(Method::PATCH)
        } else {
            None
        }
    }
}

/// A parsed request: its method, decoded path, body text, and the header
/// and query pairs in arrival order.
#[derive(Debug, PartialEq, Eq)]
pub struct Request {
    pub method: Method,
    pub path: String,
    pub body: String,
    pub headers: Vec<(String, String)>,
    pub query: Vec<(String, String)>,
}

/// A response value; owned and borrowed text variants carry the same
/// kinds of payload.
#[derive(Debug, PartialEq, Eq)]
pub enum Response {
    Json(&'static str),
    JsonOwned(String),
    Text(&'static str),
    TextOwned(String),
    Html(&'static str),
    HtmlOwned(String),
    File(Vec<u8>, &'static str),
    Status(u16, &'static str),
}

impl Response {
    pub fn json(data: &'static str) -> (r: Response)
        ensures
            r == Response::Json(data),
    {
        Response::Json(data)
    }

    pub fn json_owned(data: String) -> (r: Response)
        ensures
            r == Response::JsonOwned(data),
    {
        Response::JsonOwned(data)
    }

    pub fn text(data: &'static str) -> (r: Response)
        ensures
            r == Response::Text(data),
    {
        Response::Text(data)
    }

    pub fn text_owned(data: String) -> (r: Response)
        ensures
            r == Response::TextOwned(data),
    {
        Response::TextOwned(data)
    }

    pub fn html(data: &'static str) -> (r: Response)
        ensures
            r == Response::Html(data),
    {
        Response::Html(data)
    }

    pub fn html_owned(data: String) -> (r: Response)
        ensures
            r == Response::HtmlOwned(data),
    {
        Response::HtmlOwned(data)
    }

    pub fn status(code: u16, message: &'static str) -> (r: Response)
        ensures
            r == Response::Status(code, message),
    {
        Response::Status(code, message)
    }

    pub fn not_found() -> (r: Response)
        ensures
            r == Response::Status(404, "Not Found"),
    {
        Response::Status(404, "Not Found")
    }

    pub fn bad_request() -> (r: Response)
        ensures
            r == Response::Status(400, "Bad Request"),
    {
        Response::Status(400, "Bad Request")
    }

    pub fn internal_error() -> (r: Response)
        ensures
            r == Response::Status(500, "Internal Server Error"),
    {
        Response::Status(500, "Internal Server Error")
    }
}

/// An ASCII hex digit.
pub open spec fn is_hex_digit(c: char) -> bool {
    ('0' <= c && c <= '9') || ('a' <= c && c <= 'f') || ('A' <= c && c <= 'F')
}

/// The value of one hex digit.
pub open spec fn hex_val(c: char) -> int {
    if '0' <= c && c <= '9' {
        c as int - '0' as int
    } else if 'a' <= c && c <= 'f' {
        c as int - 'a' as int + 10
    } else if 'A' <= c && c <= 'F' {
        c as int - 'A' as int + 10
    } else {
        0
    }
}

/// The byte two characters after a `%` stand for, where they parse as a
/// hex number: two hex digits, or a leading plus sign before one digit.
pub open spec fn spec_hex_pair(c1: char, c2: char) -> Option<u8> {
    if c1 == '+' && is_hex_digit(c2) {
        Some(hex_val(c2) as u8)
    } else if is_hex_digit(c1) && is_hex_digit(c2) {
        Some((hex_val(c1) * 16 + hex_val(c2)) as u8)
    } else {
        None
    }
}

/// Percent-decoding of `s`: `%` followed by a two-character hex number
/// becomes that byte's character, a `%` not followed by one is kept with
/// the characters after it, and `+` becomes a space.
pub open spec fn spec_url_decode(s: Seq<char>) -> Seq<char>
    decreases s.len(),
{
    if s.len() == 0 {
        Seq::<char>::empty()
    } else if s[0] == '%' {
        let taken = if s.len() >= 3 {
            2int
        } else {
            s.len() - 1
        };
        if taken == 2 && spec_hex_pair(s[1], s[2]) is Some {
            seq![spec_hex_pair(s[1], s[2])->Some_0 as char] + spec_url_decode(s.skip(3))
        } else {
            seq!['%'] + s.subrange(1, 1 + taken) + spec_url_decode(s.skip(1 + taken))
        }
    } else if s[0] == '+' {
        seq![' '] + spec_url_decode(s.skip(1))
    } else {
        seq![s[0]] + spec_url_decode(s.skip(1))
    }
}

/// Whether `c` is a hex digit, as `is_hex_digit` describes.
fn is_hex_c(c: char) -> (r: bool)
    ensures
        r == is_hex_digit(c),
{
    ('0' <= c && c <= '9') || ('a' <= c && c <= 'f') || ('A' <= c && c <= 'F')
}

/// The value of one hex digit, as `hex_val` describes.
fn hex_val_c(c: char) -> (r: u8)
    requires
        is_hex_digit(c),
    ensures
        r == hex_val(c),
{
    if '0' <= c && c <= '9' {
        (c as u8) - 48
    } else if 'a' <= c && c <= 'f' {
        (c as u8) - 97 + 10
    } else {
        (c as u8) - 65 + 10
    }
}

/// Percent-decodes a string, as `spec_url_decode` describes.
pub fn url_decode(s: &str) -> (r: String)
    ensures
        r@ == spec_url_decode(s@),
{
    let cs = str_chars(s);
    let ghost whole = s@;
    let mut out: Vec<char> = Vec::new();
    let mut i: usize = 0;
    proof {
        assert(whole.skip(0) =~= whole);
        assert(out@ + spec_url_decode(whole.skip(0)) =~= spec_url_decode(whole));
    }
    while i < cs.len()
        invariant
            i <= cs@.len(),
            cs@ == whole,
            out@ + spec_url_decode(whole.skip(i as int)) == spec_url_decode(whole),
        decreases cs@.len() - i,
    {
        let ghost rem = whole.skip(i as int);
        let ghost out0 = out@;
        let c = cs[i];
        proof {
            assert(rem[0] == whole[i as int]);
        }
        if c == '%' {
            let avail = cs.len() - i - 1;
            if avail >= 2 {
                let c1 = cs[i + 1];
                let c2 = cs[i + 2];
                proof {
                    assert(rem.len() >= 3);
                    assert(rem[1] == whole[i + 1]);
                    assert(rem[2] == whole[i + 2]);
                }
                let pair: Option<u8> = if c1 == '+' && is_hex_c(c2) {
                    Some(hex_val_c(c2))
                } else if is_hex_c(c1) && is_hex_c(c2) {
                    Some(hex_val_c(c1) * 16 + hex_val_c(c2))
                } else {
                    None
                };
                match pair {
                    Some(b) => {
                        out.push(b as char);
                        i = i + 3;
                        proof {
                            assert(rem.skip(3) =~= whole.skip(i as int));
                            assert(out@ =~= out0 + seq![b as char]);
                            assert(out@ + spec_url_decode(whole.skip(i as int))
                                =~= spec_url_decode(whole));
                        }
                    },
                    None => {
                        out.push('%');
                        out.push(c1);
                        out.push(c2);
                        i = i + 3;
                        proof {
                            assert(rem.skip(3) =~= whole.skip(i as int));
                            assert(rem.subrange(1, 3) =~= seq![c1, c2]);
                            assert(out@ =~= out0 + (seq!['%'] + rem.subrange(1, 3)));
                            assert(out@ + spec_url_decode(whole.skip(i as int))
                                =~= spec_url_decode(whole));
                        }
                    },
                }
            } else {
                // fewer than two characters follow the `%`: keep them all
                out.push('%');
                let taken = avail;
                if taken == 1 {
                    out.push(cs[i + 1]);
                }
                i = cs.len();
                proof {
                    assert(rem.len() - 1 == taken);
                    assert(rem.subrange(1, 1 + taken as int) =~= whole.subrange(
                        i as int - taken as int,
                        i as int,
                    ));
                    assert(whole.skip(i as int) =~= Seq::<char>::empty());
                    assert(rem.skip(1 + taken as int) =~= Seq::<char>::empty());
                    assert(out@ =~= out0 + (seq!['%'] + rem.subrange(1, 1 + taken as int)));
                    assert(out@ + spec_url_decode(whole.skip(i as int)) =~= spec_url_decode(
                        whole,
                    ));
                }
            }
        } else if c == '+' {
            out.push(' ');
            i = i + 1;
            proof {
                assert(rem.skip(1) =~= whole.skip(i as int));
                assert(out@ =~= out0 + seq![' ']);
                assert(out@ + spec_url_decode(whole.skip(i as int)) =~= spec_url_decode(whole));
            }
        } else {
            out.push(c);
            i = i + 1;
            proof {
                assert(rem.skip(1) =~= whole.skip(i as int));
                assert(out@ =~= out0 + seq![c]);
                assert(out@ + spec_url_decode(whole.skip(i as int)) =~= spec_url_decode(whole));
            }
        }
    }
    proof {
        assert(whole.skip(i as int) =~= Seq::<char>::empty());
        assert(out@ + Seq::<char>::empty() =~= out@);
    }
    chars_string(out)
}

/// One `key=value` pair of a query string: the text before the first `=`
/// and the text after it, both percent-decoded; without `=` the value is
/// empty.
pub open spec fn spec_query_pair(p: Seq<u8>) -> (Seq<char>, Seq<char>) {
    match spec_find_byte(p, 61, 0) {
        Some(j) => (
            spec_url_decode(text_of(p.subrange(0, j))),
            spec_url_decode(text_of(p.subrange(j + 1, p.len() as int))),
        ),
        None => (spec_url_decode(text_of(p)), spec_url_decode(Seq::<char>::empty())),
    }
}

/// The decoded pairs of a query string, split at `&`, in order.
pub open spec fn spec_parse_query(s: Seq<u8>) -> Seq<(Seq<char>, Seq<char>)> {
    spec_split(s, 38).map_values(|p: Seq<u8>| spec_query_pair(p))
}

/// Parses a query string into decoded pairs, as `spec_parse_query`
/// describes.
pub fn parse_query(query_str: &str) -> (r: Vec<(String, String)>)
    ensures
        r@.map_values(|p: (String, String)| (p.0@, p.1@)) == spec_parse_query(
            query_str.spec_bytes(),
        ),
{
    let bytes = query_str.as_bytes_vec();
    parse_query_bytes(bytes.as_slice())
}

/// Parses the raw bytes of a query string, as `spec_parse_query`
/// describes.
fn parse_query_bytes(bytes: &[u8]) -> (r: Vec<(String, String)>)
    ensures
        r@.map_values(|p: (String, String)| (p.0@, p.1@)) == spec_parse_query(bytes@),
{
    let ghost s = bytes@;
    let parts = split_bytes(bytes, 38);
    let ghost gparts = spec_split(s, 38);
    let mut out: Vec<(String, String)> = Vec::new();
    let mut i: usize = 0;
    proof {
        assert(out@.map_values(|p: (String, String)| (p.0@, p.1@)) =~= gparts.take(0).map_values(
            |p: Seq<u8>| spec_query_pair(p),
        ));
    }
    while i < parts.len()
        invariant
            i <= parts@.len(),
            parts@.map_values(|v: Vec<u8>| v@) == gparts,
            out@.map_values(|p: (String, String)| (p.0@, p.1@)) == gparts.take(i as int).map_values(
                |p: Seq<u8>| spec_query_pair(p),
            ),
        decreases parts@.len() - i,
    {
        let ghost pre = out@.map_values(|p: (String, String)| (p.0@, p.1@));
        let part = &parts[i];
        proof {
            assert(part@ == gparts[i as int]);
            lemma_find_byte_bounds(part@, 61, 0);
        }
        let mut j: usize = 0;
        let mut found = false;
        while j < part.len() && !found
            invariant
                j <= part@.len(),
                found ==> j < part@.len() && spec_find_byte(part@, 61, 0) == Some(j as int),
                !found ==> spec_find_byte(part@, 61, 0) == spec_find_byte(part@, 61, j as int),
            decreases part@.len() - j, (if found { 0int } else { 1int }),
        {
            if part[j] == 61 {
                found = true;
                assert(spec_find_byte(part@, 61, j as int) == Some(j as int));
            } else {
                j = j + 1;
            }
        }
        let pair: (String, String);
        if found {
            let key_raw = bytes_text(sub_vec(part.as_slice(), 0, j));
            let val_raw = bytes_text(sub_vec(part.as_slice(), j + 1, part.len()));
            pair = (url_decode(key_raw.as_str()), url_decode(val_raw.as_str()));
        } else {
            assert(spec_find_byte(part@, 61, j as int) is None);
            let key_raw = bytes_text(sub_vec(part.as_slice(), 0, part.len()));
            proof {
                assert(part@.subrange(0, part@.len() as int) =~= part@);
            }
            let empty_val = String::new();
            pair = (url_decode(key_raw.as_str()), url_decode(empty_val.as_str()));
        }
        out.push(pair);
        i = i + 1;
        proof {
            assert(out@.map_values(|p: (String, String)| (p.0@, p.1@)) =~= pre.push(
                spec_query_pair(gparts[i - 1]),
            ));
            assert(gparts.take(i as int).map_values(|p: Seq<u8>| spec_query_pair(p)) =~= pre.push(
                spec_query_pair(gparts[i - 1]),
            ));
        }
    }
    proof {
        assert(gparts.take(i as int) =~= gparts);
    }
    out
}

/// Splits a request target at its first `?`: the raw path, and the
/// decoded query pairs after it; a target without `?` has no query.
pub open spec fn spec_path_and_query(s: Seq<u8>) -> (Seq<char>, Seq<(Seq<char>, Seq<char>)>) {
    match spec_find_byte(s, 63, 0) {
        Some(j) => (
            text_of(s.subrange(0, j)),
            spec_parse_query(s.subrange(j + 1, s.len() as int)),
        ),
        None => (text_of(s), Seq::<(Seq<char>, Seq<char>)>::empty()),
    }
}

/// Splits a request target into path and decoded query pairs, as
/// `spec_path_and_query` describes.
pub fn parse_path_and_query(full_path: &str) -> (r: (String, Vec<(String, String)>))
    ensures
        ({
            let (p, q) = spec_path_and_query(full_path.spec_bytes());
            r.0@ == p && r.1@.map_values(|x: (String, String)| (x.0@, x.1@)) == q
        }),
{
    let bytes = full_path.as_bytes_vec();
    let ghost s = full_path.spec_bytes();
    proof {
        lemma_find_byte_bounds(s, 63, 0);
    }
    let mut j: usize = 0;
    let mut found = false;
    while j < bytes.len() && !found
        invariant
            j <= s.len(),
            bytes@ == s,
            found ==> j < s.len() && spec_find_byte(s, 63, 0) == Some(j as int),
            !found ==> spec_find_byte(s, 63, 0) == spec_find_byte(s, 63, j as int),
        decreases s.len() - j, (if found { 0int } else { 1int }),
    {
        if bytes[j] == 63 {
            found = true;
            assert(spec_find_byte(s, 63, j as int) == Some(j as int));
        } else {
            j = j + 1;
        }
    }
    if found {
        let path = bytes_text(sub_vec(bytes.as_slice(), 0, j));
        let tail = sub_vec(bytes.as_slice(), j + 1, bytes.len());
        let query = parse_query_bytes(tail.as_slice());
        (path, query)
    } else {
        assert(spec_find_byte(s, 63, j as int) is None);
        let path = bytes_text(sub_vec(bytes.as_slice(), 0, bytes.len()));
        proof {
            assert(s.subrange(0, s.len() as int) =~= s);
        }
        (path, Vec::new())
    }
}

/// The content type served for a file extension; unknown extensions are
/// served as raw bytes.
pub open spec fn spec_content_type(ext: Seq<u8>) -> Seq<char> {
    if ext == "html".spec_bytes() {
        "text/html; charset=utf-8"@
    } else if ext == "css".spec_bytes() {
        "text/css; charset=utf-8"@
    } else if ext == "js".spec_bytes() {
        "application/javascript; charset=utf-8"@
    } else if ext == "json".spec_bytes() {
        "application/json; charset=utf-8"@
    } else if ext == "png".spec_bytes() {
        "image/png"@
    } else if ext == "jpg".spec_bytes() || ext == "jpeg".spec_bytes() {
        "image/jpeg"@
    } else if ext == "gif".spec_bytes() {
        "image/gif"@
    } else if ext == "svg".spec_bytes() {
        "image/svg+xml"@
    } else if ext == "webp".spec_bytes() {
        "image/webp"@
    } else if ext == "ico".spec_bytes() {
        "image/x-icon"@
    } else if ext == "woff".spec_bytes() {
        "font/woff"@
    } else if ext == "woff2".spec_bytes() {
        "font/woff2"@
    } else if ext == "ttf".spec_bytes() {
        "font/ttf"@
    } else if ext == "mp4".spec_bytes() {
        "video/mp4"@
    } else if ext == "webm".spec_bytes() {
        "video/webm"@
    } else if ext == "pdf".spec_bytes() {
        "application/pdf"@
    } else if ext == "txt".spec_bytes() {
        "text/plain; charset=utf-8"@
    } else {
        "application/octet-stream"@
    }
}

/// Maps a file extension to its content type, as `spec_content_type`
/// describes.
pub fn get_content_type(ext: &str) -> (r: &'static str)
    ensures
        r@ == spec_content_type(ext.spec_bytes()),
{
    let b = ext.as_bytes();
    if crate::resolver::bytes_eq(b, "html".as_bytes()) {
        "text/html; charset=utf-8"
    } else if crate::resolver::bytes_eq(b, "css".as_bytes()) {
        "text/css; charset=utf-8"
    } else if crate::resolver::bytes_eq(b, "js".as_bytes()) {
        "application/javascript; charset=utf-8"
    } else if crate::resolver::bytes_eq(b, "json".as_bytes()) {
        "application/json; charset=utf-8"
    } else if crate::resolver::bytes_eq(b, "png".as_bytes()) {
        "image/png"
    } else if crate::resolver::bytes_eq(b, "jpg".as_bytes()) || crate::resolver::bytes_eq(
        b,
        "jpeg".as_bytes(),
    ) {
        "image/jpeg"
    } else if crate::resolver::bytes_eq(b, "gif".as_bytes()) {
        "image/gif"
    } else if crate::resolver::bytes_eq(b, "svg".as_bytes()) {
        "image/svg+xml"
    } else if crate::resolver::bytes_eq(b, "webp".as_bytes()) {
        "image/webp"
    } else if crate::resolver::bytes_eq(b, "ico".as_bytes()) {
        "image/x-icon"
    } else if crate::resolver::bytes_eq(b, "woff".as_bytes()) {
        "font/woff"
    } else if crate::resolver::bytes_eq(b, "woff2".as_bytes()) {
        "font/woff2"
    } else if crate::resolver::bytes_eq(b, "ttf".as_bytes()) {
        "font/ttf"
    } else if crate::resolver::bytes_eq(b, "mp4".as_bytes()) {
        "video/mp4"
    } else if crate::resolver::bytes_eq(b, "webm".as_bytes()) {
        "video/webm"
    } else if crate::resolver::bytes_eq(b, "pdf".as_bytes()) {
        "application/pdf"
    } else if crate::resolver::bytes_eq(b, "txt".as_bytes()) {
        "text/plain; charset=utf-8"
    } else {
        "application/octet-stream"
    }
}

/// One header line: the text before the first colon, trimmed and
/// ASCII-lowercased, and the text after it, trimmed; a line without a
/// colon carries no header.
pub open spec fn spec_header_line(line: Seq<u8>) -> Option<(Seq<char>, Seq<char>)> {
    match spec_find_byte(line, 58, 0) {
        Some(p) => Some(
            (
                text_of(crate::keys::spec_lower(crate::keeparser::spec_trim(line.subrange(0, p)))),
                text_of(crate::keeparser::spec_trim(line.subrange(p + 1, line.len() as int))),
            ),
        ),
        None => None,
    }
}

/// Parses one header line into its lowercased name and its value, as
/// `spec_header_line` describes.
pub fn parse_header_line(line: &str) -> (r: Option<(String, String)>)
    ensures
        match r {
            Some(h) => spec_header_line(line.spec_bytes()) == Some((h.0@, h.1@)),
            None => spec_header_line(line.spec_bytes()) is None,
        },
{
    let bytes = line.as_bytes();
    let ghost s = line.spec_bytes();
    proof {
        lemma_find_byte_bounds(s, 58, 0);
    }
    let mut j: usize = 0;
    let mut found = false;
    while j < bytes.len() && !found
        invariant
            j <= s.len(),
            bytes@ == s,
            found ==> j < s.len() && spec_find_byte(s, 58, 0) == Some(j as int),
            !found ==> spec_find_byte(s, 58, 0) == spec_find_byte(s, 58, j as int),
        decreases s.len() - j, (if found { 0int } else { 1int }),
    {
        if bytes[j] == 58 {
            found = true;
            assert(spec_find_byte(s, 58, j as int) == Some(j as int));
        } else {
            j = j + 1;
        }
    }
    if !found {
        assert(spec_find_byte(s, 58, j as int) is None);
        return None;
    }
    let key_raw = crate::keeparser::trim_bytes(sub_vec(bytes, 0, j).as_slice());
    let key = bytes_text(crate::keys::lower_bytes(&key_raw));
    let value = bytes_text(
        crate::keeparser::trim_bytes(sub_vec(bytes, j + 1, bytes.len()).as_slice()),
    );
    Some((key, value))
}

} // verus!
