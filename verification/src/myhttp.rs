//! Request, response and content-type handling for the server's wire
//! protocol: one request line in, one crafted response out.

use vstd::prelude::*;
use vstd::string::StrSliceExecFns;
use vstd::string::StringExecFns;

verus! {

/// The HTTP status of a response; the server produces no codes besides
/// these five.
#[derive(Clone, Copy, PartialEq, Eq, Debug, Structural)]
pub enum Status {
    Okay,
    BadRequest,
    NotFound,
    MethodNotAllowed,
    InternalServerError,
}

/// The numeric code of a status.
pub open spec fn status_code(s: Status) -> u16 {
    match s {
        Status::Okay => 200,
        Status::BadRequest => 400,
        Status::NotFound => 404,
        Status::MethodNotAllowed => 405,
        Status::InternalServerError => 500,
    }
}

/// The numeric code of a status, written in decimal.
pub open spec fn status_code_chars(s: Status) -> Seq<char> {
    match s {
        Status::Okay => "200"@,
        Status::BadRequest => "400"@,
        Status::NotFound => "404"@,
        Status::MethodNotAllowed => "405"@,
        Status::InternalServerError => "500"@,
    }
}

/// The registered reason phrase of a status, as the wire format prints it
/// after the code.
pub open spec fn status_reason_chars(s: Status) -> Seq<char> {
    match s {
        Status::Okay => "OK"@,
        Status::BadRequest => "Bad Request"@,
        Status::NotFound => "Not Found"@,
        Status::MethodNotAllowed => "Method Not Allowed"@,
        Status::InternalServerError => "Internal Server Error"@,
    }
}

impl Status {
    /// The numeric code of this status.
    pub fn code(&self) -> (r: u16)
        ensures
            r == status_code(*self),
    {
        match *self {
            Status::Okay => 200,
            Status::BadRequest => 400,
            Status::NotFound => 404,
            Status::MethodNotAllowed => 405,
            Status::InternalServerError => 500,
        }
    }

    /// The numeric code of this status, written in decimal.
    pub fn code_str(&self) -> (r: &str)
        ensures
            r@ == status_code_chars(*self),
    {
        match *self {
            Status::Okay => "200",
            Status::BadRequest => "400",
            Status::NotFound => "404",
            Status::MethodNotAllowed => "405",
            Status::InternalServerError => "500",
        }
    }
}

/// Relies on `http::StatusCode::canonical_reason` for the registered reason
/// phrase of a status code number (`http::StatusCode::from_u16` only turns
/// the number into a status code first). The phrases stated here are the
/// entries of that crate's status table for the codes this library produces.
#[verifier::external_body]
fn canonical_reason_of(code: u16) -> (r: Option<String>)
    ensures
        r is None ==> code != 200 && code != 400 && code != 404 && code != 405 && code != 500,
        r matches Some(s) ==> (code == 200 ==> s@ == "OK"@) && (code == 400 ==> s@
            == "Bad Request"@) && (code == 404 ==> s@ == "Not Found"@) && (code == 405 ==> s@
            == "Method Not Allowed"@) && (code == 500 ==> s@ == "Internal Server Error"@),
{
    match http::StatusCode::from_u16(code) {
        Ok(status) => status.canonical_reason().map(|reason| reason.to_string()),
        Err(_) => None,
    }
}

/// Relies on `chrono::Local::now` for the current wall-clock time, read as
/// milliseconds since the Unix epoch; nothing is promised of the value.
#[verifier::external_body]
fn now_millis() -> i64 {
    chrono::Local::now().timestamp_millis()
}

/// The smallest index at or after `from` where `c` occurs in `s`, if any.
pub open spec fn find_char_from(s: Seq<char>, c: char, from: int) -> Option<int>
    decreases s.len() - from when 0 <= from <= s.len()
{
    if from >= s.len() {
        None
    } else if s[from] == c {
        Some(from)
    } else {
        find_char_from(s, c, from + 1)
    }
}

/// What `find_char_from` returns: the first occurrence of `c` at or after
/// `from`, or nothing when no occurrence is left.
pub proof fn lemma_find_char_from(s: Seq<char>, c: char, from: int)
    requires
        0 <= from <= s.len(),
    ensures
        match find_char_from(s, c, from) {
            Some(i) => from <= i < s.len() && s[i] == c && (forall|j: int|
                from <= j < i ==> s[j] != c),
            None => forall|j: int| from <= j < s.len() ==> s[j] != c,
        },
    decreases s.len() - from,
{
    if from < s.len() && s[from] != c {
        lemma_find_char_from(s, c, from + 1);
    }
}

/// The characters this library trims from the version token: ASCII
/// whitespace, including the line terminator that ends the request line.
pub open spec fn is_ws(c: char) -> bool {
    c == ' ' || c == '\t' || c == '\n' || c == '\r' || c == '\u{b}' || c == '\u{c}'
}

/// `s` without its trailing whitespace.
pub open spec fn trim_end_chars(s: Seq<char>) -> Seq<char>
    decreases s.len(),
{
    if s.len() > 0 && is_ws(s[s.len() - 1]) {
        trim_end_chars(s.drop_last())
    } else {
        s
    }
}

/// `s` without its leading whitespace.
pub open spec fn trim_start_chars(s: Seq<char>) -> Seq<char>
    decreases s.len(),
{
    if s.len() > 0 && is_ws(s[0]) {
        trim_start_chars(s.drop_first())
    } else {
        s
    }
}

/// `s` without leading and trailing whitespace.
pub open spec fn trim_chars(s: Seq<char>) -> Seq<char> {
    trim_start_chars(trim_end_chars(s))
}

/// The index of the first space of a request line, or -1 when the line
/// holds none.
pub open spec fn sp1(s: Seq<char>) -> int {
    match find_char_from(s, ' ', 0) {
        Some(i) => i,
        None => -1,
    }
}

/// The index of the second space of a request line, or -1 when the line
/// holds fewer than two.
pub open spec fn sp2(s: Seq<char>) -> int {
    if sp1(s) == -1 {
        -1
    } else {
        match find_char_from(s, ' ', sp1(s) + 1) {
            Some(i) => i,
            None => -1,
        }
    }
}

/// A request line parses exactly when splitting it on spaces yields at
/// least three tokens, that is, when it holds at least two spaces.
pub open spec fn parse_ok(s: Seq<char>) -> bool {
    sp1(s) >= 0 && sp2(s) >= 0
}

/// The method token: everything before the first space.
pub open spec fn spec_method(s: Seq<char>) -> Seq<char>
    recommends
        parse_ok(s),
{
    s.subrange(0, sp1(s))
}

/// The path token: everything between the first and the second space.
pub open spec fn spec_path(s: Seq<char>) -> Seq<char>
    recommends
        parse_ok(s),
{
    s.subrange(sp1(s) + 1, sp2(s))
}

/// The version token before trimming: everything between the second space
/// and the third one, or the rest of the line when no third space exists.
pub open spec fn spec_version_raw(s: Seq<char>) -> Seq<char>
    recommends
        parse_ok(s),
{
    match find_char_from(s, ' ', sp2(s) + 1) {
        Some(i) => s.subrange(sp2(s) + 1, i),
        None => s.subrange(sp2(s) + 1, s.len() as int),
    }
}

/// The version token of a request line, with surrounding whitespace
/// trimmed away.
pub open spec fn spec_version(s: Seq<char>) -> Seq<char>
    recommends
        parse_ok(s),
{
    trim_chars(spec_version_raw(s))
}

/// Whether `c` counts as whitespace for trimming.
fn is_ws_char(c: char) -> (r: bool)
    ensures
        r == is_ws(c),
{
    c == ' ' || c == '\t' || c == '\n' || c == '\r' || c == '\u{b}' || c == '\u{c}'
}

/// Finds the first occurrence of `c` in `s` at or after `from`.
fn find_char_at(s: &str, c: char, from: usize) -> (r: Option<usize>)
    requires
        from <= s@.len(),
    ensures
        match r {
            Some(i) => from <= i && find_char_from(s@, c, from as int) == Some(i as int),
            None => find_char_from(s@, c, from as int) is None,
        },
{
    let len = s.unicode_len();
    let mut i: usize = from;
    while i < len
        invariant
            from <= i <= len,
            len == s@.len(),
            find_char_from(s@, c, from as int) == find_char_from(s@, c, i as int),
        decreases len - i,
    {
        if s.get_char(i) == c {
            return Some(i);
        }
        i = i + 1;
    }
    None
}

/// Copies `s` with leading and trailing whitespace removed.
fn trim_str(s: &str) -> (r: String)
    ensures
        r@ == trim_chars(s@),
{
    let len = s.unicode_len();
    let mut end = len;
    proof {
        assert(s@.subrange(0, len as int) =~= s@);
    }
    while end > 0 && is_ws_char(s.get_char(end - 1))
        invariant
            end <= len,
            len == s@.len(),
            trim_end_chars(s@) == trim_end_chars(s@.subrange(0, end as int)),
        decreases end,
    {
        proof {
            assert(s@.subrange(0, end as int).drop_last() =~= s@.subrange(0, end - 1));
        }
        end = end - 1;
    }
    proof {
        assert(trim_end_chars(s@) == s@.subrange(0, end as int));
    }
    let mut start: usize = 0;
    while start < end && is_ws_char(s.get_char(start))
        invariant
            start <= end <= len,
            len == s@.len(),
            trim_end_chars(s@) == s@.subrange(0, end as int),
            trim_chars(s@) == trim_start_chars(s@.subrange(start as int, end as int)),
        decreases end - start,
    {
        proof {
            assert(s@.subrange(start as int, end as int).drop_first() =~= s@.subrange(
                start + 1,
                end as int,
            ));
        }
        start = start + 1;
    }
    proof {
        assert(trim_chars(s@) == s@.subrange(start as int, end as int));
    }
    s.substring_char(start, end).to_owned()
}

impl Request {
    /// Splits the request line on spaces into method, path and version,
    /// trimming whitespace around the version token, and stamps the result
    /// with the current time. Fails exactly when the line holds fewer than
    /// three space-separated tokens, and never changes the line.
    pub fn parse(request: &mut String) -> (r: Option<Request>)
        ensures
            final(request)@ == old(request)@,
            r is Some <==> parse_ok(old(request)@),
            r matches Some(req) ==> req.method@ == spec_method(old(request)@) && req.path@
                == spec_path(old(request)@) && req.http_version@ == spec_version(old(request)@),
    {
        let line = request.clone();
        let s = line.as_str();
        let len = s.unicode_len();
        let i1 = match find_char_at(s, ' ', 0) {
            Some(i) => i,
            None => {
                return None;
            },
        };
        proof {
            lemma_find_char_from(s@, ' ', 0);
        }
        let i2 = match find_char_at(s, ' ', i1 + 1) {
            Some(i) => i,
            None => {
                return None;
            },
        };
        proof {
            lemma_find_char_from(s@, ' ', i1 + 1);
        }
        let method = s.substring_char(0, i1).to_owned();
        let path = s.substring_char(i1 + 1, i2).to_owned();
        let vend = match find_char_at(s, ' ', i2 + 1) {
            Some(i) => {
                proof {
                    lemma_find_char_from(s@, ' ', i2 + 1);
                }
                i
            },
            None => len,
        };
        let http_version = trim_str(s.substring_char(i2 + 1, vend));
        let time = now_millis();
        Some(Request { http_version, method, path, time })
    }
}

/// A parsed request line together with the wall-clock time, in
/// milliseconds since the Unix epoch, at which it was parsed.
pub struct Request {
    pub http_version: String,
    pub method: String,
    pub path: String,
    pub time: i64,
}

/// A response under construction: its status, the MIME tag of its body,
/// and the body bytes themselves, absent for every non-200 answer.
pub struct Response {
    pub body: Option<Vec<u8>>,
    pub status: Status,
    pub content_type: ContentType,
}

/// The characters of a response's head: the status line, the two fixed
/// headers, and the blank line that ends the head.
pub open spec fn response_head_chars(status: Status, content_type: ContentType) -> Seq<char> {
    "HTTP/1.1 "@ + status_code_chars(status) + " "@ + status_reason_chars(status)
        + "\nAllow: GET\nContent-type: "@ + mime_chars(content_type) + "\n\n"@
}

/// The bytes of a response body; an absent body contributes nothing.
pub open spec fn body_bytes(body: Option<Vec<u8>>) -> Seq<u8> {
    match body {
        Some(b) => b@,
        None => Seq::<u8>::empty(),
    }
}

/// The full wire encoding of a response: the UTF-8 bytes of its head
/// followed by the raw body bytes.
pub open spec fn response_bytes(r: Response) -> Seq<u8> {
    vstd::utf8::encode_utf8(response_head_chars(r.status, r.content_type)) + body_bytes(r.body)
}

/// A served body reaches the wire untouched: the serialized response is its
/// head followed by the body bytes byte for byte, so everything after the
/// head is exactly the body.
pub proof fn lemma_body_served_verbatim(r: Response)
    ensures
        response_bytes(r).subrange(
            vstd::utf8::encode_utf8(response_head_chars(r.status, r.content_type)).len() as int,
            response_bytes(r).len() as int,
        ) =~= body_bytes(r.body),
{
}

impl Response {
    /// A fresh response: status 200, plain text, no body yet.
    pub fn new() -> (r: Response)
        ensures
            r.status == Status::Okay,
            r.body is None,
            r.content_type == ContentType::TEXT,
    {
        Response { body: None, status: Status::Okay, content_type: ContentType::TEXT }
    }

    /// The response to a request line that could not be parsed: status 400
    /// and no body.
    pub fn bad_request() -> (r: Response)
        ensures
            r.status == Status::BadRequest,
            r.body is None,
            r.content_type == ContentType::TEXT,
    {
        let mut response = Response::new();
        response.status = Status::BadRequest;
        response
    }

    /// Serializes the response exactly as the wire format demands: status
    /// line, `Allow` and `Content-type` headers, a blank line, then the
    /// body bytes verbatim.
    pub fn to_bytes(self) -> (r: Vec<u8>)
        ensures
            r@ == response_bytes(self),
    {
        let mut head = String::new();
        head.append("HTTP/1.1 ");
        head.append(self.status.code_str());
        head.append(" ");
        match canonical_reason_of(self.status.code()) {
            Some(reason) => head.append(reason.as_str()),
            None => proof {
                assert(false);
            },
        }
        head.append("\nAllow: GET\nContent-type: ");
        head.append(self.content_type.value());
        head.append("\n\n");
        proof {
            assert(head@ =~= response_head_chars(self.status, self.content_type));
        }
        let mut bytes = head.as_str().as_bytes_vec();
        match self.body {
            Some(mut body) => {
                bytes.append(&mut body);
            },
            None => {},
        }
        proof {
            assert(bytes@ =~= response_bytes(self));
        }
        bytes
    }
}

/// The MIME tag attached to a response body, chosen from the file
/// extension of the resource that was served.
#[derive(Clone, Copy, PartialEq, Eq, Debug, Structural)]
pub enum ContentType {
    TEXT,
    HTML,
    CSS,
    GIF,
    JPEG,
    PNG,
    SVG,
    ICO,
    XML,
    JSON,
}

/// The content type that a file extension maps to; unknown or empty
/// extensions fall back to plain text.
pub open spec fn content_type_of_ext(ext: Seq<char>) -> ContentType {
    if ext == "txt"@ {
        ContentType::TEXT
    } else if ext == "htm"@ || ext == "html"@ {
        ContentType::HTML
    } else if ext == "css"@ {
        ContentType::CSS
    } else if ext == "gif"@ {
        ContentType::GIF
    } else if ext == "jpeg"@ || ext == "jpg"@ {
        ContentType::JPEG
    } else if ext == "png"@ {
        ContentType::PNG
    } else if ext == "svg"@ {
        ContentType::SVG
    } else if ext == "ico"@ {
        ContentType::ICO
    } else if ext == "xml"@ {
        ContentType::XML
    } else if ext == "json"@ {
        ContentType::JSON
    } else {
        ContentType::TEXT
    }
}

/// The canonical MIME string of a content type.
pub open spec fn mime_chars(ct: ContentType) -> Seq<char> {
    match ct {
        ContentType::TEXT => "text/plain"@,
        ContentType::HTML => "text/html"@,
        ContentType::CSS => "text/css"@,
        ContentType::GIF => "image/gif"@,
        ContentType::JPEG => "image/jpeg"@,
        ContentType::PNG => "image/png"@,
        ContentType::SVG => "image/svg+xml"@,
        ContentType::ICO => "image/x-icon"@,
        ContentType::XML => "application/xml"@,
        ContentType::JSON => "application/json"@,
    }
}

impl ContentType {
    /// Maps a file extension to its content type; any extension outside
    /// the fixed table (and the empty extension) yields `TEXT`.
    pub fn from_ext(ext: &str) -> (r: ContentType)
        ensures
            r == content_type_of_ext(ext@),
    {
        if crate::strutil::str_eq(ext, "txt") {
            ContentType::TEXT
        } else if crate::strutil::str_eq(ext, "htm") || crate::strutil::str_eq(ext, "html") {
            ContentType::HTML
        } else if crate::strutil::str_eq(ext, "css") {
            ContentType::CSS
        } else if crate::strutil::str_eq(ext, "gif") {
            ContentType::GIF
        } else if crate::strutil::str_eq(ext, "jpeg") || crate::strutil::str_eq(ext, "jpg") {
            ContentType::JPEG
        } else if crate::strutil::str_eq(ext, "png") {
            ContentType::PNG
        } else if crate::strutil::str_eq(ext, "svg") {
            ContentType::SVG
        } else if crate::strutil::str_eq(ext, "ico") {
            ContentType::ICO
        } else if crate::strutil::str_eq(ext, "xml") {
            ContentType::XML
        } else if crate::strutil::str_eq(ext, "json") {
            ContentType::JSON
        } else {
            ContentType::TEXT
        }
    }

    /// The canonical MIME string for this content type, always ASCII.
    pub fn value(&self) -> (r: &str)
        ensures
            r@ == mime_chars(*self),
            r.is_ascii(),
    {
        proof {
            reveal_strlit("text/plain");
            reveal_strlit("text/html");
            reveal_strlit("text/css");
            reveal_strlit("image/gif");
            reveal_strlit("image/jpeg");
            reveal_strlit("image/png");
            reveal_strlit("image/svg+xml");
            reveal_strlit("image/x-icon");
            reveal_strlit("application/xml");
            reveal_strlit("application/json");
        }
        match *self {
            ContentType::TEXT => "text/plain",
            ContentType::HTML => "text/html",
            ContentType::CSS => "text/css",
            ContentType::GIF => "image/gif",
            ContentType::JPEG => "image/jpeg",
            ContentType::PNG => "image/png",
            ContentType::SVG => "image/svg+xml",
            ContentType::ICO => "image/x-icon",
            ContentType::XML => "application/xml",
            ContentType::JSON => "application/json",
        }
    }
}

} // verus!
