//! A minimal static-file web server library.
//!
//! The library holds the verified core of the server: request-line parsing,
//! route resolution, response construction and serialization, and the
//! bookkeeping state machine of a fixed-size worker pool. Reading from
//! sockets and from disk is left to the surrounding program, which feeds
//! the results back in as plain values.

pub mod myhttp;
pub mod pool;
pub mod strutil;

use vstd::prelude::*;
use vstd::string::StrSliceExecFns;
use vstd::string::StringExecFns;

use crate::myhttp::ContentType;
use crate::myhttp::Request;
use crate::myhttp::Response;
use crate::myhttp::Status;
use crate::myhttp::content_type_of_ext;
use crate::myhttp::parse_ok;
use crate::myhttp::spec_method;
use crate::myhttp::spec_path;

verus! {

/// What a file read came back with: the file's bytes, or the failure
/// classes the server distinguishes. The surrounding program performs the
/// read and reports its outcome in this form.
pub enum FileOutcome {
    Contents(Vec<u8>),
    NotFound,
    PermissionDenied,
    OtherError,
}

/// What the server must do next for one request: send a finished response,
/// or read the file at the given filesystem path and answer from its
/// outcome.
pub enum Plan {
    Done(Response),
    Read(String),
}

/// The route a request path maps to: `/` is rewritten to `/index.html`,
/// every other path is used verbatim.
pub open spec fn resolved_route(path: Seq<char>) -> Seq<char> {
    if path == "/"@ {
        "/index.html"@
    } else {
        path
    }
}

/// The filesystem path a request path is served from: the document root
/// followed by the resolved route, concatenated verbatim.
pub open spec fn composed_path(root: Seq<char>, path: Seq<char>) -> Seq<char> {
    root + resolved_route(path)
}

/// The largest index where `c` occurs in `s`, if any.
pub open spec fn rfind_char(s: Seq<char>, c: char) -> Option<int>
    decreases s.len(),
{
    if s.len() == 0 {
        None
    } else if s[s.len() - 1] == c {
        Some(s.len() - 1)
    } else {
        rfind_char(s.drop_last(), c)
    }
}

/// What `rfind_char` returns: the last occurrence of `c`, or nothing when
/// `s` holds none.
pub proof fn lemma_rfind_char(s: Seq<char>, c: char)
    ensures
        match rfind_char(s, c) {
            Some(i) => 0 <= i < s.len() && s[i] == c && (forall|j: int|
                i < j < s.len() ==> s[j] != c),
            None => forall|j: int| 0 <= j < s.len() ==> s[j] != c,
        },
    decreases s.len(),
{
    if s.len() > 0 && s[s.len() - 1] != c {
        lemma_rfind_char(s.drop_last(), c);
        assert(forall|j: int| 0 <= j < s.len() - 1 ==> s.drop_last()[j] == s[j]);
    }
}

/// The extension of a filesystem path: everything after the last dot, or
/// nothing when the path holds no dot.
pub open spec fn ext_of(path: Seq<char>) -> Seq<char> {
    match rfind_char(path, '.') {
        Some(i) => path.subrange(i + 1, path.len() as int),
        None => Seq::<char>::empty(),
    }
}

/// Finds the last occurrence of `c` in `s`.
fn rfind_char_at(s: &str, c: char) -> (r: Option<usize>)
    ensures
        match r {
            Some(i) => rfind_char(s@, c) == Some(i as int),
            None => rfind_char(s@, c) is None,
        },
{
    let len = s.unicode_len();
    let mut i = len;
    proof {
        assert(s@.subrange(0, len as int) =~= s@);
    }
    while i > 0
        invariant
            i <= len,
            len == s@.len(),
            rfind_char(s@, c) == rfind_char(s@.subrange(0, i as int), c),
        decreases i,
    {
        if s.get_char(i - 1) == c {
            return Some(i - 1);
        }
        proof {
            assert(s@.subrange(0, i as int).drop_last() =~= s@.subrange(0, i - 1));
        }
        i = i - 1;
    }
    None
}

/// Maps a request path to the filesystem path it is served from, under the
/// given document root.
pub fn resolve_route(root: &str, path: &str) -> (r: String)
    ensures
        r@ == composed_path(root@, path@),
{
    let mut composed = root.to_owned();
    if crate::strutil::str_eq(path, "/") {
        composed.append("/index.html");
    } else {
        composed.append(path);
    }
    composed
}

/// Decides a parsed request: any method other than `GET` is answered 405
/// with no body on the spot; a `GET` asks for the file at the composed
/// path under the document root.
pub fn plan_response(root: &str, request: &Request) -> (p: Plan)
    ensures
        request.method@ != "GET"@ ==> (p matches Plan::Done(resp) && resp.status
            == Status::MethodNotAllowed && resp.body is None && resp.content_type
            == ContentType::TEXT),
        request.method@ == "GET"@ ==> (p matches Plan::Read(fs_path) && fs_path@
            == composed_path(root@, request.path@)),
{
    if !crate::strutil::str_eq(request.method.as_str(), "GET") {
        let mut response = Response::new();
        response.status = Status::MethodNotAllowed;
        Plan::Done(response)
    } else {
        Plan::Read(resolve_route(root, request.path.as_str()))
    }
}

/// Builds the response for a file read at `fs_path`: the file's bytes are
/// served verbatim with status 200 and the content type of the path's
/// extension; a missing or unreadable file is answered 404, any other
/// failure 500, both with no body.
pub fn file_response(fs_path: &str, outcome: FileOutcome) -> (r: Response)
    ensures
        outcome matches FileOutcome::Contents(contents) ==> r.status == Status::Okay && (
        r.body matches Some(b) && b@ == contents@) && r.content_type == content_type_of_ext(
            ext_of(fs_path@),
        ),
        outcome is NotFound || outcome is PermissionDenied ==> r.status == Status::NotFound
            && r.body is None && r.content_type == ContentType::TEXT,
        outcome is OtherError ==> r.status == Status::InternalServerError && r.body is None
            && r.content_type == ContentType::TEXT,
{
    let mut response = Response::new();
    match outcome {
        FileOutcome::Contents(contents) => {
            response.body = Some(contents);
            let len = fs_path.unicode_len();
            let content_type = match rfind_char_at(fs_path, '.') {
                Some(i) => {
                    proof {
                        lemma_rfind_char(fs_path@, '.');
                    }
                    ContentType::from_ext(fs_path.substring_char(i + 1, len))
                },
                None => ContentType::from_ext(""),
            };
            proof {
                reveal_strlit("");
                assert(""@ =~= Seq::<char>::empty());
            }
            response.content_type = content_type;
        },
        FileOutcome::NotFound => {
            response.status = Status::NotFound;
        },
        FileOutcome::PermissionDenied => {
            response.status = Status::NotFound;
        },
        FileOutcome::OtherError => {
            response.status = Status::InternalServerError;
        },
    }
    response
}

/// Decides one raw request line end to end: a line that does not parse is
/// answered 400 with no body at once; otherwise the parsed request is
/// planned as `plan_response` says. The line itself is left unchanged.
pub fn handle_request_line(root: &str, line: &mut String) -> (p: Plan)
    ensures
        final(line)@ == old(line)@,
        !parse_ok(old(line)@) ==> (p matches Plan::Done(resp) && resp.status == Status::BadRequest
            && resp.body is None && resp.content_type == ContentType::TEXT),
        parse_ok(old(line)@) && spec_method(old(line)@) != "GET"@ ==> (p matches Plan::Done(resp)
            && resp.status == Status::MethodNotAllowed && resp.body is None && resp.content_type
            == ContentType::TEXT),
        parse_ok(old(line)@) && spec_method(old(line)@) == "GET"@ ==> (p matches Plan::Read(fs_path)
            && fs_path@ == composed_path(root@, spec_path(old(line)@))),
{
    match Request::parse(line) {
        Some(request) => plan_response(root, &request),
        None => Plan::Done(Response::bad_request()),
    }
}

} // verus!
