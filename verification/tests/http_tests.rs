use server::myhttp::ContentType;
use server::myhttp::Request;
use server::myhttp::Response;
use server::myhttp::Status;

#[test]
fn parse_well_formed_line() {
    let mut line = String::from("GET /path HTTP/1.1\n");
    let req = Request::parse(&mut line).unwrap();
    assert_eq!(req.method, "GET");
    assert_eq!(req.path, "/path");
    assert_eq!(req.http_version, "HTTP/1.1");
    assert_eq!(line, "GET /path HTTP/1.1\n");
}

#[test]
fn parse_trims_crlf_from_version() {
    let mut line = String::from("GET / HTTP/1.1\r\n");
    let req = Request::parse(&mut line).unwrap();
    assert_eq!(req.http_version, "HTTP/1.1");
}

#[test]
fn parse_takes_first_three_tokens() {
    let mut line = String::from("GET /x HTTP/1.1 trailing junk\n");
    let req = Request::parse(&mut line).unwrap();
    assert_eq!(req.method, "GET");
    assert_eq!(req.path, "/x");
    assert_eq!(req.http_version, "HTTP/1.1");
}

#[test]
fn parse_short_line_fails() {
    let mut one_token = String::from("GET\n");
    assert!(Request::parse(&mut one_token).is_none());
    let mut two_tokens = String::from("GET /\n");
    assert!(Request::parse(&mut two_tokens).is_none());
    let mut empty = String::new();
    assert!(Request::parse(&mut empty).is_none());
}

#[test]
fn parse_splits_on_every_single_space() {
    let mut line = String::from("GET  /x HTTP/1.1\n");
    let req = Request::parse(&mut line).unwrap();
    assert_eq!(req.method, "GET");
    assert_eq!(req.path, "");
    assert_eq!(req.http_version, "/x");
}

#[test]
fn status_codes() {
    assert_eq!(Status::Okay.code(), 200);
    assert_eq!(Status::BadRequest.code(), 400);
    assert_eq!(Status::NotFound.code(), 404);
    assert_eq!(Status::MethodNotAllowed.code(), 405);
    assert_eq!(Status::InternalServerError.code(), 500);
}

#[test]
fn content_type_table() {
    assert_eq!(ContentType::from_ext("css"), ContentType::CSS);
    assert_eq!(ContentType::from_ext("json"), ContentType::JSON);
    assert_eq!(ContentType::from_ext("htm"), ContentType::HTML);
    assert_eq!(ContentType::from_ext("html"), ContentType::HTML);
    assert_eq!(ContentType::from_ext("jpg"), ContentType::JPEG);
    assert_eq!(ContentType::from_ext("jpeg"), ContentType::JPEG);
    assert_eq!(ContentType::from_ext("txt"), ContentType::TEXT);
    assert_eq!(ContentType::from_ext("gif"), ContentType::GIF);
    assert_eq!(ContentType::from_ext("png"), ContentType::PNG);
    assert_eq!(ContentType::from_ext("svg"), ContentType::SVG);
    assert_eq!(ContentType::from_ext("ico"), ContentType::ICO);
    assert_eq!(ContentType::from_ext("xml"), ContentType::XML);
}

#[test]
fn unknown_extension_is_plain_text() {
    assert_eq!(ContentType::from_ext(""), ContentType::TEXT);
    assert_eq!(ContentType::from_ext("weird"), ContentType::TEXT);
    assert_eq!(ContentType::from_ext("CSS"), ContentType::TEXT);
}

#[test]
fn mime_strings() {
    assert_eq!(ContentType::CSS.value(), "text/css");
    assert_eq!(ContentType::JSON.value(), "application/json");
    assert_eq!(ContentType::TEXT.value(), "text/plain");
    assert_eq!(ContentType::HTML.value(), "text/html");
    assert_eq!(ContentType::SVG.value(), "image/svg+xml");
    assert_eq!(ContentType::ICO.value(), "image/x-icon");
    assert_eq!(ContentType::XML.value(), "application/xml");
    assert_eq!(ContentType::GIF.value(), "image/gif");
    assert_eq!(ContentType::JPEG.value(), "image/jpeg");
    assert_eq!(ContentType::PNG.value(), "image/png");
}

#[test]
fn bad_request_serializes_with_no_body() {
    let bytes = Response::bad_request().to_bytes();
    let expected: &[u8] = b"HTTP/1.1 400 Bad Request\nAllow: GET\nContent-type: text/plain\n\n";
    assert_eq!(bytes, expected.to_vec());
}

#[test]
fn ok_response_serializes_head_then_body() {
    let mut response = Response::new();
    response.body = Some(vec![1, 2, 3]);
    let bytes = response.to_bytes();
    let head: &[u8] = b"HTTP/1.1 200 OK\nAllow: GET\nContent-type: text/plain\n\n";
    assert_eq!(&bytes[..head.len()], head);
    assert_eq!(&bytes[head.len()..], &[1, 2, 3]);
}

#[test]
fn each_status_serializes_its_reason() {
    let mut response = Response::new();
    response.status = Status::NotFound;
    let bytes = response.to_bytes();
    assert!(bytes.starts_with(b"HTTP/1.1 404 Not Found\n"));

    let mut response = Response::new();
    response.status = Status::MethodNotAllowed;
    let bytes = response.to_bytes();
    assert!(bytes.starts_with(b"HTTP/1.1 405 Method Not Allowed\n"));

    let mut response = Response::new();
    response.status = Status::InternalServerError;
    let bytes = response.to_bytes();
    assert!(bytes.starts_with(b"HTTP/1.1 500 Internal Server Error\n"));
}
