use now_playing::http::{HttpContentType, HttpResponse};

fn wire(r: HttpResponse) -> String {
    String::from_utf8(r.response_string()).unwrap()
}

#[test]
fn content_type_names() {
    assert_eq!(HttpContentType::TextPlain.to_string(), "text/plain");
    assert_eq!(HttpContentType::TextHtml.to_string(), "text/html");
    assert_eq!(HttpContentType::TextJavascript.to_string(), "text/javascript");
    assert_eq!(HttpContentType::TextCSS.to_string(), "text/css");
    assert_eq!(HttpContentType::ApplicationJson.to_string(), "application/json");
    assert_eq!(HttpContentType::ImagePng.to_string(), "image/png");
    assert_eq!(HttpContentType::ImageJpeg.to_string(), "image/jpeg");
    assert_eq!(HttpContentType::ImageGif.to_string(), "image/gif");
    assert_eq!(HttpContentType::ImageWebp.to_string(), "image/webp");
}

#[test]
fn ok_response_is_framed_exactly() {
    let r = HttpResponse::new(200, b"hello".to_vec(), HttpContentType::TextPlain);
    assert_eq!(
        wire(r),
        "HTTP/1.1 200 OK\r\nContent-Type: text/plain\r\nContent-Length: 5\r\n\r\nhello"
    );
}

#[test]
fn content_length_counts_bytes_not_chars() {
    let body = "héllo wörld".as_bytes().to_vec();
    let n = body.len();
    let r = HttpResponse::new(200, body, HttpContentType::ApplicationJson);
    let out = wire(r);
    assert!(out.contains(&format!("Content-Length: {}\r\n", n)));
    assert_eq!(n, 13);
}

#[test]
fn empty_body_has_zero_length() {
    let r = HttpResponse::new(404, Vec::new(), HttpContentType::TextPlain);
    assert_eq!(
        wire(r),
        "HTTP/1.1 404 Not Found\r\nContent-Type: text/plain\r\nContent-Length: 0\r\n\r\n"
    );
}

#[test]
fn binary_body_is_kept_verbatim() {
    let body: Vec<u8> = (0u8..=255).collect();
    let r = HttpResponse::new(200, body.clone(), HttpContentType::ImagePng);
    let out = r.response_string();
    let head = b"HTTP/1.1 200 OK\r\nContent-Type: image/png\r\nContent-Length: 256\r\n\r\n";
    assert_eq!(&out[..head.len()], &head[..]);
    assert_eq!(&out[head.len()..], &body[..]);
}

#[test]
fn no_content_has_only_status_line() {
    let r = HttpResponse::new_without_content(204);
    assert_eq!(wire(r), "HTTP/1.1 204 No Content\r\n\r\n");
}

#[test]
fn no_content_drops_body_and_type() {
    let r = HttpResponse::new(204, b"ignored".to_vec(), HttpContentType::TextHtml);
    assert_eq!(wire(r), "HTTP/1.1 204 No Content\r\n\r\n");
}

#[test]
fn missing_body_degrades_to_internal_error() {
    let expected =
        "HTTP/1.1 500 Internal Server Error\r\nContent-Type: text/plain\r\nContent-Length: 14\r\n\r\nInternal Error";
    assert_eq!(wire(HttpResponse::new_without_content(200)), expected);
    let no_type = HttpResponse { status_code: 200, content: Some(b"x".to_vec()), content_type: None };
    assert_eq!(wire(no_type), expected);
    let no_body =
        HttpResponse { status_code: 404, content: None, content_type: Some(HttpContentType::TextPlain) };
    assert_eq!(wire(no_body), expected);
}

#[test]
fn reason_phrases() {
    let line = |code: u16| {
        let out = wire(HttpResponse::new(code, Vec::new(), HttpContentType::TextPlain));
        out.split("\r\n").next().unwrap().to_string()
    };
    assert_eq!(line(201), "HTTP/1.1 201 Created");
    assert_eq!(line(400), "HTTP/1.1 400 Bad Request");
    assert_eq!(line(405), "HTTP/1.1 405 Method Not Allowed");
    assert_eq!(line(500), "HTTP/1.1 500 Internal Server Error");
    assert_eq!(line(299), "HTTP/1.1 299 Success");
    assert_eq!(line(302), "HTTP/1.1 302 Redirection");
    assert_eq!(line(418), "HTTP/1.1 418 Client Error");
    assert_eq!(line(503), "HTTP/1.1 503 Server Error");
    assert_eq!(line(101), "HTTP/1.1 101 Unknown Status");
    assert_eq!(line(600), "HTTP/1.1 600 Unknown Status");
    assert_eq!(line(0), "HTTP/1.1 0 Unknown Status");
    assert_eq!(line(65535), "HTTP/1.1 65535 Unknown Status");
}

#[test]
fn server_error_responses() {
    let d = HttpResponse::server_error_default_response();
    assert_eq!(d.status_code, 500);
    assert_eq!(d.content.as_deref(), Some(&b"Internal Error"[..]));
    assert_eq!(d.content_type, Some(HttpContentType::TextPlain));
    let m = HttpResponse::server_error_with_message("Template error");
    assert_eq!(m.status_code, 500);
    assert_eq!(m.content.as_deref(), Some(&b"Internal Server Error: Template error"[..]));
}
