use vstd::prelude::*;
use vstd::string::StringSliceAdditionalSpecFns;

verus! {

/// The bytes of a piece of text, as it is written on the wire.
pub open spec fn text(s: &str) -> Seq<u8> {
    s.spec_bytes()
}

/// Decimal digits of `n`, most significant first, with no leading zeros.
pub open spec fn decimal(n: nat) -> Seq<u8>
    decreases n,
{
    if n < 10 {
        seq![(n + 48) as u8]
    } else {
        decimal(n / 10).push(((n % 10) + 48) as u8)
    }
}

/// The media types that responses are labelled with.
#[derive(Clone, Copy, Debug, PartialEq, Eq, Structural)]
pub enum HttpContentType {
    TextPlain,
    TextHtml,
    ApplicationJson,
    ImagePng,
    ImageJpeg,
    ImageGif,
    ImageWebp,
    TextJavascript,
    TextCSS,
}

/// The name of a media type, as it stands in a `Content-Type` header.
pub open spec fn content_type_name(t: HttpContentType) -> &'static str {
    match t {
        HttpContentType::TextPlain => "text/plain",
        HttpContentType::TextHtml => "text/html",
        HttpContentType::TextJavascript => "text/javascript",
        HttpContentType::TextCSS => "text/css",
        HttpContentType::ApplicationJson => "application/json",
        HttpContentType::ImagePng => "image/png",
        HttpContentType::ImageJpeg => "image/jpeg",
        HttpContentType::ImageGif => "image/gif",
        HttpContentType::ImageWebp => "image/webp",
    }
}

impl HttpContentType {
    pub fn name(&self) -> (r: &'static str)
        ensures
            r == content_type_name(*self),
    {
        match self {
            HttpContentType::TextPlain => "text/plain",
            HttpContentType::TextHtml => "text/html",
            HttpContentType::TextJavascript => "text/javascript",
            HttpContentType::TextCSS => "text/css",
            HttpContentType::ApplicationJson => "application/json",
            HttpContentType::ImagePng => "image/png",
            HttpContentType::ImageJpeg => "image/jpeg",
            HttpContentType::ImageGif => "image/gif",
            HttpContentType::ImageWebp => "image/webp",
        }
    }

    pub fn to_string(&self) -> (r: String)
        ensures
            r@ == content_type_name(*self)@,
    {
        self.name().to_owned()
    }
}


/// Appends `b` to `out`.
pub fn push_bytes(out: &mut Vec<u8>, b: &[u8])
    ensures
        final(out)@ == old(out)@ + b@,
{
    let mut i: usize = 0;
    while i < b.len()
        invariant
            0 <= i <= b@.len(),
            out@ == old(out)@ + b@.subrange(0, i as int),
        decreases b@.len() - i,
    {
        out.push(b[i]);
        proof {
            assert(b@.subrange(0, i as int + 1) == b@.subrange(0, i as int).push(b@[i as int]));
        }
        i = i + 1;
    }
    proof {
        assert(b@.subrange(0, b@.len() as int) == b@);
    }
}

/// Appends the bytes of `s` to `out`.
pub fn push_text(out: &mut Vec<u8>, s: &str)
    ensures
        final(out)@ == old(out)@ + text(s),
{
    push_bytes(out, s.as_bytes());
}

/// Appends the decimal digits of `n` to `out`.
pub fn push_decimal(out: &mut Vec<u8>, n: u64)
    ensures
        final(out)@ == old(out)@ + decimal(n as nat),
    decreases n,
{
    if n < 10 {
        out.push((n as u8) + 48);
        proof {
            assert(old(out)@.push((n + 48) as u8) == old(out)@ + decimal(n as nat));
        }
    } else {
        push_decimal(out, n / 10);
        out.push(((n % 10) as u8) + 48);
        proof {
            let d = decimal((n / 10) as nat);
            assert((old(out)@ + d).push(((n % 10) + 48) as u8) == old(out)@ + d.push(
                ((n % 10) + 48) as u8,
            ));
        }
    }
}

/// The reason phrase that follows a status code on the status line.
pub open spec fn reason_phrase(code: u16) -> &'static str {
    if code == 200 {
        "OK"
    } else if code == 201 {
        "Created"
    } else if code == 204 {
        "No Content"
    } else if code == 400 {
        "Bad Request"
    } else if code == 404 {
        "Not Found"
    } else if code == 405 {
        "Method Not Allowed"
    } else if code == 500 {
        "Internal Server Error"
    } else if 200 <= code <= 299 {
        "Success"
    } else if 300 <= code <= 399 {
        "Redirection"
    } else if 400 <= code <= 499 {
        "Client Error"
    } else if 500 <= code <= 599 {
        "Server Error"
    } else {
        "Unknown Status"
    }
}

pub fn reason_phrase_of(code: u16) -> (r: &'static str)
    ensures
        r == reason_phrase(code),
{
    if code == 200 {
        "OK"
    } else if code == 201 {
        "Created"
    } else if code == 204 {
        "No Content"
    } else if code == 400 {
        "Bad Request"
    } else if code == 404 {
        "Not Found"
    } else if code == 405 {
        "Method Not Allowed"
    } else if code == 500 {
        "Internal Server Error"
    } else if 200 <= code && code <= 299 {
        "Success"
    } else if 300 <= code && code <= 399 {
        "Redirection"
    } else if 400 <= code && code <= 499 {
        "Client Error"
    } else if 500 <= code && code <= 599 {
        "Server Error"
    } else {
        "Unknown Status"
    }
}

/// `HTTP/1.1 <code> <reason>`, without the line terminator.
pub open spec fn status_line(code: u16) -> Seq<u8> {
    text("HTTP/1.1 ") + decimal(code as nat) + text(" ") + text(reason_phrase(code))
}

/// The header block of a response with no body: the status line and an empty line.
pub open spec fn bare_response(code: u16) -> Seq<u8> {
    status_line(code) + text("\r\n") + text("\r\n")
}

/// The header lines after the status line of a response that carries `body`.
pub open spec fn content_headers(content_type: HttpContentType, body: Seq<u8>) -> Seq<u8> {
    text("Content-Type: ") + text(content_type_name(content_type)) + text("\r\n") + text(
        "Content-Length: ",
    ) + decimal(body.len()) + text("\r\n")
}

/// A response with a body: status line, `Content-Type`, `Content-Length`, an empty
/// line, then the body as it is.
pub open spec fn framed_response(code: u16, content_type: HttpContentType, body: Seq<u8>) -> Seq<
    u8,
> {
    status_line(code) + text("\r\n") + content_headers(content_type, body) + text("\r\n") + body
}

/// The generic server error that stands in for a response that lacks its body or type.
pub open spec fn internal_error_response() -> Seq<u8> {
    framed_response(500, HttpContentType::TextPlain, text("Internal Error"))
}

/// Status code, optional body and optional media type of a response.
pub struct HttpResponse {
    pub status_code: u16,
    pub content: Option<Vec<u8>>,
    pub content_type: Option<HttpContentType>,
}

impl HttpResponse {
    /// The body, as a sequence, where there is one.
    pub open spec fn body(&self) -> Option<Seq<u8>> {
        match self.content {
            Some(c) => Some(c@),
            None => None,
        }
    }

    /// The bytes that are written back for this response.
    pub open spec fn wire(&self) -> Seq<u8> {
        if self.status_code == 204 {
            bare_response(self.status_code)
        } else {
            match (self.content, self.content_type) {
                (Some(c), Some(t)) => framed_response(self.status_code, t, c@),
                _ => internal_error_response(),
            }
        }
    }

    pub fn new(status_code: u16, content: Vec<u8>, content_type: HttpContentType) -> (r: Self)
        ensures
            r.status_code == status_code,
            r.body() == Some(content@),
            r.content_type == Some(content_type),
    {
        HttpResponse { status_code, content: Some(content), content_type: Some(content_type) }
    }

    pub fn new_without_content(status_code: u16) -> (r: Self)
        ensures
            r.status_code == status_code,
            r.content is None,
            r.content_type is None,
    {
        HttpResponse { status_code, content: None, content_type: None }
    }

    pub fn server_error_default_response() -> (r: Self)
        ensures
            r.status_code == 500,
            r.body() == Some(text("Internal Error")),
            r.content_type == Some(HttpContentType::TextPlain),
    {
        let mut body: Vec<u8> = Vec::new();
        push_text(&mut body, "Internal Error");
        HttpResponse::new(500, body, HttpContentType::TextPlain)
    }

    pub fn server_error_with_message(msg: &str) -> (r: Self)
        ensures
            r.status_code == 500,
            r.body() == Some(text("Internal Server Error: ") + text(msg)),
            r.content_type == Some(HttpContentType::TextPlain),
    {
        let mut body: Vec<u8> = Vec::new();
        push_text(&mut body, "Internal Server Error: ");
        push_text(&mut body, msg);
        HttpResponse::new(500, body, HttpContentType::TextPlain)
    }

    /// Writes the status line of `code` and its terminator.
    fn push_status_line(out: &mut Vec<u8>, code: u16)
        ensures
            final(out)@ == old(out)@ + status_line(code) + text("\r\n"),
    {
        push_text(out, "HTTP/1.1 ");
        push_decimal(out, code as u64);
        push_text(out, " ");
        push_text(out, reason_phrase_of(code));
        push_text(out, "\r\n");
    }

    fn frame(code: u16, content_type: HttpContentType, body: &[u8]) -> (r: Vec<u8>)
        ensures
            r@ == framed_response(code, content_type, body@),
    {
        let mut out: Vec<u8> = Vec::new();
        Self::push_status_line(&mut out, code);
        push_text(&mut out, "Content-Type: ");
        push_text(&mut out, content_type.name());
        push_text(&mut out, "\r\n");
        push_text(&mut out, "Content-Length: ");
        push_decimal(&mut out, body.len() as u64);
        push_text(&mut out, "\r\n");
        push_text(&mut out, "\r\n");
        push_bytes(&mut out, body);
        proof {
            assert(out@ == framed_response(code, content_type, body@));
        }
        out
    }

    /// The response as it goes on the wire.
    pub fn response_string(self) -> (r: Vec<u8>)
        ensures
            r@ == self.wire(),
    {
        if self.status_code == 204 {
            let mut out: Vec<u8> = Vec::new();
            Self::push_status_line(&mut out, self.status_code);
            push_text(&mut out, "\r\n");
            return out;
        }
        match (self.content, self.content_type) {
            (Some(c), Some(t)) => Self::frame(self.status_code, t, c.as_slice()),
            _ => {
                let mut body: Vec<u8> = Vec::new();
                push_text(&mut body, "Internal Error");
                Self::frame(500, HttpContentType::TextPlain, body.as_slice())
            },
        }
    }
}


/// The body that goes out for a response other than 204: its own, or the generic
/// error's where it lacks its body or its type.
pub open spec fn sent_body(r: HttpResponse) -> Seq<u8> {
    match (r.content, r.content_type) {
        (Some(c), Some(_)) => c@,
        _ => text("Internal Error"),
    }
}

/// Every response other than 204 declares in `Content-Length` exactly the number of
/// body bytes that follow the header block, and those bytes are the body sent.
pub proof fn lemma_content_length_is_body_length(r: HttpResponse)
    requires
        r.status_code != 204,
    ensures
        exists|head: Seq<u8>|
            r.wire() == head + text("Content-Length: ") + decimal(sent_body(r).len()) + text(
                "\r\n",
            ) + text("\r\n") + sent_body(r),
        r.content matches Some(c) ==> r.content_type is Some ==> sent_body(r) == c@,
{
    let (code, t, body) = match (r.content, r.content_type) {
        (Some(c), Some(t)) => (r.status_code, t, c@),
        _ => (500u16, HttpContentType::TextPlain, text("Internal Error")),
    };
    let head = status_line(code) + text("\r\n") + text("Content-Type: ") + text(
        content_type_name(t),
    ) + text("\r\n");
    assert(r.wire() == head + text("Content-Length: ") + decimal(body.len()) + text("\r\n")
        + text("\r\n") + body);
}

/// A 204 response is its status line and an empty line: no `Content-Type`, no
/// `Content-Length`, no body.
pub proof fn lemma_no_content_is_bare(r: HttpResponse)
    requires
        r.status_code == 204,
    ensures
        r.wire() == status_line(204) + text("\r\n") + text("\r\n"),
{
}

} // verus!
