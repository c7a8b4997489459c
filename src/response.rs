//! Response framing: content types, the file response with its fallback
//! page, and the fixed responses.
//!
//! File bytes are sent verbatim, without any text decoding on the way.
use vstd::prelude::*;
use vstd::string::StringSliceAdditionalSpecFns;
use crate::bytes::{has_prefix, has_suffix, ends_with, append, lemma_prefix_extend};
use crate::request::{Route, RouteView};

verus! {

pub const STATUS_OK: &'static str = "HTTP/1.1 200 OK";

pub const CRLF: &'static str = "\r\n";

pub const CONTENT_TYPE_FIELD: &'static str = "Content-Type: ";

pub const CSS_SUFFIX: &'static str = ".css";

pub const JS_SUFFIX: &'static str = ".js";

pub const CSS_TYPE: &'static str = "text/css";

pub const JS_TYPE: &'static str = "application/javascript";

pub const HTML_TYPE: &'static str = "text/html";

/// File served in place of one that cannot be read.
pub const FALLBACK_PATH: &'static str = "public/404.html";

/// Body sent when the fallback file cannot be read either.
pub const NOT_FOUND_BODY: &'static str = "404 Not Found";

pub const ABOUT_BODY: &'static str = "<html><head><title>About</title></head><body><h1>About Us</h1><p>This server is powered by Rust.</p></body></html>";

/// Response to a request of which nothing was received.
pub const SERVER_ERROR: &'static str = "HTTP/1.1 500 Internal Server Error\r\n\r\n500 Internal Server Error";

/// The content type announced for `path`, from its suffix alone.
pub open spec fn content_type_of(path: Seq<u8>) -> Seq<u8> {
    if has_suffix(path, CSS_SUFFIX.spec_bytes()) {
        CSS_TYPE.spec_bytes()
    } else if has_suffix(path, JS_SUFFIX.spec_bytes()) {
        JS_TYPE.spec_bytes()
    } else {
        HTML_TYPE.spec_bytes()
    }
}

/// Status line and `Content-Type` header of a successful response, with the
/// blank line that ends the head.
pub open spec fn head_of(content_type: Seq<u8>) -> Seq<u8> {
    STATUS_OK.spec_bytes() + CRLF.spec_bytes() + CONTENT_TYPE_FIELD.spec_bytes() + content_type
        + CRLF.spec_bytes() + CRLF.spec_bytes()
}

/// The response that serves `content` as the file at `path`.
pub open spec fn file_response_of(path: Seq<u8>, content: Seq<u8>) -> Seq<u8> {
    head_of(content_type_of(path)) + content
}

pub open spec fn about_response_of() -> Seq<u8> {
    head_of(HTML_TYPE.spec_bytes()) + ABOUT_BODY.spec_bytes()
}

pub open spec fn not_found_response_of() -> Seq<u8> {
    head_of(HTML_TYPE.spec_bytes()) + NOT_FOUND_BODY.spec_bytes()
}

/// The response for the file at `path`, given what reading it gave
/// (`primary`) and what reading the fallback file gave (`fallback`); `None`
/// stands for a failed read. The fallback is consulted once, and a built-in
/// page ends the lookup. Every outcome carries the status `200 OK`, also
/// when the file was missing. This is a known defect, kept deliberately: no
/// `404 Not Found` status line is ever sent.
pub open spec fn resolved_of(path: Seq<u8>, primary: Option<Seq<u8>>, fallback: Option<Seq<u8>>) -> Seq<u8> {
    match primary {
        Some(c) => file_response_of(path, c),
        None => match fallback {
            Some(f) => file_response_of(FALLBACK_PATH.spec_bytes(), f),
            None => not_found_response_of(),
        },
    }
}

/// The response for `route`, with the outcomes of the file reads as in `resolved_of`.
pub open spec fn response_of(route: RouteView, primary: Option<Seq<u8>>, fallback: Option<Seq<u8>>) -> Seq<u8> {
    match route {
        RouteView::Empty => SERVER_ERROR.spec_bytes(),
        RouteView::About => about_response_of(),
        RouteView::File(p) => resolved_of(p, primary, fallback),
    }
}

pub open spec fn bytes_view(o: Option<&[u8]>) -> Option<Seq<u8>> {
    match o {
        Some(c) => Some(c@),
        None => None,
    }
}

/// Returns the content type announced for `path`: `text/css` for a `.css`
/// suffix, `application/javascript` for a `.js` suffix, `text/html` otherwise.
pub fn content_type(path: &[u8]) -> (r: &'static [u8])
    ensures
        r@ == content_type_of(path@),
        has_suffix(path@, CSS_SUFFIX.spec_bytes()) ==> r@ == CSS_TYPE.spec_bytes(),
        has_suffix(path@, JS_SUFFIX.spec_bytes()) ==> r@ == JS_TYPE.spec_bytes(),
        !has_suffix(path@, CSS_SUFFIX.spec_bytes()) && !has_suffix(path@, JS_SUFFIX.spec_bytes())
            ==> r@ == HTML_TYPE.spec_bytes(),
{
    proof {
        lemma_suffixes_exclusive(path@);
    }
    if ends_with(path, CSS_SUFFIX.as_bytes()) {
        CSS_TYPE.as_bytes()
    } else if ends_with(path, JS_SUFFIX.as_bytes()) {
        JS_TYPE.as_bytes()
    } else {
        HTML_TYPE.as_bytes()
    }
}

/// No path ends in both `.css` and `.js`.
pub proof fn lemma_suffixes_exclusive(path: Seq<u8>)
    ensures
        !(has_suffix(path, CSS_SUFFIX.spec_bytes()) && has_suffix(path, JS_SUFFIX.spec_bytes())),
{
    reveal_strlit(".css");
    reveal_strlit(".js");
    vstd::string::is_ascii_spec_bytes(CSS_SUFFIX);
    vstd::string::is_ascii_spec_bytes(JS_SUFFIX);
    if has_suffix(path, CSS_SUFFIX.spec_bytes()) && has_suffix(path, JS_SUFFIX.spec_bytes()) {
        let n = path.len() as int;
        assert(path.subrange(n - 4, n)[1] == path[n - 3]);
        assert(path.subrange(n - 3, n)[0] == path[n - 3]);
    }
}

/// Returns a fresh vector holding the bytes of `s`.
fn owned_bytes(s: &str) -> (r: Vec<u8>)
    ensures
        r@ == s.spec_bytes(),
{
    let mut r: Vec<u8> = Vec::new();
    append(&mut r, s.as_bytes());
    r
}

/// Returns the head of a successful response announcing `content_type`.
pub fn head(content_type: &[u8]) -> (r: Vec<u8>)
    ensures
        r@ == head_of(content_type@),
        has_prefix(r@, STATUS_OK.spec_bytes()),
{
    let mut r = owned_bytes(STATUS_OK);
    append(&mut r, CRLF.as_bytes());
    append(&mut r, CONTENT_TYPE_FIELD.as_bytes());
    append(&mut r, content_type);
    append(&mut r, CRLF.as_bytes());
    append(&mut r, CRLF.as_bytes());
    proof {
        lemma_head_status(content_type@);
    }
    r
}

/// Every successful head starts with the status line `HTTP/1.1 200 OK`.
pub proof fn lemma_head_status(content_type: Seq<u8>)
    ensures
        has_prefix(head_of(content_type), STATUS_OK.spec_bytes()),
{
    let s = STATUS_OK.spec_bytes();
    let h = head_of(content_type);
    assert(h.subrange(0, s.len() as int) =~= s);
}

/// Returns the response that serves `content` as the file at `path`.
pub fn file_response(path: &[u8], content: &[u8]) -> (r: Vec<u8>)
    ensures
        r@ == file_response_of(path@, content@),
        has_prefix(r@, STATUS_OK.spec_bytes()),
{
    let mut r = head(content_type(path));
    proof {
        lemma_prefix_extend(r@, STATUS_OK.spec_bytes(), content@);
    }
    append(&mut r, content);
    r
}

/// Returns the built-in About page.
pub fn about_response() -> (r: Vec<u8>)
    ensures
        r@ == about_response_of(),
{
    let mut r = head(HTML_TYPE.as_bytes());
    append(&mut r, ABOUT_BODY.as_bytes());
    r
}

/// Returns the internal-error response sent for an empty request.
pub fn server_error() -> (r: Vec<u8>)
    ensures
        r@ == SERVER_ERROR.spec_bytes(),
{
    owned_bytes(SERVER_ERROR)
}

/// Returns the response for the file at `path`, given the outcome of reading
/// it and, where that failed, of reading the fallback file.
pub fn resolve(path: &[u8], primary: Option<&[u8]>, fallback: Option<&[u8]>) -> (r: Vec<u8>)
    ensures
        r@ == resolved_of(path@, bytes_view(primary), bytes_view(fallback)),
        has_prefix(r@, STATUS_OK.spec_bytes()),
{
    match primary {
        Some(c) => file_response(path, c),
        None => match fallback {
            Some(f) => file_response(FALLBACK_PATH.as_bytes(), f),
            None => {
                let mut r = head(HTML_TYPE.as_bytes());
                proof {
                    lemma_prefix_extend(r@, STATUS_OK.spec_bytes(), NOT_FOUND_BODY.spec_bytes());
                }
                append(&mut r, NOT_FOUND_BODY.as_bytes());
                r
            },
        },
    }
}

/// Returns the response for `route`, given the outcomes of the file reads
/// as `resolve` takes them; they are not looked at for the other routes.
pub fn respond(route: &Route, primary: Option<&[u8]>, fallback: Option<&[u8]>) -> (r: Vec<u8>)
    ensures
        r@ == response_of(route@, bytes_view(primary), bytes_view(fallback)),
{
    match route {
        Route::Empty => server_error(),
        Route::About => about_response(),
        Route::File(p) => resolve(p.as_slice(), primary, fallback),
    }
}

} // verus!
