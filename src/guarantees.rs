//! What a request is answered with, stated over whole requests.
use vstd::prelude::*;
use vstd::string::StringSliceAdditionalSpecFns;
use crate::bytes::{has_prefix, has_suffix};
use crate::request::{first_line, newline_from, route_of, RouteView, INDEX_LINE, ABOUT_LINE, INDEX_PATH};
use crate::response::{
    content_type_of, head_of, file_response_of, about_response_of, response_of,
    lemma_head_status, STATUS_OK, HTML_TYPE, CSS_SUFFIX, JS_SUFFIX, FALLBACK_PATH, SERVER_ERROR,
};

verus! {

/// Paths that end in `.html` are announced as `text/html`.
proof fn lemma_html_type(path: &str)
    requires
        path == INDEX_PATH || path == FALLBACK_PATH,
    ensures
        content_type_of(path.spec_bytes()) == HTML_TYPE.spec_bytes(),
{
    reveal_strlit("public/index.html");
    reveal_strlit("public/404.html");
    reveal_strlit(".css");
    reveal_strlit(".js");
    vstd::string::is_ascii_spec_bytes(path);
    vstd::string::is_ascii_spec_bytes(CSS_SUFFIX);
    vstd::string::is_ascii_spec_bytes(JS_SUFFIX);
    let p = path.spec_bytes();
    let n = p.len() as int;
    if has_suffix(p, CSS_SUFFIX.spec_bytes()) {
        assert(p.subrange(n - 4, n)[0] == p[n - 4]);
    }
    if has_suffix(p, JS_SUFFIX.spec_bytes()) {
        assert(p.subrange(n - 3, n)[0] == p[n - 3]);
    }
}

/// The bytes after the head of a file response are the file's bytes,
/// unchanged, whatever they are.
pub proof fn lemma_body_verbatim(path: Seq<u8>, content: Seq<u8>)
    ensures
        ({
            let r = file_response_of(path, content);
            let h = head_of(content_type_of(path));
            &&& has_prefix(r, h)
            &&& r.subrange(h.len() as int, r.len() as int) == content
        }),
{
    let r = file_response_of(path, content);
    let h = head_of(content_type_of(path));
    assert(r.subrange(0, h.len() as int) =~= h);
    assert(r.subrange(h.len() as int, r.len() as int) =~= content);
}

/// A request whose first line starts with `GET / ` is answered, while the
/// index file can be read, with status `200 OK`, as `text/html`, and with
/// the index file's bytes as its body.
pub proof fn lemma_index_served(req: Seq<u8>, index: Seq<u8>, fallback: Option<Seq<u8>>)
    requires
        has_prefix(first_line(req), INDEX_LINE.spec_bytes()),
    ensures
        route_of(req) == RouteView::File(INDEX_PATH.spec_bytes()),
        response_of(route_of(req), Some(index), fallback) == head_of(HTML_TYPE.spec_bytes())
            + index,
        has_prefix(response_of(route_of(req), Some(index), fallback), STATUS_OK.spec_bytes()),
{
    reveal_strlit("GET / ");
    vstd::string::is_ascii_spec_bytes(INDEX_LINE);
    if req.len() == 0 {
        assert(newline_from(req, 0) == 0);
        assert(first_line(req).len() == 0);
    }
    lemma_html_type(INDEX_PATH);
    lemma_status_kept(HTML_TYPE.spec_bytes(), index);
}

/// A request whose first line starts with `GET /about ` is answered with the
/// built-in About page, whatever the files hold or whether they can be read.
pub proof fn lemma_about_served(req: Seq<u8>, primary: Option<Seq<u8>>, fallback: Option<Seq<u8>>)
    requires
        has_prefix(first_line(req), ABOUT_LINE.spec_bytes()),
    ensures
        route_of(req) == RouteView::About,
        response_of(route_of(req), primary, fallback) == about_response_of(),
        has_prefix(about_response_of(), STATUS_OK.spec_bytes()),
{
    reveal_strlit("GET / ");
    reveal_strlit("GET /about ");
    vstd::string::is_ascii_spec_bytes(INDEX_LINE);
    vstd::string::is_ascii_spec_bytes(ABOUT_LINE);
    let line = first_line(req);
    assert(line.subrange(0, 11)[5] == line[5]);
    assert(line.subrange(0, 6)[5] == line[5]);
    assert(!has_prefix(line, INDEX_LINE.spec_bytes()));
    lemma_status_kept(HTML_TYPE.spec_bytes(), crate::response::ABOUT_BODY.spec_bytes());
}

/// A request for any other file that cannot be read is answered with the
/// fallback page's bytes, as `text/html`, and still with status `200 OK`.
pub proof fn lemma_fallback_served(req: Seq<u8>, fallback: Seq<u8>)
    requires
        req.len() > 0,
        !has_prefix(first_line(req), INDEX_LINE.spec_bytes()),
        !has_prefix(first_line(req), ABOUT_LINE.spec_bytes()),
    ensures
        route_of(req) is File,
        response_of(route_of(req), None, Some(fallback)) == head_of(HTML_TYPE.spec_bytes())
            + fallback,
        has_prefix(response_of(route_of(req), None, Some(fallback)), STATUS_OK.spec_bytes()),
{
    lemma_html_type(FALLBACK_PATH);
    lemma_status_kept(HTML_TYPE.spec_bytes(), fallback);
}

/// A request of which no byte was received is answered with the fixed
/// internal-error response.
pub proof fn lemma_empty_request(req: Seq<u8>, primary: Option<Seq<u8>>, fallback: Option<Seq<u8>>)
    requires
        req.len() == 0,
    ensures
        route_of(req) == RouteView::Empty,
        response_of(route_of(req), primary, fallback) == SERVER_ERROR.spec_bytes(),
{
}

/// A successful head followed by any body starts with `HTTP/1.1 200 OK`.
proof fn lemma_status_kept(content_type: Seq<u8>, body: Seq<u8>)
    ensures
        has_prefix(head_of(content_type) + body, STATUS_OK.spec_bytes()),
{
    lemma_head_status(content_type);
    crate::bytes::lemma_prefix_extend(head_of(content_type), STATUS_OK.spec_bytes(), body);
}

} // verus!
