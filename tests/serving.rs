use lollipop::request::{route, Route};
use lollipop::response::{
    about_response, content_type, file_response, resolve, respond, server_error,
};

const INDEX: &[u8] = b"<h1>index</h1>";
const MISSING: &[u8] = b"<h1>not here</h1>";

fn file(p: &str) -> Route {
    Route::File(p.as_bytes().to_vec())
}

fn ok_head(ct: &str) -> Vec<u8> {
    format!("HTTP/1.1 200 OK\r\nContent-Type: {}\r\n\r\n", ct).into_bytes()
}

#[test]
fn empty_request_routes_to_error() {
    assert_eq!(route(b""), Route::Empty);
}

#[test]
fn empty_request_gets_server_error() {
    let r = respond(&route(b""), Some(INDEX), Some(MISSING));
    assert_eq!(r, b"HTTP/1.1 500 Internal Server Error\r\n\r\n500 Internal Server Error".to_vec());
    assert_eq!(server_error(), r);
}

#[test]
fn root_routes_to_index() {
    assert_eq!(route(b"GET / HTTP/1.1\r\nHost: localhost\r\n\r\n"), file("public/index.html"));
}

#[test]
fn root_serves_index_bytes() {
    let rt = route(b"GET / HTTP/1.1\r\n\r\n");
    let r = respond(&rt, Some(INDEX), Some(MISSING));
    let mut expected = ok_head("text/html");
    expected.extend_from_slice(INDEX);
    assert_eq!(r, expected);
}

#[test]
fn about_route() {
    assert_eq!(route(b"GET /about HTTP/1.1\r\nAccept: */*\r\n"), Route::About);
}

#[test]
fn about_page_ignores_files() {
    let rt = route(b"GET /about HTTP/1.1\r\n\r\n");
    let expected = "HTTP/1.1 200 OK\r\nContent-Type: text/html\r\n\r\n\
        <html><head><title>About</title></head><body>\
        <h1>About Us</h1><p>This server is powered by Rust.</p>\
        </body></html>"
        .as_bytes()
        .to_vec();
    assert_eq!(respond(&rt, None, None), expected);
    assert_eq!(respond(&rt, Some(INDEX), Some(MISSING)), expected);
    assert_eq!(about_response(), expected);
}

#[test]
fn about_needs_trailing_space() {
    assert_eq!(route(b"GET /about"), file("public/about"));
    assert_eq!(route(b"GET /aboutus HTTP/1.1"), file("public/aboutus"));
}

#[test]
fn other_paths_are_under_root() {
    assert_eq!(route(b"GET /style.css HTTP/1.1\r\nHost: x\r\n"), file("public/style.css"));
    assert_eq!(route(b"GET /js/app.js HTTP/1.1"), file("public/js/app.js"));
}

#[test]
fn only_first_line_is_read() {
    assert_eq!(route(b"GET /a.html HTTP/1.1\nGET /about HTTP/1.1\n"), file("public/a.html"));
    assert_eq!(route(b"PUT /x\r\nGET / HTTP/1.1\r\n"), file("public/x"));
}

#[test]
fn missing_target_defaults_to_slash() {
    assert_eq!(route(b"GET"), file("public/"));
    assert_eq!(route(b"\r\n"), file("public/"));
    assert_eq!(route(b"\n"), file("public/"));
    assert_eq!(route(b"   \t "), file("public/"));
}

#[test]
fn other_methods_use_second_token() {
    assert_eq!(route(b"POST / HTTP/1.1"), file("public/"));
    assert_eq!(route(b"HEAD /about HTTP/1.1"), file("public/about"));
}

#[test]
fn tokens_split_on_any_ascii_whitespace() {
    assert_eq!(route(b"  GET\t\t/page.html\x0bHTTP/1.1"), file("public/page.html"));
    assert_eq!(route(b"GET /x\r"), file("public/x"));
}

#[test]
fn path_bytes_kept_verbatim() {
    assert_eq!(route(b"GET /caf\xe9 HTTP/1.1"), Route::File(b"public/caf\xe9".to_vec()));
}

#[test]
fn content_type_css() {
    assert_eq!(content_type(b"public/style.css"), b"text/css");
    assert_eq!(content_type(b".css"), b"text/css");
}

#[test]
fn content_type_js() {
    assert_eq!(content_type(b"public/app.js"), b"application/javascript");
}

#[test]
fn content_type_other() {
    assert_eq!(content_type(b"public/index.html"), b"text/html");
    assert_eq!(content_type(b"public/image.png"), b"text/html");
    assert_eq!(content_type(b"public/style.css.bak"), b"text/html");
    assert_eq!(content_type(b"public/x.JS"), b"text/html");
    assert_eq!(content_type(b"css"), b"text/html");
    assert_eq!(content_type(b""), b"text/html");
}

#[test]
fn file_response_exact() {
    let r = file_response(b"public/site.css", b"body{}");
    assert_eq!(r, b"HTTP/1.1 200 OK\r\nContent-Type: text/css\r\n\r\nbody{}".to_vec());
}

#[test]
fn body_round_trips_text() {
    let text = b"line one\nline two\r\n\r\nafter a blank line";
    let r = file_response(b"public/notes.txt", text);
    let head = ok_head("text/html");
    assert_eq!(&r[..head.len()], &head[..]);
    assert_eq!(&r[head.len()..], &text[..]);
}

#[test]
fn body_round_trips_non_utf8() {
    let data: Vec<u8> = vec![0x89, b'P', b'N', b'G', 0xff, 0xfe, 0x00, 0xc3, 0x28, 0x80];
    let r = file_response(b"public/logo.png", &data);
    let head = ok_head("text/html");
    assert_eq!(&r[head.len()..], &data[..]);
}

#[test]
fn resolve_reads_primary() {
    let r = resolve(b"public/app.js", Some(b"let a = 1;"), Some(MISSING));
    let mut expected = ok_head("application/javascript");
    expected.extend_from_slice(b"let a = 1;");
    assert_eq!(r, expected);
}

#[test]
fn missing_file_serves_fallback_with_ok_status() {
    let rt = route(b"GET /nope.css HTTP/1.1\r\n\r\n");
    let r = respond(&rt, None, Some(MISSING));
    let mut expected = ok_head("text/html");
    expected.extend_from_slice(MISSING);
    assert_eq!(r, expected);
    assert!(r.starts_with(b"HTTP/1.1 200 OK\r\n"));
}

#[test]
fn missing_fallback_ends_with_builtin_page() {
    let r = resolve(b"public/nope.html", None, None);
    let mut expected = ok_head("text/html");
    expected.extend_from_slice(b"404 Not Found");
    assert_eq!(r, expected);
}

#[test]
fn missing_index_serves_fallback() {
    let rt = route(b"GET / HTTP/1.1\r\n");
    let r = respond(&rt, None, Some(MISSING));
    let mut expected = ok_head("text/html");
    expected.extend_from_slice(MISSING);
    assert_eq!(r, expected);
}

#[test]
fn empty_file_gives_head_only() {
    assert_eq!(file_response(b"public/empty.html", b""), ok_head("text/html"));
}

#[test]
fn tokens_split_on_unicode_whitespace() {
    // U+00A0 between the method and the target.
    assert_eq!(route(b"GET\xc2\xa0/x HTTP/1.1"), file("public/x"));
    assert_eq!(route(b"GET\xc2\xa0/x"), file("public/x"));
    // U+0085, U+1680, U+2003, U+2028, U+202F, U+205F, U+3000.
    assert_eq!(route(b"GET\xc2\x85/a"), file("public/a"));
    assert_eq!(route(b"GET\xe1\x9a\x80/b"), file("public/b"));
    assert_eq!(route(b"GET\xe2\x80\x83/c\xe2\x80\xa8rest"), file("public/c"));
    assert_eq!(route(b"GET\xe2\x80\xaf/d\xe2\x81\x9f"), file("public/d"));
    assert_eq!(route(b"GET\xe3\x80\x80/e"), file("public/e"));
}

#[test]
fn non_space_multibyte_stays_in_token() {
    // U+200B (zero width space) and U+00A9 are not whitespace.
    assert_eq!(route(b"GET /a\xe2\x80\x8bb HTTP"), Route::File(b"public/a\xe2\x80\x8bb".to_vec()));
    assert_eq!(route(b"GET /\xc2\xa9 HTTP"), Route::File(b"public/\xc2\xa9".to_vec()));
    // An invalid byte before an encoded space still ends the token there.
    assert_eq!(route(b"GET /q\xe2\xc2\xa0z"), Route::File(b"public/q\xe2".to_vec()));
}
