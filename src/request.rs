//! Request-line parsing and routing.
//!
//! Only the first line of a request is inspected. Tokens are separated by
//! whitespace as Unicode defines it, recognised by its UTF-8 encoding: each
//! pattern starts with an ASCII byte or a lead byte, so it is found at the
//! same place whether or not the bytes around it are valid UTF-8. The request
//! bytes are routed as they were received, without any text decoding.
use vstd::prelude::*;
use vstd::slice::slice_subrange;
use vstd::string::StringSliceAdditionalSpecFns;
use crate::bytes::{has_prefix, starts_with, copy_range, append};

verus! {

/// Directory from which files are served.
pub const ROOT: &'static str = "public";

/// File served for the site root.
pub const INDEX_PATH: &'static str = "public/index.html";

/// Request-line prefix that selects the index page.
pub const INDEX_LINE: &'static str = "GET / ";

/// Request-line prefix that selects the built-in About page.
pub const ABOUT_LINE: &'static str = "GET /about ";

/// Target used when the request line names none.
pub const DEFAULT_TARGET: &'static str = "/";

pub const LINE_FEED: u8 = 10;

pub const CARRIAGE_RETURN: u8 = 13;

/// ASCII whitespace: tab, line feed, vertical tab, form feed, carriage return, space.
pub open spec fn is_ascii_space(b: u8) -> bool {
    9 <= b <= 13 || b == 32
}

/// Two-byte encodings of whitespace: U+0085 and U+00A0.
pub open spec fn is_space2(a: u8, b: u8) -> bool {
    a == 0xC2 && (b == 0x85 || b == 0xA0)
}

/// Three-byte encodings of whitespace: U+1680, U+2000 to U+200A, U+2028,
/// U+2029, U+202F, U+205F and U+3000.
pub open spec fn is_space3(a: u8, b: u8, c: u8) -> bool {
    (a == 0xE1 && b == 0x9A && c == 0x80) || (a == 0xE2 && b == 0x80 && (0x80 <= c <= 0x8A
        || c == 0xA8 || c == 0xA9 || c == 0xAF)) || (a == 0xE2 && b == 0x81 && c == 0x9F) || (a
        == 0xE3 && b == 0x80 && c == 0x80)
}

/// Length of the whitespace character encoded at `i` in `s`, or 0 when none is.
pub open spec fn space_len(s: Seq<u8>, i: int) -> int {
    if i < 0 || i >= s.len() {
        0
    } else if is_ascii_space(s[i]) {
        1
    } else if i + 1 < s.len() && is_space2(s[i], s[i + 1]) {
        2
    } else if i + 2 < s.len() && is_space3(s[i], s[i + 1], s[i + 2]) {
        3
    } else {
        0
    }
}

/// Index of the first line feed at or after `i`, or the length when there is none.
pub open spec fn newline_from(s: Seq<u8>, i: int) -> int
    decreases s.len() - i,
{
    if i < 0 || i >= s.len() {
        s.len() as int
    } else if s[i] == LINE_FEED {
        i
    } else {
        newline_from(s, i + 1)
    }
}

/// The first line of `s`: everything before the first line feed, without a
/// carriage return that directly precedes that line feed.
pub open spec fn first_line(s: Seq<u8>) -> Seq<u8> {
    let n = newline_from(s, 0);
    if n < s.len() && n > 0 && s[n - 1] == CARRIAGE_RETURN {
        s.subrange(0, n - 1)
    } else {
        s.subrange(0, n)
    }
}

/// Index of the first non-whitespace byte at or after `i`, or the length.
pub open spec fn skip_space(s: Seq<u8>, i: int) -> int
    decreases s.len() - i,
{
    if i < 0 || i >= s.len() {
        s.len() as int
    } else if space_len(s, i) > 0 {
        skip_space(s, i + space_len(s, i))
    } else {
        i
    }
}

/// Index of the first whitespace byte at or after `i`, or the length.
pub open spec fn skip_word(s: Seq<u8>, i: int) -> int
    decreases s.len() - i,
{
    if i < 0 || i >= s.len() {
        s.len() as int
    } else if space_len(s, i) > 0 {
        i
    } else {
        skip_word(s, i + 1)
    }
}

/// The second whitespace-separated token of `line`, if it has one.
pub open spec fn second_word(line: Seq<u8>) -> Option<Seq<u8>> {
    let a = skip_space(line, 0);
    let b = skip_word(line, a);
    let c = skip_space(line, b);
    if c < line.len() {
        Some(line.subrange(c, skip_word(line, c)))
    } else {
        None
    }
}

/// Where a request is sent.
#[derive(Debug, PartialEq, Eq)]
pub enum Route {
    /// Nothing was received: answered with the internal-error response.
    Empty,
    /// The built-in About page.
    About,
    /// A file under the served root, by its path.
    File(Vec<u8>),
}

pub enum RouteView {
    Empty,
    About,
    File(Seq<u8>),
}

impl View for Route {
    type V = RouteView;

    open spec fn view(&self) -> RouteView {
        match self {
            Route::Empty => RouteView::Empty,
            Route::About => RouteView::About,
            Route::File(p) => RouteView::File(p@),
        }
    }
}

/// The file path a request line asks for: the served root followed by the
/// line's second token, or by `/` when there is no such token.
pub open spec fn target_path(line: Seq<u8>) -> Seq<u8> {
    ROOT.spec_bytes() + match second_word(line) {
        Some(w) => w,
        None => DEFAULT_TARGET.spec_bytes(),
    }
}

/// Where the request `req` is sent.
pub open spec fn route_of(req: Seq<u8>) -> RouteView {
    if req.len() == 0 {
        RouteView::Empty
    } else if has_prefix(first_line(req), INDEX_LINE.spec_bytes()) {
        RouteView::File(INDEX_PATH.spec_bytes())
    } else if has_prefix(first_line(req), ABOUT_LINE.spec_bytes()) {
        RouteView::About
    } else {
        RouteView::File(target_path(first_line(req)))
    }
}

/// Returns the length of the first line of `s` (see `first_line`).
pub fn first_line_len(s: &[u8]) -> (r: usize)
    ensures
        r <= s@.len(),
        r == first_line(s@).len(),
        first_line(s@) == s@.subrange(0, r as int),
{
    let mut i: usize = 0;
    while i < s.len() && s[i] != LINE_FEED
        invariant
            i <= s@.len(),
            newline_from(s@, i as int) == newline_from(s@, 0),
        decreases s@.len() - i,
    {
        i = i + 1;
    }
    if i < s.len() && i > 0 && s[i - 1] == CARRIAGE_RETURN {
        i - 1
    } else {
        i
    }
}

/// Returns `space_len(s@, i)`.
pub fn space_len_at(s: &[u8], i: usize) -> (r: usize)
    requires
        i < s@.len(),
    ensures
        r == space_len(s@, i as int),
        1 <= r ==> i + r <= s@.len(),
{
    let n = s.len();
    let a = s[i];
    if 9 <= a && a <= 13 || a == 32 {
        1
    } else if i + 1 < n && a == 0xC2 && (s[i + 1] == 0x85 || s[i + 1] == 0xA0) {
        2
    } else if i + 1 < n && i + 2 < n {
        let b = s[i + 1];
        let c = s[i + 2];
        if (a == 0xE1 && b == 0x9A && c == 0x80) || (a == 0xE2 && b == 0x80 && (0x80 <= c && c
            <= 0x8A || c == 0xA8 || c == 0xA9 || c == 0xAF)) || (a == 0xE2 && b == 0x81 && c
            == 0x9F) || (a == 0xE3 && b == 0x80 && c == 0x80) {
            3
        } else {
            0
        }
    } else {
        0
    }
}

/// Returns `skip_space(s@, i)`.
pub fn skip_space_from(s: &[u8], i: usize) -> (r: usize)
    requires
        i <= s@.len(),
    ensures
        r == skip_space(s@, i as int),
        i <= r <= s@.len(),
{
    let mut j: usize = i;
    while j < s.len() && space_len_at(s, j) > 0
        invariant
            i <= j <= s@.len(),
            skip_space(s@, j as int) == skip_space(s@, i as int),
        decreases s@.len() - j,
    {
        j = j + space_len_at(s, j);
    }
    j
}

/// Returns `skip_word(s@, i)`.
pub fn skip_word_from(s: &[u8], i: usize) -> (r: usize)
    requires
        i <= s@.len(),
    ensures
        r == skip_word(s@, i as int),
        i <= r <= s@.len(),
{
    let mut j: usize = i;
    while j < s.len() && space_len_at(s, j) == 0
        invariant
            i <= j <= s@.len(),
            skip_word(s@, j as int) == skip_word(s@, i as int),
        decreases s@.len() - j,
    {
        j = j + 1;
    }
    j
}

/// Returns the second whitespace-separated token of `line`, if any.
pub fn second_token(line: &[u8]) -> (r: Option<Vec<u8>>)
    ensures
        match r {
            Some(w) => second_word(line@) == Some(w@),
            None => second_word(line@) is None,
        },
{
    let a = skip_space_from(line, 0);
    let b = skip_word_from(line, a);
    let c = skip_space_from(line, b);
    if c < line.len() {
        let d = skip_word_from(line, c);
        Some(copy_range(line, c, d))
    } else {
        None
    }
}

/// Routes a raw request by its first line.
pub fn route(req: &[u8]) -> (r: Route)
    ensures
        r@ == route_of(req@),
{
    if req.len() == 0 {
        return Route::Empty;
    }
    let n = first_line_len(req);
    let line = slice_subrange(req, 0, n);
    if starts_with(line, INDEX_LINE.as_bytes()) {
        let mut p: Vec<u8> = Vec::new();
        append(&mut p, INDEX_PATH.as_bytes());
        Route::File(p)
    } else if starts_with(line, ABOUT_LINE.as_bytes()) {
        Route::About
    } else {
        let mut p: Vec<u8> = Vec::new();
        append(&mut p, ROOT.as_bytes());
        match second_token(line) {
            Some(w) => append(&mut p, w.as_slice()),
            None => append(&mut p, DEFAULT_TARGET.as_bytes()),
        }
        Route::File(p)
    }
}

} // verus!
