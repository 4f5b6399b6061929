//! Request resolution and response assembly for the origin server.
//!
//! The server itself — sockets, reads, writes — lives outside the library.
//! It hands these functions the request text and whether the resolved file
//! exists, and gets back the status line, the file to serve, and the exact
//! response bytes: the body with the reload-client script appended, behind
//! a minimal status line.

use vstd::prelude::*;

use crate::render::strip_cr;
use crate::text::char_index_from;
use crate::text::lemma_char_index_from;
use crate::text::find_char;
use crate::text::match_prefix;

verus! {

/// The status line of a successful response.
pub open spec fn spec_status_ok() -> Seq<char> {
    "HTTP/1.1 200 OK\r\n\r\n"@
}

/// The status line of a not-found response.
pub open spec fn spec_status_not_found() -> Seq<char> {
    "HTTP/1.1 404 NOT FOUND\r\n\r\n"@
}

/// The status line of a successful response.
pub fn status_ok() -> (r: &'static str)
    ensures
        r@ == spec_status_ok(),
{
    "HTTP/1.1 200 OK\r\n\r\n"
}

/// The status line of a not-found response.
pub fn status_not_found() -> (r: &'static str)
    ensures
        r@ == spec_status_not_found(),
{
    "HTTP/1.1 404 NOT FOUND\r\n\r\n"
}

/// The index document served for the root path.
pub fn index_file_path() -> (r: &'static str)
    ensures
        r@ == "output/pages/index.html"@,
{
    "output/pages/index.html"
}

/// The fixed not-found document.
pub fn not_found_file_path() -> (r: &'static str)
    ensures
        r@ == "output/pages/404.html"@,
{
    "output/pages/404.html"
}

/// The script appended to every response body: it opens the reload channel
/// and reloads the page when told to.
pub open spec fn spec_reload_script() -> Seq<char> {
    "<script>
            const ws = new WebSocket('ws://127.0.0.1:7879');
            ws.onmessage = (event) => {
                if (event.data === 'reload') {
                    location.reload();
                }
            };
        </script>"@
}

/// The script appended to every response body.
pub fn reload_script() -> (r: &'static str)
    ensures
        r@ == spec_reload_script(),
{
    "<script>
            const ws = new WebSocket('ws://127.0.0.1:7879');
            ws.onmessage = (event) => {
                if (event.data === 'reload') {
                    location.reload();
                }
            };
        </script>"
}

/// The request asks for the root path: it opens with the exact line
/// `GET / HTTP/1.1`.
pub fn is_root_request(request: &str) -> (r: bool)
    ensures
        r == (request@.len() >= 16 && request@.subrange(0, 16) == "GET / HTTP/1.1\r\n"@),
{
    proof {
        reveal_strlit("GET / HTTP/1.1\r\n");
    }
    let n = request.unicode_len();
    if n < 16 {
        return false;
    }
    match_prefix(request, 0, "GET / HTTP/1.1\r\n")
}

/// A token separator in the request line.
pub open spec fn is_space(c: char) -> bool {
    c == ' ' || c == '\t'
}

/// Index of the first separator in `l` at or after `from`; `l.len()` when
/// there is none.
pub open spec fn space_index_from(l: Seq<char>, from: int) -> int
    decreases l.len() - from,
{
    if from < 0 || from >= l.len() {
        l.len() as int
    } else if is_space(l[from]) {
        from
    } else {
        space_index_from(l, from + 1)
    }
}

/// Index of the first non-separator in `l` at or after `from`; `l.len()`
/// when there is none.
pub open spec fn non_space_index_from(l: Seq<char>, from: int) -> int
    decreases l.len() - from,
{
    if from < 0 || from >= l.len() {
        l.len() as int
    } else if !is_space(l[from]) {
        from
    } else {
        non_space_index_from(l, from + 1)
    }
}

/// First index at or after `from` holding a separator, or the length.
fn find_space(l: &str, from: usize) -> (r: usize)
    requires
        from <= l@.len(),
    ensures
        r == space_index_from(l@, from as int),
        from <= r <= l@.len(),
{
    let n = l.unicode_len();
    let mut i = from;
    while i < n
        invariant
            from <= i <= n,
            n == l@.len(),
            space_index_from(l@, from as int) == space_index_from(l@, i as int),
        decreases n - i,
    {
        let c = l.get_char(i);
        if c == ' ' || c == '\t' {
            return i;
        }
        i = i + 1;
    }
    i
}

/// First index at or after `from` holding a non-separator, or the length.
fn find_non_space(l: &str, from: usize) -> (r: usize)
    requires
        from <= l@.len(),
    ensures
        r == non_space_index_from(l@, from as int),
        from <= r <= l@.len(),
{
    let n = l.unicode_len();
    let mut i = from;
    while i < n
        invariant
            from <= i <= n,
            n == l@.len(),
            non_space_index_from(l@, from as int) == non_space_index_from(l@, i as int),
        decreases n - i,
    {
        let c = l.get_char(i);
        if !(c == ' ' || c == '\t') {
            return i;
        }
        i = i + 1;
    }
    i
}

/// The first line of the request, as `str::lines` yields it: up to the
/// first newline, a carriage return directly before it stripped.
pub open spec fn spec_first_line(s: Seq<char>) -> Seq<char> {
    let j = char_index_from(s, 0, '\n');
    if j < s.len() {
        strip_cr(s.take(j))
    } else {
        s
    }
}

/// The requested path: the second whitespace-separated token of the
/// request's first line, or nothing when that line has fewer than two
/// tokens.
pub open spec fn spec_request_path(s: Seq<char>) -> Option<Seq<char>> {
    let line = spec_first_line(s);
    let a1 = non_space_index_from(line, space_index_from(line, non_space_index_from(line, 0)));
    let b1 = space_index_from(line, a1);
    if a1 >= line.len() {
        Option::None
    } else {
        Option::Some(line.subrange(a1, b1))
    }
}

/// Extract the requested path — the second token of the request line.
pub fn request_path(request: &str) -> (r: Option<String>)
    ensures
        (match r {
            Option::Some(p) => spec_request_path(request@) == Option::Some(p@),
            Option::None => spec_request_path(request@) is None,
        }),
{
    let n = request.unicode_len();
    let j = find_char(request, 0, '\n');
    proof {
        lemma_char_index_from(request@, 0, '\n');
    }
    let line_end = if j < n && j > 0 && request.get_char(j - 1) == '\r' {
        j - 1
    } else {
        j
    };
    let line = request.substring_char(0, line_end);
    proof {
        let pre = request@.take(j as int);
        if j < n {
            if j > 0 && request@[j - 1] == '\r' {
                assert(pre[pre.len() - 1] == request@[j - 1]);
                assert(line@ =~= pre.take(pre.len() - 1));
            } else {
                assert(line@ =~= pre);
            }
            assert(line@ == strip_cr(pre));
        } else {
            assert(line@ =~= request@);
        }
        assert(line@ == spec_first_line(request@));
    }
    let m = line.unicode_len();
    let a0 = find_non_space(line, 0);
    let b0 = find_space(line, a0);
    let a1 = find_non_space(line, b0);
    let b1 = find_space(line, a1);
    if a1 >= m {
        Option::None
    } else {
        Option::Some(String::from_str(line.substring_char(a1, b1)))
    }
}

/// The output-tree file a request path resolves to: the output root with
/// the request path appended.
pub fn output_file_path(path: &str) -> (r: String)
    ensures
        r@ == "output"@ + path@,
{
    let mut s = String::new();
    s.append("output");
    s.append(path);
    s
}

/// Pick the status line and the file to serve for a resolved candidate:
/// the candidate itself when it exists, else the not-found status with the
/// fixed not-found document.
pub fn select_served_file(candidate: String, candidate_exists: bool) -> (r: (&'static str, String))
    ensures
        candidate_exists ==> r.0@ == spec_status_ok() && r.1@ == candidate@,
        !candidate_exists ==> r.0@ == spec_status_not_found() && r.1@
            == "output/pages/404.html"@,
{
    if candidate_exists {
        (status_ok(), candidate)
    } else {
        (status_not_found(), String::from_str(not_found_file_path()))
    }
}

/// The exact bytes of a response: the status line, the served file's
/// content, and the reload-client script appended to every body.
pub fn build_response(status_line: &str, contents: &str) -> (r: String)
    ensures
        r@ == status_line@ + contents@ + spec_reload_script(),
{
    let mut out = String::new();
    out.append(status_line);
    out.append(contents);
    out.append(reload_script());
    out
}

} // verus!
