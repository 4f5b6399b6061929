//! Line-oriented document-to-HTML rendering.
//!
//! The document is split into lines; each line becomes exactly one HTML
//! element: a heading for one to six leading `#` characters followed by a
//! space, a link for a line in the `[text](url)` shape (first occurring
//! `]`, first occurring `(`, first occurring `)`), and a paragraph for
//! everything else — blank lines included, each yielding an empty
//! paragraph.

use vstd::prelude::*;

use crate::text::char_index_from;
use crate::text::count_char;
use crate::text::first_match_from;
use crate::text::lemma_char_index_from;
use crate::text::lemma_char_index_is;
use crate::text::lemma_count_char_concat;
use crate::text::lemma_count_char_none;
use crate::text::lemma_count_char_one;
use crate::text::lemma_first_match_from;
use crate::text::lemma_first_match_is;
use crate::text::match_at;
use crate::text::find_char;
use crate::text::find_sub;

verus! {

/// `l` without a single trailing carriage return, as `str::lines` strips it.
pub open spec fn strip_cr(l: Seq<char>) -> Seq<char> {
    if l.len() >= 1 && l[l.len() - 1] == '\r' {
        l.take(l.len() - 1)
    } else {
        l
    }
}

/// The lines of `s` starting at `from`: split at `'\n'`, a `'\r'` directly
/// before the `'\n'` stripped, and no empty final line after a trailing
/// newline — the semantics of `str::lines`.
pub open spec fn spec_lines_from(s: Seq<char>, from: int) -> Seq<Seq<char>>
    decreases s.len() - from,
    via spec_lines_from_dec
{
    if from < 0 || from >= s.len() {
        Seq::empty()
    } else {
        let j = char_index_from(s, from, '\n');
        if j >= s.len() {
            seq![s.subrange(from, s.len() as int)]
        } else {
            seq![strip_cr(s.subrange(from, j))] + spec_lines_from(s, j + 1)
        }
    }
}

#[via_fn]
proof fn spec_lines_from_dec(s: Seq<char>, from: int) {
    if 0 <= from < s.len() {
        lemma_char_index_from(s, from, '\n');
    }
}

/// The lines of the whole document `s`.
pub open spec fn spec_lines(s: Seq<char>) -> Seq<Seq<char>> {
    spec_lines_from(s, 0)
}

/// The line consists of exactly `k` leading `#` characters followed by a
/// space: the marker of a level-`k` heading.
pub open spec fn is_heading(line: Seq<char>, k: int) -> bool {
    &&& 1 <= k <= 6
    &&& line.len() > k
    &&& line[k] == ' '
    &&& forall|i: int| 0 <= i < k ==> line[i] == '#'
}

/// The heading level of the line, or 0 when it is not a heading. At most
/// one level can match, since the marker is delimited by the first
/// non-`#` character.
pub open spec fn heading_level(line: Seq<char>) -> int {
    if is_heading(line, 1) {
        1
    } else if is_heading(line, 2) {
        2
    } else if is_heading(line, 3) {
        3
    } else if is_heading(line, 4) {
        4
    } else if is_heading(line, 5) {
        5
    } else if is_heading(line, 6) {
        6
    } else {
        0
    }
}

/// Opening tag of a level-`k` heading.
pub open spec fn heading_open(k: int) -> Seq<char> {
    if k == 1 {
        "<h1>"@
    } else if k == 2 {
        "<h2>"@
    } else if k == 3 {
        "<h3>"@
    } else if k == 4 {
        "<h4>"@
    } else if k == 5 {
        "<h5>"@
    } else {
        "<h6>"@
    }
}

/// Closing tag of a level-`k` heading, with the trailing newline every
/// element ends in.
pub open spec fn heading_close(k: int) -> Seq<char> {
    if k == 1 {
        "</h1>\n"@
    } else if k == 2 {
        "</h2>\n"@
    } else if k == 3 {
        "</h3>\n"@
    } else if k == 4 {
        "</h4>\n"@
    } else if k == 5 {
        "</h5>\n"@
    } else {
        "</h6>\n"@
    }
}

/// The line is rendered as a link: it opens with `[`, contains `](`, a `)`
/// occurs, and the first `(` precedes the first `)` (so that both slices
/// of the line are well formed).
pub open spec fn is_link_line(line: Seq<char>) -> bool {
    &&& line.len() >= 1
    &&& line[0] == '['
    &&& first_match_from(line, "]("@, 0) < line.len()
    &&& char_index_from(line, 0, ')') < line.len()
    &&& char_index_from(line, 0, '(') < char_index_from(line, 0, ')')
}

/// The link element for a link line: the text runs from after the opening
/// `[` to the first `]`, the target from after the first `(` to the first
/// `)`.
pub open spec fn link_html(line: Seq<char>) -> Seq<char> {
    let eb = char_index_from(line, 0, ']');
    let sp = char_index_from(line, 0, '(');
    let ep = char_index_from(line, 0, ')');
    "<a href=\""@ + line.subrange(sp + 1, ep) + "\">"@ + line.subrange(1, eb) + "</a>\n"@
}

/// The single HTML element a line renders to: a heading, a link, or a
/// paragraph, each terminated by a newline.
pub open spec fn spec_render_line(line: Seq<char>) -> Seq<char> {
    let k = heading_level(line);
    if k > 0 {
        heading_open(k) + line.skip(k + 1) + heading_close(k)
    } else if is_link_line(line) {
        link_html(line)
    } else {
        "<p>"@ + line + "</p>\n"@
    }
}

/// The concatenation of the renderings of a sequence of lines.
pub open spec fn render_lines(ls: Seq<Seq<char>>) -> Seq<char>
    decreases ls.len(),
{
    if ls.len() == 0 {
        Seq::empty()
    } else {
        spec_render_line(ls[0]) + render_lines(ls.skip(1))
    }
}

/// What the whole conversion returns: every line of the document rendered,
/// in order.
pub open spec fn spec_markdown_to_html(s: Seq<char>) -> Seq<char> {
    render_lines(spec_lines(s))
}

/// Rendering a non-empty sequence of lines renders the first line and then
/// the rest.
pub proof fn lemma_render_lines_cons(l: Seq<char>, rest: Seq<Seq<char>>)
    ensures
        render_lines(seq![l] + rest) == spec_render_line(l) + render_lines(rest),
{
    let ls = seq![l] + rest;
    assert(ls[0] == l);
    assert(ls.skip(1) =~= rest);
}

/// Opening tag of a level-`k` heading.
fn heading_open_str(k: usize) -> (r: &'static str)
    requires
        1 <= k <= 6,
    ensures
        r@ == heading_open(k as int),
{
    if k == 1 {
        "<h1>"
    } else if k == 2 {
        "<h2>"
    } else if k == 3 {
        "<h3>"
    } else if k == 4 {
        "<h4>"
    } else if k == 5 {
        "<h5>"
    } else {
        "<h6>"
    }
}

/// Closing tag of a level-`k` heading, with the trailing newline.
fn heading_close_str(k: usize) -> (r: &'static str)
    requires
        1 <= k <= 6,
    ensures
        r@ == heading_close(k as int),
{
    if k == 1 {
        "</h1>\n"
    } else if k == 2 {
        "</h2>\n"
    } else if k == 3 {
        "</h3>\n"
    } else if k == 4 {
        "</h4>\n"
    } else if k == 5 {
        "</h5>\n"
    } else {
        "</h6>\n"
    }
}

/// Render one line to its HTML element.
pub fn render_line(line: &str) -> (r: String)
    ensures
        r@ == spec_render_line(line@),
{
    let n = line.unicode_len();

    // Count the leading `#` characters, up to the longest marker.
    let mut h: usize = 0;
    while h < n && h < 6 && line.get_char(h) == '#'
        invariant
            h <= 6,
            h <= n,
            n == line@.len(),
            forall|i: int| 0 <= i < h ==> line@[i] == '#',
        decreases 6 - h,
    {
        h = h + 1;
    }

    if 1 <= h && h < n && line.get_char(h) == ' ' {
        proof {
            assert(is_heading(line@, h as int));
            assert forall|j: int| 1 <= j <= 6 && j != h implies !is_heading(line@, j) by {
                if j < h {
                    assert(line@[j] == '#');
                } else {
                    if is_heading(line@, j) {
                        assert(line@[h as int] == '#');
                    }
                }
            }
            assert(heading_level(line@) == h as int);
        }
        let text = line.substring_char(h + 1, n);
        let mut out = String::new();
        out.append(heading_open_str(h));
        out.append(text);
        out.append(heading_close_str(h));
        proof {
            assert(text@ =~= line@.skip(h + 1));
        }
        return out;
    }

    proof {
        assert forall|j: int| 1 <= j <= 6 implies !is_heading(line@, j) by {
            if is_heading(line@, j) {
                if h == n {
                    assert(line@[j] == ' ');
                    assert(j < h);
                    assert(line@[j] == '#');
                } else if (h as int) < j {
                    assert(line@[h as int] == '#');
                } else if j < h {
                    assert(line@[j] == '#');
                    assert(line@[j] == ' ');
                }
            }
        }
        assert(heading_level(line@) == 0);
    }

    if n >= 1 && line.get_char(0) == '[' {
        proof {
            reveal_strlit("](");
        }
        let fm = find_sub(line, "](", 0);
        let sp = find_char(line, 0, '(');
        let ep = find_char(line, 0, ')');
        if fm < n && ep < n && sp < ep {
            proof {
                assert(is_link_line(line@));
            }
            let eb = find_char(line, 0, ']');
            proof {
                lemma_char_index_from(line@, 0, ']');
                lemma_first_match_from(line@, "]("@, 0);
                // The `](` match shows a `]` at `fm`, so the first `]` is
                // no later, and it is not the opening `[` at index 0.
                assert(line@.subrange(fm as int, fm + 2)[0] == line@[fm as int]);
                assert(line@[fm as int] == ']');
                if eb > fm {
                    assert(line@[fm as int] != ']');
                }
                assert(eb <= fm);
                assert(eb >= 1);
                lemma_char_index_from(line@, 0, '(');
                lemma_char_index_from(line@, 0, ')');
            }
            let text = line.substring_char(1, eb);
            let url = line.substring_char(sp + 1, ep);
            let mut out = String::new();
            out.append("<a href=\"");
            out.append(url);
            out.append("\">");
            out.append(text);
            out.append("</a>\n");
            return out;
        }
    }

    proof {
        assert(!is_link_line(line@));
    }
    let mut out = String::new();
    out.append("<p>");
    out.append(line);
    out.append("</p>\n");
    out
}

/// Convert a document to HTML, line by line: headings for `#` markers,
/// links for `[text](url)` lines, paragraphs for everything else.
pub fn markdown_to_html(markdown: &str) -> (r: String)
    ensures
        r@ == spec_markdown_to_html(markdown@),
{
    let n = markdown.unicode_len();
    let mut out = String::new();
    let mut i: usize = 0;
    while i < n
        invariant
            i <= n,
            n == markdown@.len(),
            out@ + render_lines(spec_lines_from(markdown@, i as int)) == spec_markdown_to_html(
                markdown@,
            ),
        decreases n - i,
    {
        let j = find_char(markdown, i, '\n');
        proof {
            lemma_char_index_from(markdown@, i as int, '\n');
        }
        let line_end = if j < n && j > i && markdown.get_char(j - 1) == '\r' {
            j - 1
        } else {
            j
        };
        let line = markdown.substring_char(i, line_end);
        proof {
            let sub = markdown@.subrange(i as int, j as int);
            if j < n && j > i && markdown@[j - 1] == '\r' {
                assert(sub[sub.len() - 1] == markdown@[j - 1]);
                assert(line@ =~= sub.take(sub.len() - 1));
            } else {
                assert(line@ =~= sub);
            }
            if j < n {
                assert(line@ == strip_cr(sub));
            }
        }
        let rendered = render_line(line);
        out.append(rendered.as_str());
        if j < n {
            proof {
                lemma_render_lines_cons(line@, spec_lines_from(markdown@, j + 1));
            }
            i = j + 1;
        } else {
            proof {
                assert(markdown@.subrange(i as int, n as int) == markdown@.subrange(
                    i as int,
                    j as int,
                ));
                lemma_render_lines_cons(line@, Seq::empty());
                assert(seq![line@] + Seq::<Seq<char>>::empty() =~= seq![line@]);
                assert(render_lines(Seq::empty()) == Seq::<char>::empty());
                assert(spec_render_line(line@) + Seq::<char>::empty() =~= spec_render_line(line@));
            }
            i = n;
        }
    }
    proof {
        assert(render_lines(spec_lines_from(markdown@, n as int)) == Seq::<char>::empty());
        assert(out@ + Seq::<char>::empty() =~= out@);
    }
    out
}

/// For every supported heading level: a line of exactly `k` leading `#`
/// characters followed by a space renders to the level-`k` heading element
/// with the remainder of the line as its text, exactly once per line.
pub proof fn lemma_heading_line_renders(line: Seq<char>, k: int)
    requires
        1 <= k <= 6,
        line.len() > k,
        line[k] == ' ',
        forall|i: int| 0 <= i < k ==> line[i] == '#',
    ensures
        spec_render_line(line) == heading_open(k) + line.skip(k + 1) + heading_close(k),
{
    assert(is_heading(line, k));
    assert forall|j: int| 1 <= j <= 6 && j != k implies !is_heading(line, j) by {
        if j < k {
            assert(line[j] == '#');
        } else {
            if is_heading(line, j) {
                assert(line[k] == '#');
            }
        }
    }
    assert(heading_level(line) == k);
}

/// A line exactly of the shape `[A](B)` — the text free of `]`, `(` and
/// `)`, the target free of `)` — renders to a link element with text `A`
/// and target `B`. The pattern is matched within one line; it never spans
/// line boundaries, since the document is split into lines first.
pub proof fn lemma_link_line_renders(a: Seq<char>, b: Seq<char>)
    requires
        forall|i: int| 0 <= i < a.len() ==> a[i] != ']',
        forall|i: int| 0 <= i < a.len() ==> a[i] != '(',
        forall|i: int| 0 <= i < a.len() ==> a[i] != ')',
        forall|i: int| 0 <= i < b.len() ==> b[i] != ')',
    ensures
        ({
            let line = seq!['['] + a + seq![']', '('] + b + seq![')'];
            spec_render_line(line) == "<a href=\""@ + b + "\">"@ + a + "</a>\n"@
        }),
{
    reveal_strlit("](");
    let la = a.len() as int;
    let lb = b.len() as int;
    let p1 = seq!['['] + a;
    let p2 = p1 + seq![']', '('];
    let p3 = p2 + b;
    let line = p3 + seq![')'];
    assert(seq!['['] + a + seq![']', '('] + b + seq![')'] == line);
    assert(line.len() == la + lb + 4);
    assert(line[0] == '[');
    assert forall|i: int| 1 <= i < 1 + la implies line[i] == a[i - 1] by {
        assert(p1[i] == a[i - 1]);
    }
    assert(line[1 + la] == ']');
    assert(line[2 + la] == '(');
    assert forall|i: int| 3 + la <= i < 3 + la + lb implies line[i] == b[i - 3 - la] by {
        assert(p3[i] == b[i - 3 - la]);
    }
    assert(line[3 + la + lb] == ')');

    assert forall|j: int| 1 <= j <= 6 implies !is_heading(line, j) by {
        if is_heading(line, j) {
            assert(line[0] == '#');
        }
    }
    assert(heading_level(line) == 0);

    lemma_char_index_is(line, 0, ']', 1 + la);
    lemma_char_index_is(line, 0, '(', 2 + la);
    lemma_char_index_is(line, 0, ')', 3 + la + lb);
    assert(match_at(line, "]("@, 1 + la)) by {
        assert(line.subrange(1 + la, 3 + la) =~= "]("@);
    }
    assert forall|i: int| 0 <= i < 1 + la implies !match_at(line, "]("@, i) by {
        if match_at(line, "]("@, i) {
            assert(line.subrange(i, i + 2)[0] == line[i]);
            assert(line[i] == ']');
        }
    }
    lemma_first_match_is(line, "]("@, 0, 1 + la);
    assert(is_link_line(line));

    assert(line.subrange(2 + la + 1, 3 + la + lb) =~= b);
    assert(line.subrange(1, 1 + la) =~= a);
}

/// Any line that is neither a heading nor a link — an empty line included
/// — renders as its own paragraph element.
pub proof fn lemma_other_line_is_paragraph(line: Seq<char>)
    requires
        heading_level(line) == 0,
        !is_link_line(line),
    ensures
        spec_render_line(line) == "<p>"@ + line + "</p>\n"@,
{
}

/// Every rendered element ends in its one newline: a line without a
/// newline renders to text holding exactly one.
pub proof fn lemma_render_line_one_newline(line: Seq<char>)
    requires
        forall|i: int| 0 <= i < line.len() ==> line[i] != '\n',
    ensures
        count_char(spec_render_line(line), '\n') == 1,
{
    let k = heading_level(line);
    if k > 0 {
        if k == 1 {
            reveal_strlit("<h1>");
            reveal_strlit("</h1>\n");
            lemma_count_char_none("<h1>"@, '\n');
            lemma_count_char_one("</h1>\n"@, '\n', 5);
        } else if k == 2 {
            reveal_strlit("<h2>");
            reveal_strlit("</h2>\n");
            lemma_count_char_none("<h2>"@, '\n');
            lemma_count_char_one("</h2>\n"@, '\n', 5);
        } else if k == 3 {
            reveal_strlit("<h3>");
            reveal_strlit("</h3>\n");
            lemma_count_char_none("<h3>"@, '\n');
            lemma_count_char_one("</h3>\n"@, '\n', 5);
        } else if k == 4 {
            reveal_strlit("<h4>");
            reveal_strlit("</h4>\n");
            lemma_count_char_none("<h4>"@, '\n');
            lemma_count_char_one("</h4>\n"@, '\n', 5);
        } else if k == 5 {
            reveal_strlit("<h5>");
            reveal_strlit("</h5>\n");
            lemma_count_char_none("<h5>"@, '\n');
            lemma_count_char_one("</h5>\n"@, '\n', 5);
        } else {
            reveal_strlit("<h6>");
            reveal_strlit("</h6>\n");
            lemma_count_char_none("<h6>"@, '\n');
            lemma_count_char_one("</h6>\n"@, '\n', 5);
        }
        lemma_count_char_none(line.skip(k + 1), '\n');
        lemma_count_char_concat(heading_open(k), line.skip(k + 1), '\n');
        lemma_count_char_concat(heading_open(k) + line.skip(k + 1), heading_close(k), '\n');
    } else if is_link_line(line) {
        reveal_strlit("](");
        reveal_strlit("<a href=\"");
        reveal_strlit("\">");
        reveal_strlit("</a>\n");
        let eb = char_index_from(line, 0, ']');
        let sp = char_index_from(line, 0, '(');
        let ep = char_index_from(line, 0, ')');
        lemma_char_index_from(line, 0, ']');
        lemma_char_index_from(line, 0, '(');
        lemma_char_index_from(line, 0, ')');
        lemma_first_match_from(line, "]("@, 0);
        let fm = first_match_from(line, "]("@, 0);
        assert(line.subrange(fm, fm + 2)[0] == line[fm]);
        assert(line[fm] == ']');
        if eb > fm {
            assert(line[fm] != ']');
        }
        assert(1 <= eb);
        let url = line.subrange(sp + 1, ep);
        let text = line.subrange(1, eb);
        lemma_count_char_none("<a href=\""@, '\n');
        lemma_count_char_none(url, '\n');
        lemma_count_char_none("\">"@, '\n');
        lemma_count_char_none(text, '\n');
        lemma_count_char_one("</a>\n"@, '\n', 4);
        lemma_count_char_concat("<a href=\""@, url, '\n');
        lemma_count_char_concat("<a href=\""@ + url, "\">"@, '\n');
        lemma_count_char_concat("<a href=\""@ + url + "\">"@, text, '\n');
        lemma_count_char_concat("<a href=\""@ + url + "\">"@ + text, "</a>\n"@, '\n');
    } else {
        reveal_strlit("<p>");
        reveal_strlit("</p>\n");
        lemma_count_char_none("<p>"@, '\n');
        lemma_count_char_none(line, '\n');
        lemma_count_char_one("</p>\n"@, '\n', 4);
        lemma_count_char_concat("<p>"@, line, '\n');
        lemma_count_char_concat("<p>"@ + line, "</p>\n"@, '\n');
    }
}

/// No line the splitting yields contains a newline.
proof fn lemma_lines_have_no_newline(s: Seq<char>, from: int)
    ensures
        forall|j: int, i: int|
            0 <= j < spec_lines_from(s, from).len() && 0 <= i < spec_lines_from(s, from)[j].len()
                ==> spec_lines_from(s, from)[j][i] != '\n',
    decreases s.len() - from,
{
    if 0 <= from < s.len() {
        let nl = char_index_from(s, from, '\n');
        lemma_char_index_from(s, from, '\n');
        let ls = spec_lines_from(s, from);
        if nl >= s.len() {
            let line0 = s.subrange(from, s.len() as int);
            assert forall|i: int| 0 <= i < line0.len() implies line0[i] != '\n' by {
                assert(line0[i] == s[from + i]);
            }
            assert forall|j: int, i: int|
                0 <= j < ls.len() && 0 <= i < ls[j].len() implies ls[j][i] != '\n' by {
                assert(ls[j] == line0);
            }
        } else {
            lemma_lines_have_no_newline(s, nl + 1);
            let sub = s.subrange(from, nl);
            let head = strip_cr(sub);
            let rest = spec_lines_from(s, nl + 1);
            assert forall|i: int| 0 <= i < head.len() implies head[i] != '\n' by {
                assert(head[i] == sub[i]);
                assert(sub[i] == s[from + i]);
            }
            assert forall|j: int, i: int|
                0 <= j < ls.len() && 0 <= i < ls[j].len() implies ls[j][i] != '\n' by {
                if j == 0 {
                    assert(ls[j] == head);
                } else {
                    assert(ls[j] == rest[j - 1]);
                }
            }
        }
    }
}

/// Rendering N lines yields exactly N top-level elements: each line
/// contributes one element, and an element holds exactly one newline (its
/// terminator), so the output's newline count is the line count.
proof fn lemma_render_lines_count(ls: Seq<Seq<char>>)
    requires
        forall|j: int, i: int| 0 <= j < ls.len() && 0 <= i < ls[j].len() ==> ls[j][i] != '\n',
    ensures
        count_char(render_lines(ls), '\n') == ls.len(),
    decreases ls.len(),
{
    if ls.len() > 0 {
        lemma_render_line_one_newline(ls[0]);
        lemma_render_lines_count(ls.skip(1));
        lemma_count_char_concat(spec_render_line(ls[0]), render_lines(ls.skip(1)), '\n');
    }
}

/// Rendering a document of N lines yields exactly N top-level elements:
/// every element ends in exactly one newline, and the whole output holds
/// one newline per source line.
pub proof fn lemma_n_lines_n_elements(md: Seq<char>)
    ensures
        count_char(spec_markdown_to_html(md), '\n') == spec_lines(md).len(),
{
    lemma_lines_have_no_newline(md, 0);
    lemma_render_lines_count(spec_lines(md));
}

} // verus!
