use sitegen::render::markdown_to_html;

#[test]
fn heading_levels_render() {
    assert_eq!(markdown_to_html("# Hi"), "<h1>Hi</h1>\n");
    assert_eq!(markdown_to_html("## Hi"), "<h2>Hi</h2>\n");
    assert_eq!(markdown_to_html("### Hi"), "<h3>Hi</h3>\n");
    assert_eq!(markdown_to_html("#### Hi"), "<h4>Hi</h4>\n");
    assert_eq!(markdown_to_html("##### Hi"), "<h5>Hi</h5>\n");
    assert_eq!(markdown_to_html("###### Hi"), "<h6>Hi</h6>\n");
}

#[test]
fn seven_hashes_is_a_paragraph() {
    assert_eq!(markdown_to_html("####### deep"), "<p>####### deep</p>\n");
}

#[test]
fn hash_without_space_is_a_paragraph() {
    assert_eq!(markdown_to_html("#nospace"), "<p>#nospace</p>\n");
}

#[test]
fn heading_keeps_rest_of_line() {
    assert_eq!(markdown_to_html("## a # b"), "<h2>a # b</h2>\n");
}

#[test]
fn link_line_renders() {
    assert_eq!(
        markdown_to_html("[go](http://x)"),
        "<a href=\"http://x\">go</a>\n"
    );
}

#[test]
fn link_with_empty_target() {
    assert_eq!(markdown_to_html("[a]()"), "<a href=\"\">a</a>\n");
}

#[test]
fn link_pattern_does_not_span_lines() {
    // The pattern is evaluated per line: split across two lines it renders
    // as two paragraphs.
    assert_eq!(
        markdown_to_html("[go](\nhttp://x)"),
        "<p>[go](</p>\n<p>http://x)</p>\n"
    );
}

#[test]
fn link_without_closing_paren_is_a_paragraph() {
    assert_eq!(markdown_to_html("[a](b"), "<p>[a](b</p>\n");
}

#[test]
fn link_with_paren_before_open_is_a_paragraph() {
    // The first `)` precedes the first `(`: no well-formed target slice.
    assert_eq!(markdown_to_html("[a)](x"), "<p>[a)](x</p>\n");
}

#[test]
fn link_takes_first_closing_paren() {
    assert_eq!(markdown_to_html("[a](b)(c)"), "<a href=\"b\">a</a>\n");
}

#[test]
fn every_line_is_one_element() {
    // Three lines, blank one included, give exactly three elements.
    assert_eq!(
        markdown_to_html("a\n\nb"),
        "<p>a</p>\n<p></p>\n<p>b</p>\n"
    );
}

#[test]
fn blank_line_is_an_empty_paragraph() {
    assert_eq!(markdown_to_html("\n"), "<p></p>\n");
}

#[test]
fn trailing_newline_adds_no_element() {
    assert_eq!(markdown_to_html("a\n"), "<p>a</p>\n");
}

#[test]
fn empty_document_renders_empty() {
    assert_eq!(markdown_to_html(""), "");
}

#[test]
fn carriage_returns_before_newlines_are_stripped() {
    assert_eq!(markdown_to_html("# Hi\r\nx\r\n"), "<h1>Hi</h1>\n<p>x</p>\n");
}

#[test]
fn mixed_document_renders_in_order() {
    assert_eq!(
        markdown_to_html("# T\npara\n[l](u)"),
        "<h1>T</h1>\n<p>para</p>\n<a href=\"u\">l</a>\n"
    );
}
